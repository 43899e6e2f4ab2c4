use vstd::prelude::*;

verus! {

/// Rounding rule applied to computed prayer times.
#[derive(PartialEq, Eq, Structural, Debug, Copy, Clone)]
pub enum Rounding {
    Nearest,
    Up,
    /// No rounding: the time is kept as computed.
    NoRounding,
}

} // verus!
