use vstd::prelude::*;

verus! {

/// Twilight used by the Moonsighting Committee method to determine Isha.
#[derive(PartialEq, Eq, Structural, Debug, Copy, Clone)]
pub enum Shafaq {
    /// Combination of Ahmer and Abyad.
    General,
    /// Red twilight: earlier Isha.
    Ahmer,
    /// White twilight: later Isha.
    Abyad,
}

} // verus!
