use vstd::prelude::*;

verus! {

/// Strategy for computing prayer times when the sun never rises or sets
/// (polar day/night above ~66.6° N/S). Only latitude is substituted; the
/// original longitude is always kept.
#[derive(PartialEq, Eq, Structural, Debug, Copy, Clone)]
pub enum PolarEstimation {
    /// Walk toward the equator along the same longitude until a latitude
    /// with normal sunrise and sunset is found.
    NearestLatitude,
    /// Fixed 45°N/S, original longitude kept.
    Reference45,
}

} // verus!
