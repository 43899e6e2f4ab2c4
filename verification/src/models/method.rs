use vstd::prelude::*;

verus! {

/// Calculation authority whose preset angles and offsets are used.
#[derive(PartialEq, Eq, Structural, Debug, Copy, Clone)]
pub enum Method {
    MuslimWorldLeague,
    Egyptian,
    Karachi,
    UmmAlQura,
    Dubai,
    Qatar,
    Kuwait,
    MoonsightingCommittee,
    Singapore,
    Turkey,
    Tehran,
    NorthAmerica,
    France,
    Algeria,
    Other,
}

} // verus!
