use vstd::prelude::*;

verus! {

/// Setting for the Asr prayer time.
/// For the Hanafi madhab, Asr is a bit later than for the Shafi madhab.
#[derive(PartialEq, Eq, Structural, Debug, Copy, Clone)]
pub enum Madhab {
    Shafi,
    Hanafi,
}

impl Madhab {
    /// The shadow-length factor of this madhab: 1 for Shafi, 2 for Hanafi.
    pub open spec fn spec_shadow(self) -> int {
        match self {
            Madhab::Shafi => 1,
            Madhab::Hanafi => 2,
        }
    }

    /// Return the shadow-length factor used for the Asr time.
    pub fn shadow(&self) -> (factor: i32)
        ensures
            factor == self.spec_shadow(),
    {
        match self {
            Madhab::Shafi => 1,
            Madhab::Hanafi => 2,
        }
    }
}

} // verus!
