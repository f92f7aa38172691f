//! The value a fetch produces: a coordinate pair or the reason there is none.

use vstd::prelude::*;

verus! {

/// A fetch result as contracts see it: the reason is a sequence of characters.
pub enum Outcome {
    Success { latitude: u64, longitude: u64 },
    Failure { reason: Seq<char> },
}

/// The result of one attempt to read the last known fix.
///
/// Exactly one variant is populated. A coordinate is held as the 64 bits of
/// the IEEE 754 double the platform returned, so that it passes through this
/// library bit for bit.
#[derive(Debug, PartialEq, Eq)]
pub enum CoordinateResult {
    Success { latitude: u64, longitude: u64 },
    Failure { reason: String },
}

impl View for CoordinateResult {
    type V = Outcome;

    open spec fn view(&self) -> Outcome {
        match *self {
            CoordinateResult::Success { latitude, longitude } => Outcome::Success {
                latitude,
                longitude,
            },
            CoordinateResult::Failure { reason } => Outcome::Failure { reason: reason@ },
        }
    }
}

impl CoordinateResult {
    /// A successful result holding the two coordinates as given.
    pub fn success(latitude: u64, longitude: u64) -> (result: CoordinateResult)
        ensures
            result@ == (Outcome::Success { latitude, longitude }),
    {
        CoordinateResult::Success { latitude, longitude }
    }

    /// A failed result with the given reason, kept verbatim.
    pub fn failure(reason: String) -> (result: CoordinateResult)
        ensures
            result@ == (Outcome::Failure { reason: reason@ }),
    {
        CoordinateResult::Failure { reason }
    }

    /// Whether the result holds coordinates.
    pub fn is_success(&self) -> (yes: bool)
        ensures
            yes == (self@ is Success),
    {
        match self {
            CoordinateResult::Success { .. } => true,
            CoordinateResult::Failure { .. } => false,
        }
    }
}

} // verus!
