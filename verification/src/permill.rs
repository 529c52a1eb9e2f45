//! Fractions of one in parts per million.

use vstd::prelude::*;

verus! {

/// The parts that make up a whole.
pub const ACCURACY: u32 = 1_000_000;

/// A fraction between zero and one, counted in parts per million.
#[derive(Clone, Copy, Debug, PartialEq, Eq, Structural)]
pub struct Permill {
    parts: u32,
}

/// What is left of `parts` when a whole is the most there can be.
pub open spec fn at_most_whole(parts: u32) -> u32 {
    if parts > ACCURACY {
        ACCURACY
    } else {
        parts
    }
}

/// The parts that `sp_arithmetic::Permill::from_parts` keeps of those it is given, read back with
/// `deconstruct`. Trusted: all of them up to a whole, and a whole where there are more.
#[verifier::external_body]
fn saturated_parts(parts: u32) -> (kept: u32)
    ensures
        kept == at_most_whole(parts),
{
    sp_arithmetic::per_things::Permill::from_parts(parts).deconstruct()
}

impl Permill {
    /// The number of parts per million.
    pub closed spec fn parts(self) -> u32 {
        self.parts
    }

    /// No fraction is more than a whole.
    #[verifier::type_invariant]
    spec fn at_most_one(self) -> bool {
        self.parts <= ACCURACY
    }

    /// The fraction of that many parts per million, or a whole where there are more.
    pub fn from_parts(parts: u32) -> (fraction: Permill)
        ensures
            fraction.parts() == at_most_whole(parts),
    {
        Permill { parts: saturated_parts(parts) }
    }

    /// The number of parts per million, never more than a whole.
    pub fn deconstruct(self) -> (parts: u32)
        ensures
            parts == self.parts(),
            parts <= ACCURACY,
    {
        proof {
            use_type_invariant(&self);
        }
        self.parts
    }
}

/// Two fractions of as many parts are the same fraction.
pub proof fn permill_is_its_parts(a: Permill, b: Permill)
    requires
        a.parts() == b.parts(),
    ensures
        a == b,
{
}

} // verus!
