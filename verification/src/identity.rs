//! Caller identities: opaque tokens with equality, plus one reserved
//! sentinel that stands for an unauthenticated ("anonymous") caller.

use vstd::prelude::*;

verus! {

/// An opaque caller identity. The library only ever compares identities for
/// equality; the raw value 0 is reserved for the anonymous caller, which can
/// never register or own data.
#[derive(PartialEq, Eq, Structural, Clone, Copy, Hash, Debug)]
pub struct Identity {
    pub raw: u64,
}

impl Identity {
    /// True exactly of the reserved anonymous sentinel.
    pub open spec fn spec_is_anonymous(self) -> bool {
        self.raw == 0
    }

    /// The reserved sentinel for an unauthenticated caller.
    pub fn anonymous() -> (r: Identity)
        ensures
            r.spec_is_anonymous(),
    {
        Identity { raw: 0 }
    }

    /// An authenticated identity; `raw` must not be the reserved sentinel.
    pub fn new(raw: u64) -> (r: Identity)
        ensures
            r.raw == raw,
    {
        Identity { raw }
    }

    pub fn is_anonymous(&self) -> (r: bool)
        ensures
            r == self.spec_is_anonymous(),
    {
        self.raw == 0
    }
}

} // verus!
