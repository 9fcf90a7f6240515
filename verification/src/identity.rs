use vstd::prelude::*;

verus! {

/// An identity value: an opaque, comparable identifier of a principal, such
/// as an account or a contract. A 256-bit hash, held as four 64-bit limbs so
/// that equality is plain field equality. The all-zero identity is the
/// distinguished "unset" value.
#[derive(Clone, Copy, Debug, PartialEq, Eq, Structural)]
pub struct Identity {
    pub w0: u64,
    pub w1: u64,
    pub w2: u64,
    pub w3: u64,
}

impl Identity {
    /// The zero/empty identity, the default of a never-written storage slot.
    pub open spec fn spec_zero() -> Identity {
        Identity { w0: 0, w1: 0, w2: 0, w3: 0 }
    }

    pub fn new(w0: u64, w1: u64, w2: u64, w3: u64) -> (r: Identity)
        ensures
            r == (Identity { w0, w1, w2, w3 }),
    {
        Identity { w0, w1, w2, w3 }
    }

    pub fn zero() -> (r: Identity)
        ensures
            r == Identity::spec_zero(),
    {
        Identity { w0: 0, w1: 0, w2: 0, w3: 0 }
    }

    pub fn is_zero(&self) -> (r: bool)
        ensures
            r == (*self == Identity::spec_zero()),
    {
        self.w0 == 0 && self.w1 == 0 && self.w2 == 0 && self.w3 == 0
    }
}

/// The effective caller of an operation, as the host's invocation chain
/// reports it: either an account (a session call, stored or not) or another
/// contract. A contract caller never compares equal to an account, so it can
/// never pass an authorization check against a stored account identity.
#[derive(Clone, Copy, Debug, PartialEq, Eq, Structural)]
pub enum Caller {
    Account(Identity),
    Contract(Identity),
}

} // verus!
