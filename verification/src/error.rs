use vstd::prelude::*;

verus! {

/// The two failure kinds of the registry. Both are fatal to the invocation
/// that raised them: the host binding reverts, so a failed operation leaves
/// no partial state change behind.
#[derive(Clone, Copy, Debug, PartialEq, Eq, Structural)]
pub enum Error {
    /// A direct, non-renouncing transfer targeted the zero/empty identity.
    ZeroAddress,
    /// The caller is not the identity the operation demands: the current
    /// owner for a transfer, the current pending owner for a claim.
    Forbidden,
}

impl Error {
    /// The numeric user-error code under which the host reports this error.
    pub open spec fn spec_code(self) -> u16 {
        match self {
            Error::ZeroAddress => 0,
            Error::Forbidden => 1,
        }
    }

    pub fn code(&self) -> (r: u16)
        ensures
            r == self.spec_code(),
    {
        match self {
            Error::ZeroAddress => 0,
            Error::Forbidden => 1,
        }
    }
}

} // verus!
