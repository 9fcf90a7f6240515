use vstd::prelude::*;

use crate::identity::{Caller, Identity};

verus! {

/// One frame of the host's invocation chain, reduced to the identities the
/// registry reads: a session call started by an account, a stored session
/// running under an account, or a stored contract calling another contract.
#[derive(Clone, Copy, Debug, PartialEq, Eq, Structural)]
pub enum CallStackEntry {
    Session { account: Identity },
    StoredSession { account: Identity, contract_package: Identity, contract: Identity },
    StoredContract { contract_package: Identity, contract: Identity },
}

/// The caller identity a single frame stands for: the account for session
/// frames (stored or not), the contract hash for contract frames.
pub open spec fn entry_caller(e: CallStackEntry) -> Caller {
    match e {
        CallStackEntry::Session { account } => Caller::Account(account),
        CallStackEntry::StoredSession { account, .. } => Caller::Account(account),
        CallStackEntry::StoredContract { contract, .. } => Caller::Contract(contract),
    }
}

/// The effective caller of the current operation: the frame immediately
/// preceding the current one in the invocation chain (the chain ends with
/// the frame now executing). A chain with fewer than two frames has no such
/// caller, which is fatal to the invocation at the host boundary.
pub fn resolve_caller(stack: &Vec<CallStackEntry>) -> (r: Option<Caller>)
    ensures
        stack@.len() < 2 ==> r is None,
        stack@.len() >= 2 ==> r == Some(entry_caller(stack@[stack@.len() - 2])),
{
    if stack.len() >= 2 {
        let e = stack[stack.len() - 2];
        match e {
            CallStackEntry::Session { account } => Some(Caller::Account(account)),
            CallStackEntry::StoredSession { account, .. } => Some(Caller::Account(account)),
            CallStackEntry::StoredContract { contract, .. } => Some(Caller::Contract(contract)),
        }
    } else {
        None
    }
}

} // verus!
