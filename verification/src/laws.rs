use vstd::prelude::*;

use crate::error::Error;
use crate::identity::{Caller, Identity};
use crate::registry::{
    bootstrap_view, claim_post, claim_result, transfer_post, transfer_result, OwnershipView,
};

verus! {

/// After the bootstrap establishes owner `o`, a read of the owner yields `o`
/// and a read of the pending owner yields the zero identity.
pub proof fn lemma_bootstrap_reads(o: Identity)
    ensures
        bootstrap_view(o).owner == o,
        bootstrap_view(o).pending_owner == Identity::spec_zero(),
{
}

/// Reads are pure: the getters' contracts pin each result to the current
/// state, so any two reads with no intervening write return equal values —
/// and a read borrows the registry immutably, so it cannot write.
pub proof fn lemma_repeated_reads_agree(
    s: OwnershipView,
    owner_read1: Identity,
    owner_read2: Identity,
    pending_read1: Identity,
    pending_read2: Identity,
)
    requires
        owner_read1 == s.owner,
        owner_read2 == s.owner,
        pending_read1 == s.pending_owner,
        pending_read2 == s.pending_owner,
    ensures
        owner_read1 == owner_read2,
        pending_read1 == pending_read2,
{
}

/// A registry whose owner and pending owner both hold the zero identity —
/// the state an explicit renunciation leaves behind — is irreversibly
/// locked: no caller other than the zero account itself can pass either
/// authorization gate again, so every transfer and every claim fails with
/// `Forbidden` and changes nothing. (A caller that *is* the zero account
/// would match the zero owner; the host never resolves one.)
pub proof fn lemma_renounced_state_is_locked(
    s: OwnershipView,
    caller: Caller,
    new_owner: Identity,
    direct: bool,
    renounce: bool,
)
    requires
        s.owner == Identity::spec_zero(),
        s.pending_owner == Identity::spec_zero(),
        caller != Caller::Account(Identity::spec_zero()),
    ensures
        transfer_result(s, caller, new_owner, direct, renounce) == Err::<(), Error>(Error::Forbidden),
        transfer_post(s, caller, new_owner, direct, renounce) == s,
        claim_result(s, caller) == Err::<(), Error>(Error::Forbidden),
        claim_post(s, caller) == s,
{
}

/// A successful claim cannot be repeated: once pending owner `p` has claimed
/// ownership, the pending slot is reset, so a second claim by `p` — now the
/// owner, no longer pending — fails with `Forbidden` and changes nothing.
/// Stated for `p` other than the zero identity, which would again match the
/// reset pending slot.
pub proof fn lemma_claim_not_repeatable(s: OwnershipView, p: Identity)
    requires
        s.pending_owner == p,
        p != Identity::spec_zero(),
    ensures
        claim_result(s, Caller::Account(p)) == Ok::<(), Error>(()),
        claim_post(s, Caller::Account(p)).owner == p,
        claim_post(s, Caller::Account(p)).pending_owner == Identity::spec_zero(),
        claim_result(claim_post(s, Caller::Account(p)), Caller::Account(p)) == Err::<(), Error>(
            Error::Forbidden,
        ),
        claim_post(claim_post(s, Caller::Account(p)), Caller::Account(p)) == claim_post(
            s,
            Caller::Account(p),
        ),
{
}

} // verus!
