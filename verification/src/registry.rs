use vstd::prelude::*;

use crate::error::Error;
use crate::identity::{Caller, Identity};

verus! {

/// The abstract state of the registry: the two persisted identities, each
/// read through get-or-default semantics (an absent slot reads as the zero
/// identity).
pub struct OwnershipView {
    pub owner: Identity,
    pub pending_owner: Identity,
}

/// The value a get-or-default read of a storage slot yields: the stored
/// identity, or the zero identity while the slot has never been written.
pub open spec fn slot_value(slot: Option<Identity>) -> Identity {
    match slot {
        None => Identity::spec_zero(),
        Some(v) => v,
    }
}

/// The state the bootstrap call establishes: `owner` set, `pending_owner`
/// still unset.
pub open spec fn bootstrap_view(owner: Identity) -> OwnershipView {
    OwnershipView { owner, pending_owner: Identity::spec_zero() }
}

/// What `transfer_ownership` returns, as a function of the state and the
/// arguments: `Forbidden` unless the caller is the account that owns the
/// resource; then, for a direct transfer, `ZeroAddress` when the target is
/// the zero identity and the renounce flag does not sanction it; otherwise
/// success.
pub open spec fn transfer_result(
    s: OwnershipView,
    caller: Caller,
    new_owner: Identity,
    direct: bool,
    renounce: bool,
) -> Result<(), Error> {
    if caller != Caller::Account(s.owner) {
        Err(Error::Forbidden)
    } else if direct && new_owner == Identity::spec_zero() && !renounce {
        Err(Error::ZeroAddress)
    } else {
        Ok(())
    }
}

/// The state `transfer_ownership` leaves behind: unchanged on failure; on a
/// direct transfer the owner becomes `new_owner` and the pending owner is
/// untouched; on a two-phase proposal the pending owner becomes `new_owner`
/// and the owner is untouched.
pub open spec fn transfer_post(
    s: OwnershipView,
    caller: Caller,
    new_owner: Identity,
    direct: bool,
    renounce: bool,
) -> OwnershipView {
    if transfer_result(s, caller, new_owner, direct, renounce) is Err {
        s
    } else if direct {
        OwnershipView { owner: new_owner, pending_owner: s.pending_owner }
    } else {
        OwnershipView { owner: s.owner, pending_owner: new_owner }
    }
}

/// What `claim_ownership` returns: `Forbidden` unless the caller is the
/// account currently proposed as pending owner.
pub open spec fn claim_result(s: OwnershipView, caller: Caller) -> Result<(), Error> {
    if caller != Caller::Account(s.pending_owner) {
        Err(Error::Forbidden)
    } else {
        Ok(())
    }
}

/// The state `claim_ownership` leaves behind: unchanged on failure; on
/// success the pending owner becomes the owner and the pending slot resets
/// to the zero identity.
pub open spec fn claim_post(s: OwnershipView, caller: Caller) -> OwnershipView {
    if claim_result(s, caller) is Err {
        s
    } else {
        OwnershipView { owner: s.pending_owner, pending_owner: Identity::spec_zero() }
    }
}

/// The ownership registry: the two persistent slots and the operations that
/// read and change them. A slot of `None` models a key the store has never
/// written; it reads as the zero identity. The host binding loads the slots,
/// runs one operation, and writes back what changed; on an `Err` it reverts,
/// and the contracts guarantee the state is then exactly what it was.
pub struct OwnershipRegistry {
    owner_slot: Option<Identity>,
    pending_owner_slot: Option<Identity>,
}

impl View for OwnershipRegistry {
    type V = OwnershipView;

    closed spec fn view(&self) -> OwnershipView {
        OwnershipView {
            owner: slot_value(self.owner_slot),
            pending_owner: slot_value(self.pending_owner_slot),
        }
    }
}

impl OwnershipRegistry {
    /// A registry over fresh storage: neither slot has ever been written,
    /// so both read as the zero identity.
    pub fn new() -> (r: OwnershipRegistry)
        ensures
            r@ == (OwnershipView {
                owner: Identity::spec_zero(),
                pending_owner: Identity::spec_zero(),
            }),
    {
        OwnershipRegistry { owner_slot: None, pending_owner_slot: None }
    }

    /// A registry whose slots hold the given values; the host binding builds
    /// one from the two stored identities before running an operation.
    pub fn from_parts(owner: Identity, pending_owner: Identity) -> (r: OwnershipRegistry)
        ensures
            r@ == (OwnershipView { owner, pending_owner }),
    {
        OwnershipRegistry { owner_slot: Some(owner), pending_owner_slot: Some(pending_owner) }
    }

    /// The bootstrap entry, run once at resource creation and not subject to
    /// authorization: it establishes the first owner over fresh storage.
    pub fn call(owner: Identity) -> (r: OwnershipRegistry)
        ensures
            r@ == bootstrap_view(owner),
    {
        let mut r = OwnershipRegistry::new();
        r.owner_slot = Some(owner);
        r
    }

    /// A get-or-default read of one slot.
    fn read_slot(slot: &Option<Identity>) -> (r: Identity)
        ensures
            r == slot_value(*slot),
    {
        match slot {
            None => Identity::zero(),
            Some(v) => *v,
        }
    }

    /// The current owner, or the zero identity if never set. No
    /// authorization, no side effect.
    pub fn owner(&self) -> (r: Identity)
        ensures
            r == self@.owner,
    {
        OwnershipRegistry::read_slot(&self.owner_slot)
    }

    /// The current pending owner, or the zero identity if never set. No
    /// authorization, no side effect.
    pub fn pending_owner(&self) -> (r: Identity)
        ensures
            r == self@.pending_owner,
    {
        OwnershipRegistry::read_slot(&self.pending_owner_slot)
    }

    /// The authorization gate of `transfer_ownership`: only the account that
    /// is the current owner passes.
    fn only_owner(&self, caller: Caller) -> (r: Result<(), Error>)
        ensures
            r == (if caller == Caller::Account(self@.owner) {
                Ok::<(), Error>(())
            } else {
                Err::<(), Error>(Error::Forbidden)
            }),
    {
        if caller == Caller::Account(self.owner()) {
            Ok(())
        } else {
            Err(Error::Forbidden)
        }
    }

    /// The authorization gate of `claim_ownership`: only the account that is
    /// the current pending owner passes.
    fn only_pending_owner(&self, caller: Caller) -> (r: Result<(), Error>)
        ensures
            r == (if caller == Caller::Account(self@.pending_owner) {
                Ok::<(), Error>(())
            } else {
                Err::<(), Error>(Error::Forbidden)
            }),
    {
        if caller == Caller::Account(self.pending_owner()) {
            Ok(())
        } else {
            Err(Error::Forbidden)
        }
    }

    /// Transfer ownership, in one of the two supported modes.
    ///
    /// Only the current owner may call this; anyone else gets `Forbidden`.
    /// With `direct` set, the owner slot is overwritten at once — unless the
    /// target is the zero identity and `renounce` is false, which is
    /// rejected as `ZeroAddress` (renouncing ownership on purpose demands
    /// the explicit flag). With `direct` unset, the target is only proposed:
    /// the pending slot is overwritten and the owner is unchanged, with no
    /// zero guard. Exactly one slot changes, or none on failure.
    pub fn transfer_ownership(
        &mut self,
        caller: Caller,
        new_owner: Identity,
        direct: bool,
        renounce: bool,
    ) -> (r: Result<(), Error>)
        ensures
            r == transfer_result(old(self)@, caller, new_owner, direct, renounce),
            final(self)@ == transfer_post(old(self)@, caller, new_owner, direct, renounce),
            r is Err ==> *final(self) == *old(self),
    {
        match self.only_owner(caller) {
            Err(e) => Err(e),
            Ok(()) => {
                if direct {
                    if !new_owner.is_zero() || renounce {
                        self.owner_slot = Some(new_owner);
                        Ok(())
                    } else {
                        Err(Error::ZeroAddress)
                    }
                } else {
                    self.pending_owner_slot = Some(new_owner);
                    Ok(())
                }
            },
        }
    }

    /// Claim a proposed ownership transfer.
    ///
    /// Only the account currently stored as pending owner may call this;
    /// anyone else gets `Forbidden`. On success the caller becomes the
    /// owner and the pending slot resets to the zero identity; on failure
    /// nothing changes.
    pub fn claim_ownership(&mut self, caller: Caller) -> (r: Result<(), Error>)
        ensures
            r == claim_result(old(self)@, caller),
            final(self)@ == claim_post(old(self)@, caller),
            r is Err ==> *final(self) == *old(self),
    {
        match self.only_pending_owner(caller) {
            Err(e) => Err(e),
            Ok(()) => {
                let p = self.pending_owner();
                self.owner_slot = Some(p);
                self.pending_owner_slot = Some(Identity::zero());
                Ok(())
            },
        }
    }
}

} // verus!
