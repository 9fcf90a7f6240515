use boring_ownable::{CallStackEntry, Caller, Error, Identity, OwnershipRegistry, resolve_caller};

fn id(n: u64) -> Identity {
    Identity::new(n, n + 1, n + 2, n + 3)
}

#[test]
fn fresh_registry_reads_zero() {
    let reg = OwnershipRegistry::new();
    assert_eq!(reg.owner(), Identity::zero());
    assert_eq!(reg.pending_owner(), Identity::zero());
}

#[test]
fn bootstrap_sets_owner_and_clears_pending() {
    let o = id(10);
    let reg = OwnershipRegistry::call(o);
    assert_eq!(reg.owner(), o);
    assert_eq!(reg.pending_owner(), Identity::zero());
}

#[test]
fn reads_are_stable_between_calls() {
    let reg = OwnershipRegistry::call(id(10));
    let first = reg.owner();
    let second = reg.owner();
    assert_eq!(first, second);
    let p1 = reg.pending_owner();
    let p2 = reg.pending_owner();
    assert_eq!(p1, p2);
    assert_eq!(reg.owner(), first);
}

#[test]
fn transfer_by_non_owner_is_forbidden() {
    let o = id(10);
    let stranger = id(50);
    let mut reg = OwnershipRegistry::call(o);
    let r = reg.transfer_ownership(Caller::Account(stranger), id(20), true, false);
    assert_eq!(r, Err(Error::Forbidden));
    assert_eq!(reg.owner(), o);
    assert_eq!(reg.pending_owner(), Identity::zero());
}

#[test]
fn direct_transfer_to_zero_without_renounce_is_zero_address() {
    let o = id(10);
    let mut reg = OwnershipRegistry::call(o);
    let r = reg.transfer_ownership(Caller::Account(o), Identity::zero(), true, false);
    assert_eq!(r, Err(Error::ZeroAddress));
    assert_eq!(reg.owner(), o);
}

#[test]
fn direct_transfer_to_new_owner_succeeds() {
    let o = id(10);
    let n = id(20);
    let mut reg = OwnershipRegistry::call(o);
    let r = reg.transfer_ownership(Caller::Account(o), n, true, false);
    assert_eq!(r, Ok(()));
    assert_eq!(reg.owner(), n);
    assert_eq!(reg.pending_owner(), Identity::zero());
}

#[test]
fn renounce_clears_owner_and_locks_registry() {
    let o = id(10);
    let mut reg = OwnershipRegistry::call(o);
    let r = reg.transfer_ownership(Caller::Account(o), Identity::zero(), true, true);
    assert_eq!(r, Ok(()));
    assert!(reg.owner().is_zero());
    assert_eq!(reg.pending_owner(), Identity::zero());

    // Nobody — not even the previous owner — can operate on it any more.
    let r2 = reg.transfer_ownership(Caller::Account(o), id(20), true, false);
    assert_eq!(r2, Err(Error::Forbidden));
    let r3 = reg.transfer_ownership(Caller::Account(id(20)), id(20), false, false);
    assert_eq!(r3, Err(Error::Forbidden));
    let r4 = reg.claim_ownership(Caller::Account(o));
    assert_eq!(r4, Err(Error::Forbidden));
    assert!(reg.owner().is_zero());
    assert_eq!(reg.pending_owner(), Identity::zero());
}

#[test]
fn two_phase_transfer_sets_pending_only() {
    let o = id(10);
    let p = id(30);
    let mut reg = OwnershipRegistry::call(o);
    let r = reg.transfer_ownership(Caller::Account(o), p, false, false);
    assert_eq!(r, Ok(()));
    assert_eq!(reg.owner(), o);
    assert_eq!(reg.pending_owner(), p);
}

#[test]
fn two_phase_proposal_of_zero_is_allowed() {
    // Proposing is not committing: no zero guard applies.
    let o = id(10);
    let mut reg = OwnershipRegistry::call(o);
    let r = reg.transfer_ownership(Caller::Account(o), Identity::zero(), false, false);
    assert_eq!(r, Ok(()));
    assert_eq!(reg.owner(), o);
    assert_eq!(reg.pending_owner(), Identity::zero());
}

#[test]
fn claim_by_pending_owner_transfers_and_resets() {
    let o = id(10);
    let p = id(30);
    let mut reg = OwnershipRegistry::call(o);
    reg.transfer_ownership(Caller::Account(o), p, false, false).unwrap();
    let r = reg.claim_ownership(Caller::Account(p));
    assert_eq!(r, Ok(()));
    assert_eq!(reg.owner(), p);
    assert_eq!(reg.pending_owner(), Identity::zero());
}

#[test]
fn second_claim_by_same_account_is_forbidden() {
    let o = id(10);
    let p = id(30);
    let mut reg = OwnershipRegistry::call(o);
    reg.transfer_ownership(Caller::Account(o), p, false, false).unwrap();
    reg.claim_ownership(Caller::Account(p)).unwrap();
    let r = reg.claim_ownership(Caller::Account(p));
    assert_eq!(r, Err(Error::Forbidden));
    assert_eq!(reg.owner(), p);
    assert_eq!(reg.pending_owner(), Identity::zero());
}

#[test]
fn claim_by_non_pending_is_forbidden() {
    let o = id(10);
    let p = id(30);
    let stranger = id(50);
    let mut reg = OwnershipRegistry::call(o);
    reg.transfer_ownership(Caller::Account(o), p, false, false).unwrap();
    let r = reg.claim_ownership(Caller::Account(stranger));
    assert_eq!(r, Err(Error::Forbidden));
    // Even the current owner may not claim.
    let r2 = reg.claim_ownership(Caller::Account(o));
    assert_eq!(r2, Err(Error::Forbidden));
    assert_eq!(reg.owner(), o);
    assert_eq!(reg.pending_owner(), p);
}

#[test]
fn contract_caller_never_matches_account_owner() {
    // A contract whose hash equals the owner's account hash is still not the
    // owner: the caller kinds are distinct.
    let o = id(10);
    let mut reg = OwnershipRegistry::call(o);
    let r = reg.transfer_ownership(Caller::Contract(o), id(20), true, false);
    assert_eq!(r, Err(Error::Forbidden));
    let r2 = reg.claim_ownership(Caller::Contract(reg.pending_owner()));
    assert_eq!(r2, Err(Error::Forbidden));
    assert_eq!(reg.owner(), o);
}

#[test]
fn from_parts_reads_back_both_fields() {
    let reg = OwnershipRegistry::from_parts(id(10), id(30));
    assert_eq!(reg.owner(), id(10));
    assert_eq!(reg.pending_owner(), id(30));
}

#[test]
fn error_codes_match_host_convention() {
    assert_eq!(Error::ZeroAddress.code(), 0);
    assert_eq!(Error::Forbidden.code(), 1);
}

#[test]
fn zero_identity_is_recognized() {
    assert!(Identity::zero().is_zero());
    assert!(!id(1).is_zero());
    assert!(!Identity::new(0, 0, 0, 1).is_zero());
}

#[test]
fn resolve_caller_session_frame() {
    let stack = vec![
        CallStackEntry::Session { account: id(10) },
        CallStackEntry::StoredContract { contract_package: id(60), contract: id(70) },
    ];
    assert_eq!(resolve_caller(&stack), Some(Caller::Account(id(10))));
}

#[test]
fn resolve_caller_stored_session_frame() {
    let stack = vec![
        CallStackEntry::Session { account: id(10) },
        CallStackEntry::StoredSession { account: id(20), contract_package: id(60), contract: id(70) },
        CallStackEntry::StoredContract { contract_package: id(80), contract: id(90) },
    ];
    assert_eq!(resolve_caller(&stack), Some(Caller::Account(id(20))));
}

#[test]
fn resolve_caller_stored_contract_frame() {
    let stack = vec![
        CallStackEntry::Session { account: id(10) },
        CallStackEntry::StoredContract { contract_package: id(60), contract: id(70) },
        CallStackEntry::StoredContract { contract_package: id(80), contract: id(90) },
    ];
    assert_eq!(resolve_caller(&stack), Some(Caller::Contract(id(70))));
}

#[test]
fn resolve_caller_needs_two_frames() {
    let empty: Vec<CallStackEntry> = Vec::new();
    assert_eq!(resolve_caller(&empty), None);
    let only_current = vec![CallStackEntry::Session { account: id(10) }];
    assert_eq!(resolve_caller(&only_current), None);
}
