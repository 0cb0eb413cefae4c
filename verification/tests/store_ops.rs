use multisig_program::errors::ErrorCode;
use multisig_program::keys::Pubkey;
use multisig_program::state::{MAX_INSTRUCTION_BYTES, MAX_OWNERS};
use multisig_program::store::{MultisigStore, StoreError};

fn key(n: u64) -> Pubkey {
    Pubkey::new(n, 0, 0, 0)
}

#[test]
fn quorum_lifecycle() {
    // owners [A, B, C], threshold 2: one approval is not enough, two are,
    // and an executed transaction accepts nothing further.
    let a = key(1);
    let b = key(2);
    let c = key(3);
    let mut store = MultisigStore::new();

    let wallet = store.create_wallet(vec![a, b, c], 2).unwrap();
    assert_eq!(wallet, 0);
    assert_eq!(store.threshold(wallet), Some(2));
    assert_eq!(store.proposal_count(wallet), Some(0));

    let proposal = store.create_proposal(wallet, a, vec![1, 2, 3]).unwrap();
    assert_eq!(proposal, 0);
    assert_eq!(store.proposal_count(wallet), Some(1));
    assert_eq!(store.approval_count(wallet, proposal), Some(0));

    assert_eq!(store.approve(wallet, proposal, a), Ok(()));
    assert_eq!(store.approval_count(wallet, proposal), Some(1));
    assert_eq!(store.has_approved(wallet, proposal, &a), Some(true));
    assert_eq!(store.has_approved(wallet, proposal, &b), Some(false));

    assert_eq!(
        store.execute(wallet, proposal),
        Err(StoreError::Rejected(ErrorCode::NotEnoughApprovals))
    );
    assert_eq!(store.is_executed(wallet, proposal), Some(false));

    assert_eq!(store.approve(wallet, proposal, b), Ok(()));
    assert_eq!(store.approval_count(wallet, proposal), Some(2));

    let payload = store.execute(wallet, proposal).unwrap();
    assert_eq!(payload, vec![1, 2, 3]);
    assert_eq!(store.is_executed(wallet, proposal), Some(true));

    assert_eq!(
        store.approve(wallet, proposal, c),
        Err(StoreError::Rejected(ErrorCode::TransactionAlreadyExecuted))
    );
    assert_eq!(store.approval_count(wallet, proposal), Some(2));
    assert_eq!(
        store.execute(wallet, proposal),
        Err(StoreError::Rejected(ErrorCode::TransactionAlreadyExecuted))
    );
}

#[test]
fn approve_is_idempotent_in_the_store() {
    let a = key(1);
    let mut store = MultisigStore::new();
    let wallet = store.create_wallet(vec![a, key(2)], 1).unwrap();
    let proposal = store.create_proposal(wallet, a, vec![9]).unwrap();
    assert_eq!(store.approve(wallet, proposal, a), Ok(()));
    assert_eq!(store.approve(wallet, proposal, a), Ok(()));
    assert_eq!(store.approval_count(wallet, proposal), Some(1));
}

#[test]
fn approve_by_stranger_rejected_on_fresh_proposal() {
    let mut store = MultisigStore::new();
    let wallet = store.create_wallet(vec![key(1), key(2), key(3)], 2).unwrap();
    let proposal = store.create_proposal(wallet, key(1), vec![7]).unwrap();
    let d = key(4);
    assert_eq!(
        store.approve(wallet, proposal, d),
        Err(StoreError::Rejected(ErrorCode::NotAuthorized))
    );
    assert_eq!(store.approval_count(wallet, proposal), Some(0));
    assert_eq!(store.has_approved(wallet, proposal, &d), Some(false));
}

#[test]
fn create_wallet_validation_errors() {
    let mut store = MultisigStore::new();
    assert_eq!(
        store.create_wallet(vec![key(1)], 0),
        Err(StoreError::Rejected(ErrorCode::InvalidThreshold))
    );
    assert_eq!(
        store.create_wallet(Vec::new(), 1),
        Err(StoreError::Rejected(ErrorCode::InvalidThreshold))
    );
    assert_eq!(
        store.create_wallet(vec![key(1), key(2)], 3),
        Err(StoreError::Rejected(ErrorCode::InvalidThreshold))
    );
    assert_eq!(store.wallet_count(), 0);
}

#[test]
fn create_proposal_validation_errors() {
    let mut store = MultisigStore::new();
    let wallet = store.create_wallet(vec![key(1)], 1).unwrap();
    assert_eq!(
        store.create_proposal(wallet, key(1), Vec::new()),
        Err(StoreError::Rejected(ErrorCode::EmptyInstruction))
    );
    assert_eq!(store.proposal_count(wallet), Some(0));
}

#[test]
fn capacity_limits_are_checked_first() {
    let mut store = MultisigStore::new();
    let too_many: Vec<Pubkey> = (0..(MAX_OWNERS as u64 + 1)).map(key).collect();
    // Eleven owners exceed the record even with a threshold that would be
    // invalid: capacity is validated before the state machine runs.
    assert_eq!(store.create_wallet(too_many, 0), Err(StoreError::TooManyOwners));

    let wallet = store.create_wallet(vec![key(1)], 1).unwrap();
    let oversized = vec![0u8; MAX_INSTRUCTION_BYTES + 1];
    assert_eq!(
        store.create_proposal(wallet, key(1), oversized),
        Err(StoreError::InstructionTooLarge)
    );
    let largest = vec![0u8; MAX_INSTRUCTION_BYTES];
    assert!(store.create_proposal(wallet, key(1), largest).is_ok());
}

#[test]
fn full_owner_capacity_can_reach_unanimous_quorum() {
    let owners: Vec<Pubkey> = (0..MAX_OWNERS as u64).map(key).collect();
    let mut store = MultisigStore::new();
    let wallet = store.create_wallet(owners, MAX_OWNERS as u64).unwrap();
    let proposal = store.create_proposal(wallet, key(0), vec![42]).unwrap();
    for n in 0..MAX_OWNERS as u64 {
        assert_eq!(store.approve(wallet, proposal, key(n)), Ok(()));
    }
    assert_eq!(store.approval_count(wallet, proposal), Some(MAX_OWNERS as u64));
    assert_eq!(store.execute(wallet, proposal), Ok(vec![42]));
}

#[test]
fn unknown_ids_are_reported() {
    let mut store = MultisigStore::new();
    assert_eq!(store.create_proposal(0, key(1), vec![1]), Err(StoreError::UnknownWallet));
    assert_eq!(store.approve(0, 0, key(1)), Err(StoreError::UnknownWallet));
    assert_eq!(store.execute(0, 0), Err(StoreError::UnknownWallet));

    let wallet = store.create_wallet(vec![key(1)], 1).unwrap();
    assert_eq!(store.approve(wallet, 0, key(1)), Err(StoreError::UnknownProposal));
    assert_eq!(store.execute(wallet, 0), Err(StoreError::UnknownProposal));
    assert_eq!(store.approval_count(wallet, 0), None);
    assert_eq!(store.threshold(7), None);
}

#[test]
fn ids_are_handed_out_in_creation_order() {
    let mut store = MultisigStore::new();
    let w0 = store.create_wallet(vec![key(1)], 1).unwrap();
    let w1 = store.create_wallet(vec![key(2), key(3)], 2).unwrap();
    assert_eq!((w0, w1), (0, 1));
    assert_eq!(store.wallet_count(), 2);

    let p0 = store.create_proposal(w1, key(2), vec![1]).unwrap();
    let p1 = store.create_proposal(w1, key(3), vec![2]).unwrap();
    assert_eq!((p0, p1), (0, 1));
    assert_eq!(store.proposal_count(w1), Some(2));
    // Proposals under the other wallet are unaffected.
    assert_eq!(store.proposal_count(w0), Some(0));
}

#[test]
fn executed_payload_matches_instruction() {
    let mut store = MultisigStore::new();
    let wallet = store.create_wallet(vec![key(1)], 1).unwrap();
    let payload_in = vec![0xde, 0xad, 0xbe, 0xef];
    let proposal = store.create_proposal(wallet, key(1), payload_in.clone()).unwrap();
    assert_eq!(store.instruction_bytes(wallet, proposal), Some(payload_in.clone()));
    assert_eq!(store.approve(wallet, proposal, key(1)), Ok(()));
    assert_eq!(store.execute(wallet, proposal), Ok(payload_in.clone()));
    // The record still carries the payload after execution.
    assert_eq!(store.instruction_bytes(wallet, proposal), Some(payload_in));
}

#[test]
fn is_owner_reflects_the_owner_list() {
    let mut store = MultisigStore::new();
    let wallet = store.create_wallet(vec![key(1), key(2)], 1).unwrap();
    assert_eq!(store.is_owner(wallet, &key(1)), Some(true));
    assert_eq!(store.is_owner(wallet, &key(4)), Some(false));
    assert_eq!(store.is_owner(9, &key(1)), None);
}
