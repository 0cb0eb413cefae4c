use vstd::prelude::*;

use vstd::set_lib::lemma_len_subset;

use crate::errors::ErrorCode;
use crate::keys::Pubkey;
use crate::state::{MultisigView, TransactionView};
use crate::transitions::{
    approve_transition, create_multisig_transition, create_transaction_transition,
    execute_transition,
};

verus! {

// The laws of the state machine, each proved about the transition functions
// that the executable operations are proved to implement.

/// Law: wallet creation succeeds exactly when `1 <= threshold <=
/// owners.len()` (which forces a non-empty owner list); every other input —
/// an empty owner list included — fails `InvalidThreshold`, since the
/// threshold bound is checked before owner emptiness and no threshold
/// satisfies `0 < t <= 0`. A created wallet keeps the owners and threshold
/// as given, counts no proposals yet, and satisfies the wallet invariant.
pub proof fn lemma_create_multisig(owners: Seq<Pubkey>, threshold: u64)
    ensures
        create_multisig_transition(owners, threshold) is Ok <==> 0 < threshold <= owners.len(),
        !(0 < threshold <= owners.len()) ==> create_multisig_transition(owners, threshold)
            == Err::<MultisigView, ErrorCode>(ErrorCode::InvalidThreshold),
        create_multisig_transition(owners, threshold) matches Ok(m) ==> m.wf() && m.owners
            == owners && m.threshold == threshold && m.transaction_count == 0,
{
}

/// Law: the owner-emptiness failure is unreachable — wallet creation never
/// reports `NoOwnersProvided`, since the threshold bound is checked first
/// and already fails on an empty owner list. The error and its check exist
/// to mirror the declared validation order.
pub proof fn lemma_no_owners_error_unreachable(owners: Seq<Pubkey>, threshold: u64)
    ensures
        create_multisig_transition(owners, threshold) != Err::<MultisigView, ErrorCode>(
            ErrorCode::NoOwnersProvided,
        ),
{
}

/// Law: proposing a transaction succeeds exactly when the instruction is
/// non-empty, else fails `EmptyInstruction`. A created transaction carries
/// the creator and instruction as given, starts with no approvals and not
/// executed, satisfies the transaction invariant, and moves the wallet's
/// proposal counter — and nothing else in the wallet — up by one, so the
/// counter keeps counting every proposal ever created.
pub proof fn lemma_create_transaction(
    wallet: MultisigView,
    creator: Pubkey,
    instruction: Seq<u8>,
)
    requires
        wallet.transaction_count < u64::MAX,
    ensures
        create_transaction_transition(wallet, creator, instruction) is Ok <==> instruction.len()
            > 0,
        instruction.len() == 0 ==> create_transaction_transition(wallet, creator, instruction)
            == Err::<(MultisigView, TransactionView), ErrorCode>(ErrorCode::EmptyInstruction),
        create_transaction_transition(wallet, creator, instruction) matches Ok((m, t)) ==> {
            &&& m.owners == wallet.owners
            &&& m.threshold == wallet.threshold
            &&& m.transaction_count == wallet.transaction_count + 1
            &&& (wallet.wf() ==> m.wf())
            &&& t.creator == creator
            &&& t.instruction == instruction
            &&& t.approved_by.len() == 0
            &&& !t.executed
            &&& t.wf(m)
        },
{
}

/// Law: approval is idempotent — approving again with the same signer
/// returns the state of the first approval unchanged.
pub proof fn lemma_approve_idempotent(wallet: MultisigView, tx: TransactionView, signer: Pubkey)
    ensures
        approve_transition(wallet, tx, signer) matches Ok(t1) ==> approve_transition(
            wallet,
            t1,
            signer,
        ) == Ok::<TransactionView, ErrorCode>(t1),
{
    if approve_transition(wallet, tx, signer) is Ok {
        let t1 = approve_transition(wallet, tx, signer)->Ok_0;
        if !tx.approved_by.contains(signer) {
            assert(t1.approved_by[tx.approved_by.len() as int] == signer);
        }
        assert(t1.approved_by.contains(signer));
    }
}

/// Law: approval by a non-owner always fails and mutates nothing; on a
/// transaction not yet executed the error is `NotAuthorized` (an executed
/// transaction reports `TransactionAlreadyExecuted` first). That a failed
/// approval leaves the records unchanged is part of the contract of
/// `program::approve_transaction`.
pub proof fn lemma_approve_non_owner(wallet: MultisigView, tx: TransactionView, signer: Pubkey)
    requires
        !wallet.owners.contains(signer),
    ensures
        approve_transition(wallet, tx, signer) is Err,
        !tx.executed ==> approve_transition(wallet, tx, signer) == Err::<
            TransactionView,
            ErrorCode,
        >(ErrorCode::NotAuthorized),
{
}

/// Law: execution succeeds exactly when the transaction is not yet executed
/// and carries at least `threshold` approvals. On success the `executed`
/// flag is permanently set and everything else is untouched, and a second
/// execution fails `TransactionAlreadyExecuted`.
pub proof fn lemma_execute(wallet: MultisigView, tx: TransactionView)
    ensures
        execute_transition(wallet, tx) is Ok <==> !tx.executed && tx.approved_by.len()
            >= wallet.threshold,
        execute_transition(wallet, tx) matches Ok(t1) ==> {
            &&& t1.executed
            &&& t1.approved_by == tx.approved_by
            &&& t1.instruction == tx.instruction
            &&& t1.creator == tx.creator
            &&& execute_transition(wallet, t1) == Err::<TransactionView, ErrorCode>(
                ErrorCode::TransactionAlreadyExecuted,
            )
        },
{
}

/// Law: an executed transaction is frozen — both approval and execution
/// fail `TransactionAlreadyExecuted`, so no transition ever changes its
/// approvals or clears its flag.
pub proof fn lemma_executed_is_frozen(wallet: MultisigView, tx: TransactionView, signer: Pubkey)
    requires
        tx.executed,
    ensures
        approve_transition(wallet, tx, signer) == Err::<TransactionView, ErrorCode>(
            ErrorCode::TransactionAlreadyExecuted,
        ),
        execute_transition(wallet, tx) == Err::<TransactionView, ErrorCode>(
            ErrorCode::TransactionAlreadyExecuted,
        ),
{
}

/// Law: a successful approval preserves the transaction invariant — the
/// approval list stays duplicate-free and within the wallet's owners.
pub proof fn lemma_approve_preserves_wf(
    wallet: MultisigView,
    tx: TransactionView,
    signer: Pubkey,
)
    requires
        tx.wf(wallet),
    ensures
        approve_transition(wallet, tx, signer) matches Ok(t1) ==> t1.wf(wallet),
{
    if approve_transition(wallet, tx, signer) matches Ok(t1) {
        if !tx.approved_by.contains(signer) {
            let a = tx.approved_by;
            let a1 = a.push(signer);
            assert forall|i: int, j: int|
                0 <= i < a1.len() && 0 <= j < a1.len() && i != j implies a1[i] != a1[j] by {
                if i < a.len() && j < a.len() {
                } else if i == a.len() && a1[i] == a1[j] {
                    assert(a[j] == signer);
                    assert(a.contains(signer));
                } else if j == a.len() && a1[i] == a1[j] {
                    assert(a[i] == signer);
                    assert(a.contains(signer));
                }
            }
            assert(a1.no_duplicates());
        }
    }
}

/// Law: a successful execution preserves the transaction invariant.
pub proof fn lemma_execute_preserves_wf(wallet: MultisigView, tx: TransactionView)
    requires
        tx.wf(wallet),
    ensures
        execute_transition(wallet, tx) matches Ok(t1) ==> t1.wf(wallet),
{
}

/// Law: a successful approval records exactly the signer — the set of
/// distinct approvers afterwards is the set before with the signer added,
/// whether or not the signer had already approved.
pub proof fn lemma_approve_records_signer(
    wallet: MultisigView,
    tx: TransactionView,
    signer: Pubkey,
)
    ensures
        approve_transition(wallet, tx, signer) matches Ok(t1) ==> t1.approval_set()
            == tx.approval_set().insert(signer),
{
    if approve_transition(wallet, tx, signer) matches Ok(t1) {
        if tx.approved_by.contains(signer) {
            assert(tx.approval_set().insert(signer) =~= tx.approval_set());
        } else {
            tx.approved_by.lemma_push_to_set_commute(signer);
        }
    }
}

/// Law: approvals commute — two distinct authorized approvals in either
/// order leave the transaction with the same set of distinct approvers and
/// the same creator, instruction and execution flag. Together with
/// idempotence, the approval set is determined solely by which authorized
/// owners have ever approved, not by how often or in what order.
pub proof fn lemma_approve_commutes(
    wallet: MultisigView,
    tx: TransactionView,
    s1: Pubkey,
    s2: Pubkey,
)
    requires
        !tx.executed,
        wallet.owners.contains(s1),
        wallet.owners.contains(s2),
    ensures
        approve_transition(wallet, tx, s1) is Ok,
        approve_transition(wallet, tx, s2) is Ok,
        ({
            let t12 = approve_transition(
                wallet,
                approve_transition(wallet, tx, s1)->Ok_0,
                s2,
            );
            let t21 = approve_transition(
                wallet,
                approve_transition(wallet, tx, s2)->Ok_0,
                s1,
            );
            &&& t12 is Ok
            &&& t21 is Ok
            &&& t12->Ok_0.approval_set() == t21->Ok_0.approval_set()
            &&& t12->Ok_0.creator == t21->Ok_0.creator
            &&& t12->Ok_0.instruction == t21->Ok_0.instruction
            &&& t12->Ok_0.executed == t21->Ok_0.executed
        }),
{
    let t1 = approve_transition(wallet, tx, s1)->Ok_0;
    let t2 = approve_transition(wallet, tx, s2)->Ok_0;
    lemma_approve_records_signer(wallet, tx, s1);
    lemma_approve_records_signer(wallet, tx, s2);
    lemma_approve_records_signer(wallet, t1, s2);
    lemma_approve_records_signer(wallet, t2, s1);
    assert(tx.approval_set().insert(s1).insert(s2) =~= tx.approval_set().insert(s2).insert(s1));
}

/// Law: under the transaction invariant, the length of the approval list —
/// the quantity `execute` compares against the threshold — equals the
/// number of distinct owners who have approved.
pub proof fn lemma_approval_count_is_distinct_signers(wallet: MultisigView, tx: TransactionView)
    requires
        tx.wf(wallet),
    ensures
        tx.approved_by.len() == tx.approval_set().len(),
{
    tx.approved_by.unique_seq_to_set();
}

/// Law: under the invariants, a transaction can never hold more approvals
/// than its wallet has owners — so a record sized for the wallet's owner
/// capacity can always hold the approvals.
pub proof fn lemma_approvals_within_capacity(wallet: MultisigView, tx: TransactionView)
    requires
        tx.wf(wallet),
    ensures
        tx.approved_by.len() <= wallet.owners.len(),
{
    broadcast use vstd::seq_lib::seq_to_set_is_finite;

    tx.approved_by.unique_seq_to_set();
    assert forall|k: Pubkey| tx.approval_set().contains(k) implies wallet.owner_set().contains(
        k,
    ) by {
        let i = choose|i: int|
            0 <= i < tx.approved_by.len() && tx.approved_by[i] == k;
        assert(wallet.owners.contains(tx.approved_by[i]));
    }
    lemma_len_subset(tx.approval_set(), wallet.owner_set());
    wallet.owners.lemma_cardinality_of_set();
}

} // verus!
