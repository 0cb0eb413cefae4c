use vstd::prelude::*;

use crate::errors::ErrorCode;
use crate::keys::{key_in, Pubkey};
use crate::state::{Multisig, Transaction};
use crate::transitions::{
    approve_transition, create_multisig_transition, create_transaction_transition,
    execute_transition,
};

verus! {

// Each operation below works on a context struct holding the records it may
// read or write, together with the identity the hosting environment has
// already verified for the call. The host hands the operation exactly these
// values and persists the records afterwards; a failed call leaves every
// record unchanged.

/// The records for wallet creation: the fresh wallet record to initialise
/// and the verified identity paying for it.
pub struct CreateMultisig {
    pub multisig: Multisig,
    pub creator: Pubkey,
}

/// The records for proposing a transaction: the wallet it belongs to, the
/// fresh transaction record to initialise, and the verified creator.
pub struct CreateTransaction {
    pub multisig: Multisig,
    pub transaction: Transaction,
    pub creator: Pubkey,
}

/// The records for approving a transaction: the wallet, the transaction,
/// and the verified signer.
pub struct ApproveTransaction {
    pub multisig: Multisig,
    pub transaction: Transaction,
    pub signer: Pubkey,
}

/// The records for executing a transaction: the wallet, the transaction,
/// and the verified signer requesting execution.
pub struct ExecuteTransaction {
    pub multisig: Multisig,
    pub transaction: Transaction,
    pub signer: Pubkey,
}

/// Creates a wallet owned by `owners` with approval quorum `threshold`.
///
/// Succeeds exactly when `1 <= threshold <= owners.len()`; the threshold
/// bound is validated before the emptiness of `owners`, so an empty owner
/// list fails with `InvalidThreshold`. On success the wallet record holds
/// the owners and threshold as given and a zeroed proposal counter; on
/// failure nothing is written.
pub fn create_multisig(ctx: &mut CreateMultisig, owners: Vec<Pubkey>, threshold: u64) -> (r:
    Result<(), ErrorCode>)
    ensures
        final(ctx).creator == old(ctx).creator,
        match create_multisig_transition(owners@, threshold) {
            Ok(m) => r is Ok && final(ctx).multisig@ == m,
            Err(e) => r == Err::<(), ErrorCode>(e) && final(ctx).multisig == old(ctx).multisig,
        },
        r is Ok <==> 0 < threshold <= owners@.len(),
{
    if !(threshold > 0 && threshold <= owners.len() as u64) {
        return Err(ErrorCode::InvalidThreshold);
    }
    if owners.is_empty() {
        return Err(ErrorCode::NoOwnersProvided);
    }
    ctx.multisig.owners = owners;
    ctx.multisig.threshold = threshold;
    ctx.multisig.transaction_count = 0;
    Ok(())
}

/// Proposes a transaction carrying `instruction` under the wallet.
///
/// Succeeds exactly when `instruction` is non-empty, else fails
/// `EmptyInstruction`. On success the transaction record holds the creator
/// and the instruction, an empty approval list and a cleared `executed`
/// flag, and the wallet's proposal counter moves up by one; on failure
/// nothing is written. The creator is not required to be a wallet owner.
pub fn create_transaction(ctx: &mut CreateTransaction, instruction: Vec<u8>) -> (r: Result<
    (),
    ErrorCode,
>)
    requires
        old(ctx).multisig.transaction_count < u64::MAX,
    ensures
        final(ctx).creator == old(ctx).creator,
        match create_transaction_transition(old(ctx).multisig@, old(ctx).creator, instruction@) {
            Ok((m, t)) => r is Ok && final(ctx).multisig@ == m && final(ctx).transaction@ == t,
            Err(e) => r == Err::<(), ErrorCode>(e) && final(ctx).multisig == old(ctx).multisig
                && final(ctx).transaction == old(ctx).transaction,
        },
        r is Ok <==> instruction@.len() > 0,
{
    if instruction.is_empty() {
        return Err(ErrorCode::EmptyInstruction);
    }
    ctx.transaction.creator = ctx.creator;
    ctx.transaction.instruction = instruction;
    ctx.transaction.approved_by = Vec::new();
    ctx.transaction.executed = false;
    ctx.multisig.transaction_count = ctx.multisig.transaction_count + 1;
    Ok(())
}

/// Records the signer's approval of the transaction.
///
/// Fails `TransactionAlreadyExecuted` on an executed transaction (checked
/// first) and `NotAuthorized` when the signer is not a wallet owner; in
/// both cases nothing is written. An authorized signer is appended to the
/// approval list unless already present, so repeated approval by the same
/// owner is a no-op.
pub fn approve_transaction(ctx: &mut ApproveTransaction) -> (r: Result<(), ErrorCode>)
    ensures
        final(ctx).multisig == old(ctx).multisig,
        final(ctx).signer == old(ctx).signer,
        match approve_transition(old(ctx).multisig@, old(ctx).transaction@, old(ctx).signer) {
            Ok(t) => r is Ok && final(ctx).transaction@ == t,
            Err(e) => r == Err::<(), ErrorCode>(e) && final(ctx).transaction == old(
                ctx,
            ).transaction,
        },
        r is Ok <==> !old(ctx).transaction.executed && old(ctx).multisig.owners@.contains(
            old(ctx).signer,
        ),
{
    if ctx.transaction.executed {
        return Err(ErrorCode::TransactionAlreadyExecuted);
    }
    if !key_in(&ctx.multisig.owners, &ctx.signer) {
        return Err(ErrorCode::NotAuthorized);
    }
    if !key_in(&ctx.transaction.approved_by, &ctx.signer) {
        ctx.transaction.approved_by.push(ctx.signer);
    }
    Ok(())
}

/// Executes the transaction once its quorum is reached.
///
/// Fails `TransactionAlreadyExecuted` on an executed transaction (checked
/// first) and `NotEnoughApprovals` when fewer than `threshold` approvals
/// have been recorded; in both cases nothing is written. On success the
/// `executed` flag is set — a terminal, irreversible transition — and the
/// creator, instruction and approvals are untouched. Dispatch of the
/// instruction itself is the caller's concern: the contract here only
/// gates whether the action may proceed.
pub fn execute_transaction(ctx: &mut ExecuteTransaction) -> (r: Result<(), ErrorCode>)
    ensures
        final(ctx).multisig == old(ctx).multisig,
        final(ctx).signer == old(ctx).signer,
        match execute_transition(old(ctx).multisig@, old(ctx).transaction@) {
            Ok(t) => r is Ok && final(ctx).transaction@ == t,
            Err(e) => r == Err::<(), ErrorCode>(e) && final(ctx).transaction == old(
                ctx,
            ).transaction,
        },
        r is Ok <==> !old(ctx).transaction.executed && old(
            ctx,
        ).transaction.approved_by@.len() >= old(ctx).multisig.threshold,
{
    if ctx.transaction.executed {
        return Err(ErrorCode::TransactionAlreadyExecuted);
    }
    let num_approvals = ctx.transaction.approved_by.len() as u64;
    if num_approvals < ctx.multisig.threshold {
        return Err(ErrorCode::NotEnoughApprovals);
    }
    ctx.transaction.executed = true;
    Ok(())
}

} // verus!
