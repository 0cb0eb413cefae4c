use vstd::prelude::*;

use crate::errors::ErrorCode;
use crate::keys::Pubkey;
use crate::state::{MultisigView, TransactionView};

verus! {

// The four transition functions below are the specification of the state
// machine: each says, for every input, whether the operation succeeds and
// what the records look like afterwards. The executable operations in
// `program` are proved to return exactly these results, and the laws in
// `laws` are proved about these functions.

/// What creating a wallet returns: the threshold bound is validated first
/// (so an empty owner list surfaces `InvalidThreshold`, never
/// `NoOwnersProvided`, since no threshold satisfies `0 < t <= 0`); on
/// success the wallet starts with no transactions proposed.
pub open spec fn create_multisig_transition(owners: Seq<Pubkey>, threshold: u64) -> Result<
    MultisigView,
    ErrorCode,
> {
    if !(0 < threshold <= owners.len()) {
        Err(ErrorCode::InvalidThreshold)
    } else if owners.len() == 0 {
        Err(ErrorCode::NoOwnersProvided)
    } else {
        Ok(MultisigView { owners, threshold, transaction_count: 0 })
    }
}

/// What proposing a transaction returns: a non-empty instruction is
/// required; on success a fresh transaction starts with no approvals, not
/// yet executed, and the wallet's proposal counter moves up by one.
pub open spec fn create_transaction_transition(
    wallet: MultisigView,
    creator: Pubkey,
    instruction: Seq<u8>,
) -> Result<(MultisigView, TransactionView), ErrorCode>
    recommends
        wallet.transaction_count < u64::MAX,
{
    if instruction.len() == 0 {
        Err(ErrorCode::EmptyInstruction)
    } else {
        Ok(
            (
                MultisigView {
                    owners: wallet.owners,
                    threshold: wallet.threshold,
                    transaction_count: (wallet.transaction_count + 1) as u64,
                },
                TransactionView {
                    creator,
                    instruction,
                    approved_by: Seq::empty(),
                    executed: false,
                },
            ),
        )
    }
}

/// What approving a transaction returns: an executed transaction rejects
/// every approval; a signer outside the owner list is not authorized; an
/// authorized signer is recorded once, and approving again is a no-op.
pub open spec fn approve_transition(
    wallet: MultisigView,
    tx: TransactionView,
    signer: Pubkey,
) -> Result<TransactionView, ErrorCode> {
    if tx.executed {
        Err(ErrorCode::TransactionAlreadyExecuted)
    } else if !wallet.owners.contains(signer) {
        Err(ErrorCode::NotAuthorized)
    } else if tx.approved_by.contains(signer) {
        Ok(tx)
    } else {
        Ok(
            TransactionView {
                creator: tx.creator,
                instruction: tx.instruction,
                approved_by: tx.approved_by.push(signer),
                executed: tx.executed,
            },
        )
    }
}

/// What executing a transaction returns: it must not have been executed
/// before and must carry at least `threshold` approvals; on success the
/// `executed` flag is set, a one-way transition, and everything else is
/// unchanged.
pub open spec fn execute_transition(wallet: MultisigView, tx: TransactionView) -> Result<
    TransactionView,
    ErrorCode,
> {
    if tx.executed {
        Err(ErrorCode::TransactionAlreadyExecuted)
    } else if tx.approved_by.len() < wallet.threshold {
        Err(ErrorCode::NotEnoughApprovals)
    } else {
        Ok(
            TransactionView {
                creator: tx.creator,
                instruction: tx.instruction,
                approved_by: tx.approved_by,
                executed: true,
            },
        )
    }
}

} // verus!
