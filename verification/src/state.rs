use vstd::prelude::*;

use crate::keys::Pubkey;

verus! {

/// Capacity of a persisted wallet record: how many owners (and therefore how
/// many distinct approvals) it can hold.
pub const MAX_OWNERS: usize = 10;

/// Capacity of a persisted transaction record: the largest instruction
/// payload it can hold, in bytes.
pub const MAX_INSTRUCTION_BYTES: usize = 1024;

/// A jointly owned wallet: the owner set, the approval quorum, and a counter
/// of every transaction ever proposed under it.
pub struct Multisig {
    pub owners: Vec<Pubkey>,
    pub threshold: u64,
    pub transaction_count: u64,
}

/// A proposed action scoped to a wallet: its creator, the opaque instruction
/// payload to perform, the owners who have approved it so far, and whether it
/// has been executed.
pub struct Transaction {
    pub creator: Pubkey,
    pub instruction: Vec<u8>,
    pub approved_by: Vec<Pubkey>,
    pub executed: bool,
}

/// The mathematical view of a [`Multisig`] record.
pub ghost struct MultisigView {
    pub owners: Seq<Pubkey>,
    pub threshold: u64,
    pub transaction_count: u64,
}

/// The mathematical view of a [`Transaction`] record.
pub ghost struct TransactionView {
    pub creator: Pubkey,
    pub instruction: Seq<u8>,
    pub approved_by: Seq<Pubkey>,
    pub executed: bool,
}

impl View for Multisig {
    type V = MultisigView;

    open spec fn view(&self) -> MultisigView {
        MultisigView {
            owners: self.owners@,
            threshold: self.threshold,
            transaction_count: self.transaction_count,
        }
    }
}

impl View for Transaction {
    type V = TransactionView;

    open spec fn view(&self) -> TransactionView {
        TransactionView {
            creator: self.creator,
            instruction: self.instruction@,
            approved_by: self.approved_by@,
            executed: self.executed,
        }
    }
}

impl MultisigView {
    /// Wallet invariant, established at creation and immutable thereafter:
    /// the quorum is at least one and no larger than the owner list.
    pub open spec fn wf(self) -> bool {
        0 < self.threshold <= self.owners.len()
    }

    /// The set of distinct identities that own the wallet. The owner list is
    /// not deduplicated at creation; only this set ever matters for
    /// authorization.
    pub open spec fn owner_set(self) -> Set<Pubkey> {
        self.owners.to_set()
    }
}

impl TransactionView {
    /// Transaction invariant relative to its wallet, established at creation
    /// and preserved by every operation: the instruction is non-empty, no
    /// identity appears twice among the approvals, and every approval is by
    /// a wallet owner.
    pub open spec fn wf(self, wallet: MultisigView) -> bool {
        &&& 0 < self.instruction.len()
        &&& self.approved_by.no_duplicates()
        &&& forall|i: int|
            0 <= i < self.approved_by.len() ==> wallet.owners.contains(
                #[trigger] self.approved_by[i],
            )
    }

    /// The set of distinct identities that have approved the transaction.
    pub open spec fn approval_set(self) -> Set<Pubkey> {
        self.approved_by.to_set()
    }
}

} // verus!
