use vstd::prelude::*;

use crate::errors::ErrorCode;
use crate::keys::{key_in, Pubkey};
use crate::state::{
    Multisig, MultisigView, Transaction, TransactionView, MAX_INSTRUCTION_BYTES, MAX_OWNERS,
};
use crate::transitions::{approve_transition, create_transaction_transition,
    create_multisig_transition, execute_transition};

verus! {

/// What an operation on the store can report: a rejection by the state
/// machine itself, a lookup of an id that was never handed out, or a
/// capacity limit of the persisted records.
#[derive(Clone, Copy, PartialEq, Eq, Structural, Debug)]
pub enum StoreError {
    /// The state machine rejected the operation.
    Rejected(ErrorCode),
    /// No wallet was ever created under this id.
    UnknownWallet,
    /// No proposal was ever created under this id within the wallet.
    UnknownProposal,
    /// The owner list exceeds the capacity of a wallet record.
    TooManyOwners,
    /// The instruction exceeds the capacity of a transaction record.
    InstructionTooLarge,
    /// The wallet's proposal counter cannot go any higher.
    TooManyProposals,
}

/// A keyed store owning every wallet and every transaction ever created,
/// exposing the id-based operation surface. Wallet ids index the order of
/// wallet creation; proposal ids index the order of proposal creation
/// within a wallet. Records are never deleted, so ids stay valid forever.
///
/// The store validates record capacity at its boundary, before the state
/// machine's own validation, and maintains the system invariants at every
/// observation point (see [`MultisigStore::inv`]).
pub struct MultisigStore {
    wallets: Vec<Multisig>,
    proposals: Vec<Vec<Transaction>>,
}

impl MultisigStore {
    /// The wallets ever created, as views, in creation order.
    pub closed spec fn wallets_view(self) -> Seq<MultisigView> {
        self.wallets@.map_values(|m: Multisig| m@)
    }

    /// The transactions ever proposed, as views: one sequence per wallet,
    /// in creation order.
    pub closed spec fn proposals_view(self) -> Seq<Seq<TransactionView>> {
        self.proposals@.map_values(|v: Vec<Transaction>| v@.map_values(|t: Transaction| t@))
    }

    /// The system invariants, holding at every observation point: every
    /// wallet satisfies its invariant and fits its record; each wallet's
    /// proposal counter equals the number of proposals ever created for it;
    /// and every transaction satisfies its invariant relative to its wallet
    /// and fits its record.
    pub open spec fn inv(self) -> bool {
        &&& self.proposals_view().len() == self.wallets_view().len()
        &&& forall|i: int|
            0 <= i < self.wallets_view().len() ==> {
                &&& (#[trigger] self.wallets_view()[i]).wf()
                &&& self.wallets_view()[i].owners.len() <= MAX_OWNERS
                &&& self.wallets_view()[i].transaction_count == self.proposals_view()[i].len()
            }
        &&& forall|i: int, j: int|
            0 <= i < self.proposals_view().len() && 0 <= j < self.proposals_view()[i].len() ==> {
                &&& (#[trigger] self.proposals_view()[i][j]).wf(self.wallets_view()[i])
                &&& self.proposals_view()[i][j].instruction.len() <= MAX_INSTRUCTION_BYTES
            }
    }

    /// An empty store: no wallets, no transactions.
    pub fn new() -> (s: MultisigStore)
        ensures
            s.inv(),
            s.wallets_view().len() == 0,
            s.proposals_view().len() == 0,
    {
        MultisigStore { wallets: Vec::new(), proposals: Vec::new() }
    }

    /// How many wallets have ever been created.
    pub fn wallet_count(&self) -> (r: u64)
        ensures
            r == self.wallets_view().len(),
    {
        self.wallets.len() as u64
    }

    /// Creates a wallet and hands out its id. Record capacity is validated
    /// first; then the operation succeeds or fails exactly as the wallet
    /// creation transition says, and a failed call leaves the store
    /// unchanged.
    pub fn create_wallet(&mut self, owners: Vec<Pubkey>, threshold: u64) -> (r: Result<
        u64,
        StoreError,
    >)
        requires
            old(self).inv(),
        ensures
            final(self).inv(),
            owners@.len() > MAX_OWNERS ==> r == Err::<u64, StoreError>(StoreError::TooManyOwners)
                && *final(self) == *old(self),
            owners@.len() <= MAX_OWNERS ==> match create_multisig_transition(owners@, threshold) {
                Ok(m) => {
                    &&& r == Ok::<u64, StoreError>(old(self).wallets_view().len() as u64)
                    &&& final(self).wallets_view() == old(self).wallets_view().push(m)
                    &&& final(self).proposals_view() == old(self).proposals_view().push(
                        Seq::empty(),
                    )
                },
                Err(e) => r == Err::<u64, StoreError>(StoreError::Rejected(e)) && *final(self)
                    == *old(self),
            },
    {
        if owners.len() > MAX_OWNERS {
            return Err(StoreError::TooManyOwners);
        }
        if !(threshold > 0 && threshold <= owners.len() as u64) {
            return Err(StoreError::Rejected(ErrorCode::InvalidThreshold));
        }
        if owners.is_empty() {
            return Err(StoreError::Rejected(ErrorCode::NoOwnersProvided));
        }
        let ghost owners_view = owners@;
        let id = self.wallets.len() as u64;
        let wallet = Multisig { owners, threshold, transaction_count: 0 };
        self.wallets.push(wallet);
        self.proposals.push(Vec::new());
        proof {
            assert(self.wallets_view() =~= old(self).wallets_view().push(
                create_multisig_transition(owners_view, threshold)->Ok_0,
            ));
            assert(self.proposals_view() =~~= old(self).proposals_view().push(Seq::empty()));
        }
        Ok(id)
    }

    /// Proposes a transaction under the wallet and hands out its id within
    /// that wallet. The wallet id is resolved first, then record capacity is
    /// validated, then the operation succeeds or fails exactly as the
    /// proposal creation transition says; a failed call leaves the store
    /// unchanged.
    pub fn create_proposal(&mut self, wallet_id: u64, creator: Pubkey, instruction: Vec<u8>) -> (r:
        Result<u64, StoreError>)
        requires
            old(self).inv(),
        ensures
            final(self).inv(),
            wallet_id >= old(self).wallets_view().len() ==> r == Err::<u64, StoreError>(
                StoreError::UnknownWallet,
            ) && *final(self) == *old(self),
            wallet_id < old(self).wallets_view().len() ==> ({
                let w = old(self).wallets_view()[wallet_id as int];
                if instruction@.len() > MAX_INSTRUCTION_BYTES {
                    r == Err::<u64, StoreError>(StoreError::InstructionTooLarge) && *final(self)
                        == *old(self)
                } else if w.transaction_count == u64::MAX {
                    r == Err::<u64, StoreError>(StoreError::TooManyProposals) && *final(self)
                        == *old(self)
                } else {
                    match create_transaction_transition(w, creator, instruction@) {
                        Ok((m, t)) => {
                            &&& r == Ok::<u64, StoreError>(
                                old(self).proposals_view()[wallet_id as int].len() as u64,
                            )
                            &&& final(self).wallets_view() == old(self).wallets_view().update(
                                wallet_id as int,
                                m,
                            )
                            &&& final(self).proposals_view() == old(self).proposals_view().update(
                                wallet_id as int,
                                old(self).proposals_view()[wallet_id as int].push(t),
                            )
                        },
                        Err(e) => r == Err::<u64, StoreError>(StoreError::Rejected(e)) && *final(self) == *old(self),
                    }
                }
            }),
    {
        if wallet_id >= self.wallets.len() as u64 {
            return Err(StoreError::UnknownWallet);
        }
        let wid = wallet_id as usize;
        if instruction.len() > MAX_INSTRUCTION_BYTES {
            return Err(StoreError::InstructionTooLarge);
        }
        if self.wallets[wid].transaction_count == u64::MAX {
            return Err(StoreError::TooManyProposals);
        }
        if instruction.is_empty() {
            return Err(StoreError::Rejected(ErrorCode::EmptyInstruction));
        }
        let ghost instruction_view = instruction@;
        let ghost step = create_transaction_transition(
            old(self).wallets_view()[wallet_id as int],
            creator,
            instruction_view,
        )->Ok_0;
        let tx = Transaction { creator, instruction, approved_by: Vec::new(), executed: false };
        let txs = &mut self.proposals[wid];
        let pid = txs.len() as u64;
        txs.push(tx);
        let w = &mut self.wallets[wid];
        w.transaction_count = w.transaction_count + 1;
        proof {
            assert(self.wallets_view() =~= old(self).wallets_view().update(
                wallet_id as int,
                step.0,
            ));
            assert(self.proposals_view() =~~= old(self).proposals_view().update(
                wallet_id as int,
                old(self).proposals_view()[wallet_id as int].push(step.1),
            ));
        }
        Ok(pid)
    }

    /// Records the signer's approval of the proposal. The ids are resolved
    /// first; then the operation succeeds or fails exactly as the approval
    /// transition says. The wallets are never touched, and a failed call
    /// leaves the store unchanged.
    pub fn approve(&mut self, wallet_id: u64, proposal_id: u64, signer: Pubkey) -> (r: Result<
        (),
        StoreError,
    >)
        requires
            old(self).inv(),
        ensures
            final(self).inv(),
            wallet_id >= old(self).wallets_view().len() ==> r == Err::<(), StoreError>(
                StoreError::UnknownWallet,
            ) && *final(self) == *old(self),
            wallet_id < old(self).wallets_view().len() && proposal_id >= old(self).proposals_view()[wallet_id as int].len() ==> r == Err::<(), StoreError>(
                StoreError::UnknownProposal,
            ) && *final(self) == *old(self),
            wallet_id < old(self).wallets_view().len() && proposal_id < old(self).proposals_view()[wallet_id as int].len() ==> ({
                let w = old(self).wallets_view()[wallet_id as int];
                let t = old(self).proposals_view()[wallet_id as int][proposal_id as int];
                match approve_transition(w, t, signer) {
                    Ok(t1) => {
                        &&& r == Ok::<(), StoreError>(())
                        &&& final(self).wallets_view() == old(self).wallets_view()
                        &&& final(self).proposals_view() == old(self).proposals_view().update(
                            wallet_id as int,
                            old(self).proposals_view()[wallet_id as int].update(
                                proposal_id as int,
                                t1,
                            ),
                        )
                    },
                    Err(e) => r == Err::<(), StoreError>(StoreError::Rejected(e)) && *final(self)
                        == *old(self),
                }
            }),
    {
        if wallet_id >= self.wallets.len() as u64 {
            return Err(StoreError::UnknownWallet);
        }
        let wid = wallet_id as usize;
        if proposal_id >= self.proposals[wid].len() as u64 {
            return Err(StoreError::UnknownProposal);
        }
        let pid = proposal_id as usize;
        if self.proposals[wid][pid].executed {
            return Err(StoreError::Rejected(ErrorCode::TransactionAlreadyExecuted));
        }
        if !key_in(&self.wallets[wid].owners, &signer) {
            return Err(StoreError::Rejected(ErrorCode::NotAuthorized));
        }
        let ghost w = old(self).wallets_view()[wallet_id as int];
        let ghost t = old(self).proposals_view()[wallet_id as int][proposal_id as int];
        let txs = &mut self.proposals[wid];
        let tx = &mut txs[pid];
        if !key_in(&tx.approved_by, &signer) {
            tx.approved_by.push(signer);
        }
        proof {
            let t1 = approve_transition(w, t, signer)->Ok_0;
            crate::laws::lemma_approve_preserves_wf(w, t, signer);
            assert(self.proposals_view() =~~= old(self).proposals_view().update(
                wallet_id as int,
                old(self).proposals_view()[wallet_id as int].update(proposal_id as int, t1),
            ));
        }
        Ok(())
    }

    /// Executes the proposal once its quorum is reached, returning the
    /// instruction payload for the caller to hand to its executor. The ids
    /// are resolved first; then the operation succeeds or fails exactly as
    /// the execution transition says. The wallets are never touched, and a
    /// failed call leaves the store unchanged. The store guarantees that a
    /// given proposal's payload is handed out at most once.
    pub fn execute(&mut self, wallet_id: u64, proposal_id: u64) -> (r: Result<Vec<u8>, StoreError>)
        requires
            old(self).inv(),
        ensures
            final(self).inv(),
            wallet_id >= old(self).wallets_view().len() ==> r == Err::<Vec<u8>, StoreError>(
                StoreError::UnknownWallet,
            ) && *final(self) == *old(self),
            wallet_id < old(self).wallets_view().len() && proposal_id >= old(self).proposals_view()[wallet_id as int].len() ==> r == Err::<Vec<u8>, StoreError>(
                StoreError::UnknownProposal,
            ) && *final(self) == *old(self),
            wallet_id < old(self).wallets_view().len() && proposal_id < old(self).proposals_view()[wallet_id as int].len() ==> ({
                let w = old(self).wallets_view()[wallet_id as int];
                let t = old(self).proposals_view()[wallet_id as int][proposal_id as int];
                match execute_transition(w, t) {
                    Ok(t1) => {
                        &&& r matches Ok(payload) && payload@ == t.instruction
                        &&& final(self).wallets_view() == old(self).wallets_view()
                        &&& final(self).proposals_view() == old(self).proposals_view().update(
                            wallet_id as int,
                            old(self).proposals_view()[wallet_id as int].update(
                                proposal_id as int,
                                t1,
                            ),
                        )
                    },
                    Err(e) => r == Err::<Vec<u8>, StoreError>(StoreError::Rejected(e)) && *final(self) == *old(self),
                }
            }),
    {
        if wallet_id >= self.wallets.len() as u64 {
            return Err(StoreError::UnknownWallet);
        }
        let wid = wallet_id as usize;
        if proposal_id >= self.proposals[wid].len() as u64 {
            return Err(StoreError::UnknownProposal);
        }
        let pid = proposal_id as usize;
        if self.proposals[wid][pid].executed {
            return Err(StoreError::Rejected(ErrorCode::TransactionAlreadyExecuted));
        }
        let num_approvals = self.proposals[wid][pid].approved_by.len() as u64;
        if num_approvals < self.wallets[wid].threshold {
            return Err(StoreError::Rejected(ErrorCode::NotEnoughApprovals));
        }
        let ghost w = old(self).wallets_view()[wallet_id as int];
        let ghost t = old(self).proposals_view()[wallet_id as int][proposal_id as int];
        let payload = clone_bytes(&self.proposals[wid][pid].instruction);
        let txs = &mut self.proposals[wid];
        let tx = &mut txs[pid];
        tx.executed = true;
        proof {
            let t1 = execute_transition(w, t)->Ok_0;
            assert(self.proposals_view() =~~= old(self).proposals_view().update(
                wallet_id as int,
                old(self).proposals_view()[wallet_id as int].update(proposal_id as int, t1),
            ));
        }
        Ok(payload)
    }

    /// The wallet's approval quorum; `None` when no wallet has this id.
    pub fn threshold(&self, wallet_id: u64) -> (r: Option<u64>)
        ensures
            match r {
                Some(t) => wallet_id < self.wallets_view().len() && t
                    == self.wallets_view()[wallet_id as int].threshold,
                None => wallet_id >= self.wallets_view().len(),
            },
    {
        if wallet_id >= self.wallets.len() as u64 {
            return None;
        }
        Some(self.wallets[wallet_id as usize].threshold)
    }

    /// Whether the key is among the wallet's owners; `None` when no wallet
    /// has this id.
    pub fn is_owner(&self, wallet_id: u64, key: &Pubkey) -> (r: Option<bool>)
        ensures
            match r {
                Some(b) => wallet_id < self.wallets_view().len() && b
                    == self.wallets_view()[wallet_id as int].owners.contains(*key),
                None => wallet_id >= self.wallets_view().len(),
            },
    {
        if wallet_id >= self.wallets.len() as u64 {
            return None;
        }
        Some(key_in(&self.wallets[wallet_id as usize].owners, key))
    }

    /// How many proposals have ever been created under the wallet; `None`
    /// when no wallet has this id.
    pub fn proposal_count(&self, wallet_id: u64) -> (r: Option<u64>)
        ensures
            match r {
                Some(c) => wallet_id < self.wallets_view().len() && c
                    == self.wallets_view()[wallet_id as int].transaction_count,
                None => wallet_id >= self.wallets_view().len(),
            },
    {
        if wallet_id >= self.wallets.len() as u64 {
            return None;
        }
        Some(self.wallets[wallet_id as usize].transaction_count)
    }

    /// Whether the ids name a proposal in the store.
    pub open spec fn proposal_known(self, wallet_id: u64, proposal_id: u64) -> bool {
        wallet_id < self.wallets_view().len() && proposal_id
            < self.proposals_view()[wallet_id as int].len()
    }

    /// The named proposal, as a view.
    pub open spec fn proposal_at(self, wallet_id: u64, proposal_id: u64) -> TransactionView
        recommends
            self.proposal_known(wallet_id, proposal_id),
    {
        self.proposals_view()[wallet_id as int][proposal_id as int]
    }

    /// How many approvals the proposal carries; `None` when the ids name no
    /// proposal.
    pub fn approval_count(&self, wallet_id: u64, proposal_id: u64) -> (r: Option<u64>)
        requires
            self.inv(),
        ensures
            match r {
                Some(c) => self.proposal_known(wallet_id, proposal_id) && c == self.proposal_at(
                    wallet_id,
                    proposal_id,
                ).approved_by.len(),
                None => !self.proposal_known(wallet_id, proposal_id),
            },
    {
        if wallet_id >= self.wallets.len() as u64 {
            return None;
        }
        let wid = wallet_id as usize;
        if proposal_id >= self.proposals[wid].len() as u64 {
            return None;
        }
        Some(self.proposals[wid][proposal_id as usize].approved_by.len() as u64)
    }

    /// Whether the key has approved the proposal; `None` when the ids name
    /// no proposal.
    pub fn has_approved(&self, wallet_id: u64, proposal_id: u64, key: &Pubkey) -> (r: Option<bool>)
        requires
            self.inv(),
        ensures
            match r {
                Some(b) => self.proposal_known(wallet_id, proposal_id) && b == self.proposal_at(
                    wallet_id,
                    proposal_id,
                ).approved_by.contains(*key),
                None => !self.proposal_known(wallet_id, proposal_id),
            },
    {
        if wallet_id >= self.wallets.len() as u64 {
            return None;
        }
        let wid = wallet_id as usize;
        if proposal_id >= self.proposals[wid].len() as u64 {
            return None;
        }
        Some(key_in(&self.proposals[wid][proposal_id as usize].approved_by, key))
    }

    /// Whether the proposal has been executed; `None` when the ids name no
    /// proposal.
    pub fn is_executed(&self, wallet_id: u64, proposal_id: u64) -> (r: Option<bool>)
        requires
            self.inv(),
        ensures
            match r {
                Some(b) => self.proposal_known(wallet_id, proposal_id) && b == self.proposal_at(
                    wallet_id,
                    proposal_id,
                ).executed,
                None => !self.proposal_known(wallet_id, proposal_id),
            },
    {
        if wallet_id >= self.wallets.len() as u64 {
            return None;
        }
        let wid = wallet_id as usize;
        if proposal_id >= self.proposals[wid].len() as u64 {
            return None;
        }
        Some(self.proposals[wid][proposal_id as usize].executed)
    }

    /// A copy of the proposal's instruction payload; `None` when the ids
    /// name no proposal.
    pub fn instruction_bytes(&self, wallet_id: u64, proposal_id: u64) -> (r: Option<Vec<u8>>)
        requires
            self.inv(),
        ensures
            match r {
                Some(payload) => self.proposal_known(wallet_id, proposal_id) && payload@
                    == self.proposal_at(wallet_id, proposal_id).instruction,
                None => !self.proposal_known(wallet_id, proposal_id),
            },
    {
        if wallet_id >= self.wallets.len() as u64 {
            return None;
        }
        let wid = wallet_id as usize;
        if proposal_id >= self.proposals[wid].len() as u64 {
            return None;
        }
        Some(clone_bytes(&self.proposals[wid][proposal_id as usize].instruction))
    }
}

/// Byte-for-byte copy of an instruction payload.
fn clone_bytes(v: &Vec<u8>) -> (r: Vec<u8>)
    ensures
        r@ == v@,
{
    let mut r: Vec<u8> = Vec::new();
    let mut i: usize = 0;
    while i < v.len()
        invariant
            0 <= i <= v@.len(),
            r@.len() == i,
            forall|j: int| 0 <= j < i ==> r@[j] == v@[j],
        decreases v@.len() - i,
    {
        r.push(v[i]);
        i = i + 1;
    }
    proof {
        assert(r@ =~= v@);
    }
    r
}

} // verus!
