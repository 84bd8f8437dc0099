//! The validator state shared by the protocol handlers: the canonical chain,
//! the unconfirmed-transaction pool and the vote tally, together with the
//! voting policy the node was configured with.
//!
//! The voting decision itself belongs to the consensus rules outside this
//! core, so it is represented by the configured [`VotePolicy`]: the state
//! answers a proposal exactly as the policy dictates.

use vstd::prelude::*;

use crate::Error;
use crate::block::{Block, BlockModel, Transaction, tx_models};
use crate::messages::{
    BlockInfo, BlockProposal, Vote, VoteModel, block_models, lemma_block_models_push,
};

verus! {

/// How this node answers block proposals: vote for them, abstain, or reject
/// them as invalid.
#[derive(Clone, Copy, Debug, PartialEq, Eq, Structural)]
pub enum VotePolicy {
    Approve,
    Abstain,
    Reject,
}

/// Views of a vote sequence.
pub open spec fn vote_models(votes: Seq<Vote>) -> Seq<VoteModel> {
    votes.map_values(|v: Vote| v@)
}

/// Views distribute over appending one vote.
pub proof fn lemma_vote_models_push(s: Seq<Vote>, v: Vote)
    ensures
        vote_models(s.push(v)) == vote_models(s).push(v@),
{
    assert(vote_models(s.push(v)) =~= vote_models(s).push(v@));
}

/// The chain is strictly ascending by slot.
pub open spec fn chain_sorted(chain: Seq<BlockModel>) -> bool {
    forall|i: int, j: int| 0 <= i < j < chain.len() ==> chain[i].sl < chain[j].sl
}

/// Some block of the chain occupies the given slot.
pub open spec fn chain_has_slot(chain: Seq<BlockModel>, sl: u64) -> bool {
    exists|i: int| 0 <= i < chain.len() && chain[i].sl == sl
}

/// A block with this slot may extend the chain.
pub open spec fn can_append(chain: Seq<BlockModel>, sl: u64) -> bool {
    chain.len() == 0 || chain.last().sl < sl
}

/// The first `room` blocks of the chain at or after `slot`, in chain order.
pub open spec fn batch_from(chain: Seq<BlockModel>, slot: u64, room: nat) -> Seq<BlockModel>
    decreases chain.len(),
{
    if chain.len() == 0 || room == 0 {
        Seq::empty()
    } else if chain.first().sl >= slot {
        seq![chain.first()] + batch_from(chain.drop_first(), slot, (room - 1) as nat)
    } else {
        batch_from(chain.drop_first(), slot, room)
    }
}

/// The pool after removing every transaction that occurs in `txs`.
pub open spec fn removed_txs(pool: Seq<Seq<u8>>, txs: Seq<Seq<u8>>) -> Seq<Seq<u8>>
    decreases pool.len(),
{
    if pool.len() == 0 {
        Seq::empty()
    } else {
        let rest = removed_txs(pool.drop_last(), txs);
        if txs.contains(pool.last()) {
            rest
        } else {
            rest.push(pool.last())
        }
    }
}

/// Mathematical value of a [`ValidatorState`].
#[verifier::ext_equal]
pub struct StateModel {
    pub id: u64,
    pub policy: VotePolicy,
    pub chain: Seq<BlockModel>,
    pub pool: Seq<Seq<u8>>,
    pub votes: Seq<VoteModel>,
}

impl StateModel {
    /// Well-formedness: the canonical chain is strictly ascending by slot.
    pub open spec fn wf(self) -> bool {
        chain_sorted(self.chain)
    }
}

/// The validator state: node identity, voting policy, canonical chain,
/// unconfirmed-transaction pool and vote tally.
pub struct ValidatorState {
    id: u64,
    policy: VotePolicy,
    chain: Vec<Block>,
    pool: Vec<Transaction>,
    votes: Vec<Vote>,
}

impl View for ValidatorState {
    type V = StateModel;

    closed spec fn view(&self) -> StateModel {
        StateModel {
            id: self.id,
            policy: self.policy,
            chain: block_models(self.chain@),
            pool: tx_models(self.pool@),
            votes: vote_models(self.votes@),
        }
    }
}

/// Compares two byte vectors for equal contents.
fn payload_eq(a: &Vec<u8>, b: &Vec<u8>) -> (r: bool)
    ensures
        r == (a@ == b@),
{
    if a.len() != b.len() {
        return false;
    }
    let mut i: usize = 0;
    while i < a.len()
        invariant
            i <= a@.len(),
            a@.len() == b@.len(),
            forall|j: int| 0 <= j < i ==> a@[j] == b@[j],
        decreases a@.len() - i,
    {
        if a[i] != b[i] {
            return false;
        }
        i = i + 1;
    }
    proof {
        assert(a@ =~= b@);
    }
    true
}

/// Tests whether the payload of `t` occurs in `txs`.
fn txs_contain(txs: &Vec<Transaction>, t: &Transaction) -> (r: bool)
    ensures
        r == tx_models(txs@).contains(t@),
{
    let mut i: usize = 0;
    while i < txs.len()
        invariant
            i <= txs@.len(),
            forall|j: int| 0 <= j < i ==> txs@[j]@ != t@,
        decreases txs@.len() - i,
    {
        if payload_eq(&txs[i].payload, &t.payload) {
            proof {
                assert(tx_models(txs@)[i as int] == t@);
            }
            return true;
        }
        i = i + 1;
    }
    proof {
        assert(forall|j: int| 0 <= j < tx_models(txs@).len() ==> tx_models(txs@)[j] != t@);
    }
    false
}

impl ValidatorState {
    /// A fresh validator state with the given identity and voting policy and
    /// an empty chain, pool and tally.
    pub fn new(id: u64, policy: VotePolicy) -> (s: ValidatorState)
        ensures
            s@ == (StateModel {
                id,
                policy,
                chain: Seq::empty(),
                pool: Seq::empty(),
                votes: Seq::empty(),
            }),
    {
        let s = ValidatorState {
            id,
            policy,
            chain: Vec::new(),
            pool: Vec::new(),
            votes: Vec::new(),
        };
        proof {
            assert(s@ =~= (StateModel {
                id,
                policy,
                chain: Seq::empty(),
                pool: Seq::empty(),
                votes: Seq::empty(),
            }));
        }
        s
    }

    /// This node's identity.
    pub fn id(&self) -> (r: u64)
        ensures
            r == self@.id,
    {
        self.id
    }

    /// The configured voting policy.
    pub fn policy(&self) -> (r: VotePolicy)
        ensures
            r == self@.policy,
    {
        self.policy
    }

    /// Number of blocks on the canonical chain.
    pub fn chain_len(&self) -> (r: usize)
        ensures
            r == self@.chain.len(),
    {
        self.chain.len()
    }

    /// The chain block at the given position.
    pub fn chain_at(&self, i: usize) -> (r: &Block)
        requires
            i < self@.chain.len(),
        ensures
            r@ == self@.chain[i as int],
    {
        &self.chain[i]
    }

    /// Number of unconfirmed transactions in the pool.
    pub fn pool_len(&self) -> (r: usize)
        ensures
            r == self@.pool.len(),
    {
        self.pool.len()
    }

    /// The pooled transaction at the given position.
    pub fn pool_at(&self, i: usize) -> (r: &Transaction)
        requires
            i < self@.pool.len(),
        ensures
            r@ == self@.pool[i as int],
    {
        &self.pool[i]
    }

    /// Number of votes in the tally.
    pub fn votes_len(&self) -> (r: usize)
        ensures
            r == self@.votes.len(),
    {
        self.votes.len()
    }

    /// The tallied vote at the given position.
    pub fn vote_at(&self, i: usize) -> (r: &Vote)
        requires
            i < self@.votes.len(),
        ensures
            r@ == self@.votes[i as int],
    {
        &self.votes[i]
    }

    /// Adds an unconfirmed transaction to the pool.
    pub fn submit_tx(&mut self, tx: Transaction)
        ensures
            final(self)@ == (StateModel { pool: old(self)@.pool.push(tx@), ..old(self)@ }),
    {
        proof {
            crate::block::lemma_tx_models_push(self.pool@, tx);
        }
        self.pool.push(tx);
        proof {
            assert(self@ =~= (StateModel { pool: old(self)@.pool.push(tx@), ..old(self)@ }));
        }
    }

    /// Answers a block proposal as the configured policy dictates: a vote by
    /// this node on the proposed block, no vote, or a validation error.  The
    /// state itself is never changed by the decision.
    pub fn receive_proposal(&mut self, proposal: &BlockProposal) -> (r: Result<Option<Vote>, Error>)
        ensures
            final(self)@ == old(self)@,
            old(self)@.policy == VotePolicy::Approve ==> (r matches Ok(Some(v))
                && v@ == (VoteModel { block: proposal@.block, voter: old(self)@.id })),
            old(self)@.policy == VotePolicy::Abstain ==> r matches Ok(None),
            old(self)@.policy == VotePolicy::Reject ==> (r matches Err(e) && e == Error::InvalidProposal),
    {
        match self.policy {
            VotePolicy::Approve => {
                let vote = Vote { block: proposal.block.dup(), voter: self.id };
                proof {
                    assert(vote@ =~= (VoteModel { block: proposal@.block, voter: old(self)@.id }));
                }
                Ok(Some(vote))
            }
            VotePolicy::Abstain => Ok(None),
            VotePolicy::Reject => Err(Error::InvalidProposal),
        }
    }

    /// Applies a vote to this node's own tally.
    pub fn receive_vote(&mut self, vote: &Vote) -> (r: Result<(), Error>)
        ensures
            final(self)@ == (StateModel { votes: old(self)@.votes.push(vote@), ..old(self)@ }),
            r matches Ok(v) && v == (),
    {
        let v = vote.dup();
        proof {
            lemma_vote_models_push(self.votes@, v);
        }
        self.votes.push(v);
        proof {
            assert(self@ =~= (StateModel { votes: old(self)@.votes.push(vote@), ..old(self)@ }));
        }
        Ok(())
    }

    /// Reads up to `count` blocks at or after `slot` from the canonical
    /// chain, in chain order.
    pub fn get_with_info(&self, slot: u64, count: u64) -> (r: Vec<Block>)
        ensures
            block_models(r@) == batch_from(self@.chain, slot, count as nat),
    {
        let ghost chain = self@.chain;
        let mut out: Vec<Block> = Vec::new();
        let mut i: usize = 0;
        proof {
            assert(chain.skip(0) =~= chain);
            assert(block_models(out@) =~= Seq::<BlockModel>::empty());
            assert(block_models(out@) + batch_from(chain, slot, count as nat)
                =~= batch_from(chain, slot, count as nat));
        }
        while i < self.chain.len() && (out.len() as u64) < count
            invariant
                i <= chain.len(),
                block_models(out@).len() <= count,
                chain == self@.chain,
                batch_from(chain, slot, count as nat) == block_models(out@)
                    + batch_from(chain.skip(i as int), slot, (count - block_models(out@).len()) as nat),
            decreases chain.len() - i,
        {
            let ghost room = (count - block_models(out@).len()) as nat;
            proof {
                assert(chain.skip(i as int).first() == chain[i as int]);
                assert(chain.skip(i as int).drop_first() =~= chain.skip(i + 1 as int));
            }
            if self.chain[i].sl >= slot {
                let b = self.chain[i].dup();
                proof {
                    lemma_block_models_push(out@, b);
                    assert(batch_from(chain.skip(i as int), slot, room)
                        =~= seq![chain[i as int]] + batch_from(chain.skip(i + 1 as int), slot, (room - 1) as nat));
                    assert(block_models(out@).push(b@) + batch_from(chain.skip(i + 1 as int), slot, (room - 1) as nat)
                        =~= block_models(out@) + batch_from(chain.skip(i as int), slot, room));
                }
                out.push(b);
            }
            i = i + 1;
        }
        proof {
            if i == chain.len() {
                assert(chain.skip(i as int) =~= Seq::<BlockModel>::empty());
            }
            assert(block_models(out@) + Seq::<BlockModel>::empty() =~= block_models(out@));
        }
        out
    }

    /// Tests whether the chain already holds a block in the announced
    /// block's slot.
    pub fn has_block(&self, info: &BlockInfo) -> (r: bool)
        ensures
            r == chain_has_slot(self@.chain, info@.block.sl),
    {
        let mut i: usize = 0;
        while i < self.chain.len()
            invariant
                i <= self@.chain.len(),
                forall|j: int| 0 <= j < i ==> self@.chain[j].sl != info@.block.sl,
            decreases self@.chain.len() - i,
        {
            if self.chain[i].sl == info.block.sl {
                proof {
                    assert(self@.chain[i as int].sl == info@.block.sl);
                }
                return true;
            }
            i = i + 1;
        }
        false
    }

    /// Appends the announced block to the canonical chain.  Fails, leaving
    /// the state unchanged, exactly when the block's slot does not extend
    /// the chain.
    pub fn add_by_info(&mut self, info: &BlockInfo) -> (r: Result<(), Error>)
        requires
            old(self)@.wf(),
        ensures
            final(self)@.wf(),
            can_append(old(self)@.chain, info@.block.sl) ==> (
                final(self)@ == (StateModel { chain: old(self)@.chain.push(info@.block), ..old(self)@ })
                && (r matches Ok(v) && v == ())),
            !can_append(old(self)@.chain, info@.block.sl) ==> (
                final(self)@ == old(self)@ && (r matches Err(e) && e == Error::BlockAdditionFailed)),
    {
        let n = self.chain.len();
        if n > 0 && self.chain[n - 1].sl >= info.block.sl {
            return Err(Error::BlockAdditionFailed);
        }
        let b = info.block.dup();
        proof {
            lemma_block_models_push(self.chain@, b);
        }
        self.chain.push(b);
        proof {
            assert(self@ =~= (StateModel { chain: old(self)@.chain.push(info@.block), ..old(self)@ }));
            assert forall|i: int, j: int| 0 <= i < j < self@.chain.len()
                implies self@.chain[i].sl < self@.chain[j].sl by {
                if j == final(self)@.chain.len() - 1 && old(self)@.chain.len() > 0 {
                    assert(old(self)@.chain[i].sl <= old(self)@.chain.last().sl);
                }
            }
        }
        Ok(())
    }

    /// Removes every occurrence of the given transactions from the
    /// unconfirmed pool.
    pub fn remove_txs(&mut self, txs: &Vec<Transaction>) -> (r: Result<(), Error>)
        ensures
            final(self)@ == (StateModel {
                pool: removed_txs(old(self)@.pool, tx_models(txs@)),
                ..old(self)@
            }),
            r matches Ok(v) && v == (),
    {
        let ghost poolv = self@.pool;
        let ghost txsv = tx_models(txs@);
        let mut kept: Vec<Transaction> = Vec::new();
        let mut i: usize = 0;
        while i < self.pool.len()
            invariant
                i <= poolv.len(),
                poolv == self@.pool,
                txsv == tx_models(txs@),
                tx_models(kept@) == removed_txs(poolv.take(i as int), txsv),
            decreases poolv.len() - i,
        {
            proof {
                assert(poolv.take(i + 1 as int).drop_last() =~= poolv.take(i as int));
                assert(poolv.take(i + 1 as int).last() == poolv[i as int]);
            }
            if !txs_contain(txs, &self.pool[i]) {
                let t = self.pool[i].dup();
                proof {
                    crate::block::lemma_tx_models_push(kept@, t);
                }
                kept.push(t);
            }
            i = i + 1;
        }
        proof {
            assert(poolv.take(poolv.len() as int) =~= poolv);
        }
        self.pool = kept;
        proof {
            assert(self@ =~= (StateModel {
                pool: removed_txs(old(self)@.pool, tx_models(txs@)),
                ..old(self)@
            }));
        }
        Ok(())
    }
}

} // verus!
