//! Wire-level messages exchanged over the transport: block proposals, sync
//! orders and responses, finalized-block announcements, votes and the gossip
//! message with optional point-to-point addressing.

use vstd::prelude::*;

use crate::block::{Block, BlockModel, Transaction, tx_models};

verus! {

/// Identity of a node on the gossip network.
pub type NodeId = u64;

/// Mathematical value of a [`Vote`].
#[verifier::ext_equal]
pub struct VoteModel {
    pub block: BlockModel,
    pub voter: NodeId,
}

/// A vote cast on a proposed block by the identified validator.
pub struct Vote {
    pub block: Block,
    pub voter: NodeId,
}

impl View for Vote {
    type V = VoteModel;

    open spec fn view(&self) -> VoteModel {
        VoteModel { block: self.block@, voter: self.voter }
    }
}

impl Vote {
    /// Returns a vote with the same block and voter.
    pub fn dup(&self) -> (v: Vote)
        ensures
            v@ == self@,
    {
        let v = Vote { block: self.block.dup(), voter: self.voter };
        proof {
            assert(v@ =~= self@);
        }
        v
    }
}

/// Mathematical value of a [`BlockProposal`].
#[verifier::ext_equal]
pub struct ProposalModel {
    pub block: BlockModel,
    pub proposer: NodeId,
}

/// A candidate block submitted for votes, together with the proposer's
/// identity.
pub struct BlockProposal {
    pub block: Block,
    pub proposer: NodeId,
}

impl View for BlockProposal {
    type V = ProposalModel;

    open spec fn view(&self) -> ProposalModel {
        ProposalModel { block: self.block@, proposer: self.proposer }
    }
}

impl BlockProposal {
    /// Returns a proposal with the same block and proposer.
    pub fn dup(&self) -> (p: BlockProposal)
        ensures
            p@ == self@,
    {
        let p = BlockProposal { block: self.block.dup(), proposer: self.proposer };
        proof {
            assert(p@ =~= self@);
        }
        p
    }
}

/// A block-range request keyed by the slot to start from.
#[derive(Clone, Copy, PartialEq, Eq, Structural)]
pub struct BlockOrder {
    pub sl: u64,
}

/// Mathematical value of a [`BlockInfo`].
#[verifier::ext_equal]
pub struct InfoModel {
    pub block: BlockModel,
    pub txs: Seq<Seq<u8>>,
}

/// A finalized-block announcement: the block and its transaction list.
pub struct BlockInfo {
    pub block: Block,
    pub txs: Vec<Transaction>,
}

impl View for BlockInfo {
    type V = InfoModel;

    open spec fn view(&self) -> InfoModel {
        InfoModel { block: self.block@, txs: tx_models(self.txs@) }
    }
}

impl BlockInfo {
    /// Returns an announcement with the same block and transactions.
    pub fn dup(&self) -> (r: BlockInfo)
        ensures
            r@ == self@,
    {
        let mut txs: Vec<Transaction> = Vec::new();
        let mut i: usize = 0;
        while i < self.txs.len()
            invariant
                i <= self.txs@.len(),
                tx_models(txs@) == tx_models(self.txs@).take(i as int),
            decreases self.txs@.len() - i,
        {
            let t = self.txs[i].dup();
            proof {
                crate::block::lemma_tx_models_push(txs@, t);
                assert(tx_models(self.txs@).take(i + 1 as int)
                    =~= tx_models(self.txs@).take(i as int).push(self.txs@[i as int]@));
            }
            txs.push(t);
            i = i + 1;
        }
        proof {
            assert(tx_models(self.txs@).take(self.txs@.len() as int) =~= tx_models(self.txs@));
        }
        let r = BlockInfo { block: self.block.dup(), txs };
        proof {
            assert(r@ =~= self@);
        }
        r
    }
}

/// Views of a block sequence.
pub open spec fn block_models(blocks: Seq<Block>) -> Seq<BlockModel> {
    blocks.map_values(|b: Block| b@)
}

/// Views distribute over appending one block.
pub proof fn lemma_block_models_push(s: Seq<Block>, b: Block)
    ensures
        block_models(s.push(b)) == block_models(s).push(b@),
{
    assert(block_models(s.push(b)) =~= block_models(s).push(b@));
}

/// The reply to a block-range request: an ordered batch of blocks.
pub struct BlockResponse {
    pub blocks: Vec<Block>,
}

impl View for BlockResponse {
    type V = Seq<BlockModel>;

    open spec fn view(&self) -> Seq<BlockModel> {
        block_models(self.blocks@)
    }
}

/// Mathematical value of a [`NetMsg`].
#[verifier::ext_equal]
pub struct NetMsgModel {
    pub id: u64,
    pub method: Seq<char>,
    pub recipient_id: Option<NodeId>,
    pub payload: Seq<u8>,
}

/// A gossip message.  `id` is the deduplication key; `recipient_id` of
/// `None` denotes broadcast to all, a concrete id a targeted message.
pub struct NetMsg {
    pub id: u64,
    pub method: String,
    pub recipient_id: Option<NodeId>,
    pub payload: Vec<u8>,
}

impl View for NetMsg {
    type V = NetMsgModel;

    open spec fn view(&self) -> NetMsgModel {
        NetMsgModel {
            id: self.id,
            method: self.method@,
            recipient_id: self.recipient_id,
            payload: self.payload@,
        }
    }
}

impl NetMsg {
    /// Returns a message with the same fields.
    pub fn dup(&self) -> (m: NetMsg)
        ensures
            m@ == self@,
    {
        let recipient_id = match self.recipient_id {
            Some(id) => Some(id),
            None => None,
        };
        let m = NetMsg {
            id: self.id,
            method: self.method.clone(),
            recipient_id,
            payload: vstd::slice::slice_to_vec(self.payload.as_slice()),
        };
        proof {
            assert(m@ =~= self@);
        }
        m
    }

    /// Type tag of the gossip message on the wire.
    pub fn name() -> (r: &'static str)
        ensures
            r@ == "netmsg"@,
    {
        "netmsg"
    }
}

} // verus!
