//! Chain synchronization: answering batched block-range requests, and
//! ingesting finalized-block announcements outside of full-consensus mode.
//!
//! A request for slot `s` is answered with at most [`BATCH`] blocks at or
//! after `s`, in ascending slot order, sent back on the same connection.  An
//! announcement is ignored entirely in consensus mode; otherwise it is
//! deduplicated against local storage by slot, appended to the chain, its
//! transactions pruned from the pool, and rebroadcast so the flood
//! continues.

use vstd::prelude::*;

use crate::Error;
use crate::block::BlockModel;
use crate::messages::{BlockInfo, BlockOrder, BlockResponse, InfoModel};
use crate::validator::{
    StateModel, ValidatorState, batch_from, can_append, chain_has_slot, chain_sorted, removed_txs,
};

verus! {

/// How many blocks one sync response may carry; fixed for wire
/// compatibility.
pub const BATCH: u64 = 10;

/// Outcome of ingesting one finalized-block announcement: the chain and pool
/// afterwards, whether the announcement must be rebroadcast, and whether the
/// append failed.
#[verifier::ext_equal]
pub struct SyncStep {
    pub chain: Seq<BlockModel>,
    pub pool: Seq<Seq<u8>>,
    pub rebroadcast: bool,
    pub failed: bool,
}

/// The ingest transition.  In consensus mode the announcement is a no-op; a
/// block whose slot is already stored is dropped; a block that cannot extend
/// the chain fails; otherwise the block is appended, its transactions leave
/// the pool, and the announcement is rebroadcast.
pub open spec fn sync_ingest(
    consensus_mode: bool,
    chain: Seq<BlockModel>,
    pool: Seq<Seq<u8>>,
    info: InfoModel,
) -> SyncStep {
    if consensus_mode {
        SyncStep { chain, pool, rebroadcast: false, failed: false }
    } else if chain_has_slot(chain, info.block.sl) {
        SyncStep { chain, pool, rebroadcast: false, failed: false }
    } else if !can_append(chain, info.block.sl) {
        SyncStep { chain, pool, rebroadcast: false, failed: true }
    } else {
        SyncStep {
            chain: chain.push(info.block),
            pool: removed_txs(pool, info.txs),
            rebroadcast: true,
            failed: false,
        }
    }
}

/// The sync protocol attached to one connection.  `consensus_mode` is fixed
/// at construction: a node participating in full consensus never ingests
/// announcements here, having finalized the same blocks on the vote path.
pub struct ProtocolSync {
    pub consensus_mode: bool,
}

impl ProtocolSync {
    /// Attaches the protocol with the given mode.
    pub fn init(consensus_mode: bool) -> (p: ProtocolSync)
        ensures
            p.consensus_mode == consensus_mode,
    {
        ProtocolSync { consensus_mode }
    }

    /// Protocol identifier.
    pub fn name(&self) -> (r: &'static str)
        ensures
            r@ == "ProtocolSync"@,
    {
        "ProtocolSync"
    }

    /// Answers one block-range request: up to [`BATCH`] blocks at or after
    /// the ordered slot, in chain order, as a reply on the same connection.
    /// Read-only with respect to the state.
    pub fn handle_receive_request(&self, state: &ValidatorState, order: &BlockOrder)
        -> (resp: BlockResponse)
        ensures
            resp@ == batch_from(state@.chain, order.sl, BATCH as nat),
    {
        let blocks = state.get_with_info(order.sl, BATCH);
        BlockResponse { blocks }
    }

    /// Ingests one finalized-block announcement as [`sync_ingest`] says:
    /// returns the announcement to rebroadcast when the block was new and
    /// appended, `None` when the announcement was a no-op, and the append
    /// error when the block could not extend the chain.
    pub fn handle_receive_block(&self, state: &mut ValidatorState, info: &BlockInfo)
        -> (r: Result<Option<BlockInfo>, Error>)
        requires
            old(state)@.wf(),
        ensures
            final(state)@.wf(),
            ({
                let step = sync_ingest(self.consensus_mode, old(state)@.chain, old(state)@.pool, info@);
                final(state)@ == (StateModel { chain: step.chain, pool: step.pool, ..old(state)@ })
                && (step.failed ==> (r matches Err(e) && e == Error::BlockAdditionFailed))
                && (step.rebroadcast ==> (r matches Ok(Some(m)) && m@ == info@))
                && (!step.failed && !step.rebroadcast ==> r matches Ok(None))
            }),
    {
        if self.consensus_mode {
            return Ok(None);
        }
        if state.has_block(info) {
            return Ok(None);
        }
        match state.add_by_info(info) {
            Ok(()) => {}
            Err(e) => {
                return Err(e);
            }
        }
        match state.remove_txs(&info.txs) {
            Ok(()) => {}
            Err(e) => {
                return Err(e);
            }
        }
        Ok(Some(info.dup()))
    }
}

/// A sync batch never exceeds its room, holds only blocks at or after the
/// requested slot, and on a well-formed chain comes back in ascending slot
/// order; every block of it is a block of the chain.
pub proof fn lemma_sync_batch_bound(chain: Seq<BlockModel>, slot: u64, room: nat)
    requires
        chain_sorted(chain),
    ensures
        batch_from(chain, slot, room).len() <= room,
        forall|i: int| 0 <= i < batch_from(chain, slot, room).len()
            ==> #[trigger] batch_from(chain, slot, room)[i].sl >= slot,
        forall|i: int| 0 <= i < batch_from(chain, slot, room).len()
            ==> chain.contains(#[trigger] batch_from(chain, slot, room)[i]),
        chain_sorted(batch_from(chain, slot, room)),
    decreases chain.len(),
{
    if chain.len() == 0 || room == 0 {
    } else {
        let rest = chain.drop_first();
        assert(chain_sorted(rest)) by {
            assert(forall|i: int, j: int| 0 <= i < j < rest.len()
                ==> rest[i] == chain[i + 1] && rest[j] == chain[j + 1]);
        }
        if chain.first().sl >= slot {
            lemma_sync_batch_bound(rest, slot, (room - 1) as nat);
            let b = batch_from(chain, slot, room);
            let br = batch_from(rest, slot, (room - 1) as nat);
            assert(b == seq![chain.first()] + br);
            assert(b[0] == chain.first());
            assert(forall|i: int| 1 <= i < b.len() ==> b[i] == br[i - 1]);
            assert forall|i: int| 0 <= i < b.len() implies chain.contains(b[i]) by {
                if i == 0 {
                    assert(chain[0] == b[0]);
                } else {
                    let k = choose|k: int| 0 <= k < rest.len() && rest[k] == b[i];
                    assert(chain[k + 1] == b[i]);
                }
            }
            assert forall|i: int, j: int| 0 <= i < j < b.len() implies b[i].sl < b[j].sl by {
                if i == 0 {
                    let k = choose|k: int| 0 <= k < rest.len() && rest[k] == b[j];
                    assert(chain[k + 1] == b[j]);
                    assert(chain[0].sl < chain[k + 1].sl);
                }
            }
        } else {
            lemma_sync_batch_bound(rest, slot, room);
            let b = batch_from(chain, slot, room);
            assert forall|i: int| 0 <= i < b.len() implies chain.contains(b[i]) by {
                let k = choose|k: int| 0 <= k < rest.len() && rest[k] == b[i];
                assert(chain[k + 1] == b[i]);
            }
        }
    }
}

/// Ingesting the same announcement twice in sync-only mode appends and
/// rebroadcasts at most once: whenever the first ingest succeeds, the second
/// changes nothing and rebroadcasts nothing.
pub proof fn lemma_ingest_idempotent(chain: Seq<BlockModel>, pool: Seq<Seq<u8>>, info: InfoModel)
    ensures
        ({
            let first = sync_ingest(false, chain, pool, info);
            let second = sync_ingest(false, first.chain, first.pool, info);
            !first.failed ==> second.chain == first.chain && second.pool == first.pool
                && !second.rebroadcast && !second.failed
        }),
{
    let first = sync_ingest(false, chain, pool, info);
    if !first.failed && !chain_has_slot(chain, info.block.sl) {
        assert(first.chain == chain.push(info.block));
        assert(first.chain[chain.len() as int].sl == info.block.sl);
        assert(chain_has_slot(first.chain, info.block.sl));
    }
}

/// In consensus mode an announcement never changes the chain or the pool and
/// is never rebroadcast, whatever it contains.
pub proof fn lemma_consensus_mode_suppression(
    chain: Seq<BlockModel>,
    pool: Seq<Seq<u8>>,
    info: InfoModel,
)
    ensures
        sync_ingest(true, chain, pool, info).chain == chain,
        sync_ingest(true, chain, pool, info).pool == pool,
        !sync_ingest(true, chain, pool, info).rebroadcast,
        !sync_ingest(true, chain, pool, info).failed,
{
}

} // verus!
