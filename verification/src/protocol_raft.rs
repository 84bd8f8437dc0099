//! Gossip/log-replication messaging with deduplication and optional
//! point-to-point addressing.
//!
//! Each inbound message is deduplicated by its identifier against the seen
//! set shared by this node's connections.  A novel message is recorded and
//! then rebroadcast exactly once, before any addressing check, so the flood
//! completes identically whether or not this hop is the intended recipient.
//! Only afterwards is the message delivered onto the local notification
//! queue, and only when the addressing matches: a targeted message is
//! delivered by the node whose identity equals the target, a broadcast by
//! every node that has an identity, and nothing by a node without one.

use vstd::prelude::*;

use crate::messages::{NetMsg, NetMsgModel, NodeId};

verus! {

/// Mathematical value of a [`ProtocolRaft`].
#[verifier::ext_equal]
pub struct RaftModel {
    pub id: Option<NodeId>,
    pub msgs: Seq<u64>,
    pub queue: Seq<NetMsgModel>,
}

/// Whether a node with identity `id` delivers a message addressed to
/// `recipient_id` onto its local queue.
pub open spec fn delivers_locally(id: Option<NodeId>, recipient_id: Option<NodeId>) -> bool {
    match (id, recipient_id) {
        (Some(own), Some(target)) => own == target,
        (Some(_), None) => true,
        (None, _) => false,
    }
}

/// One step of the gossip protocol: the node afterwards, and whether the
/// message must be rebroadcast.
#[verifier::ext_equal]
pub struct RaftStep {
    pub node: RaftModel,
    pub rebroadcast: bool,
}

/// The gossip transition.  A message whose id was already seen is discarded
/// silently; a novel one is recorded, rebroadcast, and delivered locally
/// exactly when the addressing matches.
pub open spec fn raft_step(node: RaftModel, msg: NetMsgModel) -> RaftStep {
    if node.msgs.contains(msg.id) {
        RaftStep { node, rebroadcast: false }
    } else {
        RaftStep {
            node: RaftModel {
                id: node.id,
                msgs: node.msgs.push(msg.id),
                queue: if delivers_locally(node.id, msg.recipient_id) {
                    node.queue.push(msg)
                } else {
                    node.queue
                },
            },
            rebroadcast: true,
        }
    }
}

/// The gossip protocol state of one node: its identity, the set of message
/// ids already seen, and the local notification queue for the upper layer.
/// The seen set is never pruned here.
pub struct ProtocolRaft {
    pub id: Option<NodeId>,
    pub msgs: Vec<u64>,
    pub queue: Vec<NetMsg>,
}

impl View for ProtocolRaft {
    type V = RaftModel;

    open spec fn view(&self) -> RaftModel {
        RaftModel {
            id: self.id,
            msgs: self.msgs@,
            queue: self.queue@.map_values(|m: NetMsg| m@),
        }
    }
}

/// Tests whether an id occurs in the seen set.
fn seen_contains(msgs: &Vec<u64>, id: u64) -> (r: bool)
    ensures
        r == msgs@.contains(id),
{
    let mut i: usize = 0;
    while i < msgs.len()
        invariant
            i <= msgs@.len(),
            forall|j: int| 0 <= j < i ==> msgs@[j] != id,
        decreases msgs@.len() - i,
    {
        if msgs[i] == id {
            return true;
        }
        i = i + 1;
    }
    false
}

impl ProtocolRaft {
    /// Attaches the protocol for a node with the given identity; nothing is
    /// seen and nothing is queued yet.
    pub fn init(id: Option<NodeId>) -> (p: ProtocolRaft)
        ensures
            p@ == (RaftModel { id, msgs: Seq::empty(), queue: Seq::empty() }),
    {
        let p = ProtocolRaft { id, msgs: Vec::new(), queue: Vec::new() };
        proof {
            assert(p@ =~= (RaftModel { id, msgs: Seq::empty(), queue: Seq::empty() }));
        }
        p
    }

    /// Protocol identifier.
    pub fn name(&self) -> (r: &'static str)
        ensures
            r@ == "ProtocolRaft"@,
    {
        "ProtocolRaft"
    }

    /// Handles one inbound gossip message as [`raft_step`] says.  The result
    /// tells the caller whether to rebroadcast the message to all peers;
    /// local delivery happens onto `queue`.
    pub fn handle_receive_msg(&mut self, msg: &NetMsg) -> (r: bool)
        ensures
            final(self)@ == raft_step(old(self)@, msg@).node,
            r == raft_step(old(self)@, msg@).rebroadcast,
    {
        if seen_contains(&self.msgs, msg.id) {
            return false;
        }
        self.msgs.push(msg.id);
        let deliver = match (self.id, msg.recipient_id) {
            (Some(own), Some(target)) => own == target,
            (Some(_), None) => true,
            (None, _) => false,
        };
        if deliver {
            let m = msg.dup();
            proof {
                assert(self.queue@.push(m).map_values(|x: NetMsg| x@)
                    =~= self.queue@.map_values(|x: NetMsg| x@).push(msg@));
            }
            self.queue.push(m);
        }
        proof {
            assert(self@ =~= raft_step(old(self)@, msg@).node);
        }
        true
    }

    /// Pops the next locally delivered message, oldest first.
    pub fn next_delivery(&mut self) -> (r: Option<NetMsg>)
        ensures
            old(self)@.queue.len() == 0 ==> (r matches None && final(self)@ == old(self)@),
            old(self)@.queue.len() > 0 ==> (r matches Some(m) && m@ == old(self)@.queue.first()
                && final(self)@ == (RaftModel { queue: old(self)@.queue.drop_first(), ..old(self)@ })),
    {
        if self.queue.len() == 0 {
            return None;
        }
        let m = self.queue.remove(0);
        proof {
            assert(self.queue@.map_values(|x: NetMsg| x@)
                =~= old(self).queue@.map_values(|x: NetMsg| x@).drop_first());
            assert(self@ =~= (RaftModel { queue: old(self)@.queue.drop_first(), ..old(self)@ }));
        }
        Some(m)
    }
}

/// The node after handling a whole sequence of inbound messages in order.
pub open spec fn raft_run(node: RaftModel, inbox: Seq<NetMsgModel>) -> RaftModel
    decreases inbox.len(),
{
    if inbox.len() == 0 {
        node
    } else {
        raft_run(raft_step(node, inbox.first()).node, inbox.drop_first())
    }
}

/// How many of the inbound messages the node rebroadcasts.
pub open spec fn raft_run_rebroadcasts(node: RaftModel, inbox: Seq<NetMsgModel>) -> nat
    decreases inbox.len(),
{
    if inbox.len() == 0 {
        0
    } else {
        (if raft_step(node, inbox.first()).rebroadcast {
            1nat
        } else {
            0nat
        }) + raft_run_rebroadcasts(raft_step(node, inbox.first()).node, inbox.drop_first())
    }
}

/// A node that has already seen an id is entirely unaffected by any further
/// sequence of messages carrying that id: nothing changes, nothing is
/// rebroadcast.
pub proof fn lemma_gossip_seen_id_inert(node: RaftModel, inbox: Seq<NetMsgModel>, id: u64)
    requires
        node.msgs.contains(id),
        forall|i: int| 0 <= i < inbox.len() ==> #[trigger] inbox[i].id == id,
    ensures
        raft_run(node, inbox) == node,
        raft_run_rebroadcasts(node, inbox) == 0,
    decreases inbox.len(),
{
    if inbox.len() > 0 {
        assert(inbox.first().id == id);
        lemma_gossip_seen_id_inert(node, inbox.drop_first(), id);
    }
}

/// Duplicate suppression gives at-most-once behaviour per id: for any
/// sequence of deliveries all carrying one id to a node that has not seen
/// it, exactly the first triggers a rebroadcast, and exactly one message is
/// enqueued locally when the addressing matches this node — none otherwise,
/// and none ever again.
pub proof fn lemma_gossip_at_most_once(node: RaftModel, inbox: Seq<NetMsgModel>, id: u64)
    requires
        !node.msgs.contains(id),
        inbox.len() > 0,
        forall|i: int| 0 <= i < inbox.len() ==> #[trigger] inbox[i].id == id,
    ensures
        raft_run_rebroadcasts(node, inbox) == 1,
        raft_run(node, inbox).queue.len() == node.queue.len()
            + (if delivers_locally(node.id, inbox.first().recipient_id) {
                1int
            } else {
                0int
            }),
{
    let first = raft_step(node, inbox.first());
    assert(first.node.msgs.last() == id);
    assert(first.node.msgs.contains(id));
    lemma_gossip_seen_id_inert(first.node, inbox.drop_first(), id);
}

/// Addressing correctness for a novel message: a targeted message is
/// delivered locally exactly by the node whose identity equals the target;
/// a broadcast is delivered exactly by nodes that have an identity.
pub proof fn lemma_addressing(node: RaftModel, msg: NetMsgModel)
    requires
        !node.msgs.contains(msg.id),
    ensures
        ({
            let delivered = raft_step(node, msg).node.queue.len() > node.queue.len();
            &&& (msg.recipient_id matches Some(target)
                ==> (delivered <==> node.id == Some(target)))
            &&& (msg.recipient_id matches None ==> (delivered <==> node.id matches Some(_)))
        }),
{
}

} // verus!
