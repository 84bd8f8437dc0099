//! Block proposal propagation and voting.
//!
//! Each inbound proposal is forwarded to the validator state.  When the
//! state produces a vote, the vote is applied to the node's own tally first,
//! and then the proposal and the vote are rebroadcast, in that order.  When
//! the state declines to vote, or rejects the proposal as invalid, nothing
//! is broadcast and nothing changes; validation errors are expected network
//! noise and never terminate the receive loop.

use vstd::prelude::*;

use crate::Error;
use crate::messages::{BlockProposal, Vote, VoteModel};
use crate::validator::{StateModel, ValidatorState, VotePolicy};

verus! {

/// One outbound broadcast ordered by the proposal handler.
pub enum ProposalAction {
    BroadcastProposal(BlockProposal),
    BroadcastVote(Vote),
}

/// The proposal protocol attached to one connection.
pub struct ProtocolProposal {}

impl ProtocolProposal {
    /// Attaches the protocol.
    pub fn init() -> (p: ProtocolProposal) {
        ProtocolProposal {}
    }

    /// Protocol identifier.
    pub fn name(&self) -> (r: &'static str)
        ensures
            r@ == "ProtocolProposal"@,
    {
        "ProtocolProposal"
    }

    /// Handles one inbound proposal.  When the state votes, the vote enters
    /// the node's own tally before anything is broadcast, and exactly two
    /// broadcasts are ordered: the proposal first, then the vote.  When the
    /// state abstains or rejects, the state is unchanged and no broadcast is
    /// ordered.
    pub fn handle_receive_proposal(&self, state: &mut ValidatorState, proposal: &BlockProposal)
        -> (r: Result<Vec<ProposalAction>, Error>)
        ensures
            r matches Ok(acts) && ({
                let acts_view = acts@;
                if old(state)@.policy == VotePolicy::Approve {
                    let vote = VoteModel { block: proposal@.block, voter: old(state)@.id };
                    final(state)@ == (StateModel { votes: old(state)@.votes.push(vote), ..old(state)@ })
                    && acts_view.len() == 2
                    && (acts_view[0] matches ProposalAction::BroadcastProposal(p) && p@ == proposal@)
                    && (acts_view[1] matches ProposalAction::BroadcastVote(v) && v@ == vote)
                } else {
                    final(state)@ == old(state)@ && acts_view.len() == 0
                }
            }),
    {
        match state.receive_proposal(proposal) {
            Err(_) => {
                // Malformed or out-of-context proposal: absorbed, the loop
                // continues.
                Ok(Vec::new())
            }
            Ok(None) => {
                // The node did not vote for the proposed block.
                Ok(Vec::new())
            }
            Ok(Some(vote)) => {
                let applied = state.receive_vote(&vote);
                match applied {
                    Err(e) => Err(e),
                    Ok(()) => {
                        let mut acts: Vec<ProposalAction> = Vec::new();
                        acts.push(ProposalAction::BroadcastProposal(proposal.dup()));
                        acts.push(ProposalAction::BroadcastVote(vote));
                        Ok(acts)
                    }
                }
            }
        }
    }
}

} // verus!
