use validator_protocol::Error;
use validator_protocol::block::{Block, Transaction};
use validator_protocol::messages::BlockProposal;
use validator_protocol::protocol_proposal::{ProposalAction, ProtocolProposal};
use validator_protocol::validator::{ValidatorState, VotePolicy};

fn proposal() -> BlockProposal {
    let block = Block::new(
        String::from("prev"),
        3,
        vec![Transaction::new(vec![5])],
        String::from("p"),
        String::from("r"),
        String::from("s"),
    );
    BlockProposal { block, proposer: 9 }
}

#[test]
fn approving_node_tallies_then_broadcasts_proposal_and_vote() {
    let mut state = ValidatorState::new(1, VotePolicy::Approve);
    let proto = ProtocolProposal::init();
    let p = proposal();
    let acts = proto.handle_receive_proposal(&mut state, &p).unwrap();

    // The node's own tally reflects the vote before any broadcast runs.
    assert_eq!(state.votes_len(), 1);
    assert_eq!(state.vote_at(0).voter, 1);
    assert!(state.vote_at(0).block == p.block);

    // Exactly two broadcasts, the proposal first, then the vote.
    assert_eq!(acts.len(), 2);
    match &acts[0] {
        ProposalAction::BroadcastProposal(bp) => {
            assert!(bp.block == p.block);
            assert_eq!(bp.proposer, 9);
        }
        _ => panic!("the proposal must be rebroadcast first"),
    }
    match &acts[1] {
        ProposalAction::BroadcastVote(v) => {
            assert_eq!(v.voter, 1);
            assert!(v.block == p.block);
        }
        _ => panic!("the vote must be broadcast second"),
    }
}

#[test]
fn abstaining_node_does_nothing() {
    let mut state = ValidatorState::new(1, VotePolicy::Abstain);
    let proto = ProtocolProposal::init();
    let acts = proto.handle_receive_proposal(&mut state, &proposal()).unwrap();
    assert_eq!(acts.len(), 0);
    assert_eq!(state.votes_len(), 0);
}

#[test]
fn rejected_proposal_is_absorbed_without_broadcast() {
    let mut state = ValidatorState::new(1, VotePolicy::Reject);
    let proto = ProtocolProposal::init();
    let acts = proto.handle_receive_proposal(&mut state, &proposal()).unwrap();
    assert_eq!(acts.len(), 0);
    assert_eq!(state.votes_len(), 0);
}

#[test]
fn rejecting_state_reports_invalid_proposal() {
    let mut state = ValidatorState::new(1, VotePolicy::Reject);
    match state.receive_proposal(&proposal()) {
        Err(e) => assert_eq!(e, Error::InvalidProposal),
        Ok(_) => panic!("a rejecting state must report the proposal as invalid"),
    }
}

#[test]
fn proposal_protocol_name() {
    assert_eq!(ProtocolProposal::init().name(), "ProtocolProposal");
}
