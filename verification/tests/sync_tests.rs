use validator_protocol::Error;
use validator_protocol::block::{Block, Transaction};
use validator_protocol::messages::{BlockInfo, BlockOrder};
use validator_protocol::protocol_sync::{BATCH, ProtocolSync};
use validator_protocol::validator::{ValidatorState, VotePolicy};

fn block_at(sl: u64) -> Block {
    Block::new(
        String::from("prev"),
        sl,
        Vec::new(),
        String::from("p"),
        String::from("r"),
        String::from("s"),
    )
}

fn info_at(sl: u64) -> BlockInfo {
    BlockInfo { block: block_at(sl), txs: Vec::new() }
}

fn state_with_slots(slots: &[u64]) -> ValidatorState {
    let mut state = ValidatorState::new(7, VotePolicy::Abstain);
    for sl in slots {
        state.add_by_info(&info_at(*sl)).unwrap();
    }
    state
}

#[test]
fn batch_constant_is_ten() {
    assert_eq!(BATCH, 10);
}

#[test]
fn request_returns_at_most_ten_ascending_from_slot() {
    let slots: Vec<u64> = (1..=15).collect();
    let state = state_with_slots(&slots);
    let proto = ProtocolSync::init(false);
    let resp = proto.handle_receive_request(&state, &BlockOrder { sl: 3 });
    assert_eq!(resp.blocks.len(), 10);
    for (k, b) in resp.blocks.iter().enumerate() {
        assert_eq!(b.sl, 3 + k as u64);
        assert!(b.sl >= 3);
    }
    for w in resp.blocks.windows(2) {
        assert!(w[0].sl < w[1].sl);
    }
}

#[test]
fn request_past_end_is_empty() {
    let state = state_with_slots(&[1, 2, 3]);
    let proto = ProtocolSync::init(false);
    let resp = proto.handle_receive_request(&state, &BlockOrder { sl: 100 });
    assert_eq!(resp.blocks.len(), 0);
}

#[test]
fn request_with_few_blocks_returns_them_all() {
    let state = state_with_slots(&[2, 4, 6]);
    let proto = ProtocolSync::init(false);
    let resp = proto.handle_receive_request(&state, &BlockOrder { sl: 0 });
    assert_eq!(resp.blocks.len(), 3);
    assert_eq!(resp.blocks[0].sl, 2);
    assert_eq!(resp.blocks[2].sl, 6);
}

#[test]
fn ingest_appends_prunes_and_rebroadcasts_once() {
    let mut state = ValidatorState::new(7, VotePolicy::Abstain);
    state.submit_tx(Transaction::new(vec![9]));
    state.submit_tx(Transaction::new(vec![8]));
    let info = BlockInfo { block: block_at(1), txs: vec![Transaction::new(vec![9])] };
    let proto = ProtocolSync::init(false);

    let first = proto.handle_receive_block(&mut state, &info).unwrap();
    let rebroadcast = first.expect("a novel block must be rebroadcast");
    assert_eq!(rebroadcast.block.sl, 1);
    assert_eq!(state.chain_len(), 1);
    assert_eq!(state.pool_len(), 1);
    assert_eq!(state.pool_at(0).payload, vec![8]);

    // The same announcement again is a no-op beyond the dedup check.
    let second = proto.handle_receive_block(&mut state, &info).unwrap();
    assert!(second.is_none());
    assert_eq!(state.chain_len(), 1);
    assert_eq!(state.pool_len(), 1);
}

#[test]
fn consensus_mode_never_mutates() {
    let mut state = ValidatorState::new(7, VotePolicy::Abstain);
    state.submit_tx(Transaction::new(vec![9]));
    let info = BlockInfo { block: block_at(1), txs: vec![Transaction::new(vec![9])] };
    let proto = ProtocolSync::init(true);
    let r = proto.handle_receive_block(&mut state, &info).unwrap();
    assert!(r.is_none());
    assert_eq!(state.chain_len(), 0);
    assert_eq!(state.pool_len(), 1);
}

#[test]
fn ingest_rejects_block_that_cannot_extend_chain() {
    let mut state = state_with_slots(&[5]);
    let proto = ProtocolSync::init(false);
    match proto.handle_receive_block(&mut state, &info_at(3)) {
        Err(e) => assert_eq!(e, Error::BlockAdditionFailed),
        Ok(_) => panic!("a block that cannot extend the chain must be rejected"),
    }
    assert_eq!(state.chain_len(), 1);
}

#[test]
fn remove_txs_drops_only_named_payloads() {
    let mut state = ValidatorState::new(7, VotePolicy::Abstain);
    state.submit_tx(Transaction::new(vec![1]));
    state.submit_tx(Transaction::new(vec![2]));
    state.submit_tx(Transaction::new(vec![1]));
    state.remove_txs(&vec![Transaction::new(vec![1])]).unwrap();
    assert_eq!(state.pool_len(), 1);
    assert_eq!(state.pool_at(0).payload, vec![2]);
}

#[test]
fn sync_protocol_name() {
    assert_eq!(ProtocolSync::init(false).name(), "ProtocolSync");
}
