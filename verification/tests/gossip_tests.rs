use validator_protocol::messages::NetMsg;
use validator_protocol::protocol_raft::ProtocolRaft;

fn msg(id: u64, recipient_id: Option<u64>) -> NetMsg {
    NetMsg { id, method: String::from("put"), recipient_id, payload: vec![1, 2] }
}

#[test]
fn duplicate_id_is_neither_rebroadcast_nor_delivered() {
    let mut node = ProtocolRaft::init(Some(2));
    let m = msg(42, Some(2));
    assert!(node.handle_receive_msg(&m));
    assert_eq!(node.queue.len(), 1);
    // A second copy with the same id is discarded silently.
    assert!(!node.handle_receive_msg(&m));
    assert_eq!(node.queue.len(), 1);
}

#[test]
fn targeted_message_reaches_only_its_recipient() {
    let m = msg(7, Some(2));

    let mut recipient = ProtocolRaft::init(Some(2));
    assert!(recipient.handle_receive_msg(&m));
    assert_eq!(recipient.queue.len(), 1);

    let mut bystander = ProtocolRaft::init(Some(3));
    assert!(bystander.handle_receive_msg(&m));
    assert_eq!(bystander.queue.len(), 0);

    let mut anonymous = ProtocolRaft::init(None);
    assert!(anonymous.handle_receive_msg(&m));
    assert_eq!(anonymous.queue.len(), 0);
}

#[test]
fn broadcast_reaches_every_identified_node_only() {
    let m = msg(7, None);

    let mut identified = ProtocolRaft::init(Some(1));
    assert!(identified.handle_receive_msg(&m));
    assert_eq!(identified.queue.len(), 1);

    let mut anonymous = ProtocolRaft::init(None);
    assert!(anonymous.handle_receive_msg(&m));
    assert_eq!(anonymous.queue.len(), 0);
}

#[test]
fn end_to_end_targeted_gossip() {
    // Node A (id 1) sends a message targeted at node 2.
    let _sender = ProtocolRaft::init(Some(1));
    let m = msg(42, Some(2));

    // Node B (id 2): novel id, rebroadcasts, delivers locally.
    let mut node_b = ProtocolRaft::init(Some(2));
    assert!(node_b.handle_receive_msg(&m));
    let delivered = node_b.next_delivery().expect("node B must deliver locally");
    assert_eq!(delivered.id, 42);
    assert_eq!(delivered.recipient_id, Some(2));
    assert_eq!(delivered.method, "put");

    // Node C (id 3): novel id, rebroadcasts, no local delivery.
    let mut node_c = ProtocolRaft::init(Some(3));
    assert!(node_c.handle_receive_msg(&m));
    assert!(node_c.next_delivery().is_none());

    // Node B sees id 42 again from C's rebroadcast: neither rebroadcast nor
    // local delivery.
    assert!(!node_b.handle_receive_msg(&m));
    assert!(node_b.next_delivery().is_none());
}

#[test]
fn local_deliveries_come_out_oldest_first() {
    let mut node = ProtocolRaft::init(Some(5));
    assert!(node.handle_receive_msg(&msg(1, None)));
    assert!(node.handle_receive_msg(&msg(2, Some(5))));
    assert_eq!(node.next_delivery().unwrap().id, 1);
    assert_eq!(node.next_delivery().unwrap().id, 2);
    assert!(node.next_delivery().is_none());
}

#[test]
fn message_and_protocol_names() {
    assert_eq!(NetMsg::name(), "netmsg");
    assert_eq!(ProtocolRaft::init(None).name(), "ProtocolRaft");
}
