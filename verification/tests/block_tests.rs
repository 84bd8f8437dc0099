use validator_protocol::block::{Block, Transaction};

fn sample_block(sl: u64, proof_data: &str, r: &str, s: &str) -> Block {
    Block::new(
        String::from("prev"),
        sl,
        vec![Transaction::new(vec![1, 2, 3])],
        String::from(proof_data),
        String::from(r),
        String::from(s),
    )
}

#[test]
fn eq_and_hash_ignore_metadata() {
    let b1 = sample_block(7, "proof-a", "r-a", "s-a");
    let b2 = sample_block(7, "proof-b", "r-b", "s-b");
    assert!(b1 == b2);
    assert_eq!(b1.hash(), b2.hash());
}

#[test]
fn eq_and_hash_see_content() {
    let b1 = sample_block(7, "p", "r", "s");
    let b3 = sample_block(8, "p", "r", "s");
    assert!(b1 != b3);
    assert_ne!(b1.hash(), b3.hash());
    assert_eq!(b1.hash(), 3841849168);
    assert_eq!(b3.hash(), 3548446161);
}

#[test]
fn eq_sees_transactions() {
    let a = Block::new(
        String::from("prev"),
        7,
        vec![Transaction::new(vec![1])],
        String::from("p"),
        String::from("r"),
        String::from("s"),
    );
    let b = Block::new(
        String::from("prev"),
        7,
        vec![Transaction::new(vec![2])],
        String::from("p"),
        String::from("r"),
        String::from("s"),
    );
    assert!(a != b);
}

#[test]
fn signature_encode_exact_bytes() {
    let b = Block::new(
        String::from("ab"),
        5,
        vec![Transaction::new(vec![1, 2, 3])],
        String::from("meta"),
        String::from("r"),
        String::from("s"),
    );
    let enc = b.signature_encode();
    assert_eq!(enc, vec![2, 97, 98, 5, 0, 0, 0, 0, 0, 0, 0, 1, 3, 1, 2, 3]);
}

#[test]
fn signature_encode_empty_block() {
    let b = Block::new(
        String::from(""),
        0,
        Vec::new(),
        String::from(""),
        String::from(""),
        String::from(""),
    );
    let enc = b.signature_encode();
    assert_eq!(enc, vec![0, 0, 0, 0, 0, 0, 0, 0, 0, 0]);
}

#[test]
fn signature_encode_length_is_sum_of_fields() {
    let b = Block::new(
        String::from("ab"),
        5,
        vec![Transaction::new(vec![1, 2, 3])],
        String::from("long-metadata-that-must-not-count"),
        String::from("r"),
        String::from("s"),
    );
    // previous hash: 1 + 2 bytes; slot: 8 bytes; transactions: 1 + (1 + 3).
    assert_eq!(b.signature_encode().len(), 3 + 8 + 5);
}

#[test]
fn signature_encode_wide_length_prefix() {
    let long = "a".repeat(253);
    let b = Block::new(
        long,
        1,
        Vec::new(),
        String::from("p"),
        String::from("r"),
        String::from("s"),
    );
    let enc = b.signature_encode();
    assert_eq!(enc[0], 253);
    assert_eq!(enc[1], 253);
    assert_eq!(enc[2], 0);
    assert_eq!(enc.len(), 3 + 253 + 8 + 1);
}

#[test]
fn dup_preserves_content_and_metadata() {
    let b = sample_block(7, "p", "r", "s");
    let c = b.dup();
    assert!(b == c);
    assert_eq!(b.hash(), c.hash());
    assert_eq!(c.metadata.proof_data, "p");
    assert_eq!(c.metadata.r, "r");
    assert_eq!(c.metadata.s, "s");
}
