//! The block value: previous-hash link, slot, transaction payload and
//! signature metadata.
//!
//! Equality and the content hash are defined over the previous hash, the slot
//! and the transactions only; metadata is deliberately excluded, so two
//! blocks with the same chain content but different proof material compare
//! equal and hash identically.  The canonical signing encoding concatenates
//! the length-prefixed encodings of those same three fields.

use vstd::prelude::*;

use crate::encode::{bytes_enc, compact_size, encode_bytes, encode_compact_size, encode_u64, u64_le};

verus! {

/// A transaction carried by a block, held as its raw payload bytes.
pub struct Transaction {
    pub payload: Vec<u8>,
}

impl View for Transaction {
    type V = Seq<u8>;

    open spec fn view(&self) -> Seq<u8> {
        self.payload@
    }
}

impl Transaction {
    /// Builds a transaction from its payload bytes.
    pub fn new(payload: Vec<u8>) -> (t: Transaction)
        ensures
            t@ == payload@,
    {
        Transaction { payload }
    }

    /// Returns a transaction with the same payload.
    pub fn dup(&self) -> (t: Transaction)
        ensures
            t@ == self@,
    {
        Transaction { payload: vstd::slice::slice_to_vec(self.payload.as_slice()) }
    }
}

/// Mathematical value of a [`Metadata`].
#[verifier::ext_equal]
pub struct MetadataModel {
    pub proof_data: Seq<char>,
    pub r: Seq<char>,
    pub s: Seq<char>,
}

/// Opaque signature and proof material attached to a block; never
/// interpreted by the protocol core and excluded from equality, hashing and
/// the signing encoding.
pub struct Metadata {
    pub proof_data: String,
    pub r: String,
    pub s: String,
}

impl View for Metadata {
    type V = MetadataModel;

    open spec fn view(&self) -> MetadataModel {
        MetadataModel { proof_data: self.proof_data@, r: self.r@, s: self.s@ }
    }
}

impl Metadata {
    /// Builds metadata from its proof and signature strings.
    pub fn new(proof_data: String, r: String, s: String) -> (m: Metadata)
        ensures
            m@ == (MetadataModel { proof_data: proof_data@, r: r@, s: s@ }),
    {
        Metadata { proof_data, r, s }
    }

    /// Returns metadata with the same fields.
    pub fn dup(&self) -> (m: Metadata)
        ensures
            m@ == self@,
    {
        Metadata {
            proof_data: self.proof_data.clone(),
            r: self.r.clone(),
            s: self.s.clone(),
        }
    }
}

/// Mathematical value of a [`Block`].
#[verifier::ext_equal]
pub struct BlockModel {
    pub st: Seq<char>,
    pub sl: u64,
    pub txs: Seq<Seq<u8>>,
    pub metadata: MetadataModel,
}

/// Views of a transaction sequence.
pub open spec fn tx_models(txs: Seq<Transaction>) -> Seq<Seq<u8>> {
    txs.map_values(|t: Transaction| t@)
}

/// A chain block: previous block hash `st`, slot `sl`, transaction payload
/// `txs` and additional `metadata`.  Immutable after construction.
pub struct Block {
    /// Previous block hash.
    pub st: String,
    /// Slot uid, assigned by the consensus beacon.
    pub sl: u64,
    /// Transactions payload.
    pub txs: Vec<Transaction>,
    /// Additional block information.
    pub metadata: Metadata,
}

impl View for Block {
    type V = BlockModel;

    open spec fn view(&self) -> BlockModel {
        BlockModel { st: self.st@, sl: self.sl, txs: tx_models(self.txs@), metadata: self.metadata@ }
    }
}

/// Two block values carry the same chain content: equal previous hash, slot
/// and transactions.  Metadata plays no part.
pub open spec fn content_eq(a: BlockModel, b: BlockModel) -> bool {
    a.st == b.st && a.sl == b.sl && a.txs == b.txs
}

/// Encoding of a transaction list: its length as a compact size, then each
/// transaction's length-prefixed payload in order.
pub open spec fn txs_enc_items(txs: Seq<Seq<u8>>) -> Seq<u8>
    decreases txs.len(),
{
    if txs.len() == 0 {
        Seq::empty()
    } else {
        txs_enc_items(txs.drop_last()) + bytes_enc(txs.last())
    }
}

/// Full encoding of a transaction list, length prefix included.
pub open spec fn txs_enc(txs: Seq<Seq<u8>>) -> Seq<u8> {
    compact_size(txs.len() as u64) + txs_enc_items(txs)
}

/// Encoding of a string: its UTF-8 bytes, length prefixed.
pub open spec fn str_enc(s: Seq<char>) -> Seq<u8> {
    bytes_enc(vstd::utf8::encode_utf8(s))
}

/// The canonical signing encoding of a block: the concatenation of the
/// length-prefixed encodings of the previous hash, the slot and the
/// transactions.  Metadata is excluded.
pub open spec fn signing_enc(b: BlockModel) -> Seq<u8> {
    str_enc(b.st) + u64_le(b.sl) + txs_enc(b.txs)
}

/// Content hash of a block: a polynomial hash of the signing encoding, so it
/// depends on the previous hash, slot and transactions alone.
pub open spec fn block_hash(b: BlockModel) -> u64 {
    poly_hash(signing_enc(b))
}

/// Polynomial hash of a byte string, reduced modulo 2^32.
pub open spec fn poly_hash(bytes: Seq<u8>) -> u64
    decreases bytes.len(),
{
    if bytes.len() == 0 {
        0
    } else {
        (((poly_hash(bytes.drop_last()) * 31) + bytes.last()) % 0x100000000) as u64
    }
}

/// Computes the polynomial hash of a byte vector.
fn hash_bytes(bytes: &Vec<u8>) -> (h: u64)
    ensures
        h == poly_hash(bytes@),
{
    let mut h: u64 = 0;
    let mut i: usize = 0;
    while i < bytes.len()
        invariant
            i <= bytes@.len(),
            h == poly_hash(bytes@.take(i as int)),
            h < 0x100000000,
        decreases bytes@.len() - i,
    {
        proof {
            assert(bytes@.take(i + 1 as int).drop_last() =~= bytes@.take(i as int));
            assert(bytes@.take(i + 1 as int).last() == bytes@[i as int]);
        }
        h = (h * 31 + bytes[i] as u64) % 0x100000000;
        i = i + 1;
    }
    proof {
        assert(bytes@.take(bytes@.len() as int) =~= bytes@);
    }
    h
}

/// Views distribute over appending one transaction.
pub proof fn lemma_tx_models_push(s: Seq<Transaction>, t: Transaction)
    ensures
        tx_models(s.push(t)) == tx_models(s).push(t@),
{
    assert(tx_models(s.push(t)) =~= tx_models(s).push(t@));
}

/// Appends the encoding of the transaction list to `out`.
fn encode_txs(out: &mut Vec<u8>, txs: &Vec<Transaction>)
    ensures
        final(out)@ == old(out)@ + txs_enc(tx_models(txs@)),
{
    encode_compact_size(out, txs.len() as u64);
    let mut i: usize = 0;
    while i < txs.len()
        invariant
            i <= txs@.len(),
            out@ == old(out)@ + compact_size(txs@.len() as u64)
                + txs_enc_items(tx_models(txs@).take(i as int)),
        decreases txs@.len() - i,
    {
        encode_bytes(out, txs[i].payload.as_slice());
        proof {
            assert(tx_models(txs@).take(i + 1 as int).drop_last() =~= tx_models(txs@).take(i as int));
            assert(tx_models(txs@).take(i + 1 as int).last() == txs@[i as int]@);
            assert(out@ =~= old(out)@ + compact_size(txs@.len() as u64)
                + txs_enc_items(tx_models(txs@).take(i + 1 as int)));
        }
        i = i + 1;
    }
    proof {
        assert(tx_models(txs@).take(txs@.len() as int) =~= tx_models(txs@));
        assert(out@ =~= old(out)@ + txs_enc(tx_models(txs@)));
    }
}

impl Block {
    /// Builds a block from its chain content and its metadata strings.
    pub fn new(st: String, sl: u64, txs: Vec<Transaction>, proof_data: String, r: String, s: String)
        -> (b: Block)
        ensures
            b@ == (BlockModel {
                st: st@,
                sl,
                txs: tx_models(txs@),
                metadata: MetadataModel { proof_data: proof_data@, r: r@, s: s@ },
            }),
    {
        Block { st, sl, txs, metadata: Metadata::new(proof_data, r, s) }
    }

    /// Returns a block with the same content and metadata.
    pub fn dup(&self) -> (b: Block)
        ensures
            b@ == self@,
    {
        let mut txs: Vec<Transaction> = Vec::new();
        let mut i: usize = 0;
        while i < self.txs.len()
            invariant
                i <= self.txs@.len(),
                tx_models(txs@) == tx_models(self.txs@).take(i as int),
            decreases self.txs@.len() - i,
        {
            let t = self.txs[i].dup();
            proof {
                lemma_tx_models_push(txs@, t);
                assert(tx_models(self.txs@).take(i + 1 as int)
                    =~= tx_models(self.txs@).take(i as int).push(self.txs@[i as int]@));
            }
            txs.push(t);
            i = i + 1;
        }
        proof {
            assert(tx_models(self.txs@).take(self.txs@.len() as int) =~= tx_models(self.txs@));
        }
        let b = Block {
            st: self.st.clone(),
            sl: self.sl,
            txs,
            metadata: self.metadata.dup(),
        };
        proof {
            assert(b@ =~= self@);
        }
        b
    }

    /// The canonical signing encoding: length-prefixed previous hash, the
    /// slot little endian, then the length-prefixed transactions.  The byte
    /// length always equals the sum of the three field encodings; see
    /// [`lemma_signing_enc_len`].
    pub fn signature_encode(&self) -> (r: Vec<u8>)
        ensures
            r@ == signing_enc(self@),
    {
        let mut out: Vec<u8> = Vec::new();
        encode_bytes(&mut out, self.st.as_str().as_bytes());
        encode_u64(&mut out, self.sl);
        encode_txs(&mut out, &self.txs);
        proof {
            assert(out@ =~= signing_enc(self@));
        }
        out
    }

    /// Content hash over the signing encoding; metadata never contributes.
    pub fn hash(&self) -> (h: u64)
        ensures
            h == block_hash(self@),
    {
        let encoded = self.signature_encode();
        hash_bytes(&encoded)
    }
}

/// Compares two byte vectors for equal contents.
fn bytes_eq(a: &Vec<u8>, b: &Vec<u8>) -> (r: bool)
    ensures
        r == (a@ == b@),
{
    if a.len() != b.len() {
        return false;
    }
    let mut i: usize = 0;
    while i < a.len()
        invariant
            i <= a@.len(),
            a@.len() == b@.len(),
            forall|j: int| 0 <= j < i ==> a@[j] == b@[j],
        decreases a@.len() - i,
    {
        if a[i] != b[i] {
            return false;
        }
        i = i + 1;
    }
    proof {
        assert(a@ =~= b@);
    }
    true
}

/// Compares two transaction lists for equal payloads.
fn txs_eq(a: &Vec<Transaction>, b: &Vec<Transaction>) -> (r: bool)
    ensures
        r == (tx_models(a@) == tx_models(b@)),
{
    if a.len() != b.len() {
        proof {
            assert(tx_models(a@).len() != tx_models(b@).len());
        }
        return false;
    }
    let mut i: usize = 0;
    while i < a.len()
        invariant
            i <= a@.len(),
            a@.len() == b@.len(),
            forall|j: int| 0 <= j < i ==> a@[j]@ == b@[j]@,
        decreases a@.len() - i,
    {
        if !bytes_eq(&a[i].payload, &b[i].payload) {
            proof {
                assert(tx_models(a@)[i as int] != tx_models(b@)[i as int]);
            }
            return false;
        }
        i = i + 1;
    }
    proof {
        assert(tx_models(a@) =~= tx_models(b@));
    }
    true
}

impl PartialEq for Block {
    /// Structural equality over the chain content only: previous hash, slot
    /// and transactions.  Metadata is ignored.
    fn eq(&self, other: &Block) -> (r: bool) {
        self.st == other.st && self.sl == other.sl && txs_eq(&self.txs, &other.txs)
    }
}

impl vstd::std_specs::cmp::PartialEqSpecImpl for Block {
    open spec fn obeys_eq_spec() -> bool {
        true
    }

    open spec fn eq_spec(&self, other: &Block) -> bool {
        content_eq(self@, other@)
    }
}

/// Blocks with the same previous hash, slot and transactions are equal and
/// hash identically, whatever their metadata.
pub proof fn lemma_eq_hash_ignore_metadata(a: BlockModel, b: BlockModel)
    requires
        a.st == b.st,
        a.sl == b.sl,
        a.txs == b.txs,
    ensures
        content_eq(a, b),
        block_hash(a) == block_hash(b),
{
    assert(signing_enc(a) == signing_enc(b));
}

/// The byte length of the signing encoding equals the sum of the lengths of
/// the three individually encoded fields.
pub proof fn lemma_signing_enc_len(b: BlockModel)
    ensures
        signing_enc(b).len() == str_enc(b.st).len() + u64_le(b.sl).len() + txs_enc(b.txs).len(),
        u64_le(b.sl).len() == 8,
{
}

} // verus!
