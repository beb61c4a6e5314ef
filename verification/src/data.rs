//! The pipeline's data model: the decoded inbound event, its transaction
//! metadata, and the enriched record that is ready for persistence.

use vstd::prelude::*;

verus! {

/// Decoded on-chain event payload, as handed over by the external listener,
/// prior to timestamp enrichment. The destination address is carried as its
/// textual form; the nonce is an opaque blob whose last eight bytes encode a
/// big-endian unsigned integer.
pub struct Minted {
    pub to: String,
    pub amount: u64,
    pub fee: u64,
    pub src_tx_hash: Vec<u8>,
    pub src_chain_id: u64,
    pub nonce: Vec<u8>,
}

/// Mathematical image of a `Minted` event.
#[verifier::ext_equal]
pub struct MintedView {
    pub to: Seq<char>,
    pub amount: u64,
    pub fee: u64,
    pub src_tx_hash: Seq<u8>,
    pub src_chain_id: u64,
    pub nonce: Seq<u8>,
}

impl View for Minted {
    type V = MintedView;

    open spec fn view(&self) -> MintedView {
        MintedView {
            to: self.to@,
            amount: self.amount,
            fee: self.fee,
            src_tx_hash: self.src_tx_hash@,
            src_chain_id: self.src_chain_id,
            nonce: self.nonce@,
        }
    }
}

/// Transaction metadata attached to an inbound event: the destination
/// transaction signature, its slot, and — once enrichment has run — the
/// block time of that slot.
pub struct SolanaTxMetadata {
    pub dst_tx_hash: String,
    pub dst_block_slot: u64,
    pub dst_block_time: Option<i64>,
}

/// Mathematical image of `SolanaTxMetadata`.
#[verifier::ext_equal]
pub struct MetaView {
    pub dst_tx_hash: Seq<char>,
    pub dst_block_slot: u64,
    pub dst_block_time: Option<i64>,
}

impl View for SolanaTxMetadata {
    type V = MetaView;

    open spec fn view(&self) -> MetaView {
        MetaView {
            dst_tx_hash: self.dst_tx_hash@,
            dst_block_slot: self.dst_block_slot,
            dst_block_time: self.dst_block_time,
        }
    }
}

impl SolanaTxMetadata {
    /// Metadata as it arrives from the listener: the block time is not yet
    /// known.
    pub fn new(dst_tx_hash: String, dst_block_slot: u64) -> (m: Self)
        ensures
            m.dst_tx_hash == dst_tx_hash,
            m.dst_block_slot == dst_block_slot,
            m.dst_block_time is None,
    {
        SolanaTxMetadata { dst_tx_hash, dst_block_slot, dst_block_time: None }
    }
}

/// A fully enriched record, ready to be written to the store. Exists only
/// after a block time was obtained and the nonce blob was reduced to its
/// numeric value.
pub struct MintedEventData {
    pub dst_address: String,
    pub amount: u64,
    pub fee: u64,
    pub src_tx_hash: Vec<u8>,
    pub src_chain_id: u64,
    pub nonce: u64,
    pub dst_tx_hash: String,
    pub dst_block_slot: u64,
    pub dst_block_time: i64,
}

/// Mathematical image of an enriched record.
#[verifier::ext_equal]
pub struct RecordView {
    pub dst_address: Seq<char>,
    pub amount: u64,
    pub fee: u64,
    pub src_tx_hash: Seq<u8>,
    pub src_chain_id: u64,
    pub nonce: nat,
    pub dst_tx_hash: Seq<char>,
    pub dst_block_slot: u64,
    pub dst_block_time: i64,
}

impl View for MintedEventData {
    type V = RecordView;

    open spec fn view(&self) -> RecordView {
        RecordView {
            dst_address: self.dst_address@,
            amount: self.amount,
            fee: self.fee,
            src_tx_hash: self.src_tx_hash@,
            src_chain_id: self.src_chain_id,
            nonce: self.nonce as nat,
            dst_tx_hash: self.dst_tx_hash@,
            dst_block_slot: self.dst_block_slot,
            dst_block_time: self.dst_block_time,
        }
    }
}

/// The unsigned integer encoded big-endian by a byte string.
pub open spec fn be_u64_of(s: Seq<u8>) -> nat
    decreases s.len(),
{
    if s.len() == 0 {
        0
    } else {
        be_u64_of(s.drop_last()) * 256 + (s.last() as nat)
    }
}

/// The numeric value of a nonce blob: the big-endian integer held by its
/// last eight bytes.
pub open spec fn nonce_value_of(nonce: Seq<u8>) -> nat {
    be_u64_of(nonce.subrange(nonce.len() - 8, nonce.len() as int))
}

proof fn lemma_be_u64_step(s: Seq<u8>, k: int, m: int)
    requires
        0 <= k < m <= s.len(),
    ensures
        be_u64_of(s.subrange(k, m)) == be_u64_of(s.subrange(k, m - 1)) * 256 + s[m - 1],
{
    assert(s.subrange(k, m).drop_last() =~= s.subrange(k, m - 1));
    assert(s.subrange(k, m).last() == s[m - 1]);
}

/// Reduce a nonce blob to its numeric value: the big-endian unsigned integer
/// held by its last eight bytes. A shorter blob is an upstream contract
/// violation and is ruled out by the precondition.
pub fn nonce_value(nonce: &Vec<u8>) -> (r: u64)
    requires
        nonce@.len() >= 8,
    ensures
        r as nat == nonce_value_of(nonce@),
{
    let k = nonce.len() - 8;
    let mut acc: u64 = nonce[k] as u64;
    acc = acc * 256 + (nonce[k + 1] as u64);
    acc = acc * 256 + (nonce[k + 2] as u64);
    acc = acc * 256 + (nonce[k + 3] as u64);
    acc = acc * 256 + (nonce[k + 4] as u64);
    acc = acc * 256 + (nonce[k + 5] as u64);
    acc = acc * 256 + (nonce[k + 6] as u64);
    acc = acc * 256 + (nonce[k + 7] as u64);
    proof {
        let g = nonce@;
        let kk = k as int;
        assert(g.subrange(kk, kk).len() == 0);
        lemma_be_u64_step(g, kk, kk + 1);
        lemma_be_u64_step(g, kk, kk + 2);
        lemma_be_u64_step(g, kk, kk + 3);
        lemma_be_u64_step(g, kk, kk + 4);
        lemma_be_u64_step(g, kk, kk + 5);
        lemma_be_u64_step(g, kk, kk + 6);
        lemma_be_u64_step(g, kk, kk + 7);
        lemma_be_u64_step(g, kk, kk + 8);
    }
    acc
}

/// Checked form of `nonce_value`: `None` exactly on a blob too short to hold
/// the eight bytes of the integer.
pub fn try_nonce_value(nonce: &Vec<u8>) -> (r: Option<u64>)
    ensures
        r is Some <==> nonce@.len() >= 8,
        r matches Some(v) ==> v as nat == nonce_value_of(nonce@),
{
    if nonce.len() >= 8 {
        Some(nonce_value(nonce))
    } else {
        None
    }
}

/// What enrichment produces: the event's own fields carried over unchanged,
/// the nonce blob reduced to its numeric value, the metadata's signature and
/// slot copied, and the looked-up block time filled in.
pub open spec fn enrich_spec(m: MintedView, meta: MetaView, block_time: i64) -> RecordView {
    RecordView {
        dst_address: m.to,
        amount: m.amount,
        fee: m.fee,
        src_tx_hash: m.src_tx_hash,
        src_chain_id: m.src_chain_id,
        nonce: nonce_value_of(m.nonce),
        dst_tx_hash: meta.dst_tx_hash,
        dst_block_slot: meta.dst_block_slot,
        dst_block_time: block_time,
    }
}

impl MintedEventData {
    /// Enrich one inbound event with the block time obtained for its slot.
    pub fn enrich(minted: Minted, meta: SolanaTxMetadata, block_time: i64) -> (r: Self)
        requires
            minted.nonce@.len() >= 8,
        ensures
            r@ == enrich_spec(minted@, meta@, block_time),
    {
        let nonce = nonce_value(&minted.nonce);
        let r = MintedEventData {
            dst_address: minted.to,
            amount: minted.amount,
            fee: minted.fee,
            src_tx_hash: minted.src_tx_hash,
            src_chain_id: minted.src_chain_id,
            nonce,
            dst_tx_hash: meta.dst_tx_hash,
            dst_block_slot: meta.dst_block_slot,
            dst_block_time: block_time,
        };
        proof {
            assert(r@ =~= enrich_spec(minted@, meta@, block_time));
        }
        r
    }

    /// Build a record from an event whose metadata already carries a block
    /// time (the shape in which the enrichment stage hands pairs on).
    pub fn from_parts(minted: Minted, meta: SolanaTxMetadata) -> (r: Self)
        requires
            minted.nonce@.len() >= 8,
            meta.dst_block_time is Some,
        ensures
            r@ == enrich_spec(minted@, meta@, meta.dst_block_time->0),
    {
        let t = meta.dst_block_time.unwrap();
        Self::enrich(minted, meta, t)
    }
}

/// Enrichment is idempotent and non-destructive: it is a pure function of
/// the event, the metadata and the block time — the same slot's block time
/// lands in `dst_block_time` unchanged, and no field of the event or of the
/// metadata is altered on the way into the record.
pub proof fn lemma_enrichment_preserves_event(m: MintedView, meta: MetaView, t: i64)
    ensures
        enrich_spec(m, meta, t).dst_block_time == t,
        enrich_spec(m, meta, t).dst_address == m.to,
        enrich_spec(m, meta, t).amount == m.amount,
        enrich_spec(m, meta, t).fee == m.fee,
        enrich_spec(m, meta, t).src_tx_hash == m.src_tx_hash,
        enrich_spec(m, meta, t).src_chain_id == m.src_chain_id,
        enrich_spec(m, meta, t).nonce == nonce_value_of(m.nonce),
        enrich_spec(m, meta, t).dst_tx_hash == meta.dst_tx_hash,
        enrich_spec(m, meta, t).dst_block_slot == meta.dst_block_slot,
{
}

} // verus!
