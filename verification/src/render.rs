//! Textual rendering of an enriched record into the insert statement for the
//! store, and of the store's connection parameters.

use vstd::prelude::*;
use vstd::string::*;
use crate::data::{MintedEventData, RecordView};

verus! {

/// The sixteen hexadecimal digit characters, in value order; the first ten
/// double as the decimal digits.
pub open spec fn hex_digits() -> Seq<char> {
    seq!['0', '1', '2', '3', '4', '5', '6', '7', '8', '9', 'a', 'b', 'c', 'd', 'e', 'f']
}

/// Lowercase hexadecimal text of a byte string: two digits per byte, high
/// nibble first.
pub open spec fn hex_of(s: Seq<u8>) -> Seq<char>
    decreases s.len(),
{
    if s.len() == 0 {
        Seq::empty()
    } else {
        hex_of(s.drop_last()) + seq![
            hex_digits()[s.last() as int / 16],
            hex_digits()[s.last() as int % 16],
        ]
    }
}

/// Relies on hex::encode: lowercase hexadecimal, two digits per byte, high
/// nibble first (the crate's digit table is "0123456789abcdef").
#[verifier::external_body]
fn hex_encode(b: &Vec<u8>) -> (r: String)
    ensures
        r@ == hex_of(b@),
{
    hex::encode(b.as_slice())
}

/// Decimal text of an unsigned integer, most significant digit first, no
/// leading zeros (a single zero for zero).
pub open spec fn dec_of(n: nat) -> Seq<char>
    decreases n,
{
    if n < 10 {
        seq![hex_digits()[n as int]]
    } else {
        dec_of(n / 10) + seq![hex_digits()[(n % 10) as int]]
    }
}

fn digit_text(d: u64) -> (r: &'static str)
    requires
        d < 10,
    ensures
        r@ == seq![hex_digits()[d as int]],
{
    proof {
        reveal_strlit("0");
        reveal_strlit("1");
        reveal_strlit("2");
        reveal_strlit("3");
        reveal_strlit("4");
        reveal_strlit("5");
        reveal_strlit("6");
        reveal_strlit("7");
        reveal_strlit("8");
        reveal_strlit("9");
    }
    if d == 0 {
        "0"
    } else if d == 1 {
        "1"
    } else if d == 2 {
        "2"
    } else if d == 3 {
        "3"
    } else if d == 4 {
        "4"
    } else if d == 5 {
        "5"
    } else if d == 6 {
        "6"
    } else if d == 7 {
        "7"
    } else if d == 8 {
        "8"
    } else {
        "9"
    }
}

/// Decimal text of a 64-bit unsigned integer.
pub fn u64_text(n: u64) -> (r: String)
    ensures
        r@ == dec_of(n as nat),
    decreases n,
{
    if n < 10 {
        let mut s = String::new();
        s.append(digit_text(n));
        proof {
            assert(s@ =~= dec_of(n as nat));
        }
        s
    } else {
        let mut s = u64_text(n / 10);
        s.append(digit_text(n % 10));
        proof {
            assert(s@ =~= dec_of(n as nat));
        }
        s
    }
}

/// The insert statement for one enriched record, given the text that renders
/// its block time.
pub open spec fn insert_query_of(r: RecordView, time_text: Seq<char>) -> Seq<char> {
    "INSERT INTO minted_gorple (dst_address, amount, fee, src_tx_hash, src_chain_id, nonce, dst_tx_hash, dst_block_slot, dst_block_time) VALUES ('"@
        + r.dst_address + "', "@ + dec_of(r.amount as nat) + ", "@ + dec_of(r.fee as nat) + ", '"@
        + hex_of(r.src_tx_hash) + "', "@ + dec_of(r.src_chain_id as nat) + ", "@ + dec_of(r.nonce)
        + ", '"@ + r.dst_tx_hash + "', "@ + dec_of(r.dst_block_slot as nat) + ", '"@ + time_text
        + "')"@
}

/// Render the insert statement for a record whose block-time text is already
/// known.
pub fn render_insert_with_time(rec: &MintedEventData, time_text: &str) -> (q: String)
    ensures
        q@ == insert_query_of(rec@, time_text@),
{
    let mut q = String::new();
    q.append(
        "INSERT INTO minted_gorple (dst_address, amount, fee, src_tx_hash, src_chain_id, nonce, dst_tx_hash, dst_block_slot, dst_block_time) VALUES ('",
    );
    q.append(rec.dst_address.as_str());
    q.append("', ");
    let amount_text = u64_text(rec.amount);
    q.append(amount_text.as_str());
    q.append(", ");
    let fee_text = u64_text(rec.fee);
    q.append(fee_text.as_str());
    q.append(", '");
    let hash_text = hex_encode(&rec.src_tx_hash);
    q.append(hash_text.as_str());
    q.append("', ");
    let chain_text = u64_text(rec.src_chain_id);
    q.append(chain_text.as_str());
    q.append(", ");
    let nonce_text = u64_text(rec.nonce);
    q.append(nonce_text.as_str());
    q.append(", '");
    q.append(rec.dst_tx_hash.as_str());
    q.append("', ");
    let slot_text = u64_text(rec.dst_block_slot);
    q.append(slot_text.as_str());
    q.append(", '");
    q.append(time_text);
    q.append("')");
    proof {
        assert(q@ =~= insert_query_of(rec@, time_text@));
    }
    q
}

/// What chrono renders a UNIX timestamp as, when it renders one at all.
pub uninterp spec fn timestamp_text_of(secs: i64) -> Option<Seq<char>>;

/// Relies on chrono::DateTime::<Utc>::from_timestamp, which is `None` exactly
/// on an out-of-range number of seconds, and on chrono's Display for the
/// resulting UTC date-time; both depend on the seconds value alone.
#[verifier::external_body]
fn timestamp_text(secs: i64) -> (r: Option<String>)
    ensures
        r is Some <==> timestamp_text_of(secs) is Some,
        r matches Some(s) ==> timestamp_text_of(secs) == Some(s@),
{
    chrono::DateTime::from_timestamp(secs, 0).map(|d| d.to_string())
}

/// Render the insert statement for one enriched record. `None` exactly when
/// the record's block time has no calendar rendering (it is out of range for
/// a date-time).
pub fn render_insert(rec: &MintedEventData) -> (q: Option<String>)
    ensures
        q is Some <==> timestamp_text_of(rec.dst_block_time) is Some,
        q matches Some(s) ==> s@ == insert_query_of(rec@, timestamp_text_of(rec.dst_block_time)->0),
{
    match timestamp_text(rec.dst_block_time) {
        Some(t) => Some(render_insert_with_time(rec, t.as_str())),
        None => None,
    }
}

} // verus!
