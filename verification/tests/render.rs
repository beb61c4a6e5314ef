use listener_app::config::PostgresConfig;
use listener_app::data::MintedEventData;
use listener_app::render::{render_insert, render_insert_with_time, u64_text};

fn sample_record() -> MintedEventData {
    MintedEventData {
        dst_address: String::from("8Jq5bCoYwPrE1nQkXg6sDf9u4ZvTxWm2aHcLdRy7eKtN"),
        amount: 1_000,
        fee: 25,
        src_tx_hash: vec![0x2a, 0xff],
        src_chain_id: 7,
        nonce: 42,
        dst_tx_hash: String::from("sig-1"),
        dst_block_slot: 5_000,
        dst_block_time: 1,
    }
}

#[test]
fn decimal_text_of_small_and_large_numbers() {
    assert_eq!(u64_text(0), "0");
    assert_eq!(u64_text(9), "9");
    assert_eq!(u64_text(10), "10");
    assert_eq!(u64_text(5_000), "5000");
    assert_eq!(u64_text(u64::MAX), "18446744073709551615");
}

#[test]
fn insert_query_renders_every_column() {
    let q = render_insert_with_time(&sample_record(), "1970-01-01 00:00:01 UTC");
    assert_eq!(
        q,
        "INSERT INTO minted_gorple (dst_address, amount, fee, src_tx_hash, src_chain_id, \
         nonce, dst_tx_hash, dst_block_slot, dst_block_time) VALUES \
         ('8Jq5bCoYwPrE1nQkXg6sDf9u4ZvTxWm2aHcLdRy7eKtN', 1000, 25, '2aff', 7, 42, \
         'sig-1', 5000, '1970-01-01 00:00:01 UTC')"
    );
}

#[test]
fn insert_query_hex_encodes_the_source_hash() {
    let mut rec = sample_record();
    rec.src_tx_hash = vec![0x00, 0x01, 0xab, 0xcd, 0xef];
    let q = render_insert_with_time(&rec, "t");
    assert!(q.contains("'0001abcdef'"));
}

#[test]
fn render_insert_uses_the_calendar_text_of_the_block_time() {
    let rec = sample_record();
    let q = render_insert(&rec).expect("a second past the epoch renders");
    assert_eq!(q, render_insert_with_time(&rec, "1970-01-01 00:00:01 UTC"));

    let with_chrono = chrono::DateTime::from_timestamp(rec.dst_block_time, 0)
        .unwrap()
        .to_string();
    assert_eq!(q, render_insert_with_time(&rec, &with_chrono));
}

#[test]
fn render_insert_refuses_a_block_time_out_of_calendar_range() {
    let mut rec = sample_record();
    rec.dst_block_time = i64::MAX;
    assert!(render_insert(&rec).is_none());
}

#[test]
fn connection_string_renders_every_parameter() {
    let c = PostgresConfig {
        host: String::from("localhost"),
        port: 5432,
        username: String::from("writer"),
        password: String::from("SECRET-REDACTED"),
        dbname: String::from("events"),
    };
    assert_eq!(
        c.connection_string(),
        "host=localhost port=5432 user=writer password=SECRET-REDACTED dbname=events"
    );
}
