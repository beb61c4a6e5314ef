use listener_app::data::{Minted, SolanaTxMetadata};
use listener_app::pipeline::{ConnAction, ConnState, InboundEvent, Pipeline, RECONNECT_DELAY_SECS};

fn event(tag: &str, slot: u64) -> InboundEvent {
    InboundEvent {
        minted: Minted {
            to: String::from("destination"),
            amount: 10,
            fee: 1,
            src_tx_hash: vec![1, 2, 3],
            src_chain_id: 4,
            nonce: vec![0, 0, 0, 0, 0, 0, 0, 9],
        },
        meta: SolanaTxMetadata {
            dst_tx_hash: String::from(tag),
            dst_block_slot: slot,
            dst_block_time: None,
        },
    }
}

#[test]
fn events_are_attempted_in_arrival_order_without_duplication() {
    let mut p = Pipeline::new();
    p.push_event(event("a", 1));
    p.push_event(event("b", 2));
    p.push_event(event("c", 3));
    p.enrich_front(100);
    p.enrich_front(200);
    p.enrich_front(300);
    assert_eq!(p.connect_attempt(true), ConnAction::BeginWriting);
    p.attempt_front(true);
    p.attempt_front(false);
    p.attempt_front(true);
    let attempted: Vec<&str> = p.attempted.iter().map(|r| r.dst_tx_hash.as_str()).collect();
    assert_eq!(attempted, vec!["a", "b", "c"]);
    let written: Vec<&str> = p.written.iter().map(|r| r.dst_tx_hash.as_str()).collect();
    assert_eq!(written, vec!["a", "c"]);
    assert_eq!(p.attempted[0].dst_block_time, 100);
    assert_eq!(p.attempted[1].dst_block_time, 200);
    assert_eq!(p.attempted[2].dst_block_time, 300);
}

#[test]
fn no_event_is_lost_while_the_store_is_down() {
    let mut p = Pipeline::new();
    // The store is unavailable: connection attempts fail while events arrive.
    assert_eq!(p.connect_attempt(false), ConnAction::RetryAfterDelay);
    p.push_event(event("a", 1));
    p.push_event(event("b", 2));
    p.enrich_front(100);
    assert_eq!(p.connect_attempt(false), ConnAction::RetryAfterDelay);
    p.push_event(event("c", 3));
    p.enrich_front(200);
    p.enrich_front(300);
    // Nothing was attempted, nothing dropped.
    assert_eq!(p.attempted.len(), 0);
    assert_eq!(p.pending_writes(), 3);
    // The store comes back: everything buffered is attempted.
    assert_eq!(p.connect_attempt(true), ConnAction::BeginWriting);
    while p.pending_writes() > 0 {
        p.attempt_front(true);
    }
    assert_eq!(p.attempted.len(), 3);
    let attempted: Vec<&str> = p.attempted.iter().map(|r| r.dst_tx_hash.as_str()).collect();
    assert_eq!(attempted, vec!["a", "b", "c"]);
}

#[test]
fn three_failed_connections_cost_three_delays_and_nothing_is_reprocessed() {
    let mut p = Pipeline::new();
    p.push_event(event("a", 1));
    p.enrich_front(100);
    assert_eq!(p.connect_attempt(true), ConnAction::BeginWriting);
    p.attempt_front(true);
    assert_eq!(p.written.len(), 1);
    p.connection_lost();
    assert_eq!(p.conn, ConnState::Disconnected);
    // Three consecutive failures: exactly three delay intervals elapse.
    assert_eq!(p.delays, 0);
    assert_eq!(p.connect_attempt(false), ConnAction::RetryAfterDelay);
    assert_eq!(p.connect_attempt(false), ConnAction::RetryAfterDelay);
    assert_eq!(p.connect_attempt(false), ConnAction::RetryAfterDelay);
    assert_eq!(p.delays, 3);
    assert_eq!(RECONNECT_DELAY_SECS, 5);
    // Then a success: writing resumes, already-written records stay written.
    assert_eq!(p.connect_attempt(true), ConnAction::BeginWriting);
    assert_eq!(p.delays, 3);
    p.push_event(event("b", 2));
    p.enrich_front(200);
    p.attempt_front(true);
    let attempted: Vec<&str> = p.attempted.iter().map(|r| r.dst_tx_hash.as_str()).collect();
    assert_eq!(attempted, vec!["a", "b"]);
    let written: Vec<&str> = p.written.iter().map(|r| r.dst_tx_hash.as_str()).collect();
    assert_eq!(written, vec!["a", "b"]);
}

#[test]
fn the_front_record_is_the_one_attempted_next() {
    let mut p = Pipeline::new();
    p.push_event(event("a", 1));
    p.push_event(event("b", 2));
    p.enrich_front(100);
    p.enrich_front(200);
    assert_eq!(p.pending_enrichments(), 0);
    assert_eq!(p.front().dst_tx_hash, "a");
    p.connect_attempt(true);
    p.attempt_front(false);
    assert_eq!(p.front().dst_tx_hash, "b");
    // A failed insert is dropped, not requeued.
    assert_eq!(p.written.len(), 0);
    assert_eq!(p.attempted.len(), 1);
}
