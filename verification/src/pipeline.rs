//! The three-stage pipeline as a state machine: inbound events are buffered
//! in arrival order, enriched one at a time with a looked-up block time, and
//! handed to a writer that attempts one insert per record while a connection
//! is up, reconnecting after a fixed delay when it is not.
//!
//! The surrounding tasks perform the waiting and the I/O; every decision —
//! what moves where on which outcome — is taken here, so the ordering and
//! no-loss guarantees are proved once, of this machine.

use vstd::prelude::*;
use crate::data::{
    enrich_spec, MetaView, Minted, MintedEventData, MintedView, RecordView, SolanaTxMetadata,
};

verus! {

/// Seconds the writer waits after a failed connection attempt.
pub const RECONNECT_DELAY_SECS: u64 = 5;

/// Whether the writer currently holds a live store connection.
#[derive(Clone, Copy, Debug, PartialEq, Eq, Structural)]
pub enum ConnState {
    Disconnected,
    Connected,
}

/// What the surrounding task must do after a connection attempt.
#[derive(Clone, Copy, Debug, PartialEq, Eq, Structural)]
pub enum ConnAction {
    /// The attempt succeeded: start draining the queue.
    BeginWriting,
    /// The attempt failed: wait `RECONNECT_DELAY_SECS`, then try again.
    RetryAfterDelay,
}

/// One inbound event together with its transaction metadata, as handed over
/// by the external listener.
pub struct InboundEvent {
    pub minted: Minted,
    pub meta: SolanaTxMetadata,
}

/// The pipeline's state: the two queues, the writer's connection state, and
/// the record of every insert attempted so far.
///
/// `history` is the full sequence of events ever accepted, `times` the block
/// times used for those already enriched, `written_at` the positions inside
/// `attempted` of the inserts that succeeded; they exist only for the
/// specification.
pub struct Pipeline {
    /// Events accepted from the listener, awaiting enrichment; front first.
    pub inbound: Vec<InboundEvent>,
    /// Enriched records awaiting an insert attempt; front first.
    pub enriched: Vec<MintedEventData>,
    /// Every record for which an insert was attempted, in attempt order.
    pub attempted: Vec<MintedEventData>,
    /// The attempted records whose insert succeeded, in write order.
    pub written: Vec<MintedEventData>,
    /// The writer's connection state.
    pub conn: ConnState,
    /// Completed reconnect delays.
    pub delays: u64,
    pub history: Ghost<Seq<(MintedView, MetaView)>>,
    pub times: Ghost<Seq<i64>>,
    pub written_at: Ghost<Seq<int>>,
}

/// The views of a queue of enriched records.
pub open spec fn views_of(s: Seq<MintedEventData>) -> Seq<RecordView> {
    s.map_values(|r: MintedEventData| r@)
}

impl Pipeline {
    /// The record the specification expects at position `i` of the combined
    /// enriched-and-attempted order.
    pub open spec fn expected_record(self, i: int) -> RecordView {
        enrich_spec(self.history@[i].0, self.history@[i].1, self.times@[i])
    }

    /// Well-formedness: the attempted records, the enriched queue and the
    /// inbound queue partition the accepted history, in order; every nonce
    /// accepted is well formed; the successful writes pick out a strictly
    /// increasing subsequence of the attempts.
    pub open spec fn wf(self) -> bool {
        let n_att = self.attempted@.len() as int;
        let n_enr = self.enriched@.len() as int;
        &&& self.times@.len() == n_att + n_enr
        &&& self.history@.len() == n_att + n_enr + self.inbound@.len()
        &&& (forall|i: int|
            0 <= i < n_att ==> (#[trigger] self.attempted@[i])@ == self.expected_record(i))
        &&& (forall|i: int|
            0 <= i < n_enr ==> (#[trigger] self.enriched@[i])@ == self.expected_record(n_att + i))
        &&& (forall|i: int|
            0 <= i < self.inbound@.len() ==> (#[trigger] self.inbound@[i]).minted@
                == self.history@[n_att + n_enr + i].0 && self.inbound@[i].meta@
                == self.history@[n_att + n_enr + i].1)
        &&& (forall|i: int|
            0 <= i < self.inbound@.len() ==> (#[trigger] self.inbound@[i]).minted.nonce@.len()
                >= 8)
        &&& self.written_at@.len() == self.written@.len()
        &&& (forall|j: int|
            0 <= j < self.written@.len() ==> 0 <= #[trigger] self.written_at@[j] < n_att)
        &&& (forall|j: int|
            0 <= j < self.written@.len() ==> (#[trigger] self.written@[j])@
                == self.attempted@[self.written_at@[j]]@)
        &&& (forall|j: int|
            0 <= j && j + 1 < self.written@.len() ==> #[trigger] self.written_at@[j]
                < self.written_at@[j + 1])
    }

    /// A fresh pipeline: nothing accepted, nothing written, disconnected.
    pub fn new() -> (p: Pipeline)
        ensures
            p.wf(),
            p.history@.len() == 0,
            p.inbound@.len() == 0,
            p.enriched@.len() == 0,
            p.attempted@.len() == 0,
            p.written@.len() == 0,
            p.conn == ConnState::Disconnected,
            p.delays == 0,
    {
        Pipeline {
            inbound: Vec::new(),
            enriched: Vec::new(),
            attempted: Vec::new(),
            written: Vec::new(),
            conn: ConnState::Disconnected,
            delays: 0,
            history: Ghost(Seq::empty()),
            times: Ghost(Seq::empty()),
            written_at: Ghost(Seq::empty()),
        }
    }

    /// Accept one event from the listener. Events are buffered in arrival
    /// order and never dropped. A nonce blob shorter than eight bytes is an
    /// upstream contract violation and is ruled out here, at the boundary.
    pub fn push_event(&mut self, ev: InboundEvent)
        requires
            old(self).wf(),
            ev.minted.nonce@.len() >= 8,
        ensures
            final(self).wf(),
            final(self).history@ == old(self).history@.push((ev.minted@, ev.meta@)),
            final(self).inbound@ == old(self).inbound@.push(ev),
            final(self).enriched@ == old(self).enriched@,
            final(self).attempted@ == old(self).attempted@,
            final(self).written@ == old(self).written@,
            final(self).times@ == old(self).times@,
            final(self).conn == old(self).conn,
            final(self).delays == old(self).delays,
    {
        proof {
            self.history@ = self.history@.push((ev.minted@, ev.meta@));
        }
        self.inbound.push(ev);
    }

    /// Enrich the event at the front of the inbound queue with the block
    /// time obtained for its slot, and move it to the writer's queue. Events
    /// are taken strictly in arrival order.
    pub fn enrich_front(&mut self, block_time: i64)
        requires
            old(self).wf(),
            old(self).inbound@.len() > 0,
        ensures
            final(self).wf(),
            final(self).inbound@ == old(self).inbound@.remove(0),
            final(self).enriched@.len() == old(self).enriched@.len() + 1,
            views_of(final(self).enriched@) == views_of(old(self).enriched@).push(
                enrich_spec(
                    old(self).inbound@[0].minted@,
                    old(self).inbound@[0].meta@,
                    block_time,
                ),
            ),
            final(self).times@ == old(self).times@.push(block_time),
            final(self).history@ == old(self).history@,
            final(self).attempted@ == old(self).attempted@,
            final(self).written@ == old(self).written@,
            final(self).conn == old(self).conn,
            final(self).delays == old(self).delays,
    {
        let ev = self.inbound.remove(0);
        let rec = MintedEventData::enrich(ev.minted, ev.meta, block_time);
        self.enriched.push(rec);
        proof {
            self.times@ = self.times@.push(block_time);
            assert(views_of(self.enriched@) =~= views_of(old(self).enriched@).push(rec@));
        }
    }

    /// Record the outcome of one connection attempt. A failed attempt costs
    /// one fixed delay and leaves every queue untouched; a successful one
    /// lets the writer begin draining.
    pub fn connect_attempt(&mut self, ok: bool) -> (a: ConnAction)
        requires
            old(self).wf(),
            old(self).conn == ConnState::Disconnected,
            old(self).delays < u64::MAX,
        ensures
            final(self).wf(),
            ok ==> final(self).conn == ConnState::Connected && final(self).delays == old(self).delays && a
                == ConnAction::BeginWriting,
            !ok ==> final(self).conn == ConnState::Disconnected && final(self).delays == old(self).delays + 1
                && a == ConnAction::RetryAfterDelay,
            final(self).inbound@ == old(self).inbound@,
            final(self).enriched@ == old(self).enriched@,
            final(self).attempted@ == old(self).attempted@,
            final(self).written@ == old(self).written@,
            final(self).history@ == old(self).history@,
            final(self).times@ == old(self).times@,
    {
        if ok {
            self.conn = ConnState::Connected;
            ConnAction::BeginWriting
        } else {
            self.delays = self.delays + 1;
            ConnAction::RetryAfterDelay
        }
    }

    /// The live connection failed: the writer stops and the machine returns
    /// to reconnecting. Nothing buffered is lost, and nothing already
    /// attempted is forgotten.
    pub fn connection_lost(&mut self)
        requires
            old(self).wf(),
            old(self).conn == ConnState::Connected,
        ensures
            final(self).wf(),
            final(self).conn == ConnState::Disconnected,
            final(self).inbound@ == old(self).inbound@,
            final(self).enriched@ == old(self).enriched@,
            final(self).attempted@ == old(self).attempted@,
            final(self).written@ == old(self).written@,
            final(self).history@ == old(self).history@,
            final(self).times@ == old(self).times@,
            final(self).delays == old(self).delays,
    {
        self.conn = ConnState::Disconnected;
    }

    /// Take the record at the front of the writer's queue and attempt its
    /// insert; `write_ok` is the outcome the store reported. The record is
    /// attempted exactly once: on failure it is dropped, never requeued, so
    /// a later retry cannot reorder or duplicate it. Requires a live
    /// connection — there is no writing while disconnected.
    pub fn attempt_front(&mut self, write_ok: bool)
        requires
            old(self).wf(),
            old(self).conn == ConnState::Connected,
            old(self).enriched@.len() > 0,
        ensures
            final(self).wf(),
            final(self).enriched@ == old(self).enriched@.remove(0),
            final(self).attempted@ == old(self).attempted@.push(old(self).enriched@[0]),
            write_ok ==> views_of(final(self).written@) == views_of(old(self).written@).push(
                old(self).enriched@[0]@,
            ),
            !write_ok ==> final(self).written@ == old(self).written@,
            final(self).inbound@ == old(self).inbound@,
            final(self).history@ == old(self).history@,
            final(self).times@ == old(self).times@,
            final(self).conn == old(self).conn,
            final(self).delays == old(self).delays,
    {
        let rec = self.enriched.remove(0);
        if write_ok {
            let copy = clone_record(&rec);
            proof {
                self.written_at@ = self.written_at@.push(self.attempted@.len() as int);
            }
            self.written.push(copy);
        }
        self.attempted.push(rec);
        proof {
            let prev = *old(self);
            let n_att = prev.attempted@.len() as int;
            if write_ok {
                assert(views_of(self.written@) =~= views_of(prev.written@).push(
                    prev.enriched@[0]@,
                ));
            }
            prev.enriched@.remove_ensures(0);
            assert forall|i: int| 0 <= i < self.enriched@.len() implies (
            #[trigger] self.enriched@[i])@ == self.expected_record(n_att + 1 + i) by {
                assert(self.enriched@[i] == prev.enriched@[i + 1]);
                assert(prev.enriched@[i + 1]@ == prev.expected_record(n_att + i + 1));
            }
            assert forall|j: int| 0 <= j < self.written@.len() implies (
            #[trigger] self.written@[j])@ == self.attempted@[self.written_at@[j]]@ by {
                if j < prev.written@.len() {
                    assert(self.written@[j] == prev.written@[j]);
                    assert(self.written_at@[j] == prev.written_at@[j]);
                    assert(self.attempted@[prev.written_at@[j]] == prev.attempted@[prev.written_at@[j]]);
                }
            }
            assert forall|j: int| 0 <= j && j + 1 < self.written@.len() implies (
            #[trigger] self.written_at@[j]) < self.written_at@[j + 1] by {
                assert(self.written_at@[j] == prev.written_at@[j]);
                if j + 1 < prev.written@.len() {
                    assert(self.written_at@[j + 1] == prev.written_at@[j + 1]);
                } else {
                    assert(prev.written_at@[j] < n_att);
                    assert(self.written_at@[j + 1] == n_att);
                }
            }
        }
    }

    /// The record the writer will attempt next.
    pub fn front(&self) -> (r: &MintedEventData)
        requires
            self.enriched@.len() > 0,
        ensures
            r == self.enriched@[0],
    {
        &self.enriched[0]
    }

    /// How many records await an insert attempt.
    pub fn pending_writes(&self) -> (n: usize)
        ensures
            n == self.enriched@.len(),
    {
        self.enriched.len()
    }

    /// How many events await enrichment.
    pub fn pending_enrichments(&self) -> (n: usize)
        ensures
            n == self.inbound@.len(),
    {
        self.inbound.len()
    }
}

/// Copy the bytes of a byte string.
fn clone_bytes(v: &Vec<u8>) -> (r: Vec<u8>)
    ensures
        r@ == v@,
{
    let mut r: Vec<u8> = Vec::new();
    let mut i: usize = 0;
    while i < v.len()
        invariant
            i <= v.len(),
            r@ == v@.subrange(0, i as int),
        decreases v.len() - i,
    {
        r.push(v[i]);
        proof {
            assert(r@ =~= v@.subrange(0, i + 1));
        }
        i = i + 1;
    }
    proof {
        assert(r@ =~= v@);
    }
    r
}

/// Copy a record; the copy has the same view.
fn clone_record(rec: &MintedEventData) -> (r: MintedEventData)
    ensures
        r@ == rec@,
{
    let r = MintedEventData {
        dst_address: rec.dst_address.clone(),
        amount: rec.amount,
        fee: rec.fee,
        src_tx_hash: clone_bytes(&rec.src_tx_hash),
        src_chain_id: rec.src_chain_id,
        nonce: rec.nonce,
        dst_tx_hash: rec.dst_tx_hash.clone(),
        dst_block_slot: rec.dst_block_slot,
        dst_block_time: rec.dst_block_time,
    };
    proof {
        assert(r@ =~= rec@);
    }
    r
}

/// Order preservation: the i-th insert ever attempted is exactly the
/// enrichment of the i-th event ever accepted — no permutation, no
/// duplication, at most one attempt per event — and the successful writes
/// are a strictly increasing selection from the attempts, so the store
/// receives a subsequence of the input order.
pub proof fn lemma_order_preservation(p: Pipeline)
    requires
        p.wf(),
    ensures
        p.attempted@.len() <= p.history@.len(),
        forall|i: int|
            0 <= i < p.attempted@.len() ==> (#[trigger] p.attempted@[i])@ == p.expected_record(i),
        p.written_at@.len() == p.written@.len(),
        forall|j: int|
            0 <= j < p.written@.len() ==> 0 <= #[trigger] p.written_at@[j] < p.attempted@.len(),
        forall|j: int|
            0 <= j < p.written@.len() ==> (#[trigger] p.written@[j])@
                == p.attempted@[p.written_at@[j]]@,
        forall|j: int|
            0 <= j && j + 1 < p.written@.len() ==> #[trigger] p.written_at@[j] < p.written_at@[j + 1],
        forall|j: int|
            0 <= j < p.written@.len() ==> (#[trigger] p.written@[j])@ == p.expected_record(
                p.written_at@[j],
            ),
{
    assert forall|j: int| 0 <= j < p.written@.len() implies (#[trigger] p.written@[j])@
        == p.expected_record(p.written_at@[j]) by {
        let i = p.written_at@[j];
        assert(p.attempted@[i]@ == p.expected_record(i));
    }
}

/// No loss under outage: connection failures only ever leave the queues as
/// they are (see `connect_attempt` and `connection_lost`), and once both
/// queues have drained, every accepted event has had its insert attempted —
/// none was discarded on the way, whatever outages occurred in between.
pub proof fn lemma_no_loss_when_drained(p: Pipeline)
    requires
        p.wf(),
        p.inbound@.len() == 0,
        p.enriched@.len() == 0,
    ensures
        p.attempted@.len() == p.history@.len(),
        forall|i: int|
            0 <= i < p.history@.len() ==> (#[trigger] p.attempted@[i])@ == p.expected_record(i),
{
}

} // verus!
