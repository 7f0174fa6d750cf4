//! The receiver of a benchmark run, as a state machine.
//!
//! The caller owns the transport and the clock. It hands each transport event
//! to `on_event` together with the time at which it took it, writes the log
//! record it gets back, and asks `should_stop` after every turn of its loop.
//! When the loop ends, `finish` closes the statistics and returns the summary.

use crate::codec::{decode, envelope_of, wire_message};
use crate::data::{DataMsg, Envelope, Summary, SummaryView};
use crate::metrics::Stats;
use crate::model::{elapsed, StatsView};
use crate::transport::{LogKind, LogRecord, TransportEvent};
use vstd::prelude::*;

verus! {

/// How long the caller waits for an event before it asks again whether the
/// run is over, in milliseconds. An idle run is noticed at most this much
/// after its timeout has passed, however many events arrive.
pub const TICK_MS: u64 = 50;

/// A transport event as the receiver understands it.
pub enum Observation {
    /// A payload, with the message it decodes to if it is one.
    Message { decoded: Option<Envelope>, hop: Option<u16> },
    Lagged,
    PeerUp,
    PeerDown,
}

/// What a transport event means to the receiver.
pub open spec fn observed(event: TransportEvent) -> Observation {
    match event {
        TransportEvent::Msg { bytes, ldh } => Observation::Message {
            decoded: wire_message(bytes@),
            hop: ldh,
        },
        TransportEvent::Lagged => Observation::Lagged,
        TransportEvent::Reconnect => Observation::PeerUp,
        TransportEvent::Disconnect => Observation::PeerDown,
    }
}

/// A log record that carries nothing but its time and kind.
pub open spec fn bare_record(ts_ms: u64, event: LogKind) -> LogRecord {
    LogRecord { ts_ms, event, seq: None, lat_ms: None, ldh: None, connected: None, total: None }
}

/// An event together with the time at which the receiver took it.
pub struct Timed {
    pub obs: Observation,
    pub at_ms: u64,
}

/// State of a receiver.
pub struct ReceiverView {
    /// When the run started.
    pub start_ms: u64,
    /// When the last message of the active run was recorded; the start of
    /// the run before the first.
    pub last_valid_ms: u64,
    /// How long the receiver waits for data before it gives up.
    pub idle_timeout_ms: u64,
    /// The run that the receiver is bound to, once a message chose it.
    pub current_test: Option<Seq<u8>>,
    pub connected_peers: u64,
    pub stats: StatsView,
}

impl ReceiverView {
    /// A receiver that starts at `start_ms` and has seen nothing.
    pub open spec fn start(start_ms: u64, idle_timeout_ms: u64) -> ReceiverView {
        ReceiverView {
            start_ms,
            last_valid_ms: start_ms,
            idle_timeout_ms,
            current_test: None,
            connected_peers: 0,
            stats: StatsView::empty(),
        }
    }

    /// What holds of every state a receiver can reach: the statistics are
    /// consistent, the receiver is bound to a run exactly when it has
    /// recorded a message, and the statistics know of as many connected
    /// peers as the receiver counts. A receiver reports every connected peer
    /// as reachable, and so is every peer in every window.
    pub open spec fn inv(self) -> bool {
        &&& self.stats.inv()
        &&& self.current_test is Some <==> self.stats.recv_total > 0
        &&& self.stats.connected_now() == self.connected_peers
        &&& self.connected_peers <= self.stats.neighbour_up
        &&& self.stats.last_view matches Some(view) ==> view.reachable == view.connected
        &&& forall|i: int|
            0 <= i < self.stats.windows.len() ==> (#[trigger] self.stats.windows[i]).reachable
                == self.stats.windows[i].connected
    }

    /// Whether a message belongs to the run the receiver measures. The first
    /// message binds the receiver to its run; from then on only messages of
    /// that run are accepted.
    pub open spec fn accepts(self, m: Envelope) -> bool {
        match self.current_test {
            Some(test_id) => m.test_id == test_id,
            None => true,
        }
    }

    /// The number of connected peers after one more left.
    pub open spec fn peers_after_loss(self) -> u64 {
        if self.connected_peers > 0 {
            (self.connected_peers - 1) as u64
        } else {
            0
        }
    }

    /// Counters have room for whatever event comes next.
    pub open spec fn has_room(self) -> bool {
        self.stats.has_room()
    }

    /// The state after an event taken at `now`.
    pub open spec fn step(self, obs: Observation, now: u64) -> ReceiverView {
        match obs {
            Observation::Message { decoded: Some(m), hop } => if self.accepts(m) {
                ReceiverView {
                    current_test: Some(m.test_id),
                    last_valid_ms: now,
                    stats: self.stats.record(m.seq, m.total, m.sent_ms, hop, now),
                    ..self
                }
            } else {
                self
            },
            Observation::Message { decoded: None, hop } => self,
            Observation::Lagged => ReceiverView { stats: self.stats.note_lagged(), ..self },
            Observation::PeerDown => {
                let peers = self.peers_after_loss();
                ReceiverView {
                    connected_peers: peers,
                    stats: self.stats.record_peer_view(
                        now,
                        peers,
                        peers,
                    ).note_neighbour_down().note_disconnect(now),
                    ..self
                }
            },
            Observation::PeerUp => {
                let peers = (self.connected_peers + 1) as u64;
                ReceiverView {
                    connected_peers: peers,
                    stats: self.stats.record_peer_view(
                        now,
                        peers,
                        peers,
                    ).note_neighbour_up().note_reconnect(),
                    ..self
                }
            },
        }
    }

    /// The state after a sequence of events, first to last.
    pub open spec fn run(self, events: Seq<Timed>) -> ReceiverView
        decreases events.len(),
    {
        if events.len() == 0 {
            self
        } else {
            self.run(events.drop_last()).step(events.last().obs, events.last().at_ms)
        }
    }

    /// The log record for an event taken at `now`; none for a payload that is
    /// dropped.
    pub open spec fn report(self, obs: Observation, now: u64) -> Option<LogRecord> {
        match obs {
            Observation::Message { decoded: Some(m), hop } => if self.accepts(m) {
                Some(
                    LogRecord {
                        seq: Some(m.seq),
                        lat_ms: Some(elapsed(now, m.sent_ms)),
                        ldh: hop,
                        ..bare_record(now, LogKind::Recv)
                    },
                )
            } else {
                None
            },
            Observation::Message { decoded: None, hop } => None,
            Observation::Lagged => Some(bare_record(now, LogKind::Lagged)),
            Observation::PeerDown => Some(
                LogRecord {
                    connected: Some(self.peers_after_loss()),
                    ..bare_record(now, LogKind::NeighborDown)
                },
            ),
            Observation::PeerUp => Some(
                LogRecord {
                    connected: Some((self.connected_peers + 1) as u64),
                    ..bare_record(now, LogKind::NeighborUp)
                },
            ),
        }
    }

    /// Whether the run is over at `now`. Once data of a run was seen, the
    /// run ends when none has come for longer than the idle timeout; before
    /// that, it ends when the timeout has passed since the start.
    pub open spec fn should_stop(self, now: u64) -> bool {
        if self.stats.total_expected > 0 {
            elapsed(now, self.last_valid_ms) > self.idle_timeout_ms
        } else {
            elapsed(now, self.start_ms) > self.idle_timeout_ms
        }
    }

    /// The summary of a run that ends at `now`, with what the transport
    /// reports about joining the overlay.
    pub open spec fn outcome(self, now: u64, joined: bool, join_wait_ms: u64) -> SummaryView {
        let summary = self.stats.finalize(now).summary();
        SummaryView {
            joined,
            join_wait_ms,
            saw_test: summary.total_expected > 0,
            timed_out_no_data: !(summary.total_expected > 0),
            ..summary
        }
    }
}

/// The receiver of one benchmark run.
pub struct Receiver {
    start_ms: u64,
    last_valid_ms: u64,
    idle_timeout_ms: u64,
    current_test: Option<[u8; 16]>,
    connected_peers: u64,
    stats: Stats,
}

impl View for Receiver {
    type V = ReceiverView;

    closed spec fn view(&self) -> ReceiverView {
        ReceiverView {
            start_ms: self.start_ms,
            last_valid_ms: self.last_valid_ms,
            idle_timeout_ms: self.idle_timeout_ms,
            current_test: match self.current_test {
                Some(test_id) => Some(test_id@),
                None => None,
            },
            connected_peers: self.connected_peers,
            stats: self.stats@,
        }
    }
}

fn same_id(a: &[u8; 16], b: &[u8; 16]) -> (same: bool)
    ensures
        same == (a@ == b@),
{
    let mut i: usize = 0;
    while i < 16
        invariant
            i <= 16,
            forall|j: int| 0 <= j < i ==> a@[j] == b@[j],
        decreases 16 - i,
    {
        if a[i] != b[i] {
            return false;
        }
        i += 1;
    }
    assert(a@ =~= b@);
    true
}

impl Receiver {
    /// The receiver's state is one that a run can be in.
    pub open spec fn wf(&self) -> bool {
        self@.inv()
    }

    /// A receiver for a run that starts at `start_ms` and gives up after
    /// `idle_timeout_ms` without data.
    pub fn new(start_ms: u64, idle_timeout_ms: u64) -> (receiver: Receiver)
        ensures
            receiver.wf(),
            receiver@ == ReceiverView::start(start_ms, idle_timeout_ms),
    {
        Receiver {
            start_ms,
            last_valid_ms: start_ms,
            idle_timeout_ms,
            current_test: None,
            connected_peers: 0,
            stats: Stats::new(),
        }
    }

    /// The statistics gathered so far.
    pub fn stats(&self) -> (stats: &Stats)
        ensures
            stats@ == self@.stats,
    {
        &self.stats
    }

    /// Number of peers currently connected.
    pub fn connected_peers(&self) -> (peers: u64)
        ensures
            peers == self@.connected_peers,
    {
        self.connected_peers
    }

    /// Whether every counter can take the next event.
    pub fn has_room(&self) -> (room: bool)
        ensures
            room == self@.has_room(),
    {
        self.stats.has_room()
    }

    /// Handles a payload that was decoded to `decoded`, taken at `now`.
    ///
    /// A payload that is no message is dropped. The first message binds the
    /// receiver to its run; a message of the bound run is recorded and
    /// restarts the idle timer; a message of any other run is dropped.
    pub fn on_message(&mut self, decoded: Option<DataMsg>, ldh: Option<u16>, now: u64) -> (log:
        Option<LogRecord>)
        requires
            old(self).wf(),
        ensures
            final(self).wf(),
            final(self)@ == old(self)@.step(
                Observation::Message { decoded: envelope_of(decoded), hop: ldh },
                now,
            ),
            log == old(self)@.report(
                Observation::Message { decoded: envelope_of(decoded), hop: ldh },
                now,
            ),
    {
        match decoded {
            Some(m) => {
                let accepted = match &self.current_test {
                    Some(test_id) => same_id(test_id, &m.test_id),
                    None => true,
                };
                if accepted {
                    if self.current_test.is_none() {
                        self.current_test = Some(m.test_id);
                    }
                    self.last_valid_ms = now;
                    self.stats.record(&m, ldh, now);
                    Some(
                        LogRecord {
                            ts_ms: now,
                            event: LogKind::Recv,
                            seq: Some(m.seq),
                            lat_ms: Some(now.saturating_sub(m.sent_ms)),
                            ldh,
                            connected: None,
                            total: None,
                        },
                    )
                } else {
                    None
                }
            },
            None => None,
        }
    }

    /// Handles one transport event, taken at `now`, and returns the log
    /// record to write for it.
    ///
    /// A payload is decoded and handled as `on_message` says. A lagged event
    /// is counted. A peer that leaves or joins changes the number of
    /// connected peers, which never falls below zero, and is reported to the
    /// statistics as a snapshot in which every connected peer is reachable.
    pub fn on_event(&mut self, event: TransportEvent, now: u64) -> (log: Option<LogRecord>)
        requires
            old(self).wf(),
            !(event is Msg) ==> old(self)@.has_room(),
        ensures
            final(self).wf(),
            final(self)@ == old(self)@.step(observed(event), now),
            log == old(self)@.report(observed(event), now),
    {
        match event {
            TransportEvent::Msg { bytes, ldh } => {
                let decoded = decode(bytes.as_slice());
                self.on_message(decoded, ldh, now)
            },
            TransportEvent::Lagged => {
                self.stats.note_lagged();
                Some(
                    LogRecord {
                        ts_ms: now,
                        event: LogKind::Lagged,
                        seq: None,
                        lat_ms: None,
                        ldh: None,
                        connected: None,
                        total: None,
                    },
                )
            },
            TransportEvent::Disconnect => {
                if self.connected_peers > 0 {
                    self.connected_peers -= 1;
                }
                self.stats.record_peer_view(now, self.connected_peers, self.connected_peers);
                self.stats.note_neighbour_down();
                self.stats.note_disconnect(now);
                Some(
                    LogRecord {
                        ts_ms: now,
                        event: LogKind::NeighborDown,
                        seq: None,
                        lat_ms: None,
                        ldh: None,
                        connected: Some(self.connected_peers),
                        total: None,
                    },
                )
            },
            TransportEvent::Reconnect => {
                self.connected_peers += 1;
                self.stats.record_peer_view(now, self.connected_peers, self.connected_peers);
                self.stats.note_neighbour_up();
                self.stats.note_reconnect();
                Some(
                    LogRecord {
                        ts_ms: now,
                        event: LogKind::NeighborUp,
                        seq: None,
                        lat_ms: None,
                        ldh: None,
                        connected: Some(self.connected_peers),
                        total: None,
                    },
                )
            },
        }
    }

    /// Whether the run is over at `now`.
    pub fn should_stop(&self, now: u64) -> (stop: bool)
        ensures
            stop == self@.should_stop(now),
    {
        if self.stats.total_expected() > 0 {
            now.saturating_sub(self.last_valid_ms) > self.idle_timeout_ms
        } else {
            now.saturating_sub(self.start_ms) > self.idle_timeout_ms
        }
    }

    /// Ends the run at `now` and returns its summary, marked with what the
    /// transport reports about joining and with whether any data was seen.
    pub fn finish(self, now: u64, joined: bool, join_wait_ms: u64) -> (summary: Summary)
        requires
            self.wf(),
        ensures
            summary@ == self@.outcome(now, joined, join_wait_ms),
    {
        let mut receiver = self;
        let mut summary = receiver.stats.summarize_at(now);
        summary.joined = joined;
        summary.join_wait_ms = join_wait_ms;
        summary.saw_test = summary.total_expected > 0;
        summary.timed_out_no_data = !summary.saw_test;
        summary
    }
}

} // verus!
