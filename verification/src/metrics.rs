//! The statistics engine: an accumulator that is fed decoded messages and
//! connectivity events while a run lasts, and is turned into a `Summary` when
//! the run ends.

pub use crate::data::{
    DataMsg, Envelope, Mean, PeerView, Ratio, Reachability, Summary, SummaryView, Window,
};
use crate::model::StatsView;
use crate::samples::{
    first_sample, last_sample, lemma_sorted, quantil, sort_samples, sum_samples,
};
use crate::util::now_ms;
use std::collections::HashSet;
use vstd::prelude::*;

verus! {

broadcast use vstd::std_specs::hash::group_hash_axioms;

/// Accumulates the statistics of one receiver run.
///
/// The accumulator is owned by one receiver and updated one event at a time.
/// What it stands for is its view, a `StatsView`; every operation states the
/// view it leaves behind.
pub struct Stats {
    seen: HashSet<u64>,
    max_seq_seen: u64,
    recv_total: u64,
    duplicates: u64,
    out_of_order: u64,
    lagged_events: u64,
    lats: Vec<u64>,
    ldhs: Vec<u64>,
    total_expected: u64,
    earliest_sent_ms: Option<u64>,
    convergence_time_ms: Option<u64>,
    last_view: Option<PeerView>,
    /// The closed windows, first to last. The mean reachability is computed
    /// from them when they are handed on, so no window's share is rounded.
    windows: Vec<Window>,
    connected_ms: u128,
    observed_ms: u128,
    neighbour_down: u64,
    neighbour_up: u64,
    downtime_started_at: Option<u64>,
    /// Lengths of the closed downtime intervals. Periods are not counted
    /// apart: there is one for each closed interval and one for the open one.
    downtime_duration_ms: Vec<u64>,
    last_disconnect_ms: Option<u64>,
    reconnect_armed: bool,
    reconnect_ms: Vec<u64>,
}

impl View for Stats {
    type V = StatsView;

    closed spec fn view(&self) -> StatsView {
        StatsView {
            seen: self.seen@,
            max_seq_seen: self.max_seq_seen,
            recv_total: self.recv_total as nat,
            duplicates: self.duplicates as nat,
            out_of_order: self.out_of_order as nat,
            lagged_events: self.lagged_events as nat,
            latencies: self.lats@,
            hops: self.ldhs@,
            total_expected: self.total_expected,
            earliest_sent_ms: self.earliest_sent_ms,
            convergence_time_ms: self.convergence_time_ms,
            last_view: self.last_view,
            windows: self.windows@,
            connected_ms: self.connected_ms,
            observed_ms: self.observed_ms,
            neighbour_down: self.neighbour_down as nat,
            neighbour_up: self.neighbour_up as nat,
            downtime_started_at: self.downtime_started_at,
            downtime_periods: self.downtime_duration_ms@.len() + if self.downtime_started_at
                is Some {
                1nat
            } else {
                0nat
            },
            downtimes: self.downtime_duration_ms@,
            last_disconnect_ms: self.last_disconnect_ms,
            reconnect_armed: self.reconnect_armed,
            reconnect_times: self.reconnect_ms@,
        }
    }
}

impl Default for Stats {
    fn default() -> (stats: Stats)
        ensures
            stats.wf(),
            stats@ == StatsView::empty(),
    {
        Stats::new()
    }
}

impl Stats {
    /// The accumulator's state is one that a run can be in.
    pub open spec fn wf(&self) -> bool {
        self@.inv()
    }

    /// An accumulator that has observed nothing.
    pub fn new() -> (stats: Stats)
        ensures
            stats.wf(),
            stats@ == StatsView::empty(),
    {
        let stats = Stats {
            seen: HashSet::new(),
            max_seq_seen: 0,
            recv_total: 0,
            duplicates: 0,
            out_of_order: 0,
            lagged_events: 0,
            lats: Vec::new(),
            ldhs: Vec::new(),
            total_expected: 0,
            earliest_sent_ms: None,
            convergence_time_ms: None,
            last_view: None,
            windows: Vec::new(),
            connected_ms: 0,
            observed_ms: 0,
            neighbour_down: 0,
            neighbour_up: 0,
            downtime_started_at: None,
            downtime_duration_ms: Vec::new(),
            last_disconnect_ms: None,
            reconnect_armed: false,
            reconnect_ms: Vec::new(),
        };
        assert(stats@ =~~= StatsView::empty());
        stats
    }

    /// Largest `total` announced by any recorded message.
    pub fn total_expected(&self) -> (n: u64)
        ensures
            n == self@.total_expected,
    {
        self.total_expected
    }

    /// Number of recorded messages, duplicates included.
    pub fn received_total(&self) -> (n: u64)
        ensures
            n == self@.recv_total,
    {
        self.recv_total
    }

    /// Number of recorded messages whose sequence number was seen before.
    pub fn duplicates(&self) -> (n: u64)
        ensures
            n == self@.duplicates,
    {
        self.duplicates
    }

    /// Number of recorded messages that arrived after a larger sequence
    /// number.
    pub fn out_of_order(&self) -> (n: u64)
        ensures
            n == self@.out_of_order,
    {
        self.out_of_order
    }

    /// Number of lagged transport events.
    pub fn lagged_events(&self) -> (n: u64)
        ensures
            n == self@.lagged_events,
    {
        self.lagged_events
    }

    /// Whether the counters of events that bring no samples can all be
    /// raised once more.
    pub fn has_room(&self) -> (room: bool)
        ensures
            room == self@.has_room(),
    {
        self.lagged_events < u64::MAX && self.neighbour_down < u64::MAX && self.neighbour_up
            < u64::MAX
    }

    /// Records a decoded message of the active run, received at
    /// `recv_ts_ms` with hop count `ldh` if the transport reported one.
    ///
    /// The message counts as a duplicate if its sequence number was seen
    /// before, and as out of order if a larger one was. Its latency is the
    /// receive time minus the send time, zero if the clocks disagree. The
    /// arrival that completes the set of expected sequence numbers fixes the
    /// convergence time, and the first arrival after a reconnect fixes a
    /// reconnect time.
    pub fn record(&mut self, message: &DataMsg, ldh: Option<u16>, recv_ts_ms: u64)
        requires
            old(self).wf(),
        ensures
            final(self).wf(),
            final(self)@ == old(self)@.record(
                message.seq,
                message.total,
                message.sent_ms,
                ldh,
                recv_ts_ms,
            ),
    {
        let ghost before = self@;
        self.lats.push(recv_ts_ms.saturating_sub(message.sent_ms));
        // One latency is kept per message, and the list just took another:
        // the counters below stay within the length of a list.
        assert(self.lats.len() <= usize::MAX);
        if message.total > self.total_expected {
            self.total_expected = message.total;
        }
        self.recv_total += 1;
        if !self.seen.insert(message.seq) {
            self.duplicates += 1;
        }
        if message.seq < self.max_seq_seen {
            self.out_of_order += 1;
        } else {
            self.max_seq_seen = message.seq;
        }
        if let Some(h) = ldh {
            self.ldhs.push(h as u64);
        }
        let earliest = match self.earliest_sent_ms {
            Some(e) => if e <= message.sent_ms {
                e
            } else {
                message.sent_ms
            },
            None => message.sent_ms,
        };
        self.earliest_sent_ms = Some(earliest);
        if self.convergence_time_ms.is_none() && self.total_expected > 0 && self.seen.len() as u64
            >= self.total_expected {
            self.convergence_time_ms = Some(recv_ts_ms.saturating_sub(earliest));
        }
        if self.reconnect_armed {
            if let Some(lost_at) = self.last_disconnect_ms {
                self.reconnect_ms.push(recv_ts_ms.saturating_sub(lost_at));
                self.last_disconnect_ms = None;
            }
            self.reconnect_armed = false;
        }
        assert(self@ =~~= before.record(
            message.seq,
            message.total,
            message.sent_ms,
            ldh,
            recv_ts_ms,
        ));
    }

    /// Counts one lagged transport event.
    pub fn note_lagged(&mut self)
        requires
            old(self).wf(),
            old(self)@.lagged_events < u64::MAX,
        ensures
            final(self).wf(),
            final(self)@ == old(self)@.note_lagged(),
    {
        self.lagged_events += 1;
    }

    /// Counts one neighbour that left the active view.
    pub fn note_neighbour_down(&mut self)
        requires
            old(self).wf(),
            old(self)@.neighbour_down < u64::MAX,
        ensures
            final(self).wf(),
            final(self)@ == old(self)@.note_neighbour_down(),
    {
        self.neighbour_down += 1;
    }

    /// Counts one neighbour that entered the active view.
    pub fn note_neighbour_up(&mut self)
        requires
            old(self).wf(),
            old(self)@.neighbour_up < u64::MAX,
        ensures
            final(self).wf(),
            final(self)@ == old(self)@.note_neighbour_up(),
    {
        self.neighbour_up += 1;
    }

    /// Notes that a peer was lost at `ts_ms`.
    pub fn note_disconnect(&mut self, ts_ms: u64)
        requires
            old(self).wf(),
        ensures
            final(self).wf(),
            final(self)@ == old(self)@.note_disconnect(ts_ms),
    {
        self.last_disconnect_ms = Some(ts_ms);
    }

    /// Notes that a peer came back: if a disconnect is unanswered, the next
    /// recorded message measures the reconnect time from it.
    pub fn note_reconnect(&mut self)
        requires
            old(self).wf(),
        ensures
            final(self).wf(),
            final(self)@ == old(self)@.note_reconnect(),
    {
        self.reconnect_armed = self.last_disconnect_ms.is_some();
    }

    fn fold_window(&mut self, until: u64)
        ensures
            final(self)@ == old(self)@.fold_window(until),
    {
        if let Some(view) = self.last_view {
            let dur = until.saturating_sub(view.ts_ms);
            assert(dur * view.connected <= u128::MAX) by (nonlinear_arith)
                requires
                    dur <= u64::MAX,
                    view.connected <= u64::MAX,
            ;
            self.windows.push(
                Window { dur_ms: dur, connected: view.connected, reachable: view.reachable },
            );
            self.connected_ms = self.connected_ms.saturating_add(
                dur as u128 * view.connected as u128,
            );
            self.observed_ms = self.observed_ms.saturating_add(dur as u128);
        }
    }

    /// Records a snapshot of the neighbourhood taken at `ts_ms`.
    ///
    /// The previous snapshot is weighed by the time it stayed in effect.
    /// Going from some connected peers to none opens a downtime interval;
    /// going from none to some closes the open one and records its length.
    pub fn record_peer_view(&mut self, ts_ms: u64, connected: u64, reachable: u64)
        requires
            old(self).wf(),
        ensures
            final(self).wf(),
            final(self)@ == old(self)@.record_peer_view(ts_ms, connected, reachable),
    {
        let ghost before = self@;
        proof {
            before.lemma_fold_keeps_times(ts_ms);
        }
        let was_connected = match self.last_view {
            Some(view) => view.connected,
            None => 0,
        };
        self.fold_window(ts_ms);
        if was_connected > 0 && connected == 0 {
            self.downtime_started_at = Some(ts_ms);
        }
        if was_connected == 0 && connected > 0 {
            if let Some(start) = self.downtime_started_at {
                self.downtime_duration_ms.push(ts_ms.saturating_sub(start));
                self.downtime_started_at = None;
            }
        }
        self.last_view = Some(PeerView { ts_ms, connected, reachable });
        assert(self@ =~~= before.record_peer_view(ts_ms, connected, reachable));
    }

    /// Ends the run at `now` and returns its summary.
    ///
    /// The window and the downtime interval that are still open are closed
    /// as of `now`; the summary is that of the state this leaves.
    pub fn summarize_at(&mut self, now: u64) -> (summary: Summary)
        requires
            old(self).wf(),
        ensures
            final(self).wf(),
            final(self)@ == old(self)@.finalize(now),
            summary@ == final(self)@.summary(),
    {
        let ghost before = self@;
        proof {
            before.lemma_fold_keeps_times(now);
        }
        if let Some(view) = self.last_view {
            self.fold_window(now);
            if let Some(start) = self.downtime_started_at {
                self.downtime_duration_ms.push(now.saturating_sub(start));
                self.downtime_started_at = None;
            }
            self.last_view = Some(
                PeerView { ts_ms: now, connected: view.connected, reachable: view.reachable },
            );
        }
        assert(self@ =~~= before.finalize(now));

        let mut lats = self.lats.clone();
        sort_samples(&mut lats);
        let mut hops = self.ldhs.clone();
        sort_samples(&mut hops);
        let mut downs = self.downtime_duration_ms.clone();
        sort_samples(&mut downs);
        let mut recs = self.reconnect_ms.clone();
        sort_samples(&mut recs);
        proof {
            lemma_sorted(self@.latencies);
            lemma_sorted(self@.hops);
            lemma_sorted(self@.downtimes);
            lemma_sorted(self@.reconnect_times);
        }

        let received_unique = self.seen.len() as u64;
        let total_expected = if self.total_expected >= received_unique {
            self.total_expected
        } else {
            received_unique
        };
        let reconnect_sum = sum_samples(self.reconnect_ms.as_slice());
        Summary {
            received_unique,
            recv_total: self.recv_total,
            total_expected,
            delivery_rate: Ratio { num: received_unique, den: total_expected },
            duplicate_rate: Ratio { num: self.duplicates, den: self.recv_total },
            duplicates: self.duplicates,
            out_of_order: self.out_of_order,
            lagged_events: self.lagged_events,
            lat_min: first_sample(lats.as_slice()),
            lat_p50: quantil(lats.as_slice(), 50),
            lat_p90: quantil(lats.as_slice(), 90),
            lat_p99: quantil(lats.as_slice(), 99),
            lat_max: last_sample(lats.as_slice()),
            ldh_min: first_sample(hops.as_slice()),
            ldh_p50: quantil(hops.as_slice(), 50),
            ldh_p90: quantil(hops.as_slice(), 90),
            ldh_p99: quantil(hops.as_slice(), 99),
            ldh_max: last_sample(hops.as_slice()),
            convergence_time_ms: self.convergence_time_ms,
            pr_avg_ratio: if self.observed_ms > 0 {
                Some(Reachability { windows: self.windows.clone(), observed_ms: self.observed_ms })
            } else {
                None
            },
            avg_connected_peers: if self.observed_ms > 0 {
                Some(Mean { sum: self.connected_ms, weight: self.observed_ms })
            } else {
                None
            },
            downtime_total_ms: sum_samples(self.downtime_duration_ms.as_slice()),
            downtime_periods: self.downtime_duration_ms.len() as u64,
            downtime_p50_ms: quantil(downs.as_slice(), 50),
            downtime_p90_ms: quantil(downs.as_slice(), 90),
            downtime_max_ms: last_sample(downs.as_slice()),
            reconnect_min_ms: first_sample(recs.as_slice()),
            reconnect_avg_ms: if self.reconnect_ms.len() > 0 {
                Some(Mean { sum: reconnect_sum, weight: self.reconnect_ms.len() as u128 })
            } else {
                None
            },
            reconnect_p50_ms: quantil(recs.as_slice(), 50),
            reconnect_p90_ms: quantil(recs.as_slice(), 90),
            reconnect_p99_ms: quantil(recs.as_slice(), 99),
            reconnect_max_ms: last_sample(recs.as_slice()),
            neighbour_down: self.neighbour_down,
            neighbour_up: self.neighbour_up,
            joined: false,
            join_wait_ms: 0,
            saw_test: false,
            timed_out_no_data: false,
        }
    }

    /// Ends the run at the current wall-clock time and returns its summary.
    ///
    /// The time is read from the clock, so all that is known of it is that it
    /// is some instant: the summary is that of `summarize_at` for it.
    pub fn summarize(&mut self) -> (summary: Summary)
        requires
            old(self).wf(),
        ensures
            final(self).wf(),
            exists|now: u64|
                final(self)@ == #[trigger] old(self)@.finalize(now)
                    && summary@ == final(self)@.summary(),
    {
        let now = now_ms();
        self.summarize_at(now)
    }
}

} // verus!
