//! The mathematical model of the statistics engine.
//!
//! `StatsView` is what an accumulator stands for: sets, sequences and
//! unbounded counters. Each operation of the engine is a function from one
//! such state to the next, and the summary is a function of the final state.
//! The executable accumulator in `metrics` is proved to follow these
//! functions step by step.

use crate::data::{Mean, PeerView, Ratio, ReachabilityView, SummaryView, Window};
use crate::samples::{maximum, minimum, percentile, total};
use vstd::prelude::*;

verus! {

/// `a - b`, or zero when `b` is the larger: a clock that ran backwards yields
/// no negative duration.
pub open spec fn elapsed(a: u64, b: u64) -> u64 {
    if a >= b {
        (a - b) as u64
    } else {
        0
    }
}

/// `acc + x`, held at the top of the range.
pub open spec fn accumulate(acc: u128, x: int) -> u128 {
    if acc + x > u128::MAX {
        u128::MAX
    } else {
        (acc + x) as u128
    }
}

pub open spec fn max64(a: u64, b: u64) -> u64 {
    if a >= b {
        a
    } else {
        b
    }
}

pub open spec fn min64(a: u64, b: u64) -> u64 {
    if a <= b {
        a
    } else {
        b
    }
}

/// The share of connected peers that were reachable in a window; one when
/// nobody was connected.
pub open spec fn ratio(w: Window) -> real {
    if w.connected == 0 {
        1real
    } else {
        w.reachable as real / w.connected as real
    }
}

/// The reachable time of closed windows: each window's duration times its
/// ratio, summed up. Nothing is rounded.
pub open spec fn reachable_time(windows: Seq<Window>) -> real
    decreases windows.len(),
{
    if windows.len() == 0 {
        0real
    } else {
        reachable_time(windows.drop_last()) + windows.last().dur_ms as real * ratio(
            windows.last(),
        )
    }
}

/// The time of closed windows: their durations, summed up.
pub open spec fn observed_time(windows: Seq<Window>) -> nat
    decreases windows.len(),
{
    if windows.len() == 0 {
        0
    } else {
        observed_time(windows.drop_last()) + windows.last().dur_ms as nat
    }
}

/// The connected time of closed windows: each window's duration times its
/// number of connected peers, summed up.
pub open spec fn connected_time(windows: Seq<Window>) -> nat
    decreases windows.len(),
{
    if windows.len() == 0 {
        0
    } else {
        connected_time(windows.drop_last()) + (windows.last().dur_ms
            * windows.last().connected) as nat
    }
}

/// `x`, held at the top of the range of an accumulator.
pub open spec fn capped(x: nat) -> u128 {
    if x > u128::MAX {
        u128::MAX
    } else {
        x as u128
    }
}

/// One more window adds its time and its connected time.
pub proof fn lemma_window_adds_time(windows: Seq<Window>, w: Window)
    ensures
        observed_time(windows.push(w)) == observed_time(windows) + w.dur_ms,
        connected_time(windows.push(w)) == connected_time(windows) + w.dur_ms * w.connected,
        accumulate(capped(observed_time(windows)), w.dur_ms as int) == capped(
            observed_time(windows.push(w)),
        ),
        accumulate(capped(connected_time(windows)), w.dur_ms * w.connected) == capped(
            connected_time(windows.push(w)),
        ),
{
    assert(windows.push(w).drop_last() =~= windows);
    assert(windows.push(w).last() == w);
    assert(0 <= w.dur_ms * w.connected) by (nonlinear_arith);
}

/// The time-weighted mean of the ratio that a summary reports: the reachable
/// time of its windows over the time observed.
pub open spec fn mean_reachability(r: ReachabilityView) -> real {
    reachable_time(r.windows) / r.observed_ms as real
}

/// The mean reachability over closed windows; it exists only where some time
/// was observed.
pub open spec fn reachability_over(windows: Seq<Window>, observed_ms: u128) -> Option<
    ReachabilityView,
> {
    if observed_ms > 0 {
        Some(ReachabilityView { windows, observed_ms })
    } else {
        None
    }
}

/// A mean that exists only over a positive weight.
pub open spec fn mean_over(sum: u128, weight: u128) -> Option<Mean> {
    if weight > 0 {
        Some(Mean { sum, weight })
    } else {
        None
    }
}

/// One message as the engine sees it: what it carried and when, and over how
/// many hops, it arrived.
pub struct Delivery {
    pub seq: u64,
    pub total: u64,
    pub sent_ms: u64,
    pub hop: Option<u16>,
    pub recv_ts: u64,
}

/// The sequence numbers that occur in a stream of deliveries.
pub open spec fn sequence_numbers(stream: Seq<Delivery>) -> Set<u64> {
    Set::new(|seq: u64| exists|i: int| 0 <= i < stream.len() && (#[trigger] stream[i]).seq == seq)
}

/// The largest `total` that a stream of deliveries announces; zero for an
/// empty stream.
pub open spec fn largest_total(stream: Seq<Delivery>) -> u64
    decreases stream.len(),
{
    if stream.len() == 0 {
        0
    } else {
        max64(largest_total(stream.drop_last()), stream.last().total)
    }
}

/// State of the statistics engine.
pub struct StatsView {
    /// Sequence numbers received so far.
    pub seen: Set<u64>,
    /// Largest sequence number received so far (zero before the first).
    pub max_seq_seen: u64,
    pub recv_total: nat,
    pub duplicates: nat,
    pub out_of_order: nat,
    pub lagged_events: nat,
    /// End-to-end latency of every message, in order of arrival.
    pub latencies: Seq<u64>,
    /// Hop count of every message that carried one, in order of arrival.
    pub hops: Seq<u64>,
    /// Largest `total` announced by any message.
    pub total_expected: u64,
    pub earliest_sent_ms: Option<u64>,
    pub convergence_time_ms: Option<u64>,
    /// The snapshot in effect since it was reported.
    pub last_view: Option<PeerView>,
    /// The windows that were closed, first to last: how long each snapshot
    /// was in effect, and what it reported.
    pub windows: Seq<Window>,
    /// The connected time and the time of the closed windows, held at the
    /// top of their range.
    pub connected_ms: u128,
    pub observed_ms: u128,
    pub neighbour_down: nat,
    pub neighbour_up: nat,
    /// Start of the downtime interval that is open, if one is.
    pub downtime_started_at: Option<u64>,
    pub downtime_periods: nat,
    /// Lengths of the downtime intervals that were closed.
    pub downtimes: Seq<u64>,
    /// The most recent disconnect that no data message has answered yet.
    pub last_disconnect_ms: Option<u64>,
    /// Whether the next data message measures a reconnect time.
    pub reconnect_armed: bool,
    pub reconnect_times: Seq<u64>,
}

impl StatsView {
    /// The state before anything was observed.
    pub open spec fn empty() -> StatsView {
        StatsView {
            seen: Set::empty(),
            max_seq_seen: 0,
            recv_total: 0,
            duplicates: 0,
            out_of_order: 0,
            lagged_events: 0,
            latencies: Seq::empty(),
            hops: Seq::empty(),
            total_expected: 0,
            earliest_sent_ms: None,
            convergence_time_ms: None,
            last_view: None,
            windows: Seq::empty(),
            connected_ms: 0,
            observed_ms: 0,
            neighbour_down: 0,
            neighbour_up: 0,
            downtime_started_at: None,
            downtime_periods: 0,
            downtimes: Seq::empty(),
            last_disconnect_ms: None,
            reconnect_armed: false,
            reconnect_times: Seq::empty(),
        }
    }

    /// What holds of every state that the operations below can reach from
    /// `empty()`.
    pub open spec fn inv(self) -> bool {
        &&& self.seen.finite()
        &&& self.recv_total == self.latencies.len()
        &&& self.duplicates + self.seen.len() == self.recv_total
        &&& self.recv_total > 0 ==> self.seen.len() > 0
        &&& self.out_of_order <= self.recv_total
        &&& self.hops.len() <= self.recv_total
        &&& self.reconnect_times.len() <= self.recv_total
        &&& self.total_expected > 0 ==> self.recv_total > 0
        &&& self.convergence_time_ms is Some ==> self.recv_total > 0
        &&& self.earliest_sent_ms is Some <==> self.recv_total > 0
        &&& self.downtime_started_at is Some ==> self.connected_now() == 0
            && self.last_view is Some
        &&& self.downtime_periods == self.downtimes.len() + if self.downtime_started_at is Some {
            1nat
        } else {
            0nat
        }
        &&& self.reconnect_armed ==> self.last_disconnect_ms is Some
        &&& self.observed_ms == capped(observed_time(self.windows))
        &&& self.connected_ms == capped(connected_time(self.windows))
    }

    /// Number of peers connected according to the last snapshot; zero before
    /// the first.
    pub open spec fn connected_now(self) -> u64 {
        match self.last_view {
            Some(view) => view.connected,
            None => 0,
        }
    }

    /// One decoded message of the active run arrived at `recv_ts`.
    pub open spec fn record(
        self,
        seq: u64,
        total: u64,
        sent_ms: u64,
        hop: Option<u16>,
        recv_ts: u64,
    ) -> StatsView {
        let duplicate = self.seen.contains(seq);
        let late = seq < self.max_seq_seen;
        let seen = self.seen.insert(seq);
        let total_expected = max64(self.total_expected, total);
        let earliest = match self.earliest_sent_ms {
            Some(e) => min64(e, sent_ms),
            None => sent_ms,
        };
        let converged = self.convergence_time_ms is None && total_expected > 0 && seen.len()
            >= total_expected;
        let answered = self.reconnect_armed && self.last_disconnect_ms is Some;
        StatsView {
            seen,
            max_seq_seen: if late {
                self.max_seq_seen
            } else {
                seq
            },
            recv_total: self.recv_total + 1,
            duplicates: if duplicate {
                self.duplicates + 1
            } else {
                self.duplicates
            },
            out_of_order: if late {
                self.out_of_order + 1
            } else {
                self.out_of_order
            },
            latencies: self.latencies.push(elapsed(recv_ts, sent_ms)),
            hops: match hop {
                Some(h) => self.hops.push(h as u64),
                None => self.hops,
            },
            total_expected,
            earliest_sent_ms: Some(earliest),
            convergence_time_ms: if converged {
                Some(elapsed(recv_ts, earliest))
            } else {
                self.convergence_time_ms
            },
            last_disconnect_ms: if answered {
                None
            } else {
                self.last_disconnect_ms
            },
            reconnect_armed: false,
            reconnect_times: if answered {
                self.reconnect_times.push(elapsed(recv_ts, self.last_disconnect_ms->0))
            } else {
                self.reconnect_times
            },
            ..self
        }
    }

    /// One delivery is recorded.
    pub open spec fn deliver(self, d: Delivery) -> StatsView {
        self.record(d.seq, d.total, d.sent_ms, d.hop, d.recv_ts)
    }

    /// A stream of deliveries is recorded, first to last.
    pub open spec fn replay(self, stream: Seq<Delivery>) -> StatsView
        decreases stream.len(),
    {
        if stream.len() == 0 {
            self
        } else {
            self.replay(stream.drop_last()).deliver(stream.last())
        }
    }

    /// The transport reported that it skipped events.
    pub open spec fn note_lagged(self) -> StatsView {
        StatsView { lagged_events: self.lagged_events + 1, ..self }
    }

    /// A neighbour left the active view.
    pub open spec fn note_neighbour_down(self) -> StatsView {
        StatsView { neighbour_down: self.neighbour_down + 1, ..self }
    }

    /// A neighbour entered the active view.
    pub open spec fn note_neighbour_up(self) -> StatsView {
        StatsView { neighbour_up: self.neighbour_up + 1, ..self }
    }

    /// A peer was lost at `ts`: reconnect time is measured from here.
    pub open spec fn note_disconnect(self, ts: u64) -> StatsView {
        StatsView { last_disconnect_ms: Some(ts), ..self }
    }

    /// A peer came back. If a disconnect is waiting to be answered, the next
    /// data message answers it.
    pub open spec fn note_reconnect(self) -> StatsView {
        StatsView { reconnect_armed: self.last_disconnect_ms is Some, ..self }
    }

    /// Closes the window of the snapshot in effect at `until`: the window is
    /// kept as it is, and its time and its connected time are added to the
    /// accumulators.
    pub open spec fn fold_window(self, until: u64) -> StatsView {
        match self.last_view {
            Some(view) => {
                let dur = elapsed(until, view.ts_ms);
                StatsView {
                    windows: self.windows.push(
                        Window {
                            dur_ms: dur,
                            connected: view.connected,
                            reachable: view.reachable,
                        },
                    ),
                    connected_ms: accumulate(self.connected_ms, dur * view.connected),
                    observed_ms: accumulate(self.observed_ms, dur as int),
                    ..self
                }
            },
            None => self,
        }
    }

    /// Closing a window keeps the accumulators in step with the windows.
    pub proof fn lemma_fold_keeps_times(self, until: u64)
        requires
            self.observed_ms == capped(observed_time(self.windows)),
            self.connected_ms == capped(connected_time(self.windows)),
        ensures
            self.fold_window(until).observed_ms == capped(
                observed_time(self.fold_window(until).windows),
            ),
            self.fold_window(until).connected_ms == capped(
                connected_time(self.fold_window(until).windows),
            ),
    {
        if let Some(view) = self.last_view {
            lemma_window_adds_time(
                self.windows,
                Window {
                    dur_ms: elapsed(until, view.ts_ms),
                    connected: view.connected,
                    reachable: view.reachable,
                },
            );
        }
    }

    /// A new snapshot was reported at `ts`. The previous one is weighed over
    /// the time it was in effect; losing the last peer opens a downtime
    /// interval, and regaining one closes it.
    pub open spec fn record_peer_view(self, ts: u64, connected: u64, reachable: u64) -> StatsView {
        let folded = self.fold_window(ts);
        let opens = self.connected_now() > 0 && connected == 0;
        let closes = self.connected_now() == 0 && connected > 0 && self.downtime_started_at
            is Some;
        StatsView {
            last_view: Some(PeerView { ts_ms: ts, connected, reachable }),
            downtime_started_at: if opens {
                Some(ts)
            } else if closes {
                None
            } else {
                self.downtime_started_at
            },
            downtime_periods: if opens {
                self.downtime_periods + 1
            } else {
                self.downtime_periods
            },
            downtimes: if closes {
                self.downtimes.push(elapsed(ts, self.downtime_started_at->0))
            } else {
                self.downtimes
            },
            ..folded
        }
    }

    /// The run ends at `now`: the window and the downtime interval that are
    /// still open are closed as of `now`.
    pub open spec fn finalize(self, now: u64) -> StatsView {
        match self.last_view {
            Some(view) => StatsView {
                last_view: Some(PeerView { ts_ms: now, ..view }),
                downtime_started_at: None,
                downtimes: match self.downtime_started_at {
                    Some(start) => self.downtimes.push(elapsed(now, start)),
                    None => self.downtimes,
                },
                ..self.fold_window(now)
            },
            None => self,
        }
    }

    /// Every counter that an event without samples can raise has room for
    /// one more.
    pub open spec fn has_room(self) -> bool {
        &&& self.lagged_events < u64::MAX
        &&& self.neighbour_down < u64::MAX
        &&& self.neighbour_up < u64::MAX
    }

    /// Number of distinct sequence numbers received.
    pub open spec fn received_unique(self) -> u64 {
        self.seen.len() as u64
    }

    /// The summary of a state. The run-outcome flags are not the engine's to
    /// know and are left unset.
    pub open spec fn summary(self) -> SummaryView {
        let expected = max64(self.total_expected, self.received_unique());
        SummaryView {
            received_unique: self.received_unique(),
            recv_total: self.recv_total as u64,
            total_expected: expected,
            delivery_rate: Ratio { num: self.received_unique(), den: expected },
            duplicate_rate: Ratio { num: self.duplicates as u64, den: self.recv_total as u64 },
            duplicates: self.duplicates as u64,
            out_of_order: self.out_of_order as u64,
            lagged_events: self.lagged_events as u64,
            lat_min: minimum(self.latencies),
            lat_p50: percentile(self.latencies, 50),
            lat_p90: percentile(self.latencies, 90),
            lat_p99: percentile(self.latencies, 99),
            lat_max: maximum(self.latencies),
            ldh_min: minimum(self.hops),
            ldh_p50: percentile(self.hops, 50),
            ldh_p90: percentile(self.hops, 90),
            ldh_p99: percentile(self.hops, 99),
            ldh_max: maximum(self.hops),
            convergence_time_ms: self.convergence_time_ms,
            pr_avg_ratio: reachability_over(self.windows, self.observed_ms),
            avg_connected_peers: mean_over(self.connected_ms, self.observed_ms),
            downtime_total_ms: total(self.downtimes) as u128,
            downtime_periods: self.downtime_periods as u64,
            downtime_p50_ms: percentile(self.downtimes, 50),
            downtime_p90_ms: percentile(self.downtimes, 90),
            downtime_max_ms: maximum(self.downtimes),
            reconnect_min_ms: minimum(self.reconnect_times),
            reconnect_avg_ms: mean_over(
                total(self.reconnect_times) as u128,
                self.reconnect_times.len() as u128,
            ),
            reconnect_p50_ms: percentile(self.reconnect_times, 50),
            reconnect_p90_ms: percentile(self.reconnect_times, 90),
            reconnect_p99_ms: percentile(self.reconnect_times, 99),
            reconnect_max_ms: maximum(self.reconnect_times),
            neighbour_down: self.neighbour_down as u64,
            neighbour_up: self.neighbour_up as u64,
            joined: false,
            join_wait_ms: 0,
            saw_test: false,
            timed_out_no_data: false,
        }
    }
}

} // verus!
