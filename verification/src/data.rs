//! Plain data that crosses the library's boundary: the benchmark message, a
//! connectivity snapshot, and the summary of a finished run.

use vstd::prelude::*;

verus! {

/// Application-level payload sent during a benchmark.
///
/// All messages of one run share `test_id`; within a run `seq` counts up from
/// zero to `total - 1` and each value is sent once.
#[derive(Debug, Clone)]
pub struct DataMsg {
    /// Random identifier of the run, chosen once by the sender.
    pub test_id: [u8; 16],
    /// Sequence number within the run, starting at 0.
    pub seq: u64,
    /// Sender's wall clock at transmit time, in milliseconds since the epoch.
    pub sent_ms: u64,
    /// Number of messages the sender intends to send in this run.
    pub total: u64,
    /// Filler that only serves to bring the message to a fixed wire size.
    pub pad: Vec<u8>,
}

/// What a message says, without its representation in memory.
pub struct Envelope {
    pub test_id: Seq<u8>,
    pub seq: u64,
    pub sent_ms: u64,
    pub total: u64,
    pub pad: Seq<u8>,
}

impl View for DataMsg {
    type V = Envelope;

    open spec fn view(&self) -> Envelope {
        Envelope {
            test_id: self.test_id@,
            seq: self.seq,
            sent_ms: self.sent_ms,
            total: self.total,
            pad: self.pad@,
        }
    }
}

/// One report of the local peer's neighbourhood: how many peers were
/// connected at `ts_ms`, and how many of them were reachable.
#[derive(Debug, Clone, Copy, PartialEq, Eq)]
pub struct PeerView {
    pub ts_ms: u64,
    pub connected: u64,
    pub reachable: u64,
}

/// A rate `num / den`. By convention the rate is zero when `den` is zero.
#[derive(Debug, Clone, Copy, PartialEq, Eq)]
pub struct Ratio {
    pub num: u64,
    pub den: u64,
}

/// A weighted mean `sum / weight`. It only occurs with `weight > 0`.
#[derive(Debug, Clone, Copy, PartialEq, Eq)]
pub struct Mean {
    pub sum: u128,
    pub weight: u128,
}

/// One closed window of the neighbourhood: for `dur_ms` milliseconds,
/// `connected` peers were connected and `reachable` of them reachable.
#[derive(Debug, Clone, Copy, PartialEq, Eq)]
pub struct Window {
    pub dur_ms: u64,
    pub connected: u64,
    pub reachable: u64,
}

/// The time-weighted mean of `reachable / connected` over a run, as what it
/// is computed from: the closed windows in the order in which they were
/// closed, and the time that was observed in all. A window without connected
/// peers counts as fully reachable. The mean is the sum over the windows of
/// `dur_ms * reachable / connected`, divided by `observed_ms`; nothing is
/// rounded before that division.
#[derive(Debug, Clone, PartialEq, Eq)]
pub struct Reachability {
    pub windows: Vec<Window>,
    pub observed_ms: u128,
}

/// What a `Reachability` holds.
pub struct ReachabilityView {
    pub windows: Seq<Window>,
    pub observed_ms: u128,
}

impl View for Reachability {
    type V = ReachabilityView;

    open spec fn view(&self) -> ReachabilityView {
        ReachabilityView { windows: self.windows@, observed_ms: self.observed_ms }
    }
}

/// Final metrics of one receiver run. Every statistic that needs samples is
/// absent when there were none; counts and rates are zero instead.
#[derive(Debug, Clone)]
pub struct Summary {
    /// Distinct sequence numbers received.
    pub received_unique: u64,
    /// Messages received, duplicates included.
    pub recv_total: u64,
    /// Messages expected: the largest `total` announced, or the number of
    /// distinct sequence numbers if that is larger.
    pub total_expected: u64,
    /// `received_unique / total_expected`.
    pub delivery_rate: Ratio,
    /// `duplicates / recv_total`.
    pub duplicate_rate: Ratio,
    pub duplicates: u64,
    pub out_of_order: u64,
    pub lagged_events: u64,
    pub lat_min: Option<u64>,
    pub lat_p50: Option<u64>,
    pub lat_p90: Option<u64>,
    pub lat_p99: Option<u64>,
    pub lat_max: Option<u64>,
    pub ldh_min: Option<u64>,
    pub ldh_p50: Option<u64>,
    pub ldh_p90: Option<u64>,
    pub ldh_p99: Option<u64>,
    pub ldh_max: Option<u64>,
    /// Time from the earliest send timestamp seen to the arrival that
    /// completed the set of expected sequence numbers.
    pub convergence_time_ms: Option<u64>,
    /// Time-weighted mean of `reachable / connected`.
    pub pr_avg_ratio: Option<Reachability>,
    /// Time-weighted mean of the number of connected peers.
    pub avg_connected_peers: Option<Mean>,
    pub downtime_total_ms: u128,
    pub downtime_periods: u64,
    pub downtime_p50_ms: Option<u64>,
    pub downtime_p90_ms: Option<u64>,
    pub downtime_max_ms: Option<u64>,
    pub reconnect_min_ms: Option<u64>,
    pub reconnect_avg_ms: Option<Mean>,
    pub reconnect_p50_ms: Option<u64>,
    pub reconnect_p90_ms: Option<u64>,
    pub reconnect_p99_ms: Option<u64>,
    pub reconnect_max_ms: Option<u64>,
    pub neighbour_down: u64,
    pub neighbour_up: u64,
    /// Whether the transport confirmed that it joined the overlay.
    pub joined: bool,
    /// How long the transport waited for that confirmation.
    pub join_wait_ms: u64,
    /// Whether any message of a run was recorded.
    pub saw_test: bool,
    /// Whether the run ended without a single recorded message.
    pub timed_out_no_data: bool,
}

/// What a `Summary` says: its fields, with lists as sequences.
pub struct SummaryView {
    pub received_unique: u64,
    pub recv_total: u64,
    pub total_expected: u64,
    pub delivery_rate: Ratio,
    pub duplicate_rate: Ratio,
    pub duplicates: u64,
    pub out_of_order: u64,
    pub lagged_events: u64,
    pub lat_min: Option<u64>,
    pub lat_p50: Option<u64>,
    pub lat_p90: Option<u64>,
    pub lat_p99: Option<u64>,
    pub lat_max: Option<u64>,
    pub ldh_min: Option<u64>,
    pub ldh_p50: Option<u64>,
    pub ldh_p90: Option<u64>,
    pub ldh_p99: Option<u64>,
    pub ldh_max: Option<u64>,
    pub convergence_time_ms: Option<u64>,
    pub pr_avg_ratio: Option<ReachabilityView>,
    pub avg_connected_peers: Option<Mean>,
    pub downtime_total_ms: u128,
    pub downtime_periods: u64,
    pub downtime_p50_ms: Option<u64>,
    pub downtime_p90_ms: Option<u64>,
    pub downtime_max_ms: Option<u64>,
    pub reconnect_min_ms: Option<u64>,
    pub reconnect_avg_ms: Option<Mean>,
    pub reconnect_p50_ms: Option<u64>,
    pub reconnect_p90_ms: Option<u64>,
    pub reconnect_p99_ms: Option<u64>,
    pub reconnect_max_ms: Option<u64>,
    pub neighbour_down: u64,
    pub neighbour_up: u64,
    pub joined: bool,
    pub join_wait_ms: u64,
    pub saw_test: bool,
    pub timed_out_no_data: bool,
}

impl View for Summary {
    type V = SummaryView;

    open spec fn view(&self) -> SummaryView {
        SummaryView {
            received_unique: self.received_unique,
            recv_total: self.recv_total,
            total_expected: self.total_expected,
            delivery_rate: self.delivery_rate,
            duplicate_rate: self.duplicate_rate,
            duplicates: self.duplicates,
            out_of_order: self.out_of_order,
            lagged_events: self.lagged_events,
            lat_min: self.lat_min,
            lat_p50: self.lat_p50,
            lat_p90: self.lat_p90,
            lat_p99: self.lat_p99,
            lat_max: self.lat_max,
            ldh_min: self.ldh_min,
            ldh_p50: self.ldh_p50,
            ldh_p90: self.ldh_p90,
            ldh_p99: self.ldh_p99,
            ldh_max: self.ldh_max,
            convergence_time_ms: self.convergence_time_ms,
            pr_avg_ratio: match self.pr_avg_ratio {
                Some(r) => Some(r@),
                None => None,
            },
            avg_connected_peers: self.avg_connected_peers,
            downtime_total_ms: self.downtime_total_ms,
            downtime_periods: self.downtime_periods,
            downtime_p50_ms: self.downtime_p50_ms,
            downtime_p90_ms: self.downtime_p90_ms,
            downtime_max_ms: self.downtime_max_ms,
            reconnect_min_ms: self.reconnect_min_ms,
            reconnect_avg_ms: self.reconnect_avg_ms,
            reconnect_p50_ms: self.reconnect_p50_ms,
            reconnect_p90_ms: self.reconnect_p90_ms,
            reconnect_p99_ms: self.reconnect_p99_ms,
            reconnect_max_ms: self.reconnect_max_ms,
            neighbour_down: self.neighbour_down,
            neighbour_up: self.neighbour_up,
            joined: self.joined,
            join_wait_ms: self.join_wait_ms,
            saw_test: self.saw_test,
            timed_out_no_data: self.timed_out_no_data,
        }
    }
}

} // verus!
