//! What holds of the engine and the receiver as a whole.
//!
//! The operations in `model` and `receiver` say what one step does. The
//! statements here are about runs: they hold of every state that steps can
//! reach, or of every stream of messages.

use crate::data::{Envelope, PeerView, Ratio, Window};
use crate::model::{
    accumulate, elapsed, largest_total, max64, mean_reachability, observed_time, ratio,
    reachable_time, sequence_numbers, Delivery, StatsView,
};
use crate::receiver::{Observation, ReceiverView, Timed};
use crate::samples::{
    lemma_sorted, maximum, minimum, nearest_rank, percentile, sorted,
};
use vstd::prelude::*;

verus! {

/// The rounding of the nearest-rank rule.
///
/// The nearest rank is the whole number closest to `(n - 1) * percent / 100`,
/// and of two equally close ones the larger. Up to the hundredth percentile
/// it is the rank of a sample.
pub proof fn law_nearest_rank(n: nat, percent: nat)
    requires
        n > 0,
    ensures
        0 <= nearest_rank(n, percent),
        200 * nearest_rank(n, percent) - 100 <= 2 * ((n - 1) * percent) < 200 * nearest_rank(
            n,
            percent,
        ) + 100,
        percent <= 100 ==> nearest_rank(n, percent) < n,
{
    let x = (n - 1) * percent;
    assert(0 <= x) by (nonlinear_arith)
        requires
            x == (n - 1) * percent,
            n > 0,
    ;
    if percent <= 100 {
        assert(x <= (n - 1) * 100) by (nonlinear_arith)
            requires
                x == (n - 1) * percent,
                n > 0,
                percent <= 100,
        ;
    }
}

/// Order statistics are samples.
///
/// The minimum, the maximum and every percentile up to the hundredth of a
/// list of samples are samples of the list; no sample is below the minimum
/// and none above the maximum.
pub proof fn law_order_statistics(samples: Seq<u64>, percent: nat)
    requires
        samples.len() > 0,
        percent <= 100,
    ensures
        minimum(samples) is Some,
        maximum(samples) is Some,
        percentile(samples, percent) is Some,
        samples.contains(minimum(samples)->0),
        samples.contains(maximum(samples)->0),
        samples.contains(percentile(samples, percent)->0),
        forall|i: int|
            0 <= i < samples.len() ==> minimum(samples)->0 <= #[trigger] samples[i] <= maximum(
                samples,
            )->0,
        minimum(samples)->0 <= percentile(samples, percent)->0 <= maximum(samples)->0,
{
    broadcast use vstd::seq_lib::group_to_multiset_ensures;

    let t = sorted(samples);
    lemma_sorted(samples);
    law_nearest_rank(samples.len(), percent);
    let rank = nearest_rank(samples.len(), percent);
    assert forall|j: int| 0 <= j < t.len() implies samples.contains(#[trigger] t[j]) by {
        assert(t.contains(t[j]));
        assert(t.to_multiset().count(t[j]) > 0);
        assert(samples.to_multiset().count(t[j]) > 0);
    }
    assert(samples.contains(t[0]));
    assert(samples.contains(t[t.len() - 1]));
    assert(samples.contains(t[rank]));
    assert forall|i: int| 0 <= i < samples.len() implies t[0] <= #[trigger] samples[i] <= t[t.len()
        - 1] by {
        assert(samples.contains(samples[i]));
        assert(samples.to_multiset().count(samples[i]) > 0);
        assert(t.to_multiset().count(samples[i]) > 0);
        assert(t.contains(samples[i]));
        let j = choose|j: int| 0 <= j < t.len() && t[j] == samples[i];
        assert(t[0] <= t[j] <= t[t.len() - 1]);
    }
}

/// Recording a message keeps the statistics consistent.
pub proof fn law_recording_keeps_consistency(s: StatsView, d: Delivery)
    requires
        s.inv(),
    ensures
        s.deliver(d).inv(),
{
}

/// Counting an event, noting a disconnect or a reconnect, and taking a
/// snapshot of the neighbourhood keep the statistics consistent.
pub proof fn law_events_keep_consistency(s: StatsView, ts: u64, connected: u64, reachable: u64)
    requires
        s.inv(),
    ensures
        s.note_lagged().inv(),
        s.note_neighbour_down().inv(),
        s.note_neighbour_up().inv(),
        s.note_disconnect(ts).inv(),
        s.note_reconnect().inv(),
        s.record_peer_view(ts, connected, reachable).inv(),
{
    s.lemma_fold_keeps_times(ts);
}

/// Closing a run keeps the statistics consistent and leaves no window or
/// downtime interval open behind `now`.
pub proof fn law_closing_keeps_consistency(s: StatsView, now: u64)
    requires
        s.inv(),
    ensures
        s.finalize(now).inv(),
        s.finalize(now).downtime_started_at is None,
{
    s.lemma_fold_keeps_times(now);
}

/// Every step of a receiver keeps its state consistent.
pub proof fn law_steps_keep_consistency(r: ReceiverView, obs: Observation, now: u64)
    requires
        r.inv(),
    ensures
        r.step(obs, now).inv(),
{
    r.stats.lemma_fold_keeps_times(now);
}

/// Every run of a receiver keeps its state consistent.
pub proof fn law_runs_keep_consistency(r: ReceiverView, events: Seq<Timed>)
    requires
        r.inv(),
    ensures
        r.run(events).inv(),
    decreases events.len(),
{
    if events.len() > 0 {
        law_runs_keep_consistency(r, events.drop_last());
        law_steps_keep_consistency(
            r.run(events.drop_last()),
            events.last().obs,
            events.last().at_ms,
        );
    }
}

/// After a stream of deliveries the engine has seen exactly the stream's
/// sequence numbers, has counted every delivery, and expects the largest
/// total that was announced.
pub proof fn lemma_replay(stream: Seq<Delivery>)
    ensures
        StatsView::empty().replay(stream).inv(),
        StatsView::empty().replay(stream).seen == sequence_numbers(stream),
        StatsView::empty().replay(stream).recv_total == stream.len(),
        StatsView::empty().replay(stream).total_expected == largest_total(stream),
        StatsView::empty().replay(stream).last_view is None,
    decreases stream.len(),
{
    if stream.len() == 0 {
        assert(sequence_numbers(stream) =~= Set::<u64>::empty());
    } else {
        let front = stream.drop_last();
        lemma_replay(front);
        let before = StatsView::empty().replay(front);
        law_recording_keeps_consistency(before, stream.last());
        assert(sequence_numbers(stream) =~= sequence_numbers(front).insert(stream.last().seq)) by {
            assert forall|seq: u64| #[trigger]
                sequence_numbers(stream).contains(seq) <==> sequence_numbers(front).insert(
                    stream.last().seq,
                ).contains(seq) by {
                if sequence_numbers(stream).contains(seq) {
                    let i = choose|i: int|
                        0 <= i < stream.len() && (#[trigger] stream[i]).seq == seq;
                    if i < front.len() {
                        assert(front[i].seq == seq);
                    }
                }
                if sequence_numbers(front).contains(seq) {
                    let i = choose|i: int| 0 <= i < front.len() && (#[trigger] front[i]).seq == seq;
                    assert(stream[i].seq == seq);
                }
                if seq == stream.last().seq {
                    assert(stream[stream.len() - 1].seq == seq);
                }
            }
        }
    }
}

/// Duplicates and delivery rate of a stream.
///
/// Whatever the order of a stream of deliveries, the summary counts as
/// duplicates exactly the deliveries beyond the first of each sequence
/// number, and the delivery rate is the number of distinct sequence numbers
/// over the number expected: the largest total announced, or the number of
/// distinct sequence numbers where that is larger.
pub proof fn law_duplicates_and_delivery(stream: Seq<Delivery>, now: u64)
    requires
        stream.len() <= u64::MAX,
    ensures
        ({
            let distinct = sequence_numbers(stream).len();
            let summary = StatsView::empty().replay(stream).finalize(now).summary();
            &&& distinct <= stream.len()
            &&& summary.recv_total == stream.len()
            &&& summary.received_unique == distinct
            &&& summary.duplicates == stream.len() - distinct
            &&& summary.total_expected == max64(largest_total(stream), distinct as u64)
            &&& summary.delivery_rate == Ratio {
                num: distinct as u64,
                den: max64(largest_total(stream), distinct as u64),
            }
            &&& summary.duplicate_rate == Ratio {
                num: (stream.len() - distinct) as u64,
                den: stream.len() as u64,
            }
        }),
{
    lemma_replay(stream);
}

/// The largest total of a non-empty stream whose deliveries all announce the
/// same total is that total.
pub proof fn lemma_uniform_total(stream: Seq<Delivery>, total: u64)
    requires
        stream.len() > 0,
        forall|i: int| 0 <= i < stream.len() ==> (#[trigger] stream[i]).total == total,
    ensures
        largest_total(stream) == total,
    decreases stream.len(),
{
    let front = stream.drop_last();
    assert(stream[stream.len() - 1].total == total);
    if front.len() > 0 {
        assert forall|i: int| 0 <= i < front.len() implies (#[trigger] front[i]).total
            == total by {
            assert(front[i] == stream[i]);
        }
        lemma_uniform_total(front, total);
    } else {
        assert(largest_total(front) == 0);
    }
}

/// Unique sequence numbers with injected duplicates.
///
/// A stream in which `n` distinct sequence numbers occur, `k` deliveries are
/// repeats, and every delivery announces `total`, is summarised with `k`
/// duplicates and a delivery rate of `n / max(total, n)`. For the empty
/// stream that rate is the zero rate `0 / 0`.
pub proof fn law_injected_duplicates(stream: Seq<Delivery>, total: u64, n: nat, k: nat, now: u64)
    requires
        stream.len() <= u64::MAX,
        forall|i: int| 0 <= i < stream.len() ==> (#[trigger] stream[i]).total == total,
        sequence_numbers(stream).len() == n,
        stream.len() == n + k,
    ensures
        ({
            let summary = StatsView::empty().replay(stream).finalize(now).summary();
            &&& summary.duplicates == k
            &&& summary.received_unique == n
            &&& summary.delivery_rate.num == n
            &&& stream.len() > 0 ==> summary.delivery_rate.den == max64(total, n as u64)
            &&& stream.len() == 0 ==> summary.delivery_rate.den == 0
        }),
{
    law_duplicates_and_delivery(stream, now);
    if stream.len() > 0 {
        lemma_uniform_total(stream, total);
    }
}

/// Duplicates are fewer than messages.
///
/// Of the messages that were recorded, at least the first of each sequence
/// number is no duplicate: the duplicate rate of a run with data is below
/// one.
pub proof fn law_duplicates_fewer_than_messages(s: StatsView)
    requires
        s.inv(),
        s.recv_total > 0,
    ensures
        s.seen.len() > 0,
        s.duplicates < s.recv_total,
{
}

/// A run has seen its test exactly when a message was recorded.
///
/// Whatever total the messages announced, the summary of a receiver says
/// that a test was seen if and only if it recorded a message, and that the
/// run timed out without data if and only if it recorded none.
pub proof fn law_saw_test_iff_recorded(r: ReceiverView, now: u64, joined: bool, join_wait_ms: u64)
    requires
        r.inv(),
        r.stats.recv_total <= u64::MAX,
    ensures
        r.outcome(now, joined, join_wait_ms).saw_test <==> r.stats.recv_total > 0,
        r.outcome(now, joined, join_wait_ms).timed_out_no_data <==> r.stats.recv_total == 0,
{
}

/// Redelivery.
///
/// A message whose sequence number was already recorded leaves the set of
/// received sequence numbers as it is and raises the number of duplicates by
/// exactly one.
pub proof fn law_redelivery_counts_once(s: StatsView, d: Delivery)
    requires
        s.inv(),
        s.seen.contains(d.seq),
    ensures
        s.deliver(d).seen == s.seen,
        s.deliver(d).received_unique() == s.received_unique(),
        s.deliver(d).duplicates == s.duplicates + 1,
        s.deliver(d).recv_total == s.recv_total + 1,
{
    assert(s.seen.insert(d.seq) =~= s.seen);
}

/// Redelivery at the receiver.
///
/// A receiver that is bound to a run and is handed a message of that run
/// whose sequence number it has already recorded, keeps its number of
/// distinct sequence numbers and counts exactly one more duplicate; a message
/// with a fresh sequence number counts none.
pub proof fn law_redelivery_same_test(r: ReceiverView, m: Envelope, hop: Option<u16>, now: u64)
    requires
        r.inv(),
        r.current_test == Some(m.test_id),
    ensures
        ({
            let after = r.step(Observation::Message { decoded: Some(m), hop }, now);
            &&& r.stats.seen.contains(m.seq) ==> after.stats.received_unique()
                == r.stats.received_unique() && after.stats.duplicates == r.stats.duplicates + 1
            &&& !r.stats.seen.contains(m.seq) ==> after.stats.seen.len() == r.stats.seen.len() + 1
                && after.stats.duplicates == r.stats.duplicates
        }),
{
    if r.stats.seen.contains(m.seq) {
        assert(r.stats.seen.insert(m.seq) =~= r.stats.seen);
    }
}

/// A message of another run changes nothing.
pub proof fn law_foreign_test_ignored(r: ReceiverView, m: Envelope, hop: Option<u16>, now: u64)
    requires
        r.current_test is Some,
        r.current_test != Some(m.test_id),
    ensures
        r.step(Observation::Message { decoded: Some(m), hop }, now) == r,
        r.report(Observation::Message { decoded: Some(m), hop }, now) is None,
{
}

/// Convergence is fixed once.
///
/// Once the convergence time of a run is known, no later message changes it;
/// and the number of messages expected never goes down.
pub proof fn law_convergence_fixed_once(s: StatsView, d: Delivery)
    ensures
        s.convergence_time_ms is Some ==> s.deliver(d).convergence_time_ms
            == s.convergence_time_ms,
        s.deliver(d).total_expected >= s.total_expected,
        s.deliver(d).total_expected >= d.total,
{
}

/// A downtime interval.
///
/// Losing the last connected peer at `lost_at` and having `connected > 0`
/// peers again at `back_at` counts one more downtime period and records one
/// more downtime, of the time between the two snapshots.
pub proof fn law_downtime_interval(
    s: StatsView,
    lost_at: u64,
    back_at: u64,
    connected: u64,
    reachable: u64,
)
    requires
        s.inv(),
        s.connected_now() > 0,
        connected > 0,
    ensures
        ({
            let down = s.record_peer_view(lost_at, 0, 0);
            let up = down.record_peer_view(back_at, connected, reachable);
            &&& down.downtime_started_at == Some(lost_at)
            &&& down.downtime_periods == s.downtime_periods + 1
            &&& down.downtimes == s.downtimes
            &&& up.downtime_started_at is None
            &&& up.downtime_periods == s.downtime_periods + 1
            &&& up.downtimes == s.downtimes.push(elapsed(back_at, lost_at))
        }),
{
}

/// Downtime at the receiver.
///
/// When the last connected peer leaves, a downtime interval opens and one
/// more downtime period is counted; a peer that leaves while others stay
/// opens none. The next peer that joins closes the interval, whose length is
/// the time between the two events.
pub proof fn law_receiver_downtime(r: ReceiverView, lost_at: u64, back_at: u64)
    requires
        r.inv(),
    ensures
        ({
            let down = r.step(Observation::PeerDown, lost_at);
            let up = down.step(Observation::PeerUp, back_at);
            &&& r.connected_peers == 1 ==> {
                &&& down.stats.downtime_started_at == Some(lost_at)
                &&& down.stats.downtime_periods == r.stats.downtime_periods + 1
                &&& up.stats.downtime_started_at is None
                &&& up.stats.downtimes == r.stats.downtimes.push(elapsed(back_at, lost_at))
                &&& up.stats.downtime_periods == r.stats.downtime_periods + 1
            }
            &&& r.connected_peers > 1 ==> {
                &&& down.stats.downtime_started_at is None
                &&& down.stats.downtime_periods == r.stats.downtime_periods
                &&& down.stats.downtimes == r.stats.downtimes
            }
        }),
{
}

/// A downtime interval that is open when the run ends is closed at that
/// moment.
pub proof fn law_open_downtime_closed_at_end(s: StatsView, now: u64)
    requires
        s.inv(),
        s.downtime_started_at is Some,
    ensures
        s.finalize(now).downtimes == s.downtimes.push(elapsed(now, s.downtime_started_at->0)),
        s.finalize(now).downtime_periods == s.downtime_periods,
        s.finalize(now).downtime_started_at is None,
{
}

/// Reconnect time is measured to the return of data.
///
/// After a disconnect at `lost_at` and a reconnect, the next recorded message
/// yields one reconnect time: from the disconnect to the arrival of that
/// message, whenever the reconnect itself was signalled. The message after it
/// yields none.
pub proof fn law_reconnect_measured_to_data(s: StatsView, lost_at: u64, d: Delivery, e: Delivery)
    ensures
        ({
            let resumed = s.note_disconnect(lost_at).note_reconnect().deliver(d);
            &&& resumed.reconnect_times == s.reconnect_times.push(elapsed(d.recv_ts, lost_at))
            &&& resumed.deliver(e).reconnect_times == resumed.reconnect_times
        }),
        s.note_disconnect(lost_at).deliver(d).reconnect_times == if s.reconnect_armed {
            s.reconnect_times.push(elapsed(d.recv_ts, lost_at))
        } else {
            s.reconnect_times
        },
{
}

/// Reconnect time at the receiver.
///
/// A receiver that loses a peer at `lost_at`, regains one at `back_at` and
/// then takes a message of its run at `now` records the reconnect time
/// `now - lost_at`.
pub proof fn law_receiver_reconnect_time(
    r: ReceiverView,
    lost_at: u64,
    back_at: u64,
    m: Envelope,
    hop: Option<u16>,
    now: u64,
)
    requires
        r.accepts(m),
    ensures
        r.step(Observation::PeerDown, lost_at).step(Observation::PeerUp, back_at).step(
            Observation::Message { decoded: Some(m), hop },
            now,
        ).stats.reconnect_times == r.stats.reconnect_times.push(elapsed(now, lost_at)),
{
}

/// The idle timer.
///
/// A recorded message that announces a positive total restarts the idle
/// timer: afterwards the run ends exactly when more than the idle timeout
/// has passed since that message.
pub proof fn law_data_restarts_idle_timer(
    r: ReceiverView,
    m: Envelope,
    hop: Option<u16>,
    at_ms: u64,
    now: u64,
)
    requires
        r.accepts(m),
        m.total > 0,
    ensures
        r.step(Observation::Message { decoded: Some(m), hop }, at_ms).should_stop(now) <==> elapsed(
            now,
            at_ms,
        ) > r.idle_timeout_ms,
{
}

/// Time-weighting of snapshots.
///
/// A snapshot weighs by the time it stayed in effect. When the next snapshot
/// is reported at `ts`, the one before it, reported at `prev.ts_ms`, adds its
/// ratio times the time between the two to the reachable time, exactly; it
/// adds that time to the time observed and that time times its number of
/// connected peers to the connected time, both held at the top of their
/// range. The new snapshot adds nothing yet, and the first snapshot of a run
/// changes none of the three.
pub proof fn law_snapshots_weigh_by_time(s: StatsView, ts: u64, connected: u64, reachable: u64)
    ensures
        ({
            let after = s.record_peer_view(ts, connected, reachable);
            &&& after.last_view == Some(PeerView { ts_ms: ts, connected, reachable })
            &&& s.last_view matches Some(prev) ==> {
                let dur = elapsed(ts, prev.ts_ms);
                let window = Window {
                    dur_ms: dur,
                    connected: prev.connected,
                    reachable: prev.reachable,
                };
                &&& after.windows == s.windows.push(window)
                &&& reachable_time(after.windows) == reachable_time(s.windows) + dur as real
                    * ratio(window)
                &&& after.observed_ms == accumulate(s.observed_ms, dur as int)
                &&& after.connected_ms == accumulate(s.connected_ms, dur * prev.connected)
            }
            &&& s.last_view is None ==> {
                &&& after.windows == s.windows
                &&& after.observed_ms == s.observed_ms
                &&& after.connected_ms == s.connected_ms
            }
        }),
{
    if let Some(prev) = s.last_view {
        let window = Window {
            dur_ms: elapsed(ts, prev.ts_ms),
            connected: prev.connected,
            reachable: prev.reachable,
        };
        assert(s.windows.push(window).drop_last() =~= s.windows);
        assert(s.windows.push(window).last() == window);
    }
}

/// The reachable time of windows in which every connected peer was reachable
/// is the time of the windows.
pub proof fn law_full_reachability(windows: Seq<Window>)
    requires
        forall|i: int|
            0 <= i < windows.len() ==> (#[trigger] windows[i]).reachable == windows[i].connected,
    ensures
        reachable_time(windows) == observed_time(windows) as real,
    decreases windows.len(),
{
    if windows.len() > 0 {
        let front = windows.drop_last();
        assert forall|i: int| 0 <= i < front.len() implies (#[trigger] front[i]).reachable
            == front[i].connected by {
            assert(front[i] == windows[i]);
        }
        law_full_reachability(front);
        let w = windows[windows.len() - 1];
        assert(ratio(w) == 1real) by {
            if w.connected > 0 {
                let c = w.connected as real;
                assert(c / c == 1real) by (nonlinear_arith)
                    requires
                        c > 0real,
                ;
            }
        }
        assert(w.dur_ms as real * 1real == w.dur_ms as real);
    }
}

/// Reachability at the receiver.
///
/// A receiver reports every connected peer as reachable. Whatever it was
/// handed, every window of the reachability in its summary has as many
/// reachable peers as connected ones, the reachable time is all the time of
/// the windows, and, unless that time is past the range of the accumulator,
/// the mean reachability is exactly one.
pub proof fn law_receiver_fully_reachable(
    start_ms: u64,
    idle_timeout_ms: u64,
    events: Seq<Timed>,
    now: u64,
    joined: bool,
    join_wait_ms: u64,
)
    ensures
        ({
            let r = ReceiverView::start(start_ms, idle_timeout_ms).run(events);
            let summary = r.outcome(now, joined, join_wait_ms);
            summary.pr_avg_ratio matches Some(mean) ==> {
                &&& forall|i: int|
                    0 <= i < mean.windows.len() ==> (#[trigger] mean.windows[i]).reachable
                        == mean.windows[i].connected
                &&& reachable_time(mean.windows) == observed_time(mean.windows) as real
                &&& observed_time(mean.windows) <= u128::MAX ==> mean_reachability(mean) == 1real
            }
        }),
{
    let start = ReceiverView::start(start_ms, idle_timeout_ms);
    law_runs_keep_consistency(start, events);
    let r = start.run(events);
    law_closing_keeps_consistency(r.stats, now);
    let closed = r.stats.finalize(now);
    if closed.observed_ms > 0 {
        law_full_reachability(closed.windows);
        if observed_time(closed.windows) <= u128::MAX {
            let t = closed.observed_ms as real;
            assert(t / t == 1real) by (nonlinear_arith)
                requires
                    t > 0real,
            ;
        }
    }
}

/// No event in the sequence is a payload that decodes to a message.
pub open spec fn silent(events: Seq<Timed>) -> bool {
    forall|i: int|
        0 <= i < events.len() ==> !((#[trigger] events[i]).obs matches Observation::Message {
            decoded: Some(_),
            ..
        })
}

proof fn lemma_silent_run(start_ms: u64, idle_timeout_ms: u64, events: Seq<Timed>)
    requires
        silent(events),
    ensures
        ({
            let r = ReceiverView::start(start_ms, idle_timeout_ms).run(events);
            &&& r.inv()
            &&& r.start_ms == start_ms
            &&& r.idle_timeout_ms == idle_timeout_ms
            &&& r.current_test is None
            &&& r.stats.recv_total == 0
            &&& r.stats.total_expected == 0
            &&& r.stats.out_of_order == 0
            &&& r.stats.convergence_time_ms is None
        }),
    decreases events.len(),
{
    law_runs_keep_consistency(ReceiverView::start(start_ms, idle_timeout_ms), events);
    if events.len() > 0 {
        let front = events.drop_last();
        assert forall|i: int| 0 <= i < front.len() implies !((#[trigger] front[i]).obs matches
            Observation::Message { decoded: Some(_), .. }) by {
            assert(front[i] == events[i]);
        }
        lemma_silent_run(start_ms, idle_timeout_ms, front);
        assert(!(events[events.len() - 1].obs matches Observation::Message {
            decoded: Some(_),
            ..
        }));
    }
}

/// A run without data.
///
/// A receiver that was handed no decodable message, whatever else happened,
/// stops exactly when the idle timeout has passed since its start. Its
/// summary says that the run timed out without data, and every statistic
/// over messages is absent or zero.
pub proof fn law_run_without_data(
    start_ms: u64,
    idle_timeout_ms: u64,
    events: Seq<Timed>,
    now: u64,
    joined: bool,
    join_wait_ms: u64,
)
    requires
        silent(events),
    ensures
        ({
            let r = ReceiverView::start(start_ms, idle_timeout_ms).run(events);
            let summary = r.outcome(now, joined, join_wait_ms);
            &&& r.should_stop(now) <==> elapsed(now, start_ms) > idle_timeout_ms
            &&& summary.timed_out_no_data
            &&& !summary.saw_test
            &&& summary.joined == joined
            &&& summary.join_wait_ms == join_wait_ms
            &&& summary.recv_total == 0
            &&& summary.received_unique == 0
            &&& summary.total_expected == 0
            &&& summary.duplicates == 0
            &&& summary.out_of_order == 0
            &&& summary.delivery_rate == Ratio { num: 0, den: 0 }
            &&& summary.duplicate_rate == Ratio { num: 0, den: 0 }
            &&& summary.lat_min is None
            &&& summary.lat_p50 is None
            &&& summary.lat_p90 is None
            &&& summary.lat_p99 is None
            &&& summary.lat_max is None
            &&& summary.ldh_min is None
            &&& summary.ldh_p50 is None
            &&& summary.ldh_p90 is None
            &&& summary.ldh_p99 is None
            &&& summary.ldh_max is None
            &&& summary.convergence_time_ms is None
            &&& summary.reconnect_min_ms is None
            &&& summary.reconnect_avg_ms is None
            &&& summary.reconnect_max_ms is None
        }),
{
    lemma_silent_run(start_ms, idle_timeout_ms, events);
    let r = ReceiverView::start(start_ms, idle_timeout_ms).run(events);
    assert(r.stats.seen.len() == 0);
}

} // verus!
