use gossip_lab::metrics::{DataMsg, Mean, Ratio, Reachability, Stats, Window};

fn window(dur_ms: u64, connected: u64, reachable: u64) -> Window {
    Window { dur_ms, connected, reachable }
}

fn reachability(windows: Vec<Window>, observed_ms: u128) -> Option<Reachability> {
    Some(Reachability { windows, observed_ms })
}

const RUN: [u8; 16] = [7; 16];

fn msg(seq: u64, total: u64, sent_ms: u64) -> DataMsg {
    DataMsg { test_id: RUN, seq, sent_ms, total, pad: vec![] }
}

#[test]
fn empty_accumulator_summarises_to_nothing() {
    let mut stats = Stats::default();
    let s = stats.summarize_at(5_000);
    assert_eq!(s.received_unique, 0);
    assert_eq!(s.recv_total, 0);
    assert_eq!(s.total_expected, 0);
    assert_eq!(s.delivery_rate, Ratio { num: 0, den: 0 });
    assert_eq!(s.duplicate_rate, Ratio { num: 0, den: 0 });
    assert_eq!(s.duplicates, 0);
    assert_eq!(s.out_of_order, 0);
    assert_eq!(s.lagged_events, 0);
    assert_eq!(s.lat_min, None);
    assert_eq!(s.lat_p50, None);
    assert_eq!(s.lat_p90, None);
    assert_eq!(s.lat_p99, None);
    assert_eq!(s.lat_max, None);
    assert_eq!(s.ldh_min, None);
    assert_eq!(s.ldh_p50, None);
    assert_eq!(s.ldh_max, None);
    assert_eq!(s.convergence_time_ms, None);
    assert_eq!(s.pr_avg_ratio, None);
    assert_eq!(s.avg_connected_peers, None);
    assert_eq!(s.downtime_total_ms, 0);
    assert_eq!(s.downtime_periods, 0);
    assert_eq!(s.downtime_p50_ms, None);
    assert_eq!(s.downtime_p90_ms, None);
    assert_eq!(s.downtime_max_ms, None);
    assert_eq!(s.reconnect_min_ms, None);
    assert_eq!(s.reconnect_avg_ms, None);
    assert_eq!(s.reconnect_p50_ms, None);
    assert_eq!(s.reconnect_max_ms, None);
    assert_eq!(s.neighbour_down, 0);
    assert_eq!(s.neighbour_up, 0);
    assert!(!s.joined);
    assert_eq!(s.join_wait_ms, 0);
    assert!(!s.saw_test);
    assert!(!s.timed_out_no_data);
}

#[test]
fn new_and_default_agree() {
    let a = Stats::new();
    let b = Stats::default();
    assert_eq!(a.total_expected(), b.total_expected());
    assert_eq!(a.received_total(), 0);
    assert_eq!(b.received_total(), 0);
    assert!(a.has_room());
}

#[test]
fn unique_stream_with_injected_duplicates() {
    // five unique sequence numbers, three of them delivered twice
    let mut stats = Stats::new();
    for seq in [0u64, 1, 1, 2, 3, 3, 4, 0] {
        stats.record(&msg(seq, 5, 100), None, 150);
    }
    assert_eq!(stats.duplicates(), 3);
    assert_eq!(stats.received_total(), 8);
    let s = stats.summarize_at(1_000);
    assert_eq!(s.duplicates, 3);
    assert_eq!(s.received_unique, 5);
    assert_eq!(s.recv_total, 8);
    assert_eq!(s.total_expected, 5);
    assert_eq!(s.delivery_rate, Ratio { num: 5, den: 5 });
    assert_eq!(s.duplicate_rate, Ratio { num: 3, den: 8 });
}

#[test]
fn delivery_rate_against_a_larger_total() {
    let mut stats = Stats::new();
    for seq in [0u64, 1, 2, 2, 3, 4] {
        stats.record(&msg(seq, 10, 100), None, 150);
    }
    let s = stats.summarize_at(1_000);
    assert_eq!(s.duplicates, 1);
    assert_eq!(s.received_unique, 5);
    assert_eq!(s.total_expected, 10);
    assert_eq!(s.delivery_rate, Ratio { num: 5, den: 10 });
}

#[test]
fn delivery_rate_against_a_smaller_total() {
    // more distinct sequence numbers than announced: the rate is capped at one
    let mut stats = Stats::new();
    for seq in 0u64..5 {
        stats.record(&msg(seq, 3, 100), None, 150);
    }
    let s = stats.summarize_at(1_000);
    assert_eq!(s.received_unique, 5);
    assert_eq!(s.total_expected, 5);
    assert_eq!(s.delivery_rate, Ratio { num: 5, den: 5 });
    assert_eq!(stats.total_expected(), 3);
}

#[test]
fn total_expected_is_a_high_water_mark() {
    let mut stats = Stats::new();
    stats.record(&msg(0, 7, 0), None, 0);
    stats.record(&msg(1, 4, 0), None, 0);
    assert_eq!(stats.total_expected(), 7);
    stats.record(&msg(2, 9, 0), None, 0);
    assert_eq!(stats.total_expected(), 9);
}

#[test]
fn redelivery_counts_one_duplicate() {
    let mut stats = Stats::new();
    stats.record(&msg(0, 4, 10), None, 20);
    stats.record(&msg(1, 4, 10), None, 20);
    let before = stats.duplicates();
    stats.record(&msg(1, 4, 10), None, 30);
    assert_eq!(stats.duplicates(), before + 1);
    assert_eq!(stats.received_total(), 3);
    let s = stats.summarize_at(100);
    assert_eq!(s.received_unique, 2);
    assert_eq!(s.duplicates, 1);
}

#[test]
fn out_of_order_is_measured_against_the_largest_seen() {
    let mut stats = Stats::new();
    for seq in [0u64, 2, 1, 5, 3, 4, 6] {
        stats.record(&msg(seq, 7, 0), None, 0);
    }
    // 1 after 2, 3 and 4 after 5
    assert_eq!(stats.out_of_order(), 3);
    assert_eq!(stats.duplicates(), 0);
}

#[test]
fn first_message_is_never_out_of_order() {
    let mut stats = Stats::new();
    stats.record(&msg(0, 1, 0), None, 0);
    assert_eq!(stats.out_of_order(), 0);
    let mut stats = Stats::new();
    stats.record(&msg(9, 10, 0), None, 0);
    assert_eq!(stats.out_of_order(), 0);
}

#[test]
fn stale_replay_is_duplicate_and_out_of_order() {
    let mut stats = Stats::new();
    for seq in [0u64, 1, 2, 1] {
        stats.record(&msg(seq, 3, 0), None, 0);
    }
    assert_eq!(stats.duplicates(), 1);
    assert_eq!(stats.out_of_order(), 1);
}

#[test]
fn repeat_of_the_largest_is_duplicate_only() {
    let mut stats = Stats::new();
    for seq in [0u64, 1, 1] {
        stats.record(&msg(seq, 3, 0), None, 0);
    }
    assert_eq!(stats.duplicates(), 1);
    assert_eq!(stats.out_of_order(), 0);
}

#[test]
fn latency_statistics() {
    let mut stats = Stats::new();
    // latencies 50, 10, 40, 20, 30 in order of arrival
    for (seq, lat) in [(0u64, 50u64), (1, 10), (2, 40), (3, 20), (4, 30)] {
        stats.record(&msg(seq, 5, 1_000), None, 1_000 + lat);
    }
    let s = stats.summarize_at(9_000);
    assert_eq!(s.lat_min, Some(10));
    assert_eq!(s.lat_p50, Some(30));
    assert_eq!(s.lat_p90, Some(50));
    assert_eq!(s.lat_p99, Some(50));
    assert_eq!(s.lat_max, Some(50));
}

#[test]
fn negative_latency_is_clamped_to_zero() {
    let mut stats = Stats::new();
    stats.record(&msg(0, 1, 1_000), None, 900);
    let s = stats.summarize_at(2_000);
    assert_eq!(s.lat_min, Some(0));
    assert_eq!(s.lat_max, Some(0));
}

#[test]
fn hop_counts_are_recorded_when_present() {
    let mut stats = Stats::new();
    stats.record(&msg(0, 3, 0), Some(3), 1);
    stats.record(&msg(1, 3, 0), None, 1);
    stats.record(&msg(2, 3, 0), Some(1), 1);
    let s = stats.summarize_at(10);
    assert_eq!(s.ldh_min, Some(1));
    assert_eq!(s.ldh_p50, Some(3));
    assert_eq!(s.ldh_p90, Some(3));
    assert_eq!(s.ldh_p99, Some(3));
    assert_eq!(s.ldh_max, Some(3));
    assert_eq!(s.lat_p50, Some(1));
}

#[test]
fn convergence_time_from_earliest_send() {
    let mut stats = Stats::new();
    stats.record(&msg(1, 3, 110), None, 150);
    stats.record(&msg(0, 3, 100), None, 160);
    let s = stats.summarize_at(170);
    assert_eq!(s.convergence_time_ms, None);
    stats.record(&msg(2, 3, 120), None, 175);
    let s = stats.summarize_at(180);
    assert_eq!(s.convergence_time_ms, Some(75));
}

#[test]
fn convergence_time_is_set_once() {
    let mut stats = Stats::new();
    stats.record(&msg(0, 2, 100), None, 150);
    stats.record(&msg(1, 2, 110), None, 190);
    stats.record(&msg(1, 2, 50), None, 400);
    stats.record(&msg(2, 5, 50), None, 500);
    let s = stats.summarize_at(600);
    assert_eq!(s.convergence_time_ms, Some(90));
}

#[test]
fn duplicates_do_not_complete_a_run() {
    let mut stats = Stats::new();
    stats.record(&msg(0, 2, 100), None, 150);
    stats.record(&msg(0, 2, 100), None, 160);
    let s = stats.summarize_at(600);
    assert_eq!(s.convergence_time_ms, None);
}

#[test]
fn no_convergence_without_an_announced_total() {
    let mut stats = Stats::new();
    stats.record(&msg(0, 0, 100), None, 150);
    let s = stats.summarize_at(600);
    assert_eq!(s.convergence_time_ms, None);
    assert_eq!(s.total_expected, 1);
    assert_eq!(s.delivery_rate, Ratio { num: 1, den: 1 });
}

#[test]
fn downtime_between_losing_and_regaining_peers() {
    let mut stats = Stats::new();
    stats.record_peer_view(0, 1, 1);
    stats.record_peer_view(1_000, 0, 0);
    stats.record_peer_view(3_000, 1, 1);
    let s = stats.summarize_at(3_000);
    assert_eq!(s.downtime_periods, 1);
    assert_eq!(s.downtime_total_ms, 2_000);
    assert_eq!(s.downtime_p50_ms, Some(2_000));
    assert_eq!(s.downtime_p90_ms, Some(2_000));
    assert_eq!(s.downtime_max_ms, Some(2_000));
}

#[test]
fn open_downtime_is_closed_at_the_end() {
    let mut stats = Stats::new();
    stats.record_peer_view(0, 2, 2);
    stats.record_peer_view(1_000, 0, 0);
    let s = stats.summarize_at(1_500);
    assert_eq!(s.downtime_periods, 1);
    assert_eq!(s.downtime_total_ms, 500);
    assert_eq!(s.downtime_max_ms, Some(500));
}

#[test]
fn several_downtimes() {
    let mut stats = Stats::new();
    stats.record_peer_view(0, 1, 1);
    stats.record_peer_view(100, 0, 0);
    stats.record_peer_view(400, 1, 1);
    stats.record_peer_view(1_000, 0, 0);
    stats.record_peer_view(1_100, 0, 0);
    stats.record_peer_view(2_000, 3, 3);
    stats.record_peer_view(2_500, 0, 0);
    stats.record_peer_view(2_600, 1, 1);
    let s = stats.summarize_at(3_000);
    assert_eq!(s.downtime_periods, 3);
    assert_eq!(s.downtime_total_ms, 300 + 1_000 + 100);
    assert_eq!(s.downtime_p50_ms, Some(300));
    assert_eq!(s.downtime_p90_ms, Some(1_000));
    assert_eq!(s.downtime_max_ms, Some(1_000));
}

#[test]
fn starting_without_peers_is_no_downtime() {
    let mut stats = Stats::new();
    stats.record_peer_view(0, 0, 0);
    stats.record_peer_view(500, 1, 1);
    let s = stats.summarize_at(1_000);
    assert_eq!(s.downtime_periods, 0);
    assert_eq!(s.downtime_total_ms, 0);
    assert_eq!(s.downtime_max_ms, None);
}

#[test]
fn snapshots_are_weighted_by_the_time_they_were_in_effect() {
    let mut stats = Stats::new();
    stats.record_peer_view(0, 2, 1);
    stats.record_peer_view(1_000, 4, 4);
    let s = stats.summarize_at(3_000);
    // one of two for 1000 ms, then four of four for 2000 ms
    assert_eq!(
        s.pr_avg_ratio,
        reachability(vec![window(1_000, 2, 1), window(2_000, 4, 4)], 3_000)
    );
    // 2 peers for 1000 ms, then 4 peers for 2000 ms
    assert_eq!(s.avg_connected_peers, Some(Mean { sum: 10_000, weight: 3_000 }));
}

#[test]
fn a_single_snapshot_has_weight_only_at_the_end() {
    let mut stats = Stats::new();
    stats.record_peer_view(1_000, 3, 3);
    let s = stats.summarize_at(1_000);
    assert_eq!(s.pr_avg_ratio, None);
    assert_eq!(s.avg_connected_peers, None);
    let mut stats = Stats::new();
    stats.record_peer_view(1_000, 3, 3);
    let s = stats.summarize_at(1_400);
    assert_eq!(s.pr_avg_ratio, reachability(vec![window(400, 3, 3)], 400));
    assert_eq!(s.avg_connected_peers, Some(Mean { sum: 1_200, weight: 400 }));
}

#[test]
fn nobody_connected_counts_as_fully_reachable() {
    let mut stats = Stats::new();
    stats.record_peer_view(0, 0, 0);
    let s = stats.summarize_at(500);
    assert_eq!(s.pr_avg_ratio, reachability(vec![window(500, 0, 0)], 500));
    assert_eq!(s.avg_connected_peers, Some(Mean { sum: 0, weight: 500 }));
}

#[test]
fn windows_are_kept_without_rounding() {
    let mut stats = Stats::new();
    stats.record_peer_view(0, 3, 1);
    let s = stats.summarize_at(1_000);
    assert_eq!(s.pr_avg_ratio, reachability(vec![window(1_000, 3, 1)], 1_000));
}

#[test]
fn a_window_of_one_millisecond_keeps_its_ratio() {
    let mut stats = Stats::new();
    stats.record_peer_view(0, 2, 1);
    stats.record_peer_view(1, 2, 2);
    let s = stats.summarize_at(1);
    assert_eq!(s.pr_avg_ratio, reachability(vec![window(1, 2, 1), window(0, 2, 2)], 1));

    let mut stats = Stats::new();
    stats.record_peer_view(0, 2, 1);
    stats.record_peer_view(1, 2, 1);
    let s = stats.summarize_at(2);
    assert_eq!(s.pr_avg_ratio, reachability(vec![window(1, 2, 1), window(1, 2, 1)], 2));
    assert_eq!(s.avg_connected_peers, Some(Mean { sum: 4, weight: 2 }));
}

#[test]
fn the_first_snapshot_closes_no_window() {
    let mut stats = Stats::new();
    stats.record_peer_view(700, 5, 2);
    let s = stats.summarize_at(700);
    assert_eq!(s.pr_avg_ratio, None);
    let s = stats.summarize_at(900);
    assert_eq!(
        s.pr_avg_ratio,
        reachability(vec![window(0, 5, 2), window(200, 5, 2)], 200)
    );
}

#[test]
fn a_clock_that_runs_backwards_adds_no_time() {
    let mut stats = Stats::new();
    stats.record_peer_view(1_000, 1, 1);
    stats.record_peer_view(400, 1, 1);
    let s = stats.summarize_at(900);
    assert_eq!(
        s.pr_avg_ratio,
        reachability(vec![window(0, 1, 1), window(500, 1, 1)], 500)
    );
}

#[test]
fn summarising_twice_continues_from_the_first_end() {
    let mut stats = Stats::new();
    stats.record_peer_view(0, 1, 1);
    let s = stats.summarize_at(1_000);
    assert_eq!(s.avg_connected_peers, Some(Mean { sum: 1_000, weight: 1_000 }));
    let s = stats.summarize_at(1_500);
    assert_eq!(s.avg_connected_peers, Some(Mean { sum: 1_500, weight: 1_500 }));
}

#[test]
fn reconnect_time_runs_to_the_next_message() {
    let mut stats = Stats::new();
    stats.note_disconnect(100);
    stats.note_reconnect();
    stats.record(&msg(0, 2, 650), None, 700);
    stats.record(&msg(1, 2, 750), None, 800);
    let s = stats.summarize_at(1_000);
    assert_eq!(s.reconnect_min_ms, Some(600));
    assert_eq!(s.reconnect_avg_ms, Some(Mean { sum: 600, weight: 1 }));
    assert_eq!(s.reconnect_p50_ms, Some(600));
    assert_eq!(s.reconnect_p90_ms, Some(600));
    assert_eq!(s.reconnect_p99_ms, Some(600));
    assert_eq!(s.reconnect_max_ms, Some(600));
}

#[test]
fn no_reconnect_time_without_data() {
    let mut stats = Stats::new();
    stats.note_disconnect(100);
    stats.note_reconnect();
    let s = stats.summarize_at(1_000);
    assert_eq!(s.reconnect_min_ms, None);
    assert_eq!(s.reconnect_avg_ms, None);
    assert_eq!(s.reconnect_max_ms, None);
}

#[test]
fn no_reconnect_time_without_a_reconnect() {
    let mut stats = Stats::new();
    stats.note_disconnect(100);
    stats.record(&msg(0, 2, 650), None, 700);
    let s = stats.summarize_at(1_000);
    assert_eq!(s.reconnect_min_ms, None);
}

#[test]
fn reconnect_without_a_disconnect_measures_nothing() {
    let mut stats = Stats::new();
    stats.note_reconnect();
    stats.record(&msg(0, 2, 650), None, 700);
    stats.note_disconnect(800);
    stats.record(&msg(1, 2, 850), None, 900);
    let s = stats.summarize_at(1_000);
    assert_eq!(s.reconnect_min_ms, None);
}

#[test]
fn reconnect_time_from_the_most_recent_disconnect() {
    let mut stats = Stats::new();
    stats.note_disconnect(100);
    stats.note_disconnect(300);
    stats.note_reconnect();
    stats.record(&msg(0, 2, 650), None, 700);
    stats.note_disconnect(1_000);
    stats.note_reconnect();
    stats.record(&msg(1, 2, 1_150), None, 1_200);
    let s = stats.summarize_at(2_000);
    assert_eq!(s.reconnect_min_ms, Some(200));
    assert_eq!(s.reconnect_max_ms, Some(400));
    assert_eq!(s.reconnect_avg_ms, Some(Mean { sum: 600, weight: 2 }));
    assert_eq!(s.reconnect_p50_ms, Some(400));
}

#[test]
fn event_counters() {
    let mut stats = Stats::new();
    stats.note_lagged();
    stats.note_lagged();
    stats.note_neighbour_down();
    stats.note_neighbour_up();
    stats.note_neighbour_up();
    stats.note_neighbour_up();
    assert_eq!(stats.lagged_events(), 2);
    assert!(stats.has_room());
    let s = stats.summarize_at(0);
    assert_eq!(s.lagged_events, 2);
    assert_eq!(s.neighbour_down, 1);
    assert_eq!(s.neighbour_up, 3);
}

#[test]
fn summarize_reads_the_clock() {
    let mut stats = Stats::new();
    stats.record_peer_view(0, 1, 1);
    stats.record(&msg(0, 1, 5), Some(2), 9);
    let s = stats.summarize();
    assert_eq!(s.recv_total, 1);
    assert_eq!(s.lat_min, Some(4));
    assert_eq!(s.ldh_max, Some(2));
    let mean = s.avg_connected_peers.unwrap();
    assert!(mean.weight > 1_600_000_000_000);
    assert_eq!(mean.sum, mean.weight);
}
