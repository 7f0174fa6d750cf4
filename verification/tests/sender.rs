use gossip_lab::codec::decode;
use gossip_lab::sender::{send_interval_ms, SendStep, Sender};
use gossip_lab::transport::LogKind;

#[test]
fn interval_for_a_rate() {
    assert_eq!(send_interval_ms(50), 20);
    assert_eq!(send_interval_ms(1), 1_000);
    assert_eq!(send_interval_ms(3), 333);
    assert_eq!(send_interval_ms(7), 142);
    assert_eq!(send_interval_ms(999), 1);
    assert_eq!(send_interval_ms(1_000), 1);
}

#[test]
fn interval_is_at_least_a_millisecond() {
    assert_eq!(send_interval_ms(1_001), 1);
    assert_eq!(send_interval_ms(2_000), 1);
    assert_eq!(send_interval_ms(u64::MAX), 1);
}

#[test]
fn rate_zero_counts_as_one() {
    assert_eq!(send_interval_ms(0), 1_000);
}

#[test]
fn sequence_numbers_in_order_each_once() {
    let mut sender = Sender::new([3; 16], 3, 50, 64);
    assert_eq!(sender.interval_ms(), 20);
    assert_eq!(sender.test_id(), [3; 16]);
    for expected in 0u64..3 {
        assert_eq!(sender.sent(), expected);
        match sender.next_payload(1_000 + expected) {
            SendStep::Payload { seq, bytes } => {
                assert_eq!(seq, expected);
                assert_eq!(bytes.len(), 64);
                let m = decode(&bytes).unwrap();
                assert_eq!(m.test_id, [3; 16]);
                assert_eq!(m.seq, expected);
                assert_eq!(m.sent_ms, 1_000 + expected);
                assert_eq!(m.total, 3);
                assert!(m.pad.is_empty());
            }
            _ => panic!("no payload"),
        }
    }
    assert_eq!(sender.sent(), 3);
    assert!(matches!(sender.next_payload(2_000), SendStep::Finished));
    assert!(matches!(sender.next_payload(3_000), SendStep::Finished));
    assert_eq!(sender.sent(), 3);
}

#[test]
fn a_run_of_no_messages_is_finished_at_once() {
    let mut sender = Sender::new([0; 16], 0, 10, 256);
    assert!(matches!(sender.next_payload(0), SendStep::Finished));
    assert_eq!(sender.sent(), 0);
}

#[test]
fn payload_larger_than_the_configured_size() {
    let mut sender = Sender::new([1; 16], 1, 10, 4);
    match sender.next_payload(1) {
        SendStep::Payload { seq, bytes } => {
            assert_eq!(seq, 0);
            assert_eq!(bytes.len(), 20);
        }
        _ => panic!("no payload"),
    }
}

#[test]
fn log_record_of_a_send() {
    let sender = Sender::new([1; 16], 2_000, 10, 4);
    let log = sender.send_record(17, 99);
    assert_eq!(log.event, LogKind::Send);
    assert_eq!(log.ts_ms, 99);
    assert_eq!(log.seq, Some(17));
    assert_eq!(log.total, Some(2_000));
    assert_eq!(log.lat_ms, None);
    assert_eq!(log.ldh, None);
    assert_eq!(log.connected, None);
}

#[test]
fn each_run_gets_its_own_identifier() {
    let a = Sender::start(10, 50, 256);
    let b = Sender::start(10, 50, 256);
    assert_ne!(a.test_id(), b.test_id());
    assert_ne!(a.test_id(), [0; 16]);
    assert_eq!(a.interval_ms(), 20);
    assert_eq!(a.sent(), 0);
}
