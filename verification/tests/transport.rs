use gossip_lab::transport::{Discovery, LogKind, TransportEvent};

#[test]
fn log_names() {
    assert_eq!(LogKind::Send.name(), "send");
    assert_eq!(LogKind::Recv.name(), "recv");
    assert_eq!(LogKind::Lagged.name(), "lagged");
    assert_eq!(LogKind::NeighborUp.name(), "neighbor_up");
    assert_eq!(LogKind::NeighborDown.name(), "neighbor_down");
    assert_eq!(LogKind::NoJoin.name(), "no_join");
}

#[test]
fn discovery_modes() {
    assert!(matches!(Discovery::Direct, Discovery::Direct));
    assert!(!matches!(Discovery::Relay, Discovery::Direct));
    let copy = Discovery::Relay;
    assert!(matches!(copy, Discovery::Relay));
}

#[test]
fn hop_count_of_a_swarm_delivery() {
    match TransportEvent::received(vec![1, 2], Some(3)) {
        TransportEvent::Msg { bytes, ldh } => {
            assert_eq!(bytes, vec![1, 2]);
            assert_eq!(ldh, Some(3));
        }
        _ => panic!("not a message"),
    }
}

#[test]
fn hop_count_keeps_the_low_bits() {
    match TransportEvent::received(vec![], Some(65_536 + 17)) {
        TransportEvent::Msg { ldh, .. } => assert_eq!(ldh, Some(17)),
        _ => panic!("not a message"),
    }
    match TransportEvent::received(vec![], Some(65_535)) {
        TransportEvent::Msg { ldh, .. } => assert_eq!(ldh, Some(65_535)),
        _ => panic!("not a message"),
    }
}

#[test]
fn neighbour_delivery_has_no_hop_count() {
    match TransportEvent::received(vec![9], None) {
        TransportEvent::Msg { bytes, ldh } => {
            assert_eq!(bytes, vec![9]);
            assert_eq!(ldh, None);
        }
        _ => panic!("not a message"),
    }
}
