//! What crosses the boundary between a transport and the benchmark: the
//! events a transport delivers and the log records the benchmark hands back.

use vstd::prelude::*;

verus! {

/// How peers of the overlay find each other.
#[derive(Debug, Clone, Copy)]
pub enum Discovery {
    /// Peers connect to each other directly, found on the local network.
    Direct,
    /// Peers are found through bootstrap peers and may be reached via relays.
    Relay,
}

/// One event delivered by a transport. A receiver consumes each event once.
#[derive(Debug)]
pub enum TransportEvent {
    /// A payload arrived, with the number of overlay hops it travelled if
    /// the transport knows it.
    Msg { bytes: Vec<u8>, ldh: Option<u16> },
    /// The transport dropped events because the receiver fell behind.
    Lagged,
    /// A peer joined the neighbourhood.
    Reconnect,
    /// A peer left the neighbourhood.
    Disconnect,
}

/// The hop count that a transport reports for a delivery round of the
/// overlay: the round's lowest 16 bits.
pub open spec fn hops_of(round: u64) -> u16 {
    (round % 0x1_0000) as u16
}

impl TransportEvent {
    /// The event for a payload that reached this peer. A payload that was
    /// spread through the overlay comes with the round in which it arrived,
    /// which is its hop count; one sent by a direct neighbour comes with
    /// none.
    pub fn received(bytes: Vec<u8>, swarm_round: Option<u64>) -> (event: TransportEvent)
        ensures
            event == (TransportEvent::Msg {
                bytes,
                ldh: match swarm_round {
                    Some(round) => Some(hops_of(round)),
                    None => None,
                },
            }),
    {
        let ldh = match swarm_round {
            Some(round) => {
                assert(round as u16 == round % 0x1_0000) by (bit_vector);
                Some(#[verifier::truncate] (round as u16))
            },
            None => None,
        };
        TransportEvent::Msg { bytes, ldh }
    }
}

/// The kinds of lines in the structured event log.
#[derive(Debug, Clone, Copy, PartialEq, Eq)]
pub enum LogKind {
    Send,
    Recv,
    Lagged,
    NeighborUp,
    NeighborDown,
    NoJoin,
}

/// What one line of the event log says. The caller adds its role and the
/// peer's identifier and writes the line.
#[derive(Debug, Clone, Copy, PartialEq, Eq)]
pub struct LogRecord {
    pub ts_ms: u64,
    pub event: LogKind,
    /// Sequence number, for `Send` and `Recv`.
    pub seq: Option<u64>,
    /// End-to-end latency, for `Recv`.
    pub lat_ms: Option<u64>,
    /// Hop count, for `Recv` where the transport reported one.
    pub ldh: Option<u16>,
    /// Number of connected peers after the event, for `NeighborUp` and
    /// `NeighborDown`.
    pub connected: Option<u64>,
    /// Number of messages in the run, for `Send`.
    pub total: Option<u64>,
}

impl LogKind {
    /// The event's name as it is written to the log.
    pub open spec fn label(self) -> Seq<char> {
        match self {
            LogKind::Send => "send"@,
            LogKind::Recv => "recv"@,
            LogKind::Lagged => "lagged"@,
            LogKind::NeighborUp => "neighbor_up"@,
            LogKind::NeighborDown => "neighbor_down"@,
            LogKind::NoJoin => "no_join"@,
        }
    }

    /// The event's name as it is written to the log.
    pub fn name(&self) -> (name: &'static str)
        ensures
            name@ == self.label(),
    {
        match self {
            LogKind::Send => "send",
            LogKind::Recv => "recv",
            LogKind::Lagged => "lagged",
            LogKind::NeighborUp => "neighbor_up",
            LogKind::NeighborDown => "neighbor_down",
            LogKind::NoJoin => "no_join",
        }
    }
}

} // verus!
