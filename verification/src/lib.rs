//! Measurement core of a message-delivery benchmark.
//!
//! A sender emits a sequenced, timestamped stream of fixed-size messages; a
//! receiver classifies and deduplicates what arrives and derives delivery
//! statistics from it. This crate holds the parts of that experiment that can
//! be stated and proved: the message envelope, the pacing of the sender, the
//! receiver's state machine and the statistics engine. Sockets, overlay
//! networks, timers and log files live with the caller, which feeds the state
//! machines with events and the current time.

pub mod codec;
pub mod data;
pub mod keys;
pub mod laws;
pub mod metrics;
pub mod model;
pub mod receiver;
pub mod samples;
pub mod sender;
pub mod topic;
pub mod transport;
pub mod util;
