//! The sender of a benchmark run, as a state machine.
//!
//! The caller owns the transport, the clock and the timer. It asks for the
//! next payload, broadcasts it, writes the log record and sleeps for the
//! pacing interval, until the sender says that the run is finished.

use crate::codec::{encode, payload_for, wire_message};
use crate::data::{DataMsg, Envelope};
use crate::transport::{LogKind, LogRecord};
use crate::util::random_bytes;
use vstd::prelude::*;

verus! {

/// Pause between two sends, in milliseconds, for a rate in messages per
/// second: `1000 / rate` rounded down, and never less than one millisecond.
/// A rate of zero is taken as one message per second.
pub open spec fn pace(rate_per_sec: u64) -> u64 {
    let rate: int = if rate_per_sec == 0 {
        1
    } else {
        rate_per_sec as int
    };
    if 1000int / rate < 1 {
        1
    } else {
        (1000int / rate) as u64
    }
}

/// State of a sender.
pub struct SenderView {
    pub test_id: Seq<u8>,
    /// Number of messages in the run.
    pub total: u64,
    /// Sequence number of the next message; `total` once the run is done.
    pub next_seq: u64,
    pub payload_size: usize,
    pub interval_ms: u64,
}

impl SenderView {
    /// A sender at the start of a run.
    pub open spec fn start(
        test_id: Seq<u8>,
        total: u64,
        rate_per_sec: u64,
        payload_size: usize,
    ) -> SenderView {
        SenderView { test_id, total, next_seq: 0, payload_size, interval_ms: pace(rate_per_sec) }
    }

    /// The sender has sent a prefix of the run's sequence numbers.
    pub open spec fn inv(self) -> bool {
        &&& self.next_seq <= self.total
        &&& self.test_id.len() == 16
    }

    /// Whether every message of the run was handed out.
    pub open spec fn finished(self) -> bool {
        self.next_seq == self.total
    }

    /// The message that is sent next if that happens at `now`.
    pub open spec fn message(self, now: u64) -> Envelope {
        Envelope {
            test_id: self.test_id,
            seq: self.next_seq,
            sent_ms: now,
            total: self.total,
            pad: Seq::empty(),
        }
    }

    /// The state after one more message was handed out.
    pub open spec fn advanced(self) -> SenderView {
        SenderView { next_seq: (self.next_seq + 1) as u64, ..self }
    }
}

/// What a sender does next.
#[derive(Debug)]
pub enum SendStep {
    /// Broadcast `bytes`, the payload of message `seq`.
    Payload { seq: u64, bytes: Vec<u8> },
    /// Every message of the run was handed out.
    Finished,
    /// The next message could not be encoded. The run cannot go on.
    Failed,
}

/// The sender of one benchmark run.
pub struct Sender {
    test_id: [u8; 16],
    total: u64,
    next_seq: u64,
    payload_size: usize,
    interval_ms: u64,
}

impl View for Sender {
    type V = SenderView;

    closed spec fn view(&self) -> SenderView {
        SenderView {
            test_id: self.test_id@,
            total: self.total,
            next_seq: self.next_seq,
            payload_size: self.payload_size,
            interval_ms: self.interval_ms,
        }
    }
}

/// What `pace` comes to, without a division: at up to a thousand messages
/// per second the pause is the largest whole number of milliseconds of which
/// `rate_per_sec` fit into a second, and above that it is one millisecond.
pub proof fn lemma_pace(rate_per_sec: u64)
    ensures
        pace(rate_per_sec) >= 1,
        rate_per_sec == 0 ==> pace(rate_per_sec) == 1000,
        1 <= rate_per_sec <= 1000 ==> rate_per_sec * pace(rate_per_sec) <= 1000 < rate_per_sec * (
            pace(rate_per_sec) + 1),
        rate_per_sec > 1000 ==> pace(rate_per_sec) == 1,
{
    if rate_per_sec >= 1 {
        let rate = rate_per_sec as int;
        assert(rate * (1000int / rate) <= 1000 < rate * (1000int / rate + 1)
            && 0 <= 1000int / rate <= 1000) by (nonlinear_arith)
            requires
                rate >= 1,
        ;
        if rate > 1000 {
            assert(1000int / rate == 0) by (nonlinear_arith)
                requires
                    rate > 1000,
            ;
        } else {
            assert(1000int / rate >= 1) by (nonlinear_arith)
                requires
                    1 <= rate <= 1000,
            ;
        }
    }
}

/// Pause between two sends for a rate in messages per second.
pub fn send_interval_ms(rate_per_sec: u64) -> (interval: u64)
    ensures
        interval == pace(rate_per_sec),
        interval >= 1,
        rate_per_sec == 0 ==> interval == 1000,
        1 <= rate_per_sec <= 1000 ==> rate_per_sec * interval <= 1000 < rate_per_sec * (interval
            + 1),
        rate_per_sec > 1000 ==> interval == 1,
{
    proof {
        lemma_pace(rate_per_sec);
    }
    let rate = if rate_per_sec == 0 {
        1
    } else {
        rate_per_sec
    };
    let interval = 1000 / rate;
    if interval == 0 {
        1
    } else {
        interval
    }
}

impl Sender {
    /// The sender's state is one that a run can be in.
    pub open spec fn wf(&self) -> bool {
        self@.inv()
    }

    /// A sender for the run `test_id` of `total` messages, sent at
    /// `rate_per_sec` messages per second in payloads of `payload_size`
    /// bytes.
    pub fn new(test_id: [u8; 16], total: u64, rate_per_sec: u64, payload_size: usize) -> (sender:
        Sender)
        ensures
            sender.wf(),
            sender@ == SenderView::start(test_id@, total, rate_per_sec, payload_size),
    {
        Sender {
            test_id,
            total,
            next_seq: 0,
            payload_size,
            interval_ms: send_interval_ms(rate_per_sec),
        }
    }

    /// A sender for a new run under a random identifier.
    pub fn start(total: u64, rate_per_sec: u64, payload_size: usize) -> (sender: Sender)
        ensures
            sender.wf(),
            sender@ == SenderView::start(sender@.test_id, total, rate_per_sec, payload_size),
    {
        Sender::new(random_bytes::<16>(), total, rate_per_sec, payload_size)
    }

    /// The identifier of the run.
    pub fn test_id(&self) -> (test_id: [u8; 16])
        ensures
            test_id@ == self@.test_id,
    {
        self.test_id
    }

    /// How long to pause after each send, in milliseconds.
    pub fn interval_ms(&self) -> (interval: u64)
        ensures
            interval == self@.interval_ms,
    {
        self.interval_ms
    }

    /// Number of messages handed out so far.
    pub fn sent(&self) -> (n: u64)
        ensures
            n == self@.next_seq,
    {
        self.next_seq
    }

    /// Hands out the payload of the next message, stamped with `now`.
    ///
    /// Sequence numbers are handed out in order from zero, each once, until
    /// `total` of them were. The sender moves on only when it hands out a
    /// payload, and a receiver that decodes the payload reads the message
    /// that was sent.
    pub fn next_payload(&mut self, now: u64) -> (step: SendStep)
        requires
            old(self).wf(),
        ensures
            final(self).wf(),
            match step {
                SendStep::Payload { seq, bytes } => {
                    &&& !old(self)@.finished()
                    &&& seq == old(self)@.next_seq
                    &&& payload_for(old(self)@.message(now), old(self)@.payload_size as nat)
                        == Some(bytes@)
                    &&& wire_message(bytes@) == Some(old(self)@.message(now))
                    &&& final(self)@ == old(self)@.advanced()
                },
                SendStep::Finished => old(self)@.finished() && final(self)@ == old(self)@,
                SendStep::Failed => {
                    &&& !old(self)@.finished()
                    &&& payload_for(old(self)@.message(now), old(self)@.payload_size as nat)
                        is None
                    &&& final(self)@ == old(self)@
                },
            },
    {
        if self.next_seq >= self.total {
            return SendStep::Finished;
        }
        let seq = self.next_seq;
        let message = DataMsg {
            test_id: self.test_id,
            seq,
            sent_ms: now,
            total: self.total,
            pad: Vec::new(),
        };
        assert(message@ =~~= self@.message(now));
        match encode(&message, self.payload_size) {
            Some(bytes) => {
                self.next_seq = seq + 1;
                SendStep::Payload { seq, bytes }
            },
            None => SendStep::Failed,
        }
    }

    /// The log record for message `seq`, written at `ts_ms` after it was
    /// broadcast.
    pub fn send_record(&self, seq: u64, ts_ms: u64) -> (log: LogRecord)
        ensures
            log == (LogRecord {
                ts_ms,
                event: LogKind::Send,
                seq: Some(seq),
                lat_ms: None,
                ldh: None,
                connected: None,
                total: Some(self@.total),
            }),
    {
        LogRecord {
            ts_ms,
            event: LogKind::Send,
            seq: Some(seq),
            lat_ms: None,
            ldh: None,
            connected: None,
            total: Some(self.total),
        }
    }
}

} // verus!
