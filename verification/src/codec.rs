//! The wire form of a benchmark message.
//!
//! A message travels as the postcard encoding of its five fields in order,
//! followed by zero bytes up to the configured payload size. Reading takes the
//! fields from the front of the bytes and pays no attention to what follows.

use crate::data::{DataMsg, Envelope};
use crate::util::{pad_payload, padded};
use vstd::prelude::*;

verus! {

/// The bytes that `postcard::to_allocvec` produces for the tuple
/// `(test_id, seq, sent_ms, total, pad)`, or `None` where it reports an error.
pub uninterp spec fn postcard_bytes(
    test_id: Seq<u8>,
    seq: u64,
    sent_ms: u64,
    total: u64,
    pad: Seq<u8>,
) -> Option<Seq<u8>>;

/// The tuple `(test_id, seq, sent_ms, total, pad)` that `postcard::from_bytes`
/// reads from the front of `bytes`, or `None` where it reports an error.
pub uninterp spec fn postcard_fields(bytes: Seq<u8>) -> Option<(Seq<u8>, u64, u64, u64, Seq<u8>)>;

/// The unpadded encoding of a message.
pub open spec fn wire_bytes(m: Envelope) -> Option<Seq<u8>> {
    postcard_bytes(m.test_id, m.seq, m.sent_ms, m.total, m.pad)
}

/// The message that a payload carries, if it carries one.
pub open spec fn wire_message(bytes: Seq<u8>) -> Option<Envelope> {
    match postcard_fields(bytes) {
        Some((test_id, seq, sent_ms, total, pad)) => Some(
            Envelope { test_id, seq, sent_ms, total, pad },
        ),
        None => None,
    }
}

/// The payload for a message at a given payload size: its encoding, padded
/// with zeros when it is shorter than that size and left alone otherwise.
pub open spec fn payload_for(m: Envelope, payload_size: nat) -> Option<Seq<u8>> {
    match wire_bytes(m) {
        Some(bytes) => Some(padded(bytes, payload_size)),
        None => None,
    }
}

/// What a decoded message says, if there is one.
pub open spec fn envelope_of(decoded: Option<DataMsg>) -> Option<Envelope> {
    match decoded {
        Some(m) => Some(m@),
        None => None,
    }
}

/// Serialises the fields of `message` with `postcard::to_allocvec`, as a
/// tuple in declaration order.
///
/// The contract names the outcome: the bytes are `postcard_bytes` of the
/// fields, and there are none exactly where that is `None`. It claims one
/// thing more of the bytes, which is what a serialiser is for:
/// `postcard::from_bytes` reads the same fields back from them, whatever
/// bytes follow.
#[verifier::external_body]
fn to_allocvec(message: &DataMsg) -> (bytes: Option<Vec<u8>>)
    ensures
        match bytes {
            Some(b) => {
                &&& postcard_bytes(
                    message.test_id@,
                    message.seq,
                    message.sent_ms,
                    message.total,
                    message.pad@,
                ) == Some(b@)
                &&& forall|tail: Seq<u8>| #[trigger]
                    postcard_fields(b@ + tail) == Some(
                        (
                            message.test_id@,
                            message.seq,
                            message.sent_ms,
                            message.total,
                            message.pad@,
                        ),
                    )
            },
            None => postcard_bytes(
                message.test_id@,
                message.seq,
                message.sent_ms,
                message.total,
                message.pad@,
            ) is None,
        },
{
    postcard::to_allocvec(
        &(&message.test_id, message.seq, message.sent_ms, message.total, &message.pad),
    ).ok()
}

/// Reads the fields of a message with `postcard::from_bytes`, as a tuple in
/// declaration order; bytes behind the last field are not looked at.
///
/// The contract names the outcome and claims nothing else of it: the message
/// holds `postcard_fields` of the bytes, and there is none exactly where that
/// is `None`.
#[verifier::external_body]
fn from_bytes(bytes: &[u8]) -> (message: Option<DataMsg>)
    ensures
        match message {
            Some(m) => postcard_fields(bytes@) == Some(
                (m.test_id@, m.seq, m.sent_ms, m.total, m.pad@),
            ),
            None => postcard_fields(bytes@) is None,
        },
{
    let (test_id, seq, sent_ms, total, pad) = postcard::from_bytes::<
        ([u8; 16], u64, u64, u64, Vec<u8>),
    >(bytes).ok()?;
    Some(DataMsg { test_id, seq, sent_ms, total, pad })
}

/// Encodes a message and pads it to `payload_size`.
///
/// A message whose encoding is already longer than `payload_size` is sent at
/// its natural size: nothing is cut off and that is no error. The result is
/// `None` only if the serialiser reports an error. A payload carries the
/// message it was made from: padding does not change what is read from it.
pub fn encode(message: &DataMsg, payload_size: usize) -> (payload: Option<Vec<u8>>)
    ensures
        match payload {
            Some(p) => payload_for(message@, payload_size as nat) == Some(p@) && wire_message(p@)
                == Some(message@),
            None => payload_for(message@, payload_size as nat) is None,
        },
{
    match to_allocvec(message) {
        Some(bytes) => {
            let ghost natural = bytes@;
            let payload = pad_payload(bytes, payload_size);
            proof {
                let tail = payload@.subrange(natural.len() as int, payload@.len() as int);
                assert(payload@ =~= natural + tail);
            }
            Some(payload)
        },
        None => None,
    }
}

/// Decodes a payload. `None` means that the bytes are not a message of this
/// benchmark; a receiver drops such a payload without further ado.
pub fn decode(bytes: &[u8]) -> (message: Option<DataMsg>)
    ensures
        envelope_of(message) == wire_message(bytes@),
{
    from_bytes(bytes)
}

} // verus!
