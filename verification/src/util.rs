//! Small helpers shared by the sender and the receiver: the wall clock, topic
//! identifiers and payload padding.

use rand::RngCore;
use std::time::{SystemTime, UNIX_EPOCH};
use vstd::prelude::*;

verus! {

/// The BLAKE3 digest of a byte string: the 32 bytes that `blake3::hash`
/// returns for it.
pub uninterp spec fn blake3_digest(input: Seq<u8>) -> Seq<u8>;

/// `v`, extended with zero bytes up to `target_size` when it is shorter.
pub open spec fn padded(v: Seq<u8>, target_size: nat) -> Seq<u8> {
    if v.len() < target_size {
        v + Seq::new((target_size - v.len()) as nat, |i: int| 0u8)
    } else {
        v
    }
}

/// Current wall-clock time in milliseconds since the Unix epoch.
///
/// Reads `std::time::SystemTime::now`. Nothing is claimed about the value: it
/// depends on the machine's clock, may jump, and is zero when the clock stands
/// before the epoch.
#[verifier::external_body]
pub fn now_ms() -> u64 {
    SystemTime::now().duration_since(UNIX_EPOCH).unwrap_or_default().as_millis() as u64
}

/// Draws `N` bytes from the thread-local generator of `rand`, with `rand::rng`
/// and `RngCore::fill_bytes`. Nothing is claimed about the bytes.
#[verifier::external_body]
pub(crate) fn random_bytes<const N: usize>() -> [u8; N] {
    let mut bytes = [0u8; N];
    rand::rng().fill_bytes(&mut bytes);
    bytes
}

/// Calls `blake3::hash` on `input` and returns the digest as an array.
///
/// The contract only gives the digest its name; that it has 32 bytes is the
/// array's length.
#[verifier::external_body]
fn blake3_hash(input: &[u8]) -> (digest: [u8; 32])
    ensures
        digest@ == blake3_digest(input@),
{
    *blake3::hash(input).as_bytes()
}

/// Derives a 32-byte topic identifier from a human-readable name: the BLAKE3
/// digest of the name's UTF-8 bytes.
pub fn topic_from_name(name: &str) -> (topic: [u8; 32])
    ensures
        topic@ == blake3_digest(vstd::utf8::encode_utf8(name@)),
{
    blake3_hash(name.as_bytes())
}

/// Pads `v` with zero bytes to `target_size`. A payload that is already at
/// least that long is returned unchanged: nothing is ever cut off.
pub fn pad_payload(v: Vec<u8>, target_size: usize) -> (out: Vec<u8>)
    ensures
        out@ == padded(v@, target_size as nat),
{
    let mut v = v;
    if v.len() < target_size {
        let ghost before = v@;
        v.resize(target_size, 0);
        assert(v@ =~= padded(before, target_size as nat)) by {
            assert forall|i: int| 0 <= i < target_size implies v@[i] == padded(
                before,
                target_size as nat,
            )[i] by {
                if i < before.len() {
                    assert(v@.subrange(0, before.len() as int)[i] == before[i]);
                } else {
                    assert(cloned::<u8>(0u8, v@[i]));
                }
            }
        }
    }
    v
}

} // verus!
