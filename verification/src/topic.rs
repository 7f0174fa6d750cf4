//! The topic under which the peers of a run meet.
//!
//! A topic is 32 bytes. It is given in hexadecimal, or derived from a name
//! that the peers agree on, or drawn at random for a run of one's own.

use crate::keys::hex_bytes;
use crate::util::{blake3_digest, random_bytes, topic_from_name};
use iroh_gossip::proto::TopicId;
use std::str::FromStr;
use vstd::prelude::*;

verus! {

/// A text that was given as a topic in hexadecimal is not 64 hexadecimal
/// digits.
#[derive(Debug, Clone, Copy, PartialEq, Eq)]
pub struct BadTopic;

/// The topic that a text of 64 hexadecimal digits stands for.
pub open spec fn topic_of_hex(text: Seq<char>) -> Option<Seq<u8>> {
    match hex_bytes(text) {
        Some(bytes) => if bytes.len() == 32 {
            Some(bytes)
        } else {
            None
        },
        None => None,
    }
}

/// Parses a topic with the `FromStr` impl of `iroh_gossip::proto::TopicId`
/// and returns its bytes.
///
/// That impl decodes the text with `hex::decode_to_slice` into 32 bytes: it
/// succeeds on 64 hexadecimal digits of either case and fails on every other
/// text. The contract says that much.
#[verifier::external_body]
fn topic_id_from_str(text: &str) -> (topic: Result<[u8; 32], hex::FromHexError>)
    ensures
        match topic {
            Ok(t) => hex_bytes(text@) == Some(t@),
            Err(_) => hex_bytes(text@) is None || hex_bytes(text@)->0.len() != 32,
        },
{
    match TopicId::from_str(text) {
        Ok(topic) => Ok(*topic.as_bytes()),
        Err(e) => Err(e),
    }
}

/// The topic of a run: the one given in hexadecimal if there is one, else
/// the topic of the name if there is one, else a random one, of which nothing
/// is known but that it is a topic.
pub fn resolve_topic(topic_hex: Option<&str>, topic_name: Option<&str>) -> (topic: Result<
    [u8; 32],
    BadTopic,
>)
    ensures
        match topic_hex {
            Some(text) => match topic {
                Ok(t) => topic_of_hex(text@) == Some(t@),
                Err(_) => topic_of_hex(text@) is None,
            },
            None => match topic_name {
                Some(name) => topic is Ok && topic->Ok_0@ == blake3_digest(
                    vstd::utf8::encode_utf8(name@),
                ),
                None => topic is Ok,
            },
        },
{
    match topic_hex {
        Some(text) => match topic_id_from_str(text) {
            Ok(topic) => Ok(topic),
            Err(_) => Err(BadTopic),
        },
        None => match topic_name {
            Some(name) => Ok(topic_from_name(name)),
            None => Ok(random_bytes::<32>()),
        },
    }
}

} // verus!
