use gossip_lab::topic::{resolve_topic, BadTopic};
use gossip_lab::util::topic_from_name;
use std::str::FromStr;

const HEX: &str = "000102030405060708090a0b0c0d0e0f101112131415161718191A1B1C1D1E1F";

fn counting() -> [u8; 32] {
    let mut bytes = [0u8; 32];
    for (i, b) in bytes.iter_mut().enumerate() {
        *b = i as u8;
    }
    bytes
}

#[test]
fn topic_given_in_hexadecimal() {
    assert_eq!(resolve_topic(Some(HEX), None), Ok(counting()));
}

#[test]
fn hexadecimal_topic_wins_over_a_name() {
    assert_eq!(resolve_topic(Some(HEX), Some("lab")), Ok(counting()));
}

#[test]
fn bad_hexadecimal_topic_is_an_error_even_with_a_name() {
    assert_eq!(resolve_topic(Some("zz"), Some("lab")), Err(BadTopic));
    assert_eq!(resolve_topic(Some(""), Some("lab")), Err(BadTopic));
    assert_eq!(resolve_topic(Some(&HEX[..62]), None), Err(BadTopic));
    assert_eq!(resolve_topic(Some(&HEX[..63]), None), Err(BadTopic));
    let long = format!("{}00", HEX);
    assert_eq!(resolve_topic(Some(&long), None), Err(BadTopic));
    let bad = format!("{}g0", &HEX[..62]);
    assert_eq!(resolve_topic(Some(&bad), None), Err(BadTopic));
}

#[test]
fn topic_from_a_name() {
    assert_eq!(resolve_topic(None, Some("lab")), Ok(topic_from_name("lab")));
    assert_eq!(resolve_topic(None, Some("lab")), Ok(*blake3::hash(b"lab").as_bytes()));
}

#[test]
fn random_topic_when_nothing_is_given() {
    let a = resolve_topic(None, None).unwrap();
    let b = resolve_topic(None, None).unwrap();
    assert_ne!(a, b);
    assert_ne!(a, [0; 32]);
}

#[test]
fn topics_parse_as_the_overlay_parses_them() {
    for text in [HEX, "zz", "", &HEX[..62], "ff"] {
        let theirs = iroh_gossip::proto::TopicId::from_str(text).ok().map(|t| *t.as_bytes());
        assert_eq!(resolve_topic(Some(text), None).ok(), theirs);
    }
}
