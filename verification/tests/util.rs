use gossip_lab::util::{now_ms, pad_payload, topic_from_name};

#[test]
fn padding_fills_with_zeros() {
    assert_eq!(pad_payload(vec![1, 2, 3], 6), vec![1, 2, 3, 0, 0, 0]);
    assert_eq!(pad_payload(vec![], 2), vec![0, 0]);
}

#[test]
fn padding_never_truncates() {
    assert_eq!(pad_payload(vec![1, 2, 3], 3), vec![1, 2, 3]);
    assert_eq!(pad_payload(vec![1, 2, 3], 2), vec![1, 2, 3]);
    assert_eq!(pad_payload(vec![1, 2, 3], 0), vec![1, 2, 3]);
    assert_eq!(pad_payload(vec![], 0), Vec::<u8>::new());
}

#[test]
fn topic_is_the_blake3_digest_of_the_name() {
    assert_eq!(topic_from_name("lab"), *blake3::hash(b"lab").as_bytes());
    assert_eq!(topic_from_name(""), *blake3::hash(b"").as_bytes());
    assert_eq!(topic_from_name("gr\u{fc}n"), *blake3::hash("gr\u{fc}n".as_bytes()).as_bytes());
}

#[test]
fn topic_of_the_empty_name() {
    let expected: [u8; 32] = [
        0xaf, 0x13, 0x49, 0xb9, 0xf5, 0xf9, 0xa1, 0xa6, 0xa0, 0x40, 0x4d, 0xea, 0x36, 0xdc, 0xc9,
        0x49, 0x9b, 0xcb, 0x25, 0xc9, 0xad, 0xc1, 0x12, 0xb7, 0xcc, 0x9a, 0x93, 0xca, 0xe4, 0x1f,
        0x32, 0x62,
    ];
    assert_eq!(topic_from_name(""), expected);
}

#[test]
fn topics_of_different_names_differ() {
    assert_ne!(topic_from_name("a"), topic_from_name("b"));
    assert_eq!(topic_from_name("a"), topic_from_name("a"));
}

#[test]
fn the_clock_is_past_the_year_2020() {
    let now = now_ms();
    assert!(now > 1_577_836_800_000);
    assert!(now_ms() >= now || now - now_ms() < 60_000);
}
