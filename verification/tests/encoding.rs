use coercion::text::{bytes_to_text, is_utf8};

#[test]
fn validator_accepts_ascii() {
    assert!(is_utf8(&b"Hello World!".to_vec()));
    assert!(is_utf8(&Vec::new()));
}

#[test]
fn validator_accepts_multibyte() {
    // two-byte, three-byte and four-byte scalars
    assert!(is_utf8(&vec![0xc3, 0xa9]));
    assert!(is_utf8(&vec![0xe2, 0x82, 0xac]));
    assert!(is_utf8(&vec![0xf0, 0x9f, 0x98, 0x80]));
    assert!(is_utf8(&String::from("héllo € 😀").into_bytes()));
}

#[test]
fn validator_rejects_malformed() {
    // stray continuation byte
    assert!(!is_utf8(&vec![0x80]));
    // bare leading byte, truncated tails
    assert!(!is_utf8(&vec![0xc3]));
    assert!(!is_utf8(&vec![0xe2, 0x82]));
    assert!(!is_utf8(&vec![0xf0, 0x9f, 0x98]));
    // overlong encodings
    assert!(!is_utf8(&vec![0xc0, 0x80]));
    assert!(!is_utf8(&vec![0xc1, 0xbf]));
    assert!(!is_utf8(&vec![0xe0, 0x9f, 0xbf]));
    assert!(!is_utf8(&vec![0xf0, 0x8f, 0xbf, 0xbf]));
    // surrogate range
    assert!(!is_utf8(&vec![0xed, 0xa0, 0x80]));
    assert!(!is_utf8(&vec![0xed, 0xbf, 0xbf]));
    // beyond the last scalar
    assert!(!is_utf8(&vec![0xf4, 0x90, 0x80, 0x80]));
    assert!(!is_utf8(&vec![0xf5, 0x80, 0x80, 0x80]));
    assert!(!is_utf8(&vec![0xff]));
}

#[test]
fn validator_agrees_with_std() {
    let cases: Vec<Vec<u8>> = vec![
        b"plain ascii".to_vec(),
        vec![0xc3, 0xa9, 0x21],
        vec![0xe0, 0xa0, 0x80],
        vec![0xed, 0x9f, 0xbf],
        vec![0xee, 0x80, 0x80],
        vec![0xf4, 0x8f, 0xbf, 0xbf],
        vec![0x80],
        vec![0xc2],
        vec![0xc0, 0xaf],
        vec![0xe0, 0x80, 0xaf],
        vec![0xed, 0xa0, 0x80],
        vec![0xf0, 0x82, 0x82, 0xac],
        vec![0xf4, 0x90, 0x80, 0x80],
        vec![0xfe, 0xfe, 0xff, 0xff],
        vec![0xc3, 0xa9, 0x80],
    ];
    for bytes in cases {
        assert_eq!(is_utf8(&bytes), std::str::from_utf8(&bytes).is_ok());
    }
}

#[test]
fn checked_conversion() {
    let ok = bytes_to_text(b"Hello World!".to_vec());
    assert_eq!(ok.unwrap(), "Hello World!");

    let bad = bytes_to_text(vec![0xed, 0xa0, 0x80]);
    assert!(bad.is_none());
}
