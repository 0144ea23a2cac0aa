use intercom_notifier::utf8check::is_valid_utf8;

#[test]
fn empty_is_valid() {
    assert!(is_valid_utf8(&[]));
}

#[test]
fn ascii_is_valid() {
    assert!(is_valid_utf8(b"hello, intercom!"));
    assert!(is_valid_utf8(&[0x00, 0x7f, 0x20]));
}

#[test]
fn two_byte_sequences() {
    // U+00E9, then the lowest and highest two-byte scalars
    assert!(is_valid_utf8(&[0xc3, 0xa9]));
    assert!(is_valid_utf8(&[0xc2, 0x80]));
    assert!(is_valid_utf8(&[0xdf, 0xbf]));
}

#[test]
fn overlong_two_byte_is_invalid() {
    assert!(!is_valid_utf8(&[0xc0, 0x80]));
    assert!(!is_valid_utf8(&[0xc1, 0xbf]));
}

#[test]
fn lone_continuation_is_invalid() {
    assert!(!is_valid_utf8(&[0x80]));
    assert!(!is_valid_utf8(&[0xbf, 0x20]));
}

#[test]
fn truncated_sequences_are_invalid() {
    assert!(!is_valid_utf8(&[0xc3]));
    assert!(!is_valid_utf8(&[0xe2, 0x82]));
    assert!(!is_valid_utf8(&[0xf0, 0x9f, 0x92]));
}

#[test]
fn three_byte_sequences() {
    // U+20AC, the lowest three-byte scalar, and the one just below the surrogates
    assert!(is_valid_utf8(&[0xe2, 0x82, 0xac]));
    assert!(is_valid_utf8(&[0xe0, 0xa0, 0x80]));
    assert!(is_valid_utf8(&[0xed, 0x9f, 0xbf]));
    assert!(is_valid_utf8(&[0xee, 0x80, 0x80]));
}

#[test]
fn overlong_three_byte_is_invalid() {
    assert!(!is_valid_utf8(&[0xe0, 0x80, 0x80]));
    assert!(!is_valid_utf8(&[0xe0, 0x9f, 0xbf]));
}

#[test]
fn surrogates_are_invalid() {
    assert!(!is_valid_utf8(&[0xed, 0xa0, 0x80]));
    assert!(!is_valid_utf8(&[0xed, 0xbf, 0xbf]));
}

#[test]
fn bad_continuation_is_invalid() {
    assert!(!is_valid_utf8(&[0xe2, 0x28, 0xac]));
    assert!(!is_valid_utf8(&[0xc3, 0x29]));
    assert!(!is_valid_utf8(&[0xf0, 0x9f, 0x20, 0xa9]));
}

#[test]
fn four_byte_sequences() {
    // U+1F4A9, the lowest four-byte scalar, and the last scalar U+10FFFF
    assert!(is_valid_utf8(&[0xf0, 0x9f, 0x92, 0xa9]));
    assert!(is_valid_utf8(&[0xf0, 0x90, 0x80, 0x80]));
    assert!(is_valid_utf8(&[0xf4, 0x8f, 0xbf, 0xbf]));
}

#[test]
fn beyond_last_scalar_is_invalid() {
    assert!(!is_valid_utf8(&[0xf4, 0x90, 0x80, 0x80]));
    assert!(!is_valid_utf8(&[0xf5, 0x80, 0x80, 0x80]));
    assert!(!is_valid_utf8(&[0xf8, 0x80, 0x80, 0x80, 0x80]));
    assert!(!is_valid_utf8(&[0xff]));
}

#[test]
fn overlong_four_byte_is_invalid() {
    assert!(!is_valid_utf8(&[0xf0, 0x8f, 0xbf, 0xbf]));
}

#[test]
fn mixed_text_is_valid() {
    let text = "naïve café — 東京 🙂";
    assert!(is_valid_utf8(text.as_bytes()));
}

#[test]
fn agrees_with_std_on_many_inputs() {
    let cases: Vec<Vec<u8>> = vec![
        vec![],
        b"plain ascii".to_vec(),
        vec![0xc3, 0xa9, 0x20, 0xe2, 0x82, 0xac],
        vec![0xc0, 0xaf],
        vec![0xe0, 0x80, 0xaf],
        vec![0xed, 0xa0, 0x80, 0xed, 0xb0, 0x80],
        vec![0xf0, 0x9f, 0x92, 0xa9, 0x00],
        vec![0xf4, 0x8f, 0xbf, 0xbf],
        vec![0xf4, 0x90, 0x80, 0x80],
        vec![0x2f, 0xc3],
        vec![0x80, 0x80, 0x80],
        vec![0xe2, 0x82, 0xac, 0xe2, 0x82],
    ];
    for case in cases {
        assert_eq!(
            is_valid_utf8(&case),
            std::str::from_utf8(&case).is_ok(),
            "disagreement on {:?}",
            case
        );
    }
}
