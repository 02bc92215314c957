use kube_playground::text::{decode_datagram, is_utf8, is_whitespace, trim_whitespace};

#[test]
fn whitespace_is_unicode_white_space() {
    for c in [' ', '\t', '\n', '\u{0B}', '\u{0C}', '\r', '\u{85}', '\u{A0}', '\u{1680}', '\u{2000}',
        '\u{200A}', '\u{2028}', '\u{2029}', '\u{202F}', '\u{205F}', '\u{3000}'] {
        assert!(is_whitespace(c), "{:?}", c);
        assert!(c.is_whitespace());
    }
    for c in ['a', '0', '\u{200B}', '\u{FEFF}', '\u{1F}', '_'] {
        assert!(!is_whitespace(c), "{:?}", c);
        assert_eq!(c.is_whitespace(), is_whitespace(c));
    }
}

#[test]
fn whitespace_agrees_with_std_on_every_char_below_0x3100() {
    for u in 0u32..0x3100 {
        if let Some(c) = char::from_u32(u) {
            assert_eq!(is_whitespace(c), c.is_whitespace(), "{:#x}", u);
        }
    }
}

#[test]
fn trim_strips_both_ends_only() {
    assert_eq!(trim_whitespace("  a b  "), "a b");
    assert_eq!(trim_whitespace("\n\tmetric:1|c\r\n"), "metric:1|c");
    assert_eq!(trim_whitespace("\u{3000}x\u{2028}"), "x");
    assert_eq!(trim_whitespace("abc"), "abc");
}

#[test]
fn trim_of_blank_text_is_empty() {
    assert_eq!(trim_whitespace(""), "");
    assert_eq!(trim_whitespace(" \t\n "), "");
}

#[test]
fn trim_agrees_with_std() {
    for s in ["", " ", "a", " a", "a ", " a b ", "\u{A0}é\u{A0}", "x\n\ny", "\u{200B} "] {
        assert_eq!(trim_whitespace(s), s.trim());
    }
}

#[test]
fn datagram_is_decoded_and_trimmed() {
    assert_eq!(decode_datagram(b"foo:1|c\n"), Some("foo:1|c".to_string()));
    assert_eq!(decode_datagram("  gr\u{fc}n:2|g ".as_bytes()), Some("gr\u{fc}n:2|g".to_string()));
    assert_eq!(decode_datagram(b""), Some(String::new()));
}

#[test]
fn datagram_that_is_not_utf8() {
    assert_eq!(decode_datagram(&[0x66, 0xff, 0x6f]), None);
    assert_eq!(decode_datagram(&[0xc3]), None);
    assert!(!is_utf8(&[0xed, 0xa0, 0x80]));
    assert!(is_utf8("\u{10FFFF}".as_bytes()));
}
