use hextool::digits::{
    char_of, is_all_dec, is_all_hex, is_dec, is_hex, parse_dec, parse_hex, push_dec, push_hex,
    value_of,
};
use hextool::error::render;
use hextool::text::{from_chars, to_chars};
use hextool::{ErrorKind, HexToolError};

fn chars(s: &str) -> Vec<char> {
    s.chars().collect()
}

#[test]
fn digits_are_told_from_other_characters() {
    for c in "0123456789".chars() {
        assert!(is_dec(c));
        assert!(is_hex(c));
    }
    for c in "abcdefABCDEF".chars() {
        assert!(!is_dec(c));
        assert!(is_hex(c));
    }
    for c in "gGxX/:@`[ -+\u{e9}\u{663}\u{ff11}".chars() {
        assert!(!is_dec(c));
        assert!(!is_hex(c));
    }
    assert!(is_all_hex(&chars("")));
    assert!(is_all_hex(&chars("09afAF")));
    assert!(!is_all_hex(&chars("09afAFg")));
    assert!(is_all_dec(&chars("0123456789")));
    assert!(!is_all_dec(&chars("12a")));
}

#[test]
fn digits_have_their_worth() {
    for (i, c) in "0123456789abcdef".chars().enumerate() {
        assert_eq!(value_of(c) as usize, i);
        assert_eq!(char_of(i as u8), c);
    }
    for (i, c) in "ABCDEF".chars().enumerate() {
        assert_eq!(value_of(c) as usize, i + 10);
    }
    for c in "gG/:@`x \u{e9}".chars() {
        assert_eq!(value_of(c), 0);
    }
    assert_eq!(char_of(16), '0');
    assert_eq!(char_of(255), '0');
}

#[test]
fn numbers_are_read_up_to_64_signed_bits() {
    assert_eq!(parse_dec(&chars("")), Some(0));
    assert_eq!(parse_dec(&chars("0")), Some(0));
    assert_eq!(parse_dec(&chars("1234567890")), Some(1234567890));
    assert_eq!(parse_dec(&chars("9223372036854775807")), Some(i64::MAX));
    assert_eq!(parse_dec(&chars("9223372036854775808")), None);
    assert_eq!(parse_dec(&chars("92233720368547758070")), None);
    assert_eq!(parse_dec(&chars("12a")), None);
    assert_eq!(parse_dec(&chars("-1")), None);
    assert_eq!(parse_hex(&chars("")), Some(0));
    assert_eq!(parse_hex(&chars("fg")), None);
    assert_eq!(parse_hex(&chars("0x1")), None);
    assert_eq!(parse_hex(&chars("fF")), Some(255));
    assert_eq!(parse_hex(&chars("7fffffffffffffff")), Some(i64::MAX));
    assert_eq!(parse_hex(&chars("8000000000000000")), None);
    assert_eq!(parse_hex(&chars("7fffffffffffffff0")), None);
}

#[test]
fn numbers_are_spelled_with_as_few_digits_as_it_takes() {
    for (n, dec, hex) in [
        (0u64, "0", "0"),
        (9, "9", "9"),
        (10, "10", "a"),
        (16, "16", "10"),
        (255, "255", "ff"),
        (3405691582, "3405691582", "cafebabe"),
        (u64::MAX, "18446744073709551615", "ffffffffffffffff"),
    ] {
        let mut out = chars("n=");
        push_dec(n, &mut out);
        assert_eq!(out, chars(&format!("n={}", dec)));
        let mut out = chars("n=");
        push_hex(n, &mut out);
        assert_eq!(out, chars(&format!("n={}", hex)));
    }
}

#[test]
fn characters_move_between_strings_and_vectors() {
    assert_eq!(to_chars("h\u{e9}llo"), vec!['h', '\u{e9}', 'l', 'l', 'o']);
    assert_eq!(from_chars(&vec!['h', '\u{e9}', 'l', 'l', 'o']), "h\u{e9}llo");
    assert_eq!(to_chars(""), Vec::<char>::new());
    assert_eq!(from_chars(&Vec::new()), "");
}

#[test]
fn an_error_shows_its_message() {
    let e = HexToolError::new(ErrorKind::MalformedBytePair, String::from("no pair"));
    assert_eq!(e.kind(), ErrorKind::MalformedBytePair);
    assert_eq!(e.message(), "no pair");
    assert_eq!(e.to_string(), "no pair");
    assert_eq!(render(Err(e)), "no pair");
    assert_eq!(render(Ok(String::from("6869"))), "6869");
}
