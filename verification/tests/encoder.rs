use hextool::hex::split_in_pairs;
use hextool::{Convert, ErrorKind, Hex, HexTool};

fn chars(s: &str) -> Vec<char> {
    s.chars().collect()
}

#[test]
fn hex_string_gives_two_lower_case_digits_per_byte() {
    assert_eq!(Hex::hex_string("hello").unwrap(), "68656c6c6f");
    assert_eq!(Hex::hex_string("\u{0}\u{1}\n").unwrap(), "00010a");
    assert_eq!(Hex::hex_string("JKLMNO").unwrap(), "4a4b4c4d4e4f");
    assert_eq!(Hex::hex_string("~\u{7f}").unwrap(), "7e7f");
}

#[test]
fn hex_string_of_nothing_is_nothing() {
    assert_eq!(Hex::hex_string("").unwrap(), "");
    assert_eq!(Hex::convert("", false, false), "");
    assert_eq!(Hex::convert("", false, true), "");
}

#[test]
fn hex_string_encodes_the_bytes_of_wider_characters() {
    assert_eq!(Hex::hex_string("\u{e9}").unwrap(), "c3a9");
    assert_eq!(Hex::hex_string("\u{20ac}").unwrap(), "e282ac");
    assert_eq!(Hex::hex_string("\u{1f600}").unwrap(), "f09f9880");
    assert_eq!(Hex::convert("\u{e9}", false, true), "c3 a9");
}

#[test]
fn hex_numeric_uses_as_few_digits_as_it_takes() {
    assert_eq!(Hex::hex_numeric("0").unwrap(), "0");
    assert_eq!(Hex::hex_numeric("5").unwrap(), "5");
    assert_eq!(Hex::hex_numeric("15").unwrap(), "f");
    assert_eq!(Hex::hex_numeric("16").unwrap(), "10");
    assert_eq!(Hex::hex_numeric("255").unwrap(), "ff");
    assert_eq!(Hex::hex_numeric("256").unwrap(), "100");
    assert_eq!(Hex::hex_numeric("3405691582").unwrap(), "cafebabe");
}

#[test]
fn hex_numeric_reads_leading_zeros() {
    assert_eq!(Hex::hex_numeric("007").unwrap(), "7");
    assert_eq!(Hex::hex_numeric("0000000000000000000000000255").unwrap(), "ff");
}

#[test]
fn hex_numeric_takes_the_whole_range_of_64_signed_bits() {
    assert_eq!(Hex::hex_numeric("9223372036854775807").unwrap(), "7fffffffffffffff");
    assert_eq!(Hex::hex_numeric("4294967296").unwrap(), "100000000");
}

#[test]
fn hex_numeric_refuses_what_is_beyond_64_signed_bits() {
    let e = Hex::hex_numeric("9223372036854775808").unwrap_err();
    assert_eq!(e.kind(), ErrorKind::NumericOverflow);
    assert_eq!(
        e.message(),
        "Input is not valid for 'hex' with numeric flag (-n). number too large to fit in target type"
    );
    let e = Hex::hex_numeric("99999999999999999999999999").unwrap_err();
    assert_eq!(e.kind(), ErrorKind::NumericOverflow);
    let e = Hex::encode("18446744073709551616", true, true).unwrap_err();
    assert_eq!(e.kind(), ErrorKind::NumericOverflow);
}

#[test]
fn hex_numeric_refuses_a_character_that_is_no_digit() {
    for input in ["hello", "12a", "-1", "+1", " 1", "1.5", "a", "F", "\u{663}", "\u{ff11}"] {
        let e = Hex::hex_numeric(input).unwrap_err();
        assert_eq!(e.kind(), ErrorKind::InvalidNumericInput);
        assert_eq!(e.message(), "Input is not valid for 'hex' with numeric flag (-n).");
        assert_eq!(e.to_string(), "Input is not valid for 'hex' with numeric flag (-n).");
    }
}

#[test]
fn hex_numeric_of_no_digits_fails_at_the_parse() {
    let cause = "".parse::<i64>().unwrap_err();
    let expected = format!("Input is not valid for 'hex' with numeric flag (-n). {}", cause);
    let e = Hex::hex_numeric("").unwrap_err();
    assert_eq!(e.kind(), ErrorKind::NumericOverflow);
    assert_eq!(e.message(), expected);
    assert_eq!(
        e.message(),
        "Input is not valid for 'hex' with numeric flag (-n). cannot parse integer from empty string"
    );
    assert_ne!(e.message(), "Input is not valid for 'hex' with numeric flag (-n).");
    for split in [false, true] {
        let e = Hex::encode("", true, split).unwrap_err();
        assert_eq!(e.kind(), ErrorKind::NumericOverflow);
        assert_eq!(Hex::convert("", true, split), expected);
        assert_eq!(hextool::hex::convert("", true, split), expected);
        assert_eq!(HexTool::Hex.process("", true, split), expected);
    }
}

#[test]
fn hex_numeric_gives_the_digit_failure_only_for_a_character_that_is_no_digit() {
    let text = "Input is not valid for 'hex' with numeric flag (-n).";
    for input in ["", "0", "42", "9223372036854775807", "9223372036854775808"] {
        assert_ne!(Hex::convert(input, true, false), text);
    }
    for input in ["4 2", "42\n", "0x2a", "\u{0}"] {
        assert_eq!(Hex::convert(input, true, false), text);
    }
}

#[test]
fn split_groups_digits_in_pairs() {
    assert_eq!(split_in_pairs(&chars("")), chars(""));
    assert_eq!(split_in_pairs(&chars("a")), chars("a"));
    assert_eq!(split_in_pairs(&chars("ab")), chars("ab"));
    assert_eq!(split_in_pairs(&chars("abc")), chars("ab c"));
    assert_eq!(split_in_pairs(&chars("abcd")), chars("ab cd"));
    assert_eq!(split_in_pairs(&chars("abcde")), chars("ab cd e"));
    assert_eq!(split_in_pairs(&chars("68656c6c6f")), chars("68 65 6c 6c 6f"));
}

#[test]
fn split_of_an_odd_number_of_digits_leaves_one_alone_at_the_end() {
    assert_eq!(Hex::convert("256", true, true), "10 0");
    assert_eq!(Hex::convert("5", true, true), "5");
    assert_eq!(Hex::convert("4096", true, true), "10 00");
}

#[test]
fn encode_with_split_groups_what_encode_without_it_gives() {
    for (input, numeric) in [("hello", false), ("3405691582", true), ("256", true), ("", false)] {
        let plain = Hex::encode(input, numeric, false).unwrap();
        let split = Hex::encode(input, numeric, true).unwrap();
        let grouped: String = split_in_pairs(&chars(&plain)).into_iter().collect();
        assert_eq!(split, grouped);
    }
    let plain = Hex::encode("x", true, false).unwrap_err();
    let split = Hex::encode("x", true, true).unwrap_err();
    assert_eq!(plain.kind(), split.kind());
    assert_eq!(plain.message(), split.message());
}

#[test]
fn encode_gives_the_error_that_convert_shows() {
    let e = Hex::encode("hello", true, false).unwrap_err();
    assert_eq!(e.kind(), ErrorKind::InvalidNumericInput);
    assert_eq!(Hex::convert("hello", true, false), e.to_string());
    assert_eq!(Hex::encode("hello", false, false).unwrap(), "68656c6c6f");
}

#[test]
fn free_convert_encodes() {
    assert_eq!(hextool::hex::convert("hello", false, false), "68656c6c6f");
    assert_eq!(hextool::hex::convert("hello", false, true), "68 65 6c 6c 6f");
    assert_eq!(hextool::hex::convert("3405691582", true, false), "cafebabe");
    assert_eq!(hextool::hex::convert("3405691582", true, true), "ca fe ba be");
    assert_eq!(
        hextool::hex::convert("hello", true, false),
        "Input is not valid for 'hex' with numeric flag (-n)."
    );
}

#[test]
fn process_goes_the_way_it_is_told() {
    assert_eq!(HexTool::Hex.process("hello", false, false), "68656c6c6f");
    assert_eq!(HexTool::UnHex.process("68656c6c6f", false, false), "hello");
    assert_eq!(HexTool::Hex.process("255", true, false), "ff");
    assert_eq!(HexTool::UnHex.process("ff", true, false), "255");
    assert_eq!(HexTool::UnHex.process("68656c6c6f", false, true), "h e l l o");
}
