//! What holds of the two conversions together.

use vstd::prelude::*;
use vstd::utf8::{encode_utf8, is_ascii_chars, is_ascii_chars_encode_utf8};
use crate::convert::Convert;
use crate::digits::{
    all_dec, all_hex, dec_digits, dec_value, digit_char, digit_value, hex_digits, hex_value,
    is_dec_digit, is_hex_digit,
};
use crate::error::{
    invalid_numeric_message, numeric_empty_message, numeric_overflow_message, shown, ErrorKind,
    Failure,
};
use crate::hex::{encoded, hex_of_bytes, split_pairs, Hex};
use crate::unhex::{
    chars_of_pairs, decoded, marker_at, pad_even, pairs_decoded, plain_text, spaced,
    strip_markers, validated, UnHex,
};

verus! {

/// The digit character for a value below 16 is a hexadecimal digit of that
/// value, and is neither `x` nor `X`.
pub proof fn lemma_digit_char(d: int)
    requires
        0 <= d < 16,
    ensures
        is_hex_digit(digit_char(d)),
        digit_value(digit_char(d)) == d,
        digit_char(d) != 'x',
        digit_char(d) != 'X',
        d < 10 ==> is_dec_digit(digit_char(d)),
{
}

/// The hexadecimal spelling of a number holds hexadecimal digits alone, at
/// least one, neither `x` nor `X`, and spells that number.
pub proof fn lemma_hex_digits(n: nat)
    ensures
        hex_digits(n).len() > 0,
        all_hex(hex_digits(n)),
        forall|i: int|
            0 <= i < hex_digits(n).len() ==> hex_digits(n)[i] != 'x' && hex_digits(n)[i] != 'X',
        hex_value(hex_digits(n)) == n,
    decreases n,
{
    let s = hex_digits(n);
    if n < 16 {
        lemma_digit_char(n as int);
        assert(s.drop_last() =~= Seq::<char>::empty());
        assert(hex_value(s.drop_last()) == 0);
    } else {
        lemma_hex_digits(n / 16);
        lemma_digit_char((n % 16) as int);
        assert(s.drop_last() =~= hex_digits(n / 16));
        assert(s.last() == digit_char((n % 16) as int));
    }
}

/// The decimal spelling of a number holds decimal digits alone, at least one,
/// and spells that number.
pub proof fn lemma_dec_digits(n: nat)
    ensures
        dec_digits(n).len() > 0,
        all_dec(dec_digits(n)),
        dec_value(dec_digits(n)) == n,
    decreases n,
{
    let s = dec_digits(n);
    if n < 10 {
        lemma_digit_char(n as int);
        assert(s.drop_last() =~= Seq::<char>::empty());
        assert(dec_value(s.drop_last()) == 0);
    } else {
        lemma_dec_digits(n / 10);
        lemma_digit_char((n % 10) as int);
        assert(s.drop_last() =~= dec_digits(n / 10));
        assert(s.last() == digit_char((n % 10) as int));
    }
}

/// Text that holds neither `x` nor `X` holds no marker, so stripping leaves it
/// as it is.
pub proof fn lemma_strip_without_markers(s: Seq<char>)
    requires
        forall|i: int| 0 <= i < s.len() ==> s[i] != 'x' && s[i] != 'X',
    ensures
        strip_markers(s) == s,
    decreases s.len(),
{
    if s.len() > 0 {
        assert(!marker_at(s, 0));
        lemma_strip_without_markers(s.skip(1));
        assert(seq![s[0]] + s.skip(1) =~= s);
    }
}

/// A `0` in front of a run of digits does not change the number it spells.
pub proof fn lemma_leading_zero(s: Seq<char>)
    ensures
        hex_value(seq!['0'] + s) == hex_value(s),
    decreases s.len(),
{
    let t = seq!['0'] + s;
    if s.len() == 0 {
        assert(t.drop_last() =~= Seq::<char>::empty());
        assert(hex_value(t.drop_last()) == 0);
        assert(t.last() == '0');
        assert(hex_value(t) == 0);
    } else {
        lemma_leading_zero(s.drop_last());
        assert(t.drop_last() =~= seq!['0'] + s.drop_last());
        assert(t.last() == s.last());
    }
}

/// The digits that validation hands on are hexadecimal digits in even number;
/// where a `0` was put in front, the number they spell is unchanged. So
/// byte-wise decoding of them never fails.
pub proof fn lemma_validated_digits(input: Seq<char>)
    requires
        validated(input) is Ok,
    ensures
        all_hex(validated(input)->Ok_0),
        validated(input)->Ok_0.len() % 2 == 0,
        validated(input)->Ok_0 == pad_even(strip_markers(input)),
        hex_value(validated(input)->Ok_0) == hex_value(strip_markers(input)),
        pairs_decoded(validated(input)->Ok_0) is Ok,
        plain_text(input, false) is Ok,
{
    lemma_leading_zero(strip_markers(input));
}

/// Numeric encoding fails as `InvalidNumericInput`, and shows the text of that
/// failure, exactly where the input holds a character that is no decimal
/// digit. The empty input holds none.
pub proof fn lemma_invalid_numeric_input(input: Seq<char>, split: bool)
    ensures
        (encoded(input, true, split) matches Err(e) && e.kind == ErrorKind::InvalidNumericInput)
            <==> !all_dec(input),
        shown(encoded(input, true, split)) == invalid_numeric_message() <==> !all_dec(input),
        all_dec(Seq::<char>::empty()),
{
    reveal_strlit("Input is not valid for 'hex' with numeric flag (-n).");
    reveal_strlit(
        "Input is not valid for 'hex' with numeric flag (-n). cannot parse integer from empty string",
    );
    reveal_strlit(
        "Input is not valid for 'hex' with numeric flag (-n). number too large to fit in target type",
    );
    if all_dec(input) && input.len() > 0 && dec_value(input) <= i64::MAX {
        let digits = hex_digits(dec_value(input));
        lemma_hex_digits(dec_value(input));
        assert(is_hex_digit(digits[0]));
        assert(split_pairs(digits)[0] == digits[0]);
        assert(invalid_numeric_message()[0] == 'I');
        assert(shown(encoded(input, true, split))[0] != invalid_numeric_message()[0]);
    } else if all_dec(input) && input.len() == 0 {
        assert(numeric_empty_message().len() != invalid_numeric_message().len());
    } else if all_dec(input) {
        assert(numeric_overflow_message().len() != invalid_numeric_message().len());
    }
}

/// Grouping is applied once, to the digits as they are without it: encoding
/// with `split` fails exactly where encoding without it fails, with the same
/// failure, and else gives the ungrouped digits in pairs.
pub proof fn lemma_encode_split_once(input: Seq<char>, numeric: bool)
    ensures
        match encoded(input, numeric, false) {
            Ok(digits) => encoded(input, numeric, true) == Ok::<Seq<char>, Failure>(
                split_pairs(digits),
            ),
            Err(e) => encoded(input, numeric, true) == Err::<Seq<char>, Failure>(e),
        },
{
}

/// Spacing is applied once, to the text as it is without it: decoding with
/// `split` fails exactly where decoding without it fails, with the same
/// failure, and else gives the unspaced text with its characters parted.
pub proof fn lemma_decode_split_once(input: Seq<char>, numeric: bool)
    ensures
        match decoded(input, numeric, false) {
            Ok(text) => decoded(input, numeric, true) == Ok::<Seq<char>, Failure>(spaced(text)),
            Err(e) => decoded(input, numeric, true) == Err::<Seq<char>, Failure>(e),
        },
{
}

/// Byte-wise encoding never fails, and byte-wise decoding of what it gives
/// for ASCII text gives that text back.
pub proof fn lemma_round_trip(t: Seq<char>)
    requires
        is_ascii_chars(t),
    ensures
        encoded(t, false, false) == Ok::<Seq<char>, Failure>(hex_of_bytes(encode_utf8(t))),
        decoded(hex_of_bytes(encode_utf8(t)), false, false) == Ok::<Seq<char>, Failure>(t),
        <UnHex as Convert>::converted(<Hex as Convert>::converted(t, false, false), false, false)
            == t,
{
    let bytes = encode_utf8(t);
    let digits = hex_of_bytes(bytes);
    is_ascii_chars_encode_utf8(t);
    assert forall|i: int| 0 <= i < digits.len() implies is_hex_digit(#[trigger] digits[i])
        && digits[i] != 'x' && digits[i] != 'X' by {
        lemma_digit_char(bytes[i / 2] as int / 16);
        lemma_digit_char(bytes[i / 2] as int % 16);
    }
    lemma_strip_without_markers(digits);
    assert(all_hex(digits));
    assert(pad_even(digits) == digits);
    assert(chars_of_pairs(digits) =~= t) by {
        assert forall|k: int| 0 <= k < t.len() implies chars_of_pairs(digits)[k] == t[k] by {
            lemma_digit_char(bytes[k] as int / 16);
            lemma_digit_char(bytes[k] as int % 16);
            assert(digits[2 * k] == digit_char(bytes[k] as int / 16));
            assert(digits[2 * k + 1] == digit_char(bytes[k] as int % 16));
            assert(bytes[k] == t[k] as u8);
            assert(0 <= t[k] as u32 <= 127);
        }
    }
}

/// Numeric encoding of a run of decimal digits that spells a number of at
/// most 64 signed bits gives the hexadecimal spelling of that number, and
/// numeric decoding of that spelling gives the number back in decimal, in its
/// shortest spelling.
pub proof fn lemma_numeric_round_trip(s: Seq<char>)
    requires
        s.len() > 0,
        all_dec(s),
        dec_value(s) <= i64::MAX,
    ensures
        encoded(s, true, false) == Ok::<Seq<char>, Failure>(hex_digits(dec_value(s))),
        decoded(hex_digits(dec_value(s)), true, false) == Ok::<Seq<char>, Failure>(
            dec_digits(dec_value(s)),
        ),
        <UnHex as Convert>::converted(<Hex as Convert>::converted(s, true, false), true, false)
            == dec_digits(dec_value(s)),
{
    let n = dec_value(s);
    let digits = hex_digits(n);
    lemma_hex_digits(n);
    lemma_strip_without_markers(digits);
    lemma_leading_zero(digits);
    assert(all_hex(pad_even(digits)));
}

/// Numeric decoding of a run of hexadecimal digits that spells a number of at
/// most 64 signed bits gives the decimal spelling of that number, and numeric
/// encoding of that spelling gives the number back in hexadecimal, in its
/// shortest spelling.
pub proof fn lemma_numeric_round_trip_back(h: Seq<char>)
    requires
        h.len() > 0,
        all_hex(h),
        hex_value(h) <= i64::MAX,
    ensures
        decoded(h, true, false) == Ok::<Seq<char>, Failure>(dec_digits(hex_value(h))),
        encoded(dec_digits(hex_value(h)), true, false) == Ok::<Seq<char>, Failure>(
            hex_digits(hex_value(h)),
        ),
        <Hex as Convert>::converted(<UnHex as Convert>::converted(h, true, false), true, false)
            == hex_digits(hex_value(h)),
{
    assert forall|i: int| 0 <= i < h.len() implies h[i] != 'x' && h[i] != 'X' by {
        assert(is_hex_digit(h[i]));
    }
    lemma_strip_without_markers(h);
    lemma_leading_zero(h);
    assert(all_hex(pad_even(h)));
    lemma_dec_digits(hex_value(h));
}

} // verus!
