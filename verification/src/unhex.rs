//! The decoder: hexadecimal digits back to text.

use vstd::prelude::*;
use vstd::string::StringExecFns;
use crate::digits::{
    all_hex, dec_digits, digit_value, hex_value, is_all_hex, is_hex, is_hex_digit, parse_hex,
    push_dec, value_of,
};
use crate::error::{
    byte_pair_message, invalid_hex_heading, outcome, parse_digit_message, parse_empty_message,
    parse_overflow_message, render, shown, ErrorKind, Failure, HexToolError,
};
use crate::text::{from_chars, to_chars};

verus! {

/// A `0` at index `i` of `s` is followed by `x` or `X`.
pub open spec fn marker_at(s: Seq<char>, i: int) -> bool {
    &&& 0 <= i
    &&& i + 1 < s.len()
    &&& s[i] == '0'
    &&& (s[i + 1] == 'x' || s[i + 1] == 'X')
}

/// `s` without its markers `0x` and `0X`, found from the left in one pass.
pub open spec fn strip_markers(s: Seq<char>) -> Seq<char>
    decreases s.len(),
{
    if s.len() == 0 {
        Seq::empty()
    } else if marker_at(s, 0) {
        strip_markers(s.skip(2))
    } else {
        seq![s[0]] + strip_markers(s.skip(1))
    }
}

/// A hexadecimal digit as it is; any other character between the escape
/// sequences that switch red on and off.
pub open spec fn marked(c: char) -> Seq<char> {
    if is_hex_digit(c) {
        seq![c]
    } else {
        "\x1b[31m"@ + seq![c] + "\x1b[0m"@
    }
}

/// The characters of `s`, each as `marked` gives it.
pub open spec fn highlighted(s: Seq<char>) -> Seq<char>
    decreases s.len(),
{
    if s.len() == 0 {
        Seq::empty()
    } else {
        highlighted(s.drop_last()) + marked(s.last())
    }
}

/// `s`, with a `0` in front where its length is odd.
pub open spec fn pad_even(s: Seq<char>) -> Seq<char> {
    if s.len() % 2 == 1 {
        seq!['0'] + s
    } else {
        s
    }
}

/// The digits to decode: `input` without markers and of even length, or the
/// failure that shows every character that is no hexadecimal digit.
pub open spec fn validated(input: Seq<char>) -> Result<Seq<char>, Failure> {
    let cleaned = strip_markers(input);
    if all_hex(cleaned) {
        Ok(pad_even(cleaned))
    } else {
        Err(
            Failure {
                kind: ErrorKind::InvalidHexCharacters,
                message: invalid_hex_heading() + highlighted(cleaned) + "."@,
            },
        )
    }
}

/// The character whose code is the byte that the digits `hi` and `lo` spell.
pub open spec fn pair_char(hi: char, lo: char) -> char {
    ((digit_value(hi) * 16 + digit_value(lo)) as u8) as char
}

/// One character for each pair of digits of `s`.
pub open spec fn chars_of_pairs(s: Seq<char>) -> Seq<char> {
    Seq::new((s.len() / 2) as nat, |k: int| pair_char(s[2 * k], s[2 * k + 1]))
}

/// What byte-wise decoding of the digits `s` gives.
pub open spec fn pairs_decoded(s: Seq<char>) -> Result<Seq<char>, Failure> {
    if s.len() % 2 == 0 && all_hex(s) {
        Ok(chars_of_pairs(s))
    } else {
        Err(Failure { kind: ErrorKind::MalformedBytePair, message: byte_pair_message() })
    }
}

/// What numeric decoding of the digits `s` gives.
pub open spec fn number_decoded(s: Seq<char>) -> Result<Seq<char>, Failure> {
    if !all_hex(s) {
        Err(Failure { kind: ErrorKind::NumericParseError, message: parse_digit_message() })
    } else if s.len() == 0 {
        Err(Failure { kind: ErrorKind::NumericParseError, message: parse_empty_message() })
    } else if hex_value(s) > i64::MAX {
        Err(Failure { kind: ErrorKind::NumericParseError, message: parse_overflow_message() })
    } else {
        Ok(dec_digits(hex_value(s)))
    }
}

/// The characters of `s` with one space between each two neighbours.
pub open spec fn spaced(s: Seq<char>) -> Seq<char> {
    Seq::new(
        if s.len() == 0 {
            0
        } else {
            (2 * s.len() - 1) as nat
        },
        |j: int|
            if j % 2 == 1 {
                ' '
            } else {
                s[j / 2]
            },
    )
}

/// The decoded text, before any spacing.
pub open spec fn plain_text(input: Seq<char>, numeric: bool) -> Result<Seq<char>, Failure> {
    match validated(input) {
        Ok(digits) => if numeric {
            number_decoded(digits)
        } else {
            pairs_decoded(digits)
        },
        Err(e) => Err(e),
    }
}

/// What decoding `input` gives: the text of `plain_text`, spaced once where
/// `split` is set.
pub open spec fn decoded(input: Seq<char>, numeric: bool, split: bool) -> Result<
    Seq<char>,
    Failure,
> {
    match plain_text(input, numeric) {
        Ok(text) => Ok(
            if split {
                spaced(text)
            } else {
                text
            },
        ),
        Err(e) => Err(e),
    }
}

/// Removes the markers `0x` and `0X` from `v`.
pub fn strip(v: &Vec<char>) -> (out: Vec<char>)
    ensures
        out@ == strip_markers(v@),
{
    let mut out: Vec<char> = Vec::new();
    let mut i: usize = 0;
    proof {
        assert(v@.skip(0) =~= v@);
    }
    while i < v.len()
        invariant
            i <= v.len(),
            out@ + strip_markers(v@.skip(i as int)) =~= strip_markers(v@),
        decreases v.len() - i,
    {
        let ghost rest = v@.skip(i as int);
        if v[i] == '0' && i + 1 < v.len() && (v[i + 1] == 'x' || v[i + 1] == 'X') {
            proof {
                assert(marker_at(rest, 0));
                assert(rest.skip(2) =~= v@.skip(i + 2));
            }
            i = i + 2;
        } else {
            proof {
                assert(!marker_at(rest, 0));
                assert(rest.skip(1) =~= v@.skip(i + 1));
            }
            out.push(v[i]);
            i = i + 1;
        }
    }
    out
}

/// Puts one space between each two neighbours of `v`.
pub fn space_out(v: &Vec<char>) -> (out: Vec<char>)
    ensures
        out@ == spaced(v@),
{
    let mut out: Vec<char> = Vec::new();
    let mut i: usize = 0;
    while i < v.len()
        invariant
            i <= v.len(),
            out@ =~= spaced(v@.take(i as int)),
        decreases v.len() - i,
    {
        if i != 0 {
            out.push(' ');
        }
        out.push(v[i]);
        i = i + 1;
    }
    proof {
        assert(v@.take(v.len() as int) =~= v@);
    }
    out
}

/// The decoder.
pub struct UnHex;

impl UnHex {
    /// Removes the markers `0x` and `0X` from `input`, checks that hexadecimal
    /// digits alone are left, and puts a `0` in front where their number is odd.
    pub fn validate_hex(input: &str) -> (r: Result<String, HexToolError>)
        ensures
            outcome(r) == validated(input@),
            r is Ok ==> all_hex(r->Ok_0@) && r->Ok_0@.len() % 2 == 0,
    {
        let chars = to_chars(input);
        let cleaned = strip(&chars);
        if !is_all_hex(&cleaned) {
            let mut message: String = "The highlighted chars can't be converted:\n".to_owned();
            let mut i: usize = 0;
            while i < cleaned.len()
                invariant
                    i <= cleaned.len(),
                    message@ =~= invalid_hex_heading() + highlighted(cleaned@.take(i as int)),
                decreases cleaned.len() - i,
            {
                let c = cleaned[i];
                proof {
                    assert(cleaned@.take(i + 1).drop_last() =~= cleaned@.take(i as int));
                }
                if is_hex(c) {
                    message.push(c);
                } else {
                    message.append("\x1b[31m");
                    message.push(c);
                    message.append("\x1b[0m");
                }
                i = i + 1;
            }
            proof {
                assert(cleaned@.take(cleaned.len() as int) =~= cleaned@);
            }
            message.append(".");
            return Err(HexToolError::new(ErrorKind::InvalidHexCharacters, message));
        }
        let mut out: Vec<char> = Vec::new();
        if cleaned.len() % 2 != 0 {
            out.push('0');
        }
        let mut i: usize = 0;
        while i < cleaned.len()
            invariant
                i <= cleaned.len(),
                out@ =~= pad_even(cleaned@).take(out@.len() as int),
                out@.len() == i + cleaned@.len() % 2,
            decreases cleaned.len() - i,
        {
            out.push(cleaned[i]);
            i = i + 1;
        }
        proof {
            assert(out@ =~= pad_even(cleaned@));
        }
        Ok(from_chars(&out))
    }

    /// Reads `input` as one hexadecimal number and spells it in decimal.
    pub fn un_hex_numeric(input: &str) -> (r: Result<String, HexToolError>)
        ensures
            outcome(r) == number_decoded(input@),
    {
        let chars = to_chars(input);
        if !is_all_hex(&chars) {
            return Err(
                HexToolError::new(
                    ErrorKind::NumericParseError,
                    "Input is not valid for 'unhex' with numeric flag (-n). invalid digit found in string".to_owned(),
                ),
            );
        }
        if chars.len() == 0 {
            return Err(
                HexToolError::new(
                    ErrorKind::NumericParseError,
                    "Input is not valid for 'unhex' with numeric flag (-n). cannot parse integer from empty string".to_owned(),
                ),
            );
        }
        match parse_hex(&chars) {
            Some(n) => {
                let mut out: Vec<char> = Vec::new();
                push_dec(n as u64, &mut out);
                Ok(from_chars(&out))
            },
            None => Err(
                HexToolError::new(
                    ErrorKind::NumericParseError,
                    "Input is not valid for 'unhex' with numeric flag (-n). number too large to fit in target type".to_owned(),
                ),
            ),
        }
    }

    /// Reads `input` two digits at a time and gives, for each pair, the
    /// character whose code is the byte that the pair spells.
    pub fn un_hex_string(input: &str) -> (r: Result<String, HexToolError>)
        ensures
            outcome(r) == pairs_decoded(input@),
    {
        let chars = to_chars(input);
        if chars.len() % 2 != 0 || !is_all_hex(&chars) {
            return Err(
                HexToolError::new(
                    ErrorKind::MalformedBytePair,
                    "Could not parse invalid digit found in string".to_owned(),
                ),
            );
        }
        let mut out: Vec<char> = Vec::new();
        let mut i: usize = 0;
        while i < chars.len()
            invariant
                i <= chars.len(),
                i % 2 == 0,
                chars.len() % 2 == 0,
                all_hex(chars@),
                out@.len() == i / 2,
                out@ =~= chars_of_pairs(chars@).take(i as int / 2),
            decreases chars.len() - i,
        {
            let hi: u8 = value_of(chars[i]);
            let lo: u8 = value_of(chars[i + 1]);
            let byte: u8 = hi * 16 + lo;
            out.push(byte as char);
            i = i + 2;
        }
        proof {
            assert(out@ =~= chars_of_pairs(chars@));
        }
        Ok(from_chars(&out))
    }

    /// Decodes `input`: pair by pair, or as one hexadecimal number where
    /// `numeric` is set; the text is spaced out where `split` is set.
    pub fn decode(input: &str, numeric: bool, split: bool) -> (r: Result<String, HexToolError>)
        ensures
            outcome(r) == decoded(input@, numeric, split),
    {
        let digits = match UnHex::validate_hex(input) {
            Ok(s) => s,
            Err(e) => {
                return Err(e);
            },
        };
        let text = if numeric {
            UnHex::un_hex_numeric(digits.as_str())
        } else {
            UnHex::un_hex_string(digits.as_str())
        };
        match text {
            Ok(s) => {
                if split {
                    let chars = to_chars(s.as_str());
                    Ok(from_chars(&space_out(&chars)))
                } else {
                    Ok(s)
                }
            },
            Err(e) => Err(e),
        }
    }
}

/// Decodes `input` and gives the text to show: the decoded text, or the
/// message of the failure.
pub fn convert(input: &str, numeric: bool, split_byte: bool) -> (out: String)
    ensures
        out@ == shown(decoded(input@, numeric, split_byte)),
{
    render(UnHex::decode(input, numeric, split_byte))
}

} // verus!
