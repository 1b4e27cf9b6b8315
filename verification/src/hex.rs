//! The encoder: text to hexadecimal digits.

use vstd::prelude::*;
use vstd::utf8::encode_utf8;
use crate::digits::{all_dec, char_of, dec_value, digit_char, hex_digits, is_all_dec, parse_dec, push_hex};
use crate::error::{
    invalid_numeric_message, numeric_empty_message, numeric_overflow_message, outcome, render,
    shown, ErrorKind, Failure, HexToolError,
};
use crate::text::{from_chars, to_chars};

verus! {

/// Two lower-case hexadecimal digits for each byte, in the order of the bytes.
pub open spec fn hex_of_bytes(bytes: Seq<u8>) -> Seq<char> {
    Seq::new(
        2 * bytes.len(),
        |i: int|
            if i % 2 == 0 {
                digit_char(bytes[i / 2] as int / 16)
            } else {
                digit_char(bytes[i / 2] as int % 16)
            },
    )
}

/// The length of `split_pairs` of a sequence of length `n`.
pub open spec fn split_pairs_len(n: nat) -> nat {
    if n == 0 {
        0
    } else {
        (n + (n - 1) / 2) as nat
    }
}

/// The characters of `s` in groups of two, the groups parted by one space.
/// A last group may hold a single character.
pub open spec fn split_pairs(s: Seq<char>) -> Seq<char> {
    Seq::new(
        split_pairs_len(s.len()),
        |j: int|
            if j % 3 == 2 {
                ' '
            } else {
                s[j / 3 * 2 + j % 3]
            },
    )
}

/// The hexadecimal digits for `input`, before any grouping.
pub open spec fn hex_stream(input: Seq<char>, numeric: bool) -> Result<Seq<char>, Failure> {
    if !numeric {
        Ok(hex_of_bytes(encode_utf8(input)))
    } else if !all_dec(input) {
        Err(Failure { kind: ErrorKind::InvalidNumericInput, message: invalid_numeric_message() })
    } else if input.len() == 0 {
        Err(Failure { kind: ErrorKind::NumericOverflow, message: numeric_empty_message() })
    } else if dec_value(input) > i64::MAX {
        Err(Failure { kind: ErrorKind::NumericOverflow, message: numeric_overflow_message() })
    } else {
        Ok(hex_digits(dec_value(input)))
    }
}

/// What encoding `input` gives: the digits of `hex_stream`, grouped once where
/// `split` is set.
pub open spec fn encoded(input: Seq<char>, numeric: bool, split: bool) -> Result<
    Seq<char>,
    Failure,
> {
    match hex_stream(input, numeric) {
        Ok(digits) => Ok(
            if split {
                split_pairs(digits)
            } else {
                digits
            },
        ),
        Err(e) => Err(e),
    }
}

/// Groups the characters of `v` in pairs parted by spaces.
pub fn split_in_pairs(v: &Vec<char>) -> (out: Vec<char>)
    ensures
        out@ == split_pairs(v@),
{
    let mut out: Vec<char> = Vec::new();
    let mut i: usize = 0;
    while i < v.len()
        invariant
            i <= v.len(),
            out@ =~= split_pairs(v@.take(i as int)),
        decreases v.len() - i,
    {
        if i % 2 == 0 && i != 0 {
            out.push(' ');
        }
        out.push(v[i]);
        i = i + 1;
    }
    proof {
        assert(v@.take(v.len() as int) =~= v@);
    }
    out
}

/// The encoder.
pub struct Hex;

impl Hex {
    /// Encodes each byte of `input` as two lower-case hexadecimal digits.
    pub fn hex_string(input: &str) -> (r: Result<String, HexToolError>)
        ensures
            outcome(r) == hex_stream(input@, false),
    {
        let bytes = input.as_bytes();
        let mut out: Vec<char> = Vec::new();
        let mut i: usize = 0;
        while i < bytes.len()
            invariant
                i <= bytes.len(),
                bytes@ == encode_utf8(input@),
                out@ =~= hex_of_bytes(bytes@.take(i as int)),
            decreases bytes.len() - i,
        {
            let b: u8 = bytes[i];
            out.push(char_of(b / 16));
            out.push(char_of(b % 16));
            i = i + 1;
        }
        proof {
            assert(bytes@.take(bytes.len() as int) =~= bytes@);
        }
        Ok(from_chars(&out))
    }

    /// Reads `input` as a decimal number and spells it in hexadecimal, with
    /// as few digits as it takes. A character that is no decimal digit is an
    /// `InvalidNumericInput`; digits that spell no number of 64 signed bits,
    /// because there are none or because the number is too large, are a
    /// `NumericOverflow`.
    pub fn hex_numeric(input: &str) -> (r: Result<String, HexToolError>)
        ensures
            outcome(r) == hex_stream(input@, true),
    {
        let chars = to_chars(input);
        if !is_all_dec(&chars) {
            return Err(
                HexToolError::new(
                    ErrorKind::InvalidNumericInput,
                    "Input is not valid for 'hex' with numeric flag (-n).".to_owned(),
                ),
            );
        }
        if chars.len() == 0 {
            return Err(
                HexToolError::new(
                    ErrorKind::NumericOverflow,
                    "Input is not valid for 'hex' with numeric flag (-n). cannot parse integer from empty string".to_owned(),
                ),
            );
        }
        match parse_dec(&chars) {
            Some(n) => {
                let mut out: Vec<char> = Vec::new();
                push_hex(n as u64, &mut out);
                Ok(from_chars(&out))
            },
            None => Err(
                HexToolError::new(
                    ErrorKind::NumericOverflow,
                    "Input is not valid for 'hex' with numeric flag (-n). number too large to fit in target type".to_owned(),
                ),
            ),
        }
    }

    /// Encodes `input`: byte by byte, or as one decimal number where `numeric`
    /// is set; the digits are grouped in pairs where `split` is set.
    pub fn encode(input: &str, numeric: bool, split: bool) -> (r: Result<String, HexToolError>)
        ensures
            outcome(r) == encoded(input@, numeric, split),
    {
        let digits = if numeric {
            Hex::hex_numeric(input)
        } else {
            Hex::hex_string(input)
        };
        match digits {
            Ok(s) => {
                if split {
                    let chars = to_chars(s.as_str());
                    Ok(from_chars(&split_in_pairs(&chars)))
                } else {
                    Ok(s)
                }
            },
            Err(e) => Err(e),
        }
    }
}

/// Encodes `input` and gives the text to show: the digits, or the message of
/// the failure.
pub fn convert(input: &str, numeric: bool, split_byte: bool) -> (out: String)
    ensures
        out@ == shown(encoded(input@, numeric, split_byte)),
{
    render(Hex::encode(input, numeric, split_byte))
}

} // verus!
