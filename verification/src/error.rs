//! The ways in which a conversion fails, and the text shown for each.

use vstd::prelude::*;

verus! {

/// Why a conversion failed.
#[derive(Clone, Copy, Debug, PartialEq, Eq, Structural)]
pub enum ErrorKind {
    /// Numeric encoding was asked for text that holds a character that is no
    /// decimal digit.
    InvalidNumericInput,
    /// The decimal digits spell no number of 64 signed bits: there are none, or
    /// the number is too large.
    NumericOverflow,
    /// The text to decode holds characters that are no hexadecimal digits.
    InvalidHexCharacters,
    /// A pair of characters does not spell a byte.
    MalformedBytePair,
    /// The hexadecimal number is empty, malformed or too large.
    NumericParseError,
}

/// What a `HexToolError` stands for: its kind and the characters of its message.
pub ghost struct Failure {
    pub kind: ErrorKind,
    pub message: Seq<char>,
}

/// A failed conversion: its kind, and the message to show for it.
#[derive(Debug)]
pub struct HexToolError {
    pub kind: ErrorKind,
    pub message: String,
}

impl View for HexToolError {
    type V = Failure;

    open spec fn view(&self) -> Failure {
        Failure { kind: self.kind, message: self.message@ }
    }
}

/// What the result of a conversion stands for.
pub open spec fn outcome(r: Result<String, HexToolError>) -> Result<Seq<char>, Failure> {
    match r {
        Ok(s) => Ok(s@),
        Err(e) => Err(e@),
    }
}

/// The text that a conversion shows: its output, or the message of its failure.
pub open spec fn shown(r: Result<Seq<char>, Failure>) -> Seq<char> {
    match r {
        Ok(s) => s,
        Err(e) => e.message,
    }
}

/// Message for numeric encoding of text that holds a character that is no
/// decimal digit.
pub open spec fn invalid_numeric_message() -> Seq<char> {
    "Input is not valid for 'hex' with numeric flag (-n)."@
}

/// Message for numeric encoding of no digits at all.
pub open spec fn numeric_empty_message() -> Seq<char> {
    "Input is not valid for 'hex' with numeric flag (-n). cannot parse integer from empty string"@
}

/// Message for numeric encoding of a number beyond 64 signed bits.
pub open spec fn numeric_overflow_message() -> Seq<char> {
    "Input is not valid for 'hex' with numeric flag (-n). number too large to fit in target type"@
}

/// Message for a pair of characters that does not spell a byte.
pub open spec fn byte_pair_message() -> Seq<char> {
    "Could not parse invalid digit found in string"@
}

/// What opens the message for text that holds characters that are no
/// hexadecimal digits.
pub open spec fn invalid_hex_heading() -> Seq<char> {
    "The highlighted chars can't be converted:\n"@
}

/// Message for numeric decoding of text that holds a character that is no
/// hexadecimal digit.
pub open spec fn parse_digit_message() -> Seq<char> {
    "Input is not valid for 'unhex' with numeric flag (-n). invalid digit found in string"@
}

/// Message for numeric decoding of no digits at all.
pub open spec fn parse_empty_message() -> Seq<char> {
    "Input is not valid for 'unhex' with numeric flag (-n). cannot parse integer from empty string"@
}

/// Message for numeric decoding of a number beyond 64 signed bits.
pub open spec fn parse_overflow_message() -> Seq<char> {
    "Input is not valid for 'unhex' with numeric flag (-n). number too large to fit in target type"@
}

impl HexToolError {
    /// An error of the given kind with the given message.
    pub fn new(kind: ErrorKind, message: String) -> (e: HexToolError)
        ensures
            e@ == (Failure { kind: kind, message: message@ }),
    {
        HexToolError { kind, message }
    }

    /// The kind of this error.
    pub fn kind(&self) -> (k: ErrorKind)
        ensures
            k == self@.kind,
    {
        self.kind
    }

    /// The message of this error.
    pub fn message(&self) -> (m: &str)
        ensures
            m@ == self@.message,
    {
        self.message.as_str()
    }

    /// The message of this error, as an owned string.
    pub fn to_string(&self) -> (m: String)
        ensures
            m@ == self@.message,
    {
        self.message.clone()
    }
}

/// The text to show for the result of a conversion.
pub fn render(r: Result<String, HexToolError>) -> (out: String)
    ensures
        out@ == shown(outcome(r)),
{
    match r {
        Ok(s) => s,
        Err(e) => e.message,
    }
}

} // verus!
