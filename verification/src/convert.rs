//! One interface for both directions of conversion.

use vstd::prelude::*;
use crate::error::{render, shown};
use crate::hex::{encoded, Hex};
use crate::unhex::{decoded, UnHex};

verus! {

/// A conversion from text to text that always has something to show.
pub trait Convert {
    /// What `convert` shows for the characters `input`.
    spec fn converted(input: Seq<char>, numeric: bool, split: bool) -> Seq<char>;

    /// Converts `input`. With `numeric` the input is taken as one number, not
    /// as a run of bytes; with `split` the output is grouped. A failure gives
    /// its message in place of the output.
    fn convert(input: &str, numeric: bool, split: bool) -> (out: String)
        ensures
            out@ == Self::converted(input@, numeric, split),
    ;
}

impl Convert for Hex {
    open spec fn converted(input: Seq<char>, numeric: bool, split: bool) -> Seq<char> {
        shown(encoded(input, numeric, split))
    }

    fn convert(input: &str, numeric: bool, split_byte: bool) -> (out: String) {
        render(Hex::encode(input, numeric, split_byte))
    }
}

impl Convert for UnHex {
    open spec fn converted(input: Seq<char>, numeric: bool, split: bool) -> Seq<char> {
        shown(decoded(input, numeric, split))
    }

    fn convert(input: &str, numeric: bool, split_byte: bool) -> (out: String) {
        render(UnHex::decode(input, numeric, split_byte))
    }
}

/// The direction of a conversion.
#[derive(Clone, Copy, Debug, PartialEq, Eq, Structural)]
pub enum HexTool {
    /// Text to hexadecimal digits.
    Hex,
    /// Hexadecimal digits to text.
    UnHex,
}

impl HexTool {
    /// What `process` shows for the characters `input`.
    pub open spec fn processed(self, input: Seq<char>, numeric: bool, split: bool) -> Seq<char> {
        match self {
            HexTool::Hex => shown(encoded(input, numeric, split)),
            HexTool::UnHex => shown(decoded(input, numeric, split)),
        }
    }

    /// Converts `input` in this direction.
    pub fn process(&self, input: &str, numeric: bool, split: bool) -> (out: String)
        ensures
            out@ == self.processed(input@, numeric, split),
    {
        match self {
            HexTool::Hex => Hex::convert(input, numeric, split),
            HexTool::UnHex => UnHex::convert(input, numeric, split),
        }
    }
}

} // verus!
