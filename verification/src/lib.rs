//! Conversion of text to its hexadecimal representation and back.
//!
//! `Hex` turns text into hexadecimal digits and `UnHex` turns such digits back
//! into text; `Convert` is the interface that both offer.

pub mod convert;
pub mod digits;
pub mod error;
pub mod hex;
pub mod laws;
pub mod text;
pub mod unhex;

pub use convert::{Convert, HexTool};
pub use error::{ErrorKind, HexToolError};
pub use hex::Hex;
pub use unhex::UnHex;
