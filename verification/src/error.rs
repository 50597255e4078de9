//! The ways in which building or decoding a chunk can fail.

use crate::text::{decimal, push_decimal};
use vstd::prelude::*;
use vstd::string::StringExecFns;

verus! {

/// Every failure the codec reports. Nothing is retried or swallowed: each is
/// handed to the immediate caller.
#[derive(Debug, Clone, Copy, PartialEq, Eq, Structural)]
pub enum CodecError {
    /// A textual type code that is not exactly four bytes long; holds its length.
    WrongLength(usize),
    /// Type code bytes that are not all ASCII letters, or whose reserved bit is set.
    InvalidTypeCode,
    /// Fewer bytes than a field of the record needs.
    TruncatedInput,
    /// The declared payload length and the number of bytes consumed for it.
    LengthMismatch(usize, usize),
    /// The checksum found on the wire and the one computed from the content.
    ChecksumMismatch(u32, u32),
    /// A payload that is not valid UTF-8 was asked for as text.
    InvalidText,
}

impl CodecError {
    /// The text that describes the error to a reader.
    pub open spec fn message_text(self) -> Seq<char> {
        match self {
            CodecError::WrongLength(got) => "Expected 4 bytes but got "@ + decimal(got as nat)
                + " instead."@,
            CodecError::InvalidTypeCode => "Bytes are invalid as a chunk type!"@,
            CodecError::TruncatedInput => "failed to fill whole buffer"@,
            CodecError::LengthMismatch(expected, got) => "Length Error! Expected "@ + decimal(
                expected as nat,
            ) + " bytes, Got "@ + decimal(got as nat) + " bytes"@,
            CodecError::ChecksumMismatch(expected, got) => "CRC Mismatch Error! Expected "@
                + decimal(expected as nat) + ", Got "@ + decimal(got as nat),
            CodecError::InvalidText => "invalid utf-8 sequence"@,
        }
    }

    /// Describes the error to a reader.
    pub fn message(&self) -> (text: String)
        ensures
            text@ == self.message_text(),
    {
        match *self {
            CodecError::WrongLength(got) => {
                let mut text = String::from_str("Expected 4 bytes but got ");
                push_decimal(&mut text, got as u64);
                text.append(" instead.");
                text
            },
            CodecError::InvalidTypeCode => String::from_str("Bytes are invalid as a chunk type!"),
            CodecError::TruncatedInput => String::from_str("failed to fill whole buffer"),
            CodecError::LengthMismatch(expected, got) => {
                let mut text = String::from_str("Length Error! Expected ");
                push_decimal(&mut text, expected as u64);
                text.append(" bytes, Got ");
                push_decimal(&mut text, got as u64);
                text.append(" bytes");
                text
            },
            CodecError::ChecksumMismatch(expected, got) => {
                let mut text = String::from_str("CRC Mismatch Error! Expected ");
                push_decimal(&mut text, expected as u64);
                text.append(", Got ");
                push_decimal(&mut text, got as u64);
                text
            },
            CodecError::InvalidText => String::from_str("invalid utf-8 sequence"),
        }
    }
}

} // verus!
