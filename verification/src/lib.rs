//! A codec for length-prefixed, type-tagged, checksum-protected records,
//! after the chunk convention of PNG.
//!
//! - [`chunk_type`]: the four-byte type code and its flags.
//! - [`chunk`]: the chunk, its layout on the wire, encoding and decoding.
//! - [`checksum`]: the CRC-32 that protects a record.
//! - [`endian`]: 32-bit values in network byte order.
//! - [`error`]: the failures the codec reports.
//! - [`text`]: rendering into strings.
//!
//! Every contract is stated over byte and character sequences: a type code
//! is seen as its four bytes, a chunk as its type code and its payload.

pub mod checksum;
pub mod chunk;
pub mod chunk_type;
pub mod endian;
pub mod error;
pub mod text;
