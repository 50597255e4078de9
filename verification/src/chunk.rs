//! The chunk: a type code and a payload, and their layout on the wire.
//!
//! ```text
//! length (4, big-endian) | type code (4) | payload (length) | checksum (4, big-endian)
//! ```
//!
//! The checksum is taken over the type code followed by the payload. Neither
//! the length nor the checksum is stored in a `Chunk`: both are computed from
//! its content whenever they are asked for.

use crate::checksum::{checksum_ieee, crc32_ieee};
use crate::chunk_type::{valid, ChunkType};
use crate::endian::{be_bytes, be_value, from_be_bytes, lemma_value_of_bytes, to_be_bytes};
use crate::error::CodecError;
use crate::text::{bytes_as_chars, push_bytes_as_chars};
use vstd::prelude::*;
use vstd::slice::{slice_subrange, slice_to_vec};
use vstd::std_specs::convert::TryFromSpecImpl;
use vstd::string::StringExecFns;
use vstd::utf8::{decode_utf8, valid_utf8};

verus! {

/// What a chunk holds, as mathematics: the bytes of its type code and the
/// bytes of its payload.
pub struct ChunkView {
    pub chunk_type: Seq<u8>,
    pub data: Seq<u8>,
}

impl ChunkView {
    /// The bytes the checksum is taken over: the type code, then the payload.
    pub open spec fn protected(self) -> Seq<u8> {
        self.chunk_type + self.data
    }

    /// The checksum of the chunk.
    pub open spec fn checksum(self) -> u32 {
        crc32_ieee(self.protected())
    }

    /// Whether the payload's length can be written in the 32-bit length field.
    pub open spec fn fits(self) -> bool {
        self.data.len() <= u32::MAX
    }

    /// The record with `checksum` in its last field.
    pub open spec fn frame(self, checksum: u32) -> Seq<u8> {
        be_bytes(self.data.len() as u32) + self.chunk_type + self.data + be_bytes(checksum)
    }

    /// The record as it goes on the wire, with the chunk's own checksum.
    pub open spec fn wire(self) -> Seq<u8> {
        self.frame(self.checksum())
    }

    /// The payload read as UTF-8 text, or `InvalidText` when it is not
    /// well-formed UTF-8.
    pub open spec fn text(self) -> Result<Seq<char>, CodecError> {
        if valid_utf8(self.data) {
            Ok(decode_utf8(self.data))
        } else {
            Err(CodecError::InvalidText)
        }
    }

    /// The chunk described for a reader: the type code as characters, and
    /// the payload as text, or `[data]` in place of a payload that is none.
    pub open spec fn rendered(self) -> Seq<char> {
        "Chunk Type : "@ + bytes_as_chars(self.chunk_type) + "\nData : "@ + match self.text() {
            Ok(text) => text,
            Err(_) => "[data]"@,
        }
    }
}

/// What a byte sequence holds when it is read as a record, before its
/// checksum is judged: the chunk and the value of the checksum field.
///
/// The fields are taken in their order on the wire, and the first that
/// cannot be taken decides the error: the length and the type code need eight
/// bytes, the type code must be valid, and the payload and the checksum need
/// as many bytes as the length field declares and four more. What follows
/// the checksum field is not looked at.
pub open spec fn unframe(bytes: Seq<u8>) -> Result<(ChunkView, u32), CodecError> {
    if bytes.len() < 8 {
        Err(CodecError::TruncatedInput)
    } else if !valid(bytes.subrange(4, 8)) {
        Err(CodecError::InvalidTypeCode)
    } else {
        let declared = be_value(bytes.subrange(0, 4)) as int;
        if bytes.len() < 12 + declared {
            Err(CodecError::TruncatedInput)
        } else {
            Ok(
                (
                    ChunkView {
                        chunk_type: bytes.subrange(4, 8),
                        data: bytes.subrange(8, 8 + declared),
                    },
                    be_value(bytes.subrange(8 + declared, 12 + declared)),
                ),
            )
        }
    }
}

/// The judgement on a chunk read from the wire: it stands when the checksum
/// found with it is the one computed from it.
pub open spec fn check_crc(chunk: ChunkView, provided: u32, computed: u32) -> Result<
    ChunkView,
    CodecError,
> {
    if provided == computed {
        Ok(chunk)
    } else {
        Err(CodecError::ChecksumMismatch(provided, computed))
    }
}

/// What a byte sequence decodes to: the chunk it frames, if the checksum
/// field holds the chunk's checksum.
pub open spec fn parse(bytes: Seq<u8>) -> Result<ChunkView, CodecError> {
    match unframe(bytes) {
        Ok((chunk, provided)) => check_crc(chunk, provided, chunk.checksum()),
        Err(e) => Err(e),
    }
}

/// The outcome of decoding, with the chunk seen as its content.
pub open spec fn chunk_of(result: Result<Chunk, CodecError>) -> Result<ChunkView, CodecError> {
    match result {
        Ok(chunk) => Ok(chunk@),
        Err(e) => Err(e),
    }
}

/// The outcome of reading the payload as text, with the string seen as its
/// characters.
pub open spec fn text_of(result: Result<String, CodecError>) -> Result<Seq<char>, CodecError> {
    match result {
        Ok(text) => Ok(text@),
        Err(e) => Err(e),
    }
}

/// The outcome of reading a record, with the chunk seen as its content.
pub open spec fn frame_of(result: Result<(Chunk, u32), CodecError>) -> Result<
    (ChunkView, u32),
    CodecError,
> {
    match result {
        Ok((chunk, provided)) => Ok((chunk@, provided)),
        Err(e) => Err(e),
    }
}

/// The `count` bytes of `bytes` that start at `at`, or `TruncatedInput` when
/// fewer are left.
fn read_exact(bytes: &[u8], at: usize, count: usize) -> (result: Result<&[u8], CodecError>)
    requires
        at <= bytes.len(),
    ensures
        match result {
            Ok(field) => at + count <= bytes.len() && field@ == bytes@.subrange(
                at as int,
                at + count,
            ),
            Err(e) => at + count > bytes.len() && e == CodecError::TruncatedInput,
        },
{
    if bytes.len() - at < count {
        Err(CodecError::TruncatedInput)
    } else {
        Ok(slice_subrange(bytes, at, at + count))
    }
}

/// A type code and the payload it tags.
#[derive(Debug)]
pub struct Chunk {
    chunk_type: ChunkType,
    chunk_data: Vec<u8>,
}

impl View for Chunk {
    type V = ChunkView;

    closed spec fn view(&self) -> ChunkView {
        ChunkView { chunk_type: self.chunk_type@, data: self.chunk_data@ }
    }
}

impl Chunk {
    /// The size of the fixed part of a record: length, type code and checksum.
    pub const METADATA_BYTES: usize = 12;

    /// The type code of a chunk has four bytes.
    pub proof fn lemma_type_has_four_bytes(self)
        ensures
            self@.chunk_type.len() == 4,
    {
        self.chunk_type.lemma_four_bytes();
    }

    /// A chunk of the given type and payload. Nothing is validated.
    pub fn new(chunk_type: ChunkType, chunk_data: Vec<u8>) -> (chunk: Chunk)
        ensures
            chunk@ == (ChunkView { chunk_type: chunk_type@, data: chunk_data@ }),
    {
        Chunk { chunk_type, chunk_data }
    }

    /// The number of bytes in the payload.
    pub fn length(&self) -> (length: u32)
        requires
            self@.fits(),
        ensures
            length == self@.data.len(),
    {
        self.chunk_data.len() as u32
    }

    /// The type code.
    pub fn chunk_type(&self) -> (chunk_type: &ChunkType)
        ensures
            chunk_type@ == self@.chunk_type,
    {
        &self.chunk_type
    }

    /// The payload.
    pub fn data(&self) -> (data: &[u8])
        ensures
            data@ == self@.data,
    {
        self.chunk_data.as_slice()
    }

    /// The checksum of the type code followed by the payload, computed anew
    /// on every call.
    pub fn crc(&self) -> (sum: u32)
        ensures
            sum == self@.checksum(),
    {
        let mut bytez: Vec<u8> = Vec::new();
        bytez.extend_from_slice(self.chunk_type.bytes().as_slice());
        bytez.extend_from_slice(self.chunk_data.as_slice());
        assert(bytez@ =~= self@.protected());
        checksum_ieee(bytez.as_slice())
    }

    /// The payload as text, if it is well-formed UTF-8.
    pub fn data_as_string(&self) -> (result: Result<String, CodecError>)
        ensures
            text_of(result) == self@.text(),
    {
        match String::from_utf8(self.chunk_data.clone()) {
            Ok(text) => Ok(text),
            Err(_) => Err(CodecError::InvalidText),
        }
    }

    /// Describes the chunk to a reader.
    pub fn to_string(&self) -> (text: String)
        ensures
            text@ == self@.rendered(),
    {
        let mut text = String::from_str("Chunk Type : ");
        push_bytes_as_chars(&mut text, self.chunk_type.bytes().as_slice());
        text.append("\nData : ");
        match self.data_as_string() {
            Ok(data) => text.append(data.as_str()),
            Err(_) => text.append("[data]"),
        }
        text
    }

    /// The record with the given value in its checksum field. It is longer
    /// than the payload by the fixed part.
    pub fn frame(&self, checksum: u32) -> (bytes: Vec<u8>)
        requires
            self@.fits(),
        ensures
            bytes@ == self@.frame(checksum),
            bytes@.len() == Self::METADATA_BYTES + self@.data.len(),
    {
        let mut bytes: Vec<u8> = Vec::new();
        bytes.extend_from_slice(to_be_bytes(self.length()).as_slice());
        bytes.extend_from_slice(self.chunk_type.bytes().as_slice());
        bytes.extend_from_slice(self.data());
        bytes.extend_from_slice(to_be_bytes(checksum).as_slice());
        assert(bytes@ =~= self@.frame(checksum));
        bytes
    }

    /// Reads a record without judging its checksum: the chunk, and the value
    /// of the checksum field.
    ///
    /// The number of bytes taken for the payload is held against the declared
    /// length once more before the chunk is built. The two cannot differ, so
    /// `LengthMismatch` is never returned.
    pub fn unframe(bytes: &[u8]) -> (result: Result<(Chunk, u32), CodecError>)
        ensures
            frame_of(result) == unframe(bytes@),
    {
        let field = match read_exact(bytes, 0, 4) {
            Ok(field) => field,
            Err(e) => return Err(e),
        };
        let length = from_be_bytes([field[0], field[1], field[2], field[3]]) as usize;
        assert(field@ =~= bytes@.subrange(0, 4));

        let field = match read_exact(bytes, 4, 4) {
            Ok(field) => field,
            Err(e) => return Err(e),
        };
        let raw = [field[0], field[1], field[2], field[3]];
        assert(raw@ =~= bytes@.subrange(4, 8));
        let chunk_type = match ChunkType::try_from(raw) {
            Ok(chunk_type) => chunk_type,
            Err(e) => return Err(e),
        };

        let payload = match read_exact(bytes, 8, length) {
            Ok(payload) => payload,
            Err(e) => return Err(e),
        };
        let chunk_data = slice_to_vec(payload);
        if chunk_data.len() != length {
            return Err(CodecError::LengthMismatch(length, chunk_data.len()));
        }
        let chunk = Chunk { chunk_type, chunk_data };

        let field = match read_exact(bytes, 8 + length, 4) {
            Ok(field) => field,
            Err(e) => return Err(e),
        };
        let crc_provided = from_be_bytes([field[0], field[1], field[2], field[3]]);
        assert(field@ =~= bytes@.subrange(8 + length, 12 + length));
        Ok((chunk, crc_provided))
    }

    /// Judges a chunk read from the wire by the checksum found with it and
    /// the checksum computed from it.
    pub fn check_crc(self, crc_provided: u32, crc_computed: u32) -> (result: Result<
        Chunk,
        CodecError,
    >)
        ensures
            chunk_of(result) == check_crc(self@, crc_provided, crc_computed),
    {
        if crc_provided != crc_computed {
            return Err(CodecError::ChecksumMismatch(crc_provided, crc_computed));
        }
        Ok(self)
    }

    /// The record as it goes on the wire.
    pub fn as_bytes(&self) -> (bytes: Vec<u8>)
        requires
            self@.fits(),
        ensures
            bytes@ == self@.wire(),
            bytes@.len() == Self::METADATA_BYTES + self@.data.len(),
    {
        self.frame(self.crc())
    }
}

impl TryFrom<&[u8]> for Chunk {
    type Error = CodecError;

    /// Decodes one record from the start of `value`.
    fn try_from(value: &[u8]) -> (result: Result<Chunk, CodecError>)
        ensures
            chunk_of(result) == parse(value@),
    {
        let (chunk, crc_provided) = match Chunk::unframe(value) {
            Ok(read) => read,
            Err(e) => return Err(e),
        };
        let crc_computed = chunk.crc();
        chunk.check_crc(crc_provided, crc_computed)
    }
}

/// The trait's own contract asks for one particular value. A chunk owns a
/// vector, and the content of a vector does not say which vector it is, so
/// that contract is not claimed: `try_from` states its result over the
/// chunk's content instead.
impl TryFromSpecImpl<&[u8]> for Chunk {
    open spec fn obeys_try_from_spec() -> bool {
        false
    }

    open spec fn try_from_spec(value: &[u8]) -> Result<Self, CodecError> {
        match parse(value@) {
            Ok(content) => Ok(choose|chunk: Chunk| chunk@ == content),
            Err(e) => Err(e),
        }
    }
}

/// Byte `b` with bit `bit` turned over.
pub open spec fn flip_bit(b: u8, bit: u8) -> u8 {
    b ^ (1u8 << bit)
}

/// The chunk that `bytes` frames if its payload has `length` bytes.
pub open spec fn framed(bytes: Seq<u8>, length: int) -> ChunkView {
    ChunkView { chunk_type: bytes.subrange(4, 8), data: bytes.subrange(8, 8 + length) }
}

/// Serializing a chunk and decoding the bytes gives the chunk back: the same
/// type code, the same payload, and with them the same checksum. This holds
/// of every chunk whose type code is valid as raw bytes and whose payload's
/// length fits the length field.
pub proof fn lemma_round_trip(chunk: ChunkView)
    requires
        valid(chunk.chunk_type),
        chunk.fits(),
    ensures
        parse(chunk.wire()) == Ok::<ChunkView, CodecError>(chunk),
{
    lemma_unframe_frame(chunk, chunk.checksum());
}

/// Reading a record gives back the chunk and the checksum it was framed
/// with, whatever that checksum is.
pub proof fn lemma_unframe_frame(chunk: ChunkView, checksum: u32)
    requires
        valid(chunk.chunk_type),
        chunk.fits(),
    ensures
        unframe(chunk.frame(checksum)) == Ok::<(ChunkView, u32), CodecError>((chunk, checksum)),
{
    let bytes = chunk.frame(checksum);
    let length = chunk.data.len() as int;
    lemma_value_of_bytes(length as u32);
    lemma_value_of_bytes(checksum);
    assert(bytes.subrange(0, 4) =~= be_bytes(length as u32));
    assert(bytes.subrange(4, 8) =~= chunk.chunk_type);
    assert(bytes.subrange(8, 8 + length) =~= chunk.data);
    assert(bytes.subrange(8 + length, 12 + length) =~= be_bytes(checksum));
}

/// Bytes that follow a record are not looked at: a record decodes to the same
/// chunk whatever comes behind it.
pub proof fn lemma_trailing_bytes_are_ignored(bytes: Seq<u8>, rest: Seq<u8>)
    requires
        unframe(bytes) is Ok,
    ensures
        unframe(bytes + rest) == unframe(bytes),
        parse(bytes + rest) == parse(bytes),
{
    let longer = bytes + rest;
    let declared = be_value(bytes.subrange(0, 4)) as int;
    assert(longer.subrange(0, 4) =~= bytes.subrange(0, 4));
    assert(longer.subrange(4, 8) =~= bytes.subrange(4, 8));
    assert(longer.subrange(8, 8 + declared) =~= bytes.subrange(8, 8 + declared));
    assert(longer.subrange(8 + declared, 12 + declared) =~= bytes.subrange(
        8 + declared,
        12 + declared,
    ));
}

/// The length is judged before the checksum. A record whose length field
/// declares more payload than the bytes behind the type code hold is
/// reported as truncated when it is read, before any checksum is computed
/// or compared, and so whatever its bytes would sum to. (A type code that is
/// not valid is reported first, as `InvalidTypeCode`.)
pub proof fn lemma_length_is_judged_before_checksum(bytes: Seq<u8>)
    requires
        bytes.len() >= 4,
        be_value(bytes.subrange(0, 4)) > bytes.len() - 8,
        bytes.len() >= 8 ==> valid(bytes.subrange(4, 8)),
    ensures
        unframe(bytes) == Err::<(ChunkView, u32), CodecError>(CodecError::TruncatedInput),
        parse(bytes) == Err::<ChunkView, CodecError>(CodecError::TruncatedInput),
{
}

/// The checksum is judged last. No input is reported for its checksum
/// unless all four fields could be read from it, and none is ever reported
/// for a payload of another length than declared.
pub proof fn lemma_checksum_is_judged_last(bytes: Seq<u8>)
    ensures
        parse(bytes) matches Err(CodecError::ChecksumMismatch(provided, computed)) ==> {
            &&& unframe(bytes) matches Ok((chunk, found))
            &&& provided == found
            &&& computed == chunk.checksum()
            &&& provided != computed
            &&& bytes.len() >= 12 + chunk.data.len()
        },
        !(parse(bytes) matches Err(CodecError::LengthMismatch(_, _))),
{
}

/// Turning over one bit of the type code or of the payload of a record, and
/// leaving its length and checksum fields as they are, gives a record that
/// frames another chunk beside the old checksum. Where the type code is
/// still valid, decoding that record judges the other chunk by the old
/// checksum: it fails with `ChecksumMismatch`, unless the two chunks have the
/// same checksum.
pub proof fn lemma_bit_flip_is_judged_by_old_checksum(chunk: ChunkView, at: int, bit: u8)
    requires
        valid(chunk.chunk_type),
        chunk.fits(),
        4 <= at < 8 + chunk.data.len(),
        bit < 8,
        valid(
            framed(
                chunk.wire().update(at, flip_bit(chunk.wire()[at], bit)),
                chunk.data.len() as int,
            ).chunk_type,
        ),
    ensures
        ({
            let wire = chunk.wire();
            let flipped = wire.update(at, flip_bit(wire[at], bit));
            let other = framed(flipped, chunk.data.len() as int);
            &&& other != chunk
            &&& parse(flipped) == check_crc(other, chunk.checksum(), other.checksum())
            &&& other.checksum() != chunk.checksum() ==> parse(flipped) == Err::<
                ChunkView,
                CodecError,
            >(CodecError::ChecksumMismatch(chunk.checksum(), other.checksum()))
        }),
{
    let wire = chunk.wire();
    let length = chunk.data.len() as int;
    let flipped = wire.update(at, flip_bit(wire[at], bit));
    let other = framed(flipped, length);
    lemma_unframe_frame(chunk, chunk.checksum());
    lemma_value_of_bytes(length as u32);
    lemma_value_of_bytes(chunk.checksum());
    assert(wire.subrange(0, 4) =~= be_bytes(length as u32));
    assert(flipped.subrange(0, 4) =~= wire.subrange(0, 4));
    assert(wire.subrange(8 + length, 12 + length) =~= be_bytes(chunk.checksum()));
    assert(flipped.subrange(8 + length, 12 + length) =~= wire.subrange(8 + length, 12 + length));
    assert(wire.subrange(4, 8) =~= chunk.chunk_type);
    assert(wire.subrange(8, 8 + length) =~= chunk.data);
    let byte = wire[at];
    assert(flip_bit(byte, bit) != byte) by (bit_vector)
        requires
            bit < 8,
    ;
    if at < 8 {
        assert(other.chunk_type[at - 4] == flipped[at]);
        assert(chunk.chunk_type[at - 4] == wire[at]);
    } else {
        assert(other.data[at - 8] == flipped[at]);
        assert(chunk.data[at - 8] == wire[at]);
    }
}

} // verus!
