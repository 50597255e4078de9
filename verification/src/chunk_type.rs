//! The four-byte type code of a chunk and the flags its bytes carry.
//!
//! Each of the four bytes lends its bit 5 (value `0x20`, the bit that tells
//! an ASCII lower-case letter from the upper-case one) to one flag:
//!
//! | byte | bit 5 clear   | bit 5 set    |
//! |------|---------------|--------------|
//! | 0    | critical      | ancillary    |
//! | 1    | public        | private      |
//! | 2    | reserved, ok  | invalid      |
//! | 3    | unsafe to copy| safe to copy |
//!
//! The model of a type code is the sequence of its four bytes; every
//! contract below speaks of that sequence.

use crate::error::CodecError;
use crate::text::{bytes_as_chars, push_bytes_as_chars};
use std::str::FromStr;
use vstd::prelude::*;
use vstd::std_specs::cmp::PartialEqSpecImpl;
use vstd::std_specs::convert::TryFromSpecImpl;
use vstd::string::StringSliceAdditionalSpecFns;

verus! {

/// The index of the bit that carries a flag.
pub const FLAG_BIT: u8 = 5;

/// Whether bit `n` of `x` is set, counting from the least significant bit.
/// A byte has no bit at index 8 or above: such a bit is never set.
pub open spec fn bit_is_set(x: u8, n: u8) -> bool {
    n < 8 && (x >> n) & 1 == 1
}

/// Whether `b` is an ASCII letter, `A` to `Z` or `a` to `z`.
pub open spec fn ascii_alphabetic(b: u8) -> bool {
    (0x41 <= b <= 0x5a) || (0x61 <= b <= 0x7a)
}

/// A code is critical when bit 5 of its first byte is clear.
pub open spec fn critical(code: Seq<u8>) -> bool {
    !bit_is_set(code[0], FLAG_BIT)
}

/// A code is public when bit 5 of its second byte is clear.
pub open spec fn public(code: Seq<u8>) -> bool {
    !bit_is_set(code[1], FLAG_BIT)
}

/// The reserved bit, bit 5 of the third byte, is valid when it is clear.
pub open spec fn reserved_bit_valid(code: Seq<u8>) -> bool {
    !bit_is_set(code[2], FLAG_BIT)
}

/// A code is safe to copy when bit 5 of its fourth byte is set.
pub open spec fn safe_to_copy(code: Seq<u8>) -> bool {
    bit_is_set(code[3], FLAG_BIT)
}

/// Four bytes, each of them an ASCII letter.
pub open spec fn valid_characters(code: Seq<u8>) -> bool {
    code.len() == 4 && forall|i: int| 0 <= i < 4 ==> ascii_alphabetic(#[trigger] code[i])
}

/// What raw bytes must meet to be taken as a type code: four ASCII letters
/// with the reserved bit clear.
pub open spec fn valid(code: Seq<u8>) -> bool {
    valid_characters(code) && reserved_bit_valid(code)
}

/// What four raw bytes are taken for: themselves when they are valid,
/// `InvalidTypeCode` otherwise.
pub open spec fn decode_raw(raw: Seq<u8>) -> Result<Seq<u8>, CodecError> {
    if valid(raw) {
        Ok(raw)
    } else {
        Err(CodecError::InvalidTypeCode)
    }
}

/// What the UTF-8 bytes of a text are taken for. The length is judged first,
/// then the letters; the reserved bit is not looked at.
pub open spec fn decode_text(utf8: Seq<u8>) -> Result<Seq<u8>, CodecError> {
    if utf8.len() != 4 {
        Err(CodecError::WrongLength(utf8.len() as usize))
    } else if valid_characters(utf8) {
        Ok(utf8)
    } else {
        Err(CodecError::InvalidTypeCode)
    }
}

/// The outcome of a construction, with the type code seen as its bytes.
pub open spec fn code_of(result: Result<ChunkType, CodecError>) -> Result<Seq<u8>, CodecError> {
    match result {
        Ok(chunk_type) => Ok(chunk_type@),
        Err(e) => Err(e),
    }
}

/// Tests bit `n` of `x`; an index past the byte's width is never set.
pub fn is_bit_set(x: u8, n: u8) -> (set: bool)
    ensures
        set == bit_is_set(x, n),
{
    if n >= 8 || (x >> n) & 1 == 0 {
        return false;
    }
    assert(n < 8 && (x >> n) & 1 != 0 ==> (x >> n) & 1 == 1) by (bit_vector);
    true
}

/// Tests whether `b` is an ASCII letter.
pub fn is_ascii_alphabetic(b: u8) -> (letter: bool)
    ensures
        letter == ascii_alphabetic(b),
{
    (0x41 <= b && b <= 0x5a) || (0x61 <= b && b <= 0x7a)
}

/// Tests whether each of the four bytes is an ASCII letter.
fn all_ascii_alphabetic(raw: &[u8; 4]) -> (ok: bool)
    ensures
        ok == valid_characters(raw@),
{
    let mut i: usize = 0;
    while i < 4
        invariant
            i <= 4,
            forall|j: int| 0 <= j < i ==> ascii_alphabetic(#[trigger] raw@[j]),
        decreases 4 - i,
    {
        if !is_ascii_alphabetic(raw[i]) {
            return false;
        }
        i += 1;
    }
    true
}

/// A four-byte type code. Its bytes are ASCII letters: both ways of making
/// one see to that, and nothing changes a type code once it is made. Two
/// type codes are equal when their bytes are.
#[derive(Eq, Debug)]
pub struct ChunkType {
    bytez: [u8; 4],
}

impl View for ChunkType {
    type V = Seq<u8>;

    closed spec fn view(&self) -> Seq<u8> {
        self.bytez@
    }
}

impl PartialEq for ChunkType {
    fn eq(&self, other: &Self) -> (equal: bool) {
        let equal = self.bytez[0] == other.bytez[0] && self.bytez[1] == other.bytez[1]
            && self.bytez[2] == other.bytez[2] && self.bytez[3] == other.bytez[3];
        proof {
            if equal {
                assert(self.bytez@ =~= other.bytez@);
            }
        }
        equal
    }
}

impl PartialEqSpecImpl for ChunkType {
    open spec fn obeys_eq_spec() -> bool {
        true
    }

    open spec fn eq_spec(&self, other: &Self) -> bool {
        self@ == other@
    }
}

impl ChunkType {
    /// What holds of every type code that a program can get hold of.
    #[verifier::type_invariant]
    spec fn letters_only(self) -> bool {
        valid_characters(self.bytez@)
    }

    /// A type code always has four bytes.
    pub proof fn lemma_four_bytes(self)
        ensures
            self@.len() == 4,
    {
    }

    /// The raw code: four ASCII letters.
    pub fn bytes(&self) -> (raw: [u8; 4])
        ensures
            raw@ == self@,
            valid_characters(raw@),
    {
        proof {
            use_type_invariant(self);
        }
        self.bytez
    }

    /// Whether the chunk is critical rather than ancillary.
    pub fn is_critical(&self) -> (flag: bool)
        ensures
            flag == critical(self@),
    {
        !is_bit_set(self.bytez[0], FLAG_BIT)
    }

    /// Whether the chunk is public rather than private.
    pub fn is_public(&self) -> (flag: bool)
        ensures
            flag == public(self@),
    {
        !is_bit_set(self.bytez[1], FLAG_BIT)
    }

    /// Whether the reserved bit is clear, as it must be.
    pub fn is_reserved_bit_valid(&self) -> (flag: bool)
        ensures
            flag == reserved_bit_valid(self@),
    {
        !is_bit_set(self.bytez[2], FLAG_BIT)
    }

    /// Whether the chunk may be copied by a program that does not know it.
    pub fn is_safe_to_copy(&self) -> (flag: bool)
        ensures
            flag == safe_to_copy(self@),
    {
        is_bit_set(self.bytez[3], FLAG_BIT)
    }

    /// Whether the code meets what raw bytes must meet: letters only, and the
    /// reserved bit clear.
    pub fn is_valid(&self) -> (ok: bool)
        ensures
            ok == valid(self@),
    {
        self.is_valid_characters() && self.is_reserved_bit_valid()
    }

    /// Whether every byte is an ASCII letter. In a type code every byte is.
    pub fn is_valid_characters(&self) -> (ok: bool)
        ensures
            ok == valid_characters(self@),
            ok,
    {
        proof {
            use_type_invariant(self);
        }
        all_ascii_alphabetic(&self.bytez)
    }

    /// The four bytes read as characters, byte `b` as the character with
    /// code point `b`.
    pub fn to_string(&self) -> (text: String)
        ensures
            text@ == bytes_as_chars(self@),
    {
        let mut text = String::new();
        push_bytes_as_chars(&mut text, self.bytez.as_slice());
        text
    }
}

impl TryFrom<[u8; 4]> for ChunkType {
    type Error = CodecError;

    /// Takes four raw bytes as a type code if they are valid.
    fn try_from(value: [u8; 4]) -> (result: Result<Self, CodecError>)
        ensures
            code_of(result) == decode_raw(value@),
    {
        if all_ascii_alphabetic(&value) && !is_bit_set(value[2], FLAG_BIT) {
            Ok(ChunkType { bytez: value })
        } else {
            Err(CodecError::InvalidTypeCode)
        }
    }
}

/// What `try_from` returns, as a value: the trait's own contract holds of it.
impl TryFromSpecImpl<[u8; 4]> for ChunkType {
    open spec fn obeys_try_from_spec() -> bool {
        true
    }

    closed spec fn try_from_spec(value: [u8; 4]) -> Result<Self, CodecError> {
        if valid(value@) {
            Ok(ChunkType { bytez: value })
        } else {
            Err(CodecError::InvalidTypeCode)
        }
    }
}

impl FromStr for ChunkType {
    type Err = CodecError;

    /// Takes a text of four ASCII letters as a type code. Unlike raw bytes,
    /// a text is not held to the reserved bit.
    fn from_str(s: &str) -> (result: Result<Self, CodecError>)
        ensures
            code_of(result) == decode_text(s.spec_bytes()),
    {
        let bytez = s.as_bytes();
        if bytez.len() != 4 {
            return Err(CodecError::WrongLength(bytez.len()));
        }
        let bytez: [u8; 4] = [bytez[0], bytez[1], bytez[2], bytez[3]];
        assert(bytez@ =~= s.spec_bytes());
        if all_ascii_alphabetic(&bytez) {
            Ok(ChunkType { bytez })
        } else {
            Err(CodecError::InvalidTypeCode)
        }
    }
}

/// A flag is read from bit 5 of its own byte and from nothing else: two type
/// codes that agree on that bit agree on the flag, whatever else differs
/// between them. In particular a change to any of the other three bytes
/// leaves the flag as it was.
pub proof fn lemma_flags_are_independent(a: ChunkType, b: ChunkType)
    ensures
        a@[0] & 0x20 == b@[0] & 0x20 ==> critical(a@) == critical(b@),
        a@[1] & 0x20 == b@[1] & 0x20 ==> public(a@) == public(b@),
        a@[2] & 0x20 == b@[2] & 0x20 ==> reserved_bit_valid(a@) == reserved_bit_valid(b@),
        a@[3] & 0x20 == b@[3] & 0x20 ==> safe_to_copy(a@) == safe_to_copy(b@),
        a@[0] == b@[0] ==> critical(a@) == critical(b@),
        a@[1] == b@[1] ==> public(a@) == public(b@),
        a@[2] == b@[2] ==> reserved_bit_valid(a@) == reserved_bit_valid(b@),
        a@[3] == b@[3] ==> safe_to_copy(a@) == safe_to_copy(b@),
{
    assert forall|x: u8, y: u8| x & 0x20 == y & 0x20 implies bit_is_set(x, FLAG_BIT) == bit_is_set(
        y,
        FLAG_BIT,
    ) by {
        assert(x & 0x20 == y & 0x20 ==> ((x >> 5u8) & 1 == 1) == ((y >> 5u8) & 1 == 1))
            by (bit_vector);
    }
}

/// In a letter, bit 5 is the case: set in a lower-case letter, clear in an
/// upper-case one. So in a type code made of letters each flag can be read
/// off the case of its letter.
pub proof fn lemma_flag_bit_is_the_case(b: u8)
    requires
        ascii_alphabetic(b),
    ensures
        bit_is_set(b, FLAG_BIT) <==> 0x61 <= b <= 0x7a,
{
    assert((b >> 5u8) & 1 == 1 <==> 0x61 <= b && b <= 0x7a) by (bit_vector)
        requires
            (0x41 <= b && b <= 0x5a) || (0x61 <= b && b <= 0x7a),
    ;
}

/// Text and raw bytes are not judged alike. Four letters with the reserved
/// bit set are a type code when they come as text; the same four bytes given
/// raw are refused.
pub proof fn lemma_text_is_not_held_to_the_reserved_bit(code: Seq<u8>)
    requires
        valid_characters(code),
        !reserved_bit_valid(code),
    ensures
        decode_text(code) == Ok::<Seq<u8>, CodecError>(code),
        decode_raw(code) == Err::<Seq<u8>, CodecError>(CodecError::InvalidTypeCode),
{
}

/// Whatever raw bytes are taken for, the text of the same bytes is taken for
/// too.
pub proof fn lemma_text_takes_what_raw_bytes_take(code: Seq<u8>)
    requires
        decode_raw(code) is Ok,
    ensures
        decode_text(code) == decode_raw(code),
{
}

} // verus!
