//! Building text: numbers and bytes rendered into a `String`, and what is
//! taken on trust of the methods of `String` that do it.

use std::string::FromUtf8Error;
use vstd::prelude::*;
use vstd::utf8::{decode_utf8, valid_utf8};

verus! {

/// `std::string::FromUtf8Error`, the error of `String::from_utf8`. It is
/// carried from the call to the place that replaces it; nothing is read from
/// it.
#[verifier::external_type_specification]
#[verifier::external_body]
pub struct ExFromUtf8Error(FromUtf8Error);

/// `String::push`, by its documentation, appends the given character to the
/// end of the string. Not proved: taken from the documentation.
pub assume_specification[ String::push ](s: &mut String, ch: char)
    ensures
        final(s)@ == old(s)@.push(ch),
;

/// `String::from_utf8`, by its documentation, turns a vector of bytes into a
/// string without changing the bytes, and returns an error if and only if
/// the bytes are not UTF-8. Claimed here: it succeeds exactly when the bytes
/// are well-formed UTF-8, and the characters of the string are then those
/// that the bytes encode. Not proved: taken from the documentation.
pub assume_specification[ String::from_utf8 ](vec: Vec<u8>) -> (result: Result<
    String,
    FromUtf8Error,
>)
    ensures
        result is Ok <==> valid_utf8(vec@),
        result matches Ok(s) ==> s@ == decode_utf8(vec@),
;

/// The characters that stand for the bytes one by one: byte `b` is the
/// character with code point `b`.
pub open spec fn bytes_as_chars(bytes: Seq<u8>) -> Seq<char> {
    Seq::new(bytes.len(), |i: int| bytes[i] as char)
}

/// The character of the decimal digit `digit`.
pub open spec fn digit_char(digit: nat) -> char {
    ((0x30 + digit) as u8) as char
}

/// `n` written in decimal, without leading zeros.
pub open spec fn decimal(n: nat) -> Seq<char>
    decreases n,
{
    if n < 10 {
        seq![digit_char(n)]
    } else {
        decimal(n / 10).push(digit_char(n % 10))
    }
}

/// Appends `n` in decimal.
pub fn push_decimal(out: &mut String, n: u64)
    ensures
        final(out)@ == old(out)@ + decimal(n as nat),
    decreases n,
{
    if n >= 10 {
        push_decimal(out, n / 10);
    }
    let digit = (n % 10) as u8;
    out.push((0x30 + digit) as char);
    assert(out@ =~= old(out)@ + decimal(n as nat));
}

/// Appends each byte as the character with its code point.
pub fn push_bytes_as_chars(out: &mut String, bytes: &[u8])
    ensures
        final(out)@ == old(out)@ + bytes_as_chars(bytes@),
{
    let mut i: usize = 0;
    while i < bytes.len()
        invariant
            i <= bytes.len(),
            out@ == old(out)@ + bytes_as_chars(bytes@.subrange(0, i as int)),
        decreases bytes.len() - i,
    {
        out.push(bytes[i] as char);
        i += 1;
        assert(out@ =~= old(out)@ + bytes_as_chars(bytes@.subrange(0, i as int)));
    }
    assert(bytes@.subrange(0, i as int) =~= bytes@);
}

} // verus!
