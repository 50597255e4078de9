//! 32-bit values in big-endian (network) byte order.

use vstd::prelude::*;

verus! {

/// The four bytes of `x`, most significant first.
pub open spec fn be_bytes(x: u32) -> Seq<u8> {
    seq![
        (x / 0x100_0000) as u8,
        (x / 0x1_0000 % 0x100) as u8,
        (x / 0x100 % 0x100) as u8,
        (x % 0x100) as u8,
    ]
}

/// The value whose big-endian bytes are the first four of `field`.
pub open spec fn be_value(field: Seq<u8>) -> u32 {
    (field[0] * 0x100_0000 + field[1] * 0x1_0000 + field[2] * 0x100 + field[3]) as u32
}

/// Reading back what was written gives the value again.
pub proof fn lemma_value_of_bytes(x: u32)
    ensures
        be_bytes(x).len() == 4,
        be_value(be_bytes(x)) == x,
{
}

/// Writing what was read gives the four bytes again.
pub proof fn lemma_bytes_of_value(field: Seq<u8>)
    requires
        field.len() == 4,
    ensures
        be_bytes(be_value(field)) == field,
{
    let (a, b, c, d) = (field[0], field[1], field[2], field[3]);
    let v: int = a * 0x100_0000 + b * 0x1_0000 + c * 0x100 + d;
    assert(0 <= v <= u32::MAX);
    assert(v / 0x100_0000 == a);
    assert(v / 0x1_0000 % 0x100 == b);
    assert(v / 0x100 % 0x100 == c);
    assert(v % 0x100 == d);
    assert(be_bytes(be_value(field)) =~= field);
}

/// Writes `x` as four bytes, most significant first.
pub fn to_be_bytes(x: u32) -> (out: [u8; 4])
    ensures
        out@ == be_bytes(x),
{
    let out = [
        (x / 0x100_0000) as u8,
        (x / 0x1_0000 % 0x100) as u8,
        (x / 0x100 % 0x100) as u8,
        (x % 0x100) as u8,
    ];
    assert(out@ =~= be_bytes(x));
    out
}

/// Reads four bytes, most significant first, as one value.
pub fn from_be_bytes(field: [u8; 4]) -> (x: u32)
    ensures
        x == be_value(field@),
{
    (field[0] as u32) * 0x100_0000 + (field[1] as u32) * 0x1_0000 + (field[2] as u32) * 0x100
        + (field[3] as u32)
}

} // verus!
