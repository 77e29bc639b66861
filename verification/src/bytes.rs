//! Little-endian fields and byte slices.

use vstd::prelude::*;

verus! {

/// The number whose two little-endian bytes stand at `at`.
pub open spec fn le16(bytes: Seq<u8>, at: int) -> int {
    bytes[at] + 0x100 * bytes[at + 1]
}

/// The number whose four little-endian bytes stand at `at`.
pub open spec fn le32(bytes: Seq<u8>, at: int) -> int {
    le16(bytes, at) + 0x1_0000 * le16(bytes, at + 2)
}

/// The two little-endian bytes of `value`.
pub open spec fn le16_bytes(value: u16) -> Seq<u8> {
    seq![(value % 0x100) as u8, (value / 0x100) as u8]
}

/// The four little-endian bytes of `value`.
pub open spec fn le32_bytes(value: u32) -> Seq<u8> {
    le16_bytes((value % 0x1_0000) as u16) + le16_bytes((value / 0x1_0000) as u16)
}

/// Reads a 16-bit little-endian number.
pub fn le_u16(bytes: &[u8]) -> (value: u16)
    requires
        bytes@.len() == 2,
    ensures
        value == le16(bytes@, 0),
        value % 0x100 == bytes@[0],
        value / 0x100 == bytes@[1],
{
    bytes[0] as u16 + 0x100 * bytes[1] as u16
}

/// Reads a 32-bit little-endian number.
pub fn le_u32(bytes: &[u8]) -> (value: u32)
    requires
        bytes@.len() == 4,
    ensures
        value == le32(bytes@, 0),
        value % 0x100 == bytes@[0],
        value / 0x100 % 0x100 == bytes@[1],
        value / 0x1_0000 % 0x100 == bytes@[2],
        value / 0x100_0000 == bytes@[3],
{
    bytes[0] as u32 + 0x100 * bytes[1] as u32 + 0x1_0000 * (bytes[2] as u32 + 0x100
        * bytes[3] as u32)
}

/// Two bytes make up the same number by themselves.
pub proof fn lemma_le16_at(bytes: Seq<u8>, at: int)
    requires
        0 <= at,
        at + 2 <= bytes.len(),
    ensures
        le16(bytes.subrange(at, at + 2), 0) == le16(bytes, at),
{
    let field = bytes.subrange(at, at + 2);
    assert(field[0] == bytes[at] && field[1] == bytes[at + 1]);
}

/// Four bytes make up the same number by themselves.
pub proof fn lemma_le32_at(bytes: Seq<u8>, at: int)
    requires
        0 <= at,
        at + 4 <= bytes.len(),
    ensures
        le32(bytes.subrange(at, at + 4), 0) == le32(bytes, at),
{
    let field = bytes.subrange(at, at + 4);
    assert(field[0] == bytes[at] && field[1] == bytes[at + 1] && field[2] == bytes[at + 2]
        && field[3] == bytes[at + 3]);
}

/// Reading back the two bytes of a number gives the number.
pub proof fn law_le16_round_trip(value: u16)
    ensures
        le16(le16_bytes(value), 0) == value,
{
}

/// Reading back the four bytes of a number gives the number.
pub proof fn law_le32_round_trip(value: u32)
    ensures
        le32(le32_bytes(value), 0) == value,
{
    let low = (value % 0x1_0000) as u16;
    let high = (value / 0x1_0000) as u16;
    let bytes = le32_bytes(value);
    assert(bytes[0] == le16_bytes(low)[0] && bytes[1] == le16_bytes(low)[1]);
    assert(bytes[2] == le16_bytes(high)[0] && bytes[3] == le16_bytes(high)[1]);
}

/// The byte that stands first is the lowest, for numbers of two bytes and of
/// four.
pub proof fn law_low_byte_first(bytes: Seq<u8>, at: int)
    ensures
        le16(bytes, at) % 0x100 == bytes[at],
        le16(bytes, at) / 0x100 == bytes[at + 1],
        le32(bytes, at) % 0x100 == bytes[at],
        le32(bytes, at) / 0x100 % 0x100 == bytes[at + 1],
        le32(bytes, at) / 0x1_0000 % 0x100 == bytes[at + 2],
        le32(bytes, at) / 0x100_0000 == bytes[at + 3],
{
}

/// The bytes of a number, lowest first.
pub proof fn law_bytes_of_numbers(small: u16, large: u32)
    ensures
        le16_bytes(small).len() == 2,
        small == le16_bytes(small)[0] + 0x100 * le16_bytes(small)[1],
        le32_bytes(large).len() == 4,
        large == le32_bytes(large)[0] + 0x100 * le32_bytes(large)[1] + 0x1_0000 * le32_bytes(
            large,
        )[2] + 0x100_0000 * le32_bytes(large)[3],
{
}

/// Whether two byte slices hold the same bytes.
pub fn same_bytes(left: &[u8], right: &[u8]) -> (same: bool)
    ensures
        same == (left@ == right@),
{
    if left.len() != right.len() {
        return false;
    }
    let len: usize = left.len();
    for i in 0..len
        invariant
            len == left@.len() == right@.len(),
            forall|j: int| 0 <= j < i ==> left@[j] == right@[j],
    {
        if left[i] != right[i] {
            return false;
        }
    }
    assert(left@ =~= right@);
    true
}

} // verus!
