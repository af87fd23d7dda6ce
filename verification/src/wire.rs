//! Little-endian integers at byte offsets, and the structures made of them.

use vstd::prelude::*;

verus! {

/// The 16-bit integer that starts at a byte offset.
pub open spec fn u16_at(bytes: Seq<u8>, offset: int) -> u16 {
    (bytes[offset] + 0x100 * bytes[offset + 1]) as u16
}

/// The 32-bit integer that starts at a byte offset.
pub open spec fn u32_at(bytes: Seq<u8>, offset: int) -> u32 {
    (bytes[offset] + 0x100 * bytes[offset + 1] + 0x1_0000 * bytes[offset + 2] + 0x100_0000
        * bytes[offset + 3]) as u32
}

/// The signed 32-bit integer that starts at a byte offset, in two's complement.
pub open spec fn i32_at(bytes: Seq<u8>, offset: int) -> i32 {
    signed(u32_at(bytes, offset))
}

/// A word read as a signed number.
pub open spec fn signed(word: u32) -> i32 {
    if word < 0x8000_0000 {
        word as i32
    } else {
        (word - 0x1_0000_0000) as i32
    }
}

/// A signed number as the word that holds it.
pub open spec fn unsigned(value: i32) -> u32 {
    if value >= 0 {
        value as u32
    } else {
        (value + 0x1_0000_0000) as u32
    }
}

/// The two bytes of a 16-bit integer, low byte first.
pub open spec fn u16_bytes(value: u16) -> Seq<u8> {
    seq![(value % 0x100) as u8, (value / 0x100) as u8]
}

/// The four bytes of a 32-bit integer, low byte first.
pub open spec fn u32_bytes(value: u32) -> Seq<u8> {
    seq![
        (value % 0x100) as u8,
        (value / 0x100 % 0x100) as u8,
        (value / 0x1_0000 % 0x100) as u8,
        (value / 0x100_0000) as u8,
    ]
}

/// A byte counts 256 times what the byte before it counts.
pub proof fn law_bytes_have_their_weight(bytes: Seq<u8>, offset: int)
    requires
        0 <= offset,
    ensures
        offset + 2 <= bytes.len() ==> u16_at(bytes, offset) as int == bytes[offset] + 0x100
            * bytes[offset + 1],
        offset + 4 <= bytes.len() ==> u32_at(bytes, offset) as int == bytes[offset] + 0x100
            * bytes[offset + 1] + 0x1_0000 * bytes[offset + 2] + 0x100_0000 * bytes[offset + 3],
{
}

/// A signed number and the word that holds it differ by a multiple of 2^32,
/// which leaves one signed number for each word and one word for each number.
pub proof fn law_signs_are_twos_complement(word: u32, value: i32)
    ensures
        signed(word) as int == word || signed(word) as int == word - 0x1_0000_0000,
        unsigned(value) as int == value || unsigned(value) as int == value + 0x1_0000_0000,
{
}

/// The bytes of an integer, each with its weight, add up to it.
pub proof fn law_bytes_add_up(short: u16, long: u32)
    ensures
        u16_bytes(short).len() == 2,
        u16_bytes(short)[0] + 0x100 * u16_bytes(short)[1] == short,
        u32_bytes(long).len() == 4,
        u32_bytes(long)[0] + 0x100 * u32_bytes(long)[1] + 0x1_0000 * u32_bytes(long)[2]
            + 0x100_0000 * u32_bytes(long)[3] == long,
{
}

/// A 16-bit integer is read back from its own bytes, wherever they stand.
pub proof fn law_u16_round_trip(bytes: Seq<u8>, offset: int, value: u16)
    requires
        0 <= offset,
        offset + 2 <= bytes.len(),
        bytes.subrange(offset, offset + 2) == u16_bytes(value),
    ensures
        u16_at(bytes, offset) == value,
{
    let part = bytes.subrange(offset, offset + 2);
    assert(part[0] == bytes[offset] && part[1] == bytes[offset + 1]);
}

/// A 32-bit integer is read back from its own bytes, wherever they stand.
pub proof fn law_u32_round_trip(bytes: Seq<u8>, offset: int, value: u32)
    requires
        0 <= offset,
        offset + 4 <= bytes.len(),
        bytes.subrange(offset, offset + 4) == u32_bytes(value),
    ensures
        u32_at(bytes, offset) == value,
{
    let part = bytes.subrange(offset, offset + 4);
    assert(part[0] == bytes[offset] && part[1] == bytes[offset + 1]);
    assert(part[2] == bytes[offset + 2] && part[3] == bytes[offset + 3]);
}

/// Four bytes are the bytes of the integer read from them.
pub proof fn law_u32_bytes_round_trip(bytes: Seq<u8>, offset: int)
    requires
        0 <= offset,
        offset + 4 <= bytes.len(),
    ensures
        u32_bytes(u32_at(bytes, offset)) == bytes.subrange(offset, offset + 4),
{
    let a = bytes[offset];
    let b = bytes[offset + 1];
    let c = bytes[offset + 2];
    let d = bytes[offset + 3];
    let value = u32_at(bytes, offset);
    assert(value == a + 0x100 * b + 0x1_0000 * c + 0x100_0000 * d);
    assert(value % 0x100 == a && value / 0x100 % 0x100 == b && value / 0x1_0000 % 0x100 == c
        && value / 0x100_0000 == d) by (bit_vector)
        requires
            value == a + 0x100 * b + 0x1_0000 * c + 0x100_0000 * d,
    ;
    let part = bytes.subrange(offset, offset + 4);
    assert(part[0] == a && part[1] == b && part[2] == c && part[3] == d);
    assert(u32_bytes(value) =~= part);
}

/// Reading a word as signed and writing it back changes nothing.
pub proof fn law_signed_round_trip(word: u32, value: i32)
    ensures
        unsigned(signed(word)) == word,
        signed(unsigned(value)) == value,
{
}

/// Reads the 16-bit integer at a byte offset.
pub fn read_u16(bytes: &[u8], offset: usize) -> (value: u16)
    requires
        offset + 2 <= bytes@.len(),
    ensures
        value == u16_at(bytes@, offset as int),
        value as int == bytes@[offset as int] + 0x100 * bytes@[offset + 1],
{
    bytes[offset] as u16 + 0x100 * (bytes[offset + 1] as u16)
}

/// Reads the 32-bit integer at a byte offset.
pub fn read_u32(bytes: &[u8], offset: usize) -> (value: u32)
    requires
        offset + 4 <= bytes@.len(),
    ensures
        value == u32_at(bytes@, offset as int),
        value as int == bytes@[offset as int] + 0x100 * bytes@[offset + 1] + 0x1_0000
            * bytes@[offset + 2] + 0x100_0000 * bytes@[offset + 3],
{
    bytes[offset] as u32 + 0x100 * (bytes[offset + 1] as u32) + 0x1_0000 * (bytes[offset
        + 2] as u32) + 0x100_0000 * (bytes[offset + 3] as u32)
}

/// Reads the signed 32-bit integer at a byte offset.
pub fn read_i32(bytes: &[u8], offset: usize) -> (value: i32)
    requires
        offset + 4 <= bytes@.len(),
    ensures
        value == i32_at(bytes@, offset as int),
        (value as int - (bytes@[offset as int] + 0x100 * bytes@[offset + 1] + 0x1_0000
            * bytes@[offset + 2] + 0x100_0000 * bytes@[offset + 3])) % 0x1_0000_0000 == 0,
{
    let word: u32 = read_u32(bytes, offset);
    if word < 0x8000_0000 {
        word as i32
    } else {
        (word as i64 - 0x1_0000_0000) as i32
    }
}

/// Appends the two bytes of a 16-bit integer.
pub fn push_u16(bytes: &mut Vec<u8>, value: u16)
    ensures
        final(bytes)@ == old(bytes)@ + u16_bytes(value),
        final(bytes)@.len() == old(bytes)@.len() + 2,
        final(bytes)@.take(old(bytes)@.len() as int) == old(bytes)@,
        value as int == final(bytes)@[old(bytes)@.len() as int] + 0x100
            * final(bytes)@[old(bytes)@.len() as int + 1],
{
    bytes.push((value % 0x100) as u8);
    bytes.push((value / 0x100) as u8);
    assert(bytes@ =~= old(bytes)@ + u16_bytes(value));
}

/// Appends the four bytes of a 32-bit integer.
pub fn push_u32(bytes: &mut Vec<u8>, value: u32)
    ensures
        final(bytes)@ == old(bytes)@ + u32_bytes(value),
        final(bytes)@.len() == old(bytes)@.len() + 4,
        final(bytes)@.take(old(bytes)@.len() as int) == old(bytes)@,
        value as int == final(bytes)@[old(bytes)@.len() as int] + 0x100
            * final(bytes)@[old(bytes)@.len() as int + 1] + 0x1_0000
            * final(bytes)@[old(bytes)@.len() as int + 2]
            + 0x100_0000 * final(bytes)@[old(bytes)@.len() as int + 3],
{
    bytes.push((value % 0x100) as u8);
    bytes.push((value / 0x100 % 0x100) as u8);
    bytes.push((value / 0x1_0000 % 0x100) as u8);
    bytes.push((value / 0x100_0000) as u8);
    assert(bytes@ =~= old(bytes)@ + u32_bytes(value));
}

/// Appends the four bytes of a signed 32-bit integer.
pub fn push_i32(bytes: &mut Vec<u8>, value: i32)
    ensures
        final(bytes)@ == old(bytes)@ + u32_bytes(unsigned(value)),
        final(bytes)@.len() == old(bytes)@.len() + 4,
        final(bytes)@.take(old(bytes)@.len() as int) == old(bytes)@,
        (value as int - (final(bytes)@[old(bytes)@.len() as int] + 0x100
            * final(bytes)@[old(bytes)@.len() as int + 1] + 0x1_0000
            * final(bytes)@[old(bytes)@.len() as int + 2] + 0x100_0000
            * final(bytes)@[old(bytes)@.len() as int + 3])) % 0x1_0000_0000 == 0,
{
    if value >= 0 {
        push_u32(bytes, value as u32);
    } else {
        push_u32(bytes, (value as i64 + 0x1_0000_0000) as u32);
    }
}

/// A structure that the kernel fills in, laid out as its C declaration says.
pub trait KernelRead: Sized {
    /// How many bytes the structure takes, padding included.
    spec fn layout_size() -> nat;

    /// The structure that these bytes hold.
    spec fn decoded(bytes: Seq<u8>) -> Self;

    /// How many bytes the structure takes.
    fn size() -> (size: usize)
        ensures
            size == Self::layout_size(),
    ;

    /// Reads the structure from its bytes.
    fn decode(bytes: &[u8]) -> (value: Self)
        requires
            bytes@.len() == Self::layout_size(),
        ensures
            value == Self::decoded(bytes@),
    ;
}

/// A structure that is also handed to the kernel.
pub trait KernelWrite: KernelRead {
    /// The bytes of the structure.
    spec fn encoded(self) -> Seq<u8>;

    /// Lays the structure out in bytes.
    fn encode(&self) -> (bytes: Vec<u8>)
        ensures
            bytes@ == self.encoded(),
    ;

    /// The bytes fill the layout and give the structure back.
    proof fn law_encode_decode(self)
        ensures
            self.encoded().len() == Self::layout_size(),
            Self::decoded(self.encoded()) == self,
    ;

    /// The structure that bytes hold gives the bytes back.
    proof fn law_decode_encode(bytes: Seq<u8>)
        requires
            bytes.len() == Self::layout_size(),
        ensures
            Self::decoded(bytes).encoded() == bytes,
    ;
}

} // verus!
