//! Numbers as they stand in the bytes of a file. Outside of the file there are
//! zeros.

use vstd::prelude::*;

verus! {

/// The byte at `i`, and zero outside of the file.
pub open spec fn byte(data: Seq<u8>, i: int) -> u8 {
    if 0 <= i < data.len() {
        data[i]
    } else {
        0
    }
}

/// Two bytes, the lowest first.
pub open spec fn le16(data: Seq<u8>, i: int) -> int {
    byte(data, i) + 0x100 * byte(data, i + 1)
}

/// Four bytes, the lowest first.
pub open spec fn le32(data: Seq<u8>, i: int) -> int {
    le16(data, i) + 0x1_0000 * le16(data, i + 2)
}

/// Two bytes, the highest first.
pub open spec fn be16(data: Seq<u8>, i: int) -> int {
    0x100 * byte(data, i) + byte(data, i + 1)
}

/// Three bytes, the highest first.
pub open spec fn be24(data: Seq<u8>, i: int) -> int {
    0x1_0000 * byte(data, i) + be16(data, i + 1)
}

/// Four bytes, the highest first.
pub open spec fn be32(data: Seq<u8>, i: int) -> int {
    0x1_0000 * be16(data, i) + be16(data, i + 2)
}

/// Eight bytes, the highest first.
pub open spec fn be64(data: Seq<u8>, i: int) -> int {
    0x1_0000_0000 * be32(data, i) + be32(data, i + 4)
}

/// The low seven bits of a byte.
pub open spec fn seven(data: Seq<u8>, i: int) -> int {
    byte(data, i) as int % 0x80
}

/// In how many bytes, four at most, a length is written whose last byte is
/// below 128.
pub open spec fn length_bytes(data: Seq<u8>, i: int) -> int {
    if byte(data, i) < 0x80 {
        1
    } else if byte(data, i + 1) < 0x80 {
        2
    } else if byte(data, i + 2) < 0x80 {
        3
    } else {
        4
    }
}

/// Such a length: seven bits of each byte, the highest first.
pub open spec fn length_said(data: Seq<u8>, i: int) -> int {
    let n = length_bytes(data, i);
    if n == 1 {
        seven(data, i)
    } else if n == 2 {
        0x80 * seven(data, i) + seven(data, i + 1)
    } else if n == 3 {
        0x4000 * seven(data, i) + 0x80 * seven(data, i + 1) + seven(data, i + 2)
    } else {
        four_sevens(data, i)
    }
}

/// Seven bits of each of four bytes, the highest first.
pub open spec fn four_sevens(data: Seq<u8>, i: int) -> int {
    0x20_0000 * seven(data, i) + 0x4000 * seven(data, i + 1) + 0x80 * seven(data, i + 2) + seven(
        data,
        i + 3,
    )
}

/// Whether the bit of a byte is set whose value is `bit`.
pub open spec fn has_bit(flags: u8, bit: int) -> bool {
    (flags as int / bit) % 2 == 1
}

pub(crate) fn byte_at(data: &[u8], start: usize, offset: usize) -> (r: u8)
    ensures
        r == byte(data@, start + offset),
{
    if start < data.len() && offset < data.len() - start {
        data[start + offset]
    } else {
        0
    }
}

pub(crate) fn le16_at(data: &[u8], start: usize, offset: usize) -> (r: u16)
    requires
        offset < 0x100,
    ensures
        r == le16(data@, start + offset),
{
    let low: u16 = byte_at(data, start, offset) as u16;
    let high: u16 = byte_at(data, start, offset + 1) as u16;
    low + 0x100 * high
}

pub(crate) fn le32_at(data: &[u8], start: usize, offset: usize) -> (r: u32)
    requires
        offset < 0x80,
    ensures
        r == le32(data@, start + offset),
{
    let low: u32 = le16_at(data, start, offset) as u32;
    let high: u32 = le16_at(data, start, offset + 2) as u32;
    low + 0x1_0000 * high
}

pub(crate) fn be16_at(data: &[u8], start: usize, offset: usize) -> (r: u16)
    requires
        offset < 0x100,
    ensures
        r == be16(data@, start + offset),
{
    let high: u16 = byte_at(data, start, offset) as u16;
    let low: u16 = byte_at(data, start, offset + 1) as u16;
    0x100 * high + low
}

pub(crate) fn be24_at(data: &[u8], start: usize, offset: usize) -> (r: u32)
    requires
        offset < 0x80,
    ensures
        r == be24(data@, start + offset),
{
    let high: u32 = byte_at(data, start, offset) as u32;
    let low: u32 = be16_at(data, start, offset + 1) as u32;
    0x1_0000 * high + low
}

pub(crate) fn be32_at(data: &[u8], start: usize, offset: usize) -> (r: u32)
    requires
        offset < 0x80,
    ensures
        r == be32(data@, start + offset),
{
    let high: u32 = be16_at(data, start, offset) as u32;
    let low: u32 = be16_at(data, start, offset + 2) as u32;
    0x1_0000 * high + low
}

pub(crate) fn be64_at(data: &[u8], start: usize, offset: usize) -> (r: u64)
    requires
        offset < 0x40,
    ensures
        r == be64(data@, start + offset),
{
    let high: u64 = be32_at(data, start, offset) as u64;
    let low: u64 = be32_at(data, start, offset + 4) as u64;
    0x1_0000_0000 * high + low
}

pub(crate) fn seven_at(data: &[u8], start: usize, offset: usize) -> (r: u32)
    ensures
        r == seven(data@, start + offset),
        r < 0x80,
{
    (byte_at(data, start, offset) % 0x80) as u32
}

pub(crate) fn four_sevens_at(data: &[u8], start: usize, offset: usize) -> (r: u32)
    requires
        offset < 0x80,
    ensures
        r == four_sevens(data@, start + offset),
        r < 0x1000_0000,
{
    0x20_0000 * seven_at(data, start, offset) + 0x4000 * seven_at(data, start, offset + 1) + 0x80
        * seven_at(data, start, offset + 2) + seven_at(data, start, offset + 3)
}

pub(crate) fn length_bytes_at(data: &[u8], start: usize, offset: usize) -> (r: usize)
    requires
        offset < 0x80,
    ensures
        r == length_bytes(data@, start + offset),
        1 <= r <= 4,
{
    if byte_at(data, start, offset) < 0x80 {
        1
    } else if byte_at(data, start, offset + 1) < 0x80 {
        2
    } else if byte_at(data, start, offset + 2) < 0x80 {
        3
    } else {
        4
    }
}

pub(crate) fn length_at(data: &[u8], start: usize, offset: usize) -> (r: u32)
    requires
        offset < 0x80,
    ensures
        r == length_said(data@, start + offset),
        r < 0x1000_0000,
{
    let n: usize = length_bytes_at(data, start, offset);
    if n == 1 {
        seven_at(data, start, offset)
    } else if n == 2 {
        0x80 * seven_at(data, start, offset) + seven_at(data, start, offset + 1)
    } else if n == 3 {
        0x4000 * seven_at(data, start, offset) + 0x80 * seven_at(data, start, offset + 1)
            + seven_at(data, start, offset + 2)
    } else {
        four_sevens_at(data, start, offset)
    }
}

pub(crate) fn bit_is_set(flags: u8, bit: u8) -> (r: bool)
    requires
        bit > 0,
    ensures
        r == has_bit(flags, bit as int),
{
    (flags / bit) % 2 == 1
}

// ---------------------------------------------------------------------------
// Laws
// ---------------------------------------------------------------------------

/// Outside of the file there are zeros, and inside it what stands there.
pub proof fn bytes_are_those_of_the_file(data: Seq<u8>, i: int)
    ensures
        0 <= i < data.len() ==> byte(data, i) == data[i],
        i < 0 || data.len() <= i ==> byte(data, i) == 0,
{
}

/// A number with its lowest byte first has its bytes as its places from the
/// lowest up, and one with its highest first has them the other way round.
pub proof fn numbers_have_their_bytes_as_places(data: Seq<u8>, i: int)
    ensures
        le16(data, i) % 0x100 == byte(data, i),
        le16(data, i) / 0x100 == byte(data, i + 1),
        le32(data, i) % 0x100 == byte(data, i),
        le32(data, i) / 0x100 % 0x100 == byte(data, i + 1),
        le32(data, i) / 0x1_0000 % 0x100 == byte(data, i + 2),
        le32(data, i) / 0x100_0000 == byte(data, i + 3),
        be16(data, i) / 0x100 == byte(data, i),
        be16(data, i) % 0x100 == byte(data, i + 1),
        be24(data, i) / 0x1_0000 == byte(data, i),
        be24(data, i) / 0x100 % 0x100 == byte(data, i + 1),
        be24(data, i) % 0x100 == byte(data, i + 2),
        be32(data, i) / 0x100_0000 == byte(data, i),
        be32(data, i) / 0x1_0000 % 0x100 == byte(data, i + 1),
        be32(data, i) / 0x100 % 0x100 == byte(data, i + 2),
        be32(data, i) % 0x100 == byte(data, i + 3),
        be64(data, i) / 0x1_0000_0000 == be32(data, i),
        be64(data, i) % 0x1_0000_0000 == be32(data, i + 4),
{
}

/// A number is read backwards from a file that is turned round.
pub proof fn turned_files_turn_their_numbers(data: Seq<u8>, i: int)
    requires
        0 <= i,
        i + 4 <= data.len(),
    ensures
        le16(data, i) == be16(data.reverse(), data.len() - i - 2),
        le32(data, i) == be32(data.reverse(), data.len() - i - 4),
        be16(data, i) == le16(data.reverse(), data.len() - i - 2),
        be32(data, i) == le32(data.reverse(), data.len() - i - 4),
{
}

/// A length takes bytes up to the first that is below 128, four at most, and is
/// made of the seven low bits of each.
pub proof fn lengths_are_made_of_seven_bits_each(data: Seq<u8>, i: int)
    ensures
        ({
            let a = byte(data, i);
            let b = byte(data, i + 1);
            let c = byte(data, i + 2);
            let d = byte(data, i + 3);
            &&& a < 128 ==> length_bytes(data, i) == 1 && length_said(data, i) == a
            &&& a >= 128 && b < 128 ==> length_bytes(data, i) == 2 && length_said(data, i) == 128 * (
            a - 128) + b
            &&& a >= 128 && b >= 128 && c < 128 ==> length_bytes(data, i) == 3 && length_said(
                data,
                i,
            ) == 128 * (128 * (a - 128) + (b - 128)) + c
            &&& a >= 128 && b >= 128 && c >= 128 ==> length_bytes(data, i) == 4 && length_said(
                data,
                i,
            ) == 128 * (128 * (128 * (a - 128) + (b - 128)) + (c - 128)) + d as int % 128
        }),
        four_sevens(data, i) == 128 * (128 * (128 * seven(data, i) + seven(data, i + 1)) + seven(
            data,
            i + 2,
        )) + seven(data, i + 3),
        byte(data, i) < 128 ==> seven(data, i) == byte(data, i),
        byte(data, i) >= 128 ==> seven(data, i) == byte(data, i) - 128,
{
}

/// A bit is set where the byte, without the bits above it, reaches its value.
pub proof fn bits_are_told_by_their_value(flags: u8)
    ensures
        has_bit(flags, 0x80) <==> flags >= 0x80,
        has_bit(flags, 0x40) <==> flags % 0x80 >= 0x40,
        has_bit(flags, 0x20) <==> flags % 0x40 >= 0x20,
        has_bit(flags, 0x10) <==> flags % 0x20 >= 0x10,
        has_bit(flags, 8) <==> flags % 0x10 >= 8,
        has_bit(flags, 4) <==> flags % 8 >= 4,
        has_bit(flags, 2) <==> flags % 4 >= 2,
        has_bit(flags, 1) <==> flags % 2 == 1,
{
}

/// The number that four letters are in a file.
pub open spec fn letters(text: Seq<char>) -> int {
    0x100 * (0x100 * (0x100 * (text[0] as int) + text[1] as int) + text[2] as int)
        + text[3] as int
}

} // verus!
