//! Fresh identifiers and random seeds.

use vstd::prelude::*;

use crate::text;

verus! {

/// The lower-case hexadecimal digit of `n`.
pub open spec fn hex_char(n: int) -> char {
    if n < 10 {
        (48 + n) as char
    } else {
        (87 + n) as char
    }
}

/// `bytes` in lower-case hexadecimal, two digits a byte.
pub open spec fn hex_text(bytes: Seq<u8>) -> Seq<char> {
    Seq::new(
        2 * bytes.len(),
        |i: int| hex_char(if i % 2 == 0 { bytes[i / 2] as int / 16 } else { bytes[i / 2] as int % 16 }),
    )
}

/// The hyphenated text of a UUID: groups of 8, 4, 4, 4 and 12 digits.
pub open spec fn hyphenated(bytes: Seq<u8>) -> Seq<char> {
    let digits = hex_text(bytes);
    digits.subrange(0, 8) + seq!['-'] + digits.subrange(8, 12) + seq!['-'] + digits.subrange(12, 16)
        + seq!['-'] + digits.subrange(16, 20) + seq!['-'] + digits.subrange(20, 32)
}

/// Whether `bytes` are those of a random (version 4) UUID.
pub open spec fn is_v4(bytes: Seq<u8>) -> bool {
    &&& bytes.len() == 16
    &&& bytes[6] / 16 == 4
    &&& bytes[8] / 64 == 2
}

/// Whether `text` is the hyphenated text of a random UUID.
pub open spec fn is_v4_text(text: Seq<char>) -> bool {
    exists|bytes: Seq<u8>| is_v4(bytes) && text == #[trigger] hyphenated(bytes)
}

/// A random UUID, as bytes and as text.
pub struct FreshUuid {
    pub bytes: [u8; 16],
    pub text: String,
}

/// `uuid::Uuid::new_v4`: sixteen random bytes with the version and variant bits
/// of a version 4 UUID, and the text that its `Display` writes for them. Which
/// bytes come is left to chance.
#[verifier::external_body]
fn new_v4() -> (r: FreshUuid)
    ensures
        is_v4(r.bytes@),
        r.text@ == hyphenated(r.bytes@),
{
    let id = uuid::Uuid::new_v4();
    FreshUuid { bytes: *id.as_bytes(), text: id.to_string() }
}

/// A fresh random UUID in text form.
pub fn fresh_uuid() -> (r: String)
    ensures
        is_v4_text(r@),
{
    let fresh = new_v4();
    fresh.text
}

/// The number in the first four bytes, the lowest byte first.
pub open spec fn little_endian(bytes: Seq<u8>) -> int {
    bytes[0] + 0x100 * bytes[1] + 0x1_0000 * bytes[2] + 0x100_0000 * bytes[3]
}

/// The number in the first four bytes of a UUID, the lowest byte first.
pub fn seed_of(bytes: &[u8; 16]) -> (r: u32)
    ensures
        r == little_endian(bytes@),
{
    bytes[0] as u32 + 0x100 * bytes[1] as u32 + 0x1_0000 * bytes[2] as u32 + 0x100_0000
        * bytes[3] as u32
}

/// A random number, taken from a fresh UUID.
pub fn random_u32() -> (r: u32)
    ensures
        exists|bytes: Seq<u8>| is_v4(bytes) && r == #[trigger] little_endian(bytes),
{
    let fresh = new_v4();
    seed_of(&fresh.bytes)
}

/// The text of a random UUID has 36 characters, with hyphens between its
/// groups.
pub proof fn v4_text_shape(text: Seq<char>)
    requires
        is_v4_text(text),
    ensures
        text.len() == 36,
        text[8] == '-',
        text[13] == '-',
        text[18] == '-',
        text[23] == '-',
        text[14] == '4',
{
    let bytes = choose|bytes: Seq<u8>| is_v4(bytes) && text == #[trigger] hyphenated(bytes);
    let digits = hex_text(bytes);
    assert(digits[12] == hex_char(bytes[6] as int / 16));
    assert(text[14] == digits[12]);
}

/// The text of a random UUID neither begins nor ends with white space.
pub proof fn v4_text_has_no_white_ends(text: Seq<char>)
    requires
        is_v4_text(text),
    ensures
        !text::is_white_space(text.first()),
        !text::is_white_space(text.last()),
{
    let bytes = choose|bytes: Seq<u8>| is_v4(bytes) && text == #[trigger] hyphenated(bytes);
    let digits = hex_text(bytes);
    assert(digits[0] == hex_char(bytes[0] as int / 16));
    assert(digits[31] == hex_char(bytes[15] as int % 16));
    assert(text.first() == digits[0]);
    assert(text.last() == digits[31]);
}

/// The seed is made of the first four bytes: each is one of its places, the
/// first the lowest, and no other byte counts.
pub proof fn seed_is_made_of_four_bytes(bytes: Seq<u8>)
    ensures
        little_endian(bytes) % 0x100 == bytes[0],
        little_endian(bytes) / 0x100 % 0x100 == bytes[1],
        little_endian(bytes) / 0x1_0000 % 0x100 == bytes[2],
        little_endian(bytes) / 0x100_0000 == bytes[3],
{
}

} // verus!
