//! Hexadecimal and percent encoding of bytes.

use vstd::prelude::*;
use vstd::utf8::*;

verus! {

// ---------------------------------------------------------------------------
// Hexadecimal digits
// ---------------------------------------------------------------------------

/// Whether `b` is a hexadecimal digit in ASCII, of either case.
pub open spec fn is_hex(b: u8) -> bool {
    0x30 <= b <= 0x39 || 0x41 <= b <= 0x46 || 0x61 <= b <= 0x66
}

/// The value of a hexadecimal digit.
pub open spec fn hex_value(b: u8) -> int {
    if b <= 0x39 {
        b - 0x30
    } else if b <= 0x46 {
        b - 0x41 + 10
    } else {
        b - 0x61 + 10
    }
}

/// The byte that two hexadecimal digits say.
pub open spec fn hex_pair(high: u8, low: u8) -> u8 {
    (16 * hex_value(high) + hex_value(low)) as u8
}

/// The index of the first of `digits` that is no hexadecimal digit, or their
/// number.
pub open spec fn first_not_hex(digits: Seq<u8>) -> nat
    decreases digits.len(),
{
    if digits.len() == 0 || !is_hex(digits.first()) {
        0
    } else {
        1 + first_not_hex(digits.drop_first())
    }
}

/// The bytes that pairs of hexadecimal digits say.
pub open spec fn hex_bytes(digits: Seq<u8>) -> Seq<u8> {
    Seq::new(digits.len() / 2, |i: int| hex_pair(digits[2 * i], digits[2 * i + 1]))
}

/// Why a text is not hexadecimal.
#[derive(Debug, Clone, Copy, PartialEq, Eq, Structural)]
pub enum HexFault {
    InvalidCharacter { c: char, index: usize },
    OddLength,
    InvalidLength,
}

/// What the text with the UTF-8 bytes `digits` says in hexadecimal.
pub open spec fn hex_decoded(digits: Seq<u8>) -> Result<Seq<u8>, HexFault> {
    let bad = first_not_hex(digits);
    if digits.len() % 2 != 0 {
        Err(HexFault::OddLength)
    } else if bad < digits.len() {
        Err(HexFault::InvalidCharacter { c: digits[bad as int] as char, index: bad as usize })
    } else {
        Ok(hex_bytes(digits))
    }
}

/// `hex::decode`: every two digits of either case are a byte. An odd number of
/// bytes in the text is an error, and so is a byte that is no digit, of which
/// the first is reported with its index. The error for a length that does not
/// fit a fixed container does not come.
#[verifier::external_body]
pub(crate) fn hex_decode(text: &str) -> (r: Result<Vec<u8>, HexFault>)
    ensures
        match r {
            Ok(bytes) => hex_decoded(encode_utf8(text@)) == Ok::<Seq<u8>, HexFault>(bytes@),
            Err(fault) => hex_decoded(encode_utf8(text@)) == Err::<Seq<u8>, HexFault>(fault),
        },
{
    hex::decode(text).map_err(|err| match err {
        hex::FromHexError::InvalidHexCharacter { c, index } => HexFault::InvalidCharacter { c, index },
        hex::FromHexError::OddLength => HexFault::OddLength,
        hex::FromHexError::InvalidStringLength => HexFault::InvalidLength,
    })
}

// ---------------------------------------------------------------------------
// Percent encoding
// ---------------------------------------------------------------------------

/// Whether `b` stands for itself in percent encoding: a letter or digit of
/// ASCII, or one of `-`, `.`, `_` and `~`.
pub open spec fn is_unreserved(b: u8) -> bool {
    ||| 0x30 <= b <= 0x39
    ||| 0x41 <= b <= 0x5a
    ||| 0x61 <= b <= 0x7a
    ||| b == 0x2d
    ||| b == 0x2e
    ||| b == 0x5f
    ||| b == 0x7e
}

/// The upper-case hexadecimal digit of `n` in ASCII.
pub open spec fn upper_hex(n: int) -> u8 {
    if n < 10 {
        (0x30 + n) as u8
    } else {
        (0x41 + n - 10) as u8
    }
}

/// A byte in percent encoding.
pub open spec fn percent_piece(b: u8) -> Seq<u8> {
    if is_unreserved(b) {
        seq![b]
    } else {
        seq![0x25u8, upper_hex(b as int / 16), upper_hex(b as int % 16)]
    }
}

/// `bytes` in percent encoding.
pub open spec fn percent_encoded(bytes: Seq<u8>) -> Seq<u8>
    decreases bytes.len(),
{
    if bytes.len() == 0 {
        Seq::empty()
    } else {
        percent_piece(bytes[0]) + percent_encoded(bytes.drop_first())
    }
}

/// `bytes` with every `%` that two hexadecimal digits follow taken, with them,
/// for the byte that they say.
pub open spec fn percent_decoded(bytes: Seq<u8>) -> Seq<u8>
    decreases bytes.len(),
{
    if bytes.len() == 0 {
        Seq::empty()
    } else if bytes.len() >= 3 && bytes[0] == 0x25 && is_hex(bytes[1]) && is_hex(bytes[2]) {
        seq![hex_pair(bytes[1], bytes[2])] + percent_decoded(bytes.skip(3))
    } else {
        seq![bytes[0]] + percent_decoded(bytes.skip(1))
    }
}

/// The text of bytes in ASCII.
pub open spec fn ascii_text(bytes: Seq<u8>) -> Seq<char> {
    Seq::new(bytes.len(), |i: int| bytes[i] as char)
}

/// `text` as it stands in a URL.
pub open spec fn url_encoded(text: Seq<char>) -> Seq<char> {
    ascii_text(percent_encoded(encode_utf8(text)))
}

/// The text that stands in a URL as `text`, when that is UTF-8.
pub open spec fn url_decoded(text: Seq<char>) -> Option<Seq<char>> {
    let bytes = percent_decoded(encode_utf8(text));
    if valid_utf8(bytes) {
        Some(decode_utf8(bytes))
    } else {
        None
    }
}

/// `urlencoding::encode`: every byte of the text's UTF-8 but letters, digits
/// and `-`, `.`, `_`, `~` becomes a `%` and two upper-case hexadecimal digits.
#[verifier::external_body]
pub(crate) fn url_encode(text: &str) -> (r: String)
    ensures
        r@ == url_encoded(text@),
{
    urlencoding::encode(text).into_owned()
}

/// `urlencoding::decode`: a `%` with two hexadecimal digits behind it becomes
/// the byte that they say, everything else stays as it is, and what comes out
/// has to be UTF-8.
#[verifier::external_body]
pub(crate) fn url_decode(text: &str) -> (r: Option<String>)
    ensures
        match r {
            Some(decoded) => url_decoded(text@) == Some(decoded@),
            None => url_decoded(text@) is None,
        },
{
    urlencoding::decode(text).ok().map(|decoded| decoded.into_owned())
}

// ---------------------------------------------------------------------------
// Laws
// ---------------------------------------------------------------------------

/// What is decoded is what was encoded, whatever the bytes.
pub proof fn percent_decoding_undoes_encoding(bytes: Seq<u8>)
    ensures
        percent_decoded(percent_encoded(bytes)) == bytes,
    decreases bytes.len(),
{
    if bytes.len() > 0 {
        let rest = bytes.drop_first();
        let encoded = percent_encoded(bytes);
        let tail = percent_encoded(rest);
        percent_decoding_undoes_encoding(rest);
        if is_unreserved(bytes[0]) {
            assert(encoded.skip(1) =~= tail);
        } else {
            assert(encoded[0] == 0x25);
            assert(encoded.skip(3) =~= tail);
            assert(hex_pair(encoded[1], encoded[2]) == bytes[0]);
        }
        assert(seq![bytes[0]] + rest =~= bytes);
    }
}

/// A text that was put into a URL is read from it unchanged.
pub proof fn url_text_reads_back(text: Seq<char>)
    ensures
        url_decoded(url_encoded(text)) == Some(text),
{
    let bytes = encode_utf8(text);
    let encoded = percent_encoded(bytes);
    lemma_encoded_is_plain(bytes);
    let written = ascii_text(encoded);
    assert(is_ascii_chars(written));
    is_ascii_chars_encode_utf8(written);
    assert(encode_utf8(written) =~= encoded);
    percent_decoding_undoes_encoding(bytes);
    encode_utf8_valid_utf8(text);
    encode_utf8_decode_utf8(text);
}

/// Whether `c` stands for itself in a URL or belongs to an encoded byte.
pub open spec fn is_url_char(c: char) -> bool {
    c == '%' || (c as u32) < 0x80 && is_unreserved(c as u8)
}

/// A text in a URL consists of unreserved characters and percent signs: it has
/// no white space, separators or line ends in it.
pub proof fn url_text_is_plain(text: Seq<char>)
    ensures
        forall|i: int|
            0 <= i < url_encoded(text).len() ==> is_url_char(#[trigger] url_encoded(text)[i]),
{
    lemma_encoded_is_plain(encode_utf8(text));
}

proof fn lemma_encoded_is_plain(bytes: Seq<u8>)
    ensures
        forall|i: int|
            0 <= i < percent_encoded(bytes).len() ==> (#[trigger] percent_encoded(bytes)[i] == 0x25
                || is_unreserved(percent_encoded(bytes)[i])),
    decreases bytes.len(),
{
    if bytes.len() > 0 {
        let tail = percent_encoded(bytes.drop_first());
        let piece = percent_piece(bytes[0]);
        lemma_encoded_is_plain(bytes.drop_first());
        assert forall|i: int| 0 <= i < percent_encoded(bytes).len() implies (
        #[trigger] percent_encoded(bytes)[i] == 0x25 || is_unreserved(
            percent_encoded(bytes)[i],
        )) by {
            if i < piece.len() {
                assert(percent_encoded(bytes)[i] == piece[i]);
            } else {
                assert(percent_encoded(bytes)[i] == tail[i - piece.len()]);
            }
        }
    }
}

/// Two hexadecimal digits say every byte, and one byte only.
pub proof fn hex_pairs_say_every_byte(b: u8)
    ensures
        is_hex(upper_hex(b as int / 16)),
        is_hex(upper_hex(b as int % 16)),
        hex_pair(upper_hex(b as int / 16), upper_hex(b as int % 16)) == b,
{
}

/// What is decoded has half as many bytes as there were digits.
pub proof fn hex_halves(digits: Seq<u8>)
    ensures
        hex_decoded(digits) matches Ok(bytes) ==> 2 * bytes.len() == digits.len(),
{
}

} // verus!
