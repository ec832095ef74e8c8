//! Which files can be handed to the readers of `symphonia`.
//!
//! The readers answer most malformed files with an error, but panic on some
//! numbers: a time scale of zero, a part that is too small for what it has to
//! hold, counts that add up to too much. Files with such numbers are told apart
//! here and left alone; and so are those that say of a part that it holds more
//! than is there, which the readers would make room for before they fail.
//!
//! A file is searched for the first mark that a reader goes by. ID3 tags are
//! passed over, and the search goes on behind them.

use vstd::prelude::*;
use vstd::slice::slice_subrange;

use crate::atoms;
use crate::atoms::{find_first_atom, find_samples, is_mp4_sound};
use crate::octets;
use crate::octets::{
    be24_at, be32_at, bit_is_set, byte_at, four_sevens_at, le16_at, le32_at,
};

verus! {

/// `RIFF`: with which a wave file opens.
pub const RIFF: u32 = 0x5249_4646;

/// `fLaC`: with which a FLAC file opens.
pub const FLAC: u32 = 0x664c_6143;

/// `ftyp`: which names a file of the MP4 family.
pub const FTYP: u32 = 0x6674_7970;

/// `Xing`: how many frames an MP3 file has.
pub const XING: u32 = 0x5869_6e67;

/// `Info`: the same, where all frames are of one size.
pub const INFO: u32 = 0x496e_666f;

/// `VBRI`: how many frames an MP3 file has, by another encoder.
pub const VBRI: u32 = 0x5642_5249;

/// `LAME`, `Lavf` and `Lavc`: the encoders that say how much they put before and
/// behind the audio.
pub const LAME: u32 = 0x4c41_4d45;

pub const LAVF: u32 = 0x4c61_7666;

pub const LAVC: u32 = 0x4c61_7663;

/// `fmt `: the part of a wave file that describes its samples.
pub const FMT: u32 = 0x666d_7420;

/// `LIST`: the part of a wave file that holds parts.
pub const LIST: u32 = 0x4c49_5354;

/// `INFO`: such a part with tags.
pub const TAG_LIST: u32 = 0x494e_464f;

/// The format of a wave file that says more in an extension.
pub const EXTENSIBLE: u16 = 0xfffe;

/// The formats of a wave file whose samples are differences.
pub const ADPCM: u16 = 0x0002;

pub const IMA_ADPCM: u16 = 0x0011;

/// How many channels there are names for.
pub const MAX_CHANNELS: u16 = 26;

/// Over how many bytes a mark is searched for.
pub const SEARCH: usize = 0xf_ffff;

/// How many bytes are looked at to tell a mark.
pub const MARK_BYTES: usize = 16;

/// What is put before and behind the audio by the transform of MP3 itself.
pub const TRANSFORM_DELAY: u32 = 529;

/// The parts of a FLAC file that hold lengths.
pub const COMMENT_BLOCK: u8 = 4;

pub const PICTURE_BLOCK: u8 = 6;

// ---------------------------------------------------------------------------
// Marks
// ---------------------------------------------------------------------------

/// Whether an ID3 tag begins at `i`.
pub open spec fn tag_at(data: Seq<u8>, i: int) -> bool {
    &&& octets::byte(data, i) == 0x49
    &&& octets::byte(data, i + 1) == 0x44
    &&& octets::byte(data, i + 2) == 0x33
}

/// Whether something that can be taken for a frame of MPEG audio begins at `i`.
pub open spec fn mpeg_at(data: Seq<u8>, i: int) -> bool {
    let second = octets::byte(data, i + 1);
    &&& octets::byte(data, i) == 0xff
    &&& 0xe2 <= second <= 0xe7 || 0xf2 <= second <= 0xf7 || second >= 0xfa
}

/// Whether something that can be taken for a frame of AAC begins at `i`.
pub open spec fn aac_at(data: Seq<u8>, i: int) -> bool {
    octets::byte(data, i) == 0xff && octets::byte(data, i + 1) == 0xf1
}

/// Whether a reader goes by what stands at `i`.
pub open spec fn mark_at(data: Seq<u8>, i: int) -> bool {
    ||| octets::be32(data, i) == RIFF
    ||| octets::be32(data, i) == FLAC
    ||| octets::be32(data, i) == FTYP
    ||| tag_at(data, i)
    ||| mpeg_at(data, i)
    ||| aac_at(data, i)
}

/// The first mark from `from` on, and before `to`.
pub open spec fn first_mark(data: Seq<u8>, from: int, to: int) -> Option<int>
    decreases to - from,
{
    if from >= to {
        None
    } else if mark_at(data, from) {
        Some(from)
    } else {
        first_mark(data, from + 1, to)
    }
}

/// Where a search for a mark that begins at `from` ends.
pub open spec fn search_end(data: Seq<u8>, from: int) -> int {
    if from + SEARCH < data.len() - (MARK_BYTES - 1) {
        from + SEARCH
    } else {
        data.len() - (MARK_BYTES - 1)
    }
}

/// The first mark that a search from `from` on finds.
pub open spec fn next_mark(data: Seq<u8>, from: int) -> Option<int> {
    first_mark(data, from, search_end(data, from))
}

/// Where the tag at `i` ends.
pub open spec fn tag_end(data: Seq<u8>, i: int) -> int {
    i + 10 + octets::four_sevens(data, i + 6)
}

/// The first mark from `from` on that is no tag, and not in one.
pub open spec fn audio_mark(data: Seq<u8>, from: int) -> Option<int>
    decreases data.len() - from,
{
    match next_mark(data, from) {
        Some(i) => if !tag_at(data, i) {
            Some(i)
        } else if from < tag_end(data, i) <= data.len() {
            audio_mark(data, tag_end(data, i))
        } else {
            None
        },
        None => None,
    }
}

/// Whether `data` is read as a wave file.
pub open spec fn is_wave(data: Seq<u8>) -> bool {
    audio_mark(data, 0) matches Some(i) && octets::be32(data, i) == RIFF
}

fn is_tag(data: &[u8], i: usize) -> (r: bool)
    ensures
        r == tag_at(data@, i as int),
{
    byte_at(data, i, 0) == 0x49 && byte_at(data, i, 1) == 0x44 && byte_at(data, i, 2) == 0x33
}

fn is_mpeg(data: &[u8], i: usize) -> (r: bool)
    ensures
        r == mpeg_at(data@, i as int),
{
    let second: u8 = byte_at(data, i, 1);
    byte_at(data, i, 0) == 0xff && ((0xe2 <= second && second <= 0xe7) || (0xf2 <= second
        && second <= 0xf7) || second >= 0xfa)
}

fn is_aac(data: &[u8], i: usize) -> (r: bool)
    ensures
        r == aac_at(data@, i as int),
{
    byte_at(data, i, 0) == 0xff && byte_at(data, i, 1) == 0xf1
}

fn is_mark(data: &[u8], i: usize) -> (r: bool)
    ensures
        r == mark_at(data@, i as int),
{
    let name: u32 = be32_at(data, i, 0);
    name == RIFF || name == FLAC || name == FTYP || is_tag(data, i) || is_mpeg(data, i) || is_aac(
        data,
        i,
    )
}

/// The first mark that a search from `from` on finds.
fn find_mark(data: &[u8], from: usize) -> (r: Option<usize>)
    ensures
        match r {
            Some(i) => next_mark(data@, from as int) == Some(i as int) && from <= i && i
                + MARK_BYTES <= data@.len(),
            None => next_mark(data@, from as int) is None,
        },
{
    let len: usize = data.len();
    if len < MARK_BYTES || from > len - MARK_BYTES {
        return None;
    }
    let last: usize = len - MARK_BYTES + 1;
    let to: usize = if last - from > SEARCH {
        from + SEARCH
    } else {
        last
    };
    let mut i: usize = from;
    while i < to
        invariant
            from <= i <= to,
            to <= last,
            last == data@.len() - (MARK_BYTES - 1),
            first_mark(data@, from as int, to as int) == first_mark(data@, i as int, to as int),
            to == search_end(data@, from as int),
        decreases to - i,
    {
        if is_mark(data, i) {
            return Some(i);
        }
        i = i + 1;
    }
    None
}

/// The first mark that is no tag, and not in one.
pub fn find_audio(data: &[u8]) -> (r: Option<usize>)
    ensures
        match r {
            Some(i) => audio_mark(data@, 0) == Some(i as int),
            None => audio_mark(data@, 0) is None,
        },
{
    let len: usize = data.len();
    let mut from: usize = 0;
    loop
        invariant
            from <= len,
            len == data@.len(),
            audio_mark(data@, 0) == audio_mark(data@, from as int),
        decreases len - from,
    {
        match find_mark(data, from) {
            Some(i) => {
                if !is_tag(data, i) {
                    return Some(i);
                }
                let size: usize = four_sevens_at(data, i, 6) as usize;
                if size > len - i - 10 {
                    return None;
                }
                from = i + 10 + size;
            },
            None => {
                return None;
            },
        }
    }
}

/// Whether `data` is read as a wave file.
pub fn opens_as_wave(data: &[u8]) -> (r: bool)
    ensures
        r == is_wave(data@),
{
    match find_audio(data) {
        Some(i) => be32_at(data, i, 0) == RIFF,
        None => false,
    }
}

// ---------------------------------------------------------------------------
// Tags
// ---------------------------------------------------------------------------

/// Whether a byte is a capital letter or a digit.
pub open spec fn names_frame(letter: u8) -> bool {
    0x30 <= letter <= 0x39 || 0x41 <= letter <= 0x5a
}

/// Whether a frame of a tag begins at `i`: whether it has a name.
pub open spec fn frame_at(data: Seq<u8>, i: int) -> bool {
    forall|k: int| i <= k < i + 4 ==> names_frame(#[trigger] octets::byte(data, k))
}

/// Whether the frames of a tag from `from` to `to` are in it.
pub open spec fn frames_fit(data: Seq<u8>, from: int, to: int, version: u8) -> bool
    decreases to - from,
{
    let size = if version == 4 {
        octets::four_sevens(data, from + 4)
    } else {
        octets::be32(data, from + 4)
    };
    if from + 10 > to || !frame_at(data, from) {
        true
    } else if size < 0 || from + 10 + size > to {
        false
    } else {
        frames_fit(data, from + 10 + size, to, version)
    }
}

/// How long the extended header of a tag of the third version is.
pub open spec fn third_extension(data: Seq<u8>, i: int) -> int {
    if octets::be32(data, i) == 10 && octets::byte(data, i + 4) >= 0x80 {
        14
    } else {
        10
    }
}

/// Where the restrictions stand in the extended header of a tag of the fourth
/// version: behind a byte for an update and six for a checksum.
pub open spec fn restrictions_offset(data: Seq<u8>, i: int) -> int {
    let flags = octets::byte(data, i + 5);
    6 + (if octets::has_bit(flags, 0x40) {
        1int
    } else {
        0
    }) + (if octets::has_bit(flags, 0x20) {
        6int
    } else {
        0
    })
}

/// How long such an extended header is.
pub open spec fn fourth_extension(data: Seq<u8>, i: int) -> int {
    restrictions_offset(data, i) + (if octets::has_bit(octets::byte(data, i + 5), 0x10) {
        2int
    } else {
        0
    })
}

/// Whether such an extended header has no restrictions, or some that do not
/// speak of the encoding of texts.
pub open spec fn restrictions_sound(data: Seq<u8>, i: int) -> bool {
    octets::has_bit(octets::byte(data, i + 5), 0x10) ==> !octets::has_bit(
        octets::byte(data, i + restrictions_offset(data, i) + 1),
        0x40,
    )
}

/// Whether the tag at `i` is there and holds its frames, and no restrictions
/// that are not borne. The frames of a tag of the third version whose bytes are escaped are
/// not where they say.
pub open spec fn tag_sound(data: Seq<u8>, i: int) -> bool {
    let version = octets::byte(data, i + 3);
    let flags = octets::byte(data, i + 5);
    let extended = octets::has_bit(flags, 0x40);
    let frames = i + 10;
    let end = tag_end(data, i);
    &&& end <= data.len()
    &&& version == 3 && flags < 0x80 ==> frames_fit(
        data,
        if extended {
            frames + third_extension(data, frames)
        } else {
            frames
        },
        end,
        version,
    )
    &&& version == 4 ==> {
        &&& extended ==> restrictions_sound(data, frames)
        &&& frames_fit(
            data,
            if extended {
                frames + fourth_extension(data, frames)
            } else {
                frames
            },
            end,
            version,
        )
    }
}

fn is_frame(data: &[u8], i: usize) -> (r: bool)
    ensures
        r == frame_at(data@, i as int),
{
    let mut k: usize = 0;
    while k < 4
        invariant
            k <= 4,
            forall|j: int| i <= j < i + k ==> names_frame(#[trigger] octets::byte(data@, j)),
        decreases 4 - k,
    {
        let letter: u8 = byte_at(data, i, k);
        if !((0x30 <= letter && letter <= 0x39) || (0x41 <= letter && letter <= 0x5a)) {
            return false;
        }
        k = k + 1;
    }
    true
}

fn do_frames_fit(data: &[u8], start: usize, extension: usize, to: usize, version: u8) -> (r: bool)
    requires
        start <= to,
    ensures
        r == frames_fit(data@, start + extension, to as int, version),
{
    if extension > to - start {
        return true;
    }
    let from: usize = start + extension;
    let mut at: usize = from;
    while to - at >= 10 && is_frame(data, at)
        invariant
            from == start + extension,
            from <= at <= to,
            frames_fit(data@, from as int, to as int, version) == frames_fit(
                data@,
                at as int,
                to as int,
                version,
            ),
        decreases to - at,
    {
        let size: u32 = if version == 4 {
            four_sevens_at(data, at, 4)
        } else {
            be32_at(data, at, 4)
        };
        if size as usize > to - at - 10 {
            return false;
        }
        at = at + 10 + size as usize;
    }
    true
}

fn restrictions_at(data: &[u8], i: usize) -> (r: usize)
    ensures
        r == restrictions_offset(data@, i as int),
        r <= 13,
{
    let flags: u8 = byte_at(data, i, 5);
    let update: usize = if bit_is_set(flags, 0x40) {
        1
    } else {
        0
    };
    let checksum: usize = if bit_is_set(flags, 0x20) {
        6
    } else {
        0
    };
    6 + update + checksum
}

fn is_tag_sound(data: &[u8], i: usize) -> (r: bool)
    requires
        i + MARK_BYTES <= data@.len(),
    ensures
        r == tag_sound(data@, i as int),
{
    let size: usize = four_sevens_at(data, i, 6) as usize;
    if size > data.len() - i - 10 {
        return false;
    }
    let version: u8 = byte_at(data, i, 3);
    let flags: u8 = byte_at(data, i, 5);
    let extended = bit_is_set(flags, 0x40);
    let frames: usize = i + 10;
    let end: usize = frames + size;
    if version == 3 {
        let extension: usize = if !extended {
            0
        } else if be32_at(data, frames, 0) == 10 && byte_at(data, frames, 4) >= 0x80 {
            14
        } else {
            10
        };
        flags >= 0x80 || do_frames_fit(data, frames, extension, end, version)
    } else if version == 4 {
        let restricted = extended && bit_is_set(byte_at(data, frames, 5), 0x10);
        let restrictions: usize = restrictions_at(data, frames);
        if restricted && bit_is_set(byte_at(data, frames, restrictions + 1), 0x40) {
            return false;
        }
        let extension: usize = if !extended {
            0
        } else if restricted {
            restrictions + 2
        } else {
            restrictions
        };
        do_frames_fit(data, frames, extension, end, version)
    } else {
        true
    }
}

// ---------------------------------------------------------------------------
// FLAC
// ---------------------------------------------------------------------------

/// Whether `count` comments from `from` on are there before `to`.
pub open spec fn comments_fit(data: Seq<u8>, from: int, to: int, count: nat) -> bool
    decreases count,
{
    if count == 0 {
        true
    } else {
        let next = from + 4 + octets::le32(data, from);
        &&& next <= to
        &&& comments_fit(data, next, to, (count - 1) as nat)
    }
}

/// Whether a list of comments, behind the name of who made it, is there.
pub open spec fn comment_block_fits(data: Seq<u8>, from: int, to: int) -> bool {
    let list = from + 4 + octets::le32(data, from);
    &&& list + 4 <= to
    &&& comments_fit(data, list + 4, to, octets::le32(data, list) as nat)
}

/// Whether a picture, behind its type and its description, is there.
pub open spec fn picture_block_fits(data: Seq<u8>, from: int, to: int) -> bool {
    let description = from + 8 + octets::be32(data, from + 4);
    let numbers = description + 4 + octets::be32(data, description);
    numbers + 20 + octets::be32(data, numbers + 16) <= to
}

/// Whether the blocks of a FLAC file from `from` on are there.
pub open spec fn blocks_fit(data: Seq<u8>, from: int) -> bool
    decreases data.len() - from,
{
    let kind = octets::byte(data, from) % 0x80;
    let next = from + 4 + octets::be24(data, from + 1);
    if from + 4 > data.len() || next > data.len() {
        false
    } else {
        &&& kind == COMMENT_BLOCK ==> comment_block_fits(data, from + 4, next)
        &&& kind == PICTURE_BLOCK ==> picture_block_fits(data, from + 4, next)
        &&& octets::byte(data, from) >= 0x80 || blocks_fit(data, next)
    }
}

fn do_comments_fit(data: &[u8], from: usize, to: usize, count: u32) -> (r: bool)
    requires
        from <= to <= data@.len(),
    ensures
        r == comments_fit(data@, from as int, to as int, count as nat),
{
    let mut at: usize = from;
    let mut left: u32 = count;
    while left > 0
        invariant
            from <= at <= to <= data@.len(),
            comments_fit(data@, from as int, to as int, count as nat) == comments_fit(
                data@,
                at as int,
                to as int,
                left as nat,
            ),
        decreases left,
    {
        let len: usize = le32_at(data, at, 0) as usize;
        if to - at < 4 || len > to - at - 4 {
            return false;
        }
        at = at + 4 + len;
        left = left - 1;
    }
    true
}

fn does_comment_block_fit(data: &[u8], from: usize, to: usize) -> (r: bool)
    requires
        from <= to <= data@.len(),
    ensures
        r == comment_block_fits(data@, from as int, to as int),
{
    let maker: usize = le32_at(data, from, 0) as usize;
    if to - from < 8 || maker > to - from - 8 {
        return false;
    }
    let list: usize = from + 4 + maker;
    do_comments_fit(data, list + 4, to, le32_at(data, list, 0))
}

fn does_picture_block_fit(data: &[u8], from: usize, to: usize) -> (r: bool)
    requires
        from <= to <= data@.len(),
    ensures
        r == picture_block_fits(data@, from as int, to as int),
{
    let kind: usize = be32_at(data, from, 4) as usize;
    if to - from < 8 || kind > to - from - 8 {
        return false;
    }
    let description: usize = from + 8 + kind;
    let text: usize = be32_at(data, description, 0) as usize;
    if to - description < 4 || text > to - description - 4 {
        return false;
    }
    let numbers: usize = description + 4 + text;
    let bytes: usize = be32_at(data, numbers, 16) as usize;
    to - numbers >= 20 && bytes <= to - numbers - 20
}

fn do_blocks_fit(data: &[u8], from: usize) -> (r: bool)
    requires
        from <= data@.len(),
    ensures
        r == blocks_fit(data@, from as int),
{
    let len: usize = data.len();
    let mut at: usize = from;
    loop
        invariant
            from <= at <= len,
            len == data@.len(),
            blocks_fit(data@, from as int) == blocks_fit(data@, at as int),
        decreases len - at,
    {
        let head: u8 = byte_at(data, at, 0);
        let size: usize = be24_at(data, at, 1) as usize;
        if len - at < 4 || size > len - at - 4 {
            return false;
        }
        let next: usize = at + 4 + size;
        if head % 0x80 == COMMENT_BLOCK && !does_comment_block_fit(data, at + 4, next) {
            return false;
        }
        if head % 0x80 == PICTURE_BLOCK && !does_picture_block_fit(data, at + 4, next) {
            return false;
        }
        if head >= 0x80 {
            return true;
        }
        at = next;
    }
}

// ---------------------------------------------------------------------------
// Waves
// ---------------------------------------------------------------------------

/// How many bits of a byte are set.
pub open spec fn ones(flags: u8) -> int {
    let n = flags as int;
    n % 2 + n / 2 % 2 + n / 4 % 2 + n / 8 % 2 + n / 16 % 2 + n / 32 % 2 + n / 64 % 2 + n / 128
}

/// How many bits of four bytes are set.
pub open spec fn mask_ones(data: Seq<u8>, i: int) -> int {
    let low = ones(octets::byte(data, i)) + ones(octets::byte(data, i + 1));
    let high = ones(octets::byte(data, i + 2)) + ones(octets::byte(data, i + 3));
    low + high
}

/// Whether the channels of an extended wave format can be given places: beyond
/// the places that it names, those above the highest.
pub open spec fn places_sound(data: Seq<u8>, i: int) -> bool {
    let channels = octets::le16(data, i + 10);
    let places = mask_ones(data, i + 28);
    &&& channels <= places + 31
    &&& octets::byte(data, i + 31) >= 0x80 ==> channels <= places
}

/// How many bytes of a block of differences are the head of one channel.
pub open spec fn head_bytes(format: int) -> int {
    if format == ADPCM {
        7
    } else {
        4
    }
}

/// Whether the bits of a block of differences, behind the heads of its channels,
/// are counted in 16 bits.
pub open spec fn differences_sound(data: Seq<u8>, i: int) -> bool {
    let channels = octets::le16(data, i + 10);
    let heads = head_bytes(octets::le16(data, i + 8)) * channels;
    let block = octets::le16(data, i + 20);
    &&& heads <= block
    &&& 8 * (block - heads) <= u16::MAX
}

/// A wave format without a sample rate, an extended one of plain samples without
/// bits or whose channels have no places, or blocks of differences out of all
/// measure.
pub open spec fn unsound_format(data: Seq<u8>, i: int) -> bool {
    let format = octets::le16(data, i + 8);
    let channels = octets::le16(data, i + 10);
    let bits = octets::le16(data, i + 22);
    &&& octets::be32(data, i) == FMT
    &&& {
        ||| octets::le32(data, i + 12) == 0
        ||| format == EXTENSIBLE && bits == 0 && octets::byte(data, i + 32) == 1
        ||| format == EXTENSIBLE && !places_sound(data, i)
        ||| (format == ADPCM || format == IMA_ADPCM) && bits == 4 && 1 <= channels <= MAX_CHANNELS
            && !differences_sound(data, i)
    }
}

/// A wave format that says to be longer than what is read of it.
pub open spec fn overlong_format(data: Seq<u8>, i: int) -> bool {
    let said = octets::le32(data, i + 4);
    let format = octets::le16(data, i + 8);
    &&& octets::be32(data, i) == FMT
    &&& {
        ||| format == EXTENSIBLE && said > 40
        ||| (format == ADPCM || format == IMA_ADPCM) && said > 18 + octets::le16(data, i + 24)
    }
}

/// A list of tags that is not there.
pub open spec fn lost_list(data: Seq<u8>, i: int) -> bool {
    &&& octets::be32(data, i) == LIST
    &&& octets::be32(data, i + 8) == TAG_LIST
    &&& octets::le32(data, i + 4) > data.len()
}

/// Whether what is read of a wave file that says to have `said` bytes is counted
/// in 32 bits.
pub open spec fn wave_counted(data: Seq<u8>, said: int) -> bool {
    said < 0x8000_0000 || data.len() < 0xffff_ff00 && (forall|j: int|
        0 <= j < data.len() ==> !#[trigger] overlong_format(data, j))
}

/// Whether every format and every list of tags in a wave file that begins at `i`
/// is sound, and it is counted.
pub open spec fn wave_sound(data: Seq<u8>, i: int) -> bool {
    &&& wave_counted(data, octets::le32(data, i + 4))
    &&& forall|j: int| 0 <= j < data.len() ==> !#[trigger] unsound_format(data, j)
    &&& forall|j: int| 0 <= j < data.len() ==> !#[trigger] lost_list(data, j)
}

fn count_ones(flags: u8) -> (r: u16)
    ensures
        r == ones(flags),
        r <= 8,
{
    let n: u16 = flags as u16;
    n % 2 + n / 2 % 2 + n / 4 % 2 + n / 8 % 2 + n / 16 % 2 + n / 32 % 2 + n / 64 % 2 + n / 128
}

fn count_mask_ones(data: &[u8], i: usize, offset: usize) -> (r: u16)
    requires
        offset < 0x80,
    ensures
        r == mask_ones(data@, i + offset),
        r <= 32,
{
    count_ones(byte_at(data, i, offset)) + count_ones(byte_at(data, i, offset + 1)) + count_ones(
        byte_at(data, i, offset + 2),
    ) + count_ones(byte_at(data, i, offset + 3))
}

fn are_places_sound(data: &[u8], i: usize) -> (r: bool)
    ensures
        r == places_sound(data@, i as int),
{
    let channels: u16 = le16_at(data, i, 10);
    let places: u16 = count_mask_ones(data, i, 28);
    channels <= places + 31 && (byte_at(data, i, 31) < 0x80 || channels <= places)
}

fn are_differences_sound(data: &[u8], i: usize) -> (r: bool)
    ensures
        r == differences_sound(data@, i as int),
{
    let channels: u32 = le16_at(data, i, 10) as u32;
    let heads: u32 = if le16_at(data, i, 8) == ADPCM {
        7 * channels
    } else {
        4 * channels
    };
    let block: u32 = le16_at(data, i, 20) as u32;
    heads <= block && 8 * (block - heads) <= 0xffff
}

fn format_is_unsound(data: &[u8], i: usize) -> (r: bool)
    ensures
        r == unsound_format(data@, i as int),
{
    if be32_at(data, i, 0) != FMT {
        return false;
    }
    let format: u16 = le16_at(data, i, 8);
    let channels: u16 = le16_at(data, i, 10);
    let bits: u16 = le16_at(data, i, 22);
    if le32_at(data, i, 12) == 0 {
        true
    } else if format == EXTENSIBLE {
        (bits == 0 && byte_at(data, i, 32) == 1) || !are_places_sound(data, i)
    } else if format == ADPCM || format == IMA_ADPCM {
        bits == 4 && 1 <= channels && channels <= MAX_CHANNELS && !are_differences_sound(data, i)
    } else {
        false
    }
}

fn format_is_overlong(data: &[u8], i: usize) -> (r: bool)
    ensures
        r == overlong_format(data@, i as int),
{
    if be32_at(data, i, 0) != FMT {
        return false;
    }
    let format: u16 = le16_at(data, i, 8);
    let said: u32 = le32_at(data, i, 4);
    if format == EXTENSIBLE {
        said > 40
    } else if format == ADPCM || format == IMA_ADPCM {
        said > 18 + le16_at(data, i, 24) as u32
    } else {
        false
    }
}

fn list_is_lost(data: &[u8], i: usize) -> (r: bool)
    ensures
        r == lost_list(data@, i as int),
{
    be32_at(data, i, 0) == LIST && be32_at(data, i, 8) == TAG_LIST && le32_at(data, i, 4) as u64
        > data.len() as u64
}

#[verifier::loop_isolation(false)]
fn is_wave_counted(data: &[u8], said: u32) -> (r: bool)
    ensures
        r == wave_counted(data@, said as int),
{
    if said < 0x8000_0000 {
        return true;
    }
    if data.len() as u64 >= 0xffff_ff00 {
        return false;
    }
    for i in 0..data.len()
        invariant
            forall|j: int| 0 <= j < i ==> !#[trigger] overlong_format(data@, j),
    {
        if format_is_overlong(data, i) {
            return false;
        }
    }
    true
}

fn is_wave_sound(data: &[u8], start: usize) -> (r: bool)
    ensures
        r == wave_sound(data@, start as int),
{
    if !is_wave_counted(data, le32_at(data, start, 4)) {
        return false;
    }
    for i in 0..data.len()
        invariant
            forall|j: int| 0 <= j < i ==> !#[trigger] unsound_format(data@, j),
            forall|j: int| 0 <= j < i ==> !#[trigger] lost_list(data@, j),
    {
        if format_is_unsound(data, i) || list_is_lost(data, i) {
            return false;
        }
    }
    true
}

// ---------------------------------------------------------------------------
// MPEG audio
// ---------------------------------------------------------------------------

/// Whether a frame of MP3 begins at `i`.
pub open spec fn layer_three_at(data: Seq<u8>, i: int) -> bool {
    let second = octets::byte(data, i + 1);
    octets::byte(data, i) == 0xff && second >= 0xe0 && (second / 2) % 4 == 1
}

/// Whether the frame at `i` is of the first version of MPEG audio.
pub open spec fn first_version(data: Seq<u8>, i: int) -> bool {
    (octets::byte(data, i + 1) / 8) % 4 == 3
}

/// How many samples the frame at `i` has.
pub open spec fn frame_samples(data: Seq<u8>, i: int) -> int {
    if first_version(data, i) {
        1152
    } else {
        576
    }
}

/// How long the head of the frame at `i` is, with what describes its samples.
pub open spec fn frame_head(data: Seq<u8>, i: int) -> int {
    let mono = octets::byte(data, i + 3) >= 0xc0;
    if first_version(data, i) {
        if mono {
            21
        } else {
            36
        }
    } else {
        if mono {
            13
        } else {
            21
        }
    }
}

/// Whether the frame at `i` holds no samples but says how many frames follow.
pub open spec fn count_at(data: Seq<u8>, i: int) -> bool {
    let info = i + frame_head(data, i);
    &&& layer_three_at(data, i)
    &&& octets::be32(data, info) == XING || octets::be32(data, info) == INFO
    &&& octets::byte(data, info + 7) % 2 == 1
}

/// Where, in the frame at `i`, an encoder says who it is: behind the count, the
/// bytes, the places and the quality, as far as they are there.
pub open spec fn encoder_offset(data: Seq<u8>, i: int) -> int {
    let flags = octets::byte(data, i + frame_head(data, i) + 7);
    frame_head(data, i) + 12 + (if octets::has_bit(flags, 2) {
        4int
    } else {
        0
    }) + (if octets::has_bit(flags, 4) {
        100int
    } else {
        0
    }) + (if octets::has_bit(flags, 8) {
        4int
    } else {
        0
    })
}

/// How many samples an encoder at `i` says to be cut off.
pub open spec fn cut_off(data: Seq<u8>, i: int) -> int {
    let name = octets::be32(data, i);
    let known = name == LAME || name == LAVF || name == LAVC;
    let delay = octets::be24(data, i + 21) / 0x1000;
    let padding = octets::be24(data, i + 21) % 0x1000;
    if !known {
        0
    } else if padding > TRANSFORM_DELAY {
        delay + padding
    } else {
        delay + TRANSFORM_DELAY
    }
}

/// A count of frames that last less than what is to be cut off them, whatever the
/// checksum behind it says.
pub open spec fn unsound_count(data: Seq<u8>, i: int) -> bool {
    &&& count_at(data, i)
    &&& octets::be32(data, i + frame_head(data, i) + 8) * frame_samples(data, i) < cut_off(
        data,
        i + encoder_offset(data, i),
    )
}

/// Whether every count of frames is sound.
pub open spec fn counts_sound(data: Seq<u8>) -> bool {
    forall|i: int| 0 <= i < data.len() ==> !#[trigger] unsound_count(data, i)
}

/// Whether the frame at `i` says how many frames follow, in one way or another.
pub open spec fn counted_at(data: Seq<u8>, i: int) -> bool {
    count_at(data, i) || layer_three_at(data, i) && octets::be32(data, i + 36) == VBRI
}

fn is_layer_three(data: &[u8], i: usize) -> (r: bool)
    ensures
        r == layer_three_at(data@, i as int),
{
    byte_at(data, i, 0) == 0xff && byte_at(data, i, 1) >= 0xe0 && (byte_at(data, i, 1) / 2) % 4 == 1
}

fn is_first_version(data: &[u8], i: usize) -> (r: bool)
    ensures
        r == first_version(data@, i as int),
{
    (byte_at(data, i, 1) / 8) % 4 == 3
}

fn frame_head_at(data: &[u8], i: usize) -> (r: usize)
    ensures
        r == frame_head(data@, i as int),
        r <= 36,
{
    let mono = byte_at(data, i, 3) >= 0xc0;
    if is_first_version(data, i) {
        if mono {
            21
        } else {
            36
        }
    } else {
        if mono {
            13
        } else {
            21
        }
    }
}

fn is_count(data: &[u8], i: usize) -> (r: bool)
    ensures
        r == count_at(data@, i as int),
{
    if !is_layer_three(data, i) {
        return false;
    }
    let head: usize = frame_head_at(data, i);
    let name: u32 = be32_at(data, i, head);
    (name == XING || name == INFO) && byte_at(data, i, head + 7) % 2 == 1
}

fn encoder_offset_at(data: &[u8], i: usize) -> (r: usize)
    ensures
        r == encoder_offset(data@, i as int),
        r <= 156,
{
    let head: usize = frame_head_at(data, i);
    let flags: u8 = byte_at(data, i, head + 7);
    let bytes: usize = if bit_is_set(flags, 2) {
        4
    } else {
        0
    };
    let places: usize = if bit_is_set(flags, 4) {
        100
    } else {
        0
    };
    let quality: usize = if bit_is_set(flags, 8) {
        4
    } else {
        0
    };
    head + 12 + bytes + places + quality
}

fn cut_off_at(data: &[u8], i: usize) -> (r: u32)
    ensures
        r == cut_off(data@, i as int),
{
    let name: u32 = be32_at(data, i, 0);
    let trim: u32 = be24_at(data, i, 21);
    let delay: u32 = trim / 0x1000;
    let padding: u32 = trim % 0x1000;
    if name != LAME && name != LAVF && name != LAVC {
        0
    } else if padding > TRANSFORM_DELAY {
        delay + padding
    } else {
        delay + TRANSFORM_DELAY
    }
}

fn count_is_unsound(data: &[u8], i: usize) -> (r: bool)
    ensures
        r == unsound_count(data@, i as int),
{
    if !is_count(data, i) {
        return false;
    }
    let count: u64 = be32_at(data, i, frame_head_at(data, i) + 8) as u64;
    let samples: u64 = if is_first_version(data, i) {
        1152 * count
    } else {
        576 * count
    };
    let encoder: usize = encoder_offset_at(data, i);
    let cut: u32 = if i < data.len() && encoder < data.len() - i {
        cut_off_at(data, i + encoder)
    } else {
        0
    };
    samples < cut as u64
}

fn are_counts_sound(data: &[u8]) -> (r: bool)
    ensures
        r == counts_sound(data@),
{
    for i in 0..data.len()
        invariant
            forall|j: int| 0 <= j < i ==> !#[trigger] unsound_count(data@, j),
    {
        if count_is_unsound(data, i) {
            return false;
        }
    }
    true
}

// ---------------------------------------------------------------------------
// Readable files
// ---------------------------------------------------------------------------

/// Whether the reader that goes by the mark at `i` bears what it finds. The one
/// for AAC looks at four places behind the mark, as far from it as it is from
/// the beginning.
pub open spec fn audio_sound(data: Seq<u8>, i: int, tagged: bool) -> bool {
    if octets::be32(data, i) == RIFF {
        wave_sound(data, i)
    } else if octets::be32(data, i) == FLAC {
        blocks_fit(data, i + 4)
    } else if octets::be32(data, i) == FTYP {
        atoms::mp4_sound(data, i, tagged)
    } else if aac_at(data, i) {
        2 * i + 4 <= data.len()
    } else {
        counts_sound(data)
    }
}

/// Whether the readers bear what a search from `from` on finds.
pub open spec fn readable_from(data: Seq<u8>, from: int) -> bool
    decreases data.len() - from,
{
    match next_mark(data, from) {
        Some(i) => if tag_at(data, i) {
            &&& tag_sound(data, i)
            &&& from < tag_end(data, i) <= data.len() ==> readable_from(data, tag_end(data, i))
        } else {
            audio_sound(data, i, from > 0)
        },
        None => true,
    }
}

/// Whether the readers bear `data`.
pub open spec fn readable(data: Seq<u8>) -> bool {
    readable_from(data, 0)
}

/// The part of `data` that says how many frames there are: all of it where it is
/// read as FLAC or as MP3 that opens with a count, and what stands before the
/// samples where it is read as MP4.
pub open spec fn counting_part(data: Seq<u8>) -> Option<Seq<u8>> {
    match audio_mark(data, 0) {
        Some(i) => if octets::be32(data, i) == FLAC || mpeg_at(data, i) && counted_at(data, i) {
            Some(data)
        } else if octets::be32(data, i) == FTYP {
            match atoms::samples_at(data, atoms::first_atom(i)) {
                Some(end) => Some(data.subrange(atoms::first_atom(i), end)),
                None => None,
            }
        } else {
            None
        },
        None => None,
    }
}

fn is_audio_sound(data: &[u8], i: usize, tagged: bool) -> (r: bool)
    requires
        i + MARK_BYTES <= data@.len(),
    ensures
        r == audio_sound(data@, i as int, tagged),
{
    let len: usize = data.len();
    let name: u32 = be32_at(data, i, 0);
    if name == RIFF {
        is_wave_sound(data, i)
    } else if name == FLAC {
        do_blocks_fit(data, i + 4)
    } else if name == FTYP {
        is_mp4_sound(data, i, tagged)
    } else if is_aac(data, i) {
        i <= len - i - 4
    } else {
        are_counts_sound(data)
    }
}

/// The part of `data` that says how many frames there are.
pub fn find_counting_part(data: &[u8]) -> (r: Option<&[u8]>)
    ensures
        match r {
            Some(part) => counting_part(data@) == Some(part@),
            None => counting_part(data@) is None,
        },
{
    match find_audio(data) {
        Some(i) => {
            let name: u32 = be32_at(data, i, 0);
            let counted = is_mpeg(data, i) && (is_count(data, i) || (is_layer_three(data, i)
                && be32_at(data, i, 36) == VBRI));
            if name == FLAC || counted {
                Some(data)
            } else if name == FTYP {
                let first: usize = find_first_atom(i);
                match find_samples(data, first) {
                    Some(end) => Some(slice_subrange(data, first, end)),
                    None => None,
                }
            } else {
                None
            }
        },
        None => None,
    }
}

/// Whether the readers bear `data`.
pub fn is_readable(data: &[u8]) -> (r: bool)
    ensures
        r == readable(data@),
{
    let len: usize = data.len();
    let mut from: usize = 0;
    loop
        invariant
            from <= len,
            len == data@.len(),
            readable(data@) == readable_from(data@, from as int),
        decreases len - from,
    {
        match find_mark(data, from) {
            Some(i) => {
                if !is_tag(data, i) {
                    return is_audio_sound(data, i, from > 0);
                }
                if !is_tag_sound(data, i) {
                    return false;
                }
                from = i + 10 + four_sevens_at(data, i, 6) as usize;
            },
            None => {
                return true;
            },
        }
    }
}

// ---------------------------------------------------------------------------
// Laws
// ---------------------------------------------------------------------------

/// What is wrong with a file that opens as MPEG audio does is wrong in its count
/// of frames: without one it can be read.
pub proof fn uncounted_mpeg_is_readable(data: Seq<u8>)
    requires
        mpeg_at(data, 0),
        forall|i: int|
            0 <= i < data.len() ==> #[trigger] octets::be32(data, i) != XING && octets::be32(
                data,
                i,
            ) != INFO,
    ensures
        readable(data),
{
}

/// Data in which no reader finds its mark can be read: there is nothing to bear.
pub proof fn unmarked_is_readable(data: Seq<u8>)
    requires
        forall|i: int| 0 <= i < data.len() ==> !#[trigger] mark_at(data, i),
    ensures
        readable(data),
        audio_mark(data, 0) is None,
{
    unmarked_has_no_first(data, 0, search_end(data, 0));
}

proof fn unmarked_has_no_first(data: Seq<u8>, from: int, to: int)
    requires
        forall|i: int| 0 <= i < data.len() ==> !#[trigger] mark_at(data, i),
        0 <= from,
        to <= data.len(),
    ensures
        first_mark(data, from, to) is None,
    decreases to - from,
{
    if from < to {
        unmarked_has_no_first(data, from + 1, to);
    }
}

/// A file with a sound tag before the audio is read as what stands behind the
/// tag.
pub proof fn tags_are_passed_over(data: Seq<u8>)
    requires
        data.len() >= MARK_BYTES,
        tag_at(data, 0),
        tag_sound(data, 0),
    ensures
        readable(data) == readable_from(data, tag_end(data, 0)),
        audio_mark(data, 0) == audio_mark(data, tag_end(data, 0)),
{
}

/// The marks of files and of their parts are their letters.
pub proof fn marks_are_their_letters()
    ensures
        RIFF == octets::letters("RIFF"@),
        FLAC == octets::letters("fLaC"@),
        FTYP == octets::letters("ftyp"@),
        XING == octets::letters("Xing"@),
        INFO == octets::letters("Info"@),
        VBRI == octets::letters("VBRI"@),
        LAME == octets::letters("LAME"@),
        LAVF == octets::letters("Lavf"@),
        LAVC == octets::letters("Lavc"@),
        FMT == octets::letters("fmt "@),
        LIST == octets::letters("LIST"@),
        TAG_LIST == octets::letters("INFO"@),
{
    reveal_strlit("RIFF");
    reveal_strlit("fLaC");
    reveal_strlit("ftyp");
    reveal_strlit("Xing");
    reveal_strlit("Info");
    reveal_strlit("VBRI");
    reveal_strlit("LAME");
    reveal_strlit("Lavf");
    reveal_strlit("Lavc");
    reveal_strlit("fmt ");
    reveal_strlit("LIST");
    reveal_strlit("INFO");
}

/// The mark that a search finds is the first, and none is found only where
/// there is none.
pub proof fn first_mark_is_the_first(data: Seq<u8>, from: int, to: int)
    ensures
        match first_mark(data, from, to) {
            Some(i) => from <= i < to && mark_at(data, i) && forall|j: int|
                from <= j < i ==> !#[trigger] mark_at(data, j),
            None => forall|j: int| from <= j < to ==> !#[trigger] mark_at(data, j),
        },
    decreases to - from,
{
    if from < to && !mark_at(data, from) {
        first_mark_is_the_first(data, from + 1, to);
    }
}

/// A file that opens with a mark which is no tag is read by that mark.
pub proof fn opening_mark_decides(data: Seq<u8>)
    requires
        data.len() >= 16,
        mark_at(data, 0),
        !tag_at(data, 0),
    ensures
        audio_mark(data, 0) == Some(0int),
        readable(data) == audio_sound(data, 0, false),
        is_wave(data) <==> octets::be32(data, 0) == RIFF,
{
}

/// A wave is told by its opening, and is not read where one of its formats has
/// no sample rate.
pub proof fn waves_need_a_sample_rate(data: Seq<u8>, at: int)
    requires
        data.len() >= 16,
        octets::be32(data, 0) == octets::letters("RIFF"@),
        0 <= at < data.len(),
        octets::be32(data, at) == octets::letters("fmt "@),
        octets::le32(data, at + 12) == 0,
    ensures
        is_wave(data),
        !readable(data),
        counting_part(data) is None,
{
    marks_are_their_letters();
    lemma_opens_as_wave(data);
    assert(unsound_format(data, at));
}

proof fn lemma_opens_as_wave(data: Seq<u8>)
    requires
        data.len() >= 16,
        octets::be32(data, 0) == RIFF,
    ensures
        is_wave(data),
        readable(data) == wave_sound(data, 0),
        counting_part(data) is None,
{
    octets::numbers_have_their_bytes_as_places(data, 0);
    assert(octets::byte(data, 0) == 0x52);
    opening_mark_decides(data);
}

/// A wave of plain samples, with a sample rate wherever it is described, is
/// read.
pub proof fn plain_waves_are_read(data: Seq<u8>)
    requires
        data.len() >= 16,
        octets::be32(data, 0) == octets::letters("RIFF"@),
        octets::le32(data, 4) < 0x8000_0000,
        forall|j: int|
            0 <= j < data.len() && #[trigger] octets::be32(data, j) == octets::letters("fmt "@)
                ==> octets::le16(data, j + 8) == 1 && octets::le32(data, j + 12) > 0,
        forall|j: int|
            0 <= j < data.len() && #[trigger] octets::be32(data, j) == octets::letters("LIST"@)
                ==> octets::le32(data, j + 4) <= data.len(),
    ensures
        readable(data),
        is_wave(data),
{
    marks_are_their_letters();
    lemma_opens_as_wave(data);
    assert forall|j: int| 0 <= j < data.len() implies !#[trigger] unsound_format(data, j) by {
        let _ = octets::be32(data, j);
    }
    assert forall|j: int| 0 <= j < data.len() implies !#[trigger] lost_list(data, j) by {
        let _ = octets::be32(data, j);
    }
}

/// A list of tags that says to be longer than the file is not read.
pub proof fn lost_lists_are_not_read(data: Seq<u8>, at: int)
    requires
        data.len() >= 16,
        octets::be32(data, 0) == octets::letters("RIFF"@),
        0 <= at < data.len(),
        octets::be32(data, at) == octets::letters("LIST"@),
        octets::be32(data, at + 8) == octets::letters("INFO"@),
        octets::le32(data, at + 4) > data.len(),
    ensures
        !readable(data),
{
    marks_are_their_letters();
    lemma_opens_as_wave(data);
    assert(lost_list(data, at));
}

/// A byte has the bits of its half and the one that is left.
pub proof fn bits_are_counted(n: u8)
    requires
        n < 0x80,
    ensures
        ones(0) == 0,
        ones((2 * n) as u8) == ones(n),
        ones((2 * n + 1) as u8) == ones(n) + 1,
{
}

/// A FLAC file is told by its opening, counts its frames itself, and is read
/// where its blocks are there.
pub proof fn flac_is_read_where_its_blocks_are(data: Seq<u8>)
    requires
        data.len() >= 16,
        octets::be32(data, 0) == octets::letters("fLaC"@),
    ensures
        !is_wave(data),
        counting_part(data) == Some(data),
        readable(data) <==> blocks_fit(data, 4),
{
    marks_are_their_letters();
    octets::numbers_have_their_bytes_as_places(data, 0);
    assert(octets::byte(data, 0) == 0x66);
    opening_mark_decides(data);
}

/// The blocks of a FLAC file follow each other by their sizes up to the one
/// that says to be the last; none may end behind the file.
pub proof fn blocks_follow_each_other(data: Seq<u8>, from: int)
    ensures
        ({
            let head = octets::byte(data, from);
            let next = from + 4 + octets::be24(data, from + 1);
            let plain = head as int % 0x80 != 4 && head as int % 0x80 != 6;
            &&& next > data.len() ==> !blocks_fit(data, from)
            &&& next <= data.len() && plain && head >= 0x80 ==> blocks_fit(data, from)
            &&& next <= data.len() && plain && head < 0x80 ==> blocks_fit(data, from) == blocks_fit(
                data,
                next,
            )
            &&& blocks_fit(data, from) && head < 0x80 ==> blocks_fit(data, next)
            &&& blocks_fit(data, from) && head as int % 0x80 == 4 ==> comment_block_fits(
                data,
                from + 4,
                next,
            )
            &&& blocks_fit(data, from) && head as int % 0x80 == 6 ==> picture_block_fits(
                data,
                from + 4,
                next,
            )
        }),
{
}

/// Comments and pictures have to end where their block does, or before.
pub proof fn parts_end_within_their_block(data: Seq<u8>, from: int, to: int, count: nat)
    ensures
        comments_fit(data, from, to, 0),
        comments_fit(data, from, to, count + 1) <==> from + 4 + octets::le32(data, from) <= to
            && comments_fit(data, from + 4 + octets::le32(data, from), to, count),
        comment_block_fits(data, from, to) ==> from + 8 + octets::le32(data, from) <= to,
        comment_block_fits(data, from, to) <== from + 8 + octets::le32(data, from) <= to
            && octets::le32(data, from + 4 + octets::le32(data, from)) == 0,
        picture_block_fits(data, from, to) ==> from + 32 + octets::be32(data, from + 4) <= to,
        octets::be32(data, from + 4) == 0 && octets::be32(data, from + 8) == 0 ==> (
        picture_block_fits(data, from, to) <==> from + 32 + octets::be32(data, from + 28) <= to),
{
}

/// Of MPEG audio only a count of frames can be unsound, and none is that counts
/// as many as are ever cut off.
pub proof fn full_counts_are_sound(data: Seq<u8>, i: int)
    requires
        octets::be32(data, i + frame_head(data, i) + 8) >= 15,
    ensures
        !unsound_count(data, i),
{
}

/// A count of no frames is unsound where its encoder says who it is: more is
/// cut off than there is.
pub proof fn empty_counts_are_unsound(data: Seq<u8>, i: int)
    requires
        0 <= i < data.len(),
        count_at(data, i),
        octets::be32(data, i + frame_head(data, i) + 8) == 0,
        octets::be32(data, i + encoder_offset(data, i)) == octets::letters("LAME"@),
    ensures
        unsound_count(data, i),
        data.len() >= 16 && mpeg_at(data, 0) ==> !readable(data),
{
    marks_are_their_letters();
    assert(unsound_count(data, i));
    if data.len() >= 16 && mpeg_at(data, 0) {
        octets::numbers_have_their_bytes_as_places(data, 0);
        opening_mark_decides(data);
    }
}

/// What is cut off is the delay and the padding that the encoder says, the
/// padding no less than that of the transform; an unknown encoder cuts nothing.
pub proof fn known_encoders_cut_what_they_say(data: Seq<u8>, i: int, delay: int, padding: int)
    requires
        0 <= padding < 0x1000,
        octets::be24(data, i + 21) == 0x1000 * delay + padding,
    ensures
        ({
            let name = octets::be32(data, i);
            let known = name == octets::letters("LAME"@) || name == octets::letters("Lavf"@) || name
                == octets::letters("Lavc"@);
            &&& known && padding >= 529 ==> cut_off(data, i) == delay + padding
            &&& known && padding < 529 ==> cut_off(data, i) == delay + 529
            &&& !known ==> cut_off(data, i) == 0
        }),
{
    marks_are_their_letters();
}

/// A frame of the first version has twice the samples of any other, and its
/// head is longer in stereo.
pub proof fn frames_have_their_samples(data: Seq<u8>, i: int)
    ensures
        octets::byte(data, i + 1) as int / 8 % 4 == 3 ==> frame_samples(data, i) == 1152
            && frame_head(data, i) == if octets::byte(data, i + 3) < 0xc0 {
            36int
        } else {
            21
        },
        octets::byte(data, i + 1) as int / 8 % 4 != 3 ==> frame_samples(data, i) == 576
            && frame_head(data, i) == if octets::byte(data, i + 3) < 0xc0 {
            21int
        } else {
            13
        },
{
}

/// Audio in AAC is read where the file goes on behind its mark as far as before
/// it.
pub proof fn aac_needs_room_behind_its_mark(data: Seq<u8>, i: int)
    requires
        0 <= i,
        i + 16 <= data.len(),
        i < 0xf_ffff,
        octets::byte(data, i) == 0xff,
        octets::byte(data, i + 1) == 0xf1,
        forall|j: int| 0 <= j < i ==> !#[trigger] mark_at(data, j),
    ensures
        readable(data) <==> 2 * i + 4 <= data.len(),
{
    octets::numbers_have_their_bytes_as_places(data, i);
    lemma_first_mark_at(data, 0, search_end(data, 0), i);
}

proof fn lemma_first_mark_at(data: Seq<u8>, from: int, to: int, at: int)
    requires
        from <= at < to,
        mark_at(data, at),
        forall|j: int| from <= j < at ==> !#[trigger] mark_at(data, j),
    ensures
        first_mark(data, from, to) == Some(at),
{
    first_mark_is_the_first(data, from, to);
    match first_mark(data, from, to) {
        Some(i) => {
            if i < at {
                assert(!mark_at(data, i));
            }
            if at < i {
                assert(!mark_at(data, at));
            }
        },
        None => {
            assert(!mark_at(data, at));
        },
    }
}

/// Of a file of the MP4 family, what stands before its samples counts them; it
/// is read where its atoms are borne.
pub proof fn mp4_counts_before_its_samples(data: Seq<u8>)
    requires
        data.len() >= 20,
        octets::be32(data, 4) == octets::letters("ftyp"@),
        forall|j: int| 0 <= j < 4 ==> !#[trigger] mark_at(data, j),
    ensures
        readable(data) <==> atoms::atoms_sound(
            data,
            0,
            data.len() as int,
            atoms::AtomList::File,
        ),
        match atoms::samples_at(data, 0) {
            Some(at) => counting_part(data) == Some(data.subrange(0, at)),
            None => counting_part(data) is None,
        },
        !is_wave(data),
{
    marks_are_their_letters();
    octets::numbers_have_their_bytes_as_places(data, 4);
    assert(octets::byte(data, 4) == 0x66);
    lemma_first_mark_at(data, 0, search_end(data, 0), 4);
    atoms::files_are_borne_where_their_atoms_are(data, 4);
}

/// A tag ends as many bytes behind its head as it says, and one that ends
/// behind the file is not read.
pub proof fn tags_end_where_they_say(data: Seq<u8>)
    requires
        data.len() >= 16,
        octets::byte(data, 0) == 'I' as int,
        octets::byte(data, 1) == 'D' as int,
        octets::byte(data, 2) == '3' as int,
    ensures
        tag_end(data, 0) == 10 + octets::four_sevens(data, 6),
        10 + octets::four_sevens(data, 6) > data.len() ==> !readable(data),
        10 + octets::four_sevens(data, 6) <= data.len() && octets::byte(data, 3) != 3
            && octets::byte(data, 3) != 4 ==> readable(data) == readable_from(
            data,
            10 + octets::four_sevens(data, 6),
        ),
{
}

/// The frames of a tag follow each other by their sizes; one that ends behind
/// the tag is not borne.
pub proof fn frames_follow_each_other(data: Seq<u8>, from: int, to: int, version: u8)
    requires
        from + 10 <= to,
        forall|k: int| from <= k < from + 4 ==> names_frame(#[trigger] octets::byte(data, k)),
    ensures
        ({
            let size = if version == 4 {
                octets::four_sevens(data, from + 4)
            } else {
                octets::be32(data, from + 4)
            };
            &&& from + 10 + size > to ==> !frames_fit(data, from, to, version)
            &&& from + 10 + size <= to ==> frames_fit(data, from, to, version) == frames_fit(
                data,
                from + 10 + size,
                to,
                version,
            )
        }),
{
}

/// A frame of MP3 opens with eleven set bits and the number of its layer.
pub proof fn mp3_frames_are_told_by_their_head(data: Seq<u8>, i: int)
    ensures
        layer_three_at(data, i) ==> octets::byte(data, i) == 0xff && octets::byte(data, i + 1)
            / 0x20 == 7 && octets::byte(data, i + 1) % 8 / 2 == 1,
        octets::byte(data, i) == 0xff && octets::byte(data, i + 1) / 0x20 == 7 && octets::byte(
            data,
            i + 1,
        ) % 8 / 2 == 1 ==> layer_three_at(data, i),
{
}

/// A frame counts those that follow under one of three names, each in its own
/// place.
pub proof fn counts_are_told_by_their_names(data: Seq<u8>, i: int)
    ensures
        counted_at(data, i) <==> layer_three_at(data, i) && {
            ||| octets::be32(data, i + 36) == octets::letters("VBRI"@)
            ||| (octets::be32(data, i + frame_head(data, i)) == octets::letters("Xing"@)
                || octets::be32(data, i + frame_head(data, i)) == octets::letters("Info"@))
                && octets::byte(data, i + frame_head(data, i) + 7) % 2 == 1
        },
        count_at(data, i) ==> counted_at(data, i),
{
    marks_are_their_letters();
}

/// MP3 that opens with a count is counted by the file itself, and MP3 that does
/// not is counted by nothing.
pub proof fn mp3_is_counted_by_its_first_frame(data: Seq<u8>)
    requires
        data.len() >= 16,
        mpeg_at(data, 0),
    ensures
        counted_at(data, 0) ==> counting_part(data) == Some(data),
        !counted_at(data, 0) ==> counting_part(data) is None,
        readable(data) <==> forall|i: int|
            0 <= i < data.len() ==> !#[trigger] unsound_count(data, i),
{
    octets::numbers_have_their_bytes_as_places(data, 0);
    opening_mark_decides(data);
}

/// The encoder's name stands behind the count and whatever else the flags say
/// to be there: four bytes for the size, a hundred for the places, four for the
/// quality.
pub proof fn encoder_stands_behind_the_count(data: Seq<u8>, i: int)
    ensures
        ({
            let flags = octets::byte(data, i + frame_head(data, i) + 7);
            let at = encoder_offset(data, i) - frame_head(data, i);
            &&& flags % 0x10 < 2 ==> at == 12
            &&& flags % 0x10 == 3 ==> at == 16
            &&& flags % 0x10 == 5 ==> at == 112
            &&& flags % 0x10 == 9 ==> at == 16
            &&& flags % 0x10 == 7 ==> at == 116
            &&& flags % 0x10 == 11 ==> at == 20
            &&& flags % 0x10 == 13 ==> at == 116
            &&& flags % 0x10 == 15 ==> at == 120
        }),
{
}

/// A format that says no more than it is read for is never overlong; an extended
/// one is beyond forty bytes, and one of differences beyond what it says to
/// follow.
pub proof fn formats_are_overlong_beyond_their_kind(data: Seq<u8>, i: int)
    requires
        octets::be32(data, i) == octets::letters("fmt "@),
    ensures
        octets::le16(data, i + 8) == 0xfffe ==> (overlong_format(data, i) <==> octets::le32(
            data,
            i + 4,
        ) > 40),
        octets::le16(data, i + 8) == 2 || octets::le16(data, i + 8) == 17 ==> (overlong_format(
            data,
            i,
        ) <==> octets::le32(data, i + 4) > 18 + octets::le16(data, i + 24)),
        octets::le16(data, i + 8) != 0xfffe && octets::le16(data, i + 8) != 2 && octets::le16(
            data,
            i + 8,
        ) != 17 ==> !overlong_format(data, i),
{
    marks_are_their_letters();
}

/// A wave whose size is counted in 31 bits may have overlong formats; a longer
/// one may not.
pub proof fn long_waves_need_exact_formats(data: Seq<u8>, said: int, at: int)
    ensures
        said < 0x8000_0000 ==> wave_counted(data, said),
        said >= 0x8000_0000 && 0 <= at < data.len() && overlong_format(data, at) ==> !wave_counted(
            data,
            said,
        ),
        said >= 0x8000_0000 && data.len() >= 0xffff_ff00 ==> !wave_counted(data, said),
{
}

/// Of a format with a sample rate only an extended one, or one of differences,
/// can be unsound: the first without bits for its plain samples, or without
/// places for its channels, the second where its blocks are out of measure.
pub proof fn unsound_formats_are_told_by_their_kind(data: Seq<u8>, i: int)
    requires
        octets::be32(data, i) == octets::letters("fmt "@),
        octets::le32(data, i + 12) > 0,
    ensures
        octets::le16(data, i + 8) == 0xfffe ==> (unsound_format(data, i) <==> (octets::le16(
            data,
            i + 22,
        ) == 0 && octets::byte(data, i + 32) == 1) || !places_sound(data, i)),
        octets::le16(data, i + 8) == 2 || octets::le16(data, i + 8) == 17 ==> (unsound_format(
            data,
            i,
        ) <==> octets::le16(data, i + 22) == 4 && 1 <= octets::le16(data, i + 10) <= 26
            && !differences_sound(data, i)),
        octets::le16(data, i + 8) != 0xfffe && octets::le16(data, i + 8) != 2 && octets::le16(
            data,
            i + 8,
        ) != 17 ==> !unsound_format(data, i),
{
    marks_are_their_letters();
}

/// Channels have places where there are no more of them than places that are
/// named and those above the highest, of which there are none above the top.
pub proof fn channels_have_places(data: Seq<u8>, i: int)
    ensures
        ({
            let channels = octets::le16(data, i + 10);
            let named = ones(octets::byte(data, i + 28)) + ones(octets::byte(data, i + 29)) + ones(
                octets::byte(data, i + 30),
            ) + ones(octets::byte(data, i + 31));
            &&& octets::byte(data, i + 31) >= 0x80 ==> (places_sound(data, i) <==> channels
                <= named)
            &&& octets::byte(data, i + 31) < 0x80 ==> (places_sound(data, i) <==> channels <= named
                + 31)
        }),
{
}

/// A block of differences is in measure where it holds the heads of its
/// channels, and its bits behind them are counted in 16 bits.
pub proof fn blocks_of_differences_are_measured(data: Seq<u8>, i: int)
    ensures
        ({
            let channels = octets::le16(data, i + 10);
            let block = octets::le16(data, i + 20);
            &&& octets::le16(data, i + 8) == 2 ==> (differences_sound(data, i) <==> 7 * channels
                <= block && 8 * (block - 7 * channels) <= 0xffff)
            &&& octets::le16(data, i + 8) == 17 ==> (differences_sound(data, i) <==> 4 * channels
                <= block && 8 * (block - 4 * channels) <= 0xffff)
        }),
{
}

/// The extended header of a tag of the third version has four bytes more where
/// it has a checksum.
pub proof fn third_extension_may_have_a_checksum(data: Seq<u8>, i: int)
    ensures
        octets::be32(data, i) == 10 && octets::byte(data, i + 4) >= 0x80 ==> third_extension(data, i)
            == 14,
        octets::be32(data, i) != 10 || octets::byte(data, i + 4) < 0x80 ==> third_extension(data, i)
            == 10,
{
}

/// The extended header of a tag of the fourth version has a byte for an update,
/// six for a checksum and two for restrictions, each where its flag is set; a
/// restriction on the encoding of texts is not borne.
pub proof fn fourth_extension_follows_its_flags(data: Seq<u8>, i: int)
    ensures
        ({
            let flags = octets::byte(data, i + 5);
            let update: int = if flags % 0x80 >= 0x40 {
                1
            } else {
                0
            };
            let checksum: int = if flags % 0x40 >= 0x20 {
                6
            } else {
                0
            };
            let restrictions: int = if flags % 0x20 >= 0x10 {
                2
            } else {
                0
            };
            &&& fourth_extension(data, i) == 6 + update + checksum + restrictions
            &&& restrictions == 0 ==> restrictions_sound(data, i)
            &&& restrictions == 2 ==> (restrictions_sound(data, i) <==> octets::byte(
                data,
                i + 7 + update + checksum,
            ) % 0x80 < 0x40)
        }),
{
}

/// A frame of a tag is named by four capital letters or digits.
pub proof fn frames_have_four_letters(data: Seq<u8>, i: int, c: u8)
    ensures
        frame_at(data, i) <==> names_frame(octets::byte(data, i)) && names_frame(
            octets::byte(data, i + 1),
        ) && names_frame(octets::byte(data, i + 2)) && names_frame(octets::byte(data, i + 3)),
        names_frame(c) <==> ('0' as int <= c <= '9' as int) || ('A' as int <= c <= 'Z' as int),
{
    if names_frame(octets::byte(data, i)) && names_frame(octets::byte(data, i + 1)) && names_frame(
        octets::byte(data, i + 2),
    ) && names_frame(octets::byte(data, i + 3)) {
        assert forall|k: int| i <= k < i + 4 implies names_frame(#[trigger] octets::byte(data, k)) by {
            assert(k == i || k == i + 1 || k == i + 2 || k == i + 3);
        }
    }
    if frame_at(data, i) {
        assert(names_frame(octets::byte(data, i)));
        assert(names_frame(octets::byte(data, i + 1)));
        assert(names_frame(octets::byte(data, i + 2)));
        assert(names_frame(octets::byte(data, i + 3)));
    }
}

/// A list of one comment is there where the comment ends with its block or
/// before it.
pub proof fn single_comments_end_within_their_block(data: Seq<u8>, from: int, to: int)
    requires
        octets::le32(data, from + 4 + octets::le32(data, from)) == 1,
    ensures
        comment_block_fits(data, from, to) <==> from + 12 + octets::le32(data, from) + octets::le32(
            data,
            from + 8 + octets::le32(data, from),
        ) <= to,
{
    reveal_with_fuel(comments_fit, 2);
}

} // verus!
