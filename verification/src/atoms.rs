//! Which files of the MP4 family the reader for them bears. Such a file is a list
//! of atoms, each with a size, a name, and contents, which may again be atoms.

use vstd::prelude::*;

use crate::octets;
use crate::octets::{
    be16_at, be32_at, be64_at, bit_is_set, byte_at, length_at, length_bytes_at,
};

verus! {

/// `moov`: what an MP4 file holds.
pub const MOOV: u32 = 0x6d6f_6f76;

/// `mdat`: the samples.
pub const MDAT: u32 = 0x6d64_6174;

/// `moof`: a fragment with samples.
pub const MOOF: u32 = 0x6d6f_6f66;

/// `trak`: a track.
pub const TRAK: u32 = 0x7472_616b;

/// `mdia`: the media of a track.
pub const MDIA: u32 = 0x6d64_6961;

/// `minf`: what kind of media it is.
pub const MINF: u32 = 0x6d69_6e66;

/// `stbl`: the tables of its samples.
pub const STBL: u32 = 0x7374_626c;

/// `edts`: the edits of a track.
pub const EDTS: u32 = 0x6564_7473;

/// `udta`: what users add.
pub const UDTA: u32 = 0x7564_7461;

/// `mvex`: that fragments follow.
pub const MVEX: u32 = 0x6d76_6578;

/// `wave`: how the samples of a track are decoded.
pub const WAVE: u32 = 0x7761_7665;

/// `meta`: the tags of a file.
pub const META: u32 = 0x6d65_7461;

/// `ilst`: the list of tags.
pub const ILST: u32 = 0x696c_7374;

/// `stsd`: the description of the samples.
pub const STSD: u32 = 0x7374_7364;

/// `stts`: how long samples last.
pub const STTS: u32 = 0x7374_7473;

/// `stsc`: how samples are grouped.
pub const STSC: u32 = 0x7374_7363;

/// `sidx`: where segments are.
pub const SIDX: u32 = 0x7369_6478;

/// `stsz`: how large samples are.
pub const STSZ: u32 = 0x7374_737a;

/// `stco`: where groups of samples are.
pub const STCO: u32 = 0x7374_636f;

/// `co64`: the same, in 64 bits.
pub const CO64: u32 = 0x636f_3634;

/// `mdhd`: the time scale of a track.
pub const MDHD: u32 = 0x6d64_6864;

/// `hdlr`: what a track is for.
pub const HDLR: u32 = 0x6864_6c72;

/// `data`: the value of a tag.
pub const DATA: u32 = 0x6461_7461;

/// `mean`: the name space of a tag.
pub const MEAN: u32 = 0x6d65_616e;

/// `name`: the name of a tag.
pub const NAME: u32 = 0x6e61_6d65;

/// `esds`: how AAC is to be decoded.
pub const ESDS: u32 = 0x6573_6473;

/// `lpcm`: samples as they are.
pub const LPCM: u32 = 0x6c70_636d;

/// The descriptors in `esds`.
pub const STREAM_DESCRIPTOR: u8 = 3;

pub const CONFIG_DESCRIPTOR: u8 = 4;

pub const SYNC_DESCRIPTOR: u8 = 6;

/// From here on, positions are no longer counted.
pub const MAX_SIZE: u64 = 0x8000_0000_0000_0000;

/// What a list of atoms is in. The names of atoms mean nothing elsewhere.
#[derive(Debug, Clone, Copy, PartialEq, Eq, Structural)]
pub enum AtomList {
    File,
    Movie,
    Track,
    Media,
    /// What kind of media it is.
    Kind,
    /// The tables of samples.
    Tables,
    /// The description of samples.
    Entry,
    /// How samples are decoded.
    Wave,
    /// What users add.
    User,
    Meta,
    /// The list of tags.
    Tags,
    Tag,
    /// Atoms of which nothing is asked.
    Other,
}

/// How deep a list can go on.
pub open spec fn depth(list: AtomList) -> nat {
    match list {
        AtomList::File => 8,
        AtomList::Movie => 7,
        AtomList::Track => 6,
        AtomList::Media => 5,
        AtomList::Kind => 4,
        AtomList::Tables => 3,
        AtomList::Entry => 2,
        AtomList::Wave => 1,
        AtomList::User => 6,
        AtomList::Meta => 5,
        AtomList::Tags => 4,
        AtomList::Tag => 3,
        AtomList::Other => 0,
    }
}

/// How long the head of an atom at `i` is: its size and its name, and its size
/// again where 32 bits are not enough.
pub open spec fn atom_head(data: Seq<u8>, i: int) -> int {
    if octets::be32(data, i) == 1 {
        16
    } else {
        8
    }
}

/// How long an atom at `i` says to be; zero where it goes on to the end of its
/// list.
pub open spec fn atom_size(data: Seq<u8>, i: int) -> int {
    if octets::be32(data, i) == 1 {
        octets::be64(data, i + 8)
    } else {
        octets::be32(data, i)
    }
}

/// How much room there is in an atom at `i`: none where it goes on to the end of
/// its list.
pub open spec fn atom_room(data: Seq<u8>, i: int) -> int {
    if atom_size(data, i) == 0 {
        0
    } else {
        atom_size(data, i) - atom_head(data, i)
    }
}

/// Whether an atom begins at `i`, with room for its head. Where none does, the
/// reader ends.
pub open spec fn atom_at(data: Seq<u8>, i: int) -> bool {
    &&& i + atom_head(data, i) <= data.len()
    &&& octets::be32(data, i) == 0 || atom_size(data, i) >= atom_head(data, i)
}

/// Where what is `room` bytes long from `from` on ends, or where the file does.
pub open spec fn end_within(data: Seq<u8>, from: int, room: int) -> int {
    if from + room < data.len() {
        from + room
    } else {
        data.len() as int
    }
}

/// Whether samples that are described under this name are audio: `mp4a`, `alac`,
/// `fLaC`, `Opus`, `.mp3`, `lpcm`, `wave`, `alaw`, `ulaw`, `raw `, `sowt`, `twos`,
/// `in24`, `in32`, `fl32` and `fl64`.
pub open spec fn is_audio_entry(name: int) -> bool {
    ||| name == 0x6d70_3461
    ||| name == 0x616c_6163
    ||| name == 0x664c_6143
    ||| name == 0x4f70_7573
    ||| name == 0x2e6d_7033
    ||| name == 0x6c70_636d
    ||| name == 0x7761_7665
    ||| name == 0x616c_6177
    ||| name == 0x756c_6177
    ||| name == 0x7261_7720
    ||| name == 0x736f_7774
    ||| name == 0x7477_6f73
    ||| name == 0x696e_3234
    ||| name == 0x696e_3332
    ||| name == 0x666c_3332
    ||| name == 0x666c_3634
}

/// How much of a description of samples, behind its head, has a place of its
/// own.
pub open spec fn entry_fields(version: int) -> int {
    if version == 0 {
        28
    } else if version == 1 {
        44
    } else {
        64
    }
}

/// Whether the table of descriptions, whose contents begin at `body`, holds one
/// description, and of audio.
pub open spec fn describes_audio(data: Seq<u8>, body: int) -> bool {
    &&& octets::be32(data, body + 4) == 1
    &&& atom_at(data, body + 8)
    &&& is_audio_entry(octets::be32(data, body + 12))
    &&& octets::be16(data, body + 8 + atom_head(data, body + 8) + 8) <= 2
}

/// Whether that description has room for what has a place in it, and plain
/// samples are described in the second version.
pub open spec fn description_sound(data: Seq<u8>, body: int) -> bool {
    let entry = body + 8;
    let version = octets::be16(data, entry + atom_head(data, entry) + 8);
    describes_audio(data, body) ==> {
        &&& entry_fields(version) <= atom_room(data, entry) < MAX_SIZE
        &&& octets::be32(data, entry + 4) == LPCM ==> version == 2
    }
}

/// `from`, or `to` where that is before it.
pub open spec fn before(from: int, to: int) -> int {
    if from < to {
        from
    } else {
        to
    }
}

/// What is in an atom at `i`: where a list of atoms in it begins and ends, and
/// what it is in.
#[verifier::opaque]
pub open spec fn inner_list(data: Seq<u8>, i: int, list: AtomList) -> Option<
    (int, int, AtomList),
> {
    let name = octets::be32(data, i + 4);
    let body = i + atom_head(data, i);
    let end = end_within(data, body, atom_room(data, i));
    match list {
        AtomList::File => if name == MOOV {
            Some((body, end, AtomList::Movie))
        } else if name == META {
            Some((before(body + 4, end), end, AtomList::Meta))
        } else {
            None
        },
        AtomList::Movie => if name == TRAK {
            Some((body, end, AtomList::Track))
        } else if name == MVEX {
            Some((body, end, AtomList::Other))
        } else if name == UDTA {
            Some((body, end, AtomList::User))
        } else {
            None
        },
        AtomList::Track => if name == EDTS {
            Some((body, end, AtomList::Other))
        } else if name == MDIA {
            Some((body, end, AtomList::Media))
        } else {
            None
        },
        AtomList::Media => if name == MINF {
            Some((body, end, AtomList::Kind))
        } else {
            None
        },
        AtomList::Kind => if name == STBL {
            Some((body, end, AtomList::Tables))
        } else {
            None
        },
        AtomList::Tables => if name == STSD && describes_audio(data, body) {
            let fields = body + 8 + atom_head(data, body + 8);
            let to = end_within(data, fields, atom_room(data, body + 8));
            Some(
                (
                    before(fields + entry_fields(octets::be16(data, fields + 8)), to),
                    to,
                    AtomList::Entry,
                ),
            )
        } else {
            None
        },
        AtomList::Entry => if name == WAVE {
            Some((body, end, AtomList::Wave))
        } else {
            None
        },
        AtomList::User => if name == META {
            Some((before(body + 4, end), end, AtomList::Meta))
        } else {
            None
        },
        AtomList::Meta => if name == ILST {
            Some((body, end, AtomList::Tags))
        } else {
            None
        },
        AtomList::Tags => Some((body, end, AtomList::Tag)),
        AtomList::Wave | AtomList::Tag | AtomList::Other => None,
    }
}

/// How long `count` entries of a table of durations last.
pub open spec fn durations_total(data: Seq<u8>, table: int, count: int) -> int
    decreases count,
{
    if count <= 0 {
        0
    } else {
        let entry = table + 8 * (count - 1);
        durations_total(data, table, count - 1) + octets::be32(data, entry) * octets::be32(
            data,
            entry + 4,
        )
    }
}

/// Whether a table of durations is there and adds up to a number of 64 bits.
pub open spec fn durations_sound(data: Seq<u8>, body: int) -> bool {
    let count = octets::be32(data, body + 4);
    &&& body + 8 + 8 * count <= data.len()
    &&& durations_total(data, body + 8, count) <= u64::MAX
}

/// Whether, from the `k`th of `count` entries of a table of groups on, the first
/// samples of groups are counted in 32 bits. The table ends before a group that
/// comes before the last one, or has no samples.
pub open spec fn groups_counted(data: Seq<u8>, table: int, k: int, count: int, first: int) -> bool
    decreases count - k,
{
    let group = octets::be32(data, table + 12 * k);
    let next = octets::be32(data, table + 12 * (k + 1));
    let samples = octets::be32(data, table + 12 * k + 4);
    if k + 1 >= count || next < group || samples == 0 {
        true
    } else {
        &&& first + (next - group) * samples <= u32::MAX
        &&& groups_counted(data, table, k + 1, count, first + (next - group) * samples)
    }
}

/// Whether a table of groups is there, no group is number zero, and their samples
/// are counted.
pub open spec fn groups_sound(data: Seq<u8>, body: int) -> bool {
    let count = octets::be32(data, body + 4);
    &&& body + 8 + 12 * count <= data.len()
    &&& forall|k: int| 0 <= k < count ==> #[trigger] octets::be32(data, body + 8 + 12 * k) > 0
    &&& groups_counted(data, body + 8, 0, count, 0)
}

/// Where, in the descriptor of a stream, other descriptors begin: behind the
/// stream that it needs, an address and a clock, as far as they are there.
pub open spec fn stream_fields(data: Seq<u8>, i: int) -> int {
    let flags = octets::byte(data, i + 2);
    let address = i + 3 + (if octets::has_bit(flags, 0x80) {
        2int
    } else {
        0
    });
    let clock = address + (if octets::has_bit(flags, 0x40) {
        1 + octets::byte(data, address)
    } else {
        0
    });
    clock + (if octets::has_bit(flags, 0x20) {
        2int
    } else {
        0
    })
}

/// Whether each descriptor from `from` to `to` that says how to decode has room
/// for what has a place in it.
pub open spec fn configs_sound(data: Seq<u8>, from: int, to: int) -> bool
    decreases to - from,
{
    let kind = octets::byte(data, from);
    let body = from + 1 + octets::length_bytes(data, from + 1);
    let size = octets::length_said(data, from + 1);
    let next = if kind == SYNC_DESCRIPTOR {
        body + 1
    } else {
        body + size
    };
    if to - from <= 2 || from > data.len() {
        true
    } else {
        &&& kind == CONFIG_DESCRIPTOR ==> size >= 13
        &&& !(from < next <= to) || configs_sound(data, next, to)
    }
}

/// Whether the descriptors from `from` to `to` are sound, and one of a stream is
/// among them or was before.
pub open spec fn streams_sound(data: Seq<u8>, from: int, to: int, seen: bool) -> bool
    decreases to - from,
{
    let kind = octets::byte(data, from);
    let body = from + 1 + octets::length_bytes(data, from + 1);
    let size = octets::length_said(data, from + 1);
    let inner = stream_fields(data, body);
    let next = if kind == STREAM_DESCRIPTOR {
        inner + size - 3
    } else {
        body + size
    };
    if from > data.len() {
        true
    } else if to - from <= 2 {
        seen
    } else {
        &&& kind == STREAM_DESCRIPTOR ==> size >= 3 && configs_sound(data, inner, next)
        &&& !(from < next <= to) || streams_sound(
            data,
            next,
            to,
            seen || kind == STREAM_DESCRIPTOR,
        )
    }
}

/// Whether what stands in an atom itself, from `body` on in `room` bytes, is
/// sound.
#[verifier::opaque]
pub open spec fn atom_sound(
    data: Seq<u8>,
    body: int,
    room: int,
    list: AtomList,
    name: int,
) -> bool {
    let version = octets::byte(data, body);
    match list {
        AtomList::File => if name == META {
            room >= 4
        } else if name == SIDX {
            version == 1 ==> body + room + octets::be64(data, body + 20) <= u64::MAX
        } else {
            true
        },
        AtomList::Media => if name == MDHD {
            &&& version == 0 ==> octets::be32(data, body + 12) > 0
            &&& version == 1 ==> octets::be32(data, body + 20) > 0
        } else if name == HDLR {
            room >= 24 && body + room <= data.len()
        } else {
            true
        },
        AtomList::Tables => if name == STSD {
            description_sound(data, body)
        } else if name == STTS {
            durations_sound(data, body)
        } else if name == STSC {
            groups_sound(data, body)
        } else if name == STSZ {
            ||| octets::be32(data, body + 4) > 0
            ||| body + 12 + 4 * octets::be32(data, body + 8) <= data.len()
        } else if name == STCO {
            body + 8 + 4 * octets::be32(data, body + 4) <= data.len()
        } else if name == CO64 {
            body + 8 + 8 * octets::be32(data, body + 4) <= data.len()
        } else {
            true
        },
        AtomList::Entry | AtomList::Wave => if name == ESDS {
            room >= 4 && streams_sound(data, body + 4, body + room, false)
        } else {
            true
        },
        AtomList::User => if name == META {
            room >= 4
        } else {
            true
        },
        AtomList::Tag => if name == DATA {
            room >= 8 && body + room <= data.len()
        } else if name == MEAN || name == NAME {
            room >= 4 && body + room <= data.len()
        } else {
            true
        },
        AtomList::Movie | AtomList::Track | AtomList::Kind | AtomList::Meta | AtomList::Tags
        | AtomList::Other => true,
    }
}

/// Whether the atoms from `from` to `to`, and those in them, are sound, as far as
/// they are there.
pub open spec fn atoms_sound(data: Seq<u8>, from: int, to: int, list: AtomList) -> bool
    decreases depth(list), to - from,
{
    proof {
        reveal(inner_list);
    }
    let body = from + atom_head(data, from);
    let size = atom_size(data, from);
    if from >= to || !atom_at(data, from) {
        true
    } else {
        &&& size < MAX_SIZE
        &&& atom_sound(data, body, atom_room(data, from), list, octets::be32(data, from + 4))
        &&& match inner_list(data, from, list) {
            Some((inner_from, inner_to, inner)) => atoms_sound(data, inner_from, inner_to, inner),
            None => true,
        }
        &&& !(0 < size < to - from) || atoms_sound(data, from + size, to, list)
    }
}

/// Where the first atom of an MP4 file with its mark at `i` begins.
pub open spec fn first_atom(i: int) -> int {
    if i < 4 {
        0
    } else {
        i - 4
    }
}

/// Where, from `from` on, the first samples of a file are, or an index of them:
/// as far as a file is read that cannot be gone back in.
pub open spec fn samples_at(data: Seq<u8>, from: int) -> Option<int>
    decreases data.len() - from,
{
    let name = octets::be32(data, from + 4);
    let size = atom_size(data, from);
    if !atom_at(data, from) {
        None
    } else if name == MDAT || name == MOOF || name == SIDX {
        Some(from)
    } else if 0 < size <= data.len() - from {
        samples_at(data, from + size)
    } else {
        None
    }
}

/// Whether an MP4 file with its mark at `i` is sound. Its first atom begins four
/// bytes before the mark, or, behind a tag, as many as the reader still has.
pub open spec fn mp4_sound(data: Seq<u8>, i: int, tagged: bool) -> bool {
    let first = first_atom(i);
    let last = if tagged {
        i
    } else {
        first
    };
    forall|from: int|
        first <= from <= last ==> #[trigger] atoms_sound(
            data,
            from,
            data.len() as int,
            AtomList::File,
        )
}

fn is_audio(name: u32) -> (r: bool)
    ensures
        r == is_audio_entry(name as int),
{
    name == 0x6d70_3461
        || name == 0x616c_6163
        || name == 0x664c_6143
        || name == 0x4f70_7573
        || name == 0x2e6d_7033
        || name == 0x6c70_636d
        || name == 0x7761_7665
        || name == 0x616c_6177
        || name == 0x756c_6177
        || name == 0x7261_7720
        || name == 0x736f_7774
        || name == 0x7477_6f73
        || name == 0x696e_3234
        || name == 0x696e_3332
        || name == 0x666c_3332
        || name == 0x666c_3634
}

/// The head of an atom.
struct AtomHead {
    name: u32,
    /// Where its contents begin.
    body: usize,
    room: u64,
    size: u64,
}

impl AtomHead {
    spec fn is_of(self, data: Seq<u8>, i: int) -> bool {
        &&& self.name == octets::be32(data, i + 4)
        &&& self.body == i + atom_head(data, i)
        &&& self.body <= data.len()
        &&& self.room == atom_room(data, i)
        &&& self.size == atom_size(data, i)
    }
}

fn read_atom_head(data: &[u8], i: usize) -> (r: Option<AtomHead>)
    ensures
        match r {
            Some(head) => atom_at(data@, i as int) && head.is_of(data@, i as int),
            None => !atom_at(data@, i as int),
        },
{
    let len: usize = data.len();
    let small: u32 = be32_at(data, i, 0);
    let name: u32 = be32_at(data, i, 4);
    if i > len || len - i < 8 {
        None
    } else if small == 1 {
        let size: u64 = be64_at(data, i, 8);
        if len - i < 16 || size < 16 {
            None
        } else {
            Some(AtomHead { name, body: i + 16, room: size - 16, size })
        }
    } else if small == 0 {
        Some(AtomHead { name, body: i + 8, room: 0, size: 0 })
    } else if small < 8 {
        None
    } else {
        Some(AtomHead { name, body: i + 8, room: (small - 8) as u64, size: small as u64 })
    }
}

fn end_at(data: &[u8], from: usize, room: u64) -> (r: usize)
    requires
        from <= data@.len(),
    ensures
        r == end_within(data@, from as int, room as int),
        r <= data@.len(),
{
    let len: usize = data.len();
    if room < (len - from) as u64 {
        from + room as usize
    } else {
        len
    }
}

fn fields_of_entry(version: u16) -> (r: usize)
    ensures
        r == entry_fields(version as int),
        r <= 64,
{
    if version == 0 {
        28
    } else if version == 1 {
        44
    } else {
        64
    }
}

/// The description of audio in a table of descriptions, and its version.
fn read_description(data: &[u8], body: usize) -> (r: Option<(AtomHead, u16)>)
    requires
        body <= data@.len(),
    ensures
        match r {
            Some((head, version)) => {
                &&& describes_audio(data@, body as int)
                &&& head.is_of(data@, body + 8)
                &&& version == octets::be16(data@, head.body + 8)
            },
            None => !describes_audio(data@, body as int),
        },
{
    if data.len() - body < 8 {
        return None;
    }
    match read_atom_head(data, body + 8) {
        Some(head) => {
            let version: u16 = be16_at(data, head.body, 8);
            if be32_at(data, body, 4) == 1 && is_audio(head.name) && version <= 2 {
                Some((head, version))
            } else {
                None
            }
        },
        None => None,
    }
}

fn is_description_sound(data: &[u8], body: usize) -> (r: bool)
    requires
        body <= data@.len(),
    ensures
        r == description_sound(data@, body as int),
{
    match read_description(data, body) {
        Some((head, version)) => fields_of_entry(version) as u64 <= head.room && head.room
            < MAX_SIZE && (head.name != LPCM || version == 2),
        None => true,
    }
}

fn inner_list_at(data: &[u8], i: usize, head: &AtomHead, list: AtomList) -> (r: Option<
    (usize, usize, AtomList),
>)
    requires
        head.is_of(data@, i as int),
    ensures
        match r {
            Some((from, to, inner)) => {
                &&& to <= data@.len()
                &&& depth(inner) < depth(list)
                &&& inner_list(data@, i as int, list) == Some((from as int, to as int, inner))
            },
            None => inner_list(data@, i as int, list) is None,
        },
{
    proof {
        reveal(inner_list);
    }
    let name: u32 = head.name;
    let body: usize = head.body;
    let end: usize = end_at(data, body, head.room);
    match list {
        AtomList::File => if name == MOOV {
            Some((body, end, AtomList::Movie))
        } else if name == META {
            Some((past(body, 4, end), end, AtomList::Meta))
        } else {
            None
        },
        AtomList::Movie => if name == TRAK {
            Some((body, end, AtomList::Track))
        } else if name == MVEX {
            Some((body, end, AtomList::Other))
        } else if name == UDTA {
            Some((body, end, AtomList::User))
        } else {
            None
        },
        AtomList::Track => if name == EDTS {
            Some((body, end, AtomList::Other))
        } else if name == MDIA {
            Some((body, end, AtomList::Media))
        } else {
            None
        },
        AtomList::Media => if name == MINF {
            Some((body, end, AtomList::Kind))
        } else {
            None
        },
        AtomList::Kind => if name == STBL {
            Some((body, end, AtomList::Tables))
        } else {
            None
        },
        AtomList::Tables => if name == STSD {
            match read_description(data, body) {
                Some((entry, version)) => {
                    let to: usize = end_at(data, entry.body, entry.room);
                    Some((past(entry.body, fields_of_entry(version), to), to, AtomList::Entry))
                },
                None => None,
            }
        } else {
            None
        },
        AtomList::Entry => if name == WAVE {
            Some((body, end, AtomList::Wave))
        } else {
            None
        },
        AtomList::User => if name == META {
            Some((past(body, 4, end), end, AtomList::Meta))
        } else {
            None
        },
        AtomList::Meta => if name == ILST {
            Some((body, end, AtomList::Tags))
        } else {
            None
        },
        AtomList::Tags => Some((body, end, AtomList::Tag)),
        AtomList::Wave | AtomList::Tag | AtomList::Other => None,
    }
}

fn past(from: usize, offset: usize, to: usize) -> (r: usize)
    ensures
        r == before(from + offset, to as int),
{
    if from < to && offset < to - from {
        from + offset
    } else {
        to
    }
}

/// Whether a table of `count` entries of `width` bytes each, `offset` bytes behind
/// `body`, is there.
fn is_table_there(data: &[u8], body: usize, offset: u64, width: u64, count: u32) -> (r: bool)
    requires
        body <= data@.len(),
        offset <= 12,
        width <= 12,
    ensures
        r == (body + offset + width * count <= data@.len()),
{
    assert(width * count <= 12 * 0xffff_ffff) by (nonlinear_arith)
        requires
            width <= 12,
            count <= 0xffff_ffff,
    ;
    offset + width * (count as u64) <= (data.len() - body) as u64
}

#[verifier::loop_isolation(false)]
fn are_durations_sound(data: &[u8], body: usize) -> (r: bool)
    requires
        body <= data@.len(),
    ensures
        r == durations_sound(data@, body as int),
{
    let ghost len: usize = data.len();
    let count: u32 = be32_at(data, body, 4);
    if !is_table_there(data, body, 8, 8, count) {
        return false;
    }
    let mut total: u128 = 0;
    for k in 0..count
        invariant
            body + 8 + 8 * count <= len,
            total == durations_total(data@, body + 8, k as int),
            total <= k * 0xffff_ffff_ffff_ffff,
    {
        let entry: usize = body + 8 * (k as usize);
        let samples: u64 = be32_at(data, entry, 8) as u64;
        let each: u64 = be32_at(data, entry, 12) as u64;
        assert(samples * each <= 0xffff_fffe_0000_0001) by (nonlinear_arith)
            requires
                samples <= 0xffff_ffff,
                each <= 0xffff_ffff,
        ;
        total = total + (samples * each) as u128;
    }
    total <= u64::MAX as u128
}

#[verifier::loop_isolation(false)]
fn are_groups_sound(data: &[u8], body: usize) -> (r: bool)
    requires
        body <= data@.len(),
    ensures
        r == groups_sound(data@, body as int),
{
    let ghost len: usize = data.len();
    let count: u32 = be32_at(data, body, 4);
    if !is_table_there(data, body, 8, 12, count) {
        return false;
    }
    for k in 0..count
        invariant
            body + 8 + 12 * count <= len,
            forall|j: int| 0 <= j < k ==> #[trigger] octets::be32(data@, body + 8 + 12 * j) > 0,
    {
        let entry: usize = body + 12 * (k as usize);
        if be32_at(data, entry, 8) == 0 {
            assert(octets::be32(data@, body + 8 + 12 * (k as int)) == 0);
            return false;
        }
    }
    are_groups_counted(data, body, count)
}

#[verifier::loop_isolation(false)]
fn are_groups_counted(data: &[u8], body: usize, count: u32) -> (r: bool)
    requires
        body + 8 + 12 * count <= data@.len(),
    ensures
        r == groups_counted(data@, body + 8, 0, count as int, 0),
{
    let ghost len: usize = data.len();
    let mut first: u64 = 0;
    let mut k: u32 = 0;
    while k < count
        invariant
            k <= count,
            body + 8 + 12 * count <= len,
            first <= u32::MAX,
            groups_counted(data@, body + 8, 0, count as int, 0) == groups_counted(
                data@,
                body + 8,
                k as int,
                count as int,
                first as int,
            ),
        decreases count - k,
    {
        let entry: usize = body + 12 * (k as usize);
        let group: u32 = be32_at(data, entry, 8);
        let samples: u32 = be32_at(data, entry, 12);
        let next: u32 = be32_at(data, entry, 20);
        if k + 1 >= count || next < group || samples == 0 {
            return true;
        }
        let groups: u64 = (next - group) as u64;
        assert(groups * samples <= 0xffff_fffe_0000_0001) by (nonlinear_arith)
            requires
                groups <= 0xffff_ffff,
                samples <= 0xffff_ffff,
        ;
        let added: u64 = groups * samples as u64;
        if added > u32::MAX as u64 - first {
            return false;
        }
        first = first + added;
        k = k + 1;
    }
    true
}

fn stream_fields_at(data: &[u8], i: usize, offset: usize) -> (r: usize)
    requires
        offset < 0x40,
    ensures
        i + r == stream_fields(data@, i + offset),
        offset + 3 <= r <= offset + 3 + 260,
{
    let flags: u8 = byte_at(data, i, offset + 2);
    let needed: usize = if bit_is_set(flags, 0x80) {
        2
    } else {
        0
    };
    let start: usize = offset + 3 + needed;
    let address: usize = if bit_is_set(flags, 0x40) {
        1 + byte_at(data, i, start) as usize
    } else {
        0
    };
    let clock: usize = if bit_is_set(flags, 0x20) {
        2
    } else {
        0
    };
    start + address + clock
}

/// Whether the descriptors in `room` bytes from `from` on are sound.
fn are_configs_sound(data: &[u8], from: usize, room: u64) -> (r: bool)
    ensures
        r == configs_sound(data@, from as int, from + room),
{
    let len: usize = data.len();
    let mut at: usize = from;
    let mut left: u64 = room;
    while left > 2 && at <= len
        invariant
            len == data@.len(),
            at + left == from + room,
            configs_sound(data@, from as int, from + room) == configs_sound(
                data@,
                at as int,
                from + room,
            ),
        decreases left,
    {
        let kind: u8 = byte_at(data, at, 0);
        let size: u64 = length_at(data, at, 1) as u64;
        if kind == CONFIG_DESCRIPTOR && size < 13 {
            return false;
        }
        let head: u64 = 1 + length_bytes_at(data, at, 1) as u64;
        let taken: u64 = if kind == SYNC_DESCRIPTOR {
            head + 1
        } else {
            head + size
        };
        if taken > left {
            return true;
        }
        if taken > (len - at) as u64 {
            assert(configs_sound(data@, at + taken, from + room));
            return true;
        }
        at = at + taken as usize;
        left = left - taken;
    }
    true
}

/// Whether the descriptors in `room` bytes from `from` on are sound, with one of a
/// stream among them.
fn are_streams_sound(data: &[u8], from: usize, room: u64) -> (r: bool)
    requires
        from <= data@.len(),
    ensures
        r == streams_sound(data@, from as int, from + room, false),
{
    let len: usize = data.len();
    let mut at: usize = from;
    let mut left: u64 = room;
    let mut seen = false;
    while left > 2
        invariant
            at <= len,
            len == data@.len(),
            at + left == from + room,
            streams_sound(data@, from as int, from + room, false) == streams_sound(
                data@,
                at as int,
                from + room,
                seen,
            ),
        decreases left,
    {
        let size: u64 = length_at(data, at, 1) as u64;
        let head: usize = 1 + length_bytes_at(data, at, 1);
        let taken: u64 = if byte_at(data, at, 0) == STREAM_DESCRIPTOR {
            let inner: usize = stream_fields_at(data, at, head);
            if size < 3 {
                return false;
            }
            if inner <= len - at && !are_configs_sound(data, at + inner, size - 3) {
                return false;
            }
            seen = true;
            inner as u64 + (size - 3)
        } else {
            head as u64 + size
        };
        if taken > left {
            return true;
        }
        if taken > (len - at) as u64 {
            assert(streams_sound(data@, at + taken, from + room, seen));
            return true;
        }
        at = at + taken as usize;
        left = left - taken;
    }
    seen
}

fn is_atom_sound(data: &[u8], head: &AtomHead, list: AtomList) -> (r: bool)
    requires
        head.body <= data@.len(),
        head.room < MAX_SIZE,
    ensures
        r == atom_sound(data@, head.body as int, head.room as int, list, head.name as int),
{
    proof {
        reveal(atom_sound);
    }
    let body: usize = head.body;
    let room: u64 = head.room;
    let name: u32 = head.name;
    let version: u8 = byte_at(data, body, 0);
    let there = room <= (data.len() - body) as u64;
    match list {
        AtomList::File => if name == META {
            room >= 4
        } else if name == SIDX {
            version != 1 || body as u128 + room as u128 + be64_at(data, body, 20) as u128
                <= u64::MAX as u128
        } else {
            true
        },
        AtomList::Media => if name == MDHD {
            (version != 0 || be32_at(data, body, 12) > 0) && (version != 1 || be32_at(
                data,
                body,
                20,
            ) > 0)
        } else if name == HDLR {
            room >= 24 && there
        } else {
            true
        },
        AtomList::Tables => if name == STSD {
            is_description_sound(data, body)
        } else if name == STTS {
            are_durations_sound(data, body)
        } else if name == STSC {
            are_groups_sound(data, body)
        } else if name == STSZ {
            be32_at(data, body, 4) > 0 || is_table_there(data, body, 12, 4, be32_at(data, body, 8))
        } else if name == STCO {
            is_table_there(data, body, 8, 4, be32_at(data, body, 4))
        } else if name == CO64 {
            is_table_there(data, body, 8, 8, be32_at(data, body, 4))
        } else {
            true
        },
        AtomList::Entry | AtomList::Wave => if name == ESDS {
            if room < 4 {
                false
            } else if data.len() - body < 4 {
                true
            } else {
                are_streams_sound(data, body + 4, room - 4)
            }
        } else {
            true
        },
        AtomList::User => if name == META {
            room >= 4
        } else {
            true
        },
        AtomList::Tag => if name == DATA {
            room >= 8 && there
        } else if name == MEAN || name == NAME {
            room >= 4 && there
        } else {
            true
        },
        AtomList::Movie | AtomList::Track | AtomList::Kind | AtomList::Meta | AtomList::Tags
        | AtomList::Other => true,
    }
}

fn are_atoms_sound(data: &[u8], from: usize, to: usize, list: AtomList) -> (r: bool)
    requires
        to <= data@.len(),
    ensures
        r == atoms_sound(data@, from as int, to as int, list),
    decreases depth(list),
{
    let mut at: usize = from;
    while at < to
        invariant
            to <= data@.len(),
            atoms_sound(data@, from as int, to as int, list) == atoms_sound(
                data@,
                at as int,
                to as int,
                list,
            ),
        decreases to - at,
    {
        match read_atom_head(data, at) {
            Some(head) => {
                if head.size >= MAX_SIZE || !is_atom_sound(data, &head, list) {
                    return false;
                }
                if let Some((inner_from, inner_to, inner)) = inner_list_at(data, at, &head, list) {
                    if !are_atoms_sound(data, inner_from, inner_to, inner) {
                        return false;
                    }
                }
                if head.size == 0 || head.size >= (to - at) as u64 {
                    return true;
                }
                at = at + head.size as usize;
            },
            None => {
                return true;
            },
        }
    }
    true
}

/// Where the first atom of an MP4 file with its mark at `i` begins.
pub fn find_first_atom(i: usize) -> (r: usize)
    ensures
        r == first_atom(i as int),
{
    if i < 4 {
        0
    } else {
        i - 4
    }
}

/// Where, from `from` on, the first samples of a file are, or an index of them.
pub fn find_samples(data: &[u8], from: usize) -> (r: Option<usize>)
    ensures
        match r {
            Some(i) => samples_at(data@, from as int) == Some(i as int) && from <= i <= data@.len(),
            None => samples_at(data@, from as int) is None,
        },
{
    let len: usize = data.len();
    let mut at: usize = from;
    while at <= len
        invariant
            from <= at,
            len == data@.len(),
            samples_at(data@, from as int) == samples_at(data@, at as int),
        decreases len - at,
    {
        match read_atom_head(data, at) {
            Some(head) => {
                if head.name == MDAT || head.name == MOOF || head.name == SIDX {
                    return Some(at);
                }
                if head.size == 0 || head.size > (len - at) as u64 {
                    return None;
                }
                at = at + head.size as usize;
            },
            None => {
                return None;
            },
        }
    }
    None
}

#[verifier::loop_isolation(false)]
pub(crate) fn is_mp4_sound(data: &[u8], i: usize, tagged: bool) -> (r: bool)
    ensures
        r == mp4_sound(data@, i as int, tagged),
{
    let first: usize = find_first_atom(i);
    if !are_atoms_sound(data, first, data.len(), AtomList::File) {
        return false;
    }
    if !tagged {
        return true;
    }
    let mut from: usize = first;
    while from < i
        invariant
            first <= from <= i,
            forall|j: int|
                first <= j <= from ==> #[trigger] atoms_sound(
                    data@,
                    j,
                    data@.len() as int,
                    AtomList::File,
                ),
        decreases i - from,
    {
        if !are_atoms_sound(data, from + 1, data.len(), AtomList::File) {
            assert(!atoms_sound(data@, from + 1, data@.len() as int, AtomList::File));
            return false;
        }
        from = from + 1;
    }
    true
}

// ---------------------------------------------------------------------------
// Laws
// ---------------------------------------------------------------------------

/// The names of atoms are their letters.
pub proof fn atoms_are_named_by_their_letters()
    ensures
        MOOV == octets::letters("moov"@),
        MDAT == octets::letters("mdat"@),
        MOOF == octets::letters("moof"@),
        TRAK == octets::letters("trak"@),
        MDIA == octets::letters("mdia"@),
        MINF == octets::letters("minf"@),
        STBL == octets::letters("stbl"@),
        EDTS == octets::letters("edts"@),
        UDTA == octets::letters("udta"@),
        MVEX == octets::letters("mvex"@),
        WAVE == octets::letters("wave"@),
        META == octets::letters("meta"@),
        ILST == octets::letters("ilst"@),
        STSD == octets::letters("stsd"@),
        STTS == octets::letters("stts"@),
        STSC == octets::letters("stsc"@),
        SIDX == octets::letters("sidx"@),
        STSZ == octets::letters("stsz"@),
        STCO == octets::letters("stco"@),
        CO64 == octets::letters("co64"@),
        MDHD == octets::letters("mdhd"@),
        HDLR == octets::letters("hdlr"@),
        DATA == octets::letters("data"@),
        MEAN == octets::letters("mean"@),
        NAME == octets::letters("name"@),
        ESDS == octets::letters("esds"@),
        LPCM == octets::letters("lpcm"@),
{
    reveal_strlit("moov");
    reveal_strlit("mdat");
    reveal_strlit("moof");
    reveal_strlit("trak");
    reveal_strlit("mdia");
    reveal_strlit("minf");
    reveal_strlit("stbl");
    reveal_strlit("edts");
    reveal_strlit("udta");
    reveal_strlit("mvex");
    reveal_strlit("wave");
    reveal_strlit("meta");
    reveal_strlit("ilst");
    reveal_strlit("stsd");
    reveal_strlit("stts");
    reveal_strlit("stsc");
    reveal_strlit("sidx");
    reveal_strlit("stsz");
    reveal_strlit("stco");
    reveal_strlit("co64");
    reveal_strlit("mdhd");
    reveal_strlit("hdlr");
    reveal_strlit("data");
    reveal_strlit("mean");
    reveal_strlit("name");
    reveal_strlit("esds");
    reveal_strlit("lpcm");
}

/// Audio is described under sixteen names and no others.
pub proof fn audio_is_described_under_its_names(name: int)
    ensures
        is_audio_entry(name) <==> {
            ||| name == octets::letters("mp4a"@)
            ||| name == octets::letters("alac"@)
            ||| name == octets::letters("fLaC"@)
            ||| name == octets::letters("Opus"@)
            ||| name == octets::letters(".mp3"@)
            ||| name == octets::letters("lpcm"@)
            ||| name == octets::letters("wave"@)
            ||| name == octets::letters("alaw"@)
            ||| name == octets::letters("ulaw"@)
            ||| name == octets::letters("raw "@)
            ||| name == octets::letters("sowt"@)
            ||| name == octets::letters("twos"@)
            ||| name == octets::letters("in24"@)
            ||| name == octets::letters("in32"@)
            ||| name == octets::letters("fl32"@)
            ||| name == octets::letters("fl64"@)
        },
{
    reveal_strlit("mp4a");
    reveal_strlit("alac");
    reveal_strlit("fLaC");
    reveal_strlit("Opus");
    reveal_strlit(".mp3");
    reveal_strlit("lpcm");
    reveal_strlit("wave");
    reveal_strlit("alaw");
    reveal_strlit("ulaw");
    reveal_strlit("raw ");
    reveal_strlit("sowt");
    reveal_strlit("twos");
    reveal_strlit("in24");
    reveal_strlit("in32");
    reveal_strlit("fl32");
    reveal_strlit("fl64");
}

/// An atom says its size in four bytes before its name, or, where these say
/// one, in the eight behind it; what is left behind its head is its room, and a
/// size of zero goes on to the end.
pub proof fn atoms_say_their_size(data: Seq<u8>, i: int)
    ensures
        octets::be32(data, i) == 1 ==> atom_head(data, i) == 16 && atom_size(data, i)
            == octets::be64(data, i + 8),
        octets::be32(data, i) != 1 ==> atom_head(data, i) == 8 && atom_size(data, i)
            == octets::be32(data, i),
        atom_size(data, i) > 0 ==> atom_room(data, i) + atom_head(data, i) == atom_size(data, i),
        atom_size(data, i) == 0 ==> atom_room(data, i) == 0,
        atom_at(data, i) ==> i + 8 <= data.len() && atom_room(data, i) >= 0,
        2 <= octets::be32(data, i) < 8 ==> !atom_at(data, i),
        8 <= octets::be32(data, i) && i + 8 <= data.len() ==> atom_at(data, i),
        octets::be32(data, i) == 0 && i + 8 <= data.len() ==> atom_at(data, i),
        i + 8 > data.len() ==> !atom_at(data, i),
{
}

/// A track without a time scale is not borne, and neither is a table that is
/// not there, nor a part that is too small for what it has to hold.
pub proof fn unsound_atoms_are_told(data: Seq<u8>, body: int, room: int)
    ensures
        octets::byte(data, body) == 0 && octets::be32(data, body + 12) == 0 ==> !atom_sound(
            data,
            body,
            room,
            AtomList::Media,
            MDHD as int,
        ),
        octets::byte(data, body) == 1 && octets::be32(data, body + 20) == 0 ==> !atom_sound(
            data,
            body,
            room,
            AtomList::Media,
            MDHD as int,
        ),
        room < 24 || body + room > data.len() ==> !atom_sound(
            data,
            body,
            room,
            AtomList::Media,
            HDLR as int,
        ),
        octets::be32(data, body + 4) == 0 && body + 12 + 4 * octets::be32(data, body + 8)
            > data.len() ==> !atom_sound(data, body, room, AtomList::Tables, STSZ as int),
        body + 8 + 4 * octets::be32(data, body + 4) > data.len() ==> !atom_sound(
            data,
            body,
            room,
            AtomList::Tables,
            STCO as int,
        ),
        body + 8 + 8 * octets::be32(data, body + 4) > data.len() ==> !atom_sound(
            data,
            body,
            room,
            AtomList::Tables,
            CO64 as int,
        ) && !atom_sound(data, body, room, AtomList::Tables, STTS as int),
        body + 8 + 12 * octets::be32(data, body + 4) > data.len() ==> !atom_sound(
            data,
            body,
            room,
            AtomList::Tables,
            STSC as int,
        ),
        room < 4 ==> {
            &&& !atom_sound(data, body, room, AtomList::File, META as int)
            &&& !atom_sound(data, body, room, AtomList::User, META as int)
            &&& !atom_sound(data, body, room, AtomList::Entry, ESDS as int)
            &&& !atom_sound(data, body, room, AtomList::Wave, ESDS as int)
            &&& !atom_sound(data, body, room, AtomList::Tag, MEAN as int)
            &&& !atom_sound(data, body, room, AtomList::Tag, NAME as int)
        },
        room < 8 || body + room > data.len() ==> !atom_sound(
            data,
            body,
            room,
            AtomList::Tag,
            DATA as int,
        ),
        body + room > data.len() ==> !atom_sound(data, body, room, AtomList::Tag, MEAN as int)
            && !atom_sound(data, body, room, AtomList::Tag, NAME as int),
{
    reveal(atom_sound);
}

/// A track with a time scale is borne, and so are tables that are there and
/// parts that have room for what they hold; of other atoms nothing is asked.
pub proof fn sound_atoms_are_borne(
    data: Seq<u8>,
    body: int,
    room: int,
    list: AtomList,
    name: int,
)
    ensures
        octets::be32(data, body + 12) > 0 && octets::be32(data, body + 20) > 0 ==> atom_sound(
            data,
            body,
            room,
            AtomList::Media,
            MDHD as int,
        ),
        room >= 24 && body + room <= data.len() ==> atom_sound(
            data,
            body,
            room,
            AtomList::Media,
            HDLR as int,
        ) && atom_sound(data, body, room, AtomList::Tag, DATA as int) && atom_sound(
            data,
            body,
            room,
            AtomList::Tag,
            MEAN as int,
        ) && atom_sound(data, body, room, AtomList::Tag, NAME as int),
        octets::be32(data, body + 4) > 0 ==> atom_sound(
            data,
            body,
            room,
            AtomList::Tables,
            STSZ as int,
        ),
        body + 12 + 4 * octets::be32(data, body + 8) <= data.len() ==> atom_sound(
            data,
            body,
            room,
            AtomList::Tables,
            STSZ as int,
        ),
        body + 8 + 4 * octets::be32(data, body + 4) <= data.len() ==> atom_sound(
            data,
            body,
            room,
            AtomList::Tables,
            STCO as int,
        ),
        body + 8 + 8 * octets::be32(data, body + 4) <= data.len() ==> atom_sound(
            data,
            body,
            room,
            AtomList::Tables,
            CO64 as int,
        ),
        room >= 4 ==> atom_sound(data, body, room, AtomList::File, META as int) && atom_sound(
            data,
            body,
            room,
            AtomList::User,
            META as int,
        ),
        list is Movie || list is Track || list is Kind || list is Meta || list is Tags
            || list is Other ==> atom_sound(data, body, room, list, name),
        name != META && name != SIDX ==> atom_sound(data, body, room, AtomList::File, name),
        name != MDHD && name != HDLR ==> atom_sound(data, body, room, AtomList::Media, name),
        name != STSD && name != STTS && name != STSC && name != STSZ && name != STCO && name != CO64
            ==> atom_sound(data, body, room, AtomList::Tables, name),
        name != ESDS ==> atom_sound(data, body, room, AtomList::Entry, name) && atom_sound(
            data,
            body,
            room,
            AtomList::Wave,
            name,
        ),
        name != META ==> atom_sound(data, body, room, AtomList::User, name),
        name != DATA && name != MEAN && name != NAME ==> atom_sound(
            data,
            body,
            room,
            AtomList::Tag,
            name,
        ),
{
    reveal(atom_sound);
}

/// A table of durations lasts as long as its entries together, each as many
/// times as it says.
pub proof fn durations_add_up(data: Seq<u8>, table: int, count: int)
    requires
        count >= 0,
    ensures
        durations_total(data, table, 0) == 0,
        durations_total(data, table, count + 1) == durations_total(data, table, count)
            + octets::be32(data, table + 8 * count) * octets::be32(data, table + 8 * count + 4),
{
}

/// A table of durations is borne where it is there and its sum fits.
pub proof fn durations_are_borne_where_they_fit(data: Seq<u8>, body: int, room: int)
    requires
        body + 8 + 8 * octets::be32(data, body + 4) <= data.len(),
    ensures
        atom_sound(data, body, room, AtomList::Tables, STTS as int) <==> durations_total(
            data,
            body + 8,
            octets::be32(data, body + 4),
        ) <= 0xffff_ffff_ffff_ffff,
{
    reveal(atom_sound);
}

/// A group without a number is not borne, and neither is one that begins beyond
/// what 32 bits count; a table of one group counts nothing.
pub proof fn groups_are_counted(data: Seq<u8>, body: int, room: int, k: int)
    ensures
        0 <= k < octets::be32(data, body + 4) && octets::be32(data, body + 8 + 12 * k) == 0
            ==> !atom_sound(data, body, room, AtomList::Tables, STSC as int),
        octets::be32(data, body + 4) == 0 && body + 8 <= data.len() ==> atom_sound(
            data,
            body,
            room,
            AtomList::Tables,
            STSC as int,
        ),
        octets::be32(data, body + 4) == 1 && body + 20 <= data.len() && octets::be32(data, body + 8)
            > 0 ==> atom_sound(data, body, room, AtomList::Tables, STSC as int),
        octets::be32(data, body + 4) == 2 && body + 32 <= data.len() && 0 < octets::be32(
            data,
            body + 8,
        ) <= octets::be32(data, body + 20) && octets::be32(data, body + 12) > 0 ==> (atom_sound(
            data,
            body,
            room,
            AtomList::Tables,
            STSC as int,
        ) <==> (octets::be32(data, body + 20) - octets::be32(data, body + 8)) * octets::be32(
            data,
            body + 12,
        ) <= 0xffff_ffff),
{
    reveal(atom_sound);
    reveal_with_fuel(groups_counted, 3);
    if octets::be32(data, body + 4) == 2 {
        assert forall|j: int| 0 <= j < 2 && octets::be32(data, body + 8) > 0 && octets::be32(
            data,
            body + 20,
        ) > 0 implies #[trigger] octets::be32(data, body + 8 + 12 * j) > 0 by {
            if j == 1 {
                assert(body + 8 + 12 * j == body + 20);
            } else {
                assert(body + 8 + 12 * j == body + 8);
            }
        }
    }
    if 0 <= k < octets::be32(data, body + 4) && octets::be32(data, body + 8 + 12 * k) == 0 {
        assert(!groups_sound(data, body));
    }
}

/// The samples of a file are where the first atom is that holds some, or an
/// index of them; atoms before it are passed over by their size.
pub proof fn samples_are_found_behind_other_atoms(data: Seq<u8>, from: int)
    requires
        0 <= from,
    ensures
        !atom_at(data, from) ==> samples_at(data, from) is None,
        atom_at(data, from) && (octets::be32(data, from + 4) == MDAT || octets::be32(
            data,
            from + 4,
        ) == MOOF || octets::be32(data, from + 4) == SIDX) ==> samples_at(data, from) == Some(from),
        atom_at(data, from) && octets::be32(data, from + 4) != MDAT && octets::be32(data, from + 4)
            != MOOF && octets::be32(data, from + 4) != SIDX ==> if 0 < atom_size(data, from)
            <= data.len() - from {
            samples_at(data, from) == samples_at(data, from + atom_size(data, from))
        } else {
            samples_at(data, from) is None
        },
{
}

/// Samples are found no earlier than where the search begins, inside the file,
/// and under one of the three names.
pub proof fn found_samples_are_there(data: Seq<u8>, from: int)
    requires
        0 <= from,
    ensures
        samples_at(data, from) matches Some(at) ==> {
            &&& from <= at
            &&& at + 8 <= data.len()
            &&& octets::be32(data, at + 4) == MDAT || octets::be32(data, at + 4) == MOOF
                || octets::be32(data, at + 4) == SIDX
        },
    decreases data.len() - from,
{
    if atom_at(data, from) && octets::be32(data, from + 4) != MDAT && octets::be32(data, from + 4)
        != MOOF && octets::be32(data, from + 4) != SIDX && 0 < atom_size(data, from) <= data.len()
        - from {
        found_samples_are_there(data, from + atom_size(data, from));
    }
}

/// Atoms are in each other as a movie is in its file, a track in its movie, its
/// media in the track, and their tables in these; tags are in what users add
/// and in the file itself.
pub proof fn atoms_are_in_each_other(data: Seq<u8>, i: int, list: AtomList)
    ensures
        ({
            let name = octets::be32(data, i + 4);
            let body = i + atom_head(data, i);
            let end = if body + atom_room(data, i) < data.len() {
                body + atom_room(data, i)
            } else {
                data.len() as int
            };
            let inner = inner_list(data, i, list);
            &&& list is File && name == MOOV ==> inner == Some((body, end, AtomList::Movie))
            &&& list is Movie && name == TRAK ==> inner == Some((body, end, AtomList::Track))
            &&& list is Movie && name == UDTA ==> inner == Some((body, end, AtomList::User))
            &&& list is Movie && name == MVEX ==> inner == Some((body, end, AtomList::Other))
            &&& list is Track && name == MDIA ==> inner == Some((body, end, AtomList::Media))
            &&& list is Track && name == EDTS ==> inner == Some((body, end, AtomList::Other))
            &&& list is Media && name == MINF ==> inner == Some((body, end, AtomList::Kind))
            &&& list is Kind && name == STBL ==> inner == Some((body, end, AtomList::Tables))
            &&& list is Entry && name == WAVE ==> inner == Some((body, end, AtomList::Wave))
            &&& list is Meta && name == ILST ==> inner == Some((body, end, AtomList::Tags))
            &&& list is Tags ==> inner == Some((body, end, AtomList::Tag))
            &&& (list is File || list is User) && name == META && body + 4 <= end ==> inner == Some(
                (body + 4, end, AtomList::Meta),
            )
            &&& list is Tables && name != STSD ==> inner is None
            &&& list is Wave || list is Tag || list is Other ==> inner is None
        }),
{
    reveal(inner_list);
}

/// A list of atoms is borne where its first atom is, with what is in it, and
/// the rest of the list behind that; it ends where no atom begins.
pub proof fn lists_are_borne_atom_by_atom(data: Seq<u8>, from: int, to: int, list: AtomList)
    ensures
        from >= to || !atom_at(data, from) ==> atoms_sound(data, from, to, list),
        from < to && atom_at(data, from) ==> {
            let size = atom_size(data, from);
            &&& atoms_sound(data, from, to, list) ==> atom_sound(
                data,
                from + atom_head(data, from),
                atom_room(data, from),
                list,
                octets::be32(data, from + 4),
            )
            &&& atoms_sound(data, from, to, list) && 0 < size < to - from ==> atoms_sound(
                data,
                from + size,
                to,
                list,
            )
            &&& atoms_sound(data, from, to, list) ==> size < 0x8000_0000_0000_0000
            &&& (atoms_sound(data, from, to, list) ==> match inner_list(data, from, list) {
                Some((inner_from, inner_to, inner)) => atoms_sound(
                    data,
                    inner_from,
                    inner_to,
                    inner,
                ),
                None => true,
            })
            &&& size < 0x8000_0000_0000_0000 && atom_sound(
                data,
                from + atom_head(data, from),
                atom_room(data, from),
                list,
                octets::be32(data, from + 4),
            ) && inner_list(data, from, list) is None && (size == 0 || size >= to - from)
                ==> atoms_sound(data, from, to, list)
        },
{
}

/// What says how audio is decoded is not borne where it has no room for that,
/// nor a stream without room for its number.
pub proof fn small_descriptors_are_told(data: Seq<u8>, from: int, to: int, seen: bool)
    requires
        from <= data.len(),
        to - from > 2,
    ensures
        octets::byte(data, from) == 4 && octets::length_said(data, from + 1) < 13
            ==> !configs_sound(data, from, to),
        octets::byte(data, from) == 3 && octets::length_said(data, from + 1) < 3 ==> !streams_sound(
            data,
            from,
            to,
            seen,
        ),
{
}

/// A list of descriptors without a stream among them is not borne.
pub proof fn descriptors_need_a_stream(data: Seq<u8>, from: int, to: int)
    requires
        from <= data.len(),
        to - from <= 2,
    ensures
        !streams_sound(data, from, to, false),
        streams_sound(data, from, to, true),
{
}

/// A file that opens with its own mark is borne where its atoms are, from four
/// bytes before the mark on.
pub proof fn files_are_borne_where_their_atoms_are(data: Seq<u8>, i: int)
    requires
        i >= 4,
    ensures
        first_atom(i) == i - 4,
        mp4_sound(data, i, false) <==> atoms_sound(
            data,
            i - 4,
            data.len() as int,
            AtomList::File,
        ),
        mp4_sound(data, i, true) ==> mp4_sound(data, i, false),
{
    if atoms_sound(data, i - 4, data.len() as int, AtomList::File) {
        assert forall|from: int| i - 4 <= from <= i - 4 implies #[trigger] atoms_sound(
            data,
            from,
            data.len() as int,
            AtomList::File,
        ) by {}
    }
    if mp4_sound(data, i, true) {
        assert(atoms_sound(data, i - 4, data.len() as int, AtomList::File));
    }
}

/// A description of audio has more fields in its later versions.
pub proof fn later_descriptions_have_more_fields(version: int)
    ensures
        version == 0 ==> entry_fields(version) == 28,
        version == 1 ==> entry_fields(version) == 44,
        version != 0 && version != 1 ==> entry_fields(version) == 64,
{
}

/// A table describes audio where it holds one description, under a name of
/// audio and in a known version.
pub proof fn tables_describe_audio(data: Seq<u8>, body: int)
    requires
        octets::be32(data, body + 8) != 1,
    ensures
        describes_audio(data, body) <==> octets::be32(data, body + 4) == 1 && body + 16
            <= data.len() && (octets::be32(data, body + 8) == 0 || octets::be32(data, body + 8)
            >= 8) && is_audio_entry(octets::be32(data, body + 12)) && octets::be16(
            data,
            body + 24,
        ) <= 2,
{
}

/// A description of audio is borne where it has room for its fields, and plain
/// samples only in the second version; other descriptions are always borne.
pub proof fn descriptions_need_room(data: Seq<u8>, body: int, room: int)
    requires
        octets::be32(data, body + 8) != 1,
    ensures
        !describes_audio(data, body) ==> atom_sound(
            data,
            body,
            room,
            AtomList::Tables,
            STSD as int,
        ),
        describes_audio(data, body) && octets::be32(data, body + 8) > 0 ==> {
            let version = octets::be16(data, body + 24);
            let fields = if version == 0 {
                28int
            } else if version == 1 {
                44
            } else {
                64
            };
            let plain = octets::be32(data, body + 12) == octets::letters("lpcm"@);
            atom_sound(data, body, room, AtomList::Tables, STSD as int) <==> octets::be32(
                data,
                body + 8,
            ) >= fields + 8 && (plain ==> version == 2)
        },
{
    reveal(atom_sound);
    atoms_are_named_by_their_letters();
}

/// Where segments are is borne where the first of them begins at a number of 64
/// bits.
pub proof fn segments_begin_within_reach(data: Seq<u8>, body: int, room: int)
    ensures
        octets::byte(data, body) != 1 ==> atom_sound(
            data,
            body,
            room,
            AtomList::File,
            SIDX as int,
        ),
        octets::byte(data, body) == 1 ==> (atom_sound(
            data,
            body,
            room,
            AtomList::File,
            SIDX as int,
        ) <==> body + room + octets::be64(data, body + 20) <= 0xffff_ffff_ffff_ffff),
{
    reveal(atom_sound);
}

/// Behind the number and the flags of a stream stand, each where its flag is
/// set, two bytes for the stream that it needs, an address behind its length,
/// and two bytes for its clock.
pub proof fn streams_have_their_flagged_fields(data: Seq<u8>, i: int)
    ensures
        ({
            let flags = octets::byte(data, i + 2);
            let needed: int = if flags >= 0x80 {
                2
            } else {
                0
            };
            let address: int = if flags % 0x80 >= 0x40 {
                1 + octets::byte(data, i + 3 + needed)
            } else {
                0
            };
            let clock: int = if flags % 0x40 >= 0x20 {
                2
            } else {
                0
            };
            stream_fields(data, i) == i + 3 + needed + address + clock
        }),
{
}

/// Descriptors follow each other by their lengths, up to the end of their list.
pub proof fn descriptors_follow_each_other(data: Seq<u8>, from: int, to: int)
    requires
        from <= data.len(),
        to - from > 2,
        octets::byte(data, from) != 3,
        octets::byte(data, from) != 4,
        octets::byte(data, from) != 6,
    ensures
        ({
            let next = from + 1 + octets::length_bytes(data, from + 1) + octets::length_said(
                data,
                from + 1,
            );
            &&& next <= to ==> configs_sound(data, from, to) == configs_sound(data, next, to)
            &&& next <= to ==> streams_sound(data, from, to, false) == streams_sound(
                data,
                next,
                to,
                false,
            )
            &&& next > to ==> configs_sound(data, from, to) && streams_sound(data, from, to, false)
        }),
{
    octets::lengths_are_made_of_seven_bits_each(data, from + 1);
}

/// A list lies within its atom and within the file.
pub proof fn lists_end_with_their_atom(data: Seq<u8>, from: int, room: int, start: int)
    ensures
        from + room <= data.len() ==> end_within(data, from, room) == from + room,
        from + room > data.len() ==> end_within(data, from, room) == data.len(),
        before(start, from) <= start,
        before(start, from) <= from,
        before(start, from) == start || before(start, from) == from,
{
}

/// The first samples of a group are counted from group to group: as many as
/// the one before has, times the groups up to the next entry.
pub proof fn groups_count_on(data: Seq<u8>, table: int, k: int, count: int, first: int)
    requires
        k + 1 < count,
        octets::be32(data, table + 12 * k) <= octets::be32(data, table + 12 * k + 12),
        octets::be32(data, table + 12 * k + 4) > 0,
    ensures
        ({
            let reached = first + (octets::be32(data, table + 12 * k + 12) - octets::be32(
                data,
                table + 12 * k,
            )) * octets::be32(data, table + 12 * k + 4);
            groups_counted(data, table, k, count, first) <==> reached <= 0xffff_ffff
                && groups_counted(data, table, k + 1, count, reached)
        }),
{
    assert(table + 12 * (k + 1) == table + 12 * k + 12);
}

} // verus!
