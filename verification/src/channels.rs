//! The channels that a connection subscribes to, as they are given on the
//! command line: hexadecimal bytes.

use vstd::prelude::*;
use vstd::string::*;
use vstd::utf8::*;

use crate::encoding;
use crate::encoding::HexFault;
use crate::text;

verus! {

/// Why a channel cannot be read.
#[derive(Debug, PartialEq, Eq)]
pub enum ChannelError {
    Empty,
    /// This value has an odd number of digits.
    OddDigits { value: String },
    /// This value has something other than digits in it.
    InvalidHex { value: String, fault: HexFault },
}

pub enum ChannelErrorView {
    Empty,
    OddDigits { value: Seq<char> },
    InvalidHex { value: Seq<char>, fault: HexFault },
}

impl View for ChannelError {
    type V = ChannelErrorView;

    open spec fn view(&self) -> ChannelErrorView {
        match *self {
            ChannelError::Empty => ChannelErrorView::Empty,
            ChannelError::OddDigits { value } => ChannelErrorView::OddDigits { value: value@ },
            ChannelError::InvalidHex { value, fault } => ChannelErrorView::InvalidHex {
                value: value@,
                fault,
            },
        }
    }
}

impl ChannelErrorView {
    pub open spec fn message(self) -> Seq<char> {
        match self {
            ChannelErrorView::Empty => "empty subscribe channel hex value"@,
            ChannelErrorView::OddDigits { value } =>
                "subscribe channel hex must have an even number of digits: "@ + value,
            ChannelErrorView::InvalidHex { value, .. } => "invalid subscribe channel hex: "@
                + value,
        }
    }
}

impl ChannelError {
    pub fn message(&self) -> (r: String)
        ensures
            r@ == self@.message(),
    {
        match self {
            ChannelError::Empty => "empty subscribe channel hex value".to_owned(),
            ChannelError::OddDigits { value } => {
                let mut line =
                    "subscribe channel hex must have an even number of digits: ".to_owned();
                line.append(value.as_str());
                line
            },
            ChannelError::InvalidHex { value, .. } => {
                let mut line = "invalid subscribe channel hex: ".to_owned();
                line.append(value.as_str());
                line
            },
        }
    }
}

// ---------------------------------------------------------------------------
// One channel
// ---------------------------------------------------------------------------

/// `s` without a `0x` or `0X` before it.
pub open spec fn without_prefix(s: Seq<char>) -> Seq<char> {
    if s.len() >= 2 && s[0] == '0' && (s[1] == 'x' || s[1] == 'X') {
        s.skip(2)
    } else {
        s
    }
}

/// Whether `c` may stand between digits.
pub open spec fn is_separator(c: char) -> bool {
    c == ' ' || c == ':' || c == '-'
}

/// The digits of a channel: what is left without white space around it, a
/// prefix, and separators.
pub open spec fn digits_of(value: Seq<char>) -> Seq<char> {
    without_prefix(text::trimmed(value)).filter(|c: char| !is_separator(c))
}

/// What a channel says.
pub open spec fn channel_of(value: Seq<char>) -> Result<Seq<u8>, ChannelErrorView> {
    let digits = digits_of(value);
    if digits.len() == 0 {
        Err(ChannelErrorView::Empty)
    } else if encode_utf8(digits).len() % 2 != 0 {
        Err(ChannelErrorView::OddDigits { value })
    } else {
        match encoding::hex_decoded(encode_utf8(digits)) {
            Ok(bytes) => Ok(bytes),
            Err(fault) => Err(ChannelErrorView::InvalidHex { value, fault }),
        }
    }
}

fn strip_prefix(s: &str) -> (r: &str)
    ensures
        r@ == without_prefix(s@),
{
    let len: usize = s.unicode_len();
    if len >= 2 && s.get_char(0) == '0' && (s.get_char(1) == 'x' || s.get_char(1) == 'X') {
        let rest = s.substring_char(2, len);
        assert(rest@ =~= s@.skip(2));
        rest
    } else {
        s
    }
}

fn remove_separators(s: &str) -> (r: String)
    ensures
        r@ == s@.filter(|c: char| !is_separator(c)),
{
    let ghost keep = |c: char| !is_separator(c);
    let mut kept = String::new();
    proof {
        reveal(Seq::filter);
        assert(s@.take(0) =~= Seq::<char>::empty());
    }
    let mut n: usize = 0;
    let len: usize = s.unicode_len();
    for ch in it: s.chars()
        invariant
            len == s@.len(),
            it.seq() == s@,
            n == it.index(),
            keep == (|c: char| !is_separator(c)),
            kept@ == s@.take(n as int).filter(keep),
    {
        proof {
            reveal(Seq::filter);
            assert(s@.take(n + 1).drop_last() =~= s@.take(n as int));
            assert(s@.take(n + 1).last() == ch);
        }
        if ch != ' ' && ch != ':' && ch != '-' {
            kept.push(ch);
        }
        n = n + 1;
    }
    assert(s@.take(s@.len() as int) =~= s@);
    kept
}

/// What a channel, or the failure to read one, says.
pub open spec fn channel_view(channel: Result<Vec<u8>, ChannelError>) -> Result<
    Seq<u8>,
    ChannelErrorView,
> {
    match channel {
        Ok(bytes) => Ok(bytes@),
        Err(error) => Err(error@),
    }
}

/// Reads a channel.
pub fn parse_channel(value: &str) -> (r: Result<Vec<u8>, ChannelError>)
    ensures
        channel_view(r) == channel_of(value@),
{
    let cleaned = remove_separators(strip_prefix(value.trim()));
    if cleaned.as_str().is_empty() {
        return Err(ChannelError::Empty);
    }
    if cleaned.as_str().as_bytes().len() % 2 != 0 {
        return Err(ChannelError::OddDigits { value: value.to_owned() });
    }
    match encoding::hex_decode(cleaned.as_str()) {
        Ok(bytes) => Ok(bytes),
        Err(fault) => Err(ChannelError::InvalidHex { value: value.to_owned(), fault }),
    }
}

// ---------------------------------------------------------------------------
// All channels
// ---------------------------------------------------------------------------

pub open spec fn texts_view(values: Seq<String>) -> Seq<Seq<char>> {
    Seq::new(values.len(), |i: int| values[i]@)
}

pub open spec fn bytes_view(channels: Seq<Vec<u8>>) -> Seq<Seq<u8>> {
    Seq::new(channels.len(), |i: int| channels[i]@)
}

/// What the values say one by one, or why the first that says nothing does
/// not.
pub open spec fn each_channel(values: Seq<Seq<char>>) -> Result<Seq<Seq<u8>>, ChannelErrorView>
    decreases values.len(),
{
    if values.len() == 0 {
        Ok(Seq::empty())
    } else {
        match each_channel(values.drop_last()) {
            Err(error) => Err(error),
            Ok(channels) => match channel_of(values.last()) {
                Ok(bytes) => Ok(channels.push(bytes)),
                Err(error) => Err(error),
            },
        }
    }
}

/// The channels that a connection subscribes to: those given, or 1, 2 and 3.
pub open spec fn channels_of(values: Seq<Seq<char>>) -> Result<Seq<Seq<u8>>, ChannelErrorView> {
    if values.len() == 0 {
        Ok(seq![seq![1u8], seq![2u8], seq![3u8]])
    } else {
        each_channel(values)
    }
}

/// Once a value says nothing, neither do all of them, for the same reason.
proof fn lemma_error_stays(values: Seq<Seq<char>>, n: int)
    requires
        0 <= n <= values.len(),
        each_channel(values.take(n)) is Err,
    ensures
        each_channel(values) == each_channel(values.take(n)),
    decreases values.len() - n,
{
    if n == values.len() {
        assert(values.take(n) =~= values);
    } else {
        assert(values.take(n + 1).drop_last() =~= values.take(n));
        lemma_error_stays(values, n + 1);
    }
}

/// What a list of channels, or the failure to read one, says.
pub open spec fn channels_view(channels: Result<Vec<Vec<u8>>, ChannelError>) -> Result<
    Seq<Seq<u8>>,
    ChannelErrorView,
> {
    match channels {
        Ok(list) => Ok(bytes_view(list@)),
        Err(error) => Err(error@),
    }
}

fn usual_channels() -> (r: Vec<Vec<u8>>)
    ensures
        bytes_view(r@) == seq![seq![1u8], seq![2u8], seq![3u8]],
{
    let mut first: Vec<u8> = Vec::new();
    first.push(1);
    let mut second: Vec<u8> = Vec::new();
    second.push(2);
    let mut third: Vec<u8> = Vec::new();
    third.push(3);
    let mut channels: Vec<Vec<u8>> = Vec::new();
    channels.push(first);
    channels.push(second);
    channels.push(third);
    assert(bytes_view(channels@)[0] =~= seq![1u8]);
    assert(bytes_view(channels@)[1] =~= seq![2u8]);
    assert(bytes_view(channels@)[2] =~= seq![3u8]);
    assert(bytes_view(channels@) =~= seq![seq![1u8], seq![2u8], seq![3u8]]);
    channels
}

/// Reads the channels that a connection subscribes to.
pub fn parse_subscribe_channels(values: &Vec<String>) -> (r: Result<Vec<Vec<u8>>, ChannelError>)
    ensures
        channels_view(r) == channels_of(texts_view(values@)),
{
    if values.len() == 0 {
        return Ok(usual_channels());
    }
    let ghost said = texts_view(values@);
    let mut channels: Vec<Vec<u8>> = Vec::new();
    let mut i: usize = 0;
    proof {
        assert(said.take(0) =~= Seq::<Seq<char>>::empty());
        assert(bytes_view(channels@) =~= Seq::<Seq<u8>>::empty());
    }
    while i < values.len()
        invariant
            i <= values.len(),
            values.len() > 0,
            said == texts_view(values@),
            each_channel(said.take(i as int)) == Ok::<Seq<Seq<u8>>, ChannelErrorView>(
                bytes_view(channels@),
            ),
        decreases values.len() - i,
    {
        let ghost before = channels@;
        assert(said.take(i + 1).drop_last() =~= said.take(i as int));
        assert(said.take(i + 1).last() == values@[i as int]@);
        match parse_channel(values[i].as_str()) {
            Ok(bytes) => {
                channels.push(bytes);
                assert(bytes_view(channels@) =~= bytes_view(before).push(bytes@));
            },
            Err(error) => {
                proof {
                    lemma_error_stays(said, i + 1);
                }
                return Err(error);
            },
        }
        i = i + 1;
    }
    assert(said.take(values.len() as int) =~= said);
    Ok(channels)
}

// ---------------------------------------------------------------------------
// Laws
// ---------------------------------------------------------------------------

/// As many channels are subscribed to as were given.
pub proof fn every_value_is_a_channel(values: Seq<Seq<char>>)
    ensures
        each_channel(values) matches Ok(channels) ==> channels.len() == values.len() && forall|
            i: int,
        |
            0 <= i < values.len() ==> channel_of(values[i]) == Ok::<Seq<u8>, ChannelErrorView>(
                channels[i],
            ),
    decreases values.len(),
{
    if values.len() > 0 {
        let before = values.drop_last();
        every_value_is_a_channel(before);
        if let Ok(channels) = each_channel(values) {
            assert forall|i: int| 0 <= i < values.len() implies channel_of(values[i]) == Ok::<
                Seq<u8>,
                ChannelErrorView,
            >(channels[i]) by {
                if i < before.len() {
                    assert(values[i] == before[i]);
                }
            }
        }
    }
}

/// A channel that can be read has at least one byte.
pub proof fn channels_are_not_empty(value: Seq<char>)
    ensures
        channel_of(value) matches Ok(bytes) ==> bytes.len() > 0,
{
    let digits = digits_of(value);
    if digits.len() > 0 {
        encode_utf8_first_scalar(digits);
        assert(encode_utf8(digits).len() > 0) by {
            assert(encode_utf8(digits) =~= encode_scalar(digits[0] as u32) + encode_utf8(
                digits.drop_first(),
            ));
        }
    }
}

/// White space around a channel changes neither what it says nor whether it
/// can be read.
pub proof fn white_space_around_a_channel_is_ignored(value: Seq<char>)
    ensures
        digits_of(text::trimmed(value)) == digits_of(value),
        channel_of(value) is Ok <==> channel_of(text::trimmed(value)) is Ok,
        channel_of(value) is Ok ==> channel_of(text::trimmed(value)) == channel_of(value),
{
    text::trimmed_has_no_white_ends(value);
}

/// A prefix of either case is left out, and only at the start.
pub proof fn hex_prefix_is_left_out(digits: Seq<char>)
    ensures
        without_prefix(seq!['0', 'x'] + digits) == digits,
        without_prefix(seq!['0', 'X'] + digits) == digits,
        digits.len() < 2 ==> without_prefix(digits) == digits,
        digits.len() >= 2 && (digits[0] != '0' || (digits[1] != 'x' && digits[1] != 'X'))
            ==> without_prefix(digits) == digits,
{
    assert((seq!['0', 'x'] + digits).skip(2) =~= digits);
    assert((seq!['0', 'X'] + digits).skip(2) =~= digits);
}

/// Of a channel everything counts in its order but spaces, colons and hyphens,
/// wherever they stand between its ends.
pub proof fn separators_are_left_out(value: Seq<char>)
    ensures
        forall|c: char|
            digits_of(value).contains(c) <==> #[trigger] without_prefix(
                text::trimmed(value),
            ).contains(c) && c != ' ' && c != ':' && c != '-',
        (forall|i: int|
            0 <= i < without_prefix(text::trimmed(value)).len() ==> {
                let c = #[trigger] without_prefix(text::trimmed(value))[i];
                c != ' ' && c != ':' && c != '-'
            }) ==> digits_of(value) == without_prefix(text::trimmed(value)),
{
    let s = without_prefix(text::trimmed(value));
    let keep = |c: char| !is_separator(c);
    let kept = s.filter(keep);
    assert forall|c: char| kept.contains(c) implies s.contains(c) && keep(c) by {
        let i = choose|i: int| 0 <= i < kept.len() && kept[i] == c;
        s.lemma_filter_pred(keep, i);
        s.lemma_filter_contains_rev(keep, c);
    }
    assert forall|c: char| s.contains(c) && keep(c) implies kept.contains(c) by {
        let i = choose|i: int| 0 <= i < s.len() && s[i] == c;
        s.lemma_filter_contains(keep, i);
    }
    if forall|i: int|
        0 <= i < s.len() ==> {
            let c = #[trigger] s[i];
            c != ' ' && c != ':' && c != '-'
        } {
        lemma_all_kept(s);
    }
}

proof fn lemma_all_kept(s: Seq<char>)
    requires
        forall|i: int|
            0 <= i < s.len() ==> {
                let c = #[trigger] s[i];
                c != ' ' && c != ':' && c != '-'
            },
    ensures
        s.filter(|c: char| !is_separator(c)) == s,
    decreases s.len(),
{
    reveal(Seq::filter);
    if s.len() > 0 {
        assert(s.last() == s[s.len() - 1]);
        assert forall|i: int| 0 <= i < s.drop_last().len() implies {
            let c = #[trigger] s.drop_last()[i];
            c != ' ' && c != ':' && c != '-'
        } by {
            assert(s.drop_last()[i] == s[i]);
        }
        lemma_all_kept(s.drop_last());
        assert(s.drop_last().push(s.last()) =~= s);
    }
}

/// A separator behind a channel's digits changes nothing, and any other
/// character is one digit more.
pub proof fn digits_stand_in_their_order(s: Seq<char>, c: char)
    ensures
        is_separator(c) ==> s.push(c).filter(|d: char| !is_separator(d)) == s.filter(
            |d: char| !is_separator(d),
        ),
        !is_separator(c) ==> s.push(c).filter(|d: char| !is_separator(d)) == s.filter(
            |d: char| !is_separator(d),
        ).push(c),
        is_separator(c) <==> c == ' ' || c == ':' || c == '-',
{
    reveal(Seq::filter);
    assert(s.push(c).drop_last() =~= s);
}

/// A channel is what its hexadecimal digits say, two a byte; without digits it
/// is empty, an odd number of them is refused, and so is anything else, each
/// with the value as it was given.
pub proof fn channel_is_what_its_digits_say(value: Seq<char>)
    ensures
        match channel_of(value) {
            Ok(bytes) => {
                let digits = encode_utf8(digits_of(value));
                &&& digits.len() == 2 * bytes.len()
                &&& forall|i: int|
                    0 <= i < bytes.len() ==> #[trigger] bytes[i] == 16 * encoding::hex_value(
                        digits[2 * i],
                    ) + encoding::hex_value(digits[2 * i + 1])
            },
            Err(ChannelErrorView::Empty) => digits_of(value).len() == 0,
            Err(ChannelErrorView::OddDigits { value: told }) => told == value && digits_of(
                value,
            ).len() > 0 && encode_utf8(digits_of(value)).len() % 2 == 1,
            Err(ChannelErrorView::InvalidHex { value: told, fault }) => told == value && digits_of(
                value,
            ).len() > 0 && encoding::hex_decoded(encode_utf8(digits_of(value))) == Err::<
                Seq<u8>,
                HexFault,
            >(fault),
        },
{
    let digits = encode_utf8(digits_of(value));
    if let Ok(bytes) = channel_of(value) {
        lemma_all_hex(digits);
        assert forall|i: int| 0 <= i < bytes.len() implies #[trigger] bytes[i] == 16
            * encoding::hex_value(digits[2 * i]) + encoding::hex_value(digits[2 * i + 1]) by {
            assert(encoding::is_hex(digits[2 * i]));
            assert(encoding::is_hex(digits[2 * i + 1]));
        }
    }
}

proof fn lemma_all_hex(digits: Seq<u8>)
    ensures
        encoding::first_not_hex(digits) <= digits.len(),
        encoding::first_not_hex(digits) == digits.len() ==> forall|i: int|
            0 <= i < digits.len() ==> encoding::is_hex(#[trigger] digits[i]),
    decreases digits.len(),
{
    if digits.len() > 0 && encoding::is_hex(digits.first()) {
        let rest = digits.drop_first();
        lemma_all_hex(rest);
        if encoding::first_not_hex(digits) == digits.len() {
            assert forall|i: int| 0 <= i < digits.len() implies encoding::is_hex(
                #[trigger] digits[i],
            ) by {
                if i > 0 {
                    assert(digits[i] == rest[i - 1]);
                }
            }
        }
    }
}

/// The first value that cannot be read refuses them all, for its own reason.
pub proof fn first_unreadable_channel_refuses_all(values: Seq<Seq<char>>, at: int)
    requires
        0 <= at < values.len(),
        channel_of(values[at]) is Err,
        forall|i: int| 0 <= i < at ==> channel_of(#[trigger] values[i]) is Ok,
    ensures
        channels_of(values) matches Err(error) && channel_of(values[at]) == Err::<
            Seq<u8>,
            ChannelErrorView,
        >(error),
{
    lemma_readable_channels(values.take(at));
    let with = values.take(at + 1);
    assert(with.drop_last() =~= values.take(at));
    assert(with.last() == values[at]);
    lemma_error_stays(values, at + 1);
}

proof fn lemma_readable_channels(values: Seq<Seq<char>>)
    requires
        forall|i: int| 0 <= i < values.len() ==> channel_of(#[trigger] values[i]) is Ok,
    ensures
        each_channel(values) is Ok,
    decreases values.len(),
{
    if values.len() > 0 {
        assert forall|i: int| 0 <= i < values.drop_last().len() implies channel_of(
            #[trigger] values.drop_last()[i],
        ) is Ok by {
            assert(values.drop_last()[i] == values[i]);
        }
        lemma_readable_channels(values.drop_last());
        assert(values.last() == values[values.len() - 1]);
    }
}

/// Values that can all be read are the channels, in their order; without values
/// there are three, of one byte each.
pub proof fn channels_are_subscribed_in_order(values: Seq<Seq<char>>)
    ensures
        values.len() > 0 && (forall|i: int|
            0 <= i < values.len() ==> channel_of(#[trigger] values[i]) is Ok) ==> (channels_of(
            values,
        ) matches Ok(channels) && channels.len() == values.len() && forall|i: int|
            0 <= i < values.len() ==> channel_of(#[trigger] values[i]) == Ok::<
                Seq<u8>,
                ChannelErrorView,
            >(channels[i])),
        values.len() == 0 ==> (channels_of(values) matches Ok(channels) && channels.len() == 3
            && forall|i: int|
            0 <= i < 3 ==> (#[trigger] channels[i]).len() == 1 && channels[i][0] == i + 1),
{
    every_value_is_a_channel(values);
    if values.len() > 0 && (forall|i: int|
        0 <= i < values.len() ==> channel_of(#[trigger] values[i]) is Ok) {
        lemma_readable_channels(values);
    }
}

/// A channel that cannot be read is shown as it was given, behind what is wrong
/// with it.
pub proof fn unreadable_channels_are_shown(value: Seq<char>, fault: HexFault)
    ensures
        ({
            let odd = (ChannelErrorView::OddDigits { value }).message();
            let invalid = (ChannelErrorView::InvalidHex { value, fault }).message();
            &&& odd == "subscribe channel hex must have an even number of digits: "@ + value
            &&& invalid == "invalid subscribe channel hex: "@ + value
            &&& odd != invalid
        }),
{
    reveal_strlit("subscribe channel hex must have an even number of digits: ");
    reveal_strlit("invalid subscribe channel hex: ");
    assert("subscribe channel hex must have an even number of digits: "@.len() == 58);
    assert("invalid subscribe channel hex: "@.len() == 31);
}

} // verus!
