//! What is known of an audio file before it plays, and how its packets are
//! turned into samples.

use vstd::prelude::*;
use vstd::string::*;

use crate::clock;
use crate::clock::Span;
use crate::readable;

verus! {

// ---------------------------------------------------------------------------
// What the audio crates tell of a file
// ---------------------------------------------------------------------------

/// How many seconds one tick of a track's time lasts, as a fraction.
#[derive(Debug, Clone, Copy, PartialEq, Eq, Structural)]
pub struct Ticks {
    pub numer: u32,
    pub denom: u32,
}

/// What a container says of its first track.
#[derive(Debug, Clone, Copy, PartialEq, Eq, Structural)]
pub struct TrackParams {
    pub sample_rate: Option<u32>,
    pub channels: Option<usize>,
    pub bits_per_sample: Option<u32>,
    pub ticks: Option<Ticks>,
    pub n_frames: Option<u64>,
}

fn track_params(
    sample_rate: Option<u32>,
    channels: Option<usize>,
    bits_per_sample: Option<u32>,
    ticks: Option<(u32, u32)>,
    n_frames: Option<u64>,
) -> (r: TrackParams)
    ensures
        r == (TrackParams {
            sample_rate,
            channels,
            bits_per_sample,
            ticks: match ticks {
                Some((numer, denom)) => Some(Ticks { numer, denom }),
                None => None,
            },
            n_frames,
        }),
{
    TrackParams {
        sample_rate,
        channels,
        bits_per_sample,
        ticks: match ticks {
            Some((numer, denom)) => Some(Ticks { numer, denom }),
            None => None,
        },
        n_frames,
    }
}

/// What `symphonia`'s probe finds in `data`, taken for a file with that
/// extension: the first track, none without tracks, or the text of its error.
pub uninterp spec fn probed_track(data: Seq<u8>, extension: Seq<char>, gapless: bool) -> Result<
    Option<TrackParams>,
    Seq<char>,
>;

pub open spec fn probe_view(found: Result<Option<TrackParams>, String>) -> Result<
    Option<TrackParams>,
    Seq<char>,
> {
    match found {
        Ok(track) => Ok(track),
        Err(message) => Err(message@),
    }
}

/// Whether the ticks of a probed track, when it has any, are a proper fraction.
pub open spec fn proper_ticks(found: Result<Option<TrackParams>, String>) -> bool {
    found matches Ok(Some(params)) ==> params.ticks matches Some(ticks) ==> ticks.numer > 0
        && ticks.denom > 0
}

/// `symphonia::core::probe::Probe::format` with the default registry, on `data`
/// in memory, and `FormatReader::default_track` of the reader that it finds.
/// What is found depends on the arguments alone. Every reader makes its ticks
/// with `TimeBase::new`, which takes no zero. The readers for waves, FLAC, MPEG
/// audio, AAC and MP4, and the one for ID3 tags, panic on no readable data, be
/// their arithmetic checked or not; there is no other reader. A picture in a
/// comment of FLAC, or a frame of a tag whose bytes are escaped, may make one ask
/// for as much as 4 GiB, which is left to the machine.
#[verifier::external_body]
fn probe_first_track(data: &[u8], extension: &str, gapless: bool) -> (r: Result<
    Option<TrackParams>,
    String,
>)
    requires
        readable::readable(data@),
    ensures
        probe_view(r) == probed_track(data@, extension@, gapless),
        proper_ticks(r),
{
    let source = Box::new(std::io::Cursor::new(data.to_vec()));
    symphonia::default::get_probe().format(
        symphonia::core::probe::Hint::new().with_extension(extension),
        symphonia::core::io::MediaSourceStream::new(source, Default::default()),
        &symphonia::core::formats::FormatOptions { enable_gapless: gapless, ..Default::default() },
        &Default::default(),
    ).map_err(|err| err.to_string()).map(|found| found.format.default_track().map(|track| {
        let known = &track.codec_params;
        track_params(
            known.sample_rate,
            known.channels.map(|channels| channels.count()),
            known.bits_per_sample,
            known.time_base.map(|base| (base.numer, base.denom)),
            known.n_frames,
    ) }))
}

/// A time as whole seconds and the bits of the fraction beyond them.
#[derive(Debug, Clone, Copy, PartialEq, Eq, Structural)]
pub struct TrackTime {
    pub seconds: u64,
    pub fraction_bits: u64,
}

/// `symphonia::core::units::TimeBase::calc_time`: `count` ticks in seconds. The
/// whole seconds wrap where they need more than 64 bits. The fraction is zero,
/// and then all its bits are, exactly when the seconds come out whole. It
/// panics where either side of the fraction of ticks is zero.
#[verifier::external_body]
fn calc_time(ticks: Ticks, count: u64) -> (r: TrackTime)
    requires
        ticks.numer > 0,
        ticks.denom > 0,
    ensures
        r.seconds == (count * ticks.numer / ticks.denom as int) % 0x1_0000_0000_0000_0000,
        (r.fraction_bits == 0) == ((count * ticks.numer) % ticks.denom as int == 0),
{
    let base = symphonia::core::units::TimeBase::new(ticks.numer, ticks.denom);
    let time = base.calc_time(count);
    TrackTime { seconds: time.seconds, fraction_bits: time.frac.to_bits() }
}

/// Whether `rodio`'s decoder can be asked about `data`: whether it is a readable
/// wave. The decoders of compressed audio panic on some malformed packets, such
/// as a FLAC frame that is longer than the stream allows, which only decoding
/// would tell.
pub open spec fn decodable(data: Seq<u8>) -> bool {
    readable::is_wave(data) && readable::readable(data)
}

/// How long `rodio`'s decoder says that the audio in `data` lasts.
pub uninterp spec fn decoder_duration(data: Seq<u8>) -> Option<Span>;

/// `rodio::Decoder::new` on `data` in memory, and `Source::total_duration` of
/// the decoder: none when there is no decoder for the data or it knows no
/// duration. What it says depends on the data alone. The decoder decodes the
/// first packet; for waves, whose packets are the samples as they are, it then
/// panics nowhere that `probe_first_track` does not.
#[verifier::external_body]
fn decoder_total_duration(data: &[u8]) -> (r: Option<Span>)
    requires
        decodable(data@),
    ensures
        r == decoder_duration(data@),
        r matches Some(span) ==> span.nanos < clock::NANOS_PER_SEC,
{
    let cursor = std::io::Cursor::new(data.to_vec());
    let decoder = rodio::Decoder::new(std::io::BufReader::new(cursor)).ok()?;
    let duration = rodio::Source::total_duration(&decoder)?;
    Some(Span { secs: duration.as_secs(), nanos: duration.subsec_nanos() })
}

// ---------------------------------------------------------------------------
// Durations
// ---------------------------------------------------------------------------

/// `a / b` rounded up.
pub open spec fn rounded_up(a: int, b: int) -> int {
    if a % b == 0 {
        a / b
    } else {
        a / b + 1
    }
}

/// The seconds of `count` ticks, rounded up, in 64 bits.
pub open spec fn ticks_secs(ticks: Ticks, count: u64) -> int {
    rounded_up(count * ticks.numer, ticks.denom as int) % 0x1_0000_0000_0000_0000
}

/// The seconds of `count` ticks, rounded up.
pub fn ticks_secs_ceil(ticks: Ticks, count: u64) -> (r: u64)
    requires
        ticks.numer > 0,
        ticks.denom > 0,
    ensures
        r == ticks_secs(ticks, count),
{
    let time = calc_time(ticks, count);
    if time.fraction_bits == 0 {
        time.seconds
    } else {
        time.seconds.wrapping_add(1)
    }
}

/// The seconds of `duration`, rounded up, as far as they fit.
pub open spec fn secs_ceil(duration: Span) -> u64 {
    if duration.nanos > 0 && duration.secs < u64::MAX {
        (duration.secs + 1) as u64
    } else {
        duration.secs
    }
}

pub fn duration_secs_ceil(duration: Span) -> (r: u64)
    ensures
        r == secs_ceil(duration),
{
    let part: u64 = if duration.nanos > 0 {
        1
    } else {
        0
    };
    duration.secs.saturating_add(part)
}

/// How long a decoder says that `data` lasts, in seconds rounded up. Where it
/// cannot be asked, it is the container that tells: a decoder of compressed audio
/// goes by the frames that the container counts before the samples come, and not
/// by an estimate. Whether its packets can be decoded is then left open.
pub open spec fn decoder_secs(data: Seq<u8>) -> Option<u64> {
    if !readable::readable(data) {
        None
    } else if readable::is_wave(data) {
        secs_said(decoder_duration(data))
    } else {
        match readable::counting_part(data) {
            Some(part) => if readable::readable(part) {
                counted_secs(probed_track(part, "m4a"@, true))
            } else {
                None
            },
            None => None,
        }
    }
}

/// How long the frames last that a probe finds, unless there are none.
pub open spec fn counted_secs(found: Result<Option<TrackParams>, Seq<char>>) -> Option<u64> {
    match found {
        Ok(Some(params)) => if params.n_frames == Some(0u64) {
            None
        } else {
            container_secs(params)
        },
        _ => None,
    }
}

/// What a decoder says, in seconds rounded up.
pub open spec fn secs_said(said: Option<Span>) -> Option<u64> {
    match said {
        Some(duration) => Some(secs_ceil(duration)),
        None => None,
    }
}

pub fn said_secs_ceil(said: Option<Span>) -> (r: Option<u64>)
    ensures
        r == secs_said(said),
{
    match said {
        Some(duration) => Some(duration_secs_ceil(duration)),
        None => None,
    }
}

/// How long the frames last that a probe finds, unless there are none.
pub fn counted_frames_secs(found: &Result<Option<TrackParams>, String>) -> (r: Option<u64>)
    requires
        proper_ticks(*found),
    ensures
        r == counted_secs(probe_view(*found)),
{
    match found {
        Ok(Some(params)) => match params.n_frames {
            Some(0) => None,
            _ => container_duration_secs(*params),
        },
        _ => None,
    }
}

/// How long a decoder says that `data` lasts, in seconds rounded up.
pub fn decoder_duration_secs(data: &[u8]) -> (r: Option<u64>)
    ensures
        r == decoder_secs(data@),
{
    if !readable::is_readable(data) {
        None
    } else if readable::opens_as_wave(data) {
        said_secs_ceil(decoder_total_duration(data))
    } else {
        match readable::find_counting_part(data) {
            Some(part) => if readable::is_readable(part) {
                counted_frames_secs(&probe_first_track(part, "m4a", true))
            } else {
                None
            },
            None => None,
        }
    }
}

// ---------------------------------------------------------------------------
// Metadata
// ---------------------------------------------------------------------------

/// What the player wants to know of a file.
#[derive(Debug, Clone, Copy, PartialEq, Eq, Structural)]
pub struct AudioMetadata {
    pub sample_rate: u32,
    pub channels: u16,
    pub bit_depth: Option<u32>,
    pub duration_secs: Option<u64>,
}

/// The duration that a container gives: its frames, in ticks.
pub open spec fn container_secs(params: TrackParams) -> Option<u64> {
    match (params.ticks, params.n_frames) {
        (Some(ticks), Some(n_frames)) => Some(ticks_secs(ticks, n_frames) as u64),
        _ => None,
    }
}

/// What a probe says of a file, with `fallback` for a duration that the
/// container does not give.
pub open spec fn metadata_from(
    found: Result<Option<TrackParams>, Seq<char>>,
    fallback: Option<u64>,
) -> Result<AudioMetadata, Seq<char>> {
    match found {
        Err(message) => Err("Symphonia probe failed: "@ + message),
        Ok(None) => Err("No supported audio tracks"@),
        Ok(Some(params)) => match params.sample_rate {
            None => Err("No sample rate in codec params"@),
            Some(sample_rate) => Ok(
                AudioMetadata {
                    sample_rate,
                    channels: match params.channels {
                        Some(count) => count as u16,
                        None => 2,
                    },
                    bit_depth: params.bits_per_sample,
                    duration_secs: match container_secs(params) {
                        Some(secs) => Some(secs),
                        None => fallback,
                    },
                },
            ),
        },
    }
}

/// What the player can tell of a file.
pub open spec fn metadata_of(data: Seq<u8>) -> Result<AudioMetadata, Seq<char>> {
    if readable::readable(data) {
        metadata_from(probed_track(data, "m4a"@, true), decoder_secs(data))
    } else {
        Err("Malformed audio data"@)
    }
}

pub open spec fn metadata_view(r: Result<AudioMetadata, String>) -> Result<
    AudioMetadata,
    Seq<char>,
> {
    match r {
        Ok(metadata) => Ok(metadata),
        Err(message) => Err(message@),
    }
}

/// What a container gives as a track's duration.
pub fn container_duration_secs(params: TrackParams) -> (r: Option<u64>)
    requires
        params.ticks matches Some(ticks) ==> ticks.numer > 0 && ticks.denom > 0,
    ensures
        r == container_secs(params),
{
    match (params.ticks, params.n_frames) {
        (Some(ticks), Some(n_frames)) => Some(ticks_secs_ceil(ticks, n_frames)),
        _ => None,
    }
}

/// What a probe says of a file. `fallback` stands in for a duration that the
/// container does not give.
pub fn read_metadata(found: Result<Option<TrackParams>, String>, fallback: Option<u64>) -> (r:
    Result<AudioMetadata, String>)
    requires
        proper_ticks(found),
    ensures
        metadata_view(r) == metadata_from(probe_view(found), fallback),
{
    match found {
        Err(message) => {
            let mut text = "Symphonia probe failed: ".to_owned();
            text.append(message.as_str());
            Err(text)
        },
        Ok(None) => Err("No supported audio tracks".to_owned()),
        Ok(Some(params)) => match params.sample_rate {
            None => Err("No sample rate in codec params".to_owned()),
            Some(sample_rate) => Ok(
                AudioMetadata {
                    sample_rate,
                    channels: match params.channels {
                        Some(count) => #[verifier::truncate] (count as u16),
                        None => 2,
                    },
                    bit_depth: params.bits_per_sample,
                    duration_secs: match container_duration_secs(params) {
                        Some(secs) => Some(secs),
                        None => fallback,
                    },
                },
            ),
        },
    }
}

/// Reads what the player can tell of a file, if it is readable. The decoder is
/// asked only where the container gives no duration.
pub fn extract_audio_metadata(data: &[u8]) -> (r: Result<AudioMetadata, String>)
    ensures
        metadata_view(r) == metadata_of(data@),
{
    if !readable::is_readable(data) {
        return Err("Malformed audio data".to_owned());
    }
    let found = probe_first_track(data, "m4a", true);
    let fallback: Option<u64> = match &found {
        Ok(Some(params)) => if params.ticks.is_some() && params.n_frames.is_some() {
            None
        } else {
            decoder_duration_secs(data)
        },
        _ => None,
    };
    read_metadata(found, fallback)
}

// ---------------------------------------------------------------------------
// Decoding
// ---------------------------------------------------------------------------

/// What reading the next packet of a container gave.
#[derive(Debug, PartialEq, Eq)]
pub enum PacketRead {
    /// A packet of the track with this id.
    Packet { track_id: u32 },
    /// The source gave no more bytes.
    EndOfSource,
    /// Reading failed, with this message.
    Failed(String),
}

/// What to do about it.
#[derive(Debug, PartialEq, Eq)]
pub enum ReadStep {
    Decode,
    Skip,
    Finish,
    Fail(String),
}

/// What decoding a packet gave.
#[derive(Debug, PartialEq, Eq)]
pub enum PacketDecode {
    /// Samples.
    Samples,
    /// The packet was malformed.
    Malformed,
    /// The decoder has to be reset first.
    ResetRequired,
    /// Decoding failed, with this message.
    Failed(String),
}

/// What to do about it.
#[derive(Debug, PartialEq, Eq)]
pub enum DecodeStep {
    Keep,
    Skip,
    Reset,
    Fail(String),
}

/// Decides about a packet: only those of the wanted track are decoded, the end
/// of the source ends the decoding, and any other failure is passed on.
pub fn after_read(wanted_track: u32, read: PacketRead) -> (r: ReadStep)
    ensures
        r is Decode <==> read == (PacketRead::Packet { track_id: wanted_track }),
        r is Skip <==> (read matches PacketRead::Packet { track_id } && track_id != wanted_track),
        r is Finish <==> read is EndOfSource,
        r is Fail <==> read is Failed,
        r matches ReadStep::Fail(text) ==> text@ == "Read error: "@ + read->Failed_0@,
{
    match read {
        PacketRead::Packet { track_id } => if track_id != wanted_track {
            ReadStep::Skip
        } else {
            ReadStep::Decode
        },
        PacketRead::EndOfSource => ReadStep::Finish,
        PacketRead::Failed(message) => {
            let mut text = "Read error: ".to_owned();
            text.append(message.as_str());
            ReadStep::Fail(text)
        },
    }
}

/// Decides about what a packet was decoded to: a malformed packet is left out,
/// a decoder that asks for it is reset, and any other failure is passed on.
pub fn after_decode(decoded: PacketDecode) -> (r: DecodeStep)
    ensures
        r is Keep <==> decoded is Samples,
        r is Skip <==> decoded is Malformed,
        r is Reset <==> decoded is ResetRequired,
        r is Fail <==> decoded is Failed,
        r matches DecodeStep::Fail(text) ==> text@ == "Decode error: "@ + decoded->Failed_0@,
{
    match decoded {
        PacketDecode::Samples => DecodeStep::Keep,
        PacketDecode::Malformed => DecodeStep::Skip,
        PacketDecode::ResetRequired => DecodeStep::Reset,
        PacketDecode::Failed(message) => {
            let mut text = "Decode error: ".to_owned();
            text.append(message.as_str());
            DecodeStep::Fail(text)
        },
    }
}

/// How decoded samples are to be played.
#[derive(Debug, Clone, Copy, PartialEq, Eq, Structural)]
pub struct SourceFormat {
    pub channels: u16,
    pub sample_rate: u32,
}

/// Why decoded samples cannot be played.
#[derive(Debug, Clone, Copy, PartialEq, Eq, Structural)]
pub enum SourceError {
    NoSamples,
    InvalidChannelCount,
    InvalidSampleRate,
}

impl SourceError {
    pub open spec fn message(self) -> Seq<char> {
        match self {
            SourceError::NoSamples => "No audio samples decoded"@,
            SourceError::InvalidChannelCount => "Invalid channel count"@,
            SourceError::InvalidSampleRate => "Invalid sample rate"@,
        }
    }

    pub fn text(&self) -> (r: &'static str)
        ensures
            r@ == self.message(),
    {
        match self {
            SourceError::NoSamples => "No audio samples decoded",
            SourceError::InvalidChannelCount => "Invalid channel count",
            SourceError::InvalidSampleRate => "Invalid sample rate",
        }
    }
}

/// How `sample_count` decoded samples are played, with what the decoder says of
/// its channels and its sample rate: two channels and 48 kHz where it is silent.
pub open spec fn source_format_of(
    sample_count: usize,
    channels: Option<usize>,
    sample_rate: Option<u32>,
) -> Result<SourceFormat, SourceError> {
    let count = match channels {
        Some(n) => n as u16,
        None => 2u16,
    };
    let rate = match sample_rate {
        Some(n) => n,
        None => 48000u32,
    };
    if sample_count == 0 {
        Err(SourceError::NoSamples)
    } else if count == 0 {
        Err(SourceError::InvalidChannelCount)
    } else if rate == 0 {
        Err(SourceError::InvalidSampleRate)
    } else {
        Ok(SourceFormat { channels: count, sample_rate: rate })
    }
}

pub fn source_format(sample_count: usize, channels: Option<usize>, sample_rate: Option<u32>) -> (r:
    Result<SourceFormat, SourceError>)
    ensures
        r == source_format_of(sample_count, channels, sample_rate),
{
    if sample_count == 0 {
        return Err(SourceError::NoSamples);
    }
    let count: u16 = match channels {
        Some(n) => #[verifier::truncate] (n as u16),
        None => 2,
    };
    if count == 0 {
        return Err(SourceError::InvalidChannelCount);
    }
    let rate: u32 = match sample_rate {
        Some(n) => n,
        None => 48000,
    };
    if rate == 0 {
        return Err(SourceError::InvalidSampleRate);
    }
    Ok(SourceFormat { channels: count, sample_rate: rate })
}

// ---------------------------------------------------------------------------
// Laws
// ---------------------------------------------------------------------------

/// A track that plays for any time at all has a duration of at least a second,
/// and rounding adds less than one.
pub proof fn seconds_round_up(ticks: Ticks, count: u64)
    requires
        ticks.numer > 0,
        ticks.denom > 0,
        count * ticks.numer / (ticks.denom as int) < u64::MAX,
    ensures
        count > 0 ==> ticks_secs(ticks, count) >= 1,
        count * ticks.numer <= ticks_secs(ticks, count) * ticks.denom,
        ticks_secs(ticks, count) * ticks.denom < count * ticks.numer + ticks.denom,
{
    let total = count * ticks.numer;
    let denom = ticks.denom as int;
    vstd::arithmetic::div_mod::lemma_fundamental_div_mod(total, denom);
    assert(denom * (total / denom) == (total / denom) * denom) by (nonlinear_arith);
    assert((total / denom + 1) * denom == (total / denom) * denom + denom) by (nonlinear_arith);
    assert(count > 0 ==> total > 0) by (nonlinear_arith)
        requires
            total == count * ticks.numer,
            ticks.numer > 0,
    ;
    assert(total >= 0) by (nonlinear_arith)
        requires
            total == count * ticks.numer,
    ;
    vstd::arithmetic::div_mod::lemma_div_pos_is_pos(total, denom);
    if count > 0 && total % denom == 0 {
        assert(total / denom >= 1) by (nonlinear_arith)
            requires
                total > 0,
                denom > 0,
                total == denom * (total / denom) + total % denom,
                total % denom == 0,
        ;
    }
}

/// Whatever can be played has a channel and a sample rate.
pub proof fn playable_sources_have_a_format(
    sample_count: usize,
    channels: Option<usize>,
    sample_rate: Option<u32>,
)
    ensures
        source_format_of(sample_count, channels, sample_rate) matches Ok(format) ==> {
            &&& format.channels > 0
            &&& format.sample_rate > 0
            &&& sample_count > 0
        },
{
}

/// What is told of a file is what its container says of its first track: the
/// rate and the depth as they are, two channels where it says none, and its
/// length in seconds, or else what the decoder says.
pub proof fn metadata_is_what_the_container_says(params: TrackParams, fallback: Option<u64>)
    ensures
        params.sample_rate matches Some(rate) ==> (metadata_from(Ok(Some(params)), fallback)
            matches Ok(metadata) && {
            &&& metadata.sample_rate == rate
            &&& metadata.bit_depth == params.bits_per_sample
            &&& params.channels is None ==> metadata.channels == 2
            &&& (params.channels matches Some(count) && count <= 0xffff) ==> metadata.channels
                == params.channels->0
            &&& params.ticks is None || params.n_frames is None ==> metadata.duration_secs
                == fallback
            &&& params.ticks is Some && params.n_frames is Some ==> (metadata.duration_secs
                matches Some(secs) && secs as int == ticks_secs(
                params.ticks->0,
                params.n_frames->0,
            ))
        }),
        params.sample_rate is None ==> metadata_from(Ok(Some(params)), fallback) == Err::<
            AudioMetadata,
            Seq<char>,
        >("No sample rate in codec params"@),
{
    if let (Some(ticks), Some(count)) = (params.ticks, params.n_frames) {
        vstd::arithmetic::div_mod::lemma_mod_bound(
            rounded_up(count * ticks.numer, ticks.denom as int),
            0x1_0000_0000_0000_0000,
        );
    }
}

/// A file without tracks and one that cannot be probed have nothing told of
/// them but why, and neither has one that is not readable.
pub proof fn unprobed_files_say_why(message: Seq<char>, fallback: Option<u64>, data: Seq<u8>)
    ensures
        metadata_from(Err(message), fallback) == Err::<AudioMetadata, Seq<char>>(
            "Symphonia probe failed: "@ + message,
        ),
        metadata_from(Ok(None), fallback) == Err::<AudioMetadata, Seq<char>>(
            "No supported audio tracks"@,
        ),
        !readable::readable(data) ==> metadata_of(data) == Err::<AudioMetadata, Seq<char>>(
            "Malformed audio data"@,
        ),
        !readable::readable(data) ==> decoder_secs(data) is None,
{
}

/// A duration is rounded up to the next full second, as far as that fits.
pub proof fn durations_round_up(duration: Span)
    requires
        duration.secs < u64::MAX,
    ensures
        duration.nanos == 0 ==> secs_ceil(duration) == duration.secs,
        duration.nanos > 0 ==> secs_ceil(duration) == duration.secs + 1,
        secs_said(Some(duration)) == Some(secs_ceil(duration)),
        secs_said(None) is None,
        secs_ceil(Span { secs: u64::MAX, nanos: duration.nanos }) == u64::MAX,
{
}

/// A wave lasts as long as its decoder says, and any other file as long as the
/// frames that its container counts; no frames are no duration.
pub proof fn files_last_as_long_as_they_count(data: Seq<u8>, part: Seq<u8>, params: TrackParams)
    requires
        readable::readable(data),
    ensures
        readable::is_wave(data) ==> decoder_secs(data) == secs_said(decoder_duration(data)),
        !readable::is_wave(data) && readable::counting_part(data) is None ==> decoder_secs(data)
            is None,
        !readable::is_wave(data) && readable::counting_part(data) == Some(part)
            && readable::readable(part) && probed_track(part, "m4a"@, true) == Ok::<
            Option<TrackParams>,
            Seq<char>,
        >(Some(params)) ==> {
            &&& params.n_frames == Some(0u64) ==> decoder_secs(data) is None
            &&& params.n_frames is None || params.ticks is None ==> decoder_secs(data) is None
            &&& (params.ticks is Some && (params.n_frames matches Some(count) && count > 0)) ==> (
            decoder_secs(data) matches Some(secs) && secs as int == ticks_secs(
                params.ticks->0,
                params.n_frames->0,
            ))
        },
{
    if let (Some(ticks), Some(count)) = (params.ticks, params.n_frames) {
        vstd::arithmetic::div_mod::lemma_mod_bound(
            rounded_up(count * ticks.numer, ticks.denom as int),
            0x1_0000_0000_0000_0000,
        );
    }
}

/// Samples are played as their decoder says, in stereo and at 48 kHz where it
/// is silent; where that is nothing, or there are no samples, it is told which.
pub proof fn sources_are_played_as_decoded(
    sample_count: usize,
    channels: Option<usize>,
    sample_rate: Option<u32>,
)
    requires
        channels matches Some(count) ==> count <= 0xffff,
    ensures
        match source_format_of(sample_count, channels, sample_rate) {
            Ok(format) => {
                &&& channels matches Some(count) ==> format.channels == count
                &&& channels is None ==> format.channels == 2
                &&& sample_rate matches Some(rate) ==> format.sample_rate == rate
                &&& sample_rate is None ==> format.sample_rate == 48_000
            },
            Err(SourceError::NoSamples) => sample_count == 0,
            Err(SourceError::InvalidChannelCount) => sample_count > 0 && channels == Some(0usize),
            Err(SourceError::InvalidSampleRate) => sample_count > 0 && channels != Some(0usize)
                && sample_rate == Some(0u32),
        },
{
}

/// What is told of a readable file is what the probe says of its data, asked
/// for as MP4 audio that is played without gaps, and else what its decoder says
/// of its length.
pub proof fn readable_files_are_probed(data: Seq<u8>, params: TrackParams)
    requires
        readable::readable(data),
        probed_track(data, "m4a"@, true) == Ok::<Option<TrackParams>, Seq<char>>(Some(params)),
        params.sample_rate is Some,
    ensures
        metadata_of(data) matches Ok(metadata) && {
            &&& metadata.sample_rate == params.sample_rate->0
            &&& metadata.bit_depth == params.bits_per_sample
            &&& params.ticks is None || params.n_frames is None ==> metadata.duration_secs
                == decoder_secs(data)
        },
{
}

/// Every reason why samples cannot be played is told in its own words.
pub proof fn unplayable_sources_say_why(error: SourceError, other: SourceError)
    ensures
        error.message() == other.message() ==> error == other,
        SourceError::NoSamples.message() == "No audio samples decoded"@,
        SourceError::InvalidChannelCount.message() == "Invalid channel count"@,
        SourceError::InvalidSampleRate.message() == "Invalid sample rate"@,
{
    reveal_strlit("No audio samples decoded");
    reveal_strlit("Invalid channel count");
    reveal_strlit("Invalid sample rate");
    assert("No audio samples decoded"@.len() == 24);
    assert("Invalid channel count"@.len() == 21);
    assert("Invalid sample rate"@.len() == 19);
}

} // verus!
