//! The program's commands: what each needs to start, what it asks of the
//! server, and how long it waits.

use vstd::prelude::*;
use vstd::string::*;

use crate::app_types::{
    QConnectQueueState, QConnectRendererState, QueueStateView, RendererStateView,
};
use crate::ids;
use crate::json;
use crate::json::{Json, JsonNumber, JsonView, ObjectBuilder};
use crate::mpris;
use crate::playback;
use crate::protocol::{
    QueueCommandType, PLAYING_STATE_PAUSED, PLAYING_STATE_PLAYING, PLAYING_STATE_STOPPED,
};
use crate::quality::Quality;
use crate::text;

verus! {

// ---------------------------------------------------------------------------
// Commands
// ---------------------------------------------------------------------------

#[derive(Debug, Clone, Copy, PartialEq, Eq, Structural)]
pub enum Toggle {
    On,
    Off,
}

#[derive(Debug, Clone, Copy, PartialEq, Eq, Structural)]
pub enum RepeatMode {
    Off,
    One,
    All,
}

#[derive(Debug, Clone, Copy, PartialEq, Eq, Structural)]
pub enum PlaybackQuality {
    Mp3,
    Lossless,
    HiRes,
    UltraHiRes,
}

impl PlaybackQuality {
    pub open spec fn quality(self) -> Quality {
        match self {
            PlaybackQuality::Mp3 => Quality::Mp3,
            PlaybackQuality::Lossless => Quality::Lossless,
            PlaybackQuality::HiRes => Quality::HiRes,
            PlaybackQuality::UltraHiRes => Quality::UltraHiRes,
        }
    }

    pub fn to_qobuz_quality(self) -> (r: Quality)
        ensures
            r == self.quality(),
    {
        match self {
            PlaybackQuality::Mp3 => Quality::Mp3,
            PlaybackQuality::Lossless => Quality::Lossless,
            PlaybackQuality::HiRes => Quality::HiRes,
            PlaybackQuality::UltraHiRes => Quality::UltraHiRes,
        }
    }

    pub open spec fn name_view(self) -> Seq<char> {
        match self {
            PlaybackQuality::Mp3 => "mp3"@,
            PlaybackQuality::Lossless => "lossless"@,
            PlaybackQuality::HiRes => "hi-res"@,
            PlaybackQuality::UltraHiRes => "ultra-hi-res"@,
        }
    }

    /// The name by which the quality is chosen.
    pub fn name(&self) -> (r: &'static str)
        ensures
            r@ == self.name_view(),
    {
        match self {
            PlaybackQuality::Mp3 => "mp3",
            PlaybackQuality::Lossless => "lossless",
            PlaybackQuality::HiRes => "hi-res",
            PlaybackQuality::UltraHiRes => "ultra-hi-res",
        }
    }
}

/// A command of the program.
#[allow(inconsistent_fields)]
#[derive(Debug, PartialEq, Eq)]
pub enum Command {
    /// Obtain or save credentials.
    Login {
        manual: bool,
        app_id: Option<String>,
        user_auth_token: Option<String>,
        bind: String,
        timeout_secs: u64,
        print_token: bool,
        no_browser: bool,
    },
    /// List audio output devices.
    AudioDevices,
    /// Join and expose this process as a renderer.
    Serve {
        report_interval_secs: u64,
        no_audio: bool,
        audio_device: Option<String>,
        audio_quality: PlaybackQuality,
        no_mpris: bool,
    },
    /// Connect, print events, and exit.
    Status { wait_secs: u64 },
    /// Request and print the remote queue.
    Queue { wait_secs: u64 },
    /// Replace the remote queue.
    Load { track_ids: Vec<u64>, start_index: usize, shuffle: bool, wait_secs: u64 },
    /// Append to the remote queue.
    Add { track_ids: Vec<u64>, wait_secs: u64 },
    /// Insert after an entry, or at the front.
    Insert { track_ids: Vec<u64>, after_queue_item_id: Option<u64>, wait_secs: u64 },
    /// Clear the remote queue.
    Clear { wait_secs: u64 },
    Play { wait_secs: u64 },
    Pause { wait_secs: u64 },
    Stop { wait_secs: u64 },
    /// Set or adjust the volume.
    Volume { set: Option<i32>, delta: Option<i32>, mute: Option<bool>, wait_secs: u64 },
    Shuffle { mode: Toggle, wait_secs: u64 },
    Repeat { mode: RepeatMode, wait_secs: u64 },
}

/// How long a command waits for events before it ends: those that do not talk
/// to the server, or talk until they are stopped, do not wait.
pub open spec fn waits(command: Command) -> u64 {
    match command {
        Command::Login { .. } | Command::AudioDevices | Command::Serve { .. } => 0,
        Command::Status { wait_secs } => wait_secs,
        Command::Queue { wait_secs } => wait_secs,
        Command::Load { wait_secs, .. } => wait_secs,
        Command::Add { wait_secs, .. } => wait_secs,
        Command::Insert { wait_secs, .. } => wait_secs,
        Command::Clear { wait_secs } => wait_secs,
        Command::Play { wait_secs } => wait_secs,
        Command::Pause { wait_secs } => wait_secs,
        Command::Stop { wait_secs } => wait_secs,
        Command::Volume { wait_secs, .. } => wait_secs,
        Command::Shuffle { wait_secs, .. } => wait_secs,
        Command::Repeat { wait_secs, .. } => wait_secs,
    }
}

pub fn wait_secs_for(command: &Command) -> (r: u64)
    ensures
        r == waits(*command),
{
    match command {
        Command::Login { .. } | Command::AudioDevices | Command::Serve { .. } => 0,
        Command::Status { wait_secs } => *wait_secs,
        Command::Queue { wait_secs } => *wait_secs,
        Command::Load { wait_secs, .. } => *wait_secs,
        Command::Add { wait_secs, .. } => *wait_secs,
        Command::Insert { wait_secs, .. } => *wait_secs,
        Command::Clear { wait_secs } => *wait_secs,
        Command::Play { wait_secs } => *wait_secs,
        Command::Pause { wait_secs } => *wait_secs,
        Command::Stop { wait_secs } => *wait_secs,
        Command::Volume { wait_secs, .. } => *wait_secs,
        Command::Shuffle { wait_secs, .. } => *wait_secs,
        Command::Repeat { wait_secs, .. } => *wait_secs,
    }
}

/// What a command needs when it connects.
#[derive(Debug, PartialEq, Eq)]
pub struct Startup {
    pub enable_renderer: bool,
    pub enable_audio: bool,
    pub enable_mpris: bool,
    pub audio_device: Option<String>,
    pub audio_quality: Quality,
}

/// What a command needs: only serving needs a renderer, and audio and media
/// keys unless they are switched off, media keys also without audio.
pub fn startup_for(command: &Command) -> (r: Startup)
    ensures
        match *command {
            Command::Serve { no_audio, audio_device, audio_quality, no_mpris, .. } => {
                &&& r.enable_renderer
                &&& r.enable_audio == !no_audio
                &&& r.enable_mpris == (!no_audio && !no_mpris)
                &&& r.audio_device == audio_device
                &&& r.audio_quality == audio_quality.quality()
            },
            _ => r == (Startup {
                enable_renderer: false,
                enable_audio: false,
                enable_mpris: false,
                audio_device: None,
                audio_quality: Quality::Lossless,
            }),
        },
{
    match command {
        Command::Serve { no_audio, audio_device, audio_quality, no_mpris, .. } => Startup {
            enable_renderer: true,
            enable_audio: !*no_audio,
            enable_mpris: !*no_audio && !*no_mpris,
            audio_device: match audio_device {
                Some(name) => Some(name.clone()),
                None => None,
            },
            audio_quality: audio_quality.to_qobuz_quality(),
        },
        _ => Startup {
            enable_renderer: false,
            enable_audio: false,
            enable_mpris: false,
            audio_device: None,
            audio_quality: Quality::Lossless,
        },
    }
}

/// Whether credentials are saved as given instead of being obtained with a
/// browser.
pub fn saves_given_credentials(
    manual: bool,
    app_id: &Option<String>,
    user_auth_token: &Option<String>,
) -> (r: bool)
    ensures
        r == (manual || app_id is Some || user_auth_token is Some),
{
    manual || app_id.is_some() || user_auth_token.is_some()
}

/// The seconds between two reports of a renderer: at least one.
pub fn report_interval(report_interval_secs: u64) -> (r: u64)
    ensures
        r == (if report_interval_secs == 0 {
            1
        } else {
            report_interval_secs
        }),
{
    if report_interval_secs == 0 {
        1
    } else {
        report_interval_secs
    }
}

/// The number of a repeat mode.
pub open spec fn repeat_number(mode: RepeatMode) -> i32 {
    match mode {
        RepeatMode::Off => 1,
        RepeatMode::One => 2,
        RepeatMode::All => 3,
    }
}

pub fn repeat_mode_value(mode: RepeatMode) -> (r: i32)
    ensures
        r == repeat_number(mode),
{
    match mode {
        RepeatMode::Off => 1,
        RepeatMode::One => 2,
        RepeatMode::All => 3,
    }
}

// ---------------------------------------------------------------------------
// Settings
// ---------------------------------------------------------------------------

pub open spec fn setting_view(value: Option<String>) -> Option<Seq<char>> {
    match value {
        Some(text) => Some(text@),
        None => None,
    }
}

/// What the first of `values` with more than white space in it says, without
/// the white space around it.
pub open spec fn first_said(values: Seq<Option<String>>) -> Option<Seq<char>>
    decreases values.len(),
{
    if values.len() == 0 {
        None
    } else {
        match values.first() {
            Some(value) if text::trimmed(value@).len() > 0 => Some(text::trimmed(value@)),
            _ => first_said(values.drop_first()),
        }
    }
}

pub fn first_non_empty(values: &Vec<Option<String>>) -> (r: Option<String>)
    ensures
        setting_view(r) == first_said(values@),
{
    let mut i: usize = 0;
    assert(values@.skip(0) =~= values@);
    while i < values.len()
        invariant
            i <= values.len(),
            first_said(values@) == first_said(values@.skip(i as int)),
        decreases values.len() - i,
    {
        let ghost rest = values@.skip(i as int);
        assert(rest.first() == values@[i as int]);
        assert(rest.drop_first() =~= values@.skip(i + 1));
        if let Some(value) = &values[i] {
            let said = value.as_str().trim();
            if said.unicode_len() > 0 {
                return Some(said.to_owned());
            }
        }
        i = i + 1;
    }
    None
}

// ---------------------------------------------------------------------------
// Requests
// ---------------------------------------------------------------------------

/// The commands that take track ids.
#[derive(Debug, Clone, Copy, PartialEq, Eq, Structural)]
pub enum TrackCommand {
    Load,
    Add,
    Insert,
}

/// Why a command asks nothing of the server.
#[derive(Debug, Clone, Copy, PartialEq, Eq, Structural)]
pub enum CommandError {
    /// This track id needs more than 32 bits.
    TrackIdTooLarge(u64),
    NoTracks(TrackCommand),
    NoVolumeChange,
}

impl CommandError {
    pub open spec fn message_view(self) -> Seq<char> {
        match self {
            CommandError::TrackIdTooLarge(id) => "track id "@ + text::decimal(id as nat)
                + " exceeds u32 range"@,
            CommandError::NoTracks(TrackCommand::Load) => "load requires at least one track id"@,
            CommandError::NoTracks(TrackCommand::Add) => "command requires at least one track id"@,
            CommandError::NoTracks(TrackCommand::Insert) =>
                "insert requires at least one track id"@,
            CommandError::NoVolumeChange => "volume requires --set, --delta, or --mute"@,
        }
    }

    pub fn message(&self) -> (r: String)
        ensures
            r@ == self.message_view(),
    {
        match self {
            CommandError::TrackIdTooLarge(id) => {
                let mut line = "track id ".to_owned();
                line.append(text::decimal_text(*id).as_str());
                line.append(" exceeds u32 range");
                line
            },
            CommandError::NoTracks(TrackCommand::Load) =>
                "load requires at least one track id".to_owned(),
            CommandError::NoTracks(TrackCommand::Add) =>
                "command requires at least one track id".to_owned(),
            CommandError::NoTracks(TrackCommand::Insert) =>
                "insert requires at least one track id".to_owned(),
            CommandError::NoVolumeChange => "volume requires --set, --delta, or --mute".to_owned(),
        }
    }
}

/// The first of `ids` that needs more than 32 bits.
pub open spec fn first_large(ids: Seq<u64>) -> Option<u64>
    decreases ids.len(),
{
    if ids.len() == 0 {
        None
    } else if ids.first() > u32::MAX {
        Some(ids.first())
    } else {
        first_large(ids.drop_first())
    }
}

/// `ids` in 32 bits.
pub open spec fn narrowed(ids: Seq<u64>) -> Seq<u32> {
    Seq::new(ids.len(), |i: int| ids[i] as u32)
}

/// `ids` in 32 bits, or the first that does not fit.
pub open spec fn checked_ids(ids: Seq<u64>) -> Result<Seq<u32>, CommandError> {
    match first_large(ids) {
        Some(id) => Err(CommandError::TrackIdTooLarge(id)),
        None => Ok(narrowed(ids)),
    }
}

pub fn to_u32_track_ids(track_ids: &Vec<u64>) -> (r: Result<Vec<u32>, CommandError>)
    ensures
        match r {
            Ok(ids) => checked_ids(track_ids@) == Ok::<Seq<u32>, CommandError>(ids@),
            Err(error) => checked_ids(track_ids@) == Err::<Seq<u32>, CommandError>(error),
        },
{
    let mut ids: Vec<u32> = Vec::new();
    let mut i: usize = 0;
    assert(track_ids@.skip(0) =~= track_ids@);
    while i < track_ids.len()
        invariant
            i <= track_ids.len(),
            ids@ == narrowed(track_ids@.take(i as int)),
            first_large(track_ids@) == first_large(track_ids@.skip(i as int)),
        decreases track_ids.len() - i,
    {
        let id: u64 = track_ids[i];
        let ghost rest = track_ids@.skip(i as int);
        assert(rest.first() == id);
        assert(rest.drop_first() =~= track_ids@.skip(i + 1));
        if id > u32::MAX as u64 {
            return Err(CommandError::TrackIdTooLarge(id));
        }
        ids.push(id as u32);
        assert(ids@ =~= narrowed(track_ids@.take(i + 1)));
        i = i + 1;
    }
    assert(ids@ =~= narrowed(track_ids@));
    Ok(ids)
}

/// A request to the server.
#[derive(Debug, PartialEq, Eq)]
pub struct QueueRequest {
    pub command_type: QueueCommandType,
    pub payload: Json,
}

pub struct RequestView {
    pub command_type: QueueCommandType,
    pub payload: JsonView,
}

impl View for QueueRequest {
    type V = RequestView;

    open spec fn view(&self) -> RequestView {
        RequestView { command_type: self.command_type, payload: self.payload@ }
    }
}

pub open spec fn requests_view(requests: Seq<QueueRequest>) -> Seq<RequestView> {
    Seq::new(requests.len(), |i: int| requests[i]@)
}

/// Track ids as JSON.
pub open spec fn ids_said(ids: Seq<u32>) -> JsonView {
    JsonView::Array(Seq::new(ids.len(), |i: int| json::unsigned_view(ids[i] as u64)))
}

fn ids_json(ids: &Vec<u32>) -> (r: Json)
    ensures
        r@ == ids_said(ids@),
{
    broadcast use json::lemma_nested_view;

    let mut items: Vec<Json> = Vec::new();
    let mut i: usize = 0;
    while i < ids.len()
        invariant
            i <= ids.len(),
            items.len() == i,
            forall|k: int|
                0 <= k < i ==> (#[trigger] items@[k])@ == json::unsigned_view(ids@[k] as u64),
        decreases ids.len() - i,
    {
        items.push(Json::unsigned(ids[i] as u64));
        i = i + 1;
    }
    assert(json::items_view(items@) =~= ids_said(ids@)->Array_0);
    Json::Array(items)
}

/// The index at which a new queue starts: the one asked for, or the last.
pub open spec fn start_in(start_index: usize, count: nat) -> int {
    if start_index < count {
        start_index as int
    } else {
        count - 1
    }
}

/// What a request for a new queue says.
pub open spec fn load_said(
    ids: Seq<u32>,
    start_index: usize,
    shuffle: bool,
    seed: u32,
    context_uuid: Seq<char>,
) -> JsonView {
    let start = start_in(start_index, ids.len());
    JsonView::Object(
        seq![
            ("track_ids"@, ids_said(ids)),
            (
                "queue_position"@,
                json::unsigned_view(
                    if shuffle {
                        0
                    } else {
                        start as u64
                    },
                ),
            ),
            ("shuffle_mode"@, JsonView::Bool(shuffle)),
            (
                "shuffle_seed"@,
                if shuffle {
                    json::unsigned_view(seed as u64)
                } else {
                    JsonView::Null
                },
            ),
            ("shuffle_pivot_index"@, json::unsigned_view(start as u64)),
            ("context_uuid"@, JsonView::Text(context_uuid)),
            ("autoplay_reset"@, JsonView::Bool(true)),
            ("autoplay_loading"@, JsonView::Bool(false)),
        ],
    )
}

fn load_json(
    ids: &Vec<u32>,
    start_index: usize,
    shuffle: bool,
    seed: u32,
    context_uuid: &str,
) -> (r: Json)
    requires
        ids.len() > 0,
    ensures
        r@ == load_said(ids@, start_index, shuffle, seed, context_uuid@),
{
    let last: usize = ids.len() - 1;
    let start: usize = if start_index < last {
        start_index
    } else {
        last
    };
    let mut said = ObjectBuilder::new();
    said.put("track_ids", ids_json(ids));
    said.put(
        "queue_position",
        Json::unsigned(
            if shuffle {
                0
            } else {
                start as u64
            },
        ),
    );
    said.put("shuffle_mode", Json::Bool(shuffle));
    said.put(
        "shuffle_seed",
        if shuffle {
            Json::unsigned(seed as u64)
        } else {
            Json::Null
        },
    );
    said.put("shuffle_pivot_index", Json::unsigned(start as u64));
    said.put("context_uuid", Json::text(context_uuid));
    said.put("autoplay_reset", Json::Bool(true));
    said.put("autoplay_loading", Json::Bool(false));
    assert(said@ =~= load_said(ids@, start_index, shuffle, seed, context_uuid@)->Object_0);
    said.build()
}

/// What a request to append tracks says.
pub open spec fn add_said(ids: Seq<u32>, context_uuid: Seq<char>) -> JsonView {
    JsonView::Object(
        seq![
            ("track_ids"@, ids_said(ids)),
            ("context_uuid"@, JsonView::Text(context_uuid)),
            ("autoplay_reset"@, JsonView::Bool(false)),
            ("autoplay_loading"@, JsonView::Bool(false)),
        ],
    )
}

fn add_json(ids: &Vec<u32>, context_uuid: &str) -> (r: Json)
    ensures
        r@ == add_said(ids@, context_uuid@),
{
    let mut said = ObjectBuilder::new();
    said.put("track_ids", ids_json(ids));
    said.put("context_uuid", Json::text(context_uuid));
    said.put("autoplay_reset", Json::Bool(false));
    said.put("autoplay_loading", Json::Bool(false));
    assert(said@ =~= add_said(ids@, context_uuid@)->Object_0);
    said.build()
}

/// What a request to insert tracks says.
pub open spec fn insert_said(ids: Seq<u32>, after: Option<u64>, context_uuid: Seq<char>)
    -> JsonView {
    JsonView::Object(
        seq![
            ("track_ids"@, ids_said(ids)),
            (
                "insert_after"@,
                match after {
                    Some(id) => json::unsigned_view(id),
                    None => JsonView::Null,
                },
            ),
            ("context_uuid"@, JsonView::Text(context_uuid)),
            ("autoplay_reset"@, JsonView::Bool(false)),
            ("autoplay_loading"@, JsonView::Bool(false)),
        ],
    )
}

fn insert_json(ids: &Vec<u32>, after: Option<u64>, context_uuid: &str) -> (r: Json)
    ensures
        r@ == insert_said(ids@, after, context_uuid@),
{
    let mut said = ObjectBuilder::new();
    said.put("track_ids", ids_json(ids));
    said.put(
        "insert_after",
        match after {
            Some(id) => Json::unsigned(id),
            None => Json::Null,
        },
    );
    said.put("context_uuid", Json::text(context_uuid));
    said.put("autoplay_reset", Json::Bool(false));
    said.put("autoplay_loading", Json::Bool(false));
    assert(said@ =~= insert_said(ids@, after, context_uuid@)->Object_0);
    said.build()
}

/// What a request for shuffling says.
pub open spec fn shuffle_said(mode: Toggle, seed: u32) -> JsonView {
    JsonView::Object(
        seq![
            ("shuffle_mode"@, JsonView::Bool(mode is On)),
            ("shuffle_seed"@, json::unsigned_view(seed as u64)),
            ("autoplay_reset"@, JsonView::Bool(false)),
            ("autoplay_loading"@, JsonView::Bool(false)),
        ],
    )
}

fn shuffle_json(mode: Toggle, seed: u32) -> (r: Json)
    ensures
        r@ == shuffle_said(mode, seed),
{
    let mut said = ObjectBuilder::new();
    said.put("shuffle_mode", Json::Bool(matches!(mode, Toggle::On)));
    said.put("shuffle_seed", Json::unsigned(seed as u64));
    said.put("autoplay_reset", Json::Bool(false));
    said.put("autoplay_loading", Json::Bool(false));
    assert(said@ =~= shuffle_said(mode, seed)->Object_0);
    said.build()
}

/// One member as JSON.
pub open spec fn single(key: Seq<char>, value: JsonView) -> JsonView {
    JsonView::Object(seq![(key, value)])
}

fn single_json(key: &str, value: Json) -> (r: Json)
    ensures
        r@ == single(key@, value@),
{
    let mut said = ObjectBuilder::new();
    said.put(key, value);
    assert(said@ =~= single(key@, value@)->Object_0);
    said.build()
}

/// What a request for a volume says: a percentage that it is set to, and by
/// how much it changes.
pub open spec fn volume_said(set: Option<i32>, delta: Option<i32>) -> JsonView {
    JsonView::Object(
        seq![
            (
                "volume"@,
                mpris::i32_or_null(
                    match set {
                        Some(value) => Some(playback::percent(value as int)),
                        None => None,
                    },
                ),
            ),
            ("volume_delta"@, mpris::i32_or_null(delta)),
        ],
    )
}

fn volume_json(set: Option<i32>, delta: Option<i32>) -> (r: Json)
    ensures
        r@ == volume_said(set, delta),
{
    let mut said = ObjectBuilder::new();
    let clamped: Option<i32> = match set {
        Some(value) => Some(playback::clamp_percent(value)),
        None => None,
    };
    said.put("volume", mpris::i32_json(clamped));
    said.put("volume_delta", mpris::i32_json(delta));
    assert(said@ =~= volume_said(set, delta)->Object_0);
    said.build()
}

/// The requests for a change of volume: the muting first.
pub open spec fn volume_requests(set: Option<i32>, delta: Option<i32>, mute: Option<bool>) -> Seq<
    RequestView,
> {
    let muting = match mute {
        Some(value) => seq![
            RequestView {
                command_type: QueueCommandType::CtrlSrvrMuteVolume,
                payload: single("value"@, JsonView::Bool(value)),
            },
        ],
        None => Seq::empty(),
    };
    if set is Some || delta is Some {
        muting.push(
            RequestView {
                command_type: QueueCommandType::CtrlSrvrSetVolume,
                payload: volume_said(set, delta),
            },
        )
    } else {
        muting
    }
}

/// One request.
pub open spec fn one(command_type: QueueCommandType, payload: JsonView) -> Result<
    Seq<RequestView>,
    CommandError,
> {
    Ok(seq![RequestView { command_type, payload }])
}

/// What a command asks of the server, with a seed for shuffling and a name for
/// the tracks that it brings.
pub open spec fn asks(
    command: Command,
    renderer: RendererStateView,
    queue: QueueStateView,
    seed: u32,
    context_uuid: Seq<char>,
) -> Result<Seq<RequestView>, CommandError> {
    match command {
        Command::Login { .. } | Command::AudioDevices | Command::Serve { .. } | Command::Status {
            ..
        } => Ok(Seq::empty()),
        Command::Queue { .. } => one(
            QueueCommandType::CtrlSrvrAskForQueueState,
            JsonView::Object(Seq::empty()),
        ),
        Command::Load { track_ids, start_index, shuffle, .. } => match checked_ids(track_ids@) {
            Err(error) => Err(error),
            Ok(ids) => if ids.len() == 0 {
                Err(CommandError::NoTracks(TrackCommand::Load))
            } else {
                one(
                    QueueCommandType::CtrlSrvrQueueLoadTracks,
                    load_said(ids, start_index, shuffle, seed, context_uuid),
                )
            },
        },
        Command::Add { track_ids, .. } => match checked_ids(track_ids@) {
            Err(error) => Err(error),
            Ok(ids) => if ids.len() == 0 {
                Err(CommandError::NoTracks(TrackCommand::Add))
            } else {
                one(QueueCommandType::CtrlSrvrQueueAddTracks, add_said(ids, context_uuid))
            },
        },
        Command::Insert { track_ids, after_queue_item_id, .. } => match checked_ids(track_ids@) {
            Err(error) => Err(error),
            Ok(ids) => if ids.len() == 0 {
                Err(CommandError::NoTracks(TrackCommand::Insert))
            } else {
                one(
                    QueueCommandType::CtrlSrvrQueueInsertTracks,
                    insert_said(ids, after_queue_item_id, context_uuid),
                )
            },
        },
        Command::Clear { .. } => one(
            QueueCommandType::CtrlSrvrClearQueue,
            JsonView::Object(Seq::empty()),
        ),
        Command::Play { .. } => one(
            QueueCommandType::CtrlSrvrSetPlayerState,
            mpris::plain_state_request(PLAYING_STATE_PLAYING, renderer, queue),
        ),
        Command::Pause { .. } => one(
            QueueCommandType::CtrlSrvrSetPlayerState,
            mpris::plain_state_request(PLAYING_STATE_PAUSED, renderer, queue),
        ),
        Command::Stop { .. } => one(
            QueueCommandType::CtrlSrvrSetPlayerState,
            mpris::plain_state_request(PLAYING_STATE_STOPPED, renderer, queue),
        ),
        Command::Volume { set, delta, mute, .. } => if set is None && delta is None
            && mute is None {
            Err(CommandError::NoVolumeChange)
        } else {
            Ok(volume_requests(set, delta, mute))
        },
        Command::Shuffle { mode, .. } => one(
            QueueCommandType::CtrlSrvrSetShuffleMode,
            shuffle_said(mode, seed),
        ),
        Command::Repeat { mode, .. } => one(
            QueueCommandType::CtrlSrvrSetLoopMode,
            single("loop_mode"@, json::signed_view(repeat_number(mode) as i64)),
        ),
    }
}

/// What a list of requests, or the failure to make one, says.
pub open spec fn answer_view(answer: Result<Vec<QueueRequest>, CommandError>) -> Result<
    Seq<RequestView>,
    CommandError,
> {
    match answer {
        Ok(requests) => Ok(requests_view(requests@)),
        Err(error) => Err(error),
    }
}

fn one_request(command_type: QueueCommandType, payload: Json) -> (r: Result<
    Vec<QueueRequest>,
    CommandError,
>)
    ensures
        answer_view(r) == one(command_type, payload@),
{
    let mut requests: Vec<QueueRequest> = Vec::new();
    let ghost said = payload@;
    requests.push(QueueRequest { command_type, payload });
    assert(requests_view(requests@) =~= seq![RequestView { command_type, payload: said }]);
    Ok(requests)
}

fn volume_request_list(set: Option<i32>, delta: Option<i32>, mute: Option<bool>) -> (r: Vec<
    QueueRequest,
>)
    ensures
        requests_view(r@) == volume_requests(set, delta, mute),
{
    let mut requests: Vec<QueueRequest> = Vec::new();
    if let Some(value) = mute {
        requests.push(
            QueueRequest {
                command_type: QueueCommandType::CtrlSrvrMuteVolume,
                payload: single_json("value", Json::Bool(value)),
            },
        );
    }
    if set.is_some() || delta.is_some() {
        requests.push(
            QueueRequest {
                command_type: QueueCommandType::CtrlSrvrSetVolume,
                payload: volume_json(set, delta),
            },
        );
    }
    assert(requests_view(requests@) =~= volume_requests(set, delta, mute));
    requests
}

/// What a command asks of the server, with a seed for shuffling and a name for
/// the tracks that it brings.
pub fn requests_with(
    command: &Command,
    renderer: &QConnectRendererState,
    queue: &QConnectQueueState,
    seed: u32,
    context_uuid: &str,
) -> (r: Result<Vec<QueueRequest>, CommandError>)
    ensures
        answer_view(r) == asks(*command, renderer@, queue@, seed, context_uuid@),
{
    match command {
        Command::Login { .. } | Command::AudioDevices | Command::Serve { .. } | Command::Status {
            ..
        } => {
            let none: Vec<QueueRequest> = Vec::new();
            assert(requests_view(none@) =~= Seq::<RequestView>::empty());
            Ok(none)
        },
        Command::Queue { .. } => one_request(
            QueueCommandType::CtrlSrvrAskForQueueState,
            ObjectBuilder::new().build(),
        ),
        Command::Load { track_ids, start_index, shuffle, .. } => {
            match to_u32_track_ids(track_ids) {
                Err(error) => Err(error),
                Ok(ids) => if ids.len() == 0 {
                    Err(CommandError::NoTracks(TrackCommand::Load))
                } else {
                    one_request(
                        QueueCommandType::CtrlSrvrQueueLoadTracks,
                        load_json(&ids, *start_index, *shuffle, seed, context_uuid),
                    )
                },
            }
        },
        Command::Add { track_ids, .. } => {
            match to_u32_track_ids(track_ids) {
                Err(error) => Err(error),
                Ok(ids) => if ids.len() == 0 {
                    Err(CommandError::NoTracks(TrackCommand::Add))
                } else {
                    one_request(
                        QueueCommandType::CtrlSrvrQueueAddTracks,
                        add_json(&ids, context_uuid),
                    )
                },
            }
        },
        Command::Insert { track_ids, after_queue_item_id, .. } => {
            match to_u32_track_ids(track_ids) {
                Err(error) => Err(error),
                Ok(ids) => if ids.len() == 0 {
                    Err(CommandError::NoTracks(TrackCommand::Insert))
                } else {
                    one_request(
                        QueueCommandType::CtrlSrvrQueueInsertTracks,
                        insert_json(&ids, *after_queue_item_id, context_uuid),
                    )
                },
            }
        },
        Command::Clear { .. } => one_request(
            QueueCommandType::CtrlSrvrClearQueue,
            ObjectBuilder::new().build(),
        ),
        Command::Play { .. } => one_request(
            QueueCommandType::CtrlSrvrSetPlayerState,
            mpris::player_state_request(PLAYING_STATE_PLAYING, renderer, queue),
        ),
        Command::Pause { .. } => one_request(
            QueueCommandType::CtrlSrvrSetPlayerState,
            mpris::player_state_request(PLAYING_STATE_PAUSED, renderer, queue),
        ),
        Command::Stop { .. } => one_request(
            QueueCommandType::CtrlSrvrSetPlayerState,
            mpris::player_state_request(PLAYING_STATE_STOPPED, renderer, queue),
        ),
        Command::Volume { set, delta, mute, .. } => if set.is_none() && delta.is_none()
            && mute.is_none() {
            Err(CommandError::NoVolumeChange)
        } else {
            Ok(volume_request_list(*set, *delta, *mute))
        },
        Command::Shuffle { mode, .. } => one_request(
            QueueCommandType::CtrlSrvrSetShuffleMode,
            shuffle_json(*mode, seed),
        ),
        Command::Repeat { mode, .. } => one_request(
            QueueCommandType::CtrlSrvrSetLoopMode,
            single_json("loop_mode", Json::signed(repeat_mode_value(*mode) as i64)),
        ),
    }
}

/// What a command asks of the server. The seed for shuffling and the name for
/// the tracks that it brings are random.
pub fn requests_for(
    command: &Command,
    renderer: &QConnectRendererState,
    queue: &QConnectQueueState,
) -> (r: Result<Vec<QueueRequest>, CommandError>)
    ensures
        exists|seed: u32, context_uuid: Seq<char>|
            ids::is_v4_text(context_uuid) && answer_view(r) == #[trigger] asks(
                *command,
                renderer@,
                queue@,
                seed,
                context_uuid,
            ),
{
    let seed: u32 = ids::random_u32();
    let context_uuid = ids::fresh_uuid();
    requests_with(command, renderer, queue, seed, context_uuid.as_str())
}

// ---------------------------------------------------------------------------
// Laws
// ---------------------------------------------------------------------------

/// A setting that counts has something in it, and no white space around it.
pub proof fn settings_are_trimmed(values: Seq<Option<String>>)
    ensures
        first_said(values) matches Some(said) ==> {
            &&& said.len() > 0
            &&& !text::is_white_space(said.first())
            &&& !text::is_white_space(said.last())
        },
    decreases values.len(),
{
    if values.len() > 0 {
        settings_are_trimmed(values.drop_first());
        if let Some(value) = values.first() {
            text::trimmed_has_no_white_ends(value@);
        }
    }
}

/// A setting that is blank or missing gives way to the next.
pub proof fn blank_settings_give_way(value: Option<String>, values: Seq<Option<String>>)
    requires
        value matches Some(text) ==> text::trimmed(text@).len() == 0,
    ensures
        first_said(seq![value] + values) == first_said(values),
{
    assert((seq![value] + values).drop_first() =~= values);
}

/// Track ids that are sent are the ids that were given, all of them, in their
/// order.
pub proof fn track_ids_are_sent_unchanged(ids: Seq<u64>)
    ensures
        checked_ids(ids) is Ok <==> forall|i: int| 0 <= i < ids.len() ==> ids[i] <= u32::MAX,
        checked_ids(ids) matches Ok(sent) ==> sent.len() == ids.len() && forall|i: int|
            0 <= i < ids.len() ==> sent[i] == ids[i],
    decreases ids.len(),
{
    if ids.len() > 0 {
        track_ids_are_sent_unchanged(ids.drop_first());
        if checked_ids(ids) is Ok {
            assert forall|i: int| 0 <= i < ids.len() implies ids[i] <= u32::MAX by {
                if i > 0 {
                    assert(ids[i] == ids.drop_first()[i - 1]);
                }
            }
        } else if ids.first() <= u32::MAX {
            let rest = ids.drop_first();
            let i = choose|i: int| 0 <= i < rest.len() && rest[i] > u32::MAX;
            assert(ids[i + 1] > u32::MAX);
        }
    }
}

/// A new queue starts at one of its own entries.
pub proof fn load_starts_within_the_queue(start_index: usize, count: nat)
    requires
        count > 0,
    ensures
        0 <= start_in(start_index, count) < count,
        start_index < count ==> start_in(start_index, count) == start_index,
{
}

/// A volume that is asked for is a percentage, whatever was given.
pub proof fn asked_volume_is_a_percentage(value: i32)
    ensures
        0 <= playback::percent(value as int) <= 100,
        0 <= value <= 100 ==> playback::percent(value as int) == value,
{
}

/// The tracks that a command brings are sent in one request, of the command's
/// own kind: all of them, in the order in which they were given.
pub proof fn sent_tracks_are_the_given_ones(
    command: Command,
    ids: Seq<u64>,
    renderer: RendererStateView,
    queue: QueueStateView,
    seed: u32,
    context_uuid: Seq<char>,
)
    requires
        (command matches Command::Load { track_ids, .. } && track_ids@ == ids) || (
        command matches Command::Add { track_ids, .. } && track_ids@ == ids) || (
        command matches Command::Insert { track_ids, .. } && track_ids@ == ids),
        ids.len() > 0,
        forall|i: int| 0 <= i < ids.len() ==> ids[i] <= u32::MAX,
    ensures
        asks(command, renderer, queue, seed, context_uuid) matches Ok(requests) && {
            &&& requests.len() == 1
            &&& command is Load ==> requests[0].command_type
                == QueueCommandType::CtrlSrvrQueueLoadTracks
            &&& command is Add ==> requests[0].command_type
                == QueueCommandType::CtrlSrvrQueueAddTracks
            &&& command is Insert ==> requests[0].command_type
                == QueueCommandType::CtrlSrvrQueueInsertTracks
            &&& json::member(requests[0].payload, "track_ids"@) matches Some(
                JsonView::Array(sent),
            ) && sent.len() == ids.len() && forall|i: int|
                0 <= i < ids.len() ==> #[trigger] sent[i] == JsonView::Number(
                    JsonNumber::PosInt(ids[i]),
                )
            &&& json::member(requests[0].payload, "context_uuid"@) == Some(
                JsonView::Text(context_uuid),
            )
            &&& json::member(requests[0].payload, "autoplay_reset"@) == Some(
                JsonView::Bool(command is Load),
            )
            &&& json::member(requests[0].payload, "autoplay_loading"@) == Some(
                JsonView::Bool(false),
            )
        },
{
    track_ids_are_sent_unchanged(ids);
    lemma_request_keys();
    let payload = asks(command, renderer, queue, seed, context_uuid)->Ok_0[0].payload;
    let members = payload->Object_0;
    let last = members.len() - 1;
    json::lemma_member_at(members, 0);
    json::lemma_member_at(members, last - 2);
    json::lemma_member_at(members, last - 1);
    json::lemma_member_at(members, last);
}

/// The names of the members of requests about tracks differ.
proof fn lemma_request_keys()
    ensures
        "track_ids"@.len() == 9,
        "queue_position"@.len() == 14,
        "shuffle_mode"@.len() == 12,
        "shuffle_seed"@.len() == 12,
        "shuffle_pivot_index"@.len() == 19,
        "context_uuid"@.len() == 12,
        "autoplay_reset"@.len() == 14,
        "autoplay_loading"@.len() == 16,
        "insert_after"@.len() == 12,
        "shuffle_mode"@ != "shuffle_seed"@,
        "shuffle_mode"@ != "context_uuid"@,
        "shuffle_seed"@ != "context_uuid"@,
        "insert_after"@ != "context_uuid"@,
        "queue_position"@ != "autoplay_reset"@,
{
    reveal_strlit("track_ids");
    reveal_strlit("queue_position");
    reveal_strlit("shuffle_mode");
    reveal_strlit("shuffle_seed");
    reveal_strlit("shuffle_pivot_index");
    reveal_strlit("context_uuid");
    reveal_strlit("autoplay_reset");
    reveal_strlit("autoplay_loading");
    reveal_strlit("insert_after");
    assert("shuffle_mode"@[8] != "shuffle_seed"@[8]);
    assert("shuffle_mode"@[0] != "context_uuid"@[0]);
    assert("shuffle_seed"@[0] != "context_uuid"@[0]);
    assert("insert_after"@[0] != "context_uuid"@[0]);
    assert("queue_position"@[0] != "autoplay_reset"@[0]);
}

/// A command whose tracks are not all sent sends none: it names the first id
/// that is too large, and one without tracks says which command wanted some.
pub proof fn unsendable_tracks_are_refused(
    command: Command,
    ids: Seq<u64>,
    renderer: RendererStateView,
    queue: QueueStateView,
    seed: u32,
    context_uuid: Seq<char>,
    at: int,
)
    requires
        (command matches Command::Load { track_ids, .. } && track_ids@ == ids) || (
        command matches Command::Add { track_ids, .. } && track_ids@ == ids) || (
        command matches Command::Insert { track_ids, .. } && track_ids@ == ids),
    ensures
        0 <= at < ids.len() && ids[at] > u32::MAX && (forall|j: int|
            0 <= j < at ==> ids[j] <= u32::MAX) ==> asks(
            command,
            renderer,
            queue,
            seed,
            context_uuid,
        ) == Err::<Seq<RequestView>, CommandError>(CommandError::TrackIdTooLarge(ids[at])),
        ids.len() == 0 ==> asks(command, renderer, queue, seed, context_uuid) == Err::<
            Seq<RequestView>,
            CommandError,
        >(
            CommandError::NoTracks(
                if command is Load {
                    TrackCommand::Load
                } else if command is Add {
                    TrackCommand::Add
                } else {
                    TrackCommand::Insert
                },
            ),
        ),
{
    if 0 <= at < ids.len() && ids[at] > u32::MAX && (forall|j: int|
        0 <= j < at ==> ids[j] <= u32::MAX) {
        lemma_first_large_at(ids, at);
    }
}

proof fn lemma_first_large_at(ids: Seq<u64>, at: int)
    requires
        0 <= at < ids.len(),
        ids[at] > u32::MAX,
        forall|j: int| 0 <= j < at ==> ids[j] <= u32::MAX,
    ensures
        first_large(ids) == Some(ids[at]),
    decreases ids.len(),
{
    if at > 0 {
        let rest = ids.drop_first();
        assert(ids[0] <= u32::MAX);
        assert forall|j: int| 0 <= j < at - 1 implies rest[j] <= u32::MAX by {
            assert(rest[j] == ids[j + 1]);
        }
        assert(rest[at - 1] == ids[at]);
        lemma_first_large_at(rest, at - 1);
    }
}

/// A new queue is entered at the index that was asked for, or at its last
/// entry where that lies beyond it: by its position when it is played in order,
/// and when it is shuffled by the entry that the shuffling begins with.
pub proof fn new_queue_is_entered_where_asked(
    command: Command,
    renderer: RendererStateView,
    queue: QueueStateView,
    seed: u32,
    context_uuid: Seq<char>,
)
    requires
        command matches Command::Load { track_ids, .. } && track_ids@.len() > 0 && (
        forall|i: int| 0 <= i < track_ids@.len() ==> track_ids@[i] <= u32::MAX),
    ensures
        asks(command, renderer, queue, seed, context_uuid) matches Ok(requests) && {
            let payload = requests[0].payload;
            let count = command->Load_track_ids@.len();
            let start = if command->Load_start_index < count {
                command->Load_start_index as int
            } else {
                count - 1
            };
            let entered = JsonView::Number(JsonNumber::PosInt(start as u64));
            &&& json::member(payload, "shuffle_mode"@) == Some(
                JsonView::Bool(command->Load_shuffle),
            )
            &&& json::member(payload, "shuffle_pivot_index"@) == Some(entered)
            &&& command->Load_shuffle ==> {
                &&& json::member(payload, "queue_position"@) == Some(
                    JsonView::Number(JsonNumber::PosInt(0)),
                )
                &&& json::member(payload, "shuffle_seed"@) == Some(
                    JsonView::Number(JsonNumber::PosInt(seed as u64)),
                )
            }
            &&& !command->Load_shuffle ==> {
                &&& json::member(payload, "queue_position"@) == Some(entered)
                &&& json::member(payload, "shuffle_seed"@) == Some(JsonView::Null)
            }
        },
{
    track_ids_are_sent_unchanged(command->Load_track_ids@);
    lemma_request_keys();
    let payload = asks(command, renderer, queue, seed, context_uuid)->Ok_0[0].payload;
    let members = payload->Object_0;
    json::lemma_member_at(members, 1);
    json::lemma_member_at(members, 2);
    json::lemma_member_at(members, 3);
    json::lemma_member_at(members, 4);
}

/// Tracks are inserted behind the entry that was named, and at the front where
/// none was.
pub proof fn tracks_are_inserted_where_asked(
    command: Command,
    renderer: RendererStateView,
    queue: QueueStateView,
    seed: u32,
    context_uuid: Seq<char>,
)
    requires
        command matches Command::Insert { track_ids, .. } && track_ids@.len() > 0 && (forall|i: int|
            0 <= i < track_ids@.len() ==> track_ids@[i] <= u32::MAX),
    ensures
        asks(command, renderer, queue, seed, context_uuid) matches Ok(requests) && json::member(
            requests[0].payload,
            "insert_after"@,
        ) == Some(
            match command->Insert_after_queue_item_id {
                Some(id) => JsonView::Number(JsonNumber::PosInt(id)),
                None => JsonView::Null,
            },
        ),
{
    track_ids_are_sent_unchanged(command->Insert_track_ids@);
    lemma_request_keys();
    let payload = asks(command, renderer, queue, seed, context_uuid)->Ok_0[0].payload;
    json::lemma_member_at(payload->Object_0, 1);
}

/// Playing, pausing and stopping ask once for the state that they are named
/// after, of the renderer's current entry: null where there is none, whatever
/// comes next.
pub proof fn playback_commands_are_about_the_current_entry(
    command: Command,
    renderer: RendererStateView,
    queue: QueueStateView,
    seed: u32,
    context_uuid: Seq<char>,
)
    requires
        command is Play || command is Pause || command is Stop,
    ensures
        asks(command, renderer, queue, seed, context_uuid) matches Ok(requests) && {
            &&& requests.len() == 1
            &&& requests[0].command_type == QueueCommandType::CtrlSrvrSetPlayerState
            &&& json::member_i32(requests[0].payload, "playing_state"@) == Some(
                if command is Play {
                    2i32
                } else if command is Pause {
                    3i32
                } else {
                    1i32
                },
            )
            &&& json::member(requests[0].payload, "current_queue_item"@) matches Some(entry)
                && match renderer.current_track {
                Some(track) => json::member(entry, "id"@) == Some(
                    JsonView::Number(JsonNumber::PosInt(track.queue_item_id)),
                ),
                None => entry is Null,
            }
            &&& json::member(requests[0].payload, "current_position"@) == Some(
                match renderer.current_position_ms {
                    Some(ms) if ms <= 0x7fff_ffff => JsonView::Number(JsonNumber::PosInt(ms)),
                    _ => JsonView::Null,
                },
            )
        },
{
    mpris::state_requests_are_about_the_current_entry(PLAYING_STATE_PLAYING, renderer, queue);
    mpris::state_requests_are_about_the_current_entry(PLAYING_STATE_PAUSED, renderer, queue);
    mpris::state_requests_are_about_the_current_entry(PLAYING_STATE_STOPPED, renderer, queue);
}

/// A change of volume mutes or unmutes first, where that was asked for, and
/// then sets the volume, to a percentage, or changes it by what was given; one
/// that asks for neither is refused.
pub proof fn volume_commands_ask_for_what_was_given(
    command: Command,
    renderer: RendererStateView,
    queue: QueueStateView,
    seed: u32,
    context_uuid: Seq<char>,
)
    requires
        command is Volume,
    ensures
        ({
            let set = command->Volume_set;
            let delta = command->Volume_delta;
            let mute = command->Volume_mute;
            match asks(command, renderer, queue, seed, context_uuid) {
                Err(error) => set is None && delta is None && mute is None
                    && error is NoVolumeChange,
                Ok(requests) => {
                    let muted: int = if mute is Some {
                        1
                    } else {
                        0
                    };
                    let changed: int = if set is Some || delta is Some {
                        1
                    } else {
                        0
                    };
                    &&& muted + changed > 0
                    &&& requests.len() == muted + changed
                    &&& mute matches Some(value) ==> {
                        &&& requests[0].command_type == QueueCommandType::CtrlSrvrMuteVolume
                        &&& json::member(requests[0].payload, "value"@) == Some(
                            JsonView::Bool(value),
                        )
                    }
                    &&& changed == 1 ==> {
                        let last = requests[requests.len() - 1];
                        &&& last.command_type == QueueCommandType::CtrlSrvrSetVolume
                        &&& set matches Some(value) ==> json::member_i32(last.payload, "volume"@)
                            == Some(
                            if value < 0 {
                                0i32
                            } else if value > 100 {
                                100i32
                            } else {
                                value
                            },
                        )
                        &&& set is None ==> json::member(last.payload, "volume"@) == Some(
                            JsonView::Null,
                        )
                        &&& delta matches Some(change) ==> json::member_i32(
                            last.payload,
                            "volume_delta"@,
                        ) == Some(change)
                        &&& delta is None ==> json::member(last.payload, "volume_delta"@) == Some(
                            JsonView::Null,
                        )
                    }
                },
            }
        }),
{
    let set = command->Volume_set;
    let delta = command->Volume_delta;
    reveal_strlit("volume");
    reveal_strlit("volume_delta");
    assert("volume"@.len() != "volume_delta"@.len());
    if let Ok(requests) = asks(command, renderer, queue, seed, context_uuid) {
        if command->Volume_mute is Some {
            json::lemma_member_at(requests[0].payload->Object_0, 0);
        }
        if set is Some || delta is Some {
            let said = requests[requests.len() - 1].payload->Object_0;
            json::lemma_member_at(said, 0);
            json::lemma_member_at(said, 1);
            if let Some(value) = set {
                json::i32_reads_back(playback::percent(value as int));
            }
            if let Some(change) = delta {
                json::i32_reads_back(change);
            }
        }
    }
}

/// Shuffling is asked to be on or off as was given, with the seed, and
/// repeating by the number of its mode.
pub proof fn mode_commands_ask_for_their_mode(
    command: Command,
    renderer: RendererStateView,
    queue: QueueStateView,
    seed: u32,
    context_uuid: Seq<char>,
)
    requires
        command is Shuffle || command is Repeat,
    ensures
        asks(command, renderer, queue, seed, context_uuid) matches Ok(requests) && {
            let payload = requests[0].payload;
            &&& requests.len() == 1
            &&& command is Shuffle ==> {
                &&& requests[0].command_type == QueueCommandType::CtrlSrvrSetShuffleMode
                &&& json::member_bool(payload, "shuffle_mode"@) == Some(
                    command->Shuffle_mode is On,
                )
                &&& json::member_u64(payload, "shuffle_seed"@) == Some(seed as u64)
                &&& json::member_bool(payload, "autoplay_reset"@) == Some(false)
                &&& json::member_bool(payload, "autoplay_loading"@) == Some(false)
            }
            &&& command is Repeat ==> {
                &&& requests[0].command_type == QueueCommandType::CtrlSrvrSetLoopMode
                &&& json::member_i32(payload, "loop_mode"@) == Some(
                    match command->Repeat_mode {
                        RepeatMode::Off => 1i32,
                        RepeatMode::One => 2i32,
                        RepeatMode::All => 3i32,
                    },
                )
            }
        },
{
    lemma_request_keys();
    let said = asks(command, renderer, queue, seed, context_uuid)->Ok_0[0].payload->Object_0;
    json::lemma_member_at(said, 0);
    if command is Shuffle {
        json::lemma_member_at(said, 1);
        json::lemma_member_at(said, 2);
        json::lemma_member_at(said, 3);
    }
    if command is Repeat {
        json::i32_reads_back(repeat_number(command->Repeat_mode));
    }
}

/// The queue is asked for, and cleared, with a request that says nothing more,
/// and the commands that only listen ask for nothing.
pub proof fn other_commands_ask_for_no_more_than_they_need(
    command: Command,
    renderer: RendererStateView,
    queue: QueueStateView,
    seed: u32,
    context_uuid: Seq<char>,
)
    ensures
        command is Queue || command is Clear ==> (asks(
            command,
            renderer,
            queue,
            seed,
            context_uuid,
        ) matches Ok(requests) && requests.len() == 1 && requests[0].payload == JsonView::Object(
            Seq::empty(),
        ) && requests[0].command_type == if command is Queue {
            QueueCommandType::CtrlSrvrAskForQueueState
        } else {
            QueueCommandType::CtrlSrvrClearQueue
        }),
        command is Login || command is AudioDevices || command is Serve || command is Status ==> (
        asks(command, renderer, queue, seed, context_uuid) matches Ok(requests) && requests.len()
            == 0),
{
}

/// What is random in a request does not decide what is asked: neither the
/// number of requests, nor their kinds, nor whether they are made.
pub proof fn chance_does_not_decide_what_is_asked(
    command: Command,
    renderer: RendererStateView,
    queue: QueueStateView,
    seed: u32,
    context_uuid: Seq<char>,
    other_seed: u32,
    other_uuid: Seq<char>,
)
    ensures
        match (
            asks(command, renderer, queue, seed, context_uuid),
            asks(command, renderer, queue, other_seed, other_uuid),
        ) {
            (Ok(requests), Ok(others)) => {
                &&& requests.len() == others.len()
                &&& forall|i: int|
                    0 <= i < requests.len() ==> (#[trigger] requests[i]).command_type
                        == others[i].command_type
            },
            (Err(error), Err(other)) => error == other,
            _ => false,
        },
{
}

/// A command that talks to the server and then ends waits as long as it was
/// told to; every other does not wait.
pub proof fn commands_wait_as_long_as_they_are_told(command: Command)
    ensures
        command matches Command::Status { wait_secs } ==> waits(command) == wait_secs,
        command matches Command::Queue { wait_secs } ==> waits(command) == wait_secs,
        command matches Command::Load { wait_secs, .. } ==> waits(command) == wait_secs,
        command matches Command::Add { wait_secs, .. } ==> waits(command) == wait_secs,
        command matches Command::Insert { wait_secs, .. } ==> waits(command) == wait_secs,
        command matches Command::Clear { wait_secs } ==> waits(command) == wait_secs,
        command matches Command::Play { wait_secs } ==> waits(command) == wait_secs,
        command matches Command::Pause { wait_secs } ==> waits(command) == wait_secs,
        command matches Command::Stop { wait_secs } ==> waits(command) == wait_secs,
        command matches Command::Volume { wait_secs, .. } ==> waits(command) == wait_secs,
        command matches Command::Shuffle { wait_secs, .. } ==> waits(command) == wait_secs,
        command matches Command::Repeat { wait_secs, .. } ==> waits(command) == wait_secs,
        command is Login || command is AudioDevices || command is Serve ==> waits(command) == 0,
{
}

/// The first setting that says anything decides: those before it are blank or
/// missing, and what it says is what is between its white space.
pub proof fn first_setting_that_says_anything_decides(values: Seq<Option<String>>, at: int)
    requires
        0 <= at < values.len(),
        values[at] matches Some(value) && text::trimmed(value@).len() > 0,
        forall|i: int|
            0 <= i < at ==> match #[trigger] values[i] {
                Some(value) => text::trimmed(value@).len() == 0,
                None => true,
            },
    ensures
        first_said(values) == Some(text::trimmed(values[at]->0@)),
    decreases values.len(),
{
    if at > 0 {
        let rest = values.drop_first();
        assert(values[0] == values.first());
        assert(rest[at - 1] == values[at]);
        assert forall|i: int| 0 <= i < at - 1 implies match #[trigger] rest[i] {
            Some(value) => text::trimmed(value@).len() == 0,
            None => true,
        } by {
            assert(rest[i] == values[i + 1]);
        }
        first_setting_that_says_anything_decides(rest, at - 1);
    }
}

/// Settings that are all blank or missing say nothing.
pub proof fn blank_settings_say_nothing(values: Seq<Option<String>>)
    requires
        forall|i: int|
            0 <= i < values.len() ==> match #[trigger] values[i] {
                Some(value) => text::trimmed(value@).len() == 0,
                None => true,
            },
    ensures
        first_said(values) is None,
    decreases values.len(),
{
    if values.len() > 0 {
        let rest = values.drop_first();
        assert(values[0] == values.first());
        assert forall|i: int| 0 <= i < rest.len() implies match #[trigger] rest[i] {
            Some(value) => text::trimmed(value@).len() == 0,
            None => true,
        } by {
            assert(rest[i] == values[i + 1]);
        }
        blank_settings_say_nothing(rest);
    }
}

/// A quality that is chosen is the quality that is played, and its name tells
/// it from every other.
pub proof fn chosen_qualities_are_told_apart(chosen: PlaybackQuality, other: PlaybackQuality)
    ensures
        chosen.quality() == other.quality() ==> chosen == other,
        chosen.name_view() == other.name_view() ==> chosen == other,
        chosen is Mp3 <==> chosen.quality() is Mp3,
        chosen is Lossless <==> chosen.quality() is Lossless,
        chosen is HiRes <==> chosen.quality() is HiRes,
        chosen is UltraHiRes <==> chosen.quality() is UltraHiRes,
{
    reveal_strlit("mp3");
    reveal_strlit("lossless");
    reveal_strlit("hi-res");
    reveal_strlit("ultra-hi-res");
    assert("mp3"@.len() == 3);
    assert("lossless"@.len() == 8);
    assert("hi-res"@.len() == 6);
    assert("ultra-hi-res"@.len() == 12);
}

/// A refusal of an id shows that id, and every other refusal has a message of
/// its own.
pub proof fn refusals_are_told_apart(id: u64, command: TrackCommand, other: TrackCommand)
    ensures
        CommandError::TrackIdTooLarge(id).message_view() == "track id "@ + text::decimal(id as nat)
            + " exceeds u32 range"@,
        CommandError::NoTracks(command).message_view() == CommandError::NoTracks(
            other,
        ).message_view() ==> command == other,
        CommandError::NoTracks(command).message_view()
            != CommandError::NoVolumeChange.message_view(),
        CommandError::NoVolumeChange.message_view() == "volume requires --set, --delta, or --mute"@,
        command is Load ==> CommandError::NoTracks(command).message_view()
            == "load requires at least one track id"@,
        command is Insert ==> CommandError::NoTracks(command).message_view()
            == "insert requires at least one track id"@,
{
    reveal_strlit("load requires at least one track id");
    reveal_strlit("command requires at least one track id");
    reveal_strlit("insert requires at least one track id");
    reveal_strlit("volume requires --set, --delta, or --mute");
    assert("load requires at least one track id"@.len() == 35);
    assert("command requires at least one track id"@.len() == 38);
    assert("insert requires at least one track id"@.len() == 37);
    assert("volume requires --set, --delta, or --mute"@.len() == 41);
}

} // verus!
