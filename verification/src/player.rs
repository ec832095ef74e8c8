//! The audio player: a state machine that says, for every command and for the
//! outcome of every piece of outside work, what to do next.
//!
//! Opening the output, decoding, playing sounds and waiting are done outside.
//! The player hands out an action and is told how it went.

use vstd::prelude::*;
use vstd::string::*;

use crate::clock;
use crate::clock::Clock;
use crate::commands;
use crate::media;
use crate::media::AudioMetadata;
use crate::shared_state;
use crate::shared_state::SharedState;
use crate::text;

verus! {

/// How long the output is given to come back after an I/O error.
pub const COOL_DOWN_MS: u64 = 500;

/// The bit depth of a file that does not say its own.
pub const DEFAULT_BIT_DEPTH: u32 = 16;

// ---------------------------------------------------------------------------
// Tracks, commands, events and actions
// ---------------------------------------------------------------------------

/// A track with its file.
#[derive(Debug, PartialEq, Eq)]
pub struct QueuedTrack {
    pub data: Vec<u8>,
    pub track_id: u64,
    pub queue_item_id: u64,
    pub duration_secs: u64,
}

/// What a track says.
pub struct TrackView {
    pub data: Seq<u8>,
    pub track_id: u64,
    pub queue_item_id: u64,
    pub duration_secs: u64,
}

impl View for QueuedTrack {
    type V = TrackView;

    open spec fn view(&self) -> TrackView {
        TrackView {
            data: self.data@,
            track_id: self.track_id,
            queue_item_id: self.queue_item_id,
            duration_secs: self.duration_secs,
        }
    }
}

/// What the player is asked to do.
#[derive(Debug, PartialEq, Eq)]
pub enum AudioCommand {
    Play(QueuedTrack),
    PlayNext(QueuedTrack),
    TrackEnded { queue_item_id: u64, generation: u64 },
    Pause,
    Resume,
    Stop,
    /// In percent.
    SetVolume(u32),
    /// In seconds.
    Seek(u64),
    RecoverFromEio,
}

pub enum CommandView {
    Play(TrackView),
    PlayNext(TrackView),
    TrackEnded { queue_item_id: u64, generation: u64 },
    Pause,
    Resume,
    Stop,
    SetVolume(u32),
    Seek(u64),
    RecoverFromEio,
}

impl View for AudioCommand {
    type V = CommandView;

    open spec fn view(&self) -> CommandView {
        match *self {
            AudioCommand::Play(track) => CommandView::Play(track@),
            AudioCommand::PlayNext(track) => CommandView::PlayNext(track@),
            AudioCommand::TrackEnded { queue_item_id, generation } => CommandView::TrackEnded {
                queue_item_id,
                generation,
            },
            AudioCommand::Pause => CommandView::Pause,
            AudioCommand::Resume => CommandView::Resume,
            AudioCommand::Stop => CommandView::Stop,
            AudioCommand::SetVolume(percent) => CommandView::SetVolume(percent),
            AudioCommand::Seek(secs) => CommandView::Seek(secs),
            AudioCommand::RecoverFromEio => CommandView::RecoverFromEio,
        }
    }
}

/// What the player is told: a command, or how an action went.
#[derive(Debug, PartialEq, Eq)]
pub enum PlayerEvent {
    Command(AudioCommand),
    OutputOpened { ok: bool },
    /// With the message of the failure, if it failed.
    PlayerStarted(Result<(), String>),
    NextAppended { ok: bool },
    CooledDown,
}

pub enum EventView {
    Command(CommandView),
    OutputOpened { ok: bool },
    PlayerStarted(Result<(), Seq<char>>),
    NextAppended { ok: bool },
    CooledDown,
}

pub open spec fn outcome_view(outcome: Result<(), String>) -> Result<(), Seq<char>> {
    match outcome {
        Ok(_) => Ok(()),
        Err(message) => Err(message@),
    }
}

impl View for PlayerEvent {
    type V = EventView;

    open spec fn view(&self) -> EventView {
        match *self {
            PlayerEvent::Command(command) => EventView::Command(command@),
            PlayerEvent::OutputOpened { ok } => EventView::OutputOpened { ok },
            PlayerEvent::PlayerStarted(outcome) => EventView::PlayerStarted(outcome_view(outcome)),
            PlayerEvent::NextAppended { ok } => EventView::NextAppended { ok },
            PlayerEvent::CooledDown => EventView::CooledDown,
        }
    }
}

/// What is to be done next.
#[derive(Debug, PartialEq, Eq)]
pub enum PlayerAction {
    /// Nothing, until the next command.
    Wait,
    /// Open the audio output: this device, or the default one.
    OpenOutput { device: Option<String> },
    /// Play this file, at this volume in percent, without its first
    /// `skip_secs` seconds, and announce its end under this item and
    /// generation.
    StartPlayer {
        data: Vec<u8>,
        skip_secs: Option<u64>,
        queue_item_id: u64,
        generation: u64,
        volume: u32,
    },
    /// Let this file follow the one that plays.
    AppendNext { data: Vec<u8>, queue_item_id: u64, generation: u64 },
    PausePlayer,
    ResumePlayer,
    SetPlayerVolume(u32),
    /// Let this many milliseconds pass.
    CoolDown(u64),
}

pub enum ActionView {
    Wait,
    OpenOutput { device: Option<Seq<char>> },
    StartPlayer {
        data: Seq<u8>,
        skip_secs: Option<u64>,
        queue_item_id: u64,
        generation: u64,
        volume: u32,
    },
    AppendNext { data: Seq<u8>, queue_item_id: u64, generation: u64 },
    PausePlayer,
    ResumePlayer,
    SetPlayerVolume(u32),
    CoolDown(u64),
}

impl View for PlayerAction {
    type V = ActionView;

    open spec fn view(&self) -> ActionView {
        match *self {
            PlayerAction::Wait => ActionView::Wait,
            PlayerAction::OpenOutput { device } => ActionView::OpenOutput {
                device: commands::setting_view(device),
            },
            PlayerAction::StartPlayer { data, skip_secs, queue_item_id, generation, volume } =>
                ActionView::StartPlayer {
                data: data@,
                skip_secs,
                queue_item_id,
                generation,
                volume,
            },
            PlayerAction::AppendNext { data, queue_item_id, generation } =>
                ActionView::AppendNext { data: data@, queue_item_id, generation },
            PlayerAction::PausePlayer => ActionView::PausePlayer,
            PlayerAction::ResumePlayer => ActionView::ResumePlayer,
            PlayerAction::SetPlayerVolume(percent) => ActionView::SetPlayerVolume(percent),
            PlayerAction::CoolDown(ms) => ActionView::CoolDown(ms),
        }
    }
}

/// Which outcome the player waits for, and for what.
#[derive(Debug, Clone, Copy, PartialEq, Eq, Structural)]
pub enum Phase {
    /// None: the next command is due.
    Idle,
    /// The first opening of the output.
    Opening,
    PlayOpening,
    PlayStarting,
    PlaySeeking,
    PlayCooling,
    PlayReopening,
    PlayRestarting,
    Appending,
    ResumeStarting { position: u64 },
    ResumeSeeking,
    SeekStarting,
    RecoverCooling { position: u64 },
    RecoverReopening { position: u64 },
    RecoverStarting { position: u64 },
    RecoverSeeking,
}

// ---------------------------------------------------------------------------
// What the player does
// ---------------------------------------------------------------------------

/// What the player knows.
pub struct PlayerView {
    /// The audio device that was chosen.
    pub device: Option<Seq<char>>,
    pub shared: SharedState,
    /// Whether the output is open.
    pub has_output: bool,
    /// Whether something plays or is paused on it.
    pub has_player: bool,
    pub track_id: u64,
    pub queue_item_id: u64,
    /// The file of the current track.
    pub data: Option<Seq<u8>>,
    /// The track that was appended to follow.
    pub next: Option<TrackView>,
    /// The track that is being appended.
    pub candidate: Option<TrackView>,
    pub recovering: bool,
    pub phase: Phase,
}

/// Whether a playback error is one that opening the output again may cure.
pub open spec fn is_recoverable(message: Seq<char>) -> bool {
    ||| text::contains_text(message, "EIO"@)
    ||| text::contains_text(message, "I/O error"@)
    ||| text::contains_text(message, "snd_pcm_poll_descriptors"@)
    ||| text::contains_text(message, "backend-specific error"@)
    ||| text::contains_text(message, "Unknown errno"@)
    ||| text::contains_text(message, "(-5)"@)
}

impl PlayerView {
    /// The player before its output was opened.
    pub open spec fn initial(device: Option<Seq<char>>) -> PlayerView {
        PlayerView {
            device,
            shared: SharedState::initial(),
            has_output: false,
            has_player: false,
            track_id: 0,
            queue_item_id: 0,
            data: None,
            next: None,
            candidate: None,
            recovering: false,
            phase: Phase::Opening,
        }
    }

    /// What holds of every player: what plays has an output and a file, what
    /// follows follows something, and a player without a file names no track.
    pub open spec fn wf(self) -> bool {
        &&& self.has_player ==> self.has_output && self.data is Some
        &&& self.next is Some ==> self.has_player
        &&& self.data is None ==> self.track_id == 0 && self.queue_item_id == 0
        &&& (self.phase is Appending <==> self.candidate is Some)
        &&& self.phase is Appending ==> self.has_player
        &&& self.phase is Opening ==> !self.has_player
        &&& self.next is Some ==> self.phase is Idle || self.phase is Appending
        &&& (self.phase is PlayOpening || self.phase is PlayCooling || self.phase is PlayReopening)
            ==> self.data is Some
        &&& (self.phase is PlayStarting || self.phase is PlaySeeking || self.phase is PlayRestarting
            || self.phase is ResumeStarting || self.phase is ResumeSeeking
            || self.phase is SeekStarting || self.phase is RecoverStarting
            || self.phase is RecoverSeeking) ==> self.data is Some && self.has_output
    }

    /// With nothing to wait for.
    pub open spec fn idle(self) -> PlayerView {
        PlayerView { phase: Phase::Idle, candidate: None, ..self }
    }

    pub open spec fn file(self) -> Seq<u8> {
        match self.data {
            Some(data) => data,
            None => Seq::empty(),
        }
    }

    /// Opens the output on the chosen device.
    pub open spec fn opening(self, phase: Phase) -> (PlayerView, ActionView) {
        (PlayerView { phase, ..self }, ActionView::OpenOutput { device: self.device })
    }

    /// Starts the current file, under the current item and generation.
    pub open spec fn starting(self, skip_secs: Option<u64>, phase: Phase) -> (
        PlayerView,
        ActionView,
    ) {
        (
            PlayerView { phase, ..self },
            ActionView::StartPlayer {
                data: self.file(),
                skip_secs,
                queue_item_id: self.queue_item_id,
                generation: self.shared.generation,
                volume: self.shared.volume,
            },
        )
    }

    /// With the error flag of the stream set or cleared.
    pub open spec fn with_error(self, error: bool) -> PlayerView {
        PlayerView { shared: SharedState { stream_error: error, ..self.shared }, ..self }
    }

    /// With a player that plays from `position` since `now`, ready for a track
    /// to follow.
    pub open spec fn running(self, position: u64, now: u64) -> PlayerView {
        PlayerView {
            has_player: true,
            shared: SharedState {
                gapless_ready: true,
                ..self.shared.playing_from(position, now)
            },
            ..self
        }
    }

    /// With a player that plays a file that was loaded for it, without error.
    pub open spec fn loaded(self, position: u64, now: u64) -> PlayerView {
        let played = self.running(position, now).with_error(false);
        PlayerView { shared: SharedState { has_loaded_audio: true, ..played.shared }, ..played }
    }

    /// Plays the file anew from the seek that was kept.
    pub open spec fn seeking(self, secs: u64, now: u64, phase: Phase) -> (PlayerView, ActionView) {
        PlayerView {
            shared: self.shared.restarted().playing_from(secs, now),
            ..self
        }.starting(Some(secs), phase)
    }

    /// Without the seek that was kept.
    pub open spec fn seek_taken(self) -> PlayerView {
        PlayerView { shared: SharedState { has_pending_seek: false, ..self.shared }, ..self }
    }

    /// At the end of a recovery.
    pub open spec fn recovered(self) -> PlayerView {
        PlayerView { recovering: false, ..self.idle() }
    }

    // -- commands -----------------------------------------------------------

    pub open spec fn on_play(self, track: TrackView, metadata: Option<AudioMetadata>) -> (
        PlayerView,
        ActionView,
    ) {
        let shared = match metadata {
            Some(m) => SharedState {
                sample_rate: m.sample_rate,
                bit_depth: bit_depth_of(m),
                ..self.shared
            },
            None => self.shared,
        };
        let s = PlayerView {
            shared: shared.restarted().with_track(
                track.track_id,
                track.queue_item_id,
                track.duration_secs,
            ).without_next(),
            has_player: false,
            track_id: track.track_id,
            queue_item_id: track.queue_item_id,
            data: Some(track.data),
            next: None,
            ..self.idle()
        };
        if s.has_output {
            s.starting(None, Phase::PlayStarting)
        } else {
            s.opening(Phase::PlayOpening)
        }
    }

    pub open spec fn on_play_next(self, track: TrackView) -> (PlayerView, ActionView) {
        let s = self.idle();
        if s.has_player {
            (
                PlayerView { candidate: Some(track), phase: Phase::Appending, ..s },
                ActionView::AppendNext {
                    data: track.data,
                    queue_item_id: track.queue_item_id,
                    generation: s.shared.generation,
                },
            )
        } else {
            (s, ActionView::Wait)
        }
    }

    pub open spec fn on_track_ended(self, queue_item_id: u64, generation: u64) -> (
        PlayerView,
        ActionView,
    ) {
        let s = self.idle();
        if s.shared.generation != generation || s.queue_item_id != queue_item_id {
            (s, ActionView::Wait)
        } else {
            match s.next {
                Some(next) => (
                    PlayerView {
                        track_id: next.track_id,
                        queue_item_id: next.queue_item_id,
                        data: Some(next.data),
                        next: None,
                        ..s
                    },
                    ActionView::Wait,
                ),
                None => (
                    PlayerView { has_player: false, track_id: 0, queue_item_id: 0, data: None, ..s },
                    ActionView::Wait,
                ),
            }
        }
    }

    pub open spec fn on_pause(self, now: u64) -> (PlayerView, ActionView) {
        let s = self.idle();
        if s.has_player {
            (
                PlayerView {
                    shared: SharedState { gapless_ready: false, ..s.shared.paused_at(now) },
                    ..s
                },
                ActionView::PausePlayer,
            )
        } else {
            (s, ActionView::Wait)
        }
    }

    pub open spec fn on_resume(self, now: u64) -> (PlayerView, ActionView) {
        let s = self.idle();
        if s.shared.is_playing {
            (s, ActionView::Wait)
        } else if s.has_player {
            (s.running(s.shared.position, now), ActionView::ResumePlayer)
        } else if s.data is Some && s.has_output {
            let position = s.shared.position_at(now);
            PlayerView {
                shared: s.shared.restarted().without_next(),
                next: None,
                ..s
            }.starting(Some(position), Phase::ResumeStarting { position })
        } else {
            (s, ActionView::Wait)
        }
    }

    pub open spec fn on_stop(self) -> (PlayerView, ActionView) {
        (
            PlayerView {
                shared: self.shared.restarted().stopped(true),
                has_player: false,
                track_id: 0,
                queue_item_id: 0,
                data: None,
                next: None,
                ..self.idle()
            },
            ActionView::Wait,
        )
    }

    pub open spec fn on_set_volume(self, percent: u32) -> (PlayerView, ActionView) {
        let s = self.idle();
        (
            PlayerView { shared: SharedState { volume: percent, ..s.shared }, ..s },
            if s.has_player {
                ActionView::SetPlayerVolume(percent)
            } else {
                ActionView::Wait
            },
        )
    }

    pub open spec fn on_seek(self, secs: u64, now: u64) -> (PlayerView, ActionView) {
        let s = self.idle();
        if s.data is Some {
            let stopped = PlayerView {
                shared: s.shared.restarted().without_next().playing_from(secs, now),
                has_player: false,
                next: None,
                ..s
            };
            if s.has_output {
                stopped.starting(Some(secs), Phase::SeekStarting)
            } else {
                (stopped, ActionView::Wait)
            }
        } else {
            (
                PlayerView {
                    shared: SharedState { pending_seek: secs, has_pending_seek: true, ..s.shared },
                    ..s
                },
                ActionView::Wait,
            )
        }
    }

    pub open spec fn on_recover(self, now: u64) -> (PlayerView, ActionView) {
        let position = self.shared.position_at(now);
        (
            PlayerView {
                shared: SharedState {
                    is_playing: false,
                    position,
                    ..self.shared.restarted().without_next()
                },
                has_output: false,
                has_player: false,
                next: None,
                phase: Phase::RecoverCooling { position },
                ..self.idle()
            },
            ActionView::CoolDown(COOL_DOWN_MS),
        )
    }

    pub open spec fn on_command(self, command: CommandView, now: u64) -> (PlayerView, ActionView) {
        match command {
            CommandView::Play(track) => self.on_play(
                track,
                match media::metadata_of(track.data) {
                    Ok(metadata) => Some(metadata),
                    Err(_) => None,
                },
            ),
            CommandView::PlayNext(track) => self.on_play_next(track),
            CommandView::TrackEnded { queue_item_id, generation } => self.on_track_ended(
                queue_item_id,
                generation,
            ),
            CommandView::Pause => self.on_pause(now),
            CommandView::Resume => self.on_resume(now),
            CommandView::Stop => self.on_stop(),
            CommandView::SetVolume(percent) => self.on_set_volume(percent),
            CommandView::Seek(secs) => self.on_seek(secs, now),
            CommandView::RecoverFromEio => self.on_recover(now),
        }
    }

    // -- outcomes -----------------------------------------------------------

    pub open spec fn on_output_opened(self, ok: bool) -> (PlayerView, ActionView) {
        let opened = PlayerView { has_output: true, ..self };
        match self.phase {
            Phase::Opening => (PlayerView { has_output: ok, ..self.idle() }, ActionView::Wait),
            Phase::PlayOpening => if ok {
                opened.starting(None, Phase::PlayStarting)
            } else {
                (self.idle(), ActionView::Wait)
            },
            Phase::PlayReopening => if ok {
                opened.starting(None, Phase::PlayRestarting)
            } else {
                (self.idle().with_error(true), ActionView::Wait)
            },
            Phase::RecoverReopening { position } => if !ok {
                (self.recovered().with_error(true), ActionView::Wait)
            } else if self.data is Some {
                opened.starting(Some(position), Phase::RecoverStarting { position })
            } else {
                (opened.recovered(), ActionView::Wait)
            },
            _ => (self, ActionView::Wait),
        }
    }

    pub open spec fn on_play_failed(self, message: Seq<char>) -> (PlayerView, ActionView) {
        let failed = self.idle().with_error(true);
        if is_recoverable(message) {
            (
                PlayerView {
                    has_player: false,
                    has_output: false,
                    phase: Phase::PlayCooling,
                    ..failed
                },
                ActionView::CoolDown(COOL_DOWN_MS),
            )
        } else {
            (failed, ActionView::Wait)
        }
    }

    /// A track that was to be played plays.
    pub open spec fn on_play_started(self, now: u64) -> (PlayerView, ActionView) {
        let played = self.loaded(0, now);
        let s = PlayerView { shared: played.shared.without_next(), ..played };
        match s.shared.waiting_seek() {
            Some(secs) => if s.has_output {
                PlayerView { has_player: false, ..s.seek_taken() }.seeking(
                    secs,
                    now,
                    Phase::PlaySeeking,
                )
            } else {
                (s.seek_taken().idle(), ActionView::Wait)
            },
            None => (s.idle(), ActionView::Wait),
        }
    }

    /// A track whose player was gone plays on from `position`.
    pub open spec fn on_resume_started(self, position: u64, now: u64) -> (PlayerView, ActionView) {
        let s = self.running(position, now);
        match s.shared.waiting_seek() {
            Some(secs) => s.seek_taken().seeking(secs, now, Phase::ResumeSeeking),
            None => (s.idle(), ActionView::Wait),
        }
    }

    /// After an I/O error the track plays on from `position`.
    pub open spec fn on_recover_started(self, position: u64, now: u64) -> (PlayerView, ActionView) {
        let s = self.loaded(position, now);
        match s.shared.waiting_seek() {
            Some(secs) => if s.has_output {
                s.seek_taken().seeking(secs, now, Phase::RecoverSeeking)
            } else {
                (s.seek_taken().recovered(), ActionView::Wait)
            },
            None => (s.recovered(), ActionView::Wait),
        }
    }

    pub open spec fn on_player_started(self, outcome: Result<(), Seq<char>>, now: u64) -> (
        PlayerView,
        ActionView,
    ) {
        let started = PlayerView { has_player: true, ..self };
        match outcome {
            Ok(_) => match self.phase {
                Phase::PlayStarting => self.on_play_started(now),
                Phase::PlayRestarting => (self.loaded(0, now).idle(), ActionView::Wait),
                Phase::ResumeStarting { position } => self.on_resume_started(position, now),
                Phase::RecoverStarting { position } => self.on_recover_started(position, now),
                Phase::PlaySeeking | Phase::ResumeSeeking => (started.idle(), ActionView::Wait),
                Phase::SeekStarting => (started.seek_taken().idle(), ActionView::Wait),
                Phase::RecoverSeeking => (started.recovered(), ActionView::Wait),
                _ => (self, ActionView::Wait),
            },
            Err(message) => match self.phase {
                Phase::PlayStarting => self.on_play_failed(message),
                Phase::PlayRestarting => (self.idle().with_error(true), ActionView::Wait),
                Phase::PlaySeeking
                | Phase::ResumeStarting { position: _ }
                | Phase::ResumeSeeking
                | Phase::SeekStarting => (self.idle(), ActionView::Wait),
                Phase::RecoverStarting { position: _ } => (
                    self.recovered().with_error(true),
                    ActionView::Wait,
                ),
                Phase::RecoverSeeking => (self.recovered(), ActionView::Wait),
                _ => (self, ActionView::Wait),
            },
        }
    }

    pub open spec fn on_next_appended(self, ok: bool) -> (PlayerView, ActionView) {
        match (self.phase, self.candidate) {
            (Phase::Appending, Some(track)) => if ok {
                (
                    PlayerView {
                        next: Some(track),
                        shared: self.shared.with_next(
                            track.track_id,
                            track.queue_item_id,
                            track.duration_secs,
                        ),
                        ..self.idle()
                    },
                    ActionView::Wait,
                )
            } else {
                (self.idle(), ActionView::Wait)
            },
            _ => (self, ActionView::Wait),
        }
    }

    pub open spec fn on_cooled_down(self) -> (PlayerView, ActionView) {
        match self.phase {
            Phase::PlayCooling => self.opening(Phase::PlayReopening),
            Phase::RecoverCooling { position } => self.opening(
                Phase::RecoverReopening { position },
            ),
            _ => (self, ActionView::Wait),
        }
    }

    /// What the player knows after an event at `now`, and what it wants done.
    pub open spec fn step(self, event: EventView, now: u64) -> (PlayerView, ActionView) {
        match event {
            EventView::Command(command) => self.on_command(command, now),
            EventView::OutputOpened { ok } => self.on_output_opened(ok),
            EventView::PlayerStarted(outcome) => self.on_player_started(outcome, now),
            EventView::NextAppended { ok } => self.on_next_appended(ok),
            EventView::CooledDown => self.on_cooled_down(),
        }
    }
}

/// The bit depth that a file says, or the usual one.
pub open spec fn bit_depth_of(metadata: AudioMetadata) -> u32 {
    match metadata.bit_depth {
        Some(bits) => bits,
        None => DEFAULT_BIT_DEPTH,
    }
}

pub fn bit_depth_or_default(metadata: &AudioMetadata) -> (r: u32)
    ensures
        r == bit_depth_of(*metadata),
{
    match metadata.bit_depth {
        Some(bits) => bits,
        None => DEFAULT_BIT_DEPTH,
    }
}

/// Whether a playback error is one that opening the output again may cure.
pub fn recoverable_error(message: &str) -> (r: bool)
    ensures
        r == is_recoverable(message@),
{
    text::str_contains(message, "EIO") || text::str_contains(message, "I/O error")
        || text::str_contains(message, "snd_pcm_poll_descriptors") || text::str_contains(
        message,
        "backend-specific error",
    ) || text::str_contains(message, "Unknown errno") || text::str_contains(message, "(-5)")
}

fn copy_of(data: &Vec<u8>) -> (r: Vec<u8>)
    ensures
        r@ == data@,
{
    let copy = data.clone();
    assert(copy@ =~= data@);
    copy
}

/// The audio player.
pub struct AudioPlayer {
    clock: Clock,
    device: Option<String>,
    state: SharedState,
    has_output: bool,
    has_player: bool,
    track_id: u64,
    queue_item_id: u64,
    data: Option<Vec<u8>>,
    next: Option<QueuedTrack>,
    candidate: Option<QueuedTrack>,
    recovering: bool,
    phase: Phase,
}

spec fn data_view(data: Option<Vec<u8>>) -> Option<Seq<u8>> {
    match data {
        Some(bytes) => Some(bytes@),
        None => None,
    }
}

spec fn track_view(track: Option<QueuedTrack>) -> Option<TrackView> {
    match track {
        Some(t) => Some(t@),
        None => None,
    }
}

impl View for AudioPlayer {
    type V = PlayerView;

    closed spec fn view(&self) -> PlayerView {
        PlayerView {
            device: commands::setting_view(self.device),
            shared: self.state,
            has_output: self.has_output,
            has_player: self.has_player,
            track_id: self.track_id,
            queue_item_id: self.queue_item_id,
            data: data_view(self.data),
            next: track_view(self.next),
            candidate: track_view(self.candidate),
            recovering: self.recovering,
            phase: self.phase,
        }
    }
}

impl AudioPlayer {
    /// The clock that the player reads.
    pub closed spec fn reads(&self) -> Clock {
        self.clock
    }

    /// A player whose output, on that device, is still to be opened.
    pub fn new(device: Option<String>) -> (r: AudioPlayer)
        ensures
            r@ == PlayerView::initial(commands::setting_view(device)),
            r@.wf(),
    {
        AudioPlayer {
            clock: Clock::start(),
            device,
            state: SharedState::new(),
            has_output: false,
            has_player: false,
            track_id: 0,
            queue_item_id: 0,
            data: None,
            next: None,
            candidate: None,
            recovering: false,
            phase: Phase::Opening,
        }
    }

    /// What playback looks like from outside.
    pub fn state(&self) -> (r: &SharedState)
        ensures
            *r == self@.shared,
    {
        &self.state
    }

    /// What opens the output: it is done before the first command.
    pub fn open_output(&self) -> (r: PlayerAction)
        ensures
            r@ == (ActionView::OpenOutput { device: self@.device }),
    {
        PlayerAction::OpenOutput {
            device: match &self.device {
                Some(name) => Some(name.as_str().to_owned()),
                None => None,
            },
        }
    }

    /// Whether the output is, or is to be kept, open.
    pub fn has_output(&self) -> (r: bool)
        ensures
            r == self@.has_output,
    {
        self.has_output
    }

    /// Whether something plays or is paused, or is to be kept.
    pub fn has_player(&self) -> (r: bool)
        ensures
            r == self@.has_player,
    {
        self.has_player
    }

    /// Which outcome the player waits for.
    pub fn phase(&self) -> (r: Phase)
        ensures
            r == self@.phase,
    {
        self.phase
    }

    fn set_idle(&mut self)
        ensures
            final(self).reads() == old(self).reads(),
            final(self)@ == old(self)@.idle(),
    {
        self.phase = Phase::Idle;
        self.candidate = None;
    }

    fn set_recovered(&mut self)
        ensures
            final(self).reads() == old(self).reads(),
            final(self)@ == old(self)@.recovered(),
    {
        self.set_idle();
        self.recovering = false;
    }

    fn open(&mut self, phase: Phase) -> (r: PlayerAction)
        ensures
            final(self).reads() == old(self).reads(),
            (final(self)@, r@) == old(self)@.opening(phase),
    {
        self.phase = phase;
        self.open_output()
    }

    fn start(&mut self, skip_secs: Option<u64>, phase: Phase) -> (r: PlayerAction)
        ensures
            final(self).reads() == old(self).reads(),
            (final(self)@, r@) == old(self)@.starting(skip_secs, phase),
    {
        self.phase = phase;
        let data: Vec<u8> = match &self.data {
            Some(bytes) => copy_of(bytes),
            None => Vec::new(),
        };
        assert(data@ =~= self@.file());
        PlayerAction::StartPlayer {
            data,
            skip_secs,
            queue_item_id: self.queue_item_id,
            generation: self.state.current_generation(),
            volume: self.state.volume,
        }
    }

    fn run_from(&mut self, position: u64, now: u64)
        ensures
            final(self).reads() == old(self).reads(),
            final(self)@ == old(self)@.running(position, now),
    {
        self.has_player = true;
        self.state.reset_playback_tracking(position, now);
        self.state.gapless_ready = true;
    }

    fn load_from(&mut self, position: u64, now: u64)
        ensures
            final(self).reads() == old(self).reads(),
            final(self)@ == old(self)@.loaded(position, now),
    {
        self.run_from(position, now);
        self.state.set_stream_error(false);
        self.state.has_loaded_audio = true;
    }

    fn seek_again(&mut self, secs: u64, now: u64, phase: Phase) -> (r: PlayerAction)
        ensures
            final(self).reads() == old(self).reads(),
            (final(self)@, r@) == old(self)@.seeking(secs, now, phase),
    {
        self.state.next_generation();
        self.state.reset_playback_tracking(secs, now);
        self.start(Some(secs), phase)
    }

    /// Begins to play a track, of whose file `metadata` is known.
    pub fn begin_play(&mut self, track: QueuedTrack, metadata: Option<AudioMetadata>) -> (r:
        PlayerAction)
        ensures
            final(self).reads() == old(self).reads(),
            (final(self)@, r@) == old(self)@.on_play(track@, metadata),
    {
        if let Some(known) = metadata {
            self.state.set_stream_quality(known.sample_rate, bit_depth_or_default(&known));
        }
        self.set_idle();
        self.track_id = track.track_id;
        self.queue_item_id = track.queue_item_id;
        self.next = None;
        self.has_player = false;
        self.state.next_generation();
        self.state.set_current_track(track.track_id, track.queue_item_id, track.duration_secs);
        self.state.clear_gapless_next();
        self.data = Some(track.data);
        if self.has_output {
            self.start(None, Phase::PlayStarting)
        } else {
            self.open(Phase::PlayOpening)
        }
    }

    fn play_next_track(&mut self, track: QueuedTrack) -> (r: PlayerAction)
        ensures
            final(self).reads() == old(self).reads(),
            (final(self)@, r@) == old(self)@.on_play_next(track@),
    {
        self.set_idle();
        if self.has_player {
            let data = copy_of(&track.data);
            let queue_item_id: u64 = track.queue_item_id;
            self.candidate = Some(track);
            self.phase = Phase::Appending;
            PlayerAction::AppendNext {
                data,
                queue_item_id,
                generation: self.state.current_generation(),
            }
        } else {
            PlayerAction::Wait
        }
    }

    fn promote_next(&mut self, queue_item_id: u64, generation: u64) -> (r: PlayerAction)
        ensures
            final(self).reads() == old(self).reads(),
            (final(self)@, r@) == old(self)@.on_track_ended(queue_item_id, generation),
    {
        self.set_idle();
        if self.state.current_generation() != generation || self.queue_item_id != queue_item_id {
            return PlayerAction::Wait;
        }
        match self.next.take() {
            Some(next) => {
                self.track_id = next.track_id;
                self.queue_item_id = next.queue_item_id;
                self.data = Some(next.data);
            },
            None => {
                self.has_player = false;
                self.track_id = 0;
                self.queue_item_id = 0;
                self.data = None;
            },
        }
        PlayerAction::Wait
    }

    fn pause_player(&mut self, now: u64) -> (r: PlayerAction)
        ensures
            final(self).reads() == old(self).reads(),
            (final(self)@, r@) == old(self)@.on_pause(now),
    {
        self.set_idle();
        if self.has_player {
            self.state.pause_playback(now);
            self.state.gapless_ready = false;
            PlayerAction::PausePlayer
        } else {
            PlayerAction::Wait
        }
    }

    fn resume_player(&mut self, now: u64) -> (r: PlayerAction)
        ensures
            final(self).reads() == old(self).reads(),
            (final(self)@, r@) == old(self)@.on_resume(now),
    {
        self.set_idle();
        if self.state.is_playing {
            PlayerAction::Wait
        } else if self.has_player {
            self.state.resume_playback(now);
            self.state.gapless_ready = true;
            PlayerAction::ResumePlayer
        } else if self.data.is_some() && self.has_output {
            let position: u64 = self.state.current_position(now);
            self.state.next_generation();
            self.state.clear_gapless_next();
            self.next = None;
            self.start(Some(position), Phase::ResumeStarting { position })
        } else {
            PlayerAction::Wait
        }
    }

    fn stop_player(&mut self) -> (r: PlayerAction)
        ensures
            final(self).reads() == old(self).reads(),
            (final(self)@, r@) == old(self)@.on_stop(),
    {
        self.set_idle();
        self.state.next_generation();
        self.state.stop_playback_tracking(true);
        self.has_player = false;
        self.track_id = 0;
        self.queue_item_id = 0;
        self.data = None;
        self.next = None;
        PlayerAction::Wait
    }

    fn change_volume(&mut self, percent: u32) -> (r: PlayerAction)
        ensures
            final(self).reads() == old(self).reads(),
            (final(self)@, r@) == old(self)@.on_set_volume(percent),
    {
        self.set_idle();
        self.state.volume = percent;
        if self.has_player {
            PlayerAction::SetPlayerVolume(percent)
        } else {
            PlayerAction::Wait
        }
    }

    fn seek_to(&mut self, secs: u64, now: u64) -> (r: PlayerAction)
        ensures
            final(self).reads() == old(self).reads(),
            (final(self)@, r@) == old(self)@.on_seek(secs, now),
    {
        self.set_idle();
        if self.data.is_some() {
            self.state.next_generation();
            self.has_player = false;
            self.next = None;
            self.state.clear_gapless_next();
            self.state.reset_playback_tracking(secs, now);
            if self.has_output {
                self.start(Some(secs), Phase::SeekStarting)
            } else {
                PlayerAction::Wait
            }
        } else {
            self.state.set_pending_seek(secs);
            PlayerAction::Wait
        }
    }

    fn recover(&mut self, now: u64) -> (r: PlayerAction)
        ensures
            final(self).reads() == old(self).reads(),
            (final(self)@, r@) == old(self)@.on_recover(now),
    {
        self.set_idle();
        let position: u64 = self.state.current_position(now);
        self.state.next_generation();
        self.has_player = false;
        self.next = None;
        self.state.clear_gapless_next();
        self.has_output = false;
        self.state.is_playing = false;
        self.state.position = position;
        self.phase = Phase::RecoverCooling { position };
        PlayerAction::CoolDown(COOL_DOWN_MS)
    }

    fn run_command(&mut self, command: AudioCommand, now: u64) -> (r: PlayerAction)
        ensures
            final(self).reads() == old(self).reads(),
            (final(self)@, r@) == old(self)@.on_command(command@, now),
    {
        match command {
            AudioCommand::Play(track) => {
                let metadata = match media::extract_audio_metadata(track.data.as_slice()) {
                    Ok(known) => Some(known),
                    Err(_) => None,
                };
                self.begin_play(track, metadata)
            },
            AudioCommand::PlayNext(track) => self.play_next_track(track),
            AudioCommand::TrackEnded { queue_item_id, generation } => self.promote_next(
                queue_item_id,
                generation,
            ),
            AudioCommand::Pause => self.pause_player(now),
            AudioCommand::Resume => self.resume_player(now),
            AudioCommand::Stop => self.stop_player(),
            AudioCommand::SetVolume(percent) => self.change_volume(percent),
            AudioCommand::Seek(secs) => self.seek_to(secs, now),
            AudioCommand::RecoverFromEio => self.recover(now),
        }
    }

    fn output_opened(&mut self, ok: bool) -> (r: PlayerAction)
        ensures
            final(self).reads() == old(self).reads(),
            (final(self)@, r@) == old(self)@.on_output_opened(ok),
    {
        match self.phase {
            Phase::Opening => {
                self.set_idle();
                self.has_output = ok;
                PlayerAction::Wait
            },
            Phase::PlayOpening => if ok {
                self.has_output = true;
                self.start(None, Phase::PlayStarting)
            } else {
                self.set_idle();
                PlayerAction::Wait
            },
            Phase::PlayReopening => if ok {
                self.has_output = true;
                self.start(None, Phase::PlayRestarting)
            } else {
                self.set_idle();
                self.state.set_stream_error(true);
                PlayerAction::Wait
            },
            Phase::RecoverReopening { position } => if !ok {
                self.set_recovered();
                self.state.set_stream_error(true);
                PlayerAction::Wait
            } else {
                self.has_output = true;
                if self.data.is_some() {
                    self.start(Some(position), Phase::RecoverStarting { position })
                } else {
                    self.set_recovered();
                    PlayerAction::Wait
                }
            },
            _ => PlayerAction::Wait,
        }
    }

    fn play_failed(&mut self, message: &str) -> (r: PlayerAction)
        ensures
            final(self).reads() == old(self).reads(),
            (final(self)@, r@) == old(self)@.on_play_failed(message@),
    {
        self.set_idle();
        self.state.set_stream_error(true);
        if recoverable_error(message) {
            self.has_player = false;
            self.has_output = false;
            self.phase = Phase::PlayCooling;
            PlayerAction::CoolDown(COOL_DOWN_MS)
        } else {
            PlayerAction::Wait
        }
    }

    fn play_started(&mut self, now: u64) -> (r: PlayerAction)
        ensures
            final(self).reads() == old(self).reads(),
            (final(self)@, r@) == old(self)@.on_play_started(now),
    {
        self.load_from(0, now);
        self.state.clear_gapless_next();
        match self.state.take_pending_seek() {
            Some(secs) => if self.has_output {
                self.has_player = false;
                self.seek_again(secs, now, Phase::PlaySeeking)
            } else {
                self.set_idle();
                PlayerAction::Wait
            },
            None => {
                self.set_idle();
                PlayerAction::Wait
            },
        }
    }

    fn resume_started(&mut self, position: u64, now: u64) -> (r: PlayerAction)
        ensures
            final(self).reads() == old(self).reads(),
            (final(self)@, r@) == old(self)@.on_resume_started(position, now),
    {
        self.run_from(position, now);
        match self.state.take_pending_seek() {
            Some(secs) => self.seek_again(secs, now, Phase::ResumeSeeking),
            None => {
                self.set_idle();
                PlayerAction::Wait
            },
        }
    }

    fn recover_started(&mut self, position: u64, now: u64) -> (r: PlayerAction)
        ensures
            final(self).reads() == old(self).reads(),
            (final(self)@, r@) == old(self)@.on_recover_started(position, now),
    {
        self.load_from(position, now);
        match self.state.take_pending_seek() {
            Some(secs) => if self.has_output {
                self.seek_again(secs, now, Phase::RecoverSeeking)
            } else {
                self.set_recovered();
                PlayerAction::Wait
            },
            None => {
                self.set_recovered();
                PlayerAction::Wait
            },
        }
    }

    fn player_started(&mut self, outcome: Result<(), String>, now: u64) -> (r: PlayerAction)
        ensures
            final(self).reads() == old(self).reads(),
            (final(self)@, r@) == old(self)@.on_player_started(outcome_view(outcome), now),
    {
        match outcome {
            Ok(_) => match self.phase {
                Phase::PlayStarting => self.play_started(now),
                Phase::PlayRestarting => {
                    self.load_from(0, now);
                    self.set_idle();
                    PlayerAction::Wait
                },
                Phase::ResumeStarting { position } => self.resume_started(position, now),
                Phase::RecoverStarting { position } => self.recover_started(position, now),
                Phase::PlaySeeking | Phase::ResumeSeeking => {
                    self.has_player = true;
                    self.set_idle();
                    PlayerAction::Wait
                },
                Phase::SeekStarting => {
                    self.has_player = true;
                    self.state.has_pending_seek = false;
                    self.set_idle();
                    PlayerAction::Wait
                },
                Phase::RecoverSeeking => {
                    self.has_player = true;
                    self.set_recovered();
                    PlayerAction::Wait
                },
                _ => PlayerAction::Wait,
            },
            Err(message) => match self.phase {
                Phase::PlayStarting => self.play_failed(message.as_str()),
                Phase::PlayRestarting => {
                    self.set_idle();
                    self.state.set_stream_error(true);
                    PlayerAction::Wait
                },
                Phase::PlaySeeking
                | Phase::ResumeStarting { position: _ }
                | Phase::ResumeSeeking
                | Phase::SeekStarting => {
                    self.set_idle();
                    PlayerAction::Wait
                },
                Phase::RecoverStarting { position: _ } => {
                    self.set_recovered();
                    self.state.set_stream_error(true);
                    PlayerAction::Wait
                },
                Phase::RecoverSeeking => {
                    self.set_recovered();
                    PlayerAction::Wait
                },
                _ => PlayerAction::Wait,
            },
        }
    }

    fn next_appended(&mut self, ok: bool) -> (r: PlayerAction)
        ensures
            final(self).reads() == old(self).reads(),
            (final(self)@, r@) == old(self)@.on_next_appended(ok),
    {
        match self.phase {
            Phase::Appending => match self.candidate.take() {
                Some(track) => {
                    self.set_idle();
                    if ok {
                        self.state.set_gapless_next(
                            track.track_id,
                            track.queue_item_id,
                            track.duration_secs,
                        );
                        self.next = Some(track);
                    }
                    PlayerAction::Wait
                },
                None => PlayerAction::Wait,
            },
            _ => PlayerAction::Wait,
        }
    }

    fn cooled_down(&mut self) -> (r: PlayerAction)
        ensures
            final(self).reads() == old(self).reads(),
            (final(self)@, r@) == old(self)@.on_cooled_down(),
    {
        match self.phase {
            Phase::PlayCooling => self.open(Phase::PlayReopening),
            Phase::RecoverCooling { position } => self.open(Phase::RecoverReopening { position }),
            _ => PlayerAction::Wait,
        }
    }

    /// Takes an event of the moment `now` and says what is to be done next.
    pub fn apply(&mut self, event: PlayerEvent, now: u64) -> (r: PlayerAction)
        ensures
            final(self).reads() == old(self).reads(),
            (final(self)@, r@) == old(self)@.step(event@, now),
    {
        match event {
            PlayerEvent::Command(command) => self.run_command(command, now),
            PlayerEvent::OutputOpened { ok } => self.output_opened(ok),
            PlayerEvent::PlayerStarted(outcome) => self.player_started(outcome, now),
            PlayerEvent::NextAppended { ok } => self.next_appended(ok),
            PlayerEvent::CooledDown => self.cooled_down(),
        }
    }

    /// Takes an event of this moment and says what is to be done next.
    pub fn handle(&mut self, event: PlayerEvent) -> (r: PlayerAction)
        ensures
            final(self).reads() == old(self).reads(),
            exists|now: u64| (final(self)@, r@) == #[trigger] old(self)@.step(event@, now),
    {
        let now: u64 = self.clock.now();
        self.apply(event, now)
    }
}

// ---------------------------------------------------------------------------
// What others ask of the player
// ---------------------------------------------------------------------------

/// How playback stands at one moment.
#[derive(Debug, Clone, Copy, PartialEq, Eq, Structural)]
pub struct PlaybackEvent {
    pub is_playing: bool,
    pub position: u64,
    pub duration: u64,
    pub track_id: u64,
    pub queue_item_id: u64,
    /// In percent.
    pub volume: u32,
    pub sample_rate: Option<u32>,
    pub bit_depth: Option<u32>,
    pub gapless_ready: bool,
    pub gapless_next_track_id: u64,
    pub gapless_next_queue_item_id: u64,
}

pub open spec fn positive(n: u32) -> Option<u32> {
    if n > 0 {
        Some(n)
    } else {
        None
    }
}

fn if_positive(n: u32) -> (r: Option<u32>)
    ensures
        r == positive(n),
{
    if n > 0 {
        Some(n)
    } else {
        None
    }
}

/// How playback stands at `now`.
pub open spec fn event_at(state: SharedState, now: u64) -> PlaybackEvent {
    PlaybackEvent {
        is_playing: state.is_playing,
        position: state.position_at(now),
        duration: state.duration,
        track_id: state.track_id,
        queue_item_id: state.queue_item_id,
        volume: state.volume,
        sample_rate: positive(state.sample_rate),
        bit_depth: positive(state.bit_depth),
        gapless_ready: state.gapless_ready,
        gapless_next_track_id: state.gapless_next_track_id,
        gapless_next_queue_item_id: state.gapless_next_queue_item_id,
    }
}

/// How playback stands at `now`.
pub fn playback_event_at(state: &SharedState, now: u64) -> (r: PlaybackEvent)
    ensures
        r == event_at(*state, now),
{
    PlaybackEvent {
        is_playing: state.is_playing,
        position: state.current_position(now),
        duration: state.duration,
        track_id: state.track_id,
        queue_item_id: state.queue_item_id,
        volume: state.volume,
        sample_rate: if_positive(state.sample_rate),
        bit_depth: if_positive(state.bit_depth),
        gapless_ready: state.gapless_ready,
        gapless_next_track_id: state.gapless_next_track_id,
        gapless_next_queue_item_id: state.gapless_next_queue_item_id,
    }
}

/// What is taken of a file that is to be played: what can be told of it, or CD
/// sound at 48 kHz with `fallback` as its duration.
pub open spec fn metadata_or_usual(
    found: Result<AudioMetadata, Seq<char>>,
    fallback: Option<u64>,
) -> AudioMetadata {
    match found {
        Ok(metadata) => metadata,
        Err(_) => AudioMetadata {
            sample_rate: 48000,
            channels: 2,
            bit_depth: Some(DEFAULT_BIT_DEPTH),
            duration_secs: fallback,
        },
    }
}

/// The duration of a file that is to follow: what can be told of it, what the
/// decoder says, or zero.
pub open spec fn next_duration(
    found: Result<AudioMetadata, Seq<char>>,
    fallback: Option<u64>,
) -> u64 {
    match found {
        Ok(metadata) => match metadata.duration_secs {
            Some(secs) => secs,
            None => or_zero(fallback),
        },
        Err(_) => or_zero(fallback),
    }
}

pub open spec fn or_zero(secs: Option<u64>) -> u64 {
    match secs {
        Some(n) => n,
        None => 0,
    }
}

fn secs_or_zero(secs: Option<u64>) -> (r: u64)
    ensures
        r == or_zero(secs),
{
    match secs {
        Some(n) => n,
        None => 0,
    }
}

impl AudioPlayer {
    /// Announces the quality of a file of which `metadata` is known, and makes
    /// the command that plays it.
    pub fn prepare_play(
        &mut self,
        data: Vec<u8>,
        track_id: u64,
        queue_item_id: u64,
        metadata: &AudioMetadata,
    ) -> (r: AudioCommand)
        ensures
            final(self).reads() == old(self).reads(),
            final(self)@ == (PlayerView {
                shared: SharedState {
                    sample_rate: metadata.sample_rate,
                    bit_depth: bit_depth_of(*metadata),
                    ..old(self)@.shared
                },
                ..old(self)@
            }),
            r@ == CommandView::Play(
                TrackView {
                    data: data@,
                    track_id,
                    queue_item_id,
                    duration_secs: or_zero(metadata.duration_secs),
                },
            ),
    {
        self.state.set_stream_quality(metadata.sample_rate, bit_depth_or_default(metadata));
        AudioCommand::Play(
            QueuedTrack {
                data,
                track_id,
                queue_item_id,
                duration_secs: secs_or_zero(metadata.duration_secs),
            },
        )
    }

    /// Looks at a file, announces its quality and makes the command that plays
    /// it.
    pub fn play_data(&mut self, data: Vec<u8>, track_id: u64, queue_item_id: u64) -> (r:
        AudioCommand)
        ensures
            final(self).reads() == old(self).reads(),
            ({
                let metadata = metadata_or_usual(
                    media::metadata_of(data@),
                    media::decoder_secs(data@),
                );
                &&& final(self)@ == (PlayerView {
                    shared: SharedState {
                        sample_rate: metadata.sample_rate,
                        bit_depth: bit_depth_of(metadata),
                        ..old(self)@.shared
                    },
                    ..old(self)@
                })
                &&& r@ == CommandView::Play(
                    TrackView {
                        data: data@,
                        track_id,
                        queue_item_id,
                        duration_secs: or_zero(metadata.duration_secs),
                    },
                )
            }),
    {
        let metadata = match media::extract_audio_metadata(data.as_slice()) {
            Ok(known) => known,
            Err(_) => AudioMetadata {
                sample_rate: 48000,
                channels: 2,
                bit_depth: Some(DEFAULT_BIT_DEPTH),
                duration_secs: media::decoder_duration_secs(data.as_slice()),
            },
        };
        self.prepare_play(data, track_id, queue_item_id, &metadata)
    }

    /// Looks at a file and makes the command that lets it follow the current
    /// one without a gap.
    pub fn play_next(&self, data: Vec<u8>, track_id: u64, queue_item_id: u64) -> (r: AudioCommand)
        ensures
            r@ == CommandView::PlayNext(
                TrackView {
                    data: data@,
                    track_id,
                    queue_item_id,
                    duration_secs: next_duration(
                        media::metadata_of(data@),
                        media::decoder_secs(data@),
                    ),
                },
            ),
    {
        let told: Option<u64> = match media::extract_audio_metadata(data.as_slice()) {
            Ok(known) => known.duration_secs,
            Err(_) => None,
        };
        let duration_secs: u64 = match told {
            Some(secs) => secs,
            None => secs_or_zero(media::decoder_duration_secs(data.as_slice())),
        };
        AudioCommand::PlayNext(QueuedTrack { data, track_id, queue_item_id, duration_secs })
    }

    /// Whether a file is loaded.
    pub fn has_loaded_audio(&self) -> (r: bool)
        ensures
            r == self@.shared.has_loaded_audio,
    {
        self.state.has_loaded_audio
    }

    /// How playback stands at this moment.
    pub fn get_playback_event(&self) -> (r: PlaybackEvent)
        ensures
            exists|now: u64| r == #[trigger] event_at(self@.shared, now),
    {
        let now: u64 = self.clock.now();
        playback_event_at(&self.state, now)
    }

    /// Takes note, at `now`, that a track has played to its end, and makes the
    /// command that lets the player catch up.
    pub fn note_track_end(&mut self, queue_item_id: u64, generation: u64, now: u64) -> (r:
        AudioCommand)
        ensures
            final(self).reads() == old(self).reads(),
            final(self)@ == (PlayerView {
                shared: old(self)@.shared.after_track_end(queue_item_id, generation, now),
                ..old(self)@
            }),
            r@ == (CommandView::TrackEnded { queue_item_id, generation }),
    {
        self.state.mark_track_ended(queue_item_id, generation, now);
        AudioCommand::TrackEnded { queue_item_id, generation }
    }

    /// Takes note that a track has played to its end at this moment, and makes
    /// the command that lets the player catch up.
    pub fn track_ended(&mut self, queue_item_id: u64, generation: u64) -> (r: AudioCommand)
        ensures
            final(self).reads() == old(self).reads(),
            exists|now: u64|
                final(self)@ == (PlayerView {
                    shared: #[trigger] old(self)@.shared.after_track_end(
                        queue_item_id,
                        generation,
                        now,
                    ),
                    ..old(self)@
                }),
            r@ == (CommandView::TrackEnded { queue_item_id, generation }),
    {
        let now: u64 = self.clock.now();
        self.note_track_end(queue_item_id, generation, now)
    }

    /// Takes note of an I/O error of the output, and makes the command that
    /// recovers from it unless a recovery is already on its way.
    pub fn eio_signal(&mut self) -> (r: Option<AudioCommand>)
        ensures
            final(self).reads() == old(self).reads(),
            final(self)@ == (PlayerView { recovering: true, ..old(self)@ }),
            match r {
                Some(command) => !old(self)@.recovering && command@ == CommandView::RecoverFromEio,
                None => old(self)@.recovering,
            },
    {
        if self.recovering {
            None
        } else {
            self.recovering = true;
            Some(AudioCommand::RecoverFromEio)
        }
    }
}

// ---------------------------------------------------------------------------
// Laws
// ---------------------------------------------------------------------------

/// Whatever happens to a well-formed player leaves it well-formed.
pub proof fn step_keeps_the_player_well_formed(s: PlayerView, event: EventView, now: u64)
    requires
        s.wf(),
    ensures
        s.step(event, now).0.wf(),
{
    match event {
        EventView::Command(command) => lemma_command_wf(s, command, now),
        EventView::PlayerStarted(outcome) => lemma_started_wf(s, outcome, now),
        _ => {},
    }
}

proof fn lemma_command_wf(s: PlayerView, command: CommandView, now: u64)
    requires
        s.wf(),
    ensures
        s.on_command(command, now).0.wf(),
{
    match command {
        CommandView::Play(track) => {},
        CommandView::Resume => {},
        CommandView::Seek(_) => {},
        _ => {},
    }
}

proof fn lemma_started_wf(s: PlayerView, outcome: Result<(), Seq<char>>, now: u64)
    requires
        s.wf(),
    ensures
        s.on_player_started(outcome, now).0.wf(),
{
}

/// A track's end leaves a well-formed player well-formed.
pub proof fn track_end_keeps_the_player_well_formed(
    s: PlayerView,
    queue_item_id: u64,
    generation: u64,
    now: u64,
)
    requires
        s.wf(),
    ensures
        (PlayerView {
            shared: s.shared.after_track_end(queue_item_id, generation, now),
            ..s
        }).wf(),
{
}

/// A player keeps the device that was chosen for it, and no other is opened.
pub proof fn only_the_chosen_device_is_opened(s: PlayerView, event: EventView, now: u64)
    ensures
        s.step(event, now).0.device == s.device,
        s.step(event, now).1 matches ActionView::OpenOutput { device } ==> device == s.device,
{
    match event {
        EventView::Command(command) => lemma_command_device(s, command, now),
        EventView::PlayerStarted(outcome) => lemma_started_device(s, outcome, now),
        _ => {},
    }
}

proof fn lemma_command_device(s: PlayerView, command: CommandView, now: u64)
    ensures
        s.on_command(command, now).0.device == s.device,
        s.on_command(command, now).1 matches ActionView::OpenOutput { device } ==> device
            == s.device,
{
}

proof fn lemma_started_device(s: PlayerView, outcome: Result<(), Seq<char>>, now: u64)
    ensures
        s.on_player_started(outcome, now).0.device == s.device,
        !(s.on_player_started(outcome, now).1 is OpenOutput),
{
}

/// Whatever is started is the current track's file, on an open output, and
/// will announce its end under the current item and generation.
pub proof fn only_the_current_track_is_started(s: PlayerView, event: EventView, now: u64)
    requires
        s.wf(),
    ensures
        s.step(event, now).1 matches ActionView::StartPlayer {
            data,
            queue_item_id,
            generation,
            ..
        } ==> {
            let after = s.step(event, now).0;
            &&& after.data == Some(data)
            &&& after.queue_item_id == queue_item_id
            &&& after.shared.generation == generation
            &&& after.has_output
        },
{
}

/// The commands that replace what plays begin a new generation, so that the
/// end of what played before is no news.
pub proof fn replacing_begins_a_generation(s: PlayerView, command: CommandView, now: u64)
    requires
        command is Play || command is Stop || command is RecoverFromEio || (command is Seek
            && s.data is Some),
    ensures
        s.on_command(command, now).0.shared.generation == shared_state::successor(
            s.shared.generation,
        ),
        forall|queue_item_id: u64, later: u64|
            (#[trigger] s.on_command(command, now).0.shared.after_track_end(
                queue_item_id,
                s.shared.generation,
                later,
            )) == s.on_command(command, now).0.shared,
{
}

/// A stop forgets the track, what follows it, and that anything plays.
pub proof fn stop_forgets_everything(s: PlayerView, now: u64)
    ensures
        ({
            let (after, action) = s.on_command(CommandView::Stop, now);
            &&& action is Wait
            &&& !after.has_player
            &&& after.data is None
            &&& after.next is None
            &&& after.track_id == 0
            &&& after.shared.track_id == 0
            &&& !after.shared.is_playing
            &&& after.shared.position_at(now) == 0
            &&& after.has_output == s.has_output
        }),
{
}

/// A pause is answered by a resume from the same position, and from there
/// playback goes on with the time, up to the end of the track.
pub proof fn resume_answers_pause(s: PlayerView, paused: u64, resumed: u64, later: u64)
    requires
        s.has_player,
        s.shared.duration == 0 || s.shared.position_at(paused) <= s.shared.duration,
    ensures
        ({
            let during = s.on_command(CommandView::Pause, paused).0;
            let (after, action) = during.on_command(CommandView::Resume, resumed);
            &&& during.shared.position_at(resumed) == s.shared.position_at(paused)
            &&& action is ResumePlayer
            &&& after.shared.is_playing
            &&& after.shared.position_at(resumed) == s.shared.position_at(paused)
            &&& after.shared.position_at(later) == {
                let reached = shared_state::saturated(
                    s.shared.position_at(paused) as int,
                    clock::units_between(resumed, later, clock::NANOS_PER_SEC),
                );
                if s.shared.duration > 0 && reached > s.shared.duration {
                    s.shared.duration as int
                } else {
                    reached
                }
            }
            &&& after.data == s.data
            &&& after.next == s.next
        }),
{
}

/// Playing on is not started twice: a resume while something plays does
/// nothing.
pub proof fn resume_while_playing_does_nothing(s: PlayerView, now: u64)
    requires
        s.shared.is_playing,
    ensures
        s.on_command(CommandView::Resume, now) == (s.idle(), ActionView::Wait),
{
}

/// A seek before anything is loaded is kept, and is what the next track starts
/// from.
pub proof fn early_seek_waits_for_the_track(
    s: PlayerView,
    secs: u64,
    track: TrackView,
    metadata: Option<AudioMetadata>,
    sought: u64,
    started: u64,
)
    requires
        s.data is None,
        s.has_output,
    ensures
        ({
            let waiting = s.on_command(CommandView::Seek(secs), sought).0;
            let (loading, first) = waiting.on_play(track, metadata);
            let (seeking, second) = loading.on_player_started(Ok(()), started);
            let (playing, third) = seeking.on_player_started(Ok(()), started);
            &&& first matches ActionView::StartPlayer { skip_secs, .. } && skip_secs is None
            &&& second matches ActionView::StartPlayer { skip_secs, .. } && skip_secs == Some(secs)
            &&& third is Wait
            &&& playing.has_player
            &&& playing.shared.waiting_seek() is None
            &&& playing.shared.position == secs
            &&& playing.shared.is_playing
        }),
{
}

/// A track that was appended becomes the current one, for the player and for
/// everyone who asks, when the track before it ends.
pub proof fn appended_track_follows(s: PlayerView, track: TrackView, appended: u64, ended: u64)
    requires
        s.has_player,
        s.queue_item_id == s.shared.queue_item_id,
        track.track_id > 0,
        track.queue_item_id > 0,
    ensures
        ({
            let asked = s.on_command(CommandView::PlayNext(track), appended).0;
            let queued = asked.on_next_appended(true).0;
            let noted = PlayerView {
                shared: queued.shared.after_track_end(
                    s.queue_item_id,
                    queued.shared.generation,
                    ended,
                ),
                ..queued
            };
            let after = noted.on_command(
                CommandView::TrackEnded {
                    queue_item_id: s.queue_item_id,
                    generation: queued.shared.generation,
                },
                ended,
            ).0;
            &&& after.data == Some(track.data)
            &&& after.queue_item_id == track.queue_item_id
            &&& after.shared.queue_item_id == track.queue_item_id
            &&& after.track_id == track.track_id
            &&& after.shared.track_id == track.track_id
            &&& after.shared.duration == track.duration_secs
            &&& after.shared.is_playing
            &&& after.has_player
            &&& after.next is None
        }),
{
}

/// A failure that opening the output again may cure is tried again once: when
/// the second start succeeds, the track plays from its beginning without error.
pub proof fn io_error_is_retried(s: PlayerView, message: Seq<char>, now: u64)
    requires
        s.phase is PlayStarting,
        is_recoverable(message),
    ensures
        ({
            let (failed, cool) = s.on_player_started(Err(message), now);
            let (reopening, open) = failed.on_cooled_down();
            let (restarting, start) = reopening.on_output_opened(true);
            let (after, last) = restarting.on_player_started(Ok(()), now);
            &&& cool == ActionView::CoolDown(COOL_DOWN_MS)
            &&& failed.shared.stream_error
            &&& !failed.has_output
            &&& open == (ActionView::OpenOutput { device: s.device })
            &&& start is StartPlayer
            &&& start->StartPlayer_generation == s.shared.generation
            &&& last is Wait
            &&& after.has_player
            &&& !after.shared.stream_error
            &&& after.shared.is_playing
            &&& after.shared.position_at(now) == 0
            &&& after.phase is Idle
        }),
{
}

/// A recovery starts the same file at the position where it was interrupted.
pub proof fn recovery_keeps_file_and_position(
    s: PlayerView,
    interrupted: u64,
    opened: u64,
    started: u64,
)
    requires
        s.data is Some,
    ensures
        ({
            let (cooling, cool) = s.on_command(CommandView::RecoverFromEio, interrupted);
            let (reopening, open) = cooling.on_cooled_down();
            let (starting, start) = reopening.on_output_opened(true);
            let (after, last) = starting.on_player_started(Ok(()), started);
            &&& cool == ActionView::CoolDown(COOL_DOWN_MS)
            &&& open == (ActionView::OpenOutput { device: s.device })
            &&& start == (ActionView::StartPlayer {
                data: s.data->0,
                skip_secs: Some(s.shared.position_at(interrupted)),
                queue_item_id: s.queue_item_id,
                generation: shared_state::successor(s.shared.generation),
                volume: s.shared.volume,
            })
            &&& s.shared.waiting_seek() is None ==> {
                &&& last is Wait
                &&& after.shared.position == s.shared.position_at(interrupted)
                &&& after.shared.is_playing
                &&& !after.shared.stream_error
                &&& !after.recovering
                &&& after.data == s.data
            }
        }),
{
}

/// Whether `event` is an outcome that a player in `phase` waits for.
pub open spec fn awaits(phase: Phase, event: EventView) -> bool {
    match phase {
        Phase::Idle => false,
        Phase::Opening | Phase::PlayOpening | Phase::PlayReopening | Phase::RecoverReopening {
            position: _,
        } => event is OutputOpened,
        Phase::PlayCooling | Phase::RecoverCooling { position: _ } => event is CooledDown,
        Phase::Appending => event is NextAppended,
        _ => event is PlayerStarted,
    }
}

/// How many outcomes a player in `phase` may still have to wait for.
pub open spec fn outcomes_left(phase: Phase) -> nat {
    match phase {
        Phase::Idle => 0,
        Phase::Opening => 1,
        Phase::PlayOpening => 5,
        Phase::PlayStarting => 4,
        Phase::PlaySeeking => 1,
        Phase::PlayCooling => 3,
        Phase::PlayReopening => 2,
        Phase::PlayRestarting => 1,
        Phase::Appending => 1,
        Phase::ResumeStarting { position: _ } => 2,
        Phase::ResumeSeeking => 1,
        Phase::SeekStarting => 1,
        Phase::RecoverCooling { position: _ } => 4,
        Phase::RecoverReopening { position: _ } => 3,
        Phase::RecoverStarting { position: _ } => 2,
        Phase::RecoverSeeking => 1,
    }
}

/// Every command comes to an end: each outcome brings the player closer to the
/// next command, and it is idle exactly when it has nothing to be done that has
/// an outcome.
pub proof fn commands_come_to_an_end(s: PlayerView, event: EventView, now: u64)
    requires
        s.wf(),
        awaits(s.phase, event),
    ensures
        outcomes_left(s.step(event, now).0.phase) < outcomes_left(s.phase),
        s.step(event, now).0.phase is Idle <==> s.step(event, now).1 is Wait,
{
}

/// A recovery that comes to its end, well or badly, lets the next I/O error be
/// recovered from.
pub proof fn recovery_ends(s: PlayerView, event: EventView, now: u64)
    requires
        s.phase is RecoverReopening || s.phase is RecoverStarting || s.phase is RecoverSeeking,
        awaits(s.phase, event),
    ensures
        s.step(event, now).0.phase is Idle ==> !s.step(event, now).0.recovering,
{
}

/// An outcome that the player does not wait for changes nothing.
pub proof fn unexpected_outcomes_change_nothing(s: PlayerView, event: EventView, now: u64)
    requires
        s.wf(),
        !(event is Command),
        !awaits(s.phase, event),
    ensures
        s.step(event, now) == (s, ActionView::Wait),
{
}

/// A seek goes to the second that it names, wherever playback was before: the
/// current file is started anew from there, and playback is there and plays.
pub proof fn seek_goes_to_the_second_that_it_names(s: PlayerView, secs: u64, now: u64)
    requires
        s.data is Some,
    ensures
        ({
            let (after, action) = s.step(EventView::Command(CommandView::Seek(secs)), now);
            &&& after.shared.position == secs
            &&& after.shared.is_playing
            &&& s.shared.duration == 0 || secs <= s.shared.duration
                ==> after.shared.position_at(now) == secs
            &&& 0 < s.shared.duration < secs ==> after.shared.position_at(now) == s.shared.duration
            &&& s.has_output ==> (action matches ActionView::StartPlayer {
                data,
                skip_secs,
                queue_item_id,
                generation,
                volume,
            } && data == s.data->0 && skip_secs == Some(secs) && queue_item_id == s.queue_item_id
                && generation == after.shared.generation && volume == s.shared.volume)
            &&& !s.has_output ==> action is Wait
        }),
{
}

/// Of two seeks the later one counts.
pub proof fn later_seek_counts(s: PlayerView, first: u64, second: u64, now: u64, later: u64)
    requires
        s.data is Some,
    ensures
        ({
            let once = s.on_command(CommandView::Seek(second), later).0;
            let twice = s.on_command(CommandView::Seek(first), now).0.on_command(
                CommandView::Seek(second),
                later,
            ).0;
            &&& twice.shared.position == once.shared.position
            &&& twice.shared.playback_start_time == once.shared.playback_start_time
            &&& twice.data == once.data
        }),
{
}

/// A seek leaves the track, its file, its quality and the volume alone, and
/// forgets what was to follow.
pub proof fn seek_keeps_the_track(s: PlayerView, secs: u64, now: u64)
    requires
        s.data is Some,
    ensures
        ({
            let after = s.on_command(CommandView::Seek(secs), now).0;
            &&& after.track_id == s.track_id
            &&& after.queue_item_id == s.queue_item_id
            &&& after.data == s.data
            &&& after.shared.track_id == s.shared.track_id
            &&& after.shared.queue_item_id == s.shared.queue_item_id
            &&& after.shared.duration == s.shared.duration
            &&& after.shared.sample_rate == s.shared.sample_rate
            &&& after.shared.bit_depth == s.shared.bit_depth
            &&& after.shared.has_loaded_audio == s.shared.has_loaded_audio
            &&& after.next is None
            &&& after.shared.gapless_next_track_id == 0
            &&& after.shared.gapless_next_queue_item_id == 0
            &&& after.shared.gapless_next_duration == 0
            &&& after.has_output == s.has_output
            &&& !after.has_player
        }),
{
}

/// A seek that comes before any file is loaded is kept as it was named, and
/// changes nothing else of playback.
pub proof fn early_seek_is_kept(s: PlayerView, secs: u64, now: u64)
    requires
        s.data is None,
    ensures
        ({
            let (after, action) = s.on_command(CommandView::Seek(secs), now);
            &&& action is Wait
            &&& after.shared == (SharedState {
                has_pending_seek: true,
                pending_seek: secs,
                ..s.shared
            })
            &&& after.data is None
            &&& after.has_output == s.has_output
            &&& after.has_player == s.has_player
        }),
{
}

/// Once a seek's start has gone well the file plays, and no earlier seek waits
/// any more; where it has not, nothing plays on the output. The position stays
/// what the seek named.
pub proof fn seek_ends_with_its_start(s: PlayerView, outcome: Result<(), Seq<char>>, now: u64)
    requires
        s.phase is SeekStarting,
    ensures
        ({
            let (after, action) = s.step(EventView::PlayerStarted(outcome), now);
            &&& action is Wait
            &&& after.phase is Idle
            &&& outcome is Ok ==> after.has_player && !after.shared.has_pending_seek
            &&& outcome is Err ==> after.has_player == s.has_player && after.shared == s.shared
            &&& after.shared.position == s.shared.position
            &&& after.shared.is_playing == s.shared.is_playing
            &&& after.data == s.data
        }),
{
}

/// A track that is to be played is the current one at once, with its own
/// duration and nothing to follow it; its file is started from its beginning,
/// or the output is opened first.
pub proof fn played_track_is_current_at_once(s: PlayerView, track: TrackView, now: u64)
    ensures
        ({
            let (after, action) = s.step(EventView::Command(CommandView::Play(track)), now);
            &&& after.data == Some(track.data)
            &&& after.track_id == track.track_id
            &&& after.queue_item_id == track.queue_item_id
            &&& after.shared.track_id == track.track_id
            &&& after.shared.queue_item_id == track.queue_item_id
            &&& after.shared.duration == track.duration_secs
            &&& after.shared.volume == s.shared.volume
            &&& after.shared.has_pending_seek == s.shared.has_pending_seek
            &&& after.shared.pending_seek == s.shared.pending_seek
            &&& after.next is None
            &&& after.shared.gapless_next_track_id == 0
            &&& after.shared.gapless_next_queue_item_id == 0
            &&& after.shared.gapless_next_duration == 0
            &&& !after.has_player
            &&& after.has_output == s.has_output
            &&& s.has_output ==> (action matches ActionView::StartPlayer {
                data,
                skip_secs,
                queue_item_id,
                generation,
                volume,
            } && data == track.data && skip_secs is None && queue_item_id == track.queue_item_id
                && generation == after.shared.generation && volume == s.shared.volume)
            &&& !s.has_output ==> action == (ActionView::OpenOutput { device: s.device })
        }),
{
}

/// The quality that is announced of a track is what its file says, 16 bits
/// where it says no depth, and what was announced before where the file says
/// nothing.
pub proof fn played_track_brings_its_quality(s: PlayerView, track: TrackView, now: u64)
    ensures
        ({
            let after = s.on_command(CommandView::Play(track), now).0;
            match media::metadata_of(track.data) {
                Ok(metadata) => {
                    &&& after.shared.sample_rate == metadata.sample_rate
                    &&& metadata.bit_depth matches Some(bits) ==> after.shared.bit_depth == bits
                    &&& metadata.bit_depth is None ==> after.shared.bit_depth == 16
                },
                Err(_) => {
                    &&& after.shared.sample_rate == s.shared.sample_rate
                    &&& after.shared.bit_depth == s.shared.bit_depth
                },
            }
        }),
{
}

/// Once the output is open that a track waits for, its file is started from
/// its beginning; where it cannot be opened, nothing is started.
pub proof fn opened_output_starts_the_track(s: PlayerView, ok: bool, now: u64)
    requires
        s.phase is PlayOpening,
        s.data is Some,
    ensures
        ({
            let (after, action) = s.step(EventView::OutputOpened { ok }, now);
            &&& ok ==> after.has_output && (action matches ActionView::StartPlayer {
                data,
                skip_secs,
                queue_item_id,
                generation,
                volume,
            } && data == s.data->0 && skip_secs is None && queue_item_id == s.queue_item_id
                && generation == s.shared.generation && volume == s.shared.volume)
            &&& !ok ==> action is Wait && after.phase is Idle && after.has_output == s.has_output
            &&& after.shared == s.shared
            &&& after.data == s.data
        }),
{
}

/// The first opening of the output says whether there is one.
pub proof fn first_opening_says_whether_there_is_an_output(s: PlayerView, ok: bool, now: u64)
    requires
        s.phase is Opening,
    ensures
        ({
            let (after, action) = s.step(EventView::OutputOpened { ok }, now);
            &&& after.has_output == ok
            &&& after.shared == s.shared
            &&& after.phase is Idle
            &&& action is Wait
        }),
{
}

/// A track whose start goes well plays from its beginning, counts as loaded,
/// without error and with nothing to follow it yet; and where a seek waits, it
/// is taken up at once.
pub proof fn started_track_plays(s: PlayerView, now: u64)
    requires
        s.phase is PlayStarting,
        s.data is Some,
        s.has_output,
    ensures
        ({
            let (after, action) = s.step(EventView::PlayerStarted(Ok(())), now);
            &&& after.shared.is_playing
            &&& after.shared.has_loaded_audio
            &&& after.shared.gapless_ready
            &&& !after.shared.stream_error
            &&& !after.shared.has_pending_seek
            &&& after.shared.gapless_next_track_id == 0
            &&& after.shared.gapless_next_queue_item_id == 0
            &&& after.shared.track_id == s.shared.track_id
            &&& after.shared.queue_item_id == s.shared.queue_item_id
            &&& after.shared.duration == s.shared.duration
            &&& after.data == s.data
            &&& !s.shared.has_pending_seek ==> {
                &&& action is Wait
                &&& after.phase is Idle
                &&& after.has_player
                &&& after.shared.position == 0
                &&& after.shared.position_at(now) == 0
                &&& after.shared.generation == s.shared.generation
            }
            &&& s.shared.has_pending_seek ==> {
                &&& after.shared.position == s.shared.pending_seek
                &&& action matches ActionView::StartPlayer {
                    data,
                    skip_secs,
                    queue_item_id,
                    generation,
                    volume,
                } && data == s.data->0 && skip_secs == Some(s.shared.pending_seek)
                    && queue_item_id == s.queue_item_id && generation == after.shared.generation
                    && generation != s.shared.generation && volume == s.shared.volume
            }
        }),
{
}

/// A failure that opening the output again cannot cure is told of and leaves
/// everything else as it was.
pub proof fn other_failures_are_told_of(s: PlayerView, message: Seq<char>, now: u64)
    requires
        s.phase is PlayStarting,
        !is_recoverable(message),
    ensures
        ({
            let (after, action) = s.step(EventView::PlayerStarted(Err(message)), now);
            &&& action is Wait
            &&& after.phase is Idle
            &&& after.shared == (SharedState { stream_error: true, ..s.shared })
            &&& after.has_output == s.has_output
            &&& after.has_player == s.has_player
            &&& after.data == s.data
        }),
{
}

/// A second attempt that fails as well, at opening the output or at starting
/// the file, is told of, and nothing more is tried.
pub proof fn second_failure_ends_the_attempt(s: PlayerView, event: EventView, now: u64)
    requires
        (s.phase is PlayReopening && event == (EventView::OutputOpened { ok: false })) || (
        s.phase is PlayRestarting && event matches EventView::PlayerStarted(Err(_))),
    ensures
        ({
            let (after, action) = s.step(event, now);
            &&& action is Wait
            &&& after.phase is Idle
            &&& after.shared == (SharedState { stream_error: true, ..s.shared })
            &&& after.data == s.data
        }),
{
}

/// A track that is to follow is appended to what plays, under its own item and
/// the generation that plays; where nothing plays it is dropped.
pub proof fn following_track_is_appended(s: PlayerView, track: TrackView, now: u64)
    ensures
        ({
            let (after, action) = s.step(EventView::Command(CommandView::PlayNext(track)), now);
            &&& s.has_player ==> (action matches ActionView::AppendNext {
                data,
                queue_item_id,
                generation,
            } && data == track.data && queue_item_id == track.queue_item_id && generation
                == s.shared.generation)
            &&& !s.has_player ==> action is Wait && after.phase is Idle
            &&& after.shared == s.shared
            &&& after.next == s.next
            &&& after.data == s.data
            &&& after.queue_item_id == s.queue_item_id
        }),
{
}

/// A track that was appended is announced to follow, by its ids and its
/// duration; one that could not be appended is not.
pub proof fn appended_track_is_announced(s: PlayerView, track: TrackView, ok: bool, now: u64)
    requires
        s.has_player,
    ensures
        ({
            let asked = s.on_command(CommandView::PlayNext(track), now).0;
            let (after, action) = asked.step(EventView::NextAppended { ok }, now);
            &&& action is Wait
            &&& after.phase is Idle
            &&& ok ==> {
                &&& after.next == Some(track)
                &&& after.shared == (SharedState {
                    gapless_next_track_id: track.track_id,
                    gapless_next_queue_item_id: track.queue_item_id,
                    gapless_next_duration: track.duration_secs,
                    ..s.shared
                })
            }
            &&& !ok ==> after.next == s.next && after.shared == s.shared
            &&& after.data == s.data
            &&& after.has_player
        }),
{
}

/// The end of the current track makes the one that follows the current one, or
/// leaves the player without a track; the end of any other track, or of an
/// earlier start, is no news.
pub proof fn track_end_makes_way(s: PlayerView, queue_item_id: u64, generation: u64, now: u64)
    ensures
        ({
            let (after, action) = s.step(
                EventView::Command(CommandView::TrackEnded { queue_item_id, generation }),
                now,
            );
            let counts = s.queue_item_id == queue_item_id && s.shared.generation == generation;
            &&& action is Wait
            &&& after.shared == s.shared
            &&& after.has_output == s.has_output
            &&& !counts ==> after == s.idle()
            &&& counts ==> after.next is None && match s.next {
                Some(next) => {
                    &&& after.data == Some(next.data)
                    &&& after.track_id == next.track_id
                    &&& after.queue_item_id == next.queue_item_id
                    &&& after.has_player == s.has_player
                },
                None => {
                    &&& after.data is None
                    &&& after.track_id == 0
                    &&& after.queue_item_id == 0
                    &&& !after.has_player
                },
            }
        }),
{
}

/// A pause stops the time where it is and keeps the track, what follows it and
/// the volume; where nothing plays on the output it does nothing.
pub proof fn pause_stops_the_time(s: PlayerView, now: u64, later: u64)
    ensures
        ({
            let (after, action) = s.step(EventView::Command(CommandView::Pause), now);
            &&& s.has_player ==> {
                &&& action is PausePlayer
                &&& !after.shared.is_playing
                &&& !after.shared.gapless_ready
                &&& after.shared.position == s.shared.position_at(now)
                &&& after.shared.position_at(later) == s.shared.position_at(now)
                &&& after.shared.track_id == s.shared.track_id
                &&& after.shared.queue_item_id == s.shared.queue_item_id
                &&& after.shared.duration == s.shared.duration
                &&& after.shared.generation == s.shared.generation
                &&& after.shared.gapless_next_track_id == s.shared.gapless_next_track_id
            }
            &&& !s.has_player ==> action is Wait && after.shared == s.shared
            &&& after.has_player == s.has_player
            &&& after.data == s.data
            &&& after.next == s.next
        }),
{
}

/// A resume goes on from the kept position: with the player that is paused,
/// or, where that is gone, by starting the file from there; without a file or
/// an output it does nothing.
pub proof fn resume_goes_on_from_the_position(s: PlayerView, now: u64)
    requires
        !s.shared.is_playing,
    ensures
        ({
            let (after, action) = s.step(EventView::Command(CommandView::Resume), now);
            &&& s.has_player ==> {
                &&& action is ResumePlayer
                &&& after.shared.is_playing
                &&& after.shared.gapless_ready
                &&& after.shared.position == s.shared.position
                &&& after.shared.generation == s.shared.generation
                &&& after.next == s.next
            }
            &&& !s.has_player && s.data is Some && s.has_output ==> {
                &&& action matches ActionView::StartPlayer {
                    data,
                    skip_secs,
                    queue_item_id,
                    generation,
                    volume,
                } && data == s.data->0 && skip_secs == Some(s.shared.position) && queue_item_id
                    == s.queue_item_id && generation == after.shared.generation && generation
                    != s.shared.generation && volume == s.shared.volume
                &&& after.next is None
                &&& after.shared.gapless_next_track_id == 0
                &&& after.shared.position == s.shared.position
            }
            &&& !s.has_player && (s.data is None || !s.has_output) ==> {
                &&& action is Wait
                &&& after.shared == s.shared
            }
            &&& after.data == s.data
        }),
{
}

/// A resume that had to start the file plays from the kept position once the
/// start has gone well, or from the seek that waited meanwhile; where it has
/// not, playback stays where it was.
pub proof fn resumed_file_plays_from_the_position(
    s: PlayerView,
    outcome: Result<(), Seq<char>>,
    now: u64,
)
    requires
        s.phase is ResumeStarting,
        s.data is Some,
    ensures
        ({
            let (after, action) = s.step(EventView::PlayerStarted(outcome), now);
            let position = s.phase->ResumeStarting_position;
            &&& outcome is Err ==> {
                &&& action is Wait
                &&& after.phase is Idle
                &&& after.shared == s.shared
                &&& after.has_player == s.has_player
            }
            &&& outcome is Ok ==> {
                &&& after.shared.is_playing
                &&& after.shared.gapless_ready
                &&& after.has_player
                &&& !after.shared.has_pending_seek
                &&& !s.shared.has_pending_seek ==> action is Wait && after.phase is Idle
                    && after.shared.position == position
                &&& s.shared.has_pending_seek ==> after.shared.position == s.shared.pending_seek
                    && (action matches ActionView::StartPlayer {
                    data,
                    skip_secs,
                    queue_item_id,
                    generation,
                    ..
                } && data == s.data->0 && skip_secs == Some(s.shared.pending_seek)
                    && queue_item_id == s.queue_item_id && generation == after.shared.generation)
            }
        }),
{
}

/// The start that a waiting seek called for ends the command, whether it went
/// well or not, and does not change where playback is.
pub proof fn waiting_seek_ends_the_command(
    s: PlayerView,
    outcome: Result<(), Seq<char>>,
    now: u64,
)
    requires
        s.phase is PlaySeeking || s.phase is ResumeSeeking || s.phase is RecoverSeeking,
    ensures
        ({
            let (after, action) = s.step(EventView::PlayerStarted(outcome), now);
            &&& action is Wait
            &&& after.phase is Idle
            &&& after.shared == s.shared
            &&& outcome is Ok ==> after.has_player
            &&& outcome is Err ==> after.has_player == s.has_player
            &&& s.phase is RecoverSeeking ==> !after.recovering
            &&& !(s.phase is RecoverSeeking) ==> after.recovering == s.recovering
        }),
{
}

/// A stop keeps the volume, the output and what is known of the device, and
/// leaves nothing to follow and nothing to be started.
pub proof fn stop_keeps_volume_and_output(s: PlayerView, now: u64)
    ensures
        ({
            let after = s.on_command(CommandView::Stop, now).0;
            &&& after.shared.volume == s.shared.volume
            &&& after.shared.stream_error == s.shared.stream_error
            &&& after.shared.position == 0
            &&& after.shared.duration == 0
            &&& after.shared.queue_item_id == 0
            &&& !after.shared.has_loaded_audio
            &&& !after.shared.gapless_ready
            &&& after.shared.gapless_next_track_id == 0
            &&& after.shared.gapless_next_queue_item_id == 0
            &&& after.queue_item_id == 0
            &&& after.has_output == s.has_output
            &&& after.device == s.device
            &&& after.phase is Idle
        }),
{
}

/// A volume that is set is the volume from then on, for what plays and for
/// what will; nothing else changes.
pub proof fn set_volume_is_the_volume(s: PlayerView, percent: u32, now: u64)
    ensures
        ({
            let (after, action) = s.step(EventView::Command(CommandView::SetVolume(percent)), now);
            &&& after.shared == (SharedState { volume: percent, ..s.shared })
            &&& s.has_player ==> action == ActionView::SetPlayerVolume(percent)
            &&& !s.has_player ==> action is Wait
            &&& after.data == s.data
            &&& after.next == s.next
            &&& after.has_player == s.has_player
            &&& after.has_output == s.has_output
        }),
{
}

/// Nothing but a command to set it changes the volume.
pub proof fn only_setting_changes_the_volume(s: PlayerView, event: EventView, now: u64)
    requires
        !(event matches EventView::Command(CommandView::SetVolume(_))),
    ensures
        s.step(event, now).0.shared.volume == s.shared.volume,
{
    match event {
        EventView::Command(command) => {},
        EventView::PlayerStarted(outcome) => {},
        _ => {},
    }
}

/// Whether the current track is the same for two players, in all that is known
/// of it.
spec fn same_track(s: PlayerView, after: PlayerView) -> bool {
    &&& after.data == s.data
    &&& after.track_id == s.track_id
    &&& after.queue_item_id == s.queue_item_id
    &&& after.shared.track_id == s.shared.track_id
    &&& after.shared.queue_item_id == s.shared.queue_item_id
    &&& after.shared.duration == s.shared.duration
}

proof fn lemma_command_keeps_track(s: PlayerView, command: CommandView, now: u64)
    requires
        !(command is Play) && !(command is TrackEnded) && !(command is Stop),
    ensures
        same_track(s, s.on_command(command, now).0),
{
}

proof fn lemma_started_keeps_track(s: PlayerView, outcome: Result<(), Seq<char>>, now: u64)
    ensures
        same_track(s, s.on_player_started(outcome, now).0),
{
}

/// Nothing but a new track, the end of one and a stop changes which track is
/// the current one, its file or its duration.
pub proof fn track_stays_until_replaced(s: PlayerView, event: EventView, now: u64)
    requires
        event matches EventView::Command(command) ==> !(command is Play) && !(
        command is TrackEnded) && !(command is Stop),
    ensures
        s.step(event, now).0.data == s.data,
        s.step(event, now).0.track_id == s.track_id,
        s.step(event, now).0.queue_item_id == s.queue_item_id,
        s.step(event, now).0.shared.track_id == s.shared.track_id,
        s.step(event, now).0.shared.queue_item_id == s.shared.queue_item_id,
        s.step(event, now).0.shared.duration == s.shared.duration,
{
    match event {
        EventView::Command(command) => lemma_command_keeps_track(s, command, now),
        EventView::PlayerStarted(outcome) => lemma_started_keeps_track(s, outcome, now),
        _ => {},
    }
}

/// A recovery gives the output up and stands still where it was interrupted;
/// what was to follow is forgotten, and the track and the volume are kept.
pub proof fn recovery_stands_still(s: PlayerView, now: u64, later: u64)
    ensures
        ({
            let (after, action) = s.step(EventView::Command(CommandView::RecoverFromEio), now);
            &&& action == ActionView::CoolDown(500)
            &&& !after.has_output
            &&& !after.has_player
            &&& !after.shared.is_playing
            &&& after.shared.position == s.shared.position_at(now)
            &&& after.shared.position_at(later) == s.shared.position_at(now)
            &&& after.next is None
            &&& after.shared.gapless_next_track_id == 0
            &&& after.data == s.data
            &&& after.recovering == s.recovering
        }),
{
}

/// A recovery without a file ends with the output open; one whose output or
/// start fails is told of as an error.
pub proof fn failed_recovery_is_told_of(s: PlayerView, event: EventView, now: u64)
    requires
        (s.phase is RecoverReopening && event is OutputOpened && (s.data is None
            || event == (EventView::OutputOpened { ok: false }))) || (s.phase is RecoverStarting
            && event matches EventView::PlayerStarted(Err(_))),
    ensures
        ({
            let (after, action) = s.step(event, now);
            &&& action is Wait
            &&& after.phase is Idle
            &&& !after.recovering
            &&& event == (EventView::OutputOpened { ok: true }) ==> after.has_output
                && after.shared == s.shared
            &&& event != (EventView::OutputOpened { ok: true }) ==> after.shared == (SharedState {
                stream_error: true,
                ..s.shared
            })
        }),
{
}

/// The pause before the output is opened again ends with its opening, on the
/// chosen device.
pub proof fn output_is_opened_after_the_pause(s: PlayerView, now: u64)
    requires
        s.phase is PlayCooling || s.phase is RecoverCooling,
    ensures
        ({
            let (after, action) = s.step(EventView::CooledDown, now);
            &&& action == (ActionView::OpenOutput { device: s.device })
            &&& after.shared == s.shared
            &&& after.data == s.data
        }),
{
}

/// A player begins without output and track, at three quarters of the volume.
pub proof fn player_begins_empty(device: Option<Seq<char>>)
    ensures
        ({
            let s = PlayerView::initial(device);
            &&& s.device == device
            &&& !s.has_output
            &&& !s.has_player
            &&& s.data is None
            &&& s.next is None
            &&& !s.recovering
            &&& s.phase is Opening
            &&& s.shared.volume == 75
            &&& !s.shared.is_playing
            &&& s.shared.track_id == 0
        }),
{
}

/// What is told of playback is what there is: the track, its duration, the
/// volume, what follows, and the position reached by then; a quality of zero
/// is none.
pub proof fn playback_is_told_as_it_stands(state: SharedState, now: u64)
    ensures
        ({
            let event = event_at(state, now);
            &&& event.is_playing == state.is_playing
            &&& event.position == state.position_at(now)
            &&& event.duration == state.duration
            &&& event.track_id == state.track_id
            &&& event.queue_item_id == state.queue_item_id
            &&& event.volume == state.volume
            &&& event.gapless_ready == state.gapless_ready
            &&& event.gapless_next_track_id == state.gapless_next_track_id
            &&& event.gapless_next_queue_item_id == state.gapless_next_queue_item_id
            &&& match event.sample_rate {
                Some(rate) => rate > 0 && rate == state.sample_rate,
                None => state.sample_rate == 0,
            }
            &&& match event.bit_depth {
                Some(bits) => bits > 0 && bits == state.bit_depth,
                None => state.bit_depth == 0,
            }
        }),
{
}

/// What a file says of itself goes before what is supposed of it: without it a
/// file counts as stereo at 48 kHz in 16 bits, as long as its decoder says.
pub proof fn files_speak_for_themselves(
    metadata: AudioMetadata,
    message: Seq<char>,
    fallback: Option<u64>,
)
    ensures
        metadata_or_usual(Ok(metadata), fallback) == metadata,
        metadata_or_usual(Err(message), fallback).sample_rate == 48_000,
        metadata_or_usual(Err(message), fallback).channels == 2,
        metadata_or_usual(Err(message), fallback).bit_depth == Some(16u32),
        metadata_or_usual(Err(message), fallback).duration_secs == fallback,
        metadata.duration_secs matches Some(secs) ==> next_duration(Ok(metadata), fallback) == secs,
        metadata.duration_secs is None ==> next_duration(Ok(metadata), fallback) == next_duration(
            Err(message),
            fallback,
        ),
        fallback matches Some(secs) ==> next_duration(Err(message), fallback) == secs,
        fallback is None ==> next_duration(Err(message), fallback) == 0,
{
}

/// A failure counts as curable wherever its message names an I/O error of the
/// output, whatever else it says.
pub proof fn io_errors_are_curable(before: Seq<char>, after: Seq<char>)
    ensures
        is_recoverable(before + "EIO"@ + after),
        is_recoverable(before + "I/O error"@ + after),
        is_recoverable(before + "snd_pcm_poll_descriptors"@ + after),
        is_recoverable(before + "backend-specific error"@ + after),
        is_recoverable(before + "Unknown errno"@ + after),
        is_recoverable(before + "(-5)"@ + after),
{
    lemma_stands_between(before, "EIO"@, after);
    lemma_stands_between(before, "I/O error"@, after);
    lemma_stands_between(before, "snd_pcm_poll_descriptors"@, after);
    lemma_stands_between(before, "backend-specific error"@, after);
    lemma_stands_between(before, "Unknown errno"@, after);
    lemma_stands_between(before, "(-5)"@, after);
}

proof fn lemma_stands_between(before: Seq<char>, needle: Seq<char>, after: Seq<char>)
    ensures
        text::contains_text(before + needle + after, needle),
{
    let all = before + needle + after;
    let at = before.len() as int;
    assert(all.subrange(at, at + needle.len()) =~= needle);
}

/// A failure whose message names no I/O error of the output is not curable.
pub proof fn only_io_errors_are_curable(message: Seq<char>)
    requires
        forall|i: int, j: int|
            0 <= i <= j <= message.len() ==> {
                let part = #[trigger] message.subrange(i, j);
                &&& part != "EIO"@
                &&& part != "I/O error"@
                &&& part != "snd_pcm_poll_descriptors"@
                &&& part != "backend-specific error"@
                &&& part != "Unknown errno"@
                &&& part != "(-5)"@
            },
    ensures
        !is_recoverable(message),
{
}

/// What is said of a command, of an event or of an action is what it is.
pub proof fn commands_and_actions_are_said_as_they_are(
    command: AudioCommand,
    event: PlayerEvent,
    action: PlayerAction,
)
    ensures
        match command {
            AudioCommand::Play(track) => command@ matches CommandView::Play(said) && said
                == track@,
            AudioCommand::PlayNext(track) => command@ matches CommandView::PlayNext(said) && said
                == track@,
            AudioCommand::TrackEnded { queue_item_id, generation } => command@ == (
            CommandView::TrackEnded { queue_item_id, generation }),
            AudioCommand::Pause => command@ is Pause,
            AudioCommand::Resume => command@ is Resume,
            AudioCommand::Stop => command@ is Stop,
            AudioCommand::SetVolume(percent) => command@ == CommandView::SetVolume(percent),
            AudioCommand::Seek(secs) => command@ == CommandView::Seek(secs),
            AudioCommand::RecoverFromEio => command@ is RecoverFromEio,
        },
        match event {
            PlayerEvent::Command(told) => event@ == EventView::Command(told@),
            PlayerEvent::OutputOpened { ok } => event@ == (EventView::OutputOpened { ok }),
            PlayerEvent::PlayerStarted(outcome) => event@ matches EventView::PlayerStarted(said) && (
            outcome is Ok <==> said is Ok) && (outcome matches Err(message) ==> said == Err::<
                (),
                Seq<char>,
            >(message@)),
            PlayerEvent::NextAppended { ok } => event@ == (EventView::NextAppended { ok }),
            PlayerEvent::CooledDown => event@ is CooledDown,
        },
        match action {
            PlayerAction::Wait => action@ is Wait,
            PlayerAction::OpenOutput { device } => action@ matches ActionView::OpenOutput {
                device: said,
            } && match device {
                Some(name) => said == Some(name@),
                None => said is None,
            },
            PlayerAction::StartPlayer { data, skip_secs, queue_item_id, generation, volume } =>
                action@ == (ActionView::StartPlayer {
                data: data@,
                skip_secs,
                queue_item_id,
                generation,
                volume,
            }),
            PlayerAction::AppendNext { data, queue_item_id, generation } => action@ == (
            ActionView::AppendNext { data: data@, queue_item_id, generation }),
            PlayerAction::PausePlayer => action@ is PausePlayer,
            PlayerAction::ResumePlayer => action@ is ResumePlayer,
            PlayerAction::SetPlayerVolume(percent) => action@ == ActionView::SetPlayerVolume(
                percent,
            ),
            PlayerAction::CoolDown(ms) => action@ == ActionView::CoolDown(ms),
        },
{
}

/// What is said of a track is its file, its ids and its duration.
pub proof fn tracks_are_said_as_they_are(track: QueuedTrack)
    ensures
        track@.data == track.data@,
        track@.track_id == track.track_id,
        track@.queue_item_id == track.queue_item_id,
        track@.duration_secs == track.duration_secs,
{
}

/// A new track changes of what is shared only what it brings: its ids and its
/// duration, its quality, a new generation, and that nothing follows it; until
/// it is started, playback goes on as it was.
pub proof fn new_track_brings_only_its_own(s: PlayerView, track: TrackView, now: u64)
    ensures
        ({
            let after = s.on_command(CommandView::Play(track), now).0;
            &&& after.shared == (SharedState {
                generation: after.shared.generation,
                sample_rate: after.shared.sample_rate,
                bit_depth: after.shared.bit_depth,
                track_id: track.track_id,
                queue_item_id: track.queue_item_id,
                duration: track.duration_secs,
                gapless_next_track_id: 0,
                gapless_next_queue_item_id: 0,
                gapless_next_duration: 0,
                ..s.shared
            })
            &&& after.recovering == s.recovering
            &&& after.candidate is None
            &&& s.has_output ==> after.phase is PlayStarting
            &&& !s.has_output ==> after.phase is PlayOpening
        }),
{
}

/// A seek, a stop and a recovery change of what is shared only what they are
/// about, and a new generation.
pub proof fn restarts_change_only_what_they_are_about(s: PlayerView, secs: u64, now: u64)
    ensures
        s.data is Some ==> {
            let after = s.on_command(CommandView::Seek(secs), now).0;
            &&& after.shared == (SharedState {
                generation: after.shared.generation,
                position: secs,
                playback_start_time: Some(now),
                is_playing: true,
                gapless_next_track_id: 0,
                gapless_next_queue_item_id: 0,
                gapless_next_duration: 0,
                ..s.shared
            })
            &&& after.recovering == s.recovering
            &&& s.has_output ==> after.phase is SeekStarting
            &&& !s.has_output ==> after.phase is Idle
        },
        ({
            let after = s.on_command(CommandView::Stop, now).0;
            &&& after.shared == (SharedState {
                generation: after.shared.generation,
                position: 0,
                playback_start_time: None,
                is_playing: false,
                has_loaded_audio: false,
                gapless_ready: false,
                track_id: 0,
                queue_item_id: 0,
                duration: 0,
                gapless_next_track_id: 0,
                gapless_next_queue_item_id: 0,
                gapless_next_duration: 0,
                ..s.shared
            })
            &&& after.recovering == s.recovering
        }),
        ({
            let after = s.on_command(CommandView::RecoverFromEio, now).0;
            &&& after.shared == (SharedState {
                generation: after.shared.generation,
                position: s.shared.position_at(now),
                is_playing: false,
                gapless_next_track_id: 0,
                gapless_next_queue_item_id: 0,
                gapless_next_duration: 0,
                ..s.shared
            })
            &&& after.phase == (Phase::RecoverCooling { position: s.shared.position_at(now) })
            &&& after.track_id == s.track_id
            &&& after.queue_item_id == s.queue_item_id
        }),
{
}

/// A pause and a resume change of what is shared only whether and from where it
/// plays, and whether a track may follow.
pub proof fn pause_and_resume_change_only_the_playing(s: PlayerView, now: u64)
    requires
        s.has_player,
    ensures
        s.on_command(CommandView::Pause, now).0.shared == (SharedState {
            position: s.shared.position_at(now),
            playback_start_time: None,
            is_playing: false,
            gapless_ready: false,
            ..s.shared
        }),
        !s.shared.is_playing ==> s.on_command(CommandView::Resume, now).0.shared == (SharedState {
            playback_start_time: Some(now),
            is_playing: true,
            gapless_ready: true,
            ..s.shared
        }),
        s.on_command(CommandView::Pause, now).0.phase is Idle,
        s.on_command(CommandView::Resume, now).0.phase is Idle,
{
}

/// A resume without a player waits for the file to be started, at the position
/// that it remembers.
pub proof fn resume_remembers_the_position(s: PlayerView, now: u64)
    requires
        !s.shared.is_playing,
        !s.has_player,
        s.data is Some,
        s.has_output,
    ensures
        ({
            let after = s.on_command(CommandView::Resume, now).0;
            &&& after.phase == (Phase::ResumeStarting { position: s.shared.position })
            &&& after.shared == (SharedState {
                generation: after.shared.generation,
                gapless_next_track_id: 0,
                gapless_next_queue_item_id: 0,
                gapless_next_duration: 0,
                ..s.shared
            })
        }),
{
}

/// The second attempt at a track starts it from its beginning as the first did,
/// and it then plays as any track does.
pub proof fn second_attempt_is_like_the_first(s: PlayerView, now: u64)
    requires
        s.data is Some,
    ensures
        s.phase is PlayReopening ==> {
            let (after, action) = s.step(EventView::OutputOpened { ok: true }, now);
            &&& after.phase is PlayRestarting
            &&& after.has_output
            &&& after.shared == s.shared
            &&& action == (ActionView::StartPlayer {
                data: s.data->0,
                skip_secs: None,
                queue_item_id: s.queue_item_id,
                generation: s.shared.generation,
                volume: s.shared.volume,
            })
        },
        s.phase is PlayRestarting ==> {
            let (after, action) = s.step(EventView::PlayerStarted(Ok(())), now);
            &&& action is Wait
            &&& after.phase is Idle
            &&& after.has_player
            &&& after.shared == (SharedState {
                position: 0,
                playback_start_time: Some(now),
                is_playing: true,
                gapless_ready: true,
                has_loaded_audio: true,
                stream_error: false,
                ..s.shared
            })
        },
{
}

/// A track that is recovered plays from where it was interrupted, or from the
/// seek that waited meanwhile, and counts as loaded without error.
pub proof fn recovered_track_plays(s: PlayerView, now: u64)
    requires
        s.phase is RecoverStarting,
        s.data is Some,
        s.has_output,
    ensures
        ({
            let (after, action) = s.step(EventView::PlayerStarted(Ok(())), now);
            let position = s.phase->RecoverStarting_position;
            &&& after.shared.is_playing
            &&& after.shared.has_loaded_audio
            &&& after.shared.gapless_ready
            &&& !after.shared.stream_error
            &&& !after.shared.has_pending_seek
            &&& after.has_player
            &&& !s.shared.has_pending_seek ==> {
                &&& action is Wait
                &&& after.phase is Idle
                &&& !after.recovering
                &&& after.shared.position == position
                &&& after.shared.playback_start_time == Some(now)
            }
            &&& s.shared.has_pending_seek ==> {
                &&& after.phase is RecoverSeeking
                &&& after.recovering == s.recovering
                &&& after.shared.position == s.shared.pending_seek
                &&& action == (ActionView::StartPlayer {
                    data: s.data->0,
                    skip_secs: Some(s.shared.pending_seek),
                    queue_item_id: s.queue_item_id,
                    generation: after.shared.generation,
                    volume: s.shared.volume,
                })
                &&& after.shared.generation != s.shared.generation
            }
        }),
{
}

/// What waits for the output remembers what for: a track to be started, or the
/// position that a recovery goes on from.
pub proof fn reopening_remembers_what_it_is_for(s: PlayerView, now: u64)
    ensures
        s.phase is PlayCooling ==> s.step(EventView::CooledDown, now).0.phase is PlayReopening,
        s.phase matches Phase::RecoverCooling { position } ==> s.step(
            EventView::CooledDown,
            now,
        ).0.phase == (Phase::RecoverReopening { position }),
        s.phase matches Phase::RecoverReopening { position } ==> (s.data is Some ==> s.step(
            EventView::OutputOpened { ok: true },
            now,
        ).0.phase == (Phase::RecoverStarting { position })),
        s.phase is PlayOpening ==> s.step(EventView::OutputOpened { ok: true }, now).0.phase
            is PlayStarting,
{
}

/// Nothing but the end of a recovery changes that one is under way.
pub proof fn only_a_recovery_ends_recovering(s: PlayerView, event: EventView, now: u64)
    requires
        !(s.phase is RecoverReopening),
        !(s.phase is RecoverStarting),
        !(s.phase is RecoverSeeking),
    ensures
        s.step(event, now).0.recovering == s.recovering,
{
    match event {
        EventView::Command(command) => {},
        EventView::PlayerStarted(outcome) => {},
        _ => {},
    }
}

} // verus!
