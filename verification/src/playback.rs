//! What this renderer plays, as its controllers are told, and how commands
//! change it.

use vstd::prelude::*;

use crate::app_types::{
    QConnectRendererState, RendererCommand, RendererCommandView, RendererStateView,
};
use crate::clock;
use crate::player::PlaybackEvent;
use crate::protocol::{
    AUDIO_QUALITY_HIRES_LEVEL2, PLAYING_STATE_PAUSED, PLAYING_STATE_PLAYING,
    PLAYING_STATE_STOPPED,
};
use crate::quality;
use crate::quality::Quality;
use crate::queue;
use crate::queue::{QueueItem, QueueItemView};
use crate::shared_state;

verus! {

/// `n`, kept between 0 and 100.
pub open spec fn percent(n: int) -> i32 {
    if n < 0 {
        0
    } else if n > 100 {
        100
    } else {
        n as i32
    }
}

pub fn clamp_percent(n: i32) -> (r: i32)
    ensures
        r == percent(n as int),
{
    if n < 0 {
        0
    } else if n > 100 {
        100
    } else {
        n
    }
}

/// The volume after a change by `delta`.
pub fn adjust_percent(volume: i32, delta: i32) -> (r: i32)
    ensures
        r == percent(volume + delta),
{
    let wide: i64 = volume as i64 + delta as i64;
    if wide < 0 {
        0
    } else if wide > 100 {
        100
    } else {
        wide as i32
    }
}

/// What the audio output is to do.
#[derive(Debug, PartialEq, Eq)]
pub enum AudioAction {
    Play { track: QueueItem, position_ms: u64, max_audio_quality: i32 },
    Resume,
    Pause,
    Stop,
    /// In milliseconds.
    Seek(u64),
    Volume { volume: i32, muted: bool },
}

/// What such an action says.
pub enum AudioActionView {
    Play { track: QueueItemView, position_ms: u64, max_audio_quality: i32 },
    Resume,
    Pause,
    Stop,
    Seek(u64),
    Volume { volume: i32, muted: bool },
}

impl View for AudioAction {
    type V = AudioActionView;

    open spec fn view(&self) -> AudioActionView {
        match *self {
            AudioAction::Play { track, position_ms, max_audio_quality } => AudioActionView::Play {
                track: track@,
                position_ms,
                max_audio_quality,
            },
            AudioAction::Resume => AudioActionView::Resume,
            AudioAction::Pause => AudioActionView::Pause,
            AudioAction::Stop => AudioActionView::Stop,
            AudioAction::Seek(position_ms) => AudioActionView::Seek(position_ms),
            AudioAction::Volume { volume, muted } => AudioActionView::Volume { volume, muted },
        }
    }
}

pub open spec fn action_view(action: Option<AudioAction>) -> Option<AudioActionView> {
    match action {
        Some(a) => Some(a@),
        None => None,
    }
}

/// What this renderer plays. `updated_at` is a reading of the clock.
#[derive(Debug, PartialEq, Eq)]
pub struct PlaybackState {
    pub playing_state: i32,
    pub current_position_ms: u64,
    pub duration_ms: u64,
    pub current_track: Option<QueueItem>,
    pub next_track: Option<QueueItem>,
    pub volume: i32,
    pub muted: bool,
    pub max_audio_quality: i32,
    pub updated_at: u64,
}

pub struct PlaybackView {
    pub playing_state: i32,
    pub current_position_ms: u64,
    pub duration_ms: u64,
    pub current_track: Option<QueueItemView>,
    pub next_track: Option<QueueItemView>,
    pub volume: i32,
    pub muted: bool,
    pub max_audio_quality: i32,
    pub updated_at: u64,
}

impl View for PlaybackState {
    type V = PlaybackView;

    open spec fn view(&self) -> PlaybackView {
        PlaybackView {
            playing_state: self.playing_state,
            current_position_ms: self.current_position_ms,
            duration_ms: self.duration_ms,
            current_track: queue::item_view(self.current_track),
            next_track: queue::item_view(self.next_track),
            volume: self.volume,
            muted: self.muted,
            max_audio_quality: self.max_audio_quality,
            updated_at: self.updated_at,
        }
    }
}

/// How playback stands, as the controllers are told.
#[derive(Debug, Clone, Copy, PartialEq, Eq, Structural)]
pub struct PlaybackSnapshot {
    pub playing_state: i32,
    pub current_position_ms: u64,
    pub duration_ms: u64,
    pub finished: bool,
}

pub open spec fn either<T>(new: Option<T>, old: Option<T>) -> Option<T> {
    match new {
        Some(value) => Some(value),
        None => old,
    }
}

/// `secs` in milliseconds, as far as they fit.
pub open spec fn in_millis(secs: u64) -> u64 {
    if secs * 1000 > u64::MAX {
        u64::MAX
    } else {
        (secs * 1000) as u64
    }
}

impl PlaybackView {
    /// Nothing played yet, at full volume.
    pub open spec fn initial(now: u64) -> PlaybackView {
        PlaybackView {
            playing_state: PLAYING_STATE_STOPPED,
            current_position_ms: 0,
            duration_ms: 0,
            current_track: None,
            next_track: None,
            volume: 100,
            muted: false,
            max_audio_quality: AUDIO_QUALITY_HIRES_LEVEL2,
            updated_at: now,
        }
    }

    /// What holds of every playback state: the volume is a percentage.
    pub open spec fn wf(self) -> bool {
        0 <= self.volume <= 100
    }

    /// After the part of a state command that was given; what was not given
    /// stays.
    pub open spec fn with_state(
        self,
        playing_state: Option<i32>,
        current_position_ms: Option<u64>,
        current_track: Option<QueueItemView>,
        next_track: Option<QueueItemView>,
        now: u64,
    ) -> PlaybackView {
        PlaybackView {
            playing_state: match playing_state {
                Some(value) => value,
                None => self.playing_state,
            },
            current_position_ms: match current_position_ms {
                Some(value) => value,
                None => self.current_position_ms,
            },
            current_track: either(current_track, self.current_track),
            next_track: either(next_track, self.next_track),
            updated_at: now,
            ..self
        }
    }

    /// What the output does about a state command that led to this state.
    pub open spec fn state_action(
        self,
        playing_state: Option<i32>,
        current_position_ms: Option<u64>,
    ) -> Option<AudioActionView> {
        if playing_state == Some(PLAYING_STATE_PLAYING) {
            Some(
                match self.current_track {
                    Some(track) => AudioActionView::Play {
                        track,
                        position_ms: self.current_position_ms,
                        max_audio_quality: self.max_audio_quality,
                    },
                    None => AudioActionView::Resume,
                },
            )
        } else if playing_state == Some(PLAYING_STATE_PAUSED) {
            Some(AudioActionView::Pause)
        } else if playing_state == Some(PLAYING_STATE_STOPPED) {
            Some(AudioActionView::Stop)
        } else {
            match current_position_ms {
                Some(position_ms) => Some(AudioActionView::Seek(position_ms)),
                None => None,
            }
        }
    }

    /// The volume after a volume command: first what it is set to, then by how
    /// much it changes.
    pub open spec fn volume_after(self, volume: Option<i32>, volume_delta: Option<i32>) -> i32 {
        let set = match volume {
            Some(value) => percent(value as int),
            None => self.volume,
        };
        match volume_delta {
            Some(delta) => percent(set + delta),
            None => set,
        }
    }

    pub open spec fn volume_action(self) -> Option<AudioActionView> {
        Some(AudioActionView::Volume { volume: self.volume, muted: self.muted })
    }

    /// The state after a command, and what the output does about it.
    pub open spec fn on_command(self, command: RendererCommandView, now: u64) -> (
        PlaybackView,
        Option<AudioActionView>,
    ) {
        match command {
            RendererCommandView::SetState {
                playing_state,
                current_position_ms,
                current_track,
                next_track,
            } => {
                let after = self.with_state(
                    playing_state,
                    current_position_ms,
                    current_track,
                    next_track,
                    now,
                );
                (after, after.state_action(playing_state, current_position_ms))
            },
            RendererCommandView::SetVolume { volume, volume_delta } => {
                let after = PlaybackView {
                    volume: self.volume_after(volume, volume_delta),
                    ..self
                };
                (after, after.volume_action())
            },
            RendererCommandView::MuteVolume { value } => {
                let after = PlaybackView { muted: value, ..self };
                (after, after.volume_action())
            },
            RendererCommandView::SetMaxAudioQuality { max_audio_quality } => (
                PlaybackView { max_audio_quality, ..self },
                None,
            ),
            _ => (self, None),
        }
    }

    /// After news of the renderer: the tracks that it names.
    pub open spec fn on_renderer(self, renderer: RendererStateView) -> PlaybackView {
        PlaybackView {
            current_track: either(renderer.current_track, self.current_track),
            next_track: either(renderer.next_track, self.next_track),
            ..self
        }
    }

    /// How playback stands at `now` without an audio output: while it plays,
    /// the time since the last change counts.
    pub open spec fn snapshot_at(self, now: u64) -> PlaybackSnapshot {
        let elapsed = if self.playing_state == PLAYING_STATE_PLAYING {
            clock::units_between(self.updated_at, now, clock::NANOS_PER_MILLI)
        } else {
            0
        };
        PlaybackSnapshot {
            playing_state: self.playing_state,
            current_position_ms: shared_state::saturated(
                self.current_position_ms as int,
                elapsed,
            ) as u64,
            duration_ms: self.duration_ms,
            finished: false,
        }
    }

    /// Whether the track that the controllers believe to be playing has played
    /// to its end.
    pub open spec fn finished(self, event: PlaybackEvent) -> bool {
        &&& self.current_track matches Some(track) && track.track_id == event.track_id
        &&& !event.is_playing
        &&& self.playing_state == PLAYING_STATE_PLAYING
        &&& event.duration > 0
        &&& event.position >= event.duration
    }

    /// How playback stands with an audio output that reports `event`.
    pub open spec fn snapshot_of(self, event: PlaybackEvent, now: u64) -> PlaybackSnapshot {
        if event.track_id == 0 {
            self.snapshot_at(now)
        } else {
            PlaybackSnapshot {
                playing_state: if event.is_playing {
                    PLAYING_STATE_PLAYING
                } else if self.finished(event) {
                    PLAYING_STATE_STOPPED
                } else {
                    self.playing_state
                },
                current_position_ms: in_millis(event.position),
                duration_ms: in_millis(event.duration),
                finished: self.finished(event),
            }
        }
    }
}

impl PlaybackState {
    pub fn new(now: u64) -> (r: PlaybackState)
        ensures
            r@ == PlaybackView::initial(now),
            r@.wf(),
    {
        PlaybackState {
            playing_state: PLAYING_STATE_STOPPED,
            current_position_ms: 0,
            duration_ms: 0,
            current_track: None,
            next_track: None,
            volume: 100,
            muted: false,
            max_audio_quality: AUDIO_QUALITY_HIRES_LEVEL2,
            updated_at: now,
        }
    }

    fn apply_state(
        &mut self,
        playing_state: Option<i32>,
        current_position_ms: Option<u64>,
        current_track: &Option<QueueItem>,
        next_track: &Option<QueueItem>,
        now: u64,
    ) -> (r: Option<AudioAction>)
        ensures
            final(self)@ == old(self)@.with_state(
                playing_state,
                current_position_ms,
                queue::item_view(*current_track),
                queue::item_view(*next_track),
                now,
            ),
            action_view(r) == final(self)@.state_action(playing_state, current_position_ms),
    {
        if let Some(value) = playing_state {
            self.playing_state = value;
        }
        if let Some(value) = current_position_ms {
            self.current_position_ms = value;
        }
        if current_track.is_some() {
            self.current_track = queue::clone_item(current_track);
        }
        if next_track.is_some() {
            self.next_track = queue::clone_item(next_track);
        }
        self.updated_at = now;
        let asked: i32 = match playing_state {
            Some(value) => value,
            None => 0,
        };
        if asked == PLAYING_STATE_PLAYING {
            match queue::clone_item(&self.current_track) {
                Some(track) => Some(
                    AudioAction::Play {
                        track,
                        position_ms: self.current_position_ms,
                        max_audio_quality: self.max_audio_quality,
                    },
                ),
                None => Some(AudioAction::Resume),
            }
        } else if asked == PLAYING_STATE_PAUSED {
            Some(AudioAction::Pause)
        } else if asked == PLAYING_STATE_STOPPED {
            Some(AudioAction::Stop)
        } else {
            match current_position_ms {
                Some(position_ms) => Some(AudioAction::Seek(position_ms)),
                None => None,
            }
        }
    }

    /// Takes a command at `now` and says what the audio output does about it.
    pub fn apply_renderer_command(&mut self, command: &RendererCommand, now: u64) -> (r: Option<
        AudioAction,
    >)
        ensures
            (final(self)@, action_view(r)) == old(self)@.on_command(command@, now),
    {
        match command {
            RendererCommand::SetState {
                playing_state,
                current_position_ms,
                current_track,
                next_track,
            } => self.apply_state(
                *playing_state,
                *current_position_ms,
                current_track,
                next_track,
                now,
            ),
            RendererCommand::SetVolume { volume, volume_delta } => {
                if let Some(value) = volume {
                    self.volume = clamp_percent(*value);
                }
                if let Some(delta) = volume_delta {
                    self.volume = adjust_percent(self.volume, *delta);
                }
                Some(AudioAction::Volume { volume: self.volume, muted: self.muted })
            },
            RendererCommand::MuteVolume { value } => {
                self.muted = *value;
                Some(AudioAction::Volume { volume: self.volume, muted: self.muted })
            },
            RendererCommand::SetMaxAudioQuality { max_audio_quality } => {
                self.max_audio_quality = *max_audio_quality;
                None
            },
            RendererCommand::SetActive { .. }
            | RendererCommand::SetLoopMode { .. }
            | RendererCommand::SetShuffleMode { .. } => None,
        }
    }

    /// Takes news of the renderer: the tracks that it names.
    pub fn apply_renderer_state(&mut self, renderer: QConnectRendererState)
        ensures
            final(self)@ == old(self)@.on_renderer(renderer@),
    {
        if renderer.current_track.is_some() {
            self.current_track = renderer.current_track;
        }
        if renderer.next_track.is_some() {
            self.next_track = renderer.next_track;
        }
    }

    /// How playback stands at `now` without an audio output.
    pub fn snapshot(&self, now: u64) -> (r: PlaybackSnapshot)
        ensures
            r == self@.snapshot_at(now),
    {
        let elapsed: u64 = if self.playing_state == PLAYING_STATE_PLAYING {
            clock::millis_between(self.updated_at, now)
        } else {
            0
        };
        PlaybackSnapshot {
            playing_state: self.playing_state,
            current_position_ms: self.current_position_ms.saturating_add(elapsed),
            duration_ms: self.duration_ms,
            finished: false,
        }
    }

    /// How playback stands with an audio output that reports `event`.
    pub fn audio_snapshot(&self, event: &PlaybackEvent, now: u64) -> (r: PlaybackSnapshot)
        ensures
            r == self@.snapshot_of(*event, now),
    {
        if event.track_id == 0 {
            return self.snapshot(now);
        }
        let matches_renderer_track = match &self.current_track {
            Some(track) => track.track_id == event.track_id,
            None => false,
        };
        let finished = matches_renderer_track && !event.is_playing && self.playing_state
            == PLAYING_STATE_PLAYING && event.duration > 0 && event.position >= event.duration;
        PlaybackSnapshot {
            playing_state: if event.is_playing {
                PLAYING_STATE_PLAYING
            } else if finished {
                PLAYING_STATE_STOPPED
            } else {
                self.playing_state
            },
            current_position_ms: millis(event.position),
            duration_ms: millis(event.duration),
            finished,
        }
    }
}

fn millis(secs: u64) -> (r: u64)
    ensures
        r == in_millis(secs),
{
    match secs.checked_mul(1000) {
        Some(ms) => ms,
        None => u64::MAX,
    }
}

/// The position that media controls show beside a snapshot, in seconds.
pub open spec fn shown_position(snapshot: PlaybackSnapshot, event: PlaybackEvent) -> u64 {
    if event.track_id == 0 {
        snapshot.current_position_ms / 1000
    } else {
        event.position
    }
}

pub fn shown_position_secs(snapshot: &PlaybackSnapshot, event: &PlaybackEvent) -> (r: u64)
    ensures
        r == shown_position(*snapshot, *event),
{
    if event.track_id == 0 {
        snapshot.current_position_ms / 1000
    } else {
        event.position
    }
}

// ---------------------------------------------------------------------------
// The audio output
// ---------------------------------------------------------------------------

/// How a track is made to play.
#[derive(Debug, Clone, Copy, PartialEq, Eq, Structural)]
pub enum PlayPlan {
    /// It is loaded: seek to that second, when one is named, and resume.
    Continue { seek_secs: Option<u64> },
    /// It is fetched in this quality.
    Load { quality: Quality },
}

/// The second at which playback of a track begins that is to start at
/// `position_ms`; none for its beginning.
pub open spec fn start_secs(position_ms: u64) -> Option<u64> {
    if position_ms > 0 {
        Some(position_ms / 1000)
    } else {
        None
    }
}

pub fn seek_secs_for(position_ms: u64) -> (r: Option<u64>)
    ensures
        r == start_secs(position_ms),
{
    if position_ms > 0 {
        Some(position_ms / 1000)
    } else {
        None
    }
}

/// How a track is made to play on an output that has `loaded_track` in it.
pub open spec fn play_plan(
    loaded_track: Option<u64>,
    track_id: u64,
    position_ms: u64,
    preferred: Quality,
    max_audio_quality: i32,
) -> PlayPlan {
    if loaded_track == Some(track_id) {
        PlayPlan::Continue { seek_secs: start_secs(position_ms) }
    } else {
        PlayPlan::Load { quality: quality::allowed_quality(preferred, max_audio_quality) }
    }
}

/// Decides how a track is made to play on an output that reports `event` and
/// has audio loaded or not.
pub fn plan_play(
    event: &PlaybackEvent,
    has_loaded_audio: bool,
    track: &QueueItem,
    position_ms: u64,
    preferred: Quality,
    max_audio_quality: i32,
) -> (r: PlayPlan)
    ensures
        r == play_plan(
            if has_loaded_audio {
                Some(event.track_id)
            } else {
                None
            },
            track.track_id,
            position_ms,
            preferred,
            max_audio_quality,
        ),
{
    if event.track_id == track.track_id && has_loaded_audio {
        PlayPlan::Continue { seek_secs: seek_secs_for(position_ms) }
    } else {
        PlayPlan::Load { quality: quality::playback_quality(preferred, max_audio_quality) }
    }
}

/// The volume that the output is set to, in percent: none while muted.
pub fn output_volume(volume: i32, muted: bool) -> (r: i32)
    ensures
        r == (if muted {
            0i32
        } else {
            percent(volume as int)
        }),
{
    if muted {
        0
    } else {
        clamp_percent(volume)
    }
}

// ---------------------------------------------------------------------------
// Laws
// ---------------------------------------------------------------------------

/// No command takes the volume out of its range.
pub proof fn volume_stays_a_percentage(s: PlaybackView, command: RendererCommandView, now: u64)
    requires
        s.wf(),
    ensures
        s.on_command(command, now).0.wf(),
{
}

/// A volume that is set is what the volume is, whatever it was, and setting it
/// twice is setting it once.
pub proof fn set_volume_is_absolute(s: PlaybackView, value: i32, now: u64)
    requires
        0 <= value <= 100,
    ensures
        ({
            let command = RendererCommandView::SetVolume { volume: Some(value), volume_delta: None };
            let once = s.on_command(command, now).0;
            &&& once.volume == value
            &&& once.on_command(command, now).0 == once
        }),
{
}

/// Muting keeps the volume for when it is over.
pub proof fn muting_keeps_the_volume(s: PlaybackView, now: u64)
    ensures
        ({
            let muted = s.on_command(RendererCommandView::MuteVolume { value: true }, now).0;
            let after = muted.on_command(RendererCommandView::MuteVolume { value: false }, now).0;
            &&& muted.volume == s.volume
            &&& muted.muted
            &&& after == (PlaybackView { muted: false, ..s })
        }),
{
}

/// A state command that says nothing changes nothing but the moment of the
/// last change, and the output does nothing.
pub proof fn empty_state_command_changes_nothing(s: PlaybackView, now: u64)
    ensures
        ({
            let command = RendererCommandView::SetState {
                playing_state: None,
                current_position_ms: None,
                current_track: None,
                next_track: None,
            };
            s.on_command(command, now) == (
                PlaybackView { updated_at: now, ..s },
                None::<AudioActionView>,
            )
        }),
{
}

/// A command to play plays the track that it names, from the position that it
/// names.
pub proof fn play_command_plays_what_it_names(
    s: PlaybackView,
    track: QueueItemView,
    position_ms: u64,
    now: u64,
)
    ensures
        ({
            let command = RendererCommandView::SetState {
                playing_state: Some(PLAYING_STATE_PLAYING),
                current_position_ms: Some(position_ms),
                current_track: Some(track),
                next_track: None,
            };
            s.on_command(command, now).1 == Some(
                AudioActionView::Play {
                    track,
                    position_ms,
                    max_audio_quality: s.max_audio_quality,
                },
            )
        }),
{
}

/// A track once known is never forgotten.
pub proof fn tracks_are_not_forgotten(
    s: PlaybackView,
    command: RendererCommandView,
    renderer: RendererStateView,
    now: u64,
)
    ensures
        s.current_track is Some ==> s.on_command(command, now).0.current_track is Some,
        s.next_track is Some ==> s.on_command(command, now).0.next_track is Some,
        s.current_track is Some ==> s.on_renderer(renderer).current_track is Some,
        s.next_track is Some ==> s.on_renderer(renderer).next_track is Some,
{
}

/// A track counts as finished only while its controllers believe that it
/// plays, and it is then reported as stopped at its end.
pub proof fn finished_tracks_are_reported_stopped(s: PlaybackView, event: PlaybackEvent, now: u64)
    ensures
        s.snapshot_of(event, now).finished ==> {
            &&& s.playing_state == PLAYING_STATE_PLAYING
            &&& s.snapshot_of(event, now).playing_state == PLAYING_STATE_STOPPED
            &&& s.snapshot_of(event, now).current_position_ms >= s.snapshot_of(
                event,
                now,
            ).duration_ms
            &&& s.current_track matches Some(track) && track.track_id == event.track_id
        },
{
}

/// Without an audio output the reported position never goes back while
/// nothing changes, and stands still unless the track plays.
pub proof fn reported_position_is_monotonic(s: PlaybackView, now: u64, later: u64)
    requires
        now <= later,
    ensures
        s.snapshot_at(now).current_position_ms <= s.snapshot_at(later).current_position_ms,
        s.playing_state != PLAYING_STATE_PLAYING ==> s.snapshot_at(now) == s.snapshot_at(later),
{
    clock::elapsed_is_monotonic(s.updated_at, now, later);
}

/// An output that is silent, and not because the track has ended, is reported
/// in the state that the controllers set: paused after a pause, stopped after a
/// stop, and playing while the track is still to come.
pub proof fn silent_output_is_reported_as_commanded(
    s: PlaybackView,
    event: PlaybackEvent,
    playing_state: i32,
    set: u64,
    now: u64,
)
    requires
        event.track_id != 0,
        !event.is_playing,
    ensures
        !s.snapshot_of(event, now).finished ==> s.snapshot_of(event, now).playing_state
            == s.playing_state,
        playing_state != PLAYING_STATE_PLAYING ==> {
            let command = RendererCommandView::SetState {
                playing_state: Some(playing_state),
                current_position_ms: None,
                current_track: None,
                next_track: None,
            };
            &&& s.on_command(command, set).0.snapshot_of(event, now).playing_state == playing_state
            &&& !s.on_command(command, set).0.snapshot_of(event, now).finished
        },
{
}

/// An output that plays is reported as playing, whatever was commanded.
pub proof fn sounding_output_is_reported_as_playing(
    s: PlaybackView,
    event: PlaybackEvent,
    now: u64,
)
    requires
        event.track_id != 0,
        event.is_playing,
    ensures
        s.snapshot_of(event, now).playing_state == PLAYING_STATE_PLAYING,
        !s.snapshot_of(event, now).finished,
{
}

/// The position and the duration that an output reports in seconds are passed
/// on in milliseconds, as far as they fit, whatever the controllers believe.
pub proof fn output_position_is_reported_in_milliseconds(
    s: PlaybackView,
    event: PlaybackEvent,
    now: u64,
)
    requires
        event.track_id != 0,
    ensures
        event.position <= 18_446_744_073_709_551 ==> s.snapshot_of(event, now).current_position_ms
            == 1000 * event.position,
        event.position > 18_446_744_073_709_551 ==> s.snapshot_of(event, now).current_position_ms
            == u64::MAX,
        event.duration <= 18_446_744_073_709_551 ==> s.snapshot_of(event, now).duration_ms == 1000
            * event.duration,
        event.duration > 18_446_744_073_709_551 ==> s.snapshot_of(event, now).duration_ms
            == u64::MAX,
{
}

/// A track is finished exactly when the output has fallen silent at or beyond
/// the end of the very track that the controllers believe to be playing.
pub proof fn tracks_finish_at_their_end(
    s: PlaybackView,
    track: QueueItemView,
    event: PlaybackEvent,
    now: u64,
)
    requires
        s.current_track == Some(track),
        event.track_id != 0,
    ensures
        s.snapshot_of(event, now).finished <==> (track.track_id == event.track_id
            && !event.is_playing && s.playing_state == 2 && 0 < event.duration
            && event.duration <= event.position),
{
}

/// Nothing finishes where the controllers know of no track, or the output has
/// none.
pub proof fn unknown_tracks_do_not_finish(s: PlaybackView, event: PlaybackEvent, now: u64)
    requires
        s.current_track is None || event.track_id == 0,
    ensures
        !s.snapshot_of(event, now).finished,
{
}

/// Without an audio output, or with one that has no track, playback stands
/// where the last command put it, and while it plays as many milliseconds
/// further as have passed since.
pub proof fn position_follows_the_clock(
    s: PlaybackView,
    event: PlaybackEvent,
    elapsed_ms: u64,
    rest_nanos: u64,
    now: u64,
)
    requires
        event.track_id == 0,
        rest_nanos < 1_000_000,
        now == s.updated_at + elapsed_ms * 1_000_000 + rest_nanos,
    ensures
        s.snapshot_at(now).playing_state == s.playing_state,
        s.snapshot_at(now).duration_ms == s.duration_ms,
        !s.snapshot_at(now).finished,
        s.playing_state != 2 ==> s.snapshot_at(now).current_position_ms == s.current_position_ms,
        s.playing_state == 2 ==> s.snapshot_at(now).current_position_ms == if s.current_position_ms
            + elapsed_ms <= u64::MAX {
            s.current_position_ms + elapsed_ms
        } else {
            u64::MAX as int
        },
        s.snapshot_of(event, now) == s.snapshot_at(now),
{
    assert((elapsed_ms * 1_000_000 + rest_nanos) / 1_000_000 == elapsed_ms);
}

/// A change of volume counts from the volume that there is, or from the one
/// that the same command sets, and stays between 0 and 100; without a change
/// the volume stays.
pub proof fn volume_changes_count_from_the_volume(
    s: PlaybackView,
    set: i32,
    delta: i32,
    now: u64,
)
    requires
        0 <= s.volume <= 100,
        0 <= set <= 100,
    ensures
        ({
            let kept = s.on_command(
                RendererCommandView::SetVolume { volume: None, volume_delta: None },
                now,
            ).0;
            let changed = s.on_command(
                RendererCommandView::SetVolume { volume: None, volume_delta: Some(delta) },
                now,
            ).0;
            let both = s.on_command(
                RendererCommandView::SetVolume { volume: Some(set), volume_delta: Some(delta) },
                now,
            ).0;
            &&& kept.volume == s.volume
            &&& 0 <= s.volume + delta <= 100 ==> changed.volume == s.volume + delta
            &&& s.volume + delta < 0 ==> changed.volume == 0
            &&& s.volume + delta > 100 ==> changed.volume == 100
            &&& 0 <= set + delta <= 100 ==> both.volume == set + delta
            &&& set + delta < 0 ==> both.volume == 0
            &&& set + delta > 100 ==> both.volume == 100
        }),
{
}

/// A volume that is set beyond its range is set to the nearest end of it.
pub proof fn set_volume_is_kept_in_range(s: PlaybackView, value: i32, now: u64)
    ensures
        ({
            let after = s.on_command(
                RendererCommandView::SetVolume { volume: Some(value), volume_delta: None },
                now,
            ).0;
            &&& value < 0 ==> after.volume == 0
            &&& value > 100 ==> after.volume == 100
            &&& 0 <= value <= 100 ==> after.volume == value
        }),
{
}

/// A command about the volume changes nothing else, and the output is told
/// the volume and the muting that there are from then on.
pub proof fn volume_commands_reach_the_output(
    s: PlaybackView,
    command: RendererCommandView,
    now: u64,
)
    requires
        command is SetVolume || command is MuteVolume,
    ensures
        ({
            let (after, action) = s.on_command(command, now);
            &&& action matches Some(AudioActionView::Volume { volume, muted }) && volume
                == after.volume && muted == after.muted
            &&& command is SetVolume ==> after.muted == s.muted
            &&& command matches RendererCommandView::MuteVolume { value } ==> after.muted == value
                && after.volume == s.volume
            &&& after.playing_state == s.playing_state
            &&& after.current_position_ms == s.current_position_ms
            &&& after.duration_ms == s.duration_ms
            &&& after.current_track == s.current_track
            &&& after.next_track == s.next_track
            &&& after.max_audio_quality == s.max_audio_quality
            &&& after.updated_at == s.updated_at
        }),
{
}

/// What a state command names is what there is from then on, and what it does
/// not name stays as it was; it concerns neither the volume nor the quality.
pub proof fn state_commands_change_what_they_name(
    s: PlaybackView,
    command: RendererCommandView,
    now: u64,
)
    requires
        command is SetState,
    ensures
        ({
            let after = s.on_command(command, now).0;
            &&& command->SetState_playing_state matches Some(state) ==> after.playing_state == state
            &&& command->SetState_playing_state is None ==> after.playing_state == s.playing_state
            &&& command->SetState_current_position_ms matches Some(ms)
                ==> after.current_position_ms == ms
            &&& command->SetState_current_position_ms is None ==> after.current_position_ms
                == s.current_position_ms
            &&& command->SetState_current_track is Some ==> after.current_track
                == command->SetState_current_track
            &&& command->SetState_current_track is None ==> after.current_track == s.current_track
            &&& command->SetState_next_track is Some ==> after.next_track
                == command->SetState_next_track
            &&& command->SetState_next_track is None ==> after.next_track == s.next_track
            &&& after.updated_at == now
            &&& after.duration_ms == s.duration_ms
            &&& after.volume == s.volume
            &&& after.muted == s.muted
            &&& after.max_audio_quality == s.max_audio_quality
        }),
{
}

/// The output plays the track that there is from then on, from the position
/// that there is; it resumes where there is no track; it pauses and stops as it
/// is told; and it seeks where only a position is named.
pub proof fn state_commands_reach_the_output(
    s: PlaybackView,
    command: RendererCommandView,
    now: u64,
)
    requires
        command is SetState,
    ensures
        ({
            let (after, action) = s.on_command(command, now);
            let asked = command->SetState_playing_state;
            &&& asked == Some(2i32) ==> match after.current_track {
                Some(current) => action matches Some(
                    AudioActionView::Play { track, position_ms, max_audio_quality },
                ) && track == current && position_ms == after.current_position_ms
                    && max_audio_quality == s.max_audio_quality,
                None => action == Some(AudioActionView::Resume),
            }
            &&& asked == Some(3i32) ==> action == Some(AudioActionView::Pause)
            &&& asked == Some(1i32) ==> action == Some(AudioActionView::Stop)
            &&& asked != Some(1i32) && asked != Some(2i32) && asked != Some(3i32) ==> match (
                command->SetState_current_position_ms
            ) {
                Some(ms) => action == Some(AudioActionView::Seek(ms)),
                None => action is None,
            }
        }),
{
}

/// The quality that the controllers allow is kept for the tracks to come, and
/// the commands that do not concern playback change nothing.
pub proof fn other_commands_leave_playback_alone(
    s: PlaybackView,
    command: RendererCommandView,
    now: u64,
)
    ensures
        command matches RendererCommandView::SetMaxAudioQuality { max_audio_quality }
            ==> s.on_command(command, now) == (
            PlaybackView { max_audio_quality, ..s },
            None::<AudioActionView>,
        ),
        command is SetActive || command is SetLoopMode || command is SetShuffleMode
            ==> s.on_command(command, now) == (s, None::<AudioActionView>),
{
}

/// News of the renderer brings the tracks that it names and changes nothing
/// else.
pub proof fn renderer_news_brings_its_tracks(s: PlaybackView, renderer: RendererStateView)
    ensures
        ({
            let after = s.on_renderer(renderer);
            &&& renderer.current_track is Some ==> after.current_track == renderer.current_track
            &&& renderer.current_track is None ==> after.current_track == s.current_track
            &&& renderer.next_track is Some ==> after.next_track == renderer.next_track
            &&& renderer.next_track is None ==> after.next_track == s.next_track
            &&& after.playing_state == s.playing_state
            &&& after.current_position_ms == s.current_position_ms
            &&& after.duration_ms == s.duration_ms
            &&& after.volume == s.volume
            &&& after.muted == s.muted
            &&& after.max_audio_quality == s.max_audio_quality
            &&& after.updated_at == s.updated_at
        }),
{
}

/// Before anything was commanded nothing plays, at full volume and with no
/// limit on the quality.
pub proof fn playback_begins_stopped_at_full_volume(now: u64, later: u64)
    requires
        now <= later,
    ensures
        PlaybackView::initial(now).volume == 100,
        !PlaybackView::initial(now).muted,
        PlaybackView::initial(now).max_audio_quality == 4,
        PlaybackView::initial(now).current_track is None,
        PlaybackView::initial(now).next_track is None,
        PlaybackView::initial(now).snapshot_at(later) == (PlaybackSnapshot {
            playing_state: 1,
            current_position_ms: 0,
            duration_ms: 0,
            finished: false,
        }),
{
}

/// A track that the output has in it is continued, from the second that its
/// position lies in where it is not to start from its beginning; any other is
/// fetched, in a quality that both sides allow.
pub proof fn loaded_tracks_are_continued(
    loaded_track: Option<u64>,
    track_id: u64,
    secs: u64,
    rest_ms: u64,
    preferred: Quality,
    max_audio_quality: i32,
)
    requires
        rest_ms < 1000,
        secs * 1000 + rest_ms <= u64::MAX,
    ensures
        match play_plan(
            loaded_track,
            track_id,
            (secs * 1000 + rest_ms) as u64,
            preferred,
            max_audio_quality,
        ) {
            PlayPlan::Continue { seek_secs } => {
                &&& loaded_track == Some(track_id)
                &&& secs == 0 && rest_ms == 0 ==> seek_secs is None
                &&& secs > 0 || rest_ms > 0 ==> seek_secs == Some(secs)
            },
            PlayPlan::Load { quality } => {
                &&& loaded_track != Some(track_id)
                &&& max_audio_quality <= 0 ==> quality == preferred
                &&& max_audio_quality >= 4 ==> quality == preferred
                &&& max_audio_quality == 1 ==> quality is Mp3
            },
        },
{
    assert((secs * 1000 + rest_ms) / 1000 == secs);
}

/// Media controls show the second that the output is at, or, where it has no
/// track, the second that the reported position lies in.
pub proof fn controls_show_the_second(
    snapshot: PlaybackSnapshot,
    event: PlaybackEvent,
    secs: u64,
    rest_ms: u64,
)
    requires
        rest_ms < 1000,
        snapshot.current_position_ms == secs * 1000 + rest_ms,
    ensures
        event.track_id == 0 ==> shown_position(snapshot, event) == secs,
        event.track_id != 0 ==> shown_position(snapshot, event) == event.position,
{
}

/// What is said of an action and of the playback state is what they are.
pub proof fn playback_is_said_as_it_is(action: AudioAction, state: PlaybackState)
    ensures
        match action {
            AudioAction::Play { track, position_ms, max_audio_quality } => action@ == (
            AudioActionView::Play { track: track@, position_ms, max_audio_quality }),
            AudioAction::Resume => action@ is Resume,
            AudioAction::Pause => action@ is Pause,
            AudioAction::Stop => action@ is Stop,
            AudioAction::Seek(position_ms) => action@ == AudioActionView::Seek(position_ms),
            AudioAction::Volume { volume, muted } => action@ == (AudioActionView::Volume {
                volume,
                muted,
            }),
        },
        state@.playing_state == state.playing_state,
        state@.current_position_ms == state.current_position_ms,
        state@.duration_ms == state.duration_ms,
        state@.current_track is Some <==> state.current_track is Some,
        state.current_track matches Some(track) ==> state@.current_track == Some(track@),
        state@.next_track is Some <==> state.next_track is Some,
        state.next_track matches Some(track) ==> state@.next_track == Some(track@),
        state@.volume == state.volume,
        state@.muted == state.muted,
        state@.max_audio_quality == state.max_audio_quality,
        state@.updated_at == state.updated_at,
{
}

} // verus!
