//! What the audio thread and everyone who asks about playback share: which
//! track plays, where it is, and which track follows without a gap.
//!
//! Times are readings of one `Clock`, in nanoseconds.

use vstd::prelude::*;

use crate::clock;

verus! {

/// The volume, in percent, before anyone sets it.
pub const DEFAULT_VOLUME: u32 = 75;

/// The state of playback. A track id, a queue item id or a duration of zero
/// stands for none.
#[derive(Debug, PartialEq, Eq, Structural)]
pub struct SharedState {
    pub is_playing: bool,
    /// The position, in seconds, at `playback_start_time`, or, while nothing
    /// plays, the position itself.
    pub position: u64,
    pub duration: u64,
    pub track_id: u64,
    pub queue_item_id: u64,
    pub has_loaded_audio: bool,
    /// In percent.
    pub volume: u32,
    pub stream_error: bool,
    pub sample_rate: u32,
    pub bit_depth: u32,
    pub gapless_ready: bool,
    pub gapless_next_track_id: u64,
    pub gapless_next_queue_item_id: u64,
    pub gapless_next_duration: u64,
    /// In seconds; it counts only while `has_pending_seek` is set.
    pub pending_seek: u64,
    pub has_pending_seek: bool,
    /// Goes up whenever playback starts anew, so that what an earlier start
    /// still announces is told apart.
    pub generation: u64,
    /// When playback was last started or resumed.
    pub playback_start_time: Option<u64>,
}

/// `a + b`, or the largest number where that does not fit.
pub open spec fn saturated(a: int, b: int) -> int {
    if a + b > u64::MAX {
        u64::MAX as int
    } else {
        a + b
    }
}

/// The number after `n`; after the largest comes zero.
pub open spec fn successor(n: u64) -> u64 {
    if n == u64::MAX {
        0
    } else {
        (n + 1) as u64
    }
}

impl SharedState {
    // -----------------------------------------------------------------------
    // What a state says
    // -----------------------------------------------------------------------

    /// The state before anything was played.
    pub open spec fn initial() -> SharedState {
        SharedState {
            is_playing: false,
            position: 0,
            duration: 0,
            track_id: 0,
            queue_item_id: 0,
            has_loaded_audio: false,
            volume: DEFAULT_VOLUME,
            stream_error: false,
            sample_rate: 0,
            bit_depth: 0,
            gapless_ready: false,
            gapless_next_track_id: 0,
            gapless_next_queue_item_id: 0,
            gapless_next_duration: 0,
            pending_seek: 0,
            has_pending_seek: false,
            generation: 0,
            playback_start_time: None,
        }
    }

    /// The position in seconds at `now`: while a track plays, the time since
    /// the start counts, up to the track's duration when that is known.
    pub open spec fn position_at(self, now: u64) -> u64 {
        match self.playback_start_time {
            Some(start) if self.is_playing => {
                let reached = saturated(
                    self.position as int,
                    clock::units_between(start, now, clock::NANOS_PER_SEC),
                );
                if self.duration > 0 && reached > self.duration {
                    self.duration
                } else {
                    reached as u64
                }
            },
            _ => self.position,
        }
    }

    /// With this track as the current one.
    pub open spec fn with_track(self, track_id: u64, queue_item_id: u64, duration: u64)
        -> SharedState {
        SharedState { track_id, queue_item_id, duration, ..self }
    }

    /// With this track announced to follow without a gap.
    pub open spec fn with_next(self, track_id: u64, queue_item_id: u64, duration: u64)
        -> SharedState {
        SharedState {
            gapless_next_track_id: track_id,
            gapless_next_queue_item_id: queue_item_id,
            gapless_next_duration: duration,
            ..self
        }
    }

    /// With no track announced to follow.
    pub open spec fn without_next(self) -> SharedState {
        self.with_next(0, 0, 0)
    }

    /// Playing from `position` since `now`.
    pub open spec fn playing_from(self, position: u64, now: u64) -> SharedState {
        SharedState { position, playback_start_time: Some(now), is_playing: true, ..self }
    }

    /// Paused where playback is at `now`.
    pub open spec fn paused_at(self, now: u64) -> SharedState {
        SharedState {
            position: self.position_at(now),
            playback_start_time: None,
            is_playing: false,
            ..self
        }
    }

    /// One generation on.
    pub open spec fn restarted(self) -> SharedState {
        SharedState { generation: successor(self.generation), ..self }
    }

    /// Stopped, with or without the current track.
    pub open spec fn stopped(self, clear_track: bool) -> SharedState {
        let halted = SharedState {
            position: 0,
            playback_start_time: None,
            is_playing: false,
            has_loaded_audio: false,
            gapless_ready: false,
            ..self.without_next()
        };
        if clear_track {
            halted.with_track(0, 0, 0)
        } else {
            halted
        }
    }

    /// The seek that waits for audio to be loaded.
    pub open spec fn waiting_seek(self) -> Option<u64> {
        if self.has_pending_seek {
            Some(self.pending_seek)
        } else {
            None
        }
    }

    /// Whether the end of `queue_item_id` as announced by a start of that
    /// generation is news: the start is the latest and the item is current.
    pub open spec fn end_counts(self, queue_item_id: u64, generation: u64) -> bool {
        self.generation == generation && self.queue_item_id == queue_item_id
    }

    /// After the end of `queue_item_id` was announced at `now`: the track that
    /// follows without a gap becomes the current one, or playback stands at the
    /// end of the track.
    pub open spec fn after_track_end(self, queue_item_id: u64, generation: u64, now: u64)
        -> SharedState {
        if !self.end_counts(queue_item_id, generation) {
            self
        } else if self.gapless_next_track_id > 0 && self.gapless_next_queue_item_id > 0 {
            SharedState {
                gapless_ready: true,
                ..self.with_track(
                    self.gapless_next_track_id,
                    self.gapless_next_queue_item_id,
                    self.gapless_next_duration,
                ).without_next().playing_from(0, now)
            }
        } else {
            SharedState {
                position: self.duration,
                playback_start_time: None,
                is_playing: false,
                has_loaded_audio: false,
                gapless_ready: false,
                ..self
            }
        }
    }

    // -----------------------------------------------------------------------
    // What changes a state
    // -----------------------------------------------------------------------

    pub fn new() -> (r: Self)
        ensures
            r == SharedState::initial(),
    {
        SharedState {
            is_playing: false,
            position: 0,
            duration: 0,
            track_id: 0,
            queue_item_id: 0,
            has_loaded_audio: false,
            volume: DEFAULT_VOLUME,
            stream_error: false,
            sample_rate: 0,
            bit_depth: 0,
            gapless_ready: false,
            gapless_next_track_id: 0,
            gapless_next_queue_item_id: 0,
            gapless_next_duration: 0,
            pending_seek: 0,
            has_pending_seek: false,
            generation: 0,
            playback_start_time: None,
        }
    }

    pub fn set_stream_error(&mut self, error: bool)
        ensures
            *final(self) == (SharedState { stream_error: error, ..*old(self) }),
    {
        self.stream_error = error;
    }

    pub fn has_stream_error(&self) -> (r: bool)
        ensures
            r == self.stream_error,
    {
        self.stream_error
    }

    pub fn set_stream_quality(&mut self, sample_rate: u32, bit_depth: u32)
        ensures
            *final(self) == (SharedState { sample_rate, bit_depth, ..*old(self) }),
    {
        self.sample_rate = sample_rate;
        self.bit_depth = bit_depth;
    }

    /// Keeps a seek for when audio is loaded.
    pub fn set_pending_seek(&mut self, position_secs: u64)
        ensures
            *final(self) == (SharedState {
                pending_seek: position_secs,
                has_pending_seek: true,
                ..*old(self)
            }),
    {
        self.pending_seek = position_secs;
        self.has_pending_seek = true;
    }

    /// The seek that was kept, which is then forgotten.
    pub fn take_pending_seek(&mut self) -> (r: Option<u64>)
        ensures
            r == old(self).waiting_seek(),
            *final(self) == (SharedState { has_pending_seek: false, ..*old(self) }),
    {
        if self.has_pending_seek {
            self.has_pending_seek = false;
            Some(self.pending_seek)
        } else {
            None
        }
    }

    /// Begins a new generation and says which.
    pub fn next_generation(&mut self) -> (r: u64)
        ensures
            r == successor(old(self).generation),
            *final(self) == old(self).restarted(),
    {
        self.generation = self.generation.wrapping_add(1);
        self.generation
    }

    pub fn current_generation(&self) -> (r: u64)
        ensures
            r == self.generation,
    {
        self.generation
    }

    pub fn set_current_track(&mut self, track_id: u64, queue_item_id: u64, duration_secs: u64)
        ensures
            *final(self) == old(self).with_track(track_id, queue_item_id, duration_secs),
    {
        self.track_id = track_id;
        self.queue_item_id = queue_item_id;
        self.duration = duration_secs;
    }

    pub fn set_gapless_next(&mut self, track_id: u64, queue_item_id: u64, duration_secs: u64)
        ensures
            *final(self) == old(self).with_next(track_id, queue_item_id, duration_secs),
    {
        self.gapless_next_track_id = track_id;
        self.gapless_next_queue_item_id = queue_item_id;
        self.gapless_next_duration = duration_secs;
    }

    pub fn clear_gapless_next(&mut self)
        ensures
            *final(self) == old(self).without_next(),
    {
        self.set_gapless_next(0, 0, 0);
    }

    /// Stops playback and forgets the position, and on demand the track too.
    pub fn stop_playback_tracking(&mut self, clear_track: bool)
        ensures
            *final(self) == old(self).stopped(clear_track),
    {
        self.playback_start_time = None;
        self.position = 0;
        self.is_playing = false;
        self.has_loaded_audio = false;
        self.gapless_ready = false;
        self.clear_gapless_next();
        if clear_track {
            self.set_current_track(0, 0, 0);
        }
    }

    /// Pauses at the position reached at `now`.
    pub fn pause_playback(&mut self, now: u64)
        ensures
            *final(self) == old(self).paused_at(now),
    {
        self.position = self.current_position(now);
        self.playback_start_time = None;
        self.is_playing = false;
    }

    /// Goes on playing from the kept position.
    pub fn resume_playback(&mut self, now: u64)
        ensures
            *final(self) == old(self).playing_from(old(self).position, now),
    {
        self.playback_start_time = Some(now);
        self.is_playing = true;
    }

    /// Starts counting from a position, for a new track or after a seek.
    pub fn reset_playback_tracking(&mut self, initial_position_secs: u64, now: u64)
        ensures
            *final(self) == old(self).playing_from(initial_position_secs, now),
    {
        self.playback_start_time = Some(now);
        self.position = initial_position_secs;
        self.is_playing = true;
    }

    /// Takes note that a track has played to its end.
    pub fn mark_track_ended(&mut self, ended_queue_item_id: u64, generation: u64, now: u64)
        ensures
            *final(self) == old(self).after_track_end(ended_queue_item_id, generation, now),
    {
        if self.current_generation() != generation {
            return;
        }
        if self.queue_item_id != ended_queue_item_id {
            return;
        }
        if self.gapless_next_track_id > 0 && self.gapless_next_queue_item_id > 0 {
            self.set_current_track(
                self.gapless_next_track_id,
                self.gapless_next_queue_item_id,
                self.gapless_next_duration,
            );
            self.clear_gapless_next();
            self.reset_playback_tracking(0, now);
            self.gapless_ready = true;
        } else {
            self.playback_start_time = None;
            self.position = self.duration;
            self.is_playing = false;
            self.has_loaded_audio = false;
            self.gapless_ready = false;
        }
    }

    /// The position in seconds at `now`.
    pub fn current_position(&self, now: u64) -> (r: u64)
        ensures
            r == self.position_at(now),
    {
        if !self.is_playing {
            return self.position;
        }
        match self.playback_start_time {
            Some(start) => {
                let elapsed_secs: u64 = clock::secs_between(start, now);
                let position: u64 = self.position.saturating_add(elapsed_secs);
                if self.duration > 0 && position > self.duration {
                    self.duration
                } else {
                    position
                }
            },
            None => self.position,
        }
    }
}

impl Default for SharedState {
    fn default() -> (r: Self)
        ensures
            r == SharedState::initial(),
    {
        SharedState::new()
    }
}

// ---------------------------------------------------------------------------
// Laws
// ---------------------------------------------------------------------------

/// The position never runs past the end of a track whose duration is known.
pub proof fn position_stays_within_track(state: SharedState, now: u64)
    requires
        state.is_playing,
        state.playback_start_time is Some,
        state.duration > 0,
    ensures
        state.position_at(now) <= state.duration,
{
}

/// While nothing starts, stops or seeks, the position never goes back.
pub proof fn position_is_monotonic(state: SharedState, now: u64, later: u64)
    requires
        now <= later,
    ensures
        state.position_at(now) <= state.position_at(later),
{
    if let Some(start) = state.playback_start_time {
        clock::elapsed_is_monotonic(start, now, later);
    }
}

/// A pause keeps the position, whenever it is asked for afterwards.
pub proof fn pause_freezes_the_position(state: SharedState, now: u64, later: u64)
    ensures
        state.paused_at(now).position_at(later) == state.position_at(now),
        !state.paused_at(now).is_playing,
{
}

/// Resuming goes on from where the pause was: at any later time, playback is
/// as many seconds further as have passed since, up to the end of the track
/// when its duration is known.
pub proof fn resume_continues_from_the_pause(
    state: SharedState,
    paused: u64,
    resumed: u64,
    later: u64,
)
    requires
        state.duration == 0 || state.position_at(paused) <= state.duration,
    ensures
        ({
            let during = state.paused_at(paused);
            let after = during.playing_from(during.position, resumed);
            let reached = saturated(
                state.position_at(paused) as int,
                clock::units_between(resumed, later, clock::NANOS_PER_SEC),
            );
            &&& after.position_at(resumed) == state.position_at(paused)
            &&& after.position_at(later) == if state.duration > 0 && reached > state.duration {
                state.duration as int
            } else {
                reached
            }
        }),
{
}

/// A seek that is kept is handed out once.
pub proof fn pending_seek_is_taken_once(state: SharedState, position_secs: u64)
    ensures
        ({
            let kept = SharedState {
                pending_seek: position_secs,
                has_pending_seek: true,
                ..state
            };
            let taken = SharedState { has_pending_seek: false, ..kept };
            &&& kept.waiting_seek() == Some(position_secs)
            &&& taken.waiting_seek() is None
        }),
{
}

/// A new generation is never the one before.
pub proof fn generation_changes(state: SharedState)
    ensures
        state.restarted().generation != state.generation,
{
}

/// The end of a track that an earlier start announces changes nothing.
pub proof fn stale_track_end_is_ignored(
    state: SharedState,
    queue_item_id: u64,
    generation: u64,
    now: u64,
)
    requires
        generation != state.generation || queue_item_id != state.queue_item_id,
    ensures
        state.after_track_end(queue_item_id, generation, now) == state,
{
}

/// When a track ends and another is announced, that one is current, plays from
/// its start, and nothing is announced any more.
pub proof fn announced_track_takes_over(state: SharedState, now: u64)
    requires
        state.gapless_next_track_id > 0,
        state.gapless_next_queue_item_id > 0,
    ensures
        ({
            let after = state.after_track_end(state.queue_item_id, state.generation, now);
            &&& after.track_id == state.gapless_next_track_id
            &&& after.queue_item_id == state.gapless_next_queue_item_id
            &&& after.duration == state.gapless_next_duration
            &&& after.is_playing
            &&& after.position_at(now) == 0
            &&& after.gapless_next_track_id == 0
            &&& after.gapless_next_queue_item_id == 0
        }),
{
}

/// The end of one track is counted once: announced again, it changes nothing
/// more, unless the same item was announced to follow itself.
pub proof fn track_end_counts_once(state: SharedState, now: u64, later: u64)
    requires
        state.gapless_next_track_id > 0 && state.gapless_next_queue_item_id > 0
            ==> state.gapless_next_queue_item_id != state.queue_item_id,
    ensures
        ({
            let after = state.after_track_end(state.queue_item_id, state.generation, now);
            after.after_track_end(state.queue_item_id, state.generation, later) == after
        }),
{
}

/// With nothing announced, playback stands at the end of the track.
pub proof fn last_track_stops_at_its_end(state: SharedState, now: u64, later: u64)
    requires
        state.gapless_next_track_id == 0 || state.gapless_next_queue_item_id == 0,
    ensures
        ({
            let after = state.after_track_end(state.queue_item_id, state.generation, now);
            &&& !after.is_playing
            &&& !after.has_loaded_audio
            &&& after.position_at(later) == state.duration
        }),
{
}

/// A stop that clears the track leaves nothing of it.
pub proof fn stop_leaves_nothing(state: SharedState, now: u64)
    ensures
        ({
            let after = state.stopped(true);
            &&& !after.is_playing
            &&& !after.has_loaded_audio
            &&& after.track_id == 0
            &&& after.queue_item_id == 0
            &&& after.duration == 0
            &&& after.position_at(now) == 0
            &&& after.gapless_next_track_id == 0
            &&& after.gapless_next_queue_item_id == 0
        }),
{
}

/// While a track plays, its position is as many seconds beyond the one that it
/// was started at as have passed since, up to its duration when that is known
/// and as far as the seconds can be counted.
pub proof fn position_counts_the_seconds(
    state: SharedState,
    start: u64,
    secs: u64,
    rest_nanos: u64,
    now: u64,
)
    requires
        state.is_playing,
        state.playback_start_time == Some(start),
        rest_nanos < 1_000_000_000,
        now == start + secs * 1_000_000_000 + rest_nanos,
    ensures
        state.duration > 0 && state.position + secs > state.duration ==> state.position_at(now)
            == state.duration,
        (state.duration == 0 || state.position + secs <= state.duration) && state.position + secs
            <= u64::MAX ==> state.position_at(now) == state.position + secs,
        state.duration == 0 && state.position + secs > u64::MAX ==> state.position_at(now)
            == u64::MAX,
{
    assert((secs * 1_000_000_000 + rest_nanos) / 1_000_000_000 == secs);
}

/// What does not play, or was never started, stays at its position, and a
/// clock that reads earlier than the start adds nothing to it.
pub proof fn position_stands_without_time(state: SharedState, now: u64)
    ensures
        !state.is_playing || state.playback_start_time is None ==> state.position_at(now)
            == state.position,
        state.is_playing && (state.playback_start_time matches Some(start) && now <= start) && (
        state.duration == 0 || state.position <= state.duration) ==> state.position_at(now)
            == state.position,
{
}

/// A new generation is the number after the one before, and zero after the
/// largest; nothing else changes.
pub proof fn generations_are_counted(state: SharedState)
    ensures
        state.generation < u64::MAX ==> state.restarted().generation == state.generation + 1,
        state.generation == u64::MAX ==> state.restarted().generation == 0,
        state.restarted() == (SharedState { generation: state.restarted().generation, ..state }),
{
}

/// A pause, a start and a change of track touch what they name and nothing
/// else.
pub proof fn changes_touch_what_they_name(
    state: SharedState,
    track_id: u64,
    queue_item_id: u64,
    duration: u64,
    position: u64,
    now: u64,
)
    ensures
        state.paused_at(now) == (SharedState {
            position: state.position_at(now),
            playback_start_time: None,
            is_playing: false,
            ..state
        }),
        ({
            let started = state.playing_from(position, now);
            &&& started.position == position
            &&& started.playback_start_time == Some(now)
            &&& started.is_playing
            &&& started.track_id == state.track_id
            &&& started.queue_item_id == state.queue_item_id
            &&& started.duration == state.duration
            &&& started.volume == state.volume
            &&& started.generation == state.generation
            &&& started.has_loaded_audio == state.has_loaded_audio
            &&& started.gapless_next_track_id == state.gapless_next_track_id
        }),
        ({
            let changed = state.with_track(track_id, queue_item_id, duration);
            &&& changed.track_id == track_id
            &&& changed.queue_item_id == queue_item_id
            &&& changed.duration == duration
            &&& changed.position == state.position
            &&& changed.is_playing == state.is_playing
            &&& changed.volume == state.volume
            &&& changed.generation == state.generation
            &&& changed.gapless_next_track_id == state.gapless_next_track_id
        }),
        ({
            let announced = state.with_next(track_id, queue_item_id, duration);
            &&& announced.gapless_next_track_id == track_id
            &&& announced.gapless_next_queue_item_id == queue_item_id
            &&& announced.gapless_next_duration == duration
            &&& announced.track_id == state.track_id
            &&& announced.queue_item_id == state.queue_item_id
            &&& announced.duration == state.duration
            &&& announced.position == state.position
            &&& announced.is_playing == state.is_playing
        }),
        ({
            let silent = state.without_next();
            &&& silent.gapless_next_track_id == 0
            &&& silent.gapless_next_queue_item_id == 0
            &&& silent.gapless_next_duration == 0
            &&& silent.track_id == state.track_id
        }),
{
}

/// A stop that keeps the track keeps its ids and its duration; either stop
/// keeps the volume, the quality, the generation and the seek that waits.
pub proof fn stop_keeps_what_is_not_of_the_track(state: SharedState, clear_track: bool)
    ensures
        ({
            let after = state.stopped(clear_track);
            &&& !clear_track ==> {
                &&& after.track_id == state.track_id
                &&& after.queue_item_id == state.queue_item_id
                &&& after.duration == state.duration
            }
            &&& after.position == 0
            &&& !after.is_playing
            &&& !after.has_loaded_audio
            &&& !after.gapless_ready
            &&& after.playback_start_time is None
            &&& after.gapless_next_track_id == 0
            &&& after.gapless_next_queue_item_id == 0
            &&& after.gapless_next_duration == 0
            &&& after.volume == state.volume
            &&& after.sample_rate == state.sample_rate
            &&& after.bit_depth == state.bit_depth
            &&& after.generation == state.generation
            &&& after.has_pending_seek == state.has_pending_seek
            &&& after.pending_seek == state.pending_seek
            &&& after.stream_error == state.stream_error
        }),
{
}

/// The end of a track changes neither the volume nor the generation nor the
/// quality; what takes over is ready for a track to follow it, and without one
/// to take over the track stays the current one.
pub proof fn track_end_keeps_what_is_not_of_the_track(
    state: SharedState,
    queue_item_id: u64,
    generation: u64,
    now: u64,
)
    ensures
        ({
            let after = state.after_track_end(queue_item_id, generation, now);
            &&& after.volume == state.volume
            &&& after.generation == state.generation
            &&& after.sample_rate == state.sample_rate
            &&& after.bit_depth == state.bit_depth
            &&& after.stream_error == state.stream_error
            &&& after.has_pending_seek == state.has_pending_seek
            &&& after.pending_seek == state.pending_seek
            &&& generation == state.generation && queue_item_id == state.queue_item_id ==> {
                let takes_over = state.gapless_next_track_id > 0
                    && state.gapless_next_queue_item_id > 0;
                &&& after.gapless_ready == takes_over
                &&& after.is_playing == takes_over
                &&& takes_over ==> after.gapless_next_duration == 0 && after.has_loaded_audio
                    == state.has_loaded_audio
                &&& !takes_over ==> after.track_id == state.track_id && after.queue_item_id
                    == state.queue_item_id && after.duration == state.duration
            }
        }),
{
}

/// Before anything is played there is no track, no seek and no error, and the
/// volume stands at three quarters.
pub proof fn state_begins_empty(now: u64)
    ensures
        ({
            let state = SharedState::initial();
            &&& !state.is_playing
            &&& state.position_at(now) == 0
            &&& state.duration == 0
            &&& state.track_id == 0
            &&& state.queue_item_id == 0
            &&& !state.has_loaded_audio
            &&& state.volume == 75
            &&& !state.stream_error
            &&& state.sample_rate == 0
            &&& state.bit_depth == 0
            &&& state.gapless_next_track_id == 0
            &&& state.gapless_next_queue_item_id == 0
            &&& state.waiting_seek() is None
            &&& state.generation == 0
        }),
{
}

} // verus!
