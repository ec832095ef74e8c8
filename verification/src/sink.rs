//! What this renderer does about the client's events.

use vstd::prelude::*;

use crate::app_types::{AppEventView, QconnectAppEvent};
use crate::clock::Clock;
use crate::json;
use crate::json::JsonView;
use crate::notices;
use crate::playback;
use crate::playback::{
    AudioAction, AudioActionView, PlaybackSnapshot, PlaybackState, PlaybackView,
};
use crate::player::PlaybackEvent;
use crate::printer;
use crate::printer::{Notice, NoticeView};

verus! {

/// What follows from an event: something for the audio output, something to be
/// told, both or neither.
#[derive(Debug, PartialEq, Eq)]
pub struct SinkOutcome {
    pub action: Option<AudioAction>,
    pub notice: Option<Notice>,
}

/// The playback state after an event at `now`.
pub open spec fn playback_after(state: PlaybackView, event: AppEventView, now: u64)
    -> PlaybackView {
    match event {
        AppEventView::RendererCommandApplied(command) => state.on_command(command, now).0,
        AppEventView::RendererUpdated(renderer) => state.on_renderer(renderer),
        _ => state,
    }
}

/// What the audio output does about an event at `now`.
pub open spec fn action_for(state: PlaybackView, event: AppEventView, now: u64) -> Option<
    AudioActionView,
> {
    match event {
        AppEventView::RendererCommandApplied(command) => state.on_command(command, now).1,
        _ => None,
    }
}

/// What is told of an event: nothing of the renderer's state.
pub open spec fn told_for(event: AppEventView) -> Option<NoticeView> {
    match event {
        AppEventView::QueueUpdated(queue) => Some(notices::queue_told(queue)),
        AppEventView::RendererCommandApplied(command) => Some(
            printer::notice_with(
                "renderer_command"@,
                "command"@,
                JsonView::Text(notices::command_text(command)),
            ),
        ),
        AppEventView::RendererUpdated(_) => None,
        AppEventView::SessionManagementEvent { message_type, payload } => Some(
            notices::session_told(message_type, payload),
        ),
        AppEventView::PendingActionTimedOut { uuid, timeout_ms } => Some(
            notices::timeout_told(uuid, timeout_ms),
        ),
    }
}

/// Whether `before`, an event, and what came of it belong together at `now`.
pub open spec fn answers(
    before: PlaybackView,
    event: AppEventView,
    now: u64,
    after: PlaybackView,
    outcome: SinkOutcome,
) -> bool {
    &&& after == playback_after(before, event, now)
    &&& playback::action_view(outcome.action) == action_for(before, event, now)
    &&& printer::notice_view(outcome.notice) == told_for(event)
}

/// The renderer's side of the client: its playback state and a clock.
pub struct CliEventSink {
    clock: Clock,
    playback: PlaybackState,
}

impl View for CliEventSink {
    type V = PlaybackView;

    closed spec fn view(&self) -> PlaybackView {
        self.playback@
    }
}

impl CliEventSink {
    /// The clock that the sink reads.
    pub closed spec fn reads(&self) -> Clock {
        self.clock
    }

    pub fn new() -> (r: CliEventSink)
        ensures
            exists|now: u64| r@ == #[trigger] PlaybackView::initial(now),
    {
        let clock = Clock::start();
        let now: u64 = clock.now();
        CliEventSink { clock, playback: PlaybackState::new(now) }
    }

    /// The playback state.
    pub fn playback(&self) -> (r: &PlaybackState)
        ensures
            r@ == self@,
    {
        &self.playback
    }

    /// Takes an event at `now` and says what follows from it.
    pub fn on_event_at(&mut self, event: QconnectAppEvent, now: u64) -> (r: SinkOutcome)
        ensures
            answers(old(self)@, event@, now, final(self)@, r),
            final(self).reads() == old(self).reads(),
    {
        match event {
            QconnectAppEvent::QueueUpdated(queue) => SinkOutcome {
                action: None,
                notice: Some(notices::queue_updated(&queue)),
            },
            QconnectAppEvent::RendererCommandApplied { command } => {
                let action = self.playback.apply_renderer_command(&command, now);
                SinkOutcome { action, notice: Some(notices::renderer_command(&command)) }
            },
            QconnectAppEvent::RendererUpdated(renderer) => {
                self.playback.apply_renderer_state(renderer);
                SinkOutcome { action: None, notice: None }
            },
            QconnectAppEvent::SessionManagementEvent { message_type, payload } => SinkOutcome {
                action: None,
                notice: Some(notices::session_event(message_type.as_str(), payload)),
            },
            QconnectAppEvent::PendingActionTimedOut { uuid, timeout_ms } => SinkOutcome {
                action: None,
                notice: Some(notices::pending_timeout(uuid.as_str(), timeout_ms)),
            },
        }
    }

    /// Takes an event of this moment and says what follows from it.
    pub fn on_event(&mut self, event: QconnectAppEvent) -> (r: SinkOutcome)
        ensures
            exists|now: u64| #[trigger] answers(old(self)@, event@, now, final(self)@, r),
            final(self).reads() == old(self).reads(),
    {
        let now: u64 = self.clock.now();
        self.on_event_at(event, now)
    }

    /// How playback stands at `now`, with what an audio output reports when
    /// there is one.
    pub fn playback_snapshot_at(&self, audio: Option<PlaybackEvent>, now: u64) -> (r:
        PlaybackSnapshot)
        ensures
            r == snapshot_for(self@, audio, now),
    {
        match audio {
            Some(event) => self.playback.audio_snapshot(&event, now),
            None => self.playback.snapshot(now),
        }
    }

    /// How playback stands at this moment.
    pub fn playback_snapshot(&self, audio: Option<PlaybackEvent>) -> (r: PlaybackSnapshot)
        ensures
            exists|now: u64| r == #[trigger] snapshot_for(self@, audio, now),
    {
        let now: u64 = self.clock.now();
        self.playback_snapshot_at(audio, now)
    }
}

/// How playback stands at `now`, with what an audio output reports when there
/// is one.
pub open spec fn snapshot_for(state: PlaybackView, audio: Option<PlaybackEvent>, now: u64)
    -> PlaybackSnapshot {
    match audio {
        Some(event) => state.snapshot_of(event, now),
        None => state.snapshot_at(now),
    }
}

/// No event takes the volume out of its range.
pub proof fn events_keep_the_volume_a_percentage(
    state: PlaybackView,
    event: AppEventView,
    now: u64,
)
    requires
        state.wf(),
    ensures
        playback_after(state, event, now).wf(),
{
}

/// The audio output is only ever asked to do something by a renderer command.
pub proof fn only_commands_reach_the_output(state: PlaybackView, event: AppEventView, now: u64)
    ensures
        action_for(state, event, now) is Some ==> event is RendererCommandApplied,
{
}

/// A command to the renderer changes playback, and reaches the output, as that
/// command does; news of the renderer brings its tracks; nothing else changes
/// playback.
pub proof fn events_change_playback_as_they_say(state: PlaybackView, event: AppEventView, now: u64)
    ensures
        match event {
            AppEventView::RendererCommandApplied(command) => {
                &&& playback_after(state, event, now) == state.on_command(command, now).0
                &&& action_for(state, event, now) == state.on_command(command, now).1
            },
            AppEventView::RendererUpdated(renderer) => {
                &&& playback_after(state, event, now) == state.on_renderer(renderer)
                &&& action_for(state, event, now) is None
            },
            _ => playback_after(state, event, now) == state && action_for(state, event, now)
                is None,
        },
{
}

/// Every event but news of the renderer is told, each under its own name and
/// with what it brings.
pub proof fn events_are_told_under_their_names(event: AppEventView)
    ensures
        match event {
            AppEventView::QueueUpdated(queue) => told_for(event) == Some(
                notices::queue_told(queue),
            ) && told_for(event)->0.name == "queue_updated"@,
            AppEventView::RendererCommandApplied(command) => told_for(event) matches Some(told)
                && told.name == "renderer_command"@ && json::member_text(told.payload, "command"@)
                == Some(notices::command_text(command)),
            AppEventView::RendererUpdated(_) => told_for(event) is None,
            AppEventView::SessionManagementEvent { message_type, payload } => told_for(event)
                matches Some(told) && told.name == "session_event"@ && json::member_text(
                told.payload,
                "message_type"@,
            ) == Some(message_type) && json::member(told.payload, "payload"@) == Some(payload),
            AppEventView::PendingActionTimedOut { uuid, timeout_ms } => told_for(event)
                matches Some(told) && told.name == "pending_timeout"@ && json::member_text(
                told.payload,
                "uuid"@,
            ) == Some(uuid) && json::member_u64(told.payload, "timeout_ms"@) == Some(timeout_ms),
        },
{
    match event {
        AppEventView::RendererCommandApplied(command) => {
            printer::notices_say_what_they_are_given(
                "renderer_command"@,
                "command"@,
                JsonView::Text(notices::command_text(command)),
            );
        },
        AppEventView::SessionManagementEvent { message_type, payload } => {
            notices::told_messages_are_whole(message_type, payload, Seq::empty(), 0);
        },
        AppEventView::PendingActionTimedOut { uuid, timeout_ms } => {
            notices::told_messages_are_whole(Seq::empty(), JsonView::Null, uuid, timeout_ms);
        },
        _ => {},
    }
}

/// Playback is told by the output where there is one, and by the clock where
/// there is none.
pub proof fn output_speaks_for_playback(state: PlaybackView, event: PlaybackEvent, now: u64)
    ensures
        snapshot_for(state, None, now) == state.snapshot_at(now),
        snapshot_for(state, Some(event), now) == state.snapshot_of(event, now),
        event.track_id != 0 && event.is_playing ==> snapshot_for(state, Some(event), now).playing_state
            == 2,
{
}

/// What answers an event is all that follows from it: the playback state, what
/// the output does, and what is told.
pub proof fn answers_leave_nothing_open(
    before: PlaybackView,
    event: AppEventView,
    now: u64,
    after: PlaybackView,
    outcome: SinkOutcome,
)
    requires
        answers(before, event, now, after, outcome),
    ensures
        after == playback_after(before, event, now),
        outcome.action is Some <==> action_for(before, event, now) is Some,
        outcome.action matches Some(action) ==> action_for(before, event, now) == Some(action@),
        outcome.notice is Some <==> told_for(event) is Some,
        outcome.notice matches Some(notice) ==> told_for(event) == Some(notice@),
{
}

} // verus!
