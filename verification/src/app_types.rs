//! The client's picture of the remote queue and renderer, and the events that
//! change it.

use vstd::prelude::*;

use crate::json::{Json, JsonView};
use crate::queue;
use crate::queue::{QueueItem, QueueItemView, QueueVersion};

verus! {

/// The remote queue as last heard.
#[derive(Debug, PartialEq, Eq)]
pub struct QConnectQueueState {
    pub version: QueueVersion,
    pub queue_items: Vec<QueueItem>,
    pub shuffle_mode: bool,
    pub autoplay_mode: bool,
    pub shuffle_order: Option<Vec<usize>>,
}

/// What the queue state says.
pub struct QueueStateView {
    pub version: QueueVersion,
    pub items: Seq<QueueItemView>,
    pub shuffle_mode: bool,
    pub autoplay_mode: bool,
    pub shuffle_order: Option<Seq<usize>>,
}

impl View for QConnectQueueState {
    type V = QueueStateView;

    open spec fn view(&self) -> QueueStateView {
        QueueStateView {
            version: self.version,
            items: queue::queue_view(self.queue_items@),
            shuffle_mode: self.shuffle_mode,
            autoplay_mode: self.autoplay_mode,
            shuffle_order: match self.shuffle_order {
                Some(order) => Some(order@),
                None => None,
            },
        }
    }
}

impl QueueStateView {
    /// The queue before anything was heard of it.
    pub open spec fn initial() -> Self {
        QueueStateView {
            version: QueueVersion::unknown(),
            items: Seq::empty(),
            shuffle_mode: false,
            autoplay_mode: false,
            shuffle_order: None,
        }
    }
}

impl Default for QConnectQueueState {
    fn default() -> (r: Self)
        ensures
            r@ == QueueStateView::initial(),
    {
        let r = QConnectQueueState {
            version: QueueVersion::default(),
            queue_items: Vec::new(),
            shuffle_mode: false,
            autoplay_mode: false,
            shuffle_order: None,
        };
        assert(r@.items =~= Seq::<QueueItemView>::empty());
        r
    }
}

impl Clone for QConnectQueueState {
    fn clone(&self) -> (r: Self)
        ensures
            r@ == self@,
    {
        QConnectQueueState {
            version: self.version,
            queue_items: queue::clone_items(&self.queue_items),
            shuffle_mode: self.shuffle_mode,
            autoplay_mode: self.autoplay_mode,
            shuffle_order: match &self.shuffle_order {
                Some(order) => {
                    let copy = order.clone();
                    assert(copy@ =~= order@);
                    Some(copy)
                },
                None => None,
            },
        }
    }
}

/// The remote renderer as last heard.
#[derive(Debug, PartialEq, Eq)]
pub struct QConnectRendererState {
    pub current_track: Option<QueueItem>,
    pub next_track: Option<QueueItem>,
    pub current_position_ms: Option<u64>,
    pub playing_state: Option<i32>,
}

/// What the renderer state says.
pub struct RendererStateView {
    pub current_track: Option<QueueItemView>,
    pub next_track: Option<QueueItemView>,
    pub current_position_ms: Option<u64>,
    pub playing_state: Option<i32>,
}

impl View for QConnectRendererState {
    type V = RendererStateView;

    open spec fn view(&self) -> RendererStateView {
        RendererStateView {
            current_track: queue::item_view(self.current_track),
            next_track: queue::item_view(self.next_track),
            current_position_ms: self.current_position_ms,
            playing_state: self.playing_state,
        }
    }
}

impl RendererStateView {
    /// The renderer before anything was heard of it.
    pub open spec fn initial() -> Self {
        RendererStateView {
            current_track: None,
            next_track: None,
            current_position_ms: None,
            playing_state: None,
        }
    }
}

impl Default for QConnectRendererState {
    fn default() -> (r: Self)
        ensures
            r@ == RendererStateView::initial(),
    {
        QConnectRendererState {
            current_track: None,
            next_track: None,
            current_position_ms: None,
            playing_state: None,
        }
    }
}

impl Clone for QConnectRendererState {
    fn clone(&self) -> (r: Self)
        ensures
            r@ == self@,
    {
        QConnectRendererState {
            current_track: queue::clone_item(&self.current_track),
            next_track: queue::clone_item(&self.next_track),
            current_position_ms: self.current_position_ms,
            playing_state: self.playing_state,
        }
    }
}

/// A command to this renderer.
#[derive(Debug, PartialEq, Eq)]
pub enum RendererCommand {
    SetState {
        playing_state: Option<i32>,
        current_position_ms: Option<u64>,
        current_track: Option<QueueItem>,
        next_track: Option<QueueItem>,
    },
    SetVolume { volume: Option<i32>, volume_delta: Option<i32> },
    MuteVolume { value: bool },
    SetMaxAudioQuality { max_audio_quality: i32 },
    SetActive { active: bool },
    SetLoopMode { loop_mode: i32 },
    SetShuffleMode { shuffle_mode: bool },
}

/// What a renderer command says.
pub enum RendererCommandView {
    SetState {
        playing_state: Option<i32>,
        current_position_ms: Option<u64>,
        current_track: Option<QueueItemView>,
        next_track: Option<QueueItemView>,
    },
    SetVolume { volume: Option<i32>, volume_delta: Option<i32> },
    MuteVolume { value: bool },
    SetMaxAudioQuality { max_audio_quality: i32 },
    SetActive { active: bool },
    SetLoopMode { loop_mode: i32 },
    SetShuffleMode { shuffle_mode: bool },
}

impl View for RendererCommand {
    type V = RendererCommandView;

    open spec fn view(&self) -> RendererCommandView {
        match *self {
            RendererCommand::SetState {
                playing_state,
                current_position_ms,
                current_track,
                next_track,
            } => RendererCommandView::SetState {
                playing_state,
                current_position_ms,
                current_track: queue::item_view(current_track),
                next_track: queue::item_view(next_track),
            },
            RendererCommand::SetVolume { volume, volume_delta } => RendererCommandView::SetVolume {
                volume,
                volume_delta,
            },
            RendererCommand::MuteVolume { value } => RendererCommandView::MuteVolume { value },
            RendererCommand::SetMaxAudioQuality { max_audio_quality } =>
                RendererCommandView::SetMaxAudioQuality { max_audio_quality },
            RendererCommand::SetActive { active } => RendererCommandView::SetActive { active },
            RendererCommand::SetLoopMode { loop_mode } => RendererCommandView::SetLoopMode {
                loop_mode,
            },
            RendererCommand::SetShuffleMode { shuffle_mode } =>
                RendererCommandView::SetShuffleMode { shuffle_mode },
        }
    }
}

/// What the client tells its listener.
#[derive(Debug, PartialEq, Eq)]
pub enum QconnectAppEvent {
    QueueUpdated(QConnectQueueState),
    RendererCommandApplied { command: RendererCommand },
    RendererUpdated(QConnectRendererState),
    SessionManagementEvent { message_type: String, payload: Json },
    PendingActionTimedOut { uuid: String, timeout_ms: u64 },
}

/// What such an event says.
pub enum AppEventView {
    QueueUpdated(QueueStateView),
    RendererCommandApplied(RendererCommandView),
    RendererUpdated(RendererStateView),
    SessionManagementEvent { message_type: Seq<char>, payload: JsonView },
    PendingActionTimedOut { uuid: Seq<char>, timeout_ms: u64 },
}

impl View for QconnectAppEvent {
    type V = AppEventView;

    open spec fn view(&self) -> AppEventView {
        match *self {
            QconnectAppEvent::QueueUpdated(queue) => AppEventView::QueueUpdated(queue@),
            QconnectAppEvent::RendererCommandApplied { command } =>
                AppEventView::RendererCommandApplied(command@),
            QconnectAppEvent::RendererUpdated(renderer) => AppEventView::RendererUpdated(renderer@),
            QconnectAppEvent::SessionManagementEvent { message_type, payload } =>
                AppEventView::SessionManagementEvent {
                message_type: message_type@,
                payload: payload@,
            },
            QconnectAppEvent::PendingActionTimedOut { uuid, timeout_ms } =>
                AppEventView::PendingActionTimedOut { uuid: uuid@, timeout_ms },
        }
    }
}

// ---------------------------------------------------------------------------
// Laws
// ---------------------------------------------------------------------------

/// What is said of a queue and of a renderer is what they are.
pub proof fn states_are_said_as_they_are(queue: QConnectQueueState, renderer: QConnectRendererState)
    ensures
        queue@.version == queue.version,
        queue@.items == queue::queue_view(queue.queue_items@),
        queue@.shuffle_mode == queue.shuffle_mode,
        queue@.autoplay_mode == queue.autoplay_mode,
        queue.shuffle_order matches Some(order) ==> queue@.shuffle_order == Some(order@),
        queue.shuffle_order is None ==> queue@.shuffle_order is None,
        renderer@.current_track == queue::item_view(renderer.current_track),
        renderer@.next_track == queue::item_view(renderer.next_track),
        renderer@.current_position_ms == renderer.current_position_ms,
        renderer@.playing_state == renderer.playing_state,
{
}

/// What is said of a command to the renderer and of an event is what they are.
pub proof fn commands_and_events_are_said_as_they_are(
    command: RendererCommand,
    event: QconnectAppEvent,
)
    ensures
        match command {
            RendererCommand::SetState {
                playing_state,
                current_position_ms,
                current_track,
                next_track,
            } => command@ == (RendererCommandView::SetState {
                playing_state,
                current_position_ms,
                current_track: queue::item_view(current_track),
                next_track: queue::item_view(next_track),
            }),
            RendererCommand::SetVolume { volume, volume_delta } => command@ == (
            RendererCommandView::SetVolume { volume, volume_delta }),
            RendererCommand::MuteVolume { value } => command@ == (RendererCommandView::MuteVolume {
                value,
            }),
            RendererCommand::SetMaxAudioQuality { max_audio_quality } => command@ == (
            RendererCommandView::SetMaxAudioQuality { max_audio_quality }),
            RendererCommand::SetActive { active } => command@ == (RendererCommandView::SetActive {
                active,
            }),
            RendererCommand::SetLoopMode { loop_mode } => command@ == (
            RendererCommandView::SetLoopMode { loop_mode }),
            RendererCommand::SetShuffleMode { shuffle_mode } => command@ == (
            RendererCommandView::SetShuffleMode { shuffle_mode }),
        },
        match event {
            QconnectAppEvent::QueueUpdated(queue) => event@ == AppEventView::QueueUpdated(queue@),
            QconnectAppEvent::RendererCommandApplied { command: applied } => event@
                == AppEventView::RendererCommandApplied(applied@),
            QconnectAppEvent::RendererUpdated(renderer) => event@ == AppEventView::RendererUpdated(
                renderer@,
            ),
            QconnectAppEvent::SessionManagementEvent { message_type, payload } => event@ == (
            AppEventView::SessionManagementEvent {
                message_type: message_type@,
                payload: payload@,
            }),
            QconnectAppEvent::PendingActionTimedOut { uuid, timeout_ms } => event@ == (
            AppEventView::PendingActionTimedOut { uuid: uuid@, timeout_ms }),
        },
{
}

} // verus!
