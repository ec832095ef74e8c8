//! The messages that travel between this client and the server.

use vstd::prelude::*;

use crate::json::{Json, JsonView};
use crate::queue::QueueVersion;

verus! {

pub const PLAYING_STATE_STOPPED: i32 = 1;

pub const PLAYING_STATE_PLAYING: i32 = 2;

pub const PLAYING_STATE_PAUSED: i32 = 3;

pub const BUFFER_STATE_OK: i32 = 2;

pub const JOIN_SESSION_REASON_CONTROLLER_REQUEST: i32 = 1;

pub const AUDIO_QUALITY_MP3: i32 = 1;

pub const AUDIO_QUALITY_HIRES_LEVEL2: i32 = 4;

pub const VOLUME_REMOTE_CONTROL_ALLOWED: i32 = 2;

/// The commands that this client sends to the server.
#[derive(Debug, Clone, Copy, PartialEq, Eq, Structural)]
pub enum QueueCommandType {
    CtrlSrvrJoinSession,
    CtrlSrvrAskForQueueState,
    CtrlSrvrQueueLoadTracks,
    CtrlSrvrQueueAddTracks,
    CtrlSrvrQueueInsertTracks,
    CtrlSrvrClearQueue,
    CtrlSrvrSetPlayerState,
    CtrlSrvrSetVolume,
    CtrlSrvrMuteVolume,
    CtrlSrvrSetShuffleMode,
    CtrlSrvrSetLoopMode,
}

/// A command with the identifier that the server answers to.
#[derive(Debug, PartialEq, Eq)]
pub struct QueueCommand {
    pub command_type: QueueCommandType,
    pub action_uuid: String,
    pub queue_version: QueueVersion,
    pub payload: Json,
}

/// What a command says.
pub struct QueueCommandView {
    pub command_type: QueueCommandType,
    pub action_uuid: Seq<char>,
    pub queue_version: QueueVersion,
    pub payload: JsonView,
}

impl View for QueueCommand {
    type V = QueueCommandView;

    open spec fn view(&self) -> QueueCommandView {
        QueueCommandView {
            command_type: self.command_type,
            action_uuid: self.action_uuid@,
            queue_version: self.queue_version,
            payload: self.payload@,
        }
    }
}

impl QueueCommand {
    pub fn new(
        command_type: QueueCommandType,
        action_uuid: String,
        queue_version: QueueVersion,
        payload: Json,
    ) -> (r: Self)
        ensures
            r@ == (QueueCommandView {
                command_type,
                action_uuid: action_uuid@,
                queue_version,
                payload: payload@,
            }),
    {
        QueueCommand { command_type, action_uuid, queue_version, payload }
    }
}

/// The kinds of queue event that the client acts on; every other kind is
/// `Other` and is only passed on.
#[derive(Debug, Clone, Copy, PartialEq, Eq, Structural)]
pub enum QueueEventType {
    SrvrCtrlQueueState,
    SrvrCtrlQueueTracksLoaded,
    SrvrCtrlQueueTracksAdded,
    SrvrCtrlQueueTracksInserted,
    SrvrCtrlQueueTracksRemoved,
    SrvrCtrlQueueCleared,
    SrvrCtrlRendererStateUpdated,
    SrvrCtrlLoopModeSet,
    SrvrCtrlShuffleModeSet,
    Other,
}

/// An event about the queue or the session, as the server sent it.
#[derive(Debug, PartialEq, Eq)]
pub struct QueueServerEvent {
    pub event_type: QueueEventType,
    pub message_type: String,
    pub queue_version: Option<QueueVersion>,
    pub payload: Json,
}

/// What a server event says.
pub struct QueueServerEventView {
    pub event_type: QueueEventType,
    pub message_type: Seq<char>,
    pub queue_version: Option<QueueVersion>,
    pub payload: JsonView,
}

impl View for QueueServerEvent {
    type V = QueueServerEventView;

    open spec fn view(&self) -> QueueServerEventView {
        QueueServerEventView {
            event_type: self.event_type,
            message_type: self.message_type@,
            queue_version: self.queue_version,
            payload: self.payload@,
        }
    }
}

/// The commands that the server sends to a renderer.
#[derive(Debug, Clone, Copy, PartialEq, Eq, Structural)]
pub enum RendererCommandType {
    SrvrRndrSetState,
    SrvrRndrSetVolume,
    SrvrRndrSetActive,
    SrvrRndrSetMaxAudioQuality,
    SrvrRndrSetLoopMode,
    SrvrRndrSetShuffleMode,
    SrvrRndrMuteVolume,
}

/// A renderer command, as the server sent it.
#[derive(Debug, PartialEq, Eq)]
pub struct RendererServerCommand {
    pub command_type: RendererCommandType,
    pub payload: Json,
}

/// The reports that a renderer sends to the server.
#[derive(Debug, Clone, Copy, PartialEq, Eq, Structural)]
pub enum RendererReportType {
    RndrSrvrJoinSession,
    RndrSrvrStateUpdated,
    RndrSrvrVolumeChanged,
    RndrSrvrMaxAudioQualityChanged,
}

/// A renderer report.
#[derive(Debug, PartialEq, Eq)]
pub struct RendererReport {
    pub report_type: RendererReportType,
    pub action_uuid: String,
    pub queue_version: QueueVersion,
    pub payload: Json,
}

/// What a report says.
pub struct RendererReportView {
    pub report_type: RendererReportType,
    pub action_uuid: Seq<char>,
    pub queue_version: QueueVersion,
    pub payload: JsonView,
}

impl View for RendererReport {
    type V = RendererReportView;

    open spec fn view(&self) -> RendererReportView {
        RendererReportView {
            report_type: self.report_type,
            action_uuid: self.action_uuid@,
            queue_version: self.queue_version,
            payload: self.payload@,
        }
    }
}

impl RendererReport {
    pub fn new(
        report_type: RendererReportType,
        action_uuid: String,
        queue_version: QueueVersion,
        payload: Json,
    ) -> (r: Self)
        ensures
            r@ == (RendererReportView {
                report_type,
                action_uuid: action_uuid@,
                queue_version,
                payload: payload@,
            }),
    {
        RendererReport { report_type, action_uuid, queue_version, payload }
    }
}

/// What the connection to the server reports.
#[derive(Debug, PartialEq, Eq)]
pub enum TransportEvent {
    Connected,
    Disconnected,
    Authenticated,
    Subscribed,
    ReconnectScheduled { attempt: u64, backoff_ms: u64, reason: String },
    TransportError { stage: String, message: String },
    InboundQueueServerEvent(QueueServerEvent),
    InboundRendererServerCommand(RendererServerCommand),
    Other,
}

} // verus!
