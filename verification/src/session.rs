//! A session with the server: how this client announces itself, joins as a
//! renderer, and reports how playback stands.

use vstd::prelude::*;

use crate::app_types::{
    QConnectQueueState, QConnectRendererState, QueueStateView, RendererStateView,
};
use crate::commands;
use crate::commands::{QueueRequest, RequestView};
use crate::device;
use crate::ids;
use crate::json;
use crate::json::{Json, JsonView, ObjectBuilder};
use crate::mpris;
use crate::notices;
use crate::playback::PlaybackSnapshot;
use crate::printer;
use crate::printer::Notice;
use crate::protocol::{
    QueueCommandType, RendererReport, RendererReportType, RendererReportView, TransportEvent,
    AUDIO_QUALITY_HIRES_LEVEL2, BUFFER_STATE_OK, JOIN_SESSION_REASON_CONTROLLER_REQUEST,
    PLAYING_STATE_PLAYING, PLAYING_STATE_STOPPED,
};
use crate::queue;
use crate::queue::{QueueItemView, QueueVersion};

verus! {

// ---------------------------------------------------------------------------
// Following the connection
// ---------------------------------------------------------------------------

/// What is remembered from one report of the connection to the next.
#[derive(Debug, Clone, Copy, PartialEq, Eq, Structural)]
pub struct SessionState {
    pub renderer_joined: bool,
    pub has_disconnected: bool,
}

/// What is to be done about a report of the connection, in this order: join
/// the session of that identifier as a renderer, tell of it, and announce this
/// client anew.
#[derive(Debug, PartialEq, Eq)]
pub struct SessionStep {
    pub join: Option<String>,
    pub notice: Option<Notice>,
    pub bootstrap: bool,
}

/// The session that a report of the connection opens to a renderer.
pub open spec fn opened_session(event: TransportEvent) -> Option<Seq<char>> {
    match event {
        TransportEvent::InboundQueueServerEvent(evt) => if evt.message_type@
            == "MESSAGE_TYPE_SRVR_CTRL_SESSION_STATE"@ {
            json::member_text(evt.payload@, "session_uuid"@)
        } else {
            None
        },
        _ => None,
    }
}

impl SessionState {
    pub open spec fn initial() -> SessionState {
        SessionState { renderer_joined: false, has_disconnected: false }
    }

    /// The session to join, when this client is a renderer and has not joined.
    pub open spec fn session_to_join(self, enable_renderer: bool, event: TransportEvent) -> Option<
        Seq<char>,
    > {
        if enable_renderer && !self.renderer_joined {
            opened_session(event)
        } else {
            None
        }
    }

    /// Whether this client is to announce itself anew: it has been connected
    /// before and is subscribed again.
    pub open spec fn announces(self, event: TransportEvent) -> bool {
        event is Subscribed && self.has_disconnected
    }

    pub open spec fn after(self, enable_renderer: bool, event: TransportEvent) -> SessionState {
        SessionState {
            renderer_joined: if event is Disconnected {
                false
            } else {
                self.renderer_joined || self.session_to_join(enable_renderer, event) is Some
            },
            has_disconnected: if event is Disconnected {
                true
            } else {
                self.has_disconnected && !(event is Subscribed)
            },
        }
    }

    pub fn new() -> (r: SessionState)
        ensures
            r == SessionState::initial(),
    {
        SessionState { renderer_joined: false, has_disconnected: false }
    }

    fn find_session(&self, enable_renderer: bool, event: &TransportEvent) -> (r: Option<String>)
        ensures
            commands::setting_view(r) == self.session_to_join(enable_renderer, *event),
    {
        if !enable_renderer || self.renderer_joined {
            return None;
        }
        match event {
            TransportEvent::InboundQueueServerEvent(evt) => {
                if *evt.message_type.as_str() == *"MESSAGE_TYPE_SRVR_CTRL_SESSION_STATE" {
                    match evt.payload.get_str("session_uuid") {
                        Some(uuid) => Some(uuid.to_owned()),
                        None => None,
                    }
                } else {
                    None
                }
            },
            _ => None,
        }
    }

    /// Takes a report of the connection and says what is to be done about it.
    pub fn on_transport_event(&mut self, enable_renderer: bool, event: &TransportEvent) -> (r:
        SessionStep)
        ensures
            *final(self) == old(self).after(enable_renderer, *event),
            commands::setting_view(r.join) == old(self).session_to_join(enable_renderer, *event),
            printer::notice_view(r.notice) == notices::transport_told(*event),
            r.bootstrap == old(self).announces(*event),
    {
        let join = self.find_session(enable_renderer, event);
        if join.is_some() {
            self.renderer_joined = true;
        }
        let notice = notices::transport_event(event);
        let mut bootstrap = false;
        match event {
            TransportEvent::Disconnected => {
                self.renderer_joined = false;
                self.has_disconnected = true;
            },
            TransportEvent::Subscribed => {
                if self.has_disconnected {
                    self.has_disconnected = false;
                    bootstrap = true;
                }
            },
            _ => {},
        }
        SessionStep { join, notice, bootstrap }
    }
}

// ---------------------------------------------------------------------------
// Announcing this client
// ---------------------------------------------------------------------------

/// What a controller says to join a session that is still to be opened.
pub open spec fn announcement_said(device_info: JsonView) -> JsonView {
    JsonView::Object(seq![("session_uuid"@, JsonView::Null), ("device_info"@, device_info)])
}

/// What announces this client: it joins, and asks for the queue.
pub open spec fn announcement(name: Seq<char>, uuid: Seq<char>, version: Seq<char>) -> Seq<
    RequestView,
> {
    seq![
        RequestView {
            command_type: QueueCommandType::CtrlSrvrJoinSession,
            payload: announcement_said(device::device_said(name, uuid, version)),
        },
        RequestView {
            command_type: QueueCommandType::CtrlSrvrAskForQueueState,
            payload: printer::empty_object(),
        },
    ]
}

/// The request for the queue.
pub fn ask_queue_state() -> (r: QueueRequest)
    ensures
        r@ == (RequestView {
            command_type: QueueCommandType::CtrlSrvrAskForQueueState,
            payload: printer::empty_object(),
        }),
{
    QueueRequest {
        command_type: QueueCommandType::CtrlSrvrAskForQueueState,
        payload: ObjectBuilder::new().build(),
    }
}

/// The requests that announce this client.
pub fn bootstrap_remote_presence(device_name: &str, device_uuid: &str, version: &str) -> (r: Vec<
    QueueRequest,
>)
    ensures
        commands::requests_view(r@) == announcement(device_name@, device_uuid@, version@),
{
    let mut said = ObjectBuilder::new();
    said.put("session_uuid", Json::Null);
    said.put("device_info", device::build_device_info(device_name, device_uuid, version));
    assert(said@ =~= announcement_said(
        device::device_said(device_name@, device_uuid@, version@),
    )->Object_0);
    let mut requests: Vec<QueueRequest> = Vec::new();
    requests.push(
        QueueRequest {
            command_type: QueueCommandType::CtrlSrvrJoinSession,
            payload: said.build(),
        },
    );
    requests.push(ask_queue_state());
    assert(commands::requests_view(requests@) =~= announcement(
        device_name@,
        device_uuid@,
        version@,
    ));
    requests
}

// ---------------------------------------------------------------------------
// Joining as a renderer
// ---------------------------------------------------------------------------

/// How long the server is given to take the reports in.
pub const SETTLE_MS: u64 = 500;

/// What joining as a renderer has come to.
#[derive(Debug, Clone, Copy, PartialEq, Eq, Structural)]
pub enum JoinStage {
    Join,
    State,
    Volume,
    Quality,
    Settle,
    Refresh,
    Done,
}

/// The stage after `stage`: only a join that fails ends it early.
pub open spec fn stage_after(stage: JoinStage, ok: bool) -> JoinStage {
    match stage {
        JoinStage::Join => if ok {
            JoinStage::State
        } else {
            JoinStage::Done
        },
        JoinStage::State => JoinStage::Volume,
        JoinStage::Volume => JoinStage::Quality,
        JoinStage::Quality => JoinStage::Settle,
        JoinStage::Settle => JoinStage::Refresh,
        JoinStage::Refresh => JoinStage::Done,
        JoinStage::Done => JoinStage::Done,
    }
}

/// What a report of playback says.
pub open spec fn playback_said(
    playing_state: i32,
    position_ms: u64,
    duration_ms: u64,
    version: QueueVersion,
) -> JsonView {
    JsonView::Object(
        seq![
            ("playing_state"@, json::signed_view(playing_state as i64)),
            ("buffer_state"@, json::signed_view(BUFFER_STATE_OK as i64)),
            ("current_position"@, json::unsigned_view(position_ms)),
            ("duration"@, json::unsigned_view(duration_ms)),
            ("queue_version"@, notices::version_said(version)),
        ],
    )
}

fn playback_json(playing_state: i32, position_ms: u64, duration_ms: u64, version: &QueueVersion) -> (r:
    Json)
    ensures
        r@ == playback_said(playing_state, position_ms, duration_ms, *version),
{
    let mut said = ObjectBuilder::new();
    said.put("playing_state", Json::signed(playing_state as i64));
    said.put("buffer_state", Json::signed(BUFFER_STATE_OK as i64));
    said.put("current_position", Json::unsigned(position_ms));
    said.put("duration", Json::unsigned(duration_ms));
    said.put("queue_version", notices::version_json(version));
    assert(said@ =~= playback_said(playing_state, position_ms, duration_ms, *version)->Object_0);
    said.build()
}

/// What a renderer says before it plays anything.
pub open spec fn nothing_played(version: QueueVersion) -> JsonView {
    playback_said(PLAYING_STATE_STOPPED, 0, 0, version)
}

/// What a renderer says to join a session.
pub open spec fn join_said(session_uuid: Seq<char>, device_info: JsonView, version: QueueVersion)
    -> JsonView {
    JsonView::Object(
        seq![
            ("session_uuid"@, JsonView::Text(session_uuid)),
            ("device_info"@, device_info),
            ("is_active"@, JsonView::Bool(true)),
            ("reason"@, json::signed_view(JOIN_SESSION_REASON_CONTROLLER_REQUEST as i64)),
            ("initial_state"@, nothing_played(version)),
        ],
    )
}

fn join_json(session_uuid: &str, device_info: Json, version: &QueueVersion) -> (r: Json)
    ensures
        r@ == join_said(session_uuid@, device_info@, *version),
{
    let ghost info = device_info@;
    let mut said = ObjectBuilder::new();
    said.put("session_uuid", Json::text(session_uuid));
    said.put("device_info", device_info);
    said.put("is_active", Json::Bool(true));
    said.put("reason", Json::signed(JOIN_SESSION_REASON_CONTROLLER_REQUEST as i64));
    said.put("initial_state", playback_json(PLAYING_STATE_STOPPED, 0, 0, version));
    assert(said@ =~= join_said(session_uuid@, info, *version)->Object_0);
    said.build()
}

/// What is to be done in a stage of joining.
#[derive(Debug, PartialEq, Eq)]
pub enum JoinStep {
    Report(RendererReport),
    /// Let this many milliseconds pass.
    Settle(u64),
    Request(QueueRequest),
    Done,
}

pub enum JoinStepView {
    Report(RendererReportView),
    Settle(u64),
    Request(RequestView),
    Done,
}

impl View for JoinStep {
    type V = JoinStepView;

    open spec fn view(&self) -> JoinStepView {
        match *self {
            JoinStep::Report(report) => JoinStepView::Report(report@),
            JoinStep::Settle(ms) => JoinStepView::Settle(ms),
            JoinStep::Request(request) => JoinStepView::Request(request@),
            JoinStep::Done => JoinStepView::Done,
        }
    }
}

/// A renderer that is joining a session.
#[derive(Debug, PartialEq, Eq)]
pub struct RendererJoin {
    pub stage: JoinStage,
    pub session_uuid: String,
    pub device_info: Json,
    pub queue_version: QueueVersion,
}

impl RendererJoin {
    /// What is to be done now, with an identifier for a report.
    pub open spec fn step_with(self, action_uuid: Seq<char>) -> JoinStepView {
        let queue_version = self.queue_version;
        match self.stage {
            JoinStage::Join => JoinStepView::Report(
                RendererReportView {
                    report_type: RendererReportType::RndrSrvrJoinSession,
                    action_uuid,
                    queue_version,
                    payload: join_said(self.session_uuid@, self.device_info@, queue_version),
                },
            ),
            JoinStage::State => JoinStepView::Report(
                RendererReportView {
                    report_type: RendererReportType::RndrSrvrStateUpdated,
                    action_uuid,
                    queue_version,
                    payload: nothing_played(queue_version),
                },
            ),
            JoinStage::Volume => JoinStepView::Report(
                RendererReportView {
                    report_type: RendererReportType::RndrSrvrVolumeChanged,
                    action_uuid,
                    queue_version,
                    payload: JsonView::Object(seq![("volume"@, json::unsigned_view(100))]),
                },
            ),
            JoinStage::Quality => JoinStepView::Report(
                RendererReportView {
                    report_type: RendererReportType::RndrSrvrMaxAudioQualityChanged,
                    action_uuid,
                    queue_version,
                    payload: JsonView::Object(
                        seq![
                            (
                                "max_audio_quality"@,
                                json::signed_view(AUDIO_QUALITY_HIRES_LEVEL2 as i64),
                            ),
                        ],
                    ),
                },
            ),
            JoinStage::Settle => JoinStepView::Settle(SETTLE_MS),
            JoinStage::Refresh => JoinStepView::Request(
                RequestView {
                    command_type: QueueCommandType::CtrlSrvrAskForQueueState,
                    payload: printer::empty_object(),
                },
            ),
            JoinStage::Done => JoinStepView::Done,
        }
    }

    pub fn new(session_uuid: String, device_info: Json, queue_version: QueueVersion) -> (r:
        RendererJoin)
        ensures
            r == (RendererJoin {
                stage: JoinStage::Join,
                session_uuid,
                device_info,
                queue_version,
            }),
    {
        RendererJoin { stage: JoinStage::Join, session_uuid, device_info, queue_version }
    }

    /// What is to be done now; a report goes under this identifier.
    pub fn step_as(&self, action_uuid: String) -> (r: JoinStep)
        ensures
            r@ == self.step_with(action_uuid@),
    {
        match self.stage {
            JoinStage::Join => JoinStep::Report(
                RendererReport::new(
                    RendererReportType::RndrSrvrJoinSession,
                    action_uuid,
                    self.queue_version,
                    join_json(
                        self.session_uuid.as_str(),
                        self.device_info.clone(),
                        &self.queue_version,
                    ),
                ),
            ),
            JoinStage::State => JoinStep::Report(
                RendererReport::new(
                    RendererReportType::RndrSrvrStateUpdated,
                    action_uuid,
                    self.queue_version,
                    playback_json(PLAYING_STATE_STOPPED, 0, 0, &self.queue_version),
                ),
            ),
            JoinStage::Volume => {
                let mut said = ObjectBuilder::new();
                said.put("volume", Json::unsigned(100));
                assert(said@ =~= seq![("volume"@, json::unsigned_view(100))]);
                JoinStep::Report(
                    RendererReport::new(
                        RendererReportType::RndrSrvrVolumeChanged,
                        action_uuid,
                        self.queue_version,
                        said.build(),
                    ),
                )
            },
            JoinStage::Quality => {
                let mut said = ObjectBuilder::new();
                said.put("max_audio_quality", Json::signed(AUDIO_QUALITY_HIRES_LEVEL2 as i64));
                assert(said@ =~= seq![
                    ("max_audio_quality"@, json::signed_view(AUDIO_QUALITY_HIRES_LEVEL2 as i64)),
                ]);
                JoinStep::Report(
                    RendererReport::new(
                        RendererReportType::RndrSrvrMaxAudioQualityChanged,
                        action_uuid,
                        self.queue_version,
                        said.build(),
                    ),
                )
            },
            JoinStage::Settle => JoinStep::Settle(SETTLE_MS),
            JoinStage::Refresh => JoinStep::Request(ask_queue_state()),
            JoinStage::Done => JoinStep::Done,
        }
    }

    /// What is to be done now; a report goes under a random identifier.
    pub fn step(&self) -> (r: JoinStep)
        ensures
            exists|action_uuid: Seq<char>|
                ids::is_v4_text(action_uuid) && r@ == #[trigger] self.step_with(action_uuid),
    {
        self.step_as(ids::fresh_uuid())
    }

    /// Goes on to the next stage, after what was done in this one went well or
    /// not.
    pub fn advance(&mut self, ok: bool)
        ensures
            *final(self) == (RendererJoin {
                stage: stage_after(old(self).stage, ok),
                ..*old(self)
            }),
    {
        self.stage = match self.stage {
            JoinStage::Join => if ok {
                JoinStage::State
            } else {
                JoinStage::Done
            },
            JoinStage::State => JoinStage::Volume,
            JoinStage::Volume => JoinStage::Quality,
            JoinStage::Quality => JoinStage::Settle,
            JoinStage::Settle => JoinStage::Refresh,
            JoinStage::Refresh => JoinStage::Done,
            JoinStage::Done => JoinStage::Done,
        };
    }
}

// ---------------------------------------------------------------------------
// Reporting playback
// ---------------------------------------------------------------------------

/// The periodic reports of a renderer: which entry of the queue it has gone on
/// from by itself.
#[derive(Debug, Clone, Copy, PartialEq, Eq, Structural)]
pub struct StateReporter {
    pub advanced_from: Option<u64>,
}

/// What a renderer does when a report is due.
#[derive(Debug, PartialEq, Eq)]
pub enum ReportAction {
    /// Ask the server for the next track.
    Advance(QueueRequest),
    Report(RendererReport),
}

pub enum ReportActionView {
    Advance(RequestView),
    Report(RendererReportView),
}

impl View for ReportAction {
    type V = ReportActionView;

    open spec fn view(&self) -> ReportActionView {
        match *self {
            ReportAction::Advance(request) => ReportActionView::Advance(request@),
            ReportAction::Report(report) => ReportActionView::Report(report@),
        }
    }
}

/// The id of the renderer's current entry.
pub open spec fn current_id(renderer: RendererStateView) -> Option<u64> {
    match renderer.current_track {
        Some(track) => Some(track.queue_item_id),
        None => None,
    }
}

impl StateReporter {
    pub open spec fn initial() -> StateReporter {
        StateReporter { advanced_from: None }
    }

    /// Whether the current entry has ended and was not yet gone on from.
    pub open spec fn leaves_entry(self, snapshot: PlaybackSnapshot, renderer: RendererStateView)
        -> bool {
        snapshot.finished && current_id(renderer) is Some && current_id(renderer)
            != self.advanced_from
    }

    pub open spec fn after(self, snapshot: PlaybackSnapshot, renderer: RendererStateView)
        -> StateReporter {
        StateReporter {
            advanced_from: if self.leaves_entry(snapshot, renderer) {
                current_id(renderer)
            } else if !snapshot.finished && snapshot.playing_state == PLAYING_STATE_PLAYING {
                None
            } else {
                self.advanced_from
            },
        }
    }

    /// What a renderer does: it goes on to the next entry when there is one,
    /// else it reports, under this identifier.
    pub open spec fn action_with(
        self,
        snapshot: PlaybackSnapshot,
        renderer: RendererStateView,
        queue: QueueStateView,
        action_uuid: Seq<char>,
    ) -> ReportActionView {
        let target = mpris::neighbour(renderer, queue, 1);
        if self.leaves_entry(snapshot, renderer) && target is Some {
            ReportActionView::Advance(
                RequestView {
                    command_type: QueueCommandType::CtrlSrvrSetPlayerState,
                    payload: mpris::mpris_state_request(
                        PLAYING_STATE_PLAYING,
                        target,
                        renderer,
                        queue,
                    ),
                },
            )
        } else {
            ReportActionView::Report(
                RendererReportView {
                    report_type: RendererReportType::RndrSrvrStateUpdated,
                    action_uuid,
                    queue_version: queue.version,
                    payload: playback_said(
                        snapshot.playing_state,
                        snapshot.current_position_ms,
                        snapshot.duration_ms,
                        queue.version,
                    ),
                },
            )
        }
    }

    pub fn new() -> (r: StateReporter)
        ensures
            r == StateReporter::initial(),
    {
        StateReporter { advanced_from: None }
    }

    /// Says what a renderer does when a report is due; a report goes under this
    /// identifier.
    pub fn tick_as(
        &mut self,
        snapshot: &PlaybackSnapshot,
        renderer: &QConnectRendererState,
        queue: &QConnectQueueState,
        action_uuid: String,
    ) -> (r: ReportAction)
        ensures
            *final(self) == old(self).after(*snapshot, renderer@),
            r@ == old(self).action_with(*snapshot, renderer@, queue@, action_uuid@),
    {
        if snapshot.finished {
            if let Some(track) = &renderer.current_track {
                let current: u64 = track.queue_item_id;
                let already = match self.advanced_from {
                    Some(id) => id == current,
                    None => false,
                };
                if !already {
                    self.advanced_from = Some(current);
                    let target = mpris::adjacent_queue_item(renderer, queue, 1);
                    if target.is_some() {
                        return ReportAction::Advance(
                            QueueRequest {
                                command_type: QueueCommandType::CtrlSrvrSetPlayerState,
                                payload: mpris::mpris_player_state(
                                    PLAYING_STATE_PLAYING,
                                    target,
                                    renderer,
                                    queue,
                                ),
                            },
                        );
                    }
                }
            }
        } else if snapshot.playing_state == PLAYING_STATE_PLAYING {
            self.advanced_from = None;
        }
        ReportAction::Report(
            RendererReport::new(
                RendererReportType::RndrSrvrStateUpdated,
                action_uuid,
                queue.version,
                playback_json(
                    snapshot.playing_state,
                    snapshot.current_position_ms,
                    snapshot.duration_ms,
                    &queue.version,
                ),
            ),
        )
    }

    /// Says what a renderer does when a report is due; a report goes under a
    /// random identifier.
    pub fn tick(
        &mut self,
        snapshot: &PlaybackSnapshot,
        renderer: &QConnectRendererState,
        queue: &QConnectQueueState,
    ) -> (r: ReportAction)
        ensures
            *final(self) == old(self).after(*snapshot, renderer@),
            exists|action_uuid: Seq<char>|
                ids::is_v4_text(action_uuid) && r@ == #[trigger] old(self).action_with(
                    *snapshot,
                    renderer@,
                    queue@,
                    action_uuid,
                ),
    {
        self.tick_as(snapshot, renderer, queue, ids::fresh_uuid())
    }
}

// ---------------------------------------------------------------------------
// Laws
// ---------------------------------------------------------------------------

/// A renderer joins once: until the connection is lost, nothing makes it join
/// again.
pub proof fn renderer_joins_once(state: SessionState, event: TransportEvent, later: TransportEvent)
    requires
        state.renderer_joined,
        !(event is Disconnected),
    ensures
        state.session_to_join(true, event) is None,
        state.after(true, event).renderer_joined,
        state.after(true, event).session_to_join(true, later) is None,
{
}

/// A client that is no renderer never joins as one.
pub proof fn controllers_do_not_join(state: SessionState, event: TransportEvent)
    ensures
        state.session_to_join(false, event) is None,
        !state.renderer_joined ==> !state.after(false, event).renderer_joined,
{
}

/// After a lost connection the client may join again, and announces itself
/// with the next subscription, once.
pub proof fn reconnection_announces_once(state: SessionState, enable_renderer: bool)
    ensures
        ({
            let lost = state.after(enable_renderer, TransportEvent::Disconnected);
            let back = lost.after(enable_renderer, TransportEvent::Subscribed);
            &&& !lost.renderer_joined
            &&& lost.announces(TransportEvent::Subscribed)
            &&& !back.announces(TransportEvent::Subscribed)
        }),
{
}

/// The first subscription announces nothing: that was done when connecting.
pub proof fn first_subscription_is_quiet(enable_renderer: bool, event: TransportEvent)
    requires
        !(event is Disconnected),
    ensures
        !SessionState::initial().after(enable_renderer, event).announces(
            TransportEvent::Subscribed,
        ),
{
}

/// How many stages are left.
pub open spec fn stages_left(stage: JoinStage) -> nat {
    match stage {
        JoinStage::Join => 6,
        JoinStage::State => 5,
        JoinStage::Volume => 4,
        JoinStage::Quality => 3,
        JoinStage::Settle => 2,
        JoinStage::Refresh => 1,
        JoinStage::Done => 0,
    }
}

/// Joining comes to an end, whatever goes well or not.
pub proof fn joining_comes_to_an_end(stage: JoinStage, ok: bool)
    requires
        !(stage is Done),
    ensures
        stages_left(stage_after(stage, ok)) < stages_left(stage),
        stages_left(stage) == 0 <==> stage is Done,
{
}

/// A renderer that the server does not let in says nothing more.
pub proof fn refused_renderer_is_silent(join: RendererJoin, action_uuid: Seq<char>)
    requires
        join.stage is Join,
    ensures
        (RendererJoin { stage: stage_after(join.stage, false), ..join }).step_with(action_uuid)
            is Done,
{
}

/// Each entry is gone on from once, as long as it is not played again.
pub proof fn entries_are_left_once(
    reporter: StateReporter,
    snapshot: PlaybackSnapshot,
    later: PlaybackSnapshot,
    renderer: RendererStateView,
    queue: QueueStateView,
    action_uuid: Seq<char>,
)
    requires
        reporter.leaves_entry(snapshot, renderer),
        later.finished || later.playing_state != PLAYING_STATE_PLAYING,
    ensures
        ({
            let after = reporter.after(snapshot, renderer);
            &&& after.action_with(later, renderer, queue, action_uuid) is Report
            &&& after.after(later, renderer) == after
        }),
{
}

/// An entry that plays again may be gone on from again.
pub proof fn replayed_entries_are_left_again(
    reporter: StateReporter,
    playing: PlaybackSnapshot,
    ended: PlaybackSnapshot,
    renderer: RendererStateView,
)
    requires
        !playing.finished,
        playing.playing_state == PLAYING_STATE_PLAYING,
        ended.finished,
        renderer.current_track is Some,
    ensures
        reporter.after(playing, renderer).leaves_entry(ended, renderer),
{
}

/// The renderer goes on to the entry behind the one that ended.
pub proof fn advance_goes_to_the_next_entry(
    reporter: StateReporter,
    snapshot: PlaybackSnapshot,
    renderer: RendererStateView,
    queue: QueueStateView,
    action_uuid: Seq<char>,
)
    ensures
        reporter.action_with(snapshot, renderer, queue, action_uuid) is Advance ==> {
            &&& snapshot.finished
            &&& mpris::neighbour(renderer, queue, 1) is Some
            &&& reporter.action_with(snapshot, renderer, queue, action_uuid)->Advance_0.payload
                == mpris::mpris_request(mpris::MprisCommand::Next, renderer, queue)
        },
{
}

/// A renderer joins the session that the server names in its session state,
/// and nothing else makes it join.
pub proof fn renderer_joins_the_named_session(state: SessionState, event: TransportEvent)
    requires
        !state.renderer_joined,
    ensures
        match event {
            TransportEvent::InboundQueueServerEvent(evt) => if evt.message_type@
                == "MESSAGE_TYPE_SRVR_CTRL_SESSION_STATE"@ {
                &&& state.session_to_join(true, event) == json::member_text(
                    evt.payload@,
                    "session_uuid"@,
                )
                &&& state.after(true, event).renderer_joined <==> json::member_text(
                    evt.payload@,
                    "session_uuid"@,
                ) is Some
            } else {
                state.session_to_join(true, event) is None && !state.after(
                    true,
                    event,
                ).renderer_joined
            },
            _ => state.session_to_join(true, event) is None && !state.after(
                true,
                event,
            ).renderer_joined,
        },
{
}

/// That the connection was lost is remembered until the next subscription,
/// whatever else is reported meanwhile, and only a subscription announces the
/// client.
pub proof fn lost_connection_is_remembered(
    state: SessionState,
    enable_renderer: bool,
    event: TransportEvent,
)
    ensures
        event is Disconnected ==> state.after(enable_renderer, event).has_disconnected,
        event is Subscribed ==> !state.after(enable_renderer, event).has_disconnected,
        !(event is Disconnected) && !(event is Subscribed) ==> state.after(
            enable_renderer,
            event,
        ).has_disconnected == state.has_disconnected,
        !(event is Subscribed) ==> !state.announces(event),
        event is Subscribed ==> state.announces(event) == state.has_disconnected,
{
}

/// A client announces itself with its own device to a session that is still to
/// be opened, and then asks for the queue.
pub proof fn announcement_names_the_device(name: Seq<char>, uuid: Seq<char>, version: Seq<char>)
    ensures
        ({
            let requests = announcement(name, uuid, version);
            &&& requests.len() == 2
            &&& requests[0].command_type == QueueCommandType::CtrlSrvrJoinSession
            &&& json::member(requests[0].payload, "session_uuid"@) == Some(JsonView::Null)
            &&& json::member(requests[0].payload, "device_info"@) matches Some(info)
                && json::member_text(info, "device_uuid"@) == Some(uuid) && json::member_text(
                info,
                "friendly_name"@,
            ) == Some(name)
            &&& requests[1].command_type == QueueCommandType::CtrlSrvrAskForQueueState
            &&& requests[1].payload == JsonView::Object(Seq::empty())
        }),
{
    lemma_join_keys();
    let said = announcement(name, uuid, version)[0].payload->Object_0;
    json::lemma_member_at(said, 0);
    json::lemma_member_at(said, 1);
    device::device_says_who_it_is(name, uuid, version);
}

/// The names of the members of what a renderer says when it joins differ.
proof fn lemma_join_keys()
    ensures
        "session_uuid"@.len() == 12,
        "device_info"@.len() == 11,
        "is_active"@.len() == 9,
        "reason"@.len() == 6,
        "initial_state"@.len() == 13,
{
    reveal_strlit("session_uuid");
    reveal_strlit("device_info");
    reveal_strlit("is_active");
    reveal_strlit("reason");
    reveal_strlit("initial_state");
}

/// A report of playback says the state, the position and the duration that it
/// is made of, for the version of the queue, with nothing to be waited for.
pub proof fn playback_reports_say_what_they_are_given(
    playing_state: i32,
    position_ms: u64,
    duration_ms: u64,
    version: QueueVersion,
)
    ensures
        ({
            let said = playback_said(playing_state, position_ms, duration_ms, version);
            &&& json::member_i32(said, "playing_state"@) == Some(playing_state)
            &&& json::member_i32(said, "buffer_state"@) == Some(2i32)
            &&& json::member_u64(said, "current_position"@) == Some(position_ms)
            &&& json::member_u64(said, "duration"@) == Some(duration_ms)
            &&& json::member(said, "queue_version"@) matches Some(v) && json::member_u64(
                v,
                "major"@,
            ) == Some(version.major) && json::member_u64(v, "minor"@) == Some(version.minor)
        }),
{
    reveal_strlit("playing_state");
    reveal_strlit("buffer_state");
    reveal_strlit("current_position");
    reveal_strlit("duration");
    reveal_strlit("queue_version");
    assert("playing_state"@.len() == 13);
    assert("buffer_state"@.len() == 12);
    assert("current_position"@.len() == 16);
    assert("duration"@.len() == 8);
    assert("queue_version"@.len() == 13);
    assert("playing_state"@[0] != "queue_version"@[0]);
    let said = playback_said(playing_state, position_ms, duration_ms, version)->Object_0;
    json::lemma_member_at(said, 0);
    json::lemma_member_at(said, 1);
    json::lemma_member_at(said, 2);
    json::lemma_member_at(said, 3);
    json::lemma_member_at(said, 4);
    json::i32_reads_back(playing_state);
    notices::versions_are_said_in_full(version);
}

/// A renderer joins the session that it was told of, as an active one and at
/// the controller's request, with its own device and with nothing played yet.
pub proof fn renderer_introduces_itself(join: RendererJoin, action_uuid: Seq<char>)
    requires
        join.stage is Join,
    ensures
        join.step_with(action_uuid) matches JoinStepView::Report(report) && {
            &&& report.report_type == RendererReportType::RndrSrvrJoinSession
            &&& report.action_uuid == action_uuid
            &&& report.queue_version == join.queue_version
            &&& json::member_text(report.payload, "session_uuid"@) == Some(join.session_uuid@)
            &&& json::member(report.payload, "device_info"@) == Some(join.device_info@)
            &&& json::member_bool(report.payload, "is_active"@) == Some(true)
            &&& json::member_i32(report.payload, "reason"@) == Some(1i32)
            &&& json::member(report.payload, "initial_state"@) matches Some(state)
                && json::member_i32(state, "playing_state"@) == Some(1i32) && json::member_u64(
                state,
                "current_position"@,
            ) == Some(0u64) && json::member_u64(state, "duration"@) == Some(0u64)
        },
{
    lemma_join_keys();
    let said = join_said(join.session_uuid@, join.device_info@, join.queue_version)->Object_0;
    json::lemma_member_at(said, 0);
    json::lemma_member_at(said, 1);
    json::lemma_member_at(said, 2);
    json::lemma_member_at(said, 3);
    json::lemma_member_at(said, 4);
    json::i32_reads_back(1);
    playback_reports_say_what_they_are_given(PLAYING_STATE_STOPPED, 0, 0, join.queue_version);
}

/// A renderer that was let in reports that nothing plays, its full volume and
/// the highest quality, lets the server take that in, and asks for the queue:
/// in this order, whether each goes well or not.
pub proof fn renderer_settles_in(join: RendererJoin, action_uuid: Seq<char>, ok: bool)
    ensures
        match (join.stage, stage_after(join.stage, ok)) {
            (JoinStage::Join, next) => next == (if ok {
                JoinStage::State
            } else {
                JoinStage::Done
            }),
            (JoinStage::State, next) => next is Volume && (join.step_with(action_uuid)
                matches JoinStepView::Report(report) && report.report_type
                == RendererReportType::RndrSrvrStateUpdated && json::member_i32(
                report.payload,
                "playing_state"@,
            ) == Some(1i32) && json::member_u64(report.payload, "current_position"@) == Some(
                0u64,
            )),
            (JoinStage::Volume, next) => next is Quality && (join.step_with(action_uuid)
                matches JoinStepView::Report(report) && report.report_type
                == RendererReportType::RndrSrvrVolumeChanged && json::member_u64(
                report.payload,
                "volume"@,
            ) == Some(100u64)),
            (JoinStage::Quality, next) => next is Settle && (join.step_with(action_uuid)
                matches JoinStepView::Report(report) && report.report_type
                == RendererReportType::RndrSrvrMaxAudioQualityChanged && json::member_i32(
                report.payload,
                "max_audio_quality"@,
            ) == Some(4i32)),
            (JoinStage::Settle, next) => next is Refresh && join.step_with(action_uuid)
                == JoinStepView::Settle(500),
            (JoinStage::Refresh, next) => next is Done && (join.step_with(action_uuid)
                matches JoinStepView::Request(request) && request.command_type
                == QueueCommandType::CtrlSrvrAskForQueueState && request.payload
                == JsonView::Object(Seq::empty())),
            (JoinStage::Done, next) => next is Done && join.step_with(action_uuid) is Done,
        },
        join.step_with(action_uuid) matches JoinStepView::Report(report) ==> report.action_uuid
            == action_uuid && report.queue_version == join.queue_version,
{
    playback_reports_say_what_they_are_given(PLAYING_STATE_STOPPED, 0, 0, join.queue_version);
    json::i32_reads_back(4);
    if join.stage is Volume || join.stage is Quality {
        json::lemma_member_at(join.step_with(action_uuid)->Report_0.payload->Object_0, 0);
    }
}

/// Whatever is not gone on from is reported: as the snapshot says, for the
/// version of the queue, under the identifier that was given.
pub proof fn reports_say_how_playback_stands(
    reporter: StateReporter,
    snapshot: PlaybackSnapshot,
    renderer: RendererStateView,
    queue: QueueStateView,
    action_uuid: Seq<char>,
)
    ensures
        reporter.action_with(snapshot, renderer, queue, action_uuid)
            matches ReportActionView::Report(report) ==> {
            &&& report.report_type == RendererReportType::RndrSrvrStateUpdated
            &&& report.action_uuid == action_uuid
            &&& report.queue_version == queue.version
            &&& json::member_i32(report.payload, "playing_state"@) == Some(snapshot.playing_state)
            &&& json::member_u64(report.payload, "current_position"@) == Some(
                snapshot.current_position_ms,
            )
            &&& json::member_u64(report.payload, "duration"@) == Some(snapshot.duration_ms)
        },
        !snapshot.finished ==> reporter.action_with(snapshot, renderer, queue, action_uuid)
            is Report,
{
    playback_reports_say_what_they_are_given(
        snapshot.playing_state,
        snapshot.current_position_ms,
        snapshot.duration_ms,
        queue.version,
    );
}

/// A track that has ended is gone on from when it was not before and another
/// stands behind it: that one is asked to play, from its beginning.
pub proof fn ended_tracks_are_gone_on_from(
    reporter: StateReporter,
    snapshot: PlaybackSnapshot,
    current: QueueItemView,
    renderer: RendererStateView,
    queue: QueueStateView,
    at: int,
    action_uuid: Seq<char>,
)
    requires
        snapshot.finished,
        renderer.current_track == Some(current),
        reporter.advanced_from != Some(current.queue_item_id),
        0 <= at < mpris::play_order(queue).len(),
        mpris::play_order(queue)[at].queue_item_id == current.queue_item_id,
        forall|i: int|
            0 <= i < at ==> (#[trigger] mpris::play_order(queue)[i]).queue_item_id
                != current.queue_item_id,
    ensures
        reporter.after(snapshot, renderer).advanced_from == Some(current.queue_item_id),
        at + 1 == mpris::play_order(queue).len() ==> reporter.action_with(
            snapshot,
            renderer,
            queue,
            action_uuid,
        ) is Report,
        at + 1 < mpris::play_order(queue).len() ==> (reporter.action_with(
            snapshot,
            renderer,
            queue,
            action_uuid,
        ) matches ReportActionView::Advance(request) && {
            &&& request.command_type == QueueCommandType::CtrlSrvrSetPlayerState
            &&& json::member_i32(request.payload, "playing_state"@) == Some(2i32)
            &&& json::member_i32(request.payload, "current_position"@) == Some(0i32)
            &&& json::member(request.payload, "current_queue_item"@) matches Some(entry)
                && json::member_u64(entry, "id"@) == Some(
                mpris::play_order(queue)[at + 1].queue_item_id,
            )
        }),
{
    mpris::neighbours_stand_where_they_are_looked_for(renderer, queue, 1, at);
    if at + 1 < mpris::play_order(queue).len() {
        mpris::named_entries_start_at_their_beginning(
            PLAYING_STATE_PLAYING,
            mpris::play_order(queue)[at + 1],
            renderer,
            queue,
        );
    }
}

/// The entry that was gone on from is forgotten once something plays, and kept
/// while nothing does.
pub proof fn entry_gone_on_from_is_kept_until_something_plays(
    reporter: StateReporter,
    snapshot: PlaybackSnapshot,
    renderer: RendererStateView,
)
    requires
        !snapshot.finished,
    ensures
        snapshot.playing_state == 2 ==> reporter.after(snapshot, renderer).advanced_from is None,
        snapshot.playing_state != 2 ==> reporter.after(snapshot, renderer) == reporter,
        StateReporter::initial().advanced_from is None,
        !SessionState::initial().renderer_joined,
        !SessionState::initial().has_disconnected,
{
}

} // verus!
