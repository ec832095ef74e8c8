//! How the client's picture of the queue and the renderer follows the
//! server's events.

use vstd::prelude::*;

use crate::app_types::{
    AppEventView, QConnectQueueState, QConnectRendererState, QconnectAppEvent, QueueStateView,
    RendererCommand, RendererCommandView, RendererStateView,
};
use crate::ids;
use crate::json;
use crate::json::{Json, JsonView};
use crate::protocol::{
    QueueCommand, QueueCommandType, QueueEventType, QueueServerEvent, QueueServerEventView,
    RendererCommandType, RendererServerCommand, TransportEvent,
};
use crate::queue;
use crate::queue::{QueueItem, QueueItemView, QueueVersion};

verus! {

// ---------------------------------------------------------------------------
// Renderer commands
// ---------------------------------------------------------------------------

/// The entry under `key` of a payload, when that is an object that says one.
pub open spec fn object_entry(payload: JsonView, key: Seq<char>) -> Option<QueueItemView> {
    match json::member(payload, key) {
        Some(JsonView::Object(members)) => queue::entry_view(JsonView::Object(members)),
        _ => None,
    }
}

pub open spec fn or_false(value: Option<bool>) -> bool {
    value == Some(true)
}

pub open spec fn or_number(value: Option<i32>, fallback: i32) -> i32 {
    match value {
        Some(n) => n,
        None => fallback,
    }
}

/// The command that a server message to the renderer says.
pub open spec fn renderer_command(kind: RendererCommandType, payload: JsonView)
    -> RendererCommandView {
    match kind {
        RendererCommandType::SrvrRndrSetState => RendererCommandView::SetState {
            playing_state: json::member_i32(payload, "playing_state"@),
            current_position_ms: json::member_u64(payload, "current_position"@),
            current_track: object_entry(payload, "current_track"@),
            next_track: object_entry(payload, "next_track"@),
        },
        RendererCommandType::SrvrRndrSetVolume => RendererCommandView::SetVolume {
            volume: json::member_i32(payload, "volume"@),
            volume_delta: json::member_i32(payload, "volume_delta"@),
        },
        RendererCommandType::SrvrRndrSetActive => RendererCommandView::SetActive {
            active: or_false(json::member_bool(payload, "active"@)),
        },
        RendererCommandType::SrvrRndrSetMaxAudioQuality =>
            RendererCommandView::SetMaxAudioQuality {
            max_audio_quality: or_number(json::member_i32(payload, "max_audio_quality"@), 4),
        },
        RendererCommandType::SrvrRndrSetLoopMode => RendererCommandView::SetLoopMode {
            loop_mode: or_number(json::member_i32(payload, "loop_mode"@), 0),
        },
        RendererCommandType::SrvrRndrSetShuffleMode => RendererCommandView::SetShuffleMode {
            shuffle_mode: or_false(json::member_bool(payload, "shuffle_mode"@)),
        },
        RendererCommandType::SrvrRndrMuteVolume => RendererCommandView::MuteVolume {
            value: or_false(json::member_bool(payload, "value"@)),
        },
    }
}

fn get_object_entry(payload: &Json, key: &str) -> (r: Option<QueueItem>)
    ensures
        queue::item_view(r) == object_entry(payload@, key@),
{
    match payload.get(key) {
        Some(value) => match value {
            Json::Object(_) => queue::entry_from_json(value),
            _ => None,
        },
        None => None,
    }
}

fn get_flag(payload: &Json, key: &str) -> (r: bool)
    ensures
        r == or_false(json::member_bool(payload@, key@)),
{
    match payload.get_bool(key) {
        Some(value) => value,
        None => false,
    }
}

fn get_number(payload: &Json, key: &str, fallback: i32) -> (r: i32)
    ensures
        r == or_number(json::member_i32(payload@, key@), fallback),
{
    match payload.get_i32(key) {
        Some(value) => value,
        None => fallback,
    }
}

/// Reads the command that the server sent to the renderer.
pub fn map_renderer_server_command(cmd: &RendererServerCommand) -> (r: RendererCommand)
    ensures
        r@ == renderer_command(cmd.command_type, cmd.payload@),
{
    let payload = &cmd.payload;
    match cmd.command_type {
        RendererCommandType::SrvrRndrSetState => RendererCommand::SetState {
            playing_state: payload.get_i32("playing_state"),
            current_position_ms: payload.get_u64("current_position"),
            current_track: get_object_entry(payload, "current_track"),
            next_track: get_object_entry(payload, "next_track"),
        },
        RendererCommandType::SrvrRndrSetVolume => RendererCommand::SetVolume {
            volume: payload.get_i32("volume"),
            volume_delta: payload.get_i32("volume_delta"),
        },
        RendererCommandType::SrvrRndrSetActive => RendererCommand::SetActive {
            active: get_flag(payload, "active"),
        },
        RendererCommandType::SrvrRndrSetMaxAudioQuality => RendererCommand::SetMaxAudioQuality {
            max_audio_quality: get_number(payload, "max_audio_quality", 4),
        },
        RendererCommandType::SrvrRndrSetLoopMode => RendererCommand::SetLoopMode {
            loop_mode: get_number(payload, "loop_mode", 0),
        },
        RendererCommandType::SrvrRndrSetShuffleMode => RendererCommand::SetShuffleMode {
            shuffle_mode: get_flag(payload, "shuffle_mode"),
        },
        RendererCommandType::SrvrRndrMuteVolume => RendererCommand::MuteVolume {
            value: get_flag(payload, "value"),
        },
    }
}

// ---------------------------------------------------------------------------
// Queue events
// ---------------------------------------------------------------------------

/// The client's picture: the queue and the renderer as last heard.
pub struct AppView {
    pub queue: QueueStateView,
    pub renderer: RendererStateView,
}

impl AppView {
    /// The picture before anything was heard.
    pub open spec fn initial() -> Self {
        AppView { queue: QueueStateView::initial(), renderer: RendererStateView::initial() }
    }
}

/// The entries of `items` whose queue item id is not in `ids`, in their order.
pub open spec fn without(items: Seq<QueueItemView>, ids: Seq<u64>) -> Seq<QueueItemView> {
    items.filter(|item: QueueItemView| !ids.contains(item.queue_item_id))
}

/// The entry of `items` that the member `key` of `state` points to.
pub open spec fn pointed_entry(
    items: Seq<QueueItemView>,
    state: Option<JsonView>,
    key: Seq<char>,
) -> Option<QueueItemView> {
    match state {
        Some(value) => match json::member_u64(value, key) {
            Some(id) => queue::find_by_id(items, id),
            None => None,
        },
        None => None,
    }
}

/// The renderer that a player state says, its tracks looked up in `items`.
pub open spec fn renderer_said(items: Seq<QueueItemView>, state: Option<JsonView>)
    -> RendererStateView {
    RendererStateView {
        current_track: pointed_entry(items, state, "current_queue_item_id"@),
        next_track: pointed_entry(items, state, "next_queue_item_id"@),
        current_position_ms: match state {
            Some(value) => json::member_u64(value, "current_position"@),
            None => None,
        },
        playing_state: match state {
            Some(value) => json::member_i32(value, "playing_state"@),
            None => None,
        },
    }
}

/// The queue after a server event.
pub open spec fn queue_after(queue: QueueStateView, evt: QueueServerEventView) -> QueueStateView {
    let version = queue::version_or_unknown(evt.queue_version);
    match evt.event_type {
        QueueEventType::SrvrCtrlQueueState => QueueStateView {
            version,
            items: queue::entries_at(evt.payload, "tracks"@),
            shuffle_mode: or_false(json::member_bool(evt.payload, "shuffle_mode"@)),
            autoplay_mode: or_false(json::member_bool(evt.payload, "autoplay_mode"@)),
            shuffle_order: None,
        },
        QueueEventType::SrvrCtrlQueueTracksLoaded => QueueStateView {
            version,
            items: queue::entries_at(evt.payload, "tracks"@),
            shuffle_mode: or_false(json::member_bool(evt.payload, "shuffle_mode"@)),
            autoplay_mode: queue.autoplay_mode,
            shuffle_order: None,
        },
        QueueEventType::SrvrCtrlQueueTracksAdded | QueueEventType::SrvrCtrlQueueTracksInserted =>
            QueueStateView {
            version,
            items: queue.items + queue::entries_at(evt.payload, "tracks"@),
            ..queue
        },
        QueueEventType::SrvrCtrlQueueTracksRemoved => QueueStateView {
            version,
            items: without(queue.items, queue::ids_at(evt.payload, "queue_item_ids"@)),
            ..queue
        },
        QueueEventType::SrvrCtrlQueueCleared => QueueStateView {
            version,
            items: Seq::empty(),
            ..queue
        },
        _ => queue,
    }
}

/// The renderer after a server event, which looks tracks up in the queue.
pub open spec fn renderer_after(state: AppView, evt: QueueServerEventView) -> RendererStateView {
    match evt.event_type {
        QueueEventType::SrvrCtrlRendererStateUpdated => renderer_said(
            state.queue.items,
            json::member(evt.payload, "player_state"@),
        ),
        _ => state.renderer,
    }
}

/// The picture after a server event.
pub open spec fn app_after(state: AppView, evt: QueueServerEventView) -> AppView {
    AppView { queue: queue_after(state.queue, evt), renderer: renderer_after(state, evt) }
}

/// What the listener is told of a server event.
pub open spec fn told_of(state: AppView, evt: QueueServerEventView) -> AppEventView {
    match evt.event_type {
        QueueEventType::SrvrCtrlQueueState
        | QueueEventType::SrvrCtrlQueueTracksLoaded
        | QueueEventType::SrvrCtrlQueueTracksAdded
        | QueueEventType::SrvrCtrlQueueTracksInserted
        | QueueEventType::SrvrCtrlQueueTracksRemoved
        | QueueEventType::SrvrCtrlQueueCleared => AppEventView::QueueUpdated(
            queue_after(state.queue, evt),
        ),
        QueueEventType::SrvrCtrlRendererStateUpdated => AppEventView::RendererUpdated(
            renderer_after(state, evt),
        ),
        QueueEventType::SrvrCtrlLoopModeSet => AppEventView::RendererCommandApplied(
            RendererCommandView::SetLoopMode {
                loop_mode: or_number(json::member_i32(evt.payload, "loop_mode"@), 0),
            },
        ),
        QueueEventType::SrvrCtrlShuffleModeSet => AppEventView::RendererCommandApplied(
            RendererCommandView::SetShuffleMode {
                shuffle_mode: or_false(json::member_bool(evt.payload, "shuffle_mode"@)),
            },
        ),
        QueueEventType::Other => AppEventView::SessionManagementEvent {
            message_type: evt.message_type,
            payload: evt.payload,
        },
    }
}

fn contains_id(ids: &Vec<u64>, id: u64) -> (r: bool)
    ensures
        r == ids@.contains(id),
{
    let mut i: usize = 0;
    while i < ids.len()
        invariant
            i <= ids.len(),
            forall|k: int| 0 <= k < i ==> ids@[k] != id,
        decreases ids.len() - i,
    {
        if ids[i] == id {
            return true;
        }
        i = i + 1;
    }
    false
}

/// The entries whose queue item id is not in `ids`.
pub fn retain_without(items: &Vec<QueueItem>, ids: &Vec<u64>) -> (r: Vec<QueueItem>)
    ensures
        queue::queue_view(r@) == without(queue::queue_view(items@), ids@),
{
    let ghost all = queue::queue_view(items@);
    let ghost keep = |item: QueueItemView| !ids@.contains(item.queue_item_id);
    let mut kept: Vec<QueueItem> = Vec::new();
    let mut i: usize = 0;
    proof {
        reveal(Seq::filter);
        assert(queue::queue_view(kept@) =~= all.take(0).filter(keep));
    }
    while i < items.len()
        invariant
            i <= items.len(),
            all == queue::queue_view(items@),
            keep == (|item: QueueItemView| !ids@.contains(item.queue_item_id)),
            queue::queue_view(kept@) == all.take(i as int).filter(keep),
        decreases items.len() - i,
    {
        let ghost before = kept@;
        proof {
            reveal(Seq::filter);
            assert(all.take(i + 1).drop_last() =~= all.take(i as int));
            assert(all.take(i + 1).last() == items@[i as int]@);
        }
        if !contains_id(ids, items[i].queue_item_id) {
            kept.push(items[i].clone());
            assert(queue::queue_view(kept@) =~= queue::queue_view(before).push(items@[i as int]@));
        }
        i = i + 1;
    }
    assert(all.take(items.len() as int) =~= all);
    kept
}

fn extend(items: &mut Vec<QueueItem>, more: Vec<QueueItem>)
    ensures
        queue::queue_view(final(items)@) == queue::queue_view(old(items)@) + queue::queue_view(
            more@,
        ),
{
    let ghost before = items@;
    let mut i: usize = 0;
    assert(before + more@.take(0) =~= before);
    while i < more.len()
        invariant
            i <= more.len(),
            items@ == before + more@.take(i as int),
        decreases more.len() - i,
    {
        items.push(more[i].clone());
        assert(before + more@.take(i + 1) =~= (before + more@.take(i as int)).push(more@[i as int]));
        i = i + 1;
    }
    assert(more@.take(more.len() as int) =~= more@);
    assert(queue::queue_view(items@) =~= queue::queue_view(before) + queue::queue_view(more@));
}

fn get_pointed(items: &Vec<QueueItem>, state: Option<&Json>, key: &str) -> (r: Option<QueueItem>)
    ensures
        queue::item_view(r) == pointed_entry(
            queue::queue_view(items@),
            match state {
                Some(value) => Some(value@),
                None => None,
            },
            key@,
        ),
{
    let id: Option<u64> = match state {
        Some(value) => value.get_u64(key),
        None => None,
    };
    queue::find_item(items, id)
}

// ---------------------------------------------------------------------------
// The client
// ---------------------------------------------------------------------------

/// The client's picture of the queue and the renderer.
pub struct QconnectApp {
    queue_state: QConnectQueueState,
    renderer_state: QConnectRendererState,
}

impl View for QconnectApp {
    type V = AppView;

    closed spec fn view(&self) -> AppView {
        AppView { queue: self.queue_state@, renderer: self.renderer_state@ }
    }
}

/// What a transport event says to the client, when it says anything: the
/// picture after it and what the listener is told.
pub open spec fn transport_outcome(state: AppView, event: TransportEvent) -> (
    AppView,
    Option<AppEventView>,
) {
    match event {
        TransportEvent::InboundRendererServerCommand(cmd) => (
            state,
            Some(
                AppEventView::RendererCommandApplied(
                    renderer_command(cmd.command_type, cmd.payload@),
                ),
            ),
        ),
        TransportEvent::InboundQueueServerEvent(evt) => (
            app_after(state, evt@),
            Some(told_of(state, evt@)),
        ),
        _ => (state, None),
    }
}

pub open spec fn event_view(event: Option<QconnectAppEvent>) -> Option<AppEventView> {
    match event {
        Some(e) => Some(e@),
        None => None,
    }
}

impl QconnectApp {
    pub fn new() -> (r: Self)
        ensures
            r@ == AppView::initial(),
    {
        QconnectApp {
            queue_state: QConnectQueueState::default(),
            renderer_state: QConnectRendererState::default(),
        }
    }

    /// The queue as last heard.
    pub fn queue_state(&self) -> (r: &QConnectQueueState)
        ensures
            r@ == self@.queue,
    {
        &self.queue_state
    }

    /// The renderer as last heard.
    pub fn renderer_state(&self) -> (r: &QConnectRendererState)
        ensures
            r@ == self@.renderer,
    {
        &self.renderer_state
    }

    /// A copy of the queue as last heard.
    pub fn queue_state_snapshot(&self) -> (r: QConnectQueueState)
        ensures
            r@ == self@.queue,
    {
        self.queue_state.clone()
    }

    /// A copy of the renderer as last heard.
    pub fn renderer_state_snapshot(&self) -> (r: QConnectRendererState)
        ensures
            r@ == self@.renderer,
    {
        self.renderer_state.clone()
    }

    /// A command with a fresh identifier, for the unknown queue version.
    pub fn build_queue_command(&self, command_type: QueueCommandType, payload: Json) -> (r:
        QueueCommand)
        ensures
            r@.command_type == command_type,
            r@.queue_version == QueueVersion::unknown(),
            r@.payload == payload@,
            ids::is_v4_text(r@.action_uuid),
    {
        let action_uuid = ids::fresh_uuid();
        QueueCommand::new(command_type, action_uuid, QueueVersion::default(), payload)
    }

    fn set_queue(&mut self, new_queue: QConnectQueueState) -> (r: QconnectAppEvent)
        ensures
            final(self)@ == (AppView { queue: new_queue@, ..old(self)@ }),
            r@ == AppEventView::QueueUpdated(new_queue@),
    {
        self.queue_state = new_queue.clone();
        QconnectAppEvent::QueueUpdated(new_queue)
    }

    /// Takes a queue event of the server into the picture and says what the
    /// listener is told of it.
    pub fn handle_queue_event(&mut self, evt: QueueServerEvent) -> (r: QconnectAppEvent)
        ensures
            final(self)@ == app_after(old(self)@, evt@),
            r@ == told_of(old(self)@, evt@),
    {
        let version = queue::version_or_default(evt.queue_version);
        match evt.event_type {
            QueueEventType::SrvrCtrlQueueState => {
                let new_queue = QConnectQueueState {
                    version,
                    queue_items: queue::get_entries(&evt.payload, "tracks"),
                    shuffle_mode: get_flag(&evt.payload, "shuffle_mode"),
                    autoplay_mode: get_flag(&evt.payload, "autoplay_mode"),
                    shuffle_order: None,
                };
                self.set_queue(new_queue)
            },
            QueueEventType::SrvrCtrlQueueTracksLoaded => {
                let new_queue = QConnectQueueState {
                    version,
                    queue_items: queue::get_entries(&evt.payload, "tracks"),
                    shuffle_mode: get_flag(&evt.payload, "shuffle_mode"),
                    autoplay_mode: self.queue_state.autoplay_mode,
                    shuffle_order: None,
                };
                self.set_queue(new_queue)
            },
            QueueEventType::SrvrCtrlQueueTracksAdded
            | QueueEventType::SrvrCtrlQueueTracksInserted => {
                let new_items = queue::get_entries(&evt.payload, "tracks");
                let mut new_queue = self.queue_state.clone();
                new_queue.version = version;
                extend(&mut new_queue.queue_items, new_items);
                self.set_queue(new_queue)
            },
            QueueEventType::SrvrCtrlQueueTracksRemoved => {
                let remove_ids = queue::get_ids(&evt.payload, "queue_item_ids");
                let mut new_queue = self.queue_state.clone();
                new_queue.version = version;
                new_queue.queue_items = retain_without(&new_queue.queue_items, &remove_ids);
                self.set_queue(new_queue)
            },
            QueueEventType::SrvrCtrlQueueCleared => {
                let mut new_queue = self.queue_state.clone();
                new_queue.version = version;
                new_queue.queue_items = Vec::new();
                assert(queue::queue_view(new_queue.queue_items@) =~= Seq::<QueueItemView>::empty());
                self.set_queue(new_queue)
            },
            QueueEventType::SrvrCtrlRendererStateUpdated => {
                let player_state = evt.payload.get("player_state");
                let items = &self.queue_state.queue_items;
                let new_renderer = QConnectRendererState {
                    current_track: get_pointed(items, player_state, "current_queue_item_id"),
                    next_track: get_pointed(items, player_state, "next_queue_item_id"),
                    current_position_ms: match player_state {
                        Some(state) => state.get_u64("current_position"),
                        None => None,
                    },
                    playing_state: match player_state {
                        Some(state) => state.get_i32("playing_state"),
                        None => None,
                    },
                };
                self.renderer_state = new_renderer.clone();
                QconnectAppEvent::RendererUpdated(new_renderer)
            },
            QueueEventType::SrvrCtrlLoopModeSet => QconnectAppEvent::RendererCommandApplied {
                command: RendererCommand::SetLoopMode {
                    loop_mode: get_number(&evt.payload, "loop_mode", 0),
                },
            },
            QueueEventType::SrvrCtrlShuffleModeSet => QconnectAppEvent::RendererCommandApplied {
                command: RendererCommand::SetShuffleMode {
                    shuffle_mode: get_flag(&evt.payload, "shuffle_mode"),
                },
            },
            QueueEventType::Other => QconnectAppEvent::SessionManagementEvent {
                message_type: evt.message_type,
                payload: evt.payload,
            },
        }
    }

    /// Takes what the connection reports into the picture and says what the
    /// listener is told, when it is told anything.
    pub fn handle_transport_event(&mut self, event: TransportEvent) -> (r: Option<QconnectAppEvent>)
        ensures
            (final(self)@, event_view(r)) == transport_outcome(old(self)@, event),
    {
        match event {
            TransportEvent::InboundRendererServerCommand(cmd) => {
                let command = map_renderer_server_command(&cmd);
                Some(QconnectAppEvent::RendererCommandApplied { command })
            },
            TransportEvent::InboundQueueServerEvent(evt) => Some(self.handle_queue_event(evt)),
            _ => None,
        }
    }

    /// The actions that wait for the server's answer: none are kept.
    pub fn state_handle(&self) -> (r: AppState)
        ensures
            r.pending.view() is None,
    {
        AppState { pending: PendingActions {  } }
    }
}

// ---------------------------------------------------------------------------
// Pending actions
// ---------------------------------------------------------------------------

/// The state that commands leave behind until the server answers.
pub struct AppState {
    pub pending: PendingActions,
}

/// The actions that wait for an answer. None is ever kept.
pub struct PendingActions {}

/// An action that waits for an answer.
pub struct PendingAction {
    pub uuid: String,
}

impl PendingActions {
    /// The identifier of the action that waits: always none.
    pub open spec fn view(&self) -> Option<Seq<char>> {
        None
    }

    pub fn current(&self) -> (r: Option<PendingAction>)
        ensures
            r is None,
            r is None <==> self.view() is None,
    {
        None
    }

    pub fn clear(&mut self)
        ensures
            final(self).view() is None,
            *final(self) == *old(self),
    {
    }
}

/// Forgets the pending action when it is the one named; says whether it was.
pub fn clear_pending_if_matches(state: &mut AppState, action_uuid: &str) -> (r: bool)
    ensures
        r == (old(state).pending.view() == Some(action_uuid@)),
        final(state).pending.view() is None,
{
    let pending_matches = match state.pending.current() {
        Some(pending) => *pending.uuid.as_str() == *action_uuid,
        None => false,
    };
    if pending_matches {
        state.pending.clear();
    }
    pending_matches
}

// ---------------------------------------------------------------------------
// Laws
// ---------------------------------------------------------------------------

/// A removal leaves no entry with a removed id, keeps every other entry, and
/// brings in none that was not there.
pub proof fn removal_is_exact(items: Seq<QueueItemView>, ids: Seq<u64>)
    ensures
        forall|item: QueueItemView|
            without(items, ids).contains(item) <==> items.contains(item) && !ids.contains(
                item.queue_item_id,
            ),
        without(items, ids).len() <= items.len(),
{
    broadcast use Seq::lemma_filter_len;

    let keep = |item: QueueItemView| !ids.contains(item.queue_item_id);
    let kept = items.filter(keep);
    assert forall|item: QueueItemView| kept.contains(item) implies items.contains(item) && keep(
        item,
    ) by {
        let i = choose|i: int| 0 <= i < kept.len() && kept[i] == item;
        items.lemma_filter_pred(keep, i);
        items.lemma_filter_contains_rev(keep, item);
    }
    assert forall|item: QueueItemView| items.contains(item) && keep(item) implies kept.contains(
        item,
    ) by {
        let i = choose|i: int| 0 <= i < items.len() && items[i] == item;
        items.lemma_filter_contains(keep, i);
    }
}

/// A second removal of the same ids changes nothing more.
pub proof fn removal_is_idempotent(items: Seq<QueueItemView>, ids: Seq<u64>)
    ensures
        without(without(items, ids), ids) == without(items, ids),
    decreases items.len(),
{
    reveal(Seq::filter);
    let keep = |item: QueueItemView| !ids.contains(item.queue_item_id);
    if items.len() > 0 {
        removal_is_idempotent(items.drop_last(), ids);
        let rest = without(items.drop_last(), ids);
        if keep(items.last()) {
            assert(without(items, ids) =~= rest.push(items.last()));
            assert(rest.push(items.last()).drop_last() =~= rest);
        }
    }
}

/// Entries that are added stand behind all that were there, and nothing else
/// of the queue but its version changes.
pub proof fn added_tracks_follow(queue: QueueStateView, evt: QueueServerEventView)
    requires
        evt.event_type is SrvrCtrlQueueTracksAdded || evt.event_type is SrvrCtrlQueueTracksInserted,
    ensures
        queue.items.is_prefix_of(queue_after(queue, evt).items),
        queue_after(queue, evt).items.skip(queue.items.len() as int) == queue::entries_at(
            evt.payload,
            "tracks"@,
        ),
        queue_after(queue, evt).shuffle_mode == queue.shuffle_mode,
        queue_after(queue, evt).autoplay_mode == queue.autoplay_mode,
{
    let added = queue::entries_at(evt.payload, "tracks"@);
    assert((queue.items + added).skip(queue.items.len() as int) =~= added);
    assert((queue.items + added).take(queue.items.len() as int) =~= queue.items);
}

/// A cleared queue is empty and keeps its modes.
pub proof fn cleared_queue_is_empty(queue: QueueStateView, evt: QueueServerEventView)
    requires
        evt.event_type is SrvrCtrlQueueCleared,
    ensures
        queue_after(queue, evt).items.len() == 0,
        queue_after(queue, evt).shuffle_mode == queue.shuffle_mode,
        queue_after(queue, evt).autoplay_mode == queue.autoplay_mode,
{
}

/// Only a full queue state sets the autoplay mode.
pub proof fn autoplay_set_by_full_state_only(queue: QueueStateView, evt: QueueServerEventView)
    requires
        !(evt.event_type is SrvrCtrlQueueState),
    ensures
        queue_after(queue, evt).autoplay_mode == queue.autoplay_mode,
{
}

/// No event of the server gives the queue a shuffle order of its own.
pub proof fn no_shuffle_order_is_learned(queue: QueueStateView, evt: QueueServerEventView)
    requires
        queue.shuffle_order is None,
    ensures
        queue_after(queue, evt).shuffle_order is None,
{
}

/// One event changes the queue or the renderer, never both.
pub proof fn event_changes_one_side(state: AppView, evt: QueueServerEventView)
    ensures
        app_after(state, evt).queue == state.queue || app_after(state, evt).renderer
            == state.renderer,
        evt.event_type is SrvrCtrlRendererStateUpdated ==> app_after(state, evt).queue
            == state.queue,
{
}

/// The tracks of the renderer that a player state names are entries of the
/// queue with the ids that it names.
pub proof fn renderer_tracks_come_from_the_queue(items: Seq<QueueItemView>, state: Option<JsonView>)
    ensures
        renderer_said(items, state).current_track matches Some(track) ==> {
            &&& items.contains(track)
            &&& json::member_u64(state->0, "current_queue_item_id"@) == Some(track.queue_item_id)
        },
        renderer_said(items, state).next_track matches Some(track) ==> {
            &&& items.contains(track)
            &&& json::member_u64(state->0, "next_queue_item_id"@) == Some(track.queue_item_id)
        },
{
    if let Some(value) = state {
        if let Some(id) = json::member_u64(value, "current_queue_item_id"@) {
            queue::lemma_position(items, id);
        }
        if let Some(id) = json::member_u64(value, "next_queue_item_id"@) {
            queue::lemma_position(items, id);
        }
    }
}

/// What the listener is told of a queue or a renderer is the picture that the
/// client has from then on.
pub proof fn told_what_is_kept(state: AppView, evt: QueueServerEventView)
    ensures
        told_of(state, evt) matches AppEventView::QueueUpdated(queue) ==> app_after(
            state,
            evt,
        ).queue == queue,
        told_of(state, evt) matches AppEventView::RendererUpdated(renderer) ==> app_after(
            state,
            evt,
        ).renderer == renderer,
{
}

/// A removal goes entry by entry and keeps the order of those that stay.
pub proof fn removal_keeps_the_order(
    items: Seq<QueueItemView>,
    item: QueueItemView,
    ids: Seq<u64>,
)
    ensures
        without(Seq::empty(), ids) == Seq::<QueueItemView>::empty(),
        ids.contains(item.queue_item_id) ==> without(items.push(item), ids) == without(items, ids),
        !ids.contains(item.queue_item_id) ==> without(items.push(item), ids) == without(
            items,
            ids,
        ).push(item),
{
    reveal(Seq::filter);
    assert(items.push(item).drop_last() =~= items);
}

/// A state command of the server is read member by member: the state, the
/// position, and the two tracks where they are objects.
pub proof fn state_commands_are_read_by_their_members(payload: JsonView)
    ensures
        renderer_command(RendererCommandType::SrvrRndrSetState, payload)
            matches RendererCommandView::SetState {
            playing_state,
            current_position_ms,
            current_track,
            next_track,
        } && {
            &&& playing_state == json::member_i32(payload, "playing_state"@)
            &&& current_position_ms == json::member_u64(payload, "current_position"@)
            &&& match json::member(payload, "current_track"@) {
                Some(track) => if track is Object {
                    current_track == queue::entry_view(track)
                } else {
                    current_track is None
                },
                None => current_track is None,
            }
            &&& match json::member(payload, "next_track"@) {
                Some(track) => if track is Object {
                    next_track == queue::entry_view(track)
                } else {
                    next_track is None
                },
                None => next_track is None,
            }
        },
{
}

/// Every other command of the server is read by the member that it is named
/// after; what is missing or of another type is off, except that a missing
/// quality is the highest.
pub proof fn mode_commands_are_read_by_their_member(payload: JsonView)
    ensures
        renderer_command(RendererCommandType::SrvrRndrSetVolume, payload)
            matches RendererCommandView::SetVolume { volume, volume_delta } && volume
            == json::member_i32(payload, "volume"@) && volume_delta == json::member_i32(
            payload,
            "volume_delta"@,
        ),
        renderer_command(RendererCommandType::SrvrRndrMuteVolume, payload)
            matches RendererCommandView::MuteVolume { value } && (value <==> json::member(
            payload,
            "value"@,
        ) == Some(JsonView::Bool(true))),
        renderer_command(RendererCommandType::SrvrRndrSetActive, payload)
            matches RendererCommandView::SetActive { active } && (active <==> json::member(
            payload,
            "active"@,
        ) == Some(JsonView::Bool(true))),
        renderer_command(RendererCommandType::SrvrRndrSetShuffleMode, payload)
            matches RendererCommandView::SetShuffleMode { shuffle_mode } && (shuffle_mode
            <==> json::member(payload, "shuffle_mode"@) == Some(JsonView::Bool(true))),
        renderer_command(RendererCommandType::SrvrRndrSetMaxAudioQuality, payload)
            matches RendererCommandView::SetMaxAudioQuality { max_audio_quality }
            && match json::member_i32(payload, "max_audio_quality"@) {
            Some(said) => max_audio_quality == said,
            None => max_audio_quality == 4,
        },
        renderer_command(RendererCommandType::SrvrRndrSetLoopMode, payload)
            matches RendererCommandView::SetLoopMode { loop_mode } && match json::member_i32(
            payload,
            "loop_mode"@,
        ) {
            Some(said) => loop_mode == said,
            None => loop_mode == 0,
        },
{
}

/// A full state, and newly loaded tracks, replace the entries and the shuffling
/// by what the event says; a full state also says whether more is played when
/// they end, and loaded tracks leave that as it was.
pub proof fn new_queues_replace_the_old(queue: QueueStateView, evt: QueueServerEventView)
    requires
        evt.event_type is SrvrCtrlQueueState || evt.event_type is SrvrCtrlQueueTracksLoaded,
    ensures
        ({
            let after = queue_after(queue, evt);
            &&& after.items == queue::entries_at(evt.payload, "tracks"@)
            &&& after.shuffle_mode <==> json::member(evt.payload, "shuffle_mode"@) == Some(
                JsonView::Bool(true),
            )
            &&& after.shuffle_order is None
            &&& evt.event_type is SrvrCtrlQueueState ==> (after.autoplay_mode <==> json::member(
                evt.payload,
                "autoplay_mode"@,
            ) == Some(JsonView::Bool(true)))
            &&& evt.event_type is SrvrCtrlQueueTracksLoaded ==> after.autoplay_mode
                == queue.autoplay_mode
        }),
{
}

/// Whatever changes the queue brings its version, the unknown one where none
/// is named; every other event leaves the queue as it was.
pub proof fn queue_changes_bring_their_version(queue: QueueStateView, evt: QueueServerEventView)
    ensures
        ({
            let after = queue_after(queue, evt);
            let changes = evt.event_type is SrvrCtrlQueueState
                || evt.event_type is SrvrCtrlQueueTracksLoaded
                || evt.event_type is SrvrCtrlQueueTracksAdded
                || evt.event_type is SrvrCtrlQueueTracksInserted
                || evt.event_type is SrvrCtrlQueueTracksRemoved
                || evt.event_type is SrvrCtrlQueueCleared;
            &&& changes ==> match evt.queue_version {
                Some(version) => after.version == version,
                None => after.version.major == 0 && after.version.minor == 0,
            }
            &&& !changes ==> after == queue
        }),
{
}

/// Removed tracks are those whose ids the event lists, and the modes of the
/// queue stay.
pub proof fn removed_tracks_are_the_listed_ones(
    queue: QueueStateView,
    evt: QueueServerEventView,
    item: QueueItemView,
)
    requires
        evt.event_type is SrvrCtrlQueueTracksRemoved,
    ensures
        ({
            let after = queue_after(queue, evt);
            &&& after.items.contains(item) <==> queue.items.contains(item) && !queue::ids_at(
                evt.payload,
                "queue_item_ids"@,
            ).contains(item.queue_item_id)
            &&& after.shuffle_mode == queue.shuffle_mode
            &&& after.autoplay_mode == queue.autoplay_mode
            &&& after.shuffle_order == queue.shuffle_order
        }),
{
    removal_is_exact(queue.items, queue::ids_at(evt.payload, "queue_item_ids"@));
}

/// News of a renderer says its tracks by ids of the queue, each the first entry
/// with that id or none, its position and its state; without a player state it
/// says nothing.
pub proof fn renderer_news_is_read_by_its_members(state: AppView, evt: QueueServerEventView)
    requires
        evt.event_type is SrvrCtrlRendererStateUpdated,
    ensures
        ({
            let after = renderer_after(state, evt);
            match json::member(evt.payload, "player_state"@) {
                Some(said) => {
                    &&& after.playing_state == json::member_i32(said, "playing_state"@)
                    &&& after.current_position_ms == json::member_u64(said, "current_position"@)
                    &&& match json::member_u64(said, "current_queue_item_id"@) {
                        Some(id) => after.current_track == queue::find_by_id(state.queue.items, id),
                        None => after.current_track is None,
                    }
                    &&& match json::member_u64(said, "next_queue_item_id"@) {
                        Some(id) => after.next_track == queue::find_by_id(state.queue.items, id),
                        None => after.next_track is None,
                    }
                },
                None => {
                    &&& after.playing_state is None
                    &&& after.current_position_ms is None
                    &&& after.current_track is None
                    &&& after.next_track is None
                },
            }
        }),
{
}

/// Only news of a renderer changes what is known of it.
pub proof fn renderer_changes_by_its_news_only(state: AppView, evt: QueueServerEventView)
    requires
        !(evt.event_type is SrvrCtrlRendererStateUpdated),
    ensures
        app_after(state, evt).renderer == state.renderer,
        app_after(state, evt).queue == queue_after(state.queue, evt),
{
}

/// A listener is told of a changed queue or renderer, of a mode that was set,
/// and of anything else as it came.
pub proof fn listener_is_told_of_every_event(state: AppView, evt: QueueServerEventView)
    ensures
        match evt.event_type {
            QueueEventType::SrvrCtrlRendererStateUpdated => told_of(state, evt) is RendererUpdated,
            QueueEventType::SrvrCtrlLoopModeSet => told_of(state, evt)
                matches AppEventView::RendererCommandApplied(
                RendererCommandView::SetLoopMode { loop_mode },
            ) && match json::member_i32(evt.payload, "loop_mode"@) {
                Some(said) => loop_mode == said,
                None => loop_mode == 0,
            },
            QueueEventType::SrvrCtrlShuffleModeSet => told_of(state, evt)
                matches AppEventView::RendererCommandApplied(
                RendererCommandView::SetShuffleMode { shuffle_mode },
            ) && (shuffle_mode <==> json::member(evt.payload, "shuffle_mode"@) == Some(
                JsonView::Bool(true),
            )),
            QueueEventType::Other => told_of(state, evt)
                matches AppEventView::SessionManagementEvent { message_type, payload }
                && message_type == evt.message_type && payload == evt.payload,
            _ => told_of(state, evt) is QueueUpdated,
        },
{
}

/// A command to the renderer is passed on as it is read and changes no picture;
/// a queue event changes the picture and is told of; other reports of the
/// connection do neither.
pub proof fn connection_reports_are_passed_on(state: AppView, event: TransportEvent)
    ensures
        ({
            let (after, told) = transport_outcome(state, event);
            match event {
                TransportEvent::InboundRendererServerCommand(cmd) => {
                    &&& after == state
                    &&& told == Some(
                        AppEventView::RendererCommandApplied(
                            renderer_command(cmd.command_type, cmd.payload@),
                        ),
                    )
                },
                TransportEvent::InboundQueueServerEvent(evt) => {
                    &&& after == app_after(state, evt@)
                    &&& told == Some(told_of(state, evt@))
                },
                _ => after == state && told is None,
            }
        }),
{
}

/// Before anything is heard, the queue is empty and unknown, and so is the
/// renderer.
pub proof fn picture_begins_empty()
    ensures
        AppView::initial().queue.items.len() == 0,
        AppView::initial().queue.version.major == 0,
        AppView::initial().queue.version.minor == 0,
        !AppView::initial().queue.shuffle_mode,
        !AppView::initial().queue.autoplay_mode,
        AppView::initial().queue.shuffle_order is None,
        AppView::initial().renderer.current_track is None,
        AppView::initial().renderer.next_track is None,
        AppView::initial().renderer.current_position_ms is None,
        AppView::initial().renderer.playing_state is None,
{
}

} // verus!
