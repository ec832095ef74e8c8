//! What is told of the things that happen.

use vstd::prelude::*;
use vstd::string::*;

use crate::app_types::{QConnectQueueState, QueueStateView, RendererCommand, RendererCommandView};
use crate::json;
use crate::json::{Json, JsonNumber, JsonView, ObjectBuilder};
use crate::printer;
use crate::printer::{Notice, NoticeView};
use crate::protocol::TransportEvent;
use crate::queue;
use crate::queue::{QueueItem, QueueItemView, QueueVersion};
use crate::text;

verus! {

// ---------------------------------------------------------------------------
// Renderer commands as texts
// ---------------------------------------------------------------------------

/// The text that the standard library's `Debug` writes for a text: in double
/// quotes, with escapes.
pub uninterp spec fn debug_quoted(s: Seq<char>) -> Seq<char>;

/// `<str as std::fmt::Debug>::fmt`: the text in double quotes, with escapes for
/// the characters that cannot stand for themselves.
#[verifier::external_body]
fn debug_quoted_text(s: &str) -> (r: String)
    ensures
        r@ == debug_quoted(s@),
{
    format!("{:?}", s)
}

/// `Some(..)` around a text, or `None`.
pub open spec fn optional_text(value: Option<Seq<char>>) -> Seq<char> {
    match value {
        Some(text) => "Some("@ + text + ")"@,
        None => "None"@,
    }
}

pub open spec fn i32_text(value: Option<i32>) -> Seq<char> {
    match value {
        Some(n) => optional_text(Some(text::signed_decimal(n as int))),
        None => optional_text(None),
    }
}

pub open spec fn u64_text(value: Option<u64>) -> Seq<char> {
    match value {
        Some(n) => optional_text(Some(text::decimal(n as nat))),
        None => optional_text(None),
    }
}

pub open spec fn bool_text(value: bool) -> Seq<char> {
    if value {
        "true"@
    } else {
        "false"@
    }
}

pub open spec fn item_text(item: QueueItemView) -> Seq<char> {
    "QueueItem { track_context_uuid: "@ + debug_quoted(item.track_context_uuid) + ", track_id: "@
        + text::decimal(item.track_id as nat) + ", queue_item_id: "@ + text::decimal(
        item.queue_item_id as nat,
    ) + " }"@
}

pub open spec fn optional_item_text(item: Option<QueueItemView>) -> Seq<char> {
    match item {
        Some(it) => optional_text(Some(item_text(it))),
        None => optional_text(None),
    }
}

/// The text of a renderer command: its name and its fields.
pub open spec fn command_text(command: RendererCommandView) -> Seq<char> {
    match command {
        RendererCommandView::SetState {
            playing_state,
            current_position_ms,
            current_track,
            next_track,
        } => "SetState { playing_state: "@ + i32_text(playing_state) + ", current_position_ms: "@
            + u64_text(current_position_ms) + ", current_track: "@ + optional_item_text(
            current_track,
        ) + ", next_track: "@ + optional_item_text(next_track) + " }"@,
        RendererCommandView::SetVolume { volume, volume_delta } => "SetVolume { volume: "@
            + i32_text(volume) + ", volume_delta: "@ + i32_text(volume_delta) + " }"@,
        RendererCommandView::MuteVolume { value } => "MuteVolume { value: "@ + bool_text(value)
            + " }"@,
        RendererCommandView::SetMaxAudioQuality { max_audio_quality } =>
            "SetMaxAudioQuality { max_audio_quality: "@ + text::signed_decimal(
            max_audio_quality as int,
        ) + " }"@,
        RendererCommandView::SetActive { active } => "SetActive { active: "@ + bool_text(active)
            + " }"@,
        RendererCommandView::SetLoopMode { loop_mode } => "SetLoopMode { loop_mode: "@
            + text::signed_decimal(loop_mode as int) + " }"@,
        RendererCommandView::SetShuffleMode { shuffle_mode } => "SetShuffleMode { shuffle_mode: "@
            + bool_text(shuffle_mode) + " }"@,
    }
}

fn write_some(inner: &str) -> (r: String)
    ensures
        r@ == optional_text(Some(inner@)),
{
    let mut line = "Some(".to_owned();
    line.append(inner);
    line.append(")");
    line
}

fn write_i32(value: Option<i32>) -> (r: String)
    ensures
        r@ == i32_text(value),
{
    match value {
        Some(n) => write_some(text::signed_decimal_text(n).as_str()),
        None => "None".to_owned(),
    }
}

fn write_u64(value: Option<u64>) -> (r: String)
    ensures
        r@ == u64_text(value),
{
    match value {
        Some(n) => write_some(text::decimal_text(n).as_str()),
        None => "None".to_owned(),
    }
}

fn write_bool(value: bool) -> (r: &'static str)
    ensures
        r@ == bool_text(value),
{
    if value {
        "true"
    } else {
        "false"
    }
}

fn write_item(item: &QueueItem) -> (r: String)
    ensures
        r@ == item_text(item@),
{
    let mut line = "QueueItem { track_context_uuid: ".to_owned();
    line.append(debug_quoted_text(item.track_context_uuid.as_str()).as_str());
    line.append(", track_id: ");
    line.append(text::decimal_text(item.track_id).as_str());
    line.append(", queue_item_id: ");
    line.append(text::decimal_text(item.queue_item_id).as_str());
    line.append(" }");
    line
}

fn write_optional_item(item: &Option<QueueItem>) -> (r: String)
    ensures
        r@ == optional_item_text(queue::item_view(*item)),
{
    match item {
        Some(it) => write_some(write_item(it).as_str()),
        None => "None".to_owned(),
    }
}

fn write_field(start: &str, value: &str) -> (r: String)
    ensures
        r@ == start@ + value@ + " }"@,
{
    let mut line = start.to_owned();
    line.append(value);
    line.append(" }");
    line
}

/// Writes a renderer command with its name and its fields.
pub fn renderer_command_text(command: &RendererCommand) -> (r: String)
    ensures
        r@ == command_text(command@),
{
    match command {
        RendererCommand::SetState {
            playing_state,
            current_position_ms,
            current_track,
            next_track,
        } => {
            let mut line = "SetState { playing_state: ".to_owned();
            line.append(write_i32(*playing_state).as_str());
            line.append(", current_position_ms: ");
            line.append(write_u64(*current_position_ms).as_str());
            line.append(", current_track: ");
            line.append(write_optional_item(current_track).as_str());
            line.append(", next_track: ");
            line.append(write_optional_item(next_track).as_str());
            line.append(" }");
            line
        },
        RendererCommand::SetVolume { volume, volume_delta } => {
            let mut line = "SetVolume { volume: ".to_owned();
            line.append(write_i32(*volume).as_str());
            line.append(", volume_delta: ");
            line.append(write_i32(*volume_delta).as_str());
            line.append(" }");
            line
        },
        RendererCommand::MuteVolume { value } => write_field(
            "MuteVolume { value: ",
            write_bool(*value),
        ),
        RendererCommand::SetMaxAudioQuality { max_audio_quality } => write_field(
            "SetMaxAudioQuality { max_audio_quality: ",
            text::signed_decimal_text(*max_audio_quality).as_str(),
        ),
        RendererCommand::SetActive { active } => write_field(
            "SetActive { active: ",
            write_bool(*active),
        ),
        RendererCommand::SetLoopMode { loop_mode } => write_field(
            "SetLoopMode { loop_mode: ",
            text::signed_decimal_text(*loop_mode).as_str(),
        ),
        RendererCommand::SetShuffleMode { shuffle_mode } => write_field(
            "SetShuffleMode { shuffle_mode: ",
            write_bool(*shuffle_mode),
        ),
    }
}

// ---------------------------------------------------------------------------
// The queue and the session
// ---------------------------------------------------------------------------

/// A queue version as JSON.
pub open spec fn version_said(version: QueueVersion) -> JsonView {
    JsonView::Object(
        seq![
            ("major"@, json::unsigned_view(version.major)),
            ("minor"@, json::unsigned_view(version.minor)),
        ],
    )
}

pub fn version_json(version: &QueueVersion) -> (r: Json)
    ensures
        r@ == version_said(*version),
{
    let mut said = ObjectBuilder::new();
    said.put("major", Json::unsigned(version.major));
    said.put("minor", Json::unsigned(version.minor));
    assert(said@ =~= version_said(*version)->Object_0);
    said.build()
}

/// The track labels of a queue's entries as JSON.
pub open spec fn labels_said(items: Seq<QueueItemView>) -> JsonView {
    JsonView::Array(
        Seq::new(items.len(), |i: int| JsonView::Text(queue::track_label_view(items[i]))),
    )
}

fn labels_json(items: &Vec<QueueItem>) -> (r: Json)
    ensures
        r@ == labels_said(queue::queue_view(items@)),
{
    broadcast use json::lemma_nested_view;

    let mut labels: Vec<Json> = Vec::new();
    let mut i: usize = 0;
    while i < items.len()
        invariant
            i <= items.len(),
            labels.len() == i,
            forall|k: int|
                0 <= k < i ==> (#[trigger] labels@[k])@ == JsonView::Text(
                    queue::track_label_view(items@[k]@),
                ),
        decreases items.len() - i,
    {
        labels.push(Json::Text(items[i].track_label()));
        i = i + 1;
    }
    assert(json::items_view(labels@) =~= labels_said(queue::queue_view(items@))->Array_0);
    Json::Array(labels)
}

/// What is told of a queue that has changed.
pub open spec fn queue_told(queue: QueueStateView) -> NoticeView {
    NoticeView {
        name: "queue_updated"@,
        payload: JsonView::Object(
            seq![
                ("version"@, version_said(queue.version)),
                ("shuffle_mode"@, JsonView::Bool(queue.shuffle_mode)),
                ("autoplay_mode"@, JsonView::Bool(queue.autoplay_mode)),
                ("tracks"@, labels_said(queue.items)),
                ("track_count"@, json::unsigned_view(queue.items.len() as u64)),
            ],
        ),
    }
}

pub fn queue_updated(queue: &QConnectQueueState) -> (r: Notice)
    ensures
        r@ == queue_told(queue@),
{
    let mut said = ObjectBuilder::new();
    said.put("version", version_json(&queue.version));
    said.put("shuffle_mode", Json::Bool(queue.shuffle_mode));
    said.put("autoplay_mode", Json::Bool(queue.autoplay_mode));
    said.put("tracks", labels_json(&queue.queue_items));
    said.put("track_count", Json::unsigned(queue.queue_items.len() as u64));
    assert(said@ =~= queue_told(queue@).payload->Object_0);
    Notice::new("queue_updated", said.build())
}

/// What is told of a command to this renderer.
pub fn renderer_command(command: &RendererCommand) -> (r: Notice)
    ensures
        r@ == printer::notice_with(
            "renderer_command"@,
            "command"@,
            JsonView::Text(command_text(command@)),
        ),
{
    Notice::with("renderer_command", "command", Json::Text(renderer_command_text(command)))
}

/// What is told of an event about the session.
pub open spec fn session_told(message_type: Seq<char>, payload: JsonView) -> NoticeView {
    NoticeView {
        name: "session_event"@,
        payload: JsonView::Object(
            seq![("message_type"@, JsonView::Text(message_type)), ("payload"@, payload)],
        ),
    }
}

pub fn session_event(message_type: &str, payload: Json) -> (r: Notice)
    ensures
        r@ == session_told(message_type@, payload@),
{
    let mut said = ObjectBuilder::new();
    said.put("message_type", Json::text(message_type));
    said.put("payload", payload);
    assert(said@ =~= session_told(message_type@, payload@).payload->Object_0);
    Notice::new("session_event", said.build())
}

/// What is told of an action that was not answered in time.
pub open spec fn timeout_told(uuid: Seq<char>, timeout_ms: u64) -> NoticeView {
    NoticeView {
        name: "pending_timeout"@,
        payload: JsonView::Object(
            seq![("uuid"@, JsonView::Text(uuid)), ("timeout_ms"@, json::unsigned_view(timeout_ms))],
        ),
    }
}

pub fn pending_timeout(uuid: &str, timeout_ms: u64) -> (r: Notice)
    ensures
        r@ == timeout_told(uuid@, timeout_ms),
{
    let mut said = ObjectBuilder::new();
    said.put("uuid", Json::text(uuid));
    said.put("timeout_ms", Json::unsigned(timeout_ms));
    assert(said@ =~= timeout_told(uuid@, timeout_ms).payload->Object_0);
    Notice::new("pending_timeout", said.build())
}

/// What is told of a command that was sent.
pub open spec fn sent_told(message_type: Seq<char>, action_uuid: Seq<char>) -> NoticeView {
    NoticeView {
        name: "command_sent"@,
        payload: JsonView::Object(
            seq![
                ("message_type"@, JsonView::Text(message_type)),
                ("action_uuid"@, JsonView::Text(action_uuid)),
            ],
        ),
    }
}

pub fn command_sent(message_type: &str, action_uuid: &str) -> (r: Notice)
    ensures
        r@ == sent_told(message_type@, action_uuid@),
{
    let mut said = ObjectBuilder::new();
    said.put("message_type", Json::text(message_type));
    said.put("action_uuid", Json::text(action_uuid));
    assert(said@ =~= sent_told(message_type@, action_uuid@).payload->Object_0);
    Notice::new("command_sent", said.build())
}

// ---------------------------------------------------------------------------
// The connection
// ---------------------------------------------------------------------------

/// What is told before a connection is made.
pub open spec fn connecting_told(
    endpoint: Seq<char>,
    device_name: Seq<char>,
    renderer: bool,
    audio: bool,
    mpris: bool,
) -> NoticeView {
    NoticeView {
        name: "connecting"@,
        payload: JsonView::Object(
            seq![
                ("endpoint"@, JsonView::Text(endpoint)),
                ("device_name"@, JsonView::Text(device_name)),
                ("renderer"@, JsonView::Bool(renderer)),
                ("audio"@, JsonView::Bool(audio)),
                ("mpris"@, JsonView::Bool(mpris)),
            ],
        ),
    }
}

pub fn connecting(endpoint: &str, device_name: &str, renderer: bool, audio: bool, mpris: bool) -> (r:
    Notice)
    ensures
        r@ == connecting_told(endpoint@, device_name@, renderer, audio, mpris),
{
    let mut said = ObjectBuilder::new();
    said.put("endpoint", Json::text(endpoint));
    said.put("device_name", Json::text(device_name));
    said.put("renderer", Json::Bool(renderer));
    said.put("audio", Json::Bool(audio));
    said.put("mpris", Json::Bool(mpris));
    assert(said@ =~= connecting_told(
        endpoint@,
        device_name@,
        renderer,
        audio,
        mpris,
    ).payload->Object_0);
    Notice::new("connecting", said.build())
}

/// What is told of a report of the connection, when anything is.
pub open spec fn transport_told(event: TransportEvent) -> Option<NoticeView> {
    match event {
        TransportEvent::Connected => Some(printer::plain_notice("transport_connected"@)),
        TransportEvent::Disconnected => Some(printer::plain_notice("transport_disconnected"@)),
        TransportEvent::Authenticated => Some(printer::plain_notice("transport_authenticated"@)),
        TransportEvent::Subscribed => Some(printer::plain_notice("transport_subscribed"@)),
        TransportEvent::ReconnectScheduled { attempt, backoff_ms, reason } => Some(
            NoticeView {
                name: "reconnect_scheduled"@,
                payload: JsonView::Object(
                    seq![
                        ("attempt"@, json::unsigned_view(attempt)),
                        ("backoff_ms"@, json::unsigned_view(backoff_ms)),
                        ("reason"@, JsonView::Text(reason@)),
                    ],
                ),
            },
        ),
        TransportEvent::TransportError { stage, message } => Some(
            NoticeView {
                name: "transport_error"@,
                payload: JsonView::Object(
                    seq![
                        ("stage"@, JsonView::Text(stage@)),
                        ("message"@, JsonView::Text(message@)),
                    ],
                ),
            },
        ),
        _ => None,
    }
}

pub fn transport_event(event: &TransportEvent) -> (r: Option<Notice>)
    ensures
        printer::notice_view(r) == transport_told(*event),
{
    match event {
        TransportEvent::Connected => Some(Notice::plain("transport_connected")),
        TransportEvent::Disconnected => Some(Notice::plain("transport_disconnected")),
        TransportEvent::Authenticated => Some(Notice::plain("transport_authenticated")),
        TransportEvent::Subscribed => Some(Notice::plain("transport_subscribed")),
        TransportEvent::ReconnectScheduled { attempt, backoff_ms, reason } => {
            let mut said = ObjectBuilder::new();
            said.put("attempt", Json::unsigned(*attempt));
            said.put("backoff_ms", Json::unsigned(*backoff_ms));
            said.put("reason", Json::text(reason.as_str()));
            assert(said@ =~= transport_told(*event)->0.payload->Object_0);
            Some(Notice::new("reconnect_scheduled", said.build()))
        },
        TransportEvent::TransportError { stage, message } => {
            let mut said = ObjectBuilder::new();
            said.put("stage", Json::text(stage.as_str()));
            said.put("message", Json::text(message.as_str()));
            assert(said@ =~= transport_told(*event)->0.payload->Object_0);
            Some(Notice::new("transport_error", said.build()))
        },
        _ => None,
    }
}

/// What is told of a failure under some name.
pub fn failure(name: &'static str, error: &str) -> (r: Notice)
    ensures
        r@ == printer::notice_with(name@, "error"@, JsonView::Text(error@)),
{
    Notice::with(name, "error", Json::text(error))
}

/// What is told of reports of the connection that were missed.
pub fn transport_lagged(count: u64) -> (r: Notice)
    ensures
        r@ == printer::notice_with("transport_event_lagged"@, "count"@, json::unsigned_view(count)),
{
    Notice::with("transport_event_lagged", "count", Json::unsigned(count))
}

// ---------------------------------------------------------------------------
// The audio output
// ---------------------------------------------------------------------------

/// A text or null as JSON.
pub open spec fn text_or_null(value: Option<Seq<char>>) -> JsonView {
    match value {
        Some(text) => JsonView::Text(text),
        None => JsonView::Null,
    }
}

/// What is told of an output that is ready.
pub open spec fn audio_ready_told(device: Option<Seq<char>>, quality: Seq<char>) -> NoticeView {
    NoticeView {
        name: "audio_ready"@,
        payload: JsonView::Object(
            seq![("device"@, text_or_null(device)), ("quality"@, JsonView::Text(quality))],
        ),
    }
}

pub fn audio_ready(device: Option<&str>, quality: &str) -> (r: Notice)
    ensures
        r@ == audio_ready_told(
            match device {
                Some(name) => Some(name@),
                None => None,
            },
            quality@,
        ),
{
    let mut said = ObjectBuilder::new();
    said.put(
        "device",
        match device {
            Some(name) => Json::text(name),
            None => Json::Null,
        },
    );
    said.put("quality", Json::text(quality));
    assert(said@.len() == 2);
    let r = Notice::new("audio_ready", said.build());
    assert(r@.payload->Object_0 =~= audio_ready_told(
        match device {
            Some(name) => Some(name@),
            None => None,
        },
        quality@,
    ).payload->Object_0);
    r
}

/// What is told of a track that is being fetched.
pub open spec fn audio_loading_told(track: QueueItemView, quality: Seq<char>) -> NoticeView {
    NoticeView {
        name: "audio_loading"@,
        payload: JsonView::Object(
            seq![
                ("track_id"@, json::unsigned_view(track.track_id)),
                ("queue_item_id"@, json::unsigned_view(track.queue_item_id)),
                ("quality"@, JsonView::Text(quality)),
            ],
        ),
    }
}

pub fn audio_loading(track: &QueueItem, quality: &str) -> (r: Notice)
    ensures
        r@ == audio_loading_told(track@, quality@),
{
    let mut said = ObjectBuilder::new();
    said.put("track_id", Json::unsigned(track.track_id));
    said.put("queue_item_id", Json::unsigned(track.queue_item_id));
    said.put("quality", Json::text(quality));
    assert(said@ =~= audio_loading_told(track@, quality@).payload->Object_0);
    Notice::new("audio_loading", said.build())
}

/// What is told of a track that has started.
pub fn audio_started(track_id: u64) -> (r: Notice)
    ensures
        r@ == printer::notice_with("audio_started"@, "track_id"@, json::unsigned_view(track_id)),
{
    Notice::with("audio_started", "track_id", Json::unsigned(track_id))
}

/// What is told of a failure with a track.
pub open spec fn track_error_told(error: Seq<char>, track_id: u64) -> NoticeView {
    NoticeView {
        name: "audio_error"@,
        payload: JsonView::Object(
            seq![("error"@, JsonView::Text(error)), ("track_id"@, json::unsigned_view(track_id))],
        ),
    }
}

pub fn track_error(error: &str, track_id: u64) -> (r: Notice)
    ensures
        r@ == track_error_told(error@, track_id),
{
    let mut said = ObjectBuilder::new();
    said.put("error", Json::text(error));
    said.put("track_id", Json::unsigned(track_id));
    assert(said@ =~= track_error_told(error@, track_id).payload->Object_0);
    Notice::new("audio_error", said.build())
}

// ---------------------------------------------------------------------------
// Media controls
// ---------------------------------------------------------------------------

/// The name under which the media controls are found.
pub fn mpris_ready(dbus_name: &str) -> (r: Notice)
    ensures
        r@ == printer::notice_with("mpris_ready"@, "dbus_name"@, JsonView::Text(dbus_name@)),
{
    Notice::with("mpris_ready", "dbus_name", Json::text(dbus_name))
}

/// What is told of a media key that could not be obeyed.
pub open spec fn mpris_error_told(command: Seq<char>, error: Seq<char>) -> NoticeView {
    NoticeView {
        name: "mpris_command_error"@,
        payload: JsonView::Object(
            seq![("command"@, JsonView::Text(command)), ("error"@, JsonView::Text(error))],
        ),
    }
}

pub fn mpris_command_error(command: &str, error: &str) -> (r: Notice)
    ensures
        r@ == mpris_error_told(command@, error@),
{
    let mut said = ObjectBuilder::new();
    said.put("command", Json::text(command));
    said.put("error", Json::text(error));
    assert(said@ =~= mpris_error_told(command@, error@).payload->Object_0);
    Notice::new("mpris_command_error", said.build())
}

// ---------------------------------------------------------------------------
// Laws
// ---------------------------------------------------------------------------

/// A changed queue is shown to people with its version and the labels of all
/// its entries, in their order.
pub proof fn shown_queue_is_whole(queue: QueueStateView)
    ensures
        printer::line_for(false, queue_told(queue).name, queue_told(queue).payload)
            == printer::EventLineView::Text(
            "queue v"@ + text::decimal(queue.version.major as nat) + "."@ + text::decimal(
                queue.version.minor as nat,
            ) + " ["@ + printer::comma_separated(
                Seq::new(queue.items.len(), |i: int| queue::track_label_view(queue.items[i])),
            ) + "]"@,
        ),
{
    let payload = queue_told(queue).payload;
    reveal_strlit("connecting");
    reveal_strlit("queue_updated");
    reveal_strlit("version");
    reveal_strlit("shuffle_mode");
    reveal_strlit("autoplay_mode");
    reveal_strlit("tracks");
    reveal_strlit("major");
    reveal_strlit("minor");
    assert("connecting"@.len() != "queue_updated"@.len());
    assert("tracks"@.len() == 6);
    assert("version"@.len() == 7);
    assert("shuffle_mode"@.len() == 12);
    assert("autoplay_mode"@.len() == 13);
    assert("major"@[1] != "minor"@[1]);
    reveal_with_fuel(json::member_of, 5);
    assert(json::member(payload, "tracks"@) == Some(labels_said(queue.items)));
    lemma_labels_are_texts(queue.items);
}

proof fn lemma_labels_are_texts(items: Seq<QueueItemView>)
    ensures
        printer::texts_in(labels_said(items)->Array_0) == Seq::new(
            items.len(),
            |i: int| queue::track_label_view(items[i]),
        ),
    decreases items.len(),
{
    let labels = Seq::new(items.len(), |i: int| queue::track_label_view(items[i]));
    if items.len() > 0 {
        let before = items.drop_last();
        lemma_labels_are_texts(before);
        assert(labels_said(items)->Array_0.drop_last() =~= labels_said(before)->Array_0);
        assert(labels =~= Seq::new(
            before.len(),
            |i: int| queue::track_label_view(before[i]),
        ).push(labels.last()));
    } else {
        assert(labels =~= Seq::<Seq<char>>::empty());
    }
}

/// A command that was sent is shown to people with its type and its identifier.
pub proof fn shown_command_is_named(message_type: Seq<char>, action_uuid: Seq<char>)
    ensures
        printer::line_for(
            false,
            sent_told(message_type, action_uuid).name,
            sent_told(message_type, action_uuid).payload,
        ) == printer::EventLineView::Text(
            "sent "@ + message_type + " ("@ + action_uuid + ")"@,
        ),
{
    reveal_strlit("connecting");
    reveal_strlit("queue_updated");
    reveal_strlit("renderer_command");
    reveal_strlit("session_event");
    reveal_strlit("command_sent");
    reveal_strlit("message_type");
    reveal_strlit("action_uuid");
    assert("command_sent"@.len() == 12);
    assert("connecting"@.len() == 10);
    assert("queue_updated"@.len() == 13);
    assert("renderer_command"@.len() == 16);
    assert("session_event"@.len() == 13);
    assert("message_type"@.len() != "action_uuid"@.len());
    reveal_with_fuel(json::member_of, 3);
}

/// A version is said by its two numbers, each under its own name.
pub proof fn versions_are_said_in_full(version: QueueVersion)
    ensures
        json::member_u64(version_said(version), "major"@) == Some(version.major),
        json::member_u64(version_said(version), "minor"@) == Some(version.minor),
{
    reveal_strlit("major");
    reveal_strlit("minor");
    assert("major"@[1] != "minor"@[1]);
    let said = version_said(version)->Object_0;
    json::lemma_member_at(said, 0);
    json::lemma_member_at(said, 1);
}

/// A changed queue is told with its version, its modes, the labels of its
/// entries in their order and their number.
pub proof fn told_queue_is_whole(queue: QueueStateView)
    requires
        queue.items.len() <= u64::MAX,
    ensures
        ({
            let told = queue_told(queue);
            &&& told.name == "queue_updated"@
            &&& json::member(told.payload, "version"@) matches Some(version) && json::member_u64(
                version,
                "major"@,
            ) == Some(queue.version.major) && json::member_u64(version, "minor"@) == Some(
                queue.version.minor,
            )
            &&& json::member_bool(told.payload, "shuffle_mode"@) == Some(queue.shuffle_mode)
            &&& json::member_bool(told.payload, "autoplay_mode"@) == Some(queue.autoplay_mode)
            &&& json::member(told.payload, "tracks"@) matches Some(JsonView::Array(labels))
                && labels.len() == queue.items.len() && forall|i: int|
                0 <= i < labels.len() ==> #[trigger] labels[i] == JsonView::Text(
                    queue::track_label_view(queue.items[i]),
                )
            &&& json::member(told.payload, "track_count"@) matches Some(
                JsonView::Number(JsonNumber::PosInt(count)),
            ) && count == queue.items.len()
        }),
{
    reveal_strlit("version");
    reveal_strlit("shuffle_mode");
    reveal_strlit("autoplay_mode");
    reveal_strlit("tracks");
    reveal_strlit("track_count");
    assert("version"@.len() == 7);
    assert("shuffle_mode"@.len() == 12);
    assert("autoplay_mode"@.len() == 13);
    assert("tracks"@.len() == 6);
    assert("track_count"@.len() == 11);
    let said = queue_told(queue).payload->Object_0;
    json::lemma_member_at(said, 0);
    json::lemma_member_at(said, 1);
    json::lemma_member_at(said, 2);
    json::lemma_member_at(said, 3);
    json::lemma_member_at(said, 4);
    versions_are_said_in_full(queue.version);
}

/// An event of the session is told as it came, an action that was not answered
/// with its identifier and the time that it was given, and a command that was
/// sent with its type and its identifier.
pub proof fn told_messages_are_whole(
    message_type: Seq<char>,
    payload: JsonView,
    uuid: Seq<char>,
    timeout_ms: u64,
)
    ensures
        ({
            let told = session_told(message_type, payload);
            &&& told.name == "session_event"@
            &&& json::member_text(told.payload, "message_type"@) == Some(message_type)
            &&& json::member(told.payload, "payload"@) == Some(payload)
        }),
        ({
            let told = timeout_told(uuid, timeout_ms);
            &&& told.name == "pending_timeout"@
            &&& json::member_text(told.payload, "uuid"@) == Some(uuid)
            &&& json::member_u64(told.payload, "timeout_ms"@) == Some(timeout_ms)
        }),
        ({
            let told = sent_told(message_type, uuid);
            &&& told.name == "command_sent"@
            &&& json::member_text(told.payload, "message_type"@) == Some(message_type)
            &&& json::member_text(told.payload, "action_uuid"@) == Some(uuid)
        }),
{
    reveal_strlit("message_type");
    reveal_strlit("payload");
    reveal_strlit("uuid");
    reveal_strlit("timeout_ms");
    reveal_strlit("action_uuid");
    assert("message_type"@.len() == 12);
    assert("payload"@.len() == 7);
    assert("uuid"@.len() == 4);
    assert("timeout_ms"@.len() == 10);
    assert("action_uuid"@.len() == 11);
    lemma_two_members(session_told(message_type, payload).payload->Object_0);
    lemma_two_members(timeout_told(uuid, timeout_ms).payload->Object_0);
    lemma_two_members(sent_told(message_type, uuid).payload->Object_0);
}

proof fn lemma_two_members(said: Seq<(Seq<char>, JsonView)>)
    requires
        said.len() == 2,
        said[0].0 != said[1].0,
    ensures
        json::member_of(said, said[0].0) == Some(said[0].1),
        json::member_of(said, said[1].0) == Some(said[1].1),
{
    json::lemma_member_at(said, 0);
    json::lemma_member_at(said, 1);
}

/// Before a connection is made it is told where to, under which name, and what
/// is switched on.
pub proof fn told_connection_is_whole(
    endpoint: Seq<char>,
    device_name: Seq<char>,
    renderer: bool,
    audio: bool,
    mpris: bool,
)
    ensures
        ({
            let told = connecting_told(endpoint, device_name, renderer, audio, mpris);
            &&& told.name == "connecting"@
            &&& json::member_text(told.payload, "endpoint"@) == Some(endpoint)
            &&& json::member_text(told.payload, "device_name"@) == Some(device_name)
            &&& json::member_bool(told.payload, "renderer"@) == Some(renderer)
            &&& json::member_bool(told.payload, "audio"@) == Some(audio)
            &&& json::member_bool(told.payload, "mpris"@) == Some(mpris)
            &&& printer::line_for(false, told.name, told.payload) == printer::EventLineView::Text(
                if renderer {
                    "connecting to "@ + endpoint + " as "@ + device_name + " (renderer)"@
                } else {
                    "connecting to "@ + endpoint + " as "@ + device_name
                },
            )
        }),
{
    reveal_strlit("endpoint");
    reveal_strlit("device_name");
    reveal_strlit("renderer");
    reveal_strlit("audio");
    reveal_strlit("mpris");
    reveal_strlit("");
    assert("endpoint"@.len() == 8);
    assert("device_name"@.len() == 11);
    assert("renderer"@.len() == 8);
    assert("audio"@.len() == 5);
    assert("mpris"@.len() == 5);
    assert("endpoint"@[0] != "renderer"@[0]);
    assert("audio"@[0] != "mpris"@[0]);
    let said = connecting_told(endpoint, device_name, renderer, audio, mpris).payload->Object_0;
    json::lemma_member_at(said, 0);
    json::lemma_member_at(said, 1);
    json::lemma_member_at(said, 2);
    json::lemma_member_at(said, 3);
    json::lemma_member_at(said, 4);
    let line = "connecting to "@ + endpoint + " as "@ + device_name;
    assert(line + ""@ =~= line);
}

/// Every report about the connection itself is told, under a name of its own
/// and with all that it says; messages of the server are not told here.
pub proof fn connection_is_told_as_reported(event: TransportEvent)
    ensures
        match event {
            TransportEvent::Connected => transport_told(event) matches Some(told) && told.name
                == "transport_connected"@ && told.payload == JsonView::Object(Seq::empty()),
            TransportEvent::Disconnected => transport_told(event) matches Some(told) && told.name
                == "transport_disconnected"@ && told.payload == JsonView::Object(Seq::empty()),
            TransportEvent::Authenticated => transport_told(event) matches Some(told) && told.name
                == "transport_authenticated"@ && told.payload == JsonView::Object(Seq::empty()),
            TransportEvent::Subscribed => transport_told(event) matches Some(told) && told.name
                == "transport_subscribed"@ && told.payload == JsonView::Object(Seq::empty()),
            TransportEvent::ReconnectScheduled { attempt, backoff_ms, reason } => transport_told(
                event,
            ) matches Some(told) && {
                &&& told.name == "reconnect_scheduled"@
                &&& json::member_u64(told.payload, "attempt"@) == Some(attempt)
                &&& json::member_u64(told.payload, "backoff_ms"@) == Some(backoff_ms)
                &&& json::member_text(told.payload, "reason"@) == Some(reason@)
            },
            TransportEvent::TransportError { stage, message } => transport_told(event)
                matches Some(told) && {
                &&& told.name == "transport_error"@
                &&& json::member_text(told.payload, "stage"@) == Some(stage@)
                &&& json::member_text(told.payload, "message"@) == Some(message@)
            },
            _ => transport_told(event) is None,
        },
{
    reveal_strlit("attempt");
    reveal_strlit("backoff_ms");
    reveal_strlit("reason");
    reveal_strlit("stage");
    reveal_strlit("message");
    assert("attempt"@.len() == 7);
    assert("backoff_ms"@.len() == 10);
    assert("reason"@.len() == 6);
    assert("stage"@.len() == 5);
    assert("message"@.len() == 7);
    if event is ReconnectScheduled {
        let said = transport_told(event)->0.payload->Object_0;
        json::lemma_member_at(said, 0);
        json::lemma_member_at(said, 1);
        json::lemma_member_at(said, 2);
    }
    if event is TransportError {
        lemma_two_members(transport_told(event)->0.payload->Object_0);
    }
}

/// What is told of the audio output and of media keys names the device, the
/// track, the quality and the failure that it is about.
pub proof fn told_audio_is_whole(
    device: Option<Seq<char>>,
    quality: Seq<char>,
    track: QueueItemView,
    error: Seq<char>,
    command: Seq<char>,
)
    ensures
        ({
            let told = audio_ready_told(device, quality);
            &&& told.name == "audio_ready"@
            &&& json::member(told.payload, "device"@) == Some(
                match device {
                    Some(name) => JsonView::Text(name),
                    None => JsonView::Null,
                },
            )
            &&& json::member_text(told.payload, "quality"@) == Some(quality)
        }),
        ({
            let told = audio_loading_told(track, quality);
            &&& told.name == "audio_loading"@
            &&& json::member_u64(told.payload, "track_id"@) == Some(track.track_id)
            &&& json::member_u64(told.payload, "queue_item_id"@) == Some(track.queue_item_id)
            &&& json::member_text(told.payload, "quality"@) == Some(quality)
        }),
        ({
            let told = track_error_told(error, track.track_id);
            &&& told.name == "audio_error"@
            &&& json::member_text(told.payload, "error"@) == Some(error)
            &&& json::member_u64(told.payload, "track_id"@) == Some(track.track_id)
        }),
        ({
            let told = mpris_error_told(command, error);
            &&& told.name == "mpris_command_error"@
            &&& json::member_text(told.payload, "command"@) == Some(command)
            &&& json::member_text(told.payload, "error"@) == Some(error)
        }),
{
    reveal_strlit("device");
    reveal_strlit("quality");
    reveal_strlit("track_id");
    reveal_strlit("queue_item_id");
    reveal_strlit("error");
    reveal_strlit("command");
    assert("device"@.len() == 6);
    assert("quality"@.len() == 7);
    assert("track_id"@.len() == 8);
    assert("queue_item_id"@.len() == 13);
    assert("error"@.len() == 5);
    assert("command"@.len() == 7);
    lemma_two_members(audio_ready_told(device, quality).payload->Object_0);
    lemma_two_members(track_error_told(error, track.track_id).payload->Object_0);
    lemma_two_members(mpris_error_told(command, error).payload->Object_0);
    let said = audio_loading_told(track, quality).payload->Object_0;
    json::lemma_member_at(said, 0);
    json::lemma_member_at(said, 1);
    json::lemma_member_at(said, 2);
}

/// A number, a text or an entry that is not given is written as `None`, and one
/// that is given inside `Some(..)`.
pub proof fn optional_values_are_written_as_such(n: i32, m: u64, item: QueueItemView)
    ensures
        i32_text(None) == "None"@,
        i32_text(Some(n)) == "Some("@ + text::signed_decimal(n as int) + ")"@,
        u64_text(None) == "None"@,
        u64_text(Some(m)) == "Some("@ + text::decimal(m as nat) + ")"@,
        optional_item_text(None) == "None"@,
        optional_item_text(Some(item)) == "Some("@ + ("QueueItem { track_context_uuid: "@
            + debug_quoted(item.track_context_uuid) + ", track_id: "@ + text::decimal(
            item.track_id as nat,
        ) + ", queue_item_id: "@ + text::decimal(item.queue_item_id as nat) + " }"@) + ")"@,
{
}

/// A command to the renderer is written with its own name and the value of
/// each of its fields behind the field's name.
pub proof fn commands_are_written_with_their_fields(command: RendererCommandView)
    ensures
        match command {
            RendererCommandView::SetVolume { volume, volume_delta } => command_text(command)
                == "SetVolume { volume: "@ + i32_text(volume) + ", volume_delta: "@ + i32_text(
                volume_delta,
            ) + " }"@,
            RendererCommandView::MuteVolume { value } => command_text(command) == (
            "MuteVolume { value: "@ + if value {
                "true"@
            } else {
                "false"@
            } + " }"@),
            RendererCommandView::SetActive { active } => command_text(command) == (
            "SetActive { active: "@ + if active {
                "true"@
            } else {
                "false"@
            } + " }"@),
            RendererCommandView::SetShuffleMode { shuffle_mode } => command_text(command) == (
            "SetShuffleMode { shuffle_mode: "@ + if shuffle_mode {
                "true"@
            } else {
                "false"@
            } + " }"@),
            RendererCommandView::SetMaxAudioQuality { max_audio_quality } => command_text(command)
                == "SetMaxAudioQuality { max_audio_quality: "@ + text::signed_decimal(
                max_audio_quality as int,
            ) + " }"@,
            RendererCommandView::SetLoopMode { loop_mode } => command_text(command)
                == "SetLoopMode { loop_mode: "@ + text::signed_decimal(loop_mode as int) + " }"@,
            RendererCommandView::SetState {
                playing_state,
                current_position_ms,
                current_track,
                next_track,
            } => command_text(command) == "SetState { playing_state: "@ + i32_text(playing_state)
                + ", current_position_ms: "@ + u64_text(current_position_ms) + ", current_track: "@
                + optional_item_text(current_track) + ", next_track: "@ + optional_item_text(
                next_track,
            ) + " }"@,
        },
{
}

} // verus!
