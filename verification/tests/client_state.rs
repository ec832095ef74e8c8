use qconnect::app_logic::{
    clear_pending_if_matches, map_renderer_server_command, retain_without, QconnectApp,
};
use qconnect::app_types::{QconnectAppEvent, RendererCommand};
use qconnect::json::{Json, JsonNumber, ObjectBuilder};
use qconnect::protocol::{
    QueueCommandType, QueueEventType, QueueServerEvent, RendererCommandType,
    RendererServerCommand, TransportEvent,
};
use qconnect::queue::{entries_from_json, entry_from_json, ids_from_json, QueueItem, QueueVersion};

fn object(members: Vec<(&str, Json)>) -> Json {
    let mut built = ObjectBuilder::new();
    for (key, value) in members {
        built.put(key, value);
    }
    built.build()
}

fn entry(id: u64) -> Json {
    object(vec![
        ("track_context_uuid", Json::text("ctx")),
        ("track_id", Json::unsigned(1000 + id)),
        ("queue_item_id", Json::unsigned(id)),
    ])
}

fn item(id: u64) -> QueueItem {
    QueueItem { track_context_uuid: "ctx".to_string(), track_id: 1000 + id, queue_item_id: id }
}

fn event(event_type: QueueEventType, version: Option<QueueVersion>, payload: Json) -> TransportEvent {
    TransportEvent::InboundQueueServerEvent(QueueServerEvent {
        event_type,
        message_type: "MESSAGE".to_string(),
        queue_version: version,
        payload,
    })
}

fn tracks(ids: &[u64]) -> Json {
    Json::Array(ids.iter().map(|id| entry(*id)).collect())
}

fn ids_of(app: &QconnectApp) -> Vec<u64> {
    app.queue_state().queue_items.iter().map(|it| it.queue_item_id).collect()
}

fn loaded_app() -> QconnectApp {
    let mut app = QconnectApp::new();
    app.handle_transport_event(event(
        QueueEventType::SrvrCtrlQueueState,
        Some(QueueVersion::new(3, 4)),
        object(vec![
            ("tracks", tracks(&[1, 2, 3])),
            ("shuffle_mode", Json::Bool(true)),
            ("autoplay_mode", Json::Bool(true)),
        ]),
    ));
    app
}

#[test]
fn new_client_knows_nothing() {
    let app = QconnectApp::new();
    assert_eq!(app.queue_state_snapshot().version, QueueVersion::new(0, 0));
    assert!(app.queue_state_snapshot().queue_items.is_empty());
    assert!(app.renderer_state_snapshot().current_track.is_none());
    assert!(app.renderer_state().playing_state.is_none());
}

#[test]
fn full_state_replaces_the_queue() {
    let app = loaded_app();
    assert_eq!(app.queue_state().version, QueueVersion::new(3, 4));
    assert_eq!(ids_of(&app), vec![1, 2, 3]);
    assert!(app.queue_state().shuffle_mode);
    assert!(app.queue_state().autoplay_mode);
    assert_eq!(app.queue_state().queue_items[0], item(1));
}

#[test]
fn loaded_tracks_keep_autoplay() {
    let mut app = loaded_app();
    let told = app.handle_transport_event(event(
        QueueEventType::SrvrCtrlQueueTracksLoaded,
        None,
        object(vec![("tracks", tracks(&[9]))]),
    ));
    assert_eq!(ids_of(&app), vec![9]);
    assert!(!app.queue_state().shuffle_mode);
    assert!(app.queue_state().autoplay_mode);
    assert_eq!(app.queue_state().version, QueueVersion::new(0, 0));
    assert_eq!(told, Some(QconnectAppEvent::QueueUpdated(app.queue_state_snapshot())));
}

#[test]
fn added_and_inserted_tracks_come_last() {
    let mut app = loaded_app();
    app.handle_transport_event(event(
        QueueEventType::SrvrCtrlQueueTracksAdded,
        Some(QueueVersion::new(3, 5)),
        object(vec![("tracks", tracks(&[4]))]),
    ));
    app.handle_transport_event(event(
        QueueEventType::SrvrCtrlQueueTracksInserted,
        Some(QueueVersion::new(3, 6)),
        object(vec![("tracks", tracks(&[5, 6]))]),
    ));
    assert_eq!(ids_of(&app), vec![1, 2, 3, 4, 5, 6]);
    assert_eq!(app.queue_state().version, QueueVersion::new(3, 6));
}

#[test]
fn one_bad_entry_spoils_the_list() {
    let mut app = loaded_app();
    app.handle_transport_event(event(
        QueueEventType::SrvrCtrlQueueTracksAdded,
        None,
        object(vec![("tracks", Json::Array(vec![entry(4), Json::Null]))]),
    ));
    assert_eq!(ids_of(&app), vec![1, 2, 3]);
}

#[test]
fn removed_tracks_are_gone() {
    let mut app = loaded_app();
    app.handle_transport_event(event(
        QueueEventType::SrvrCtrlQueueTracksRemoved,
        None,
        object(vec![(
            "queue_item_ids",
            Json::Array(vec![Json::unsigned(2), Json::unsigned(77)]),
        )]),
    ));
    assert_eq!(ids_of(&app), vec![1, 3]);
    let twice = retain_without(&app.queue_state_snapshot().queue_items, &vec![2, 77]);
    assert_eq!(twice, vec![item(1), item(3)]);
}

#[test]
fn malformed_removal_removes_nothing() {
    let mut app = loaded_app();
    app.handle_transport_event(event(
        QueueEventType::SrvrCtrlQueueTracksRemoved,
        None,
        object(vec![("queue_item_ids", Json::Array(vec![Json::signed(-1)]))]),
    ));
    assert_eq!(ids_of(&app), vec![1, 2, 3]);
}

#[test]
fn cleared_queue_keeps_its_modes() {
    let mut app = loaded_app();
    app.handle_transport_event(event(
        QueueEventType::SrvrCtrlQueueCleared,
        Some(QueueVersion::new(4, 0)),
        object(vec![]),
    ));
    assert!(ids_of(&app).is_empty());
    assert!(app.queue_state().shuffle_mode);
    assert_eq!(app.queue_state().version, QueueVersion::new(4, 0));
}

#[test]
fn renderer_tracks_are_looked_up() {
    let mut app = loaded_app();
    let told = app.handle_transport_event(event(
        QueueEventType::SrvrCtrlRendererStateUpdated,
        None,
        object(vec![(
            "player_state",
            object(vec![
                ("current_queue_item_id", Json::unsigned(2)),
                ("next_queue_item_id", Json::unsigned(8)),
                ("current_position", Json::unsigned(1234)),
                ("playing_state", Json::signed(2)),
            ]),
        )]),
    ));
    let renderer = app.renderer_state_snapshot();
    assert_eq!(renderer.current_track, Some(item(2)));
    assert_eq!(renderer.next_track, None);
    assert_eq!(renderer.current_position_ms, Some(1234));
    assert_eq!(renderer.playing_state, Some(2));
    assert_eq!(told, Some(QconnectAppEvent::RendererUpdated(renderer)));
    assert_eq!(ids_of(&app), vec![1, 2, 3]);
}

#[test]
fn renderer_state_without_player_state_is_blank() {
    let mut app = loaded_app();
    app.handle_transport_event(event(
        QueueEventType::SrvrCtrlRendererStateUpdated,
        None,
        object(vec![]),
    ));
    assert_eq!(app.renderer_state().current_track, None);
    assert_eq!(app.renderer_state().current_position_ms, None);
}

#[test]
fn modes_are_passed_on_as_commands() {
    let mut app = loaded_app();
    let told = app.handle_transport_event(event(
        QueueEventType::SrvrCtrlLoopModeSet,
        None,
        object(vec![("loop_mode", Json::unsigned(3))]),
    ));
    assert_eq!(
        told,
        Some(QconnectAppEvent::RendererCommandApplied {
            command: RendererCommand::SetLoopMode { loop_mode: 3 }
        })
    );
    let told = app.handle_transport_event(event(
        QueueEventType::SrvrCtrlShuffleModeSet,
        None,
        object(vec![("shuffle_mode", Json::Bool(true))]),
    ));
    assert_eq!(
        told,
        Some(QconnectAppEvent::RendererCommandApplied {
            command: RendererCommand::SetShuffleMode { shuffle_mode: true }
        })
    );
}

#[test]
fn other_events_are_passed_on() {
    let mut app = loaded_app();
    let told = app.handle_transport_event(event(
        QueueEventType::Other,
        None,
        object(vec![("a", Json::Bool(true))]),
    ));
    assert_eq!(
        told,
        Some(QconnectAppEvent::SessionManagementEvent {
            message_type: "MESSAGE".to_string(),
            payload: object(vec![("a", Json::Bool(true))]),
        })
    );
    assert_eq!(app.handle_transport_event(TransportEvent::Connected), None);
    assert_eq!(ids_of(&app), vec![1, 2, 3]);
}

#[test]
fn renderer_commands_are_read() {
    let command = |command_type, payload| {
        map_renderer_server_command(&RendererServerCommand { command_type, payload })
    };
    assert_eq!(
        command(
            RendererCommandType::SrvrRndrSetState,
            object(vec![
                ("playing_state", Json::unsigned(2)),
                ("current_position", Json::unsigned(10)),
                ("current_track", entry(5)),
                ("next_track", Json::Array(vec![Json::text("ctx"), Json::unsigned(1), Json::unsigned(2)])),
            ]),
        ),
        RendererCommand::SetState {
            playing_state: Some(2),
            current_position_ms: Some(10),
            current_track: Some(item(5)),
            next_track: None,
        }
    );
    assert_eq!(
        command(
            RendererCommandType::SrvrRndrSetVolume,
            object(vec![("volume", Json::unsigned(30)), ("volume_delta", Json::signed(-5))]),
        ),
        RendererCommand::SetVolume { volume: Some(30), volume_delta: Some(-5) }
    );
    assert_eq!(
        command(RendererCommandType::SrvrRndrSetActive, object(vec![("active", Json::Bool(true))])),
        RendererCommand::SetActive { active: true }
    );
    assert_eq!(
        command(RendererCommandType::SrvrRndrSetMaxAudioQuality, object(vec![])),
        RendererCommand::SetMaxAudioQuality { max_audio_quality: 4 }
    );
    assert_eq!(
        command(RendererCommandType::SrvrRndrSetLoopMode, object(vec![])),
        RendererCommand::SetLoopMode { loop_mode: 0 }
    );
    assert_eq!(
        command(RendererCommandType::SrvrRndrSetShuffleMode, object(vec![])),
        RendererCommand::SetShuffleMode { shuffle_mode: false }
    );
    assert_eq!(
        command(RendererCommandType::SrvrRndrMuteVolume, object(vec![("value", Json::Bool(true))])),
        RendererCommand::MuteVolume { value: true }
    );
}

#[test]
fn renderer_command_reaches_the_listener() {
    let mut app = QconnectApp::new();
    let told = app.handle_transport_event(TransportEvent::InboundRendererServerCommand(
        RendererServerCommand {
            command_type: RendererCommandType::SrvrRndrSetVolume,
            payload: object(vec![("volume", Json::unsigned(7))]),
        },
    ));
    assert_eq!(
        told,
        Some(QconnectAppEvent::RendererCommandApplied {
            command: RendererCommand::SetVolume { volume: Some(7), volume_delta: None }
        })
    );
}

#[test]
fn commands_get_fresh_identifiers() {
    let app = QconnectApp::new();
    let first = app.build_queue_command(QueueCommandType::CtrlSrvrClearQueue, object(vec![]));
    let second = app.build_queue_command(QueueCommandType::CtrlSrvrClearQueue, object(vec![]));
    assert_eq!(first.command_type, QueueCommandType::CtrlSrvrClearQueue);
    assert_eq!(first.queue_version, QueueVersion::new(0, 0));
    assert_ne!(first.action_uuid, second.action_uuid);
    assert_eq!(first.action_uuid.len(), 36);
    assert_eq!(&first.action_uuid[14..15], "4");
}

#[test]
fn nothing_is_ever_pending() {
    let app = QconnectApp::new();
    let mut state = app.state_handle();
    assert!(state.pending.current().is_none());
    assert!(!clear_pending_if_matches(&mut state, "any"));
    state.pending.clear();
    assert!(state.pending.current().is_none());
}

#[test]
fn entries_are_read_from_objects_and_arrays() {
    assert_eq!(entry_from_json(&entry(7)), Some(item(7)));
    let listed = Json::Array(vec![Json::text("ctx"), Json::unsigned(1007), Json::unsigned(7)]);
    assert_eq!(entry_from_json(&listed), Some(item(7)));
    let short = Json::Array(vec![Json::text("ctx"), Json::unsigned(1007)]);
    assert_eq!(entry_from_json(&short), None);
    assert_eq!(entry_from_json(&object(vec![("track_id", Json::unsigned(1))])), None);
    assert_eq!(entries_from_json(&tracks(&[1, 2])), Some(vec![item(1), item(2)]));
    assert_eq!(entries_from_json(&Json::Null), None);
    assert_eq!(ids_from_json(&Json::Array(vec![Json::unsigned(3)])), Some(vec![3]));
    assert_eq!(ids_from_json(&Json::Array(vec![Json::text("3")])), None);
}

#[test]
fn entries_have_labels() {
    assert_eq!(item(7).label(), "#7");
    assert_eq!(item(7).track_label(), "1007#7");
    assert_eq!(item(0).clone(), item(0));
}

#[test]
fn json_numbers_read_back() {
    assert_eq!(Json::signed(-3).as_i64(), Some(-3));
    assert_eq!(Json::signed(3).as_u64(), Some(3));
    assert_eq!(Json::unsigned(u64::MAX).as_i64(), None);
    assert_eq!(Json::unsigned(u64::MAX).as_u64(), Some(u64::MAX));
    assert_eq!(Json::Number(JsonNumber::Float(0)).as_u64(), None);
    let wide = object(vec![("n", Json::unsigned(0x1_0000_0002))]);
    assert_eq!(wide.get_i32("n"), Some(2));
    assert_eq!(wide.get_bool("n"), None);
    assert_eq!(wide.get_str("missing"), None);
    assert_eq!(wide.clone(), wide);
}
