use qconnect::app_types::{
    QConnectQueueState, QConnectRendererState, QconnectAppEvent, RendererCommand,
};
use qconnect::json::{Json, ObjectBuilder};
use qconnect::mpris::{
    adjacent_queue_item, handle_mpris_command, media_status, mpris_player_state,
    ordered_queue_items, player_state_request, MediaStatus, MprisCommand,
};
use qconnect::notices;
use qconnect::playback::{
    adjust_percent, clamp_percent, output_volume, plan_play, seek_secs_for, shown_position_secs,
    AudioAction, PlayPlan, PlaybackSnapshot, PlaybackState,
};
use qconnect::player::PlaybackEvent;
use qconnect::printer::{EventLine, Notice, Printer};
use qconnect::protocol::TransportEvent;
use qconnect::quality::{
    connect_quality_to_qobuz, lower_quality, playback_quality, quality_rank, Quality,
};
use qconnect::queue::{QueueItem, QueueVersion};
use qconnect::sink::CliEventSink;

const MILLI: u64 = 1_000_000;

fn object(members: Vec<(&str, Json)>) -> Json {
    let mut built = ObjectBuilder::new();
    for (key, value) in members {
        built.put(key, value);
    }
    built.build()
}

fn item(id: u64) -> QueueItem {
    QueueItem { track_context_uuid: "ctx".to_string(), track_id: 100 + id, queue_item_id: id }
}

fn queue(ids: &[u64]) -> QConnectQueueState {
    QConnectQueueState {
        version: QueueVersion::new(1, 2),
        queue_items: ids.iter().map(|id| item(*id)).collect(),
        shuffle_mode: false,
        autoplay_mode: false,
        shuffle_order: None,
    }
}

fn renderer(current: Option<u64>) -> QConnectRendererState {
    QConnectRendererState {
        current_track: current.map(item),
        next_track: None,
        current_position_ms: Some(5000),
        playing_state: Some(2),
    }
}

fn state_command(playing_state: Option<i32>, position: Option<u64>, track: Option<u64>) -> RendererCommand {
    RendererCommand::SetState {
        playing_state,
        current_position_ms: position,
        current_track: track.map(item),
        next_track: None,
    }
}

fn event(track_id: u64, is_playing: bool, position: u64, duration: u64) -> PlaybackEvent {
    PlaybackEvent {
        is_playing,
        position,
        duration,
        track_id,
        queue_item_id: 1,
        volume: 75,
        sample_rate: None,
        bit_depth: None,
        gapless_ready: false,
        gapless_next_track_id: 0,
        gapless_next_queue_item_id: 0,
    }
}

#[test]
fn qualities_are_ranked() {
    let all = [Quality::Mp3, Quality::Lossless, Quality::HiRes, Quality::UltraHiRes];
    for (i, quality) in all.iter().enumerate() {
        assert_eq!(quality_rank(*quality) as usize, i + 1);
        assert_eq!(connect_quality_to_qobuz(i as i32 + 1), Some(*quality));
    }
    assert_eq!(connect_quality_to_qobuz(0), None);
    assert_eq!(connect_quality_to_qobuz(-3), None);
    assert_eq!(connect_quality_to_qobuz(99), Some(Quality::UltraHiRes));
    assert_eq!(lower_quality(Quality::HiRes, Quality::Mp3), Quality::Mp3);
    assert_eq!(lower_quality(Quality::Mp3, Quality::HiRes), Quality::Mp3);
    assert_eq!(playback_quality(Quality::HiRes, 2), Quality::Lossless);
    assert_eq!(playback_quality(Quality::HiRes, 4), Quality::HiRes);
    assert_eq!(playback_quality(Quality::HiRes, 0), Quality::HiRes);
}

#[test]
fn volume_commands_stay_in_range() {
    let mut state = PlaybackState::new(0);
    assert_eq!(state.volume, 100);
    let set = RendererCommand::SetVolume { volume: Some(150), volume_delta: Some(-30) };
    assert_eq!(
        state.apply_renderer_command(&set, 0),
        Some(AudioAction::Volume { volume: 70, muted: false })
    );
    let down = RendererCommand::SetVolume { volume: None, volume_delta: Some(i32::MIN) };
    state.apply_renderer_command(&down, 0);
    assert_eq!(state.volume, 0);
    let up = RendererCommand::SetVolume { volume: None, volume_delta: Some(i32::MAX) };
    state.apply_renderer_command(&up, 0);
    assert_eq!(state.volume, 100);
    let mute = RendererCommand::MuteVolume { value: true };
    assert_eq!(
        state.apply_renderer_command(&mute, 0),
        Some(AudioAction::Volume { volume: 100, muted: true })
    );
    assert_eq!(clamp_percent(-1), 0);
    assert_eq!(clamp_percent(55), 55);
    assert_eq!(adjust_percent(90, 20), 100);
    assert_eq!(output_volume(50, false), 50);
    assert_eq!(output_volume(50, true), 0);
    assert_eq!(output_volume(500, false), 100);
}

#[test]
fn state_commands_drive_the_output() {
    let mut state = PlaybackState::new(0);
    assert_eq!(
        state.apply_renderer_command(&state_command(Some(2), None, None), 0),
        Some(AudioAction::Resume)
    );
    assert_eq!(
        state.apply_renderer_command(&state_command(Some(2), Some(9000), Some(4)), 7),
        Some(AudioAction::Play { track: item(4), position_ms: 9000, max_audio_quality: 4 })
    );
    assert_eq!(state.updated_at, 7);
    assert_eq!(
        state.apply_renderer_command(&state_command(Some(3), None, None), 0),
        Some(AudioAction::Pause)
    );
    assert_eq!(
        state.apply_renderer_command(&state_command(Some(1), Some(1), None), 0),
        Some(AudioAction::Stop)
    );
    assert_eq!(
        state.apply_renderer_command(&state_command(None, Some(77), None), 0),
        Some(AudioAction::Seek(77))
    );
    assert_eq!(
        state.apply_renderer_command(&state_command(Some(9), Some(78), None), 0),
        Some(AudioAction::Seek(78))
    );
    assert_eq!(state.apply_renderer_command(&state_command(None, None, None), 0), None);
    assert_eq!(state.current_track, Some(item(4)));
}

#[test]
fn other_commands_leave_the_output_alone() {
    let mut state = PlaybackState::new(0);
    let quality = RendererCommand::SetMaxAudioQuality { max_audio_quality: 2 };
    assert_eq!(state.apply_renderer_command(&quality, 0), None);
    assert_eq!(state.max_audio_quality, 2);
    assert_eq!(state.apply_renderer_command(&RendererCommand::SetActive { active: true }, 0), None);
    assert_eq!(state.apply_renderer_command(&RendererCommand::SetLoopMode { loop_mode: 1 }, 0), None);
    let shuffle = RendererCommand::SetShuffleMode { shuffle_mode: true };
    assert_eq!(state.apply_renderer_command(&shuffle, 0), None);
}

#[test]
fn snapshots_without_audio() {
    let mut state = PlaybackState::new(0);
    state.apply_renderer_command(&state_command(Some(2), Some(1000), Some(1)), 5 * MILLI);
    let snapshot = state.snapshot(1505 * MILLI);
    assert_eq!(snapshot.current_position_ms, 2500);
    assert_eq!(snapshot.playing_state, 2);
    assert!(!snapshot.finished);
    state.apply_renderer_command(&state_command(Some(3), None, None), 0);
    assert_eq!(state.snapshot(1505 * MILLI).current_position_ms, 1000);
}

#[test]
fn snapshots_with_audio() {
    let mut state = PlaybackState::new(0);
    state.apply_renderer_command(&state_command(Some(2), Some(1000), Some(1)), 0);
    let playing = state.audio_snapshot(&event(101, true, 12, 60), 0);
    assert_eq!(
        playing,
        PlaybackSnapshot {
            playing_state: 2,
            current_position_ms: 12000,
            duration_ms: 60000,
            finished: false,
        }
    );
    let ended = state.audio_snapshot(&event(101, false, 60, 60), 0);
    assert!(ended.finished);
    assert_eq!(ended.playing_state, 1);
    assert!(!state.audio_snapshot(&event(102, false, 60, 60), 0).finished);
    assert!(!state.audio_snapshot(&event(101, false, 59, 60), 0).finished);
    assert!(!state.audio_snapshot(&event(101, false, 0, 0), 0).finished);
    let silent = event(0, false, 9, 9);
    let fallback = state.audio_snapshot(&silent, 3000 * MILLI);
    assert_eq!(fallback.current_position_ms, 4000);
    assert_eq!(shown_position_secs(&fallback, &silent), 4);
    assert_eq!(shown_position_secs(&ended, &event(101, false, 60, 60)), 60);
    let far = state.audio_snapshot(&event(5, true, u64::MAX, 1), 0);
    assert_eq!(far.current_position_ms, u64::MAX);
}

#[test]
fn tracks_are_continued_or_loaded() {
    let loaded = event(104, true, 3, 60);
    assert_eq!(
        plan_play(&loaded, true, &item(4), 9999, Quality::HiRes, 4),
        PlayPlan::Continue { seek_secs: Some(9) }
    );
    assert_eq!(
        plan_play(&loaded, true, &item(4), 0, Quality::HiRes, 4),
        PlayPlan::Continue { seek_secs: None }
    );
    assert_eq!(
        plan_play(&loaded, false, &item(4), 0, Quality::HiRes, 2),
        PlayPlan::Load { quality: Quality::Lossless }
    );
    assert_eq!(
        plan_play(&loaded, true, &item(5), 0, Quality::Mp3, 4),
        PlayPlan::Load { quality: Quality::Mp3 }
    );
    assert_eq!(seek_secs_for(999), Some(0));
}

#[test]
fn sink_answers_events() {
    let mut sink = CliEventSink::new();
    let outcome = sink.on_event_at(
        QconnectAppEvent::RendererCommandApplied { command: state_command(Some(2), Some(5), Some(3)) },
        0,
    );
    assert_eq!(
        outcome.action,
        Some(AudioAction::Play { track: item(3), position_ms: 5, max_audio_quality: 4 })
    );
    assert_eq!(outcome.notice.unwrap().name, "renderer_command");
    let outcome = sink.on_event(QconnectAppEvent::RendererUpdated(renderer(Some(8))));
    assert_eq!(outcome.action, None);
    assert_eq!(outcome.notice, None);
    assert_eq!(sink.playback().current_track, Some(item(8)));
    let outcome = sink.on_event(QconnectAppEvent::RendererUpdated(renderer(None)));
    assert_eq!(outcome.notice, None);
    assert_eq!(sink.playback().current_track, Some(item(8)));
    let outcome = sink.on_event(QconnectAppEvent::QueueUpdated(queue(&[1])));
    assert_eq!(outcome.notice.unwrap().name, "queue_updated");
    let outcome = sink.on_event(QconnectAppEvent::SessionManagementEvent {
        message_type: "M".to_string(),
        payload: Json::Null,
    });
    assert_eq!(
        outcome.notice,
        Some(Notice::new(
            "session_event",
            object(vec![("message_type", Json::text("M")), ("payload", Json::Null)])
        ))
    );
    let outcome = sink.on_event(QconnectAppEvent::PendingActionTimedOut {
        uuid: "u".to_string(),
        timeout_ms: 9,
    });
    assert_eq!(
        outcome.notice,
        Some(Notice::new(
            "pending_timeout",
            object(vec![("uuid", Json::text("u")), ("timeout_ms", Json::unsigned(9))])
        ))
    );
    assert_eq!(sink.playback_snapshot_at(Some(event(101, true, 12, 60)), 0).duration_ms, 60000);
    assert_eq!(sink.playback_snapshot(None).duration_ms, 0);
}

#[test]
fn queue_order_follows_shuffling() {
    let mut shuffled = queue(&[1, 2, 3]);
    shuffled.shuffle_order = Some(vec![2, 9, 0]);
    assert_eq!(ordered_queue_items(&shuffled), vec![item(1), item(2), item(3)]);
    shuffled.shuffle_mode = true;
    assert_eq!(ordered_queue_items(&shuffled), vec![item(3), item(1)]);
    assert_eq!(adjacent_queue_item(&renderer(Some(3)), &shuffled, 1), Some(item(1)));
    assert_eq!(adjacent_queue_item(&renderer(Some(2)), &shuffled, 1), None);
}

#[test]
fn neighbours_in_the_queue() {
    let q = queue(&[1, 2, 3]);
    assert_eq!(adjacent_queue_item(&renderer(Some(2)), &q, 1), Some(item(3)));
    assert_eq!(adjacent_queue_item(&renderer(Some(2)), &q, -1), Some(item(1)));
    assert_eq!(adjacent_queue_item(&renderer(Some(3)), &q, 1), None);
    assert_eq!(adjacent_queue_item(&renderer(Some(1)), &q, -1), None);
    assert_eq!(adjacent_queue_item(&renderer(Some(9)), &q, 1), None);
    assert_eq!(adjacent_queue_item(&renderer(None), &q, 1), None);
}

fn request(state: i64, position: Json, entry: Json) -> Json {
    object(vec![
        ("playing_state", Json::signed(state)),
        ("current_position", position),
        ("current_queue_item", entry),
    ])
}

fn entry(id: u64) -> Json {
    object(vec![
        (
            "queue_version",
            object(vec![("major", Json::unsigned(1)), ("minor", Json::unsigned(2))]),
        ),
        ("id", Json::unsigned(id)),
    ])
}

#[test]
fn media_keys_ask_the_server() {
    let q = queue(&[1, 2, 3]);
    let r = renderer(Some(2));
    assert_eq!(
        handle_mpris_command(MprisCommand::Pause, &r, &q),
        request(3, Json::unsigned(5000), entry(2))
    );
    assert_eq!(
        handle_mpris_command(MprisCommand::Stop, &r, &q),
        request(1, Json::unsigned(5000), entry(2))
    );
    assert_eq!(
        handle_mpris_command(MprisCommand::Toggle, &r, &q),
        request(3, Json::unsigned(5000), entry(2))
    );
    assert_eq!(
        handle_mpris_command(MprisCommand::Next, &r, &q),
        request(2, Json::unsigned(0), entry(3))
    );
    assert_eq!(
        handle_mpris_command(MprisCommand::Previous, &r, &q),
        request(2, Json::unsigned(0), entry(1))
    );
    let mut blank = renderer(None);
    blank.playing_state = None;
    blank.current_position_ms = Some(1 << 31);
    assert_eq!(
        handle_mpris_command(MprisCommand::Toggle, &blank, &q),
        request(2, Json::Null, entry(1))
    );
    assert_eq!(
        handle_mpris_command(MprisCommand::Pause, &blank, &q),
        request(3, Json::Null, Json::Null)
    );
    assert_eq!(
        handle_mpris_command(MprisCommand::Play, &blank, &queue(&[])),
        request(2, Json::Null, Json::Null)
    );
    assert_eq!(player_state_request(2, &blank, &q), request(2, Json::Null, Json::Null));
    assert_eq!(
        mpris_player_state(2, Some(item(3)), &r, &q),
        request(2, Json::unsigned(0), entry(3))
    );
}

#[test]
fn media_controls_show_playback() {
    assert_eq!(media_status(2, 7), MediaStatus::Playing { position_secs: 7 });
    assert_eq!(media_status(3, 7), MediaStatus::Paused { position_secs: 7 });
    assert_eq!(media_status(1, 7), MediaStatus::Stopped);
    assert_eq!(MprisCommand::Toggle.name(), "Toggle");
    assert_eq!(MprisCommand::Previous.name(), "Previous");
}

fn text(line: EventLine) -> String {
    match line {
        EventLine::Text(text) => text,
        other => panic!("not a text: {other:?}"),
    }
}

#[test]
fn notices_for_people() {
    let printer = Printer::new(false);
    let connecting = notices::connecting("wss://x", "dev", true, false, false);
    assert_eq!(
        text(printer.event(connecting.name, &connecting.payload)),
        "connecting to wss://x as dev (renderer)"
    );
    assert_eq!(
        text(printer.event("connecting", &object(vec![]))),
        "connecting to <unknown> as qconnect-cli"
    );
    let updated = notices::queue_updated(&queue(&[1, 2]));
    assert_eq!(text(printer.event(updated.name, &updated.payload)), "queue v1.2 [101#1, 102#2]");
    assert_eq!(text(printer.event("queue_updated", &Json::Null)), "queue v0.0 []");
    let mixed = object(vec![(
        "tracks",
        Json::Array(vec![Json::Null, Json::text("a"), Json::unsigned(1), Json::text("b")]),
    )]);
    assert_eq!(text(printer.event("queue_updated", &mixed)), "queue v0.0 [a, b]");
    let sent = notices::command_sent("M", "u");
    assert_eq!(text(printer.event(sent.name, &sent.payload)), "sent M (u)");
    assert_eq!(text(printer.event("command_sent", &Json::Null)), "sent <unknown> (<no action>)");
    assert_eq!(text(printer.event("session_event", &Json::Null)), "session event: <unknown>");
    assert_eq!(
        text(printer.event("renderer_command", &Json::Null)),
        "renderer command: <unknown>"
    );
    assert_eq!(text(printer.event("mpris_something", &object(vec![]))), "mpris_something");
    let named = notices::audio_started(7);
    assert_eq!(
        printer.event(named.name, &named.payload),
        EventLine::Named {
            name: "audio_started".to_string(),
            payload: object(vec![("track_id", Json::unsigned(7))]),
        }
    );
}

#[test]
fn notices_for_machines() {
    let printer = Printer::new(true);
    assert_eq!(
        printer.event("connecting", &Json::Null),
        EventLine::Machine(object(vec![
            ("event", Json::text("connecting")),
            ("payload", Json::Null)
        ]))
    );
}

#[test]
fn renderer_commands_as_texts() {
    let of = |command: RendererCommand| notices::renderer_command_text(&command);
    let full = RendererCommand::SetState {
        playing_state: Some(-2),
        current_position_ms: Some(10),
        current_track: Some(QueueItem {
            track_context_uuid: "a\"b\n".to_string(),
            track_id: 7,
            queue_item_id: 8,
        }),
        next_track: None,
    };
    assert_eq!(of(full), "SetState { playing_state: Some(-2), current_position_ms: Some(10), current_track: Some(QueueItem { track_context_uuid: \"a\\\"b\\n\", track_id: 7, queue_item_id: 8 }), next_track: None }");
    for command in [
        RendererCommand::SetVolume { volume: Some(3), volume_delta: None },
        RendererCommand::MuteVolume { value: true },
        RendererCommand::SetMaxAudioQuality { max_audio_quality: i32::MIN },
        RendererCommand::SetActive { active: false },
        RendererCommand::SetLoopMode { loop_mode: 2 },
        RendererCommand::SetShuffleMode { shuffle_mode: true },
        state_command(None, None, Some(4)),
    ] {
        assert_eq!(notices::renderer_command_text(&command), format!("{command:?}"));
    }
}

#[test]
fn connection_notices() {
    assert_eq!(
        notices::transport_event(&TransportEvent::Connected),
        Some(Notice::plain("transport_connected"))
    );
    assert_eq!(
        notices::transport_event(&TransportEvent::Disconnected),
        Some(Notice::plain("transport_disconnected"))
    );
    assert_eq!(
        notices::transport_event(&TransportEvent::Authenticated),
        Some(Notice::plain("transport_authenticated"))
    );
    assert_eq!(
        notices::transport_event(&TransportEvent::ReconnectScheduled {
            attempt: 2,
            backoff_ms: 4000,
            reason: "gone".to_string(),
        }),
        Some(Notice::new(
            "reconnect_scheduled",
            object(vec![
                ("attempt", Json::unsigned(2)),
                ("backoff_ms", Json::unsigned(4000)),
                ("reason", Json::text("gone")),
            ])
        ))
    );
    assert_eq!(
        notices::transport_event(&TransportEvent::TransportError {
            stage: "s".to_string(),
            message: "m".to_string(),
        }),
        Some(Notice::new(
            "transport_error",
            object(vec![("stage", Json::text("s")), ("message", Json::text("m"))])
        ))
    );
    assert_eq!(notices::transport_event(&TransportEvent::Other), None);
    assert_eq!(
        notices::failure("bootstrap_failed", "e"),
        Notice::with("bootstrap_failed", "error", Json::text("e"))
    );
    assert_eq!(
        notices::transport_lagged(3),
        Notice::with("transport_event_lagged", "count", Json::unsigned(3))
    );
}

#[test]
fn audio_notices() {
    assert_eq!(
        notices::audio_ready(None, "best").payload,
        object(vec![("device", Json::Null), ("quality", Json::text("best"))])
    );
    assert_eq!(
        notices::audio_ready(Some("hw:0"), "best").payload,
        object(vec![("device", Json::text("hw:0")), ("quality", Json::text("best"))])
    );
    assert_eq!(
        notices::audio_loading(&item(4), "mp3").payload,
        object(vec![
            ("track_id", Json::unsigned(104)),
            ("queue_item_id", Json::unsigned(4)),
            ("quality", Json::text("mp3")),
        ])
    );
    assert_eq!(
        notices::track_error("bad", 9).payload,
        object(vec![("error", Json::text("bad")), ("track_id", Json::unsigned(9))])
    );
    assert_eq!(
        notices::mpris_ready("com.qconnect.cli").payload,
        object(vec![("dbus_name", Json::text("com.qconnect.cli"))])
    );
    assert_eq!(
        notices::mpris_command_error("Play", "no").payload,
        object(vec![("command", Json::text("Play")), ("error", Json::text("no"))])
    );
}
