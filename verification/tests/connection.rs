use qconnect::app_types::{QConnectQueueState, QConnectRendererState};
use qconnect::channels::{parse_channel, parse_subscribe_channels, ChannelError};
use qconnect::commands::{
    first_non_empty, repeat_mode_value, report_interval, requests_for, requests_with,
    saves_given_credentials, startup_for, to_u32_track_ids, wait_secs_for, Command, CommandError,
    PlaybackQuality, QueueRequest, RepeatMode, Toggle, TrackCommand,
};
use qconnect::credentials::{
    app_id_file, audio_token, credential_need, load_saved_app_id, load_saved_user_auth_token,
    manual_login, prompt_required, read_optional_secret_file, read_qws_credentials,
    resolve_transport_config, save_app_id, save_user_auth_token, user_auth_token_file,
    ClientOptions, ConfigError, CredentialNeed, FileRead, LoginStep, QwsCredentials, QwsError,
};
use qconnect::device::{
    audio_device_line, build_device_info, resolve_device_name, resolve_device_uuid, DeviceUuid,
};
use qconnect::encoding::HexFault;
use qconnect::ids::{fresh_uuid, random_u32, seed_of};
use qconnect::json::{Json, ObjectBuilder};
use qconnect::oauth::{
    answer_callback, http_response, oauth_html, oauth_url, parse_oauth_code_from_request,
    redirect_host_for_bind, redirect_url, usable_lan_ip,
};
use qconnect::playback::PlaybackSnapshot;
use qconnect::protocol::{
    QueueCommandType, QueueEventType, QueueServerEvent, RendererReportType, TransportEvent,
};
use qconnect::quality::Quality;
use qconnect::queue::{QueueItem, QueueVersion};
use qconnect::session::{
    ask_queue_state, bootstrap_remote_presence, JoinStage, JoinStep, RendererJoin, ReportAction,
    SessionState, StateReporter,
};

fn object(members: Vec<(&str, Json)>) -> Json {
    let mut built = ObjectBuilder::new();
    for (key, value) in members {
        built.put(key, value);
    }
    built.build()
}

fn some(text: &str) -> Option<String> {
    Some(text.to_string())
}

fn item(id: u64) -> QueueItem {
    QueueItem { track_context_uuid: "ctx".to_string(), track_id: 100 + id, queue_item_id: id }
}

fn queue(ids: &[u64]) -> QConnectQueueState {
    QConnectQueueState {
        version: QueueVersion::new(1, 2),
        queue_items: ids.iter().map(|id| item(*id)).collect(),
        shuffle_mode: false,
        autoplay_mode: false,
        shuffle_order: None,
    }
}

fn renderer(current: Option<u64>) -> QConnectRendererState {
    QConnectRendererState {
        current_track: current.map(item),
        next_track: None,
        current_position_ms: Some(5000),
        playing_state: Some(2),
    }
}

fn options() -> ClientOptions {
    ClientOptions {
        endpoint: None,
        jwt_qws: None,
        app_id: None,
        user_auth_token: None,
        device_name: None,
        device_uuid: None,
        subscribe_channels_hex: vec![],
        connect_timeout_ms: 10_000,
        reconnect_backoff_ms: 2_000,
        reconnect_backoff_max_ms: 30_000,
        keepalive_interval_ms: 30_001,
        qcloud_proto: 1,
        json: false,
        audio_device: None,
        audio_quality: Quality::Lossless,
        enable_mpris: false,
    }
}

#[test]
fn channels_are_read() {
    assert_eq!(parse_subscribe_channels(&vec![]).unwrap(), vec![vec![1], vec![2], vec![3]]);
    let given = vec!["0x01".to_string(), " 0XAb:cD-0f ".to_string(), "ff 00".to_string()];
    assert_eq!(
        parse_subscribe_channels(&given).unwrap(),
        vec![vec![0x01], vec![0xab, 0xcd, 0x0f], vec![0xff, 0x00]]
    );
    assert_eq!(parse_channel("DEADbeef").unwrap(), vec![0xde, 0xad, 0xbe, 0xef]);
}

#[test]
fn bad_channels_are_refused() {
    assert_eq!(parse_channel(" 0x - "), Err(ChannelError::Empty));
    assert_eq!(parse_channel("abc"), Err(ChannelError::OddDigits { value: "abc".to_string() }));
    assert_eq!(
        parse_channel("0xzz"),
        Err(ChannelError::InvalidHex {
            value: "0xzz".to_string(),
            fault: HexFault::InvalidCharacter { c: 'z', index: 0 },
        })
    );
    assert_eq!(
        parse_channel("1é"),
        Err(ChannelError::OddDigits { value: "1é".to_string() })
    );
    assert_eq!(
        parse_channel("12é"),
        Err(ChannelError::InvalidHex {
            value: "12é".to_string(),
            fault: HexFault::InvalidCharacter { c: 'Ã', index: 2 },
        })
    );
    let both = vec!["01".to_string(), "1".to_string(), "zz".to_string()];
    assert_eq!(
        parse_subscribe_channels(&both),
        Err(ChannelError::OddDigits { value: "1".to_string() })
    );
    assert_eq!(ChannelError::Empty.message(), "empty subscribe channel hex value");
    assert_eq!(
        parse_channel("abc").unwrap_err().message(),
        "subscribe channel hex must have an even number of digits: abc"
    );
    assert_eq!(
        parse_channel("zz").unwrap_err().message(),
        "invalid subscribe channel hex: zz"
    );
}

#[test]
fn codes_are_found_in_callbacks() {
    let code = |request: &str| parse_oauth_code_from_request(request);
    assert_eq!(code("GET /?code=abc HTTP/1.1\r\nHost: x\r\n\r\n"), some("abc"));
    assert_eq!(code("GET /?code_autorisation=a%20b HTTP/1.1\r\n"), some("a b"));
    assert_eq!(code("GET /x?y=1&code=z&code=w HTTP/1.1"), some("z"));
    assert_eq!(code("GET /?code=%ff&code=ok HTTP/1.1"), some("ok"));
    assert_eq!(code("GET /?code=a+b%zz%4 HTTP/1.1"), some("a+b%zz%4"));
    assert_eq!(code("GET /?code=%F0%9F%91%BE HTTP/1.1"), some("\u{1f47e}"));
    assert_eq!(code("GET /?code HTTP/1.1"), None);
    assert_eq!(code("GET /?codes=a HTTP/1.1"), None);
    assert_eq!(code("GET /favicon.ico HTTP/1.1"), None);
    assert_eq!(code("GET\r\n/?code=abc"), None);
    assert_eq!(code(""), None);
    assert_eq!(code("GET /?code= HTTP/1.1"), some(""));
}

#[test]
fn callbacks_are_answered() {
    let answer = answer_callback("GET /?code=abc HTTP/1.1\r\n");
    assert_eq!(answer.code, some("abc"));
    assert!(answer.response.contains("<h2>Login successful</h2>"));
    let body = oauth_html("Login successful", "You can close this tab and return to qconnect.");
    assert_eq!(answer.response, http_response(&body));
    let answer = answer_callback("GET / HTTP/1.1\r\n");
    assert_eq!(answer.code, None);
    assert!(answer.response.contains("<h2>Login failed</h2>"));
    assert_eq!(
        http_response("é"),
        "HTTP/1.1 200 OK\r\ncontent-type: text/html; charset=utf-8\r\ncontent-length: 2\r\nconnection: close\r\n\r\né"
    );
    assert_eq!(
        oauth_html("T", "M"),
        "<!doctype html><html><head><meta charset=\"utf-8\"><title>T</title></head><body style=\"font-family:system-ui,sans-serif;text-align:center;padding:64px\"><h2>T</h2><p>M</p></body></html>"
    );
}

#[test]
fn browsers_are_sent_to_the_right_place() {
    assert_eq!(redirect_host_for_bind("127.0.0.1", some("1.2.3.4")), "127.0.0.1");
    assert_eq!(redirect_host_for_bind("::1", None), "[::1]");
    assert_eq!(redirect_host_for_bind("localhost", None), "localhost");
    assert_eq!(redirect_host_for_bind("0.0.0.0", some("1.2.3.4")), "1.2.3.4");
    assert_eq!(redirect_host_for_bind("::", None), "localhost");
    assert_eq!(redirect_host_for_bind("10.0.0.7", None), "10.0.0.7");
    assert!(usable_lan_ip("10.0.0.7"));
    assert!(!usable_lan_ip("0.0.0.0"));
    assert!(!usable_lan_ip("127.0.0.1"));
    let redirect = redirect_url("[::1]", 8080);
    assert_eq!(redirect, "http://[::1]:8080");
    assert_eq!(
        oauth_url("42", &redirect),
        "https://www.qobuz.com/signin/oauth?ext_app_id=42&redirect_url=http%3A%2F%2F%5B%3A%3A1%5D%3A8080"
    );
}

#[test]
fn secrets_are_read() {
    let contents = |text: &str| FileRead::Contents(text.to_string());
    assert_eq!(read_optional_secret_file(contents(" a b \n")), Ok(some("a b")));
    assert_eq!(read_optional_secret_file(contents(" \n")), Ok(None));
    assert_eq!(load_saved_app_id(FileRead::NotFound), Ok(None));
    assert_eq!(load_saved_app_id(contents("id\n")), Ok(some("id")));
    assert_eq!(
        load_saved_user_auth_token(FileRead::Failed("denied".to_string())),
        Err("denied".to_string())
    );
    assert_eq!(load_saved_user_auth_token(contents("t")), Ok(some("t")));
    assert_eq!(prompt_required("X", " v \n"), Ok("v".to_string()));
    assert_eq!(prompt_required("X", " \n"), Err("X cannot be empty".to_string()));
}

#[test]
fn secrets_saved_by_hand_are_loaded() {
    assert_eq!(manual_login(&None, &some("t")), LoginStep::Ask("QOBUZ_APP_ID".to_string()));
    assert_eq!(
        manual_login(&some("a"), &None),
        LoginStep::Ask("QOBUZ_USER_AUTH_TOKEN".to_string())
    );
    assert_eq!((app_id_file(), user_auth_token_file()), ("app_id", "user_auth_token"));
    match manual_login(&some(" a b\n"), &some("t ")) {
        LoginStep::Save(app_id, token) => {
            assert_eq!((app_id.name.as_str(), app_id.contents.as_str()), ("app_id", " a b\n"));
            assert_eq!((token.name.as_str(), token.contents.as_str()), ("user_auth_token", "t "));
            assert_eq!((&app_id, &token), (&save_app_id(" a b\n"), &save_user_auth_token("t ")));
            assert_eq!(load_saved_app_id(FileRead::Contents(app_id.contents)), Ok(some("a b")));
            assert_eq!(
                load_saved_user_auth_token(FileRead::Contents(token.contents)),
                Ok(some("t"))
            );
        }
        LoginStep::Ask(name) => panic!("{name} is there"),
    }
}

fn answer(endpoint: Json, jwt: Json) -> Json {
    object(vec![("jwt_qws", object(vec![("endpoint", endpoint), ("jwt", jwt)]))])
}

#[test]
fn server_credentials_are_read() {
    let good = read_qws_credentials(true, "200 OK", &answer(Json::text(" e "), Json::text("j")), "");
    assert_eq!(good, Ok(QwsCredentials { endpoint: " e ".to_string(), jwt: "j".to_string() }));
    let of = |body: Json| read_qws_credentials(true, "200 OK", &body, "").unwrap_err();
    assert_eq!(of(Json::Null), QwsError::MissingJwtQws);
    assert_eq!(of(answer(Json::text("  "), Json::text("j"))), QwsError::MissingEndpoint);
    assert_eq!(of(answer(Json::Null, Json::Null)), QwsError::MissingEndpoint);
    assert_eq!(of(answer(Json::text("e"), Json::unsigned(1))), QwsError::MissingJwt);
    assert_eq!(of(Json::Null).message(), "qws/createToken response missing jwt_qws");
    assert_eq!(
        QwsError::MissingEndpoint.message(),
        "qws/createToken response missing jwt_qws.endpoint"
    );
    assert_eq!(QwsError::MissingJwt.message(), "qws/createToken response missing jwt_qws.jwt");
    let long = "é".repeat(400);
    let refused = read_qws_credentials(false, "401 Unauthorized", &Json::Null, &long).unwrap_err();
    assert_eq!(
        refused.message(),
        format!("qws/createToken returned 401 Unauthorized: {}", "é".repeat(300))
    );
}

#[test]
fn connections_are_configured() {
    let mut given = options();
    assert_eq!(credential_need(&given), Err(ConfigError::MissingAppId));
    given.app_id = some("app");
    assert_eq!(credential_need(&given), Err(ConfigError::MissingUserAuthToken));
    given.user_auth_token = some("token");
    given.endpoint = some("wss://mine");
    assert_eq!(
        credential_need(&given),
        Ok(CredentialNeed::Fetch {
            app_id: "app".to_string(),
            user_auth_token: "token".to_string(),
        })
    );
    let fetched = QwsCredentials { endpoint: "wss://theirs".to_string(), jwt: "jwt".to_string() };
    let config = resolve_transport_config(&given, Some(fetched)).unwrap();
    assert_eq!(config.endpoint_url, "wss://mine");
    assert_eq!(config.jwt_qws, some("jwt"));
    assert!(config.auto_subscribe);
    assert_eq!(config.subscribe_channels, vec![vec![1], vec![2], vec![3]]);
    assert_eq!(config.keepalive_interval_ms, 30_001);
    given.jwt_qws = some("own");
    assert_eq!(credential_need(&given), Ok(CredentialNeed::Nothing));
    given.subscribe_channels_hex = vec!["1".to_string()];
    assert_eq!(
        resolve_transport_config(&given, None),
        Err(ConfigError::Channel(ChannelError::OddDigits { value: "1".to_string() }))
    );
    given.endpoint = None;
    assert_eq!(resolve_transport_config(&given, None), Err(ConfigError::MissingEndpoint));
    assert_eq!(audio_token(&given), Ok("token".to_string()));
    assert_eq!(audio_token(&options()), Err(ConfigError::MissingAudioToken));
}

#[test]
fn configuration_errors_have_messages() {
    assert_eq!(
        ConfigError::MissingAppId.message(),
        "missing --app-id/QOBUZ_APP_ID; required when --endpoint and --jwt-qws are not both supplied"
    );
    assert_eq!(
        ConfigError::MissingUserAuthToken.message(),
        "missing --user-auth-token/QOBUZ_USER_AUTH_TOKEN; required when --endpoint and --jwt-qws are not both supplied"
    );
    assert_eq!(
        ConfigError::MissingEndpoint.message(),
        "missing Qobuz Connect websocket endpoint"
    );
    assert_eq!(
        ConfigError::Channel(ChannelError::Empty).message(),
        "empty subscribe channel hex value"
    );
    assert_eq!(
        ConfigError::MissingAudioToken.message(),
        "audio playback requires --user-auth-token/QOBUZ_USER_AUTH_TOKEN; use serve --no-audio for state-only rendering"
    );
}

#[test]
fn devices_have_names() {
    assert_eq!(resolve_device_name(Some(" den "), Some("host"), None), "den");
    assert_eq!(resolve_device_name(Some("qconnect cli"), None, None), "qconnect cli");
    assert_eq!(resolve_device_name(None, Some("host"), Some("box")), "qconnect-cli (host)");
    assert_eq!(resolve_device_name(Some("  "), Some(" host "), None), "qconnect-cli ( host )");
    assert_eq!(resolve_device_name(None, Some(" "), Some("box\n")), "qconnect-cli (box)");
    assert_eq!(resolve_device_name(None, None, Some("\n")), "qconnect-cli");
    assert_eq!(resolve_device_name(None, None, None), "qconnect-cli");
    assert_eq!(audio_device_line("hw:0", Some("hw:0")), "hw:0 (default)");
    assert_eq!(audio_device_line("hw:0", Some("hw:1")), "hw:0");
    assert_eq!(audio_device_line("hw:0", None), "hw:0");
}

#[test]
fn devices_have_identifiers() {
    assert_eq!(
        resolve_device_uuid(Some(" u "), Some("kept")),
        DeviceUuid::Known("u".to_string())
    );
    assert_eq!(resolve_device_uuid(None, Some("kept\n")), DeviceUuid::Known("kept".to_string()));
    match resolve_device_uuid(Some(""), Some(" ")) {
        DeviceUuid::Fresh(uuid) => {
            assert_eq!(uuid.len(), 36);
            assert_eq!(
                resolve_device_uuid(None, Some(&uuid)),
                DeviceUuid::Known(uuid.clone())
            );
        }
        other => panic!("not fresh: {other:?}"),
    }
}

#[test]
fn identifiers_are_random() {
    let first = fresh_uuid();
    assert_ne!(first, fresh_uuid());
    assert_eq!(first.matches('-').count(), 4);
    let seeds: Vec<u32> = (0..8).map(|_| random_u32()).collect();
    assert!(seeds.iter().any(|seed| *seed != seeds[0]));
    let mut bytes = [0u8; 16];
    bytes[0] = 1;
    bytes[1] = 2;
    bytes[3] = 4;
    assert_eq!(seed_of(&bytes), 0x0400_0201);
}

#[test]
fn devices_say_what_they_are() {
    let info = build_device_info("name", "uuid", "1.2.3");
    assert_eq!(info.get_str("device_uuid"), Some("uuid"));
    assert_eq!(info.get_str("friendly_name"), Some("name"));
    assert_eq!(info.get_str("brand"), Some("qconnect"));
    assert_eq!(info.get_str("model"), Some("qconnect-cli"));
    assert_eq!(info.get("serial_number"), Some(&Json::Null));
    assert_eq!(info.get_u64("device_type"), Some(5));
    assert_eq!(info.get_str("software_version"), Some("qconnect-cli/1.2.3"));
    let capabilities = info.get("capabilities").unwrap();
    assert_eq!(capabilities.get_i32("min_audio_quality"), Some(1));
    assert_eq!(capabilities.get_i32("max_audio_quality"), Some(4));
    assert_eq!(capabilities.get_i32("volume_remote_control"), Some(2));
}

#[test]
fn settings_are_looked_up_in_order() {
    assert_eq!(first_non_empty(&vec![None, some("  "), some(" a "), some("b")]), some("a"));
    assert_eq!(first_non_empty(&vec![None, some("")]), None);
    assert_eq!(first_non_empty(&vec![]), None);
}

fn requests(command: &Command) -> Result<Vec<QueueRequest>, CommandError> {
    requests_with(command, &renderer(Some(2)), &queue(&[1, 2]), 99, "ctx-uuid")
}

fn single(command: &Command) -> QueueRequest {
    let mut all = requests(command).unwrap();
    assert_eq!(all.len(), 1);
    all.remove(0)
}

#[test]
fn loading_a_queue() {
    let load = |track_ids: Vec<u64>, start_index, shuffle| Command::Load {
        track_ids,
        start_index,
        shuffle,
        wait_secs: 5,
    };
    let request = single(&load(vec![10, 20], 7, false));
    assert_eq!(request.command_type, QueueCommandType::CtrlSrvrQueueLoadTracks);
    assert_eq!(
        request.payload,
        object(vec![
            ("track_ids", Json::Array(vec![Json::unsigned(10), Json::unsigned(20)])),
            ("queue_position", Json::unsigned(1)),
            ("shuffle_mode", Json::Bool(false)),
            ("shuffle_seed", Json::Null),
            ("shuffle_pivot_index", Json::unsigned(1)),
            ("context_uuid", Json::text("ctx-uuid")),
            ("autoplay_reset", Json::Bool(true)),
            ("autoplay_loading", Json::Bool(false)),
        ])
    );
    let shuffled = single(&load(vec![10, 20], 1, true)).payload;
    assert_eq!(shuffled.get_u64("queue_position"), Some(0));
    assert_eq!(shuffled.get_u64("shuffle_seed"), Some(99));
    assert_eq!(shuffled.get_u64("shuffle_pivot_index"), Some(1));
    assert_eq!(
        requests(&load(vec![], 0, false)),
        Err(CommandError::NoTracks(TrackCommand::Load))
    );
    assert_eq!(
        requests(&load(vec![1, 1 << 32, 1 << 33], 0, false)),
        Err(CommandError::TrackIdTooLarge(1 << 32))
    );
}

#[test]
fn adding_and_inserting() {
    let added = single(&Command::Add { track_ids: vec![1], wait_secs: 5 });
    assert_eq!(added.command_type, QueueCommandType::CtrlSrvrQueueAddTracks);
    assert_eq!(added.payload.get_bool("autoplay_reset"), Some(false));
    let insert = |after| Command::Insert {
        track_ids: vec![1],
        after_queue_item_id: after,
        wait_secs: 5,
    };
    let front = single(&insert(None));
    assert_eq!(front.command_type, QueueCommandType::CtrlSrvrQueueInsertTracks);
    assert_eq!(front.payload.get("insert_after"), Some(&Json::Null));
    assert_eq!(single(&insert(Some(7))).payload.get_u64("insert_after"), Some(7));
    assert_eq!(
        requests(&Command::Add { track_ids: vec![], wait_secs: 5 }),
        Err(CommandError::NoTracks(TrackCommand::Add))
    );
    let nothing = Command::Insert { track_ids: vec![], after_queue_item_id: None, wait_secs: 5 };
    assert_eq!(requests(&nothing), Err(CommandError::NoTracks(TrackCommand::Insert)));
}

#[test]
fn controlling_playback() {
    let state = |command: &Command| single(command).payload.get_i32("playing_state");
    assert_eq!(state(&Command::Play { wait_secs: 5 }), Some(2));
    assert_eq!(state(&Command::Pause { wait_secs: 5 }), Some(3));
    assert_eq!(state(&Command::Stop { wait_secs: 5 }), Some(1));
    let clear = single(&Command::Clear { wait_secs: 5 });
    assert_eq!(clear.command_type, QueueCommandType::CtrlSrvrClearQueue);
    assert_eq!(clear.payload, object(vec![]));
    let shuffle = single(&Command::Shuffle { mode: Toggle::On, wait_secs: 5 });
    assert_eq!(shuffle.payload.get_bool("shuffle_mode"), Some(true));
    assert_eq!(shuffle.payload.get_u64("shuffle_seed"), Some(99));
    let off = single(&Command::Shuffle { mode: Toggle::Off, wait_secs: 5 });
    assert_eq!(off.payload.get_bool("shuffle_mode"), Some(false));
    let repeat = single(&Command::Repeat { mode: RepeatMode::All, wait_secs: 5 });
    assert_eq!(repeat.command_type, QueueCommandType::CtrlSrvrSetLoopMode);
    assert_eq!(repeat.payload.get_i32("loop_mode"), Some(3));
    assert_eq!(repeat_mode_value(RepeatMode::Off), 1);
    assert_eq!(repeat_mode_value(RepeatMode::One), 2);
    assert_eq!(
        single(&Command::Queue { wait_secs: 5 }).command_type,
        QueueCommandType::CtrlSrvrAskForQueueState
    );
    assert_eq!(requests(&Command::Status { wait_secs: 5 }), Ok(vec![]));
}

#[test]
fn changing_the_volume() {
    let volume = |set, delta, mute| Command::Volume { set, delta, mute, wait_secs: 5 };
    assert_eq!(requests(&volume(None, None, None)), Err(CommandError::NoVolumeChange));
    let both = requests(&volume(Some(165), None, Some(false))).unwrap();
    assert_eq!(both.len(), 2);
    assert_eq!(both[0].command_type, QueueCommandType::CtrlSrvrMuteVolume);
    assert_eq!(both[0].payload, object(vec![("value", Json::Bool(false))]));
    assert_eq!(both[1].command_type, QueueCommandType::CtrlSrvrSetVolume);
    assert_eq!(
        both[1].payload,
        object(vec![("volume", Json::unsigned(100)), ("volume_delta", Json::Null)])
    );
    let delta = requests(&volume(None, Some(-5), None)).unwrap();
    assert_eq!(
        delta[0].payload,
        object(vec![("volume", Json::Null), ("volume_delta", Json::signed(-5))])
    );
    assert_eq!(requests(&volume(None, None, Some(true))).unwrap().len(), 1);
}

#[test]
fn random_requests_differ() {
    let load = Command::Load {
        track_ids: vec![1],
        start_index: 0,
        shuffle: true,
        wait_secs: 5,
    };
    let of = || requests_for(&load, &renderer(None), &queue(&[])).unwrap();
    let (first, second) = (of(), of());
    let uuid = |all: &Vec<QueueRequest>| all[0].payload.get_str("context_uuid").unwrap().to_string();
    assert_ne!(uuid(&first), uuid(&second));
    assert_eq!(uuid(&first).len(), 36);
    assert!(first[0].payload.get_u64("shuffle_seed").is_some());
}

#[test]
fn command_errors_have_messages() {
    assert_eq!(
        CommandError::TrackIdTooLarge(4294967296).message(),
        "track id 4294967296 exceeds u32 range"
    );
    assert_eq!(
        CommandError::NoTracks(TrackCommand::Load).message(),
        "load requires at least one track id"
    );
    assert_eq!(
        CommandError::NoTracks(TrackCommand::Add).message(),
        "command requires at least one track id"
    );
    assert_eq!(
        CommandError::NoTracks(TrackCommand::Insert).message(),
        "insert requires at least one track id"
    );
    assert_eq!(
        CommandError::NoVolumeChange.message(),
        "volume requires --set, --delta, or --mute"
    );
    assert_eq!(to_u32_track_ids(&vec![0, 4294967295]), Ok(vec![0, 4294967295]));
}

fn serve(no_audio: bool, no_mpris: bool) -> Command {
    Command::Serve {
        report_interval_secs: 2,
        no_audio,
        audio_device: some("hw:0"),
        audio_quality: PlaybackQuality::HiRes,
        no_mpris,
    }
}

#[test]
fn commands_need_different_things() {
    let startup = startup_for(&serve(false, false));
    assert!(startup.enable_renderer && startup.enable_audio && startup.enable_mpris);
    assert_eq!(startup.audio_device, some("hw:0"));
    assert_eq!(startup.audio_quality, Quality::HiRes);
    let silent = startup_for(&serve(true, false));
    assert!(silent.enable_renderer && !silent.enable_audio && !silent.enable_mpris);
    assert!(!startup_for(&serve(false, true)).enable_mpris);
    let status = startup_for(&Command::Status { wait_secs: 9 });
    assert!(!status.enable_renderer && !status.enable_audio);
    assert_eq!(status.audio_quality, Quality::Lossless);
    assert_eq!(wait_secs_for(&Command::Status { wait_secs: 9 }), 9);
    assert_eq!(wait_secs_for(&serve(false, false)), 0);
    assert_eq!(wait_secs_for(&Command::AudioDevices), 0);
    assert_eq!(report_interval(0), 1);
    assert_eq!(report_interval(7), 7);
    assert!(saves_given_credentials(true, &None, &None));
    assert!(saves_given_credentials(false, &None, &some("t")));
    assert!(!saves_given_credentials(false, &None, &None));
    assert_eq!(PlaybackQuality::UltraHiRes.name(), "ultra-hi-res");
    assert_eq!(PlaybackQuality::HiRes.name(), "hi-res");
    assert_eq!(PlaybackQuality::Lossless.name(), "lossless");
    assert_eq!(PlaybackQuality::Mp3.name(), "mp3");
    assert_eq!(PlaybackQuality::UltraHiRes.to_qobuz_quality(), Quality::UltraHiRes);
}

fn session_event(message_type: &str, payload: Json) -> TransportEvent {
    TransportEvent::InboundQueueServerEvent(QueueServerEvent {
        event_type: QueueEventType::Other,
        message_type: message_type.to_string(),
        queue_version: None,
        payload,
    })
}

#[test]
fn renderers_join_once() {
    let opened = || {
        session_event(
            "MESSAGE_TYPE_SRVR_CTRL_SESSION_STATE",
            object(vec![("session_uuid", Json::text("s"))]),
        )
    };
    let mut state = SessionState::new();
    assert_eq!(state.on_transport_event(false, &opened()).join, None);
    let blank = session_event("MESSAGE_TYPE_SRVR_CTRL_SESSION_STATE", object(vec![]));
    assert_eq!(state.on_transport_event(true, &blank).join, None);
    let other = session_event("OTHER", object(vec![("session_uuid", Json::text("s"))]));
    assert_eq!(state.on_transport_event(true, &other).join, None);
    assert_eq!(state.on_transport_event(true, &opened()).join, some("s"));
    assert_eq!(state.on_transport_event(true, &opened()).join, None);
    let step = state.on_transport_event(true, &TransportEvent::Disconnected);
    assert_eq!(step.notice.unwrap().name, "transport_disconnected");
    assert_eq!(state.on_transport_event(true, &opened()).join, some("s"));
}

#[test]
fn reconnections_are_announced_once() {
    let mut state = SessionState::new();
    assert!(!state.on_transport_event(true, &TransportEvent::Subscribed).bootstrap);
    state.on_transport_event(true, &TransportEvent::Disconnected);
    let step = state.on_transport_event(true, &TransportEvent::Subscribed);
    assert!(step.bootstrap);
    assert_eq!(step.notice.unwrap().name, "transport_subscribed");
    assert!(!state.on_transport_event(true, &TransportEvent::Subscribed).bootstrap);
}

#[test]
fn announcement_joins_and_asks() {
    let requests = bootstrap_remote_presence("n", "u", "1");
    assert_eq!(requests.len(), 2);
    assert_eq!(requests[0].command_type, QueueCommandType::CtrlSrvrJoinSession);
    assert_eq!(requests[0].payload.get("session_uuid"), Some(&Json::Null));
    assert_eq!(
        requests[0].payload.get("device_info"),
        Some(&build_device_info("n", "u", "1"))
    );
    assert_eq!(requests[1], ask_queue_state());
}

#[test]
fn joining_as_a_renderer() {
    let mut join = RendererJoin::new(
        "s".to_string(),
        build_device_info("n", "u", "1"),
        QueueVersion::new(1, 2),
    );
    let report = match join.step_as("id".to_string()) {
        JoinStep::Report(report) => report,
        other => panic!("no report: {other:?}"),
    };
    assert_eq!(report.report_type, RendererReportType::RndrSrvrJoinSession);
    assert_eq!(report.action_uuid, "id");
    assert_eq!(report.payload.get_str("session_uuid"), Some("s"));
    assert_eq!(report.payload.get_bool("is_active"), Some(true));
    assert_eq!(report.payload.get_i32("reason"), Some(1));
    let initial = report.payload.get("initial_state").unwrap();
    assert_eq!(initial.get_i32("playing_state"), Some(1));
    assert_eq!(initial.get_i32("buffer_state"), Some(2));
    assert_eq!(initial.get("queue_version").unwrap().get_u64("minor"), Some(2));
    let mut stages = vec![];
    while join.stage != JoinStage::Done {
        join.advance(true);
        stages.push(match join.step() {
            JoinStep::Report(report) => format!("{:?}", report.report_type),
            JoinStep::Settle(ms) => format!("settle {ms}"),
            JoinStep::Request(request) => format!("{:?}", request.command_type),
            JoinStep::Done => "done".to_string(),
        });
    }
    assert_eq!(
        stages,
        vec![
            "RndrSrvrStateUpdated",
            "RndrSrvrVolumeChanged",
            "RndrSrvrMaxAudioQualityChanged",
            "settle 500",
            "CtrlSrvrAskForQueueState",
            "done",
        ]
    );
}

#[test]
fn joining_reports_volume_and_quality() {
    let mut join =
        RendererJoin::new("s".to_string(), Json::Null, QueueVersion::new(0, 0));
    join.stage = JoinStage::Volume;
    match join.step_as("id".to_string()) {
        JoinStep::Report(report) => assert_eq!(report.payload.get_u64("volume"), Some(100)),
        other => panic!("no report: {other:?}"),
    }
    join.advance(false);
    match join.step_as("id".to_string()) {
        JoinStep::Report(report) => {
            assert_eq!(report.payload.get_u64("max_audio_quality"), Some(4))
        }
        other => panic!("no report: {other:?}"),
    }
    join.stage = JoinStage::Join;
    join.advance(false);
    assert_eq!(join.stage, JoinStage::Done);
    assert_eq!(join.step(), JoinStep::Done);
}

fn snapshot(playing_state: i32, finished: bool) -> PlaybackSnapshot {
    PlaybackSnapshot { playing_state, current_position_ms: 7, duration_ms: 9, finished }
}

#[test]
fn finished_entries_are_left_once() {
    let q = queue(&[1, 2, 3]);
    let mut reporter = StateReporter::new();
    match reporter.tick(&snapshot(1, true), &renderer(Some(2)), &q) {
        ReportAction::Advance(request) => {
            assert_eq!(request.command_type, QueueCommandType::CtrlSrvrSetPlayerState);
            let entry = request.payload.get("current_queue_item").unwrap();
            assert_eq!(entry.get_u64("id"), Some(3));
            assert_eq!(request.payload.get_u64("current_position"), Some(0));
        }
        other => panic!("no advance: {other:?}"),
    }
    let again = reporter.tick(&snapshot(1, true), &renderer(Some(2)), &q);
    assert!(matches!(again, ReportAction::Report(_)));
    reporter.tick(&snapshot(2, false), &renderer(Some(2)), &q);
    let replayed = reporter.tick(&snapshot(1, true), &renderer(Some(2)), &q);
    assert!(matches!(replayed, ReportAction::Advance(_)));
    let last = reporter.tick(&snapshot(1, true), &renderer(Some(3)), &q);
    assert!(matches!(last, ReportAction::Report(_)));
    let blank = reporter.tick(&snapshot(1, true), &renderer(None), &q);
    assert!(matches!(blank, ReportAction::Report(_)));
}

#[test]
fn playback_is_reported() {
    let mut reporter = StateReporter::new();
    let action = reporter.tick_as(
        &snapshot(3, false),
        &renderer(Some(1)),
        &queue(&[1]),
        "id".to_string(),
    );
    match action {
        ReportAction::Report(report) => {
            assert_eq!(report.report_type, RendererReportType::RndrSrvrStateUpdated);
            assert_eq!(report.action_uuid, "id");
            assert_eq!(report.queue_version, QueueVersion::new(1, 2));
            assert_eq!(
                report.payload,
                object(vec![
                    ("playing_state", Json::unsigned(3)),
                    ("buffer_state", Json::unsigned(2)),
                    ("current_position", Json::unsigned(7)),
                    ("duration", Json::unsigned(9)),
                    (
                        "queue_version",
                        object(vec![
                            ("major", Json::unsigned(1)),
                            ("minor", Json::unsigned(2)),
                        ]),
                    ),
                ])
            );
        }
        other => panic!("no report: {other:?}"),
    }
}
