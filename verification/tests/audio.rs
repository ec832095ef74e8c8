use qconnect::eio::detects_eio;
use qconnect::media::{
    after_decode, after_read, container_duration_secs, counted_frames_secs, decoder_duration_secs,
    duration_secs_ceil, extract_audio_metadata, read_metadata, said_secs_ceil, source_format, ticks_secs_ceil,
    AudioMetadata, DecodeStep, PacketDecode, PacketRead, ReadStep, SourceError, SourceFormat,
    Ticks, TrackParams,
};
use qconnect::clock::{millis_between, secs_between, total_nanos, Clock, Span};
use qconnect::player::{
    playback_event_at, recoverable_error, AudioCommand, AudioPlayer, Phase, PlayerAction,
    PlayerEvent, QueuedTrack,
};
use qconnect::readable::{find_counting_part, is_readable, opens_as_wave};
use qconnect::shared_state::SharedState;

const SEC: u64 = 1_000_000_000;

fn wav(frames: u32) -> Vec<u8> {
    let data_len = frames * 2;
    let mut bytes: Vec<u8> = Vec::new();
    bytes.extend_from_slice(b"RIFF");
    bytes.extend_from_slice(&(36 + data_len).to_le_bytes());
    bytes.extend_from_slice(b"WAVEfmt ");
    bytes.extend_from_slice(&16u32.to_le_bytes());
    bytes.extend_from_slice(&1u16.to_le_bytes());
    bytes.extend_from_slice(&1u16.to_le_bytes());
    bytes.extend_from_slice(&8000u32.to_le_bytes());
    bytes.extend_from_slice(&16000u32.to_le_bytes());
    bytes.extend_from_slice(&2u16.to_le_bytes());
    bytes.extend_from_slice(&16u16.to_le_bytes());
    bytes.extend_from_slice(b"data");
    bytes.extend_from_slice(&data_len.to_le_bytes());
    bytes.resize(bytes.len() + data_len as usize, 0);
    bytes
}

fn track(id: u64, duration_secs: u64) -> QueuedTrack {
    QueuedTrack { data: vec![id as u8], track_id: 100 + id, queue_item_id: id, duration_secs }
}

fn ready() -> AudioPlayer {
    let mut player = AudioPlayer::new(None);
    assert_eq!(player.apply(PlayerEvent::OutputOpened { ok: true }, 0), PlayerAction::Wait);
    player
}

fn command(player: &mut AudioPlayer, command: AudioCommand, now: u64) -> PlayerAction {
    player.apply(PlayerEvent::Command(command), now)
}

fn playing(id: u64, duration_secs: u64) -> AudioPlayer {
    let mut player = ready();
    let action = player.begin_play(track(id, duration_secs), None);
    assert!(matches!(action, PlayerAction::StartPlayer { skip_secs: None, .. }));
    assert_eq!(player.apply(PlayerEvent::PlayerStarted(Ok(())), 0), PlayerAction::Wait);
    player
}

#[test]
fn metadata_of_a_wav_file() {
    let metadata = extract_audio_metadata(&wav(12000)).unwrap();
    assert_eq!(
        metadata,
        AudioMetadata {
            sample_rate: 8000,
            channels: 1,
            bit_depth: Some(16),
            duration_secs: Some(2),
        }
    );
    assert_eq!(extract_audio_metadata(&wav(16000)).unwrap().duration_secs, Some(2));
    assert_eq!(extract_audio_metadata(&wav(16001)).unwrap().duration_secs, Some(3));
    assert_eq!(decoder_duration_secs(&wav(12000)), Some(2));
}

#[test]
fn metadata_of_something_else() {
    let error = extract_audio_metadata(b"this is no audio file").unwrap_err();
    assert!(error.starts_with("Symphonia probe failed: "));
    assert_eq!(decoder_duration_secs(b"this is no audio file"), None);
}

fn crc8(bytes: &[u8]) -> u8 {
    let mut crc: u8 = 0;
    for byte in bytes {
        crc ^= *byte;
        for _ in 0..8 {
            crc = if crc & 0x80 != 0 { (crc << 1) ^ 0x07 } else { crc << 1 };
        }
    }
    crc
}

/// A FLAC file of two channels at 44.1 kHz and 16 bits, cut off in its first
/// frame.
fn flac(samples: u32) -> Vec<u8> {
    let mut bytes: Vec<u8> = Vec::new();
    bytes.extend_from_slice(b"fLaC");
    bytes.extend_from_slice(&[0x80, 0, 0, 34]);
    bytes.extend_from_slice(&4096u16.to_be_bytes());
    bytes.extend_from_slice(&4096u16.to_be_bytes());
    bytes.extend_from_slice(&[0; 6]);
    let format: u64 = (44100u64 << 44) | (1 << 41) | (15 << 36) | u64::from(samples);
    bytes.extend_from_slice(&format.to_be_bytes());
    bytes.extend_from_slice(&[0; 16]);
    let header = [0xff, 0xf8, 0xc9, 0x18, 0x00];
    bytes.extend_from_slice(&header);
    bytes.push(crc8(&header));
    bytes.resize(bytes.len() + 32, 0);
    bytes
}

fn atom(name: &[u8; 4], body: &[u8]) -> Vec<u8> {
    let mut bytes: Vec<u8> = Vec::new();
    bytes.extend_from_slice(&(8 + body.len() as u32).to_be_bytes());
    bytes.extend_from_slice(name);
    bytes.extend_from_slice(body);
    bytes
}

/// A file of the MP4 family that holds one more atom.
fn mp4(name: &[u8; 4], body: &[u8]) -> Vec<u8> {
    let mut bytes = atom(b"ftyp", b"M4A \0\0\0\0");
    bytes.extend_from_slice(&atom(name, body));
    bytes
}

fn joined(parts: &[Vec<u8>]) -> Vec<u8> {
    parts.concat()
}

fn numbers(parts: &[u32]) -> Vec<u8> {
    parts.iter().flat_map(|part| part.to_be_bytes()).collect()
}

/// An AAC track of two seconds and a bit, with this time scale.
fn m4a(time_scale: u32) -> Vec<u8> {
    m4a_with(time_scale, &[87, 1024], &atom(b"mdat", &[0; 64]))
}

/// The same with these durations of samples, and with these last atoms.
fn m4a_with(time_scale: u32, durations: &[u32], last: &[u8]) -> Vec<u8> {
    let descriptor = [
        0, 0, 0, 0, 3, 25, 0, 1, 0, 4, 17, 0x40, 0x15, 0, 0, 0, 0, 0, 0, 0, 0, 0, 0, 0, 5, 2, 0x12,
        0x10, 6, 1, 2,
    ];
    let mut entry = vec![0; 28];
    entry[7] = 1;
    entry[17] = 2;
    entry[19] = 16;
    entry[24..26].copy_from_slice(&44100u16.to_be_bytes());
    entry.extend_from_slice(&atom(b"esds", &descriptor));
    let stts = joined(&[numbers(&[0, durations.len() as u32 / 2]), numbers(durations)]);
    let stbl = joined(&[
        atom(b"stsd", &joined(&[numbers(&[0, 1]), atom(b"mp4a", &entry)])),
        atom(b"stts", &stts),
        atom(b"stsc", &numbers(&[0, 1, 1, 87, 1])),
        atom(b"stsz", &numbers(&[0, 100, 87])),
        atom(b"stco", &numbers(&[0, 1, 600])),
    ]);
    let mdia = joined(&[
        atom(b"mdhd", &numbers(&[0, 0, 0, time_scale, 88201, 0])),
        atom(b"hdlr", &joined(&[numbers(&[0, 0]), b"soun".to_vec(), vec![0; 12]])),
        atom(b"minf", &atom(b"stbl", &stbl)),
    ]);
    let trak = joined(&[atom(b"tkhd", &[0; 84]), atom(b"mdia", &mdia)]);
    let moov = joined(&[atom(b"mvhd", &[0; 100]), atom(b"trak", &trak)]);
    joined(&[
        atom(b"ftyp", b"M4A \0\0\0\0"),
        atom(b"moov", &moov),
        last.to_vec(),
    ])
}

/// A file of the MP4 family with an atom in others, the outermost first.
fn placed(outer: &[&[u8; 4]], inner: Vec<u8>) -> Vec<u8> {
    let held = outer.iter().rev().fold(inner, |held, name| {
        let room = if **name == *b"meta" { vec![0; 4] } else { Vec::new() };
        atom(name, &joined(&[room, held]))
    });
    joined(&[atom(b"ftyp", b"M4A \0\0\0\0"), held])
}

/// AAC frames of 16 bytes at 44.1 kHz.
fn aac(frames: usize) -> Vec<u8> {
    let mut frame = vec![0xff, 0xf1, 0x50, 0x80, 0x02, 0x1f, 0xfc];
    frame.resize(16, 0);
    frame.repeat(frames)
}

/// MP3 frames of 128 kbit/s at 44.1 kHz.
fn mp3(frames: usize) -> Vec<u8> {
    let mut frame = vec![0; 417];
    frame[..4].copy_from_slice(&[0xff, 0xfb, 0x90, 0x00]);
    frame.repeat(frames)
}

#[test]
fn metadata_of_an_mp4_file() {
    assert_eq!(
        extract_audio_metadata(&m4a(44100)),
        Ok(AudioMetadata {
            sample_rate: 44100,
            channels: 2,
            bit_depth: None,
            duration_secs: Some(3),
        })
    );
    assert_eq!(extract_audio_metadata(&m4a(0)), Err("Malformed audio data".to_string()));
}

#[test]
fn metadata_of_an_mp3_file() {
    let expected = AudioMetadata {
        sample_rate: 44100,
        channels: 2,
        bit_depth: None,
        duration_secs: Some(2),
    };
    assert_eq!(extract_audio_metadata(&mp3(40)), Ok(expected));
    let mut tagged = b"ID3\x03\0\0\0\0\0\x0a".to_vec();
    tagged.resize(20, 0);
    tagged.extend_from_slice(&mp3(40));
    assert_eq!(extract_audio_metadata(&tagged), Ok(expected));
}

#[test]
fn metadata_of_a_flac_file() {
    assert_eq!(
        extract_audio_metadata(&flac(88201)),
        Ok(AudioMetadata {
            sample_rate: 44100,
            channels: 2,
            bit_depth: Some(16),
            duration_secs: Some(3),
        })
    );
    assert_eq!(extract_audio_metadata(&flac(88200)).unwrap().duration_secs, Some(2));
    assert_eq!(extract_audio_metadata(&flac(0)).unwrap().duration_secs, None);
}

#[test]
fn metadata_of_an_aac_stream() {
    assert_eq!(
        extract_audio_metadata(&aac(87)),
        Ok(AudioMetadata {
            sample_rate: 44100,
            channels: 2,
            bit_depth: None,
            duration_secs: Some(3),
        })
    );
    assert_eq!(decoder_duration_secs(&aac(87)), None);
    let behind = |junk: usize| is_readable(&joined(&[vec![0; junk], aac(4)]));
    assert!(behind(0) && behind(60) && !behind(61));
}

#[test]
fn waves_are_asked_and_others_counted() {
    assert!(opens_as_wave(&wav(8000)) && !opens_as_wave(&flac(88200)));
    assert_eq!(decoder_duration_secs(&wav(8000)), Some(1));
    assert_eq!(decoder_duration_secs(&wav(8001)), Some(2));
    assert_eq!(decoder_duration_secs(&flac(88200)), Some(2));
    assert_eq!(decoder_duration_secs(&flac(0)), None);
    assert_eq!(decoder_duration_secs(&m4a(44100)), Some(3));
    assert_eq!(decoder_duration_secs(&m4a(0)), None);
    assert_eq!(decoder_duration_secs(&mp3(40)), None);
    assert_eq!(find_counting_part(&flac(0)), Some(&flac(0)[..]));
    assert_eq!(find_counting_part(&mp3(40)), None);
    assert_eq!(find_counting_part(&wav(8000)), None);
    let mut counted = mp3(4);
    counted[36..40].copy_from_slice(b"Xing");
    counted[43] = 1;
    counted[46] = 1;
    assert_eq!(find_counting_part(&counted), Some(&counted[..]));
    assert_eq!(decoder_duration_secs(&counted), Some(7));
    counted[36..40].copy_from_slice(b"VBRI");
    counted[40..54].copy_from_slice(&[0, 1, 0, 0, 0, 0, 0, 0, 0, 0, 0, 0, 1, 0]);
    assert_eq!(decoder_duration_secs(&counted), Some(7));
    assert_eq!(said_secs_ceil(Some(Span { secs: 1, nanos: 1 })), Some(2));
    assert_eq!(said_secs_ceil(None), None);
    let params = |n_frames: Option<u64>| {
        Ok(Some(TrackParams {
            sample_rate: None,
            channels: None,
            bits_per_sample: None,
            ticks: Some(Ticks { numer: 1, denom: 10 }),
            n_frames,
        }))
    };
    assert_eq!(counted_frames_secs(&params(Some(11))), Some(2));
    assert_eq!(counted_frames_secs(&params(Some(0))), None);
    assert_eq!(counted_frames_secs(&params(None)), None);
    assert_eq!(counted_frames_secs(&Ok(None)), None);
    assert_eq!(counted_frames_secs(&Err("end of stream".to_string())), None);
}

#[test]
fn frames_are_counted_before_the_samples() {
    let whole = m4a(44100);
    let samples = whole.len() - 72;
    assert_eq!(find_counting_part(&whole), Some(&whole[..samples]));
    let cut = &whole[..samples + 20];
    assert!(extract_audio_metadata(cut).unwrap_err().starts_with("Symphonia probe failed: "));
    assert_eq!(decoder_duration_secs(cut), Some(3));
    let mut player = ready();
    match player.play_data(cut.to_vec(), 5, 6) {
        AudioCommand::Play(queued) => assert_eq!(queued.duration_secs, 3),
        _ => panic!("not a play command"),
    }
    let shifted = joined(&[vec![0; 3], whole.clone()]);
    assert!(extract_audio_metadata(&shifted).is_err());
    assert_eq!(decoder_duration_secs(&shifted), Some(3));

    let kind = atom(b"ftyp", b"M4A \0\0\0\0");
    let late = joined(&[kind.clone(), whole[samples..].to_vec(), whole[16..samples].to_vec()]);
    assert_eq!(extract_audio_metadata(&late).unwrap().duration_secs, Some(3));
    assert_eq!(find_counting_part(&late), Some(&kind[..]));
    assert_eq!(decoder_duration_secs(&late), None);
    assert_eq!(find_counting_part(&whole[..samples]), None);
    assert_eq!(decoder_duration_secs(&whole[..samples]), None);
}

/// What the decoder itself says, in seconds rounded up.
fn decoder_said(data: &[u8]) -> Option<u64> {
    let cursor = std::io::Cursor::new(data.to_vec());
    let decoder = rodio::Decoder::new(std::io::BufReader::new(cursor)).ok()?;
    let duration = rodio::Source::total_duration(&decoder)?;
    Some(duration.as_secs() + u64::from(duration.subsec_nanos() > 0))
}

#[test]
fn decoders_say_what_is_counted() {
    let whole = m4a(44100);
    let samples = whole.len() - 72;
    let kind = atom(b"ftyp", b"M4A \0\0\0\0");
    let mut counted = mp3(40);
    counted[36..40].copy_from_slice(b"Xing");
    counted[43] = 1;
    counted[46] = 1;
    let mut numbered = counted.clone();
    numbered[36..40].copy_from_slice(b"VBRI");
    numbered[40..54].copy_from_slice(&[0, 1, 0, 0, 0, 0, 0, 0, 0, 0, 0, 0, 1, 0]);
    let tag = b"ID3\x03\0\0\0\0\0\x04\0\0\0\0".to_vec();
    for (file, said) in [
        (wav(8001), Some(2)),
        (joined(&[vec![1; 5], wav(8001)]), Some(2)),
        (flac(88200), Some(2)),
        (flac(88201), Some(3)),
        (flac(0), None),
        (joined(&[tag.clone(), flac(88200)]), Some(2)),
        (whole.clone(), Some(3)),
        (whole[..samples + 20].to_vec(), Some(3)),
        (whole[..samples].to_vec(), None),
        (joined(&[vec![0; 3], whole.clone()]), Some(3)),
        (joined(&[tag.clone(), whole.clone()]), Some(3)),
        (joined(&[kind, whole[samples..].to_vec(), whole[16..samples].to_vec()]), None),
        (mp3(40), None),
        (counted.clone(), Some(7)),
        (joined(&[tag, counted]), Some(7)),
        (numbered, Some(7)),
        (aac(87), None),
    ] {
        assert_eq!(decoder_said(&file), said);
        assert_eq!(decoder_duration_secs(&file), said);
    }
}

#[test]
fn endless_waves_are_read() {
    let mut endless = wav(8000);
    endless[4..8].copy_from_slice(&[0xff; 4]);
    endless[40..44].copy_from_slice(&[0xff; 4]);
    assert_eq!(extract_audio_metadata(&endless).unwrap().duration_secs, Some(268436));
    assert_eq!(decoder_duration_secs(&endless), Some(268436));

    let mut cut = wav(8000);
    cut.truncate(60);
    assert_eq!(extract_audio_metadata(&cut).unwrap().duration_secs, Some(1));

    let mut extended = wav(8000);
    extended[20..22].copy_from_slice(&[0xfe, 0xff]);
    extended[16] = 41;
    assert!(is_readable(&extended));
    extended[7] = 0x80;
    assert!(!is_readable(&extended));
    extended[16] = 40;
    assert!(is_readable(&extended));
}

#[test]
fn waves_without_a_rate_are_left_alone() {
    let mut silent = wav(8000);
    silent[24..28].copy_from_slice(&[0; 4]);
    assert!(is_readable(&wav(8000)) && !is_readable(&silent));
    assert_eq!(extract_audio_metadata(&silent), Err("Malformed audio data".to_string()));
    assert_eq!(decoder_duration_secs(&silent), None);

    let mut differences = wav(8000);
    differences[20] = 2;
    assert!(is_readable(&differences));
    differences[34] = 4;
    assert!(!is_readable(&differences));
    differences[32] = 7;
    assert!(is_readable(&differences));
    differences[32..34].copy_from_slice(&[0x06, 0x20]);
    assert!(is_readable(&differences));
    differences[32..34].copy_from_slice(&[0x07, 0x20]);
    assert!(!is_readable(&differences));
    differences[20] = 0x11;
    differences[32..34].copy_from_slice(&[0x03, 0x20]);
    assert!(is_readable(&differences));
    differences[32..34].copy_from_slice(&[0x04, 0x20]);
    assert!(!is_readable(&differences));

    let mut crowded = wav(8000);
    crowded[20..22].copy_from_slice(&[0xfe, 0xff]);
    crowded[40..44].copy_from_slice(&[0; 4]);
    crowded[22] = 31;
    assert!(is_readable(&crowded));
    crowded[22] = 32;
    assert!(!is_readable(&crowded));
    crowded[40] = 4;
    assert!(is_readable(&crowded));
    crowded[43] = 0x80;
    assert!(!is_readable(&crowded));
    crowded[22] = 2;
    assert!(is_readable(&crowded));

    let mut extended = wav(8000);
    extended[20..22].copy_from_slice(&[0xfe, 0xff]);
    extended[34..36].copy_from_slice(&[0, 0]);
    assert!(is_readable(&extended));
    extended[44] = 1;
    assert!(!is_readable(&extended));
    assert_eq!(extract_audio_metadata(&extended), Err("Malformed audio data".to_string()));

    let mut player = ready();
    let play = player.play_data(silent, 5, 6);
    assert_eq!((player.state().sample_rate, player.state().bit_depth), (48000, 16));
    match play {
        AudioCommand::Play(queued) => assert_eq!(queued.duration_secs, 0),
        _ => panic!("not a play command"),
    }
}

#[test]
fn malformed_atoms_are_left_alone() {
    let media = |name: &[u8; 4], body: &[u8]| {
        is_readable(&placed(&[b"moov", b"trak", b"mdia"], atom(name, body)))
    };
    assert!(!media(b"mdhd", &numbers(&[0, 0, 0, 0, 9])));
    assert!(media(b"mdhd", &numbers(&[0, 0, 0, 1, 9])));
    assert!(!media(b"mdhd", &numbers(&[0x100_0000, 0, 0, 0, 0, 0, 9, 9])));
    assert!(media(b"mdhd", &numbers(&[0x100_0000, 0, 0, 0, 0, 1, 9, 9])));
    assert!(!media(b"hdlr", &[0; 23]) && media(b"hdlr", &[0; 24]));
    assert!(is_readable(&mp4(b"hdlr", &[0; 23])));

    let tag = |name: &[u8; 4], body: &[u8]| {
        is_readable(&placed(&[b"moov", b"udta", b"meta", b"ilst", b"cprt"], atom(name, body)))
    };
    assert!(!tag(b"data", &[0; 7]) && tag(b"data", &[0; 8]));
    assert!(!tag(b"mean", &[0; 3]) && tag(b"mean", &[0; 4]));
    assert!(!tag(b"name", &[0; 3]) && tag(b"name", &[0; 4]));
    assert!(!is_readable(&mp4(b"meta", &[0; 3])) && is_readable(&mp4(b"meta", &[0; 4])));
    let meta = |body: &[u8]| is_readable(&placed(&[b"moov", b"udta"], atom(b"meta", body)));
    assert!(!meta(&[0; 3]) && meta(&[0; 4]));

    let table = |name: &[u8; 4], body: &[u32]| {
        is_readable(&placed(
            &[b"moov", b"trak", b"mdia", b"minf", b"stbl"],
            atom(name, &numbers(body)),
        ))
    };
    let most = u32::MAX;
    assert!(table(b"stts", &[0, 1, most, most]) && !table(b"stts", &[0, 2, 1, 1]));
    assert!(table(b"stts", &[0, 2, most, most, 2, most]));
    assert!(!table(b"stts", &[0, 3, most, most, 2, most, 1, 1]));
    assert!(table(b"stsc", &[0, 1, 1, 1, 1]) && !table(b"stsc", &[0, 1, 0, 1, 1]));
    assert!(!table(b"stsc", &[0, 2, 1, 1, 1]));
    assert!(table(b"stsc", &[0, 1, most, most, 1]));
    assert!(table(b"stsc", &[0, 2, 1, most, 1, 2, 1, 1]));
    assert!(!table(b"stsc", &[0, 2, 1, most, 1, 3, 1, 1]));
    assert!(!table(b"stsc", &[0, 3, 1, most, 1, 2, 1, 1, 3, 1, 1]));
    assert!(table(b"stsc", &[0, 2, 3, most, 1, 1, 1, 1]));
    assert!(!table(b"stsz", &[0, 0, 1]) && table(b"stsz", &[0, 0, 1, 9]));
    assert!(table(b"stsz", &[0, 9, 1]));
    assert!(!table(b"stco", &[0, 1]) && table(b"stco", &[0, 1, 9]));
    assert!(!table(b"co64", &[0, 1, 0]) && table(b"co64", &[0, 1, 0, 9]));

    let segments = |offset: u32| {
        let body = numbers(&[0x100_0000, 0, 0, 0, 0, offset, 0xffff_ffff]);
        is_readable(&mp4(b"sidx", &body))
    };
    assert!(!segments(0xffff_ffff) && segments(0xffff_fffe));
    assert_eq!(
        extract_audio_metadata(&placed(&[b"moov", b"trak", b"mdia"], atom(b"mdhd", &[0; 24]))),
        Err("Malformed audio data".to_string())
    );
    let error = extract_audio_metadata(&mp4(b"hdlr", &[0; 24])).unwrap_err();
    assert!(error.starts_with("Symphonia probe failed: "));
}

#[test]
fn malformed_sample_descriptions_are_left_alone() {
    let tables: [&[u8; 4]; 5] = [b"moov", b"trak", b"mdia", b"minf", b"stbl"];
    let listed = |body: &[u8]| is_readable(&placed(&tables, atom(b"stsd", body)));
    let described =
        |name: &[u8; 4], body: &[u8]| listed(&joined(&[numbers(&[0, 1]), atom(name, body)]));
    let version = |n: u8, len: usize| {
        let mut body = vec![0; len];
        body[9] = n;
        body
    };
    assert!(listed(&numbers(&[0, 1])) && listed(&numbers(&[0, 2])));
    assert!(!described(b"mp4a", &version(0, 27)) && described(b"mp4a", &version(0, 28)));
    assert!(!described(b"alac", &version(1, 43)) && described(b"alac", &version(1, 44)));
    assert!(!described(b"lpcm", &version(2, 63)) && described(b"lpcm", &version(2, 64)));
    assert!(!described(b"lpcm", &version(0, 64)) && !described(b"lpcm", &version(1, 64)));
    assert!(described(b"avc1", &version(0, 10)) && described(b"mp4a", &version(3, 10)));

    let streams = |bytes: &[u8]| {
        let body = joined(&[vec![0; 4], bytes.to_vec()]);
        let entry = joined(&[vec![0; 28], atom(b"esds", &body)]);
        let wave = joined(&[vec![0; 28], atom(b"wave", &atom(b"esds", &body))]);
        let sound = described(b"mp4a", &entry);
        assert_eq!(described(b"mp4a", &wave), sound);
        sound
    };
    let mut stream = vec![3, 21, 0, 1, 0, 4, 13];
    stream.resize(20, 0);
    stream.extend_from_slice(&[6, 1, 2]);
    let changed = |at: usize, value: u8| {
        let mut bytes = stream.clone();
        bytes[at] = value;
        streams(&bytes)
    };
    assert!(streams(&stream) && !streams(&stream[..2]) && !streams(b""));
    assert!(!changed(0, 4) && !changed(1, 2) && changed(5, 5) && !changed(6, 12));
    assert!(streams(&joined(&[vec![9, 1, 0], stream.clone()])));
    assert!(!streams(&joined(&[stream.clone(), vec![3, 2, 0, 0, 0]])));
    let mut flagged = stream.clone();
    flagged[4] = 0xe0;
    flagged.splice(5..5, [0, 0, 1, 0, 0, 0]);
    assert!(streams(&flagged));
    flagged[12] = 12;
    assert!(!streams(&flagged));
}

#[test]
fn atoms_of_every_size_are_read() {
    let expected = extract_audio_metadata(&m4a(44100));
    let wide = joined(&[numbers(&[1]), b"mdat".to_vec(), numbers(&[0, 20, 0])]);
    assert_eq!(extract_audio_metadata(&m4a_with(44100, &[87, 1024], &wide)), expected);
    let open = joined(&[numbers(&[0]), b"mdat".to_vec()]);
    assert_eq!(extract_audio_metadata(&m4a_with(44100, &[87, 1024], &open)), expected);
    let many: Vec<u32> = [1, 0x1_0000].repeat(0x8001);
    assert_eq!(
        extract_audio_metadata(&m4a_with(44100, &many, &atom(b"mdat", &[0; 64]))),
        expected
    );

    let small = joined(&[numbers(&[1]), b"free".to_vec(), numbers(&[0, 15])]);
    assert!(is_readable(&m4a_with(44100, &[87, 1024], &small)));
    let vast = joined(&[numbers(&[1]), b"free".to_vec(), numbers(&[0x8000_0000, 0])]);
    assert!(!is_readable(&m4a_with(44100, &[87, 1024], &vast)));
    let lost = joined(&[numbers(&[100]), b"free".to_vec()]);
    let error = extract_audio_metadata(&m4a_with(44100, &[87, 1024], &lost)).unwrap_err();
    assert!(error.starts_with("Symphonia probe failed: "));

    let rest = joined(&[numbers(&[0]), b"hdlr".to_vec(), vec![0; 24]]);
    assert!(!is_readable(&placed(&[b"moov", b"trak", b"mdia"], rest.clone())));
    assert!(is_readable(&placed(&[b"moov"], rest)));
}

#[test]
fn malformed_blocks_are_left_alone() {
    let block = |kind: u8, body: &[u8]| {
        let mut bytes = flac(88200);
        bytes[4] = 0;
        let mut head = vec![0x80 + kind];
        head.extend_from_slice(&(body.len() as u32).to_be_bytes()[1..]);
        head.extend_from_slice(body);
        bytes.splice(42..42, head);
        bytes
    };
    let title = b"\x01\0\0\0m\x01\0\0\0\x07\0\0\0TITLE=a";
    assert!(is_readable(&block(4, title)));
    assert_eq!(extract_audio_metadata(&block(4, title)).unwrap().duration_secs, Some(2));
    assert!(!is_readable(&block(4, &title[..19])));
    assert!(!is_readable(&block(4, b"\x04\0\0\0m\0\0")));
    let pictured = b"\0\0\0\0\x01\0\0\0\x1b\0\0\0METADATA_BLOCK_PICTURE=AAAA";
    assert_eq!(extract_audio_metadata(&block(4, pictured)).unwrap().duration_secs, Some(2));
    let picture = numbers(&[3, 0, 0, 1, 1, 8, 0, 0]);
    assert!(is_readable(&block(6, &picture)));
    assert!(!is_readable(&block(6, &picture[..31])));
    assert!(!is_readable(&block(6, &numbers(&[3, 1, 0, 1, 1, 8, 0, 0]))));
    assert!(!is_readable(&block(6, &numbers(&[3, 0, 0, 1, 1, 8, 0, 1]))));
    assert!(is_readable(&block(1, &[0; 9])));
    assert!(!is_readable(&flac(88200)[..41]) && is_readable(&flac(88200)[..42]));
}

#[test]
fn what_stands_before_the_audio_is_passed_over() {
    let expected = extract_audio_metadata(&wav(8000));
    let shifted = joined(&[vec![1], wav(8000)]);
    assert!(expected.is_ok() && opens_as_wave(&shifted));
    assert_eq!(extract_audio_metadata(&shifted), expected);
    assert_eq!(decoder_duration_secs(&shifted), Some(1));
    let late = |junk: usize| opens_as_wave(&joined(&[vec![0; junk], wav(8000)]));
    assert!(late(0xf_fffe) && !late(0xf_ffff));

    let expected = extract_audio_metadata(&mp3(40));
    let tag = |head: &[u8], rest: &[u8]| joined(&[head.to_vec(), rest.to_vec(), mp3(40)]);
    assert_eq!(extract_audio_metadata(&tag(b"ID3\x03\0\0\0\0\0\x04", &[0; 4])), expected);
    assert_eq!(
        extract_audio_metadata(&tag(b"ID3\x03\0\0\0\0\0\x04", b"\0\0\0\0ID3\x04\0\0\0\0\0\x04\0\0\0\0")),
        expected
    );
    assert_eq!(
        extract_audio_metadata(&tag(b"ID3\x04\0\x10\0\0\0\x04", b"\0\0\0\x003DI\x04\0\x10\0\0\0\x04")),
        expected
    );
    let behind_a_tag = |file: Vec<u8>| {
        let tag = b"ID3\x03\0\0\0\0\0\x04\0\0\0\0".to_vec();
        extract_audio_metadata(&joined(&[tag, file]))
    };
    assert_eq!(behind_a_tag(flac(88200)), extract_audio_metadata(&flac(88200)));
    assert!(behind_a_tag(m4a(44100)).unwrap_err().starts_with("Symphonia probe failed: "));
    assert_eq!(behind_a_tag(m4a(0)), Err("Malformed audio data".to_string()));
    assert!(is_readable(b"") && is_readable(b"RIF"));
}

#[test]
fn extended_headers_are_read() {
    let expected = extract_audio_metadata(&mp3(40));
    let tag = |version: u8, extension: &[u8], frames: &[u8]| {
        let size = (extension.len() + frames.len()) as u8;
        let head = vec![b'I', b'D', b'3', version, 0, 0x40, 0, 0, 0, size];
        joined(&[head, extension.to_vec(), frames.to_vec(), mp3(40)])
    };
    let title = b"TIT2\0\0\0\x03\0\0\0ab";
    let long = b"TIT2\0\0\0\x04\0\0\0ab";
    for (version, extension) in [
        (3, &[0, 0, 0, 6, 0, 0, 0, 0, 0, 0][..]),
        (3, &[0, 0, 0, 10, 0x80, 0, 0, 0, 0, 0, 1, 2, 3, 4][..]),
        (4, &[0, 0, 0, 6, 1, 0][..]),
        (4, &[0, 0, 0, 7, 1, 0x40, 1][..]),
        (4, &[0, 0, 0, 12, 1, 0x20, 5, 0, 0, 0, 0, 0][..]),
        (4, &[0, 0, 0, 8, 1, 0x10, 1, 0xbf][..]),
        (4, &[0, 0, 0, 15, 1, 0x70, 1, 5, 0, 0, 0, 0, 0, 1, 0][..]),
    ] {
        assert_eq!(extract_audio_metadata(&tag(version, extension, title)), expected);
        assert!(!is_readable(&tag(version, extension, long)));
    }
    let restricted = tag(4, &[0, 0, 0, 8, 1, 0x10, 1, 0x40], title);
    assert_eq!(extract_audio_metadata(&restricted), Err("Malformed audio data".to_string()));
    assert!(!is_readable(&tag(4, &[0, 0, 0, 15, 1, 0x70, 1, 5, 0, 0, 0, 0, 0, 1, 0x40], title)));
}

#[test]
fn malformed_tags_are_left_alone() {
    let mut framed = b"ID3\x03\0\0\0\0\0\x0dTIT2\0\0\0\x03\0\0\0ab".to_vec();
    framed.extend_from_slice(&mp3(4));
    assert!(is_readable(&framed));
    framed[17] = 4;
    assert!(!is_readable(&framed));
    framed[5] = 0x80;
    assert!(is_readable(&framed));
    framed[5] = 0;
    framed[13] = 0;
    assert!(is_readable(&framed));
    framed[7] = 1;
    assert!(!is_readable(&framed));
}

#[test]
fn counts_outlast_what_is_cut_off() {
    let counted = |count: u8, encoder: &[u8; 4], trim: [u8; 3]| {
        let mut bytes = mp3(4);
        bytes[36..40].copy_from_slice(b"Info");
        bytes[43] = 1;
        bytes[47] = count;
        bytes[48..52].copy_from_slice(encoder);
        bytes[69..72].copy_from_slice(&trim);
        bytes
    };
    let known = |count: u8, encoder: &[u8; 4], trim: [u8; 3]| {
        extract_audio_metadata(&counted(count, encoder, trim)).unwrap().duration_secs
    };
    assert_eq!(known(1, b"none", [0xff, 0xff, 0xff]), Some(1));
    assert_eq!(known(0, b"none", [0xff, 0xff, 0xff]), Some(0));
    assert_eq!(known(1, b"Lavf", [0, 0, 0]), Some(1));
    assert_eq!(known(1, b"Lavf", [0x26, 0xf0, 0]), Some(0));
    assert!(!is_readable(&counted(1, b"Lavf", [0x27, 0x00, 0])));
    assert!(!is_readable(&counted(0, b"Lavc", [0, 0, 0])));
    assert!(!is_readable(&counted(7, b"LAME", [0xff, 0xff, 0xff])));
    assert!(is_readable(&counted(8, b"LAME", [0xff, 0xff, 0xff])));
    assert_eq!(
        extract_audio_metadata(&counted(0, b"LAME", [0, 0, 0])),
        Err("Malformed audio data".to_string())
    );
}

#[test]
fn metadata_errors() {
    assert_eq!(
        read_metadata(Err("why".to_string()), None),
        Err("Symphonia probe failed: why".to_string())
    );
    assert_eq!(read_metadata(Ok(None), None), Err("No supported audio tracks".to_string()));
    let silent = TrackParams {
        sample_rate: None,
        channels: None,
        bits_per_sample: None,
        ticks: None,
        n_frames: None,
    };
    assert_eq!(
        read_metadata(Ok(Some(silent)), None),
        Err("No sample rate in codec params".to_string())
    );
    let known = TrackParams { sample_rate: Some(44100), ..silent };
    assert_eq!(
        read_metadata(Ok(Some(known)), Some(9)),
        Ok(AudioMetadata {
            sample_rate: 44100,
            channels: 2,
            bit_depth: None,
            duration_secs: Some(9),
        })
    );
    let timed = TrackParams {
        ticks: Some(Ticks { numer: 1, denom: 44100 }),
        n_frames: Some(44101),
        ..known
    };
    assert_eq!(container_duration_secs(timed), Some(2));
    assert_eq!(container_duration_secs(known), None);
}

#[test]
fn seconds_are_rounded_up() {
    assert_eq!(ticks_secs_ceil(Ticks { numer: 1, denom: 320 }, 12_345), 39);
    assert_eq!(ticks_secs_ceil(Ticks { numer: 1, denom: 320 }, 320), 1);
    assert_eq!(ticks_secs_ceil(Ticks { numer: 1, denom: 320 }, 0), 0);
    assert_eq!(ticks_secs_ceil(Ticks { numer: 1, denom: 320 }, u64::MAX), 57_646_075_230_342_349);
    assert_eq!(
        ticks_secs_ceil(Ticks { numer: 320, denom: 1 }, u64::MAX),
        18_446_744_073_709_551_296
    );
    assert_eq!(duration_secs_ceil(Span { secs: 4, nanos: 1 }), 5);
    assert_eq!(duration_secs_ceil(Span { secs: 4, nanos: 0 }), 4);
    assert_eq!(duration_secs_ceil(Span { secs: u64::MAX, nanos: 1 }), u64::MAX);
}

#[test]
fn packets_are_decided_upon() {
    assert_eq!(after_read(3, PacketRead::Packet { track_id: 3 }), ReadStep::Decode);
    assert_eq!(after_read(3, PacketRead::Packet { track_id: 4 }), ReadStep::Skip);
    assert_eq!(after_read(3, PacketRead::EndOfSource), ReadStep::Finish);
    assert_eq!(
        after_read(3, PacketRead::Failed("x".to_string())),
        ReadStep::Fail("Read error: x".to_string())
    );
    assert_eq!(after_decode(PacketDecode::Samples), DecodeStep::Keep);
    assert_eq!(after_decode(PacketDecode::Malformed), DecodeStep::Skip);
    assert_eq!(after_decode(PacketDecode::ResetRequired), DecodeStep::Reset);
    assert_eq!(
        after_decode(PacketDecode::Failed("y".to_string())),
        DecodeStep::Fail("Decode error: y".to_string())
    );
}

#[test]
fn sources_need_samples_and_a_format() {
    assert_eq!(source_format(0, Some(2), Some(44100)), Err(SourceError::NoSamples));
    assert_eq!(source_format(9, Some(0), Some(44100)), Err(SourceError::InvalidChannelCount));
    assert_eq!(source_format(9, Some(0x1_0000), None), Err(SourceError::InvalidChannelCount));
    assert_eq!(source_format(9, Some(2), Some(0)), Err(SourceError::InvalidSampleRate));
    assert_eq!(
        source_format(9, None, None),
        Ok(SourceFormat { channels: 2, sample_rate: 48000 })
    );
    assert_eq!(SourceError::NoSamples.text(), "No audio samples decoded");
    assert_eq!(SourceError::InvalidChannelCount.text(), "Invalid channel count");
    assert_eq!(SourceError::InvalidSampleRate.text(), "Invalid sample rate");
}

#[test]
fn shared_state_starts_silent() {
    let state = SharedState::new();
    assert_eq!(state, SharedState::default());
    assert_eq!(state.volume, 75);
    assert!(!state.has_stream_error());
    assert_eq!(state.current_position(100 * SEC), 0);
}

#[test]
fn position_follows_the_clock() {
    let mut state = SharedState::new();
    state.set_current_track(1, 2, 100);
    state.reset_playback_tracking(10, 5 * SEC);
    assert_eq!(state.current_position(5 * SEC), 10);
    assert_eq!(state.current_position(8 * SEC + SEC - 1), 13);
    assert_eq!(state.current_position(4 * SEC), 10);
    assert_eq!(state.current_position(1000 * SEC), 100);
    state.pause_playback(15 * SEC);
    assert_eq!(state.current_position(99 * SEC), 20);
    state.resume_playback(200 * SEC);
    assert_eq!(state.current_position(203 * SEC), 23);
    state.reset_playback_tracking(u64::MAX - 1, 0);
    state.set_current_track(1, 2, 0);
    assert_eq!(state.current_position(1000 * SEC), u64::MAX);
}

#[test]
fn pending_seek_is_taken_once() {
    let mut state = SharedState::new();
    assert_eq!(state.take_pending_seek(), None);
    state.set_pending_seek(42);
    state.set_pending_seek(43);
    assert_eq!(state.take_pending_seek(), Some(43));
    assert_eq!(state.take_pending_seek(), None);
}

#[test]
fn generations_go_up_and_wrap() {
    let mut state = SharedState::new();
    assert_eq!(state.next_generation(), 1);
    assert_eq!(state.current_generation(), 1);
    state.generation = u64::MAX;
    assert_eq!(state.next_generation(), 0);
}

#[test]
fn track_end_moves_on_or_stops() {
    let mut state = SharedState::new();
    state.set_current_track(1, 10, 60);
    state.set_gapless_next(2, 20, 30);
    let before = format!("{state:?}");
    state.mark_track_ended(10, 7, SEC);
    assert_eq!(format!("{state:?}"), before);
    state.mark_track_ended(11, 0, SEC);
    assert_eq!(format!("{state:?}"), before);
    state.mark_track_ended(10, 0, SEC);
    assert_eq!((state.track_id, state.queue_item_id, state.duration), (2, 20, 30));
    assert!(state.is_playing && state.gapless_ready);
    assert_eq!(state.gapless_next_track_id, 0);
    assert_eq!(state.current_position(SEC), 0);
    state.mark_track_ended(20, 0, 9 * SEC);
    assert!(!state.is_playing && !state.has_loaded_audio && !state.gapless_ready);
    assert_eq!(state.current_position(50 * SEC), 30);
}

#[test]
fn stopping_forgets() {
    let mut state = SharedState::new();
    state.set_stream_quality(44100, 24);
    state.set_current_track(1, 10, 60);
    state.set_gapless_next(2, 20, 30);
    state.reset_playback_tracking(5, 0);
    state.stop_playback_tracking(false);
    assert_eq!(state.track_id, 1);
    assert_eq!(state.position, 0);
    assert_eq!(state.gapless_next_queue_item_id, 0);
    state.stop_playback_tracking(true);
    assert_eq!(state.track_id, 0);
    assert_eq!(state.duration, 0);
    assert_eq!(state.sample_rate, 44100);
}

#[test]
fn playing_a_track() {
    let mut player = ready();
    let action = player.begin_play(
        track(1, 60),
        Some(AudioMetadata {
            sample_rate: 96000,
            channels: 2,
            bit_depth: None,
            duration_secs: Some(60),
        }),
    );
    assert_eq!(
        action,
        PlayerAction::StartPlayer {
            data: vec![1],
            skip_secs: None,
            queue_item_id: 1,
            generation: 1,
            volume: 75,
        }
    );
    assert!(!player.has_player());
    assert_eq!(player.phase(), Phase::PlayStarting);
    assert_eq!(player.apply(PlayerEvent::PlayerStarted(Ok(())), 3 * SEC), PlayerAction::Wait);
    assert!(player.has_player() && player.has_loaded_audio());
    let event = playback_event_at(player.state(), 10 * SEC);
    assert!(event.is_playing && event.gapless_ready);
    assert_eq!(event.position, 7);
    assert_eq!(event.duration, 60);
    assert_eq!(event.sample_rate, Some(96000));
    assert_eq!(event.bit_depth, Some(16));
    assert_eq!(event.volume, 75);
}

#[test]
fn playing_reads_the_file() {
    let mut player = ready();
    let play = player.play_data(wav(12000), 5, 6);
    assert_eq!(player.state().sample_rate, 8000);
    match &play {
        AudioCommand::Play(queued) => assert_eq!(queued.duration_secs, 2),
        _ => panic!("not a play command"),
    }
    let action = command(&mut player, play, 0);
    assert!(matches!(action, PlayerAction::StartPlayer { queue_item_id: 6, .. }));
    assert_eq!(player.state().bit_depth, 16);
    assert_eq!(player.state().track_id, 5);
}

#[test]
fn unknown_files_get_the_usual_quality() {
    let mut player = ready();
    let play = player.play_data(vec![1, 2, 3], 5, 6);
    assert_eq!((player.state().sample_rate, player.state().bit_depth), (48000, 16));
    match play {
        AudioCommand::Play(queued) => assert_eq!(queued.duration_secs, 0),
        _ => panic!("not a play command"),
    }
    match player.play_next(wav(8001), 7, 8) {
        AudioCommand::PlayNext(queued) => {
            assert_eq!(queued.duration_secs, 2);
            assert_eq!((queued.track_id, queued.queue_item_id), (7, 8));
        }
        _ => panic!("not a play-next command"),
    }
    match player.play_next(vec![0], 7, 8) {
        AudioCommand::PlayNext(queued) => assert_eq!(queued.duration_secs, 0),
        _ => panic!("not a play-next command"),
    }
}

#[test]
fn output_is_opened_on_demand() {
    let mut player = AudioPlayer::new(None);
    player.apply(PlayerEvent::OutputOpened { ok: false }, 0);
    assert_eq!(player.begin_play(track(1, 60), None), PlayerAction::OpenOutput { device: None });
    assert_eq!(player.apply(PlayerEvent::OutputOpened { ok: false }, 0), PlayerAction::Wait);
    assert!(!player.has_output());
    assert_eq!(player.begin_play(track(1, 60), None), PlayerAction::OpenOutput { device: None });
    let action = player.apply(PlayerEvent::OutputOpened { ok: true }, 0);
    assert!(matches!(action, PlayerAction::StartPlayer { generation: 2, .. }));
}

#[test]
fn io_errors_are_retried_once() {
    let mut player = ready();
    player.begin_play(track(1, 60), None);
    let failed = PlayerEvent::PlayerStarted(Err("ALSA says I/O error".to_string()));
    assert_eq!(player.apply(failed, 0), PlayerAction::CoolDown(500));
    assert!(player.state().has_stream_error() && !player.has_output());
    assert_eq!(player.apply(PlayerEvent::CooledDown, 0), PlayerAction::OpenOutput { device: None });
    let action = player.apply(PlayerEvent::OutputOpened { ok: true }, 0);
    assert!(matches!(action, PlayerAction::StartPlayer { generation: 1, .. }));
    let again = PlayerEvent::PlayerStarted(Err("I/O error".to_string()));
    assert_eq!(player.apply(again, 0), PlayerAction::Wait);
    assert!(player.state().has_stream_error() && !player.has_player());
}

#[test]
fn io_error_then_success() {
    let mut player = ready();
    player.begin_play(track(1, 60), None);
    player.apply(PlayerEvent::PlayerStarted(Err("(-5)".to_string())), 0);
    player.apply(PlayerEvent::CooledDown, 0);
    player.apply(PlayerEvent::OutputOpened { ok: true }, 0);
    assert_eq!(player.apply(PlayerEvent::PlayerStarted(Ok(())), 2 * SEC), PlayerAction::Wait);
    assert!(!player.state().has_stream_error() && player.has_player());
    assert_eq!(player.state().current_position(5 * SEC), 3);
}

#[test]
fn other_errors_are_final() {
    let mut player = ready();
    player.begin_play(track(1, 60), None);
    let failed = PlayerEvent::PlayerStarted(Err("Decode error: bad".to_string()));
    assert_eq!(player.apply(failed, 0), PlayerAction::Wait);
    assert!(player.state().has_stream_error());
    assert!(player.has_output());
    assert!(recoverable_error("EIO"));
    assert!(recoverable_error("a backend-specific error happened"));
    assert!(recoverable_error("snd_pcm_poll_descriptors"));
    assert!(recoverable_error("Unknown errno 5"));
    assert!(!recoverable_error("io error"));
}

#[test]
fn early_seek_is_applied_when_the_track_starts() {
    let mut player = ready();
    assert_eq!(command(&mut player, AudioCommand::Seek(30), 0), PlayerAction::Wait);
    player.begin_play(track(1, 60), None);
    let action = player.apply(PlayerEvent::PlayerStarted(Ok(())), 0);
    assert!(matches!(
        action,
        PlayerAction::StartPlayer { skip_secs: Some(30), generation: 2, .. }
    ));
    assert!(!player.has_player());
    player.apply(PlayerEvent::PlayerStarted(Ok(())), 0);
    assert!(player.has_player());
    assert_eq!(player.state().current_position(SEC), 31);
}

#[test]
fn seeking_restarts_the_file() {
    let mut player = playing(1, 60);
    let action = command(&mut player, AudioCommand::Seek(20), SEC);
    assert!(matches!(
        action,
        PlayerAction::StartPlayer { skip_secs: Some(20), generation: 2, .. }
    ));
    assert_eq!(player.apply(PlayerEvent::PlayerStarted(Ok(())), SEC), PlayerAction::Wait);
    assert_eq!(player.state().current_position(2 * SEC), 21);
    command(&mut player, AudioCommand::Seek(5), SEC);
    player.apply(PlayerEvent::PlayerStarted(Err("no".to_string())), SEC);
    assert!(!player.has_player());
}

#[test]
fn pausing_and_resuming() {
    let mut player = playing(1, 60);
    assert_eq!(command(&mut player, AudioCommand::Resume, SEC), PlayerAction::Wait);
    assert_eq!(command(&mut player, AudioCommand::Pause, 9 * SEC), PlayerAction::PausePlayer);
    assert_eq!(player.state().current_position(50 * SEC), 9);
    assert_eq!(command(&mut player, AudioCommand::Resume, 60 * SEC), PlayerAction::ResumePlayer);
    assert_eq!(player.state().current_position(61 * SEC), 10);
    let mut idle = ready();
    assert_eq!(command(&mut idle, AudioCommand::Pause, 0), PlayerAction::Wait);
    assert_eq!(command(&mut idle, AudioCommand::Resume, 0), PlayerAction::Wait);
}

#[test]
fn resuming_without_a_player_restarts_the_file() {
    let mut player = ready();
    player.begin_play(track(1, 60), None);
    player.apply(PlayerEvent::PlayerStarted(Err("bad".to_string())), 0);
    let action = command(&mut player, AudioCommand::Resume, 0);
    assert!(matches!(
        action,
        PlayerAction::StartPlayer { skip_secs: Some(0), generation: 2, .. }
    ));
    assert_eq!(player.apply(PlayerEvent::PlayerStarted(Ok(())), 0), PlayerAction::Wait);
    assert!(player.has_player() && player.state().is_playing);
}

#[test]
fn gapless_track_follows() {
    let mut player = playing(1, 60);
    let action = command(&mut player, AudioCommand::PlayNext(track(2, 30)), SEC);
    assert_eq!(
        action,
        PlayerAction::AppendNext { data: vec![2], queue_item_id: 2, generation: 1 }
    );
    player.apply(PlayerEvent::NextAppended { ok: true }, SEC);
    assert_eq!(player.state().gapless_next_track_id, 102);
    let ended = player.note_track_end(1, 1, 60 * SEC);
    assert_eq!(ended, AudioCommand::TrackEnded { queue_item_id: 1, generation: 1 });
    assert_eq!(player.state().track_id, 102);
    command(&mut player, ended, 60 * SEC);
    assert!(player.has_player());
    let ended = player.note_track_end(2, 1, 90 * SEC);
    command(&mut player, ended, 90 * SEC);
    assert!(!player.has_player() && !player.state().is_playing);
    assert_eq!(player.state().current_position(99 * SEC), 30);
}

#[test]
fn gapless_track_may_fail() {
    let mut player = playing(1, 60);
    command(&mut player, AudioCommand::PlayNext(track(2, 30)), SEC);
    player.apply(PlayerEvent::NextAppended { ok: false }, SEC);
    assert_eq!(player.state().gapless_next_track_id, 0);
    let mut idle = ready();
    assert_eq!(command(&mut idle, AudioCommand::PlayNext(track(2, 30)), 0), PlayerAction::Wait);
}

#[test]
fn track_ends_count_once() {
    for next in [0, 8] {
        let mut state = SharedState::new();
        state.set_current_track(1, 2, 30);
        state.reset_playback_tracking(0, 0);
        state.set_gapless_next(next, next, next);
        state.mark_track_ended(2, 0, 30 * SEC);
        let once = format!("{state:?}");
        state.mark_track_ended(2, 0, 40 * SEC);
        assert_eq!(format!("{state:?}"), once);
        assert_eq!(state.track_id, if next == 0 { 1 } else { 8 });
    }
}

#[test]
fn resuming_counts_from_the_pause() {
    let mut state = SharedState::new();
    state.set_current_track(1, 2, 30);
    state.reset_playback_tracking(5, 0);
    state.pause_playback(7 * SEC);
    state.resume_playback(100 * SEC);
    assert_eq!(state.current_position(100 * SEC), 12);
    assert_eq!(state.current_position(109 * SEC), 21);
    assert_eq!(state.current_position(200 * SEC), 30);
}

#[test]
fn stale_track_ends_are_ignored() {
    let mut player = playing(1, 60);
    player.begin_play(track(2, 60), None);
    player.apply(PlayerEvent::PlayerStarted(Ok(())), 0);
    let before = format!("{:?}", player.state());
    let ended = player.note_track_end(1, 1, SEC);
    assert_eq!(format!("{:?}", player.state()), before);
    command(&mut player, ended, SEC);
    assert!(player.has_player());
}

#[test]
fn stopping_drops_everything() {
    let mut player = playing(1, 60);
    assert_eq!(command(&mut player, AudioCommand::Stop, SEC), PlayerAction::Wait);
    assert!(!player.has_player() && player.has_output());
    assert_eq!(player.state().track_id, 0);
    assert_eq!(player.state().generation, 2);
    assert_eq!(command(&mut player, AudioCommand::Resume, SEC), PlayerAction::Wait);
}

#[test]
fn volume_reaches_the_player() {
    let mut player = ready();
    assert_eq!(command(&mut player, AudioCommand::SetVolume(30), 0), PlayerAction::Wait);
    let action = player.begin_play(track(1, 60), None);
    assert!(matches!(action, PlayerAction::StartPlayer { volume: 30, .. }));
    player.apply(PlayerEvent::PlayerStarted(Ok(())), 0);
    assert_eq!(
        command(&mut player, AudioCommand::SetVolume(40), 0),
        PlayerAction::SetPlayerVolume(40)
    );
}

#[test]
fn recovery_goes_on_where_it_was() {
    let mut player = playing(1, 60);
    let recover = player.eio_signal();
    assert_eq!(recover, Some(AudioCommand::RecoverFromEio));
    assert_eq!(player.eio_signal(), None);
    let action = command(&mut player, AudioCommand::RecoverFromEio, 12 * SEC);
    assert_eq!(action, PlayerAction::CoolDown(500));
    assert!(!player.has_output() && !player.state().is_playing);
    assert_eq!(player.apply(PlayerEvent::CooledDown, 13 * SEC), PlayerAction::OpenOutput { device: None });
    let action = player.apply(PlayerEvent::OutputOpened { ok: true }, 13 * SEC);
    assert_eq!(
        action,
        PlayerAction::StartPlayer {
            data: vec![1],
            skip_secs: Some(12),
            queue_item_id: 1,
            generation: 2,
            volume: 75,
        }
    );
    assert_eq!(player.apply(PlayerEvent::PlayerStarted(Ok(())), 14 * SEC), PlayerAction::Wait);
    assert_eq!(player.state().current_position(15 * SEC), 13);
    assert_eq!(player.eio_signal(), Some(AudioCommand::RecoverFromEio));
}

#[test]
fn failed_recovery_can_be_tried_again() {
    let mut player = playing(1, 60);
    player.eio_signal();
    command(&mut player, AudioCommand::RecoverFromEio, SEC);
    player.apply(PlayerEvent::CooledDown, SEC);
    assert_eq!(player.apply(PlayerEvent::OutputOpened { ok: false }, SEC), PlayerAction::Wait);
    assert!(player.state().has_stream_error());
    assert_eq!(player.eio_signal(), Some(AudioCommand::RecoverFromEio));
}

#[test]
fn recovery_without_a_track_only_opens_the_output() {
    let mut player = ready();
    command(&mut player, AudioCommand::RecoverFromEio, SEC);
    player.apply(PlayerEvent::CooledDown, SEC);
    assert_eq!(player.apply(PlayerEvent::OutputOpened { ok: true }, SEC), PlayerAction::Wait);
    assert!(player.has_output() && !player.has_player());
}

#[test]
fn unexpected_outcomes_are_ignored() {
    let mut player = playing(1, 60);
    let before = format!("{:?}", player.state());
    assert_eq!(player.apply(PlayerEvent::CooledDown, 0), PlayerAction::Wait);
    assert_eq!(player.apply(PlayerEvent::NextAppended { ok: true }, 0), PlayerAction::Wait);
    assert_eq!(player.apply(PlayerEvent::PlayerStarted(Ok(())), 0), PlayerAction::Wait);
    assert_eq!(player.apply(PlayerEvent::OutputOpened { ok: false }, 0), PlayerAction::Wait);
    assert_eq!(format!("{:?}", player.state()), before);
    assert!(player.has_output());
}

#[test]
fn the_chosen_device_is_opened() {
    let chosen = PlayerAction::OpenOutput { device: Some("hw:0,0".to_string()) };
    let mut player = AudioPlayer::new(Some("hw:0,0".to_string()));
    assert_eq!(player.open_output(), chosen);
    player.apply(PlayerEvent::OutputOpened { ok: false }, 0);
    assert_eq!(player.begin_play(track(1, 60), None), chosen);
    player.apply(PlayerEvent::OutputOpened { ok: true }, 0);
    player.apply(PlayerEvent::PlayerStarted(Err("EIO".to_string())), 0);
    assert_eq!(player.apply(PlayerEvent::CooledDown, 0), chosen);
    player.apply(PlayerEvent::OutputOpened { ok: true }, 0);
    player.apply(PlayerEvent::PlayerStarted(Ok(())), 0);
    command(&mut player, AudioCommand::RecoverFromEio, SEC);
    assert_eq!(player.apply(PlayerEvent::CooledDown, SEC), chosen);
    assert_eq!(
        AudioPlayer::new(None).open_output(),
        PlayerAction::OpenOutput { device: None }
    );
}

#[test]
fn the_clock_goes_forward() {
    let clock = Clock::start();
    let first = clock.now();
    let second = clock.now();
    assert!(first <= second);
    assert!(second < 20 * SEC);
    assert_eq!(total_nanos(Span { secs: 2, nanos: 5 }), 2_000_000_005);
    assert_eq!(total_nanos(Span { secs: u64::MAX, nanos: 0 }), u64::MAX);
    assert_eq!(secs_between(SEC, 3 * SEC + 1), 2);
    assert_eq!(secs_between(3 * SEC, SEC), 0);
    assert_eq!(millis_between(0, 1_999_999), 1);
}

#[test]
fn events_of_the_moment() {
    let mut player = AudioPlayer::new(None);
    assert_eq!(player.handle(PlayerEvent::OutputOpened { ok: true }), PlayerAction::Wait);
    player.begin_play(track(1, 60), None);
    player.handle(PlayerEvent::PlayerStarted(Ok(())));
    assert!(player.get_playback_event().position < 20);
    let ended = player.track_ended(1, 1);
    assert_eq!(ended, AudioCommand::TrackEnded { queue_item_id: 1, generation: 1 });
    assert_eq!(player.get_playback_event().position, 60);
}

#[test]
fn log_messages_that_tell_of_io_errors() {
    assert!(detects_eio("snd_pcm_poll_descriptors_revents failed"));
    assert!(detects_eio("Unknown errno (-1)"));
    assert!(detects_eio("error (-5) on output stream"));
    assert!(detects_eio("ALSA function returned EIO"));
    assert!(detects_eio("backend-specific trouble, output stream"));
    assert!(!detects_eio("error (-5)"));
    assert!(!detects_eio("EIO"));
    assert!(!detects_eio("backend-specific"));
    assert!(detects_eio("Detected EIO error in log, triggering recovery: ALSA"));
}
