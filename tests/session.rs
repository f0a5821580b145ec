use music_player::metadata::{ContainerKind, MetadataSnapshot};
use music_player::session::{ErrorKind, LoadReport, PlaybackSession, SessionState, SinkCommand};

fn track(kind: ContainerKind, total_ms: Option<u64>, title: &str) -> MetadataSnapshot {
    MetadataSnapshot::new(kind, Some(320), total_ms, Some(title.to_string()), None, None)
}

#[test]
fn new_session_is_empty() {
    let mut s = PlaybackSession::new();
    assert_eq!(s.state(), SessionState::Empty);
    assert_eq!(s.elapsed(), 0);
    assert!(s.progress_fraction().is_zero());
    assert_eq!(s.toggle_play_pause(), None);
    assert_eq!(s.time_label(), "00:00 / 00:00");
}

#[test]
fn load_succeeds_for_every_container_with_zero_progress() {
    let kinds = [
        ContainerKind::Aac,
        ContainerKind::Aiff,
        ContainerKind::Ape,
        ContainerKind::Flac,
        ContainerKind::Mp3,
        ContainerKind::Mp4,
        ContainerKind::Mpc,
        ContainerKind::Opus,
        ContainerKind::Ogg,
        ContainerKind::Spx,
        ContainerKind::Wav,
        ContainerKind::Wv,
    ];
    let mut s = PlaybackSession::new();
    for kind in kinds {
        assert_eq!(s.load("a".to_string(), LoadReport::Decoded(track(kind, Some(60_000), "t"))), Ok(()));
        assert!(s.progress_fraction().is_zero());
        assert_eq!(s.state(), SessionState::Paused);
        assert_eq!(s.metadata.as_ref().unwrap().container_kind, kind);
    }
}

#[test]
fn unknown_duration_progress_stays_zero() {
    let mut s = PlaybackSession::new();
    s.load("live.mp3".to_string(), LoadReport::Decoded(track(ContainerKind::Mp3, None, "t"))).unwrap();
    assert_eq!(s.toggle_play_pause(), Some(SinkCommand::Play));
    s.record_position(30_000);
    assert_eq!(s.elapsed(), 30_000);
    assert!(s.progress_fraction().is_zero());
    assert_eq!(s.time_label(), "00:30 / 00:00");
}

#[test]
fn toggle_twice_restores_playing_state() {
    let mut s = PlaybackSession::new();
    s.load("a.flac".to_string(), LoadReport::Decoded(track(ContainerKind::Flac, Some(1_000), "t"))).unwrap();
    assert!(!s.is_playing);
    assert_eq!(s.toggle_play_pause(), Some(SinkCommand::Play));
    assert!(s.is_playing);
    assert_eq!(s.toggle_play_pause(), Some(SinkCommand::Pause));
    assert!(!s.is_playing);
}

#[test]
fn toggle_without_file_does_nothing() {
    let mut s = PlaybackSession::new();
    assert_eq!(s.toggle_play_pause(), None);
    assert_eq!(s.toggle_play_pause(), None);
    assert!(!s.is_playing);
    assert_eq!(s.state(), SessionState::Empty);
}

#[test]
fn load_while_playing_replaces_sink() {
    let mut s = PlaybackSession::new();
    s.load("a.flac".to_string(), LoadReport::Decoded(track(ContainerKind::Flac, Some(100_000), "A"))).unwrap();
    s.toggle_play_pause();
    s.record_position(10_000);
    let old_id = s.sink.unwrap().id;
    assert_eq!(s.load("bad.mp3".to_string(), LoadReport::DecodeFailed), Err(ErrorKind::DecodeUnsupported));
    let new_sink = s.sink.unwrap();
    assert_ne!(new_sink.id, old_id);
    assert!(new_sink.paused);
    assert_eq!(new_sink.position_ms, 0);
    assert!(!s.is_playing);
}

#[test]
fn elapsed_never_goes_back_while_playing() {
    let mut s = PlaybackSession::new();
    s.load("a.flac".to_string(), LoadReport::Decoded(track(ContainerKind::Flac, Some(100_000), "A"))).unwrap();
    s.toggle_play_pause();
    s.record_position(5_000);
    let first = s.elapsed();
    s.record_position(4_000);
    let second = s.elapsed();
    assert!(second >= first);
    s.record_position(7_500);
    assert_eq!(s.elapsed(), 7_500);
}

#[test]
fn position_frozen_while_paused() {
    let mut s = PlaybackSession::new();
    s.load("a.flac".to_string(), LoadReport::Decoded(track(ContainerKind::Flac, Some(100_000), "A"))).unwrap();
    s.toggle_play_pause();
    s.record_position(5_000);
    s.toggle_play_pause();
    s.record_position(9_000);
    assert_eq!(s.elapsed(), 5_000);
}

#[test]
fn flac_half_way_scenario() {
    let mut s = PlaybackSession::new();
    s.load("track.flac".to_string(), LoadReport::Decoded(track(ContainerKind::Flac, Some(180_000), "T"))).unwrap();
    assert!(s.progress_fraction().is_zero());
    assert_eq!(s.toggle_play_pause(), Some(SinkCommand::Play));
    s.record_position(90_000);
    let p = s.progress_fraction();
    let fraction = p.numer as f64 / p.denom as f64;
    assert!((fraction - 0.5).abs() < 1e-6);
    assert_eq!(s.time_label(), "01:30 / 03:00");
}

#[test]
fn corrupt_file_then_valid_file() {
    let mut s = PlaybackSession::new();
    let r = s.load("corrupt.mp3".to_string(), LoadReport::DecodeFailed);
    assert!(r == Err(ErrorKind::DecodeUnsupported) || r == Err(ErrorKind::FileUnreadable));
    assert_eq!(s.state(), SessionState::Empty);
    assert!(s.current_path.is_none());
    assert!(s.metadata.is_none());
    assert_eq!(s.last_error, Some(ErrorKind::DecodeUnsupported));
    assert_eq!(s.load("good.flac".to_string(), LoadReport::Decoded(track(ContainerKind::Flac, Some(1_000), "g"))), Ok(()));
    assert_eq!(s.state(), SessionState::Paused);
    assert_eq!(s.last_error, None);
    assert_eq!(s.current_path.as_deref(), Some("good.flac"));
}

#[test]
fn second_load_mid_playback_shows_only_new_file() {
    let mut s = PlaybackSession::new();
    s.load("a.flac".to_string(), LoadReport::Decoded(track(ContainerKind::Flac, Some(200_000), "A"))).unwrap();
    s.toggle_play_pause();
    s.record_position(20_000);
    let a_sink = s.sink.unwrap().id;
    s.load("b.mp3".to_string(), LoadReport::Decoded(track(ContainerKind::Mp3, Some(100_000), "B"))).unwrap();
    assert_ne!(s.sink.unwrap().id, a_sink);
    let m = s.metadata.as_ref().unwrap();
    assert_eq!(m.title.as_deref(), Some("B"));
    assert_eq!(m.container_kind, ContainerKind::Mp3);
    assert_eq!(m.total_duration_ms, Some(100_000));
    assert_eq!(s.current_path.as_deref(), Some("b.mp3"));
    assert!(!s.is_playing);
    assert_eq!(s.elapsed(), 0);
}

#[test]
fn each_failure_maps_to_its_error() {
    let cases = [
        (LoadReport::SinkUnavailable, ErrorKind::DeviceUnavailable),
        (LoadReport::ProbeOpenFailed, ErrorKind::FileUnreadable),
        (LoadReport::ProbeReadFailed, ErrorKind::MetadataUnreadable),
        (LoadReport::FileOpenFailed, ErrorKind::FileUnreadable),
        (LoadReport::DecodeFailed, ErrorKind::DecodeUnsupported),
    ];
    for (report, expected) in cases {
        let mut s = PlaybackSession::new();
        s.load("a.flac".to_string(), LoadReport::Decoded(track(ContainerKind::Flac, Some(1_000), "A"))).unwrap();
        assert_eq!(s.load("x".to_string(), report), Err(expected));
        assert_eq!(s.state(), SessionState::Empty);
        assert_eq!(s.last_error, Some(expected));
    }
}

#[test]
fn device_failure_leaves_no_sink() {
    let mut s = PlaybackSession::new();
    s.load("a.flac".to_string(), LoadReport::Decoded(track(ContainerKind::Flac, Some(1_000), "A"))).unwrap();
    assert_eq!(s.load("b.flac".to_string(), LoadReport::SinkUnavailable), Err(ErrorKind::DeviceUnavailable));
    assert!(s.sink.is_none());
    assert_eq!(s.elapsed(), 0);
}
