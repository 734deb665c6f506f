use nowplaying::model::{Artist, NowPlaying, PlaybackState, Track};
use nowplaying::session::{
    duration_ms, elapsed_since, has_run_out, Heartbeat, SessionState, GRACE_MS,
};

fn info(duration: &str) -> Track {
    Track {
        name: "Hysteria".to_string(),
        url: "https://example.org/hysteria".to_string(),
        duration: duration.to_string(),
        artist: Artist { name: "Muse".to_string(), url: "https://example.org/muse".to_string() },
        album: None,
    }
}

fn track(id: &str, duration: Option<&str>) -> NowPlaying {
    NowPlaying {
        id: id.to_string(),
        artist: "Muse".to_string(),
        track: format!("song {}", id),
        album: Some("Absolution".to_string()),
        album_art: None,
        now_playing: true,
        track_info: duration.map(info),
        timestamp: None,
    }
}

fn paused_on(id: &str, duration: Option<&str>, started: u64, held: u64) -> SessionState {
    let mut s = SessionState::new();
    assert!(s.apply(Some(track(id, duration)), started).is_some());
    assert!(s.apply(None, started + held).is_some());
    assert_eq!(s.playback_state(), PlaybackState::Paused);
    assert_eq!(s.frozen_position_ms(), held);
    s
}

#[test]
fn a_new_session_is_stopped_and_empty() {
    let s = SessionState::new();
    assert_eq!(s.playback_state(), PlaybackState::Stopped);
    assert!(s.current_track().is_none());
    assert_eq!(s.started_at(), None);
    assert_eq!(s.frozen_position_ms(), 0);
    assert_eq!(s.position_ms(123), 0);
    assert!(s.initial_event().is_none());
}

#[test]
fn a_track_seen_while_stopped_starts_playing() {
    let mut s = SessionState::new();
    let t1 = track("T1", Some("200000"));
    let event = s.apply(Some(t1.clone()), 2000).expect("an event");
    assert!(event.same_value(&t1));
    assert_eq!(s.playback_state(), PlaybackState::Playing);
    assert_eq!(s.started_at(), Some(2000));
    assert_eq!(s.frozen_position_ms(), 0);
    assert!(s.current_track().unwrap().same_value(&t1));
    assert_eq!(s.position_ms(2000), 0);
    assert_eq!(s.position_ms(3500), 1500);
}

#[test]
fn the_same_track_again_refreshes_without_an_event() {
    let mut s = SessionState::new();
    s.apply(Some(track("T1", None)), 2000);
    let mut richer = track("T1", Some("200000"));
    richer.album = Some("Absolution (Remastered)".to_string());
    assert!(s.apply(Some(richer.clone()), 4000).is_none());
    assert_eq!(s.playback_state(), PlaybackState::Playing);
    assert_eq!(s.started_at(), Some(2000));
    assert!(s.current_track().unwrap().same_value(&richer));
    assert_eq!(s.duration_ms(), Some(200000));
}

#[test]
fn another_track_while_playing_restarts_the_anchor() {
    let mut s = SessionState::new();
    s.apply(Some(track("T1", Some("200000"))), 2000);
    let t2 = track("T2", Some("100000"));
    let event = s.apply(Some(t2.clone()), 50_000).expect("an event");
    assert!(event.same_value(&t2));
    assert_eq!(s.playback_state(), PlaybackState::Playing);
    assert_eq!(s.started_at(), Some(50_000));
    assert_eq!(s.frozen_position_ms(), 0);
    assert_eq!(s.position_ms(50_000), 0);
}

#[test]
fn vanishing_within_the_grace_period_stops() {
    let mut s = SessionState::new();
    s.apply(Some(track("T1", Some("200000"))), 1000);
    assert!(s.apply(None, 1000 + 195_500).is_none());
    assert_eq!(s.playback_state(), PlaybackState::Stopped);
    assert!(s.current_track().is_none());
    assert_eq!(s.started_at(), None);
    assert_eq!(s.frozen_position_ms(), 0);
    assert_eq!(s.position_ms(1000 + 195_500), 0);
}

#[test]
fn vanishing_in_mid_track_pauses() {
    let mut s = SessionState::new();
    let t1 = track("T1", Some("200000"));
    s.apply(Some(t1.clone()), 1000);
    let event = s.apply(None, 1000 + 150_000).expect("an event");
    assert_eq!(s.playback_state(), PlaybackState::Paused);
    assert_eq!(s.frozen_position_ms(), 150_000);
    assert_eq!(s.started_at(), None);
    assert!(s.current_track().unwrap().same_value(&t1));
    let mut held = t1.clone();
    held.now_playing = false;
    assert!(event.same_value(&held));
    assert!(!event.now_playing);
}

#[test]
fn the_boundary_between_stopping_and_pausing_is_exact() {
    let mut at_edge = SessionState::new();
    at_edge.apply(Some(track("T1", Some("200000"))), 0);
    assert!(at_edge.apply(None, 195_000).is_none());
    assert_eq!(at_edge.playback_state(), PlaybackState::Stopped);

    let mut just_before = SessionState::new();
    just_before.apply(Some(track("T1", Some("200000"))), 0);
    assert!(just_before.apply(None, 194_999).is_some());
    assert_eq!(just_before.playback_state(), PlaybackState::Paused);
    assert_eq!(just_before.frozen_position_ms(), 194_999);

    let mut long_after = SessionState::new();
    long_after.apply(Some(track("T1", Some("200000"))), 0);
    assert!(long_after.apply(None, 900_000).is_none());
    assert_eq!(long_after.playback_state(), PlaybackState::Stopped);
}

#[test]
fn a_track_of_unknown_length_never_runs_out() {
    for duration in [None, Some("0"), Some(""), Some("soon"), Some("-5")] {
        let mut s = SessionState::new();
        s.apply(Some(track("T1", duration)), 0);
        assert!(s.apply(None, 10_000_000).is_some(), "for {:?}", duration);
        assert_eq!(s.playback_state(), PlaybackState::Paused);
        assert_eq!(s.frozen_position_ms(), 10_000_000);
        assert_eq!(s.duration_ms(), None);
    }
}

#[test]
fn resuming_anchors_at_the_held_position() {
    let mut s = paused_on("T1", Some("200000"), 10_000, 30_000);
    let again = track("T1", Some("200000"));
    let now = 10_000 + 30_000 + 4_000;
    let event = s.apply(Some(again.clone()), now).expect("an event");
    assert!(event.same_value(&again));
    assert_eq!(s.playback_state(), PlaybackState::Playing);
    assert_eq!(s.started_at(), Some(14_000));
    assert_eq!(s.position_ms(now), 30_000);
    assert_eq!(s.position_ms(now + 1_000), 31_000);
}

#[test]
fn resuming_works_when_the_clock_reads_less_than_the_position() {
    let mut s = paused_on("T1", None, 100_000, 30_000);
    s.apply(Some(track("T1", None)), 1_000);
    assert_eq!(s.playback_state(), PlaybackState::Playing);
    assert_eq!(s.started_at(), Some(-29_000));
    assert_eq!(s.position_ms(1_000), 30_000);
    assert_eq!(s.position_ms(2_500), 31_500);
}

#[test]
fn a_new_track_takes_over_from_a_held_one() {
    let mut s = paused_on("A", Some("200000"), 0, 30_000);
    let b = track("B", Some("180000"));
    let event = s.apply(Some(b.clone()), 60_000).expect("an event");
    assert!(event.same_value(&b));
    assert_eq!(s.playback_state(), PlaybackState::Playing);
    assert_eq!(s.started_at(), Some(60_000));
    assert_eq!(s.frozen_position_ms(), 0);
    assert_eq!(s.position_ms(60_000), 0);
    assert!(s.current_track().unwrap().same_value(&b));
}

#[test]
fn nothing_seen_while_paused_changes_nothing() {
    let mut s = paused_on("T1", Some("200000"), 2_000, 4_000);
    assert!(s.apply(None, 8_000).is_none());
    assert!(s.apply(None, 900_000).is_none());
    assert_eq!(s.playback_state(), PlaybackState::Paused);
    assert_eq!(s.frozen_position_ms(), 4_000);
    assert_eq!(s.position_ms(900_000), 4_000);
}

#[test]
fn nothing_seen_while_stopped_changes_nothing() {
    let mut s = SessionState::new();
    assert!(s.apply(None, 0).is_none());
    assert!(s.apply(None, 5_000).is_none());
    assert_eq!(s.playback_state(), PlaybackState::Stopped);
    assert!(s.current_track().is_none());
}

#[test]
fn a_track_that_is_not_playing_counts_as_nothing() {
    let mut silent = track("T1", Some("200000"));
    silent.now_playing = false;
    let mut s = SessionState::new();
    assert!(s.apply(Some(silent.clone()), 1_000).is_none());
    assert_eq!(s.playback_state(), PlaybackState::Stopped);

    s.apply(Some(track("T1", Some("200000"))), 2_000);
    let event = s.apply(Some(silent), 12_000).expect("a held event");
    assert!(!event.now_playing);
    assert_eq!(s.playback_state(), PlaybackState::Paused);
    assert_eq!(s.frozen_position_ms(), 10_000);
}

#[test]
fn tracks_are_the_same_by_identity_alone() {
    let mut s = SessionState::new();
    s.apply(Some(track("T1", None)), 0);
    let mut other_words = track("T1", Some("1000"));
    other_words.artist = "MUSE".to_string();
    other_words.track = "HYSTERIA".to_string();
    assert!(s.holds(&other_words));
    assert!(!s.holds(&track("T2", None)));
    assert!(!SessionState::new().holds(&track("T1", None)));
}

#[test]
fn the_position_never_passes_a_known_length() {
    let mut s = SessionState::new();
    s.apply(Some(track("T1", Some("200000"))), 0);
    assert_eq!(s.position_ms(199_999), 199_999);
    assert_eq!(s.position_ms(200_000), 200_000);
    assert_eq!(s.position_ms(200_001), 200_000);
    assert_eq!(s.position_ms(u64::MAX), 200_000);
}

#[test]
fn the_position_is_free_where_the_length_is_unknown() {
    let mut s = SessionState::new();
    s.apply(Some(track("T1", None)), 1_000);
    assert_eq!(s.position_ms(0), 0);
    assert_eq!(s.position_ms(1_000), 0);
    assert_eq!(s.position_ms(8_000_000), 7_999_000);
    assert_eq!(s.position_ms(u64::MAX), u64::MAX - 1_000);
}

#[test]
fn heartbeats_follow_the_session() {
    let mut s = SessionState::new();
    assert_eq!(s.heartbeat(500), Heartbeat { playing: false, position_ms: 0, duration_ms: 0 });
    s.apply(Some(track("T1", Some("200000"))), 2_000);
    assert_eq!(
        s.heartbeat(3_000),
        Heartbeat { playing: true, position_ms: 1_000, duration_ms: 200_000 }
    );
    assert_eq!(
        s.heartbeat(500_000),
        Heartbeat { playing: true, position_ms: 200_000, duration_ms: 200_000 }
    );
    s.apply(None, 6_000);
    assert_eq!(
        s.heartbeat(60_000),
        Heartbeat { playing: false, position_ms: 4_000, duration_ms: 200_000 }
    );
}

#[test]
fn heartbeats_write_an_unknown_length_as_zero() {
    let mut s = SessionState::new();
    s.apply(Some(track("T1", None)), 0);
    assert_eq!(s.heartbeat(7_000), Heartbeat { playing: true, position_ms: 7_000, duration_ms: 0 });
}

#[test]
fn a_viewer_is_shown_the_track_only_while_it_plays() {
    let mut s = SessionState::new();
    assert!(s.initial_event().is_none());
    let t1 = track("T1", Some("200000"));
    s.apply(Some(t1.clone()), 0);
    assert!(s.initial_event().unwrap().same_value(&t1));
    s.apply(None, 10_000);
    assert!(s.initial_event().is_none());
}

#[test]
fn elapsed_time_is_clamped_at_both_ends() {
    assert_eq!(elapsed_since(2_000, 6_000), 4_000);
    assert_eq!(elapsed_since(2_000, 2_000), 0);
    assert_eq!(elapsed_since(2_000, 1_000), 0);
    assert_eq!(elapsed_since(-29_000, 1_000), 30_000);
    assert_eq!(elapsed_since(0, u64::MAX), u64::MAX);
    assert_eq!(elapsed_since(-1, u64::MAX), u64::MAX);
    assert_eq!(elapsed_since(-(u64::MAX as i128), u64::MAX), u64::MAX);
    assert_eq!(elapsed_since(1, u64::MAX), u64::MAX - 1);
    assert_eq!(elapsed_since(u64::MAX as i128, 0), 0);
}

#[test]
fn running_out_counts_the_grace_period() {
    assert_eq!(GRACE_MS, 5_000);
    assert!(has_run_out(195_500, Some(200_000)));
    assert!(has_run_out(195_000, Some(200_000)));
    assert!(!has_run_out(194_999, Some(200_000)));
    assert!(!has_run_out(150_000, Some(200_000)));
    assert!(has_run_out(0, Some(5_000)));
    assert!(has_run_out(0, Some(1)));
    assert!(!has_run_out(0, Some(5_001)));
    assert!(!has_run_out(u64::MAX, None));
    assert!(has_run_out(u64::MAX, Some(u64::MAX)));
    assert!(has_run_out(u64::MAX - 5_000, Some(u64::MAX)));
    assert!(!has_run_out(u64::MAX - 5_001, Some(u64::MAX)));
}

#[test]
fn the_length_comes_from_the_rich_metadata() {
    assert_eq!(duration_ms(&track("T1", Some("200000"))), Some(200_000));
    assert_eq!(duration_ms(&track("T1", Some("+1"))), Some(1));
    assert_eq!(duration_ms(&track("T1", Some("0"))), None);
    assert_eq!(duration_ms(&track("T1", Some("3:20"))), None);
    assert_eq!(duration_ms(&track("T1", Some(""))), None);
    assert_eq!(duration_ms(&track("T1", None)), None);
}

#[test]
fn a_huge_held_position_survives_resuming() {
    let mut s = paused_on("T1", None, 0, u64::MAX);
    s.apply(Some(track("T1", None)), 5);
    assert_eq!(s.started_at(), Some(5 - (u64::MAX as i128)));
    assert_eq!(s.position_ms(5), u64::MAX);
    assert_eq!(s.position_ms(1_000), u64::MAX);
}

#[test]
fn the_position_never_runs_backwards() {
    let mut playing = SessionState::new();
    playing.apply(Some(track("T1", Some("200000"))), 50_000);
    let held = paused_on("T1", Some("200000"), 0, 150_000);
    let times = [0, 1, 49_999, 50_000, 50_001, 100_000, 249_999, 250_000, 250_001, u64::MAX];
    for session in [&playing, &held, &SessionState::new()] {
        let mut last = 0;
        for now in times {
            let position = session.position_ms(now);
            assert!(position >= last);
            last = position;
        }
    }
    assert_eq!(held.position_ms(0), 150_000);
    assert_eq!(held.position_ms(u64::MAX), 150_000);
}

#[test]
fn a_held_track_never_runs_out() {
    let mut s = paused_on("T1", Some("200000"), 0, 150_000);
    assert!(s.apply(None, 10_000_000).is_none());
    assert_eq!(s.playback_state(), PlaybackState::Paused);
    assert_eq!(s.frozen_position_ms(), 150_000);
}
