use nowplaying::bus::NowPlayingBus;
use nowplaying::model::{Artist, NowPlaying, PlaybackState, Track};
use nowplaying::poller::{run_cycle, run_poller, CacheAction, Poll, Tick};
use nowplaying::session::SessionState;
use tokio::sync::broadcast::error::TryRecvError;

fn song(id: &str, duration: Option<&str>) -> NowPlaying {
    NowPlaying {
        id: id.to_string(),
        artist: "Artist".to_string(),
        track: format!("Track {}", id),
        album: None,
        album_art: Some("https://example.org/cover.png".to_string()),
        now_playing: true,
        track_info: duration.map(|d| Track {
            name: format!("Track {}", id),
            url: String::new(),
            duration: d.to_string(),
            artist: Artist { name: "Artist".to_string(), url: String::new() },
            album: None,
        }),
        timestamp: Some(1_700_000_000),
    }
}

fn seen(np: Option<NowPlaying>, now_ms: u64) -> Tick {
    Tick { poll: Poll::Fetched(np), now_ms }
}

fn scenario() -> Vec<Tick> {
    vec![
        seen(None, 0),
        seen(Some(song("T1", Some("200000"))), 2_000),
        seen(Some(song("T1", None)), 4_000),
        seen(None, 6_000),
        seen(None, 8_000),
    ]
}

#[test]
fn end_to_end_scenario_publishes_playing_then_paused() {
    let mut session = SessionState::new();
    let mut bus = NowPlayingBus::new();
    let mut rx = bus.subscribe();
    let events = run_poller(&mut session, &mut bus, &scenario());

    assert_eq!(events.len(), 2);
    assert!(events[0].same_value(&song("T1", Some("200000"))));
    assert!(events[0].now_playing);
    let mut held = song("T1", None);
    held.now_playing = false;
    assert!(events[1].same_value(&held));
    assert_eq!(events[1].id, "T1");

    assert_eq!(session.playback_state(), PlaybackState::Paused);
    assert_eq!(session.frozen_position_ms(), 4_000);
    assert_eq!(session.position_ms(8_000), 4_000);

    assert!(rx.try_recv().unwrap().same_value(&events[0]));
    assert!(rx.try_recv().unwrap().same_value(&events[1]));
    assert!(matches!(rx.try_recv(), Err(TryRecvError::Empty)));
}

#[test]
fn end_to_end_scenario_cycle_by_cycle() {
    let mut session = SessionState::new();
    let mut bus = NowPlayingBus::new();
    let mut told = Vec::new();
    for tick in scenario() {
        let now = tick.now_ms;
        let done = run_cycle(&mut session, &mut bus, tick.poll, now);
        told.push((now, done.event.map(|e| e.now_playing), done.cache));
    }
    assert_eq!(
        told,
        vec![
            (0, None, CacheAction::Keep),
            (2_000, Some(true), CacheAction::Store),
            (4_000, None, CacheAction::Keep),
            (6_000, Some(false), CacheAction::Store),
            (8_000, None, CacheAction::Keep),
        ]
    );
}

#[test]
fn the_same_snapshot_twice_publishes_once() {
    for before in 0..3 {
        let mut session = SessionState::new();
        let mut bus = NowPlayingBus::new();
        if before >= 1 {
            run_cycle(&mut session, &mut bus, Poll::Fetched(Some(song("T0", None))), 0);
        }
        if before >= 2 {
            run_cycle(&mut session, &mut bus, Poll::Fetched(None), 1_000);
        }
        let twice = vec![seen(Some(song("T1", None)), 2_000), seen(Some(song("T1", None)), 4_000)];
        let events = run_poller(&mut session, &mut bus, &twice);
        assert_eq!(events.len(), 1, "starting from case {}", before);
        assert_eq!(session.started_at(), Some(2_000));
    }
}

#[test]
fn a_playing_track_seen_again_publishes_nothing() {
    let mut session = SessionState::new();
    let mut bus = NowPlayingBus::new();
    run_cycle(&mut session, &mut bus, Poll::Fetched(Some(song("T1", None))), 0);
    let twice = vec![seen(Some(song("T1", None)), 2_000), seen(Some(song("T1", None)), 4_000)];
    assert!(run_poller(&mut session, &mut bus, &twice).is_empty());
}

#[test]
fn replaying_gives_the_same_events() {
    let ticks = vec![
        seen(Some(song("A", Some("10000"))), 0),
        Tick { poll: Poll::Failed, now_ms: 2_000 },
        seen(None, 4_000),
        seen(Some(song("A", Some("10000"))), 6_000),
        seen(Some(song("B", None)), 8_000),
        seen(None, 9_000),
        seen(Some(song("C", Some("3000"))), 10_000),
        seen(None, 12_000),
        seen(None, 14_000),
    ];
    let mut first_session = SessionState::new();
    let mut first_bus = NowPlayingBus::new();
    let first = run_poller(&mut first_session, &mut first_bus, &ticks);
    let mut second_session = SessionState::new();
    let mut second_bus = NowPlayingBus::new();
    let second = run_poller(&mut second_session, &mut second_bus, &ticks);

    assert_eq!(first.len(), second.len());
    for (a, b) in first.iter().zip(second.iter()) {
        assert!(a.same_value(b));
    }
    let shape: Vec<(String, bool)> = first.iter().map(|e| (e.id.clone(), e.now_playing)).collect();
    assert_eq!(
        shape,
        vec![
            ("A".to_string(), true),
            ("A".to_string(), false),
            ("A".to_string(), true),
            ("B".to_string(), true),
            ("B".to_string(), false),
            ("C".to_string(), true),
        ]
    );
    assert_eq!(first_session.playback_state(), PlaybackState::Stopped);
    assert_eq!(second_session.playback_state(), PlaybackState::Stopped);
}

#[test]
fn a_run_in_two_parts_is_the_run_in_one() {
    let mut whole_session = SessionState::new();
    let mut whole_bus = NowPlayingBus::new();
    let whole = run_poller(&mut whole_session, &mut whole_bus, &scenario());

    let mut session = SessionState::new();
    let mut bus = NowPlayingBus::new();
    let mut ticks = scenario();
    let rest = ticks.split_off(3);
    let mut parts = run_poller(&mut session, &mut bus, &ticks);
    parts.extend(run_poller(&mut session, &mut bus, &rest));

    assert_eq!(whole.len(), parts.len());
    for (a, b) in whole.iter().zip(parts.iter()) {
        assert!(a.same_value(b));
    }
    assert_eq!(session.frozen_position_ms(), whole_session.frozen_position_ms());
}

#[test]
fn a_failed_fetch_changes_nothing() {
    let mut session = SessionState::new();
    let mut bus = NowPlayingBus::new();
    run_cycle(&mut session, &mut bus, Poll::Fetched(Some(song("T1", Some("200000")))), 1_000);
    let done = run_cycle(&mut session, &mut bus, Poll::Failed, 300_000);
    assert!(done.event.is_none());
    assert_eq!(done.cache, CacheAction::Keep);
    assert_eq!(session.playback_state(), PlaybackState::Playing);
    assert_eq!(session.started_at(), Some(1_000));
    assert!(session.current_track().unwrap().same_value(&song("T1", Some("200000"))));
}

#[test]
fn a_track_that_ran_out_clears_the_mirror() {
    let mut session = SessionState::new();
    let mut bus = NowPlayingBus::new();
    let started = run_cycle(&mut session, &mut bus, Poll::Fetched(Some(song("T1", Some("200000")))), 0);
    assert_eq!(started.cache, CacheAction::Store);
    let ended = run_cycle(&mut session, &mut bus, Poll::Fetched(None), 199_000);
    assert!(ended.event.is_none());
    assert_eq!(ended.cache, CacheAction::Clear);
    assert_eq!(session.playback_state(), PlaybackState::Stopped);
    let idle = run_cycle(&mut session, &mut bus, Poll::Fetched(None), 201_000);
    assert_eq!(idle.cache, CacheAction::Keep);
}

#[test]
fn an_empty_run_does_nothing() {
    let mut session = SessionState::new();
    let mut bus = NowPlayingBus::new();
    assert!(run_poller(&mut session, &mut bus, &Vec::new()).is_empty());
    assert_eq!(session.playback_state(), PlaybackState::Stopped);
}

#[test]
fn polls_copy_by_value() {
    let poll = Poll::Fetched(Some(song("T1", Some("1"))));
    match (poll.clone(), poll) {
        (Poll::Fetched(Some(a)), Poll::Fetched(Some(b))) => assert!(a.same_value(&b)),
        _ => panic!("the copy is of another shape"),
    }
    assert!(matches!(Poll::Failed.clone(), Poll::Failed));
    assert!(matches!(Poll::Fetched(None).clone(), Poll::Fetched(None)));
}

#[test]
fn the_mirror_follows_the_session() {
    let ticks = vec![
        seen(None, 0),
        seen(Some(song("A", Some("10000"))), 1_000),
        seen(Some(song("A", None)), 2_000),
        Tick { poll: Poll::Failed, now_ms: 3_000 },
        seen(None, 4_000),
        seen(None, 5_000),
        seen(Some(song("A", Some("10000"))), 6_000),
        seen(Some(song("B", Some("10000"))), 7_000),
        seen(None, 13_000),
        seen(None, 14_000),
        seen(Some(song("C", None)), 15_000),
    ];
    let mut session = SessionState::new();
    let mut bus = NowPlayingBus::new();
    let mut mirror: Option<NowPlaying> = None;
    let mut states = Vec::new();
    for tick in ticks {
        let now = tick.now_ms;
        let done = run_cycle(&mut session, &mut bus, tick.poll, now);
        match done.cache {
            CacheAction::Keep => {}
            CacheAction::Store => mirror = done.event.clone(),
            CacheAction::Clear => mirror = None,
        }
        match session.playback_state() {
            PlaybackState::Stopped => assert!(mirror.is_none(), "at {}", now),
            PlaybackState::Playing => {
                let m = mirror.as_ref().expect("a mirrored event");
                assert!(m.now_playing, "at {}", now);
                assert_eq!(m.id, session.current_track().unwrap().id, "at {}", now);
            }
            PlaybackState::Paused => {
                let m = mirror.as_ref().expect("a mirrored event");
                let mut held = session.current_track().unwrap().clone();
                held.now_playing = false;
                assert!(m.same_value(&held), "at {}", now);
            }
        }
        states.push(session.playback_state());
    }
    let (stopped, playing, paused) =
        (PlaybackState::Stopped, PlaybackState::Playing, PlaybackState::Paused);
    assert_eq!(
        states,
        vec![
            stopped, playing, playing, playing, paused, paused, playing, playing, stopped,
            stopped, playing
        ]
    );
}

#[test]
fn events_tell_the_state_they_lead_to() {
    let ticks = vec![
        seen(Some(song("A", Some("10000"))), 0),
        seen(None, 1_000),
        seen(Some(song("A", Some("10000"))), 2_000),
        seen(Some(song("B", Some("10000"))), 3_000),
        seen(None, 9_000),
        seen(Some(song("B", Some("10000"))), 10_000),
    ];
    let mut session = SessionState::new();
    let mut bus = NowPlayingBus::new();
    let mut told = 0;
    for tick in ticks {
        let now = tick.now_ms;
        let before = session.playback_state();
        let done = run_cycle(&mut session, &mut bus, tick.poll, now);
        let after = session.playback_state();
        if let Some(event) = &done.event {
            told += 1;
            assert_eq!(event.now_playing, after == PlaybackState::Playing);
            assert_eq!(event.id, session.current_track().unwrap().id);
        } else if before != after {
            assert_eq!(after, PlaybackState::Stopped);
        }
    }
    assert_eq!(told, 5);
}
