//! The playback state machine.
//!
//! A session is moved forward by observations: at a moment `now`, counted in
//! milliseconds on a clock that never runs backwards, either a track is seen
//! playing or nothing is. The machine decides the next state and whether
//! viewers are told. It never fails.
//!
//! | state   | observation        | next state                         | told        |
//! |---------|--------------------|------------------------------------|-------------|
//! | Stopped | a track            | Playing, anchored at `now`         | the track   |
//! | Playing | the same track     | Playing, metadata refreshed        | nothing     |
//! | Playing | another track      | Playing, anchored at `now`         | the track   |
//! | Playing | nothing, ran out   | Stopped, all cleared               | nothing     |
//! | Playing | nothing, mid-track | Paused at the elapsed position     | track, held |
//! | Paused  | the same track     | Playing, anchored at `now - held`  | the track   |
//! | Paused  | another track      | Playing, anchored at `now`         | the track   |
//! | Paused  | nothing            | unchanged                          | nothing     |
//! | Stopped | nothing            | unchanged                          | nothing     |
//!
//! Two observations are of the same track when their identities are equal,
//! whatever else differs. An observation whose `now_playing` flag is off
//! counts as nothing. A track that ran out ends in silence, and fresh
//! metadata for the track that is playing is taken in without an event.
//!
//! Time is whatever the caller's clock reads. The anchor is kept as a signed
//! number, so that a track resumed at a position greater than the clock's
//! reading is still anchored exactly.

use crate::model::{snapshot_view, NowPlaying, NowPlayingView, PlaybackState};
use crate::text::{parse_u64, parse_u64_spec};
use vstd::prelude::*;

verus! {

/// How close to its nominal end a track must be, in milliseconds, for its
/// disappearance to count as having run out.
pub const GRACE_MS: u64 = 5000;

/// The mathematical content of a session.
pub struct SessionView {
    pub current_track: Option<NowPlayingView>,
    pub playback_state: PlaybackState,
    pub started_at: Option<int>,
    pub frozen_position_ms: int,
}

impl SessionView {
    /// The anchor is present exactly while playing, a track is present
    /// exactly while not stopped, and a stopped session holds no position.
    pub open spec fn wf(self) -> bool {
        &&& self.started_at is Some <==> self.playback_state == PlaybackState::Playing
        &&& self.current_track is Some <==> self.playback_state != PlaybackState::Stopped
        &&& self.playback_state == PlaybackState::Stopped ==> self.frozen_position_ms == 0
        &&& 0 <= self.frozen_position_ms <= u64::MAX
        &&& self.started_at is Some ==> -(u64::MAX as int) <= self.started_at.unwrap()
            <= u64::MAX
    }
}

/// The session a process starts with: stopped, with no track.
pub open spec fn initial_session() -> SessionView {
    SessionView {
        current_track: None,
        playback_state: PlaybackState::Stopped,
        started_at: None,
        frozen_position_ms: 0,
    }
}

/// The length of a track in milliseconds, where its metadata gives one: the
/// `duration` of its rich metadata read as a number, unless that is zero.
pub open spec fn known_duration(np: NowPlayingView) -> Option<u64> {
    match np.track_info {
        Some(info) => match parse_u64_spec(info.duration) {
            Some(d) => if d > 0 {
                Some(d)
            } else {
                None
            },
            None => None,
        },
        None => None,
    }
}

/// An observation shows a track that is playing.
pub open spec fn live(snapshot: Option<NowPlayingView>) -> bool {
    snapshot is Some && snapshot.unwrap().now_playing
}

/// The session holds a track with the identity of `np`.
pub open spec fn same_track(s: SessionView, np: NowPlayingView) -> bool {
    s.current_track is Some && s.current_track.unwrap().id == np.id
}

/// Milliseconds from the anchor to `now`: never negative, and never more than
/// fits in 64 bits.
pub open spec fn elapsed_ms(started_at: int, now: int) -> int {
    if now <= started_at {
        0
    } else if now - started_at >= u64::MAX {
        u64::MAX as int
    } else {
        now - started_at
    }
}

/// A track that vanished after `elapsed` milliseconds has run out: its length
/// is known and lies no more than the grace period ahead.
pub open spec fn ran_out(elapsed: int, duration: Option<u64>) -> bool {
    duration is Some && elapsed + GRACE_MS >= duration.unwrap()
}

/// A session that has just begun to play `np`.
pub open spec fn started_fresh(np: NowPlayingView, now: int) -> SessionView {
    SessionView {
        current_track: Some(np),
        playback_state: PlaybackState::Playing,
        started_at: Some(now),
        frozen_position_ms: 0,
    }
}

/// The event that tells viewers a track is held: the track, marked as not
/// playing.
pub open spec fn held(np: NowPlayingView) -> NowPlayingView {
    NowPlayingView { now_playing: false, ..np }
}

/// The session after one observation.
pub open spec fn step(s: SessionView, snapshot: Option<NowPlayingView>, now: int) -> SessionView {
    if live(snapshot) {
        let np = snapshot.unwrap();
        match s.playback_state {
            PlaybackState::Playing => if same_track(s, np) {
                SessionView { current_track: Some(np), ..s }
            } else {
                started_fresh(np, now)
            },
            PlaybackState::Paused => if same_track(s, np) {
                SessionView {
                    current_track: Some(np),
                    playback_state: PlaybackState::Playing,
                    started_at: Some(now - s.frozen_position_ms),
                    frozen_position_ms: s.frozen_position_ms,
                }
            } else {
                started_fresh(np, now)
            },
            PlaybackState::Stopped => started_fresh(np, now),
        }
    } else {
        match s.playback_state {
            PlaybackState::Playing => {
                let elapsed = elapsed_ms(s.started_at.unwrap(), now);
                if ran_out(elapsed, known_duration(s.current_track.unwrap())) {
                    initial_session()
                } else {
                    SessionView {
                        current_track: s.current_track,
                        playback_state: PlaybackState::Paused,
                        started_at: None,
                        frozen_position_ms: elapsed,
                    }
                }
            },
            _ => s,
        }
    }
}

/// The event that one observation makes public, if any.
pub open spec fn published(s: SessionView, snapshot: Option<NowPlayingView>, now: int) -> Option<
    NowPlayingView,
> {
    if live(snapshot) {
        if s.playback_state == PlaybackState::Playing && same_track(s, snapshot.unwrap()) {
            None
        } else {
            snapshot
        }
    } else {
        if s.playback_state == PlaybackState::Playing && !ran_out(
            elapsed_ms(s.started_at.unwrap(), now),
            known_duration(s.current_track.unwrap()),
        ) {
            Some(held(s.current_track.unwrap()))
        } else {
            None
        }
    }
}

/// The position before it is held to the track's length: time since the
/// anchor while playing, the held position otherwise.
pub open spec fn raw_position(s: SessionView, now: int) -> int {
    if s.playback_state == PlaybackState::Playing && s.started_at is Some {
        elapsed_ms(s.started_at.unwrap(), now)
    } else {
        s.frozen_position_ms
    }
}

/// The length of the session's track, where there is a track and its length
/// is known.
pub open spec fn session_duration(s: SessionView) -> Option<u64> {
    match s.current_track {
        Some(np) => known_duration(np),
        None => None,
    }
}

/// The estimated playback position at `now`, never beyond the end of a track
/// whose length is known.
pub open spec fn position_at(s: SessionView, now: int) -> int {
    let raw = raw_position(s, now);
    match session_duration(s) {
        Some(d) => if raw > d {
            d as int
        } else {
            raw
        },
        None => raw,
    }
}

/// The progress message sent to one viewer about once a second.
#[derive(Debug, Clone, Copy, PartialEq, Eq, Structural)]
pub struct Heartbeat {
    pub playing: bool,
    pub position_ms: u64,
    pub duration_ms: u64,
}

/// The progress message for a session at `now`; a length that is not known
/// is written as zero.
pub open spec fn heartbeat_at(s: SessionView, now: int) -> Heartbeat {
    Heartbeat {
        playing: s.playback_state == PlaybackState::Playing,
        position_ms: position_at(s, now) as u64,
        duration_ms: match session_duration(s) {
            Some(d) => d,
            None => 0,
        },
    }
}

/// The length of a track in milliseconds, where its metadata gives one.
pub fn duration_ms(np: &NowPlaying) -> (d: Option<u64>)
    ensures
        d == known_duration(np@),
{
    match &np.track_info {
        Some(info) => match parse_u64(info.duration.as_str()) {
            Some(d) => if d > 0 {
                Some(d)
            } else {
                None
            },
            None => None,
        },
        None => None,
    }
}

/// Milliseconds from the anchor to `now_ms`.
pub fn elapsed_since(started_at: i128, now_ms: u64) -> (elapsed: u64)
    ensures
        elapsed == elapsed_ms(started_at as int, now_ms as int),
{
    let now: i128 = now_ms as i128;
    if now <= started_at {
        0
    } else if started_at < -(u64::MAX as i128) {
        u64::MAX
    } else {
        let passed: i128 = now - started_at;
        if passed >= u64::MAX as i128 {
            u64::MAX
        } else {
            passed as u64
        }
    }
}

/// Whether a track that vanished after `elapsed` milliseconds has run out.
pub fn has_run_out(elapsed: u64, duration: Option<u64>) -> (yes: bool)
    ensures
        yes == ran_out(elapsed as int, duration),
{
    match duration {
        Some(d) => elapsed as u128 + GRACE_MS as u128 >= d as u128,
        None => false,
    }
}

/// The one playback state of the process together with what is derived from
/// it: the track, the anchor of the position estimate, and the held position.
pub struct SessionState {
    current_track: Option<NowPlaying>,
    playback_state: PlaybackState,
    started_at: Option<i128>,
    frozen_position_ms: u64,
}

impl View for SessionState {
    type V = SessionView;

    closed spec fn view(&self) -> SessionView {
        SessionView {
            current_track: snapshot_view(self.current_track),
            playback_state: self.playback_state,
            started_at: match self.started_at {
                Some(t) => Some(t as int),
                None => None,
            },
            frozen_position_ms: self.frozen_position_ms as int,
        }
    }
}

impl SessionState {
    /// Every session that exists is well formed.
    #[verifier::type_invariant]
    pub open spec fn inv(self) -> bool {
        self@.wf()
    }

    /// The session of a process that has just started.
    pub fn new() -> (s: Self)
        ensures
            s@ == initial_session(),
    {
        SessionState {
            current_track: None,
            playback_state: PlaybackState::Stopped,
            started_at: None,
            frozen_position_ms: 0,
        }
    }

    /// Whether the session plays, holds a track, or is stopped.
    pub fn playback_state(&self) -> (state: PlaybackState)
        ensures
            state == self@.playback_state,
    {
        self.playback_state
    }

    /// The track of the session, as it was last observed.
    pub fn current_track(&self) -> (track: Option<&NowPlaying>)
        ensures
            track is Some <==> self@.current_track is Some,
            track is Some ==> Some(track.unwrap()@) == self@.current_track,
    {
        self.current_track.as_ref()
    }

    /// The anchor of the position estimate, in milliseconds on the caller's
    /// clock; it lies before the clock's origin where a track was resumed
    /// at a position greater than the clock's reading.
    pub fn started_at(&self) -> (anchor: Option<i128>)
        ensures
            anchor is Some <==> self@.started_at is Some,
            anchor is Some ==> anchor.unwrap() == self@.started_at.unwrap(),
    {
        self.started_at
    }

    /// The position at which the track was held; it counts only while the
    /// session does not play.
    pub fn frozen_position_ms(&self) -> (position: u64)
        ensures
            position == self@.frozen_position_ms,
    {
        self.frozen_position_ms
    }

    /// Whether the session holds a track with the identity of `np`.
    pub fn holds(&self, np: &NowPlaying) -> (same: bool)
        ensures
            same == same_track(self@, np@),
    {
        match &self.current_track {
            Some(current) => current.id == np.id,
            None => false,
        }
    }

    /// Moves the session forward by one observation made at `now_ms` and
    /// returns the event to publish, if any.
    pub fn apply(&mut self, snapshot: Option<NowPlaying>, now_ms: u64) -> (event: Option<
        NowPlaying,
    >)
        ensures
            final(self)@ == step(old(self)@, snapshot_view(snapshot), now_ms as int),
            snapshot_view(event) == published(old(self)@, snapshot_view(snapshot), now_ms as int),
            final(self)@.wf(),
    {
        proof {
            use_type_invariant(&*self);
        }
        let seen = match snapshot {
            Some(np) => if np.now_playing {
                Some(np)
            } else {
                None
            },
            None => None,
        };
        match seen {
            Some(np) => {
                let same = self.holds(&np);
                match self.playback_state {
                    PlaybackState::Playing => {
                        if same {
                            self.current_track = Some(np);
                            None
                        } else {
                            let event = np.clone();
                            self.begin(np, now_ms);
                            Some(event)
                        }
                    },
                    PlaybackState::Paused => {
                        let event = np.clone();
                        if same {
                            let held_at = self.frozen_position_ms;
                            *self = SessionState {
                                current_track: Some(np),
                                playback_state: PlaybackState::Playing,
                                started_at: Some(now_ms as i128 - held_at as i128),
                                frozen_position_ms: held_at,
                            };
                        } else {
                            self.begin(np, now_ms);
                        }
                        Some(event)
                    },
                    PlaybackState::Stopped => {
                        let event = np.clone();
                        self.begin(np, now_ms);
                        Some(event)
                    },
                }
            },
            None => {
                match (self.playback_state, self.started_at, &self.current_track) {
                    (PlaybackState::Playing, Some(anchor), Some(current)) => {
                        let elapsed = elapsed_since(anchor, now_ms);
                        if has_run_out(elapsed, duration_ms(current)) {
                            *self = SessionState::new();
                            None
                        } else {
                            let kept = current.clone();
                            let mut event = current.clone();
                            event.now_playing = false;
                            *self = SessionState {
                                current_track: Some(kept),
                                playback_state: PlaybackState::Paused,
                                started_at: None,
                                frozen_position_ms: elapsed,
                            };
                            Some(event)
                        }
                    },
                    _ => None,
                }
            },
        }
    }

    fn begin(&mut self, np: NowPlaying, now_ms: u64)
        ensures
            final(self)@ == started_fresh(np@, now_ms as int),
    {
        *self = SessionState {
            current_track: Some(np),
            playback_state: PlaybackState::Playing,
            started_at: Some(now_ms as i128),
            frozen_position_ms: 0,
        };
    }

    /// The length of the session's track, where it is known.
    pub fn duration_ms(&self) -> (d: Option<u64>)
        ensures
            d == session_duration(self@),
    {
        match &self.current_track {
            Some(np) => duration_ms(np),
            None => None,
        }
    }

    /// The estimated playback position at `now_ms`.
    pub fn position_ms(&self, now_ms: u64) -> (position: u64)
        ensures
            position == position_at(self@, now_ms as int),
    {
        proof {
            use_type_invariant(self);
        }
        let raw = match (self.playback_state, self.started_at) {
            (PlaybackState::Playing, Some(anchor)) => elapsed_since(anchor, now_ms),
            _ => self.frozen_position_ms,
        };
        match self.duration_ms() {
            Some(d) => if raw > d {
                d
            } else {
                raw
            },
            None => raw,
        }
    }

    /// The progress message for one viewer at `now_ms`.
    pub fn heartbeat(&self, now_ms: u64) -> (beat: Heartbeat)
        ensures
            beat == heartbeat_at(self@, now_ms as int),
    {
        let duration = match self.duration_ms() {
            Some(d) => d,
            None => 0,
        };
        Heartbeat {
            playing: matches!(self.playback_state, PlaybackState::Playing),
            position_ms: self.position_ms(now_ms),
            duration_ms: duration,
        }
    }

    /// What a viewer is shown at once on connecting: the current track while
    /// one is playing, nothing otherwise.
    pub fn initial_event(&self) -> (event: Option<NowPlaying>)
        ensures
            snapshot_view(event) == (if self@.playback_state == PlaybackState::Playing {
                self@.current_track
            } else {
                None
            }),
    {
        proof {
            use_type_invariant(self);
        }
        match (self.playback_state, &self.current_track) {
            (PlaybackState::Playing, Some(np)) => Some(np.clone()),
            _ => None,
        }
    }
}

/// Well-formedness is kept by every observation.
pub proof fn law_step_keeps_wf(s: SessionView, snapshot: Option<NowPlayingView>, now: int)
    requires
        s.wf(),
        0 <= now <= u64::MAX,
    ensures
        step(s, snapshot, now).wf(),
{
}

/// Of two observations in a row that show the same track, the second is
/// never made public, whatever the session was before and whenever they
/// arrive; nor does it move the anchor.
pub proof fn law_no_duplicate_publish(
    s: SessionView,
    first: NowPlayingView,
    second: NowPlayingView,
    t1: int,
    t2: int,
)
    requires
        s.wf(),
        first.now_playing,
        second.now_playing,
        first.id == second.id,
    ensures
        published(step(s, Some(first), t1), Some(second), t2) is None,
        step(step(s, Some(first), t1), Some(second), t2).started_at == step(
            s,
            Some(first),
            t1,
        ).started_at,
        step(step(s, Some(first), t1), Some(second), t2).playback_state == PlaybackState::Playing,
{
}

/// A held track that is seen again resumes where it was held: the session
/// plays, anchored so that the time since the anchor is the held position at
/// the very moment of resuming. The estimated position is then the held
/// position too, unless the new metadata gives a shorter length.
pub proof fn law_resume_anchoring(s: SessionView, np: NowPlayingView, now: int)
    requires
        s.wf(),
        s.playback_state == PlaybackState::Paused,
        np.now_playing,
        same_track(s, np),
    ensures
        step(s, Some(np), now).playback_state == PlaybackState::Playing,
        step(s, Some(np), now).current_track == Some(np),
        step(s, Some(np), now).started_at == Some(now - s.frozen_position_ms),
        raw_position(step(s, Some(np), now), now) == s.frozen_position_ms,
        known_duration(np) is None || s.frozen_position_ms <= known_duration(np).unwrap()
            ==> position_at(step(s, Some(np), now), now) == s.frozen_position_ms,
        published(s, Some(np), now) == Some(np),
{
}

/// After resuming, the time since the anchor grows with the clock, as long
/// as it fits in 64 bits.
pub proof fn law_resumed_position_advances(
    s: SessionView,
    np: NowPlayingView,
    now: int,
    later: int,
)
    requires
        s.wf(),
        s.playback_state == PlaybackState::Paused,
        np.now_playing,
        same_track(s, np),
        now <= later,
        s.frozen_position_ms + (later - now) <= u64::MAX,
    ensures
        raw_position(step(s, Some(np), now), later) == s.frozen_position_ms + (later - now),
{
}

/// When the playing track vanishes, the session stops exactly if the track's
/// length is known and the time played plus the grace period reaches it;
/// otherwise the track is held at the time played and viewers are told so.
pub proof fn law_vanish_boundary(s: SessionView, snapshot: Option<NowPlayingView>, now: int)
    requires
        s.wf(),
        s.playback_state == PlaybackState::Playing,
        !live(snapshot),
    ensures
        ({
            let elapsed = elapsed_ms(s.started_at.unwrap(), now);
            let length = known_duration(s.current_track.unwrap());
            let next = step(s, snapshot, now);
            if length is Some && elapsed + GRACE_MS >= length.unwrap() {
                &&& next == initial_session()
                &&& published(s, snapshot, now) is None
            } else {
                &&& next.playback_state == PlaybackState::Paused
                &&& next.frozen_position_ms == elapsed
                &&& next.current_track == s.current_track
                &&& next.started_at is None
                &&& published(s, snapshot, now) == Some(held(s.current_track.unwrap()))
            }
        }),
{
}

/// A different track seen while another is held takes over: it plays from
/// its start, anchored at the moment it was seen, whatever position the held
/// track had.
pub proof fn law_new_track_supersedes_pause(s: SessionView, np: NowPlayingView, now: int)
    requires
        s.wf(),
        s.playback_state == PlaybackState::Paused,
        np.now_playing,
        !same_track(s, np),
    ensures
        step(s, Some(np), now) == started_fresh(np, now),
        raw_position(step(s, Some(np), now), now) == 0,
        published(s, Some(np), now) == Some(np),
{
}

/// With no track playing, seeing nothing changes nothing.
pub proof fn law_idle_stays_idle(s: SessionView, snapshot: Option<NowPlayingView>, now: int)
    requires
        s.playback_state != PlaybackState::Playing,
        !live(snapshot),
    ensures
        step(s, snapshot, now) == s,
        published(s, snapshot, now) is None,
{
}

/// The estimated position fits in 64 bits and never lies beyond the end of a
/// track whose length is known.
pub proof fn law_position_bounded(s: SessionView, now: int)
    requires
        s.wf(),
    ensures
        0 <= position_at(s, now) <= u64::MAX,
        session_duration(s) is Some ==> position_at(s, now) <= session_duration(s).unwrap(),
{
}

/// An event tells the state it leads to: it is marked as playing exactly if
/// the session plays afterwards, and it carries the identity of the
/// session's track.
pub proof fn law_event_tells_the_state(s: SessionView, snapshot: Option<NowPlayingView>, now: int)
    requires
        s.wf(),
        published(s, snapshot, now) is Some,
    ensures
        published(s, snapshot, now).unwrap().now_playing == (step(s, snapshot, now).playback_state
            == PlaybackState::Playing),
        same_track(step(s, snapshot, now), published(s, snapshot, now).unwrap()),
{
}

/// Whenever the playback state changes to playing or to paused, viewers are
/// told; only a track that ran out ends in silence.
pub proof fn law_changes_are_told(s: SessionView, snapshot: Option<NowPlayingView>, now: int)
    requires
        s.wf(),
        step(s, snapshot, now).playback_state != s.playback_state,
        step(s, snapshot, now).playback_state != PlaybackState::Stopped,
    ensures
        published(s, snapshot, now) is Some,
{
}

/// The machine moves only along these edges: a stopped session can start to
/// play, a playing one can go on, pause or stop, and a paused one can resume
/// or stay. It never pauses out of nothing, and a held track never runs out.
pub proof fn law_allowed_transitions(s: SessionView, snapshot: Option<NowPlayingView>, now: int)
    requires
        s.wf(),
    ensures
        s.playback_state == PlaybackState::Stopped ==> step(s, snapshot, now).playback_state
            != PlaybackState::Paused,
        s.playback_state == PlaybackState::Paused ==> step(s, snapshot, now).playback_state
            != PlaybackState::Stopped,
        live(snapshot) ==> step(s, snapshot, now).playback_state == PlaybackState::Playing,
        !live(snapshot) ==> step(s, snapshot, now).playback_state != PlaybackState::Playing,
{
}

/// The estimated position never runs backwards while the clock runs forwards.
pub proof fn law_position_is_monotonic(s: SessionView, earlier: int, later: int)
    requires
        s.wf(),
        earlier <= later,
    ensures
        position_at(s, earlier) <= position_at(s, later),
{
}

} // verus!
