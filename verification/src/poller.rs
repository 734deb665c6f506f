//! One cycle of polling, and runs of cycles.
//!
//! A cycle takes the result of one fetch and the time at which it arrived.
//! A fetch that failed leaves the session untouched: only a fetch that
//! succeeded and showed nothing counts as the track having vanished. What a
//! cycle makes public goes onto the bus, and the cycle says what to do with
//! the mirror of the current event kept outside the process.

use crate::bus::NowPlayingBus;
use crate::model::{snapshot_view, NowPlaying, NowPlayingView, PlaybackState};
use crate::session::{
    held, initial_session, published, same_track, step, SessionState, SessionView,
};
use vstd::prelude::*;

verus! {

/// The result of one fetch.
#[derive(Debug)]
pub enum Poll {
    /// The fetch succeeded and showed this track, or none.
    Fetched(Option<NowPlaying>),
    /// The fetch failed; nothing is known.
    Failed,
}

/// The view of a [`Poll`].
pub enum PollView {
    Fetched(Option<NowPlayingView>),
    Failed,
}

impl View for Poll {
    type V = PollView;

    open spec fn view(&self) -> PollView {
        match self {
            Poll::Fetched(snapshot) => PollView::Fetched(snapshot_view(*snapshot)),
            Poll::Failed => PollView::Failed,
        }
    }
}

impl Clone for Poll {
    fn clone(&self) -> (out: Self)
        ensures
            out@ == self@,
    {
        match self {
            Poll::Fetched(Some(np)) => Poll::Fetched(Some(np.clone())),
            Poll::Fetched(None) => Poll::Fetched(None),
            Poll::Failed => Poll::Failed,
        }
    }
}

/// The input of one cycle: what the fetch gave, and when.
#[derive(Debug)]
pub struct Tick {
    pub poll: Poll,
    pub now_ms: u64,
}

/// The view of a [`Tick`].
pub struct TickView {
    pub poll: PollView,
    pub now: int,
}

impl View for Tick {
    type V = TickView;

    open spec fn view(&self) -> TickView {
        TickView { poll: self.poll@, now: self.now_ms as int }
    }
}

/// What a cycle asks of the mirror kept outside the process.
#[derive(Debug, Clone, Copy, PartialEq, Eq, Structural)]
pub enum CacheAction {
    /// Leave the mirror as it is.
    Keep,
    /// Write the event of this cycle to the mirror.
    Store,
    /// Remove the mirror: nothing is playing.
    Clear,
}

/// What one cycle did.
#[derive(Debug)]
pub struct Cycle {
    /// The event that was published, if any.
    pub event: Option<NowPlaying>,
    pub cache: CacheAction,
}

/// The session after one cycle.
pub open spec fn after_poll(s: SessionView, poll: PollView, now: int) -> SessionView {
    match poll {
        PollView::Fetched(snapshot) => step(s, snapshot, now),
        PollView::Failed => s,
    }
}

/// The event that one cycle publishes, if any.
pub open spec fn event_of_poll(s: SessionView, poll: PollView, now: int) -> Option<NowPlayingView> {
    match poll {
        PollView::Fetched(snapshot) => published(s, snapshot, now),
        PollView::Failed => None,
    }
}

/// What one cycle asks of the mirror: an event is stored, a track that ran
/// out clears it, and anything else leaves it alone.
pub open spec fn cache_of_poll(s: SessionView, poll: PollView, now: int) -> CacheAction {
    if event_of_poll(s, poll, now) is Some {
        CacheAction::Store
    } else if s.playback_state == PlaybackState::Playing && after_poll(s, poll, now).playback_state
        == PlaybackState::Stopped {
        CacheAction::Clear
    } else {
        CacheAction::Keep
    }
}

/// An optional event as a run of zero or one events.
pub open spec fn as_run(event: Option<NowPlayingView>) -> Seq<NowPlayingView> {
    match event {
        Some(e) => seq![e],
        None => Seq::empty(),
    }
}

/// The session after a run of cycles.
pub open spec fn state_after(s: SessionView, ticks: Seq<TickView>) -> SessionView
    decreases ticks.len(),
{
    if ticks.len() == 0 {
        s
    } else {
        let t = ticks.last();
        after_poll(state_after(s, ticks.drop_last()), t.poll, t.now)
    }
}

/// The events that a run of cycles publishes, in order.
pub open spec fn events_of(s: SessionView, ticks: Seq<TickView>) -> Seq<NowPlayingView>
    decreases ticks.len(),
{
    if ticks.len() == 0 {
        Seq::empty()
    } else {
        let t = ticks.last();
        events_of(s, ticks.drop_last()) + as_run(
            event_of_poll(state_after(s, ticks.drop_last()), t.poll, t.now),
        )
    }
}

/// The views of a run of ticks.
pub open spec fn tick_views(ticks: Seq<Tick>) -> Seq<TickView> {
    ticks.map_values(|t: Tick| t@)
}

/// The views of a run of events.
pub open spec fn event_views(events: Seq<NowPlaying>) -> Seq<NowPlayingView> {
    events.map_values(|e: NowPlaying| e@)
}

/// Runs one cycle: moves the session forward by what the fetch gave,
/// publishes the resulting event on the bus, and says what to do with the
/// mirror.
pub fn run_cycle(session: &mut SessionState, bus: &mut NowPlayingBus, poll: Poll, now_ms: u64) -> (done:
    Cycle)
    ensures
        final(session)@ == after_poll(old(session)@, poll@, now_ms as int),
        final(session)@.wf(),
        snapshot_view(done.event) == event_of_poll(old(session)@, poll@, now_ms as int),
        done.cache == cache_of_poll(old(session)@, poll@, now_ms as int),
        final(bus).sent() == old(bus).sent() + as_run(
            event_of_poll(old(session)@, poll@, now_ms as int),
        ),
        final(bus).channel() == old(bus).channel(),
{
    proof {
        use_type_invariant(&*session);
    }
    match poll {
        Poll::Failed => {
            Cycle { event: None, cache: CacheAction::Keep }
        },
        Poll::Fetched(snapshot) => {
            let was_playing = matches!(session.playback_state(), PlaybackState::Playing);
            let event = session.apply(snapshot, now_ms);
            match event {
                Some(e) => {
                    bus.publish(e.clone());
                    Cycle { event: Some(e), cache: CacheAction::Store }
                },
                None => {
                    let stopped = matches!(session.playback_state(), PlaybackState::Stopped);
                    let cache = if was_playing && stopped {
                        CacheAction::Clear
                    } else {
                        CacheAction::Keep
                    };
                    Cycle { event: None, cache }
                },
            }
        },
    }
}

/// Runs one cycle for each tick, in order, and returns the events that were
/// published. The events are a function of the session at the start and of
/// the ticks alone.
pub fn run_poller(session: &mut SessionState, bus: &mut NowPlayingBus, ticks: &Vec<Tick>) -> (events:
    Vec<NowPlaying>)
    ensures
        final(session)@ == state_after(old(session)@, tick_views(ticks@)),
        final(session)@.wf(),
        event_views(events@) == events_of(old(session)@, tick_views(ticks@)),
        final(bus).sent() == old(bus).sent() + events_of(old(session)@, tick_views(ticks@)),
        final(bus).channel() == old(bus).channel(),
{
    proof {
        use_type_invariant(&*session);
    }
    let ghost start = session@;
    let ghost sent_before = bus.sent();
    let ghost all = tick_views(ticks@);
    let mut events: Vec<NowPlaying> = Vec::new();
    let mut i: usize = 0;
    while i < ticks.len()
        invariant
            i <= ticks.len(),
            all == tick_views(ticks@),
            session@ == state_after(start, all.take(i as int)),
            session@.wf(),
            event_views(events@) == events_of(start, all.take(i as int)),
            bus.sent() == sent_before + events_of(start, all.take(i as int)),
            bus.channel() == old(bus).channel(),
        decreases ticks.len() - i,
    {
        let tick = &ticks[i];
        let done = run_cycle(session, bus, tick.poll.clone(), tick.now_ms);
        assert(all.take(i + 1).drop_last() =~= all.take(i as int));
        if let Some(e) = done.event {
            events.push(e);
        }
        i += 1;
    }
    assert(all.take(ticks.len() as int) =~= all);
    events
}

/// A fetch that failed changes nothing and publishes nothing.
pub proof fn law_failed_poll_changes_nothing(s: SessionView, now: int)
    ensures
        after_poll(s, PollView::Failed, now) == s,
        event_of_poll(s, PollView::Failed, now) is None,
        cache_of_poll(s, PollView::Failed, now) == CacheAction::Keep,
{
}

/// A run of cycles keeps the session well formed.
pub proof fn law_run_keeps_wf(s: SessionView, ticks: Seq<TickView>)
    requires
        s.wf(),
        forall|i: int| 0 <= i < ticks.len() ==> 0 <= (#[trigger] ticks[i]).now <= u64::MAX,
    ensures
        state_after(s, ticks).wf(),
    decreases ticks.len(),
{
    if ticks.len() > 0 {
        law_run_keeps_wf(s, ticks.drop_last());
    }
}

/// Running two runs of cycles one after the other is running them as one:
/// the second continues from the session the first has left.
pub proof fn law_run_splits(s: SessionView, first: Seq<TickView>, second: Seq<TickView>)
    ensures
        state_after(s, first + second) == state_after(state_after(s, first), second),
        events_of(s, first + second) == events_of(s, first) + events_of(
            state_after(s, first),
            second,
        ),
    decreases second.len(),
{
    if second.len() > 0 {
        let whole = first + second;
        assert(whole.drop_last() =~= first + second.drop_last());
        law_run_splits(s, first, second.drop_last());
        let mid = state_after(s, first);
        let e = as_run(
            event_of_poll(
                state_after(mid, second.drop_last()),
                second.last().poll,
                second.last().now,
            ),
        );
        assert(events_of(s, first) + events_of(mid, second.drop_last()) + e =~= events_of(s, first)
            + (events_of(mid, second.drop_last()) + e));
    }
}

/// Replaying is repeatable: two runs of ticks that are equal in value, fed
/// to two sessions that have just started, publish the same events and leave
/// the same session behind.
pub proof fn law_replay_is_repeatable(first: Seq<Tick>, second: Seq<Tick>)
    requires
        tick_views(first) == tick_views(second),
    ensures
        events_of(initial_session(), tick_views(first)) == events_of(
            initial_session(),
            tick_views(second),
        ),
        state_after(initial_session(), tick_views(first)) == state_after(
            initial_session(),
            tick_views(second),
        ),
{
}

/// Two cycles in a row whose fetches show the same track publish at most one
/// event between them, whatever the session was before.
pub proof fn law_same_track_twice_publishes_once(
    s: SessionView,
    first: NowPlayingView,
    second: NowPlayingView,
    t1: int,
    t2: int,
)
    requires
        s.wf(),
        first.now_playing,
        second.now_playing,
        first.id == second.id,
    ensures
        events_of(
            s,
            seq![
                TickView { poll: PollView::Fetched(Some(first)), now: t1 },
                TickView { poll: PollView::Fetched(Some(second)), now: t2 },
            ],
        ).len() <= 1,
{
    reveal_with_fuel(events_of, 3);
    reveal_with_fuel(state_after, 3);
    crate::session::law_no_duplicate_publish(s, first, second, t1, t2);
}

/// What the mirror holds once the action of a cycle is carried out.
pub open spec fn mirror_after(
    mirror: Option<NowPlayingView>,
    action: CacheAction,
    event: Option<NowPlayingView>,
) -> Option<NowPlayingView> {
    match action {
        CacheAction::Keep => mirror,
        CacheAction::Store => event,
        CacheAction::Clear => None,
    }
}

/// The mirror agrees with the session: it is absent while the session is
/// stopped, holds a playing event of the session's track while it plays, and
/// holds the held event of the session's track while it is paused.
pub open spec fn mirror_agrees(s: SessionView, mirror: Option<NowPlayingView>) -> bool {
    match s.playback_state {
        PlaybackState::Stopped => mirror is None,
        PlaybackState::Playing => mirror is Some && mirror.unwrap().now_playing && same_track(
            s,
            mirror.unwrap(),
        ),
        PlaybackState::Paused => s.current_track is Some && mirror == Some(
            held(s.current_track.unwrap()),
        ),
    }
}

/// The mirror after a run of cycles, each of whose actions is carried out.
pub open spec fn mirror_of_run(
    s: SessionView,
    mirror: Option<NowPlayingView>,
    ticks: Seq<TickView>,
) -> Option<NowPlayingView>
    decreases ticks.len(),
{
    if ticks.len() == 0 {
        mirror
    } else {
        let t = ticks.last();
        let before = state_after(s, ticks.drop_last());
        mirror_after(
            mirror_of_run(s, mirror, ticks.drop_last()),
            cache_of_poll(before, t.poll, t.now),
            event_of_poll(before, t.poll, t.now),
        )
    }
}

/// A mirror that agrees with the session still agrees after a cycle whose
/// action is carried out.
pub proof fn law_mirror_follows_cycle(
    s: SessionView,
    mirror: Option<NowPlayingView>,
    poll: PollView,
    now: int,
)
    requires
        s.wf(),
        mirror_agrees(s, mirror),
    ensures
        mirror_agrees(
            after_poll(s, poll, now),
            mirror_after(mirror, cache_of_poll(s, poll, now), event_of_poll(s, poll, now)),
        ),
{
}

/// From a fresh session and an absent mirror on, the mirror agrees with the
/// session after every run of cycles.
pub proof fn law_mirror_follows_run(ticks: Seq<TickView>)
    requires
        forall|i: int| 0 <= i < ticks.len() ==> 0 <= (#[trigger] ticks[i]).now <= u64::MAX,
    ensures
        mirror_agrees(
            state_after(initial_session(), ticks),
            mirror_of_run(initial_session(), None, ticks),
        ),
    decreases ticks.len(),
{
    if ticks.len() > 0 {
        let head = ticks.drop_last();
        let t = ticks.last();
        law_mirror_follows_run(head);
        law_run_keeps_wf(initial_session(), head);
        law_mirror_follows_cycle(
            state_after(initial_session(), head),
            mirror_of_run(initial_session(), None, head),
            t.poll,
            t.now,
        );
    }
}

} // verus!
