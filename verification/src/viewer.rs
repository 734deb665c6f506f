//! What one viewer's connection remembers and decides: the last event it was
//! sent, so that no event is sent twice in a row, and what follows each wait
//! on the bus.

use crate::model::{snapshot_view, NowPlaying, NowPlayingView};
use vstd::prelude::*;

verus! {

/// The events that reach a viewer out of a run of events offered to it,
/// where `last` is what it was sent before: an event is passed on unless it
/// is equal in value to the one offered just before it.
pub open spec fn delivered(last: Option<NowPlayingView>, events: Seq<NowPlayingView>) -> Seq<
    NowPlayingView,
>
    decreases events.len(),
{
    if events.len() == 0 {
        Seq::empty()
    } else {
        let before = delivered(last, events.drop_last());
        if remembered(last, events.drop_last()) == Some(events.last()) {
            before
        } else {
            before.push(events.last())
        }
    }
}

/// What a viewer remembers after a run of events was offered to it.
pub open spec fn remembered(last: Option<NowPlayingView>, events: Seq<NowPlayingView>) -> Option<
    NowPlayingView,
> {
    if events.len() == 0 {
        last
    } else {
        Some(events.last())
    }
}

/// What waiting on the bus gave a viewer's connection.
#[derive(Debug)]
pub enum Received {
    /// The next event.
    Event(NowPlaying),
    /// The viewer fell behind and events were lost to it.
    Lagged,
    /// The bus is gone; nothing will come any more.
    Closed,
}

/// What a viewer's connection does about what it received.
#[derive(Debug, Clone, Copy, PartialEq, Eq, Structural)]
pub enum Delivery {
    /// Send the event to the viewer.
    Send,
    /// Send nothing and go on waiting.
    Skip,
    /// End the delivery.
    Stop,
}

/// The delivery state of one viewer.
pub struct Viewer {
    last_sent: Option<NowPlaying>,
}

impl Viewer {
    /// The event that was offered last, if any.
    pub closed spec fn last(&self) -> Option<NowPlayingView> {
        snapshot_view(self.last_sent)
    }

    /// A viewer that has not been sent anything.
    pub fn new() -> (viewer: Self)
        ensures
            viewer.last() is None,
    {
        Viewer { last_sent: None }
    }

    /// Offers an event to the viewer and says whether to send it: it is sent
    /// unless it is equal in value to the event offered before.
    pub fn offer(&mut self, event: &NowPlaying) -> (send: bool)
        ensures
            send == (old(self).last() != Some(event@)),
            final(self).last() == Some(event@),
            delivered(old(self).last(), seq![event@]) == (if send {
                seq![event@]
            } else {
                Seq::empty()
            }),
    {
        let repeat = match &self.last_sent {
            Some(previous) => previous.same_value(event),
            None => false,
        };
        proof {
            let one = seq![event@];
            assert(delivered(self.last(), one.drop_last()) =~= Seq::<NowPlayingView>::empty());
        }
        if !repeat {
            self.last_sent = Some(event.clone());
        }
        !repeat
    }

    /// Decides what follows one wait on the bus. An event is sent unless it
    /// is equal in value to the event before it. A viewer that fell behind
    /// goes on with what comes next: what it missed is not made up for.
    /// When the bus is gone the delivery ends.
    pub fn on_received(&mut self, received: &Received) -> (delivery: Delivery)
        ensures
            match *received {
                Received::Event(event) => {
                    &&& final(self).last() == Some(event@)
                    &&& delivery == (if old(self).last() != Some(event@) {
                        Delivery::Send
                    } else {
                        Delivery::Skip
                    })
                },
                Received::Lagged => {
                    &&& final(self).last() == old(self).last()
                    &&& delivery == Delivery::Skip
                },
                Received::Closed => {
                    &&& final(self).last() == old(self).last()
                    &&& delivery == Delivery::Stop
                },
            },
    {
        match received {
            Received::Event(event) => {
                if self.offer(event) {
                    Delivery::Send
                } else {
                    Delivery::Skip
                }
            },
            Received::Lagged => Delivery::Skip,
            Received::Closed => Delivery::Stop,
        }
    }
}

/// A viewer is never sent the same event twice in a row: neighbours among
/// the delivered events differ in value, and the first of them differs from
/// what the viewer was sent before.
pub proof fn law_delivery_has_no_repeats(last: Option<NowPlayingView>, events: Seq<NowPlayingView>)
    ensures
        forall|i: int|
            #![trigger delivered(last, events)[i]]
            0 < i < delivered(last, events).len() ==> delivered(last, events)[i] != delivered(
                last,
                events,
            )[i - 1],
        delivered(last, events).len() > 0 ==> last != Some(delivered(last, events)[0]),
        delivered(last, events).len() > 0 ==> delivered(last, events).last() == events.last(),
        delivered(last, events).len() == 0 && events.len() > 0 ==> last == Some(events.last()),
    decreases events.len(),
{
    if events.len() > 0 {
        law_delivery_has_no_repeats(last, events.drop_last());
    }
}

} // verus!
