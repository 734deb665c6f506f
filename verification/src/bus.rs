//! The channel that fans events out to viewers.
//!
//! One writer publishes; every viewer holds a receiver of its own. The
//! channel is bounded: a viewer that falls behind loses the oldest events
//! first, and a viewer that subscribes late sees only what is published
//! afterwards. Publishing never fails, also when nobody listens.
//!
//! What a receiver will yield depends on what is published later and on how
//! fast its viewer reads, so no contract speaks of it. The contracts say
//! which channel a receiver belongs to, how large the channel is, and which
//! events were handed to it.

use crate::model::{NowPlaying, NowPlayingView};
use tokio::sync::broadcast::{channel, Receiver, Sender};
use vstd::prelude::*;

verus! {

/// The sending half of a broadcast channel; nothing inside it is visible to
/// proofs.
#[verifier::external_type_specification]
#[verifier::external_body]
#[verifier::reject_recursive_types(T)]
pub struct ExSender<T>(Sender<T>);

/// The receiving half of a broadcast channel; nothing inside it is visible to
/// proofs.
#[verifier::external_type_specification]
#[verifier::external_body]
#[verifier::reject_recursive_types(T)]
pub struct ExReceiver<T>(Receiver<T>);

/// How many events a bus keeps for a viewer that has fallen behind.
pub const BUS_CAPACITY: usize = 32;

/// One, or twice a power of two.
pub open spec fn is_power_of_two(n: nat) -> bool
    decreases n,
{
    n == 1 || (n > 1 && n % 2 == 0 && is_power_of_two(n / 2))
}

/// How many events the channel behind a sender keeps for a receiver that has
/// fallen behind: the size of its ring of slots, fixed when it was opened.
pub uninterp spec fn ring_size(tx: Sender<NowPlaying>) -> nat;

/// The receiver was handed out by this sender or by a copy of it: both are
/// ends of one channel. This does not say what the receiver will yield.
pub uninterp spec fn draws_from(rx: Receiver<NowPlaying>, tx: Sender<NowPlaying>) -> bool;

/// Calls `tokio::sync::broadcast::channel` and keeps the sending half; the
/// receiver that comes with it is let go. The call panics for a capacity of
/// zero or above half of `usize::MAX`, so those are left out. The contract
/// claims what the channel's source shows of its size: the capacity asked
/// for, rounded up to the next power of two.
#[verifier::external_body]
fn open_channel(capacity: usize) -> (tx: Sender<NowPlaying>)
    requires
        0 < capacity <= usize::MAX / 2,
    ensures
        is_power_of_two(ring_size(tx)),
        capacity <= ring_size(tx) < 2 * capacity,
{
    channel(capacity).0
}

/// Calls `Sender::subscribe`, which makes a receiver on the sender's own
/// channel, for what is sent from now on. The contract claims only that the
/// receiver belongs to that channel, not what it will yield. The call gives
/// up only when a quarter of `usize::MAX` receivers are counted at once.
#[verifier::external_body]
fn subscribe_to(tx: &Sender<NowPlaying>) -> (rx: Receiver<NowPlaying>)
    ensures
        draws_from(rx, *tx),
{
    tx.subscribe()
}

/// Between a power of two and its double lies no other power of two.
pub proof fn lemma_power_of_two_between(n: nat, p: nat)
    requires
        is_power_of_two(n),
        is_power_of_two(p),
        p <= n < 2 * p,
    ensures
        n == p,
    decreases p,
{
    if p > 1 {
        lemma_power_of_two_between(n / 2, p / 2);
    }
}

/// Calls `Sender::send` and lets go of its result, which says only how many
/// receivers existed at that moment. Nothing is claimed of the delivery.
#[verifier::external_body]
fn send_to(tx: &Sender<NowPlaying>, np: NowPlaying) {
    let _ = tx.send(np);
}

/// The publishing end of the channel. Beside the channel it keeps, for proofs
/// only, the run of events that were handed to it.
pub struct NowPlayingBus {
    tx: Sender<NowPlaying>,
    log: Ghost<Seq<NowPlayingView>>,
}

impl NowPlayingBus {
    /// The events handed to the channel through this bus, oldest first.
    pub closed spec fn sent(&self) -> Seq<NowPlayingView> {
        self.log@
    }

    /// The sending end of the channel that this bus publishes on. It is the
    /// same for as long as the bus lives.
    pub closed spec fn channel(&self) -> Sender<NowPlaying> {
        self.tx
    }

    /// How many events the bus keeps for a viewer that has fallen behind.
    pub open spec fn capacity(&self) -> nat {
        ring_size(self.channel())
    }

    /// The receiver is one that this bus handed out: it draws from the
    /// channel that this bus publishes on.
    pub open spec fn feeds(&self, rx: Receiver<NowPlaying>) -> bool {
        draws_from(rx, self.channel())
    }

    /// A bus through which nothing has been published yet, with room for
    /// `BUS_CAPACITY` events.
    pub fn new() -> (bus: Self)
        ensures
            bus.sent() == Seq::<NowPlayingView>::empty(),
            bus.capacity() == BUS_CAPACITY,
    {
        let tx = open_channel(BUS_CAPACITY);
        proof {
            assert(is_power_of_two(32)) by {
                reveal_with_fuel(is_power_of_two, 6);
            }
            lemma_power_of_two_between(ring_size(tx), 32);
        }
        NowPlayingBus { tx, log: Ghost(Seq::empty()) }
    }

    /// A receiver for one viewer, on the channel of this bus. It sees the
    /// events published after this call, in the order of publication.
    pub fn subscribe(&self) -> (rx: Receiver<NowPlaying>)
        ensures
            self.feeds(rx),
    {
        subscribe_to(&self.tx)
    }

    /// Hands `np` to the channel. Nothing is reported back: with no viewer
    /// subscribed the event is dropped. The channel stays the one it was.
    pub fn publish(&mut self, np: NowPlaying)
        ensures
            final(self).sent() == old(self).sent().push(np@),
            final(self).channel() == old(self).channel(),
    {
        let ghost view = np@;
        send_to(&self.tx, np);
        self.log = Ghost(self.log@.push(view));
    }
}

} // verus!
