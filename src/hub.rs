use tokio::sync::broadcast::{Receiver, Sender};
use vstd::prelude::*;

use crate::state::{map_view, SensorStateMap, SensorView};

verus! {

#[verifier::external_type_specification]
#[verifier::external_body]
#[verifier::reject_recursive_types(T)]
pub struct ExSender<T>(Sender<T>);

#[verifier::external_type_specification]
#[verifier::external_body]
#[verifier::reject_recursive_types(T)]
pub struct ExReceiver<T>(Receiver<T>);

/// The largest buffer a hub can be made with.
pub const MAX_CAPACITY: usize = usize::MAX / 2;

/// Relies on tokio::sync::broadcast::Sender::new: a channel with no receiver
/// yet; it panics on a capacity of zero or above half of `usize::MAX`.
#[verifier::external_body]
fn open_channel(capacity: usize) -> (r: Sender<SensorStateMap>)
    requires
        0 < capacity <= MAX_CAPACITY,
{
    Sender::new(capacity)
}

/// Relies on tokio::sync::broadcast::Sender::send: with no receiver it hands
/// the value back (`None` here), else it queues the value for each receiver
/// and returns how many there are, at least one.
#[verifier::external_body]
fn send(tx: &Sender<SensorStateMap>, snapshot: SensorStateMap) -> (r: Option<usize>)
    ensures
        r matches Some(n) ==> n > 0,
{
    tx.send(snapshot).ok()
}

/// Relies on tokio::sync::broadcast::Sender::subscribe: a receiver of the
/// values sent after this call.
#[verifier::external_body]
fn subscribe(tx: &Sender<SensorStateMap>) -> (r: Receiver<SensorStateMap>) {
    tx.subscribe()
}

/// What a subscription yields when asked for its next snapshot.
pub enum Delivery {
    /// The next snapshot, in publish order.
    Snapshot(SensorStateMap),
    /// Nothing published since the last delivery.
    Empty,
    /// The subscriber fell behind and this many snapshots were dropped.
    Lagged(u64),
    /// The hub is gone: nothing more will come.
    Closed,
}

/// Relies on tokio::sync::broadcast::Receiver::try_recv: the next value
/// without waiting, or why there is none; each error variant maps to one of
/// `Delivery`.
#[verifier::external_body]
fn try_recv(rx: &mut Receiver<SensorStateMap>) -> (r: Delivery) {
    match rx.try_recv() {
        Ok(snapshot) => Delivery::Snapshot(snapshot),
        Err(tokio::sync::broadcast::error::TryRecvError::Empty) => Delivery::Empty,
        Err(tokio::sync::broadcast::error::TryRecvError::Lagged(n)) => Delivery::Lagged(n),
        Err(tokio::sync::broadcast::error::TryRecvError::Closed) => Delivery::Closed,
    }
}

/// A fan-out channel of store snapshots: one publish reaches every current
/// subscriber; a subscriber sees only what is published after it joined.
/// Each subscriber has a bounded buffer; one that falls behind loses its
/// oldest snapshots and is told so.
pub struct BroadcastHub {
    tx: Sender<SensorStateMap>,
    sent: Ghost<Seq<Map<u64, SensorView>>>,
    bound: Ghost<nat>,
}

/// One subscriber's handle on a hub.
pub struct Subscription {
    rx: Receiver<SensorStateMap>,
}

impl BroadcastHub {
    /// Every snapshot handed to the channel so far, oldest first.
    pub closed spec fn published(&self) -> Seq<Map<u64, SensorView>> {
        self.sent@
    }

    /// The buffer size the hub was made with.
    pub closed spec fn capacity(&self) -> nat {
        self.bound@
    }

    /// A hub whose subscribers each buffer at least `capacity` snapshots.
    pub fn new(capacity: usize) -> (r: BroadcastHub)
        requires
            0 < capacity <= MAX_CAPACITY,
        ensures
            r.published() == Seq::<Map<u64, SensorView>>::empty(),
            r.capacity() == capacity,
    {
        BroadcastHub {
            tx: open_channel(capacity),
            sent: Ghost(Seq::empty()),
            bound: Ghost(capacity as nat),
        }
    }

    /// Hands `snapshot` to every current subscriber without blocking, and
    /// returns how many there were; with none it is dropped and 0 returned.
    pub fn publish(&mut self, snapshot: SensorStateMap) -> (reached: usize)
        ensures
            final(self).published() == old(self).published().push(map_view(snapshot@)),
            final(self).capacity() == old(self).capacity(),
    {
        self.sent = Ghost(self.sent@.push(map_view(snapshot@)));
        match send(&self.tx, snapshot) {
            Some(n) => n,
            None => 0,
        }
    }

    /// A new subscriber, which sees only later publishes.
    pub fn subscribe(&self) -> (r: Subscription) {
        Subscription { rx: subscribe(&self.tx) }
    }
}

impl Subscription {
    /// The next delivery, without waiting.
    pub fn try_next(&mut self) -> (r: Delivery) {
        try_recv(&mut self.rx)
    }

    /// The underlying receiver, for a caller that waits on it.
    pub fn into_receiver(self) -> (r: Receiver<SensorStateMap>) {
        self.rx
    }
}

} // verus!
