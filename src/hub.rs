use vstd::prelude::*;
use tokio::sync::broadcast;

verus! {

#[verifier::external_type_specification]
#[verifier::external_body]
#[verifier::reject_recursive_types(T)]
pub struct ExBroadcastSender<T>(broadcast::Sender<T>);

#[verifier::external_type_specification]
#[verifier::external_body]
#[verifier::reject_recursive_types(T)]
pub struct ExBroadcastReceiver<T>(broadcast::Receiver<T>);

#[verifier::external_type_specification]
#[verifier::external_body]
pub struct ExRecvError(broadcast::error::RecvError);

/// Largest backlog a hub can be created with: within half the address
/// range on every target.
pub const MAX_BACKLOG: usize = 0x7fff_ffff;

/// What a subscriber gets when it asks for the next sample.
#[derive(Clone, Debug, PartialEq, Eq)]
pub enum Delivery<T> {
    /// The next sample in publish order.
    Sample(T),
    /// The backlog overflowed and this many samples were dropped; asking
    /// again yields the oldest sample still held.
    Overflowed(u64),
    /// The hub is closed for good.
    Closed,
}

/// Relies on tokio's `broadcast::Sender::new`: a sender with no receivers,
/// whose ring holds at least `capacity` samples. It panics on a capacity of
/// zero or above `usize::MAX / 2`.
#[verifier::external_body]
fn new_sender<T: Clone>(capacity: usize) -> (tx: broadcast::Sender<T>)
    requires
        0 < capacity <= MAX_BACKLOG,
{
    broadcast::Sender::new(capacity)
}

/// Relies on tokio's `broadcast::Sender::send`: with no receiver the value
/// comes back in the error; otherwise it returns the number of receivers,
/// which is not zero.
#[verifier::external_body]
fn send_to_all<T>(tx: &broadcast::Sender<T>, value: T) -> (r: Result<usize, T>)
    ensures
        r is Ok ==> r->Ok_0 > 0,
        r is Err ==> r->Err_0 == value,
{
    match tx.send(value) {
        Ok(n) => Ok(n),
        Err(e) => Err(e.0),
    }
}

/// Relies on tokio's `broadcast::Sender::subscribe`: a receiver that sees the
/// values sent after this call.
#[verifier::external_body]
fn new_receiver<T>(tx: &broadcast::Sender<T>) -> (rx: broadcast::Receiver<T>) {
    tx.subscribe()
}

/// Relies on tokio's `broadcast::Receiver::try_recv`: a pending value, the
/// number of values missed, the end of the channel, or nothing yet (`None`).
#[verifier::external_body]
fn try_next<T: Clone>(rx: &mut broadcast::Receiver<T>) -> (r: Option<Delivery<T>>) {
    match rx.try_recv() {
        Ok(v) => Some(Delivery::Sample(v)),
        Err(broadcast::error::TryRecvError::Lagged(n)) => Some(Delivery::Overflowed(n)),
        Err(broadcast::error::TryRecvError::Closed) => Some(Delivery::Closed),
        Err(broadcast::error::TryRecvError::Empty) => None,
    }
}

/// Relies on the variants of tokio's `broadcast::error::RecvError`: `Lagged`
/// carries the number of values missed, `Closed` the end of the channel.
#[verifier::external_body]
fn delivery_of<T>(r: Result<T, broadcast::error::RecvError>) -> (d: Delivery<T>)
    ensures
        r is Ok <==> d is Sample,
        r is Ok ==> d == Delivery::Sample(r->Ok_0),
{
    match r {
        Ok(v) => Delivery::Sample(v),
        Err(broadcast::error::RecvError::Lagged(n)) => Delivery::Overflowed(n),
        Err(broadcast::error::RecvError::Closed) => Delivery::Closed,
    }
}

impl<T> Delivery<T> {
    /// The outcome of an awaited receive on a subscription, as a delivery:
    /// a received value is the sample itself; lag and closure keep their meaning.
    pub fn from_recv(r: Result<T, broadcast::error::RecvError>) -> (d: Delivery<T>)
        ensures
            r is Ok <==> d is Sample,
            r is Ok ==> d == Delivery::Sample(r->Ok_0),
    {
        delivery_of(r)
    }
}

/// The single distribution point for samples: one publisher, any number of
/// subscribers, each with its own bounded backlog. Publishing never waits;
/// a subscriber that falls behind loses its oldest samples and is told so.
#[verifier::reject_recursive_types(T)]
pub struct BroadcastHub<T> {
    sender: broadcast::Sender<T>,
    capacity: usize,
}

/// One subscriber's cursor into the hub's stream.
#[verifier::reject_recursive_types(T)]
pub struct Subscription<T> {
    receiver: broadcast::Receiver<T>,
}

/// The number of subscribers a publish reached: the count the channel
/// reported, or zero where it found none.
pub open spec fn reached<T>(r: Result<usize, T>) -> usize {
    match r {
        Ok(n) => n,
        Err(_) => 0,
    }
}

impl<T: Clone> BroadcastHub<T> {
    pub closed spec fn view_capacity(&self) -> usize {
        self.capacity
    }

    /// A hub whose subscribers each hold a backlog of `capacity` samples
    /// (the channel rounds it up to a power of two).
    pub fn new(capacity: usize) -> (h: BroadcastHub<T>)
        requires
            0 < capacity <= MAX_BACKLOG,
        ensures
            h.view_capacity() == capacity,
    {
        BroadcastHub { sender: new_sender(capacity), capacity }
    }

    /// The backlog size the hub was created with.
    pub fn capacity(&self) -> (c: usize)
        ensures
            c == self.view_capacity(),
    {
        self.capacity
    }

    /// Publishes one sample to every current subscriber, without waiting.
    /// With no subscriber the sample is dropped and zero is returned; this is
    /// no error. Otherwise the count of subscribers reached is returned.
    pub fn publish(&self, sample: T) -> (n: usize) {
        Self::reach_count(send_to_all(&self.sender, sample))
    }

    /// The count of subscribers a send reached, from its outcome: zero where
    /// the channel had no receiver.
    pub fn reach_count(r: Result<usize, T>) -> (n: usize)
        ensures
            n == reached(r),
    {
        match r {
            Ok(n) => n,
            Err(_) => 0,
        }
    }

    /// A new subscription positioned at now: it sees the samples published
    /// after this call and none before.
    pub fn subscribe(&self) -> (s: Subscription<T>) {
        Subscription { receiver: new_receiver(&self.sender) }
    }
}

impl<T: Clone> Subscription<T> {
    /// The next delivery if one is ready: a sample, an overflow notice, or
    /// closure; `None` when nothing is pending yet.
    pub fn try_receive(&mut self) -> (d: Option<Delivery<T>>) {
        try_next(&mut self.receiver)
    }

    /// The underlying receiver, for a driver that awaits the next value and
    /// turns it into a delivery with `Delivery::from_recv`.
    pub fn receiver_mut(&mut self) -> (rx: &mut broadcast::Receiver<T>) {
        &mut self.receiver
    }
}

} // verus!
