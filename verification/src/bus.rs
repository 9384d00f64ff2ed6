//! The broadcast bus: one publisher, any number of subscriptions, each with a
//! bounded backlog of its own. The bus is `tokio`'s broadcast channel.

use tokio::sync::broadcast::error::TryRecvError;
use tokio::sync::broadcast::{Receiver, Sender};
use vstd::prelude::*;

verus! {

/// The sending half of `tokio`'s broadcast channel; only passed on here.
#[verifier::external_type_specification]
#[verifier::external_body]
#[verifier::reject_recursive_types(T)]
pub struct ExSender<T>(Sender<T>);

/// The receiving half of `tokio`'s broadcast channel; only passed on here.
#[verifier::external_type_specification]
#[verifier::external_body]
#[verifier::reject_recursive_types(T)]
pub struct ExReceiver<T>(Receiver<T>);

/// The backlog of a subscription on a bus made by [`Bus::new`].
pub const BACKLOG: usize = 32;

/// The largest backlog that a bus can be made with.
pub const MAX_BACKLOG: usize = usize::MAX / 2;

/// The publishing side of a bus. Its handles publish on the same bus; the bus
/// closes when the last of them is gone.
#[derive(Debug)]
pub struct Bus {
    sender: Sender<String>,
    capacity: usize,
}

/// One consumer's place on a bus: it is handed every frame that is published
/// after it was made. Dropping it ends it.
#[derive(Debug)]
pub struct Subscription {
    receiver: Receiver<String>,
}

/// What a subscription has for its consumer at one moment.
#[derive(Clone, Debug, PartialEq, Eq)]
pub enum Pulled {
    /// The next frame, in the order of publishing.
    Frame(String),
    /// Nothing yet; the bus is open.
    Empty,
    /// The backlog overflowed: this many of the oldest frames are lost. The
    /// next pull goes on with the oldest frame that is still held.
    Lagged(u64),
    /// Nothing, and the bus is closed.
    Closed,
}

/// The channel that a sender belongs to: the state that it shares with its
/// clones and with the receivers subscribed through any of them. Two handles
/// have the same number exactly when they are on one channel.
pub uninterp spec fn sender_channel(sender: Sender<String>) -> int;

/// The channel that a receiver belongs to, numbered as for the senders.
pub uninterp spec fn receiver_channel(receiver: Receiver<String>) -> int;

/// Calls `tokio::sync::broadcast::channel` and keeps the sender, so that the
/// channel starts without a receiver. The call panics on a capacity of zero
/// or above half of `usize::MAX`, which `requires` leaves out.
#[verifier::external_body]
fn open_channel(capacity: usize) -> Sender<String>
    requires
        0 < capacity <= MAX_BACKLOG,
{
    tokio::sync::broadcast::channel(capacity).0
}

/// Calls `Sender::clone`, which hands out the same shared state: the new
/// sender is on the channel of the old one.
#[verifier::external_body]
fn share(sender: &Sender<String>) -> (r: Sender<String>)
    ensures
        sender_channel(r) == sender_channel(*sender),
{
    sender.clone()
}

/// Calls `Sender::subscribe`, which puts the sender's shared state into the
/// new receiver: the receiver is on the sender's channel. Which frames it
/// will be handed is not stated.
#[verifier::external_body]
fn attach(sender: &Sender<String>) -> (r: Receiver<String>)
    ensures
        receiver_channel(r) == sender_channel(*sender),
{
    sender.subscribe()
}

/// Calls `Sender::send`. It fails only where the channel has no receiver, and
/// then hands the value back; otherwise it returns the number of receivers,
/// which is not zero. Which of the two happens depends on the channel.
#[verifier::external_body]
fn send_frame(sender: &Sender<String>, frame: String) -> (r: Result<usize, String>)
    ensures
        match r {
            Ok(receivers) => receivers >= 1,
            Err(back) => back == frame,
        },
{
    sender.send(frame).map_err(|e| e.0)
}

/// Calls `Receiver::try_recv` and tells its four outcomes apart. Which of
/// them comes depends on the channel; a lag is reported only where at least
/// one frame was lost. The receiver stays on its channel.
#[verifier::external_body]
fn try_pull(receiver: &mut Receiver<String>) -> (r: Pulled)
    ensures
        r matches Pulled::Lagged(missed) ==> missed >= 1,
        receiver_channel(*final(receiver)) == receiver_channel(*old(receiver)),
{
    match receiver.try_recv() {
        Ok(frame) => Pulled::Frame(frame),
        Err(TryRecvError::Empty) => Pulled::Empty,
        Err(TryRecvError::Lagged(missed)) => Pulled::Lagged(missed),
        Err(TryRecvError::Closed) => Pulled::Closed,
    }
}

impl Bus {
    /// The backlog that the bus was made with: a subscription holds at least
    /// this many unread frames before it loses the oldest.
    pub closed spec fn backlog(&self) -> usize {
        self.capacity
    }

    /// The bus that the handle is on: handles and subscriptions on one bus
    /// agree on it.
    pub closed spec fn channel(&self) -> int {
        sender_channel(self.sender)
    }

    /// The backlog is one that a bus can be made with.
    pub open spec fn wf(&self) -> bool {
        0 < self.backlog() <= MAX_BACKLOG
    }

    /// A bus whose subscriptions hold a backlog of [`BACKLOG`] frames.
    pub fn new() -> (r: Bus)
        ensures
            r.wf(),
            r.backlog() == BACKLOG,
    {
        Bus { sender: open_channel(BACKLOG), capacity: BACKLOG }
    }

    /// The backlog that the bus was made with.
    pub fn capacity(&self) -> (r: usize)
        ensures
            r == self.backlog(),
    {
        self.capacity
    }

    /// A bus whose subscriptions hold a backlog of `capacity` frames, where
    /// that is at least one and at most [`MAX_BACKLOG`].
    pub fn with_capacity(capacity: usize) -> (r: Option<Bus>)
        ensures
            r.is_some() == (0 < capacity <= MAX_BACKLOG),
            r.is_some() ==> r.unwrap().wf() && r.unwrap().backlog() == capacity,
    {
        if 0 < capacity && capacity <= MAX_BACKLOG {
            Some(Bus { sender: open_channel(capacity), capacity })
        } else {
            None
        }
    }

    /// Another handle on the same bus.
    pub fn handle(&self) -> (r: Bus)
        ensures
            r.backlog() == self.backlog(),
            r.channel() == self.channel(),
    {
        Bus { sender: share(&self.sender), capacity: self.capacity }
    }

    /// A new subscription on this bus, which is handed the frames published
    /// from now on.
    pub fn subscribe(&self) -> (r: Subscription)
        ensures
            r.channel() == self.channel(),
    {
        Subscription { receiver: attach(&self.sender) }
    }

    /// Hands a frame to every live subscription. With none, the frame comes
    /// back as the error; otherwise the number of subscriptions is returned.
    pub fn publish(&self, frame: String) -> (r: Result<usize, String>)
        ensures
            match r {
                Ok(subscriptions) => subscriptions >= 1,
                Err(back) => back == frame,
            },
    {
        send_frame(&self.sender, frame)
    }
}

impl Subscription {
    /// Gives up the subscription for the channel's receiver, for a consumer
    /// that waits on it.
    pub fn into_receiver(self) -> (r: Receiver<String>)
        ensures
            r == self.receiver(),
            receiver_channel(r) == self.channel(),
    {
        self.receiver
    }

    /// Takes what the subscription has now, without waiting. A lag counts at
    /// least one lost frame. The subscription stays on its bus.
    pub fn try_next(&mut self) -> (r: Pulled)
        ensures
            r matches Pulled::Lagged(missed) ==> missed >= 1,
            final(self).channel() == old(self).channel(),
    {
        try_pull(&mut self.receiver)
    }

    /// The channel's receiver that the subscription holds.
    pub closed spec fn receiver(self) -> Receiver<String> {
        self.receiver
    }

    /// The bus that the subscription is on.
    pub closed spec fn channel(self) -> int {
        receiver_channel(self.receiver)
    }
}

} // verus!
