use vstd::prelude::*;
use tokio::sync::mpsc;

verus! {

#[verifier::external_type_specification]
#[verifier::external_body]
#[verifier::reject_recursive_types(T)]
pub struct ExQueueSender<T>(mpsc::Sender<T>);

#[verifier::external_type_specification]
#[verifier::external_body]
#[verifier::reject_recursive_types(T)]
pub struct ExQueueReceiver<T>(mpsc::Receiver<T>);

/// Largest number of queued commands a funnel can be created with: within
/// the channel's permit limit on every target.
pub const MAX_QUEUE: usize = 0x1fff_ffff;

/// Outcome of offering a command to the funnel without waiting.
#[derive(Clone, Debug, PartialEq, Eq)]
pub enum Submission {
    /// The command is queued behind every command accepted before it.
    Accepted,
    /// The queue is at capacity; the command is handed back.
    Full(String),
    /// The consumer is gone; the command is handed back.
    Unavailable(String),
}

/// What the consumer finds when it looks for the next command.
#[derive(Clone, Debug, PartialEq, Eq)]
pub enum Intake {
    /// The oldest queued command.
    Command(String),
    /// Nothing is queued, but producers remain.
    Empty,
    /// Nothing is queued and every producer is gone.
    Closed,
}

/// Relies on tokio's `mpsc::channel`: a bounded queue of `capacity` items.
/// It panics on a capacity of zero or above the semaphore's permit limit.
#[verifier::external_body]
fn new_queue(capacity: usize) -> (q: (mpsc::Sender<String>, mpsc::Receiver<String>))
    requires
        0 < capacity <= MAX_QUEUE,
{
    mpsc::channel(capacity)
}

/// Relies on tokio's `mpsc::Sender::try_send`: the message is queued, or it
/// comes back in `Full` when no permit is free, or in `Closed` when the
/// receiver is gone.
#[verifier::external_body]
fn offer(tx: &mpsc::Sender<String>, cmd: String) -> (s: Submission)
    ensures
        s is Full ==> s->Full_0 == cmd,
        s is Unavailable ==> s->Unavailable_0 == cmd,
{
    match tx.try_send(cmd) {
        Ok(()) => Submission::Accepted,
        Err(mpsc::error::TrySendError::Full(c)) => Submission::Full(c),
        Err(mpsc::error::TrySendError::Closed(c)) => Submission::Unavailable(c),
    }
}

/// Relies on tokio's `mpsc::Sender::clone`: another producer handle on the
/// same queue.
#[verifier::external_body]
fn another_sender(tx: &mpsc::Sender<String>) -> (t: mpsc::Sender<String>) {
    tx.clone()
}

/// Relies on tokio's `mpsc::Receiver::try_recv`: the oldest queued message,
/// or whether the queue is merely empty or disconnected.
#[verifier::external_body]
fn take_next(rx: &mut mpsc::Receiver<String>) -> (i: Intake) {
    match rx.try_recv() {
        Ok(c) => Intake::Command(c),
        Err(mpsc::error::TryRecvError::Empty) => Intake::Empty,
        Err(mpsc::error::TryRecvError::Disconnected) => Intake::Closed,
    }
}

/// A producer handle on the single command queue. Any number of handles
/// feed one consumer, which sees the commands in the order they were accepted.
pub struct CommandFunnel {
    sender: mpsc::Sender<String>,
    capacity: usize,
}

/// The consuming end of the command queue.
pub struct CommandOutlet {
    receiver: mpsc::Receiver<String>,
}

impl CommandFunnel {
    pub closed spec fn view_capacity(&self) -> usize {
        self.capacity
    }

    /// A funnel that queues up to `capacity` commands, and its one consumer.
    pub fn new(capacity: usize) -> (r: (CommandFunnel, CommandOutlet))
        requires
            0 < capacity <= MAX_QUEUE,
        ensures
            r.0.view_capacity() == capacity,
    {
        let (sender, receiver) = new_queue(capacity);
        (CommandFunnel { sender, capacity }, CommandOutlet { receiver })
    }

    /// The number of commands the queue holds at most.
    pub fn capacity(&self) -> (c: usize)
        ensures
            c == self.view_capacity(),
    {
        self.capacity
    }

    /// Another producer handle on the same queue.
    pub fn handle(&self) -> (f: CommandFunnel)
        ensures
            f.view_capacity() == self.view_capacity(),
    {
        CommandFunnel { sender: another_sender(&self.sender), capacity: self.capacity }
    }

    /// Offers a command without waiting. A command that is not accepted
    /// comes back unchanged, tagged with the reason.
    pub fn try_submit(&self, cmd: String) -> (s: Submission)
        ensures
            s is Full ==> s->Full_0 == cmd,
            s is Unavailable ==> s->Unavailable_0 == cmd,
    {
        offer(&self.sender, cmd)
    }

    /// The underlying sender, for a driver that awaits room in the queue.
    pub fn sender(&self) -> (tx: &mpsc::Sender<String>) {
        &self.sender
    }
}

impl CommandOutlet {
    /// The oldest queued command, if any, without waiting.
    pub fn try_take(&mut self) -> (i: Intake) {
        take_next(&mut self.receiver)
    }

    /// The underlying receiver, for a consumer that awaits the next command.
    pub fn receiver_mut(&mut self) -> (rx: &mut mpsc::Receiver<String>) {
        &mut self.receiver
    }
}

} // verus!
