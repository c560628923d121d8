use vstd::prelude::*;
use crate::funnel::CommandFunnel;
use crate::hub::{BroadcastHub, Subscription};

verus! {

/// Lifecycle of one viewer session. A session only moves forward:
/// `Active` to `Closing` to `Closed`, never back.
#[derive(Clone, Copy, Debug, PartialEq, Eq, Structural)]
pub enum Phase {
    Active,
    Closing,
    Closed,
}

/// A frame read from the viewer's transport.
#[derive(Clone, Debug, PartialEq, Eq)]
pub enum Frame {
    Text(String),
    Binary(Vec<u8>),
    Ping(Vec<u8>),
    Pong(Vec<u8>),
    Close,
}

/// What one round of the session's race produced.
#[derive(Clone, Debug, PartialEq, Eq)]
pub enum Event {
    /// The hub handed over a sample: its serialized text, or `None` when
    /// serialization failed.
    Telemetry(Option<String>),
    /// The subscription overflowed and skipped this many samples.
    Lagged(u64),
    /// The hub is closed for good.
    HubClosed,
    /// The viewer sent a frame.
    Received(Frame),
    /// Reading from the viewer failed or the stream ended.
    ReceiveFailed,
    /// Sending to the viewer failed.
    SendFailed,
}

/// What the driver of a session must do next.
#[derive(Clone, Debug, PartialEq, Eq)]
pub enum Action {
    /// Send this text to the viewer, then race again.
    Deliver(String),
    /// Enqueue this command into the funnel (a failure is ignored), then race again.
    Forward(String),
    /// Nothing to do: race again.
    Wait,
    /// Abandon both pending operations and close the connection.
    Close,
    /// The session is no longer active: attempt nothing.
    Halt,
}

/// Whether an event ends an active session.
pub open spec fn ends_session(e: Event) -> bool {
    match e {
        Event::Telemetry(_) => false,
        Event::Lagged(_) => false,
        Event::HubClosed => true,
        Event::Received(f) => !(f is Text),
        Event::ReceiveFailed => true,
        Event::SendFailed => true,
    }
}

/// The action an active session takes on an event that does not end it.
pub open spec fn active_action(e: Event) -> Action {
    match e {
        Event::Telemetry(Some(text)) => Action::Deliver(text),
        Event::Received(Frame::Text(text)) => Action::Forward(text),
        _ => Action::Wait,
    }
}

/// One step of the session state machine: the next phase and the action.
pub open spec fn transition(p: Phase, e: Event) -> (Phase, Action) {
    if p != Phase::Active {
        (p, Action::Halt)
    } else if ends_session(e) {
        (Phase::Closing, Action::Close)
    } else {
        (Phase::Active, active_action(e))
    }
}

/// The phase reached and the actions taken when a session in phase `p`
/// meets the events `es` in order.
pub open spec fn run(p: Phase, es: Seq<Event>) -> (Phase, Seq<Action>)
    decreases es.len(),
{
    if es.len() == 0 {
        (p, Seq::empty())
    } else {
        let prev = run(p, es.drop_last());
        let next = transition(prev.0, es.last());
        (next.0, prev.1.push(next.1))
    }
}

/// The texts of the `Deliver` actions, in order.
pub open spec fn delivered(acts: Seq<Action>) -> Seq<String>
    decreases acts.len(),
{
    if acts.len() == 0 {
        Seq::empty()
    } else {
        let rest = delivered(acts.drop_last());
        match acts.last() {
            Action::Deliver(t) => rest.push(t),
            _ => rest,
        }
    }
}

/// The texts of the `Forward` actions, in order.
pub open spec fn forwarded(acts: Seq<Action>) -> Seq<String>
    decreases acts.len(),
{
    if acts.len() == 0 {
        Seq::empty()
    } else {
        let rest = forwarded(acts.drop_last());
        match acts.last() {
            Action::Forward(t) => rest.push(t),
            _ => rest,
        }
    }
}

/// The serialized samples among the events, in order.
pub open spec fn samples(es: Seq<Event>) -> Seq<String>
    decreases es.len(),
{
    if es.len() == 0 {
        Seq::empty()
    } else {
        let rest = samples(es.drop_last());
        match es.last() {
            Event::Telemetry(Some(t)) => rest.push(t),
            _ => rest,
        }
    }
}

/// The text frames among the events, in order.
pub open spec fn commands(es: Seq<Event>) -> Seq<String>
    decreases es.len(),
{
    if es.len() == 0 {
        Seq::empty()
    } else {
        let rest = commands(es.drop_last());
        match es.last() {
            Event::Received(Frame::Text(t)) => rest.push(t),
            _ => rest,
        }
    }
}

/// The phases of a group of sessions after session `i` alone meets event `e`.
pub open spec fn step_one(phases: Seq<Phase>, i: int, e: Event) -> Seq<Phase> {
    phases.update(i, transition(phases[i], e).0)
}

/// While no event ends it, an active session stays active, delivers every
/// serialized sample in the order the hub handed them over, and forwards every
/// text frame in the order the viewer sent them.
pub proof fn lemma_active_run_keeps_order(es: Seq<Event>)
    requires
        forall|i: int| 0 <= i < es.len() ==> !ends_session(#[trigger] es[i]),
    ensures
        run(Phase::Active, es).0 == Phase::Active,
        run(Phase::Active, es).1.len() == es.len(),
        delivered(run(Phase::Active, es).1) == samples(es),
        forwarded(run(Phase::Active, es).1) == commands(es),
    decreases es.len(),
{
    if es.len() > 0 {
        let init = es.drop_last();
        assert forall|i: int| 0 <= i < init.len() implies !ends_session(#[trigger] init[i]) by {
            assert(init[i] == es[i]);
        }
        lemma_active_run_keeps_order(init);
        assert(!ends_session(es[es.len() - 1]));
        let acts = run(Phase::Active, es).1;
        assert(acts.drop_last() == run(Phase::Active, init).1);
    }
}

/// Running two stretches of events one after the other is running their
/// concatenation.
proof fn lemma_run_concat(p: Phase, a: Seq<Event>, b: Seq<Event>)
    ensures
        run(p, a + b).0 == run(run(p, a).0, b).0,
        run(p, a + b).1 == run(p, a).1 + run(run(p, a).0, b).1,
    decreases b.len(),
{
    if b.len() == 0 {
        assert(a + b == a);
        assert(run(p, a).1 + run(run(p, a).0, b).1 == run(p, a).1);
    } else {
        lemma_run_concat(p, a, b.drop_last());
        assert((a + b).drop_last() == a + b.drop_last());
        assert((a + b).last() == b.last());
    }
}

/// Delivered and forwarded texts of concatenated actions concatenate.
proof fn lemma_delivered_concat(x: Seq<Action>, y: Seq<Action>)
    ensures
        delivered(x + y) == delivered(x) + delivered(y),
        forwarded(x + y) == forwarded(x) + forwarded(y),
    decreases y.len(),
{
    if y.len() == 0 {
        assert(x + y == x);
        assert(delivered(x) + delivered(y) == delivered(x));
        assert(forwarded(x) + forwarded(y) == forwarded(x));
    } else {
        lemma_delivered_concat(x, y.drop_last());
        assert((x + y).drop_last() == x + y.drop_last());
        assert((x + y).last() == y.last());
    }
}

/// Actions that are all `Halt` deliver and forward nothing.
proof fn lemma_halts_deliver_nothing(acts: Seq<Action>)
    requires
        forall|i: int| 0 <= i < acts.len() ==> acts[i] == Action::Halt,
    ensures
        delivered(acts) == Seq::<String>::empty(),
        forwarded(acts) == Seq::<String>::empty(),
    decreases acts.len(),
{
    if acts.len() > 0 {
        let init = acts.drop_last();
        assert forall|i: int| 0 <= i < init.len() implies init[i] == Action::Halt by {
            assert(init[i] == acts[i]);
        }
        lemma_halts_deliver_nothing(init);
    }
}

/// A whole session: events that keep it active, one that ends it, and then
/// anything at all. It ends up closing, has delivered exactly the serialized
/// samples and forwarded exactly the text frames that came before the end,
/// each in arrival order, and nothing after it.
pub proof fn lemma_session_output(es: Seq<Event>, end: Event, rest: Seq<Event>)
    requires
        forall|i: int| 0 <= i < es.len() ==> !ends_session(#[trigger] es[i]),
        ends_session(end),
    ensures
        run(Phase::Active, es.push(end) + rest).0 == Phase::Closing,
        delivered(run(Phase::Active, es.push(end) + rest).1) == samples(es),
        forwarded(run(Phase::Active, es.push(end) + rest).1) == commands(es),
{
    lemma_active_run_keeps_order(es);
    let before = run(Phase::Active, es.push(end));
    assert(es.push(end).drop_last() == es);
    assert(before.0 == Phase::Closing);
    assert(before.1 == run(Phase::Active, es).1.push(Action::Close));
    lemma_no_reentry(Phase::Closing, rest);
    lemma_run_concat(Phase::Active, es.push(end), rest);
    let after = run(Phase::Closing, rest).1;
    lemma_halts_deliver_nothing(after);
    lemma_delivered_concat(before.1, after);
    assert(before.1.drop_last() == run(Phase::Active, es).1);
    assert(delivered(before.1) + delivered(after) == delivered(before.1));
    assert(forwarded(before.1) + forwarded(after) == forwarded(before.1));
}

/// A session that has left `Active` never comes back to it and attempts
/// nothing more, whatever happens afterwards.
pub proof fn lemma_no_reentry(p: Phase, es: Seq<Event>)
    requires
        p != Phase::Active,
    ensures
        run(p, es).0 == p,
        run(p, es).1.len() == es.len(),
        forall|i: int| 0 <= i < es.len() ==> #[trigger] run(p, es).1[i] == Action::Halt,
    decreases es.len(),
{
    if es.len() > 0 {
        lemma_no_reentry(p, es.drop_last());
    }
}

/// Overflow is no reason to close: an active session that is told it lagged
/// stays active and simply races again.
pub proof fn lemma_lag_is_not_fatal(n: u64)
    ensures
        transition(Phase::Active, Event::Lagged(n)) == (Phase::Active, Action::Wait),
{
}

/// Ending one session leaves every other session of a group in its phase,
/// and the ending session enqueues no command while doing so.
pub proof fn lemma_close_is_local(phases: Seq<Phase>, i: int, e: Event)
    requires
        0 <= i < phases.len(),
        ends_session(e),
    ensures
        step_one(phases, i, e).len() == phases.len(),
        forall|j: int| 0 <= j < phases.len() && j != i ==> #[trigger] step_one(phases, i, e)[j] == phases[j],
        step_one(phases, i, e)[i] != Phase::Active,
        !(transition(phases[i], e).1 is Forward),
        !(transition(phases[i], e).1 is Deliver),
{
}

/// The decision half of a viewer session: its phase. The driver races the
/// hub subscription against the viewer transport, hands each outcome to
/// `step`, and performs the returned action.
pub struct SessionMachine {
    phase: Phase,
}

impl SessionMachine {
    pub closed spec fn view_phase(&self) -> Phase {
        self.phase
    }

    /// A machine for a freshly connected viewer.
    pub fn new() -> (m: SessionMachine)
        ensures
            m.view_phase() == Phase::Active,
    {
        SessionMachine { phase: Phase::Active }
    }

    pub fn phase(&self) -> (p: Phase)
        ensures
            p == self.view_phase(),
    {
        self.phase
    }

    /// Decides what to do with one event. Overflow and unserializable samples
    /// keep the session active with nothing to do; the end of the hub, a failed
    /// transport or a non-text frame close it; once closing, nothing is done.
    pub fn step(&mut self, e: Event) -> (a: Action)
        ensures
            (final(self).view_phase(), a) == transition(old(self).view_phase(), e),
    {
        if self.phase != Phase::Active {
            return Action::Halt;
        }
        let ends = match &e {
            Event::Telemetry(_) => false,
            Event::Lagged(_) => false,
            Event::HubClosed => true,
            Event::Received(f) => !matches!(f, Frame::Text(_)),
            Event::ReceiveFailed => true,
            Event::SendFailed => true,
        };
        if ends {
            self.phase = Phase::Closing;
            return Action::Close;
        }
        match e {
            Event::Telemetry(Some(text)) => Action::Deliver(text),
            Event::Received(Frame::Text(text)) => Action::Forward(text),
            _ => Action::Wait,
        }
    }

    /// Records that the connection has been closed: a closing session
    /// becomes closed; any other phase stays as it was.
    pub fn finish(&mut self)
        ensures
            final(self).view_phase() == (if old(self).view_phase() == Phase::Closing {
                Phase::Closed
            } else {
                old(self).view_phase()
            }),
    {
        if self.phase == Phase::Closing {
            self.phase = Phase::Closed;
        }
    }
}

/// One connected viewer: its own subscription to the hub, its own producer
/// handle on the command funnel, and the machine that decides what each
/// event means. Nothing in it is shared with other sessions.
#[verifier::reject_recursive_types(T)]
pub struct Session<T> {
    machine: SessionMachine,
    subscription: Subscription<T>,
    funnel: CommandFunnel,
}

impl<T: Clone> Session<T> {
    pub closed spec fn view_phase(&self) -> Phase {
        self.machine.view_phase()
    }

    /// Opens an active session: subscribes to the hub now, so that the viewer
    /// sees what is published from here on, and takes a funnel handle.
    pub fn open(hub: &BroadcastHub<T>, funnel: &CommandFunnel) -> (s: Session<T>)
        ensures
            s.view_phase() == Phase::Active,
    {
        Session {
            machine: SessionMachine::new(),
            subscription: hub.subscribe(),
            funnel: funnel.handle(),
        }
    }

    pub fn phase(&self) -> (p: Phase)
        ensures
            p == self.view_phase(),
    {
        self.machine.phase()
    }

    /// Decides what to do with one event; see `SessionMachine::step`.
    pub fn step(&mut self, e: Event) -> (a: Action)
        ensures
            (final(self).view_phase(), a) == transition(old(self).view_phase(), e),
    {
        self.machine.step(e)
    }

    /// Records that the connection has been closed; see `SessionMachine::finish`.
    pub fn finish(&mut self)
        ensures
            final(self).view_phase() == (if old(self).view_phase() == Phase::Closing {
                Phase::Closed
            } else {
                old(self).view_phase()
            }),
    {
        self.machine.finish()
    }

    /// This session's subscription, for the driver to await on.
    pub fn subscription_mut(&mut self) -> (s: &mut Subscription<T>)
        ensures
            final(self).view_phase() == old(self).view_phase(),
    {
        &mut self.subscription
    }

    /// This session's producer handle on the funnel.
    pub fn funnel(&self) -> (f: &CommandFunnel) {
        &self.funnel
    }
}

} // verus!
