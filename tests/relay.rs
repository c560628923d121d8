use ground_station::{
    Action, BroadcastHub, Cmds, CommandFunnel, Delivery, Event, Frame, Intake, Phase, Session,
    SessionMachine, Submission, COMMAND_QUEUE, TELEMETRY_BACKLOG,
};
use tokio::sync::broadcast::error::RecvError;

fn sample(n: u32) -> String {
    format!("{{\"temperature\":{}}}", n)
}

#[test]
fn publish_with_no_subscriber_is_dropped_without_error() {
    let hub: BroadcastHub<String> = BroadcastHub::new(TELEMETRY_BACKLOG);
    for i in 0..300 {
        assert_eq!(hub.publish(sample(i)), 0);
    }
    assert_eq!(hub.capacity(), 100);
}

#[test]
fn publish_counts_the_subscribers_reached() {
    let hub: BroadcastHub<String> = BroadcastHub::new(8);
    let _a = hub.subscribe();
    let _b = hub.subscribe();
    assert_eq!(hub.publish(sample(1)), 2);
}

#[test]
fn reach_count_reads_the_send_outcome() {
    assert_eq!(BroadcastHub::<String>::reach_count(Ok(3)), 3);
    assert_eq!(BroadcastHub::<String>::reach_count(Err(sample(1))), 0);
}

#[test]
fn every_subscriber_receives_every_sample_in_order() {
    let hub: BroadcastHub<String> = BroadcastHub::new(TELEMETRY_BACKLOG);
    let mut subs = vec![hub.subscribe(), hub.subscribe(), hub.subscribe()];
    for i in 0..50 {
        assert_eq!(hub.publish(sample(i)), 3);
    }
    for sub in subs.iter_mut() {
        for i in 0..50 {
            assert_eq!(sub.try_receive(), Some(Delivery::Sample(sample(i))));
        }
        assert_eq!(sub.try_receive(), None);
    }
}

#[test]
fn subscription_starts_at_now() {
    let hub: BroadcastHub<String> = BroadcastHub::new(4);
    let _early = hub.subscribe();
    hub.publish(sample(1));
    let mut late = hub.subscribe();
    hub.publish(sample(2));
    assert_eq!(late.try_receive(), Some(Delivery::Sample(sample(2))));
    assert_eq!(late.try_receive(), None);
}

#[test]
fn overflowed_subscriber_is_told_and_sees_only_later_samples() {
    let hub: BroadcastHub<String> = BroadcastHub::new(4);
    let mut sub = hub.subscribe();
    for i in 0..6 {
        hub.publish(sample(i));
    }
    assert_eq!(sub.try_receive(), Some(Delivery::Overflowed(2)));
    for i in 2..6 {
        assert_eq!(sub.try_receive(), Some(Delivery::Sample(sample(i))));
    }
    assert_eq!(sub.try_receive(), None);
}

#[test]
fn standard_backlog_overflows_past_its_ring() {
    // A backlog of 100 is held in a ring of 128 slots.
    let hub: BroadcastHub<u32> = BroadcastHub::new(TELEMETRY_BACKLOG);
    let mut sub = hub.subscribe();
    for i in 0..129u32 {
        hub.publish(i);
    }
    assert_eq!(sub.try_receive(), Some(Delivery::Overflowed(1)));
    assert_eq!(sub.try_receive(), Some(Delivery::Sample(1)));
}

#[test]
fn closed_hub_is_reported() {
    let hub: BroadcastHub<String> = BroadcastHub::new(4);
    let mut sub = hub.subscribe();
    hub.publish(sample(7));
    drop(hub);
    assert_eq!(sub.try_receive(), Some(Delivery::Sample(sample(7))));
    assert_eq!(sub.try_receive(), Some(Delivery::Closed));
}

#[test]
fn awaited_outcomes_become_deliveries() {
    assert_eq!(Delivery::from_recv(Ok(sample(3))), Delivery::Sample(sample(3)));
    assert_eq!(Delivery::<String>::from_recv(Err(RecvError::Lagged(5))), Delivery::Overflowed(5));
    assert_eq!(Delivery::<String>::from_recv(Err(RecvError::Closed)), Delivery::Closed);
}

#[test]
fn fast_and_paused_subscribers_scenario() {
    let hub: BroadcastHub<&'static str> = BroadcastHub::new(2);
    let mut fast = hub.subscribe();
    let mut paused = hub.subscribe();
    for s in ["A", "B", "C"] {
        hub.publish(s);
        assert_eq!(fast.try_receive(), Some(Delivery::Sample(s)));
    }
    assert_eq!(paused.try_receive(), Some(Delivery::Overflowed(1)));
    assert_eq!(paused.try_receive(), Some(Delivery::Sample("B")));
    assert_eq!(paused.try_receive(), Some(Delivery::Sample("C")));
    assert_eq!(paused.try_receive(), None);
}

#[test]
fn funnel_keeps_each_producer_order() {
    let (funnel, mut outlet) = CommandFunnel::new(COMMAND_QUEUE);
    let a = funnel.handle();
    let b = funnel.handle();
    assert_eq!(a.try_submit("a1".to_string()), Submission::Accepted);
    assert_eq!(b.try_submit("b1".to_string()), Submission::Accepted);
    assert_eq!(a.try_submit("a2".to_string()), Submission::Accepted);
    assert_eq!(b.try_submit("b2".to_string()), Submission::Accepted);
    assert_eq!(a.try_submit("a3".to_string()), Submission::Accepted);
    for want in ["a1", "b1", "a2", "b2", "a3"] {
        assert_eq!(outlet.try_take(), Intake::Command(want.to_string()));
    }
    assert_eq!(outlet.try_take(), Intake::Empty);
}

#[test]
fn funnel_is_full_at_capacity_until_one_is_taken() {
    let (funnel, mut outlet) = CommandFunnel::new(COMMAND_QUEUE);
    assert_eq!(funnel.capacity(), 32);
    for i in 0..32 {
        assert_eq!(funnel.try_submit(format!("c{}", i)), Submission::Accepted);
    }
    assert_eq!(funnel.try_submit("late".to_string()), Submission::Full("late".to_string()));
    assert_eq!(outlet.try_take(), Intake::Command("c0".to_string()));
    assert_eq!(funnel.try_submit("late".to_string()), Submission::Accepted);
    assert_eq!(funnel.try_submit("later".to_string()), Submission::Full("later".to_string()));
}

#[test]
fn funnel_without_consumer_hands_the_command_back() {
    let (funnel, outlet) = CommandFunnel::new(COMMAND_QUEUE);
    drop(outlet);
    assert_eq!(funnel.try_submit("ARM".to_string()), Submission::Unavailable("ARM".to_string()));
}

#[test]
fn outlet_reports_closed_when_every_producer_is_gone() {
    let (funnel, mut outlet) = CommandFunnel::new(4);
    funnel.try_submit("PING".to_string());
    drop(funnel);
    assert_eq!(outlet.try_take(), Intake::Command("PING".to_string()));
    assert_eq!(outlet.try_take(), Intake::Closed);
}

#[test]
fn machine_actions_for_each_event() {
    let mut m = SessionMachine::new();
    assert_eq!(m.phase(), Phase::Active);
    assert_eq!(m.step(Event::Telemetry(Some(sample(1)))), Action::Deliver(sample(1)));
    assert_eq!(m.step(Event::Telemetry(None)), Action::Wait);
    assert_eq!(m.step(Event::Lagged(12)), Action::Wait);
    assert_eq!(m.step(Event::Received(Frame::Text("ARM".to_string()))), Action::Forward("ARM".to_string()));
    assert_eq!(m.phase(), Phase::Active);
}

#[test]
fn machine_closes_on_each_ending_event() {
    let endings = vec![
        Event::HubClosed,
        Event::ReceiveFailed,
        Event::SendFailed,
        Event::Received(Frame::Binary(vec![1, 2])),
        Event::Received(Frame::Ping(vec![])),
        Event::Received(Frame::Pong(vec![])),
        Event::Received(Frame::Close),
    ];
    for e in endings {
        let mut m = SessionMachine::new();
        assert_eq!(m.step(e), Action::Close);
        assert_eq!(m.phase(), Phase::Closing);
        m.finish();
        assert_eq!(m.phase(), Phase::Closed);
    }
}

#[test]
fn machine_never_reenters_active() {
    let mut m = SessionMachine::new();
    m.finish();
    assert_eq!(m.phase(), Phase::Active);
    assert_eq!(m.step(Event::SendFailed), Action::Close);
    assert_eq!(m.step(Event::Telemetry(Some(sample(1)))), Action::Halt);
    assert_eq!(m.step(Event::Received(Frame::Text("ARM".to_string()))), Action::Halt);
    assert_eq!(m.phase(), Phase::Closing);
    m.finish();
    assert_eq!(m.step(Event::Lagged(1)), Action::Halt);
    assert_eq!(m.phase(), Phase::Closed);
}

#[test]
fn closing_one_session_leaves_the_others_working() {
    let hub: BroadcastHub<String> = BroadcastHub::new(TELEMETRY_BACKLOG);
    let (funnel, mut outlet) = CommandFunnel::new(COMMAND_QUEUE);
    let mut first = Session::open(&hub, &funnel);
    let mut second = Session::open(&hub, &funnel);
    assert_eq!(first.step(Event::Received(Frame::Close)), Action::Close);
    first.finish();
    drop(first);
    assert_eq!(second.phase(), Phase::Active);
    assert_eq!(hub.publish(sample(4)), 1);
    assert_eq!(second.subscription_mut().try_receive(), Some(Delivery::Sample(sample(4))));
    match second.step(Event::Received(Frame::Text("PING".to_string()))) {
        Action::Forward(cmd) => assert_eq!(second.funnel().try_submit(cmd), Submission::Accepted),
        other => panic!("unexpected action {:?}", other),
    }
    assert_eq!(outlet.try_take(), Intake::Command("PING".to_string()));
}

#[test]
fn two_viewers_commands_reach_a_stalled_consumer() {
    let hub: BroadcastHub<String> = BroadcastHub::new(TELEMETRY_BACKLOG);
    let (funnel, mut outlet) = CommandFunnel::new(COMMAND_QUEUE);
    let mut one = Session::open(&hub, &funnel);
    let mut two = Session::open(&hub, &funnel);
    let inputs = [(&mut one, "ARM"), (&mut two, "PING")];
    for (session, text) in inputs {
        match session.step(Event::Received(Frame::Text(text.to_string()))) {
            Action::Forward(cmd) => assert_eq!(session.funnel().try_submit(cmd), Submission::Accepted),
            other => panic!("unexpected action {:?}", other),
        }
    }
    assert_eq!(one.step(Event::Received(Frame::Text("LAUCH".to_string()))), Action::Forward("LAUCH".to_string()));
    assert_eq!(one.funnel().try_submit("LAUCH".to_string()), Submission::Accepted);
    let mut seen = Vec::new();
    while let Intake::Command(c) = outlet.try_take() {
        seen.push(c);
    }
    assert_eq!(seen.len(), 3);
    assert!(seen.contains(&"PING".to_string()));
    let arm = seen.iter().position(|c| c == "ARM").unwrap();
    let launch = seen.iter().position(|c| c == "LAUCH").unwrap();
    assert!(arm < launch);
}

#[test]
fn command_kinds_compare_by_variant() {
    let c = Cmds::ARM;
    let d = c;
    assert_eq!(c, d);
    assert_ne!(Cmds::ABORT, Cmds::PING);
    assert_ne!(Cmds::LAUCH, Cmds::ARM);
}
