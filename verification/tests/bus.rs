use binance_ws_client::api::subscribe::DepthEvent;
use binance_ws_client::bus::{Bus, Pulled, BACKLOG, MAX_BACKLOG};
use binance_ws_client::dispatcher::{
    after_publish, dispatch, on_inbound, Action, DispatcherState, Inbound,
};
use binance_ws_client::stream::{depth_step, poll_depth_event, StreamStep};

fn frame(n: u64) -> String {
    format!("{{\"lastUpdateId\":{},\"bids\":[[\"1.0\",\"2.0\"]],\"asks\":[]}}", n)
}

fn event(n: u64) -> DepthEvent {
    DepthEvent { last_update_id: n, bids: vec![("1.0".to_string(), "2.0".to_string())], asks: vec![] }
}

#[test]
fn publish_without_subscription_hands_the_frame_back() {
    let bus = Bus::new();
    assert_eq!(bus.publish("x".to_string()), Err("x".to_string()));
}

#[test]
fn publish_counts_the_subscriptions() {
    let bus = Bus::new();
    let _a = bus.subscribe();
    assert_eq!(bus.publish("x".to_string()), Ok(1));
    let _b = bus.subscribe();
    assert_eq!(bus.publish("y".to_string()), Ok(2));
}

#[test]
fn subscription_is_not_retroactive() {
    let bus = Bus::new();
    let mut early = bus.subscribe();
    bus.publish("one".to_string()).unwrap();
    let mut late = bus.subscribe();
    bus.publish("two".to_string()).unwrap();
    assert_eq!(early.try_next(), Pulled::Frame("one".to_string()));
    assert_eq!(early.try_next(), Pulled::Frame("two".to_string()));
    assert_eq!(early.try_next(), Pulled::Empty);
    assert_eq!(late.try_next(), Pulled::Frame("two".to_string()));
    assert_eq!(late.try_next(), Pulled::Empty);
}

#[test]
fn two_subscriptions_receive_the_same_frame() {
    let bus = Bus::new();
    let mut a = bus.subscribe();
    let mut b = bus.subscribe();
    bus.publish("frame".to_string()).unwrap();
    assert_eq!(a.try_next(), Pulled::Frame("frame".to_string()));
    assert_eq!(b.try_next(), Pulled::Frame("frame".to_string()));
}

#[test]
fn closing_one_subscription_leaves_the_other() {
    let bus = Bus::new();
    let a = bus.subscribe();
    let mut b = bus.subscribe();
    bus.publish("first".to_string()).unwrap();
    drop(a);
    assert_eq!(bus.publish("second".to_string()), Ok(1));
    assert_eq!(b.try_next(), Pulled::Frame("first".to_string()));
    assert_eq!(b.try_next(), Pulled::Frame("second".to_string()));
    assert_eq!(b.try_next(), Pulled::Empty);
}

#[test]
fn frames_arrive_in_publish_order() {
    let bus = Bus::new();
    let mut sub = bus.subscribe();
    for n in 0..BACKLOG {
        bus.publish(n.to_string()).unwrap();
    }
    for n in 0..BACKLOG {
        assert_eq!(sub.try_next(), Pulled::Frame(n.to_string()));
    }
    assert_eq!(sub.try_next(), Pulled::Empty);
}

#[test]
fn backlog_overflow_drops_the_oldest_and_says_so() {
    let bus = Bus::with_capacity(4).unwrap();
    let mut sub = bus.subscribe();
    for n in 0..7 {
        bus.publish(n.to_string()).unwrap();
    }
    assert_eq!(sub.try_next(), Pulled::Lagged(3));
    assert_eq!(sub.try_next(), Pulled::Frame("3".to_string()));
    assert_eq!(sub.try_next(), Pulled::Frame("4".to_string()));
    assert_eq!(sub.try_next(), Pulled::Frame("5".to_string()));
    assert_eq!(sub.try_next(), Pulled::Frame("6".to_string()));
    assert_eq!(sub.try_next(), Pulled::Empty);
    bus.publish("7".to_string()).unwrap();
    assert_eq!(sub.try_next(), Pulled::Frame("7".to_string()));
}

#[test]
fn default_backlog_holds_thirty_two_frames() {
    assert_eq!(BACKLOG, 32);
    let bus = Bus::new();
    let mut sub = bus.subscribe();
    for n in 0..33 {
        bus.publish(n.to_string()).unwrap();
    }
    assert_eq!(sub.try_next(), Pulled::Lagged(1));
    assert_eq!(sub.try_next(), Pulled::Frame("1".to_string()));
}

#[test]
fn bus_remembers_its_backlog() {
    let bus = Bus::new();
    assert_eq!(bus.capacity(), 32);
    assert_eq!(bus.handle().capacity(), 32);
    assert_eq!(Bus::with_capacity(5).unwrap().capacity(), 5);
}

#[test]
fn capacity_must_be_in_range() {
    assert!(Bus::with_capacity(0).is_none());
    assert!(Bus::with_capacity(MAX_BACKLOG + 1).is_none());
    assert!(Bus::with_capacity(usize::MAX).is_none());
    assert!(Bus::with_capacity(1).is_some());
}

#[test]
fn dropping_every_handle_closes_the_subscriptions() {
    let bus = Bus::new();
    let other = bus.handle();
    let mut a = bus.subscribe();
    let mut b = bus.subscribe();
    bus.publish(frame(1)).unwrap();
    drop(bus);
    assert_eq!(a.try_next(), Pulled::Frame(frame(1)));
    assert_eq!(a.try_next(), Pulled::Empty);
    other.publish(frame(2)).unwrap();
    drop(other);
    assert_eq!(a.try_next(), Pulled::Frame(frame(2)));
    assert_eq!(a.try_next(), Pulled::Closed);
    assert_eq!(poll_depth_event(&mut b, 10), StreamStep::Yield(event(1)));
    assert_eq!(poll_depth_event(&mut b, 10), StreamStep::Yield(event(2)));
    assert_eq!(poll_depth_event(&mut b, 10), StreamStep::End);
    assert_eq!(poll_depth_event(&mut b, 10), StreamStep::End);
}

#[test]
fn dispatcher_decides_by_frame_kind() {
    let running = DispatcherState::Running;
    assert_eq!(on_inbound(running, Inbound::Text("t".to_string())), Action::Publish("t".to_string()));
    assert_eq!(on_inbound(running, Inbound::Other), Action::Ignore);
    assert_eq!(on_inbound(running, Inbound::Failed), Action::Stop);
    assert_eq!(on_inbound(running, Inbound::Closed), Action::Stop);
}

#[test]
fn stopped_dispatcher_stays_stopped() {
    let stopped = DispatcherState::Stopped;
    assert_eq!(on_inbound(stopped, Inbound::Text("t".to_string())), Action::Stop);
    assert_eq!(on_inbound(stopped, Inbound::Other), Action::Stop);
    let bus = Bus::new();
    let mut sub = bus.subscribe();
    assert_eq!(dispatch(stopped, &bus, Inbound::Text("t".to_string())), DispatcherState::Stopped);
    assert_eq!(sub.try_next(), Pulled::Empty);
}

#[test]
fn dispatcher_goes_on_while_a_subscription_listens() {
    assert_eq!(after_publish(&Ok(1)), DispatcherState::Running);
    assert_eq!(after_publish(&Ok(3)), DispatcherState::Running);
    assert_eq!(after_publish(&Err("f".to_string())), DispatcherState::Stopped);
}

#[test]
fn dispatch_publishes_text_frames() {
    let bus = Bus::new();
    let mut sub = bus.subscribe();
    let running = DispatcherState::Running;
    assert_eq!(dispatch(running, &bus, Inbound::Text("a".to_string())), DispatcherState::Running);
    assert_eq!(dispatch(running, &bus, Inbound::Other), DispatcherState::Running);
    assert_eq!(dispatch(running, &bus, Inbound::Text("b".to_string())), DispatcherState::Running);
    assert_eq!(sub.try_next(), Pulled::Frame("a".to_string()));
    assert_eq!(sub.try_next(), Pulled::Frame("b".to_string()));
    assert_eq!(sub.try_next(), Pulled::Empty);
}

#[test]
fn dispatch_stops_on_error_and_end() {
    let bus = Bus::new();
    let mut sub = bus.subscribe();
    assert_eq!(dispatch(DispatcherState::Running, &bus, Inbound::Failed), DispatcherState::Stopped);
    assert_eq!(dispatch(DispatcherState::Running, &bus, Inbound::Closed), DispatcherState::Stopped);
    assert_eq!(sub.try_next(), Pulled::Empty);
}

#[test]
fn dispatch_stops_when_nobody_listens() {
    let bus = Bus::new();
    let running = DispatcherState::Running;
    assert_eq!(dispatch(running, &bus, Inbound::Other), DispatcherState::Running);
    assert_eq!(dispatch(running, &bus, Inbound::Text("a".to_string())), DispatcherState::Stopped);
    let sub = bus.subscribe();
    assert_eq!(dispatch(running, &bus, Inbound::Text("a".to_string())), DispatcherState::Running);
    drop(sub);
    assert_eq!(dispatch(running, &bus, Inbound::Text("a".to_string())), DispatcherState::Stopped);
}

#[test]
fn stream_step_follows_what_was_pulled() {
    assert_eq!(depth_step(Pulled::Frame(frame(3))), StreamStep::Yield(event(3)));
    assert_eq!(depth_step(Pulled::Frame("{\"lastUpdateId\":3}".to_string())), StreamStep::Skip);
    assert_eq!(depth_step(Pulled::Frame("not json".to_string())), StreamStep::Skip);
    assert_eq!(depth_step(Pulled::Empty), StreamStep::Wait);
    assert_eq!(depth_step(Pulled::Lagged(1)), StreamStep::Skip);
    assert_eq!(depth_step(Pulled::Lagged(2)), StreamStep::Skip);
    assert_eq!(depth_step(Pulled::Lagged(u64::MAX)), StreamStep::Skip);
    assert_eq!(depth_step(Pulled::Closed), StreamStep::End);
}

#[test]
fn malformed_frames_are_skipped_and_the_stream_goes_on() {
    let bus = Bus::new();
    let mut sub = bus.subscribe();
    bus.publish("{\"lastUpdateId\":1}".to_string()).unwrap();
    bus.publish("{\"result\":null,\"id\":7}".to_string()).unwrap();
    bus.publish(frame(2)).unwrap();
    bus.publish("garbage".to_string()).unwrap();
    bus.publish(frame(3)).unwrap();
    assert_eq!(poll_depth_event(&mut sub, 10), StreamStep::Yield(event(2)));
    assert_eq!(poll_depth_event(&mut sub, 10), StreamStep::Yield(event(3)));
    assert_eq!(poll_depth_event(&mut sub, 10), StreamStep::Wait);
}

#[test]
fn poll_stops_when_its_budget_is_spent() {
    let bus = Bus::new();
    let mut sub = bus.subscribe();
    bus.publish("a".to_string()).unwrap();
    bus.publish("b".to_string()).unwrap();
    bus.publish(frame(1)).unwrap();
    assert_eq!(poll_depth_event(&mut sub, 0), StreamStep::Skip);
    assert_eq!(poll_depth_event(&mut sub, 2), StreamStep::Skip);
    assert_eq!(poll_depth_event(&mut sub, 1), StreamStep::Yield(event(1)));
}

#[test]
fn two_streams_see_the_same_events() {
    let bus = Bus::new();
    let mut a = bus.subscribe();
    let mut b = bus.subscribe();
    bus.publish(frame(1)).unwrap();
    bus.publish(frame(2)).unwrap();
    assert_eq!(poll_depth_event(&mut a, 5), StreamStep::Yield(event(1)));
    drop(a);
    assert_eq!(poll_depth_event(&mut b, 5), StreamStep::Yield(event(1)));
    assert_eq!(poll_depth_event(&mut b, 5), StreamStep::Yield(event(2)));
    assert_eq!(poll_depth_event(&mut b, 5), StreamStep::Wait);
}

#[test]
fn a_stream_that_fell_behind_goes_on_with_what_is_held() {
    let bus = Bus::with_capacity(2).unwrap();
    let mut sub = bus.subscribe();
    for n in 0..5 {
        bus.publish(frame(n)).unwrap();
    }
    assert_eq!(poll_depth_event(&mut sub, 10), StreamStep::Yield(event(3)));
    assert_eq!(poll_depth_event(&mut sub, 10), StreamStep::Yield(event(4)));
    assert_eq!(poll_depth_event(&mut sub, 10), StreamStep::Wait);
    bus.publish(frame(5)).unwrap();
    assert_eq!(poll_depth_event(&mut sub, 10), StreamStep::Yield(event(5)));
    assert_eq!(poll_depth_event(&mut sub, 10), StreamStep::Wait);
}

#[test]
fn overflow_of_the_default_backlog_loses_only_the_oldest_events() {
    let bus = Bus::new();
    let mut sub = bus.subscribe();
    for n in 1..=40 {
        bus.publish(frame(n)).unwrap();
    }
    for n in 9..=40 {
        assert_eq!(poll_depth_event(&mut sub, 2), StreamStep::Yield(event(n)));
    }
    assert_eq!(poll_depth_event(&mut sub, 2), StreamStep::Wait);
    for n in 41..=45 {
        bus.publish(frame(n)).unwrap();
    }
    for n in 41..=45 {
        assert_eq!(poll_depth_event(&mut sub, 1), StreamStep::Yield(event(n)));
    }
    drop(bus);
    assert_eq!(poll_depth_event(&mut sub, 1), StreamStep::End);
}

#[test]
fn a_lag_takes_one_pull_of_the_budget() {
    let bus = Bus::with_capacity(1).unwrap();
    let mut sub = bus.subscribe();
    bus.publish(frame(1)).unwrap();
    bus.publish(frame(2)).unwrap();
    assert_eq!(poll_depth_event(&mut sub, 1), StreamStep::Skip);
    assert_eq!(poll_depth_event(&mut sub, 1), StreamStep::Yield(event(2)));
}

#[test]
fn a_subscription_sees_its_own_bus_only() {
    let bus = Bus::new();
    let other = Bus::new();
    let mut sub = bus.subscribe();
    let mut other_sub = other.subscribe();
    bus.handle().publish("here".to_string()).unwrap();
    assert_eq!(other_sub.try_next(), Pulled::Empty);
    assert_eq!(sub.try_next(), Pulled::Frame("here".to_string()));
    assert_eq!(sub.try_next(), Pulled::Empty);
}
