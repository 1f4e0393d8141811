use simple_robot::bus::{CommandBus, MAX_SUBSCRIBERS};
use simple_robot::command::DirectionCommand;

#[test]
fn lagging_subscriber_sees_only_the_latest_publish() {
    let mut bus = CommandBus::new();
    let sub = bus.subscribe().unwrap();
    bus.publish(DirectionCommand::Forward);
    bus.publish(DirectionCommand::Back);
    bus.publish(DirectionCommand::Left);
    // Three publishes were missed; the first read observes only the third.
    assert_eq!(bus.try_next(sub), Some(DirectionCommand::Left));
    // Nothing older is ever delivered.
    assert_eq!(bus.try_next(sub), None);
}

#[test]
fn each_publish_reaches_a_subscriber_that_keeps_up() {
    let mut bus = CommandBus::new();
    let sub = bus.subscribe().unwrap();
    bus.publish(DirectionCommand::Forward);
    assert_eq!(bus.try_next(sub), Some(DirectionCommand::Forward));
    bus.publish(DirectionCommand::Stop);
    assert_eq!(bus.try_next(sub), Some(DirectionCommand::Stop));
    assert_eq!(bus.try_next(sub), None);
}

#[test]
fn subscriber_receives_only_future_publishes() {
    let mut bus = CommandBus::new();
    bus.publish(DirectionCommand::Forward);
    let sub = bus.subscribe().unwrap();
    // The publish before the subscription is not delivered.
    assert_eq!(bus.try_next(sub), None);
    bus.publish(DirectionCommand::Back);
    assert_eq!(bus.try_next(sub), Some(DirectionCommand::Back));
}

#[test]
fn every_subscriber_sees_a_publish() {
    let mut bus = CommandBus::new();
    let a = bus.subscribe().unwrap();
    let b = bus.subscribe().unwrap();
    assert_ne!(a, b);
    bus.publish(DirectionCommand::Right);
    assert_eq!(bus.try_next(a), Some(DirectionCommand::Right));
    assert_eq!(bus.try_next(b), Some(DirectionCommand::Right));
    assert_eq!(bus.try_next(a), None);
    assert_eq!(bus.try_next(b), None);
}

#[test]
fn subscriber_bound_is_enforced() {
    let mut bus = CommandBus::new();
    for _ in 0..MAX_SUBSCRIBERS {
        assert!(bus.subscribe().is_some());
    }
    assert_eq!(bus.subscribe(), None);
}

#[test]
fn fresh_bus_has_nothing_to_read() {
    let mut bus = CommandBus::new();
    let sub = bus.subscribe().unwrap();
    assert_eq!(bus.try_next(sub), None);
}
