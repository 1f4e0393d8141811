use simple_robot::chassis::{Chassis, Level, Polarity};
use simple_robot::command::DirectionCommand;

#[test]
fn construction_state() {
    let c = Chassis::new(4096);
    assert_eq!(c.max_duty, 4096);
    assert_eq!(c.dead_time, 4);
    assert_eq!(c.fwd.duty, 0);
    assert_eq!(c.rwd.duty, 0);
    assert!(!c.fwd.enabled);
    assert!(!c.rwd.enabled);
    assert_eq!(c.fwd.polarity, Polarity::ActiveHigh);
    assert_eq!(c.rwd.polarity, Polarity::ActiveHigh);
}

#[test]
fn start_runs_at_half_duty() {
    let mut c = Chassis::new(4096);
    c.start();
    assert_eq!(c.fwd.duty, 2048);
    assert_eq!(c.rwd.duty, 2048);
    assert!(c.fwd.enabled);
    assert!(c.rwd.enabled);
}

#[test]
fn direction_pin_table() {
    let mut c = Chassis::new(1000);

    c.forward();
    assert_eq!(
        (c.fwd_left, c.fwd_right, c.rwd_left, c.rwd_right),
        (Level::High, Level::Low, Level::High, Level::Low)
    );

    c.back();
    assert_eq!(
        (c.fwd_left, c.fwd_right, c.rwd_left, c.rwd_right),
        (Level::Low, Level::High, Level::Low, Level::High)
    );

    c.left();
    assert_eq!(
        (c.fwd_left, c.fwd_right, c.rwd_left, c.rwd_right),
        (Level::Low, Level::Low, Level::Low, Level::Low)
    );

    c.right();
    assert_eq!(
        (c.fwd_left, c.fwd_right, c.rwd_left, c.rwd_right),
        (Level::High, Level::High, Level::High, Level::High)
    );
}

#[test]
fn forward_then_stop_halts() {
    let mut c = Chassis::new(4096);
    c.forward();
    c.stop();
    assert_eq!(c.fwd.duty, 0);
    assert_eq!(c.rwd.duty, 0);
    assert!(!c.fwd.enabled);
    assert!(!c.rwd.enabled);
    // The pins keep the forward levels; only the duty and enables change.
    assert_eq!(c.fwd_left, Level::High);
    assert_eq!(c.fwd_right, Level::Low);
}

#[test]
fn stop_after_any_direction_halts() {
    for cmd in [
        DirectionCommand::Forward,
        DirectionCommand::Back,
        DirectionCommand::Left,
        DirectionCommand::Right,
    ] {
        let mut c = Chassis::new(777);
        c.apply_command(cmd);
        assert!(c.fwd.enabled);
        c.apply_command(DirectionCommand::Stop);
        assert_eq!(c.fwd.duty, 0);
        assert!(!c.fwd.enabled);
        assert_eq!(c.rwd.duty, 0);
        assert!(!c.rwd.enabled);
    }
}

#[test]
fn stop_twice_equals_stop_once() {
    let mut once = Chassis::new(4096);
    once.forward();
    once.stop();

    let mut twice = Chassis::new(4096);
    twice.forward();
    twice.stop();
    twice.stop();

    assert_eq!(once, twice);
}

#[test]
fn unknown_command_changes_nothing() {
    let mut c = Chassis::new(4096);
    c.forward();
    let before = c;
    c.apply_command(DirectionCommand::Unknown);
    assert_eq!(c, before);
}
