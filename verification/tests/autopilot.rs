use simple_robot::autopilot::{autopilot_command, next_direction, MANEUVER_COOLDOWN_SECS};
use simple_robot::command::{ControlMode, DirectionCommand};
use simple_robot::ranger::distance_cm;

#[test]
fn forward_near_obstacle_stops() {
    assert_eq!(
        next_direction(DirectionCommand::Forward, 49),
        DirectionCommand::Stop
    );
}

#[test]
fn stopped_near_obstacle_turns_by_parity() {
    // 49 is odd: turn right; 48 is even: turn left.
    assert_eq!(
        next_direction(DirectionCommand::Stop, 49),
        DirectionCommand::Right
    );
    assert_eq!(
        next_direction(DirectionCommand::Stop, 48),
        DirectionCommand::Left
    );
}

#[test]
fn turning_with_open_road_goes_forward() {
    assert_eq!(
        next_direction(DirectionCommand::Left, 51),
        DirectionCommand::Forward
    );
    assert_eq!(
        next_direction(DirectionCommand::Right, 51),
        DirectionCommand::Forward
    );
    assert_eq!(
        next_direction(DirectionCommand::Stop, 51),
        DirectionCommand::Forward
    );
}

#[test]
fn forward_with_open_road_is_a_no_op() {
    assert_eq!(
        next_direction(DirectionCommand::Forward, 51),
        DirectionCommand::Unknown
    );
}

#[test]
fn threshold_distance_is_a_no_op() {
    // Exactly 50 is neither "less than" nor "greater than" the threshold.
    assert_eq!(
        next_direction(DirectionCommand::Forward, 50),
        DirectionCommand::Unknown
    );
    assert_eq!(
        next_direction(DirectionCommand::Stop, 50),
        DirectionCommand::Unknown
    );
    assert_eq!(
        next_direction(DirectionCommand::Left, 50),
        DirectionCommand::Unknown
    );
}

#[test]
fn other_directions_are_no_ops() {
    assert_eq!(
        next_direction(DirectionCommand::Back, 10),
        DirectionCommand::Unknown
    );
    assert_eq!(
        next_direction(DirectionCommand::Unknown, 10),
        DirectionCommand::Unknown
    );
}

#[test]
fn manual_mode_publishes_nothing() {
    assert_eq!(
        autopilot_command(ControlMode::Manual, DirectionCommand::Forward, 10),
        None
    );
}

#[test]
fn autopilot_mode_publishes_the_table_result() {
    assert_eq!(
        autopilot_command(ControlMode::AutoPilot, DirectionCommand::Forward, 10),
        Some(DirectionCommand::Stop)
    );
    // A no-op transition publishes nothing.
    assert_eq!(
        autopilot_command(ControlMode::AutoPilot, DirectionCommand::Forward, 51),
        None
    );
}

#[test]
fn cooldown_is_three_seconds() {
    assert_eq!(MANEUVER_COOLDOWN_SECS, 3);
}

#[test]
fn distance_follows_the_round_trip_formula() {
    // elapsed / 2 / 29, in integer steps.
    assert_eq!(distance_cm(5800), 100);
    assert_eq!(distance_cm(58), 1);
    assert_eq!(distance_cm(57), 0);
    assert_eq!(distance_cm(2900), 50);
    assert_eq!(distance_cm(0), 0);
    assert_eq!(distance_cm(117), 2);
}
