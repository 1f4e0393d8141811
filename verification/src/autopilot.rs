//! The autopilot decision function.
//!
//! Once per distance sample, and only while the robot is in autonomous mode,
//! the autopilot maps the latest active direction and the measured distance to
//! the next direction and injects it onto the command bus.  The function here
//! is pure; the task around it owns the sample subscription, the publish and
//! the fixed cooldown after a maneuver.

use crate::command::{ControlMode, DirectionCommand};
use vstd::prelude::*;

verus! {

/// An obstacle closer than this many centimeters triggers a maneuver; open
/// road further than this clears one.
pub const OBSTACLE_THRESHOLD_CM: u64 = 50;

/// Seconds the autopilot waits after publishing a maneuver, to let it
/// complete before the next sample is acted on.
pub const MANEUVER_COOLDOWN_SECS: u64 = 3;

/// The transition table, evaluated on the active direction and the distance:
///
/// - going forward onto an obstacle closer than the threshold: stop;
/// - stopped in front of an obstacle closer than the threshold: turn, left on
///   an even distance, right on an odd one;
/// - stopped or turning with open road beyond the threshold: go forward;
/// - anything else, a distance exactly at the threshold included: `Unknown`,
///   which no consumer acts on.
pub open spec fn spec_next_direction(current: DirectionCommand, distance_cm: u64) -> DirectionCommand {
    if current == DirectionCommand::Forward && distance_cm < OBSTACLE_THRESHOLD_CM {
        DirectionCommand::Stop
    } else if current == DirectionCommand::Stop && distance_cm < OBSTACLE_THRESHOLD_CM {
        if distance_cm % 2 == 0 {
            DirectionCommand::Left
        } else {
            DirectionCommand::Right
        }
    } else if (current == DirectionCommand::Left || current == DirectionCommand::Right
        || current == DirectionCommand::Stop) && distance_cm > OBSTACLE_THRESHOLD_CM {
        DirectionCommand::Forward
    } else {
        DirectionCommand::Unknown
    }
}

/// What one distance sample makes the autopilot publish: nothing in manual
/// mode, nothing when the table yields `Unknown`, the table's direction
/// otherwise.
pub open spec fn spec_autopilot_command(
    mode: ControlMode,
    current: DirectionCommand,
    distance_cm: u64,
) -> Option<DirectionCommand> {
    if mode == ControlMode::AutoPilot && spec_next_direction(current, distance_cm)
        != DirectionCommand::Unknown {
        Some(spec_next_direction(current, distance_cm))
    } else {
        None
    }
}

/// Evaluates the transition table on one distance sample.
pub fn next_direction(current: DirectionCommand, distance_cm: u64) -> (r: DirectionCommand)
    ensures
        r == spec_next_direction(current, distance_cm),
{
    match current {
        DirectionCommand::Forward if distance_cm < OBSTACLE_THRESHOLD_CM => DirectionCommand::Stop,
        DirectionCommand::Stop if distance_cm < OBSTACLE_THRESHOLD_CM => {
            if distance_cm % 2 == 0 {
                DirectionCommand::Left
            } else {
                DirectionCommand::Right
            }
        },
        DirectionCommand::Left if distance_cm > OBSTACLE_THRESHOLD_CM => DirectionCommand::Forward,
        DirectionCommand::Right if distance_cm > OBSTACLE_THRESHOLD_CM => DirectionCommand::Forward,
        DirectionCommand::Stop if distance_cm > OBSTACLE_THRESHOLD_CM => DirectionCommand::Forward,
        _ => DirectionCommand::Unknown,
    }
}

/// Decides what, if anything, the autopilot publishes for one sample.
pub fn autopilot_command(
    mode: ControlMode,
    current: DirectionCommand,
    distance_cm: u64,
) -> (r: Option<DirectionCommand>)
    ensures
        r == spec_autopilot_command(mode, current, distance_cm),
{
    if mode != ControlMode::AutoPilot {
        return None;
    }
    let next = next_direction(current, distance_cm);
    if next == DirectionCommand::Unknown {
        None
    } else {
        Some(next)
    }
}

} // verus!
