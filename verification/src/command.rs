//! The two closed enumerations shared by every component: the direction
//! commands carried on the bus and the manual/autonomous control mode.

use vstd::prelude::*;

verus! {

/// A discrete motion command, produced by decoding a serial line or by the
/// autopilot, and consumed by the chassis actuator.
///
/// `Unknown` stands for an unrecognized or malformed line; every consumer
/// treats it as a no-op.
#[derive(Clone, Copy, Debug, PartialEq, Eq, Structural)]
pub enum DirectionCommand {
    Forward,
    Back,
    Left,
    Right,
    Stop,
    Unknown,
}

/// Whether the robot obeys remote commands alone or lets the autopilot
/// inject commands of its own.
#[derive(Clone, Copy, Debug, PartialEq, Eq, Structural)]
pub enum ControlMode {
    AutoPilot,
    Manual,
}

impl Default for DirectionCommand {
    /// The direction on record before any command has been received.
    fn default() -> (r: Self)
        ensures
            r == DirectionCommand::Stop,
    {
        DirectionCommand::Stop
    }
}

impl Default for ControlMode {
    /// The mode in force before any command has been received.
    fn default() -> (r: Self)
        ensures
            r == ControlMode::Manual,
    {
        ControlMode::Manual
    }
}

} // verus!
