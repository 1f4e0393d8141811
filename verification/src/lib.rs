//! Control core of a small wheeled robot.
//!
//! A stream of single-character remote commands and a periodic distance
//! reading are turned into motor-direction and PWM-duty decisions:
//!
//! - [`decoder::CommandDecoder`] accumulates transport bytes into lines and
//!   maps each closed line to a [`command::DirectionCommand`] and a
//!   [`command::ControlMode`];
//! - [`bus::CommandBus`] fans each decoded or synthesized command out to every
//!   subscriber through a single lossy slot;
//! - [`chassis::Chassis`] translates a direction command into PWM duty,
//!   enable flags and direction-pin levels;
//! - [`autopilot`] maps a measured distance and the active direction into the
//!   next direction when autonomous mode is engaged;
//! - [`ranger`] derives a distance in centimeters from a timed echo pulse.
//!
//! The transport, the timers and the PWM hardware themselves live outside the
//! library; its functions work on plain values that the surrounding tasks
//! read from and write to those peripherals.

pub mod autopilot;
pub mod bus;
pub mod chassis;
pub mod command;
pub mod decoder;
pub mod ranger;

use vstd::prelude::*;

verus! {

/// The banner sent once over the serial link when it comes up.
pub fn greeting() -> (r: &'static str)
    ensures
        r@ == "Hello from Robot\r\n"@,
{
    "Hello from Robot\r\n"
}

} // verus!
