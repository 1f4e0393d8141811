//! The dual-axle chassis actuator.
//!
//! The real drive is a complementary PWM timer and four direction pins; this
//! module holds the state those registers are driven to.  A [`Chassis`] value
//! records, per axle, the PWM duty, polarity and enable flag, and the level of
//! each direction pin; the task that owns the hardware mirrors every change of
//! the value onto the registers.  Direction and stop/go are the only degrees
//! of freedom: any moving state runs at duty `max_duty / 2`.

use crate::command::DirectionCommand;
use vstd::prelude::*;

verus! {

/// Level driven onto a digital direction pin.
#[derive(Clone, Copy, Debug, PartialEq, Eq, Structural)]
pub enum Level {
    High,
    Low,
}

/// Output polarity of a PWM channel.  The actuator always drives active-high;
/// the variant is recorded so that the state says everything the registers do.
#[derive(Clone, Copy, Debug, PartialEq, Eq, Structural)]
pub enum Polarity {
    ActiveHigh,
    ActiveLow,
}

/// One PWM channel: its duty register, polarity and enable flag.
#[derive(Clone, Copy, Debug, PartialEq, Eq, Structural)]
pub struct PwmChannel {
    pub duty: u16,
    pub polarity: Polarity,
    pub enabled: bool,
}

/// Observable state of the drive: one PWM channel and one direction-pin pair
/// per axle, plus the duty ceiling and dead time fixed at construction.
///
/// The front and rear axles mirror each other: every operation drives them
/// identically.
#[derive(Clone, Copy, Debug, PartialEq, Eq, Structural)]
pub struct Chassis {
    /// Duty ceiling of the PWM timer for the configured period.
    pub max_duty: u16,
    /// Gap between a channel and its complement switching, `max_duty / 1024`.
    pub dead_time: u16,
    /// Front-axle PWM channel.
    pub fwd: PwmChannel,
    /// Rear-axle PWM channel.
    pub rwd: PwmChannel,
    pub fwd_left: Level,
    pub fwd_right: Level,
    pub rwd_left: Level,
    pub rwd_right: Level,
}

impl Chassis {
    /// State right after construction: polarity active-high, duty zero,
    /// channels disabled, pins at their reset levels.
    pub open spec fn spec_new(max_duty: u16) -> Chassis {
        Chassis {
            max_duty,
            dead_time: (max_duty / 1024) as u16,
            fwd: (PwmChannel { duty: 0, polarity: Polarity::ActiveHigh, enabled: false }),
            rwd: (PwmChannel { duty: 0, polarity: Polarity::ActiveHigh, enabled: false }),
            fwd_left: Level::High,
            fwd_right: Level::Low,
            rwd_left: Level::High,
            rwd_right: Level::Low,
        }
    }

    /// Both channels running at half the duty ceiling; pins untouched.
    pub open spec fn spec_start(self) -> Chassis {
        Chassis {
            fwd: (PwmChannel { duty: (self.max_duty / 2) as u16, enabled: true, ..self.fwd }),
            rwd: (PwmChannel { duty: (self.max_duty / 2) as u16, enabled: true, ..self.rwd }),
            ..self
        }
    }

    /// Both channels at duty zero and disabled; pins untouched.
    pub open spec fn spec_stop(self) -> Chassis {
        Chassis {
            fwd: (PwmChannel { duty: 0, enabled: false, ..self.fwd }),
            rwd: (PwmChannel { duty: 0, enabled: false, ..self.rwd }),
            ..self
        }
    }

    /// The direction-pin table: left high, right low on both axles.
    pub open spec fn spec_forward(self) -> Chassis {
        Chassis {
            fwd_left: Level::High,
            fwd_right: Level::Low,
            rwd_left: Level::High,
            rwd_right: Level::Low,
            ..self
        }.spec_start()
    }

    /// The direction-pin table: left low, right high on both axles.
    pub open spec fn spec_back(self) -> Chassis {
        Chassis {
            fwd_left: Level::Low,
            fwd_right: Level::High,
            rwd_left: Level::Low,
            rwd_right: Level::High,
            ..self
        }.spec_start()
    }

    /// The direction-pin table: all four pins low.
    pub open spec fn spec_left(self) -> Chassis {
        Chassis {
            fwd_left: Level::Low,
            fwd_right: Level::Low,
            rwd_left: Level::Low,
            rwd_right: Level::Low,
            ..self
        }.spec_start()
    }

    /// The direction-pin table: all four pins high.
    pub open spec fn spec_right(self) -> Chassis {
        Chassis {
            fwd_left: Level::High,
            fwd_right: Level::High,
            rwd_left: Level::High,
            rwd_right: Level::High,
            ..self
        }.spec_start()
    }

    /// What one direction command does to the state.  `Unknown` is a no-op.
    pub open spec fn spec_apply(self, cmd: DirectionCommand) -> Chassis {
        match cmd {
            DirectionCommand::Forward => self.spec_forward(),
            DirectionCommand::Back => self.spec_back(),
            DirectionCommand::Left => self.spec_left(),
            DirectionCommand::Right => self.spec_right(),
            DirectionCommand::Stop => self.spec_stop(),
            DirectionCommand::Unknown => self,
        }
    }

    /// Both channels at rest: duty zero, disabled.
    pub open spec fn halted(self) -> bool {
        &&& self.fwd.duty == 0
        &&& !self.fwd.enabled
        &&& self.rwd.duty == 0
        &&& !self.rwd.enabled
    }

    /// The state invariant: dead time and polarity as fixed at construction,
    /// both axles driven identically, and the channels either at rest or
    /// running at half the duty ceiling with the channel enabled.
    pub open spec fn wf(self) -> bool {
        &&& self.dead_time == self.max_duty / 1024
        &&& self.fwd.polarity == Polarity::ActiveHigh
        &&& self.rwd.polarity == Polarity::ActiveHigh
        &&& self.fwd == self.rwd
        &&& (self.halted() || (self.fwd.duty == self.max_duty / 2 && self.fwd.enabled
            && self.rwd.enabled))
    }

    /// Builds the actuator state for a timer whose duty ceiling is
    /// `max_duty`, with the dead time derived from it.
    pub fn new(max_duty: u16) -> (c: Chassis)
        ensures
            c == Chassis::spec_new(max_duty),
            c.wf(),
    {
        Chassis {
            max_duty,
            dead_time: max_duty / 1024,
            fwd: PwmChannel { duty: 0, polarity: Polarity::ActiveHigh, enabled: false },
            rwd: PwmChannel { duty: 0, polarity: Polarity::ActiveHigh, enabled: false },
            fwd_left: Level::High,
            fwd_right: Level::Low,
            rwd_left: Level::High,
            rwd_right: Level::Low,
        }
    }

    /// Runs both channels at half the duty ceiling and enables them.
    pub fn start(&mut self)
        ensures
            *final(self) == (*old(self)).spec_start(),
    {
        let half = self.max_duty / 2;
        self.fwd.duty = half;
        self.rwd.duty = half;
        self.fwd.enabled = true;
        self.rwd.enabled = true;
    }

    /// Forces both duties to zero and disables the channels; the direction
    /// pins keep whatever levels they had.
    pub fn stop(&mut self)
        ensures
            *final(self) == (*old(self)).spec_stop(),
    {
        self.fwd.duty = 0;
        self.rwd.duty = 0;
        self.fwd.enabled = false;
        self.rwd.enabled = false;
    }

    /// Left pins high, right pins low, then start.
    pub fn forward(&mut self)
        ensures
            *final(self) == (*old(self)).spec_forward(),
    {
        self.fwd_left = Level::High;
        self.fwd_right = Level::Low;
        self.rwd_left = Level::High;
        self.rwd_right = Level::Low;
        self.start();
    }

    /// Left pins low, right pins high, then start.
    pub fn back(&mut self)
        ensures
            *final(self) == (*old(self)).spec_back(),
    {
        self.fwd_left = Level::Low;
        self.fwd_right = Level::High;
        self.rwd_left = Level::Low;
        self.rwd_right = Level::High;
        self.start();
    }

    /// All four pins low, then start.
    pub fn left(&mut self)
        ensures
            *final(self) == (*old(self)).spec_left(),
    {
        self.fwd_left = Level::Low;
        self.fwd_right = Level::Low;
        self.rwd_left = Level::Low;
        self.rwd_right = Level::Low;
        self.start();
    }

    /// All four pins high, then start.
    pub fn right(&mut self)
        ensures
            *final(self) == (*old(self)).spec_right(),
    {
        self.fwd_left = Level::High;
        self.fwd_right = Level::High;
        self.rwd_left = Level::High;
        self.rwd_right = Level::High;
        self.start();
    }

    /// Dispatches one bus command to the drive.
    pub fn apply_command(&mut self, cmd: DirectionCommand)
        ensures
            *final(self) == (*old(self)).spec_apply(cmd),
    {
        match cmd {
            DirectionCommand::Forward => self.forward(),
            DirectionCommand::Back => self.back(),
            DirectionCommand::Left => self.left(),
            DirectionCommand::Right => self.right(),
            DirectionCommand::Stop => self.stop(),
            DirectionCommand::Unknown => (),
        }
    }
}

/// Every command leaves the state invariant intact.
pub proof fn lemma_apply_preserves_wf(c: Chassis, cmd: DirectionCommand)
    requires
        c.wf(),
    ensures
        c.spec_apply(cmd).wf(),
{
}

/// Issuing `forward` and then `stop` leaves both channels at duty zero and
/// disabled, whatever the prior direction-pin levels were.
pub proof fn lemma_forward_then_stop_halts(c: Chassis)
    ensures
        c.spec_forward().spec_stop().halted(),
{
}

/// Stopping twice in a row produces the same observable state as stopping
/// once.
pub proof fn lemma_stop_idempotent(c: Chassis)
    ensures
        c.spec_stop().spec_stop() == c.spec_stop(),
{
}

} // verus!
