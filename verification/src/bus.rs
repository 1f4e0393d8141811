//! The single-slot, multi-subscriber command bus.
//!
//! Every decoded or synthesized command is published into one shared slot,
//! overwriting whatever an overtaken subscriber had not yet read: the bus
//! sheds load rather than queueing.  Each subscriber holds a cursor — the
//! publish count it has caught up to — and a read hands it the slot exactly
//! when publishes have happened past its cursor, advancing the cursor to the
//! present.  A subscriber therefore receives only commands published after it
//! subscribed, and after any gap it observes only the most recent one.

use crate::command::DirectionCommand;
use vstd::prelude::*;

verus! {

/// Bound on concurrently active subscribers, as the channel is configured.
pub const MAX_SUBSCRIBERS: usize = 2;

/// The bus state: the latest published command, how many publishes have
/// happened, and one cursor per subscriber.
pub struct CommandBus {
    latest: Option<DirectionCommand>,
    generation: u64,
    cursors: Vec<u64>,
}

impl CommandBus {
    /// The command in the slot, if any publish has happened yet.
    pub closed spec fn latest(&self) -> Option<DirectionCommand> {
        self.latest
    }

    /// How many commands have been published so far.
    pub closed spec fn generation(&self) -> u64 {
        self.generation
    }

    /// The publish count each subscriber has caught up to.
    pub closed spec fn cursors(&self) -> Seq<u64> {
        self.cursors@
    }

    pub open spec fn num_subscribers(&self) -> nat {
        self.cursors().len()
    }

    /// Bus validity: no more cursors than the configured bound, no cursor
    /// ahead of the publish count, and a command in the slot exactly when
    /// something has been published.
    pub open spec fn wf(&self) -> bool {
        &&& self.cursors().len() <= MAX_SUBSCRIBERS
        &&& (forall|i: int| 0 <= i < self.cursors().len() ==> self.cursors()[i]
            <= self.generation())
        &&& (self.latest() is Some <==> self.generation() > 0)
    }

    /// A fresh bus: nothing published, nobody subscribed.
    pub fn new() -> (b: CommandBus)
        ensures
            b.wf(),
            b.generation() == 0,
            b.latest() is None,
            b.num_subscribers() == 0,
    {
        CommandBus { latest: None, generation: 0, cursors: Vec::new() }
    }

    /// How many publishes have happened, for callers outside the proofs.
    pub fn generation_count(&self) -> (g: u64)
        ensures
            g == self.generation(),
    {
        self.generation
    }

    /// Registers a consumer.  The new cursor starts at the current publish
    /// count, so the subscriber receives only future publishes.  Fails once
    /// the configured bound is reached.
    pub fn subscribe(&mut self) -> (r: Option<usize>)
        requires
            old(self).wf(),
        ensures
            final(self).wf(),
            final(self).latest() == old(self).latest(),
            final(self).generation() == old(self).generation(),
            old(self).num_subscribers() < MAX_SUBSCRIBERS ==> (r == Some(
                old(self).num_subscribers() as usize,
            ) && final(self).cursors() == old(self).cursors().push(old(self).generation())),
            old(self).num_subscribers() >= MAX_SUBSCRIBERS ==> (r is None && final(self).cursors()
                == old(self).cursors()),
    {
        if self.cursors.len() < MAX_SUBSCRIBERS {
            let id = self.cursors.len();
            self.cursors.push(self.generation);
            Some(id)
        } else {
            None
        }
    }

    /// Replaces the slot unconditionally — an unread previous command is
    /// dropped — and bumps the publish count.  Cursors are untouched, so
    /// every subscriber now has this command outstanding.
    pub fn publish(&mut self, cmd: DirectionCommand)
        requires
            old(self).wf(),
            old(self).generation() < u64::MAX,
        ensures
            final(self).wf(),
            *final(self) == spec_publish(*old(self), cmd),
            final(self).latest() == Some(cmd),
            final(self).generation() == old(self).generation() + 1,
            final(self).cursors() == old(self).cursors(),
    {
        self.latest = Some(cmd);
        self.generation = self.generation + 1;
    }

    /// Hands subscriber `sub` the slot if publishes have happened past its
    /// cursor, catching the cursor up; otherwise nothing.  A subscriber that
    /// fell behind several publishes gets only the most recent command.
    pub fn try_next(&mut self, sub: usize) -> (r: Option<DirectionCommand>)
        requires
            old(self).wf(),
            sub < old(self).num_subscribers(),
        ensures
            final(self).wf(),
            final(self).latest() == old(self).latest(),
            final(self).generation() == old(self).generation(),
            r == spec_read(*old(self), sub as int),
            old(self).cursors()[sub as int] < old(self).generation() ==> final(self).cursors()
                == old(self).cursors().update(sub as int, old(self).generation()),
            old(self).cursors()[sub as int] >= old(self).generation() ==> final(self).cursors()
                == old(self).cursors(),
    {
        if self.cursors[sub] < self.generation {
            let gen = self.generation;
            self.cursors.set(sub, gen);
            Some(self.latest.unwrap())
        } else {
            None
        }
    }
}

/// The bus state after one publish.
pub closed spec fn spec_publish(b: CommandBus, cmd: DirectionCommand) -> CommandBus {
    CommandBus {
        latest: Some(cmd),
        generation: (b.generation + 1) as u64,
        cursors: b.cursors,
    }
}

/// What a read by subscriber `sub` returns: the slot when the subscriber's
/// cursor is behind the publish count, nothing otherwise.
pub open spec fn spec_read(b: CommandBus, sub: int) -> Option<DirectionCommand> {
    if b.cursors()[sub] < b.generation() {
        b.latest()
    } else {
        None
    }
}

/// The bus state after publishing every command of `cmds` in order.
pub closed spec fn spec_publish_all(b: CommandBus, cmds: Seq<DirectionCommand>) -> CommandBus
    decreases cmds.len(),
{
    if cmds.len() == 0 {
        b
    } else {
        spec_publish_all(spec_publish(b, cmds.first()), cmds.drop_first())
    }
}

/// A subscriber that misses any number of publishes observes, on its next
/// read, exactly the latest of them — never an earlier one.
pub proof fn lemma_reader_observes_latest(b: CommandBus, cmds: Seq<DirectionCommand>, sub: int)
    requires
        b.wf(),
        0 <= sub < b.num_subscribers(),
        cmds.len() > 0,
        b.generation() + cmds.len() <= u64::MAX,
    ensures
        spec_publish_all(b, cmds).wf(),
        spec_read(spec_publish_all(b, cmds), sub) == Some(cmds.last()),
    decreases cmds.len(),
{
    let b1 = spec_publish(b, cmds.first());
    assert(b1.wf());
    if cmds.len() == 1 {
        assert(spec_publish_all(b, cmds) == b1);
    } else {
        assert(cmds.drop_first().last() == cmds.last());
        lemma_reader_observes_latest(b1, cmds.drop_first(), sub);
    }
}

} // verus!
