//! The line-oriented command decoder.
//!
//! Bytes arrive from the transport one at a time and are accumulated in a
//! fixed-capacity buffer.  A line closes when a terminator byte (newline or
//! carriage return) arrives or when the buffer is already full; the closed
//! line is then matched against the single-character tokens, yielding a
//! [`DirectionCommand`] and the [`ControlMode`] the token selects.  Overflow
//! never drops bytes: a non-terminator byte that forces a close is folded
//! into the next line.
//!
//! The accumulation buffer is a `heapless::Vec`, the fixed-capacity vector
//! the transport task uses; its operations stand behind trusted wrappers and
//! everything around them is verified against the spec-level model
//! ([`next_buffer`], [`emitted`]).

use crate::command::{ControlMode, DirectionCommand};
use vstd::prelude::*;

verus! {

/// Bytes a line may accumulate before it is forcibly closed.
pub const LINE_CAPACITY: usize = 10;

/// Newline and carriage return close a line.
pub open spec fn is_terminator(b: u8) -> bool {
    b == 10 || b == 13
}

/// A line closes when the byte is a terminator or the buffer is already full.
pub open spec fn line_closes(buf: Seq<u8>, b: u8) -> bool {
    buf.len() >= LINE_CAPACITY || is_terminator(b)
}

/// The buffer after one byte: emptied on a close — except that a
/// non-terminator byte which closed a full line starts the next line — and
/// extended by the byte otherwise.
pub open spec fn next_buffer(buf: Seq<u8>, b: u8) -> Seq<u8> {
    if line_closes(buf, b) {
        if buf.len() >= LINE_CAPACITY && !is_terminator(b) {
            seq![b]
        } else {
            Seq::empty()
        }
    } else {
        buf.push(b)
    }
}

/// Whether the line is the given single-byte token.
pub open spec fn line_is_token(line: Seq<u8>, token: u8) -> bool {
    line.len() == 1 && line[0] == token
}

/// The direction a closed line selects: the tokens `f`, `b`, `l`, `r`, `s`
/// map to their directions; every other line — the mode token `a` included —
/// is `Unknown`, which no consumer acts on.
pub open spec fn command_of_line(line: Seq<u8>) -> DirectionCommand {
    if line_is_token(line, 102) {  // 'f'
        DirectionCommand::Forward
    } else if line_is_token(line, 98) {  // 'b'
        DirectionCommand::Back
    } else if line_is_token(line, 108) {  // 'l'
        DirectionCommand::Left
    } else if line_is_token(line, 114) {  // 'r'
        DirectionCommand::Right
    } else if line_is_token(line, 115) {  // 's'
        DirectionCommand::Stop
    } else {
        DirectionCommand::Unknown
    }
}

/// The mode a closed line selects: the token `a` engages the autopilot, every
/// other line reverts to manual.
pub open spec fn mode_of_line(line: Seq<u8>) -> ControlMode {
    if line_is_token(line, 97) {  // 'a'
        ControlMode::AutoPilot
    } else {
        ControlMode::Manual
    }
}

/// What one closed line means: the command to publish and the mode to set.
pub open spec fn line_event(line: Seq<u8>) -> LineEvent {
    LineEvent { command: command_of_line(line), mode: mode_of_line(line) }
}

/// What one byte emits: the buffered line's meaning on a close, nothing
/// otherwise.
pub open spec fn emitted(buf: Seq<u8>, b: u8) -> Option<LineEvent> {
    if line_closes(buf, b) {
        Some(line_event(buf))
    } else {
        None
    }
}

/// The meaning of one closed line: the direction command to publish and the
/// control mode its token selects.
#[derive(Clone, Copy, Debug, PartialEq, Eq, Structural)]
pub struct LineEvent {
    pub command: DirectionCommand,
    pub mode: ControlMode,
}

#[verifier::external_type_specification]
#[verifier::external_body]
#[verifier::reject_recursive_types(T)]
pub struct ExHeaplessVec<T, const N: usize>(heapless::Vec<T, N>);

/// The bytes a `heapless::Vec` accumulation buffer holds, in order.
pub uninterp spec fn buffered(v: heapless::Vec<u8, LINE_CAPACITY>) -> Seq<u8>;

/// Relies on heapless::Vec::new: a fresh vector is empty.
#[verifier::external_body]
fn buf_new() -> (v: heapless::Vec<u8, LINE_CAPACITY>)
    ensures
        buffered(v) == Seq::<u8>::empty(),
{
    heapless::Vec::new()
}

/// Relies on heapless::Vec::push: appends the item when the vector is not
/// full, which the precondition guarantees.
#[verifier::external_body]
fn buf_push(v: &mut heapless::Vec<u8, LINE_CAPACITY>, b: u8)
    requires
        buffered(*old(v)).len() < LINE_CAPACITY,
    ensures
        buffered(*final(v)) == buffered(*old(v)).push(b),
{
    let _ = v.push(b);
}

/// Relies on heapless::Vec::clear: removes every element.
#[verifier::external_body]
fn buf_clear(v: &mut heapless::Vec<u8, LINE_CAPACITY>)
    ensures
        buffered(*final(v)) == Seq::<u8>::empty(),
{
    v.clear();
}

/// Relies on heapless::Vec::is_full: true exactly when the length has reached
/// the capacity, which the length never exceeds.
#[verifier::external_body]
fn buf_is_full(v: &heapless::Vec<u8, LINE_CAPACITY>) -> (r: bool)
    ensures
        r == (buffered(*v).len() >= LINE_CAPACITY),
{
    v.is_full()
}

/// Relies on heapless::Vec::as_slice: the stored elements, in order.
#[verifier::external_body]
fn buf_bytes(v: &heapless::Vec<u8, LINE_CAPACITY>) -> (r: Vec<u8>)
    ensures
        r@ == buffered(*v),
{
    v.as_slice().to_vec()
}

/// The decoder: a bounded accumulation buffer.  Its view is the bytes of the
/// line being accumulated.
pub struct CommandDecoder {
    buf: heapless::Vec<u8, LINE_CAPACITY>,
}

impl View for CommandDecoder {
    type V = Seq<u8>;

    closed spec fn view(&self) -> Seq<u8> {
        buffered(self.buf)
    }
}

impl CommandDecoder {
    /// Buffer validity: the accumulated line never exceeds the capacity.
    pub open spec fn wf(&self) -> bool {
        self@.len() <= LINE_CAPACITY
    }

    /// A fresh decoder with an empty buffer.
    pub fn new() -> (d: CommandDecoder)
        ensures
            d@ == Seq::<u8>::empty(),
            d.wf(),
    {
        CommandDecoder { buf: buf_new() }
    }

    /// Consumes one transport byte: emits the buffered line's meaning when
    /// the byte closes it, buffers the byte otherwise.
    pub fn feed(&mut self, b: u8) -> (r: Option<LineEvent>)
        requires
            old(self).wf(),
        ensures
            final(self).wf(),
            final(self)@ == next_buffer(old(self)@, b),
            r == emitted(old(self)@, b),
    {
        let full = buf_is_full(&self.buf);
        let term = b == 10 || b == 13;
        if full || term {
            let line = buf_bytes(&self.buf);
            buf_clear(&mut self.buf);
            if full && !term {
                buf_push(&mut self.buf, b);
            }
            Some(classify_line(&line))
        } else {
            buf_push(&mut self.buf, b);
            None
        }
    }

    /// Feeds a whole chunk of transport bytes, collecting every emitted
    /// event in order.
    pub fn feed_all(&mut self, bytes: &Vec<u8>) -> (events: Vec<LineEvent>)
        requires
            old(self).wf(),
        ensures
            final(self).wf(),
            final(self)@ == buffer_from(old(self)@, bytes@),
            events@ == events_from(old(self)@, bytes@),
    {
        let mut events: Vec<LineEvent> = Vec::new();
        let ghost start = self@;
        let mut i: usize = 0;
        proof {
            assert(bytes@.skip(0) =~= bytes@);
            assert(events@ + events_from(start, bytes@) =~= events_from(start, bytes@));
        }
        while i < bytes.len()
            invariant
                i <= bytes.len(),
                self.wf(),
                buffer_from(start, bytes@) == buffer_from(self@, bytes@.skip(i as int)),
                events_from(start, bytes@) == events@ + events_from(self@, bytes@.skip(i as int)),
            decreases bytes.len() - i,
        {
            let ghost pre = self@;
            let ghost tail = bytes@.skip(i as int);
            proof {
                assert(tail.first() == bytes@[i as int]);
                assert(tail.drop_first() =~= bytes@.skip(i as int + 1));
            }
            let r = self.feed(bytes[i]);
            match r {
                Some(e) => {
                    events.push(e);
                },
                None => (),
            }
            proof {
                assert(events_from(pre, tail) == (if line_closes(pre, bytes@[i as int]) {
                    seq![line_event(pre)] + events_from(self@, tail.drop_first())
                } else {
                    events_from(self@, tail.drop_first())
                }));
                if line_closes(pre, bytes@[i as int]) {
                    assert(events@ =~= (events@.drop_last() + seq![line_event(pre)]));
                    assert((events@.drop_last() + seq![line_event(pre)]) + events_from(
                        self@,
                        tail.drop_first(),
                    ) =~= events@.drop_last() + (seq![line_event(pre)] + events_from(
                        self@,
                        tail.drop_first(),
                    )));
                }
            }
            i = i + 1;
        }
        proof {
            assert(bytes@.skip(bytes@.len() as int) =~= Seq::<u8>::empty());
            assert(events@ + Seq::<LineEvent>::empty() =~= events@);
        }
        events
    }
}

/// The buffer after feeding every byte of `bytes` in order.
pub open spec fn buffer_from(buf: Seq<u8>, bytes: Seq<u8>) -> Seq<u8>
    decreases bytes.len(),
{
    if bytes.len() == 0 {
        buf
    } else {
        buffer_from(next_buffer(buf, bytes.first()), bytes.drop_first())
    }
}

/// The events emitted while feeding every byte of `bytes` in order, starting
/// from an accumulated `buf`.
pub open spec fn events_from(buf: Seq<u8>, bytes: Seq<u8>) -> Seq<LineEvent>
    decreases bytes.len(),
{
    if bytes.len() == 0 {
        Seq::empty()
    } else {
        let rest = events_from(next_buffer(buf, bytes.first()), bytes.drop_first());
        if line_closes(buf, bytes.first()) {
            seq![line_event(buf)] + rest
        } else {
            rest
        }
    }
}

/// The lines into which the byte stream splits: each is the buffer content at
/// the moment a byte closed it.
pub open spec fn lines_from(buf: Seq<u8>, bytes: Seq<u8>) -> Seq<Seq<u8>>
    decreases bytes.len(),
{
    if bytes.len() == 0 {
        Seq::empty()
    } else {
        let rest = lines_from(next_buffer(buf, bytes.first()), bytes.drop_first());
        if line_closes(buf, bytes.first()) {
            seq![buf] + rest
        } else {
            rest
        }
    }
}

/// Incremental decoding is equivalent to batch decoding: the events emitted
/// while feeding a byte stream one byte at a time are exactly the pure line
/// decoder mapped over the lines into which the same stream splits.
pub proof fn lemma_incremental_equals_batch(buf: Seq<u8>, bytes: Seq<u8>)
    ensures
        events_from(buf, bytes) == lines_from(buf, bytes).map_values(
            |line: Seq<u8>| line_event(line),
        ),
    decreases bytes.len(),
{
    let f = |line: Seq<u8>| line_event(line);
    if bytes.len() == 0 {
        assert(events_from(buf, bytes) =~= lines_from(buf, bytes).map_values(f));
    } else {
        lemma_incremental_equals_batch(next_buffer(buf, bytes.first()), bytes.drop_first());
        assert(events_from(buf, bytes) =~= lines_from(buf, bytes).map_values(f));
    }
}

/// Matches a closed line against the tokens.
pub fn classify_line(line: &Vec<u8>) -> (e: LineEvent)
    ensures
        e == line_event(line@),
{
    let command = if is_token(line, 102) {
        DirectionCommand::Forward
    } else if is_token(line, 98) {
        DirectionCommand::Back
    } else if is_token(line, 108) {
        DirectionCommand::Left
    } else if is_token(line, 114) {
        DirectionCommand::Right
    } else if is_token(line, 115) {
        DirectionCommand::Stop
    } else {
        DirectionCommand::Unknown
    };
    let mode = if is_token(line, 97) {
        ControlMode::AutoPilot
    } else {
        ControlMode::Manual
    };
    LineEvent { command, mode }
}

/// Whether the line is exactly the given single-byte token.
fn is_token(line: &Vec<u8>, token: u8) -> (r: bool)
    ensures
        r == line_is_token(line@, token),
{
    line.len() == 1 && line[0] == token
}

} // verus!
