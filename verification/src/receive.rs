//! The receive loop, one decision at a time.
//!
//! The loop reads a buffer from the connection's descriptor, hands what it
//! read to the native parser, and reads again. A read that fails ends the loop.
//! A buffer that the parser rejects does not: the loop goes on to the next
//! read. This module decides; the program around it reads and calls, and
//! reports each result as a [`LoopEvent`].

use vstd::prelude::*;
use crate::native::NativeCall;

verus! {

/// The size of the receive buffer: room for the largest message that the
/// kernel sends, the packet data included.
pub const RECV_BUFFER_SIZE: usize = 65536;

/// What came back from the work that the loop asked for.
#[derive(Clone, Copy, Debug, PartialEq, Eq)]
pub enum LoopEvent {
    /// The read returned this: the number of bytes, or a negative number
    /// where it failed.
    ReadResult(isize),
    /// The native parser returned this: a negative number where it rejected
    /// the buffer.
    ParseResult(i32),
}

impl LoopEvent {
    /// Whether the event reports a failure.
    pub open spec fn spec_is_failure(self) -> bool {
        match self {
            LoopEvent::ReadResult(count) => count < 0,
            LoopEvent::ParseResult(code) => code < 0,
        }
    }

    /// Whether the event reports a failed read, which ends the loop.
    pub open spec fn spec_is_fatal(self) -> bool {
        self matches LoopEvent::ReadResult(count) && count < 0
    }

    /// Whether the event reports a failure.
    pub fn is_failure(&self) -> (failed: bool)
        ensures
            failed == self.spec_is_failure(),
    {
        match self {
            LoopEvent::ReadResult(count) => *count < 0,
            LoopEvent::ParseResult(code) => *code < 0,
        }
    }

    /// Whether the event reports a failed read, which ends the loop.
    pub fn is_fatal(&self) -> (fatal: bool)
        ensures
            fatal == self.spec_is_fatal(),
    {
        match self {
            LoopEvent::ReadResult(count) => *count < 0,
            LoopEvent::ParseResult(_) => false,
        }
    }
}

/// What the loop asks for next.
#[derive(Clone, Copy, Debug, PartialEq, Eq)]
pub enum LoopAction {
    /// Read up to `capacity` bytes from the descriptor `fd` into the receive
    /// buffer, and wait until there is something to read.
    Receive { fd: i32, capacity: usize },
    /// Make this native call.
    Call(NativeCall),
    /// Stop: the descriptor cannot be read any more.
    Abort,
}

/// Where the loop stands.
#[derive(Clone, Copy, Debug, PartialEq, Eq)]
pub enum LoopPhase {
    /// A read is due, or under way.
    Reading,
    /// The receive buffer holds `length` bytes that the parser has not
    /// answered for yet.
    Parsing { length: i32 },
    /// A read has failed.
    Aborted,
}

/// The state of a receive loop on one connection.
#[derive(Clone, Copy, Debug, PartialEq, Eq)]
pub struct ReceiveLoop {
    /// The handle of the connection
    pub handle: usize,
    /// The descriptor of the connection
    pub fd: i32,
    /// Where the loop stands
    pub phase: LoopPhase,
}

impl ReceiveLoop {
    /// A loop that has not read anything yet.
    pub open spec fn start(handle: usize, fd: i32) -> ReceiveLoop {
        ReceiveLoop { handle, fd, phase: LoopPhase::Reading }
    }

    /// What the loop asks for in its present state.
    pub open spec fn spec_action(self) -> LoopAction {
        match self.phase {
            LoopPhase::Reading => LoopAction::Receive { fd: self.fd, capacity: RECV_BUFFER_SIZE },
            LoopPhase::Parsing { length } => LoopAction::Call(
                NativeCall::HandlePacket { handle: self.handle, length },
            ),
            LoopPhase::Aborted => LoopAction::Abort,
        }
    }

    /// Whether `event` can be the answer to what the loop asked for: a read
    /// result while a read is due, and no more bytes than the buffer holds; a
    /// parse result while the parser has the buffer. A loop that has stopped
    /// takes no event.
    pub open spec fn spec_accepts(self, event: LoopEvent) -> bool {
        match (self.phase, event) {
            (LoopPhase::Reading, LoopEvent::ReadResult(count)) => count <= RECV_BUFFER_SIZE,
            (LoopPhase::Parsing { .. }, LoopEvent::ParseResult(_)) => true,
            _ => false,
        }
    }

    /// The state after `event`.
    pub open spec fn after(self, event: LoopEvent) -> ReceiveLoop {
        match event {
            LoopEvent::ReadResult(count) => if count < 0 {
                ReceiveLoop { phase: LoopPhase::Aborted, ..self }
            } else {
                ReceiveLoop { phase: LoopPhase::Parsing { length: count as i32 }, ..self }
            },
            LoopEvent::ParseResult(_) => ReceiveLoop { phase: LoopPhase::Reading, ..self },
        }
    }

    /// Whether the loop, started in this state, can meet `events` one after
    /// the other.
    pub open spec fn admits(self, events: Seq<LoopEvent>) -> bool
        decreases events.len(),
    {
        events.len() == 0 || (self.admits(events.drop_last()) && self.run(
            events.drop_last(),
        ).spec_accepts(events.last()))
    }

    /// The state after `events`, one after the other.
    pub open spec fn run(self, events: Seq<LoopEvent>) -> ReceiveLoop
        decreases events.len(),
    {
        if events.len() == 0 {
            self
        } else {
            self.run(events.drop_last()).after(events.last())
        }
    }

    /// A loop on the connection `handle` with the descriptor `fd`, about to
    /// read for the first time.
    pub fn new(handle: usize, fd: i32) -> (state: ReceiveLoop)
        ensures
            state == ReceiveLoop::start(handle, fd),
    {
        ReceiveLoop { handle, fd, phase: LoopPhase::Reading }
    }

    /// What the loop asks for in its present state.
    pub fn action(&self) -> (action: LoopAction)
        ensures
            action == self.spec_action(),
    {
        match self.phase {
            LoopPhase::Reading => LoopAction::Receive { fd: self.fd, capacity: RECV_BUFFER_SIZE },
            LoopPhase::Parsing { length } => LoopAction::Call(
                NativeCall::HandlePacket { handle: self.handle, length },
            ),
            LoopPhase::Aborted => LoopAction::Abort,
        }
    }

    /// Whether `event` can be the answer to what the loop asked for.
    pub fn accepts(&self, event: &LoopEvent) -> (accepted: bool)
        ensures
            accepted == self.spec_accepts(*event),
    {
        match (self.phase, event) {
            (LoopPhase::Reading, LoopEvent::ReadResult(count)) => *count <= RECV_BUFFER_SIZE as isize,
            (LoopPhase::Parsing { .. }, LoopEvent::ParseResult(_)) => true,
            _ => false,
        }
    }

    /// Whether a read has failed, so that the loop has stopped.
    pub fn is_aborted(&self) -> (aborted: bool)
        ensures
            aborted == (self.phase is Aborted),
    {
        match self.phase {
            LoopPhase::Aborted => true,
            _ => false,
        }
    }

    /// Takes the answer to what the loop asked for, and returns what it asks
    /// for next.
    ///
    /// After a read of `n` bytes the parser gets the first `n` bytes of the
    /// buffer. After a failed read the loop stops. After the parser's answer,
    /// whatever it is, the loop reads again.
    pub fn step(&mut self, event: LoopEvent) -> (next: LoopAction)
        requires
            old(self).spec_accepts(event),
        ensures
            *final(self) == old(self).after(event),
            next == final(self).spec_action(),
    {
        match event {
            LoopEvent::ReadResult(count) => {
                if count < 0 {
                    self.phase = LoopPhase::Aborted;
                } else {
                    self.phase = LoopPhase::Parsing { length: count as i32 };
                }
            },
            LoopEvent::ParseResult(_) => {
                self.phase = LoopPhase::Reading;
            },
        }
        self.action()
    }
}

/// A buffer that the parser rejects does not stop the loop: after the parser's
/// answer the loop asks for the next read, on the same descriptor, whether the
/// answer reports a failure or not.
pub proof fn lemma_parse_failure_is_not_fatal(state: ReceiveLoop, code: i32)
    requires
        state.phase is Parsing,
    ensures
        state.spec_accepts(LoopEvent::ParseResult(code)),
        state.after(LoopEvent::ParseResult(code)) == ReceiveLoop::start(state.handle, state.fd),
        state.after(LoopEvent::ParseResult(code)).spec_action() == (LoopAction::Receive {
            fd: state.fd,
            capacity: RECV_BUFFER_SIZE,
        }),
{
}

/// A read that fails stops the loop for good: it asks for nothing but to stop,
/// and takes no further event.
pub proof fn lemma_read_failure_is_fatal(state: ReceiveLoop, count: isize)
    requires
        state.phase is Reading,
        count < 0,
    ensures
        state.spec_accepts(LoopEvent::ReadResult(count)),
        state.after(LoopEvent::ReadResult(count)).phase is Aborted,
        state.after(LoopEvent::ReadResult(count)).spec_action() == LoopAction::Abort,
        forall|event: LoopEvent| !state.after(LoopEvent::ReadResult(count)).spec_accepts(event),
{
}

/// Over any run of the loop from its start: reads and parser answers take
/// turns, beginning with a read; only the last event can be a failed read;
/// and the loop has stopped exactly when the last event is one. So the loop
/// outlives every rejected buffer, and no failed read.
pub proof fn lemma_loop_runs_until_read_fails(handle: usize, fd: i32, events: Seq<LoopEvent>)
    requires
        ReceiveLoop::start(handle, fd).admits(events),
    ensures
        ReceiveLoop::start(handle, fd).run(events).handle == handle,
        ReceiveLoop::start(handle, fd).run(events).fd == fd,
        ReceiveLoop::start(handle, fd).run(events).phase is Aborted <==> events.len() > 0
            && events.last().spec_is_fatal(),
        ReceiveLoop::start(handle, fd).run(events).phase is Reading <==> events.len() == 0
            || events.last() is ParseResult,
        forall|i: int| 0 <= i < events.len() - 1 ==> !(#[trigger] events[i]).spec_is_fatal(),
        forall|i: int|
            0 <= i < events.len() ==> ((#[trigger] events[i]) is ReadResult <==> i % 2 == 0),
    decreases events.len(),
{
    if events.len() > 0 {
        let before = events.drop_last();
        lemma_loop_runs_until_read_fails(handle, fd, before);
        assert forall|i: int| 0 <= i < events.len() - 1 implies !(#[trigger] events[i]).spec_is_fatal() by {
            assert(events[i] == before[i]);
        }
        assert forall|i: int| 0 <= i < events.len() implies ((#[trigger] events[i]) is ReadResult <==> i
            % 2 == 0) by {
            if i < before.len() {
                assert(events[i] == before[i]);
            }
        }
    }
}

} // verus!
