//! The receive loop: which work it asks for, and when it stops.

use nfqueue::{LoopAction, LoopEvent, LoopPhase, NativeCall, ReceiveLoop, RECV_BUFFER_SIZE};

const CONNECTION: usize = 0x5000;

#[test]
fn buffer_holds_the_largest_message() {
    assert_eq!(RECV_BUFFER_SIZE, 65536);
}

#[test]
fn loop_starts_with_a_read() {
    let state = ReceiveLoop::new(CONNECTION, 4);
    assert_eq!(state, ReceiveLoop { handle: CONNECTION, fd: 4, phase: LoopPhase::Reading });
    assert_eq!(state.action(), LoopAction::Receive { fd: 4, capacity: 65536 });
    assert!(!state.is_aborted());
}

#[test]
fn what_was_read_goes_to_the_parser() {
    let mut state = ReceiveLoop::new(CONNECTION, 4);
    let next = state.step(LoopEvent::ReadResult(1500));
    assert_eq!(
        next,
        LoopAction::Call(NativeCall::HandlePacket { handle: CONNECTION, length: 1500 })
    );
    assert_eq!(state.phase, LoopPhase::Parsing { length: 1500 });
    assert_eq!(state.action(), next);
}

#[test]
fn empty_and_full_reads_go_to_the_parser() {
    let mut state = ReceiveLoop::new(CONNECTION, 4);
    assert_eq!(
        state.step(LoopEvent::ReadResult(0)),
        LoopAction::Call(NativeCall::HandlePacket { handle: CONNECTION, length: 0 })
    );
    state.step(LoopEvent::ParseResult(0));
    assert_eq!(
        state.step(LoopEvent::ReadResult(65536)),
        LoopAction::Call(NativeCall::HandlePacket { handle: CONNECTION, length: 65536 })
    );
}

#[test]
fn loop_goes_on_after_parse_failure() {
    let mut state = ReceiveLoop::new(CONNECTION, 9);
    state.step(LoopEvent::ReadResult(64));
    let after_failure = state.step(LoopEvent::ParseResult(-1));
    assert_eq!(after_failure, LoopAction::Receive { fd: 9, capacity: 65536 });
    assert!(!state.is_aborted());
    // the buffers that follow are handled as before
    assert_eq!(
        state.step(LoopEvent::ReadResult(32)),
        LoopAction::Call(NativeCall::HandlePacket { handle: CONNECTION, length: 32 })
    );
    assert_eq!(
        state.step(LoopEvent::ParseResult(0)),
        LoopAction::Receive { fd: 9, capacity: 65536 }
    );
    assert_eq!(
        state.step(LoopEvent::ReadResult(48)),
        LoopAction::Call(NativeCall::HandlePacket { handle: CONNECTION, length: 48 })
    );
    assert_eq!(
        state.step(LoopEvent::ParseResult(i32::MIN)),
        LoopAction::Receive { fd: 9, capacity: 65536 }
    );
}

#[test]
fn loop_stops_after_read_failure() {
    let mut state = ReceiveLoop::new(CONNECTION, 9);
    state.step(LoopEvent::ReadResult(64));
    state.step(LoopEvent::ParseResult(0));
    assert_eq!(state.step(LoopEvent::ReadResult(-1)), LoopAction::Abort);
    assert!(state.is_aborted());
    assert_eq!(state.phase, LoopPhase::Aborted);
    assert_eq!(state.action(), LoopAction::Abort);
}

#[test]
fn first_read_may_fail() {
    let mut state = ReceiveLoop::new(CONNECTION, 9);
    assert_eq!(state.step(LoopEvent::ReadResult(isize::MIN)), LoopAction::Abort);
    assert!(state.is_aborted());
}

#[test]
fn events_tell_failures() {
    assert!(LoopEvent::ReadResult(-1).is_failure());
    assert!(LoopEvent::ReadResult(-1).is_fatal());
    assert!(!LoopEvent::ReadResult(0).is_failure());
    assert!(!LoopEvent::ReadResult(0).is_fatal());
    assert!(!LoopEvent::ReadResult(65536).is_failure());
    assert!(LoopEvent::ParseResult(-1).is_failure());
    assert!(!LoopEvent::ParseResult(-1).is_fatal());
    assert!(!LoopEvent::ParseResult(0).is_failure());
    assert!(!LoopEvent::ParseResult(1).is_fatal());
}

#[test]
fn loop_takes_the_answer_it_waits_for() {
    let mut state = ReceiveLoop::new(CONNECTION, 4);
    assert!(state.accepts(&LoopEvent::ReadResult(0)));
    assert!(state.accepts(&LoopEvent::ReadResult(-1)));
    assert!(state.accepts(&LoopEvent::ReadResult(65536)));
    assert!(!state.accepts(&LoopEvent::ReadResult(65537)));
    assert!(!state.accepts(&LoopEvent::ParseResult(0)));
    state.step(LoopEvent::ReadResult(10));
    assert!(state.accepts(&LoopEvent::ParseResult(0)));
    assert!(state.accepts(&LoopEvent::ParseResult(-1)));
    assert!(!state.accepts(&LoopEvent::ReadResult(10)));
    state.step(LoopEvent::ParseResult(0));
    state.step(LoopEvent::ReadResult(-1));
    assert!(!state.accepts(&LoopEvent::ReadResult(10)));
    assert!(!state.accepts(&LoopEvent::ParseResult(0)));
}
