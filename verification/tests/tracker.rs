//! The allocation tracker: matched entry/return pairs, and the fatal
//! consistency violations.

use lldb::event::{SBEvent, SBListener};
use lldb::frame::SBFrame;
use lldb::process::SBProcess;
use lldb::session::TargetProcess;
use lldb::state::StateType;
use lldb::target::{SBBreakpoint, SBTarget};
use lldb::thread::SBThread;
use lldb::tracker::{
    break_allocation_entry, break_allocation_return, record_entry, record_return, Allocation,
    BreakPoints, Data, HandlerKind, ProgramTracker, TrackError, BP, PC_ALLOCATION_ENTRY,
    PC_ALLOCATION_RETURN,
};
use lldb::wrappers::{HandleAccess, UniqueHandle};

const PATH_ADDR: u64 = 0x7000;

fn entry_process(size: u64, line: u64) -> SBProcess {
    let mut frame = SBFrame::stopped_at(PC_ALLOCATION_ENTRY);
    frame.add_register("edx", size);
    frame.add_expression("(((uint32_t*)$esp)[1])", PATH_ADDR);
    frame.add_expression("((const uint32_t)((uint32_t*)$esp)[2])", line);
    let mut thread = SBThread::new();
    thread.push_frame(frame);
    let mut p = SBProcess::stopped();
    p.push_thread(thread);
    p.set_memory(PATH_ADDR, b"alloc.c\0garbage".to_vec());
    p
}

fn return_process(line: u64, returned: u64) -> SBProcess {
    let mut frame = SBFrame::stopped_at(PC_ALLOCATION_RETURN);
    frame.add_register("eax", returned);
    frame.add_expression("(((uint32_t*)$esp)[3])", PATH_ADDR);
    frame.add_expression("((const uint32_t)((uint32_t*)$esp)[4])", line);
    let mut thread = SBThread::new();
    thread.push_frame(frame);
    let mut p = SBProcess::stopped();
    p.push_thread(thread);
    p.set_memory(PATH_ADDR, b"alloc.c\0garbage".to_vec());
    p
}

fn session_over(p: SBProcess, events: Vec<SBEvent>) -> TargetProcess {
    let mut listener = SBListener::new();
    for ev in events {
        listener.push_event(ev);
    }
    TargetProcess {
        process: UniqueHandle::new(p),
        target: UniqueHandle::new(SBTarget::with_word_size(4)),
        listener: UniqueHandle::new(listener),
    }
}

fn running_event() -> SBEvent {
    SBEvent::for_state(StateType::Running, "resumed")
}

fn registry_with_return_bp() -> BreakPoints {
    let mut bp = BreakPoints::new();
    bp.insert(
        PC_ALLOCATION_ENTRY,
        SBBreakpoint { address: PC_ALLOCATION_ENTRY, enabled: true, one_shot: false },
    );
    bp.insert(
        PC_ALLOCATION_RETURN,
        SBBreakpoint { address: PC_ALLOCATION_RETURN, enabled: false, one_shot: false },
    );
    bp
}

#[test]
fn matched_pair_produces_one_allocation() {
    // A scripted entry hit followed by a matching return hit yields exactly
    // one finished allocation carrying the entry's size, path and line and
    // the return's address.
    let mut tp = session_over(entry_process(0x40, 42), vec![running_event()]);
    let mut bp = registry_with_return_bp();
    let mut data = Data::new();

    break_allocation_entry(&mut tp, &mut bp, &mut data).expect("entry hit should succeed");
    assert!(data.pending_alloc.is_some());
    assert!(data.allocations.is_empty());
    // The entry hit armed the return breakpoint.
    assert!(bp.get(PC_ALLOCATION_RETURN).unwrap().enabled);

    *tp.process.handle_mut() = return_process(42, 0xCAFE);
    tp.listener.handle_mut().push_event(running_event());
    break_allocation_return(&mut tp, &mut bp, &mut data).expect("return hit should succeed");

    assert_eq!(
        vec![Allocation {
            size: 0x40,
            path: b"alloc.c".to_vec(),
            linenr: 42,
            address: 0xCAFE,
            data: None,
        }],
        data.allocations
    );
    assert!(data.pending_alloc.is_none());
    // The return hit disarmed the return breakpoint again.
    assert!(!bp.get(PC_ALLOCATION_RETURN).unwrap().enabled);
}

#[test]
fn second_entry_while_pending_is_fatal() {
    // An entry hit immediately after another, with no intervening return, is
    // reported as a conflict; the first pending record is not overwritten.
    let mut tp = session_over(entry_process(0x40, 42), vec![running_event(), running_event()]);
    let mut bp = registry_with_return_bp();
    let mut data = Data::new();

    break_allocation_entry(&mut tp, &mut bp, &mut data).expect("first entry should succeed");
    *tp.process.handle_mut() = entry_process(0x80, 99);
    let err = break_allocation_entry(&mut tp, &mut bp, &mut data).unwrap_err();
    assert!(matches!(err, TrackError::PendingConflict));
    // The first pending record survived untouched.
    let pending = data.pending_alloc.as_ref().unwrap();
    assert_eq!(0x40, pending.size);
    assert_eq!(42, pending.linenr);
}

#[test]
fn mismatching_return_is_fatal() {
    // A return hit whose line differs from the pending entry's is reported
    // as a mismatch; nothing is finalized.
    let mut tp = session_over(entry_process(0x40, 42), vec![running_event(), running_event()]);
    let mut bp = registry_with_return_bp();
    let mut data = Data::new();

    break_allocation_entry(&mut tp, &mut bp, &mut data).expect("entry should succeed");
    *tp.process.handle_mut() = return_process(43, 0xCAFE);
    let err = break_allocation_return(&mut tp, &mut bp, &mut data).unwrap_err();
    assert!(matches!(err, TrackError::PendingMismatch));
    assert!(data.allocations.is_empty());
    assert!(data.pending_alloc.is_some());
}

#[test]
fn return_without_pending_is_fatal() {
    let mut tp = session_over(return_process(42, 0xCAFE), vec![running_event()]);
    let mut bp = registry_with_return_bp();
    let mut data = Data::new();
    let err = break_allocation_return(&mut tp, &mut bp, &mut data).unwrap_err();
    assert!(matches!(err, TrackError::NoPendingAllocation));
}

#[test]
fn record_keeping_core() {
    let mut data = Data::new();
    record_entry(&mut data, 16, b"a.c".to_vec(), 7).unwrap();
    assert!(matches!(
        record_entry(&mut data, 32, b"b.c".to_vec(), 8).unwrap_err(),
        TrackError::PendingConflict
    ));
    assert!(matches!(
        record_return(&mut data, &b"a.c".to_vec(), 9, 0x10).unwrap_err(),
        TrackError::PendingMismatch
    ));
    assert!(matches!(
        record_return(&mut data, &b"z.c".to_vec(), 7, 0x10).unwrap_err(),
        TrackError::PendingMismatch
    ));
    record_return(&mut data, &b"a.c".to_vec(), 7, 0x10).unwrap();
    assert_eq!(1, data.allocations.len());
    assert_eq!(0x10, data.allocations[0].address);
    assert!(matches!(
        record_return(&mut data, &b"a.c".to_vec(), 7, 0x10).unwrap_err(),
        TrackError::NoPendingAllocation
    ));
}

#[test]
fn breakpoint_registry_toggles() {
    let mut bp = registry_with_return_bp();
    assert!(bp.contains(PC_ALLOCATION_ENTRY));
    assert!(!bp.contains(0xDEAD));
    bp.set(PC_ALLOCATION_ENTRY, BP::Disabled);
    assert!(!bp.get(PC_ALLOCATION_ENTRY).unwrap().enabled);
    bp.set(PC_ALLOCATION_ENTRY, BP::OneShot);
    assert!(bp.get(PC_ALLOCATION_ENTRY).unwrap().one_shot);
    bp.set(PC_ALLOCATION_ENTRY, BP::Enabled);
    assert!(bp.get(PC_ALLOCATION_ENTRY).unwrap().enabled);
}

#[test]
fn tracker_runs_a_scripted_session() {
    // go() resumes the process, dispatches the scripted stop to the entry
    // handler (which resumes again), and ends when the script runs out.
    let tp = session_over(
        entry_process(0x40, 42),
        vec![
            running_event(),
            SBEvent::for_state(StateType::Stopped, "stop at entry"),
            running_event(),
        ],
    );
    let mut tracker = ProgramTracker::new(tp);
    tracker.register_bp_track_allocations();
    assert!(bpkind_is_entry(tracker.callbacks.get(PC_ALLOCATION_ENTRY)));
    tracker.go().expect("scripted session should run out cleanly");
    let pending = tracker.data.pending_alloc.as_ref().unwrap();
    assert_eq!(0x40, pending.size);
    assert_eq!(b"alloc.c".to_vec(), pending.path);
    assert_eq!(42, pending.linenr);
    assert!(tracker.bp.get(PC_ALLOCATION_RETURN).unwrap().enabled);
}

fn bpkind_is_entry(k: Option<HandlerKind>) -> bool {
    matches!(k, Some(HandlerKind::AllocationEntry))
}

#[test]
fn stop_at_an_unregistered_address_is_fatal() {
    // A stop at a program counter with no registered handler aborts the
    // session: there is no watchpoint support to fall back to.
    let mut p = entry_process(0x40, 42);
    p.threads[0].frames[0].pc = 0x1234;
    let tp = session_over(
        p,
        vec![running_event(), SBEvent::for_state(StateType::Stopped, "stray stop")],
    );
    let mut tracker = ProgramTracker::new(tp);
    tracker.register_bp_track_allocations();
    assert!(matches!(tracker.go().unwrap_err(), TrackError::MissingHandler));
}

#[test]
fn handler_failure_unwinds_out_of_the_loop() {
    // A read failure inside a handler propagates out of the whole session.
    let mut p = entry_process(0x40, 42);
    // Point the path expression at unreadable memory.
    p.threads[0].frames[0].expressions[0].1 = 0x1;
    let tp = session_over(
        p,
        vec![running_event(), SBEvent::for_state(StateType::Stopped, "stop at entry")],
    );
    let mut tracker = ProgramTracker::new(tp);
    tracker.register_bp_track_allocations();
    assert!(matches!(tracker.go().unwrap_err(), TrackError::Native(_)));
}
