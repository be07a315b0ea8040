//! Sessions: one-time initialization, attachment, resume and halt.

use lldb::api::{InitOnce, SBDebugger};
use lldb::event::SBEvent;
use lldb::process::SBProcess;
use lldb::session::{ProcessDebugger, SessionError};
use lldb::state::StateType;
use lldb::wrappers::{Event, HandleAccess, Process};

#[test]
fn lib_try_debugger() {
    let mut once = InitOnce::new();
    let mut dbg = SBDebugger::new(&mut once);
    dbg.dbg_mut().set_async(true);
    assert_eq!(true, dbg.dbg_ref().get_async());
    dbg.dbg_mut().set_async(false);
    assert_eq!(false, dbg.dbg_ref().get_async());
    dbg.dbg_mut().set_async(true);
    assert_eq!(true, dbg.dbg_ref().get_async());
}

#[test]
fn api_try_debugger() {
    let mut once = InitOnce::new();
    let mut dbg = SBDebugger::new(&mut once);
    dbg.dbg_mut().set_async(true);
    assert_eq!(true, dbg.dbg_ref().get_async());
}

#[test]
fn initialization_runs_exactly_once() {
    // However many debugger sessions one process constructs, the one-time
    // native initialization fires exactly once.
    let mut once = InitOnce::new();
    assert_eq!(0, once.times_initialized());
    let _a = SBDebugger::new(&mut once);
    assert_eq!(1, once.times_initialized());
    let _b = SBDebugger::new(&mut once);
    let _c = ProcessDebugger::new(&mut once);
    let _d = ProcessDebugger::new(&mut once);
    assert_eq!(1, once.times_initialized());
}

fn stopped_process() -> SBProcess {
    let mut p = SBProcess::stopped();
    p.hw_watchpoints = 2;
    p
}

#[test]
fn attach_finds_the_named_process() {
    let mut once = InitOnce::new();
    let mut pd = ProcessDebugger::new(&mut once);
    pd.dbg_mut().set_async(true);
    pd.dbg_mut().expose_process("wine", stopped_process());
    let mut tp = pd.attach_to_name("wine").expect("attach should succeed");
    let supported = tp.process().get_num_supported_hardware_watchpoints().unwrap();
    assert_eq!(2, supported);
}

#[test]
fn attach_failure_carries_operator_guidance() {
    let mut once = InitOnce::new();
    let mut pd = ProcessDebugger::new(&mut once);
    let err = pd.attach_to_name("wine").unwrap_err();
    match err {
        SessionError::AttachFailed(d) => {
            assert!(d.starts_with("Failed to attach"));
            assert!(d.contains("ptrace"));
        }
        other => panic!("wrong error: {other:?}"),
    }
}

fn attached(events: Vec<SBEvent>) -> lldb::session::TargetProcess {
    let mut once = InitOnce::new();
    let mut pd = ProcessDebugger::new(&mut once);
    for ev in events {
        pd.dbg_mut().enqueue_event(ev);
    }
    pd.dbg_mut().expose_process("wine", stopped_process());
    pd.attach_to_name("wine").expect("attach should succeed")
}

#[test]
fn start_expects_a_running_event() {
    let mut tp = attached(vec![SBEvent::for_state(StateType::Running, "resumed")]);
    assert!(tp.start().is_ok());
}

#[test]
fn start_reports_a_state_mismatch() {
    let mut tp = attached(vec![SBEvent::for_state(StateType::Exited, "gone")]);
    match tp.start().unwrap_err() {
        SessionError::UnexpectedState(s) => assert_eq!(StateType::Exited, s),
        other => panic!("wrong error: {other:?}"),
    }
}

#[test]
fn start_without_an_event_fails() {
    let mut tp = attached(vec![]);
    assert!(matches!(tp.start().unwrap_err(), SessionError::NoEvent));
}

#[test]
fn stop_expects_a_stopped_event() {
    let mut tp = attached(vec![SBEvent::for_state(StateType::Stopped, "halted")]);
    assert!(tp.stop().is_ok());

    let mut tp2 = attached(vec![SBEvent::for_state(StateType::Running, "still going")]);
    assert!(matches!(
        tp2.stop().unwrap_err(),
        SessionError::UnexpectedState(StateType::Running)
    ));
}

#[test]
fn start_on_an_invalid_process_fails_natively() {
    let mut once = InitOnce::new();
    let mut pd = ProcessDebugger::new(&mut once);
    pd.dbg_mut().expose_process("wine", SBProcess::new());
    let mut tp = pd.attach_to_name("wine").unwrap();
    assert!(matches!(tp.start().unwrap_err(), SessionError::Native(_)));
}

#[test]
fn attach_consumes_the_process() {
    // Attaching removes the process from the debugger's table: a second
    // attachment to the same name no longer finds it.
    let mut once = InitOnce::new();
    let mut pd = ProcessDebugger::new(&mut once);
    pd.dbg_mut().expose_process("wine", stopped_process());
    assert!(pd.attach_to_name("wine").is_ok());
    let mut pd2 = ProcessDebugger::new(&mut once);
    pd2.dbg_mut().expose_process("other", stopped_process());
    assert!(matches!(
        pd2.attach_to_name("wine").unwrap_err(),
        SessionError::AttachFailed(_)
    ));
}

#[test]
fn wait_for_event_delivers_in_order() {
    let mut tp = attached(vec![
        SBEvent::for_state(StateType::Running, "first"),
        SBEvent::for_state(StateType::Stopped, "second"),
    ]);
    let first = tp.wait_for_event().unwrap();
    assert_eq!(StateType::Running, first.event_type());
    let second = tp.wait_for_event().unwrap();
    assert_eq!(StateType::Stopped, second.event_type());
    assert!(tp.wait_for_event().is_none());
}
