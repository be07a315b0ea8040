//! The convenience traits behave identically across every storage shape.

use lldb::error::SBError;
use lldb::process::SBProcess;
use lldb::state::{ErrorType, StateType};
use lldb::value::SBValue;
use lldb::wrappers::{
    Error, Event, Frame, HandleAccess, Process, Thread, UniqueHandle, Value, Wrappable,
};

#[test]
fn test_process_box() {
    // This operates without our wrapper on the first call.
    let mut p = Box::new(SBProcess::new());
    let mut t = p.thread(0);
    let mut f = t.frame(0);
    let mut reg = f.find_register("edx");
    let v = reg.get_value_unsigned();
    assert!(v.is_err());
}

#[test]
fn test_process_wrapped_box() {
    // This operates on our wrapper in the first call.
    let mut p = SBProcess::new().wrap();
    let mut t = p.thread(0);
    let mut f = t.frame(0);
    let mut reg = f.find_register("edx");
    let v = reg.get_value_unsigned();
    assert!(v.is_err());
}

#[test]
fn test_process_unique_ptr() {
    let mut p = UniqueHandle::new(SBProcess::new());
    let mut t = p.thread(0);
    let mut f = t.frame(0);
    let mut reg = f.find_register("edx");
    let v = reg.get_value_unsigned();
    assert!(v.is_err());
}

#[test]
fn test_process_wrap() {
    let mut p = SBProcess::new().wrap();
    let mut t = p.thread(0);
    let mut f = t.frame(0);
    let mut reg = f.find_register("edx");
    println!("{}", reg.get_value());
    let v = reg.get_value_unsigned();
    assert!(v.is_err());
}

#[test]
fn test_error() {
    let e = SBError::new().wrap();
    println!("{}", e.get_str());
    println!("{:?}", e.get_type());
    assert!(e.is_success());
    assert!(!e.is_fail());
    assert_eq!("no error string", e.get_str());
    assert_eq!(ErrorType::Invalid, e.get_type());
}

#[test]
fn test_value() {
    let mut e = SBError::new().wrap();
    e.handle_mut().set_error_string("YES");
    assert_eq!("YES", e.get_str());
}

fn scripted_process() -> SBProcess {
    let mut frame = lldb::frame::SBFrame::stopped_at(0x400);
    frame.add_register("edx", 77);
    let mut thread = lldb::thread::SBThread::new();
    thread.push_frame(frame);
    let mut p = SBProcess::stopped();
    p.push_thread(thread);
    p.set_memory(0x2000, vec![1, 2, 3, 4]);
    p.hw_watchpoints = 5;
    p
}

#[test]
fn shapes_agree_on_the_same_handle() {
    // The same convenience calls on the three storage shapes, around
    // content-equal handles, yield identical results.
    let mut boxed = Box::new(scripted_process());
    let mut wrapped = scripted_process().wrap();
    let mut unique = UniqueHandle::new(scripted_process());

    let b = boxed.read_memory(0x2000, 4).unwrap();
    let w = wrapped.read_memory(0x2000, 4).unwrap();
    let u = unique.read_memory(0x2000, 4).unwrap();
    assert_eq!(b, w);
    assert_eq!(w, u);
    assert_eq!(vec![1, 2, 3, 4], u);

    assert_eq!(
        boxed.get_num_supported_hardware_watchpoints().unwrap(),
        wrapped.get_num_supported_hardware_watchpoints().unwrap()
    );
    assert_eq!(5, unique.get_num_supported_hardware_watchpoints().unwrap());

    let bv = boxed.thread(0).frame(0).find_register("edx").get_value_unsigned().unwrap();
    let wv = wrapped.thread(0).frame(0).find_register("edx").get_value_unsigned().unwrap();
    let uv = unique.thread(0).frame(0).find_register("edx").get_value_unsigned().unwrap();
    assert_eq!(bv, wv);
    assert_eq!(wv, uv);
    assert_eq!(77, uv);
}

#[test]
fn error_flags_are_mutually_exclusive() {
    // A failing native call produces an error whose success and failure
    // views disagree, like every reachable error state.
    let mut reg = SBValue::invalid().wrap();
    let e = reg.get_value_unsigned().unwrap_err();
    assert!(e.is_fail() != e.is_success());
    assert!(e.is_fail());
    assert_eq!("no value", e.get_str());
    assert_eq!(ErrorType::Generic, e.get_type());

    let fresh = SBError::new().wrap();
    assert!(fresh.is_fail() != fresh.is_success());
}

#[test]
fn value_texts() {
    let v = SBValue::with_summary(42, "0x2a").wrap();
    assert_eq!("0x2a", v.get_value());
    let mut v2 = SBValue::from_unsigned(42).wrap();
    assert_eq!("nullptr", v2.get_value());
    assert_eq!(42, v2.get_value_u64().unwrap());
    assert_eq!(42, v2.get_value_as_unsigned().unwrap());
    assert_eq!(42usize, v2.get_value_usize().unwrap());
}

#[test]
fn event_description_uses_both_sources() {
    let mut ev = lldb::event::SBEvent::for_state(StateType::Stopped, "breakpoint hit");
    ev.set_event_string("extra");
    let wrapped = ev.wrap();
    assert_eq!(StateType::Stopped, wrapped.event_type());
    assert!(!wrapped.is_watchpoint());
    assert_eq!(
        "event_type: stopped event: breakpoint hit event string: extra",
        wrapped.describe()
    );

    let plain = lldb::event::SBEvent::for_state(StateType::Running, "resumed").wrap();
    assert_eq!("event_type: running event: resumed", plain.describe());
}

#[test]
fn out_of_range_lookups_yield_invalid_handles() {
    // A thread or frame index past the end hands back an invalid handle,
    // whose value reads then fail, like on an invalid process.
    let mut p = scripted_process().wrap();
    let mut stray_thread = p.thread(7);
    let mut f = stray_thread.frame(0);
    assert!(f.find_register("edx").get_value_unsigned().is_err());

    let mut t = p.thread(0);
    let mut stray_frame = t.frame(3);
    assert!(stray_frame.find_register("edx").get_value_unsigned().is_err());

    // The register present in frame 0 still reads fine.
    let mut good = t.frame(0);
    assert_eq!(77, good.find_register("edx").get_value_unsigned().unwrap());
    // An unknown register fails.
    assert!(good.find_register("ebx").get_value_unsigned().is_err());
    // An expression nobody scripted fails the same way.
    assert!(good.evaluate_expression("$esp").get_value_unsigned().is_err());
}

#[test]
fn watchpoint_event_flag_is_advisory() {
    let mut ev = lldb::event::SBEvent::for_state(StateType::Stopped, "watch");
    ev.set_watchpoint_flag(true);
    let wrapped = ev.wrap();
    assert!(wrapped.is_watchpoint());
}
