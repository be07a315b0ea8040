//! Memory reads, string reads and watchpoints.

use lldb::process::SBProcess;
use lldb::state::ErrorType;
use lldb::target::SBTarget;
use lldb::wrappers::{Error, HandleAccess, Process, Target, Wrappable, Watchpoint, WatchpointId};

fn process_with_memory(base: u64, bytes: Vec<u8>) -> SBProcess {
    let mut p = SBProcess::stopped();
    p.set_memory(base, bytes);
    p
}

#[test]
fn read_memory_returns_exactly_what_was_read() {
    let mut p = process_with_memory(0x1000, vec![10, 20, 30, 40, 50, 60, 70, 80]).wrap();

    // A read inside the region returns the requested bytes.
    let full = p.read_memory(0x1000, 4).unwrap();
    assert_eq!(vec![10, 20, 30, 40], full);

    // A read over the end is clipped to the bytes actually read: never more
    // than requested, here fewer.
    let clipped = p.read_memory(0x1006, 8).unwrap();
    assert_eq!(vec![70, 80], clipped);
    assert!(clipped.len() <= 8);

    // A read from the middle.
    let mid = p.read_memory(0x1003, 2).unwrap();
    assert_eq!(vec![40, 50], mid);
}

#[test]
fn read_memory_fails_outside_the_region() {
    let mut p = process_with_memory(0x1000, vec![1, 2, 3]).wrap();
    assert!(p.read_memory(0x0fff, 1).is_err());
    assert!(p.read_memory(0x1003, 1).is_err());

    let mut invalid = SBProcess::new().wrap();
    assert!(invalid.read_memory(0x1000, 1).is_err());
}

#[test]
fn failed_reads_carry_the_native_error() {
    // The error a failed read hands back reflects the native error's kind
    // and text, not just the failing flag.
    let mut p = process_with_memory(0x1000, vec![1, 2, 3]).wrap();
    let e = p.read_memory(0x2000, 1).unwrap_err();
    assert!(e.is_fail());
    assert_eq!(ErrorType::Generic, e.get_type());
    assert_eq!("memory read failed", e.get_str());

    let c = p.read_cstring_from_memory(0x2000, 8).unwrap_err();
    assert_eq!("memory read failed", c.get_str());

    let mut invalid = SBProcess::new().wrap();
    let h = invalid.get_num_supported_hardware_watchpoints().unwrap_err();
    assert_eq!("process is invalid", h.get_str());
    assert_eq!(ErrorType::Generic, h.get_type());

    let mut bad_target = SBTarget::with_word_size(4).wrap();
    let w = bad_target.watch_address(0x2000, 96, false, true).unwrap_err();
    assert_eq!("sending gdb watchpoint packet failed", w.get_str());
}

#[test]
fn read_cstring_truncates_at_first_null() {
    let mut p = process_with_memory(0x1000, b"alloc.c\0junk".to_vec()).wrap();
    let s = p.read_cstring_from_memory(0x1000, 64).unwrap();
    // Truncated at the first null byte; the terminator is not included.
    assert_eq!(b"alloc.c".to_vec(), s);
    assert!(!s.contains(&0));
}

#[test]
fn read_cstring_respects_the_requested_bound() {
    let mut p = process_with_memory(0x1000, b"abcdef".to_vec()).wrap();
    // No null within the bound: the content stops at the bound.
    let s = p.read_cstring_from_memory(0x1000, 3).unwrap();
    assert_eq!(b"abc".to_vec(), s);

    // A null right at the start yields empty content.
    let mut q = process_with_memory(0x1000, b"\0abc".to_vec()).wrap();
    let t = q.read_cstring_from_memory(0x1000, 8).unwrap();
    assert!(t.is_empty());
}

#[test]
fn read_cstring_fails_outside_the_region() {
    let mut p = process_with_memory(0x1000, b"abc\0".to_vec()).wrap();
    assert!(p.read_cstring_from_memory(0x2000, 8).is_err());
}

#[test]
fn hardware_watchpoint_count() {
    let mut p = SBProcess::stopped();
    p.hw_watchpoints = 4;
    let mut w = p.wrap();
    assert_eq!(4, w.get_num_supported_hardware_watchpoints().unwrap());

    let mut invalid = SBProcess::new().wrap();
    assert!(invalid.get_num_supported_hardware_watchpoints().is_err());
}

#[test]
fn watch_address_accepts_register_widths_only() {
    // A 32-bit target: a 4-byte watch succeeds where an 8-byte watch fails.
    let mut t = SBTarget::with_word_size(4).wrap();
    let mut w = t.watch_address(0x2000, 4, false, true).unwrap();
    assert_eq!(1, w.get_id().0);
    assert!(t.watch_address(0x2000, 8, false, true).is_err());
    assert!(t.watch_address(0x2000, 96, false, true).is_err());

    // On an 8-byte-word target the 8-byte watch succeeds.
    let mut t64 = SBTarget::with_word_size(8).wrap();
    assert!(t64.watch_address(0x2000, 8, true, true).is_ok());

    // An invalid target accepts nothing.
    let mut bad = SBTarget::invalid().wrap();
    assert!(bad.watch_address(0x2000, 4, false, true).is_err());
}

#[test]
fn watchpoints_toggle_and_delete() {
    let mut t = SBTarget::with_word_size(4).wrap();
    let mut w = t.watch_address(0x3000, 2, true, false).unwrap();
    assert!(w.handle_ref().enabled);
    w.set_enabled(false);
    assert!(!w.handle_ref().enabled);

    let id = w.get_id();
    assert!(t.delete_watchpoint(id));
    // Gone now: deleting it again reports failure.
    assert!(!t.delete_watchpoint(WatchpointId(1)));
    assert!(!t.delete_watchpoint(WatchpointId(99)));
}
