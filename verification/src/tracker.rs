//! The allocation tracker: breakpoint registration and the entry/return
//! dispatch that records one allocation per matched pair of hits.
//!
//! Two fixed instruction addresses of one traced 32-bit binary are tracked:
//! the allocation routine's entry and its return. An entry hit records a
//! pending allocation (size, call-site path and line); the matching return
//! hit finalizes it with the returned address. At most one allocation is
//! pending at a time: a second entry hit while one is pending, a return hit
//! without one, or a return hit whose call-site metadata differs from the
//! pending record, is a fatal consistency violation, reported rather than
//! repaired.

use vstd::prelude::*;

use crate::error::SBError;
use crate::event::ListenerV;
use crate::frame::FrameV;
use crate::process::{first_null, ProcessV};
use crate::registry::AddressMap;
use crate::session::{SessionError, TargetProcess};
use crate::state::StateType;
use crate::target::SBBreakpoint;
use crate::wrappers::{Frame, HandleAccess, Process, Thread, Value};

verus! {

/// Program counter of the allocation routine's entry in the traced binary.
pub const PC_ALLOCATION_ENTRY: u64 = 0x6ff6cd50;

/// Program counter of the allocation routine's return in the traced binary.
pub const PC_ALLOCATION_RETURN: u64 = 0x6ff6cd8a;

/// How many bytes of a call-site path are read from the traced process.
pub const PATH_READ_BOUND: usize = 64;

/// A toggle applied to a registered breakpoint.
#[derive(Clone, Copy, Debug)]
pub enum BP {
    OneShot,
    Enabled,
    Disabled,
}

/// Which handler a tracked address dispatches to.
#[derive(Clone, Copy, Debug)]
pub enum HandlerKind {
    AllocationEntry,
    AllocationReturn,
}

/// The breakpoint registry: address-keyed owned breakpoint handles.
pub type BreakPoints = AddressMap<SBBreakpoint>;

/// The handler registry, populated together with the breakpoints.
pub type Callbacks = AddressMap<HandlerKind>;

/// What a breakpoint toggle does to the stored handle.
pub open spec fn apply_flag(b: SBBreakpoint, flag: BP) -> SBBreakpoint {
    match flag {
        BP::OneShot => SBBreakpoint { one_shot: true, ..b },
        BP::Enabled => SBBreakpoint { enabled: true, ..b },
        BP::Disabled => SBBreakpoint { enabled: false, ..b },
    }
}

impl AddressMap<SBBreakpoint> {
    /// Applies a toggle to the breakpoint registered at `address`.
    pub fn set(&mut self, address: u64, flag: BP)
        requires
            old(self).spec_get(address).is_some(),
        ensures
            forall|k: u64| final(self).spec_get(k) == (if k == address {
                Some(apply_flag(old(self).spec_get(address)->0, flag))
            } else {
                old(self).spec_get(k)
            }),
    {
        let mut b = match self.get(address) {
            Some(b) => b,
            None => unreached(),
        };
        match flag {
            BP::OneShot => b.set_one_shot_model(true),
            BP::Enabled => b.set_enabled_model(true),
            BP::Disabled => b.set_enabled_model(false),
        }
        self.insert(address, b);
    }
}

/// Specification-level content of an [`Allocation`].
pub struct AllocationV {
    pub size: usize,
    pub path: Seq<u8>,
    pub linenr: u64,
    pub address: u64,
    pub data: Option<Seq<u8>>,
}

/// One allocation of the traced process.
#[derive(Clone, Debug, PartialEq)]
pub struct Allocation {
    /// The requested size.
    pub size: usize,
    /// The call site's file path, as the bytes read from the process.
    pub path: Vec<u8>,
    /// The call site's line number.
    pub linenr: u64,
    /// The address the allocation returned.
    pub address: u64,
    /// The allocation's content, when captured.
    pub data: Option<Vec<u8>>,
}

impl View for Allocation {
    type V = AllocationV;

    open spec fn view(&self) -> AllocationV {
        AllocationV {
            size: self.size,
            path: self.path@,
            linenr: self.linenr,
            address: self.address,
            data: match self.data {
                Some(ref d) => Some(d@),
                None => None,
            },
        }
    }
}

/// Specification-level content of [`Data`].
pub struct DataV {
    pub allocations: Seq<AllocationV>,
    pub pending_alloc: Option<AllocationV>,
}

/// What the handlers collect: finished allocations, and the one pending
/// between an entry hit and its matching return hit.
pub struct Data {
    pub allocations: Vec<Allocation>,
    pub pending_alloc: Option<Allocation>,
}

impl View for Data {
    type V = DataV;

    open spec fn view(&self) -> DataV {
        DataV {
            allocations: self.allocations@.map_values(|a: Allocation| a@),
            pending_alloc: match self.pending_alloc {
                Some(ref a) => Some(a@),
                None => None,
            },
        }
    }
}

impl Data {
    /// No allocations recorded, none pending.
    pub fn new() -> (r: Data)
        ensures
            r@ == (DataV {
                allocations: Seq::<AllocationV>::empty(),
                pending_alloc: None::<AllocationV>,
            }),
    {
        let r = Data { allocations: Vec::new(), pending_alloc: None };
        proof {
            assert(r@.allocations =~= Seq::<AllocationV>::empty());
        }
        r
    }
}

/// What tracking reports when it cannot proceed. Every variant but
/// `Native` and `Session` is a consistency violation the tracker refuses to
/// repair.
#[derive(Debug)]
pub enum TrackError {
    /// An entry hit arrived while an allocation was already pending.
    PendingConflict,
    /// A return hit arrived with no allocation pending.
    NoPendingAllocation,
    /// A return hit's call-site path or line differs from the pending
    /// record's.
    PendingMismatch,
    /// A stop arrived at an address with no registered handler.
    MissingHandler,
    /// A native read failed inside a handler.
    Native(SBError),
    /// Resuming the process failed.
    Session(SessionError),
}

/// Byte-for-byte equality of two buffers.
fn bytes_eq(a: &Vec<u8>, b: &Vec<u8>) -> (r: bool)
    ensures
        r == (a@ == b@),
{
    if a.len() != b.len() {
        return false;
    }
    let mut i: usize = 0;
    while i < a.len()
        invariant
            i <= a.len(),
            a@.len() == b@.len(),
            forall|j: int| 0 <= j < i ==> a@[j] == b@[j],
        decreases a.len() - i,
    {
        if a[i] != b[i] {
            return false;
        }
        i += 1;
    }
    proof {
        assert(a@ =~= b@);
    }
    true
}

/// Records the entry half of an allocation. A second entry while one is
/// pending is a fatal conflict: the pending record is never overwritten.
pub fn record_entry(data: &mut Data, size: usize, path: Vec<u8>, linenr: u64) -> (r: Result<
    (),
    TrackError,
>)
    ensures
        match old(data)@.pending_alloc {
            Some(_) => r matches Err(TrackError::PendingConflict) && final(data)@ == old(data)@,
            None => r matches Ok(_) && final(data)@ == (DataV {
                allocations: old(data)@.allocations,
                pending_alloc: Some(
                    AllocationV {
                        size,
                        path: path@,
                        linenr,
                        address: 0,
                        data: None::<Seq<u8>>,
                    },
                ),
            }),
        },
{
    if data.pending_alloc.is_some() {
        return Err(TrackError::PendingConflict);
    }
    let alloc = Allocation { size, path, linenr, address: 0, data: None };
    data.pending_alloc = Some(alloc);
    Ok(())
}

/// Records the return half of an allocation: with a pending record whose
/// call-site path and line match, the record is finalized with the returned
/// address and appended to the finished allocations. A return without a
/// pending record, or with mismatching call-site metadata, is fatal and
/// changes nothing.
pub fn record_return(data: &mut Data, path: &Vec<u8>, linenr: u64, address: u64) -> (r: Result<
    (),
    TrackError,
>)
    ensures
        match old(data)@.pending_alloc {
            None => r matches Err(TrackError::NoPendingAllocation) && final(data)@ == old(data)@,
            Some(a) => if a.linenr != linenr || a.path != path@ {
                r matches Err(TrackError::PendingMismatch) && final(data)@ == old(data)@
            } else {
                r matches Ok(_) && final(data)@ == (DataV {
                    allocations: old(data)@.allocations.push(AllocationV { address, ..a }),
                    pending_alloc: None::<AllocationV>,
                })
            },
        },
{
    let matches_pending: bool = match &data.pending_alloc {
        None => {
            return Err(TrackError::NoPendingAllocation);
        },
        Some(a) => a.linenr == linenr && bytes_eq(&a.path, path),
    };
    if !matches_pending {
        return Err(TrackError::PendingMismatch);
    }
    let mut alloc = match data.pending_alloc.take() {
        Some(a) => a,
        None => unreached(),
    };
    alloc.address = address;
    let ghost before = data@;
    let ghost finalized = alloc@;
    data.allocations.push(alloc);
    proof {
        assert(data@.allocations =~= before.allocations.push(finalized));
    }
    Ok(())
}

/// The frame every handler inspects: frame 0 of thread 0.
pub open spec fn frame0(p: ProcessV) -> FrameV {
    p.thread_at(0).frame_at(0)
}

/// The call-site path as read from the traced process: at most
/// [`PATH_READ_BOUND`] bytes starting at `address`, truncated at the first
/// null byte.
pub open spec fn cstr_at(p: ProcessV, address: u64) -> Seq<u8> {
    let window = p.read_bytes(address, PATH_READ_BOUND as nat);
    window.take(first_null(window))
}

/// What ended a tracking step: which consistency violation or failing call
/// stopped it.
pub enum StopKind {
    /// No handler is registered for the stop's program counter.
    MissingHandler,
    /// A register, expression or memory read failed.
    ReadFailed,
    /// An entry hit arrived while an allocation was pending.
    PendingConflict,
    /// A return hit arrived with no allocation pending.
    NoPending,
    /// A return hit's call-site metadata differs from the pending record's.
    Mismatch,
    /// An invalid process handle refused to resume.
    ResumeRefused,
    /// No event followed a resume.
    NoEvent,
    /// The event after a resume reported the wrong state.
    WrongState(StateType),
}

/// What one step of the tracking session does to the process, listener and
/// collected data: run on, or stop with a failure.
pub enum StepV {
    Continue(ProcessV, ListenerV, DataV),
    Stop(ProcessV, ListenerV, DataV, StopKind),
}

/// Resuming a valid process: it runs, and the next event must both exist
/// and report the running state, else the resume failed.
pub open spec fn resume_step(p: ProcessV, l: ListenerV, d: DataV) -> StepV {
    let moved = ProcessV { state: StateType::Running, ..p };
    if !(l.valid && l.queue.len() > 0) {
        StepV::Stop(moved, l, d, StopKind::NoEvent)
    } else {
        let popped = ListenerV { valid: l.valid, queue: l.queue.drop_first() };
        if l.queue[0].state == StateType::Running {
            StepV::Continue(moved, popped, d)
        } else {
            StepV::Stop(moved, popped, d, StopKind::WrongState(l.queue[0].state))
        }
    }
}

/// One entry hit, step by step: read the size register, the call-site path
/// pointer and line expressions, and the path bytes; then record the pending
/// allocation and resume. The first failing step wins; a pending conflict is
/// fatal and overwrites nothing.
pub open spec fn entry_step(p: ProcessV, l: ListenerV, d: DataV) -> StepV {
    let f = frame0(p);
    match f.register_value("edx"@).unsigned {
        None => StepV::Stop(p, l, d, StopKind::ReadFailed),
        Some(size) => match f.expression_value("(((uint32_t*)$esp)[1])"@).unsigned {
            None => StepV::Stop(p, l, d, StopKind::ReadFailed),
            Some(pp) => if !p.read_ok(pp) {
                StepV::Stop(p, l, d, StopKind::ReadFailed)
            } else {
                match f.expression_value("((const uint32_t)((uint32_t*)$esp)[2])"@).unsigned {
                    None => StepV::Stop(p, l, d, StopKind::ReadFailed),
                    Some(line) => if d.pending_alloc.is_some() {
                        StepV::Stop(p, l, d, StopKind::PendingConflict)
                    } else {
                        resume_step(
                            p,
                            l,
                            DataV {
                                allocations: d.allocations,
                                pending_alloc: Some(
                                    AllocationV {
                                        size: size as usize,
                                        path: cstr_at(p, pp),
                                        linenr: line,
                                        address: 0,
                                        data: None::<Seq<u8>>,
                                    },
                                ),
                            },
                        )
                    },
                }
            },
        },
    }
}

/// One return hit, step by step: read the call-site line and path-pointer
/// expressions, the path bytes and the result register; then finalize the
/// pending allocation and resume. The first failing step wins; a missing or
/// mismatching pending record is fatal and changes nothing.
pub open spec fn return_step(p: ProcessV, l: ListenerV, d: DataV) -> StepV {
    let f = frame0(p);
    match f.expression_value("(((uint32_t*)$esp)[3])"@).unsigned {
        None => StepV::Stop(p, l, d, StopKind::ReadFailed),
        Some(pp) => match f.expression_value("((const uint32_t)((uint32_t*)$esp)[4])"@).unsigned {
            None => StepV::Stop(p, l, d, StopKind::ReadFailed),
            Some(line) => if !p.read_ok(pp) {
                StepV::Stop(p, l, d, StopKind::ReadFailed)
            } else {
                match f.register_value("eax"@).unsigned {
                    None => StepV::Stop(p, l, d, StopKind::ReadFailed),
                    Some(ret) => match d.pending_alloc {
                        None => StepV::Stop(p, l, d, StopKind::NoPending),
                        Some(a) => if a.linenr != line || a.path != cstr_at(p, pp) {
                            StepV::Stop(p, l, d, StopKind::Mismatch)
                        } else {
                            resume_step(
                                p,
                                l,
                                DataV {
                                    allocations: d.allocations.push(
                                        AllocationV { address: ret, ..a },
                                    ),
                                    pending_alloc: None::<AllocationV>,
                                },
                            )
                        },
                    },
                }
            },
        },
    }
}

/// How a stopped step's failure is reported.
pub open spec fn stop_error(k: StopKind, e: TrackError) -> bool {
    match k {
        StopKind::MissingHandler => e matches TrackError::MissingHandler,
        StopKind::ReadFailed => e matches TrackError::Native(n) && n@.is_fail(),
        StopKind::PendingConflict => e matches TrackError::PendingConflict,
        StopKind::NoPending => e matches TrackError::NoPendingAllocation,
        StopKind::Mismatch => e matches TrackError::PendingMismatch,
        StopKind::ResumeRefused => e matches TrackError::Session(se) && se
            matches SessionError::Native(n) && n@.is_fail(),
        StopKind::NoEvent => e matches TrackError::Session(SessionError::NoEvent),
        StopKind::WrongState(s) => e matches TrackError::Session(se) && se
            matches SessionError::UnexpectedState(s2) && s2 == s,
    }
}

/// The step's verdict, as it shows in a handler's result and final state:
/// `Continue` is success, `Stop` reports the failing step's error; either
/// way the session ends in exactly the step's state.
pub open spec fn step_taken(
    step: StepV,
    tp1: TargetProcess,
    d1: DataV,
    r: Result<(), TrackError>,
) -> bool {
    match step {
        StepV::Continue(p1, l1, d2) => r matches Ok(_) && tp1.process.handle()@ == p1
            && tp1.listener.handle()@ == l1 && d1 == d2,
        StepV::Stop(p1, l1, d2, k) => r matches Err(e) && stop_error(k, e)
            && tp1.process.handle()@ == p1 && tp1.listener.handle()@ == l1 && d1 == d2,
    }
}

/// What one entry hit does, given the process, listener and tracking data it
/// started from: exactly what [`entry_step`] computes.
pub open spec fn entry_outcome(
    p: ProcessV,
    l: ListenerV,
    d0: DataV,
    tp1: TargetProcess,
    d1: DataV,
    r: Result<(), TrackError>,
) -> bool {
    step_taken(entry_step(p, l, d0), tp1, d1, r)
}

/// What one return hit does, given the process, listener and tracking data
/// it started from: exactly what [`return_step`] computes.
pub open spec fn return_outcome(
    p: ProcessV,
    l: ListenerV,
    d0: DataV,
    tp1: TargetProcess,
    d1: DataV,
    r: Result<(), TrackError>,
) -> bool {
    step_taken(return_step(p, l, d0), tp1, d1, r)
}

/// The return breakpoint got enabled; nothing else in the registry moved.
pub open spec fn bp_return_set(b0: BreakPoints, b1: BreakPoints, enabled: bool) -> bool {
    forall|k: u64| b1.spec_get(k) == (if k == PC_ALLOCATION_RETURN {
        Some(
            SBBreakpoint {
                enabled,
                ..b0.spec_get(PC_ALLOCATION_RETURN)->0
            },
        )
    } else {
        b0.spec_get(k)
    })
}

/// Where a run left the return breakpoint: untouched, or holding the flag
/// the last dispatched handler gave it; nothing else in the registry moves
/// either way.
pub open spec fn bp_after(b0: BreakPoints, b1: BreakPoints, armed: Option<bool>) -> bool {
    match armed {
        None => forall|k: u64| b1.spec_get(k) == b0.spec_get(k),
        Some(e) => bp_return_set(b0, b1, e),
    }
}

/// The state a tracking run leaves behind, and what ended it.
pub struct RunV {
    pub p: ProcessV,
    pub l: ListenerV,
    pub d: DataV,
    /// The enabled flag the last dispatched handler gave the return
    /// breakpoint, when any handler ran.
    pub armed: Option<bool>,
    /// What ended the run: nothing (the event queue ran out), or the first
    /// failing step's kind.
    pub stop: Option<StopKind>,
}

/// Every `Continue` verdict of a handler step consumed exactly one event.
proof fn lemma_step_continue_pops(p: ProcessV, l: ListenerV, d: DataV)
    ensures
        entry_step(p, l, d) matches StepV::Continue(p2, l2, d2) ==> l2.queue.len() == l.queue.len()
            - 1,
        return_step(p, l, d) matches StepV::Continue(p2, l2, d2) ==> l2.queue.len()
            == l.queue.len() - 1,
{
}

/// The dispatch loop, step by step: while an event is pending, take it,
/// read the program counter of frame 0 of thread 0, and run the registered
/// handler; the first failing step, or a stop with no registered handler,
/// ends the run.
pub open spec fn run_steps(
    cb: Callbacks,
    p: ProcessV,
    l: ListenerV,
    d: DataV,
    armed: Option<bool>,
) -> RunV
    decreases l.queue.len()
    via run_steps_decreases
{
    if !(l.valid && l.queue.len() > 0) {
        RunV { p, l, d, armed, stop: None }
    } else {
        let l1 = ListenerV { valid: l.valid, queue: l.queue.drop_first() };
        match cb.spec_get(p.thread_at(0).frame_at(0).pc) {
            None => RunV { p, l: l1, d, armed, stop: Some(StopKind::MissingHandler) },
            Some(HandlerKind::AllocationEntry) => match entry_step(p, l1, d) {
                StepV::Continue(p2, l2, d2) => run_steps(cb, p2, l2, d2, Some(true)),
                StepV::Stop(p2, l2, d2, k) => RunV {
                    p: p2,
                    l: l2,
                    d: d2,
                    armed: Some(true),
                    stop: Some(k),
                },
            },
            Some(HandlerKind::AllocationReturn) => match return_step(p, l1, d) {
                StepV::Continue(p2, l2, d2) => run_steps(cb, p2, l2, d2, Some(false)),
                StepV::Stop(p2, l2, d2, k) => RunV {
                    p: p2,
                    l: l2,
                    d: d2,
                    armed: Some(false),
                    stop: Some(k),
                },
            },
        }
    }
}

#[via_fn]
proof fn run_steps_decreases(cb: Callbacks, p: ProcessV, l: ListenerV, d: DataV, armed: Option<
    bool,
>) {
    if l.valid && l.queue.len() > 0 {
        let l1 = ListenerV { valid: l.valid, queue: l.queue.drop_first() };
        lemma_step_continue_pops(p, l1, d);
    }
}

/// The whole session: the initial resume of the process, then the dispatch
/// loop over the pending events.
pub open spec fn go_run(cb: Callbacks, p: ProcessV, l: ListenerV, d: DataV) -> RunV {
    if !p.valid {
        RunV { p, l, d, armed: None::<bool>, stop: Some(StopKind::ResumeRefused) }
    } else {
        match resume_step(p, l, d) {
            StepV::Continue(p2, l2, d2) => run_steps(cb, p2, l2, d2, None::<bool>),
            StepV::Stop(p2, l2, d2, k) => RunV {
                p: p2,
                l: l2,
                d: d2,
                armed: None::<bool>,
                stop: Some(k),
            },
        }
    }
}

/// What a finished run promises: the tracker holds exactly the state the
/// run of the starting state computes, and the result is `Ok` exactly when
/// no step failed, else the first failing step's error.
pub open spec fn go_post(
    cb: Callbacks,
    b0: BreakPoints,
    p0: ProcessV,
    l0: ListenerV,
    d0: DataV,
    t1: ProgramTracker,
    r: Result<(), TrackError>,
) -> bool {
    let run = go_run(cb, p0, l0, d0);
    &&& t1.tp.process.handle()@ == run.p
    &&& t1.tp.listener.handle()@ == run.l
    &&& t1.data@ == run.d
    &&& bp_after(b0, t1.bp, run.armed)
    &&& match run.stop {
        None => r matches Ok(_),
        Some(k) => r matches Err(e) && stop_error(k, e),
    }
}

/// One more handler toggle lands on top of however the registry stood.
proof fn lemma_bp_after_compose(
    b0: BreakPoints,
    b1: BreakPoints,
    b2: BreakPoints,
    armed: Option<bool>,
    e: bool,
)
    requires
        bp_after(b0, b1, armed),
        bp_return_set(b1, b2, e),
        b0.spec_get(PC_ALLOCATION_RETURN).is_some(),
    ensures
        bp_after(b0, b2, Some(e)),
{
    assert forall|k: u64| b2.spec_get(k) == (if k == PC_ALLOCATION_RETURN {
        Some(SBBreakpoint { enabled: e, ..b0.spec_get(PC_ALLOCATION_RETURN)->0 })
    } else {
        b0.spec_get(k)
    }) by {
        assert(b1.spec_get(k) == (match armed {
            None => b0.spec_get(k),
            Some(e0) => if k == PC_ALLOCATION_RETURN {
                Some(SBBreakpoint { enabled: e0, ..b0.spec_get(PC_ALLOCATION_RETURN)->0 })
            } else {
                b0.spec_get(k)
            },
        }));
    }
}

/// The entry hit's handler: arms the return breakpoint, reads the size
/// register and the call-site expressions, records the pending allocation
/// and resumes the process.
pub fn break_allocation_entry(tp: &mut TargetProcess, bp: &mut BreakPoints, data: &mut Data) -> (r:
    Result<(), TrackError>)
    requires
        old(tp).wf(),
        old(bp).spec_get(PC_ALLOCATION_RETURN).is_some(),
    ensures
        final(tp).wf(),
        final(tp).target.handle() == old(tp).target.handle(),
        bp_return_set(*old(bp), *final(bp), true),
        entry_outcome(
            old(tp).process.handle()@,
            old(tp).listener.handle()@,
            old(data)@,
            *final(tp),
            final(data)@,
            r,
        ),
{
    bp.set(PC_ALLOCATION_RETURN, BP::Enabled);

    let mut thread = tp.process().thread(0);
    let mut frame = thread.frame(0);

    let mut size_reg = frame.find_register("edx");
    let size = match size_reg.get_value_usize() {
        Ok(v) => v,
        Err(e) => {
            return Err(TrackError::Native(e.into_inner()));
        },
    };
    let mut path_ptr = frame.evaluate_expression("(((uint32_t*)$esp)[1])");
    let pp = match path_ptr.get_value_unsigned() {
        Ok(v) => v,
        Err(e) => {
            return Err(TrackError::Native(e.into_inner()));
        },
    };
    let path = match tp.process().read_cstring_from_memory(pp, PATH_READ_BOUND) {
        Ok(v) => v,
        Err(e) => {
            return Err(TrackError::Native(e.into_inner()));
        },
    };
    let mut line_val = frame.evaluate_expression("((const uint32_t)((uint32_t*)$esp)[2])");
    let linenr = match line_val.get_value_u64() {
        Ok(v) => v,
        Err(e) => {
            return Err(TrackError::Native(e.into_inner()));
        },
    };

    record_entry(data, size, path, linenr)?;

    match tp.start() {
        Ok(u) => Ok(u),
        Err(se) => Err(TrackError::Session(se)),
    }
}

/// The return hit's handler: disarms the return breakpoint, reads the
/// call-site expressions and the result register, finalizes the pending
/// allocation and resumes the process.
pub fn break_allocation_return(tp: &mut TargetProcess, bp: &mut BreakPoints, data: &mut Data) -> (r:
    Result<(), TrackError>)
    requires
        old(tp).wf(),
        old(bp).spec_get(PC_ALLOCATION_RETURN).is_some(),
    ensures
        final(tp).wf(),
        final(tp).target.handle() == old(tp).target.handle(),
        bp_return_set(*old(bp), *final(bp), false),
        return_outcome(
            old(tp).process.handle()@,
            old(tp).listener.handle()@,
            old(data)@,
            *final(tp),
            final(data)@,
            r,
        ),
{
    bp.set(PC_ALLOCATION_RETURN, BP::Disabled);

    let mut thread = tp.process().thread(0);
    let mut frame = thread.frame(0);

    let mut path_ptr = frame.evaluate_expression("(((uint32_t*)$esp)[3])");
    let mut line_val = frame.evaluate_expression("((const uint32_t)((uint32_t*)$esp)[4])");
    let linenr = match line_val.get_value_u64() {
        Ok(v) => v,
        Err(e) => {
            return Err(TrackError::Native(e.into_inner()));
        },
    };
    let pp = match path_ptr.get_value_unsigned() {
        Ok(v) => v,
        Err(e) => {
            return Err(TrackError::Native(e.into_inner()));
        },
    };
    let path = match tp.process().read_cstring_from_memory(pp, PATH_READ_BOUND) {
        Ok(v) => v,
        Err(e) => {
            return Err(TrackError::Native(e.into_inner()));
        },
    };
    let mut ret_reg = frame.find_register("eax");
    let return_ptr = match ret_reg.get_value_unsigned() {
        Ok(v) => v,
        Err(e) => {
            return Err(TrackError::Native(e.into_inner()));
        },
    };

    record_return(data, &path, linenr, return_ptr)?;

    match tp.start() {
        Ok(u) => Ok(u),
        Err(se) => Err(TrackError::Session(se)),
    }
}

/// Tracks allocations in an attached process: a breakpoint registry, the
/// handler registry populated beside it, and the collected data.
pub struct ProgramTracker {
    pub tp: TargetProcess,
    pub bp: BreakPoints,
    pub callbacks: Callbacks,
    pub data: Data,
}

impl ProgramTracker {
    /// The session handles are usable.
    pub open spec fn wf(self) -> bool {
        self.tp.wf()
    }

    /// The return breakpoint the handlers toggle is registered.
    pub open spec fn wired(self) -> bool {
        self.bp.spec_get(PC_ALLOCATION_RETURN).is_some()
    }

    /// A tracker over the given session, with nothing registered yet.
    pub fn new(tp: TargetProcess) -> (r: ProgramTracker)
        ensures
            r.tp == tp,
            forall|k: u64| r.bp.spec_get(k).is_none(),
            forall|k: u64| r.callbacks.spec_get(k).is_none(),
            r.data@ == (DataV {
                allocations: Seq::<AllocationV>::empty(),
                pending_alloc: None::<AllocationV>,
            }),
    {
        ProgramTracker {
            tp,
            bp: AddressMap::new(),
            callbacks: AddressMap::new(),
            data: Data::new(),
        }
    }

    /// Registers a breakpoint at `address`, created disabled, and the
    /// handler that a stop there dispatches to.
    fn break_instruction(&mut self, address: u64, kind: HandlerKind)
        requires
            old(self).wf(),
        ensures
            final(self).wf(),
            final(self).tp.process.handle() == old(self).tp.process.handle(),
            final(self).tp.listener.handle() == old(self).tp.listener.handle(),
            final(self).tp.target.handle() == old(self).tp.target.handle(),
            final(self).data == old(self).data,
            forall|k: u64| final(self).bp.spec_get(k) == (if k == address {
                Some(SBBreakpoint { address, enabled: false, one_shot: false })
            } else {
                old(self).bp.spec_get(k)
            }),
            forall|k: u64| final(self).callbacks.spec_get(k) == (if k == address {
                Some(kind)
            } else {
                old(self).callbacks.spec_get(k)
            }),
    {
        let b = {
            let t = self.tp.target();
            let tr = t.handle_ref();
            tr.breakpoint_create_by_address(address)
        };
        self.bp.insert(address, b);
        self.bp.set(address, BP::Disabled);
        self.callbacks.insert(address, kind);
    }

    /// Registers both allocation breakpoints: the entry armed, the return
    /// disarmed until an entry hit arms it.
    pub fn register_bp_track_allocations(&mut self)
        requires
            old(self).wf(),
        ensures
            final(self).wf(),
            final(self).wired(),
            final(self).tp.process.handle() == old(self).tp.process.handle(),
            final(self).tp.listener.handle() == old(self).tp.listener.handle(),
            final(self).tp.target.handle() == old(self).tp.target.handle(),
            final(self).data == old(self).data,
            forall|k: u64| final(self).bp.spec_get(k) == (if k == PC_ALLOCATION_ENTRY {
                Some(
                    SBBreakpoint {
                        address: PC_ALLOCATION_ENTRY,
                        enabled: true,
                        one_shot: false,
                    },
                )
            } else if k == PC_ALLOCATION_RETURN {
                Some(
                    SBBreakpoint {
                        address: PC_ALLOCATION_RETURN,
                        enabled: false,
                        one_shot: false,
                    },
                )
            } else {
                old(self).bp.spec_get(k)
            }),
            forall|k: u64| final(self).callbacks.spec_get(k) == (if k == PC_ALLOCATION_ENTRY {
                Some(HandlerKind::AllocationEntry)
            } else if k == PC_ALLOCATION_RETURN {
                Some(HandlerKind::AllocationReturn)
            } else {
                old(self).callbacks.spec_get(k)
            }),
    {
        self.break_instruction(PC_ALLOCATION_ENTRY, HandlerKind::AllocationEntry);
        self.bp.set(PC_ALLOCATION_ENTRY, BP::Enabled);
        self.break_instruction(PC_ALLOCATION_RETURN, HandlerKind::AllocationReturn);
    }

    /// Dispatches a stop at `pc` to the registered handler. A stop at an
    /// address with no handler is fatal: there is no watchpoint support to
    /// fall back to.
    pub fn dispatch(&mut self, pc: u64) -> (r: Result<(), TrackError>)
        requires
            old(self).wf(),
            old(self).wired(),
        ensures
            final(self).wf(),
            final(self).wired(),
            final(self).callbacks == old(self).callbacks,
            final(self).tp.target.handle() == old(self).tp.target.handle(),
            final(self).tp.listener.handle()@.queue.len()
                <= old(self).tp.listener.handle()@.queue.len(),
            match old(self).callbacks.spec_get(pc) {
                None => r matches Err(TrackError::MissingHandler) && *final(self) == *old(self),
                Some(HandlerKind::AllocationEntry) => bp_return_set(
                    old(self).bp,
                    final(self).bp,
                    true,
                ) && entry_outcome(
                    old(self).tp.process.handle()@,
                    old(self).tp.listener.handle()@,
                    old(self).data@,
                    final(self).tp,
                    final(self).data@,
                    r,
                ),
                Some(HandlerKind::AllocationReturn) => bp_return_set(
                    old(self).bp,
                    final(self).bp,
                    false,
                ) && return_outcome(
                    old(self).tp.process.handle()@,
                    old(self).tp.listener.handle()@,
                    old(self).data@,
                    final(self).tp,
                    final(self).data@,
                    r,
                ),
            },
    {
        match self.callbacks.get(pc) {
            None => Err(TrackError::MissingHandler),
            Some(HandlerKind::AllocationEntry) => break_allocation_entry(
                &mut self.tp,
                &mut self.bp,
                &mut self.data,
            ),
            Some(HandlerKind::AllocationReturn) => break_allocation_return(
                &mut self.tp,
                &mut self.bp,
                &mut self.data,
            ),
        }
    }

    /// Resumes the process, then loops: wait for a stop event, read the
    /// program counter, dispatch to the registered handler (which itself
    /// resumes the process). The loop ends when no event is left; any
    /// failure unwinds out of the loop entirely, with no per-iteration
    /// recovery. The whole run is pinned down: the tracker ends in exactly
    /// the state [`go_run`] computes from the starting state, with success
    /// owed exactly when every scripted event dispatches and succeeds.
    #[verifier::loop_isolation(false)]
    pub fn go(&mut self) -> (r: Result<(), TrackError>)
        requires
            old(self).wf(),
            old(self).wired(),
        ensures
            final(self).wf(),
            final(self).wired(),
            final(self).callbacks == old(self).callbacks,
            final(self).tp.target.handle() == old(self).tp.target.handle(),
            go_post(
                old(self).callbacks,
                old(self).bp,
                old(self).tp.process.handle()@,
                old(self).tp.listener.handle()@,
                old(self).data@,
                *final(self),
                r,
            ),
            r matches Ok(_) ==> !(final(self).tp.listener.handle()@.valid
                && final(self).tp.listener.handle()@.queue.len() > 0),
    {
        let ghost cb0 = self.callbacks;
        let ghost bp0 = self.bp;
        let ghost p0 = self.tp.process.handle()@;
        let ghost l0 = self.tp.listener.handle()@;
        let ghost d0 = self.data@;
        let ghost total = go_run(cb0, p0, l0, d0);

        match self.tp.start() {
            Ok(_) => (),
            Err(se) => {
                return Err(TrackError::Session(se));
            },
        }
        proof {
            assert(p0.valid);
            assert(l0.valid && l0.queue.len() > 0);
            assert(l0.queue[0].state == StateType::Running);
            assert(total == run_steps(
                cb0,
                self.tp.process.handle()@,
                self.tp.listener.handle()@,
                self.data@,
                None::<bool>,
            ));
        }
        let ghost mut armed: Option<bool> = None;
        loop
            invariant
                self.wf(),
                self.wired(),
                self.callbacks == cb0,
                self.tp.target.handle() == old(self).tp.target.handle(),
                bp_after(bp0, self.bp, armed),
                total == run_steps(
                    cb0,
                    self.tp.process.handle()@,
                    self.tp.listener.handle()@,
                    self.data@,
                    armed,
                ),
            decreases self.tp.listener.handle()@.queue.len(),
        {
            let ghost cur_p = self.tp.process.handle()@;
            let ghost cur_l = self.tp.listener.handle()@;
            let ghost cur_d = self.data@;
            let event = self.tp.wait_for_event();
            match event {
                None => {
                    proof {
                        assert(total == (RunV {
                            p: cur_p,
                            l: cur_l,
                            d: cur_d,
                            armed,
                            stop: None::<StopKind>,
                        }));
                    }
                    return Ok(());
                },
                Some(_event) => {
                    let pc = {
                        let mut thread = self.tp.process().thread(0);
                        let mut frame = thread.frame(0);
                        let f = frame.handle_ref();
                        f.get_pc()
                    };
                    let ghost l1 = ListenerV {
                        valid: cur_l.valid,
                        queue: cur_l.queue.drop_first(),
                    };
                    let ghost bp_mid = self.bp;
                    let res = self.dispatch(pc);
                    proof {
                        assert(pc == cur_p.thread_at(0).frame_at(0).pc);
                        match cb0.spec_get(pc) {
                            None => {
                                assert(total == (RunV {
                                    p: cur_p,
                                    l: l1,
                                    d: cur_d,
                                    armed,
                                    stop: Some(StopKind::MissingHandler),
                                }));
                            },
                            Some(HandlerKind::AllocationEntry) => {
                                lemma_bp_after_compose(bp0, bp_mid, self.bp, armed, true);
                                armed = Some(true);
                                match entry_step(cur_p, l1, cur_d) {
                                    StepV::Continue(p2, l2, d2) => {
                                        assert(total == run_steps(cb0, p2, l2, d2, Some(true)));
                                    },
                                    StepV::Stop(p2, l2, d2, k) => {
                                        assert(total == (RunV {
                                            p: p2,
                                            l: l2,
                                            d: d2,
                                            armed: Some(true),
                                            stop: Some(k),
                                        }));
                                    },
                                }
                            },
                            Some(HandlerKind::AllocationReturn) => {
                                lemma_bp_after_compose(bp0, bp_mid, self.bp, armed, false);
                                armed = Some(false);
                                match return_step(cur_p, l1, cur_d) {
                                    StepV::Continue(p2, l2, d2) => {
                                        assert(total == run_steps(cb0, p2, l2, d2, Some(false)));
                                    },
                                    StepV::Stop(p2, l2, d2, k) => {
                                        assert(total == (RunV {
                                            p: p2,
                                            l: l2,
                                            d: d2,
                                            armed: Some(false),
                                            stop: Some(k),
                                        }));
                                    },
                                }
                            },
                        }
                    }
                    match res {
                        Ok(_) => (),
                        Err(e) => {
                            return Err(e);
                        },
                    }
                },
            }
        }
    }
}

} // verus!
