//! The debugger session: one-time initialization, attachment to a named
//! process, and the resume/halt operations that check the resulting event.
//!
//! Attachment takes the listener and the placeholder target from the
//! debugger, asks it to attach to the first process with the given name, and
//! on failure reports actionable diagnostics instead of a bare native error.

use vstd::prelude::*;

use crate::api::{init_step, InitOnce};
use crate::debugger;
use crate::error::SBError;
use crate::event::{ListenerV, SBEvent, SBListener};
use crate::process::SBProcess;
use crate::state::StateType;
use crate::table::table_find;
use crate::target::SBTarget;
use crate::wrappers::{Event, HandleAccess, UniqueHandle, Wrappable, Wrapped};
use vstd::string::StringExecFns;

verus! {

/// What a session operation reports when it cannot proceed.
#[derive(Debug)]
pub enum SessionError {
    /// Attachment failed; the text carries operator guidance.
    AttachFailed(String),
    /// A native call failed.
    Native(SBError),
    /// No event arrived where one was required.
    NoEvent,
    /// The event after a resume or halt reported the wrong state.
    UnexpectedState(StateType),
}

/// The diagnostics an attachment failure carries: operator guidance first,
/// then the native error text.
pub open spec fn attach_diagnostics(native_text: Seq<char>) -> Seq<char> {
    "Failed to attach (wrong pid/name? debug-server binary not found beside the build output? when in doubt run the process tracer to see which path fails, or allow non-root tracing in the kernel's ptrace scope setting): "@
        + native_text
}

/// A target/process/listener triple: what one attachment yields.
#[derive(Debug)]
pub struct TargetProcess {
    pub process: UniqueHandle<SBProcess>,
    pub target: UniqueHandle<SBTarget>,
    pub listener: UniqueHandle<SBListener>,
}

impl TargetProcess {
    /// All three handles are present.
    pub open spec fn wf(self) -> bool {
        self.process.accessible() && self.target.accessible() && self.listener.accessible()
    }

    /// Attaches to the first process with the given name: takes the listener
    /// and the placeholder target from the debugger, then asks it to attach.
    /// On failure the debugger has still given both up, and the error carries
    /// operator guidance around the native error text.
    pub fn attach_to_name(dbg: &mut debugger::SBDebugger, name: &str) -> (r: Result<
        TargetProcess,
        SessionError,
    >)
        requires
            old(dbg)@.listener.is_some(),
            old(dbg)@.dummy_target.is_some(),
        ensures
            final(dbg)@.async_mode == old(dbg)@.async_mode,
            final(dbg)@.listener.is_none(),
            final(dbg)@.dummy_target.is_none(),
            match table_find(old(dbg)@.procs, name@) {
                Some(i) => r matches Ok(tp) && tp.wf() && tp.process.handle()@ == old(
                    dbg,
                )@.procs[i].1 && Some(tp.listener.handle()@) == old(dbg)@.listener && Some(
                    tp.target.handle()@,
                ) == old(dbg)@.dummy_target && final(dbg)@.procs == old(dbg)@.procs.remove(i),
                None => r matches Err(e) && e matches SessionError::AttachFailed(d) && d@
                    == attach_diagnostics("no process with that name"@) && final(dbg)@.procs == old(
                    dbg,
                )@.procs,
            },
    {
        let listener = match dbg.get_listener() {
            Some(l) => l,
            None => unreached(),
        };
        let target = match dbg.get_dummy_target() {
            Some(t) => t,
            None => unreached(),
        };
        match dbg.take_process_named(name) {
            Some(p) => Ok(
                TargetProcess {
                    process: UniqueHandle::new(p),
                    target: UniqueHandle::new(target),
                    listener: UniqueHandle::new(listener),
                },
            ),
            None => {
                let mut d = String::from_str(
                    "Failed to attach (wrong pid/name? debug-server binary not found beside the build output? when in doubt run the process tracer to see which path fails, or allow non-root tracing in the kernel's ptrace scope setting): ",
                );
                d.append("no process with that name");
                Err(SessionError::AttachFailed(d))
            },
        }
    }

    /// Delivers the oldest pending event, wrapped, when one is available.
    pub fn wait_for_event(&mut self) -> (r: Option<Wrapped<SBEvent>>)
        requires
            old(self).wf(),
        ensures
            final(self).wf(),
            final(self).process == old(self).process,
            final(self).target == old(self).target,
            ({
                let l = old(self).listener.handle()@;
                if l.valid && l.queue.len() > 0 {
                    r matches Some(ev) && ev.handle()@ == l.queue[0]
                        && final(self).listener.handle()@ == (ListenerV {
                        valid: l.valid,
                        queue: l.queue.drop_first(),
                    })
                } else {
                    r.is_none() && final(self).listener.handle() == old(self).listener.handle()
                }
            }),
    {
        let mut event = SBEvent::new();
        let got = self.listener.handle_mut().wait_for_event(10, &mut event);
        if got {
            Some(event.wrap())
        } else {
            None
        }
    }

    /// Resumes the process and checks that the following event reports the
    /// running state; anything else is a mismatch failure.
    pub fn start(&mut self) -> (r: Result<(), SessionError>)
        requires
            old(self).wf(),
        ensures
            final(self).wf(),
            final(self).target == old(self).target,
            resume_outcome(
                old(self).process.handle()@,
                old(self).listener.handle()@,
                final(self).process.handle()@,
                final(self).listener.handle()@,
                StateType::Running,
                r,
            ),
    {
        let e = self.process.handle_mut().continue_run();
        if e.fail() {
            return Err(SessionError::Native(e));
        }
        match self.wait_for_event() {
            None => Err(SessionError::NoEvent),
            Some(ev) => {
                let t = ev.event_type();
                if t == StateType::Running {
                    Ok(())
                } else {
                    Err(SessionError::UnexpectedState(t))
                }
            },
        }
    }

    /// Halts the process and checks that the following event reports the
    /// stopped state; anything else is a mismatch failure.
    pub fn stop(&mut self) -> (r: Result<(), SessionError>)
        requires
            old(self).wf(),
        ensures
            final(self).wf(),
            final(self).target == old(self).target,
            resume_outcome(
                old(self).process.handle()@,
                old(self).listener.handle()@,
                final(self).process.handle()@,
                final(self).listener.handle()@,
                StateType::Stopped,
                r,
            ),
    {
        let e = self.process.handle_mut().stop_run();
        if e.fail() {
            return Err(SessionError::Native(e));
        }
        match self.wait_for_event() {
            None => Err(SessionError::NoEvent),
            Some(ev) => {
                let t = ev.event_type();
                if t == StateType::Stopped {
                    Ok(())
                } else {
                    Err(SessionError::UnexpectedState(t))
                }
            },
        }
    }

    /// Exclusive access to the target handle.
    pub fn target(&mut self) -> (r: &mut UniqueHandle<SBTarget>)
        ensures
            *r == old(self).target,
            final(self).target == *final(r),
            final(self).process == old(self).process,
            final(self).listener == old(self).listener,
    {
        &mut self.target
    }

    /// Exclusive access to the process handle.
    pub fn process(&mut self) -> (r: &mut UniqueHandle<SBProcess>)
        ensures
            *r == old(self).process,
            final(self).process == *final(r),
            final(self).target == old(self).target,
            final(self).listener == old(self).listener,
    {
        &mut self.process
    }
}

/// What resuming (or halting) towards `wanted` yields: an invalid process
/// fails natively and consumes nothing; otherwise the process reaches
/// `wanted`, and the next event must both exist and report `wanted`.
pub open spec fn resume_outcome(
    p0: crate::process::ProcessV,
    l0: ListenerV,
    p1: crate::process::ProcessV,
    l1: ListenerV,
    wanted: StateType,
    r: Result<(), SessionError>,
) -> bool {
    if !p0.valid {
        r matches Err(e) && e matches SessionError::Native(n) && n@.is_fail() && p1 == p0 && l1
            == l0
    } else {
        let moved = crate::process::ProcessV { state: wanted, ..p0 };
        if !(l0.valid && l0.queue.len() > 0) {
            r matches Err(e) && e matches SessionError::NoEvent && p1 == moved && l1 == l0
        } else {
            let popped = ListenerV { valid: l0.valid, queue: l0.queue.drop_first() };
            p1 == moved && l1 == popped && if l0.queue[0].state == wanted {
                r matches Ok(_)
            } else {
                r matches Err(e) && e matches SessionError::UnexpectedState(s) && s
                    == l0.queue[0].state
            }
        }
    }
}

/// The debugger entry point a session program uses: construction initializes
/// the native library exactly once per process, however many of these are
/// created.
pub struct ProcessDebugger {
    pub dbg: Box<debugger::SBDebugger>,
}

impl ProcessDebugger {
    /// Initializes the library (through the guard) and creates a debugger.
    pub fn new(once: &mut InitOnce) -> (r: ProcessDebugger)
        ensures
            final(once).count == init_step(old(once).count),
            r.dbg@ == (debugger::DebuggerV {
                async_mode: false,
                listener: Some(ListenerV { valid: true, queue: Seq::empty() }),
                dummy_target: Some(crate::target::TargetV {
                    valid: true,
                    word_size: 4,
                    watch_ids: Seq::empty(),
                    next_watch_id: 1,
                }),
                procs: Seq::empty(),
            }),
    {
        once.call_once();
        let d = debugger::SBDebugger::create();
        let ghost dv = d;
        let b = Box::new(d);
        proof {
            assert(*b == dv);
        }
        ProcessDebugger { dbg: b }
    }

    /// A shared borrow of the debugger.
    pub fn dbg_ref(&self) -> (r: &debugger::SBDebugger)
        ensures
            *r == *self.dbg,
    {
        &*self.dbg
    }

    /// An exclusive borrow of the debugger.
    pub fn dbg_mut(&mut self) -> (r: &mut debugger::SBDebugger)
        ensures
            *r == *old(self).dbg,
            *final(self).dbg == *final(r),
    {
        &mut *self.dbg
    }

    /// Attaches to the first process with the given name.
    pub fn attach_to_name(&mut self, name: &str) -> (r: Result<TargetProcess, SessionError>)
        requires
            old(self).dbg@.listener.is_some(),
            old(self).dbg@.dummy_target.is_some(),
        ensures
            final(self).dbg@.async_mode == old(self).dbg@.async_mode,
            final(self).dbg@.listener.is_none(),
            final(self).dbg@.dummy_target.is_none(),
            match table_find(old(self).dbg@.procs, name@) {
                Some(i) => r matches Ok(tp) && tp.wf() && tp.process.handle()@ == old(
                    self,
                ).dbg@.procs[i].1 && Some(tp.listener.handle()@) == old(self).dbg@.listener && Some(
                    tp.target.handle()@,
                ) == old(self).dbg@.dummy_target && final(self).dbg@.procs == old(
                    self,
                ).dbg@.procs.remove(i),
                None => r matches Err(e) && e matches SessionError::AttachFailed(d) && d@
                    == attach_diagnostics("no process with that name"@) && final(self).dbg@.procs
                    == old(self).dbg@.procs,
            },
    {
        TargetProcess::attach_to_name(&mut *self.dbg, name)
    }
}

} // verus!
