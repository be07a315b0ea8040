//! The debugger entry point and its one-time initialization guard.
//!
//! The native library must be initialized exactly once per process lifetime,
//! no matter how many debugger sessions are constructed. The guard carries
//! that process-wide state explicitly: every session constructor runs the
//! guarded transition, and the guard makes every run but the first a no-op.

use vstd::prelude::*;

use crate::debugger;

verus! {

/// One guarded transition: a first run initializes, a later run is a no-op.
pub open spec fn init_step(count: u64) -> u64 {
    if count == 0 {
        1
    } else {
        count
    }
}

/// The guard's count after `n` constructions, starting from a fresh guard.
pub open spec fn init_count_after(n: nat) -> u64
    decreases n,
{
    if n == 0 {
        0
    } else {
        init_step(init_count_after((n - 1) as nat))
    }
}

/// The one-time initialization routine runs exactly once, regardless of how
/// many debugger sessions are constructed within one process lifetime.
pub proof fn lemma_initialize_exactly_once(n: nat)
    requires
        n >= 1,
    ensures
        init_count_after(n) == 1,
    decreases n,
{
    if n == 1 {
        assert(init_count_after(0) == 0);
    } else {
        lemma_initialize_exactly_once((n - 1) as nat);
    }
}

/// The process-wide initialization state: how many times the one-time native
/// initialization routine has actually run.
pub struct InitOnce {
    pub count: u64,
}

impl InitOnce {
    /// The state of a process in which no session was constructed yet.
    pub fn new() -> (r: InitOnce)
        ensures
            r.count == 0,
    {
        InitOnce { count: 0 }
    }

    /// Runs the initialization routine unless it already ran.
    pub fn call_once(&mut self)
        ensures
            final(self).count == init_step(old(self).count),
    {
        if self.count == 0 {
            self.count = 1;
        }
    }

    /// How many times the initialization routine has run.
    pub fn times_initialized(&self) -> (r: u64)
        ensures
            r == self.count,
    {
        self.count
    }
}

/// The debugger entry point: constructing it initializes the native library
/// (through the guard) and creates a fresh debugger.
pub struct SBDebugger {
    pub dbg: debugger::SBDebugger,
}

impl SBDebugger {
    /// Initializes the library, once, and creates a debugger.
    pub fn new(once: &mut InitOnce) -> (r: SBDebugger)
        ensures
            final(once).count == init_step(old(once).count),
            r.dbg@ == (debugger::DebuggerV {
                async_mode: false,
                listener: Some(crate::event::ListenerV { valid: true, queue: Seq::empty() }),
                dummy_target: Some(crate::target::TargetV {
                    valid: true,
                    word_size: 4,
                    watch_ids: Seq::empty(),
                    next_watch_id: 1,
                }),
                procs: Seq::empty(),
            }),
    {
        once.call_once();
        SBDebugger { dbg: debugger::SBDebugger::create() }
    }

    /// A shared borrow of the underlying debugger.
    pub fn dbg_ref(&self) -> (r: &debugger::SBDebugger)
        ensures
            *r == self.dbg,
    {
        &self.dbg
    }

    /// An exclusive borrow of the underlying debugger.
    pub fn dbg_mut(&mut self) -> (r: &mut debugger::SBDebugger)
        ensures
            *r == old(self).dbg,
            final(self).dbg == *final(r),
    {
        &mut self.dbg
    }
}

} // verus!
