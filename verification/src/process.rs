//! The native-model process.
//!
//! Besides its threads and its coarse execution state, a process carries one
//! contiguous readable memory region. A memory read succeeds when it starts
//! inside the region; it yields the bytes from the start address up to the
//! requested size, clipped at the end of the region, so the caller receives
//! exactly the bytes the read reports, and never more than requested.

use vstd::prelude::*;

use crate::error::{ErrorV, SBError};
use crate::state::{ErrorType, StateType};
use crate::thread::{SBThread, ThreadV};

verus! {

/// Specification-level content of an [`SBProcess`].
pub struct ProcessV {
    pub valid: bool,
    pub state: StateType,
    pub threads: Seq<ThreadV>,
    pub mem_base: u64,
    pub mem: Seq<u8>,
    pub hw_watchpoints: u32,
}

impl ProcessV {
    /// Whether a read starting at `address` can succeed.
    pub open spec fn read_ok(self, address: u64) -> bool {
        self.valid && self.mem_base <= address < self.mem_base + self.mem.len()
    }

    /// How many bytes a read of `size` starting at `address` yields: the
    /// requested size, clipped at the end of the region.
    pub open spec fn read_len(self, address: u64, size: nat) -> nat {
        let avail = (self.mem_base + self.mem.len() - address) as nat;
        if size <= avail {
            size
        } else {
            avail
        }
    }

    /// The bytes a successful read yields.
    pub open spec fn read_bytes(self, address: u64, size: nat) -> Seq<u8> {
        let off = address - self.mem_base;
        self.mem.subrange(off, off + self.read_len(address, size))
    }

    /// The thread a lookup by index yields.
    pub open spec fn thread_at(self, id: int) -> ThreadV {
        if self.valid && 0 <= id < self.threads.len() {
            self.threads[id]
        } else {
            ThreadV { valid: false, frames: Seq::empty() }
        }
    }
}

/// Index of the first null byte of `s`, or `s.len()` when none occurs.
pub open spec fn first_null(s: Seq<u8>) -> int
    decreases s.len(),
{
    if s.len() == 0 {
        0
    } else if s[0] == 0 {
        0
    } else {
        1 + first_null(s.drop_first())
    }
}

/// `first_null` points at the first null byte: nothing before it is null,
/// and the byte there (when inside the sequence) is null.
pub proof fn lemma_first_null_props(s: Seq<u8>)
    ensures
        0 <= first_null(s) <= s.len(),
        forall|j: int| 0 <= j < first_null(s) ==> s[j] != 0,
        first_null(s) < s.len() ==> s[first_null(s)] == 0,
    decreases s.len(),
{
    if s.len() == 0 {
    } else if s[0] == 0 {
    } else {
        let rest = s.drop_first();
        lemma_first_null_props(rest);
        assert forall|j: int| 0 <= j < first_null(s) implies s[j] != 0 by {
            if j > 0 {
                assert(rest[j - 1] != 0);
                assert(rest[j - 1] == s[j]);
            }
        }
        if first_null(s) < s.len() {
            assert(rest[first_null(rest)] == s[first_null(s)]);
        }
    }
}

/// `first_null` is exactly the position of the first null byte.
pub proof fn lemma_first_null_at(s: Seq<u8>, k: int)
    requires
        0 <= k <= s.len(),
        forall|j: int| 0 <= j < k ==> s[j] != 0,
        k < s.len() ==> s[k] == 0,
    ensures
        first_null(s) == k,
    decreases k,
{
    if s.len() == 0 {
    } else if k == 0 {
    } else {
        let rest = s.drop_first();
        assert(forall|j: int| 0 <= j < k - 1 ==> rest[j] == s[j + 1] && rest[j] != 0);
        assert(k - 1 < rest.len() ==> rest[k - 1] == s[k]);
        lemma_first_null_at(rest, k - 1);
    }
}

/// A native-model process.
#[derive(Debug)]
pub struct SBProcess {
    pub valid: bool,
    pub state: StateType,
    pub threads: Vec<SBThread>,
    /// First address of the readable memory region.
    pub mem_base: u64,
    /// Content of the readable memory region.
    pub mem: Vec<u8>,
    /// How many hardware watchpoints the target supports.
    pub hw_watchpoints: u32,
}

impl View for SBProcess {
    type V = ProcessV;

    open spec fn view(&self) -> ProcessV {
        ProcessV {
            valid: self.valid,
            state: self.state,
            threads: self.threads@.map_values(|t: SBThread| t@),
            mem_base: self.mem_base,
            mem: self.mem@,
            hw_watchpoints: self.hw_watchpoints,
        }
    }
}

impl SBProcess {
    /// A default-constructed process handle: invalid, not attached to
    /// anything.
    pub fn new() -> (r: SBProcess)
        ensures
            r@ == (ProcessV {
                valid: false,
                state: StateType::Invalid,
                threads: Seq::<ThreadV>::empty(),
                mem_base: 0,
                mem: Seq::<u8>::empty(),
                hw_watchpoints: 0,
            }),
    {
        let r = SBProcess {
            valid: false,
            state: StateType::Invalid,
            threads: Vec::new(),
            mem_base: 0,
            mem: Vec::new(),
            hw_watchpoints: 0,
        };
        proof {
            assert(r@.threads =~= Seq::<ThreadV>::empty());
            assert(r@.mem =~= Seq::<u8>::empty());
        }
        r
    }

    /// A valid, stopped process with no threads and no readable memory yet.
    pub fn stopped() -> (r: SBProcess)
        ensures
            r@ == (ProcessV {
                valid: true,
                state: StateType::Stopped,
                threads: Seq::<ThreadV>::empty(),
                mem_base: 0,
                mem: Seq::<u8>::empty(),
                hw_watchpoints: 0,
            }),
    {
        let r = SBProcess {
            valid: true,
            state: StateType::Stopped,
            threads: Vec::new(),
            mem_base: 0,
            mem: Vec::new(),
            hw_watchpoints: 0,
        };
        proof {
            assert(r@.threads =~= Seq::<ThreadV>::empty());
            assert(r@.mem =~= Seq::<u8>::empty());
        }
        r
    }

    /// Appends a thread; the first one pushed is thread 0.
    pub fn push_thread(&mut self, thread: SBThread)
        ensures
            final(self)@ == (ProcessV {
                threads: old(self)@.threads.push(thread@),
                ..old(self)@
            }),
    {
        let ghost before = self@;
        self.threads.push(thread);
        proof {
            assert(self@.threads =~= before.threads.push(self.threads@.last()@));
        }
    }

    /// Installs the readable memory region.
    pub fn set_memory(&mut self, base: u64, bytes: Vec<u8>)
        requires
            base + bytes@.len() <= u64::MAX,
        ensures
            final(self)@ == (ProcessV { mem_base: base, mem: bytes@, ..old(self)@ }),
    {
        self.mem_base = base;
        self.mem = bytes;
    }

    /// The thread at the given index: a content-equal copy of the stored one,
    /// or an invalid thread when the process or the index is not usable.
    pub fn thread_at_model(&self, id: usize) -> (r: SBThread)
        ensures
            r@ == self@.thread_at(id as int),
    {
        if !self.valid {
            return SBThread::invalid();
        }
        if id < self.threads.len() {
            self.threads[id].duplicate()
        } else {
            SBThread::invalid()
        }
    }

    /// Resumes the process, reporting failure on an invalid handle.
    pub fn continue_run(&mut self) -> (r: SBError)
        ensures
            old(self)@.valid ==> final(self)@ == (ProcessV {
                state: StateType::Running,
                ..old(self)@
            }) && r@.is_success(),
            !old(self)@.valid ==> *final(self) == *old(self) && r@.is_fail(),
    {
        if self.valid {
            self.state = StateType::Running;
            SBError::new()
        } else {
            SBError::failure(ErrorType::Generic, "process is invalid")
        }
    }

    /// Halts the process, reporting failure on an invalid handle.
    pub fn stop_run(&mut self) -> (r: SBError)
        ensures
            old(self)@.valid ==> final(self)@ == (ProcessV {
                state: StateType::Stopped,
                ..old(self)@
            }) && r@.is_success(),
            !old(self)@.valid ==> *final(self) == *old(self) && r@.is_fail(),
    {
        if self.valid {
            self.state = StateType::Stopped;
            SBError::new()
        } else {
            SBError::failure(ErrorType::Generic, "process is invalid")
        }
    }

    /// Reads up to `size` bytes starting at `address`, through the
    /// output-parameter error convention. On failure the error records it
    /// and the result is empty; on success the error is left untouched and
    /// the result holds exactly the bytes the read reports.
    #[verifier::loop_isolation(false)]
    pub fn read_memory_model(&self, address: u64, size: usize, e: &mut SBError) -> (r: Vec<u8>)
        ensures
            self@.read_ok(address) ==> *final(e) == *old(e) && r@ == self@.read_bytes(
                address,
                size as nat,
            ),
            !self@.read_ok(address) ==> r@ == Seq::<u8>::empty() && final(e)@ == (ErrorV {
                etype: ErrorType::Generic,
                msg: Some("memory read failed"@),
            }),
    {
        if !self.valid || address < self.mem_base {
            e.set_error_string("memory read failed");
            let r: Vec<u8> = Vec::new();
            proof {
                assert(r@ =~= Seq::<u8>::empty());
            }
            return r;
        }
        let off_u64 = address - self.mem_base;
        if off_u64 >= self.mem.len() as u64 {
            e.set_error_string("memory read failed");
            let r: Vec<u8> = Vec::new();
            proof {
                assert(r@ =~= Seq::<u8>::empty());
            }
            return r;
        }
        let off = off_u64 as usize;
        let avail = self.mem.len() - off;
        let n = if size <= avail {
            size
        } else {
            avail
        };
        let mut r: Vec<u8> = Vec::new();
        let mut i: usize = 0;
        while i < n
            invariant
                i <= n,
                off + n <= self.mem@.len(),
                r@ =~= self.mem@.subrange(off as int, off + i),
            decreases n - i,
        {
            r.push(self.mem[off + i]);
            proof {
                assert(r@ =~= self.mem@.subrange(off as int, off + i + 1));
            }
            i += 1;
        }
        proof {
            assert(n == self@.read_len(address, size as nat));
            assert(r@ =~= self@.read_bytes(address, size as nat));
        }
        r
    }

    /// Reads a null-terminated string of at most `size` bytes starting at
    /// `address`, through the output-parameter error convention. The result
    /// is truncated at the first null byte within the read window and never
    /// contains the terminator.
    #[verifier::loop_isolation(false)]
    pub fn read_cstring_model(&self, address: u64, size: usize, e: &mut SBError) -> (r: Vec<u8>)
        ensures
            self@.read_ok(address) ==> *final(e) == *old(e) && r@ == {
                let window = self@.read_bytes(address, size as nat);
                window.take(first_null(window))
            },
            !self@.read_ok(address) ==> r@ == Seq::<u8>::empty() && final(e)@ == (ErrorV {
                etype: ErrorType::Generic,
                msg: Some("memory read failed"@),
            }),
            forall|j: int| 0 <= j < r@.len() ==> r@[j] != 0,
            r@.len() <= size,
    {
        let window = self.read_memory_model(address, size, e);
        let ghost w = window@;
        proof {
            lemma_first_null_props(w);
        }
        let mut r: Vec<u8> = Vec::new();
        let mut i: usize = 0;
        while i < window.len()
            invariant
                i <= w.len(),
                w == window@,
                forall|j: int| 0 <= j < i ==> w[j] != 0,
                r@ =~= w.take(i as int),
            decreases window.len() - i,
        {
            if window[i] == 0 {
                proof {
                    lemma_first_null_at(w, i as int);
                }
                return r;
            }
            r.push(window[i]);
            proof {
                assert(r@ =~= w.take(i + 1));
            }
            i += 1;
        }
        proof {
            lemma_first_null_at(w, w.len() as int);
            assert(r@ =~= w.take(first_null(w)));
        }
        r
    }

    /// How many hardware watchpoints the target supports, through the
    /// output-parameter error convention.
    pub fn num_hardware_watchpoints(&self, e: &mut SBError) -> (r: u32)
        ensures
            self@.valid ==> r == self@.hw_watchpoints && *final(e) == *old(e),
            !self@.valid ==> r == 0 && final(e)@ == (ErrorV {
                etype: ErrorType::Generic,
                msg: Some("process is invalid"@),
            }),
    {
        if self.valid {
            self.hw_watchpoints
        } else {
            e.set_error_string("process is invalid");
            0
        }
    }
}

} // verus!
