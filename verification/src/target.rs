//! The native-model target, and the breakpoints and watchpoints it serves.
//!
//! A watch request must name one of the register widths the target supports:
//! on a 32-bit target an 8-byte watch fails, while a 4-byte watch succeeds.
//! That is an expected failure path, not a defect.

use vstd::prelude::*;

use crate::error::{ErrorV, SBError};
use crate::state::ErrorType;

verus! {

/// A native-model breakpoint: an address and its toggles.
#[derive(Clone, Copy, Debug, PartialEq, Eq, Structural)]
pub struct SBBreakpoint {
    pub address: u64,
    pub enabled: bool,
    pub one_shot: bool,
}

impl SBBreakpoint {
    /// Toggles whether the breakpoint stops the process.
    pub fn set_enabled_model(&mut self, state: bool)
        ensures
            *final(self) == (SBBreakpoint { enabled: state, ..*old(self) }),
    {
        self.enabled = state;
    }

    /// Toggles whether the breakpoint removes itself after one hit.
    pub fn set_one_shot_model(&mut self, state: bool)
        ensures
            *final(self) == (SBBreakpoint { one_shot: state, ..*old(self) }),
    {
        self.one_shot = state;
    }
}

/// A native-model watchpoint handle.
#[derive(Clone, Copy, Debug, PartialEq, Eq, Structural)]
pub struct SBWatchpoint {
    pub valid: bool,
    pub id: i32,
    pub enabled: bool,
}

/// Specification-level content of an [`SBTarget`].
pub struct TargetV {
    pub valid: bool,
    pub word_size: usize,
    pub watch_ids: Seq<i32>,
    pub next_watch_id: i32,
}

impl TargetV {
    /// Whether a watch of `size` bytes can be planted on this target: the
    /// size must be one of the supported register widths.
    pub open spec fn watch_size_ok(self, size: usize) -> bool {
        size == 1 || size == 2 || size == 4 || (size == 8 && self.word_size >= 8)
    }

    /// Whether a watch request of `size` bytes succeeds.
    pub open spec fn watch_ok(self, size: usize) -> bool {
        self.valid && self.watch_size_ok(size) && self.next_watch_id < i32::MAX
    }
}

/// Index of the first occurrence of `x` in `s`, if any.
pub open spec fn id_find(s: Seq<i32>, x: i32) -> Option<int>
    decreases s.len(),
{
    if s.len() == 0 {
        None
    } else if s[0] == x {
        Some(0)
    } else {
        match id_find(s.drop_first(), x) {
            Some(i) => Some(i + 1),
            None => None,
        }
    }
}

/// `id_find` returns exactly the first occurrence.
pub proof fn lemma_id_find_at(s: Seq<i32>, x: i32, k: int)
    requires
        0 <= k <= s.len(),
        forall|j: int| 0 <= j < k ==> s[j] != x,
        k < s.len() ==> s[k] == x,
    ensures
        k < s.len() ==> id_find(s, x) == Some(k),
        k == s.len() ==> id_find(s, x).is_none(),
    decreases k,
{
    if s.len() == 0 {
    } else if k == 0 {
    } else {
        let rest = s.drop_first();
        assert(forall|j: int| 0 <= j < k - 1 ==> rest[j] == s[j + 1] && rest[j] != x);
        assert(k - 1 < rest.len() ==> rest[k - 1] == s[k]);
        lemma_id_find_at(rest, x, k - 1);
    }
}

/// A native-model target.
#[derive(Debug)]
pub struct SBTarget {
    pub valid: bool,
    /// The pointer width of the traced binary, in bytes.
    pub word_size: usize,
    /// Identifiers of the watchpoints currently planted.
    pub watch_ids: Vec<i32>,
    /// The identifier the next successful watch request receives.
    pub next_watch_id: i32,
}

impl View for SBTarget {
    type V = TargetV;

    open spec fn view(&self) -> TargetV {
        TargetV {
            valid: self.valid,
            word_size: self.word_size,
            watch_ids: self.watch_ids@,
            next_watch_id: self.next_watch_id,
        }
    }
}

impl SBTarget {
    /// An invalid target handle.
    pub fn invalid() -> (r: SBTarget)
        ensures
            r@ == (TargetV {
                valid: false,
                word_size: 0,
                watch_ids: Seq::<i32>::empty(),
                next_watch_id: 1,
            }),
    {
        let r = SBTarget { valid: false, word_size: 0, watch_ids: Vec::new(), next_watch_id: 1 };
        proof {
            assert(r@.watch_ids =~= Seq::<i32>::empty());
        }
        r
    }

    /// A valid target for a binary of the given pointer width in bytes.
    pub fn with_word_size(word_size: usize) -> (r: SBTarget)
        ensures
            r@ == (TargetV {
                valid: true,
                word_size,
                watch_ids: Seq::<i32>::empty(),
                next_watch_id: 1,
            }),
    {
        let r = SBTarget { valid: true, word_size, watch_ids: Vec::new(), next_watch_id: 1 };
        proof {
            assert(r@.watch_ids =~= Seq::<i32>::empty());
        }
        r
    }

    /// Creates a breakpoint at the given address, enabled and not one-shot.
    pub fn breakpoint_create_by_address(&self, address: u64) -> (r: SBBreakpoint)
        ensures
            r == (SBBreakpoint { address, enabled: true, one_shot: false }),
    {
        SBBreakpoint { address, enabled: true, one_shot: false }
    }

    /// Plants a watchpoint, through the output-parameter error convention.
    /// The request succeeds exactly on a valid target, a supported width and
    /// an unexhausted identifier supply; the new watchpoint starts enabled.
    pub fn watch_address_model(
        &mut self,
        address: u64,
        size: usize,
        read: bool,
        write: bool,
        e: &mut SBError,
    ) -> (r: SBWatchpoint)
        ensures
            old(self)@.watch_ok(size) ==> *final(e) == *old(e) && r == (SBWatchpoint {
                valid: true,
                id: old(self)@.next_watch_id,
                enabled: true,
            }) && final(self)@ == (TargetV {
                watch_ids: old(self)@.watch_ids.push(old(self)@.next_watch_id),
                next_watch_id: (old(self)@.next_watch_id + 1) as i32,
                ..old(self)@
            }),
            !old(self)@.watch_ok(size) ==> *final(self) == *old(self) && r == (SBWatchpoint {
                valid: false,
                id: 0,
                enabled: false,
            }) && final(e)@ == (ErrorV {
                etype: ErrorType::Generic,
                msg: Some("sending gdb watchpoint packet failed"@),
            }),
    {
        let _ = read;
        let _ = write;
        let _ = address;
        let size_ok = size == 1 || size == 2 || size == 4 || (size == 8 && self.word_size >= 8);
        if self.valid && size_ok && self.next_watch_id < i32::MAX {
            let id = self.next_watch_id;
            self.watch_ids.push(id);
            self.next_watch_id = id + 1;
            SBWatchpoint { valid: true, id, enabled: true }
        } else {
            e.set_error_string("sending gdb watchpoint packet failed");
            SBWatchpoint { valid: false, id: 0, enabled: false }
        }
    }

    /// Removes the watchpoint with the given identifier; reports whether one
    /// was planted.
    #[verifier::loop_isolation(false)]
    pub fn delete_watchpoint_model(&mut self, id: i32) -> (r: bool)
        ensures
            match id_find(old(self)@.watch_ids, id) {
                Some(i) => r && final(self)@ == (TargetV {
                    watch_ids: old(self)@.watch_ids.remove(i),
                    ..old(self)@
                }),
                None => !r && *final(self) == *old(self),
            },
    {
        let ghost ids = self@.watch_ids;
        let mut i: usize = 0;
        while i < self.watch_ids.len()
            invariant
                i <= self.watch_ids.len(),
                *self == *old(self),
                self@.watch_ids == ids,
                forall|j: int| 0 <= j < i ==> ids[j] != id,
            decreases self.watch_ids.len() - i,
        {
            if self.watch_ids[i] == id {
                proof {
                    lemma_id_find_at(ids, id, i as int);
                }
                self.watch_ids.remove(i);
                return true;
            }
            i += 1;
        }
        proof {
            lemma_id_find_at(ids, id, ids.len() as int);
        }
        false
    }
}

} // verus!
