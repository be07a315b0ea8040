//! The native-model thread.
//!
//! A thread hands out its stack frames by index; an out-of-range index, or an
//! invalid thread, hands out an invalid frame.

use vstd::prelude::*;

use crate::frame::{FrameV, SBFrame};

verus! {

/// Specification-level content of an [`SBThread`].
pub struct ThreadV {
    pub valid: bool,
    pub frames: Seq<FrameV>,
}

impl ThreadV {
    /// The frame a lookup by index yields.
    pub open spec fn frame_at(self, id: int) -> FrameV {
        if self.valid && 0 <= id < self.frames.len() {
            self.frames[id]
        } else {
            FrameV {
                valid: false,
                pc: 0,
                registers: Seq::empty(),
                expressions: Seq::empty(),
            }
        }
    }
}

/// A native-model thread.
#[derive(Debug)]
pub struct SBThread {
    pub valid: bool,
    pub frames: Vec<SBFrame>,
}

impl View for SBThread {
    type V = ThreadV;

    open spec fn view(&self) -> ThreadV {
        ThreadV {
            valid: self.valid,
            frames: self.frames@.map_values(|f: SBFrame| f@),
        }
    }
}

impl SBThread {
    /// An invalid thread: what an invalid process hands out.
    pub fn invalid() -> (r: SBThread)
        ensures
            r@ == (ThreadV { valid: false, frames: Seq::<FrameV>::empty() }),
    {
        let r = SBThread { valid: false, frames: Vec::new() };
        proof {
            assert(r@.frames =~= Seq::<FrameV>::empty());
        }
        r
    }

    /// A valid thread with no frames yet.
    pub fn new() -> (r: SBThread)
        ensures
            r@ == (ThreadV { valid: true, frames: Seq::<FrameV>::empty() }),
    {
        let r = SBThread { valid: true, frames: Vec::new() };
        proof {
            assert(r@.frames =~= Seq::<FrameV>::empty());
        }
        r
    }

    /// Appends a frame; the first one pushed is frame 0, the innermost.
    pub fn push_frame(&mut self, frame: SBFrame)
        ensures
            final(self)@ == (ThreadV {
                valid: old(self)@.valid,
                frames: old(self)@.frames.push(frame@),
            }),
    {
        let ghost before = self@;
        self.frames.push(frame);
        proof {
            assert(self@.frames =~= before.frames.push(self.frames@.last()@));
        }
    }

    /// The frame at the given index: a content-equal copy of the stored one,
    /// or an invalid frame when the thread or the index is not usable.
    pub fn frame_at_model(&self, id: u32) -> (r: SBFrame)
        ensures
            r@ == self@.frame_at(id as int),
    {
        if !self.valid {
            return SBFrame::invalid();
        }
        let idx = id as usize;
        if idx < self.frames.len() {
            self.frames[idx].duplicate()
        } else {
            SBFrame::invalid()
        }
    }

    /// A content-equal copy of the thread.
    pub fn duplicate(&self) -> (r: SBThread)
        ensures
            r@ == self@,
    {
        let mut frames: Vec<SBFrame> = Vec::new();
        let mut i: usize = 0;
        while i < self.frames.len()
            invariant
                i <= self.frames.len(),
                frames@.len() == i,
                frames@.map_values(|f: SBFrame| f@) =~= self@.frames.take(i as int),
            decreases self.frames.len() - i,
        {
            frames.push(self.frames[i].duplicate());
            proof {
                assert(frames@.map_values(|f: SBFrame| f@) =~= self@.frames.take(i + 1));
            }
            i += 1;
        }
        let r = SBThread { valid: self.valid, frames };
        proof {
            assert(r@.frames =~= self@.frames);
        }
        r
    }
}

} // verus!
