//! The native-model debugger object.
//!
//! A debugger owns a listener and a placeholder ("dummy") target, hands both
//! out exactly once each, and can attach to one of the processes the model
//! operating system exposes by name. Attaching removes the process from the
//! table: it is then owned by the session.

use vstd::prelude::*;

use crate::event::{ListenerV, SBListener};
use crate::process::{ProcessV, SBProcess};
use crate::table::{lemma_table_find_props, table_find, table_find_exec};
use crate::target::{SBTarget, TargetV};

verus! {

/// Specification-level content of an [`SBDebugger`].
pub struct DebuggerV {
    pub async_mode: bool,
    pub listener: Option<ListenerV>,
    pub dummy_target: Option<TargetV>,
    pub procs: Seq<(Seq<char>, ProcessV)>,
}

/// A native-model debugger.
pub struct SBDebugger {
    pub async_mode: bool,
    /// The listener, until a session takes it.
    pub listener: Option<SBListener>,
    /// The placeholder target, until a session takes it.
    pub dummy_target: Option<SBTarget>,
    /// The processes the model operating system exposes for attachment.
    pub procs: Vec<(String, SBProcess)>,
}

impl View for SBDebugger {
    type V = DebuggerV;

    open spec fn view(&self) -> DebuggerV {
        DebuggerV {
            async_mode: self.async_mode,
            listener: match self.listener {
                Some(ref l) => Some(l@),
                None => None,
            },
            dummy_target: match self.dummy_target {
                Some(ref t) => Some(t@),
                None => None,
            },
            procs: self.procs@.map_values(|p: (String, SBProcess)| (p.0@, p.1@)),
        }
    }
}

impl SBDebugger {
    /// A fresh debugger: synchronous, owning a fresh listener and a dummy
    /// target for a 32-bit binary, with no processes exposed yet.
    pub fn create() -> (r: SBDebugger)
        ensures
            r@ == (DebuggerV {
                async_mode: false,
                listener: Some(ListenerV { valid: true, queue: Seq::empty() }),
                dummy_target: Some(TargetV {
                    valid: true,
                    word_size: 4,
                    watch_ids: Seq::empty(),
                    next_watch_id: 1,
                }),
                procs: Seq::empty(),
            }),
    {
        let r = SBDebugger {
            async_mode: false,
            listener: Some(SBListener::new()),
            dummy_target: Some(SBTarget::with_word_size(4)),
            procs: Vec::new(),
        };
        proof {
            assert(r@.procs =~= Seq::<(Seq<char>, ProcessV)>::empty());
        }
        r
    }

    /// Switches the debugger between synchronous and asynchronous mode.
    pub fn set_async(&mut self, b: bool)
        ensures
            final(self)@ == (DebuggerV { async_mode: b, ..old(self)@ }),
    {
        self.async_mode = b;
    }

    /// The current mode.
    pub fn get_async(&self) -> (r: bool)
        ensures
            r == self@.async_mode,
    {
        self.async_mode
    }

    /// Hands the listener out, once.
    pub fn get_listener(&mut self) -> (r: Option<SBListener>)
        ensures
            final(self)@ == (DebuggerV { listener: None::<ListenerV>, ..old(self)@ }),
            match r {
                Some(l) => old(self)@.listener == Some(l@),
                None => old(self)@.listener.is_none(),
            },
    {
        self.listener.take()
    }

    /// Hands the dummy target out, once.
    pub fn get_dummy_target(&mut self) -> (r: Option<SBTarget>)
        ensures
            final(self)@ == (DebuggerV { dummy_target: None::<TargetV>, ..old(self)@ }),
            match r {
                Some(t) => old(self)@.dummy_target == Some(t@),
                None => old(self)@.dummy_target.is_none(),
            },
    {
        self.dummy_target.take()
    }

    /// Exposes a process for attachment under the given name.
    pub fn expose_process(&mut self, name: &str, process: SBProcess)
        ensures
            final(self)@ == (DebuggerV {
                procs: old(self)@.procs.push((name@, process@)),
                ..old(self)@
            }),
    {
        let ghost before = self@;
        self.procs.push((name.to_owned(), process));
        proof {
            let ghost last = self.procs@.last();
            assert(self@.procs =~= before.procs.push((last.0@, last.1@)));
        }
    }

    /// Enqueues an event on the listener, while the debugger still owns it.
    pub fn enqueue_event(&mut self, event: crate::event::SBEvent)
        requires
            old(self)@.listener.is_some(),
        ensures
            final(self)@ == (DebuggerV {
                listener: Some(ListenerV {
                    valid: old(self)@.listener.unwrap().valid,
                    queue: old(self)@.listener.unwrap().queue.push(event@),
                }),
                ..old(self)@
            }),
    {
        match self.listener {
            Some(ref mut l) => l.push_event(event),
            None => (),
        }
    }

    /// Detaches the process exposed under `name` from the table and hands it
    /// over, the model of attaching to the first process with that name.
    pub fn take_process_named(&mut self, name: &str) -> (r: Option<SBProcess>)
        ensures
            match table_find(old(self)@.procs, name@) {
                Some(i) => r matches Some(p) && p@ == old(self)@.procs[i].1 && final(self)@
                    == (DebuggerV { procs: old(self)@.procs.remove(i), ..old(self)@ }),
                None => r.is_none() && *final(self) == *old(self),
            },
    {
        let ghost pv = self@.procs;
        match table_find_exec(&self.procs, name) {
            Some(i) => {
                proof {
                    lemma_find_agrees(self.procs@, name@);
                    lemma_table_find_props(pv, name@);
                }
                let pair = self.procs.remove(i);
                proof {
                    assert(self@.procs =~= pv.remove(
                        table_find(pv, name@).unwrap(),
                    ));
                }
                Some(pair.1)
            },
            None => {
                proof {
                    lemma_find_agrees(self.procs@, name@);
                }
                None
            },
        }
    }
}

/// `table_find` only looks at names: finding by name among the raw pairs and
/// among their views agrees.
proof fn lemma_find_agrees(t: Seq<(String, SBProcess)>, name: Seq<char>)
    ensures
        table_find(crate::table::table_view(t), name) == table_find(
            t.map_values(|p: (String, SBProcess)| (p.0@, p.1@)),
            name,
        ),
    decreases t.len(),
{
    let raw = crate::table::table_view(t);
    let viewed = t.map_values(|p: (String, SBProcess)| (p.0@, p.1@));
    if t.len() == 0 {
    } else {
        let rest = t.drop_first();
        lemma_find_agrees(rest, name);
        assert(crate::table::table_view(rest) =~= raw.drop_first());
        assert(rest.map_values(|p: (String, SBProcess)| (p.0@, p.1@)) =~= viewed.drop_first());
    }
}

} // verus!
