//! The native-model stop event and the listener that delivers it.
//!
//! An event carries a coarse process-state classification and two independent
//! description sources: the full description the native side renders, and an
//! optional event string. The watchpoint classification is advisory only: the
//! native call it models has been observed not to recognise watchpoint
//! events.

use vstd::prelude::*;

use crate::state::StateType;

verus! {

/// Specification-level content of an [`SBEvent`].
pub struct EventV {
    pub valid: bool,
    pub state: StateType,
    pub description: Seq<char>,
    pub event_str: Option<Seq<char>>,
    pub watchpoint_flag: bool,
}

/// A native-model stop event.
#[derive(Debug)]
pub struct SBEvent {
    pub valid: bool,
    /// The process state the event reports.
    pub state: StateType,
    /// The full description the native side renders for the event.
    pub description: String,
    /// The event string, when the native side attached one.
    pub event_str: Option<String>,
    /// Advisory watchpoint classification; not reliable.
    pub watchpoint_flag: bool,
}

impl View for SBEvent {
    type V = EventV;

    open spec fn view(&self) -> EventV {
        EventV {
            valid: self.valid,
            state: self.state,
            description: self.description@,
            event_str: match self.event_str {
                Some(ref s) => Some(s@),
                None => None,
            },
            watchpoint_flag: self.watchpoint_flag,
        }
    }
}

impl SBEvent {
    /// A default-constructed event handle: invalid, reporting no state.
    pub fn new() -> (r: SBEvent)
        ensures
            r@ == (EventV {
                valid: false,
                state: StateType::Invalid,
                description: ""@,
                event_str: None::<Seq<char>>,
                watchpoint_flag: false,
            }),
    {
        SBEvent {
            valid: false,
            state: StateType::Invalid,
            description: "".to_owned(),
            event_str: None,
            watchpoint_flag: false,
        }
    }

    /// A valid event reporting the given state, with a description.
    pub fn for_state(state: StateType, description: &str) -> (r: SBEvent)
        ensures
            r@ == (EventV {
                valid: true,
                state,
                description: description@,
                event_str: None::<Seq<char>>,
                watchpoint_flag: false,
            }),
    {
        SBEvent {
            valid: true,
            state,
            description: description.to_owned(),
            event_str: None,
            watchpoint_flag: false,
        }
    }

    /// Attaches an event string, the second description source.
    pub fn set_event_string(&mut self, s: &str)
        ensures
            final(self)@ == (EventV { event_str: Some(s@), ..old(self)@ }),
    {
        self.event_str = Some(s.to_owned());
    }

    /// Marks the event as a watchpoint event (advisory only).
    pub fn set_watchpoint_flag(&mut self, flag: bool)
        ensures
            final(self)@ == (EventV { watchpoint_flag: flag, ..old(self)@ }),
    {
        self.watchpoint_flag = flag;
    }

    /// The process state the event reports.
    pub fn state_from_event(&self) -> (r: StateType)
        ensures
            r == self@.state,
    {
        self.state
    }

    /// The advisory watchpoint classification.
    pub fn is_watchpoint_event(&self) -> (r: bool)
        ensures
            r == self@.watchpoint_flag,
    {
        self.watchpoint_flag
    }

    /// The full description the native side renders.
    pub fn description_text(&self) -> (r: &str)
        ensures
            r@ == self@.description,
    {
        self.description.as_str()
    }

    /// The event string, when one was attached.
    pub fn event_string_text(&self) -> (r: Option<&str>)
        ensures
            match r {
                Some(s) => self@.event_str == Some(s@),
                None => self@.event_str.is_none(),
            },
    {
        match self.event_str {
            Some(ref s) => Some(s.as_str()),
            None => None,
        }
    }
}

/// Specification-level content of an [`SBListener`].
pub struct ListenerV {
    pub valid: bool,
    pub queue: Seq<EventV>,
}

/// A native-model listener: the queue of events awaiting delivery.
#[derive(Debug)]
pub struct SBListener {
    pub valid: bool,
    pub queue: Vec<SBEvent>,
}

impl View for SBListener {
    type V = ListenerV;

    open spec fn view(&self) -> ListenerV {
        ListenerV { valid: self.valid, queue: self.queue@.map_values(|e: SBEvent| e@) }
    }
}

impl SBListener {
    /// An invalid listener handle: it never delivers an event.
    pub fn invalid() -> (r: SBListener)
        ensures
            r@ == (ListenerV { valid: false, queue: Seq::<EventV>::empty() }),
    {
        let r = SBListener { valid: false, queue: Vec::new() };
        proof {
            assert(r@.queue =~= Seq::<EventV>::empty());
        }
        r
    }

    /// A fresh listener with an empty queue.
    pub fn new() -> (r: SBListener)
        ensures
            r@ == (ListenerV { valid: true, queue: Seq::<EventV>::empty() }),
    {
        let r = SBListener { valid: true, queue: Vec::new() };
        proof {
            assert(r@.queue =~= Seq::<EventV>::empty());
        }
        r
    }

    /// Enqueues an event for delivery.
    pub fn push_event(&mut self, event: SBEvent)
        ensures
            final(self)@ == (ListenerV {
                valid: old(self)@.valid,
                queue: old(self)@.queue.push(event@),
            }),
    {
        let ghost before = self@;
        self.queue.push(event);
        proof {
            assert(self@.queue =~= before.queue.push(self.queue@.last()@));
        }
    }

    /// Delivers the oldest pending event into `event`, reporting whether one
    /// was available. The timeout only bounds the native wait; the model
    /// never blocks.
    pub fn wait_for_event(&mut self, _timeout_seconds: u32, event: &mut SBEvent) -> (r: bool)
        ensures
            old(self)@.valid && old(self)@.queue.len() > 0 ==> r && final(event)@ == old(
                self,
            )@.queue[0] && final(self)@ == (ListenerV {
                valid: old(self)@.valid,
                queue: old(self)@.queue.drop_first(),
            }),
            !(old(self)@.valid && old(self)@.queue.len() > 0) ==> !r && *final(self) == *old(self)
                && *final(event) == *old(event),
    {
        if self.valid && self.queue.len() > 0 {
            let ghost before = self@;
            let first = self.queue.remove(0);
            *event = first;
            proof {
                assert(self@.queue =~= before.queue.drop_first());
            }
            true
        } else {
            false
        }
    }
}

} // verus!
