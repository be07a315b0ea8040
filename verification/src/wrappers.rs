//! Ownership wrappers and the convenience traits written against them.
//!
//! Every storage shape that can hold a native-model handle — the crate's own
//! [`Wrapped`] container, a plain [`Box`], or the nullable [`UniqueHandle`] —
//! offers one shared capability, [`HandleAccess`]: hand out a shared or an
//! exclusive reference to the handle it holds. Each convenience trait is
//! implemented once, against that capability, so the same method works on
//! every shape and, by its contract, yields a result determined by the
//! handle's content alone.

use vstd::prelude::*;

use crate::debugger;
use crate::error::{ErrorV, SBError};
use crate::event::SBEvent;
use crate::frame::SBFrame;
use crate::process::SBProcess;
use crate::state::{state_name_spec, ErrorType, StateType};
use crate::target::{id_find, SBTarget, SBWatchpoint, TargetV};
use crate::thread::SBThread;
use crate::value::SBValue;
use vstd::string::StringExecFns;

verus! {

/// The container every owned handle lives in.
pub type Carrier<T> = Box<T>;

/// A fallible operation yields either its result or a wrapped native error.
pub type SBResult<T> = Result<T, Wrapped<SBError>>;

/// A wrapper that exclusively owns one native-model handle.
#[derive(Debug)]
pub struct Wrapped<T> {
    item: Carrier<T>,
}

impl<T> Wrapped<T> {
    pub fn new(item: Carrier<T>) -> (r: Self)
        ensures
            r.handle() == *item,
    {
        Wrapped::<T> { item }
    }

    /// Gives the owned handle up.
    pub fn into_inner(self) -> (r: T)
        ensures
            r == self.handle(),
    {
        *self.item
    }
}

/// The ownership-adapter capability: any storage shape that can hand out a
/// reference, shared or exclusive, to the native-model handle it holds.
pub trait HandleAccess<T>: Sized {
    /// Whether the accessors may be invoked: a nullable shape is accessible
    /// only while it actually holds a handle.
    spec fn accessible(&self) -> bool;

    /// The handle currently held, as a specification-level value.
    spec fn handle(&self) -> T;

    fn handle_ref(&self) -> (r: &T)
        requires
            self.accessible(),
        ensures
            *r == self.handle(),
    ;

    fn handle_mut(&mut self) -> (r: &mut T)
        requires
            old(self).accessible(),
        ensures
            *r == old(self).handle(),
            final(self).accessible(),
            final(self).handle() == *final(r),
    ;
}

impl<T> HandleAccess<T> for Wrapped<T> {
    open spec fn accessible(&self) -> bool {
        true
    }

    closed spec fn handle(&self) -> T {
        *self.item
    }

    fn handle_ref(&self) -> (r: &T) {
        &*self.item
    }

    fn handle_mut(&mut self) -> (r: &mut T) {
        &mut *self.item
    }
}

impl<T> HandleAccess<T> for Box<T> {
    open spec fn accessible(&self) -> bool {
        true
    }

    open spec fn handle(&self) -> T {
        **self
    }

    fn handle_ref(&self) -> (r: &T) {
        &**self
    }

    fn handle_mut(&mut self) -> (r: &mut T) {
        &mut **self
    }
}

/// A nullable exclusive-ownership shape. Its accessors demand that it is
/// non-null; the capability's `accessible` carries exactly that demand.
#[derive(Debug)]
pub struct UniqueHandle<T> {
    item: Option<Box<T>>,
}

impl<T> UniqueHandle<T> {
    pub closed spec fn is_null(&self) -> bool {
        self.item.is_none()
    }

    /// An owning, non-null handle.
    pub fn new(item: T) -> (r: Self)
        ensures
            !r.is_null(),
            r.handle() == item,
    {
        UniqueHandle::<T> { item: Some(Box::new(item)) }
    }

    /// The null shape: its accessors may never be invoked.
    pub fn null() -> (r: Self)
        ensures
            r.is_null(),
    {
        UniqueHandle::<T> { item: None }
    }

    /// Whether a handle is held, so the accessors may be invoked.
    pub fn is_present(&self) -> (r: bool)
        ensures
            r == !self.is_null(),
    {
        self.item.is_some()
    }
}

impl<T> HandleAccess<T> for UniqueHandle<T> {
    open spec fn accessible(&self) -> bool {
        !self.is_null()
    }

    closed spec fn handle(&self) -> T {
        match self.item {
            Some(b) => *b,
            None => arbitrary(),
        }
    }

    fn handle_ref(&self) -> (r: &T) {
        match &self.item {
            Some(b) => &**b,
            None => unreached(),
        }
    }

    fn handle_mut(&mut self) -> (r: &mut T) {
        match &mut self.item {
            Some(b) => &mut **b,
            None => unreached(),
        }
    }
}

/// Anything that can move into a [`Wrapped`] container.
pub trait Wrappable: Sized {
    /// The handle type the wrapper will hold.
    type Type;

    /// The handle the wrapper will hold, as a specification-level value.
    spec fn as_handle(self) -> Self::Type;

    fn wrap(self) -> (r: Wrapped<Self::Type>)
        ensures
            r.handle() == self.as_handle(),
    ;
}

impl<T> Wrappable for T {
    type Type = T;

    open spec fn as_handle(self) -> T {
        self
    }

    fn wrap(self) -> (r: Wrapped<T>) {
        let ghost s = self;
        let b = Box::new(self);
        proof {
            assert(*b == s);
        }
        let r = Wrapped::<T>::new(b);
        proof {
            assert(r.handle() == s.as_handle());
        }
        r
    }
}

/// Convenience methods on a debugger handle. The debugger's own operations
/// live on the session types; the trait records the capability.
pub trait Debugger: HandleAccess<debugger::SBDebugger> {

}

impl<T: HandleAccess<debugger::SBDebugger>> Debugger for T {

}

/// Convenience methods on a process handle.
pub trait Process: HandleAccess<SBProcess> {
    /// The thread at the given index, wrapped; an invalid thread when the
    /// process or the index is not usable.
    fn thread(&mut self, id: usize) -> (t: Wrapped<SBThread>)
        requires
            old(self).accessible(),
        ensures
            final(self).accessible(),
            final(self).handle() == old(self).handle(),
            t.handle()@ == old(self).handle()@.thread_at(id as int),
    {
        let p = self.handle_mut();
        p.thread_at_model(id).wrap()
    }

    /// Reads up to `size` bytes of the process's memory. On success the
    /// result holds exactly the bytes the native read reports — the request
    /// clipped at the end of the readable region — and never more than
    /// requested; a read starting outside the region fails with the wrapped
    /// native error.
    fn read_memory(&mut self, address: u64, size: usize) -> (r: SBResult<Vec<u8>>)
        requires
            old(self).accessible(),
        ensures
            final(self).accessible(),
            final(self).handle() == old(self).handle(),
            match r {
                Ok(v) => old(self).handle()@.read_ok(address) && v@ == old(
                    self,
                ).handle()@.read_bytes(address, size as nat) && v@.len() <= size,
                Err(e) => !old(self).handle()@.read_ok(address) && e.handle()@ == (ErrorV {
                    etype: ErrorType::Generic,
                    msg: Some("memory read failed"@),
                }),
            },
    {
        let mut e = SBError::new().wrap();
        let buf = {
            let p = self.handle_mut();
            p.read_memory_model(address, size, e.handle_mut())
        };
        if e.is_success() {
            Ok(buf)
        } else {
            Err(e)
        }
    }

    /// Reads a null-terminated string of at most `size` bytes. The content
    /// is truncated at the first null byte within the read window and never
    /// contains the terminator.
    fn read_cstring_from_memory(&mut self, address: u64, size: usize) -> (r: SBResult<Vec<u8>>)
        requires
            old(self).accessible(),
        ensures
            final(self).accessible(),
            final(self).handle() == old(self).handle(),
            match r {
                Ok(v) => old(self).handle()@.read_ok(address) && v@ == ({
                    let window = old(self).handle()@.read_bytes(address, size as nat);
                    window.take(crate::process::first_null(window))
                }) && v@.len() <= size && (forall|j: int| 0 <= j < v@.len() ==> v@[j] != 0),
                Err(e) => !old(self).handle()@.read_ok(address) && e.handle()@ == (ErrorV {
                    etype: ErrorType::Generic,
                    msg: Some("memory read failed"@),
                }),
            },
    {
        let mut e = SBError::new().wrap();
        let buf = {
            let p = self.handle_mut();
            p.read_cstring_model(address, size, e.handle_mut())
        };
        if e.is_success() {
            Ok(buf)
        } else {
            Err(e)
        }
    }

    /// How many hardware watchpoints the target supports, or the wrapped
    /// native error when the process handle is invalid.
    fn get_num_supported_hardware_watchpoints(&mut self) -> (r: SBResult<u32>)
        requires
            old(self).accessible(),
        ensures
            final(self).accessible(),
            final(self).handle() == old(self).handle(),
            match r {
                Ok(n) => old(self).handle()@.valid && n == old(self).handle()@.hw_watchpoints,
                Err(e) => !old(self).handle()@.valid && e.handle()@ == (ErrorV {
                    etype: ErrorType::Generic,
                    msg: Some("process is invalid"@),
                }),
            },
    {
        let mut e = SBError::new().wrap();
        let n = {
            let p = self.handle_mut();
            p.num_hardware_watchpoints(e.handle_mut())
        };
        if e.is_success() {
            Ok(n)
        } else {
            Err(e)
        }
    }
}

impl<T: HandleAccess<SBProcess>> Process for T {

}

/// An identifier naming a planted watchpoint.
pub struct WatchpointId(pub i32);

/// Convenience methods on a target handle.
pub trait Target: HandleAccess<SBTarget> {
    /// Plants a watchpoint at the given location. The watch size must be a
    /// supported register width: on a 32-bit target an 8-byte watch fails
    /// with the wrapped native error, while a 4-byte watch succeeds. That is
    /// an expected failure path, not a defect.
    fn watch_address(&mut self, address: u64, size: usize, read: bool, write: bool) -> (r:
        SBResult<Wrapped<SBWatchpoint>>)
        requires
            old(self).accessible(),
        ensures
            final(self).accessible(),
            match r {
                Ok(w) => old(self).handle()@.watch_ok(size) && w.handle() == (SBWatchpoint {
                    valid: true,
                    id: old(self).handle()@.next_watch_id,
                    enabled: true,
                }) && final(self).handle()@ == (TargetV {
                    watch_ids: old(self).handle()@.watch_ids.push(
                        old(self).handle()@.next_watch_id,
                    ),
                    next_watch_id: (old(self).handle()@.next_watch_id + 1) as i32,
                    ..old(self).handle()@
                }),
                Err(e) => !old(self).handle()@.watch_ok(size) && final(self).handle() == old(
                    self,
                ).handle() && e.handle()@ == (ErrorV {
                    etype: ErrorType::Generic,
                    msg: Some("sending gdb watchpoint packet failed"@),
                }),
            },
    {
        let mut e = SBError::new().wrap();
        let w = {
            let t = self.handle_mut();
            t.watch_address_model(address, size, read, write, e.handle_mut())
        };
        if e.is_success() {
            Ok(w.wrap())
        } else {
            Err(e)
        }
    }

    /// Removes the watchpoint with the given identifier; reports whether one
    /// was planted.
    fn delete_watchpoint(&mut self, watchpoint_id: WatchpointId) -> (r: bool)
        requires
            old(self).accessible(),
        ensures
            final(self).accessible(),
            match id_find(old(self).handle()@.watch_ids, watchpoint_id.0) {
                Some(i) => r && final(self).handle()@ == (TargetV {
                    watch_ids: old(self).handle()@.watch_ids.remove(i),
                    ..old(self).handle()@
                }),
                None => !r && final(self).handle() == old(self).handle(),
            },
    {
        let t = self.handle_mut();
        t.delete_watchpoint_model(watchpoint_id.0)
    }
}

impl<T: HandleAccess<SBTarget>> Target for T {

}

/// Convenience methods on a thread handle.
pub trait Thread: HandleAccess<SBThread> {
    /// The frame at the given index, wrapped; an invalid frame when the
    /// thread or the index is not usable.
    fn frame(&mut self, id: u32) -> (f: Wrapped<SBFrame>)
        requires
            old(self).accessible(),
        ensures
            final(self).accessible(),
            final(self).handle() == old(self).handle(),
            f.handle()@ == old(self).handle()@.frame_at(id as int),
    {
        let t = self.handle_mut();
        t.frame_at_model(id).wrap()
    }
}

impl<T: HandleAccess<SBThread>> Thread for T {

}

/// Convenience methods on a frame handle.
pub trait Frame: HandleAccess<SBFrame> {
    /// Looks a register up by name; a miss yields an invalid value handle,
    /// discovered only when its content is read.
    fn find_register(&mut self, name: &str) -> (v: Wrapped<SBValue>)
        requires
            old(self).accessible(),
        ensures
            final(self).accessible(),
            final(self).handle() == old(self).handle(),
            v.handle()@ == old(self).handle()@.register_value(name@),
    {
        let f = self.handle_mut();
        f.find_register_model(name).wrap()
    }

    /// Evaluates an expression; a failure yields an invalid value handle,
    /// discovered only when its content is read.
    fn evaluate_expression(&mut self, expr: &str) -> (v: Wrapped<SBValue>)
        requires
            old(self).accessible(),
        ensures
            final(self).accessible(),
            final(self).handle() == old(self).handle(),
            v.handle()@ == old(self).handle()@.expression_value(expr@),
    {
        let f = self.handle_mut();
        f.evaluate_expression_model(expr).wrap()
    }
}

impl<T: HandleAccess<SBFrame>> Frame for T {

}

/// Convenience methods on a watchpoint handle.
pub trait Watchpoint: HandleAccess<SBWatchpoint> {
    /// Toggles whether the watchpoint is armed.
    fn set_enabled(&mut self, state: bool)
        requires
            old(self).accessible(),
        ensures
            final(self).accessible(),
            final(self).handle() == (SBWatchpoint { enabled: state, ..old(self).handle() }),
    {
        let w = self.handle_mut();
        w.enabled = state;
    }

    /// The identifier the target knows this watchpoint by.
    fn get_id(&mut self) -> (r: WatchpointId)
        requires
            old(self).accessible(),
        ensures
            final(self).accessible(),
            final(self).handle() == old(self).handle(),
            r.0 == old(self).handle().id,
    {
        let w = self.handle_mut();
        WatchpointId(w.id)
    }
}

impl<T: HandleAccess<SBWatchpoint>> Watchpoint for T {

}

/// Convenience methods on a value handle: the output-parameter error
/// convention translated into results.
pub trait Value: HandleAccess<SBValue> {
    /// The unsigned content, or the wrapped native error for an invalid
    /// value.
    fn get_value_unsigned(&mut self) -> (r: Result<u64, Wrapped<SBError>>)
        requires
            old(self).accessible(),
        ensures
            final(self).accessible(),
            final(self).handle() == old(self).handle(),
            match old(self).handle()@.unsigned {
                Some(v) => r matches Ok(u) && u == v,
                None => r matches Err(e) && e.handle()@ == (ErrorV {
                    etype: ErrorType::Generic,
                    msg: Some("no value"@),
                }),
            },
    {
        let mut e = SBError::new().wrap();
        let v = {
            let h = self.handle_mut();
            h.value_as_unsigned(0, e.handle_mut())
        };
        if e.is_success() {
            Ok(v)
        } else {
            Err(e)
        }
    }

    /// The unsigned content as a 64-bit number.
    fn get_value_u64(&mut self) -> (r: Result<u64, Wrapped<SBError>>)
        requires
            old(self).accessible(),
        ensures
            final(self).accessible(),
            final(self).handle() == old(self).handle(),
            match old(self).handle()@.unsigned {
                Some(v) => r matches Ok(u) && u == v,
                None => r matches Err(e) && e.handle()@ == (ErrorV {
                    etype: ErrorType::Generic,
                    msg: Some("no value"@),
                }),
            },
    {
        self.get_value_unsigned()
    }

    /// The unsigned content, under the native call's own name.
    fn get_value_as_unsigned(&mut self) -> (r: Result<u64, Wrapped<SBError>>)
        requires
            old(self).accessible(),
        ensures
            final(self).accessible(),
            final(self).handle() == old(self).handle(),
            match old(self).handle()@.unsigned {
                Some(v) => r matches Ok(u) && u == v,
                None => r matches Err(e) && e.handle()@ == (ErrorV {
                    etype: ErrorType::Generic,
                    msg: Some("no value"@),
                }),
            },
    {
        self.get_value_unsigned()
    }

    /// The unsigned content narrowed to pointer width.
    fn get_value_usize(&mut self) -> (r: Result<usize, Wrapped<SBError>>)
        requires
            old(self).accessible(),
        ensures
            final(self).accessible(),
            final(self).handle() == old(self).handle(),
            match old(self).handle()@.unsigned {
                Some(v) => r matches Ok(u) && u == v as usize,
                None => r matches Err(e) && e.handle()@ == (ErrorV {
                    etype: ErrorType::Generic,
                    msg: Some("no value"@),
                }),
            },
    {
        let mut e = SBError::new().wrap();
        let v = {
            let h = self.handle_mut();
            h.value_as_unsigned(0, e.handle_mut())
        };
        if e.is_success() {
            Ok(v as usize)
        } else {
            Err(e)
        }
    }

    /// The cached textual rendering, read through a shared reference; a
    /// placeholder stands in for the null pointer the native call would hand
    /// back.
    fn get_value(&self) -> (r: &str)
        requires
            self.accessible(),
        ensures
            r@ == self.handle()@.text(),
    {
        self.handle_ref().value_text()
    }
}

impl<T: HandleAccess<SBValue>> Value for T {

}

/// Convenience methods on an error handle.
pub trait Error: HandleAccess<SBError> {
    /// Whether the error reports failure.
    fn is_fail(&self) -> (r: bool)
        requires
            self.accessible(),
        ensures
            r == self.handle()@.is_fail(),
    {
        self.handle_ref().fail()
    }

    /// Whether the error reports success. Success and failure are mutually
    /// exclusive for every reachable error state.
    fn is_success(&self) -> (r: bool)
        requires
            self.accessible(),
        ensures
            r == self.handle()@.is_success(),
            r == !self.handle()@.is_fail(),
    {
        self.handle_ref().success()
    }

    /// The error text, with a fixed placeholder standing in for a missing
    /// native error string.
    fn get_str(&self) -> (r: &str)
        requires
            self.accessible(),
        ensures
            r@ == self.handle()@.text(),
    {
        self.handle_ref().error_string()
    }

    /// The error kind.
    fn get_type(&self) -> (r: ErrorType)
        requires
            self.accessible(),
        ensures
            r == self.handle()@.etype,
    {
        self.handle_ref().error_type()
    }
}

impl<T: HandleAccess<SBError>> Error for T {

}

/// The text a debug-printing caller sees for an event: the state
/// classification and both native description sources.
pub open spec fn event_description(e: crate::event::EventV) -> Seq<char> {
    "event_type: "@ + state_name_spec(e.state) + " event: "@ + e.description + (match e.event_str {
        Some(s) => " event string: "@ + s,
        None => Seq::<char>::empty(),
    })
}

/// Convenience methods on an event handle.
pub trait Event: HandleAccess<SBEvent> {
    /// The coarse process-state classification the event reports.
    fn event_type(&self) -> (r: StateType)
        requires
            self.accessible(),
        ensures
            r == self.handle()@.state,
    {
        self.handle_ref().state_from_event()
    }

    /// Advisory watchpoint classification; observed not to recognise
    /// watchpoint events, so treat it as a hint only.
    fn is_watchpoint(&self) -> (r: bool)
        requires
            self.accessible(),
        ensures
            r == self.handle()@.watchpoint_flag,
    {
        self.handle_ref().is_watchpoint_event()
    }

    /// A human-readable description assembled from the state classification
    /// and the event's two description sources.
    fn describe(&self) -> (r: String)
        requires
            self.accessible(),
        ensures
            r@ == event_description(self.handle()@),
    {
        let e = self.handle_ref();
        let mut s = String::from_str("event_type: ");
        s.append(crate::state::state_name(e.state_from_event()));
        s.append(" event: ");
        s.append(e.description_text());
        match e.event_string_text() {
            Some(t) => {
                s.append(" event string: ");
                s.append(t);
            },
            None => (),
        }
        s
    }
}

impl<T: HandleAccess<SBEvent>> Event for T {

}

/// Storage-shape polymorphism: every convenience operation's contract is a
/// function of the handle's content alone, so invoking the same operation on
/// any two storage shapes holding content-equal process handles is specified
/// to yield the same outcome — the same thread, the same read success, the
/// same bytes, the same watchpoint count.
pub proof fn lemma_storage_shapes_agree<A: HandleAccess<SBProcess>, B: HandleAccess<SBProcess>>(
    a: A,
    b: B,
    id: int,
    address: u64,
    size: nat,
)
    requires
        a.handle()@ == b.handle()@,
    ensures
        a.handle()@.thread_at(id) == b.handle()@.thread_at(id),
        a.handle()@.read_ok(address) == b.handle()@.read_ok(address),
        a.handle()@.read_bytes(address, size) == b.handle()@.read_bytes(address, size),
        a.handle()@.hw_watchpoints == b.handle()@.hw_watchpoints,
{
}

} // verus!
