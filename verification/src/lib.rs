//! A verified model of a debugger scripting-bridge wrapper layer.
//!
//! The library models the native debugger objects (process, target, thread,
//! frame, value, error, event, breakpoint, watchpoint) as plain data, wraps
//! them in ownership-safe containers, and verifies the convenience layer and
//! the breakpoint-driven allocation tracker that is built on top of it.

pub mod api;
pub mod debugger;
pub mod error;
pub mod event;
pub mod frame;
pub mod process;
pub mod registry;
pub mod session;
pub mod state;
pub mod table;
pub mod target;
pub mod thread;
pub mod tracker;
pub mod value;
pub mod wrappers;
