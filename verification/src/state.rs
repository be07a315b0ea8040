//! Coarse classifications shared by the native-model objects.

use vstd::prelude::*;

verus! {

/// The coarse execution state a process (or a stop event) reports.
#[derive(Clone, Copy, Debug, PartialEq, Eq, Structural)]
pub enum StateType {
    Invalid,
    Unloaded,
    Connected,
    Attaching,
    Launching,
    Stopped,
    Running,
    Stepping,
    Crashed,
    Detached,
    Exited,
    Suspended,
}

/// The name of a state, as a specification-level character sequence.
pub open spec fn state_name_spec(s: StateType) -> Seq<char> {
    match s {
        StateType::Invalid => "invalid"@,
        StateType::Unloaded => "unloaded"@,
        StateType::Connected => "connected"@,
        StateType::Attaching => "attaching"@,
        StateType::Launching => "launching"@,
        StateType::Stopped => "stopped"@,
        StateType::Running => "running"@,
        StateType::Stepping => "stepping"@,
        StateType::Crashed => "crashed"@,
        StateType::Detached => "detached"@,
        StateType::Exited => "exited"@,
        StateType::Suspended => "suspended"@,
    }
}

/// The name of a state.
pub fn state_name(s: StateType) -> (r: &'static str)
    ensures
        r@ == state_name_spec(s),
{
    match s {
        StateType::Invalid => "invalid",
        StateType::Unloaded => "unloaded",
        StateType::Connected => "connected",
        StateType::Attaching => "attaching",
        StateType::Launching => "launching",
        StateType::Stopped => "stopped",
        StateType::Running => "running",
        StateType::Stepping => "stepping",
        StateType::Crashed => "crashed",
        StateType::Detached => "detached",
        StateType::Exited => "exited",
        StateType::Suspended => "suspended",
    }
}

/// The kind of an error value. `Invalid` is the unset kind: an error of that
/// kind reports success, every other kind reports failure.
#[derive(Clone, Copy, Debug, PartialEq, Eq, Structural)]
pub enum ErrorType {
    Invalid,
    Generic,
    MachKernel,
    POSIX,
    Expression,
    Win32,
}

} // verus!
