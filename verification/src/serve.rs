//! The decisions of the supervisory loop.
//!
//! The supervisor looks, once per tick, at whether the orchestration loop
//! has ended and whether termination or a reload was asked for. Watching
//! for signals, sleeping and leaving the process are the caller's work.
use vstd::prelude::*;

verus! {

/// The length of one tick of the supervisor, in milliseconds.
pub const SUPERVISOR_TICK_MILLIS: u64 = 500;

/// What the supervisor does in one tick.
#[derive(Clone, Copy, Debug, PartialEq, Eq, Structural)]
pub enum Supervision {
    /// The orchestration loop has ended, which it never should: report it
    /// and leave the process with exit code 1.
    Crashed,
    /// Termination was asked for: remove the endpoint of the control
    /// channel and leave the process with exit code 0.
    Shutdown,
    /// A reload was asked for: load the configuration anew.
    Reload,
    /// Nothing to do in this tick.
    Idle,
}

/// What the supervisor does in a tick. A loop that has ended comes before a
/// request to terminate, and that before a request to reload; what is not
/// acted on in this tick stays asked for.
pub fn supervise(subscriber_finished: bool, exit_requested: bool, reload_requested: bool) -> (r:
    Supervision)
    ensures
        r == if subscriber_finished {
            Supervision::Crashed
        } else if exit_requested {
            Supervision::Shutdown
        } else if reload_requested {
            Supervision::Reload
        } else {
            Supervision::Idle
        },
{
    if subscriber_finished {
        Supervision::Crashed
    } else if exit_requested {
        Supervision::Shutdown
    } else if reload_requested {
        Supervision::Reload
    } else {
        Supervision::Idle
    }
}

/// The exit code with which the process leaves after `action`, where it
/// leaves: 1 after a crash of the orchestration loop, 0 after a shutdown.
pub fn exit_code(action: Supervision) -> (r: Option<u8>)
    ensures
        r == match action {
            Supervision::Crashed => Some(1u8),
            Supervision::Shutdown => Some(0u8),
            Supervision::Reload => None,
            Supervision::Idle => None,
        },
{
    match action {
        Supervision::Crashed => Some(1),
        Supervision::Shutdown => Some(0),
        Supervision::Reload => None,
        Supervision::Idle => None,
    }
}

} // verus!
