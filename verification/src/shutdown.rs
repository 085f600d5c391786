//! The shutdown rules of the shell: which run-loop events begin a
//! shutdown, and that each exit path stops the child process exactly once
//! before the shell exits with code zero, however many shutdown events
//! arrive on the way.

use vstd::prelude::*;

verus! {

/// A run-loop event, reduced to what the shutdown decision reads.
#[derive(Clone, Copy, Debug, PartialEq, Eq, Structural)]
pub enum ShellEvent {
    /// The shell was asked to exit.
    ExitRequested,
    /// A window was destroyed; `windows_open` counts the windows still
    /// registered when the event is handled, the destroyed one included.
    WindowDestroyed { windows_open: usize },
    /// Any other run-loop event.
    Other,
}

/// Whether an event begins the shutdown of the shell: an exit request
/// always does, the destruction of the last remaining window does, and no
/// other event does.
pub open spec fn spec_begins_shutdown(e: ShellEvent) -> bool {
    match e {
        ShellEvent::ExitRequested => true,
        ShellEvent::WindowDestroyed { windows_open } => windows_open <= 1,
        ShellEvent::Other => false,
    }
}

/// The run-loop decision: does this event begin the shutdown?
pub fn begins_shutdown(e: &ShellEvent) -> (r: bool)
    ensures
        r == spec_begins_shutdown(*e),
{
    match e {
        ShellEvent::ExitRequested => true,
        ShellEvent::WindowDestroyed { windows_open } => *windows_open <= 1,
        ShellEvent::Other => false,
    }
}

/// Guards the stop of the child process during shutdown, so that it is
/// issued once and only once, whichever exit paths run.
pub struct ShutdownSequence {
    stop_issued: bool,
}

impl ShutdownSequence {
    /// Whether the stop of the child has already been granted.
    pub closed spec fn stop_issued(&self) -> bool {
        self.stop_issued
    }

    /// A fresh guard: no stop has been granted yet.
    pub fn new() -> (s: Self)
        ensures
            !s.stop_issued(),
    {
        ShutdownSequence { stop_issued: false }
    }

    /// Asks leave to stop the child: granted on the first request and on
    /// no later one.
    pub fn request_stop(&mut self) -> (grant: bool)
        ensures
            grant == !old(self).stop_issued(),
            final(self).stop_issued(),
    {
        let grant = !self.stop_issued;
        self.stop_issued = true;
        grant
    }

    /// The code the shell exits with once the child has been stopped.
    pub fn exit_code(&self) -> (c: i32)
        ensures
            c == 0,
    {
        0
    }
}

/// How many of `requests` consecutive stop requests the guard grants,
/// starting from a guard whose stop flag is `stop_issued`. Each request
/// is granted exactly when the flag is still clear, and leaves it set.
pub open spec fn stops_granted(stop_issued: bool, requests: nat) -> nat
    decreases requests,
{
    if requests == 0 {
        0
    } else {
        (if stop_issued {
            0nat
        } else {
            1nat
        }) + stops_granted(true, (requests - 1) as nat)
    }
}

/// Once the stop has been granted, no later request is granted.
pub proof fn lemma_no_stop_after_grant(requests: nat)
    ensures
        stops_granted(true, requests) == 0,
    decreases requests,
{
    if requests > 0 {
        lemma_no_stop_after_grant((requests - 1) as nat);
    }
}

/// An exit path stops the child exactly once: starting from a fresh guard,
/// any number of shutdown events — one or more — grants the stop exactly
/// one time.
pub proof fn lemma_stop_granted_exactly_once(requests: nat)
    requires
        1 <= requests,
    ensures
        stops_granted(false, requests) == 1,
{
    lemma_no_stop_after_grant((requests - 1) as nat);
}

} // verus!
