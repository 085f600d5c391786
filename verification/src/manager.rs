//! The supervisor's view of the child CLI process: whether it is running,
//! and in which mode it was launched. The actual spawning and killing is
//! outside work; callers perform it and record the outcome here, so that
//! the status the shell reports always reflects what was recorded.

use vstd::prelude::*;

verus! {

/// The status record handed back to the shell's UI layer.
#[derive(Clone, Copy, Debug, PartialEq, Eq, Structural)]
pub struct CliStatus {
    /// Whether the child process is currently running.
    pub running: bool,
    /// Whether it was launched in development mode.
    pub dev_mode: bool,
}

/// Tracks the child CLI process across starts and stops.
#[derive(Clone, Copy)]
pub struct CliProcessManager {
    running: bool,
    dev_mode: bool,
}

impl CliProcessManager {
    /// Whether the supervisor believes the child process is running.
    pub closed spec fn is_running(&self) -> bool {
        self.running
    }

    /// The mode the child process was last launched in.
    pub closed spec fn in_dev_mode(&self) -> bool {
        self.dev_mode
    }

    /// A fresh supervisor: no child process has been started.
    pub fn new() -> (m: Self)
        ensures
            !m.is_running(),
            !m.in_dev_mode(),
    {
        CliProcessManager { running: false, dev_mode: false }
    }

    /// Records that a launch of the child process succeeded in the given
    /// mode.
    pub fn mark_started(&mut self, dev_mode: bool)
        ensures
            final(self).is_running(),
            final(self).in_dev_mode() == dev_mode,
    {
        self.running = true;
        self.dev_mode = dev_mode;
    }

    /// Records that the child process has stopped. The launch mode is kept
    /// so that a restart can report which mode the last launch used.
    pub fn mark_stopped(&mut self)
        ensures
            !final(self).is_running(),
            final(self).in_dev_mode() == old(self).in_dev_mode(),
    {
        self.running = false;
    }

    /// The status the shell reports to its UI layer.
    pub fn status(&self) -> (s: CliStatus)
        ensures
            s.running == self.is_running(),
            s.dev_mode == self.in_dev_mode(),
    {
        CliStatus { running: self.running, dev_mode: self.dev_mode }
    }
}

/// Development mode is on under a debug build, or when the override in the
/// environment is set; otherwise it is off. The two flags are read by the
/// caller, which owns the build configuration and the environment.
pub fn is_dev_mode(debug_build: bool, env_override: bool) -> (r: bool)
    ensures
        r == (debug_build || env_override),
{
    debug_build || env_override
}

} // verus!
