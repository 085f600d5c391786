//! Decision core of a desktop shell that supervises a single child CLI
//! process. The window framework, the command dispatch and the process
//! spawning live outside; this crate holds the state and the rules they
//! follow: which mode to launch in, in what order a restart stops and
//! starts the child, and when the shell shuts the child down and exits.

use vstd::prelude::*;

pub mod manager;
pub mod restart;
pub mod shutdown;

verus! {

use crate::manager::{CliProcessManager, CliStatus};

/// Shared application state: the supervisor handle that the command
/// surface and the shutdown paths read and mutate.
#[derive(Clone)]
pub struct AppState {
    pub manager: CliProcessManager,
}

impl AppState {
    /// A fresh shell state: the child process is not running yet.
    pub fn new() -> (s: Self)
        ensures
            !s.manager.is_running(),
    {
        AppState { manager: CliProcessManager::new() }
    }
}

/// The status query of the command surface: reports the supervisor's
/// current view of the child process.
pub fn cli_get_status(state: &AppState) -> (s: CliStatus)
    ensures
        s.running == state.manager.is_running(),
        s.dev_mode == state.manager.in_dev_mode(),
{
    state.manager.status()
}

/// The event channel on which a failure to launch the child at startup is
/// reported to the UI layer.
pub fn startup_error_channel() -> (s: &'static str)
    ensures
        s@ == "cli:error"@,
{
    "cli:error"
}

} // verus!
