//! The restart protocol of the command surface: a restart stops the child
//! process and then starts it again, in that order, and a failing stop
//! short-circuits the whole attempt. Stopping and starting are outside
//! work, so the protocol is a small state machine: the caller asks which
//! action comes next, performs it, and records the outcome; the machine
//! decides what follows.

use vstd::prelude::*;

verus! {

/// The phase a restart attempt is in.
#[derive(Clone, Copy, Debug, PartialEq, Eq, Structural)]
pub enum RestartPhase {
    /// The child has not been stopped yet.
    StopPending,
    /// The stop succeeded; the child has not been started again yet.
    StartPending,
    /// Stop and start both succeeded.
    Succeeded,
    /// Stop or start failed; the attempt is over and the child stays
    /// stopped.
    Failed,
}

/// What the caller must do next to carry a restart forward.
#[derive(Clone, Copy, Debug, PartialEq, Eq, Structural)]
pub enum RestartAction {
    /// Stop the child process and record the outcome.
    Stop,
    /// Start the child process in the given mode and record the outcome.
    Start { dev_mode: bool },
    /// Nothing is left to do: the attempt has succeeded or failed.
    Done,
}

/// The phase that recording a stop outcome leads to.
pub open spec fn phase_after_stop(stop_ok: bool) -> RestartPhase {
    if stop_ok {
        RestartPhase::StartPending
    } else {
        RestartPhase::Failed
    }
}

/// The phase that recording a start outcome leads to.
pub open spec fn phase_after_start(start_ok: bool) -> RestartPhase {
    if start_ok {
        RestartPhase::Succeeded
    } else {
        RestartPhase::Failed
    }
}

/// The action each phase demands of the caller.
pub open spec fn action_for(phase: RestartPhase, dev_mode: bool) -> RestartAction {
    match phase {
        RestartPhase::StopPending => RestartAction::Stop,
        RestartPhase::StartPending => RestartAction::Start { dev_mode },
        RestartPhase::Succeeded => RestartAction::Done,
        RestartPhase::Failed => RestartAction::Done,
    }
}

/// A phase in which the attempt is over and no further action is demanded.
pub open spec fn is_terminal(phase: RestartPhase) -> bool {
    phase == RestartPhase::Succeeded || phase == RestartPhase::Failed
}

/// One restart attempt: stop the child, then start it in the given mode.
pub struct RestartSequence {
    phase: RestartPhase,
    dev_mode: bool,
    error: Option<String>,
}

impl RestartSequence {
    /// The phase the attempt is in.
    pub closed spec fn phase(&self) -> RestartPhase {
        self.phase
    }

    /// The mode the start, once reached, will launch the child in.
    pub closed spec fn mode(&self) -> bool {
        self.dev_mode
    }

    /// The recorded failure, if the attempt has failed.
    pub closed spec fn error(&self) -> Option<String> {
        self.error
    }

    /// An error is recorded exactly when the attempt has failed.
    pub open spec fn wf(&self) -> bool {
        self.error() is Some <==> self.phase() == RestartPhase::Failed
    }

    /// A fresh restart attempt: the stop comes first.
    pub fn new(dev_mode: bool) -> (s: Self)
        ensures
            s.wf(),
            s.phase() == RestartPhase::StopPending,
            s.mode() == dev_mode,
    {
        RestartSequence { phase: RestartPhase::StopPending, dev_mode, error: None }
    }

    /// What the caller must do next.
    pub fn next_action(&self) -> (a: RestartAction)
        ensures
            a == action_for(self.phase(), self.mode()),
    {
        match self.phase {
            RestartPhase::StopPending => RestartAction::Stop,
            RestartPhase::StartPending => RestartAction::Start { dev_mode: self.dev_mode },
            RestartPhase::Succeeded => RestartAction::Done,
            RestartPhase::Failed => RestartAction::Done,
        }
    }

    /// Records the outcome of the stop. A success moves the attempt on to
    /// the start; a failure ends it, and the start is never demanded.
    pub fn record_stop(&mut self, outcome: Result<(), String>)
        requires
            old(self).wf(),
            old(self).phase() == RestartPhase::StopPending,
        ensures
            final(self).wf(),
            final(self).phase() == phase_after_stop(outcome is Ok),
            final(self).mode() == old(self).mode(),
            outcome matches Err(m) ==> final(self).error() == Some(m),
    {
        match outcome {
            Ok(()) => {
                self.phase = RestartPhase::StartPending;
            }
            Err(m) => {
                self.phase = RestartPhase::Failed;
                self.error = Some(m);
            }
        }
    }

    /// Records the outcome of the start that followed a successful stop.
    pub fn record_start(&mut self, outcome: Result<(), String>)
        requires
            old(self).wf(),
            old(self).phase() == RestartPhase::StartPending,
        ensures
            final(self).wf(),
            final(self).phase() == phase_after_start(outcome is Ok),
            final(self).mode() == old(self).mode(),
            outcome matches Err(m) ==> final(self).error() == Some(m),
    {
        match outcome {
            Ok(()) => {
                self.phase = RestartPhase::Succeeded;
            }
            Err(m) => {
                self.phase = RestartPhase::Failed;
                self.error = Some(m);
            }
        }
    }

    /// The result the command hands back once the attempt is over: the
    /// given status on success, the recorded failure otherwise.
    pub fn into_result(self, status: crate::manager::CliStatus) -> (r: Result<
        crate::manager::CliStatus,
        String,
    >)
        requires
            self.wf(),
            is_terminal(self.phase()),
        ensures
            self.phase() == RestartPhase::Succeeded ==> r == Ok::<crate::manager::CliStatus,
                String,
            >(status),
            self.phase() == RestartPhase::Failed ==> (r matches Err(m) && Some(m) == self.error()),
    {
        match self.error {
            Some(m) => Err(m),
            None => Ok(status),
        }
    }
}

/// A restart demands the stop before the start: the phase a fresh attempt
/// begins in demands a stop, the only phase that demands a start is the
/// one a successful stop leads to, and no other phase demands one.
pub proof fn lemma_stop_precedes_start(dev_mode: bool)
    ensures
        action_for(RestartPhase::StopPending, dev_mode) == RestartAction::Stop,
        phase_after_stop(true) == RestartPhase::StartPending,
        action_for(RestartPhase::StartPending, dev_mode) == (RestartAction::Start { dev_mode }),
        forall|p: RestartPhase, d: bool|
            (#[trigger] action_for(p, d)) matches RestartAction::Start { .. } ==> p
                == RestartPhase::StartPending,
{
}

/// A failing stop short-circuits the restart: it ends the attempt in a
/// terminal phase whose action is not a start, so the child is never
/// started after a stop that failed.
pub proof fn lemma_failing_stop_skips_start()
    ensures
        phase_after_stop(false) == RestartPhase::Failed,
        is_terminal(phase_after_stop(false)),
        forall|d: bool| action_for(phase_after_stop(false), d) == RestartAction::Done,
{
}

} // verus!
