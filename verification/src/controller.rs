use vstd::prelude::*;
use crate::visibility::Visibility;

verus! {

/// An operation of the discovery daemon that the controller asks its driver
/// to perform.
#[derive(Debug, Clone, Copy, PartialEq, Eq, Structural)]
pub enum DaemonCall {
    /// Begin advertising the descriptor.
    Register,
    /// Withdraw the advertisement and wait until the daemon confirms it.
    UnregisterAwaitConfirm,
    /// Broadcast the registered record once more.
    Resend,
}

/// What one of the four sources reports to the controller.
#[derive(Debug, Clone, Copy, PartialEq, Eq, Structural)]
pub enum Signal {
    /// The run was cancelled.
    Cancelled,
    /// The daemon's event feed delivered an event.
    DaemonEvent,
    /// The daemon's event feed ended with an error.
    FeedFailed,
    /// The visibility cell holds a new value.
    VisibilityChanged(Visibility),
    /// The companion scanner saw a peer.
    Wake,
}

/// How a daemon call ended.
#[derive(Debug, Clone, Copy, PartialEq, Eq, Structural)]
pub enum Outcome {
    /// The daemon took the call and, for an unregister, confirmed it.
    Completed,
    /// The daemon took the unregister, but its confirmation never came: the
    /// channel that carries it was closed.
    ConfirmationLost,
    /// The daemon refused the call.
    Failed,
}

/// What the driver hands to the controller: a signal from a source, or the
/// outcome of the call that the controller asked for last.
#[derive(Debug, Clone, Copy, PartialEq, Eq, Structural)]
pub enum Input {
    Signal(Signal),
    Outcome(Outcome),
}

/// Why a run ended in failure.
#[derive(Debug, Clone, Copy, PartialEq, Eq, Structural)]
pub enum RunError {
    /// The daemon's event feed ended with an error.
    FeedFailed,
    /// A daemon call made during the run failed.
    OperationFailed(DaemonCall),
    /// An unregister made during the run was taken, but never confirmed.
    ConfirmationLost,
}

/// Where a run stands.
#[derive(Debug, Clone, Copy, PartialEq, Eq, Structural)]
pub enum Phase {
    /// Waiting for the next signal.
    Listening,
    /// A call made during the run is outstanding.
    Pending(DaemonCall),
    /// The run was cancelled and the closing unregister is outstanding.
    Closing,
    /// The run ended in success.
    Succeeded,
    /// The run ended in failure.
    Failed(RunError),
}

/// What the driver does next.
#[derive(Debug, Clone, Copy, PartialEq, Eq, Structural)]
pub enum Directive {
    /// Wait for the next signal and hand it in.
    Wait,
    /// Make this daemon call now and hand in its outcome.
    Perform(DaemonCall),
    /// Make no new call: hand in the outcome of the outstanding one.
    AwaitOutcome,
    /// Return success.
    Finish,
    /// Return this error.
    Abort(RunError),
}

/// The controller's state: the cached visibility and the phase of the run.
#[derive(Debug, Clone, Copy, PartialEq, Eq, Structural)]
pub struct ControlState {
    pub visibility: Visibility,
    pub phase: Phase,
}

/// The error that ends a run when a call made during it did not complete.
/// Only an unregister has a confirmation to lose: of another call, a lost
/// confirmation is a failure.
pub open spec fn error_of(call: DaemonCall, outcome: Outcome) -> RunError {
    if call == DaemonCall::UnregisterAwaitConfirm && outcome == Outcome::ConfirmationLost {
        RunError::ConfirmationLost
    } else {
        RunError::OperationFailed(call)
    }
}

/// The daemon call that a new visibility asks for.
pub open spec fn call_for(visibility: Visibility) -> DaemonCall {
    match visibility {
        Visibility::Visible => DaemonCall::Register,
        Visibility::Invisible => DaemonCall::UnregisterAwaitConfirm,
    }
}

impl ControlState {
    /// The state in which a run starts.
    pub open spec fn initial(visibility: Visibility) -> ControlState {
        ControlState { visibility, phase: Phase::Listening }
    }

    /// This state in another phase, with the visibility kept.
    pub open spec fn with_phase(self, phase: Phase) -> ControlState {
        ControlState { visibility: self.visibility, phase }
    }

    /// True once the run has ended.
    pub open spec fn finished(self) -> bool {
        self.phase == Phase::Succeeded || self.phase is Failed
    }

    /// A signal takes effect only while the controller listens. While a call
    /// is outstanding, and after the run has ended, it changes nothing.
    pub open spec fn on_signal(self, signal: Signal) -> (ControlState, Directive) {
        match self.phase {
            Phase::Listening => match signal {
                Signal::Cancelled => (
                    self.with_phase(Phase::Closing),
                    Directive::Perform(DaemonCall::UnregisterAwaitConfirm),
                ),
                Signal::DaemonEvent => (self, Directive::Wait),
                Signal::FeedFailed => (
                    self.with_phase(Phase::Failed(RunError::FeedFailed)),
                    Directive::Abort(RunError::FeedFailed),
                ),
                Signal::VisibilityChanged(v) => (
                    ControlState { visibility: v, phase: Phase::Pending(call_for(v)) },
                    Directive::Perform(call_for(v)),
                ),
                Signal::Wake => if self.visibility == Visibility::Visible {
                    (
                        self.with_phase(Phase::Pending(DaemonCall::Resend)),
                        Directive::Perform(DaemonCall::Resend),
                    )
                } else {
                    (self, Directive::Wait)
                },
            },
            Phase::Pending(_) => (self, Directive::AwaitOutcome),
            Phase::Closing => (self, Directive::AwaitOutcome),
            Phase::Succeeded => (self, Directive::Finish),
            Phase::Failed(e) => (self, Directive::Abort(e)),
        }
    }

    /// An outcome settles the outstanding call. A call made during the run
    /// resumes listening when it completed and ends the run when it did not;
    /// the closing unregister ends the run in success whatever its outcome.
    pub open spec fn on_outcome(self, outcome: Outcome) -> (ControlState, Directive) {
        match self.phase {
            Phase::Listening => (self, Directive::Wait),
            Phase::Pending(call) => if outcome == Outcome::Completed {
                (self.with_phase(Phase::Listening), Directive::Wait)
            } else {
                (
                    self.with_phase(Phase::Failed(error_of(call, outcome))),
                    Directive::Abort(error_of(call, outcome)),
                )
            },
            Phase::Closing => (self.with_phase(Phase::Succeeded), Directive::Finish),
            Phase::Succeeded => (self, Directive::Finish),
            Phase::Failed(e) => (self, Directive::Abort(e)),
        }
    }

    /// The state after one input, and what the driver is told to do next.
    pub open spec fn transition(self, input: Input) -> (ControlState, Directive) {
        match input {
            Input::Signal(signal) => self.on_signal(signal),
            Input::Outcome(outcome) => self.on_outcome(outcome),
        }
    }

    /// The state after one input.
    pub open spec fn after(self, input: Input) -> ControlState {
        self.transition(input).0
    }

    /// What the driver is told after one input.
    pub open spec fn directive(self, input: Input) -> Directive {
        self.transition(input).1
    }

    /// The result of the run, once it has ended.
    pub open spec fn outcome_of_run(self) -> Option<Result<(), RunError>> {
        match self.phase {
            Phase::Succeeded => Some(Ok(())),
            Phase::Failed(e) => Some(Err(e)),
            _ => None,
        }
    }
}

/// The state after a sequence of inputs, handed in from first to last.
pub open spec fn run_state(start: ControlState, inputs: Seq<Input>) -> ControlState
    decreases inputs.len(),
{
    if inputs.len() == 0 {
        start
    } else {
        run_state(start, inputs.drop_last()).after(inputs.last())
    }
}

/// The daemon calls that a sequence of inputs leads to, in the order in which
/// the driver is asked to make them.
pub open spec fn run_calls(start: ControlState, inputs: Seq<Input>) -> Seq<DaemonCall>
    decreases inputs.len(),
{
    if inputs.len() == 0 {
        Seq::empty()
    } else {
        let before = run_calls(start, inputs.drop_last());
        match run_state(start, inputs.drop_last()).directive(inputs.last()) {
            Directive::Perform(call) => before.push(call),
            _ => before,
        }
    }
}

} // verus!
