use vstd::prelude::*;
use crate::controller::{
    run_calls, run_state, ControlState, DaemonCall, Directive, Input, Outcome, Phase, RunError,
    Signal,
};
use crate::descriptor::AdvertisementDescriptor;
use crate::visibility::Visibility;

verus! {

/// The advertisement controller: the descriptor of the service, fixed for the
/// controller's lifetime, and the state of the run.
pub struct MDnsServer {
    service_info: AdvertisementDescriptor,
    state: ControlState,
}

impl View for MDnsServer {
    type V = ControlState;

    closed spec fn view(&self) -> ControlState {
        self.state
    }
}

impl MDnsServer {
    /// The descriptor that the controller was made with.
    pub closed spec fn descriptor(self) -> AdvertisementDescriptor {
        self.service_info
    }

    /// A controller that listens, with the visibility that the visibility cell
    /// holds when the run starts. No daemon call has been asked for.
    pub fn new(service_info: AdvertisementDescriptor, visibility: Visibility) -> (s: Self)
        ensures
            s@ == ControlState::initial(visibility),
            s.descriptor() == service_info,
    {
        MDnsServer { service_info, state: ControlState { visibility, phase: Phase::Listening } }
    }

    pub fn service_info(&self) -> (d: &AdvertisementDescriptor)
        ensures
            *d == self.descriptor(),
    {
        &self.service_info
    }

    pub fn visibility(&self) -> (v: Visibility)
        ensures
            v == self@.visibility,
    {
        self.state.visibility
    }

    pub fn phase(&self) -> (p: Phase)
        ensures
            p == self@.phase,
    {
        self.state.phase
    }

    /// What the run returned: `None` while it goes on.
    pub fn result(&self) -> (r: Option<Result<(), RunError>>)
        ensures
            r == self@.outcome_of_run(),
    {
        match self.state.phase {
            Phase::Succeeded => Some(Ok(())),
            Phase::Failed(e) => Some(Err(e)),
            _ => None,
        }
    }

    /// Takes a signal from one of the sources.
    pub fn on_signal(&mut self, signal: Signal) -> (d: Directive)
        ensures
            final(self)@ == old(self)@.on_signal(signal).0,
            d == old(self)@.on_signal(signal).1,
            final(self).descriptor() == old(self).descriptor(),
    {
        match self.state.phase {
            Phase::Listening => match signal {
                Signal::Cancelled => {
                    self.state.phase = Phase::Closing;
                    Directive::Perform(DaemonCall::UnregisterAwaitConfirm)
                },
                Signal::DaemonEvent => Directive::Wait,
                Signal::FeedFailed => {
                    self.state.phase = Phase::Failed(RunError::FeedFailed);
                    Directive::Abort(RunError::FeedFailed)
                },
                Signal::VisibilityChanged(v) => {
                    let call = match v {
                        Visibility::Visible => DaemonCall::Register,
                        Visibility::Invisible => DaemonCall::UnregisterAwaitConfirm,
                    };
                    self.state.visibility = v;
                    self.state.phase = Phase::Pending(call);
                    Directive::Perform(call)
                },
                Signal::Wake => match self.state.visibility {
                    Visibility::Invisible => Directive::Wait,
                    Visibility::Visible => {
                        self.state.phase = Phase::Pending(DaemonCall::Resend);
                        Directive::Perform(DaemonCall::Resend)
                    },
                },
            },
            Phase::Pending(_) => Directive::AwaitOutcome,
            Phase::Closing => Directive::AwaitOutcome,
            Phase::Succeeded => Directive::Finish,
            Phase::Failed(e) => Directive::Abort(e),
        }
    }

    /// Takes the outcome of the daemon call that was asked for last.
    pub fn on_outcome(&mut self, outcome: Outcome) -> (d: Directive)
        ensures
            final(self)@ == old(self)@.on_outcome(outcome).0,
            d == old(self)@.on_outcome(outcome).1,
            final(self).descriptor() == old(self).descriptor(),
    {
        match self.state.phase {
            Phase::Listening => Directive::Wait,
            Phase::Pending(call) => match outcome {
                Outcome::Completed => {
                    self.state.phase = Phase::Listening;
                    Directive::Wait
                },
                Outcome::ConfirmationLost => {
                    let error = match call {
                        DaemonCall::UnregisterAwaitConfirm => RunError::ConfirmationLost,
                        _ => RunError::OperationFailed(call),
                    };
                    self.state.phase = Phase::Failed(error);
                    Directive::Abort(error)
                },
                Outcome::Failed => {
                    self.state.phase = Phase::Failed(RunError::OperationFailed(call));
                    Directive::Abort(RunError::OperationFailed(call))
                },
            },
            Phase::Closing => {
                self.state.phase = Phase::Succeeded;
                Directive::Finish
            },
            Phase::Succeeded => Directive::Finish,
            Phase::Failed(e) => Directive::Abort(e),
        }
    }

    /// Takes one input and says what the driver does next.
    pub fn step(&mut self, input: Input) -> (d: Directive)
        ensures
            final(self)@ == old(self)@.after(input),
            d == old(self)@.directive(input),
            final(self).descriptor() == old(self).descriptor(),
    {
        match input {
            Input::Signal(signal) => self.on_signal(signal),
            Input::Outcome(outcome) => self.on_outcome(outcome),
        }
    }

    /// Takes a recorded sequence of inputs, first to last, and returns the
    /// daemon calls that they lead to, in order.
    pub fn run(&mut self, inputs: &Vec<Input>) -> (calls: Vec<DaemonCall>)
        ensures
            final(self)@ == run_state(old(self)@, inputs@),
            calls@ == run_calls(old(self)@, inputs@),
            final(self).descriptor() == old(self).descriptor(),
    {
        let mut calls: Vec<DaemonCall> = Vec::new();
        let mut i: usize = 0;
        while i < inputs.len()
            invariant
                i <= inputs.len(),
                self@ == run_state(old(self)@, inputs@.take(i as int)),
                calls@ == run_calls(old(self)@, inputs@.take(i as int)),
                self.descriptor() == old(self).descriptor(),
            decreases inputs.len() - i,
        {
            proof {
                assert(inputs@.take(i + 1).drop_last() =~= inputs@.take(i as int));
            }
            let d = self.step(inputs[i]);
            match d {
                Directive::Perform(call) => {
                    calls.push(call);
                },
                _ => {},
            }
            i += 1;
        }
        proof {
            assert(inputs@.take(i as int) =~= inputs@);
        }
        calls
    }
}

} // verus!
