use vstd::prelude::*;
use crate::controller::{
    error_of, run_calls, run_state, ControlState, DaemonCall, Directive, Input, Outcome, Phase,
    RunError, Signal,
};
use crate::visibility::Visibility;

verus! {

/// One input moves the state by one transition and leads to at most one call.
pub proof fn run_of_one(start: ControlState, input: Input)
    ensures
        run_state(start, seq![input]) == start.after(input),
        run_calls(start, seq![input]) == match start.directive(input) {
            Directive::Perform(call) => seq![call],
            _ => Seq::<DaemonCall>::empty(),
        },
{
    let one = seq![input];
    assert(one.drop_last() =~= Seq::<Input>::empty());
    assert(run_state(start, one.drop_last()) == start);
    assert(run_calls(start, one.drop_last()) =~= Seq::<DaemonCall>::empty());
    match start.directive(input) {
        Directive::Perform(call) => {
            assert(run_calls(start, one) =~= seq![call]);
        },
        _ => {},
    }
}

/// Handing in two sequences one after the other is handing in the first and
/// then, from the state that it leaves, the second.
pub proof fn run_of_concat(start: ControlState, first: Seq<Input>, second: Seq<Input>)
    ensures
        run_state(start, first + second) == run_state(run_state(start, first), second),
        run_calls(start, first + second) == run_calls(start, first) + run_calls(
            run_state(start, first),
            second,
        ),
    decreases second.len(),
{
    let middle = run_state(start, first);
    if second.len() == 0 {
        assert(first + second =~= first);
        assert(run_calls(start, first) + run_calls(middle, second) =~= run_calls(start, first));
    } else {
        let whole = first + second;
        assert(whole.drop_last() =~= first + second.drop_last());
        run_of_concat(start, first, second.drop_last());
        let before = run_calls(middle, second.drop_last());
        match run_state(middle, second.drop_last()).directive(second.last()) {
            Directive::Perform(call) => {
                assert(run_calls(start, whole) =~= run_calls(start, first) + before.push(call));
            },
            _ => {},
        }
    }
}

/// Once a run has ended, no input changes the state or leads to a call.
pub proof fn ended_run_stays_ended(start: ControlState, inputs: Seq<Input>)
    requires
        start.finished(),
    ensures
        run_state(start, inputs) == start,
        run_calls(start, inputs) == Seq::<DaemonCall>::empty(),
    decreases inputs.len(),
{
    if inputs.len() > 0 {
        ended_run_stays_ended(start, inputs.drop_last());
    }
}

/// While a call is outstanding no further call is asked for: whatever comes
/// in, the directive is never to perform one.
pub proof fn no_call_while_one_is_outstanding(state: ControlState, input: Input)
    requires
        state.phase is Pending || state.phase == Phase::Closing,
    ensures
        !(state.directive(input) is Perform),
{
}

/// True when no input of the sequence reports a completed call.
pub open spec fn nothing_completed(inputs: Seq<Input>) -> bool {
    forall|i: int|
        0 <= i < inputs.len() ==> #[trigger] inputs[i] != Input::Outcome(Outcome::Completed)
}

/// After a call made during the run, and so after the unregister that a
/// change to `Invisible` asks for, no call is made until that call's
/// completion has come in. In particular nothing is registered while the
/// unregister is unconfirmed.
pub proof fn no_call_until_completion(start: ControlState, inputs: Seq<Input>)
    requires
        start.phase is Pending,
        nothing_completed(inputs),
    ensures
        run_calls(start, inputs) == Seq::<DaemonCall>::empty(),
        run_state(start, inputs) == start || exists|outcome: Outcome|
            outcome != Outcome::Completed && run_state(start, inputs) == start.with_phase(
                Phase::Failed(#[trigger] error_of(start.phase->Pending_0, outcome)),
            ),
    decreases inputs.len(),
{
    if inputs.len() > 0 {
        let front = inputs.drop_last();
        assert forall|i: int| 0 <= i < front.len() implies #[trigger] front[i] != Input::Outcome(
            Outcome::Completed,
        ) by {
            assert(front[i] == inputs[i]);
        }
        no_call_until_completion(start, front);
        assert(inputs.last() == inputs[inputs.len() - 1]);
    }
}

/// The changes to `Invisible` that a sequence of inputs brings about: each
/// asks for one unregister.
pub open spec fn invisible_transitions(start: ControlState, inputs: Seq<Input>) -> nat
    decreases inputs.len(),
{
    if inputs.len() == 0 {
        0
    } else {
        let before = invisible_transitions(start, inputs.drop_last());
        let state = run_state(start, inputs.drop_last());
        if state.phase == Phase::Listening && inputs.last() == Input::Signal(
            Signal::VisibilityChanged(Visibility::Invisible),
        ) {
            before + 1
        } else {
            before
        }
    }
}

/// The updates among them that found the advertisement visible: the
/// transitions from `Visible` into `Invisible`.
pub open spec fn visibility_drops(start: ControlState, inputs: Seq<Input>) -> nat
    decreases inputs.len(),
{
    if inputs.len() == 0 {
        0
    } else {
        let before = visibility_drops(start, inputs.drop_last());
        let state = run_state(start, inputs.drop_last());
        if state.phase == Phase::Listening && state.visibility == Visibility::Visible
            && inputs.last() == Input::Signal(Signal::VisibilityChanged(Visibility::Invisible)) {
            before + 1
        } else {
            before
        }
    }
}

/// The transitions from `Visible` into `Invisible` are among the updates to
/// `Invisible` that were taken.
pub proof fn drops_are_transitions(start: ControlState, inputs: Seq<Input>)
    ensures
        visibility_drops(start, inputs) <= invisible_transitions(start, inputs),
    decreases inputs.len(),
{
    if inputs.len() > 0 {
        drops_are_transitions(start, inputs.drop_last());
    }
}

/// The unregisters asked for by a change to `Invisible` whose completion a
/// sequence of inputs reports.
pub open spec fn confirmed_unregisters(start: ControlState, inputs: Seq<Input>) -> nat
    decreases inputs.len(),
{
    if inputs.len() == 0 {
        0
    } else {
        let before = confirmed_unregisters(start, inputs.drop_last());
        let state = run_state(start, inputs.drop_last());
        if state.phase == Phase::Pending(DaemonCall::UnregisterAwaitConfirm) && inputs.last()
            == Input::Outcome(Outcome::Completed) {
            before + 1
        } else {
            before
        }
    }
}

/// 1 where an unregister asked for by a change to `Invisible` has not been
/// confirmed: it is outstanding, or it ended the run because it failed or its
/// confirmation was lost. Else 0.
pub open spec fn unconfirmed(state: ControlState) -> nat {
    if state.phase == Phase::Pending(DaemonCall::UnregisterAwaitConfirm) || state.phase
        == Phase::Failed(RunError::OperationFailed(DaemonCall::UnregisterAwaitConfirm))
        || state.phase == Phase::Failed(RunError::ConfirmationLost) {
        1
    } else {
        0
    }
}

/// Every change to `Invisible` is matched by a confirmed unregister, but for
/// the one that may still be unconfirmed in the state reached.
pub proof fn unregisters_match_transitions(start: ControlState, inputs: Seq<Input>)
    ensures
        invisible_transitions(start, inputs) + unconfirmed(start) == confirmed_unregisters(
            start,
            inputs,
        ) + unconfirmed(run_state(start, inputs)),
    decreases inputs.len(),
{
    if inputs.len() > 0 {
        unregisters_match_transitions(start, inputs.drop_last());
    }
}

/// From the start of a run, the confirmed unregisters never lag more than one
/// behind the updates to `Invisible` that were taken, and never lead them.
/// So they never lag more than one behind the transitions from `Visible`
/// into `Invisible` either.
pub proof fn confirmed_unregisters_lag_at_most_one(visibility: Visibility, inputs: Seq<Input>)
    ensures
        confirmed_unregisters(ControlState::initial(visibility), inputs) <= invisible_transitions(
            ControlState::initial(visibility),
            inputs,
        ) <= confirmed_unregisters(ControlState::initial(visibility), inputs) + 1,
        visibility_drops(ControlState::initial(visibility), inputs) <= confirmed_unregisters(
            ControlState::initial(visibility),
            inputs,
        ) + 1,
{
    unregisters_match_transitions(ControlState::initial(visibility), inputs);
    drops_are_transitions(ControlState::initial(visibility), inputs);
}

/// True when no input of the sequence is an update to `Visible`.
pub open spec fn no_visible_update(inputs: Seq<Input>) -> bool {
    forall|i: int|
        0 <= i < inputs.len() ==> #[trigger] inputs[i] != Input::Signal(
            Signal::VisibilityChanged(Visibility::Visible),
        )
}

/// Nothing is registered before the visibility cell holds `Visible`: inputs
/// without such an update lead to no register, whatever the state they
/// start from.
pub proof fn no_register_before_visible_update(start: ControlState, inputs: Seq<Input>)
    requires
        no_visible_update(inputs),
    ensures
        forall|k: int|
            0 <= k < run_calls(start, inputs).len() ==> #[trigger] run_calls(start, inputs)[k]
                != DaemonCall::Register,
    decreases inputs.len(),
{
    if inputs.len() > 0 {
        let front = inputs.drop_last();
        assert forall|i: int| 0 <= i < front.len() implies #[trigger] front[i] != Input::Signal(
            Signal::VisibilityChanged(Visibility::Visible),
        ) by {
            assert(front[i] == inputs[i]);
        }
        no_register_before_visible_update(start, front);
        assert(inputs.last() == inputs[inputs.len() - 1]);
        call_follows_its_signal(run_state(start, front), inputs.last());
    }
}

/// A wake signal that comes in while the advertisement is invisible changes
/// nothing and leads to no call, however many of them come.
pub proof fn wake_while_invisible_does_nothing(start: ControlState, count: nat)
    requires
        start.visibility == Visibility::Invisible,
    ensures
        run_state(start, Seq::new(count, |i: int| Input::Signal(Signal::Wake))) == start,
        run_calls(start, Seq::new(count, |i: int| Input::Signal(Signal::Wake))) == Seq::<
            DaemonCall,
        >::empty(),
    decreases count,
{
    let wakes = Seq::new(count, |i: int| Input::Signal(Signal::Wake));
    if count > 0 {
        let fewer = Seq::new((count - 1) as nat, |i: int| Input::Signal(Signal::Wake));
        assert(wakes.drop_last() =~= fewer);
        wake_while_invisible_does_nothing(start, (count - 1) as nat);
        assert(wakes.last() == Input::Signal(Signal::Wake));
    }
}

/// A wake signal that comes in while the controller listens and the
/// advertisement is visible leads to one resend and to nothing else; when the
/// resend has completed the controller is where it was.
pub proof fn wake_while_visible_resends_once(start: ControlState)
    requires
        start.phase == Phase::Listening,
        start.visibility == Visibility::Visible,
    ensures
        start.directive(Input::Signal(Signal::Wake)) == Directive::Perform(DaemonCall::Resend),
        run_calls(
            start,
            seq![Input::Signal(Signal::Wake), Input::Outcome(Outcome::Completed)],
        ) == seq![DaemonCall::Resend],
        run_state(
            start,
            seq![Input::Signal(Signal::Wake), Input::Outcome(Outcome::Completed)],
        ) == start,
{
    let wake = Input::Signal(Signal::Wake);
    let done = Input::Outcome(Outcome::Completed);
    assert(seq![wake, done] =~= seq![wake] + seq![done]);
    run_of_concat(start, seq![wake], seq![done]);
    run_of_one(start, wake);
    run_of_one(start.after(wake), done);
    assert(seq![DaemonCall::Resend] + Seq::<DaemonCall>::empty() =~= seq![DaemonCall::Resend]);
}

/// A number of wake signals, each followed by the completion of the call that
/// it led to.
pub open spec fn served_wakes(count: nat) -> Seq<Input>
    decreases count,
{
    if count == 0 {
        Seq::empty()
    } else {
        served_wakes((count - 1) as nat) + seq![
            Input::Signal(Signal::Wake),
            Input::Outcome(Outcome::Completed),
        ]
    }
}

/// While the controller listens and the advertisement is visible, wake
/// signals lead to one resend each, and to no register.
pub proof fn each_wake_while_visible_resends_once(start: ControlState, count: nat)
    requires
        start.phase == Phase::Listening,
        start.visibility == Visibility::Visible,
    ensures
        run_state(start, served_wakes(count)) == start,
        run_calls(start, served_wakes(count)) == Seq::new(count, |i: int| DaemonCall::Resend),
    decreases count,
{
    if count == 0 {
        assert(run_calls(start, served_wakes(count)) =~= Seq::new(
            count,
            |i: int| DaemonCall::Resend,
        ));
    } else {
        let fewer = (count - 1) as nat;
        let round = seq![Input::Signal(Signal::Wake), Input::Outcome(Outcome::Completed)];
        each_wake_while_visible_resends_once(start, fewer);
        wake_while_visible_resends_once(start);
        run_of_concat(start, served_wakes(fewer), round);
        assert(Seq::new(fewer, |i: int| DaemonCall::Resend) + seq![DaemonCall::Resend] =~= Seq::new(
            count,
            |i: int| DaemonCall::Resend,
        ));
    }
}

/// Cancellation, whatever the visibility, leads to one closing unregister.
/// Whether that call completes or fails, the run ends in success, and nothing
/// that comes in later leads to another call.
pub proof fn cancellation_unregisters_once(
    start: ControlState,
    outcome: Outcome,
    later: Seq<Input>,
)
    requires
        start.phase == Phase::Listening,
    ensures
        run_calls(
            start,
            seq![Input::Signal(Signal::Cancelled), Input::Outcome(outcome)] + later,
        ) == seq![DaemonCall::UnregisterAwaitConfirm],
        run_state(
            start,
            seq![Input::Signal(Signal::Cancelled), Input::Outcome(outcome)] + later,
        ) == start.with_phase(Phase::Succeeded),
{
    let cancel = Input::Signal(Signal::Cancelled);
    let settle = Input::Outcome(outcome);
    let head = seq![cancel, settle];
    assert(head =~= seq![cancel] + seq![settle]);
    run_of_concat(start, seq![cancel], seq![settle]);
    run_of_one(start, cancel);
    run_of_one(start.after(cancel), settle);
    run_of_concat(start, head, later);
    ended_run_stays_ended(run_state(start, head), later);
    assert(run_calls(start, head) + Seq::<DaemonCall>::empty() =~= run_calls(start, head));
}

/// A failure of the daemon's event feed ends the run with that error at
/// once: no unregister, nor any other call, follows it.
pub proof fn feed_failure_ends_run_without_unregister(start: ControlState, later: Seq<Input>)
    requires
        start.phase == Phase::Listening,
    ensures
        start.directive(Input::Signal(Signal::FeedFailed)) == Directive::Abort(
            RunError::FeedFailed,
        ),
        run_calls(start, seq![Input::Signal(Signal::FeedFailed)] + later) == Seq::<
            DaemonCall,
        >::empty(),
        run_state(start, seq![Input::Signal(Signal::FeedFailed)] + later).outcome_of_run()
            == Some(Err::<(), _>(RunError::FeedFailed)),
{
    let fail = Input::Signal(Signal::FeedFailed);
    run_of_one(start, fail);
    run_of_concat(start, seq![fail], later);
    ended_run_stays_ended(start.after(fail), later);
    assert(Seq::<DaemonCall>::empty() + Seq::<DaemonCall>::empty() =~= Seq::<DaemonCall>::empty());
}

/// A run registers only on a change to `Visible`, and asks for a resend only
/// on a wake signal: the call that an input leads to is fixed by the input.
pub proof fn call_follows_its_signal(state: ControlState, input: Input)
    ensures
        state.directive(input) == Directive::Perform(DaemonCall::Register) ==> input
            == Input::Signal(Signal::VisibilityChanged(Visibility::Visible)),
        state.directive(input) == Directive::Perform(DaemonCall::Resend) ==> input
            == Input::Signal(Signal::Wake) && state.visibility == Visibility::Visible,
        state.directive(input) is Perform ==> state.phase == Phase::Listening,
{
}

} // verus!
