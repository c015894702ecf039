use mdns_visibility::controller::{
    ControlState, DaemonCall, Directive, Input, Outcome, Phase, RunError, Signal,
};
use mdns_visibility::descriptor::AdvertisementDescriptor;
use mdns_visibility::server::MDnsServer;
use mdns_visibility::visibility::Visibility;

const CANCELLED: Input = Input::Signal(Signal::Cancelled);
const DAEMON_EVENT: Input = Input::Signal(Signal::DaemonEvent);
const FEED_FAILED: Input = Input::Signal(Signal::FeedFailed);
const NOW_VISIBLE: Input = Input::Signal(Signal::VisibilityChanged(Visibility::Visible));
const NOW_INVISIBLE: Input = Input::Signal(Signal::VisibilityChanged(Visibility::Invisible));
const WAKE: Input = Input::Signal(Signal::Wake);
const COMPLETED: Input = Input::Outcome(Outcome::Completed);
const FAILED: Input = Input::Outcome(Outcome::Failed);
const UNCONFIRMED: Input = Input::Outcome(Outcome::ConfirmationLost);

fn server(visibility: Visibility) -> MDnsServer {
    let descriptor = AdvertisementDescriptor::build_service(
        "IwECAwT8n14AAA".to_string(),
        "laptop.local.".to_string(),
        "BnRlc3Q".to_string(),
        5200,
    );
    MDnsServer::new(descriptor, visibility)
}

fn count(calls: &[DaemonCall], call: DaemonCall) -> usize {
    calls.iter().filter(|c| **c == call).count()
}

#[test]
fn construction_registers_nothing() {
    let mut s = server(Visibility::Invisible);
    assert_eq!(s.phase(), Phase::Listening);
    assert_eq!(s.visibility(), Visibility::Invisible);
    assert_eq!(s.result(), None);
    assert_eq!(s.service_info().port, 5200);
    let calls = s.run(&vec![DAEMON_EVENT, WAKE, DAEMON_EVENT, WAKE]);
    assert_eq!(calls, vec![]);
    assert_eq!(s.step(NOW_VISIBLE), Directive::Perform(DaemonCall::Register));
}

#[test]
fn becoming_visible_registers_once() {
    let mut s = server(Visibility::Invisible);
    let calls = s.run(&vec![NOW_VISIBLE, COMPLETED]);
    assert_eq!(calls, vec![DaemonCall::Register]);
    assert_eq!(s.visibility(), Visibility::Visible);
    assert_eq!(s.phase(), Phase::Listening);
}

#[test]
fn wake_while_visible_resends_and_does_not_register() {
    let mut s = server(Visibility::Invisible);
    let before = s.run(&vec![NOW_VISIBLE, COMPLETED]);
    assert_eq!(before, vec![DaemonCall::Register]);
    let calls = s.run(&vec![WAKE, COMPLETED]);
    assert_eq!(calls, vec![DaemonCall::Resend]);
    assert_eq!(count(&calls, DaemonCall::Register), 0);
    assert_eq!(s.phase(), Phase::Listening);
    assert_eq!(s.visibility(), Visibility::Visible);
}

#[test]
fn becoming_invisible_unregisters_and_blocks_until_confirmed() {
    let mut s = server(Visibility::Visible);
    assert_eq!(s.step(NOW_INVISIBLE), Directive::Perform(DaemonCall::UnregisterAwaitConfirm));
    assert_eq!(s.phase(), Phase::Pending(DaemonCall::UnregisterAwaitConfirm));
    for input in [WAKE, NOW_VISIBLE, DAEMON_EVENT, CANCELLED, FEED_FAILED, NOW_INVISIBLE] {
        assert_eq!(s.step(input), Directive::AwaitOutcome);
        assert_eq!(s.phase(), Phase::Pending(DaemonCall::UnregisterAwaitConfirm));
        assert_eq!(s.visibility(), Visibility::Invisible);
    }
    assert_eq!(s.step(COMPLETED), Directive::Wait);
    assert_eq!(s.phase(), Phase::Listening);
}

#[test]
fn cancellation_while_invisible_unregisters_once_more() {
    let mut s = server(Visibility::Visible);
    let calls = s.run(&vec![NOW_INVISIBLE, COMPLETED, CANCELLED, COMPLETED]);
    assert_eq!(
        calls,
        vec![DaemonCall::UnregisterAwaitConfirm, DaemonCall::UnregisterAwaitConfirm]
    );
    assert_eq!(s.result(), Some(Ok(())));
}

#[test]
fn whole_day_of_an_advertiser() {
    let mut s = server(Visibility::Invisible);
    let calls = s.run(&vec![
        DAEMON_EVENT,
        WAKE,
        NOW_VISIBLE,
        COMPLETED,
        WAKE,
        COMPLETED,
        NOW_INVISIBLE,
        COMPLETED,
        WAKE,
        CANCELLED,
        COMPLETED,
    ]);
    assert_eq!(
        calls,
        vec![
            DaemonCall::Register,
            DaemonCall::Resend,
            DaemonCall::UnregisterAwaitConfirm,
            DaemonCall::UnregisterAwaitConfirm,
        ]
    );
    assert_eq!(s.phase(), Phase::Succeeded);
    assert_eq!(s.visibility(), Visibility::Invisible);
}

#[test]
fn wake_while_invisible_is_ignored() {
    let mut s = server(Visibility::Invisible);
    for _ in 0..5 {
        assert_eq!(s.step(WAKE), Directive::Wait);
        assert_eq!(s.phase(), Phase::Listening);
        assert_eq!(s.visibility(), Visibility::Invisible);
    }
}

#[test]
fn each_wake_while_visible_resends_once() {
    let mut s = server(Visibility::Visible);
    let calls = s.run(&vec![WAKE, COMPLETED, WAKE, COMPLETED, WAKE, COMPLETED]);
    assert_eq!(calls, vec![DaemonCall::Resend, DaemonCall::Resend, DaemonCall::Resend]);
}

#[test]
fn cancellation_unregisters_whatever_the_visibility() {
    for visibility in [Visibility::Visible, Visibility::Invisible] {
        for outcome in [COMPLETED, FAILED, UNCONFIRMED] {
            let mut s = server(visibility);
            assert_eq!(s.step(CANCELLED), Directive::Perform(DaemonCall::UnregisterAwaitConfirm));
            assert_eq!(s.phase(), Phase::Closing);
            assert_eq!(s.result(), None);
            assert_eq!(s.step(outcome), Directive::Finish);
            assert_eq!(s.result(), Some(Ok(())));
            assert_eq!(s.visibility(), visibility);
        }
    }
}

#[test]
fn feed_failure_returns_at_once_without_unregister() {
    let mut s = server(Visibility::Visible);
    assert_eq!(s.step(FEED_FAILED), Directive::Abort(RunError::FeedFailed));
    assert_eq!(s.result(), Some(Err(RunError::FeedFailed)));
    let calls = s.run(&vec![CANCELLED, COMPLETED, NOW_INVISIBLE, WAKE]);
    assert_eq!(calls, vec![]);
    assert_eq!(s.phase(), Phase::Failed(RunError::FeedFailed));
}

#[test]
fn daemon_event_changes_nothing() {
    let mut s = server(Visibility::Visible);
    assert_eq!(s.step(DAEMON_EVENT), Directive::Wait);
    assert_eq!(s.phase(), Phase::Listening);
    assert_eq!(s.visibility(), Visibility::Visible);
}

#[test]
fn failed_register_ends_the_run() {
    let mut s = server(Visibility::Invisible);
    assert_eq!(s.step(NOW_VISIBLE), Directive::Perform(DaemonCall::Register));
    let error = RunError::OperationFailed(DaemonCall::Register);
    assert_eq!(s.step(FAILED), Directive::Abort(error));
    assert_eq!(s.result(), Some(Err(error)));
    assert_eq!(s.step(CANCELLED), Directive::Abort(error));
}

#[test]
fn failed_unregister_during_the_run_ends_it() {
    let mut s = server(Visibility::Visible);
    let calls = s.run(&vec![NOW_INVISIBLE, FAILED, CANCELLED, COMPLETED]);
    assert_eq!(calls, vec![DaemonCall::UnregisterAwaitConfirm]);
    assert_eq!(
        s.result(),
        Some(Err(RunError::OperationFailed(DaemonCall::UnregisterAwaitConfirm)))
    );
}

#[test]
fn lost_confirmation_during_the_run_ends_it() {
    let mut s = server(Visibility::Visible);
    assert_eq!(s.step(NOW_INVISIBLE), Directive::Perform(DaemonCall::UnregisterAwaitConfirm));
    assert_eq!(s.step(UNCONFIRMED), Directive::Abort(RunError::ConfirmationLost));
    assert_eq!(s.result(), Some(Err(RunError::ConfirmationLost)));
    let calls = s.run(&vec![CANCELLED, COMPLETED, NOW_VISIBLE]);
    assert_eq!(calls, vec![]);
}

#[test]
fn lost_confirmation_of_another_call_is_its_failure() {
    let mut s = server(Visibility::Invisible);
    assert_eq!(s.step(NOW_VISIBLE), Directive::Perform(DaemonCall::Register));
    assert_eq!(
        s.step(UNCONFIRMED),
        Directive::Abort(RunError::OperationFailed(DaemonCall::Register))
    );
    let mut s = server(Visibility::Visible);
    assert_eq!(s.step(WAKE), Directive::Perform(DaemonCall::Resend));
    assert_eq!(
        s.step(UNCONFIRMED),
        Directive::Abort(RunError::OperationFailed(DaemonCall::Resend))
    );
}

#[test]
fn failed_resend_ends_the_run() {
    let mut s = server(Visibility::Visible);
    let calls = s.run(&vec![WAKE, FAILED]);
    assert_eq!(calls, vec![DaemonCall::Resend]);
    assert_eq!(s.result(), Some(Err(RunError::OperationFailed(DaemonCall::Resend))));
}

#[test]
fn visible_update_registers_even_when_already_visible() {
    let mut s = server(Visibility::Visible);
    let calls = s.run(&vec![NOW_VISIBLE, COMPLETED, NOW_VISIBLE, COMPLETED]);
    assert_eq!(calls, vec![DaemonCall::Register, DaemonCall::Register]);
}

#[test]
fn outcome_without_a_call_is_ignored() {
    let mut s = server(Visibility::Visible);
    assert_eq!(s.step(COMPLETED), Directive::Wait);
    assert_eq!(s.step(FAILED), Directive::Wait);
    assert_eq!(s.step(UNCONFIRMED), Directive::Wait);
    assert_eq!(s.phase(), Phase::Listening);
    assert_eq!(s.result(), None);
}

#[test]
fn signals_during_closing_are_held_back() {
    let mut s = server(Visibility::Visible);
    assert_eq!(s.step(CANCELLED), Directive::Perform(DaemonCall::UnregisterAwaitConfirm));
    for input in [WAKE, NOW_VISIBLE, FEED_FAILED, CANCELLED] {
        assert_eq!(s.step(input), Directive::AwaitOutcome);
        assert_eq!(s.phase(), Phase::Closing);
        assert_eq!(s.visibility(), Visibility::Visible);
    }
    assert_eq!(s.step(FAILED), Directive::Finish);
}

#[test]
fn confirmed_unregisters_trail_transitions_by_at_most_one() {
    let script = vec![
        NOW_INVISIBLE,
        WAKE,
        COMPLETED,
        NOW_VISIBLE,
        COMPLETED,
        NOW_INVISIBLE,
        NOW_VISIBLE,
        COMPLETED,
        NOW_INVISIBLE,
        COMPLETED,
        NOW_INVISIBLE,
    ];
    let mut s = server(Visibility::Visible);
    let mut transitions = 0usize;
    let mut confirmed = 0usize;
    for input in script {
        let pending = s.phase() == Phase::Pending(DaemonCall::UnregisterAwaitConfirm);
        let directive = s.step(input);
        if input == NOW_INVISIBLE && directive == Directive::Perform(DaemonCall::UnregisterAwaitConfirm) {
            transitions += 1;
        }
        if pending && input == COMPLETED {
            confirmed += 1;
        }
        if pending {
            assert_ne!(directive, Directive::Perform(DaemonCall::Register));
        }
        assert!(confirmed <= transitions && transitions <= confirmed + 1);
    }
    assert_eq!(transitions, 4);
    assert_eq!(confirmed, 3);
}

#[test]
fn run_of_nothing_changes_nothing() {
    let mut s = server(Visibility::Visible);
    let calls = s.run(&Vec::new());
    assert_eq!(calls, vec![]);
    assert_eq!(s.phase(), Phase::Listening);
    assert_eq!(s.visibility(), Visibility::Visible);
}

#[test]
fn control_state_compares_by_fields() {
    let a = ControlState { visibility: Visibility::Visible, phase: Phase::Listening };
    let b = ControlState { visibility: Visibility::Visible, phase: Phase::Closing };
    assert_eq!(a, a);
    assert_ne!(a, b);
}
