use recisdb::cancel::state_of;
use recisdb::cancel::trigger_on;
use recisdb::cancel::AbortSignal;
use recisdb::cancel::ArmPlan;
use recisdb::cancel::CancellationController;
use recisdb::cancel::SignalState;
use recisdb::mode::TimeSpan;

#[test]
fn a_new_signal_is_running() {
    let mut signal = AbortSignal::new();
    assert!(!signal.is_requested());
    assert_eq!(signal.state(), SignalState::Running);
}

#[test]
fn the_first_trigger_makes_the_transition_and_the_second_does_not() {
    let mut signal = AbortSignal::new();
    assert!(signal.trigger());
    assert!(signal.is_requested());
    assert_eq!(signal.state(), SignalState::AbortRequested);
    assert!(!signal.trigger());
    assert!(!signal.trigger());
    assert!(signal.is_requested());
    assert_eq!(signal.state(), SignalState::AbortRequested);
}

#[test]
fn handles_share_one_signal() {
    let mut timer = AbortSignal::new();
    let mut interrupt = timer.share();
    let mut reader = timer.share();
    assert!(!reader.is_requested());
    assert!(interrupt.trigger());
    assert!(reader.is_requested());
    assert!(!timer.trigger());
    assert!(reader.is_requested());
    assert_eq!(reader.state(), SignalState::AbortRequested);

    let mut other = AbortSignal::new();
    let mut second = other.clone();
    assert!(other.trigger());
    assert!(!second.trigger());
}

#[test]
fn a_handle_made_after_the_request_sees_it() {
    let mut first = AbortSignal::new();
    assert!(first.trigger());
    let mut late = first.share();
    assert!(late.is_requested());
    assert!(!late.trigger());
    let mut later = late.share();
    assert_eq!(later.state(), SignalState::AbortRequested);
}

#[test]
fn a_handle_that_saw_the_request_makes_no_transition() {
    let mut trigger = AbortSignal::new();
    let mut reader = trigger.share();
    assert!(!reader.is_requested());
    assert!(trigger.trigger());
    assert!(reader.is_requested());
    assert!(!reader.trigger());
    assert!(reader.is_requested());
}

#[test]
fn separate_signals_do_not_affect_each_other() {
    let mut a = AbortSignal::new();
    let mut b = AbortSignal::new();
    assert!(a.trigger());
    assert!(!b.is_requested());
    assert!(b.trigger());
}

#[test]
fn one_trigger_on_each_state() {
    assert_eq!(trigger_on(SignalState::Running), (SignalState::AbortRequested, true));
    assert_eq!(trigger_on(SignalState::AbortRequested), (SignalState::AbortRequested, false));
    assert_eq!(state_of(false), SignalState::Running);
    assert_eq!(state_of(true), SignalState::AbortRequested);
}

#[test]
fn arming_with_a_duration_plans_a_timer_and_the_handler() {
    let two = TimeSpan::from_secs(2);
    let controller = CancellationController::arm(Some(two));
    assert_eq!(controller.plan(), ArmPlan { timer: Some(two), interrupt: true });
    assert!(!controller.signal().is_requested());
}

#[test]
fn arming_without_a_duration_plans_the_handler_only() {
    let controller = CancellationController::arm(None);
    assert_eq!(controller.plan(), ArmPlan { timer: None, interrupt: true });
    assert_eq!(controller.signal().state(), SignalState::Running);
}

#[test]
fn the_controller_hands_out_one_signal() {
    let controller = CancellationController::arm(None);
    let mut timer = controller.signal();
    let mut interrupt = controller.signal();
    let mut reader = controller.signal();
    assert!(timer.trigger());
    assert!(!interrupt.trigger());
    assert!(reader.is_requested());
    assert!(controller.signal().is_requested());
}
