use turbo_clicker::autoclicker::{ActivationRequest, AutoclickOutcome, Autoclicker, LoopAction};

fn request(interval_ms: u64, start_delay: Option<u64>, duration: Option<u64>) -> ActivationRequest {
    ActivationRequest { interval_ms, start_delay, duration }
}

#[test]
fn new_autoclicker() {
    let autoclicker = Autoclicker::new();

    assert!(!autoclicker.is_running(), "running should be false");
    assert!(autoclicker.is_stopped(), "stopped should be true");
}

#[test]
fn autoclick_should_stop_when_signaled() {
    let mut autoclicker = Autoclicker::new();

    let outcome = autoclicker.autoclick(&request(20, None, None));
    assert_eq!(
        outcome,
        AutoclickOutcome::Started { start_delay: None, duration: None },
        "Autoclicker should start"
    );
    assert!(autoclicker.is_running(), "running should be true");
    assert!(!autoclicker.is_stopped(), "stopped should be false");

    // One iteration of the click loop while the run is live, then a stop
    // request, then the iteration on which the loop observes it.
    assert_eq!(autoclicker.click_loop_step(20), LoopAction::Click { sleep_ms: 20 });
    autoclicker.stop();
    assert_eq!(autoclicker.click_loop_step(20), LoopAction::Exit);

    assert!(autoclicker.is_stopped(), "stopped should be true after stopping");
}

#[test]
fn autoclick_should_not_start_if_already_running() {
    let mut autoclicker = Autoclicker::new();

    let first = autoclicker.autoclick(&request(20, None, None));
    assert!(matches!(first, AutoclickOutcome::Started { .. }));
    let second = autoclicker.autoclick(&request(20, None, None));
    assert_eq!(
        second,
        AutoclickOutcome::Rejected,
        "Autoclicker should not start if already running"
    );
}

#[test]
fn autoclick_should_not_start_when_still_running() {
    let mut autoclicker = Autoclicker::new();

    // Reach the stopping state: a live run whose stop request the click loop
    // has not yet observed.
    let started = autoclicker.autoclick(&request(20, None, None));
    assert!(matches!(started, AutoclickOutcome::Started { .. }));
    autoclicker.stop();
    assert!(!autoclicker.is_running());
    assert!(!autoclicker.is_stopped());

    let second = autoclicker.autoclick(&request(20, None, None));
    assert_eq!(
        second,
        AutoclickOutcome::Rejected,
        "Autoclicker should not start if already running"
    );
}

#[test]
fn autoclick_passes_delays_to_the_started_run() {
    let mut autoclicker = Autoclicker::new();

    let outcome = autoclicker.autoclick(&request(20, Some(1), Some(2)));
    assert_eq!(
        outcome,
        AutoclickOutcome::Started { start_delay: Some(1), duration: Some(2) },
        "a successful claim owes the caller the requested run"
    );
}

#[test]
fn run_with_duration_stops_after_expiry() {
    let mut autoclicker = Autoclicker::new();

    // An activation with a bounded duration: the duration timer shares no
    // state with the click loop beyond the stop request it files.
    let outcome = autoclicker.autoclick(&request(20, None, Some(2)));
    assert_eq!(outcome, AutoclickOutcome::Started { start_delay: None, duration: Some(2) });
    assert!(autoclicker.is_running());

    assert_eq!(autoclicker.click_loop_step(20), LoopAction::Click { sleep_ms: 20 });

    // The duration expires: the timer requests a stop and nothing more.
    autoclicker.stop();
    assert!(!autoclicker.is_running());
    assert!(!autoclicker.is_stopped());

    // The loop observes the cleared flag on its next iteration and winds down.
    assert_eq!(autoclicker.click_loop_step(20), LoopAction::Exit);
    assert!(autoclicker.is_stopped());
}

#[test]
fn interval_change_applies_to_the_next_iteration() {
    let mut autoclicker = Autoclicker::new();

    let outcome = autoclicker.autoclick(&request(10, None, None));
    assert!(matches!(outcome, AutoclickOutcome::Started { .. }));

    // Each iteration sleeps for the interval read at that iteration, so a
    // changed interval is honoured from the next iteration on.
    assert_eq!(autoclicker.click_loop_step(10), LoopAction::Click { sleep_ms: 10 });
    assert_eq!(autoclicker.click_loop_step(500), LoopAction::Click { sleep_ms: 500 });
    assert_eq!(autoclicker.click_loop_step(10), LoopAction::Click { sleep_ms: 10 });

    autoclicker.stop();
    assert_eq!(autoclicker.click_loop_step(10), LoopAction::Exit);
}

#[test]
fn stop_then_two_cycles_reports_stopped() {
    let mut autoclicker = Autoclicker::new();

    let outcome = autoclicker.autoclick(&request(10, None, None));
    assert!(matches!(outcome, AutoclickOutcome::Started { .. }));

    // One cycle passes, the stop request arrives, and within the next cycle
    // the loop has wound down.
    assert_eq!(autoclicker.click_loop_step(10), LoopAction::Click { sleep_ms: 10 });
    autoclicker.stop();
    assert_eq!(autoclicker.click_loop_step(10), LoopAction::Exit);

    assert!(autoclicker.is_stopped());
}

#[test]
fn run_stays_active_until_stop_requested() {
    let mut autoclicker = Autoclicker::new();

    let outcome = autoclicker.autoclick(&request(20, None, None));
    assert!(matches!(outcome, AutoclickOutcome::Started { .. }));
    assert!(autoclicker.is_running(), "running should be true before the call returns");

    // Neither rejected activation attempts nor click-loop iterations end the
    // run: it stays active until somebody requests a stop.
    for _ in 0..3 {
        assert_eq!(autoclicker.click_loop_step(20), LoopAction::Click { sleep_ms: 20 });
        assert_eq!(autoclicker.autoclick(&request(20, None, None)), AutoclickOutcome::Rejected);
        assert!(autoclicker.is_running());
    }

    autoclicker.stop();
    assert!(!autoclicker.is_running());
}

#[test]
fn second_back_to_back_trigger_is_rejected() {
    let mut autoclicker = Autoclicker::new();

    let first = autoclicker.autoclick(&request(20, None, None));
    let second = autoclicker.autoclick(&request(20, None, None));

    assert!(matches!(first, AutoclickOutcome::Started { .. }));
    assert_eq!(second, AutoclickOutcome::Rejected);
}

#[test]
fn hotkey_toggles_the_clicker() {
    let mut autoclicker = Autoclicker::new();

    // First activation while idle: the loop starts.
    assert!(autoclicker.trigger_on_hotkey(20), "hotkey on an idle engine should start it");
    assert!(autoclicker.is_running());
    assert_eq!(autoclicker.click_loop_step(20), LoopAction::Click { sleep_ms: 20 });

    // Second activation while active: interpreted as a stop request.
    assert!(!autoclicker.trigger_on_hotkey(20), "hotkey on a live engine should not start it");
    assert!(!autoclicker.is_running());
    assert_eq!(autoclicker.click_loop_step(20), LoopAction::Exit);
    assert!(autoclicker.is_stopped());
}

#[test]
fn hotkey_while_stopping_keeps_the_engine_stopping() {
    let mut autoclicker = Autoclicker::new();

    assert!(autoclicker.trigger_on_hotkey(20));
    autoclicker.stop();

    // A press before the loop has wound down neither restarts nor completes
    // the stop: only the loop itself may report the engine stopped.
    assert!(!autoclicker.trigger_on_hotkey(20));
    assert!(!autoclicker.is_running());
    assert!(!autoclicker.is_stopped());
}
