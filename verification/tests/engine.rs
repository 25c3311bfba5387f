use std::sync::atomic::{AtomicBool, Ordering};
use std::sync::{Arc, Mutex};
use std::time::{Duration, Instant};

use oh_my_macro::engine::{Action, Event, Executor, Outcome, Phase, RunReport};
use oh_my_macro::input::{InputAdapter, InputError};
use oh_my_macro::macros::{Key, MacroId, Primitive, Timing};

/// State shared between a test and its fake adapter.
#[derive(Default)]
struct FakeState {
    events: Mutex<Vec<Primitive>>,
    safety_error: Mutex<Option<String>>,
    refuse_safety_after: Mutex<Option<(usize, String)>>,
    fail_at: Mutex<Option<(usize, String)>>,
    cancel_after: Mutex<Option<(usize, Arc<AtomicBool>)>>,
    sent: Mutex<usize>,
    release_all_calls: Mutex<usize>,
}

impl FakeState {
    fn events(&self) -> Vec<Primitive> {
        self.events.lock().unwrap().clone()
    }

    fn release_all_calls(&self) -> usize {
        *self.release_all_calls.lock().unwrap()
    }

    fn record(&self, primitive: Primitive) -> Result<(), InputError> {
        let index = {
            let mut sent = self.sent.lock().unwrap();
            *sent += 1;
            *sent
        };
        let cancel_after = self.cancel_after.lock().unwrap().clone();
        if let Some((after, flag)) = cancel_after {
            if after <= index {
                flag.store(true, Ordering::SeqCst);
            }
        }
        if let Some((at, detail)) = self.fail_at.lock().unwrap().as_ref() {
            if *at == index {
                return Err(InputError::Injection(detail.clone()));
            }
        }
        self.events.lock().unwrap().push(primitive);
        Ok(())
    }

    fn check_safety(&self) -> Result<(), InputError> {
        let accepted = self.events.lock().unwrap().len();
        if let Some((after, detail)) = self.refuse_safety_after.lock().unwrap().as_ref() {
            if accepted >= *after {
                return Err(InputError::Unsafe(detail.clone()));
            }
        }
        if let Some(detail) = self.safety_error.lock().unwrap().as_ref() {
            return Err(InputError::Unsafe(detail.clone()));
        }
        Ok(())
    }
}

struct FakeAdapter {
    state: Arc<FakeState>,
}

impl InputAdapter for FakeAdapter {
    fn key_down(&mut self, key: Key) -> Result<(), InputError> {
        self.state.record(Primitive::KeyDown(key))
    }

    fn key_up(&mut self, key: Key) -> Result<(), InputError> {
        self.state.record(Primitive::KeyUp(key))
    }

    fn mouse_left_down(&mut self) -> Result<(), InputError> {
        self.state.record(Primitive::MouseLeftDown)
    }

    fn mouse_left_up(&mut self) -> Result<(), InputError> {
        self.state.record(Primitive::MouseLeftUp)
    }

    fn release_all(&mut self) -> Result<(), InputError> {
        *self.state.release_all_calls.lock().unwrap() += 1;
        Ok(())
    }

    fn safety_check(&mut self) -> Result<(), InputError> {
        self.state.check_safety()
    }
}

fn send(adapter: &mut dyn InputAdapter, primitive: Primitive) -> Result<(), InputError> {
    match primitive {
        Primitive::KeyDown(key) => adapter.key_down(key),
        Primitive::KeyUp(key) => adapter.key_up(key),
        Primitive::MouseLeftDown => adapter.mouse_left_down(),
        Primitive::MouseLeftUp => adapter.mouse_left_up(),
    }
}

/// Waits `ms`, polling the flag; false when cancelled.
fn wait_unless_cancelled(ms: u64, cancel: &AtomicBool) -> bool {
    let deadline = Instant::now() + Duration::from_millis(ms);
    loop {
        if cancel.load(Ordering::SeqCst) {
            return false;
        }
        if Instant::now() >= deadline {
            return true;
        }
        std::hint::spin_loop();
    }
}

/// Drives one run of the executor against an adapter.
fn run(macro_id: MacroId, timing: Timing, adapter: &mut dyn InputAdapter, cancel: &AtomicBool) -> RunReport {
    let mut executor = Executor::new(macro_id, timing);
    let mut event = Event::Start;
    loop {
        event = match executor.step(event) {
            Action::CheckCancel => Event::CancelChecked { cancelled: cancel.load(Ordering::SeqCst) },
            Action::SafetyCheck => Event::GateChecked(adapter.safety_check()),
            Action::Send(primitive) => Event::Sent(send(adapter, primitive)),
            Action::Wait { ms } => Event::Waited { cancelled: !wait_unless_cancelled(ms, cancel) },
            Action::Release(primitive) => Event::Sent(send(adapter, primitive)),
            Action::ReleaseAll => Event::Sent(adapter.release_all()),
            Action::Finish => {
                assert_eq!(executor.phase(), Phase::Done);
                return executor.report();
            }
        };
    }
}

fn timing() -> Timing {
    Timing::from_millis(1, 1)
}

fn run_with(state: Arc<FakeState>) -> RunReport {
    let mut adapter = FakeAdapter { state };
    let cancel = AtomicBool::new(false);
    run(MacroId::CreepColony, timing(), &mut adapter, &cancel)
}

#[test]
fn events_reach_the_adapter_in_exact_order() {
    let state = Arc::new(FakeState::default());
    let report = run_with(Arc::clone(&state));
    assert_eq!(report.outcome, Outcome::Completed);
    assert_eq!(report.steps_done, 6);
    assert_eq!(report.steps_total, 6);
    assert_eq!(
        state.events(),
        vec![
            Primitive::KeyDown(Key::B),
            Primitive::KeyUp(Key::B),
            Primitive::KeyDown(Key::C),
            Primitive::KeyUp(Key::C),
            Primitive::MouseLeftDown,
            Primitive::MouseLeftUp,
        ]
    );
    assert_eq!(state.release_all_calls(), 1);
}

#[test]
fn a_safety_stop_happens_before_the_first_event_and_releases_nothing() {
    let state = Arc::new(FakeState::default());
    *state.safety_error.lock().unwrap() = Some("foreground window belongs to 'notepad.exe'".to_owned());
    let report = run_with(Arc::clone(&state));
    match report.outcome {
        Outcome::Aborted { detail } => assert!(detail.contains("notepad.exe"), "{detail}"),
        other => panic!("unexpected outcome: {other:?}"),
    }
    assert_eq!(report.steps_done, 0);
    assert_eq!(state.events(), Vec::new());
}

#[test]
fn a_safety_stop_mid_run_does_not_send_more_events() {
    let state = Arc::new(FakeState::default());
    *state.refuse_safety_after.lock().unwrap() = Some((3, "modifier keys are held: Ctrl".to_owned()));
    let report = run_with(Arc::clone(&state));
    assert!(matches!(report.outcome, Outcome::Aborted { .. }));
    assert_eq!(report.steps_done, 3);
    assert_eq!(
        state.events(),
        vec![
            Primitive::KeyDown(Key::B),
            Primitive::KeyUp(Key::B),
            Primitive::KeyDown(Key::C),
            Primitive::KeyUp(Key::C),
        ]
    );
    assert_eq!(state.release_all_calls(), 1);
}

#[test]
fn cancellation_before_start_sends_nothing() {
    let state = Arc::new(FakeState::default());
    let mut adapter = FakeAdapter { state: Arc::clone(&state) };
    let cancel = AtomicBool::new(true);
    let report = run(MacroId::Spire, timing(), &mut adapter, &cancel);
    assert_eq!(report.outcome, Outcome::Cancelled);
    assert_eq!(report.steps_done, 0);
    assert_eq!(state.events(), Vec::new());
}

#[test]
fn cancellation_after_a_key_down_still_releases_that_key() {
    let state = Arc::new(FakeState::default());
    let cancel = Arc::new(AtomicBool::new(false));
    *state.cancel_after.lock().unwrap() = Some((1, Arc::clone(&cancel)));
    let mut adapter = FakeAdapter { state: Arc::clone(&state) };
    let report = run(MacroId::CreepColony, timing(), &mut adapter, &cancel);
    assert_eq!(report.outcome, Outcome::Cancelled);
    assert_eq!(report.steps_done, 1);
    assert_eq!(state.events().first(), Some(&Primitive::KeyDown(Key::B)));
    assert!(state.events().contains(&Primitive::KeyUp(Key::B)));
    assert_eq!(state.release_all_calls(), 1);
}

#[test]
fn cancellation_between_two_keys_releases_the_first_one() {
    let state = Arc::new(FakeState::default());
    let cancel = Arc::new(AtomicBool::new(false));
    *state.cancel_after.lock().unwrap() = Some((3, Arc::clone(&cancel)));
    let mut adapter = FakeAdapter { state: Arc::clone(&state) };
    let report = run(MacroId::CreepColony, timing(), &mut adapter, &cancel);
    assert_eq!(report.outcome, Outcome::Cancelled);
    assert_eq!(
        state.events(),
        vec![
            Primitive::KeyDown(Key::B),
            Primitive::KeyUp(Key::B),
            Primitive::KeyDown(Key::C),
            Primitive::KeyUp(Key::C),
        ]
    );
}

#[test]
fn an_injection_failure_stops_the_run_and_is_reported() {
    let state = Arc::new(FakeState::default());
    *state.fail_at.lock().unwrap() = Some((4, "SendInput returned 0 (GetLastError=5)".to_owned()));
    let report = run_with(Arc::clone(&state));
    match report.outcome {
        Outcome::Failed { detail } => {
            assert!(detail.contains("GetLastError=5"), "{detail}");
            assert!(detail.contains("step 4/6"), "{detail}");
        }
        other => panic!("unexpected outcome: {other:?}"),
    }
    assert_eq!(report.steps_done, 3);
    assert!(state.events().contains(&Primitive::KeyUp(Key::C)));
}

#[test]
fn a_failing_release_is_reported_and_does_not_stop_the_other_releases() {
    let state = Arc::new(FakeState::default());
    *state.fail_at.lock().unwrap() = Some((2, "blocked".to_owned()));
    let report = run_with(Arc::clone(&state));
    match report.outcome {
        Outcome::Failed { detail } => assert!(detail.contains("blocked"), "{detail}"),
        other => panic!("unexpected outcome: {other:?}"),
    }
    assert_eq!(state.release_all_calls(), 1);
    assert!(state.events().contains(&Primitive::KeyUp(Key::B)));
}

#[test]
fn the_plan_is_executed_with_the_configured_delays() {
    let state = Arc::new(FakeState::default());
    let mut adapter = FakeAdapter { state };
    let cancel = AtomicBool::new(false);
    let started = Instant::now();
    let report = run(MacroId::Spire, Timing::from_millis(20, 20), &mut adapter, &cancel);
    assert_eq!(report.outcome, Outcome::Completed);
    assert!(
        started.elapsed() >= Duration::from_millis(120),
        "run finished too early: {:?}",
        started.elapsed()
    );
}

#[test]
fn the_failure_detail_names_the_step_and_the_event() {
    let state = Arc::new(FakeState::default());
    *state.fail_at.lock().unwrap() = Some((5, "denied".to_owned()));
    let report = run_with(state);
    assert_eq!(
        report.outcome,
        Outcome::Failed {
            detail: "input injection failed: denied while sending step 5/6 (left button down)".to_owned()
        }
    );
}

#[test]
fn a_failed_report_starts_from_nothing() {
    let report = RunReport::failed(MacroId::Spire, "no adapter");
    assert_eq!(report.outcome, Outcome::Failed { detail: "no adapter".to_owned() });
    assert_eq!((report.steps_done, report.steps_total, report.unconfirmed), (0, 0, 0));
}
