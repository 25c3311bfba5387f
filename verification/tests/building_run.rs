use std::sync::atomic::{AtomicBool, Ordering};

use oh_my_macro::building_action::{
    BuildingActionOutcome, BuildingActionReport, BuildingScanError, BuildingScanReport,
    BuildingTargetDisposition,
};
use oh_my_macro::building_run::{
    capture_problem, BuildingAction, BuildingEvent, BuildingPhase, BuildingRun, Detection,
    ScanAction, ScanEvent, ScanRun,
};
use oh_my_macro::frame::{Frame, Point, Rect, Rgb};
use oh_my_macro::input::InputError;
use oh_my_macro::macros::{Key, Primitive, Timing};

/// A scripted desktop: what the game shows, and what the run did to it.
struct Fake {
    screen: Option<Frame>,
    verdicts: Vec<bool>,
    events: Vec<String>,
    full_captures: usize,
    roi_captures: usize,
    gates: usize,
    refuse_gate_at: Option<(usize, InputError)>,
    cancel_at_gate: Option<usize>,
    release_error: Option<InputError>,
    cancel_after_capture: bool,
    capture_error: Option<InputError>,
    release_all_calls: usize,
}

fn usable_screen() -> Frame {
    let mut frame = Frame::blank(1920, 1080);
    frame.set_pixel(0, 0, Rgb::new(200, 200, 200));
    frame
}

impl Fake {
    fn new(verdicts: Vec<bool>) -> Self {
        Fake {
            screen: Some(usable_screen()),
            verdicts,
            events: Vec::new(),
            full_captures: 0,
            roi_captures: 0,
            gates: 0,
            refuse_gate_at: None,
            cancel_at_gate: None,
            release_error: None,
            cancel_after_capture: false,
            capture_error: None,
            release_all_calls: 0,
        }
    }
}

fn two_spires() -> Vec<Detection> {
    vec![
        Detection { center: Point::new(500, 400), score_permille: 910 },
        Detection { center: Point::new(900, 300), score_permille: 870 },
    ]
}

fn timing() -> Timing {
    Timing::from_millis(1, 1)
}

/// Drives one building run against the fake; the detector finds `found`.
fn drive(fake: &mut Fake, found: Vec<Detection>, profile_ok: bool, before: Option<Key>, cancel: &AtomicBool) -> BuildingActionReport {
    let roi = Rect::new(660, 900, 72, 72);
    let mut run = BuildingRun::new(timing(), "Spire", roi, profile_ok, before);
    assert_eq!(run.phase(), BuildingPhase::Idle);
    let mut event = BuildingEvent::Start;
    let mut found = Some(found);
    loop {
        assert!(run.expects(&event), "unexpected answer {event:?}");
        event = match run.step(event) {
            BuildingAction::CheckCancel => BuildingEvent::CancelChecked { cancelled: cancel.load(Ordering::SeqCst) },
            BuildingAction::SafetyCheck => {
                fake.gates += 1;
                if fake.cancel_at_gate == Some(fake.gates) {
                    cancel.store(true, Ordering::SeqCst);
                }
                match &fake.refuse_gate_at {
                    Some((at, error)) if *at == fake.gates => BuildingEvent::GateChecked(Err(error.clone())),
                    _ => BuildingEvent::GateChecked(Ok(())),
                }
            }
            BuildingAction::Send(primitive) => {
                fake.events.push(match primitive {
                    Primitive::KeyDown(key) => format!("down({})", key.name()),
                    Primitive::KeyUp(key) => format!("up({})", key.name()),
                    Primitive::MouseLeftDown => "mouse-down".to_owned(),
                    Primitive::MouseLeftUp => "mouse-up".to_owned(),
                });
                BuildingEvent::Sent(Ok(()))
            }
            BuildingAction::Wait { .. } => BuildingEvent::Waited { cancelled: cancel.load(Ordering::SeqCst) },
            BuildingAction::MoveCursor(point) => {
                fake.events.push(format!("move({},{})", point.x, point.y));
                BuildingEvent::Sent(Ok(()))
            }
            BuildingAction::Capture => {
                fake.full_captures += 1;
                if fake.cancel_after_capture {
                    cancel.store(true, Ordering::SeqCst);
                }
                match fake.screen.take() {
                    Some(frame) => BuildingEvent::Captured { frame: Ok(frame), capture_ms: 7 },
                    None => BuildingEvent::Captured {
                        frame: Err(InputError::Unsafe("capture refused".to_owned())),
                        capture_ms: 0,
                    },
                }
            }
            BuildingAction::Detect => {
                assert!(run.frame().is_some(), "the search runs on the one capture");
                BuildingEvent::Detected { detections: found.take().unwrap_or_default(), detect_ms: 11 }
            }
            BuildingAction::CheckPortrait(rect) => {
                assert_eq!(rect, roi);
                fake.roi_captures += 1;
                let verdict = if fake.verdicts.is_empty() { false } else { fake.verdicts.remove(0) };
                BuildingEvent::RoiChecked(Ok(verdict))
            }
            BuildingAction::ReleaseAll => match {
                fake.release_all_calls += 1;
                fake.release_error.take()
            } {
                Some(error) => BuildingEvent::Sent(Err(error)),
                None => BuildingEvent::Sent(Ok(())),
            },
            BuildingAction::Finish => {
                assert_eq!(run.phase(), BuildingPhase::Done);
                return run.report();
            }
        };
    }
}

#[test]
fn a_verified_target_gets_one_a_and_an_unverified_one_is_skipped() {
    let mut fake = Fake::new(vec![true, false, false, false]);
    let cancel = AtomicBool::new(false);
    let report = drive(&mut fake, two_spires(), true, None, &cancel);
    assert_eq!(report.outcome, BuildingActionOutcome::Completed);
    assert_eq!(report.label, "Spire");
    assert_eq!(report.detections, 2);
    assert_eq!(report.acted, 1);
    assert_eq!(report.skipped, 1);
    assert_eq!(report.full_captures, 1);
    assert_eq!(report.roi_captures, 4, "one read for the first, three for the second");
    assert_eq!(report.capture_ms, 7);
    assert_eq!(report.detect_ms, 11);
    assert_eq!(report.targets.len(), 2);
    assert_eq!(report.targets[0].center, Point::new(500, 400));
    assert_eq!(report.targets[0].score_permille, 910);
    assert_eq!(report.targets[0].disposition, BuildingTargetDisposition::Acted);
    assert_eq!(
        report.targets[1].disposition,
        BuildingTargetDisposition::Skipped {
            reason: "selection panel did not show the Spire portrait; A withheld".to_owned()
        }
    );
    assert_eq!(
        fake.events.join(" "),
        "move(500,400) mouse-down mouse-up down(A) up(A) move(900,300) mouse-down mouse-up"
    );
    assert_eq!(fake.full_captures, 1);
}

#[test]
fn every_move_and_event_is_gated() {
    let mut fake = Fake::new(vec![true, true]);
    let cancel = AtomicBool::new(false);
    let report = drive(&mut fake, two_spires(), true, None, &cancel);
    assert_eq!(report.acted, 2);
    // Per target: move, down, up, a panel read, A down, A up.
    assert_eq!(fake.gates, 2 * 6);
}

#[test]
fn nothing_found_completes_without_input() {
    let mut fake = Fake::new(vec![]);
    let cancel = AtomicBool::new(false);
    let report = drive(&mut fake, Vec::new(), true, None, &cancel);
    assert_eq!(report.outcome, BuildingActionOutcome::Completed);
    assert_eq!(report.detections, 0);
    assert!(fake.events.is_empty());
    assert_eq!(report.summary(), "Spire action: 0 found, 0 command(s) sent, 0 skipped, 1 full capture(s), 0 ROI capture(s), capture 7 ms, detect 11 ms");
}

#[test]
fn a_cancelled_run_captures_nothing() {
    let mut fake = Fake::new(vec![]);
    let cancel = AtomicBool::new(true);
    let report = drive(&mut fake, two_spires(), true, None, &cancel);
    assert_eq!(report.outcome, BuildingActionOutcome::Cancelled);
    assert_eq!(fake.full_captures, 0);
    assert!(fake.events.is_empty());
}

#[test]
fn an_invalid_profile_stops_before_any_input() {
    let mut fake = Fake::new(vec![]);
    let cancel = AtomicBool::new(false);
    let report = drive(&mut fake, two_spires(), false, None, &cancel);
    assert_eq!(
        report.outcome,
        BuildingActionOutcome::Aborted {
            detail: "invalid building calibration profile; no input was sent".to_owned()
        }
    );
    assert_eq!(fake.full_captures, 0);
}

#[test]
fn a_blank_capture_is_refused_not_reported_as_nothing_found() {
    let mut fake = Fake::new(vec![]);
    fake.screen = Some(Frame::blank(1920, 1080));
    let cancel = AtomicBool::new(false);
    let report = drive(&mut fake, two_spires(), true, None, &cancel);
    assert_eq!(
        report.outcome,
        BuildingActionOutcome::Aborted {
            detail: "the capture is blank; the game window is minimized or not rendering".to_owned()
        }
    );
    assert_eq!(report.full_captures, 1);
    assert!(fake.events.is_empty());
}

#[test]
fn an_unsupported_client_is_refused_with_its_size() {
    let mut frame = Frame::blank(1280, 720);
    frame.set_pixel(0, 0, Rgb::new(200, 200, 200));
    assert_eq!(
        capture_problem(&frame),
        Some("unsupported client size 1280x720 at (0, 0); only 1920x1080 at (0, 0) is supported".to_owned())
    );
    assert_eq!(capture_problem(&usable_screen()), None);
    let mut fake = Fake::new(vec![]);
    fake.screen = Some(frame);
    let cancel = AtomicBool::new(false);
    let report = drive(&mut fake, two_spires(), true, None, &cancel);
    assert!(matches!(report.outcome, BuildingActionOutcome::Aborted { .. }));
    assert!(fake.events.is_empty());
}

#[test]
fn the_recall_key_is_tapped_before_the_one_capture() {
    let mut fake = Fake::new(vec![true, true]);
    let cancel = AtomicBool::new(false);
    let report = drive(&mut fake, two_spires(), true, Some(Key::F2), &cancel);
    assert_eq!(report.outcome, BuildingActionOutcome::Completed);
    assert!(fake.events.join(" ").starts_with("down(F2) up(F2) move(500,400)"));
}

#[test]
fn a_refused_gate_aborts_and_a_failed_event_fails() {
    let mut fake = Fake::new(vec![true]);
    fake.refuse_gate_at = Some((2, InputError::Unsafe("foreground changed".to_owned())));
    let cancel = AtomicBool::new(false);
    let report = drive(&mut fake, two_spires(), true, None, &cancel);
    assert_eq!(
        report.outcome,
        BuildingActionOutcome::Aborted { detail: "safety check refused: foreground changed".to_owned() }
    );
    assert_eq!(fake.events.join(" "), "move(500,400)");

    let mut fake = Fake::new(vec![true]);
    fake.refuse_gate_at = Some((1, InputError::Injection("SendInput".to_owned())));
    let report = drive(&mut fake, two_spires(), true, None, &cancel);
    assert_eq!(
        report.outcome,
        BuildingActionOutcome::Failed { detail: "input injection failed: SendInput".to_owned() }
    );
    assert!(fake.events.is_empty());
}

#[test]
fn a_cancellation_during_the_gate_stops_before_the_next_event() {
    let mut fake = Fake::new(vec![true, true]);
    fake.cancel_at_gate = Some(3);
    let cancel = AtomicBool::new(false);
    let report = drive(&mut fake, two_spires(), true, None, &cancel);
    assert_eq!(report.outcome, BuildingActionOutcome::Cancelled);
    assert_eq!(fake.events.join(" "), "move(500,400) mouse-down");
}

#[test]
fn a_failed_release_turns_a_completed_action_into_a_failure() {
    let mut fake = Fake::new(vec![true, true]);
    fake.release_error = Some(InputError::Injection("stuck".to_owned()));
    let cancel = AtomicBool::new(false);
    let report = drive(&mut fake, two_spires(), true, None, &cancel);
    assert_eq!(
        report.outcome,
        BuildingActionOutcome::Failed {
            detail: "could not release injected input: input injection failed: stuck".to_owned()
        }
    );
    assert_eq!(report.acted, 2);
}

#[test]
fn a_failed_capture_is_a_safety_stop() {
    let mut fake = Fake::new(vec![]);
    fake.screen = None;
    let cancel = AtomicBool::new(false);
    let report = drive(&mut fake, two_spires(), true, None, &cancel);
    assert_eq!(
        report.outcome,
        BuildingActionOutcome::Aborted { detail: "safety check refused: capture refused".to_owned() }
    );
}

/// Drives one scan-only pass against the fake; the detector finds `found`.
fn scan(fake: &mut Fake, found: Vec<Detection>, profile_ok: bool, cancel: &AtomicBool) -> Result<BuildingScanReport, BuildingScanError> {
    let mut run = ScanRun::new(profile_ok);
    let mut event = ScanEvent::Start;
    let mut found = Some(found);
    loop {
        assert!(run.expects(&event), "unexpected answer {event:?}");
        event = match run.step(event) {
            ScanAction::CheckCancel => ScanEvent::CancelChecked { cancelled: cancel.load(Ordering::SeqCst) },
            ScanAction::Capture => {
                fake.full_captures += 1;
                let frame = match (&fake.capture_error, &fake.screen) {
                    (Some(error), _) => Err(error.clone()),
                    (None, Some(frame)) => Ok(frame.clone()),
                    (None, None) => Err(InputError::Unsafe("capture refused".to_owned())),
                };
                if fake.cancel_after_capture {
                    cancel.store(true, Ordering::SeqCst);
                }
                ScanEvent::Captured { frame, capture_ms: 7 }
            }
            ScanAction::Detect => {
                assert!(run.frame().is_some(), "the search runs on the one capture");
                ScanEvent::Detected { detections: found.take().unwrap_or_default(), detect_ms: 11 }
            }
            ScanAction::Finish => return run.result(),
        };
    }
}

#[test]
fn cancellation_during_capture_is_reported_without_detection_or_input() {
    let mut fake = Fake::new(Vec::new());
    fake.cancel_after_capture = true;
    let cancel = AtomicBool::new(false);
    assert!(matches!(scan(&mut fake, two_spires(), true, &cancel), Err(BuildingScanError::Cancelled)));
    assert_eq!(fake.full_captures, 1);
    assert!(fake.events.is_empty());

    cancel.store(false, Ordering::SeqCst);
    let report = drive(&mut fake, two_spires(), true, None, &cancel);
    assert_eq!(report.outcome, BuildingActionOutcome::Cancelled);
    assert_eq!(report.detections, 0);
    assert!(fake.events.is_empty());
    assert_eq!(fake.release_all_calls, 1);
}

#[test]
fn a_scan_only_pass_cancelled_before_the_capture_scans_nothing() {
    let mut fake = Fake::new(Vec::new());
    let cancel = AtomicBool::new(true);
    assert!(matches!(scan(&mut fake, two_spires(), true, &cancel), Err(BuildingScanError::Cancelled)));
    assert_eq!(fake.full_captures, 0, "nothing may be captured after F8");
    assert_eq!(fake.roi_captures, 0);
    assert!(fake.events.is_empty());
}

#[test]
fn a_scan_only_pass_never_touches_the_cursor_or_the_safety_gate() {
    let mut fake = Fake::new(Vec::new());
    let cancel = AtomicBool::new(false);
    scan(&mut fake, two_spires(), true, &cancel).expect("scan");
    assert_eq!(fake.gates, 0, "no event means no gate call");
    assert_eq!(fake.full_captures, 1);
    assert!(!fake.events.iter().any(|event| event.starts_with("move")));
}

#[test]
fn a_blank_capture_is_not_reported_as_zero_spires() {
    let mut fake = Fake::new(Vec::new());
    fake.screen = Some(Frame::blank(1920, 1080));
    let cancel = AtomicBool::new(false);
    let error = scan(&mut fake, Vec::new(), true, &cancel).expect_err("blank frame must not be a result");
    assert!(matches!(error, BuildingScanError::Unusable { .. }), "{error:?}");
    assert!(error.message().contains("blank"), "the reason must be visible: {error:?}");
    assert!(fake.events.is_empty());
}

#[test]
fn an_unsupported_client_size_is_refused_instead_of_guessed() {
    let mut fake = Fake::new(Vec::new());
    let mut smaller = Frame::blank(1280, 720);
    smaller.set_pixel(0, 0, Rgb::new(200, 200, 200));
    fake.screen = Some(smaller);
    let cancel = AtomicBool::new(false);
    let error = scan(&mut fake, Vec::new(), true, &cancel).expect_err("only 1920x1080 is supported");
    match error {
        BuildingScanError::Unusable { detail } => {
            assert!(detail.contains("1280x720"), "{detail}");
            assert!(detail.contains("1920x1080"), "{detail}");
        }
        other => panic!("expected an unusable-frame error, got {other:?}"),
    }
    assert!(fake.events.is_empty());
}

#[test]
fn a_gate_refusal_is_reported_as_an_adapter_refusal() {
    let mut fake = Fake::new(Vec::new());
    fake.capture_error = Some(InputError::Unsafe("foreground window belongs to 'notepad.exe'".to_owned()));
    let cancel = AtomicBool::new(false);
    let error = scan(&mut fake, two_spires(), true, &cancel).expect_err("the capture was refused");
    match error {
        BuildingScanError::Adapter(InputError::Unsafe(detail)) => {
            assert!(detail.contains("notepad.exe"), "{detail}");
        }
        other => panic!("expected an adapter refusal, got {other:?}"),
    }
    assert!(fake.events.is_empty());
}

#[test]
fn a_supported_frame_without_crowns_truthfully_reports_zero() {
    let mut frame = Frame::blank(1920, 1080);
    for x in 0..64 {
        frame.set_pixel(x, 0, Rgb::new(255, 255, 255));
    }
    let mut fake = Fake::new(Vec::new());
    fake.screen = Some(frame);
    let cancel = AtomicBool::new(false);
    let report = scan(&mut fake, Vec::new(), true, &cancel).expect("a good frame is a result");
    assert_eq!(report.count, 0);
    assert_eq!(report.full_captures, 1);
    assert!(fake.events.is_empty());
}

#[test]
fn a_scan_reports_every_detection_centre_in_order() {
    let mut fake = Fake::new(Vec::new());
    let cancel = AtomicBool::new(false);
    let report = scan(&mut fake, two_spires(), true, &cancel).expect("scan");
    assert_eq!(report.count, 2);
    assert_eq!(report.centers, vec![Point::new(500, 400), Point::new(900, 300)]);
    assert_eq!(report.capture_ms, 7);
    assert_eq!(report.detect_ms, 11);
    assert_eq!(report.full_captures, 1);
}

#[test]
fn a_scan_with_an_unusable_profile_captures_nothing() {
    let mut fake = Fake::new(Vec::new());
    let cancel = AtomicBool::new(false);
    let error = scan(&mut fake, two_spires(), false, &cancel).expect_err("invalid profile");
    assert_eq!(
        error,
        BuildingScanError::Unusable { detail: "invalid building calibration profile".to_owned() }
    );
    assert_eq!(fake.full_captures, 0);
}
