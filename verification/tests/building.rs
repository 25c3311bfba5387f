use oh_my_macro::building_action::{BuildingActionOutcome, BuildingActionReport, BuildingScanError};
use oh_my_macro::building_vision::{luma, point_in_viewport, supported_client};
use oh_my_macro::frame::{Frame, Point, Rect};
use oh_my_macro::input::InputError;
use oh_my_macro::{spire_vision, stargate_vision};

#[test]
fn luma_is_the_rec_601_weighting() {
    assert_eq!(luma(0, 0, 0), 0);
    assert_eq!(luma(255, 255, 255), 255);
    assert_eq!(luma(100, 0, 0), 29);
    assert_eq!(luma(0, 100, 0), 58);
    assert_eq!(luma(0, 0, 100), 11);
}

#[test]
fn only_the_full_client_at_the_origin_is_supported() {
    assert!(supported_client(&Frame::blank(1920, 1080)));
    assert!(!supported_client(&Frame::blank(1280, 720)));
    let moved = Frame::new(1920, 1080, Point::new(5, 0), vec![0; 1920 * 1080 * 4]).unwrap();
    assert!(!supported_client(&moved));
    assert!(spire_vision::supported_profile(&Frame::blank(1920, 1080)));
    assert!(!stargate_vision::supported_profile(&moved));
}

#[test]
fn templates_sit_around_the_click_centre() {
    assert_eq!(spire_vision::template_rect(Point::new(500, 300)), Rect::new(452, 252, 96, 96));
    assert_eq!(stargate_vision::template_rect(Point::new(500, 300)), Rect::new(468, 268, 64, 64));
    assert_eq!(spire_vision::portrait_roi(), Rect::new(636, 874, 104, 140));
    assert_eq!(stargate_vision::portrait_roi(), Rect::new(608, 874, 160, 140));
    assert_eq!(spire_vision::safe_viewport(), Rect::new(24, 24, 1872, 746));
    assert!(point_in_viewport(Point::new(800, 400)));
    assert!(!point_in_viewport(Point::new(800, 1000)));
    assert!(!spire_vision::point_in_viewport(Point::new(5, 400)));
}

#[test]
fn an_action_summary_never_claims_a_building() {
    let mut report = BuildingActionReport::new(BuildingActionOutcome::Completed, "Spire");
    report.detections = 3;
    report.acted = 2;
    report.skipped = 1;
    report.full_captures = 1;
    report.roi_captures = 4;
    report.capture_ms = 28;
    report.detect_ms = 79;
    assert_eq!(
        report.summary(),
        "Spire action: 3 found, 2 command(s) sent, 1 skipped, 1 full capture(s), 4 ROI capture(s), capture 28 ms, detect 79 ms"
    );
    let failed = BuildingActionReport::failed("worker panicked", "Stargate");
    assert!(failed.summary().ends_with("(failed: worker panicked)"));
    assert!(!failed.outcome.is_success());
    assert!(BuildingActionOutcome::Completed.is_success());
}

#[test]
fn scan_errors_keep_their_english_reason() {
    assert_eq!(BuildingScanError::Cancelled.message(), "the scan was cancelled");
    assert_eq!(
        BuildingScanError::Adapter(InputError::Unsafe("notepad".to_owned())).message(),
        "safety check refused: notepad"
    );
}
