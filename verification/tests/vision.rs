use oh_my_macro::frame::{Frame, Point, Rgb};
use oh_my_macro::vision::{
    detect_placement, detect_selection, read_slots, slot_center, Placement, RejectReason,
    SelectionRead, CLIENT_HEIGHT, CLIENT_WIDTH, DRONE_WIREFRAME_MASK, FOOTPRINT, MAX_DRONES,
    SINGLE_DRONE_PORTRAIT_MASK, SPIRE_FOOTPRINT,
};

const FRAME_BLUE: Rgb = Rgb { r: 12, g: 73, b: 206 };
const SLOT_BG: Rgb = Rgb { r: 0, g: 16, b: 51 };
const DRONE_BODY: Rgb = Rgb { r: 200, g: 24, b: 24 };
const NON_DRONE_BODY: Rgb = Rgb { r: 40, g: 24, b: 120 };
const PREVIEW_GREEN: Rgb = Rgb { r: 30, g: 180, b: 30 };
const PREVIEW_RED: Rgb = Rgb { r: 200, g: 30, b: 30 };

fn paint_mask(frame: &mut Frame, center: Point, mask: [&str; 16], color: Rgb) {
    for (gy, row) in mask.iter().enumerate() {
        for (gx, cell) in row.chars().enumerate() {
            if cell != '#' {
                continue;
            }
            let left = center.x - 32 + gx as i32 * 4;
            let top = center.y - 32 + gy as i32 * 4;
            for dy in 0..4 {
                for dx in 0..4 {
                    frame.set_pixel(left + dx, top + dy, color);
                }
            }
        }
    }
}

fn paint_slot(frame: &mut Frame, slot: u8, drone: bool) {
    let center = slot_center(slot);
    for y in (center.y - 38)..=(center.y + 38) {
        for x in (center.x - 37)..=(center.x + 37) {
            let on_frame = (x - center.x).abs() >= 37 - 4 || (y - center.y).abs() >= 38 - 4;
            frame.set_pixel(x, y, if on_frame { FRAME_BLUE } else { SLOT_BG });
        }
    }
    if drone {
        paint_mask(frame, center, DRONE_WIREFRAME_MASK, DRONE_BODY);
    } else {
        for dy in -22..=22 {
            for dx in -22..=22 {
                if dx * dx / 4 + dy * dy / 4 <= 100 {
                    frame.set_pixel(center.x + dx, center.y + dy, NON_DRONE_BODY);
                }
            }
        }
    }
}

fn paint_single(frame: &mut Frame, drone: bool) {
    let color = if drone { DRONE_BODY } else { NON_DRONE_BODY };
    paint_mask(frame, Point::new(696, 950), SINGLE_DRONE_PORTRAIT_MASK, color);
}

fn paint_preview(frame: &mut Frame, center: Point, green: bool, footprint_px: i32) {
    let color = if green { PREVIEW_GREEN } else { PREVIEW_RED };
    let half = footprint_px / 2;
    for y in (center.y - half)..(center.y + half) {
        for x in (center.x - half)..(center.x + half) {
            frame.set_pixel(x, y, color);
        }
    }
}

#[test]
fn embedded_masks_are_square() {
    for row in DRONE_WIREFRAME_MASK {
        assert_eq!(row.chars().count(), 16, "{row}");
    }
    for row in SINGLE_DRONE_PORTRAIT_MASK {
        assert_eq!(row.chars().count(), 16, "{row}");
    }
}

#[test]
fn column_major_slot_centres_match_the_hud() {
    assert_eq!(slot_center(0), Point::new(653, 930));
    assert_eq!(slot_center(1), Point::new(653, 1013));
    assert_eq!(slot_center(2), Point::new(734, 930));
    assert_eq!(slot_center(11), Point::new(1058, 1013));
}

#[test]
fn synthetic_six_to_twelve_drones_are_counted() {
    for count in 6..=MAX_DRONES {
        let mut frame = Frame::blank(CLIENT_WIDTH, CLIENT_HEIGHT);
        for slot in 0..count {
            paint_slot(&mut frame, slot, true);
        }
        assert_eq!(detect_selection(&frame), SelectionRead::Drones { count }, "count {count}");
    }
}

#[test]
fn synthetic_two_drones_are_counted() {
    let mut frame = Frame::blank(CLIENT_WIDTH, CLIENT_HEIGHT);
    paint_slot(&mut frame, 0, true);
    paint_slot(&mut frame, 1, true);
    assert_eq!(detect_selection(&frame), SelectionRead::Drones { count: 2 });
    let slots = read_slots(&frame);
    assert_eq!(slots.len(), 12);
    assert!(slots[0].occupied && slots[0].drone);
    assert!(!slots[2].occupied && !slots[2].drone);
}

#[test]
fn a_mixed_selection_is_rejected() {
    let mut frame = Frame::blank(CLIENT_WIDTH, CLIENT_HEIGHT);
    paint_slot(&mut frame, 0, true);
    paint_slot(&mut frame, 1, false);
    assert_eq!(
        detect_selection(&frame),
        SelectionRead::Rejected(RejectReason::OccupiedNonDrone { slot: 1 })
    );
}

#[test]
fn a_lone_wireframe_is_not_a_single_drone() {
    let mut frame = Frame::blank(CLIENT_WIDTH, CLIENT_HEIGHT);
    paint_slot(&mut frame, 0, true);
    assert_eq!(detect_selection(&frame), SelectionRead::Rejected(RejectReason::SingleWireframe));
}

#[test]
fn a_single_drone_portrait_is_recognized_and_another_unit_is_not() {
    let mut frame = Frame::blank(CLIENT_WIDTH, CLIENT_HEIGHT);
    paint_single(&mut frame, true);
    assert_eq!(detect_selection(&frame), SelectionRead::SingleDrone);
    let mut other = Frame::blank(CLIENT_WIDTH, CLIENT_HEIGHT);
    paint_single(&mut other, false);
    assert_eq!(detect_selection(&other), SelectionRead::Rejected(RejectReason::NoDroneSelection));
}

#[test]
fn an_empty_or_black_capture_is_rejected() {
    assert_eq!(
        detect_selection(&Frame::blank(CLIENT_WIDTH, CLIENT_HEIGHT)),
        SelectionRead::Rejected(RejectReason::BlankCapture)
    );
}

#[test]
fn an_unsupported_profile_is_rejected() {
    assert_eq!(
        detect_selection(&Frame::blank(1280, 720)),
        SelectionRead::Rejected(RejectReason::UnsupportedProfile)
    );
}

#[test]
fn a_placement_preview_is_matched_against_the_selected_footprint() {
    let target = Point::new(600, 400);
    let mut spire = Frame::blank(CLIENT_WIDTH, CLIENT_HEIGHT);
    paint_preview(&mut spire, target, true, SPIRE_FOOTPRINT);
    assert!(matches!(detect_placement(&spire, target, SPIRE_FOOTPRINT), Placement::Valid { .. }));
    assert!(!matches!(detect_placement(&spire, target, FOOTPRINT), Placement::Valid { .. }));

    let mut colony = Frame::blank(CLIENT_WIDTH, CLIENT_HEIGHT);
    paint_preview(&mut colony, target, true, FOOTPRINT);
    assert!(matches!(detect_placement(&colony, target, FOOTPRINT), Placement::Valid { .. }));
    assert!(!matches!(detect_placement(&colony, target, SPIRE_FOOTPRINT), Placement::Valid { .. }));
}

#[test]
fn a_snapped_preview_is_still_found_for_a_large_footprint() {
    let target = Point::new(700, 430);
    let snapped = Point::new(700 - 40, 430 + 30);
    let mut frame = Frame::blank(CLIENT_WIDTH, CLIENT_HEIGHT);
    paint_preview(&mut frame, snapped, true, SPIRE_FOOTPRINT);
    match detect_placement(&frame, target, SPIRE_FOOTPRINT) {
        Placement::Valid { center } => assert!(
            (center.x - snapped.x).abs() <= 2 && (center.y - snapped.y).abs() <= 2,
            "got {center:?}, expected {snapped:?}"
        ),
        other => panic!("expected the snapped Spire preview, got {other:?}"),
    }
}

#[test]
fn a_red_preview_is_reported_as_invalid() {
    let target = Point::new(320, 340);
    let mut frame = Frame::blank(CLIENT_WIDTH, CLIENT_HEIGHT);
    paint_preview(&mut frame, target, false, FOOTPRINT);
    assert!(matches!(detect_placement(&frame, target, FOOTPRINT), Placement::Invalid { .. }));
}

#[test]
fn a_green_preview_clears_after_placement() {
    let target = Point::new(320, 340);
    let mut frame = Frame::blank(CLIENT_WIDTH, CLIENT_HEIGHT);
    paint_preview(&mut frame, target, true, FOOTPRINT);
    assert!(matches!(detect_placement(&frame, target, FOOTPRINT), Placement::Valid { .. }));
    let cleared = Frame::blank(CLIENT_WIDTH, CLIENT_HEIGHT);
    assert_eq!(detect_placement(&cleared, target, FOOTPRINT), Placement::Absent);
}

#[test]
fn both_colours_are_ambiguous_and_green_terrain_is_no_preview() {
    let target = Point::new(600, 400);
    let mut both = Frame::blank(CLIENT_WIDTH, CLIENT_HEIGHT);
    paint_preview(&mut both, Point::new(504, 400), true, FOOTPRINT);
    paint_preview(&mut both, Point::new(696, 400), false, FOOTPRINT);
    assert_eq!(detect_placement(&both, target, FOOTPRINT), Placement::Ambiguous);

    let mut field = Frame::blank(CLIENT_WIDTH, CLIENT_HEIGHT);
    paint_preview(&mut field, target, true, 400);
    assert_eq!(detect_placement(&field, target, FOOTPRINT), Placement::Absent);
}

#[test]
fn reject_reasons_have_an_english_detail() {
    assert_eq!(
        RejectReason::UnsupportedProfile.detail(),
        "only the 1920x1080 Remastered HUD is supported; no input was sent"
    );
    assert!(RejectReason::OccupiedNonDrone { slot: 3 }.detail().contains("not drones"));
}
