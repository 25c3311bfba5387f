use std::collections::HashSet;

use oh_my_macro::engine::Outcome;
use oh_my_macro::frame::{Frame, Point, Rgb};
use oh_my_macro::vacant_colony::{
    candidates, construction_poll_ms, fresh_green, possibly_free, preview_settle_ms, probe_rect,
    safe_footprint, same_view, site_changed, unreserved, VacantColonyReport, PITCH,
};

const TERRAIN: Rgb = Rgb { r: 30, g: 30, b: 30 };
const MOVED_TERRAIN: Rgb = Rgb { r: 90, g: 90, b: 90 };
const PREVIEW_GREEN: Rgb = Rgb { r: 30, g: 180, b: 30 };
const PREVIEW_RED: Rgb = Rgb { r: 200, g: 30, b: 30 };
const TWO: [Point; 2] = [Point { x: 900, y: 400 }, Point { x: 1044, y: 400 }];

fn paint_preview(frame: &mut Frame, center: Point, green: bool, footprint_px: i32) {
    let color = if green { PREVIEW_GREEN } else { PREVIEW_RED };
    let half = footprint_px / 2;
    for y in (center.y - half)..(center.y + half) {
        for x in (center.x - half)..(center.x + half) {
            frame.set_pixel(x, y, color);
        }
    }
}

#[test]
fn candidates_are_unique_bounded_safe_and_read_from_the_lower_left() {
    let points = candidates();
    assert!(points.len() < 250 && points.len() > 100);
    assert!(points.iter().all(|point| safe_footprint(*point)));
    let unique: HashSet<(i32, i32)> = points.iter().map(|p| (p.x, p.y)).collect();
    assert_eq!(unique.len(), points.len(), "no candidate twice");
    for pair in points.windows(2) {
        let (a, b) = (pair[0], pair[1]);
        assert!(
            b.y < a.y || (b.y == a.y && b.x > a.x),
            "reading order must go left to right, then up: {a:?} -> {b:?}"
        );
    }
    let (first, second) = (points[0], points[1]);
    assert_eq!(second.y, first.y);
    assert!(second.x > first.x);
    let next_row = points.iter().find(|point| point.y < first.y).expect("a row above the first");
    assert!(next_row.y < first.y);

    let mut packed = Vec::new();
    for point in &points {
        if unreserved(*point, &packed) {
            packed.push(*point);
        }
    }
    assert!(packed.len() >= 12);
    assert!(!safe_footprint(Point::new(200, 650)));
    assert!(!safe_footprint(Point::new(20, 300)));
    assert!(!safe_footprint(Point::new(1500, 100)));
    assert!(!unreserved(Point::new(500, 500), &[Point::new(600, 600)]));
}

#[test]
fn requires_fresh_green_in_all_quadrants_and_no_partial_red() {
    let before = Frame::blank(1920, 1080);
    let mut green = before.clone();
    paint_preview(&mut green, TWO[0], true, PITCH);
    let center = fresh_green(&before, &green, TWO[0], &[]).expect("fresh green");
    assert_eq!(fresh_green(&green, &green, TWO[0], &[]), None, "static terrain");
    assert_eq!(
        fresh_green(&before, &green, TWO[0].offset(72, 0), &[]),
        None,
        "stale off-target frame"
    );
    assert_eq!(fresh_green(&before, &green, TWO[0], &[center]), None, "reserved footprint");
    for y in 360..380 {
        for x in 860..880 {
            green.set_pixel(x, y, PREVIEW_RED);
        }
    }
    assert_eq!(fresh_green(&before, &green, TWO[0], &[]), None, "partial blocked tile");
}

fn probe(terrain: Rgb, origin: Point) -> Frame {
    let mut frame = Frame::new(480, 480, origin, vec![0; 480 * 480 * 4]).expect("probe frame");
    for y in (0..480).step_by(4) {
        for x in (0..480).step_by(4) {
            frame.set_pixel(x, y, terrain);
        }
    }
    frame
}

#[test]
fn scene_changes_are_refused_but_animation_near_the_preview_is_ignored() {
    let origin = Point::new(760, 160);
    let center = origin.offset(240, 240);
    let same = probe(TERRAIN, origin);
    assert!(same_view(&same, &same, &[center]), "an unchanged scene passes");

    let moved = probe(MOVED_TERRAIN, origin);
    assert!(!same_view(&same, &moved, &[center]), "a camera move must be seen");

    assert!(!same_view(&same, &probe(TERRAIN, origin.offset(24, 0)), &[center]));
    assert!(!same_view(&same, &Frame::blank(480, 240), &[center]));

    let mut local_change = probe(TERRAIN, origin);
    for y in 0..240 {
        for x in 0..240 {
            local_change.set_pixel(x, y, MOVED_TERRAIN);
        }
    }
    let skipped = origin.offset(120, 120);
    assert!(!same_view(&same, &local_change, &[]), "not skipped: noticed");
    assert!(
        same_view(&same, &local_change, &[skipped]),
        "the pixels our own overlay covers must be ignored"
    );
}

#[test]
fn same_view_ignores_the_hud_and_minimap_but_sees_world_changes() {
    let world = |hud: Rgb| {
        let mut frame = Frame::blank(1920, 1080);
        for y in (0..1080).step_by(4) {
            for x in (0..1920).step_by(4) {
                frame.set_pixel(x, y, TERRAIN);
            }
        }
        for y in (700..1080).step_by(4) {
            for x in (0..520).step_by(4) {
                frame.set_pixel(x, y, hud);
            }
        }
        for y in (880..1080).step_by(4) {
            for x in (600..1160).step_by(4) {
                frame.set_pixel(x, y, hud);
            }
        }
        frame
    };
    let before = world(TERRAIN);
    let after = world(MOVED_TERRAIN);
    assert!(same_view(&before, &after, &[]), "HUD and minimap changes are not camera moves");

    let mut moved_world = before.clone();
    for y in (100..600).step_by(4) {
        for x in (100..1800).step_by(4) {
            moved_world.set_pixel(x, y, MOVED_TERRAIN);
        }
    }
    assert!(!same_view(&before, &moved_world, &[]), "a world change must be seen");
}

#[test]
fn the_prefilter_only_skips_points_certainly_inside_a_footprint() {
    let built = [Point::new(900, 400)];
    assert!(!possibly_free(Point::new(900 + 71, 400), &built));
    assert!(possibly_free(Point::new(900 + 72, 400), &built));
    assert!(!unreserved(Point::new(900 + 143, 400), &built));
    assert!(unreserved(Point::new(900 + 144, 400), &built));
}

#[test]
fn a_probe_reads_a_clipped_square_around_the_point() {
    let rect = probe_rect(Point::new(100, 1000));
    assert_eq!((rect.x, rect.y, rect.w, rect.h), (0, 760, 340, 320));
    let rect = probe_rect(Point::new(900, 400));
    assert_eq!((rect.x, rect.y, rect.w, rect.h), (660, 160, 480, 480));
}

#[test]
fn the_pauses_follow_the_gap_within_their_bounds() {
    assert_eq!(preview_settle_ms(5), 16);
    assert_eq!(preview_settle_ms(20), 20);
    assert_eq!(preview_settle_ms(90), 32);
    assert_eq!(construction_poll_ms(20), 100);
    assert_eq!(construction_poll_ms(250), 250);
}

#[test]
fn a_failed_search_report_starts_from_nothing() {
    let report = VacantColonyReport::failed("no adapter".to_owned());
    assert_eq!(report.outcome, Outcome::Failed { detail: "no adapter".to_owned() });
    assert!(report.orders.is_empty() && report.starts.is_empty());
    assert_eq!((report.detected, report.probes), (0, 0));
}

#[test]
fn a_new_footprint_counts_as_site_evidence_but_a_small_change_does_not() {
    let before = Frame::blank(1920, 1080);
    let center = Point::new(900, 400);
    assert!(!site_changed(&before, &before, center), "an unchanged site is no evidence");

    let mut built = before.clone();
    paint_preview(&mut built, center, true, PITCH);
    assert!(site_changed(&before, &built, center));

    // Only a corner of the square changed: 16 of the 576 samples.
    let mut corner = before.clone();
    for y in (center.y - 72)..(center.y - 48) {
        for x in (center.x - 72)..(center.x - 48) {
            corner.set_pixel(x, y, MOVED_TERRAIN);
        }
    }
    assert!(!site_changed(&before, &corner, center));

    // A site the probe capture does not cover cannot be judged.
    let probe_before = probe(TERRAIN, Point::new(660, 160));
    let probe_after = probe(MOVED_TERRAIN, Point::new(660, 160));
    assert!(site_changed(&probe_before, &probe_after, center));
    assert!(!site_changed(&probe_before, &probe_after, Point::new(100, 100)));
}
