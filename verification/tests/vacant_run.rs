use std::collections::HashSet;
use std::sync::atomic::{AtomicBool, Ordering};
use std::sync::Arc;

use oh_my_macro::engine::Outcome;
use oh_my_macro::frame::{Frame, Point, Rect, Rgb};
use oh_my_macro::input::{DesktopAdapter, InputAdapter, InputError};
use oh_my_macro::macros::{Key, Primitive, Timing};
use oh_my_macro::vacant_colony::{candidates, safe_footprint, unreserved, VacantColonyReport};
use oh_my_macro::vacant_run::{
    budget_gate, Budgets, VacantAction, VacantEvent, VacantRun, CONSTRUCTION_CONFIRM_READS,
    MAX_PROBES, MAX_PROBES_PER_DRONE, NO_CONFIRM_GIVE_UP, RUN_BUDGET_MS, SEARCH_BUDGET_MS,
};
use oh_my_macro::vision::{slot_center, DRONE_WIREFRAME_MASK, SINGLE_DRONE_PORTRAIT_MASK};

const PITCH: i32 = 144;
const PARK: Point = Point { x: 960, y: 396 };
const FRAME_BLUE: Rgb = Rgb { r: 12, g: 73, b: 206 };
const SLOT_BG: Rgb = Rgb { r: 0, g: 16, b: 51 };
const DRONE_BODY: Rgb = Rgb { r: 200, g: 24, b: 24 };
const NON_DRONE_BODY: Rgb = Rgb { r: 40, g: 24, b: 120 };
const PREVIEW_GREEN: Rgb = Rgb { r: 30, g: 180, b: 30 };
const PREVIEW_RED: Rgb = Rgb { r: 200, g: 30, b: 30 };
const MORPH_BAR: Rgb = Rgb { r: 220, g: 200, b: 60 };
const SINGLE_PORTRAIT: Point = Point { x: 696, y: 950 };
/// Dim terrain so a bounded probe region is never a blank capture; painted on
/// a 4-pixel grid.
const TERRAIN: Rgb = Rgb { r: 30, g: 30, b: 30 };

fn paint_mask(frame: &mut Frame, center: Point, mask: [&str; 16], color: Rgb) {
    for (gy, row) in mask.iter().enumerate() {
        for (gx, cell) in row.chars().enumerate() {
            if cell != '#' {
                continue;
            }
            let left = center.x - 32 + gx as i32 * 4;
            let top = center.y - 32 + gy as i32 * 4;
            for dy in 0..4 {
                for dx in 0..4 {
                    frame.set_pixel(left + dx, top + dy, color);
                }
            }
        }
    }
}

/// One occupied group-panel slot, drone or non-drone.
fn paint_slot(frame: &mut Frame, slot: u8, drone: bool) {
    let center = slot_center(slot);
    for y in (center.y - 38)..=(center.y + 38) {
        for x in (center.x - 37)..=(center.x + 37) {
            let on_frame = (x - center.x).abs() >= 37 - 4 || (y - center.y).abs() >= 38 - 4;
            frame.set_pixel(x, y, if on_frame { FRAME_BLUE } else { SLOT_BG });
        }
    }
    if drone {
        paint_mask(frame, center, DRONE_WIREFRAME_MASK, DRONE_BODY);
    } else {
        for dy in -22..=22 {
            for dx in -22..=22 {
                if dx * dx / 4 + dy * dy / 4 <= 100 {
                    frame.set_pixel(center.x + dx, center.y + dy, NON_DRONE_BODY);
                }
            }
        }
    }
}

/// The single-unit information panel portrait.
fn paint_single(frame: &mut Frame, drone: bool) {
    let color = if drone { DRONE_BODY } else { NON_DRONE_BODY };
    paint_mask(frame, SINGLE_PORTRAIT, SINGLE_DRONE_PORTRAIT_MASK, color);
    if !drone {
        for dy in -34..=34 {
            for dx in -34..=34 {
                if dx * dx + dy * dy <= 34 * 34 {
                    frame.set_pixel(SINGLE_PORTRAIT.x + dx, SINGLE_PORTRAIT.y + dy, color);
                }
            }
        }
    }
}

/// The single-unit panel of a Colony that started to morph: its portrait and
/// a progress bar.
fn paint_morph_colony(frame: &mut Frame) {
    paint_single(frame, false);
    for y in 1000..1010 {
        for x in 780..900 {
            frame.set_pixel(x, y, MORPH_BAR);
        }
    }
}

/// A placement preview square centred on `center`.
fn paint_preview(frame: &mut Frame, center: Point, green: bool, footprint_px: i32) {
    let color = if green { PREVIEW_GREEN } else { PREVIEW_RED };
    let half = footprint_px / 2;
    for y in (center.y - half)..(center.y + half) {
        for x in (center.x - half)..(center.x + half) {
            frame.set_pixel(x, y, color);
        }
    }
}

/// What the fake HUD shows after a world order, while the ordered drone is
/// still the selected unit.
#[derive(Clone, Copy, Debug, Eq, PartialEq)]
enum AfterOrderPanel {
    /// The drone reached the site and the panel becomes a morphing Colony.
    MorphingColony,
    /// The panel keeps showing the ordered drone (traveling or never starting).
    StillDrone,
    /// A lone wireframe portrait: the group state changed, not a start.
    SingleWireframe,
    /// A two-drone group: a smaller control group, not a start.
    TwoDrones,
    /// Another single unit's panel, without the morph bar.
    OtherUnit,
}

/// One observed fake-side effect, so tests can prove the per-drone order of
/// "issue order" and "see the morph panel".
#[derive(Clone, Copy, Debug, Eq, PartialEq)]
enum Event {
    Order(Point),
    MorphPanel,
    DronePanel,
    UnconfirmedPanel,
}

/// Test desktop: drives the real HUD and preview detectors on painted
/// frames. The morph panel verdict is what this fake painted.
struct Desktop {
    cancel: Arc<AtomicBool>,
    selected: u8,
    saved: u8,
    cursor: Point,
    held: HashSet<Key>,
    mouse: bool,
    preview: bool,
    keys: Vec<Key>,
    orders: Vec<Point>,
    removed: usize,
    released: bool,
    captures: usize,
    cancel_capture: Option<usize>,
    lose_focus_capture: Option<usize>,
    unsafe_now: bool,
    fail_key: Option<Key>,
    fail_release: bool,
    cancel_on_click: bool,
    stuck_preview: bool,
    morphed: bool,
    capacity: usize,
    blocked: Vec<Point>,
    preview_missing: bool,
    move_before_click: bool,
    wrong_profile: bool,
    drone: bool,
    preview_offset: Point,
    panel: AfterOrderPanel,
    morph_delay: usize,
    panel_reads: usize,
    ordered_selected: bool,
    events: Vec<Event>,
    region_reads: usize,
    transient_red: Option<(Point, usize)>,
    /// Whether the latest client capture showed the morph panel.
    morph_shown: bool,
}

impl Desktop {
    fn new(count: u8) -> Self {
        Self {
            cancel: Arc::new(AtomicBool::new(false)),
            selected: count,
            saved: 0,
            cursor: PARK,
            held: HashSet::new(),
            mouse: false,
            preview: false,
            keys: Vec::new(),
            orders: Vec::new(),
            removed: 0,
            released: false,
            captures: 0,
            cancel_capture: None,
            lose_focus_capture: None,
            unsafe_now: false,
            fail_key: None,
            fail_release: false,
            cancel_on_click: false,
            stuck_preview: false,
            morphed: false,
            capacity: 12,
            blocked: Vec::new(),
            preview_missing: false,
            move_before_click: false,
            wrong_profile: false,
            drone: true,
            preview_offset: Point { x: 0, y: 0 },
            panel: AfterOrderPanel::MorphingColony,
            morph_delay: 0,
            panel_reads: 0,
            ordered_selected: false,
            events: Vec::new(),
            region_reads: 0,
            transient_red: None,
            morph_shown: false,
        }
    }

    /// Requests cancellation right after capture number `capture`.
    fn cancel_after_captures(mut self, capture: usize) -> Self {
        self.cancel_capture = Some(capture);
        self
    }

    /// What the fake HUD shows after a world order.
    fn after_order_panel(mut self, panel: AfterOrderPanel) -> Self {
        self.panel = panel;
        self
    }

    /// Full-client reads after an order before the morph panel appears.
    fn morph_after_reads(mut self, reads: usize) -> Self {
        self.morph_delay = reads;
        self
    }

    /// A unit that temporarily blocks one probe point: its preview is red
    /// until `reads` world captures have happened.
    fn blocked_until_reads(mut self, point: Point, reads: usize) -> Self {
        self.transient_red = Some((point, reads));
        self
    }

    /// Models the game snapping the 2x2 footprint to its tile grid.
    fn snapped_by(mut self, dx: i32, dy: i32) -> Self {
        self.preview_offset = Point { x: dx, y: dy };
        self
    }

    fn preview_center(&self) -> Point {
        Point { x: self.cursor.x + self.preview_offset.x, y: self.cursor.y + self.preview_offset.y }
    }

    fn transient_block(&self) -> bool {
        let Some((point, reads)) = self.transient_red else {
            return false;
        };
        self.cursor == point && self.region_reads < reads
    }

    fn begin_capture(&mut self) {
        self.captures += 1;
        if self.cancel_capture == Some(self.captures) {
            self.cancel.store(true, Ordering::SeqCst);
        }
        if self.lose_focus_capture == Some(self.captures) {
            self.unsafe_now = true;
        }
    }

    /// Terrain plus the overlay this fake currently shows.
    fn paint(&self, mut frame: Frame) -> Frame {
        let origin = frame.origin();
        for y in (0..frame.height() as i32).step_by(4) {
            for x in (0..frame.width() as i32).step_by(4) {
                frame.set_pixel(x, y, TERRAIN);
            }
        }
        if self.morphed {
            if let Some(center) = self.orders.last() {
                for y in center.y - 24..center.y + 24 {
                    for x in center.x - 24..center.x + 24 {
                        frame.set_pixel(x - origin.x, y - origin.y, Rgb { r: 130, g: 90, b: 70 });
                    }
                }
            }
        }
        if self.preview && !self.preview_missing {
            let center = self.preview_center();
            let local = Point { x: center.x - origin.x, y: center.y - origin.y };
            if (0..frame.width() as i32).contains(&local.x)
                && (0..frame.height() as i32).contains(&local.y)
            {
                let green = self.orders.len() < self.capacity
                    && !self.blocked.contains(&center)
                    && !self.transient_block();
                paint_preview(&mut frame, local, green, PITCH);
            }
        }
        frame
    }
}

impl InputAdapter for Desktop {
    fn key_down(&mut self, key: Key) -> Result<(), InputError> {
        assert!(!self.cancel.load(Ordering::SeqCst), "input after cancellation");
        if self.fail_key == Some(key) {
            return Err(InputError::Injection("test key failure".into()));
        }
        self.keys.push(key);
        if key == Key::F4 {
            assert!(!self.held.contains(&Key::Shift), "must recall, never replace, F4");
        }
        if key == Key::Nine {
            if self.held.contains(&Key::Control) {
                self.saved = self.selected;
            } else {
                self.selected = self.saved - u8::from(self.morphed && !self.orders.is_empty());
                self.ordered_selected = false;
            }
        }
        if key == Key::C {
            assert_eq!(self.selected, 1, "building needs one verified drone");
            assert_eq!(self.keys[self.keys.len() - 2], Key::B);
            self.preview = true;
        }
        if key == Key::Escape {
            self.preview = false;
        }
        self.held.insert(key);
        Ok(())
    }

    fn key_up(&mut self, key: Key) -> Result<(), InputError> {
        self.held.remove(&key);
        Ok(())
    }

    fn mouse_left_down(&mut self) -> Result<(), InputError> {
        assert!(!self.cancel.load(Ordering::SeqCst));
        self.mouse = true;
        if self.cursor.y > 850 {
            assert_eq!(self.cursor, slot_center(self.selected - 1));
            if self.held.contains(&Key::Shift) {
                self.selected -= 1;
                self.removed += 1;
            } else {
                self.selected = 1;
            }
            self.ordered_selected = false;
        } else {
            assert!(self.preview && !self.preview_missing);
            let center = self.preview_center();
            assert!(
                self.orders.len() < self.capacity
                    && !self.blocked.contains(&center)
                    && !self.transient_block()
            );
            assert!(safe_footprint(self.cursor));
            self.orders.push(center);
            self.events.push(Event::Order(center));
            self.panel_reads = 0;
            self.ordered_selected = true;
            if !self.stuck_preview {
                self.preview = false;
            }
            if self.cancel_on_click {
                self.cancel.store(true, Ordering::SeqCst);
            }
        }
        Ok(())
    }

    fn mouse_left_up(&mut self) -> Result<(), InputError> {
        self.mouse = false;
        Ok(())
    }

    fn release_all(&mut self) -> Result<(), InputError> {
        self.released = true;
        self.held.clear();
        self.mouse = false;
        if self.fail_release {
            Err(InputError::Injection("test cleanup failure".into()))
        } else {
            Ok(())
        }
    }

    fn safety_check(&mut self) -> Result<(), InputError> {
        if self.unsafe_now {
            Err(InputError::Unsafe("test focus loss".into()))
        } else {
            Ok(())
        }
    }
}

impl DesktopAdapter for Desktop {
    fn cursor_position(&mut self) -> Result<Point, InputError> {
        Ok(if self.move_before_click {
            Point { x: self.cursor.x + 100, y: self.cursor.y }
        } else {
            self.cursor
        })
    }

    fn move_cursor(&mut self, point: Point) -> Result<(), InputError> {
        self.cursor = point;
        Ok(())
    }

    fn capture_region(&mut self, rect: Rect) -> Result<Frame, InputError> {
        self.begin_capture();
        self.region_reads += 1;
        assert!(rect.w > 0 && rect.h > 0);
        let frame = Frame::new(
            rect.w as u32,
            rect.h as u32,
            Point { x: rect.x, y: rect.y },
            vec![0; (rect.w * rect.h * 4) as usize],
        )
        .expect("bounded test frame");
        Ok(self.paint(frame))
    }

    fn capture_client(&mut self) -> Result<Frame, InputError> {
        self.begin_capture();
        self.morph_shown = false;
        if self.wrong_profile {
            return Ok(Frame::blank(1280, 720));
        }
        let mut frame = Frame::blank(1920, 1080);
        if self.selected == 1 && self.ordered_selected {
            self.panel_reads += 1;
            if self.panel_reads > self.morph_delay {
                match self.panel {
                    AfterOrderPanel::MorphingColony => {
                        paint_morph_colony(&mut frame);
                        self.events.push(Event::MorphPanel);
                        self.morphed = true;
                        self.morph_shown = true;
                    }
                    AfterOrderPanel::StillDrone => {
                        paint_single(&mut frame, true);
                        self.events.push(Event::DronePanel);
                    }
                    AfterOrderPanel::SingleWireframe => {
                        paint_slot(&mut frame, 0, true);
                        self.events.push(Event::UnconfirmedPanel);
                    }
                    AfterOrderPanel::TwoDrones => {
                        for slot in 0..2 {
                            paint_slot(&mut frame, slot, true);
                        }
                        self.events.push(Event::UnconfirmedPanel);
                    }
                    AfterOrderPanel::OtherUnit => {
                        paint_single(&mut frame, false);
                        self.events.push(Event::UnconfirmedPanel);
                    }
                }
            } else {
                paint_single(&mut frame, true);
                self.events.push(Event::DronePanel);
            }
        } else if self.selected == 1 {
            paint_single(&mut frame, self.drone);
        } else {
            for slot in 0..self.selected {
                paint_slot(&mut frame, slot, self.drone);
            }
        }
        Ok(self.paint(frame))
    }
}

/// The live counters the GUI reads, mirrored from the run after each step.
#[derive(Default)]
struct Progress {
    probes: usize,
    confirmed: usize,
    orders: usize,
    starts: usize,
}

fn send(fake: &mut Desktop, primitive: Primitive) -> Result<(), InputError> {
    match primitive {
        Primitive::KeyDown(key) => fake.key_down(key),
        Primitive::KeyUp(key) => fake.key_up(key),
        Primitive::MouseLeftDown => fake.mouse_left_down(),
        Primitive::MouseLeftUp => fake.mouse_left_up(),
    }
}

/// Test budgets: a full search window, but only a few seconds of
/// construction wait.
fn budgets() -> Budgets {
    Budgets { search_ms: SEARCH_BUDGET_MS, construction_ms: 2_000, run_ms: RUN_BUDGET_MS }
}

/// Short construction window for the tests that exercise the timeout.
fn short_construction() -> Budgets {
    Budgets { construction_ms: 50, ..budgets() }
}

fn execute(fake: &mut Desktop, points: &[Point]) -> VacantColonyReport {
    execute_with_progress(fake, points).0
}

fn execute_with_progress(fake: &mut Desktop, points: &[Point]) -> (VacantColonyReport, Progress) {
    execute_with_budgets(fake, points, budgets())
}

/// Runs one search on a simulated clock: a wait advances it by its length.
fn execute_with_budgets(
    fake: &mut Desktop,
    points: &[Point],
    budgets: Budgets,
) -> (VacantColonyReport, Progress) {
    let cancel = Arc::clone(&fake.cancel);
    let mut progress = Progress::default();
    let mut run = VacantRun::with_search(Timing { press_ms: 0, gap_ms: 0 }, points.to_vec(), budgets);
    let mut now_ms: u64 = 0;
    let mut event = VacantEvent::Start;
    let report = loop {
        assert!(run.expects(&event));
        let action = run.step(event);
        progress = Progress {
            probes: run.probes(),
            confirmed: run.confirmed(),
            orders: run.orders(),
            starts: run.starts(),
        };
        event = match action {
            VacantAction::CheckCancel => VacantEvent::CancelChecked { cancelled: cancel.load(Ordering::SeqCst) },
            VacantAction::SafetyCheck => VacantEvent::GateChecked(fake.safety_check()),
            VacantAction::Send(primitive) => VacantEvent::Sent(send(fake, primitive)),
            VacantAction::Wait { ms } => {
                now_ms += ms;
                VacantEvent::Waited { cancelled: ms > 0 && cancel.load(Ordering::SeqCst) }
            }
            VacantAction::MoveCursor(point) => VacantEvent::Sent(fake.move_cursor(point)),
            VacantAction::ReadCursor => VacantEvent::Cursor(fake.cursor_position()),
            VacantAction::ReadClock => VacantEvent::Clock { now_ms },
            VacantAction::CaptureClient => {
                let frame = fake.capture_client();
                VacantEvent::Captured { frame, now_ms }
            }
            VacantAction::CaptureRegion(rect) => {
                let frame = fake.capture_region(rect);
                VacantEvent::Captured { frame, now_ms }
            }
            VacantAction::CapturePanel => {
                let frame = fake.capture_client();
                VacantEvent::Panel { frame, morphing_colony: fake.morph_shown }
            }
            VacantAction::ReleaseAll => VacantEvent::Sent(fake.release_all()),
            VacantAction::Finish => break run.report(),
        };
    };
    assert!(fake.released && fake.held.is_empty() && !fake.mouse, "owned input cleanup");
    (report, progress)
}

const TWO: [Point; 2] = [Point { x: 900, y: 400 }, Point { x: 1044, y: 400 }];

/// The preview detector reports the painted square's bounding-box centre,
/// which can sit one pixel from the painted centre.
fn assert_near(actual: Point, expected: Point, context: &str) {
    assert!(
        (actual.x - expected.x).abs() <= 1 && (actual.y - expected.y).abs() <= 1,
        "{context}: {actual:?} vs {expected:?}"
    );
}

#[test]
fn uses_two_drones_and_recalls_f4_without_overwriting_it() {
    let mut fake = Desktop::new(2);
    let report = execute(&mut fake, &TWO);
    assert_eq!(report.outcome, Outcome::Completed, "{report:?}");
    assert_eq!(report.orders.len(), 2);
    assert_eq!(report.starts, report.orders, "both drones were seen starting");
    assert_eq!(report.detected, 2);
    assert_eq!(fake.keys.iter().filter(|k| **k == Key::F4).count(), 2);
    assert_eq!(fake.removed, 0);
    assert_eq!(fake.keys.first(), Some(&Key::F4));
}

#[test]
fn all_twelve_drones_are_used_without_the_single_row_cap() {
    let mut fake = Desktop::new(12);
    let report = execute(&mut fake, &candidates());
    assert_eq!(report.outcome, Outcome::Completed, "{report:?}");
    assert_eq!(report.orders.len(), 12);
    assert_eq!(report.starts.len(), 12);
    assert_eq!(report.detected, 12);
    for (i, p) in report.orders.iter().enumerate() {
        assert!(unreserved(*p, &report.orders[..i]));
    }
}

#[test]
fn eleven_already_morphing_drones_do_not_remove_the_next_drone() {
    let mut fake = Desktop::new(11);
    fake.morphed = true;
    let report = execute(&mut fake, &candidates());
    assert_eq!(report.outcome, Outcome::Completed, "{report:?}");
    assert_eq!(report.orders.len(), 11);
    assert_eq!(fake.removed, 0);
}

#[test]
fn blocked_candidate_is_skipped_without_a_world_click() {
    let mut fake = Desktop::new(2);
    fake.blocked = vec![TWO[0]];
    let points = [TWO[0], TWO[1], Point { x: 1188, y: 400 }];
    let report = execute(&mut fake, &points);
    assert_eq!(report.outcome, Outcome::Completed, "{report:?}");
    assert_eq!(fake.orders, points[1..]);
    assert_eq!(report.probes, 4);
    assert_eq!(report.starts.len(), 2);
}

#[test]
fn an_earlier_candidate_is_revisited_after_a_transient_obstruction() {
    let mut fake = Desktop::new(2).blocked_until_reads(TWO[0], 2);
    let report = execute(&mut fake, &TWO);
    assert_eq!(report.outcome, Outcome::Completed, "{report:?}");
    assert_eq!(fake.orders, [TWO[1], TWO[0]]);
    assert_eq!(report.starts.len(), 2);
}

#[test]
fn a_blocked_candidate_is_revisited_once_before_it_is_dropped() {
    let mut fake = Desktop::new(2)
        .blocked_until_reads(TWO[0], 2)
        .after_order_panel(AfterOrderPanel::MorphingColony);
    fake.blocked = vec![TWO[1]];
    let report = execute(&mut fake, &TWO);
    assert_eq!(report.orders.len(), 1, "{report:?}");
    assert_near(report.orders[0], TWO[0], "ordered the revisited candidate");
    assert_eq!(report.starts.len(), 1);
    assert_near(report.starts[0], TWO[0], "start evidence for the same order");
    assert_eq!(report.probes, 4, "one revisit of the blocked first pass");
}

#[test]
fn a_free_spot_far_to_the_right_is_still_reached_in_the_first_pass() {
    let blocked: Vec<Point> = (0..20).map(|i| Point { x: 120 + i * 72, y: 400 }).collect();
    let free = Point { x: 1776, y: 400 };
    assert!(blocked.iter().all(|point| safe_footprint(*point)));
    assert!(safe_footprint(free));
    let mut fake = Desktop::new(2);
    fake.blocked = blocked.clone();
    let points: Vec<Point> = blocked.into_iter().chain([free]).collect();
    let report = execute(&mut fake, &points);
    assert_eq!(fake.orders.len(), 1, "{report:?}");
    assert_near(fake.orders[0], free, "the far free spot was found");
    assert_eq!(report.starts.len(), 1, "{report:?}");
    assert_eq!(report.probes, 21 + 20, "{report:?}");
}

#[test]
fn no_creep_or_no_free_space_never_forces_a_click() {
    let mut fake = Desktop::new(2);
    fake.capacity = 0;
    let report = execute(&mut fake, &TWO);
    assert!(matches!(report.outcome, Outcome::Aborted { .. }));
    assert!(report.orders.is_empty());
    assert!(report.starts.is_empty());
    assert_eq!(report.probes, 4);
    assert_eq!(fake.keys.last(), Some(&Key::Escape), "close visible blocked preview");
}

#[test]
fn lack_of_resources_or_absent_preview_does_not_click_or_guess_escape() {
    let mut fake = Desktop::new(2);
    fake.preview_missing = true;
    let report = execute(&mut fake, &TWO);
    assert!(matches!(report.outcome, Outcome::Aborted { .. }));
    assert!(report.orders.is_empty());
    assert!(!fake.keys.contains(&Key::Escape));
}

#[test]
fn partial_run_reports_issued_orders_not_completed_buildings() {
    let mut fake = Desktop::new(2);
    fake.capacity = 1;
    let report = execute(&mut fake, &TWO);
    assert!(matches!(report.outcome, Outcome::Aborted { .. }));
    assert_eq!(report.orders.len(), 1);
    assert_eq!(report.starts.len(), 1);
    assert_eq!(report.detected, 2);
    assert!(report.starts.len() < report.detected as usize);
}

#[test]
fn stuck_preview_stops_after_one_order_without_retrying_the_click() {
    let mut fake = Desktop::new(2);
    fake.stuck_preview = true;
    let report = execute(&mut fake, &TWO);
    assert!(matches!(report.outcome, Outcome::Aborted { .. }));
    assert_eq!(report.orders.len(), 1);
    assert!(report.starts.is_empty(), "no start evidence was shown");
    assert_eq!(fake.orders.len(), 1, "no re-click of the stuck order");
    assert_eq!(fake.keys.last(), Some(&Key::Escape));
}

#[test]
fn a_never_starting_drone_stops_with_a_partial_report_and_keeps_the_reservation() {
    let mut fake = Desktop::new(2).after_order_panel(AfterOrderPanel::StillDrone);
    let (report, progress) = execute_with_budgets(&mut fake, &TWO, short_construction());
    assert!(matches!(report.outcome, Outcome::Aborted { .. }));
    assert_eq!(report.orders.len(), 1, "{report:?}");
    assert_near(report.orders[0], TWO[0], "the reservation is kept");
    assert_eq!(fake.orders, [TWO[0]]);
    assert!(report.starts.is_empty());
    assert_eq!(progress.orders, 1);
    assert_eq!(progress.starts, 0);
    assert_eq!(fake.keys.iter().filter(|k| **k == Key::B).count(), 1);
    assert_eq!(fake.keys.iter().filter(|k| **k == Key::C).count(), 1);
}

#[test]
fn departure_preview_closure_and_smaller_groups_are_not_start_evidence() {
    for panel in [
        AfterOrderPanel::StillDrone,
        AfterOrderPanel::SingleWireframe,
        AfterOrderPanel::TwoDrones,
        AfterOrderPanel::OtherUnit,
    ] {
        let mut fake = Desktop::new(2).after_order_panel(panel);
        let (report, _) = execute_with_budgets(&mut fake, &TWO, short_construction());
        assert!(matches!(report.outcome, Outcome::Aborted { .. }), "{panel:?}: {:?}", report.outcome);
        assert_eq!(report.orders.len(), 1, "{panel:?}");
        assert!(report.starts.is_empty(), "{panel:?}: no positive start");
        assert_eq!(fake.orders.len(), 1, "{panel:?}");
        assert!(!fake.keys.contains(&Key::Escape), "{panel:?}: the preview was already closed");
    }
}

#[test]
fn no_second_order_before_the_first_morph_is_confirmed() {
    let mut fake = Desktop::new(2).morph_after_reads(2);
    let report = execute(&mut fake, &TWO);
    assert_eq!(report.outcome, Outcome::Completed, "{report:?}");
    assert_eq!(report.starts.len(), 2);
    let first_order = fake
        .events
        .iter()
        .position(|event| matches!(event, Event::Order(_)))
        .expect("first order");
    let second_order = fake
        .events
        .iter()
        .skip(first_order + 1)
        .position(|event| matches!(event, Event::Order(_)))
        .map(|index| index + first_order + 1)
        .expect("second order");
    let morphs = fake
        .events
        .iter()
        .enumerate()
        .filter(|(index, event)| *index > first_order && *index < second_order && **event == Event::MorphPanel)
        .count();
    assert!(morphs >= CONSTRUCTION_CONFIRM_READS, "{:?}", fake.events);
    let drone_reads = fake
        .events
        .iter()
        .enumerate()
        .filter(|(index, event)| *index > first_order && *index < second_order && **event == Event::DronePanel)
        .count();
    assert!(drone_reads >= 2, "{:?}", fake.events);
}

#[test]
fn twelve_drones_confirm_each_morph_before_the_next_order() {
    let mut fake = Desktop::new(12);
    let report = execute(&mut fake, &candidates());
    assert_eq!(report.outcome, Outcome::Completed, "{report:?}");
    assert_eq!(report.orders.len(), 12);
    assert_eq!(report.starts.len(), 12);
    let orders: Vec<usize> = fake
        .events
        .iter()
        .enumerate()
        .filter(|(_, event)| matches!(event, Event::Order(_)))
        .map(|(index, _)| index)
        .collect();
    assert_eq!(orders.len(), 12);
    for pair in orders.windows(2) {
        let morphs = fake.events[pair[0] + 1..pair[1]]
            .iter()
            .filter(|event| **event == Event::MorphPanel)
            .count();
        assert!(morphs >= CONSTRUCTION_CONFIRM_READS, "order at {}: {morphs} morph reads", pair[0]);
    }
}

#[test]
fn construction_wait_cancellation_and_focus_loss_are_bounded() {
    let mut fake = Desktop::new(2).cancel_after_captures(10);
    let report = execute_with_budgets(&mut fake, &TWO, short_construction()).0;
    assert_eq!(report.outcome, Outcome::Cancelled, "{report:?}");
    assert_eq!(report.orders.len(), 1, "the issued order is kept");
    assert_near(report.orders[0], TWO[0], "the issued order is kept");
    assert!(report.starts.is_empty());

    let mut fake = Desktop::new(2);
    fake.lose_focus_capture = Some(11);
    let report = execute_with_budgets(&mut fake, &TWO, short_construction()).0;
    assert!(matches!(report.outcome, Outcome::Failed { .. }), "{report:?}");
    assert_eq!(report.orders.len(), 1);
    assert_near(report.orders[0], TWO[0], "the reservation survives focus loss");
    assert!(report.starts.is_empty());
}

#[test]
fn invalid_selection_and_geometry_send_no_keys_or_clicks() {
    for count in [0, 1] {
        let mut fake = Desktop::new(count);
        let report = execute(&mut fake, &TWO);
        assert!(matches!(report.outcome, Outcome::Aborted { .. }));
        assert!(fake.keys.is_empty() && fake.orders.is_empty());
    }
    for wrong_profile in [false, true] {
        let mut fake = Desktop::new(2);
        fake.drone = false;
        fake.wrong_profile = wrong_profile;
        let report = execute(&mut fake, &TWO);
        assert!(matches!(report.outcome, Outcome::Aborted { .. }));
        assert!(fake.keys.is_empty() && fake.orders.is_empty());
    }
}

#[test]
fn cancellation_after_either_preview_capture_sends_no_world_click() {
    for capture in [1, 5, 6, 7] {
        let mut fake = Desktop::new(2).cancel_after_captures(capture);
        let report = execute(&mut fake, &TWO);
        assert_eq!(report.outcome, Outcome::Cancelled, "capture {capture}");
        assert!(report.orders.is_empty());
        assert!(!fake.keys.contains(&Key::Escape));
    }
}

#[test]
fn focus_loss_after_verification_blocks_click_and_escape() {
    let mut fake = Desktop::new(2);
    fake.lose_focus_capture = Some(7);
    let report = execute(&mut fake, &TWO);
    assert!(matches!(report.outcome, Outcome::Failed { .. }));
    assert!(report.orders.is_empty());
    assert!(!fake.keys.contains(&Key::Escape));
}

#[test]
fn emergency_during_world_mouse_down_counts_once_and_releases_button() {
    let mut fake = Desktop::new(2);
    fake.cancel_on_click = true;
    let report = execute(&mut fake, &TWO);
    assert_eq!(report.outcome, Outcome::Cancelled);
    assert_eq!(report.orders.len(), 1);
}

#[test]
fn mouse_interference_does_not_click_at_the_wrong_location() {
    let mut fake = Desktop::new(2);
    fake.move_before_click = true;
    let report = execute(&mut fake, &TWO);
    assert!(matches!(report.outcome, Outcome::Aborted { .. }));
    assert!(report.orders.is_empty());
}

#[test]
fn injection_and_cleanup_errors_are_reported() {
    let mut fake = Desktop::new(2);
    fake.fail_key = Some(Key::C);
    let report = execute(&mut fake, &TWO);
    assert!(matches!(report.outcome, Outcome::Failed { .. }));
    assert!(report.orders.is_empty());
    let mut fake = Desktop::new(0);
    fake.fail_release = true;
    let report = execute(&mut fake, &TWO);
    assert!(matches!(report.outcome, Outcome::Failed { .. }));
}

#[test]
fn expired_search_budget_is_reported_without_a_build_order() {
    let mut fake = Desktop::new(2);
    let (report, _) = execute_with_budgets(&mut fake, &TWO, Budgets { search_ms: 0, ..budgets() });
    assert!(matches!(report.outcome, Outcome::Aborted { .. }));
    assert!(report.orders.is_empty() && fake.released);
    assert!(!fake.keys.contains(&Key::B));
}

#[test]
fn a_preview_snapped_by_up_to_one_tile_is_still_accepted() {
    let mut fake = Desktop::new(2).snapped_by(60, -55);
    let report = execute(&mut fake, &TWO);
    assert_eq!(report.outcome, Outcome::Completed, "{report:?}");
    assert_eq!(report.orders.len(), 2);
    for (order, probe) in report.orders.iter().zip(TWO.iter()) {
        let snapped = Point { x: probe.x + 60, y: probe.y - 55 };
        assert!((order.x - snapped.x).abs() <= 1, "{order:?} vs {snapped:?}");
        assert!((order.y - snapped.y).abs() <= 1, "{order:?} vs {snapped:?}");
    }
    assert!(unreserved(report.orders[1], &report.orders[..1]));
}

#[test]
fn a_green_square_more_than_a_tile_away_belongs_to_another_footprint() {
    let mut fake = Desktop::new(2).snapped_by(120, 0);
    let report = execute(&mut fake, &TWO);
    assert!(matches!(report.outcome, Outcome::Aborted { .. }));
    assert!(report.orders.is_empty());
    assert_eq!(report.probes, 4, "both candidates, first pass and revisit");
    assert_eq!(fake.keys.iter().filter(|k| **k == Key::B).count(), 1);
    assert!(fake.orders.is_empty());
}

#[test]
fn a_search_that_never_confirms_a_preview_stops_early_with_a_diagnostic() {
    let mut fake = Desktop::new(2);
    fake.preview_missing = true;
    let report = execute(&mut fake, &candidates());
    let Outcome::Aborted { detail } = &report.outcome else {
        panic!("expected an early stop, got {:?}", report.outcome);
    };
    assert!(detail.contains("no green placement preview was confirmed"), "{detail}");
    assert_eq!(report.probes, NO_CONFIRM_GIVE_UP);
    assert!(report.orders.is_empty());
}

#[test]
fn the_per_drone_probe_limit_stops_a_long_search() {
    let mut fake = Desktop::new(2);
    fake.capacity = 1;
    let dense: Vec<Point> = (180..720)
        .step_by(36)
        .flat_map(|y| (120..1800).step_by(36).map(move |x| Point { x, y }))
        .filter(|point| safe_footprint(*point))
        .collect();
    assert!(dense.len() > MAX_PROBES_PER_DRONE + 16, "{}", dense.len());
    let report = execute(&mut fake, &dense);
    let Outcome::Aborted { detail } = &report.outcome else {
        panic!("expected a bounded stop, got {:?}", report.outcome);
    };
    assert!(detail.contains("probe limit"), "{detail}");
    assert_eq!(report.orders.len(), 1, "the one real spot was still built");
    assert_eq!(report.probes, MAX_PROBES_PER_DRONE + 1);
}

#[test]
fn the_probe_limits_are_gated_before_every_probe() {
    let b = budgets();
    let (search_deadline, run_deadline) = (b.search_ms, b.run_ms);
    let detail = budget_gate(MAX_PROBES, 0, 0, search_deadline, run_deadline).unwrap_err();
    assert!(detail.contains("probe limit"), "{detail}");
    let detail = budget_gate(0, MAX_PROBES_PER_DRONE, 0, search_deadline, run_deadline).unwrap_err();
    assert!(detail.contains("probe limit"), "{detail}");
    budget_gate(0, 0, 0, search_deadline, run_deadline).expect("under both caps");
}

#[test]
fn the_live_counters_track_the_search() {
    let mut fake = Desktop::new(2);
    let (report, progress) = execute_with_progress(&mut fake, &TWO);
    assert_eq!(report.outcome, Outcome::Completed, "{report:?}");
    assert_eq!(progress.probes, report.probes);
    assert_eq!(progress.orders, report.orders.len());
    assert_eq!(progress.starts, report.starts.len());
    assert_eq!(progress.confirmed, report.orders.len());
    assert_eq!(progress.starts, report.orders.len());
    assert!(progress.probes >= report.orders.len());

    let mut fake = Desktop::new(0);
    let (_, progress) = execute_with_progress(&mut fake, &TWO);
    assert_eq!(
        (progress.probes, progress.orders, progress.starts, progress.confirmed),
        (0, 0, 0, 0)
    );
}

#[test]
fn a_never_starting_drone_reports_the_last_panel_read() {
    let mut fake = Desktop::new(2).after_order_panel(AfterOrderPanel::StillDrone);
    let (report, _) = execute_with_budgets(&mut fake, &TWO, short_construction());
    assert_eq!(
        report.outcome,
        Outcome::Aborted {
            detail: "no construction start was confirmed before the wait limit (last panel read: NotMorphing); the issued order remains unconfirmed".to_owned()
        }
    );
}

#[test]
fn a_single_drone_is_refused_with_the_selection_hint() {
    let mut fake = Desktop::new(1);
    let report = execute(&mut fake, &TWO);
    assert_eq!(
        report.outcome,
        Outcome::Aborted { detail: "select 2-12 drones before starting F4 Colony placement".to_owned() }
    );
    assert!(fake.keys.is_empty());
}
