use std::sync::atomic::{AtomicBool, Ordering};
use std::sync::{Arc, Mutex};
use std::time::{Duration, Instant};

use oh_my_macro::colony::{ColonyReport, RowMode, CAPTURE_TIMEOUT_MS};
use oh_my_macro::colony_limited::{LimitedRowBuilder, TrimPhase};
use oh_my_macro::colony_run::{RowAction, RowBuilder, RowEvent, RowPhase};
use oh_my_macro::engine::Outcome;
use oh_my_macro::frame::{Frame, Point, Rect, Rgb};
use oh_my_macro::input::{DesktopAdapter, InputAdapter, InputError};
use oh_my_macro::macros::{BuildTarget, Key, MacroId, Primitive, Timing};
use oh_my_macro::vision::{
    slot_center, CLIENT_HEIGHT, CLIENT_WIDTH, DRONE_WIREFRAME_MASK, FOOTPRINT,
    SINGLE_DRONE_PORTRAIT_MASK,
};

const FRAME_BLUE: Rgb = Rgb { r: 12, g: 73, b: 206 };
const SLOT_BG: Rgb = Rgb { r: 0, g: 16, b: 51 };
const DRONE_BODY: Rgb = Rgb { r: 200, g: 24, b: 24 };
const PREVIEW_GREEN: Rgb = Rgb { r: 30, g: 180, b: 30 };
const PREVIEW_RED: Rgb = Rgb { r: 200, g: 30, b: 30 };

fn paint_mask(frame: &mut Frame, center: Point, mask: [&str; 16], color: Rgb) {
    for (gy, row) in mask.iter().enumerate() {
        for (gx, cell) in row.chars().enumerate() {
            if cell != '#' {
                continue;
            }
            let left = center.x - 32 + gx as i32 * 4;
            let top = center.y - 32 + gy as i32 * 4;
            for dy in 0..4 {
                for dx in 0..4 {
                    frame.set_pixel(left + dx, top + dy, color);
                }
            }
        }
    }
}

fn paint_slot(frame: &mut Frame, slot: u8) {
    let center = slot_center(slot);
    for y in (center.y - 38)..=(center.y + 38) {
        for x in (center.x - 37)..=(center.x + 37) {
            let on_frame = (x - center.x).abs() >= 37 - 4 || (y - center.y).abs() >= 38 - 4;
            frame.set_pixel(x, y, if on_frame { FRAME_BLUE } else { SLOT_BG });
        }
    }
    paint_mask(frame, center, DRONE_WIREFRAME_MASK, DRONE_BODY);
}

fn paint_single(frame: &mut Frame) {
    paint_mask(frame, Point::new(696, 950), SINGLE_DRONE_PORTRAIT_MASK, DRONE_BODY);
}

fn paint_preview(frame: &mut Frame, center: Point, green: bool, footprint_px: i32) {
    let color = if green { PREVIEW_GREEN } else { PREVIEW_RED };
    let half = footprint_px / 2;
    for y in (center.y - half)..(center.y + half) {
        for x in (center.x - half)..(center.x + half) {
            frame.set_pixel(x, y, color);
        }
    }
}

#[derive(Clone, Copy, Debug, Eq, PartialEq)]
enum DroneStatus {
    Idle,
    Traveling,
    Morphed,
}

#[derive(Clone, Copy, Debug, Eq, PartialEq)]
enum Preview {
    Green,
    Red,
    Ambiguous,
    Absent,
}

/// A small model of the game: the selection, group 9, placement mode and
/// the drones that were ordered.
struct Game {
    drones: Vec<DroneStatus>,
    selected: Vec<u8>,
    group9: Vec<u8>,
    build: Option<u8>,
    preview: Preview,
    preview_footprint: i32,
    placement_click_registers: bool,
    captures_since_order: u32,
    morph_delay: u32,
    cursor: Point,
    held: Vec<Key>,
    left_held: bool,
    nine_with_ctrl: bool,
    build_key_latched: Option<Key>,
    log: Vec<String>,
    orders: Vec<Point>,
    shifts: usize,
    saves: usize,
    captures: usize,
    escapes: usize,
    ops: usize,
    cancel: Arc<AtomicBool>,
    cancel_after: Option<usize>,
    fail_after: Option<usize>,
}

impl Game {
    fn new(count: u8) -> Self {
        Self {
            drones: vec![DroneStatus::Idle; count as usize],
            selected: (0..count).collect(),
            group9: Vec::new(),
            build: None,
            preview: Preview::Green,
            preview_footprint: FOOTPRINT,
            placement_click_registers: true,
            captures_since_order: 0,
            morph_delay: 1_000,
            cursor: Point::new(400, 400),
            held: Vec::new(),
            left_held: false,
            nine_with_ctrl: false,
            build_key_latched: None,
            log: Vec::new(),
            orders: Vec::new(),
            shifts: 0,
            saves: 0,
            captures: 0,
            escapes: 0,
            ops: 0,
            cancel: Arc::new(AtomicBool::new(false)),
            cancel_after: None,
            fail_after: None,
        }
    }

    fn slot_under_cursor(&self) -> Option<usize> {
        (0..self.selected.len()).find(|slot| {
            let center = slot_center(*slot as u8);
            (center.x - self.cursor.x).abs() <= 40 && (center.y - self.cursor.y).abs() <= 40
        })
    }

    fn morph_tick(&mut self) {
        self.captures_since_order += 1;
        if self.captures_since_order >= self.morph_delay {
            if let Some(traveling) = self
                .drones
                .iter()
                .position(|status| *status == DroneStatus::Traveling)
            {
                self.drones[traveling] = DroneStatus::Morphed;
            }
        }
    }

    fn render(&mut self) -> Frame {
        self.morph_tick();
        let mut frame = Frame::blank(CLIENT_WIDTH, CLIENT_HEIGHT);
        match self.selected.len() {
            0 => {}
            1 => paint_single(&mut frame),
            count => {
                for slot in 0..count {
                    paint_slot(&mut frame, slot as u8);
                }
            }
        }
        if self.build.is_some() {
            match self.preview {
                Preview::Green => paint_preview(&mut frame, self.cursor, true, self.preview_footprint),
                Preview::Red => paint_preview(&mut frame, self.cursor, false, self.preview_footprint),
                Preview::Ambiguous => {
                    let offset = self.preview_footprint / 2 + 8;
                    paint_preview(
                        &mut frame,
                        Point::new(self.cursor.x, self.cursor.y - offset),
                        true,
                        self.preview_footprint,
                    );
                    paint_preview(
                        &mut frame,
                        Point::new(self.cursor.x, self.cursor.y + offset),
                        false,
                        self.preview_footprint,
                    );
                }
                Preview::Absent => {}
            }
        }
        frame
    }

    fn note(&mut self) -> Result<(), InputError> {
        self.ops += 1;
        if let Some(fail_at) = self.fail_after {
            if self.ops >= fail_at {
                return Err(InputError::Unsafe("test: foreground window changed".to_owned()));
            }
        }
        if let Some(after) = self.cancel_after {
            if self.ops >= after {
                self.cancel.store(true, Ordering::SeqCst);
            }
        }
        Ok(())
    }
}

struct FakeDesktop {
    game: Arc<Mutex<Game>>,
}

impl FakeDesktop {
    fn new(count: u8) -> Self {
        Self { game: Arc::new(Mutex::new(Game::new(count))) }
    }

    fn for_target(count: u8, target: BuildTarget) -> Self {
        let fake = Self::new(count);
        fake.with(|game| game.preview_footprint = target.footprint_px());
        fake
    }

    fn cancel_flag(&self) -> Arc<AtomicBool> {
        self.with(|game| Arc::clone(&game.cancel))
    }

    fn with<R>(&self, f: impl FnOnce(&mut Game) -> R) -> R {
        let mut game = self.game.lock().expect("game lock");
        f(&mut game)
    }

    fn events(&self) -> Vec<String> {
        self.with(|game| game.log.clone())
    }

    fn orders(&self) -> Vec<Point> {
        self.with(|game| game.orders.clone())
    }

    fn held(&self) -> Vec<Key> {
        self.with(|game| game.held.clone())
    }

    fn set_cursor(&self, point: Point) {
        self.with(|game| game.cursor = point);
    }

    fn set_preview(&self, preview: Preview) {
        self.with(|game| game.preview = preview);
    }

    fn set_placement_click_registers(&self, registers: bool) {
        self.with(|game| game.placement_click_registers = registers);
    }

    fn set_morph_delay(&self, captures: u32) {
        self.with(|game| game.morph_delay = captures);
    }

    fn cancel_after(&self, ops: usize) {
        self.with(|game| game.cancel_after = Some(ops));
    }

    fn fail_after(&self, ops: usize) {
        self.with(|game| game.fail_after = Some(ops));
    }

    fn apply(&self) -> Result<(), InputError> {
        let mut game = self.game.lock().expect("game lock");
        game.note()
    }
}

impl DesktopAdapter for FakeDesktop {
    fn cursor_position(&mut self) -> Result<Point, InputError> {
        self.apply()?;
        Ok(self.with(|game| game.cursor))
    }

    fn move_cursor(&mut self, point: Point) -> Result<(), InputError> {
        self.apply()?;
        self.with(|game| game.cursor = point);
        Ok(())
    }

    fn capture_client(&mut self) -> Result<Frame, InputError> {
        self.apply()?;
        Ok(self.with(|game| {
            game.captures += 1;
            game.render()
        }))
    }

    fn capture_region(&mut self, rect: Rect) -> Result<Frame, InputError> {
        let frame = self.capture_client()?;
        frame
            .crop(rect)
            .ok_or_else(|| InputError::Injection("test crop size mismatch".to_owned()))
    }
}

impl InputAdapter for FakeDesktop {
    fn key_down(&mut self, key: Key) -> Result<(), InputError> {
        self.apply()?;
        self.with(|game| {
            if !game.held.contains(&key) {
                game.held.push(key);
            }
            if key == Key::Nine && game.held.contains(&Key::Control) {
                game.nine_with_ctrl = true;
            }
            if matches!(key, Key::B | Key::V) {
                game.build_key_latched = Some(key);
            }
            if key == Key::Escape {
                game.escapes += 1;
                game.build = None;
            }
        });
        Ok(())
    }

    fn key_up(&mut self, key: Key) -> Result<(), InputError> {
        self.apply()?;
        self.with(|game| {
            game.held.retain(|held| *held != key);
            if let Some(first) = game.build_key_latched {
                let second = match first {
                    Key::B => Key::C,
                    _ => Key::S,
                };
                if key == second {
                    game.build_key_latched = None;
                    let pair = format!(
                        "{}{}",
                        first.name().to_ascii_lowercase(),
                        second.name().to_ascii_lowercase()
                    );
                    if game.selected.len() == 1 {
                        game.build = Some(game.selected[0]);
                        game.log.push(pair);
                    } else {
                        game.log.push(format!("{pair}-on-group"));
                    }
                }
            }
            if key == Key::Nine {
                if game.nine_with_ctrl {
                    game.nine_with_ctrl = false;
                    game.saves += 1;
                    game.group9 = game.selected.clone();
                    game.log.push(format!("save9({})", game.selected.len()));
                } else {
                    let group = game.group9.clone();
                    game.selected = group
                        .into_iter()
                        .filter(|id| game.drones[*id as usize] != DroneStatus::Morphed)
                        .collect();
                    game.log.push(format!("recall9({})", game.selected.len()));
                }
            }
        });
        Ok(())
    }

    fn mouse_left_down(&mut self) -> Result<(), InputError> {
        self.apply()?;
        self.with(|game| game.left_held = true);
        Ok(())
    }

    fn mouse_left_up(&mut self) -> Result<(), InputError> {
        self.apply()?;
        self.with(|game| {
            game.left_held = false;
            if let Some(id) = game.build.take() {
                if !game.placement_click_registers {
                    game.build = Some(id);
                    game.log.push("click-swallowed".to_owned());
                    return;
                }
                game.drones[id as usize] = DroneStatus::Traveling;
                game.captures_since_order = 0;
                let target = game.cursor;
                game.orders.push(target);
                game.log.push(format!("place({},{})", target.x, target.y));
            } else if game.held.contains(&Key::Shift) {
                if let Some(slot) = game.slot_under_cursor() {
                    game.selected.remove(slot);
                    game.shifts += 1;
                    game.log.push(format!("shift({slot})"));
                }
            } else if let Some(slot) = game.slot_under_cursor() {
                game.selected = vec![game.selected[slot]];
                game.log.push(format!("select({slot})"));
            }
        });
        Ok(())
    }

    fn release_all(&mut self) -> Result<(), InputError> {
        self.with(|game| {
            game.held.clear();
            game.left_held = false;
            game.build = None;
        });
        Ok(())
    }

    fn safety_check(&mut self) -> Result<(), InputError> {
        self.apply()
    }
}

fn send(adapter: &mut dyn DesktopAdapter, primitive: Primitive) -> Result<(), InputError> {
    match primitive {
        Primitive::KeyDown(key) => adapter.key_down(key),
        Primitive::KeyUp(key) => adapter.key_up(key),
        Primitive::MouseLeftDown => adapter.mouse_left_down(),
        Primitive::MouseLeftUp => adapter.mouse_left_up(),
    }
}

/// Waits `ms`, looking at the flag while time is left; false when cancelled.
fn wait(ms: u64, cancel: &AtomicBool) -> bool {
    let deadline = Instant::now() + Duration::from_millis(ms);
    while Instant::now() < deadline {
        if cancel.load(Ordering::SeqCst) {
            return false;
        }
        std::hint::spin_loop();
    }
    true
}

/// Drives one row-build run against an adapter.
fn run_row(
    adapter: &mut dyn DesktopAdapter,
    cancel: &AtomicBool,
    timing: Timing,
    mode: RowMode,
    target: BuildTarget,
    force: bool,
) -> ColonyReport {
    let started = Instant::now();
    let now = || started.elapsed().as_millis() as u64;
    let mut run = RowBuilder::new(timing, mode, target, force);
    let mut event = RowEvent::Start;
    loop {
        assert!(run.expects(&event), "unexpected answer {event:?}");
        event = match run.step(event) {
            RowAction::CheckCancel => RowEvent::CancelChecked { cancelled: cancel.load(Ordering::SeqCst) },
            RowAction::SafetyCheck => RowEvent::GateChecked(adapter.safety_check()),
            RowAction::Send(primitive) => RowEvent::Sent(send(adapter, primitive)),
            RowAction::Wait { ms } => RowEvent::Waited { cancelled: !wait(ms, cancel) },
            RowAction::MoveCursor(point) => RowEvent::Sent(adapter.move_cursor(point)),
            RowAction::ReadCursor => RowEvent::Cursor(adapter.cursor_position()),
            RowAction::ReadClock => RowEvent::Clock { now_ms: now() },
            RowAction::Capture => {
                let frame = adapter.capture_client();
                RowEvent::Captured { frame, now_ms: now() }
            }
            RowAction::ReleaseAll => RowEvent::Sent(adapter.release_all()),
            RowAction::Finish => {
                assert_eq!(run.phase(), RowPhase::Done);
                return run.report();
            }
        };
    }
}

fn timing() -> Timing {
    Timing::from_millis(1, 1)
}

fn capture_timeout() -> Duration {
    Duration::from_millis(CAPTURE_TIMEOUT_MS)
}

fn run(count: u8, target: BuildTarget) -> (FakeDesktop, ColonyReport) {
    let mut adapter = FakeDesktop::for_target(count, target);
    let cancel = adapter.cancel_flag();
    let report = run_row(&mut adapter, &cancel, timing(), RowMode::LeftToRight, target, true);
    (adapter, report)
}

fn run_mode(count: u8, mode: RowMode, target: BuildTarget) -> (FakeDesktop, ColonyReport) {
    let mut adapter = FakeDesktop::for_target(count, target);
    let cancel = adapter.cancel_flag();
    let report = run_row(&mut adapter, &cancel, timing(), mode, target, true);
    (adapter, report)
}

#[test]
fn an_ends_inward_run_issues_orders_in_that_order() {
    let (adapter, report) = run_mode(5, RowMode::EndsInward, BuildTarget::Colony);
    assert_eq!(report.outcome, Outcome::Completed);
    assert_eq!(report.target, BuildTarget::Colony);
    assert_eq!(report.detected, 5);
    assert_eq!(report.orders_issued, 5);
    assert_eq!(
        adapter.orders(),
        vec![
            Point::new(400, 400),
            Point::new(976, 400),
            Point::new(544, 400),
            Point::new(832, 400),
            Point::new(688, 400),
        ]
    );
    assert!(adapter.held().is_empty(), "no key may stay held");
}

#[test]
fn a_spire_row_presses_v_s_and_spaces_the_orders_by_144() {
    let (fake, report) = run(3, BuildTarget::Spire);
    assert_eq!(report.outcome, Outcome::Completed);
    assert_eq!(report.target, BuildTarget::Spire);
    assert_eq!(report.detected, 3);
    assert_eq!(report.orders_issued, 3);
    assert_eq!(
        report.into_run_report().macro_id,
        MacroId::Spire,
        "the report must say which building was ordered"
    );
    assert_eq!(
        fake.orders(),
        vec![Point::new(400, 400), Point::new(544, 400), Point::new(688, 400)],
        "spire footprint is 144 px wide now"
    );
    assert_eq!(
        fake.events().join(" "),
        "save9(3) select(2) vs place(400,400) recall9(3) shift(2) save9(2) \
         select(1) vs place(544,400) recall9(2) shift(1) save9(1) vs place(688,400)"
    );
    assert!(fake.held().is_empty(), "no key may stay held");
}

#[test]
fn five_drones_shrink_group_nine_one_portrait_at_a_time() {
    let (fake, report) = run(5, BuildTarget::Colony);
    assert_eq!(report.outcome, Outcome::Completed);
    assert_eq!(report.detected, 5);
    assert_eq!(report.orders_issued, 5);
    assert_eq!(report.unconfirmed, 0, "every green preview was confirmed before its click");
    assert_eq!(
        fake.events().join(" "),
        "save9(5) select(4) bc place(400,400) recall9(5) shift(4) save9(4) \
         select(3) bc place(544,400) recall9(4) shift(3) save9(3) \
         select(2) bc place(688,400) recall9(3) shift(2) save9(2) \
         select(1) bc place(832,400) recall9(2) shift(1) save9(1) bc place(976,400)"
    );
    assert_eq!(
        fake.orders(),
        vec![
            Point::new(400, 400),
            Point::new(544, 400),
            Point::new(688, 400),
            Point::new(832, 400),
            Point::new(976, 400),
        ]
    );
    assert!(fake.held().is_empty(), "no key may stay held");
}

#[test]
fn an_already_morphed_drone_is_not_shift_clicked_again() {
    let mut adapter = FakeDesktop::new(3);
    adapter.set_morph_delay(1);
    let cancel = adapter.cancel_flag();
    let report = run_row(&mut adapter, &cancel, timing(), RowMode::LeftToRight, BuildTarget::Colony, true);
    assert_eq!(report.outcome, Outcome::Completed);
    assert_eq!(report.orders_issued, 3);
    assert_eq!(adapter.with(|game| game.shifts), 0);
    assert_eq!(
        adapter.events().join(" "),
        "save9(3) select(2) bc place(400,400) recall9(2) save9(2) \
         select(1) bc place(544,400) recall9(1) save9(1) bc place(688,400)"
    );
}

#[test]
fn two_drones_collapse_to_the_single_panel_and_still_build_both() {
    let mut adapter = FakeDesktop::new(2);
    adapter.set_morph_delay(1);
    let cancel = adapter.cancel_flag();
    let report = run_row(&mut adapter, &cancel, timing(), RowMode::LeftToRight, BuildTarget::Colony, true);
    assert_eq!(report.outcome, Outcome::Completed);
    assert_eq!(report.orders_issued, 2);
    assert_eq!(adapter.with(|game| game.shifts), 0);
    assert_eq!(adapter.orders(), vec![Point::new(400, 400), Point::new(544, 400)]);
}

#[test]
fn a_single_drone_builds_once_at_the_cursor_without_group_nine() {
    for target in BuildTarget::ALL {
        let (fake, report) = run(1, target);
        assert_eq!(report.outcome, Outcome::Completed, "{target:?}");
        assert_eq!(report.target, target);
        assert_eq!(report.detected, 1);
        assert_eq!(report.orders_issued, 1);
        assert_eq!(report.unconfirmed, 0, "a confirmed green preview is never counted unconfirmed");
        assert_eq!(fake.with(|game| game.saves), 0, "no scratch group needed");
        assert_eq!(fake.orders(), vec![Point::new(400, 400)]);
        let expected = if target == BuildTarget::Spire { "vs place(400,400)" } else { "bc place(400,400)" };
        assert_eq!(fake.events().join(" "), expected, "{target:?}");
    }
}

#[test]
fn a_row_that_does_not_fit_is_refused_before_injecting_anything() {
    for (count, target) in [(12, BuildTarget::Colony), (12, BuildTarget::Spire)] {
        let mut adapter = FakeDesktop::new(count);
        adapter.set_cursor(Point::new(400, 400));
        let cancel = adapter.cancel_flag();
        let report = run_row(&mut adapter, &cancel, timing(), RowMode::LeftToRight, target, true);
        assert!(matches!(report.outcome, Outcome::Aborted { .. }), "{target:?}, count {count}");
        assert_eq!(report.orders_issued, 0);
        assert_eq!(
            report.detected, count,
            "the refusal happens after the HUD read, before any injected event"
        );
        assert!(adapter.orders().is_empty());
        assert!(adapter.events().is_empty(), "{}", adapter.events().join(" "));
    }
}

#[test]
fn an_anchor_over_the_hud_is_refused_without_capturing() {
    for target in BuildTarget::ALL {
        let mut adapter = FakeDesktop::new(3);
        adapter.set_cursor(Point::new(400, 1000));
        let cancel = adapter.cancel_flag();
        let report = run_row(&mut adapter, &cancel, timing(), RowMode::LeftToRight, target, false);
        assert!(matches!(report.outcome, Outcome::Aborted { .. }), "{target:?}");
        assert_eq!(report.detected, 0);
    }
}

#[test]
fn a_red_preview_is_never_clicked_in_strict_mode() {
    for target in BuildTarget::ALL {
        let mut adapter = FakeDesktop::new(2);
        adapter.set_preview(Preview::Red);
        let cancel = adapter.cancel_flag();
        let report = run_row(&mut adapter, &cancel, timing(), RowMode::LeftToRight, target, false);
        assert!(matches!(report.outcome, Outcome::Aborted { .. }), "{target:?}");
        assert_eq!(report.orders_issued, 0);
        assert_eq!(report.unconfirmed, 0, "nothing was clicked, nothing counted");
        assert_eq!(adapter.with(|game| game.escapes), 0);
        assert!(adapter.orders().is_empty());
        assert!(adapter.held().is_empty());
    }
}

#[test]
fn a_missing_preview_is_never_clicked_in_strict_mode() {
    for target in BuildTarget::ALL {
        let mut adapter = FakeDesktop::new(2);
        adapter.set_preview(Preview::Absent);
        let cancel = adapter.cancel_flag();
        let report = run_row(&mut adapter, &cancel, timing(), RowMode::LeftToRight, target, false);
        assert!(matches!(report.outcome, Outcome::Aborted { .. }), "{target:?}");
        assert_eq!(report.unconfirmed, 0, "nothing was clicked, nothing counted");
        assert_eq!(adapter.with(|game| game.escapes), 0);
        assert!(adapter.orders().is_empty());
    }
}

#[test]
fn force_mode_confirms_a_missing_preview_only_briefly_and_counts_once() {
    let mut adapter = FakeDesktop::new(2);
    adapter.set_preview(Preview::Absent);
    let cancel = adapter.cancel_flag();
    let started = Instant::now();
    let report = run_row(&mut adapter, &cancel, timing(), RowMode::LeftToRight, BuildTarget::Colony, true);
    let elapsed = started.elapsed();
    assert_eq!(report.outcome, Outcome::Completed);
    assert_eq!(report.orders_issued, 2);
    assert_eq!(report.unconfirmed, 2, "one count per forced order");
    assert!(report.unconfirmed <= report.orders_issued);
    assert_eq!(adapter.orders().len(), 2);
    assert!(elapsed < capture_timeout(), "forced mode spent {elapsed:?} on a preview it clicks anyway");
    let captures = adapter.with(|game| game.captures);
    assert!(captures <= 40, "forced mode polled the preview {captures} times");
}

#[test]
fn force_mode_clicks_a_red_preview_without_waiting_for_the_timeout() {
    let mut adapter = FakeDesktop::new(2);
    adapter.set_preview(Preview::Red);
    let cancel = adapter.cancel_flag();
    let report = run_row(&mut adapter, &cancel, timing(), RowMode::LeftToRight, BuildTarget::Colony, true);
    assert_eq!(report.outcome, Outcome::Completed);
    assert_eq!(report.orders_issued, 2);
    assert_eq!(report.unconfirmed, 2);
    assert_eq!(adapter.orders().len(), 2);
    let captures = adapter.with(|game| game.captures);
    assert!(captures <= 10, "red preview was polled {captures} times");
    assert_eq!(adapter.with(|game| game.escapes), 0);
}

#[test]
fn force_mode_bounds_an_ambiguous_preview_to_the_brief_window() {
    let mut adapter = FakeDesktop::new(2);
    adapter.set_preview(Preview::Ambiguous);
    let cancel = adapter.cancel_flag();
    let started = Instant::now();
    let report = run_row(&mut adapter, &cancel, timing(), RowMode::LeftToRight, BuildTarget::Colony, true);
    let elapsed = started.elapsed();
    assert_eq!(report.outcome, Outcome::Completed);
    assert_eq!(report.orders_issued, 2);
    assert_eq!(report.unconfirmed, 2);
    assert_eq!(adapter.orders().len(), 2);
    assert!(elapsed < capture_timeout(), "forced mode spent {elapsed:?} on an ambiguous preview");
    let captures = adapter.with(|game| game.captures);
    assert!(captures <= 40, "ambiguous preview was polled {captures} times");
}

#[test]
fn a_forced_click_that_never_closes_is_counted_once_and_escaped_once() {
    let mut adapter = FakeDesktop::new(2);
    adapter.set_preview(Preview::Red);
    adapter.set_placement_click_registers(false);
    let cancel = adapter.cancel_flag();
    let report = run_row(&mut adapter, &cancel, timing(), RowMode::LeftToRight, BuildTarget::Colony, true);
    assert_eq!(report.outcome, Outcome::Completed);
    assert_eq!(report.orders_issued, 2);
    assert_eq!(report.unconfirmed, 2, "one per issued order, never the pre- and post-click count");
    assert!(adapter.orders().is_empty(), "the fake game swallowed both clicks");
    assert_eq!(adapter.with(|game| game.escapes), 2, "one Escape per unclosed placement");
}

#[test]
fn an_ambiguous_preview_never_triggers_a_blind_escape() {
    let mut adapter = FakeDesktop::new(1);
    adapter.set_preview(Preview::Ambiguous);
    adapter.set_placement_click_registers(false);
    let cancel = adapter.cancel_flag();
    let report = run_row(&mut adapter, &cancel, timing(), RowMode::LeftToRight, BuildTarget::Colony, true);
    assert_eq!(report.outcome, Outcome::Completed);
    assert_eq!(report.orders_issued, 1);
    assert_eq!(report.unconfirmed, 1);
    assert_eq!(
        adapter.with(|game| game.escapes),
        0,
        "an ambiguous read cannot prove placement mode is open"
    );
    assert!(adapter.orders().is_empty());
}

#[test]
fn cancelling_during_the_forced_confirmation_never_counts_an_unsent_order() {
    let mut adapter = FakeDesktop::new(1);
    adapter.set_preview(Preview::Absent);
    adapter.cancel_after(12);
    let cancel = adapter.cancel_flag();
    let started = Instant::now();
    let report = run_row(&mut adapter, &cancel, timing(), RowMode::LeftToRight, BuildTarget::Colony, true);
    assert_eq!(report.outcome, Outcome::Cancelled);
    assert_eq!(report.orders_issued, 0);
    assert_eq!(report.unconfirmed, 0, "an unsent order is never counted");
    assert!(adapter.orders().is_empty());
    assert!(adapter.held().is_empty());
    assert!(started.elapsed() < capture_timeout(), "cancellation waited for the strict timeout");
}

#[test]
fn cancelling_before_start_does_not_even_move_or_capture() {
    let mut adapter = FakeDesktop::new(5);
    let cancel = adapter.cancel_flag();
    cancel.store(true, Ordering::SeqCst);
    let report = run_row(&mut adapter, &cancel, timing(), RowMode::LeftToRight, BuildTarget::Colony, true);
    assert_eq!(report.outcome, Outcome::Cancelled);
    assert_eq!(adapter.with(|game| game.ops), 0);
    assert!(adapter.events().is_empty());
}

#[test]
fn cancelling_mid_run_stops_and_releases_everything() {
    let mut adapter = FakeDesktop::new(5);
    adapter.cancel_after(8);
    let cancel = adapter.cancel_flag();
    let report = run_row(&mut adapter, &cancel, timing(), RowMode::LeftToRight, BuildTarget::Colony, true);
    assert_eq!(report.outcome, Outcome::Cancelled);
    assert!(adapter.held().is_empty());
    assert!(report.orders_issued <= 5);
}

#[test]
fn a_safety_refusal_stops_without_further_clicks() {
    let mut adapter = FakeDesktop::new(3);
    adapter.fail_after(6);
    let cancel = adapter.cancel_flag();
    let report = run_row(&mut adapter, &cancel, timing(), RowMode::LeftToRight, BuildTarget::Colony, true);
    assert!(matches!(report.outcome, Outcome::Failed { .. }));
    assert!(adapter.held().is_empty());
}

#[test]
fn a_grid_row_builds_twelve_drones_in_two_rows_of_six() {
    let mut adapter = FakeDesktop::new(12);
    adapter.set_cursor(Point::new(200, 400));
    let cancel = adapter.cancel_flag();
    let report = run_row(&mut adapter, &cancel, timing(), RowMode::Grid6x2, BuildTarget::Colony, true);
    assert_eq!(report.outcome, Outcome::Completed);
    assert_eq!(report.detected, 12);
    assert_eq!(report.orders_issued, 12);
    let orders = adapter.orders();
    assert_eq!(orders.len(), 12);
    assert_eq!(orders[0], Point::new(200, 400));
    assert_eq!(orders[5], Point::new(920, 400));
    assert_eq!(orders[6], Point::new(200, 256));
    assert_eq!(orders[11], Point::new(920, 256));
}

#[test]
fn a_selection_that_never_settles_stops_with_the_last_read() {
    // After the portrait click the fake game keeps the whole group selected
    // when the cursor misses the portrait, so the single-drone wait runs out.
    let mut adapter = FakeDesktop::new(3);
    adapter.with(|game| game.selected = vec![0, 1, 2]);
    adapter.set_morph_delay(1_000);
    let cancel = adapter.cancel_flag();
    let mut run = RowBuilder::new(timing(), RowMode::LeftToRight, BuildTarget::Colony, true);
    let mut event = RowEvent::Start;
    let mut clock: u64 = 0;
    let report = loop {
        event = match run.step(event) {
            RowAction::CheckCancel => RowEvent::CancelChecked { cancelled: cancel.load(Ordering::SeqCst) },
            RowAction::SafetyCheck => RowEvent::GateChecked(adapter.safety_check()),
            // The portrait clicks never land: only keys reach the game.
            RowAction::Send(Primitive::MouseLeftDown) | RowAction::Send(Primitive::MouseLeftUp) => {
                RowEvent::Sent(Ok(()))
            }
            RowAction::Send(primitive) => RowEvent::Sent(send(&mut adapter, primitive)),
            RowAction::Wait { .. } => {
                clock += 100;
                RowEvent::Waited { cancelled: false }
            }
            RowAction::MoveCursor(point) => RowEvent::Sent(adapter.move_cursor(point)),
            RowAction::ReadCursor => RowEvent::Cursor(adapter.cursor_position()),
            RowAction::ReadClock => RowEvent::Clock { now_ms: clock },
            RowAction::Capture => RowEvent::Captured { frame: adapter.capture_client(), now_ms: clock },
            RowAction::ReleaseAll => RowEvent::Sent(adapter.release_all()),
            RowAction::Finish => break run.report(),
        };
    };
    assert_eq!(
        report.outcome,
        Outcome::Aborted {
            detail: "the selection HUD did not reach the expected state in time (last read: \
                     Drones { count: 3 })"
                .to_owned()
        }
    );
    assert_eq!(report.orders_issued, 0);
    assert!(adapter.orders().is_empty());
}

#[test]
fn a_failed_release_turns_a_completed_row_into_a_failure() {
    let mut adapter = FakeDesktop::new(1);
    let cancel = adapter.cancel_flag();
    let mut run = RowBuilder::new(timing(), RowMode::LeftToRight, BuildTarget::Colony, true);
    let started = Instant::now();
    let mut event = RowEvent::Start;
    let report = loop {
        event = match run.step(event) {
            RowAction::CheckCancel => RowEvent::CancelChecked { cancelled: cancel.load(Ordering::SeqCst) },
            RowAction::SafetyCheck => RowEvent::GateChecked(adapter.safety_check()),
            RowAction::Send(primitive) => RowEvent::Sent(send(&mut adapter, primitive)),
            RowAction::Wait { ms } => RowEvent::Waited { cancelled: !wait(ms, &cancel) },
            RowAction::MoveCursor(point) => RowEvent::Sent(adapter.move_cursor(point)),
            RowAction::ReadCursor => RowEvent::Cursor(adapter.cursor_position()),
            RowAction::ReadClock => RowEvent::Clock { now_ms: started.elapsed().as_millis() as u64 },
            RowAction::Capture => RowEvent::Captured {
                frame: adapter.capture_client(),
                now_ms: started.elapsed().as_millis() as u64,
            },
            RowAction::ReleaseAll => RowEvent::Sent(Err(InputError::Injection("stuck key".to_owned()))),
            RowAction::Finish => break run.report(),
        };
    };
    assert_eq!(
        report.outcome,
        Outcome::Failed {
            detail: "could not release injected input: input injection failed: stuck key".to_owned()
        }
    );
    assert_eq!(report.orders_issued, 1);
}

/// Drives one capped row-build run against an adapter.
fn run_limited(
    adapter: &mut dyn DesktopAdapter,
    cancel: &AtomicBool,
    mode: RowMode,
    target: BuildTarget,
) -> ColonyReport {
    let started = Instant::now();
    let now = || started.elapsed().as_millis() as u64;
    let mut run = LimitedRowBuilder::new(timing(), mode, target, true);
    let mut event = RowEvent::Start;
    loop {
        assert!(run.expects(&event), "unexpected answer {event:?}");
        event = match run.step(event) {
            RowAction::CheckCancel => RowEvent::CancelChecked { cancelled: cancel.load(Ordering::SeqCst) },
            RowAction::SafetyCheck => RowEvent::GateChecked(adapter.safety_check()),
            RowAction::Send(primitive) => RowEvent::Sent(send(adapter, primitive)),
            RowAction::Wait { ms } => RowEvent::Waited { cancelled: !wait(ms, cancel) },
            RowAction::MoveCursor(point) => RowEvent::Sent(adapter.move_cursor(point)),
            RowAction::ReadCursor => RowEvent::Cursor(adapter.cursor_position()),
            RowAction::ReadClock => RowEvent::Clock { now_ms: now() },
            RowAction::Capture => {
                let frame = adapter.capture_client();
                RowEvent::Captured { frame, now_ms: now() }
            }
            RowAction::ReleaseAll => RowEvent::Sent(adapter.release_all()),
            RowAction::Finish => return run.report(),
        };
    }
}

#[test]
fn twelve_drones_in_a_single_row_are_trimmed_to_ten_first() {
    let mut adapter = FakeDesktop::new(12);
    adapter.set_cursor(Point::new(200, 400));
    let cancel = adapter.cancel_flag();
    let report = run_limited(&mut adapter, &cancel, RowMode::LeftToRight, BuildTarget::Colony);
    assert_eq!(report.outcome, Outcome::Completed);
    assert_eq!(report.detected, 10, "the row run reads the trimmed selection");
    assert_eq!(report.orders_issued, 10);
    let events = adapter.events();
    assert_eq!(events[0], "shift(11)");
    assert_eq!(events[1], "shift(10)");
    assert_eq!(events[2], "save9(10)");
    assert_eq!(adapter.orders().len(), 10);
    assert_eq!(adapter.orders()[9], Point::new(200 + 9 * 144, 400));
    assert!(adapter.held().is_empty());
}

#[test]
fn the_grid_mode_keeps_all_twelve_drones() {
    let mut adapter = FakeDesktop::new(12);
    adapter.set_cursor(Point::new(200, 400));
    let cancel = adapter.cancel_flag();
    let report = run_limited(&mut adapter, &cancel, RowMode::Grid6x2, BuildTarget::Colony);
    assert_eq!(report.outcome, Outcome::Completed);
    assert_eq!(report.detected, 12);
    assert_eq!(report.orders_issued, 12);
    assert_eq!(adapter.with(|game| game.shifts), 11, "only the row run's own travelling drones are removed");
    assert!(!adapter.events().iter().take(1).any(|event| event.starts_with("shift")));
}

#[test]
fn ten_drones_are_not_trimmed() {
    let mut adapter = FakeDesktop::new(10);
    adapter.set_cursor(Point::new(200, 400));
    let cancel = adapter.cancel_flag();
    let report = run_limited(&mut adapter, &cancel, RowMode::EndsInward, BuildTarget::Spire);
    assert_eq!(report.outcome, Outcome::Completed);
    assert_eq!(report.detected, 10);
    assert_eq!(report.orders_issued, 10);
    assert_eq!(adapter.events()[0], "save9(10)");
}

#[test]
fn a_capped_row_that_does_not_fit_is_refused_before_trimming() {
    let mut adapter = FakeDesktop::new(11);
    adapter.set_cursor(Point::new(800, 400));
    let cancel = adapter.cancel_flag();
    let mut run = LimitedRowBuilder::new(timing(), RowMode::LeftToRight, BuildTarget::Colony, true);
    assert_eq!(run.phase(), TrimPhase::Idle);
    let report = run_limited(&mut adapter, &cancel, RowMode::LeftToRight, BuildTarget::Colony);
    assert_eq!(
        report.outcome,
        Outcome::Aborted {
            detail: "8 of 10 buildings fit in a row from this cursor position; move the cursor \
                     left, lower the count, or build the row higher up the screen"
                .to_owned()
        }
    );
    assert_eq!(report.detected, 11);
    assert_eq!(report.orders_issued, 0);
    assert!(adapter.events().is_empty(), "no portrait was removed");
    let _ = run.step(RowEvent::Start);
    assert_eq!(run.phase(), TrimPhase::Queue);
}

