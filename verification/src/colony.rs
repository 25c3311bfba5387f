//! The row-build macro: the row planner, the order of its footprints and the
//! report of one run.
//!
//! The row is planned to the right of the cursor: the cursor's footprint is
//! the leftmost one and every further footprint sits exactly one footprint
//! further right (or, in the 6x2 mode, one row up after six). Every decision
//! is made on the clickpoint, never on the footprint box.
use vstd::prelude::*;
use vstd::seq_lib::{commutative_foldr, lemma_fold_right_permutation};
use vstd::string::*;

use crate::engine::{Outcome, RunReport};
use crate::frame::Point;
use crate::macros::{target_footprint, target_macro, BuildTarget};
use crate::play_area::{is_playable_point, playable};
use crate::text::{decimal, decimal_text, signed_decimal, signed_text, str_eq};
use crate::vision::{reject_detail, Placement, SelectionRead};

verus! {

/// Margin kept from the client edges so a click can never scroll the camera.
pub const EDGE_MARGIN: i32 = 48;
/// Coarse reference for where the bottom HUD starts; the real boundary is the
/// piecewise contour of [`crate::play_area::is_playable_point`].
pub const HUD_TOP: i32 = 680;
/// Slack between the cursor and the snapped footprint centre.
pub const SNAP_SLACK: i32 = 32;
/// Upper bound, in milliseconds, for one awaited screen transition in strict
/// mode.
pub const CAPTURE_TIMEOUT_MS: u64 = 1500;
/// A selection holds at most this many units.
pub const MAX_DRONES: u8 = 12;

/// Order in which the footprints of one planned row are built.
#[derive(Clone, Copy, Debug, PartialEq, Eq, Hash, Structural)]
pub enum RowMode {
    /// `0, 1, 2, ...`: walk the row from left to right (the default).
    LeftToRight,
    /// `0, count-1, 1, count-2, ...`: alternate the outermost remaining
    /// footprints, converging on the middle.
    EndsInward,
    /// 6 columns x 2 rows: 1..6 on the bottom row, 7..12 on the row above.
    Grid6x2,
}

/// Stable config-file spelling of each mode.
pub open spec fn mode_text(mode: RowMode) -> Seq<char> {
    match mode {
        RowMode::LeftToRight => "left_to_right"@,
        RowMode::EndsInward => "ends_inward"@,
        RowMode::Grid6x2 => "grid_6x2"@,
    }
}

/// The mode whose config spelling is `text`, if any.
pub open spec fn mode_from_text(text: Seq<char>) -> Option<RowMode> {
    if text == "left_to_right"@ {
        Some(RowMode::LeftToRight)
    } else if text == "ends_inward"@ {
        Some(RowMode::EndsInward)
    } else if text == "grid_6x2"@ {
        Some(RowMode::Grid6x2)
    } else {
        None
    }
}

/// Footprint index (`0` = leftmost) placed at placement step `step` of a row
/// of `count` footprints.
pub open spec fn footprint_at(mode: RowMode, step: int, count: int) -> int {
    match mode {
        RowMode::LeftToRight => step,
        RowMode::EndsInward => if step % 2 == 0 {
            step / 2
        } else {
            count - 1 - step / 2
        },
        RowMode::Grid6x2 => step % 6,
    }
}

impl Default for RowMode {
    fn default() -> (mode: Self)
        ensures
            mode == RowMode::LeftToRight,
    {
        RowMode::LeftToRight
    }
}

impl RowMode {
    /// Every selectable mode, in the order the GUI offers them.
    pub const ALL: [RowMode; 3] = [RowMode::LeftToRight, RowMode::EndsInward, RowMode::Grid6x2];

    /// Stable config-file spelling.
    pub fn as_str(self) -> (text: &'static str)
        ensures
            text@ == mode_text(self),
    {
        proof {
            reveal_strlit("left_to_right");
            reveal_strlit("ends_inward");
            reveal_strlit("grid_6x2");
        }
        match self {
            RowMode::LeftToRight => "left_to_right",
            RowMode::EndsInward => "ends_inward",
            RowMode::Grid6x2 => "grid_6x2",
        }
    }

    /// Parses [`Self::as_str`]. An unknown string is rejected, never guessed.
    pub fn from_str(value: &str) -> (mode: Option<Self>)
        ensures
            mode == mode_from_text(value@),
    {
        if str_eq(value, RowMode::LeftToRight.as_str()) {
            Some(RowMode::LeftToRight)
        } else if str_eq(value, RowMode::EndsInward.as_str()) {
            Some(RowMode::EndsInward)
        } else if str_eq(value, RowMode::Grid6x2.as_str()) {
            Some(RowMode::Grid6x2)
        } else {
            None
        }
    }

    /// Footprint index (`0` = leftmost) placed at placement step `step` in a
    /// row of `count` footprints.
    pub fn footprint_index(self, step: u8, count: u8) -> (index: u8)
        requires
            step < count,
        ensures
            index == footprint_at(self, step as int, count as int),
            index < count,
    {
        match self {
            RowMode::LeftToRight => step,
            RowMode::EndsInward => {
                let outer = step / 2;
                if step % 2 == 0 {
                    outer
                } else {
                    count - 1 - outer
                }
            },
            RowMode::Grid6x2 => step % 6,
        }
    }
}

/// A planned row of building footprints.
#[derive(Clone, Debug, PartialEq, Eq)]
pub struct RowPlan {
    /// Cursor position when the hotkey was pressed; the leftmost footprint.
    pub anchor: Point,
    /// Number of buildings in the row (`1..=12`).
    pub count: u8,
    /// Which building is ordered, and therefore the spacing.
    pub target: BuildTarget,
    /// Footprint centres in placement order.
    pub targets: Vec<Point>,
}

/// Why a row cannot be built at this anchor.
#[derive(Clone, Copy, Debug, PartialEq, Eq, Structural)]
pub enum RowError {
    /// The cursor is outside the safe playable area (screen edge or HUD).
    AnchorOutsideSafeArea,
    /// Somewhere in the row would fall outside the safe playable area.
    RowDoesNotFit {
        /// How many buildings were requested.
        count: u8,
        /// How many still fit from the same cursor position.
        fits: u8,
    },
}

/// English detail of a refusal.
pub open spec fn row_error_detail(e: RowError) -> Seq<char> {
    match e {
        RowError::AnchorOutsideSafeArea => "point the cursor at the build spot inside the play area (not the HUD or a screen edge)"@,
        RowError::RowDoesNotFit { .. } => "the requested row does not fit without reaching the HUD or the screen edge; move the cursor left or select fewer drones"@,
    }
}

/// English detail of a refusal, with the counts it saw.
pub open spec fn row_error_report(e: RowError) -> Seq<char> {
    match e {
        RowError::RowDoesNotFit { count, fits } => decimal_text(fits as nat) + " of "@
            + decimal_text(count as nat)
            + " buildings fit in a row from this cursor position; move the cursor left, lower the count, or build the row higher up the screen"@,
        _ => row_error_detail(e),
    }
}

impl RowError {
    /// English detail appended to the localized status line, with the counts
    /// a refusal actually saw.
    pub fn report_detail(self) -> (text: String)
        ensures
            text@ == row_error_report(self),
    {
        match self {
            RowError::RowDoesNotFit { count, fits } => {
                let mut text = decimal(fits as u128);
                text.append(" of ");
                let c = decimal(count as u128);
                text.append(c.as_str());
                text.append(
                    " buildings fit in a row from this cursor position; move the cursor left, lower the count, or build the row higher up the screen",
                );
                text
            },
            other => String::from_str(other.detail()),
        }
    }

    /// English detail appended to the localized status line.
    pub fn detail(self) -> (text: &'static str)
        ensures
            text@ == row_error_detail(self),
    {
        match self {
            RowError::AnchorOutsideSafeArea => {
                "point the cursor at the build spot inside the play area (not the HUD or a screen edge)"
            },
            RowError::RowDoesNotFit { .. } => {
                "the requested row does not fit without reaching the HUD or the screen edge; move the cursor left or select fewer drones"
            },
        }
    }
}

/// `count` clamped to `1..=12`.
pub open spec fn clamp_count(count: u8) -> int {
    if count < 1 {
        1
    } else if count > MAX_DRONES {
        MAX_DRONES as int
    } else {
        count as int
    }
}

/// The clickpoint of placement step `step`: one footprint further right per
/// footprint index, and for the 6x2 mode one footprint further up per six.
pub open spec fn row_point(anchor: Point, step: int, count: int, mode: RowMode, fp: int) -> Point {
    match mode {
        RowMode::Grid6x2 => Point {
            x: (anchor.x + fp * (step % 6)) as i32,
            y: (anchor.y - fp * (step / 6)) as i32,
        },
        _ => Point { x: (anchor.x + fp * footprint_at(mode, step, count)) as i32, y: anchor.y },
    }
}

/// All clickpoints of a row, in placement order.
pub open spec fn row_points(anchor: Point, count: int, mode: RowMode, fp: int) -> Seq<Point> {
    Seq::new(count as nat, |step: int| row_point(anchor, step, count, mode, fp))
}

/// How many of `points` are playable clickpoints.
pub open spec fn playable_count(points: Seq<Point>) -> nat
    decreases points.len(),
{
    if points.len() == 0 {
        0
    } else {
        playable_count(points.drop_last()) + if playable(points.last()) {
            1nat
        } else {
            0nat
        }
    }
}

/// The result [`plan_row`] gives: refused when the anchor is not playable, or
/// when fewer than all of the row's clickpoints are playable (with how many
/// are); otherwise the row.
pub open spec fn planned_row(anchor: Point, count: u8, mode: RowMode, target: BuildTarget) -> Result<
    (u8, Seq<Point>),
    RowError,
> {
    let n = clamp_count(count);
    let points = row_points(anchor, n, mode, target_footprint(target) as int);
    if !playable(anchor) {
        Err(RowError::AnchorOutsideSafeArea)
    } else if playable_count(points) < n {
        Err(RowError::RowDoesNotFit { count: n as u8, fits: playable_count(points) as u8 })
    } else {
        Ok((n as u8, points))
    }
}

proof fn lemma_playable_count_bound(points: Seq<Point>)
    ensures
        playable_count(points) <= points.len(),
    decreases points.len(),
{
    if points.len() > 0 {
        lemma_playable_count_bound(points.drop_last());
    }
}

/// When every point of a row is counted playable, each one is.
proof fn lemma_all_counted_playable(points: Seq<Point>)
    requires
        playable_count(points) >= points.len(),
    ensures
        forall|i: int| 0 <= i < points.len() ==> playable(#[trigger] points[i]),
    decreases points.len(),
{
    if points.len() > 0 {
        let rest = points.drop_last();
        lemma_playable_count_bound(rest);
        lemma_all_counted_playable(rest);
        assert forall|i: int| 0 <= i < points.len() implies playable(#[trigger] points[i]) by {
            if i < rest.len() {
                assert(points[i] == rest[i]);
            }
        }
    }
}

/// A planned row starts at a playable anchor and has exactly one playable
/// footprint per building, `1..=12` of them: a row that would reach the HUD
/// or a screen edge anywhere is refused as a whole.
pub proof fn lemma_planned_row_is_playable(anchor: Point, count: u8, mode: RowMode, target: BuildTarget)
    ensures
        planned_row(anchor, count, mode, target) matches Ok((n, points)) ==> {
            &&& playable(anchor)
            &&& n as int == clamp_count(count)
            &&& 1 <= n <= 12
            &&& points.len() == n
            &&& forall|i: int| 0 <= i < points.len() ==> playable(#[trigger] points[i])
        },
{
    let n = clamp_count(count);
    let points = row_points(anchor, n, mode, target_footprint(target) as int);
    if planned_row(anchor, count, mode, target) is Ok {
        lemma_all_counted_playable(points);
    }
}

/// The clickpoint of footprint index `k` of a horizontal row.
pub open spec fn footprint_point(anchor: Point, fp: int, k: int) -> Point {
    Point { x: (anchor.x + fp * k) as i32, y: anchor.y }
}

/// The footprint indices of a row of `n`, in placement order.
pub open spec fn footprint_order(mode: RowMode, n: int) -> Seq<int> {
    Seq::new(n as nat, |step: int| footprint_at(mode, step, n))
}

/// Counts the playable clickpoints among footprint indices, one at a time.
pub open spec fn count_playable_index(anchor: Point, fp: int) -> spec_fn(int, int) -> int {
    |k: int, acc: int| acc + if playable(footprint_point(anchor, fp, k)) {
        1int
    } else {
        0int
    }
}

/// A horizontal row is its footprint order, each index at its clickpoint.
proof fn lemma_horizontal_row_points(anchor: Point, n: int, mode: RowMode, fp: int)
    requires
        mode != RowMode::Grid6x2,
        n >= 0,
    ensures
        row_points(anchor, n, mode, fp) == footprint_order(mode, n).map_values(
            |k: int| footprint_point(anchor, fp, k),
        ),
{
    assert(row_points(anchor, n, mode, fp) =~= footprint_order(mode, n).map_values(
        |k: int| footprint_point(anchor, fp, k),
    ));
}

/// Counting playable clickpoints by folding over the indices gives the
/// playable count of the row, offset by the start value.
proof fn lemma_fold_counts_playable(anchor: Point, fp: int, ks: Seq<int>, b: int)
    ensures
        ks.fold_right(count_playable_index(anchor, fp), b) == b + playable_count(
            ks.map_values(|k: int| footprint_point(anchor, fp, k)),
        ),
    decreases ks.len(),
{
    let g = |k: int| footprint_point(anchor, fp, k);
    if ks.len() > 0 {
        let f = count_playable_index(anchor, fp);
        lemma_fold_counts_playable(anchor, fp, ks.drop_last(), f(ks.last(), b));
        assert(ks.map_values(g).drop_last() =~= ks.drop_last().map_values(g));
    } else {
        assert(ks.map_values(g).len() == 0);
    }
}

/// No footprint index repeats in the ends-inward order, and the order holds
/// exactly the indices `0..n`.
proof fn lemma_ends_inward_order(n: int)
    requires
        n >= 0,
    ensures
        footprint_order(RowMode::EndsInward, n).no_duplicates(),
        forall|k: int|
            footprint_order(RowMode::EndsInward, n).contains(k) <==> 0 <= k < n,
{
    let o = footprint_order(RowMode::EndsInward, n);
    assert forall|i: int, j: int| 0 <= i < o.len() && 0 <= j < o.len() && i != j implies o[i]
        != o[j] by {}
    assert forall|k: int| o.contains(k) <==> 0 <= k < n by {
        if 0 <= k < n {
            if 2 * k < n {
                assert(o[2 * k] == k);
            } else {
                assert(o[2 * (n - 1 - k) + 1] == k);
            }
        }
    }
}

/// Ends-inward order and left-to-right order hold the same footprint
/// indices, each once.
proof fn lemma_orders_are_permutations(n: int)
    requires
        n >= 0,
    ensures
        footprint_order(RowMode::EndsInward, n).to_multiset() == footprint_order(
            RowMode::LeftToRight,
            n,
        ).to_multiset(),
{
    broadcast use vstd::seq_lib::group_to_multiset_ensures;

    let a = footprint_order(RowMode::EndsInward, n);
    let b = footprint_order(RowMode::LeftToRight, n);
    lemma_ends_inward_order(n);
    assert(b.no_duplicates());
    a.lemma_multiset_has_no_duplicates();
    b.lemma_multiset_has_no_duplicates();
    assert forall|k: int| a.to_multiset().count(k) == b.to_multiset().count(k) by {
        if 0 <= k < n {
            assert(b[k] == k);
            assert(b.contains(k));
            assert(a.contains(k));
        } else {
            assert(!a.contains(k));
            assert(!b.contains(k));
        }
    }
    assert(a.to_multiset() =~= b.to_multiset());
}

/// Both horizontal modes plan the same span: for every anchor, count and
/// target, the left-to-right and the ends-inward plans are refused with the
/// same error, or both succeed with the same number of buildings, both start
/// at the anchor and hold the same clickpoints (only their order differs).
pub proof fn lemma_horizontal_modes_plan_the_same_span(
    anchor: Point,
    count: u8,
    target: BuildTarget,
)
    ensures
        match (
            planned_row(anchor, count, RowMode::LeftToRight, target),
            planned_row(anchor, count, RowMode::EndsInward, target),
        ) {
            (Ok((n1, p1)), Ok((n2, p2))) => {
                &&& n1 == n2
                &&& p1[0] == anchor && p2[0] == anchor
                &&& forall|q: Point| p1.contains(q) <==> p2.contains(q)
            },
            (Err(e1), Err(e2)) => e1 == e2,
            _ => false,
        },
{
    let n = clamp_count(count);
    let fp = target_footprint(target) as int;
    let g = |k: int| footprint_point(anchor, fp, k);
    let f = count_playable_index(anchor, fp);
    let l = footprint_order(RowMode::LeftToRight, n);
    let e = footprint_order(RowMode::EndsInward, n);
    lemma_horizontal_row_points(anchor, n, RowMode::LeftToRight, fp);
    lemma_horizontal_row_points(anchor, n, RowMode::EndsInward, fp);
    lemma_orders_are_permutations(n);
    assert(commutative_foldr(f)) by {
        assert forall|x: int, y: int, v: int| #[trigger] f(x, f(y, v)) == f(y, f(x, v)) by {}
    }
    lemma_fold_right_permutation(e, l, f, 0);
    lemma_fold_counts_playable(anchor, fp, l, 0);
    lemma_fold_counts_playable(anchor, fp, e, 0);
    let p1 = row_points(anchor, n, RowMode::LeftToRight, fp);
    let p2 = row_points(anchor, n, RowMode::EndsInward, fp);
    assert(playable_count(p1) == playable_count(p2));
    assert(p1[0] == anchor && p2[0] == anchor);
    lemma_ends_inward_order(n);
    assert forall|q: Point| p1.contains(q) <==> p2.contains(q) by {
        if p1.contains(q) {
            let i = choose|i: int| 0 <= i < p1.len() && p1[i] == q;
            assert(l[i] == i);
            assert(e.contains(i));
            let j = choose|j: int| 0 <= j < e.len() && e[j] == i;
            assert(p2[j] == q);
        }
        if p2.contains(q) {
            let j = choose|j: int| 0 <= j < p2.len() && p2[j] == q;
            assert(e.contains(e[j]));
            assert(p1[e[j]] == q);
        }
    }
}

/// Plans the row for `target` and refuses anything that would touch the HUD
/// or an edge. A row whose later clickpoint leaves the play area is wholly
/// refused, and the refusal says how many footprints of the span still fit.
pub fn plan_row(anchor: Point, count: u8, mode: RowMode, target: BuildTarget) -> (result: Result<
    RowPlan,
    RowError,
>)
    ensures
        match (result, planned_row(anchor, count, mode, target)) {
            (Ok(plan), Ok((n, points))) => plan.anchor == anchor && plan.count == n && plan.target
                == target && plan.targets@ == points,
            (Err(e), Err(f)) => e == f,
            _ => false,
        },
{
    let count: u8 = if count < 1 {
        1
    } else if count > MAX_DRONES {
        MAX_DRONES
    } else {
        count
    };
    let footprint = target.footprint_px();
    if !is_playable_point(anchor) {
        return Err(RowError::AnchorOutsideSafeArea);
    }
    let ghost points = row_points(anchor, count as int, mode, footprint as int);
    let mut targets: Vec<Point> = Vec::new();
    let mut fits: u8 = 0;
    let mut step: u8 = 0;
    while step < count
        invariant
            1 <= count <= 12,
            step <= count,
            footprint == 144,
            playable(anchor),
            points == row_points(anchor, count as int, mode, footprint as int),
            targets@ == points.take(step as int),
            fits == playable_count(points.take(step as int)),
            fits <= step,
        decreases count - step,
    {
        let point = match mode {
            RowMode::Grid6x2 => {
                let column = (step % 6) as i32;
                let row = (step / 6) as i32;
                Point { x: anchor.x + footprint * column, y: anchor.y - footprint * row }
            },
            _ => {
                let index = mode.footprint_index(step, count) as i32;
                Point { x: anchor.x + footprint * index, y: anchor.y }
            },
        };
        assert(point == points[step as int]);
        targets.push(point);
        if is_playable_point(point) {
            fits = fits + 1;
        }
        proof {
            assert(points.take(step + 1).drop_last() =~= points.take(step as int));
            assert(targets@ =~= points.take(step + 1));
        }
        step = step + 1;
    }
    proof {
        assert(points.take(count as int) =~= points);
    }
    if fits < count {
        return Err(RowError::RowDoesNotFit { count, fits });
    }
    Ok(RowPlan { anchor, count, target, targets })
}

/// How a row-build run ended, plus the counts the GUI reports.
#[derive(Clone, Debug, PartialEq, Eq)]
pub struct ColonyReport {
    pub outcome: Outcome,
    /// Which building was ordered.
    pub target: BuildTarget,
    /// Buildings for which the build keys and a click were actually issued.
    pub orders_issued: u8,
    /// Drones the HUD reported before the first order (`0` if unreadable).
    pub detected: u8,
    /// Orders issued although the green placement preview could not be
    /// confirmed (only possible with the forced mode).
    pub unconfirmed: u8,
}

impl ColonyReport {
    /// Converts to the engine report the GUI already knows how to display:
    /// `steps_done` is orders issued, `steps_total` the detected count, and
    /// the macro id says which building was ordered.
    pub fn into_run_report(self) -> (report: RunReport)
        ensures
            report.macro_id == target_macro(self.target),
            report.outcome == self.outcome,
            report.steps_done == self.orders_issued,
            report.steps_total == self.detected,
            report.unconfirmed == self.unconfirmed,
    {
        RunReport {
            macro_id: self.target.macro_id(),
            outcome: self.outcome,
            steps_done: self.orders_issued as usize,
            steps_total: self.detected as usize,
            unconfirmed: self.unconfirmed as usize,
        }
    }
}


/// Upper bound, in milliseconds, for one awaited preview transition in the
/// forced mode.
pub const FORCE_CONFIRM_TIMEOUT_MS: u64 = 200;

/// How long one placement transition may take: brief in the forced mode,
/// [`CAPTURE_TIMEOUT_MS`] in the strict mode.
pub fn confirm_timeout_ms(force: bool) -> (ms: u64)
    ensures
        ms == if force { 200u64 } else { 1500u64 },
{
    if force {
        FORCE_CONFIRM_TIMEOUT_MS
    } else {
        CAPTURE_TIMEOUT_MS
    }
}

/// Gap between screenshot attempts: the configured gap, but never a busy
/// loop.
pub fn ui_poll_ms(gap_ms: u64) -> (ms: u64)
    ensures
        ms == if gap_ms > 20 { gap_ms } else { 20 },
{
    if gap_ms > 20 {
        gap_ms
    } else {
        20
    }
}

/// The drone count a first selection read allows, or why the run stops.
pub open spec fn selection_drones(read: SelectionRead) -> Result<u8, Seq<char>> {
    match read {
        SelectionRead::Rejected(reason) => Err(reject_detail(reason)),
        SelectionRead::SingleDrone => Ok(1),
        SelectionRead::Drones { count } => Ok(count),
    }
}

/// The drone count of a first selection read, or the refusal detail.
pub fn selection_count(read: SelectionRead) -> (result: Result<u8, String>)
    ensures
        match (result, selection_drones(read)) {
            (Ok(n), Ok(m)) => n == m,
            (Err(d), Err(m)) => d@ == m,
            _ => false,
        },
{
    match read {
        SelectionRead::Rejected(reason) => Err(String::from_str(reason.detail())),
        SelectionRead::SingleDrone => Ok(1),
        SelectionRead::Drones { count } => Ok(count),
    }
}

/// After a portrait click the HUD must show exactly one selected drone.
pub fn single_accepts(read: SelectionRead) -> (yes: bool)
    ensures
        yes == (read is SingleDrone),
{
    match read {
        SelectionRead::SingleDrone => true,
        _ => false,
    }
}

/// After recalling group 9 the live count must be `pool` or `pool - 1`; at
/// `pool == 2` the single information panel is fine too.
pub open spec fn recall_ok(read: SelectionRead, pool: u8) -> bool {
    match read {
        SelectionRead::Drones { count } => count == pool || count == pool - 1,
        SelectionRead::SingleDrone => pool == 2,
        SelectionRead::Rejected(_) => false,
    }
}

/// Whether a read after recalling group 9 is acceptable.
pub fn recall_accepts(read: SelectionRead, pool: u8) -> (yes: bool)
    ensures
        yes == recall_ok(read, pool),
{
    match read {
        SelectionRead::Drones { count } => count as i32 == pool as i32 || count as i32 == pool
            as i32 - 1,
        SelectionRead::SingleDrone => pool == 2,
        SelectionRead::Rejected(_) => false,
    }
}

/// The drone count an accepted recall read shows.
pub fn recalled_count(read: SelectionRead) -> (n: u8)
    requires
        !(read is Rejected),
    ensures
        n == match read {
            SelectionRead::Drones { count } => count,
            _ => 1u8,
        },
{
    match read {
        SelectionRead::Drones { count } => count,
        _ => 1,
    }
}

/// After removing the travelling drone the pool must be exactly `count`.
pub fn count_accepts(read: SelectionRead, count: u8) -> (yes: bool)
    ensures
        yes == match read {
            SelectionRead::Drones { count: found } => found == count,
            SelectionRead::SingleDrone => count == 1,
            SelectionRead::Rejected(_) => false,
        },
{
    match read {
        SelectionRead::Drones { count: found } => found == count,
        SelectionRead::SingleDrone => count == 1,
        SelectionRead::Rejected(_) => false,
    }
}

/// What to do with one preview read before the click.
#[derive(Clone, Debug, PartialEq, Eq)]
pub enum PreviewStep {
    /// Read again after the poll gap.
    Poll,
    /// Click now; `confirmed` says whether a green preview was seen.
    Click { confirmed: bool },
    /// Stop the run without clicking.
    Refuse { detail: String },
}

/// `(x, y)` with the point's coordinates.
pub open spec fn coords_text(p: Point) -> Seq<char> {
    "("@ + signed_text(p.x as int) + ", "@ + signed_text(p.y as int) + ")"@
}

/// The decision for one preview read at `point`: green clicks; in the strict
/// mode a red or ambiguous preview refuses at once and a missing one refuses
/// when the wait runs out; in the forced mode a red preview is clicked at
/// once (it cannot turn green while the cursor stays put), while a missing or
/// ambiguous one is polled until the brief wait runs out and then clicked.
pub open spec fn preview_decision(read: Placement, force: bool, expired: bool, point: Point) -> (
    bool,
    bool,
    Seq<char>,
) {
    // (click, confirmed, refusal detail); neither click nor refusal means poll
    match read {
        Placement::Valid { .. } => (true, true, seq![]),
        Placement::Invalid { .. } => if !force {
            (false, false, "the placement preview at "@ + coords_text(point)
                + " is blocked (red) or ambiguous; no click was sent"@)
        } else {
            (true, false, seq![])
        },
        Placement::Ambiguous => if !force {
            (false, false, "the placement preview at "@ + coords_text(point)
                + " is blocked (red) or ambiguous; no click was sent"@)
        } else if expired {
            (true, false, seq![])
        } else {
            (false, false, seq![])
        },
        Placement::Absent => if !expired {
            (false, false, seq![])
        } else if force {
            (true, false, seq![])
        } else {
            (false, false, "no valid green placement preview appeared at "@ + coords_text(point)
                + "; no click was sent"@)
        },
    }
}

/// `(x, y)`.
fn coords_string(p: Point) -> (text: String)
    ensures
        text@ == coords_text(p),
{
    let mut t = String::from_str("(");
    t.append(signed_decimal(p.x as i64).as_str());
    t.append(", ");
    t.append(signed_decimal(p.y as i64).as_str());
    t.append(")");
    t
}

/// Decides what one preview read means; `expired` says whether the
/// confirmation wait has run out.
pub fn preview_step(read: Placement, force: bool, expired: bool, point: Point) -> (step: PreviewStep)
    ensures
        ({
            let (click, confirmed, detail) = preview_decision(read, force, expired, point);
            match step {
                PreviewStep::Click { confirmed: c } => click && c == confirmed,
                PreviewStep::Refuse { detail: d } => !click && d@ == detail && detail.len() > 0,
                PreviewStep::Poll => !click && detail.len() == 0,
            }
        }),
{
    let blocked = (!force) && match read {
        Placement::Invalid { .. } | Placement::Ambiguous => true,
        _ => false,
    };
    if blocked {
        let mut d = String::from_str("the placement preview at ");
        d.append(coords_string(point).as_str());
        d.append(" is blocked (red) or ambiguous; no click was sent");
        proof {
            reveal_strlit(" is blocked (red) or ambiguous; no click was sent");
        }
        return PreviewStep::Refuse { detail: d };
    }
    match read {
        Placement::Valid { .. } => PreviewStep::Click { confirmed: true },
        Placement::Invalid { .. } => PreviewStep::Click { confirmed: false },
        Placement::Ambiguous => {
            if expired {
                PreviewStep::Click { confirmed: false }
            } else {
                PreviewStep::Poll
            }
        },
        Placement::Absent => {
            if !expired {
                PreviewStep::Poll
            } else if force {
                PreviewStep::Click { confirmed: false }
            } else {
                let mut d = String::from_str("no valid green placement preview appeared at ");
                d.append(coords_string(point).as_str());
                d.append("; no click was sent");
                proof {
                    reveal_strlit("; no click was sent");
                }
                PreviewStep::Refuse { detail: d }
            }
        },
    }
}

/// What to do with one preview read after the click.
#[derive(Clone, Debug, PartialEq, Eq)]
pub enum CloseStep {
    /// Read again after the poll gap.
    Poll,
    /// The preview closed: the order was placed.
    Closed,
    /// The forced mode gives up waiting; `escape` says whether to tap Escape
    /// once, which only a positively detected preview justifies.
    Stuck { escape: bool },
    /// The strict mode stops the run.
    Refuse { detail: String },
}

/// Decides what one read after the click means: a closed preview confirms the
/// order; when the wait runs out the strict mode stops, and the forced mode
/// moves on, leaving placement mode with one Escape only when the read still
/// shows a preview (an ambiguous read cannot prove placement mode is open).
pub fn close_step(read: Placement, force: bool, expired: bool) -> (step: CloseStep)
    ensures
        read is Absent ==> step == CloseStep::Closed,
        !(read is Absent) && !expired ==> step == CloseStep::Poll,
        !(read is Absent) && expired && force ==> step == (CloseStep::Stuck {
            escape: read is Valid || read is Invalid,
        }),
        !(read is Absent) && expired && !force ==> (step matches CloseStep::Refuse { detail }
            && detail@ == "the placement preview did not close after the click; stopping"@),
{
    match read {
        Placement::Absent => CloseStep::Closed,
        _ => {
            if !expired {
                CloseStep::Poll
            } else if !force {
                CloseStep::Refuse {
                    detail: String::from_str(
                        "the placement preview did not close after the click; stopping",
                    ),
                }
            } else {
                let escape = match read {
                    Placement::Valid { .. } | Placement::Invalid { .. } => true,
                    _ => false,
                };
                CloseStep::Stuck { escape }
            }
        },
    }
}

/// An issued order counts as unconfirmed exactly once: when it was clicked
/// without a green preview, or its preview never closed.
pub fn counts_unconfirmed(confirmed: bool, closed: bool) -> (yes: bool)
    ensures
        yes == (!confirmed || !closed),
{
    !confirmed || !closed
}

/// The strict mode never clicks without a confirmed green preview.
pub proof fn lemma_strict_mode_clicks_only_green(read: Placement, expired: bool, point: Point)
    ensures
        preview_decision(read, false, expired, point).0 ==> read is Valid && preview_decision(
            read,
            false,
            expired,
            point,
        ).1,
{
}

} // verus!
