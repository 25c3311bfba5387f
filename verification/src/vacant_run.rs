//! One saved-view (F4) Colony search, as a state machine.
//!
//! The run reads a group of 2–12 selected drones, recalls the saved camera
//! location with F4, saves the group into scratch control group 9 and then
//! places one Colony per drone. Candidate points are probes, not inferred
//! free land: a world click is sent only after two reads of the same
//! candidate both show a fresh green placement preview at the same snapped
//! centre, with the scene unchanged since the baseline read. After the click
//! the preview must close, and the next drone is only touched once the
//! ordered drone was positively seen starting to morph: two consecutive
//! single-unit panel reads showing the morphing Colony, with something new at
//! the ordered site and the site view stable between them.
//!
//! Each probe, order and wait is bounded: a probe cap for the run and for one
//! drone, a per-candidate attempt cap, a search time budget, a per-order
//! construction budget and a whole-run budget. Every cursor move, key press
//! and click comes after a look at the cancellation flag and the adapter's
//! safety gate; every path ends with the adapter's `release_all`, after one
//! best-effort Escape when a placement preview is positively still open.
//!
//! The decisions are [`VacantRun`]; the application performs each
//! [`VacantAction`] and hands back what happened as a [`VacantEvent`]. The
//! panel read that tells whether the selected unit is a morphing Colony is
//! the application's: it answers [`VacantAction::CapturePanel`] with the
//! capture and that verdict.
use vstd::prelude::*;
use vstd::string::*;

use crate::colony::{ui_poll_ms, CAPTURE_TIMEOUT_MS};
use crate::colony_run::{
    accepts, chord_ops, click_ops, keys_ops, selection_timeout_text, shift_click_ops, tap_ops,
    Expect, Op,
};
use crate::engine::{outcome_is, Ending};
use crate::frame::{sampled_dark, Frame, FrameView, Point, Rect};
use crate::input::{input_error_text, InputError};
use crate::macros::{BuildTarget, Key, Primitive, Timing};
use crate::vacant_colony::{
    apart, clear_of, footprint_safe, fresh_green_of, same_view_of, site_changed_of,
    VacantColonyReport,
};
use crate::vision::{placement_of, selection_of, slot_point, Placement, SelectionRead};

verus! {

/// Probes across the whole run.
pub const MAX_PROBES: usize = 384;
/// Probes spent searching for one drone, over both passes.
pub const MAX_PROBES_PER_DRONE: usize = 128;
/// Failed probes after which a candidate is dropped for the run.
pub const MAX_ATTEMPTS: u8 = 2;
/// Probes kept for the delayed revisit pass of one drone.
pub const REVISIT_RESERVE: usize = 8;
/// Probes of one drone after which a run that never confirmed a green
/// preview gives up.
pub const NO_CONFIRM_GIVE_UP: usize = 24;
/// Consecutive positive panel reads that confirm a construction start.
pub const CONSTRUCTION_CONFIRM_READS: usize = 2;
/// Camera settle after F4, and the least pause before a revisit pass.
pub const CAMERA_SETTLE_MS: u64 = 200;
/// Default search budget outside the construction waits.
pub const SEARCH_BUDGET_MS: u64 = 60_000;
/// Default wait for one order's construction start.
pub const CONSTRUCTION_BUDGET_MS: u64 = 30_000;
/// Default whole-run budget: the search budget plus one construction wait
/// for each of twelve drones.
pub const RUN_BUDGET_MS: u64 = 420_000;

/// The time budgets of one run, in milliseconds.
#[derive(Clone, Copy, Debug, PartialEq, Eq, Structural)]
pub struct Budgets {
    /// Candidate probing, not counting the construction waits.
    pub search_ms: u64,
    /// The wait of one order for its construction start.
    pub construction_ms: u64,
    /// The whole run.
    pub run_ms: u64,
}

impl Budgets {
    /// The default budgets.
    pub fn standard() -> (b: Self)
        ensures
            b == (Budgets { search_ms: 60_000, construction_ms: 30_000, run_ms: 420_000 }),
    {
        Budgets {
            search_ms: SEARCH_BUDGET_MS,
            construction_ms: CONSTRUCTION_BUDGET_MS,
            run_ms: RUN_BUDGET_MS,
        }
    }
}

/// What a capture is taken for.
#[derive(Clone, Copy, Debug, PartialEq, Eq, Structural)]
pub enum Shot {
    /// The first full read: the selected group.
    Initial,
    /// The full read right after F4: the saved view.
    Saved,
    /// The full read with one drone selected, before its search.
    Baseline,
    /// The first read of a candidate's preview.
    First,
    /// The second read of a candidate's preview.
    Second,
    /// A read of the candidate after the click: has the preview closed?
    Closing,
    /// A full read of the selection panel during the construction wait.
    Panel,
    /// A read of the ordered site during the construction wait.
    Site,
    /// The read of a still open preview before the final Escape.
    Cleanup,
}

/// What the clock is read for.
#[derive(Clone, Copy, Debug, PartialEq, Eq, Structural)]
pub enum Tick {
    /// The search starts: set the deadlines.
    SearchStart,
    /// A drone is about to be picked: check the deadlines.
    DroneTop,
    /// A candidate is about to be probed: check the caps and deadlines.
    Probe,
    /// The click is about to be sent: check the deadlines.
    Order,
    /// The click was sent: start the close and construction waits.
    Closing,
    /// A construction start was confirmed: give the search its waiting time
    /// back.
    Extend,
}

/// What the cursor is read for.
#[derive(Clone, Copy, Debug, PartialEq, Eq, Structural)]
pub enum Look {
    /// Right before the click: it must rest on the candidate.
    Order,
    /// At the start of the construction wait: remember it.
    Expected,
    /// During the construction wait: it must not have moved.
    Moved,
}

/// What a selection wait is for.
#[derive(Clone, Copy, Debug, PartialEq, Eq, Structural)]
pub enum Pick {
    /// The whole group, right after F4.
    Group,
    /// One drone, picked from the group.
    Single,
    /// Group 9 recalled after an order.
    Recall,
    /// Group 9 without the ordered drone.
    Trim,
}

/// What follows the current fixed sequence.
#[derive(Clone, Copy, Debug, PartialEq, Eq, Structural)]
pub enum VacantStage {
    /// Take this capture.
    Take(Shot),
    /// Check this capture, which was just taken.
    Check(Shot),
    /// Read the clock for this purpose.
    Clock(Tick),
    /// Read the cursor for this purpose.
    Cursor(Look),
    /// Wait for this selection.
    Select(Pick),
    /// The cursor rests on the candidate: read its preview.
    Probed,
    /// The world mouse-down was sent: count the order, release the button.
    Pressed,
    /// Group 9 was saved again: pick the next drone.
    Resaved,
    /// The build keys were tapped: search the candidates.
    Keyed,
    /// The pause before the revisit pass.
    Revisit,
    /// The final Escape was tapped.
    Escaped,
}

/// Where a [`VacantRun`] stands.
#[derive(Clone, Copy, Debug, PartialEq, Eq, Structural)]
pub enum VacantPhase {
    /// Not started: waits for [`VacantEvent::Start`].
    Idle,
    /// Working through a fixed sequence of [`Op`]s.
    Queue,
    /// A capture is in flight.
    Shooting,
    /// Reading the clock.
    Clock,
    /// Reading the cursor position.
    Cursor,
    /// A selection wait reads the clock as it starts.
    SelClock,
    /// A selection wait looks at the cancellation flag.
    SelCancel,
    /// A selection wait captures the client.
    SelCapture,
    /// A selection wait pauses before the next capture.
    SelPause,
    /// Calling the adapter's closing `release_all`.
    Releasing,
    /// The run is over.
    Done,
}

/// What the run asks the application to do next.
#[derive(Clone, Copy, Debug, PartialEq, Eq, Structural)]
pub enum VacantAction {
    /// Read the cancellation flag; answer [`VacantEvent::CancelChecked`].
    CheckCancel,
    /// Run the adapter's safety gate; answer [`VacantEvent::GateChecked`].
    SafetyCheck,
    /// Inject this event; answer [`VacantEvent::Sent`].
    Send(Primitive),
    /// Wait this long, polling the cancellation flag; answer
    /// [`VacantEvent::Waited`].
    Wait { ms: u64 },
    /// Move the cursor; answer [`VacantEvent::Sent`].
    MoveCursor(Point),
    /// Read the cursor position; answer [`VacantEvent::Cursor`].
    ReadCursor,
    /// Read the monotonic clock; answer [`VacantEvent::Clock`].
    ReadClock,
    /// Capture the whole client; answer [`VacantEvent::Captured`].
    CaptureClient,
    /// Capture this screen region; answer [`VacantEvent::Captured`].
    CaptureRegion(Rect),
    /// Capture the whole client and tell whether its selection panel shows
    /// a morphing Colony; answer [`VacantEvent::Panel`].
    CapturePanel,
    /// Call the adapter's `release_all`; answer [`VacantEvent::Sent`].
    ReleaseAll,
    /// The run is over; [`VacantRun::report`] tells how it ended.
    Finish,
}

/// What the application saw when it did what the run asked.
#[derive(Debug)]
pub enum VacantEvent {
    /// Begin the run.
    Start,
    /// Whether cancellation was requested.
    CancelChecked { cancelled: bool },
    /// The safety gate's answer.
    GateChecked(Result<(), InputError>),
    /// The adapter's answer to an injected event, a cursor move or the
    /// closing release.
    Sent(Result<(), InputError>),
    /// Whether cancellation cut the wait short.
    Waited { cancelled: bool },
    /// Milliseconds on a monotonic clock.
    Clock { now_ms: u64 },
    /// The cursor position.
    Cursor(Result<Point, InputError>),
    /// A capture, and the clock right after it.
    Captured { frame: Result<Frame, InputError>, now_ms: u64 },
    /// A capture of the client, and whether its selection panel shows a
    /// morphing Colony.
    Panel { frame: Result<Frame, InputError>, morphing_colony: bool },
}

/// The abstract state of a saved-view search.
pub ghost struct VacantView {
    pub timing: Timing,
    /// The candidates, in reading order.
    pub points: Seq<Point>,
    pub budgets: Budgets,
    pub phase: VacantPhase,
    pub stage: VacantStage,
    pub queue: Seq<Op>,
    pub next: nat,
    /// The run stopped and only tidies up: any failure goes straight to the
    /// release.
    pub cleaning: bool,
    /// When the current selection wait gives up.
    pub sel_deadline: u64,
    /// The full read right after F4.
    pub saved: Option<FrameView>,
    /// The full read with the current drone selected.
    pub baseline: Option<FrameView>,
    /// The first read of the current candidate.
    pub first: Option<FrameView>,
    /// The latest capture, and the clock right after it.
    pub shot: Option<FrameView>,
    pub shot_ms: u64,
    /// The latest panel read showed a morphing Colony.
    pub morphing: bool,
    /// The previous site read of the construction wait.
    pub previous: Option<FrameView>,
    /// Drones the first read reported.
    pub detected: u8,
    /// Drones in the group.
    pub count: u8,
    /// Drones left in group 9, the one being placed included.
    pub pool: u8,
    /// Failed probes of each candidate.
    pub attempts: Seq<u8>,
    pub search_deadline: u64,
    pub run_deadline: u64,
    /// The pass of the current drone's search: 0, then 1 for the revisit.
    pub pass: nat,
    /// The candidate indices of this pass, and the position reached.
    pub indices: Seq<usize>,
    pub pos: nat,
    /// The candidates that failed in this pass.
    pub deferred: Seq<usize>,
    pub probes_pass: nat,
    pub probes_drone: nat,
    /// The candidate being probed, and its point.
    pub cand: nat,
    pub point: Point,
    /// The snapped centre its first read confirmed.
    pub center: Point,
    /// Candidates probed, and those whose green preview was confirmed once.
    pub probes: nat,
    pub confirmed: nat,
    /// Issued world clicks, and those whose drone was seen starting.
    pub orders: Seq<Point>,
    pub starts: Seq<Point>,
    /// Where a placement preview may be open.
    pub preview_at: Option<Point>,
    /// The clock when the click was sent.
    pub wait_started: u64,
    pub close_deadline: u64,
    /// Consecutive reads without a preview after the click.
    pub absent: nat,
    pub start_deadline: u64,
    /// The cursor position at the start of the construction wait.
    pub expected: Point,
    /// Consecutive positive construction reads.
    pub consecutive: nat,
    pub ending: Ending,
    pub detail: Seq<char>,
}

/// Where the cursor rests while the HUD is read.
pub open spec fn park_point() -> Point {
    Point { x: 960, y: 396 }
}

/// A point of the 1920×1080 client.
pub open spec fn client_point(p: Point) -> bool {
    0 <= p.x < 1920 && 0 <= p.y < 1080
}

/// A point at most one probe read away from the client.
pub open spec fn near_client(p: Point) -> bool {
    -240 < p.x < 2160 && -240 < p.y < 1320
}

/// The screen region one probe reads around `p`, clipped to the client.
pub open spec fn probe_rect_of(p: Point) -> Rect {
    let x: int = if p.x - 240 > 0 {
        p.x - 240
    } else {
        0
    };
    let y: int = if p.y - 240 > 0 {
        p.y - 240
    } else {
        0
    };
    let r: int = if p.x + 240 < 1920 {
        p.x + 240
    } else {
        1920
    };
    let b: int = if p.y + 240 < 1080 {
        p.y + 240
    } else {
        1080
    };
    Rect { x: x as i32, y: y as i32, w: (r - x) as i32, h: (b - y) as i32 }
}

/// A capture covers exactly the region `r`.
pub open spec fn fits_rect(v: FrameView, r: Rect) -> bool {
    v.origin == Point { x: r.x, y: r.y } && v.width == r.w && v.height == r.h
}

/// A visible 1920×1080 client at the screen origin.
pub open spec fn client_ok(v: FrameView) -> bool {
    v.origin == Point { x: 0, y: 0 } && v.width == 1920 && v.height == 1080 && !sampled_dark(v)
}

/// The pause between the two reads of one candidate.
pub open spec fn settle_ms(t: Timing) -> u64 {
    if t.gap_ms < 16 {
        16
    } else if t.gap_ms > 32 {
        32
    } else {
        t.gap_ms
    }
}

/// The pause between two construction reads.
pub open spec fn poll_wait_ms(t: Timing) -> u64 {
    if t.gap_ms > 100 {
        t.gap_ms
    } else {
        100
    }
}

/// The pause before the revisit pass.
pub open spec fn revisit_ms(t: Timing) -> u64 {
    if t.gap_ms > 200 {
        t.gap_ms
    } else {
        200
    }
}

/// The probes one pass may spend.
pub open spec fn per_pass(pass: nat) -> nat {
    if pass == 0 {
        120
    } else {
        8
    }
}

/// `a + b`, or the largest `u64` when that does not fit.
pub open spec fn sat_add(a: u64, b: u64) -> u64 {
    if a + b > u64::MAX {
        u64::MAX
    } else {
        (a + b) as u64
    }
}

/// `a - b`, or zero when `b` is the larger.
pub open spec fn sat_sub(a: u64, b: u64) -> u64 {
    if a > b {
        (a - b) as u64
    } else {
        0
    }
}

/// The smaller of two clock values.
pub open spec fn min_u64(a: u64, b: u64) -> u64 {
    if a < b {
        a
    } else {
        b
    }
}

/// The safety guard ahead of a capture: the cancellation flag, then the
/// adapter's safety check.
pub open spec fn guard2() -> Seq<Op> {
    seq![Op::CheckCancel, Op::Gate]
}

/// A guarded cursor move.
pub open spec fn move_ops(p: Point) -> Seq<Op> {
    seq![Op::CheckCancel, Op::Gate, Op::Move(p)]
}

/// A pause, then the guard ahead of a capture.
pub open spec fn pause_guard(ms: u64) -> Seq<Op> {
    seq![Op::Pause(ms), Op::CheckCancel, Op::Gate]
}

/// The world mouse-down.
pub open spec fn press_ops() -> Seq<Op> {
    seq![Op::CheckCancel, Op::Gate, Op::Send(Primitive::MouseLeftDown)]
}

/// Holding the world click, then releasing it.
pub open spec fn release_ops(t: Timing) -> Seq<Op> {
    seq![
        Op::Pause(t.press_ms),
        Op::CheckCancel,
        Op::Gate,
        Op::Send(Primitive::MouseLeftUp),
        Op::Pause(t.gap_ms),
    ]
}

/// Picking one drone: with more than one left, click the last occupied
/// portrait; then park the cursor.
pub open spec fn pick_ops(pool: u8, t: Timing) -> Seq<Op> {
    if pool > 1 {
        move_ops(slot_point(pool - 1)) + click_ops(t) + move_ops(park_point())
    } else {
        move_ops(park_point())
    }
}

/// Removing the travelling drone's portrait from the recalled group.
pub open spec fn trim_ops(pool: u8, t: Timing) -> Seq<Op> {
    move_ops(slot_point(pool - 1)) + shift_click_ops(t) + move_ops(park_point())
}

/// Every cursor move and injected event of a sequence comes right after a
/// safety gate that comes right after a look at the cancellation flag.
pub open spec fn vgated(q: Seq<Op>) -> bool {
    forall|j: int| 0 <= j < q.len() ==> #[trigger] gated_at(q, j)
}

/// Step `j` of `q`, when it moves the cursor or injects an event, comes
/// right after a safety gate that comes right after a cancellation look.
pub open spec fn gated_at(q: Seq<Op>, j: int) -> bool {
    (q[j] is Send || q[j] is Move) ==> 2 <= j && q[j - 1] is Gate && q[j - 2] is CheckCancel
}

/// The action that starts `op`.
pub open spec fn op_act(op: Op) -> VacantAction {
    match op {
        Op::CheckCancel => VacantAction::CheckCancel,
        Op::Gate => VacantAction::SafetyCheck,
        Op::Send(p) => VacantAction::Send(p),
        Op::Pause(ms) => VacantAction::Wait { ms },
        Op::Move(p) => VacantAction::MoveCursor(p),
    }
}

/// Why a run that never saw a group of 2–12 drones stops.
pub open spec fn select_text() -> Seq<char> {
    "select 2-12 drones before starting F4 Colony placement"@
}

/// Why an unusable full capture stops the run.
pub open spec fn client_text() -> Seq<char> {
    "F4 placement requires a visible 1920x1080 client at (0,0)"@
}

/// Why a probe read of the wrong region stops the run.
pub open spec fn coords_text() -> Seq<char> {
    "the probe capture returned unexpected screen coordinates"@
}

/// Why a changed saved view stops the run.
pub open spec fn view_changed_text() -> Seq<char> {
    "the F4 view changed; refusing stale screen coordinates"@
}

/// Why a lost single-drone selection stops the run.
pub open spec fn single_changed_text() -> Seq<char> {
    "the single-drone selection changed after recalling F4"@
}

/// Why the search budget stops the run.
pub open spec fn search_text() -> Seq<char> {
    "F4 vacant-space search time limit reached"@
}

/// Why the whole-run budget stops the run.
pub open spec fn run_text() -> Seq<char> {
    "the whole F4 run hit its time limit"@
}

/// Why the run-wide probe cap stops the run.
pub open spec fn probe_cap_text() -> Seq<char> {
    "the F4 search stopped after the probe limit without placing every drone"@
}

/// Why the per-drone probe cap stops the run before a probe.
pub open spec fn drone_cap_text() -> Seq<char> {
    "the F4 search hit its probe limit for one drone without finding a spot"@
}

/// Why a search that never confirmed a green preview gives up.
pub open spec fn no_confirm_text() -> Seq<char> {
    "no green placement preview was confirmed after a bounded search; check                      terrain, resources and preview detection"@
}

/// Why a drone's search stops after its passes at the probe cap.
pub open spec fn drone_limit_text() -> Seq<char> {
    "the F4 search hit its probe limit for one drone"@
}

/// Why a drone's search stops with no candidate left.
pub open spec fn exhausted_text() -> Seq<char> {
    "no more verified free Colony positions in the F4 view after retry"@
}

/// Why a changed scene stops the run at a candidate's first read.
pub open spec fn scene_baseline_text() -> Seq<char> {
    "the camera or scene changed since the placement baseline"@
}

/// Why a changed scene stops the run before the click.
pub open spec fn scene_click_text() -> Seq<char> {
    "camera or scene changed before placement click"@
}

/// Why a moved cursor stops the run before the click.
pub open spec fn moved_before_text() -> Seq<char> {
    "the mouse moved before placement; refusing to click"@
}

/// Why a preview that never closes stops the run.
pub open spec fn not_closed_text() -> Seq<char> {
    "placement did not close after the order; stopping, not retrying the click"@
}

/// The spelling of the latest panel read.
pub open spec fn panel_text(morphing: bool) -> Seq<char> {
    if morphing {
        "MorphingColony"@
    } else {
        "NotMorphing"@
    }
}

/// Why a drone that never starts stops the run.
pub open spec fn no_start_text(morphing: bool) -> Seq<char> {
    "no construction start was confirmed before the wait limit (last panel read: "@ + panel_text(
        morphing,
    ) + "); the issued order remains unconfirmed"@
}

/// Why a moved cursor stops the construction wait.
pub open spec fn moved_during_text() -> Seq<char> {
    "the mouse moved during construction confirmation"@
}

/// Why a changed scene stops the construction wait.
pub open spec fn scene_during_text() -> Seq<char> {
    "the camera or scene changed during construction confirmation"@
}

/// Why one more probe is refused, if it is: the run's probe cap, the
/// drone's probe cap, then the search and run deadlines.
pub open spec fn gate_of(probes: nat, probes_drone: nat, now: u64, search_deadline: u64, run_deadline: u64) -> Option<Seq<char>> {
    if probes >= 384 {
        Some(probe_cap_text())
    } else if probes_drone >= 128 {
        Some(drone_cap_text())
    } else if now >= search_deadline {
        Some(search_text())
    } else if now >= run_deadline {
        Some(run_text())
    } else {
        None
    }
}

/// Which deadline has passed at `now`, if one has.
pub open spec fn deadline_of(s: VacantView, now: u64) -> Option<Seq<char>> {
    if now >= s.search_deadline {
        Some(search_text())
    } else if now >= s.run_deadline {
        Some(run_text())
    } else {
        None
    }
}

/// The selection a wait is for.
pub open spec fn expect_of(s: VacantView, pick: Pick) -> Expect {
    match pick {
        Pick::Group => Expect::Count { n: s.count },
        Pick::Single => Expect::Single,
        Pick::Recall => Expect::Recall { pool: s.pool },
        Pick::Trim => Expect::Count { n: (s.pool - 1) as u8 },
    }
}

/// The capture action of a shot.
pub open spec fn shot_action(s: VacantView, shot: Shot) -> VacantAction {
    match shot {
        Shot::Initial | Shot::Saved | Shot::Baseline => VacantAction::CaptureClient,
        Shot::Panel => VacantAction::CapturePanel,
        Shot::Site => VacantAction::CaptureRegion(probe_rect_of(s.center)),
        _ => VacantAction::CaptureRegion(probe_rect_of(s.point)),
    }
}

/// A candidate may be probed: it has attempts left and is not certainly
/// inside an ordered footprint.
pub open spec fn eligible(s: VacantView, index: usize) -> bool {
    s.attempts[index as int] < 2 && clear_of(s.points[index as int], s.orders, 72)
}

/// The first position from `k` on whose candidate may be probed, or the
/// end of the pass.
pub open spec fn first_eligible(s: VacantView, k: nat) -> nat
    decreases s.indices.len() - k,
{
    if k >= s.indices.len() {
        k
    } else if eligible(s, s.indices[k as int]) {
        k
    } else {
        first_eligible(s, k + 1)
    }
}

/// Starting a fixed sequence; `stage` says what follows it.
pub open spec fn vqueue(s: VacantView, q: Seq<Op>, stage: VacantStage) -> (VacantView, VacantAction) {
    (VacantView { phase: VacantPhase::Queue, queue: q, next: 0, stage, ..s }, op_act(q[0]))
}

/// The closing `release_all`.
pub open spec fn vrelease(s: VacantView) -> (VacantView, VacantAction) {
    (VacantView { phase: VacantPhase::Releasing, ..s }, VacantAction::ReleaseAll)
}

/// Stopping the run: remember how it ended, read a preview that may still
/// be open, and release.
pub open spec fn vstop(s: VacantView, ending: Ending, detail: Seq<char>) -> (VacantView, VacantAction) {
    let t = VacantView { ending, detail, ..s };
    match s.preview_at {
        Some(p) => vqueue(
            VacantView { cleaning: true, point: p, ..t },
            guard2(),
            VacantStage::Take(Shot::Cleanup),
        ),
        None => vrelease(t),
    }
}

/// An abort with `detail`.
pub open spec fn vabort(s: VacantView, detail: Seq<char>) -> (VacantView, VacantAction) {
    vstop(s, Ending::Aborted, detail)
}

/// A failure while tidying up goes straight to the release; otherwise it
/// stops the run.
pub open spec fn vfail(s: VacantView, err: InputError) -> (VacantView, VacantAction) {
    if s.cleaning {
        vrelease(s)
    } else {
        vstop(s, Ending::Failed, input_error_text(err))
    }
}

/// A cancellation while tidying up goes straight to the release; otherwise
/// it stops the run.
pub open spec fn vcancel(s: VacantView) -> (VacantView, VacantAction) {
    if s.cleaning {
        vrelease(s)
    } else {
        vstop(s, Ending::Cancelled, seq![])
    }
}

/// Starting a selection wait.
pub open spec fn begin_select(s: VacantView, pick: Pick) -> (VacantView, VacantAction) {
    (
        VacantView { phase: VacantPhase::SelClock, stage: VacantStage::Select(pick), ..s },
        VacantAction::ReadClock,
    )
}

/// Reading the clock.
pub open spec fn begin_tick(s: VacantView, tick: Tick) -> (VacantView, VacantAction) {
    (VacantView { phase: VacantPhase::Clock, stage: VacantStage::Clock(tick), ..s }, VacantAction::ReadClock)
}

/// Reading the cursor.
pub open spec fn begin_look(s: VacantView, look: Look) -> (VacantView, VacantAction) {
    (VacantView { phase: VacantPhase::Cursor, stage: VacantStage::Cursor(look), ..s }, VacantAction::ReadCursor)
}

/// The top of the drone loop at `now`: stop at a passed deadline, otherwise
/// pick the next drone.
pub open spec fn drone_top(s: VacantView, now: u64) -> (VacantView, VacantAction) {
    match deadline_of(s, now) {
        Some(d) => vabort(s, d),
        None => vqueue(s, pick_ops(s.pool, s.timing), VacantStage::Select(Pick::Single)),
    }
}

/// The end of one pass of the current drone's search.
pub open spec fn end_pass(s: VacantView) -> (VacantView, VacantAction) {
    if s.deferred.len() == 0 || s.pass >= 1 {
        if s.probes_drone >= 128 {
            vabort(s, drone_limit_text())
        } else {
            vabort(s, exhausted_text())
        }
    } else {
        vqueue(s, seq![Op::Pause(revisit_ms(s.timing))], VacantStage::Revisit)
    }
}

/// Looking for the next candidate of the pass from position `s.pos` on.
pub open spec fn scan(s: VacantView) -> (VacantView, VacantAction) {
    let k = first_eligible(s, s.pos);
    if k >= s.indices.len() || s.probes_pass >= per_pass(s.pass) {
        end_pass(s)
    } else {
        begin_tick(VacantView { pos: k, cand: s.indices[k as int] as nat, ..s }, Tick::Probe)
    }
}

/// The current candidate failed: count the attempt, defer it, and move on.
pub open spec fn fail_candidate(s: VacantView) -> (VacantView, VacantAction) {
    scan(
        VacantView {
            attempts: s.attempts.update(s.cand as int, (s.attempts[s.cand as int] + 1) as u8),
            deferred: s.deferred.push(s.cand as usize),
            pos: s.pos + 1,
            ..s
        },
    )
}

/// The current drone's order was confirmed: finish with the last drone,
/// otherwise recall group 9.
pub open spec fn after_order(s: VacantView) -> (VacantView, VacantAction) {
    if s.pool <= 1 {
        vstop(s, Ending::Completed, seq![])
    } else {
        vqueue(s, tap_ops(Key::Nine, s.timing), VacantStage::Select(Pick::Recall))
    }
}

/// Keep waiting for the construction start.
pub open spec fn keep_waiting(s: VacantView) -> (VacantView, VacantAction) {
    vqueue(
        VacantView { previous: s.shot, ..s },
        pause_guard(poll_wait_ms(s.timing)),
        VacantStage::Take(Shot::Panel),
    )
}

/// What follows the fixed sequence just finished.
#[verifier::opaque]
pub open spec fn vresume(s: VacantView) -> (VacantView, VacantAction) {
    match s.stage {
        VacantStage::Take(shot) => (VacantView { phase: VacantPhase::Shooting, ..s }, shot_action(s, shot)),
        VacantStage::Check(shot) => on_shot(s, shot),
        VacantStage::Clock(tick) => begin_tick(s, tick),
        VacantStage::Cursor(look) => begin_look(s, look),
        VacantStage::Select(pick) => begin_select(s, pick),
        VacantStage::Probed => vqueue(
            VacantView { preview_at: Some(s.point), probes: s.probes + 1, ..s },
            pause_guard(settle_ms(s.timing)),
            VacantStage::Take(Shot::First),
        ),
        VacantStage::Pressed => vqueue(
            VacantView { orders: s.orders.push(s.center), ..s },
            release_ops(s.timing),
            VacantStage::Clock(Tick::Closing),
        ),
        VacantStage::Resaved => begin_tick(VacantView { pool: (s.pool - 1) as u8, ..s }, Tick::DroneTop),
        VacantStage::Keyed => scan(
            VacantView {
                probes_drone: 0,
                deferred: seq![],
                pass: 0,
                indices: Seq::new(s.points.len(), |i: int| i as usize),
                pos: 0,
                probes_pass: 0,
                ..s
            },
        ),
        VacantStage::Revisit => scan(
            VacantView { pass: 1, indices: s.deferred, deferred: seq![], pos: 0, probes_pass: 0, ..s },
        ),
        VacantStage::Escaped => vrelease(s),
    }
}

/// The step in flight succeeded: start the next one, or what follows.
pub open spec fn vadvance(s: VacantView) -> (VacantView, VacantAction) {
    if s.next + 1 < s.queue.len() {
        (VacantView { next: s.next + 1, ..s }, op_act(s.queue[s.next + 1 as int]))
    } else {
        vresume(s)
    }
}

/// Checking the capture just taken.
#[verifier::opaque]
pub open spec fn on_shot(s: VacantView, shot: Shot) -> (VacantView, VacantAction) {
    let v = s.shot.unwrap();
    match shot {
        Shot::Initial => if !client_ok(v) {
            vabort(s, client_text())
        } else {
            match selection_of(v) {
                SelectionRead::Drones { count } => if 2 <= count <= 12 {
                    vqueue(
                        VacantView { detected: count, count, pool: count, ..s },
                        tap_ops(Key::F4, s.timing) + pause_guard(200),
                        VacantStage::Take(Shot::Saved),
                    )
                } else {
                    vabort(s, select_text())
                },
                _ => vabort(s, select_text()),
            }
        },
        Shot::Saved => if !client_ok(v) {
            vabort(s, client_text())
        } else {
            begin_select(VacantView { saved: Some(v), ..s }, Pick::Group)
        },
        Shot::Baseline => if !client_ok(v) {
            vabort(s, client_text())
        } else if !same_view_of(s.saved.unwrap(), v, s.orders.push(park_point())) {
            vabort(s, view_changed_text())
        } else if selection_of(v) != SelectionRead::SingleDrone {
            vabort(s, single_changed_text())
        } else {
            vqueue(
                VacantView { baseline: Some(v), preview_at: Some(park_point()), ..s },
                keys_ops(BuildTarget::Colony, s.timing),
                VacantStage::Keyed,
            )
        },
        Shot::First => if !fits_rect(v, probe_rect_of(s.point)) {
            vabort(s, coords_text())
        } else if !same_view_of(s.baseline.unwrap(), v, seq![s.point, park_point()]) {
            vabort(s, scene_baseline_text())
        } else {
            match fresh_green_of(s.baseline.unwrap(), v, s.point, s.orders) {
                None => fail_candidate(s),
                Some(c) => vqueue(
                    VacantView { confirmed: s.confirmed + 1, center: c, first: Some(v), ..s },
                    pause_guard(settle_ms(s.timing)),
                    VacantStage::Take(Shot::Second),
                ),
            }
        },
        Shot::Second => if !fits_rect(v, probe_rect_of(s.point)) {
            vabort(s, coords_text())
        } else if !same_view_of(s.first.unwrap(), v, seq![s.point]) {
            vabort(s, scene_click_text())
        } else if fresh_green_of(s.baseline.unwrap(), v, s.point, s.orders) != Some(s.center) {
            fail_candidate(s)
        } else {
            begin_tick(s, Tick::Order)
        },
        Shot::Closing => if !fits_rect(v, probe_rect_of(s.point)) {
            vabort(s, coords_text())
        } else {
            let absent = if placement_of(v, s.point, 144) is Absent {
                s.absent + 1
            } else {
                0
            };
            if absent >= 2 {
                begin_look(
                    VacantView {
                        absent,
                        preview_at: None,
                        start_deadline: min_u64(
                            sat_add(s.wait_started, s.budgets.construction_ms),
                            s.run_deadline,
                        ),
                        consecutive: 0,
                        previous: None,
                        ..s
                    },
                    Look::Expected,
                )
            } else if s.shot_ms >= s.close_deadline {
                vabort(s, not_closed_text())
            } else {
                vqueue(
                    VacantView { absent, ..s },
                    pause_guard(settle_ms(s.timing)),
                    VacantStage::Take(Shot::Closing),
                )
            }
        },
        Shot::Panel => if !client_ok(v) {
            vabort(s, client_text())
        } else {
            vqueue(s, guard2(), VacantStage::Take(Shot::Site))
        },
        Shot::Site => if !fits_rect(v, probe_rect_of(s.center)) {
            vabort(s, coords_text())
        } else if s.shot_ms >= s.start_deadline {
            vabort(s, no_start_text(s.morphing))
        } else {
            begin_look(s, Look::Moved)
        },
        Shot::Cleanup => if fits_rect(v, probe_rect_of(s.point)) && (placement_of(v, s.point, 144) is Valid
            || placement_of(v, s.point, 144) is Invalid) {
            vqueue(s, tap_ops(Key::Escape, s.timing), VacantStage::Escaped)
        } else {
            vrelease(s)
        },
    }
}

/// The clock was read at `now` for `tick`.
#[verifier::opaque]
pub open spec fn on_tick(s: VacantView, tick: Tick, now: u64) -> (VacantView, VacantAction) {
    match tick {
        Tick::SearchStart => drone_top(
            VacantView {
                search_deadline: sat_add(now, s.budgets.search_ms),
                run_deadline: sat_add(now, s.budgets.run_ms),
                ..s
            },
            now,
        ),
        Tick::DroneTop => drone_top(s, now),
        Tick::Probe => match gate_of(s.probes, s.probes_drone, now, s.search_deadline, s.run_deadline) {
                Some(d) => vabort(s, d),
                None => if s.confirmed == 0 && s.probes_drone >= 24 {
                    vabort(s, no_confirm_text())
                } else {
                    let p = s.points[s.cand as int];
                    vqueue(
                        VacantView {
                            probes_drone: s.probes_drone + 1,
                            probes_pass: s.probes_pass + 1,
                            point: p,
                            ..s
                        },
                        move_ops(p),
                        VacantStage::Probed,
                    )
                },
        },
        Tick::Order => match deadline_of(s, now) {
            Some(d) => vabort(s, d),
            None => vqueue(s, guard2(), VacantStage::Cursor(Look::Order)),
        },
        Tick::Closing => vqueue(
            VacantView { wait_started: now, close_deadline: sat_add(now, 1500), absent: 0, ..s },
            pause_guard(settle_ms(s.timing)),
            VacantStage::Take(Shot::Closing),
        ),
        Tick::Extend => after_order(
            VacantView {
                search_deadline: sat_add(s.search_deadline, sat_sub(now, s.wait_started)),
                ..s
            },
        ),
    }
}

/// The cursor was read at `p` for `look`.
#[verifier::opaque]
pub open spec fn on_look(s: VacantView, look: Look, p: Point) -> (VacantView, VacantAction) {
    match look {
        Look::Order => if p != s.point {
            vabort(s, moved_before_text())
        } else {
            vqueue(s, press_ops(), VacantStage::Pressed)
        },
        Look::Expected => vqueue(VacantView { expected: p, ..s }, guard2(), VacantStage::Take(Shot::Panel)),
        Look::Moved => {
            let v = s.shot.unwrap();
            if p != s.expected {
                vabort(s, moved_during_text())
            } else if !same_view_of(s.baseline.unwrap(), v, seq![s.center, park_point()]) {
                vabort(s, scene_during_text())
            } else if s.morphing && site_changed_of(s.baseline.unwrap(), v, s.center) {
                let c = match s.previous {
                    Some(prev) => if !same_view_of(prev, v, seq![s.center]) {
                        1
                    } else {
                        s.consecutive + 1
                    },
                    None => s.consecutive + 1,
                };
                if c >= 2 {
                    begin_tick(
                        VacantView { consecutive: c, starts: s.starts.push(s.center), ..s },
                        Tick::Extend,
                    )
                } else {
                    keep_waiting(VacantView { consecutive: c, ..s })
                }
            } else {
                keep_waiting(VacantView { consecutive: 0, ..s })
            }
        },
    }
}

/// The awaited selection was read.
pub open spec fn on_select(s: VacantView, pick: Pick, read: SelectionRead) -> (VacantView, VacantAction) {
    match pick {
        Pick::Group => vqueue(s, chord_ops(Key::Control, Key::Nine, s.timing), VacantStage::Clock(Tick::SearchStart)),
        Pick::Single => if s.pool != s.count {
            vqueue(s, tap_ops(Key::F4, s.timing) + pause_guard(200), VacantStage::Take(Shot::Baseline))
        } else {
            vqueue(s, guard2(), VacantStage::Take(Shot::Baseline))
        },
        Pick::Recall => {
            let recalled: u8 = match read {
                SelectionRead::Drones { count } => count,
                _ => 1,
            };
            if recalled == s.pool {
                vqueue(s, trim_ops(s.pool, s.timing), VacantStage::Select(Pick::Trim))
            } else {
                vqueue(s, chord_ops(Key::Control, Key::Nine, s.timing), VacantStage::Resaved)
            }
        },
        Pick::Trim => vqueue(s, chord_ops(Key::Control, Key::Nine, s.timing), VacantStage::Resaved),
    }
}

/// The answer to the step of a fixed sequence in flight.
pub open spec fn vqueue_step(s: VacantView, e: VacantEvent) -> (VacantView, VacantAction) {
    match (s.queue[s.next as int], e) {
        (Op::CheckCancel, VacantEvent::CancelChecked { cancelled }) => if cancelled {
            vcancel(s)
        } else {
            vadvance(s)
        },
        (Op::Gate, VacantEvent::GateChecked(r)) => match r {
            Err(err) => vfail(s, err),
            Ok(()) => vadvance(s),
        },
        (Op::Send(_), VacantEvent::Sent(r)) => match r {
            Err(err) => vfail(s, err),
            Ok(()) => vadvance(s),
        },
        (Op::Move(_), VacantEvent::Sent(r)) => match r {
            Err(err) => vfail(s, err),
            Ok(()) => vadvance(s),
        },
        (Op::Pause(_), VacantEvent::Waited { cancelled }) => if cancelled {
            vcancel(s)
        } else {
            vadvance(s)
        },
        _ => (s, VacantAction::Finish),
    }
}

/// One transition of a saved-view search.
pub open spec fn vtransition(s: VacantView, e: VacantEvent) -> (VacantView, VacantAction) {
    match s.phase {
        VacantPhase::Idle => vqueue(
            s,
            move_ops(park_point()) + guard2(),
            VacantStage::Take(Shot::Initial),
        ),
        VacantPhase::Queue => vqueue_step(s, e),
        VacantPhase::Shooting => match e {
            VacantEvent::Captured { frame: Err(err), .. } => vfail(s, err),
            VacantEvent::Captured { frame: Ok(f), now_ms } => match s.stage {
                VacantStage::Take(shot) => vqueue(
                    VacantView { shot: Some(f@), shot_ms: now_ms, ..s },
                    guard2(),
                    VacantStage::Check(shot),
                ),
                _ => (s, VacantAction::Finish),
            },
            VacantEvent::Panel { frame: Err(err), .. } => vfail(s, err),
            VacantEvent::Panel { frame: Ok(f), morphing_colony } => vqueue(
                VacantView { shot: Some(f@), morphing: morphing_colony, ..s },
                guard2(),
                VacantStage::Check(Shot::Panel),
            ),
            _ => (s, VacantAction::Finish),
        },
        VacantPhase::Clock => match (s.stage, e) {
            (VacantStage::Clock(tick), VacantEvent::Clock { now_ms }) => on_tick(s, tick, now_ms),
            _ => (s, VacantAction::Finish),
        },
        VacantPhase::Cursor => match (s.stage, e) {
            (VacantStage::Cursor(_), VacantEvent::Cursor(Err(err))) => vfail(s, err),
            (VacantStage::Cursor(look), VacantEvent::Cursor(Ok(p))) => on_look(s, look, p),
            _ => (s, VacantAction::Finish),
        },
        VacantPhase::SelClock => match e {
            VacantEvent::Clock { now_ms } => (
                VacantView {
                    phase: VacantPhase::SelCancel,
                    sel_deadline: sat_add(now_ms, CAPTURE_TIMEOUT_MS),
                    ..s
                },
                VacantAction::CheckCancel,
            ),
            _ => (s, VacantAction::Finish),
        },
        VacantPhase::SelCancel => match e {
            VacantEvent::CancelChecked { cancelled } => if cancelled {
                vcancel(s)
            } else {
                (VacantView { phase: VacantPhase::SelCapture, ..s }, VacantAction::CaptureClient)
            },
            _ => (s, VacantAction::Finish),
        },
        VacantPhase::SelCapture => match (s.stage, e) {
            (_, VacantEvent::Captured { frame: Err(err), .. }) => vfail(s, err),
            (VacantStage::Select(pick), VacantEvent::Captured { frame: Ok(f), now_ms }) => {
                let read = selection_of(f@);
                if accepts(expect_of(s, pick), read) {
                    on_select(s, pick, read)
                } else if now_ms >= s.sel_deadline {
                    vabort(s, selection_timeout_text(read))
                } else {
                    (
                        VacantView { phase: VacantPhase::SelPause, ..s },
                        VacantAction::Wait { ms: ui_poll(s.timing) },
                    )
                }
            },
            _ => (s, VacantAction::Finish),
        },
        VacantPhase::SelPause => match e {
            VacantEvent::Waited { cancelled } => if cancelled {
                vcancel(s)
            } else {
                (VacantView { phase: VacantPhase::SelCancel, ..s }, VacantAction::CheckCancel)
            },
            _ => (s, VacantAction::Finish),
        },
        VacantPhase::Releasing => match e {
            VacantEvent::Sent(r) => match r {
                Err(err) => (
                    VacantView {
                        phase: VacantPhase::Done,
                        ending: Ending::Failed,
                        detail: input_error_text(err),
                        ..s
                    },
                    VacantAction::Finish,
                ),
                Ok(()) => (VacantView { phase: VacantPhase::Done, ..s }, VacantAction::Finish),
            },
            _ => (s, VacantAction::Finish),
        },
        VacantPhase::Done => (s, VacantAction::Finish),
    }
}

/// The pause between two selection reads.
pub open spec fn ui_poll(t: Timing) -> u64 {
    if t.gap_ms > 20 {
        t.gap_ms
    } else {
        20
    }
}

/// The answer a run in state `s` waits for.
pub open spec fn vexpects(s: VacantView, e: VacantEvent) -> bool {
    match s.phase {
        VacantPhase::Idle => e is Start,
        VacantPhase::Queue => match s.queue[s.next as int] {
            Op::CheckCancel => e is CancelChecked,
            Op::Gate => e is GateChecked,
            Op::Send(_) | Op::Move(_) => e is Sent,
            Op::Pause(_) => e is Waited,
        },
        VacantPhase::Shooting => if s.stage == VacantStage::Take(Shot::Panel) {
            e is Panel
        } else {
            e is Captured
        },
        VacantPhase::Clock => e is Clock,
        VacantPhase::Cursor => e is Cursor,
        VacantPhase::SelClock => e is Clock,
        VacantPhase::SelCancel => e is CancelChecked,
        VacantPhase::SelCapture => e is Captured,
        VacantPhase::SelPause => e is Waited,
        VacantPhase::Releasing => e is Sent,
        VacantPhase::Done => false,
    }
}

/// The stages before the search starts: the group is read and saved.
pub open spec fn pre_search(st: VacantStage) -> bool {
    st == VacantStage::Take(Shot::Initial) || st == VacantStage::Check(Shot::Initial) || st
        == VacantStage::Take(Shot::Saved) || st == VacantStage::Check(Shot::Saved) || st
        == VacantStage::Select(Pick::Group) || st == VacantStage::Clock(Tick::SearchStart)
}

/// The stages of picking one drone and reading its baseline.
pub open spec fn picking(st: VacantStage) -> bool {
    st == VacantStage::Clock(Tick::DroneTop) || st == VacantStage::Select(Pick::Single) || st
        == VacantStage::Take(Shot::Baseline) || st == VacantStage::Check(Shot::Baseline)
}

/// The stages in which a candidate is chosen and probed.
pub open spec fn on_candidate(st: VacantStage) -> bool {
    st == VacantStage::Clock(Tick::Probe) || st == VacantStage::Probed || st == VacantStage::Take(
        Shot::First,
    ) || st == VacantStage::Check(Shot::First) || confirming(st)
}

/// The stages after a candidate's first read confirmed a green preview, up
/// to the world mouse-down.
pub open spec fn confirming(st: VacantStage) -> bool {
    st == VacantStage::Take(Shot::Second) || st == VacantStage::Check(Shot::Second) || verified_stage(
        st,
    )
}

/// The stages after both reads of a candidate agreed, up to the world
/// mouse-down.
pub open spec fn verified_stage(st: VacantStage) -> bool {
    st == VacantStage::Clock(Tick::Order) || st == VacantStage::Cursor(Look::Order) || st
        == VacantStage::Pressed
}

/// The stages of one drone's candidate search, up to its order.
pub open spec fn searching(st: VacantStage) -> bool {
    st == VacantStage::Keyed || st == VacantStage::Revisit || on_candidate(st)
}

/// The stages from the click to the confirmed construction start.
pub open spec fn waiting(st: VacantStage) -> bool {
    st == VacantStage::Clock(Tick::Closing) || st == VacantStage::Take(Shot::Closing) || st
        == VacantStage::Check(Shot::Closing) || st == VacantStage::Cursor(Look::Expected)
        || panel_wait(st)
}

/// The stages of the construction reads.
pub open spec fn panel_wait(st: VacantStage) -> bool {
    st == VacantStage::Take(Shot::Panel) || st == VacantStage::Check(Shot::Panel) || st
        == VacantStage::Take(Shot::Site) || st == VacantStage::Check(Shot::Site) || st
        == VacantStage::Cursor(Look::Moved)
}

/// The stages after a confirmed construction start, up to the next drone.
pub open spec fn recalling(st: VacantStage) -> bool {
    st == VacantStage::Clock(Tick::Extend) || st == VacantStage::Select(Pick::Recall) || st
        == VacantStage::Select(Pick::Trim) || st == VacantStage::Resaved
}

/// The run is working: started, not tidying up, not released.
pub open spec fn running(s: VacantView) -> bool {
    !s.cleaning && !(s.phase is Idle) && !(s.phase is Releasing) && !(s.phase is Done)
}

/// Both reads of the current candidate showed a fresh green preview at the
/// same snapped centre, and the scene matched: the first read against the
/// baseline, the second against the first.
pub open spec fn green_verified(s: VacantView) -> bool {
    &&& s.baseline is Some
    &&& s.first is Some
    &&& s.shot is Some
    &&& same_view_of(s.baseline.unwrap(), s.first.unwrap(), seq![s.point, park_point()])
    &&& fresh_green_of(s.baseline.unwrap(), s.first.unwrap(), s.point, s.orders) == Some(s.center)
    &&& same_view_of(s.first.unwrap(), s.shot.unwrap(), seq![s.point])
    &&& fresh_green_of(s.baseline.unwrap(), s.shot.unwrap(), s.point, s.orders) == Some(s.center)
}

/// The orders keep the spacing rule and stay in the world area, and the
/// confirmed starts are the first orders, in order, with at most one order
/// still waiting for its start.
pub open spec fn orders_ok(s: VacantView) -> bool {
    &&& s.starts.len() <= s.orders.len() <= s.starts.len() + 1
    &&& forall|i: int| 0 <= i < s.starts.len() ==> s.starts[i] == #[trigger] s.orders[i]
    &&& forall|i: int, j: int|
        0 <= i < j < s.orders.len() ==> apart(#[trigger] s.orders[i], #[trigger] s.orders[j], 144)
    &&& forall|i: int| 0 <= i < s.orders.len() ==> footprint_safe(#[trigger] s.orders[i])
}

/// The candidate bookkeeping is in range.
pub open spec fn search_ok(s: VacantView) -> bool {
    &&& forall|i: int| 0 <= i < s.points.len() ==> client_point(#[trigger] s.points[i])
    &&& s.attempts.len() == s.points.len()
    &&& forall|i: int| 0 <= i < s.attempts.len() ==> #[trigger] s.attempts[i] <= 2
    &&& forall|i: int| 0 <= i < s.indices.len() ==> (#[trigger] s.indices[i] as int) < s.points.len()
    &&& forall|i: int| 0 <= i < s.deferred.len() ==> (#[trigger] s.deferred[i] as int) < s.points.len()
    &&& s.pos <= s.indices.len()
    &&& client_point(s.point)
    &&& near_client(s.center)
    &&& (s.preview_at matches Some(p) ==> client_point(p))
    &&& s.probes <= 384
    &&& s.confirmed <= s.probes
    &&& s.probes_pass <= s.probes_drone <= 128
    &&& s.absent <= 2
    &&& s.consecutive <= 2
    &&& (s.saved matches Some(v) ==> v.origin == Point { x: 0, y: 0 } && v.width == 1920 && v.height == 1080)
    &&& (s.baseline matches Some(v) ==> v.origin == Point { x: 0, y: 0 } && v.width == 1920 && v.height == 1080)
}

/// The drone counters of a working run agree with its stage.
pub open spec fn stage_ok(s: VacantView) -> bool {
    let st = s.stage;
    &&& (pre_search(st) ==> s.orders.len() == 0 && s.starts.len() == 0)
    &&& (pre_search(st) && !(st == VacantStage::Take(Shot::Initial)) && !(st == VacantStage::Check(
        Shot::Initial,
    )) ==> 2 <= s.count <= 12 && s.pool == s.count && s.detected == s.count)
    &&& (picking(st) || searching(st) ==> 1 <= s.pool <= s.count <= 12 && s.orders.len() + s.pool
        == s.count && s.starts.len() == s.orders.len() && s.saved is Some)
    &&& (waiting(st) ==> 1 <= s.pool <= s.count <= 12 && s.orders.len() + s.pool == s.count + 1
        && s.starts.len() + 1 == s.orders.len() && s.orders.last() == s.center && s.baseline is Some
        && s.saved is Some)
    &&& (recalling(st) ==> 1 <= s.pool <= s.count <= 12 && s.orders.len() + s.pool == s.count + 1
        && s.starts.len() == s.orders.len() && s.saved is Some)
    &&& (st == VacantStage::Select(Pick::Recall) || st == VacantStage::Select(Pick::Trim) || st
        == VacantStage::Resaved ==> s.pool >= 2)
    &&& (searching(st) ==> s.baseline is Some)
    &&& (on_candidate(st) ==> s.pos < s.indices.len() && s.cand < s.points.len() && s.indices[s.pos as int] as nat
        == s.cand && s.attempts[s.cand as int] < 2)
    &&& (on_candidate(st) && !(st == VacantStage::Clock(Tick::Probe)) ==> s.point == s.points[s.cand as int])
    &&& (confirming(st) ==> s.first is Some && fits_rect(s.first.unwrap(), probe_rect_of(s.point)))
    &&& (verified_stage(st) ==> green_verified(s))
    &&& ((panel_wait(st) || st == VacantStage::Cursor(Look::Expected)) && s.previous is Some ==> fits_rect(s.previous.unwrap(), probe_rect_of(s.center)))
    &&& (st == VacantStage::Cursor(Look::Moved) ==> s.shot is Some && fits_rect(s.shot.unwrap(), probe_rect_of(s.center)))
    &&& (st is Check ==> s.shot is Some)
    &&& (st == VacantStage::Probed ==> s.probes < 384)
    &&& (st == VacantStage::Take(Shot::First) || st == VacantStage::Check(Shot::First) ==> s.confirmed
        < s.probes)
    &&& (st == VacantStage::Take(Shot::First) || st == VacantStage::Check(Shot::First) || confirming(st)
        ==> s.preview_at == Some(s.point))
    &&& (confirming(st) ==> same_view_of(s.baseline.unwrap(), s.first.unwrap(), seq![s.point, park_point()])
        && fresh_green_of(s.baseline.unwrap(), s.first.unwrap(), s.point, s.orders) == Some(s.center))
    &&& (panel_wait(st) || st == VacantStage::Cursor(Look::Expected) ==> s.consecutive <= 1)
    &&& (st == VacantStage::Take(Shot::Closing) || st == VacantStage::Check(Shot::Closing) ==> s.absent <= 1)
    &&& (st == VacantStage::Select(Pick::Group) || st == VacantStage::Clock(Tick::SearchStart) ==> s.saved is Some)
    &&& (waiting(st) ==> s.preview_at == Some(s.point) || s.preview_at is None)
}

/// The run's standing invariant.
pub open spec fn vacant_wf(s: VacantView) -> bool {
    &&& search_ok(s)
    &&& orders_ok(s)
    &&& (s.phase is Queue ==> s.next < s.queue.len() && vgated(s.queue))
    &&& (s.phase is Idle ==> s.orders.len() == 0 && s.starts.len() == 0 && !s.cleaning)
    &&& (running(s) ==> stage_ok(s))
    &&& (running(s) && (s.phase is Shooting || s.phase is Queue) ==> s.stage is Take || s.stage is Check
        || s.stage is Clock || s.stage is Cursor || s.stage is Select || s.stage == VacantStage::Probed
        || s.stage == VacantStage::Pressed || s.stage == VacantStage::Resaved || s.stage
        == VacantStage::Keyed || s.stage == VacantStage::Revisit)
    &&& (running(s) ==> !(s.stage == VacantStage::Take(Shot::Cleanup)) && !(s.stage == VacantStage::Check(
        Shot::Cleanup,
    )) && !(s.stage == VacantStage::Escaped))
    &&& (s.phase is Shooting ==> s.stage is Take)
    &&& (s.phase is Clock ==> s.stage is Clock)
    &&& (s.phase is Cursor ==> s.stage is Cursor)
    &&& (s.phase is SelClock || s.phase is SelCancel || s.phase is SelCapture || s.phase is SelPause
        ==> s.stage is Select && !s.cleaning)
    &&& (s.cleaning && !(s.phase is Releasing) && !(s.phase is Done) ==> (s.stage == VacantStage::Take(
        Shot::Cleanup,
    ) || s.stage == VacantStage::Check(Shot::Cleanup) || s.stage == VacantStage::Escaped))
    &&& (s.cleaning && s.stage == VacantStage::Check(Shot::Cleanup) ==> s.shot is Some)
}

/// Two gated sequences in a row are gated.
proof fn lemma_vgated_concat(a: Seq<Op>, b: Seq<Op>)
    requires
        vgated(a),
        vgated(b),
    ensures
        vgated(a + b),
{
    assert forall|j: int| 0 <= j < (a + b).len() implies #[trigger] gated_at(a + b, j) by {
        if j < a.len() {
            assert(gated_at(a, j));
            assert((a + b)[j] == a[j]);
            if j >= 1 {
                assert((a + b)[j - 1] == a[j - 1]);
            }
            if j >= 2 {
                assert((a + b)[j - 2] == a[j - 2]);
            }
        } else {
            assert(gated_at(b, j - a.len()));
            assert((a + b)[j] == b[j - a.len()]);
            if (a + b)[j] is Send || (a + b)[j] is Move {
                assert((a + b)[j - 1] == b[j - 1 - a.len()]);
                assert((a + b)[j - 2] == b[j - 2 - a.len()]);
            }
        }
    }
}

/// A sequence that neither moves the cursor nor injects an event is gated.
proof fn lemma_vgated_quiet(q: Seq<Op>)
    requires
        forall|j: int| 0 <= j < q.len() ==> !((#[trigger] q[j]) is Send || q[j] is Move),
    ensures
        vgated(q),
{
    assert forall|j: int| 0 <= j < q.len() implies #[trigger] gated_at(q, j) by {
        assert(!(q[j] is Send || q[j] is Move));
    }
}

/// One guarded step: a cancellation look, a safety gate, then `op`.
proof fn lemma_vgated_step(op: Op)
    ensures
        vgated(seq![Op::CheckCancel, Op::Gate, op]),
{
    let q = seq![Op::CheckCancel, Op::Gate, op];
    assert forall|j: int| 0 <= j < q.len() implies #[trigger] gated_at(q, j) by {
        if j != 2 {
            assert(!(q[j] is Send || q[j] is Move));
        }
    }
}

/// The building blocks of the run's fixed sequences are gated.
pub proof fn lemma_vacant_blocks_gated(t: Timing, pool: u8, p: Point, ms: u64)
    ensures
        vgated(tap_ops(Key::F4, t)),
        vgated(tap_ops(Key::Nine, t)),
        vgated(tap_ops(Key::Escape, t)),
        vgated(chord_ops(Key::Control, Key::Nine, t)),
        vgated(keys_ops(BuildTarget::Colony, t)),
        vgated(guard2()),
        vgated(move_ops(p)),
        vgated(pause_guard(ms)),
        vgated(press_ops()),
        vgated(release_ops(t)),
        vgated(pick_ops(pool, t)),
        vgated(trim_ops(pool, t)),
        vgated(tap_ops(Key::F4, t) + pause_guard(200)),
        vgated(move_ops(park_point()) + guard2()),
        vgated(seq![Op::Pause(ms)]),
{
    assert forall|pr: Primitive, w: u64| vgated(#[trigger] crate::colony_run::guarded(pr, w)) by {
        let g = crate::colony_run::guarded(pr, w);
        assert forall|j: int| 0 <= j < g.len() implies #[trigger] gated_at(g, j) by {
            if j != 2 {
                assert(!(g[j] is Send || g[j] is Move));
            }
        }
    }
    let pr = t.press_ms;
    let gp = t.gap_ms;
    assert forall|k: Key| vgated(#[trigger] tap_ops(k, t)) by {
        lemma_vgated_concat(
            crate::colony_run::guarded(Primitive::KeyDown(k), pr),
            crate::colony_run::guarded(Primitive::KeyUp(k), gp),
        );
    }
    let c1 = crate::colony_run::guarded(Primitive::KeyDown(Key::Control), pr);
    let c2 = crate::colony_run::guarded(Primitive::KeyDown(Key::Nine), pr);
    let c3 = crate::colony_run::guarded(Primitive::KeyUp(Key::Nine), gp);
    let c4 = crate::colony_run::guarded(Primitive::KeyUp(Key::Control), gp);
    lemma_vgated_concat(c1, c2);
    lemma_vgated_concat(c1 + c2, c3);
    lemma_vgated_concat(c1 + c2 + c3, c4);
    let m1 = crate::colony_run::guarded(Primitive::MouseLeftDown, pr);
    let m2 = crate::colony_run::guarded(Primitive::MouseLeftUp, gp);
    lemma_vgated_concat(m1, m2);
    let s1 = crate::colony_run::guarded(Primitive::KeyDown(Key::Shift), pr);
    let s4 = crate::colony_run::guarded(Primitive::KeyUp(Key::Shift), gp);
    lemma_vgated_concat(s1, m1);
    lemma_vgated_concat(s1 + m1, m2);
    lemma_vgated_concat(s1 + m1 + m2, s4);
    lemma_vgated_concat(tap_ops(Key::B, t), tap_ops(Key::C, t));
    let g2 = guard2();
    assert forall|j: int| 0 <= j < g2.len() implies !((#[trigger] g2[j]) is Send || g2[j] is Move) by {}
    lemma_vgated_quiet(g2);
    lemma_vgated_step(Op::Move(p));
    lemma_vgated_step(Op::Move(park_point()));
    lemma_vgated_step(Op::Move(slot_point(pool - 1)));
    lemma_vgated_step(Op::Send(Primitive::MouseLeftDown));
    let pg = pause_guard(ms);
    assert forall|j: int| 0 <= j < pg.len() implies !((#[trigger] pg[j]) is Send || pg[j] is Move) by {}
    lemma_vgated_quiet(pg);
    let pg2 = pause_guard(200);
    assert forall|j: int| 0 <= j < pg2.len() implies !((#[trigger] pg2[j]) is Send || pg2[j] is Move) by {}
    lemma_vgated_quiet(pg2);
    let ps = seq![Op::Pause(ms)];
    assert forall|j: int| 0 <= j < ps.len() implies !((#[trigger] ps[j]) is Send || ps[j] is Move) by {}
    lemma_vgated_quiet(ps);
    let r = release_ops(t);
    assert forall|j: int| 0 <= j < r.len() implies #[trigger] gated_at(r, j) by {
        if j != 3 {
            assert(!(r[j] is Send || r[j] is Move));
        }
    }
    lemma_vgated_concat(tap_ops(Key::F4, t), pause_guard(200));
    lemma_vgated_concat(move_ops(park_point()), guard2());
    lemma_vgated_concat(move_ops(slot_point(pool - 1)), click_ops(t));
    lemma_vgated_concat(move_ops(slot_point(pool - 1)) + click_ops(t), move_ops(park_point()));
    lemma_vgated_concat(move_ops(slot_point(pool - 1)), shift_click_ops(t));
    lemma_vgated_concat(move_ops(slot_point(pool - 1)) + shift_click_ops(t), move_ops(park_point()));
    assert(chord_ops(Key::Control, Key::Nine, t) == c1 + c2 + c3 + c4);
    assert(click_ops(t) == m1 + m2);
    assert(shift_click_ops(t) == s1 + m1 + m2 + s4);
    assert(keys_ops(BuildTarget::Colony, t) == tap_ops(Key::B, t) + tap_ops(Key::C, t));
}

/// A centre the freshness check confirms lies within one tile of the probe
/// point, keeps its footprint in the world area and keeps the spacing rule.
pub proof fn lemma_fresh_center(b: FrameView, v: FrameView, p: Point, r: Seq<Point>)
    ensures
        fresh_green_of(b, v, p, r) matches Some(c) ==> {
            &&& c.x - p.x <= 72 && p.x - c.x <= 72 && c.y - p.y <= 72 && p.y - c.y <= 72
            &&& footprint_safe(c)
            &&& clear_of(c, r, 144)
        },
{
}

/// The first eligible position from `k` on lies between `k` and the end of
/// the pass, and names an eligible candidate unless it is the end.
proof fn lemma_first_eligible(s: VacantView, k: nat)
    requires
        k <= s.indices.len(),
    ensures
        k <= first_eligible(s, k) <= s.indices.len(),
        first_eligible(s, k) < s.indices.len() ==> eligible(s, s.indices[first_eligible(s, k) as int]),
    decreases s.indices.len() - k,
{
    if k < s.indices.len() && !eligible(s, s.indices[k as int]) {
        lemma_first_eligible(s, k + 1);
    }
}

/// What every stage of one drone's search keeps.
pub open spec fn search_facts(s: VacantView) -> bool {
    &&& 1 <= s.pool <= s.count <= 12
    &&& s.orders.len() + s.pool == s.count
    &&& s.starts.len() == s.orders.len()
    &&& s.saved is Some
    &&& s.baseline is Some
}

/// Stopping keeps the invariant.
proof fn lemma_vstop_wf(s: VacantView, ending: Ending, detail: Seq<char>)
    requires
        search_ok(s),
        orders_ok(s),
        !s.cleaning,
    ensures
        vacant_wf(vstop(s, ending, detail).0),
{
    lemma_vacant_blocks_gated(s.timing, 1, s.point, 0);
}

/// Looking for the next candidate keeps the invariant.
proof fn lemma_scan_wf(s: VacantView)
    requires
        search_ok(s),
        orders_ok(s),
        search_facts(s),
        !s.cleaning,
    ensures
        vacant_wf(scan(s).0),
{
    lemma_first_eligible(s, s.pos);
    lemma_vacant_blocks_gated(s.timing, 1, s.point, revisit_ms(s.timing));
    let k = first_eligible(s, s.pos);
    if k >= s.indices.len() || s.probes_pass >= per_pass(s.pass) {
        if s.deferred.len() == 0 || s.pass >= 1 {
            lemma_vstop_wf(s, Ending::Aborted, exhausted_text());
            lemma_vstop_wf(s, Ending::Aborted, drone_limit_text());
        }
    } else {
        let c = s.indices[k as int];
        assert(eligible(s, c));
        assert((c as int) < s.points.len());
    }
}

/// Dropping the current candidate keeps the invariant.
proof fn lemma_fail_candidate_wf(s: VacantView)
    requires
        search_ok(s),
        orders_ok(s),
        search_facts(s),
        !s.cleaning,
        s.pos < s.indices.len(),
        s.cand < s.points.len(),
        s.attempts[s.cand as int] < 2,
    ensures
        vacant_wf(fail_candidate(s).0),
{
    let t = VacantView {
        attempts: s.attempts.update(s.cand as int, (s.attempts[s.cand as int] + 1) as u8),
        deferred: s.deferred.push(s.cand as usize),
        pos: s.pos + 1,
        ..s
    };
    assert forall|i: int| 0 <= i < t.attempts.len() implies #[trigger] t.attempts[i] <= 2 by {
        if i != s.cand {
            assert(t.attempts[i] == s.attempts[i]);
        }
    }
    assert forall|i: int| 0 <= i < t.deferred.len() implies (#[trigger] t.deferred[i] as int) < t.points.len() by {
        if i < s.deferred.len() {
            assert(t.deferred[i] == s.deferred[i]);
        }
    }
    lemma_scan_wf(t);
}

/// Checking one of the full reads before a drone's search keeps the
/// invariant.
proof fn lemma_on_shot_full_wf(s: VacantView, shot: Shot)
    requires
        vacant_wf(s),
        running(s),
        s.phase is Queue,
        s.stage == VacantStage::Check(shot),
        shot == Shot::Initial || shot == Shot::Saved || shot == Shot::Baseline,
    ensures
        vacant_wf(on_shot(s, shot).0),
{
    reveal(on_shot);
    lemma_vacant_blocks_gated(s.timing, s.pool, s.point, 0);
    lemma_vstop_wf(s, Ending::Aborted, client_text());
    lemma_vstop_wf(s, Ending::Aborted, select_text());
    lemma_vstop_wf(s, Ending::Aborted, view_changed_text());
    lemma_vstop_wf(s, Ending::Aborted, single_changed_text());
}

/// Checking a candidate read keeps the invariant.
proof fn lemma_on_shot_probe_wf(s: VacantView, shot: Shot)
    requires
        vacant_wf(s),
        running(s),
        s.phase is Queue,
        s.stage == VacantStage::Check(shot),
        shot == Shot::First || shot == Shot::Second,
    ensures
        vacant_wf(on_shot(s, shot).0),
{
    reveal(on_shot);
    let v = s.shot.unwrap();
    lemma_vacant_blocks_gated(s.timing, s.pool, s.point, settle_ms(s.timing));
    lemma_vstop_wf(s, Ending::Aborted, coords_text());
    lemma_vstop_wf(s, Ending::Aborted, scene_baseline_text());
    lemma_vstop_wf(s, Ending::Aborted, scene_click_text());
    lemma_fresh_center(s.baseline.unwrap(), v, s.point, s.orders);
    if fits_rect(v, probe_rect_of(s.point)) {
        if shot == Shot::First {
            if fresh_green_of(s.baseline.unwrap(), v, s.point, s.orders) is None {
                lemma_fail_candidate_wf(s);
            }
        } else {
            lemma_fail_candidate_wf(s);
        }
    }
}

/// Checking a read of the construction wait keeps the invariant.
proof fn lemma_on_shot_wait_wf(s: VacantView, shot: Shot)
    requires
        vacant_wf(s),
        running(s),
        s.phase is Queue,
        s.stage == VacantStage::Check(shot),
        shot == Shot::Closing || shot == Shot::Panel || shot == Shot::Site,
    ensures
        vacant_wf(on_shot(s, shot).0),
{
    reveal(on_shot);
    lemma_vacant_blocks_gated(s.timing, s.pool, s.point, settle_ms(s.timing));
    lemma_vstop_wf(s, Ending::Aborted, coords_text());
    lemma_vstop_wf(s, Ending::Aborted, not_closed_text());
    lemma_vstop_wf(s, Ending::Aborted, client_text());
    lemma_vstop_wf(s, Ending::Aborted, no_start_text(s.morphing));
}

/// Checking the capture just taken keeps the invariant.
proof fn lemma_on_shot_wf(s: VacantView, shot: Shot)
    requires
        vacant_wf(s),
        running(s),
        s.phase is Queue,
        s.stage == VacantStage::Check(shot),
    ensures
        vacant_wf(on_shot(s, shot).0),
{
    match shot {
        Shot::Initial | Shot::Saved | Shot::Baseline => lemma_on_shot_full_wf(s, shot),
        Shot::First | Shot::Second => lemma_on_shot_probe_wf(s, shot),
        Shot::Closing | Shot::Panel | Shot::Site => lemma_on_shot_wait_wf(s, shot),
        Shot::Cleanup => {},
    }
}

/// Starting a drone keeps the invariant.
proof fn lemma_drone_top_wf(s: VacantView, now: u64)
    requires
        search_ok(s),
        orders_ok(s),
        !s.cleaning,
        1 <= s.pool <= s.count <= 12,
        s.orders.len() + s.pool == s.count,
        s.starts.len() == s.orders.len(),
        s.saved is Some,
    ensures
        vacant_wf(drone_top(s, now).0),
{
    lemma_vacant_blocks_gated(s.timing, s.pool, s.point, 0);
    lemma_vstop_wf(s, Ending::Aborted, search_text());
    lemma_vstop_wf(s, Ending::Aborted, run_text());
}

/// Reading the clock keeps the invariant.
proof fn lemma_on_tick_wf(s: VacantView, tick: Tick, now: u64)
    requires
        vacant_wf(s),
        running(s),
        s.phase is Clock,
        s.stage == VacantStage::Clock(tick),
    ensures
        vacant_wf(on_tick(s, tick, now).0),
{
    reveal(on_tick);
    lemma_vacant_blocks_gated(s.timing, s.pool, s.point, settle_ms(s.timing));
    lemma_vstop_wf(s, Ending::Aborted, search_text());
    lemma_vstop_wf(s, Ending::Aborted, run_text());
    lemma_vstop_wf(s, Ending::Aborted, probe_cap_text());
    lemma_vstop_wf(s, Ending::Aborted, drone_cap_text());
    lemma_vstop_wf(s, Ending::Aborted, no_confirm_text());
    if let Some(d) = gate_of(s.probes, s.probes_drone, now, s.search_deadline, s.run_deadline) {
        lemma_vstop_wf(s, Ending::Aborted, d);
    }
    match tick {
        Tick::SearchStart => {
            let t = VacantView {
                search_deadline: sat_add(now, s.budgets.search_ms),
                run_deadline: sat_add(now, s.budgets.run_ms),
                ..s
            };
            lemma_drone_top_wf(t, now);
        },
        Tick::DroneTop => lemma_drone_top_wf(s, now),
        Tick::Probe => {
            let p = s.points[s.cand as int];
            lemma_vacant_blocks_gated(s.timing, s.pool, p, 0);
        },
        Tick::Extend => {
            let t = VacantView {
                search_deadline: sat_add(s.search_deadline, sat_sub(now, s.wait_started)),
                ..s
            };
            lemma_vstop_wf(t, Ending::Completed, seq![]);
        },
        _ => {},
    }
}

/// Reading the cursor keeps the invariant.
proof fn lemma_on_look_wf(s: VacantView, look: Look, p: Point)
    requires
        vacant_wf(s),
        running(s),
        s.phase is Cursor,
        s.stage == VacantStage::Cursor(look),
    ensures
        vacant_wf(on_look(s, look, p).0),
{
    reveal(on_look);
    lemma_vacant_blocks_gated(s.timing, s.pool, s.point, poll_wait_ms(s.timing));
    lemma_vstop_wf(s, Ending::Aborted, moved_before_text());
    lemma_vstop_wf(s, Ending::Aborted, moved_during_text());
    lemma_vstop_wf(s, Ending::Aborted, scene_during_text());
    if look == Look::Moved {
        let v = s.shot.unwrap();
        if p == s.expected && same_view_of(s.baseline.unwrap(), v, seq![s.center, park_point()])
            && s.morphing && site_changed_of(s.baseline.unwrap(), v, s.center) {
            let c: nat = match s.previous {
                Some(prev) => if !same_view_of(prev, v, seq![s.center]) {
                    1
                } else {
                    s.consecutive + 1
                },
                None => s.consecutive + 1,
            };
            if c >= 2 {
                let t = VacantView { consecutive: c, starts: s.starts.push(s.center), ..s };
                assert(s.orders.last() == s.center);
                assert forall|i: int| 0 <= i < t.starts.len() implies t.starts[i] == #[trigger] t.orders[i] by {
                    if i < s.starts.len() {
                        assert(t.starts[i] == s.starts[i]);
                    }
                }
            }
        }
    }
}

/// An awaited selection keeps the invariant.
proof fn lemma_on_select_wf(s: VacantView, pick: Pick, read: SelectionRead)
    requires
        vacant_wf(s),
        running(s),
        s.phase is SelCapture,
        s.stage == VacantStage::Select(pick),
    ensures
        vacant_wf(on_select(s, pick, read).0),
{
    lemma_vacant_blocks_gated(s.timing, s.pool, s.point, 0);
}

/// What follows a fixed sequence keeps the invariant.
#[verifier::rlimit(25)]
proof fn lemma_vresume_wf(s: VacantView)
    requires
        vacant_wf(s),
        s.phase is Queue,
        !(s.phase is Releasing),
    ensures
        vacant_wf(vresume(s).0),
{
    reveal(vresume);
    lemma_vacant_blocks_gated(s.timing, s.pool, s.point, settle_ms(s.timing));
    if s.cleaning {
        if s.stage == VacantStage::Check(Shot::Cleanup) {
            reveal(on_shot);
        }
    } else {
        match s.stage {
            VacantStage::Check(shot) => lemma_on_shot_wf(s, shot),
            VacantStage::Pressed => {
                let t = VacantView { orders: s.orders.push(s.center), ..s };
                lemma_order_needs_stable_green(s);
                assert(t.orders.len() == t.starts.len() + 1);
                assert forall|i: int, j: int| 0 <= i < j < t.orders.len() implies apart(
                    #[trigger] t.orders[i],
                    #[trigger] t.orders[j],
                    144,
                ) by {
                    assert(t.orders[i] == s.orders[i]);
                    if j < s.orders.len() {
                        assert(t.orders[j] == s.orders[j]);
                    } else {
                        assert(t.orders[j] == s.center);
                        assert(apart(s.orders[i], s.center, 144));
                    }
                }
                assert forall|i: int| 0 <= i < t.orders.len() implies footprint_safe(#[trigger] t.orders[i]) by {
                    if i < s.orders.len() {
                        assert(t.orders[i] == s.orders[i]);
                    }
                }
                assert forall|i: int| 0 <= i < t.starts.len() implies t.starts[i] == #[trigger] t.orders[i] by {
                    assert(t.orders[i] == s.orders[i]);
                }
            },
            VacantStage::Keyed => {
                let t = VacantView {
                    probes_drone: 0,
                    deferred: seq![],
                    pass: 0,
                    indices: Seq::new(s.points.len(), |i: int| i as usize),
                    pos: 0,
                    probes_pass: 0,
                    ..s
                };
                lemma_scan_wf(t);
            },
            VacantStage::Revisit => {
                let t = VacantView {
                    pass: 1,
                    indices: s.deferred,
                    deferred: seq![],
                    pos: 0,
                    probes_pass: 0,
                    ..s
                };
                lemma_scan_wf(t);
            },
            _ => {},
        }
    }
}

/// A step of a fixed sequence keeps the invariant.
proof fn lemma_queue_step_wf(s: VacantView, e: VacantEvent)
    requires
        vacant_wf(s),
        vexpects(s, e),
        s.phase is Queue,
    ensures
        vacant_wf(vtransition(s, e).0),
{
    if !s.cleaning {
        lemma_vstop_wf(s, Ending::Cancelled, seq![]);
        match e {
            VacantEvent::GateChecked(Err(err)) => lemma_vstop_wf(s, Ending::Failed, input_error_text(err)),
            VacantEvent::Sent(Err(err)) => lemma_vstop_wf(s, Ending::Failed, input_error_text(err)),
            _ => {},
        }
    }
    if s.next + 1 >= s.queue.len() {
        lemma_vresume_wf(s);
    }
}

/// A capture keeps the invariant.
proof fn lemma_shooting_wf(s: VacantView, e: VacantEvent)
    requires
        vacant_wf(s),
        vexpects(s, e),
        s.phase is Shooting,
    ensures
        vacant_wf(vtransition(s, e).0),
{
    lemma_vacant_blocks_gated(s.timing, s.pool, s.point, 0);
    match e {
        VacantEvent::Captured { frame: Err(err), .. } => if !s.cleaning {
            lemma_vstop_wf(s, Ending::Failed, input_error_text(err));
        },
        VacantEvent::Panel { frame: Err(err), .. } => if !s.cleaning {
            lemma_vstop_wf(s, Ending::Failed, input_error_text(err));
        },
        _ => {},
    }
}

/// A step of a selection wait keeps the invariant.
proof fn lemma_selection_wf(s: VacantView, e: VacantEvent)
    requires
        vacant_wf(s),
        vexpects(s, e),
        s.phase is SelClock || s.phase is SelCancel || s.phase is SelCapture || s.phase is SelPause,
    ensures
        vacant_wf(vtransition(s, e).0),
{
    lemma_vstop_wf(s, Ending::Cancelled, seq![]);
    if s.phase is SelCapture {
        match (s.stage, e) {
            (_, VacantEvent::Captured { frame: Err(err), .. }) => lemma_vstop_wf(
                s,
                Ending::Failed,
                input_error_text(err),
            ),
            (VacantStage::Select(pick), VacantEvent::Captured { frame: Ok(f), now_ms }) => {
                let read = selection_of(f@);
                lemma_on_select_wf(s, pick, read);
                lemma_vstop_wf(s, Ending::Aborted, selection_timeout_text(read));
            },
            _ => {},
        }
    }
}

/// Every transition keeps the saved-view search's invariant.
pub proof fn lemma_vacant_transition_keeps_wf(s: VacantView, e: VacantEvent)
    requires
        vacant_wf(s),
        vexpects(s, e),
    ensures
        vacant_wf(vtransition(s, e).0),
{
    lemma_vacant_blocks_gated(s.timing, s.pool, s.point, 0);
    match s.phase {
        VacantPhase::Queue => lemma_queue_step_wf(s, e),
        VacantPhase::Shooting => lemma_shooting_wf(s, e),
        VacantPhase::Clock => {
            if let VacantEvent::Clock { now_ms } = e {
                if let VacantStage::Clock(tick) = s.stage {
                    lemma_on_tick_wf(s, tick, now_ms);
                }
            }
        },
        VacantPhase::Cursor => {
            match (s.stage, e) {
                (VacantStage::Cursor(_), VacantEvent::Cursor(Err(err))) => lemma_vstop_wf(
                    s,
                    Ending::Failed,
                    input_error_text(err),
                ),
                (VacantStage::Cursor(look), VacantEvent::Cursor(Ok(p))) => lemma_on_look_wf(s, look, p),
                _ => {},
            }
        },
        VacantPhase::SelClock | VacantPhase::SelCancel | VacantPhase::SelCapture | VacantPhase::SelPause => {
            lemma_selection_wf(s, e)
        },
        _ => {},
    }
}

/// An action that neither moves the cursor nor injects an event.
pub open spec fn quiet(a: VacantAction) -> bool {
    !(a is Send) && !(a is MoveCursor)
}

/// A new gated sequence starts quietly.
proof fn lemma_vqueue_quiet(s: VacantView, q: Seq<Op>, st: VacantStage)
    requires
        vgated(q),
        q.len() > 0,
    ensures
        quiet(vqueue(s, q, st).1),
{
    assert(gated_at(q, 0));
}

/// Every new gated sequence starts quietly.
proof fn lemma_vqueues_quiet()
    ensures
        forall|s: VacantView, q: Seq<Op>, st: VacantStage|
            vgated(q) && q.len() > 0 ==> quiet(#[trigger] vqueue(s, q, st).1),
{
    assert forall|s: VacantView, q: Seq<Op>, st: VacantStage| vgated(q) && q.len() > 0 implies quiet(
        #[trigger] vqueue(s, q, st).1,
    ) by {
        lemma_vqueue_quiet(s, q, st);
    }
}

/// Stopping is quiet.
proof fn lemma_vstop_quiet(s: VacantView, ending: Ending, detail: Seq<char>)
    ensures
        quiet(vstop(s, ending, detail).1),
{
}

/// Looking for the next candidate is quiet.
proof fn lemma_scan_quiet(s: VacantView)
    ensures
        quiet(scan(s).1),
{
}

/// Checking a full read is quiet.
proof fn lemma_on_shot_full_quiet(s: VacantView, shot: Shot)
    requires
        shot == Shot::Initial || shot == Shot::Saved || shot == Shot::Baseline,
    ensures
        quiet(on_shot(s, shot).1),
{
    reveal(on_shot);
    lemma_vacant_blocks_gated(s.timing, s.pool, s.point, settle_ms(s.timing));
    assert forall|t: VacantView| quiet(#[trigger] vqueue(t, tap_ops(Key::F4, s.timing) + pause_guard(200), VacantStage::Take(Shot::Saved)).1) by {
        lemma_vqueue_quiet(t, tap_ops(Key::F4, s.timing) + pause_guard(200), VacantStage::Take(Shot::Saved));
    }
    assert forall|t: VacantView| quiet(#[trigger] vqueue(t, keys_ops(BuildTarget::Colony, s.timing), VacantStage::Keyed).1) by {
        lemma_vqueue_quiet(t, keys_ops(BuildTarget::Colony, s.timing), VacantStage::Keyed);
    }
}

/// Checking a candidate read is quiet.
proof fn lemma_on_shot_probe_quiet(s: VacantView, shot: Shot)
    requires
        shot == Shot::First || shot == Shot::Second,
    ensures
        quiet(on_shot(s, shot).1),
{
    reveal(on_shot);
    lemma_vacant_blocks_gated(s.timing, s.pool, s.point, settle_ms(s.timing));
    assert forall|t: VacantView| quiet(#[trigger] vqueue(t, pause_guard(settle_ms(s.timing)), VacantStage::Take(Shot::Second)).1) by {
        lemma_vqueue_quiet(t, pause_guard(settle_ms(s.timing)), VacantStage::Take(Shot::Second));
    }
    lemma_scan_quiet(
        VacantView {
            attempts: s.attempts.update(s.cand as int, (s.attempts[s.cand as int] + 1) as u8),
            deferred: s.deferred.push(s.cand as usize),
            pos: s.pos + 1,
            ..s
        },
    );
}

/// Checking a read of the waits, or the final read, is quiet.
proof fn lemma_on_shot_wait_quiet(s: VacantView, shot: Shot)
    requires
        shot == Shot::Closing || shot == Shot::Panel || shot == Shot::Site || shot == Shot::Cleanup,
    ensures
        quiet(on_shot(s, shot).1),
{
    reveal(on_shot);
    lemma_vacant_blocks_gated(s.timing, s.pool, s.point, settle_ms(s.timing));
    assert forall|t: VacantView| quiet(#[trigger] vqueue(t, pause_guard(settle_ms(s.timing)), VacantStage::Take(Shot::Closing)).1) by {
        lemma_vqueue_quiet(t, pause_guard(settle_ms(s.timing)), VacantStage::Take(Shot::Closing));
    }
    lemma_vqueue_quiet(s, guard2(), VacantStage::Take(Shot::Site));
    lemma_vqueue_quiet(s, tap_ops(Key::Escape, s.timing), VacantStage::Escaped);
}

/// Checking a capture is quiet.
proof fn lemma_on_shot_quiet(s: VacantView, shot: Shot)
    ensures
        quiet(on_shot(s, shot).1),
{
    match shot {
        Shot::Initial | Shot::Saved | Shot::Baseline => lemma_on_shot_full_quiet(s, shot),
        Shot::First | Shot::Second => lemma_on_shot_probe_quiet(s, shot),
        _ => lemma_on_shot_wait_quiet(s, shot),
    }
}

/// Reading the clock is quiet.
proof fn lemma_on_tick_quiet(s: VacantView, tick: Tick, now: u64)
    ensures
        quiet(on_tick(s, tick, now).1),
{
    reveal(on_tick);
    lemma_vacant_blocks_gated(s.timing, s.pool, s.points[s.cand as int], settle_ms(s.timing));
    lemma_vqueues_quiet();
}

/// Reading the cursor is quiet.
proof fn lemma_on_look_quiet(s: VacantView, look: Look, p: Point)
    ensures
        quiet(on_look(s, look, p).1),
{
    reveal(on_look);
    lemma_vacant_blocks_gated(s.timing, s.pool, s.point, poll_wait_ms(s.timing));
    lemma_vqueues_quiet();
}

/// What follows a fixed sequence starts quietly.
proof fn lemma_vresume_quiet(s: VacantView)
    ensures
        quiet(vresume(s).1),
{
    reveal(vresume);
    lemma_vacant_blocks_gated(s.timing, s.pool, s.point, settle_ms(s.timing));
    lemma_vqueues_quiet();
    if let VacantStage::Check(shot) = s.stage {
        lemma_on_shot_quiet(s, shot);
    }
}

/// Every cursor move and every key or button event comes right after a
/// safety gate that passed, which comes right after a look at the
/// cancellation flag, in the same fixed sequence.
pub proof fn lemma_vacant_events_are_gated(s: VacantView, e: VacantEvent)
    requires
        vacant_wf(s),
        vexpects(s, e),
        !quiet(vtransition(s, e).1),
    ensures
        s.phase is Queue,
        s.queue[s.next as int] is Gate,
        e matches VacantEvent::GateChecked(Ok(_)),
        s.next >= 1,
        s.queue[s.next - 1] is CheckCancel,
        vtransition(s, e).0.queue == s.queue,
        vtransition(s, e).0.next == s.next + 1,
{
    lemma_vacant_blocks_gated(s.timing, s.pool, s.point, 0);
    lemma_vqueues_quiet();
    match s.phase {
        VacantPhase::Queue => {
            lemma_vstop_quiet(s, Ending::Cancelled, seq![]);
            if s.next + 1 >= s.queue.len() {
                lemma_vresume_quiet(s);
            }
            match e {
                VacantEvent::GateChecked(Err(err)) => lemma_vstop_quiet(s, Ending::Failed, input_error_text(err)),
                VacantEvent::Sent(Err(err)) => lemma_vstop_quiet(s, Ending::Failed, input_error_text(err)),
                _ => {},
            }
            assert(gated_at(s.queue, s.next + 1int));
        },
        VacantPhase::Shooting => {
            match e {
                VacantEvent::Captured { frame: Err(err), .. } => lemma_vstop_quiet(s, Ending::Failed, input_error_text(err)),
                VacantEvent::Panel { frame: Err(err), .. } => lemma_vstop_quiet(s, Ending::Failed, input_error_text(err)),
                _ => {},
            }
        },
        VacantPhase::Clock => {
            if let (VacantStage::Clock(tick), VacantEvent::Clock { now_ms }) = (s.stage, e) {
                lemma_on_tick_quiet(s, tick, now_ms);
            }
        },
        VacantPhase::Cursor => {
            match (s.stage, e) {
                (VacantStage::Cursor(_), VacantEvent::Cursor(Err(err))) => lemma_vstop_quiet(s, Ending::Failed, input_error_text(err)),
                (VacantStage::Cursor(look), VacantEvent::Cursor(Ok(p))) => lemma_on_look_quiet(s, look, p),
                _ => {},
            }
        },
        VacantPhase::SelCancel => lemma_vstop_quiet(s, Ending::Cancelled, seq![]),
        VacantPhase::SelPause => lemma_vstop_quiet(s, Ending::Cancelled, seq![]),
        VacantPhase::SelCapture => {
            match (s.stage, e) {
                (_, VacantEvent::Captured { frame: Err(err), .. }) => lemma_vstop_quiet(s, Ending::Failed, input_error_text(err)),
                (VacantStage::Select(pick), VacantEvent::Captured { frame: Ok(f), now_ms }) => {
                    let read = selection_of(f@);
                    lemma_vstop_quiet(s, Ending::Aborted, selection_timeout_text(read));
                },
                _ => {},
            }
        },
        _ => {},
    }
}

/// A world click is only ever pending after both reads of the candidate
/// showed a fresh green preview at the same snapped centre with the scene
/// unchanged, while every earlier order was already seen starting; the
/// centre keeps the spacing rule against every earlier order and its
/// footprint stays in the world area.
pub proof fn lemma_order_needs_stable_green(s: VacantView)
    requires
        vacant_wf(s),
        running(s),
        s.stage == VacantStage::Pressed,
    ensures
        green_verified(s),
        s.preview_at == Some(s.point),
        s.starts == s.orders,
        s.orders.len() < s.count,
        clear_of(s.center, s.orders, 144),
        footprint_safe(s.center),
{
    lemma_fresh_center(s.baseline.unwrap(), s.first.unwrap(), s.point, s.orders);
    assert(s.starts =~= s.orders);
}

/// The next drone is picked only after every order was seen starting.
pub proof fn lemma_next_drone_after_confirmed_start(s: VacantView)
    requires
        vacant_wf(s),
        running(s),
        s.stage == VacantStage::Select(Pick::Single),
    ensures
        s.starts == s.orders,
        s.orders.len() + s.pool == s.count,
{
    assert(s.starts =~= s.orders);
}

/// The confirmed starts are the first orders, in order, and at most one
/// order waits for its start (a drone is ordered only after the previous
/// order's start was confirmed); every two orders keep at least one pitch
/// apart in one axis; every order's footprint stays in the world area; and
/// the probe caps hold.
pub proof fn lemma_vacant_orders_and_caps(s: VacantView)
    requires
        vacant_wf(s),
    ensures
        s.starts == s.orders.take(s.starts.len() as int),
        s.orders.len() <= s.starts.len() + 1,
        forall|i: int| 0 <= i < s.starts.len() ==> s.starts[i] == #[trigger] s.orders[i],
        forall|i: int, j: int|
            0 <= i < j < s.orders.len() ==> apart(#[trigger] s.orders[i], #[trigger] s.orders[j], 144),
        forall|i: int| 0 <= i < s.orders.len() ==> footprint_safe(#[trigger] s.orders[i]),
        s.probes <= 384,
        s.probes_drone <= 128,
        s.confirmed <= s.probes,
{
    assert(s.starts =~= s.orders.take(s.starts.len() as int));
}

/// A cancellation seen at any look at the flag or during any wait stops a
/// working run on the spot as cancelled: what follows is only the read of
/// a preview that may still be open, or the release.
pub proof fn lemma_vacant_cancellation_stops(s: VacantView, e: VacantEvent)
    requires
        vacant_wf(s),
        vexpects(s, e),
        running(s),
        e == (VacantEvent::CancelChecked { cancelled: true }) || e == (VacantEvent::Waited {
            cancelled: true,
        }),
    ensures
        vtransition(s, e).0.ending is Cancelled,
        vtransition(s, e).0.cleaning || vtransition(s, e).0.phase is Releasing,
        vtransition(s, e).1 is CheckCancel || vtransition(s, e).1 is ReleaseAll,
{
}

/// Every run ends with the adapter's `release_all`: the run is over only
/// after the release answered, and a failed release is reported as the
/// run's failure.
pub proof fn lemma_vacant_release_finishes(s: VacantView, e: VacantEvent)
    requires
        vacant_wf(s),
        vexpects(s, e),
        s.phase is Releasing,
    ensures
        vtransition(s, e).0.phase is Done,
        vtransition(s, e).1 is Finish,
        e matches VacantEvent::Sent(Err(err)) ==> vtransition(s, e).0.ending is Failed
            && vtransition(s, e).0.detail == input_error_text(err),
{
}

/// `r` asks for `release_all` exactly when it enters the release, and does
/// not finish the run.
spec fn vsettled(r: (VacantView, VacantAction)) -> bool {
    &&& (r.1 is ReleaseAll <==> r.0.phase is Releasing)
    &&& !(r.1 is Finish)
    &&& !(r.0.phase is Done)
    &&& !(r.0.phase is Idle)
}

proof fn lemma_scan_settled(s: VacantView)
    ensures
        vsettled(scan(s)),
        vsettled(fail_candidate(s)),
{
}

#[verifier::spinoff_prover]
proof fn lemma_on_shot_settled(s: VacantView, shot: Shot)
    ensures
        vsettled(on_shot(s, shot)),
{
    reveal(on_shot);
    let r = on_shot(s, shot);
    match shot {
        Shot::Initial => assert(vsettled(r)),
        Shot::Saved => assert(vsettled(r)),
        Shot::Baseline => assert(vsettled(r)),
        Shot::First => {
            lemma_scan_settled(s);
            assert(vsettled(r));
        },
        Shot::Second => {
            lemma_scan_settled(s);
            assert(vsettled(r));
        },
        Shot::Closing => assert(vsettled(r)),
        Shot::Panel => assert(vsettled(r)),
        Shot::Site => assert(vsettled(r)),
        Shot::Cleanup => assert(vsettled(r)),
    }
}

proof fn lemma_on_tick_settled(s: VacantView, tick: Tick, now: u64)
    ensures
        vsettled(on_tick(s, tick, now)),
{
    reveal(on_tick);
}

proof fn lemma_on_look_settled(s: VacantView, look: Look, p: Point)
    ensures
        vsettled(on_look(s, look, p)),
{
    reveal(on_look);
}

proof fn lemma_vresume_settled(s: VacantView)
    ensures
        vsettled(vresume(s)),
{
    reveal(vresume);
    match s.stage {
        VacantStage::Check(shot) => lemma_on_shot_settled(s, shot),
        _ => {},
    }
}

/// Only a stop's release asks for `release_all`, and only its answer
/// finishes the run.
proof fn lemma_vacant_release_step(s: VacantView, e: VacantEvent)
    requires
        vacant_wf(s),
        vexpects(s, e),
    ensures
        !(s.phase is Releasing) ==> vsettled(vtransition(s, e)),
        s.phase is Releasing ==> vtransition(s, e).0.phase is Done && vtransition(s, e).1 is Finish,
{
    lemma_vresume_settled(s);
    match (s.stage, e) {
        (VacantStage::Clock(tick), VacantEvent::Clock { now_ms }) => lemma_on_tick_settled(s, tick, now_ms),
        (VacantStage::Cursor(look), VacantEvent::Cursor(Ok(p))) => lemma_on_look_settled(s, look, p),
        _ => {},
    }
}

/// The state reached, and the actions asked for, when `events` are handed to
/// a search in state `s` one at a time.
pub open spec fn vacant_run_from(s: VacantView, events: Seq<VacantEvent>) -> (VacantView, Seq<VacantAction>)
    decreases events.len(),
{
    if events.len() == 0 {
        (s, seq![])
    } else {
        let prev = vacant_run_from(s, events.drop_last());
        let next = vtransition(prev.0, events.last());
        (next.0, prev.1.push(next.1))
    }
}

/// Every one of `events` is the answer the search waits for when it comes.
pub open spec fn vacant_answered_in_turn(s: VacantView, events: Seq<VacantEvent>) -> bool
    decreases events.len(),
{
    events.len() == 0 || (vacant_answered_in_turn(s, events.drop_last()) && vexpects(
        vacant_run_from(s, events.drop_last()).0,
        events.last(),
    ))
}

/// What holds after any search from an idle state.
spec fn vacant_run_inv(t: VacantView, acts: Seq<VacantAction>) -> bool {
    &&& vacant_wf(t)
    &&& (t.phase is Idle ==> acts.len() == 0)
    &&& (t.phase is Releasing ==> acts.len() >= 1)
    &&& (t.phase is Done ==> acts.len() >= 2)
    &&& forall|i: int|
        0 <= i < acts.len() ==> (#[trigger] acts[i] is ReleaseAll <==> ((t.phase is Releasing
            && i == acts.len() - 1) || (t.phase is Done && i == acts.len() - 2)))
    &&& forall|i: int|
        0 <= i < acts.len() ==> (#[trigger] acts[i] is Finish <==> (t.phase is Done && i
            == acts.len() - 1))
}

/// [`vacant_run_inv`] holds after every search from an idle state.
proof fn lemma_vacant_run_inv(s: VacantView, events: Seq<VacantEvent>)
    requires
        vacant_wf(s),
        s.phase is Idle,
        vacant_answered_in_turn(s, events),
    ensures
        vacant_run_inv(vacant_run_from(s, events).0, vacant_run_from(s, events).1),
    decreases events.len(),
{
    if events.len() > 0 {
        let prev = events.drop_last();
        lemma_vacant_run_inv(s, prev);
        let (t, acts) = vacant_run_from(s, prev);
        let e = events.last();
        let (u, a) = vtransition(t, e);
        let acts2 = acts.push(a);
        lemma_vacant_transition_keeps_wf(t, e);
        lemma_vacant_release_step(t, e);
        assert(!(u.phase is Idle));
        assert forall|i: int| 0 <= i < acts2.len() implies (#[trigger] acts2[i] is ReleaseAll <==> ((
        u.phase is Releasing && i == acts2.len() - 1) || (u.phase is Done && i == acts2.len() - 2))) by {
            if i < acts.len() {
                assert(acts2[i] == acts[i]);
            }
        }
        assert forall|i: int| 0 <= i < acts2.len() implies (#[trigger] acts2[i] is Finish <==> (
        u.phase is Done && i == acts2.len() - 1)) by {
            if i < acts.len() {
                assert(acts2[i] == acts[i]);
            }
        }
    }
}

/// Over a whole saved-view search, the adapter's `release_all` is asked for
/// at most once and only last: a search that asked for it is releasing, or
/// asked for nothing more but the end; a finished search asked for it right
/// before the end. Throughout, the confirmed starts are the first orders, in
/// order, and at most one order waits for its start.
pub proof fn lemma_vacant_run_releases_all_once_and_last(s: VacantView, events: Seq<VacantEvent>)
    requires
        vacant_wf(s),
        s.phase is Idle,
        vacant_answered_in_turn(s, events),
    ensures
        ({
            let (t, acts) = vacant_run_from(s, events);
            &&& forall|i: int|
                0 <= i < acts.len() && #[trigger] acts[i] is ReleaseAll ==> (i == acts.len() - 1
                    && t.phase is Releasing) || (i == acts.len() - 2 && acts[i + 1] is Finish)
            &&& forall|i: int|
                0 <= i < acts.len() && #[trigger] acts[i] is Finish ==> i == acts.len() - 1
                    && t.phase is Done
            &&& t.phase is Done ==> acts.len() >= 2 && acts[acts.len() - 2] is ReleaseAll
                && acts.last() is Finish
            &&& t.starts == t.orders.take(t.starts.len() as int)
            &&& t.orders.len() <= t.starts.len() + 1
        }),
{
    lemma_vacant_run_inv(s, events);
    let t = vacant_run_from(s, events).0;
    lemma_vacant_orders_and_caps(t);
}

/// The probe grid lies inside the client.
proof fn lemma_safe_grid_in_client(k: int)
    requires
        0 <= k <= 216,
    ensures
        forall|i: int|
            0 <= i < crate::vacant_colony::safe_grid(k).len() ==> client_point(
                #[trigger] crate::vacant_colony::safe_grid(k)[i],
            ),
    decreases k,
{
    if k > 0 {
        lemma_safe_grid_in_client(k - 1);
        let i = k - 1;
        assert(0 <= 72 * (i % 24) <= 72 * 23 && 0 <= 72 * (i / 24) <= 72 * 8) by (nonlinear_arith)
            requires
                0 <= i < 216,
        ;
        let g = crate::vacant_colony::grid_point(i);
        assert(client_point(g));
        let prev = crate::vacant_colony::safe_grid(k - 1);
        let cur = crate::vacant_colony::safe_grid(k);
        assert forall|j: int| 0 <= j < cur.len() implies client_point(#[trigger] cur[j]) by {
            if j < prev.len() {
                assert(cur[j] == prev[j]);
            } else {
                assert(cur[j] == g);
            }
        }
    }
}

/// A read of the probe region around a point near the client has sizes and
/// coordinates the scene comparison can add up.
proof fn lemma_probe_frame_comparable(v: FrameView, p: Point)
    requires
        near_client(p),
        fits_rect(v, probe_rect_of(p)),
    ensures
        crate::vacant_colony::comparable(v),
        probe_rect_of(p).w > 0,
        probe_rect_of(p).h > 0,
{
}

/// Whether one more probe is allowed: not at the run's probe cap, not at
/// the drone's probe cap, and not once the search or the run deadline has
/// passed.
pub fn budget_gate(probes: usize, probes_drone: usize, now_ms: u64, search_deadline: u64, run_deadline: u64) -> (r: Result<(), String>)
    ensures
        match (r, gate_of(probes as nat, probes_drone as nat, now_ms, search_deadline, run_deadline)) {
            (Ok(()), None) => true,
            (Err(d), Some(t)) => d@ == t,
            _ => false,
        },
{
    if probes >= MAX_PROBES {
        Err(String::from_str("the F4 search stopped after the probe limit without placing every drone"))
    } else if probes_drone >= MAX_PROBES_PER_DRONE {
        Err(String::from_str("the F4 search hit its probe limit for one drone without finding a spot"))
    } else if now_ms >= search_deadline {
        Err(String::from_str("F4 vacant-space search time limit reached"))
    } else if now_ms >= run_deadline {
        Err(String::from_str("the whole F4 run hit its time limit"))
    } else {
        Ok(())
    }
}

/// `a + b`, or the largest `u64` when that does not fit.
fn add_sat(a: u64, b: u64) -> (r: u64)
    ensures
        r == sat_add(a, b),
{
    if a > u64::MAX - b {
        u64::MAX
    } else {
        a + b
    }
}

/// Where the cursor rests while the HUD is read.
fn park() -> (p: Point)
    ensures
        p == park_point(),
{
    Point::new(960, 396)
}

/// The probe region around a point near the client.
fn probe_region(p: Point) -> (r: Rect)
    requires
        near_client(p),
    ensures
        r == probe_rect_of(p),
{
    crate::vacant_colony::probe_rect(p)
}

/// Whether a capture covers exactly the region `r`.
fn fits(frame: &Frame, r: Rect) -> (yes: bool)
    ensures
        yes == fits_rect(frame@, r),
{
    frame.origin() == Point::new(r.x, r.y) && frame.width() as i64 == r.w as i64 && frame.height() as i64
        == r.h as i64
}

/// Whether a capture shows a visible 1920×1080 client at the origin.
fn client_visible(frame: &Frame) -> (yes: bool)
    ensures
        yes == client_ok(frame@),
{
    frame.origin() == Point::new(0, 0) && frame.width() == 1920 && frame.height() == 1080
        && !frame.is_blank()
}

/// The action that starts `op`.
fn op_action_of(op: Op) -> (a: VacantAction)
    ensures
        a == op_act(op),
{
    match op {
        Op::CheckCancel => VacantAction::CheckCancel,
        Op::Gate => VacantAction::SafetyCheck,
        Op::Send(p) => VacantAction::Send(p),
        Op::Pause(ms) => VacantAction::Wait { ms },
        Op::Move(p) => VacantAction::MoveCursor(p),
    }
}

/// `q` with a guarded cursor move appended.
fn push_move(q: &mut Vec<Op>, p: Point)
    ensures
        final(q)@ == old(q)@ + move_ops(p),
{
    q.push(Op::CheckCancel);
    q.push(Op::Gate);
    q.push(Op::Move(p));
    assert(final(q)@ =~= old(q)@ + move_ops(p));
}

/// `q` with a pause and the guard ahead of a capture appended.
fn push_pause_guard(q: &mut Vec<Op>, ms: u64)
    ensures
        final(q)@ == old(q)@ + pause_guard(ms),
{
    q.push(Op::Pause(ms));
    q.push(Op::CheckCancel);
    q.push(Op::Gate);
    assert(final(q)@ =~= old(q)@ + pause_guard(ms));
}

/// The guard ahead of a capture.
fn guard_pair() -> (q: Vec<Op>)
    ensures
        q@ == guard2(),
{
    let mut q: Vec<Op> = Vec::new();
    q.push(Op::CheckCancel);
    q.push(Op::Gate);
    assert(q@ =~= guard2());
    q
}

/// A pause, then the guard ahead of a capture.
fn pause_then_guard(ms: u64) -> (q: Vec<Op>)
    ensures
        q@ == pause_guard(ms),
{
    let mut q: Vec<Op> = Vec::new();
    push_pause_guard(&mut q, ms);
    assert(q@ =~= pause_guard(ms));
    q
}

/// Picking one drone.
fn pick_queue(pool: u8, t: Timing) -> (q: Vec<Op>)
    requires
        1 <= pool <= 12,
    ensures
        q@ == pick_ops(pool, t),
{
    let mut q: Vec<Op> = Vec::new();
    if pool > 1 {
        push_move(&mut q, crate::vision::slot_center(pool - 1));
        crate::colony_run::push_click(&mut q, t);
    }
    push_move(&mut q, park());
    assert(q@ =~= pick_ops(pool, t));
    q
}

/// Removing the travelling drone's portrait.
fn trim_queue(pool: u8, t: Timing) -> (q: Vec<Op>)
    requires
        2 <= pool <= 12,
    ensures
        q@ == trim_ops(pool, t),
{
    let mut q: Vec<Op> = Vec::new();
    push_move(&mut q, crate::vision::slot_center(pool - 1));
    crate::colony_run::push_guarded(&mut q, Primitive::KeyDown(Key::Shift), t.press_ms);
    crate::colony_run::push_guarded(&mut q, Primitive::MouseLeftDown, t.press_ms);
    crate::colony_run::push_guarded(&mut q, Primitive::MouseLeftUp, t.gap_ms);
    crate::colony_run::push_guarded(&mut q, Primitive::KeyUp(Key::Shift), t.gap_ms);
    push_move(&mut q, park());
    assert(q@ =~= trim_ops(pool, t));
    q
}

/// A key tap, then a pause and the guard ahead of a capture.
fn tap_then_capture(k: Key, ms: u64, t: Timing) -> (q: Vec<Op>)
    ensures
        q@ == tap_ops(k, t) + pause_guard(ms),
{
    let mut q = crate::colony_run::tap(k, t);
    push_pause_guard(&mut q, ms);
    q
}

/// Why a selection wait gave up.
fn selection_timeout_string(read: SelectionRead) -> (text: String)
    ensures
        text@ == selection_timeout_text(read),
{
    let mut t = String::from_str("the selection HUD did not reach the expected state in time (last read: ");
    t.append(crate::colony_run::read_string(read).as_str());
    t.append(")");
    t
}

/// Why a drone that never starts stops the run.
fn no_start_string(morphing: bool) -> (text: String)
    ensures
        text@ == no_start_text(morphing),
{
    let mut t = String::from_str("no construction start was confirmed before the wait limit (last panel read: ");
    if morphing {
        t.append("MorphingColony");
    } else {
        t.append("NotMorphing");
    }
    t.append("); the issued order remains unconfirmed");
    t
}

/// A copy of an optional capture.
fn copy_frame(f: &Option<Frame>) -> (c: Option<Frame>)
    ensures
        opt_view(&c) == opt_view(f),
{
    match f {
        Some(v) => Some(v.clone()),
        None => None,
    }
}

/// The view of an optional capture.
pub open spec fn opt_view(f: &Option<Frame>) -> Option<FrameView> {
    match f {
        Some(v) => Some(v@),
        None => None,
    }
}

/// One saved-view Colony search.
///
/// The application calls [`VacantRun::step`] with [`VacantEvent::Start`],
/// performs each returned [`VacantAction`] and hands back what happened,
/// until the action is [`VacantAction::Finish`]; [`VacantRun::report`] then
/// tells how the run ended, which orders were issued and which of them were
/// seen starting. The live counters ([`VacantRun::probes`] and the others)
/// may be read between steps.
pub struct VacantRun {
    timing: Timing,
    points: Vec<Point>,
    budgets: Budgets,
    phase: VacantPhase,
    stage: VacantStage,
    queue: Vec<Op>,
    next: usize,
    cleaning: bool,
    sel_deadline: u64,
    saved: Option<Frame>,
    baseline: Option<Frame>,
    first: Option<Frame>,
    shot: Option<Frame>,
    shot_ms: u64,
    morphing: bool,
    previous: Option<Frame>,
    detected: u8,
    count: u8,
    pool: u8,
    attempts: Vec<u8>,
    search_deadline: u64,
    run_deadline: u64,
    pass: usize,
    indices: Vec<usize>,
    pos: usize,
    deferred: Vec<usize>,
    probes_pass: usize,
    probes_drone: usize,
    cand: usize,
    point: Point,
    center: Point,
    probes: usize,
    confirmed: usize,
    orders: Vec<Point>,
    starts: Vec<Point>,
    preview_at: Option<Point>,
    wait_started: u64,
    close_deadline: u64,
    absent: usize,
    start_deadline: u64,
    expected: Point,
    consecutive: usize,
    ending: Ending,
    detail: String,
}

impl View for VacantRun {
    type V = VacantView;

    closed spec fn view(&self) -> VacantView {
        VacantView {
            timing: self.timing,
            points: self.points@,
            budgets: self.budgets,
            phase: self.phase,
            stage: self.stage,
            queue: self.queue@,
            next: self.next as nat,
            cleaning: self.cleaning,
            sel_deadline: self.sel_deadline,
            saved: opt_view(&self.saved),
            baseline: opt_view(&self.baseline),
            first: opt_view(&self.first),
            shot: opt_view(&self.shot),
            shot_ms: self.shot_ms,
            morphing: self.morphing,
            previous: opt_view(&self.previous),
            detected: self.detected,
            count: self.count,
            pool: self.pool,
            attempts: self.attempts@,
            search_deadline: self.search_deadline,
            run_deadline: self.run_deadline,
            pass: self.pass as nat,
            indices: self.indices@,
            pos: self.pos as nat,
            deferred: self.deferred@,
            probes_pass: self.probes_pass as nat,
            probes_drone: self.probes_drone as nat,
            cand: self.cand as nat,
            point: self.point,
            center: self.center,
            probes: self.probes as nat,
            confirmed: self.confirmed as nat,
            orders: self.orders@,
            starts: self.starts@,
            preview_at: self.preview_at,
            wait_started: self.wait_started,
            close_deadline: self.close_deadline,
            absent: self.absent as nat,
            start_deadline: self.start_deadline,
            expected: self.expected,
            consecutive: self.consecutive as nat,
            ending: self.ending,
            detail: self.detail@,
        }
    }
}

impl VacantRun {
    /// The run's standing invariant.
    pub open spec fn wf(&self) -> bool {
        vacant_wf(self@)
    }

    /// A search over `points`, in that reading order, with `budgets`.
    pub fn with_search(timing: Timing, points: Vec<Point>, budgets: Budgets) -> (run: Self)
        requires
            forall|i: int| 0 <= i < points@.len() ==> client_point(#[trigger] points@[i]),
        ensures
            run.wf(),
            run@.timing == timing,
            run@.points == points@,
            run@.budgets == budgets,
            run@.phase is Idle,
            run@.probes == 0,
            run@.orders.len() == 0,
            run@.starts.len() == 0,
    {
        let n = points.len();
        let mut attempts: Vec<u8> = Vec::new();
        let mut i: usize = 0;
        while i < n
            invariant
                i <= n,
                attempts@.len() == i,
                forall|j: int| 0 <= j < i ==> #[trigger] attempts@[j] == 0,
            decreases n - i,
        {
            attempts.push(0);
            i = i + 1;
        }
        VacantRun {
            timing,
            points,
            budgets,
            phase: VacantPhase::Idle,
            stage: VacantStage::Take(Shot::Initial),
            queue: Vec::new(),
            next: 0,
            cleaning: false,
            sel_deadline: 0,
            saved: None,
            baseline: None,
            first: None,
            shot: None,
            shot_ms: 0,
            morphing: false,
            previous: None,
            detected: 0,
            count: 0,
            pool: 0,
            attempts,
            search_deadline: 0,
            run_deadline: 0,
            pass: 0,
            indices: Vec::new(),
            pos: 0,
            deferred: Vec::new(),
            probes_pass: 0,
            probes_drone: 0,
            cand: 0,
            point: park(),
            center: park(),
            probes: 0,
            confirmed: 0,
            orders: Vec::new(),
            starts: Vec::new(),
            preview_at: None,
            wait_started: 0,
            close_deadline: 0,
            absent: 0,
            start_deadline: 0,
            expected: park(),
            consecutive: 0,
            ending: Ending::Completed,
            detail: String::new(),
        }
    }

    /// A search over the standard probe grid with the standard budgets.
    pub fn new(timing: Timing) -> (run: Self)
        ensures
            run.wf(),
            run@.timing == timing,
            run@.points == crate::vacant_colony::safe_grid(216),
            run@.budgets == (Budgets { search_ms: 60_000, construction_ms: 30_000, run_ms: 420_000 }),
            run@.phase is Idle,
    {
        let points = crate::vacant_colony::candidates();
        proof {
            lemma_safe_grid_in_client(216);
        }
        VacantRun::with_search(timing, points, Budgets::standard())
    }

    /// Where the run stands.
    pub fn phase(&self) -> (phase: VacantPhase)
        ensures
            phase == self@.phase,
    {
        self.phase
    }

    /// Candidates probed so far.
    pub fn probes(&self) -> (n: usize)
        ensures
            n == self@.probes,
    {
        self.probes
    }

    /// Candidates whose green preview was confirmed at least once.
    pub fn confirmed(&self) -> (n: usize)
        ensures
            n == self@.confirmed,
    {
        self.confirmed
    }

    /// Orders issued so far: world clicks, not completed buildings.
    pub fn orders(&self) -> (n: usize)
        ensures
            n == self@.orders.len(),
    {
        self.orders.len()
    }

    /// Orders whose drone was seen starting to morph; still not completed
    /// buildings.
    pub fn starts(&self) -> (n: usize)
        ensures
            n == self@.starts.len(),
    {
        self.starts.len()
    }

    /// How the run ended, the drones it read, the orders it issued and
    /// those seen starting, and the candidates it probed.
    pub fn report(&self) -> (report: VacantColonyReport)
        ensures
            outcome_is(report.outcome, self@.ending, self@.detail),
            report.detected == self@.detected,
            report.orders@ == self@.orders,
            report.starts@ == self@.starts,
            report.probes == self@.probes,
    {
        VacantColonyReport {
            outcome: crate::engine::make_outcome(self.ending, self.detail.clone()),
            detected: self.detected,
            orders: self.orders.clone(),
            starts: self.starts.clone(),
            probes: self.probes,
        }
    }

    /// Whether `event` is the answer the run waits for.
    pub fn expects(&self, event: &VacantEvent) -> (yes: bool)
        requires
            self.wf(),
        ensures
            yes == vexpects(self@, *event),
    {
        match self.phase {
            VacantPhase::Idle => matches!(event, VacantEvent::Start),
            VacantPhase::Queue => match self.queue[self.next] {
                Op::CheckCancel => matches!(event, VacantEvent::CancelChecked { .. }),
                Op::Gate => matches!(event, VacantEvent::GateChecked(_)),
                Op::Send(_) | Op::Move(_) => matches!(event, VacantEvent::Sent(_)),
                Op::Pause(_) => matches!(event, VacantEvent::Waited { .. }),
            },
            VacantPhase::Shooting => if self.stage == VacantStage::Take(Shot::Panel) {
                matches!(event, VacantEvent::Panel { .. })
            } else {
                matches!(event, VacantEvent::Captured { .. })
            },
            VacantPhase::Clock => matches!(event, VacantEvent::Clock { .. }),
            VacantPhase::Cursor => matches!(event, VacantEvent::Cursor(_)),
            VacantPhase::SelClock => matches!(event, VacantEvent::Clock { .. }),
            VacantPhase::SelCancel => matches!(event, VacantEvent::CancelChecked { .. }),
            VacantPhase::SelCapture => matches!(event, VacantEvent::Captured { .. }),
            VacantPhase::SelPause => matches!(event, VacantEvent::Waited { .. }),
            VacantPhase::Releasing => matches!(event, VacantEvent::Sent(_)),
            VacantPhase::Done => false,
        }
    }
}

impl VacantRun {
    fn vqueue(&mut self, q: Vec<Op>, stage: VacantStage) -> (action: VacantAction)
        requires
            q@.len() > 0,
        ensures
            (final(self)@, action) == vqueue(old(self)@, q@, stage),
    {
        let first = q[0];
        self.phase = VacantPhase::Queue;
        self.queue = q;
        self.next = 0;
        self.stage = stage;
        op_action_of(first)
    }

    fn vrelease(&mut self) -> (action: VacantAction)
        ensures
            (final(self)@, action) == vrelease(old(self)@),
    {
        self.phase = VacantPhase::Releasing;
        VacantAction::ReleaseAll
    }

    fn vstop(&mut self, ending: Ending, detail: String) -> (action: VacantAction)
        ensures
            (final(self)@, action) == vstop(old(self)@, ending, detail@),
    {
        self.ending = ending;
        self.detail = detail;
        match self.preview_at {
            Some(p) => {
                self.cleaning = true;
                self.point = p;
                let q = guard_pair();
                self.vqueue(q, VacantStage::Take(Shot::Cleanup))
            },
            None => self.vrelease(),
        }
    }

    fn vabort(&mut self, detail: String) -> (action: VacantAction)
        ensures
            (final(self)@, action) == vabort(old(self)@, detail@),
    {
        self.vstop(Ending::Aborted, detail)
    }

    fn vfail(&mut self, err: InputError) -> (action: VacantAction)
        ensures
            (final(self)@, action) == vfail(old(self)@, err),
    {
        if self.cleaning {
            self.vrelease()
        } else {
            self.vstop(Ending::Failed, err.message())
        }
    }

    fn vcancel(&mut self) -> (action: VacantAction)
        ensures
            (final(self)@, action) == vcancel(old(self)@),
    {
        if self.cleaning {
            self.vrelease()
        } else {
            self.vstop(Ending::Cancelled, String::new())
        }
    }

    fn begin_select(&mut self, pick: Pick) -> (action: VacantAction)
        ensures
            (final(self)@, action) == begin_select(old(self)@, pick),
    {
        self.phase = VacantPhase::SelClock;
        self.stage = VacantStage::Select(pick);
        VacantAction::ReadClock
    }

    fn begin_tick(&mut self, tick: Tick) -> (action: VacantAction)
        ensures
            (final(self)@, action) == begin_tick(old(self)@, tick),
    {
        self.phase = VacantPhase::Clock;
        self.stage = VacantStage::Clock(tick);
        VacantAction::ReadClock
    }

    fn begin_look(&mut self, look: Look) -> (action: VacantAction)
        ensures
            (final(self)@, action) == begin_look(old(self)@, look),
    {
        self.phase = VacantPhase::Cursor;
        self.stage = VacantStage::Cursor(look);
        VacantAction::ReadCursor
    }

    /// Which deadline has passed at `now`, if one has.
    fn deadline(&self, now: u64) -> (d: Option<String>)
        ensures
            match (d, deadline_of(self@, now)) {
                (Some(a), Some(b)) => a@ == b,
                (None, None) => true,
                _ => false,
            },
    {
        if now >= self.search_deadline {
            Some(String::from_str("F4 vacant-space search time limit reached"))
        } else if now >= self.run_deadline {
            Some(String::from_str("the whole F4 run hit its time limit"))
        } else {
            None
        }
    }

    fn drone_top(&mut self, now: u64) -> (action: VacantAction)
        requires
            1 <= old(self)@.pool <= 12,
        ensures
            (final(self)@, action) == drone_top(old(self)@, now),
    {
        match self.deadline(now) {
            Some(d) => self.vabort(d),
            None => {
                let q = pick_queue(self.pool, self.timing);
                self.vqueue(q, VacantStage::Select(Pick::Single))
            },
        }
    }

    fn end_pass(&mut self) -> (action: VacantAction)
        ensures
            (final(self)@, action) == end_pass(old(self)@),
    {
        if self.deferred.len() == 0 || self.pass >= 1 {
            if self.probes_drone >= MAX_PROBES_PER_DRONE {
                self.vabort(String::from_str("the F4 search hit its probe limit for one drone"))
            } else {
                self.vabort(
                    String::from_str("no more verified free Colony positions in the F4 view after retry"),
                )
            }
        } else {
            let ms = if self.timing.gap_ms > CAMERA_SETTLE_MS {
                self.timing.gap_ms
            } else {
                CAMERA_SETTLE_MS
            };
            let mut q: Vec<Op> = Vec::new();
            q.push(Op::Pause(ms));
            assert(q@ =~= seq![Op::Pause(revisit_ms(self.timing))]);
            self.vqueue(q, VacantStage::Revisit)
        }
    }

    /// Whether the candidate at position `k` of the pass may be probed.
    fn eligible_at(&self, k: usize) -> (yes: bool)
        requires
            k < self@.indices.len(),
            (self@.indices[k as int] as int) < self@.points.len(),
            self@.attempts.len() == self@.points.len(),
        ensures
            yes == eligible(self@, self@.indices[k as int]),
    {
        let index = self.indices[k];
        self.attempts[index] < MAX_ATTEMPTS && crate::vacant_colony::possibly_free(
            self.points[index],
            self.orders.as_slice(),
        )
    }

    fn scan(&mut self) -> (action: VacantAction)
        requires
            forall|i: int| 0 <= i < old(self)@.indices.len() ==> (#[trigger] old(self)@.indices[i] as int) < old(self)@.points.len(),
            old(self)@.attempts.len() == old(self)@.points.len(),
            old(self)@.pos <= old(self)@.indices.len(),
        ensures
            (final(self)@, action) == scan(old(self)@),
    {
        let ghost s0 = self@;
        let mut k = self.pos;
        while k < self.indices.len() && !self.eligible_at(k)
            invariant
                self@ == s0,
                forall|i: int| 0 <= i < s0.indices.len() ==> (#[trigger] s0.indices[i] as int) < s0.points.len(),
                s0.attempts.len() == s0.points.len(),
                s0.pos <= k <= s0.indices.len(),
                first_eligible(s0, s0.pos) == first_eligible(s0, k as nat),
            decreases s0.indices.len() - k,
        {
            k = k + 1;
        }
        assert(first_eligible(s0, k as nat) == k);
        let budget: usize = if self.pass == 0 {
            MAX_PROBES_PER_DRONE - REVISIT_RESERVE
        } else {
            REVISIT_RESERVE
        };
        if k >= self.indices.len() || self.probes_pass >= budget {
            self.end_pass()
        } else {
            self.pos = k;
            self.cand = self.indices[k];
            self.begin_tick(Tick::Probe)
        }
    }

    fn fail_candidate(&mut self) -> (action: VacantAction)
        requires
            forall|i: int| 0 <= i < old(self)@.indices.len() ==> (#[trigger] old(self)@.indices[i] as int) < old(self)@.points.len(),
            old(self)@.attempts.len() == old(self)@.points.len(),
            old(self)@.pos < old(self)@.indices.len(),
            old(self)@.cand < old(self)@.points.len(),
            old(self)@.attempts[old(self)@.cand as int] < 2,
        ensures
            (final(self)@, action) == fail_candidate(old(self)@),
    {
        let c = self.cand;
        let len = self.indices.len();
        assert(self.pos < len);
        let a = self.attempts[c];
        self.attempts.set(c, a + 1);
        self.deferred.push(c);
        self.pos = self.pos + 1;
        self.scan()
    }

    fn after_order(&mut self) -> (action: VacantAction)
        requires
            old(self)@.pool <= 12,
        ensures
            (final(self)@, action) == after_order(old(self)@),
    {
        if self.pool <= 1 {
            self.vstop(Ending::Completed, String::new())
        } else {
            let q = crate::colony_run::tap(Key::Nine, self.timing);
            self.vqueue(q, VacantStage::Select(Pick::Recall))
        }
    }

    fn keep_waiting(&mut self) -> (action: VacantAction)
        ensures
            (final(self)@, action) == keep_waiting(old(self)@),
    {
        self.previous = copy_frame(&self.shot);
        let q = pause_then_guard(crate::vacant_colony::construction_poll_ms(self.timing.gap_ms));
        self.vqueue(q, VacantStage::Take(Shot::Panel))
    }
}

impl VacantRun {
    fn check_initial(&mut self) -> (action: VacantAction)
        requires
            old(self)@.shot is Some,
        ensures
            (final(self)@, action) == on_shot(old(self)@, Shot::Initial),
    {
        proof {
            reveal(on_shot);
        }
        let (ok, read) = {
            let v = self.shot.as_ref().unwrap();
            (client_visible(v), crate::vision::detect_selection(v))
        };
        if !ok {
            return self.vabort(String::from_str("F4 placement requires a visible 1920x1080 client at (0,0)"));
        }
        match read {
            SelectionRead::Drones { count } => if 2 <= count && count <= 12 {
                self.detected = count;
                self.count = count;
                self.pool = count;
                let q = tap_then_capture(Key::F4, CAMERA_SETTLE_MS, self.timing);
                self.vqueue(q, VacantStage::Take(Shot::Saved))
            } else {
                self.vabort(String::from_str("select 2-12 drones before starting F4 Colony placement"))
            },
            _ => self.vabort(String::from_str("select 2-12 drones before starting F4 Colony placement")),
        }
    }

    fn check_saved(&mut self) -> (action: VacantAction)
        requires
            old(self)@.shot is Some,
        ensures
            (final(self)@, action) == on_shot(old(self)@, Shot::Saved),
    {
        proof {
            reveal(on_shot);
        }
        let ok = client_visible(self.shot.as_ref().unwrap());
        if !ok {
            return self.vabort(String::from_str("F4 placement requires a visible 1920x1080 client at (0,0)"));
        }
        self.saved = copy_frame(&self.shot);
        self.begin_select(Pick::Group)
    }

    fn check_baseline(&mut self) -> (action: VacantAction)
        requires
            old(self)@.shot is Some,
            old(self)@.saved is Some,
            old(self)@.saved.unwrap().origin == (Point { x: 0, y: 0 }),
            old(self)@.saved.unwrap().width == 1920,
            old(self)@.saved.unwrap().height == 1080,
        ensures
            (final(self)@, action) == on_shot(old(self)@, Shot::Baseline),
    {
        proof {
            reveal(on_shot);
        }
        let ok = client_visible(self.shot.as_ref().unwrap());
        if !ok {
            return self.vabort(String::from_str("F4 placement requires a visible 1920x1080 client at (0,0)"));
        }
        let mut skips = self.orders.clone();
        skips.push(park());
        let same = crate::vacant_colony::same_view(
            self.saved.as_ref().unwrap(),
            self.shot.as_ref().unwrap(),
            skips.as_slice(),
        );
        if !same {
            return self.vabort(String::from_str("the F4 view changed; refusing stale screen coordinates"));
        }
        let read = crate::vision::detect_selection(self.shot.as_ref().unwrap());
        if !matches!(read, SelectionRead::SingleDrone) {
            return self.vabort(String::from_str("the single-drone selection changed after recalling F4"));
        }
        self.baseline = copy_frame(&self.shot);
        self.preview_at = Some(park());
        let q = crate::colony_run::build_keys(BuildTarget::Colony, self.timing);
        self.vqueue(q, VacantStage::Keyed)
    }

    fn check_first(&mut self) -> (action: VacantAction)
        requires
            vacant_wf(old(self)@),
            running(old(self)@),
            old(self)@.stage == VacantStage::Check(Shot::First),
        ensures
            (final(self)@, action) == on_shot(old(self)@, Shot::First),
    {
        proof {
            reveal(on_shot);
        }
        let r = probe_region(self.point);
        if !fits(self.shot.as_ref().unwrap(), r) {
            return self.vabort(String::from_str("the probe capture returned unexpected screen coordinates"));
        }
        proof {
            lemma_probe_frame_comparable(self@.shot.unwrap(), self@.point);
        }
        let skips = vec![self.point, park()];
        assert(skips@ =~= seq![self@.point, park_point()]);
        let same = crate::vacant_colony::same_view(
            self.baseline.as_ref().unwrap(),
            self.shot.as_ref().unwrap(),
            skips.as_slice(),
        );
        if !same {
            return self.vabort(String::from_str("the camera or scene changed since the placement baseline"));
        }
        let green = crate::vacant_colony::fresh_green(
            self.baseline.as_ref().unwrap(),
            self.shot.as_ref().unwrap(),
            self.point,
            self.orders.as_slice(),
        );
        match green {
            None => self.fail_candidate(),
            Some(c) => {
                self.confirmed = self.confirmed + 1;
                self.center = c;
                self.first = copy_frame(&self.shot);
                let q = pause_then_guard(crate::vacant_colony::preview_settle_ms(self.timing.gap_ms));
                self.vqueue(q, VacantStage::Take(Shot::Second))
            },
        }
    }

    fn check_second(&mut self) -> (action: VacantAction)
        requires
            vacant_wf(old(self)@),
            running(old(self)@),
            old(self)@.stage == VacantStage::Check(Shot::Second),
        ensures
            (final(self)@, action) == on_shot(old(self)@, Shot::Second),
    {
        proof {
            reveal(on_shot);
        }
        let r = probe_region(self.point);
        if !fits(self.shot.as_ref().unwrap(), r) {
            return self.vabort(String::from_str("the probe capture returned unexpected screen coordinates"));
        }
        proof {
            lemma_probe_frame_comparable(self@.shot.unwrap(), self@.point);
            lemma_probe_frame_comparable(self@.first.unwrap(), self@.point);
        }
        let skips = vec![self.point];
        assert(skips@ =~= seq![self@.point]);
        let same = crate::vacant_colony::same_view(
            self.first.as_ref().unwrap(),
            self.shot.as_ref().unwrap(),
            skips.as_slice(),
        );
        if !same {
            return self.vabort(String::from_str("camera or scene changed before placement click"));
        }
        let green = crate::vacant_colony::fresh_green(
            self.baseline.as_ref().unwrap(),
            self.shot.as_ref().unwrap(),
            self.point,
            self.orders.as_slice(),
        );
        let agrees = match green {
            Some(c) => c == self.center,
            None => false,
        };
        if !agrees {
            self.fail_candidate()
        } else {
            self.begin_tick(Tick::Order)
        }
    }

    fn check_closing(&mut self) -> (action: VacantAction)
        requires
            vacant_wf(old(self)@),
            running(old(self)@),
            old(self)@.stage == VacantStage::Check(Shot::Closing),
        ensures
            (final(self)@, action) == on_shot(old(self)@, Shot::Closing),
    {
        proof {
            reveal(on_shot);
        }
        let r = probe_region(self.point);
        if !fits(self.shot.as_ref().unwrap(), r) {
            return self.vabort(String::from_str("the probe capture returned unexpected screen coordinates"));
        }
        let read = crate::vision::detect_placement(self.shot.as_ref().unwrap(), self.point, 144);
        let absent: usize = if matches!(read, Placement::Absent) {
            self.absent + 1
        } else {
            0
        };
        if absent >= 2 {
            self.absent = absent;
            self.preview_at = None;
            let end = add_sat(self.wait_started, self.budgets.construction_ms);
            self.start_deadline = if end < self.run_deadline {
                end
            } else {
                self.run_deadline
            };
            self.consecutive = 0;
            self.previous = None;
            self.begin_look(Look::Expected)
        } else if self.shot_ms >= self.close_deadline {
            self.vabort(
                String::from_str("placement did not close after the order; stopping, not retrying the click"),
            )
        } else {
            self.absent = absent;
            let q = pause_then_guard(crate::vacant_colony::preview_settle_ms(self.timing.gap_ms));
            self.vqueue(q, VacantStage::Take(Shot::Closing))
        }
    }

    fn check_panel(&mut self) -> (action: VacantAction)
        requires
            old(self)@.shot is Some,
        ensures
            (final(self)@, action) == on_shot(old(self)@, Shot::Panel),
    {
        proof {
            reveal(on_shot);
        }
        let ok = client_visible(self.shot.as_ref().unwrap());
        if !ok {
            return self.vabort(String::from_str("F4 placement requires a visible 1920x1080 client at (0,0)"));
        }
        let q = guard_pair();
        self.vqueue(q, VacantStage::Take(Shot::Site))
    }

    fn check_site(&mut self) -> (action: VacantAction)
        requires
            old(self)@.shot is Some,
            near_client(old(self)@.center),
        ensures
            (final(self)@, action) == on_shot(old(self)@, Shot::Site),
    {
        proof {
            reveal(on_shot);
        }
        let r = probe_region(self.center);
        if !fits(self.shot.as_ref().unwrap(), r) {
            return self.vabort(String::from_str("the probe capture returned unexpected screen coordinates"));
        }
        if self.shot_ms >= self.start_deadline {
            let d = no_start_string(self.morphing);
            return self.vabort(d);
        }
        self.begin_look(Look::Moved)
    }

    fn check_cleanup(&mut self) -> (action: VacantAction)
        requires
            old(self)@.shot is Some,
            client_point(old(self)@.point),
        ensures
            (final(self)@, action) == on_shot(old(self)@, Shot::Cleanup),
    {
        proof {
            reveal(on_shot);
        }
        let r = probe_region(self.point);
        let open = if fits(self.shot.as_ref().unwrap(), r) {
            let read = crate::vision::detect_placement(self.shot.as_ref().unwrap(), self.point, 144);
            matches!(read, Placement::Valid { .. }) || matches!(read, Placement::Invalid { .. })
        } else {
            false
        };
        if open {
            let q = crate::colony_run::tap(Key::Escape, self.timing);
            self.vqueue(q, VacantStage::Escaped)
        } else {
            self.vrelease()
        }
    }
}

impl VacantRun {
    fn on_tick(&mut self, tick: Tick, now: u64) -> (action: VacantAction)
        requires
            vacant_wf(old(self)@),
            running(old(self)@),
            old(self)@.phase is Clock,
            old(self)@.stage == VacantStage::Clock(tick),
        ensures
            (final(self)@, action) == on_tick(old(self)@, tick, now),
    {
        proof {
            reveal(on_tick);
        }
        match tick {
            Tick::SearchStart => {
                self.search_deadline = add_sat(now, self.budgets.search_ms);
                self.run_deadline = add_sat(now, self.budgets.run_ms);
                self.drone_top(now)
            },
            Tick::DroneTop => self.drone_top(now),
            Tick::Probe => match budget_gate(
                self.probes,
                self.probes_drone,
                now,
                self.search_deadline,
                self.run_deadline,
            ) {
                Err(d) => self.vabort(d),
                Ok(()) => if self.confirmed == 0 && self.probes_drone >= NO_CONFIRM_GIVE_UP {
                    self.vabort(
                        String::from_str(
                            "no green placement preview was confirmed after a bounded search; check                      terrain, resources and preview detection",
                        ),
                    )
                } else {
                    let p = self.points[self.cand];
                    self.probes_drone = self.probes_drone + 1;
                    self.probes_pass = self.probes_pass + 1;
                    self.point = p;
                    let mut q: Vec<Op> = Vec::new();
                    push_move(&mut q, p);
                    assert(q@ =~= move_ops(p));
                    self.vqueue(q, VacantStage::Probed)
                },
            },
            Tick::Order => match self.deadline(now) {
                Some(d) => self.vabort(d),
                None => {
                    let q = guard_pair();
                    self.vqueue(q, VacantStage::Cursor(Look::Order))
                },
            },
            Tick::Closing => {
                self.wait_started = now;
                self.close_deadline = add_sat(now, CAPTURE_TIMEOUT_MS);
                self.absent = 0;
                let q = pause_then_guard(crate::vacant_colony::preview_settle_ms(self.timing.gap_ms));
                self.vqueue(q, VacantStage::Take(Shot::Closing))
            },
            Tick::Extend => {
                let elapsed = if now > self.wait_started {
                    now - self.wait_started
                } else {
                    0
                };
                self.search_deadline = add_sat(self.search_deadline, elapsed);
                self.after_order()
            },
        }
    }

    fn on_look(&mut self, look: Look, p: Point) -> (action: VacantAction)
        requires
            vacant_wf(old(self)@),
            running(old(self)@),
            old(self)@.phase is Cursor,
            old(self)@.stage == VacantStage::Cursor(look),
        ensures
            (final(self)@, action) == on_look(old(self)@, look, p),
    {
        proof {
            reveal(on_look);
        }
        match look {
            Look::Order => if p != self.point {
                self.vabort(String::from_str("the mouse moved before placement; refusing to click"))
            } else {
                let mut q: Vec<Op> = Vec::new();
                q.push(Op::CheckCancel);
                q.push(Op::Gate);
                q.push(Op::Send(Primitive::MouseLeftDown));
                assert(q@ =~= press_ops());
                self.vqueue(q, VacantStage::Pressed)
            },
            Look::Expected => {
                self.expected = p;
                let q = guard_pair();
                self.vqueue(q, VacantStage::Take(Shot::Panel))
            },
            Look::Moved => {
                if p != self.expected {
                    return self.vabort(String::from_str("the mouse moved during construction confirmation"));
                }
                proof {
                    lemma_probe_frame_comparable(self@.shot.unwrap(), self@.center);
                }
                let skips = vec![self.center, park()];
                assert(skips@ =~= seq![self@.center, park_point()]);
                let same = crate::vacant_colony::same_view(
                    self.baseline.as_ref().unwrap(),
                    self.shot.as_ref().unwrap(),
                    skips.as_slice(),
                );
                if !same {
                    return self.vabort(
                        String::from_str("the camera or scene changed during construction confirmation"),
                    );
                }
                let changed = self.morphing && crate::vacant_colony::site_changed(
                    self.baseline.as_ref().unwrap(),
                    self.shot.as_ref().unwrap(),
                    self.center,
                );
                if changed {
                    let c: usize = match &self.previous {
                        Some(prev) => {
                            proof {
                                lemma_probe_frame_comparable(prev@, self@.center);
                            }
                            let only = vec![self.center];
                            assert(only@ =~= seq![self@.center]);
                            if !crate::vacant_colony::same_view(prev, self.shot.as_ref().unwrap(), only.as_slice()) {
                                1
                            } else {
                                self.consecutive + 1
                            }
                        },
                        None => self.consecutive + 1,
                    };
                    self.consecutive = c;
                    if c >= CONSTRUCTION_CONFIRM_READS {
                        self.starts.push(self.center);
                        self.begin_tick(Tick::Extend)
                    } else {
                        self.keep_waiting()
                    }
                } else {
                    self.consecutive = 0;
                    self.keep_waiting()
                }
            },
        }
    }

    fn on_select(&mut self, pick: Pick, read: SelectionRead) -> (action: VacantAction)
        requires
            vacant_wf(old(self)@),
            running(old(self)@),
            old(self)@.phase is SelCapture,
            old(self)@.stage == VacantStage::Select(pick),
        ensures
            (final(self)@, action) == on_select(old(self)@, pick, read),
    {
        match pick {
            Pick::Group => {
                let q = crate::colony_run::chord(Key::Control, Key::Nine, self.timing);
                self.vqueue(q, VacantStage::Clock(Tick::SearchStart))
            },
            Pick::Single => if self.pool != self.count {
                let q = tap_then_capture(Key::F4, CAMERA_SETTLE_MS, self.timing);
                self.vqueue(q, VacantStage::Take(Shot::Baseline))
            } else {
                let q = guard_pair();
                self.vqueue(q, VacantStage::Take(Shot::Baseline))
            },
            Pick::Recall => {
                let recalled: u8 = match read {
                    SelectionRead::Drones { count } => count,
                    _ => 1,
                };
                if recalled == self.pool {
                    let q = trim_queue(self.pool, self.timing);
                    self.vqueue(q, VacantStage::Select(Pick::Trim))
                } else {
                    let q = crate::colony_run::chord(Key::Control, Key::Nine, self.timing);
                    self.vqueue(q, VacantStage::Resaved)
                }
            },
            Pick::Trim => {
                let q = crate::colony_run::chord(Key::Control, Key::Nine, self.timing);
                self.vqueue(q, VacantStage::Resaved)
            },
        }
    }

    /// The selection a wait is for.
    fn expect_for(&self, pick: Pick) -> (x: Expect)
        requires
            pick == Pick::Trim ==> self@.pool >= 1,
        ensures
            x == expect_of(self@, pick),
    {
        match pick {
            Pick::Group => Expect::Count { n: self.count },
            Pick::Single => Expect::Single,
            Pick::Recall => Expect::Recall { pool: self.pool },
            Pick::Trim => Expect::Count { n: self.pool - 1 },
        }
    }

    fn on_shot(&mut self, shot: Shot) -> (action: VacantAction)
        requires
            vacant_wf(old(self)@),
            old(self)@.phase is Queue,
            old(self)@.stage == VacantStage::Check(shot),
            running(old(self)@) || shot == Shot::Cleanup,
            old(self)@.cleaning ==> shot == Shot::Cleanup,
        ensures
            (final(self)@, action) == on_shot(old(self)@, shot),
    {
        match shot {
            Shot::Initial => self.check_initial(),
            Shot::Saved => self.check_saved(),
            Shot::Baseline => self.check_baseline(),
            Shot::First => self.check_first(),
            Shot::Second => self.check_second(),
            Shot::Closing => self.check_closing(),
            Shot::Panel => self.check_panel(),
            Shot::Site => self.check_site(),
            Shot::Cleanup => self.check_cleanup(),
        }
    }

    fn vresume(&mut self) -> (action: VacantAction)
        requires
            vacant_wf(old(self)@),
            old(self)@.phase is Queue,
        ensures
            (final(self)@, action) == vresume(old(self)@),
    {
        proof {
            reveal(vresume);
        }
        match self.stage {
            VacantStage::Take(shot) => {
                self.phase = VacantPhase::Shooting;
                match shot {
                    Shot::Initial | Shot::Saved | Shot::Baseline => VacantAction::CaptureClient,
                    Shot::Panel => VacantAction::CapturePanel,
                    Shot::Site => VacantAction::CaptureRegion(probe_region(self.center)),
                    _ => VacantAction::CaptureRegion(probe_region(self.point)),
                }
            },
            VacantStage::Check(shot) => self.on_shot(shot),
            VacantStage::Clock(tick) => self.begin_tick(tick),
            VacantStage::Cursor(look) => self.begin_look(look),
            VacantStage::Select(pick) => self.begin_select(pick),
            VacantStage::Probed => {
                self.preview_at = Some(self.point);
                self.probes = self.probes + 1;
                let q = pause_then_guard(crate::vacant_colony::preview_settle_ms(self.timing.gap_ms));
                self.vqueue(q, VacantStage::Take(Shot::First))
            },
            VacantStage::Pressed => {
                self.orders.push(self.center);
                let mut q: Vec<Op> = Vec::new();
                q.push(Op::Pause(self.timing.press_ms));
                q.push(Op::CheckCancel);
                q.push(Op::Gate);
                q.push(Op::Send(Primitive::MouseLeftUp));
                q.push(Op::Pause(self.timing.gap_ms));
                assert(q@ =~= release_ops(self.timing));
                self.vqueue(q, VacantStage::Clock(Tick::Closing))
            },
            VacantStage::Resaved => {
                self.pool = self.pool - 1;
                self.begin_tick(Tick::DroneTop)
            },
            VacantStage::Keyed => {
                let n = self.points.len();
                let mut indices: Vec<usize> = Vec::new();
                let mut i: usize = 0;
                while i < n
                    invariant
                        i <= n,
                        indices@ =~= Seq::new(i as nat, |j: int| j as usize),
                    decreases n - i,
                {
                    indices.push(i);
                    i = i + 1;
                }
                self.probes_drone = 0;
                self.deferred = Vec::new();
                self.pass = 0;
                self.indices = indices;
                self.pos = 0;
                self.probes_pass = 0;
                self.scan()
            },
            VacantStage::Revisit => {
                self.pass = 1;
                let d = self.deferred.clone();
                assert(d@ =~= old(self)@.deferred);
                self.indices = d;
                self.deferred = Vec::new();
                self.pos = 0;
                self.probes_pass = 0;
                self.scan()
            },
            VacantStage::Escaped => self.vrelease(),
        }
    }

    fn vadvance(&mut self) -> (action: VacantAction)
        requires
            vacant_wf(old(self)@),
            old(self)@.phase is Queue,
        ensures
            (final(self)@, action) == vadvance(old(self)@),
    {
        if self.next < self.queue.len() - 1 {
            self.next = self.next + 1;
            op_action_of(self.queue[self.next])
        } else {
            self.vresume()
        }
    }

    fn vqueue_step(&mut self, event: VacantEvent) -> (action: VacantAction)
        requires
            vacant_wf(old(self)@),
            old(self)@.phase is Queue,
            vexpects(old(self)@, event),
        ensures
            (final(self)@, action) == vqueue_step(old(self)@, event),
    {
        match event {
            VacantEvent::CancelChecked { cancelled } => if cancelled {
                self.vcancel()
            } else {
                self.vadvance()
            },
            VacantEvent::GateChecked(r) => match r {
                Err(err) => self.vfail(err),
                Ok(()) => self.vadvance(),
            },
            VacantEvent::Sent(r) => match r {
                Err(err) => self.vfail(err),
                Ok(()) => self.vadvance(),
            },
            VacantEvent::Waited { cancelled } => if cancelled {
                self.vcancel()
            } else {
                self.vadvance()
            },
            _ => VacantAction::Finish,
        }
    }

    /// Takes the answer to the previous action and decides the next one.
    ///
    /// A world click is sent only after two reads of the candidate showed a
    /// fresh green preview at the same centre with the scene unchanged and
    /// the cursor still on the candidate; the next drone is picked only
    /// after the ordered one was seen starting; every cursor move and event
    /// follows a cancellation look and a passed safety gate; a cancellation,
    /// a refused gate, a failed event, an unusable capture or a passed
    /// budget stops the run, which then ends with one `release_all`.
    pub fn step(&mut self, event: VacantEvent) -> (action: VacantAction)
        requires
            old(self).wf(),
            vexpects(old(self)@, event),
        ensures
            final(self).wf(),
            (final(self)@, action) == vtransition(old(self)@, event),
    {
        proof {
            lemma_vacant_transition_keeps_wf(old(self)@, event);
        }
        match self.phase {
            VacantPhase::Idle => {
                let mut q: Vec<Op> = Vec::new();
                push_move(&mut q, park());
                q.push(Op::CheckCancel);
                q.push(Op::Gate);
                assert(q@ =~= move_ops(park_point()) + guard2());
                self.vqueue(q, VacantStage::Take(Shot::Initial))
            },
            VacantPhase::Queue => self.vqueue_step(event),
            VacantPhase::Shooting => match event {
                VacantEvent::Captured { frame: Err(err), .. } => self.vfail(err),
                VacantEvent::Captured { frame: Ok(f), now_ms } => match self.stage {
                    VacantStage::Take(shot) => {
                        self.shot = Some(f);
                        self.shot_ms = now_ms;
                        let q = guard_pair();
                        self.vqueue(q, VacantStage::Check(shot))
                    },
                    _ => VacantAction::Finish,
                },
                VacantEvent::Panel { frame: Err(err), .. } => self.vfail(err),
                VacantEvent::Panel { frame: Ok(f), morphing_colony } => {
                    self.shot = Some(f);
                    self.morphing = morphing_colony;
                    let q = guard_pair();
                    self.vqueue(q, VacantStage::Check(Shot::Panel))
                },
                _ => VacantAction::Finish,
            },
            VacantPhase::Clock => match (self.stage, event) {
                (VacantStage::Clock(tick), VacantEvent::Clock { now_ms }) => self.on_tick(tick, now_ms),
                _ => VacantAction::Finish,
            },
            VacantPhase::Cursor => match (self.stage, event) {
                (VacantStage::Cursor(_), VacantEvent::Cursor(Err(err))) => self.vfail(err),
                (VacantStage::Cursor(look), VacantEvent::Cursor(Ok(p))) => self.on_look(look, p),
                _ => VacantAction::Finish,
            },
            VacantPhase::SelClock => match event {
                VacantEvent::Clock { now_ms } => {
                    self.sel_deadline = add_sat(now_ms, CAPTURE_TIMEOUT_MS);
                    self.phase = VacantPhase::SelCancel;
                    VacantAction::CheckCancel
                },
                _ => VacantAction::Finish,
            },
            VacantPhase::SelCancel => match event {
                VacantEvent::CancelChecked { cancelled } => if cancelled {
                    self.vcancel()
                } else {
                    self.phase = VacantPhase::SelCapture;
                    VacantAction::CaptureClient
                },
                _ => VacantAction::Finish,
            },
            VacantPhase::SelCapture => match (self.stage, event) {
                (_, VacantEvent::Captured { frame: Err(err), .. }) => self.vfail(err),
                (VacantStage::Select(pick), VacantEvent::Captured { frame: Ok(f), now_ms }) => {
                    let read = crate::vision::detect_selection(&f);
                    let expect = self.expect_for(pick);
                    if crate::colony_run::accepts_read(expect, read) {
                        self.on_select(pick, read)
                    } else if now_ms >= self.sel_deadline {
                        let d = selection_timeout_string(read);
                        self.vabort(d)
                    } else {
                        self.phase = VacantPhase::SelPause;
                        VacantAction::Wait { ms: ui_poll_ms(self.timing.gap_ms) }
                    }
                },
                _ => VacantAction::Finish,
            },
            VacantPhase::SelPause => match event {
                VacantEvent::Waited { cancelled } => if cancelled {
                    self.vcancel()
                } else {
                    self.phase = VacantPhase::SelCancel;
                    VacantAction::CheckCancel
                },
                _ => VacantAction::Finish,
            },
            VacantPhase::Releasing => match event {
                VacantEvent::Sent(r) => match r {
                    Err(err) => {
                        self.phase = VacantPhase::Done;
                        self.ending = Ending::Failed;
                        self.detail = err.message();
                        VacantAction::Finish
                    },
                    Ok(()) => {
                        self.phase = VacantPhase::Done;
                        VacantAction::Finish
                    },
                },
                _ => VacantAction::Finish,
            },
            VacantPhase::Done => VacantAction::Finish,
        }
    }
}

} // verus!
