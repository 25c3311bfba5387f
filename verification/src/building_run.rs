//! One run of the shared building action, as a state machine: one capture,
//! click each detected building, verify the selection panel, press `A` once.
//!
//! The run issues no build order and reports no building. It takes exactly
//! one full-screen capture; the application runs the template search on it
//! and hands back the detections. For each detection the run moves the
//! cursor, clicks, reads the small selection-panel region at most three
//! times, and presses `A` only when a read confirmed the profile's portrait;
//! otherwise the target is reported as skipped. The adapter's safety gate,
//! with a look at the cancellation flag before and after it, runs before
//! every cursor move, button and key event, and every path ends with the
//! adapter's `release_all`.
use vstd::prelude::*;
use vstd::string::*;

use crate::building_action::{
    BuildingActionOutcome, BuildingActionReport, BuildingScanError, BuildingScanReport,
    BuildingTargetDisposition, BuildingTargetReport,
};
use crate::building_vision::supported_client;
use crate::colony_run::Op;
use crate::engine::Ending;
use crate::frame::{sampled_dark, Frame, FrameView, Point, Rect};
use crate::input::{input_error_text, InputError};
use crate::macros::{Key, Primitive, Timing};
use crate::text::{decimal, decimal_text, signed_decimal, signed_text};

verus! {

/// Bounded selection-panel reads before a click counts as unverified.
pub const VERIFY_ATTEMPTS: usize = 3;
/// Pause after the last event of one key tap, in milliseconds.
pub const ORDERING_GAP_MS: u64 = 5;
/// Ceiling on the pause between moving the cursor and clicking.
pub const MOVE_SETTLE_MS: u64 = 12;
/// Ceiling on the pause between two selection-panel reads.
pub const VERIFY_RETRY_GAP_MS: u64 = 24;
/// Camera settle after an optional key recall before the one capture.
pub const PRE_CAPTURE_SETTLE_MS: u64 = 200;

/// One building the template search found.
#[derive(Clone, Copy, Debug, PartialEq, Eq, Structural)]
pub struct Detection {
    /// Where the click lands.
    pub center: Point,
    /// Detector score, in thousandths.
    pub score_permille: u32,
}

/// Where a [`BuildingRun`] stands.
#[derive(Clone, Copy, Debug, PartialEq, Eq, Structural)]
pub enum BuildingPhase {
    /// Not started: waits for [`BuildingEvent::Start`].
    Idle,
    /// Working through a fixed sequence of [`Op`]s.
    Queue,
    /// The one full-screen capture is in flight.
    Capture,
    /// The application searches the capture.
    Detect,
    /// A selection-panel read is in flight.
    Roi,
    /// Calling the adapter's closing `release_all`.
    Releasing,
    /// The run is over.
    Done,
}

/// What follows the current fixed sequence.
#[derive(Clone, Copy, Debug, PartialEq, Eq, Structural)]
pub enum BuildingStage {
    /// The opening look at the cancellation flag.
    Opened,
    /// The optional recall key was tapped and the camera settled.
    Settled,
    /// The look at the flag after the capture: check the frame.
    Captured,
    /// The look at the flag after the search: start on the targets.
    Scanned,
    /// The cursor was moved onto a target and clicked: read the panel.
    Clicked,
    /// The safety check ahead of a panel read.
    Verifying,
    /// `A` was tapped for the current target.
    Acted,
}

/// What the run asks the application to do next.
#[derive(Clone, Copy, Debug, PartialEq, Eq, Structural)]
pub enum BuildingAction {
    /// Read the cancellation flag; answer [`BuildingEvent::CancelChecked`].
    CheckCancel,
    /// Run the adapter's safety gate; answer [`BuildingEvent::GateChecked`].
    SafetyCheck,
    /// Inject this event; answer [`BuildingEvent::Sent`].
    Send(Primitive),
    /// Wait this long, polling the cancellation flag; answer
    /// [`BuildingEvent::Waited`].
    Wait { ms: u64 },
    /// Move the cursor; answer [`BuildingEvent::Sent`].
    MoveCursor(Point),
    /// Capture the full client; answer [`BuildingEvent::Captured`].
    Capture,
    /// Search [`BuildingRun::frame`]; answer [`BuildingEvent::Detected`].
    Detect,
    /// Capture this region and check it against the profile's portrait;
    /// answer [`BuildingEvent::RoiChecked`].
    CheckPortrait(Rect),
    /// Call the adapter's `release_all`; answer [`BuildingEvent::Sent`].
    ReleaseAll,
    /// The run is over; [`BuildingRun::report`] tells how it ended.
    Finish,
}

/// What the application saw when it did what the run asked.
#[derive(Debug)]
pub enum BuildingEvent {
    /// Begin the run.
    Start,
    /// Whether cancellation was requested.
    CancelChecked { cancelled: bool },
    /// The safety gate's answer.
    GateChecked(Result<(), InputError>),
    /// The adapter's answer to an injected event, a cursor move or the
    /// closing release.
    Sent(Result<(), InputError>),
    /// Whether cancellation cut the wait short.
    Waited { cancelled: bool },
    /// The full capture and how long it took.
    Captured { frame: Result<Frame, InputError>, capture_ms: u128 },
    /// What the search found, in click order, and how long it took.
    Detected { detections: Vec<Detection>, detect_ms: u128 },
    /// Whether the panel read showed the profile's portrait.
    RoiChecked(Result<bool, InputError>),
}

/// The abstract state of a building run.
pub ghost struct BuildingView {
    pub timing: Timing,
    /// Short building class name ("Spire", "Stargate").
    pub label: Seq<char>,
    /// Screen rectangle of the selection-panel portrait.
    pub roi: Rect,
    /// The calibration profile is usable.
    pub profile_ok: bool,
    /// A key to tap before the capture, if any.
    pub before: Option<Key>,
    pub phase: BuildingPhase,
    pub stage: BuildingStage,
    pub queue: Seq<Op>,
    pub next: nat,
    /// The capture, once taken.
    pub frame: Option<FrameView>,
    /// The detections, in click order.
    pub found: Seq<Detection>,
    /// The target being worked on; all before it are reported.
    pub index: nat,
    /// Panel reads already made for the current target.
    pub attempt: nat,
    /// The reported targets: centre, score, and whether `A` was sent.
    pub done: Seq<(Point, u32, bool)>,
    pub acted: nat,
    pub skipped: nat,
    pub full_captures: nat,
    pub roi_captures: nat,
    pub capture_ms: u128,
    pub detect_ms: u128,
    pub ending: Ending,
    pub detail: Seq<char>,
}

/// The action that starts `op`.
pub open spec fn op_act(op: Op) -> BuildingAction {
    match op {
        Op::CheckCancel => BuildingAction::CheckCancel,
        Op::Gate => BuildingAction::SafetyCheck,
        Op::Send(p) => BuildingAction::Send(p),
        Op::Pause(ms) => BuildingAction::Wait { ms },
        Op::Move(p) => BuildingAction::MoveCursor(p),
    }
}

/// The guard ahead of every move and event: the cancellation flag, the
/// adapter's safety check, and the flag again (a cancellation may arrive
/// while the safety check runs).
pub open spec fn guard_ops() -> Seq<Op> {
    seq![Op::CheckCancel, Op::Gate, Op::CheckCancel]
}

/// A key tap: held for `press`, then a short ordering gap.
pub open spec fn tap_seq(k: Key, t: Timing) -> Seq<Op> {
    guard_ops() + seq![Op::Send(Primitive::KeyDown(k)), Op::Pause(t.press_ms)] + guard_ops()
        + seq![Op::Send(Primitive::KeyUp(k)), Op::Pause(5)]
}

/// `a`, or `b` when smaller.
pub open spec fn min_ms(a: u64, b: u64) -> u64 {
    if a < b {
        a
    } else {
        b
    }
}

/// Moving onto a target and clicking it.
pub open spec fn click_seq(center: Point, t: Timing) -> Seq<Op> {
    seq![Op::CheckCancel] + guard_ops() + seq![Op::Move(center), Op::Pause(min_ms(t.gap_ms, 12))]
        + guard_ops() + seq![Op::Send(Primitive::MouseLeftDown), Op::Pause(t.press_ms)]
        + guard_ops() + seq![Op::Send(Primitive::MouseLeftUp), Op::Pause(t.gap_ms)]
}

/// Every cursor move and injected event of a sequence comes right after a
/// look at the cancellation flag that follows a safety gate that follows a
/// look at the flag.
pub open spec fn guarded_seq(q: Seq<Op>) -> bool {
    forall|j: int| 0 <= j < q.len() ==> #[trigger] guarded_at(q, j)
}

/// The step at `j` of `q`, when it moves the cursor or injects an event,
/// comes right after a look at the cancellation flag, a safety gate and
/// another look at the flag.
pub open spec fn guarded_at(q: Seq<Op>, j: int) -> bool {
    (q[j] is Send || q[j] is Move) ==> 3 <= j && q[j - 1] is CheckCancel && q[j - 2] is Gate
        && q[j - 3] is CheckCancel
}

/// How an input error ends the run: a refused gate is an expected, handled
/// stop; a rejected event is a failure.
pub open spec fn error_ending(e: InputError) -> Ending {
    match e {
        InputError::Unsafe(_) => Ending::Aborted,
        InputError::Injection(_) => Ending::Failed,
    }
}

/// Why an unusable capture stops the run, if it does.
#[verifier::opaque]
pub open spec fn frame_problem(v: FrameView) -> Option<Seq<char>> {
    if sampled_dark(v) {
        Some("the capture is blank; the game window is minimized or not rendering"@)
    } else if !(v.width == 1920 && v.height == 1080 && v.origin == Point { x: 0, y: 0 }) {
        Some(
            "unsupported client size "@ + decimal_text(v.width) + "x"@ + decimal_text(v.height)
                + " at ("@ + signed_text(v.origin.x as int) + ", "@ + signed_text(
                v.origin.y as int,
            ) + "); only 1920x1080 at (0, 0) is supported"@,
        )
    } else {
        None
    }
}

/// Why a run stops when its calibration profile is not usable.
pub open spec fn invalid_profile_text() -> Seq<char> {
    "invalid building calibration profile; no input was sent"@
}

/// Stopping the run: remember how and call `release_all`.
pub open spec fn bstop(s: BuildingView, ending: Ending, detail: Seq<char>) -> (
    BuildingView,
    BuildingAction,
) {
    (BuildingView { phase: BuildingPhase::Releasing, ending, detail, ..s }, BuildingAction::ReleaseAll)
}

/// Starting a fixed sequence.
pub open spec fn bqueue(s: BuildingView, q: Seq<Op>, stage: BuildingStage) -> (
    BuildingView,
    BuildingAction,
) {
    (BuildingView { phase: BuildingPhase::Queue, queue: q, next: 0, stage, ..s }, op_act(q[0]))
}

/// Working on target `s.index`, or finishing when every target is reported.
pub open spec fn next_target(s: BuildingView) -> (BuildingView, BuildingAction) {
    if s.index < s.found.len() {
        bqueue(
            BuildingView { attempt: 0, ..s },
            click_seq(s.found[s.index as int].center, s.timing),
            BuildingStage::Clicked,
        )
    } else {
        bstop(s, Ending::Completed, seq![])
    }
}

/// Reporting the current target and moving on to the next.
pub open spec fn report_target(s: BuildingView, acted: bool) -> (BuildingView, BuildingAction) {
    let d = s.found[s.index as int];
    next_target(
        BuildingView {
            done: s.done.push((d.center, d.score_permille, acted)),
            acted: if acted { s.acted + 1 } else { s.acted },
            skipped: if acted { s.skipped } else { s.skipped + 1 },
            index: s.index + 1,
            attempt: 0,
            ..s
        },
    )
}

/// What follows a fixed sequence.
pub open spec fn bresume(s: BuildingView) -> (BuildingView, BuildingAction) {
    match s.stage {
        BuildingStage::Opened => if !s.profile_ok {
            bstop(s, Ending::Aborted, invalid_profile_text())
        } else {
            match s.before {
                Some(k) => bqueue(
                    s,
                    tap_seq(k, s.timing) + seq![Op::Pause(200)],
                    BuildingStage::Settled,
                ),
                None => (BuildingView { phase: BuildingPhase::Capture, ..s }, BuildingAction::Capture),
            }
        },
        BuildingStage::Settled => (
            BuildingView { phase: BuildingPhase::Capture, ..s },
            BuildingAction::Capture,
        ),
        BuildingStage::Captured => match s.frame {
            Some(v) => match frame_problem(v) {
                Some(d) => bstop(s, Ending::Aborted, d),
                None => (BuildingView { phase: BuildingPhase::Detect, ..s }, BuildingAction::Detect),
            },
            None => bstop(s, Ending::Aborted, seq![]),
        },
        BuildingStage::Scanned => next_target(s),
        BuildingStage::Clicked => bqueue(s, guard_ops(), BuildingStage::Verifying),
        BuildingStage::Verifying => (
            BuildingView { phase: BuildingPhase::Roi, ..s },
            BuildingAction::CheckPortrait(s.roi),
        ),
        BuildingStage::Acted => report_target(s, true),
    }
}

/// The step in flight succeeded.
pub open spec fn badvance(s: BuildingView) -> (BuildingView, BuildingAction) {
    if s.next + 1 < s.queue.len() {
        (BuildingView { next: s.next + 1, ..s }, op_act(s.queue[s.next + 1 as int]))
    } else {
        bresume(s)
    }
}

/// The answer to the step of a fixed sequence in flight.
pub open spec fn bqueue_step(s: BuildingView, e: BuildingEvent) -> (BuildingView, BuildingAction) {
    match (s.queue[s.next as int], e) {
        (Op::CheckCancel, BuildingEvent::CancelChecked { cancelled }) => if cancelled {
            bstop(s, Ending::Cancelled, seq![])
        } else {
            badvance(s)
        },
        (Op::Gate, BuildingEvent::GateChecked(r)) => match r {
            Err(err) => bstop(s, error_ending(err), input_error_text(err)),
            Ok(()) => badvance(s),
        },
        (Op::Send(_), BuildingEvent::Sent(r)) => match r {
            Err(err) => bstop(s, error_ending(err), input_error_text(err)),
            Ok(()) => badvance(s),
        },
        (Op::Move(_), BuildingEvent::Sent(r)) => match r {
            Err(err) => bstop(s, error_ending(err), input_error_text(err)),
            Ok(()) => badvance(s),
        },
        (Op::Pause(_), BuildingEvent::Waited { cancelled }) => if cancelled {
            bstop(s, Ending::Cancelled, seq![])
        } else {
            badvance(s)
        },
        _ => (s, BuildingAction::Finish),
    }
}

/// `n + 1`, or `n` at the largest `usize`.
pub open spec fn bump(n: nat) -> nat {
    if n + 1 > usize::MAX {
        n
    } else {
        n + 1
    }
}

/// One transition of a building run.
pub open spec fn btransition(s: BuildingView, e: BuildingEvent) -> (BuildingView, BuildingAction) {
    match s.phase {
        BuildingPhase::Idle => bqueue(s, seq![Op::CheckCancel], BuildingStage::Opened),
        BuildingPhase::Queue => bqueue_step(s, e),
        BuildingPhase::Capture => match e {
            BuildingEvent::Captured { frame: Err(err), .. } => bstop(
                s,
                error_ending(err),
                input_error_text(err),
            ),
            BuildingEvent::Captured { frame: Ok(f), capture_ms } => bqueue(
                BuildingView { frame: Some(f@), capture_ms, full_captures: 1, ..s },
                seq![Op::CheckCancel],
                BuildingStage::Captured,
            ),
            _ => (s, BuildingAction::Finish),
        },
        BuildingPhase::Detect => match e {
            BuildingEvent::Detected { detections, detect_ms } => bqueue(
                BuildingView { found: detections@, detect_ms, index: 0, ..s },
                seq![Op::CheckCancel],
                BuildingStage::Scanned,
            ),
            _ => (s, BuildingAction::Finish),
        },
        BuildingPhase::Roi => match e {
            BuildingEvent::RoiChecked(Err(err)) => bstop(s, error_ending(err), input_error_text(err)),
            BuildingEvent::RoiChecked(Ok(accepted)) => {
                let t = BuildingView { roi_captures: bump(s.roi_captures), ..s };
                if accepted {
                    bqueue(
                        BuildingView { attempt: s.attempt + 1, ..t },
                        tap_seq(Key::A, s.timing),
                        BuildingStage::Acted,
                    )
                } else if s.attempt + 1 < 3 {
                    bqueue(
                        BuildingView { attempt: s.attempt + 1, ..t },
                        seq![Op::Pause(min_ms(24, s.timing.gap_ms))] + guard_ops(),
                        BuildingStage::Verifying,
                    )
                } else {
                    report_target(t, false)
                }
            },
            _ => (s, BuildingAction::Finish),
        },
        BuildingPhase::Releasing => match e {
            BuildingEvent::Sent(r) => {
                let (ending, detail) = crate::colony_run::release_outcome(s.ending, s.detail, r);
                (BuildingView { phase: BuildingPhase::Done, ending, detail, ..s }, BuildingAction::Finish)
            },
            _ => (s, BuildingAction::Finish),
        },
        BuildingPhase::Done => (s, BuildingAction::Finish),
    }
}

/// The answer a building run in state `s` waits for.
pub open spec fn bexpects(s: BuildingView, e: BuildingEvent) -> bool {
    match s.phase {
        BuildingPhase::Idle => e is Start,
        BuildingPhase::Queue => match s.queue[s.next as int] {
            Op::CheckCancel => e is CancelChecked,
            Op::Gate => e is GateChecked,
            Op::Send(_) | Op::Move(_) => e is Sent,
            Op::Pause(_) => e is Waited,
        },
        BuildingPhase::Capture => e is Captured,
        BuildingPhase::Detect => e is Detected,
        BuildingPhase::Roi => e is RoiChecked,
        BuildingPhase::Releasing => e is Sent,
        BuildingPhase::Done => false,
    }
}

/// The run's standing invariant: the reported targets are exactly those
/// before the current one, each counted once as acted or skipped; at most
/// one full capture; at most three panel reads per target; `A` is only ever
/// queued for a target whose panel read confirmed the portrait; and a fixed
/// sequence guards every move and event.
pub open spec fn building_wf(s: BuildingView) -> bool {
    &&& s.full_captures <= 1
    &&& s.done.len() == s.index
    &&& s.acted + s.skipped == s.index
    &&& s.index <= s.found.len()
    &&& s.attempt <= 3
    &&& (s.attempt == 3 ==> s.stage is Acted)
    &&& (s.index == s.found.len() ==> s.attempt == 0)
    &&& s.roi_captures <= 3 * s.index + s.attempt
    &&& (s.phase is Idle ==> s.full_captures == 0 && s.index == 0 && s.roi_captures == 0
        && s.attempt == 0 && s.found.len() == 0)
    &&& (s.phase is Capture ==> s.full_captures == 0)
    &&& (s.phase is Queue ==> s.next < s.queue.len() && guarded_seq(s.queue))
    &&& (s.phase is Queue && s.stage is Acted ==> s.queue == tap_seq(Key::A, s.timing))
    &&& ((s.phase is Queue && (s.stage is Clicked || s.stage is Verifying || s.stage is Acted))
        || s.phase is Roi ==> s.index < s.found.len())
    &&& (s.phase is Detect || (s.phase is Queue && s.stage is Captured) ==> s.frame is Some)
    &&& (s.phase is Detect || (s.phase is Queue && s.stage is Captured) ==> s.full_captures == 1)
    &&& (s.phase is Roi ==> s.stage is Verifying)
    &&& ((s.phase is Queue && (s.stage is Opened || s.stage is Settled)) || s.phase is Capture
        ==> s.full_captures == 0)
    &&& ((s.phase is Queue && (s.stage is Opened || s.stage is Settled || s.stage is Captured))
        || s.phase is Capture || s.phase is Detect ==> s.found.len() == 0)
    &&& ((s.phase is Queue && (s.stage is Opened || s.stage is Settled || s.stage is Captured
        || s.stage is Scanned)) || s.phase is Capture || s.phase is Detect ==> s.index == 0
        && s.roi_captures == 0 && s.attempt == 0)
}


/// Two guarded sequences in a row are guarded.
proof fn lemma_guarded_concat(a: Seq<Op>, b: Seq<Op>)
    requires
        guarded_seq(a),
        guarded_seq(b),
    ensures
        guarded_seq(a + b),
{
    assert forall|j: int| 0 <= j < (a + b).len() implies #[trigger] guarded_at(a + b, j) by {
        if j < a.len() {
            assert(guarded_at(a, j));
            assert((a + b)[j] == a[j]);
            if j >= 1 {
                assert((a + b)[j - 1] == a[j - 1]);
            }
            if j >= 2 {
                assert((a + b)[j - 2] == a[j - 2]);
            }
            if j >= 3 {
                assert((a + b)[j - 3] == a[j - 3]);
            }
        } else {
            assert(guarded_at(b, j - a.len()));
            assert((a + b)[j] == b[j - a.len()]);
            if (a + b)[j] is Send || (a + b)[j] is Move {
                assert((a + b)[j - 1] == b[j - 1 - a.len()]);
                assert((a + b)[j - 2] == b[j - 2 - a.len()]);
                assert((a + b)[j - 3] == b[j - 3 - a.len()]);
            }
        }
    }
}

/// `guard + [op, pause]` is guarded.
proof fn lemma_guarded_step(op: Op, ms: u64)
    ensures
        guarded_seq(guard_ops() + seq![op, Op::Pause(ms)]),
{
    let q = guard_ops() + seq![op, Op::Pause(ms)];
    assert forall|j: int| 0 <= j < q.len() implies #[trigger] guarded_at(q, j) by {
        if j != 3 {
            assert(!(q[j] is Send || q[j] is Move));
        }
    }
}

/// Sequences without moves or events are guarded.
proof fn lemma_quiet_guarded(q: Seq<Op>)
    requires
        forall|j: int| 0 <= j < q.len() ==> !((#[trigger] q[j]) is Send || q[j] is Move),
    ensures
        guarded_seq(q),
{
    assert forall|j: int| 0 <= j < q.len() implies #[trigger] guarded_at(q, j) by {
        assert(!(q[j] is Send || q[j] is Move));
    }
}

/// The run's fixed sequences are guarded.
pub proof fn lemma_building_sequences_are_guarded(k: Key, t: Timing, c: Point)
    ensures
        guarded_seq(tap_seq(k, t)),
        guarded_seq(tap_seq(k, t) + seq![Op::Pause(200)]),
        guarded_seq(click_seq(c, t)),
        guarded_seq(guard_ops()),
        guarded_seq(seq![Op::Pause(min_ms(24, t.gap_ms))] + guard_ops()),
        guarded_seq(seq![Op::CheckCancel]),
{
    let g = guard_ops();
    assert forall|j: int| 0 <= j < g.len() implies !((#[trigger] g[j]) is Send || g[j] is Move) by {}
    lemma_quiet_guarded(g);
    let cc = seq![Op::CheckCancel];
    assert forall|j: int| 0 <= j < cc.len() implies !((#[trigger] cc[j]) is Send || cc[j] is Move) by {}
    lemma_quiet_guarded(cc);
    let pg = seq![Op::Pause(min_ms(24, t.gap_ms))] + g;
    assert forall|j: int| 0 <= j < pg.len() implies !((#[trigger] pg[j]) is Send || pg[j] is Move) by {
        if j > 0 {
            assert(pg[j] == g[j - 1]);
        }
    }
    lemma_quiet_guarded(pg);
    let p200 = seq![Op::Pause(200)];
    assert forall|j: int| 0 <= j < p200.len() implies !((#[trigger] p200[j]) is Send || p200[j] is Move) by {}
    lemma_quiet_guarded(p200);
    lemma_guarded_step(Op::Send(Primitive::KeyDown(k)), t.press_ms);
    lemma_guarded_step(Op::Send(Primitive::KeyUp(k)), 5);
    lemma_guarded_concat(
        g + seq![Op::Send(Primitive::KeyDown(k)), Op::Pause(t.press_ms)],
        g + seq![Op::Send(Primitive::KeyUp(k)), Op::Pause(5)],
    );
    assert(tap_seq(k, t) =~= (g + seq![Op::Send(Primitive::KeyDown(k)), Op::Pause(t.press_ms)]) + (
    g + seq![Op::Send(Primitive::KeyUp(k)), Op::Pause(5)]));
    lemma_guarded_concat(tap_seq(k, t), p200);
    lemma_guarded_step(Op::Move(c), min_ms(t.gap_ms, 12));
    lemma_guarded_step(Op::Send(Primitive::MouseLeftDown), t.press_ms);
    lemma_guarded_step(Op::Send(Primitive::MouseLeftUp), t.gap_ms);
    let a = g + seq![Op::Move(c), Op::Pause(min_ms(t.gap_ms, 12))];
    let b = g + seq![Op::Send(Primitive::MouseLeftDown), Op::Pause(t.press_ms)];
    let d = g + seq![Op::Send(Primitive::MouseLeftUp), Op::Pause(t.gap_ms)];
    lemma_guarded_concat(cc, a);
    lemma_guarded_concat(cc + a, b);
    lemma_guarded_concat(cc + a + b, d);
    assert(click_seq(c, t) =~= cc + a + b + d);
}


/// Moving on to the next target keeps the invariant.
proof fn lemma_next_target_wf(s: BuildingView)
    requires
        s.full_captures <= 1,
        s.done.len() == s.index,
        s.acted + s.skipped == s.index,
        s.index <= s.found.len(),
        s.attempt == 0,
        s.roi_captures <= 3 * s.index,
    ensures
        building_wf(next_target(s).0),
{
    if s.index < s.found.len() {
        lemma_building_sequences_are_guarded(Key::A, s.timing, s.found[s.index as int].center);
    }
}

/// Reporting the current target keeps the invariant.
proof fn lemma_report_target_wf(s: BuildingView, acted: bool)
    requires
        s.full_captures <= 1,
        s.done.len() == s.index,
        s.acted + s.skipped == s.index,
        s.index < s.found.len(),
        s.roi_captures <= 3 * s.index + 3,
    ensures
        building_wf(report_target(s, acted).0),
{
    let d = s.found[s.index as int];
    let t = BuildingView {
        done: s.done.push((d.center, d.score_permille, acted)),
        acted: if acted { s.acted + 1 } else { s.acted },
        skipped: if acted { s.skipped } else { s.skipped + 1 },
        index: s.index + 1,
        attempt: 0,
        ..s
    };
    lemma_next_target_wf(t);
}

/// What follows the opening check keeps the invariant.
proof fn lemma_bresume_opened_wf(s: BuildingView)
    requires
        building_wf(s),
        s.phase is Queue,
        s.stage is Opened,
    ensures
        building_wf(bresume(s).0),
{
    if let Some(k) = s.before {
        lemma_building_sequences_are_guarded(k, s.timing, Point { x: 0, y: 0 });
    }
}

/// What follows the checks after the capture keeps the invariant.
proof fn lemma_bresume_captured_wf(s: BuildingView)
    requires
        building_wf(s),
        s.phase is Queue,
        s.stage is Captured,
    ensures
        building_wf(bresume(s).0),
{
}

/// What follows a click keeps the invariant.
proof fn lemma_bresume_clicked_wf(s: BuildingView)
    requires
        building_wf(s),
        s.phase is Queue,
        s.stage is Clicked,
    ensures
        building_wf(bresume(s).0),
{
    lemma_building_sequences_are_guarded(Key::A, s.timing, Point { x: 0, y: 0 });
}

/// What follows a fixed sequence keeps the invariant.
proof fn lemma_bresume_wf(s: BuildingView)
    requires
        building_wf(s),
        s.phase is Queue,
    ensures
        building_wf(bresume(s).0),
{
    match s.stage {
        BuildingStage::Opened => lemma_bresume_opened_wf(s),
        BuildingStage::Captured => lemma_bresume_captured_wf(s),
        BuildingStage::Scanned => lemma_next_target_wf(s),
        BuildingStage::Clicked => lemma_bresume_clicked_wf(s),
        BuildingStage::Acted => lemma_report_target_wf(s, true),
        _ => {},
    }
}

/// Stopping keeps the invariant.
proof fn lemma_bstop_wf(s: BuildingView, ending: Ending, detail: Seq<char>)
    requires
        building_wf(s),
    ensures
        building_wf(bstop(s, ending, detail).0),
{
}

/// Finishing one step of a fixed sequence keeps the invariant.
proof fn lemma_badvance_wf(s: BuildingView)
    requires
        building_wf(s),
        s.phase is Queue,
    ensures
        building_wf(badvance(s).0),
{
    lemma_bresume_wf(s);
    if s.next + 1 < s.queue.len() {
        let t = badvance(s).0;
        assert(t.stage == s.stage);
        assert(t.attempt == s.attempt);
    }
}

/// Every transition keeps the building run's invariant.
pub proof fn lemma_building_transition_keeps_wf(s: BuildingView, e: BuildingEvent)
    requires
        building_wf(s),
        bexpects(s, e),
    ensures
        building_wf(btransition(s, e).0),
{
    lemma_building_sequences_are_guarded(Key::A, s.timing, Point { x: 0, y: 0 });
    match s.phase {
        BuildingPhase::Queue => {
            lemma_badvance_wf(s);
            match e {
                BuildingEvent::CancelChecked { cancelled } => lemma_bstop_wf(s, Ending::Cancelled, seq![]),
                BuildingEvent::Waited { cancelled } => lemma_bstop_wf(s, Ending::Cancelled, seq![]),
                BuildingEvent::GateChecked(Err(err)) => lemma_bstop_wf(s, error_ending(err), input_error_text(err)),
                BuildingEvent::Sent(Err(err)) => lemma_bstop_wf(s, error_ending(err), input_error_text(err)),
                _ => {},
            }
        },
        BuildingPhase::Roi => {
            if let BuildingEvent::RoiChecked(Ok(accepted)) = e {
                if !accepted && !(s.attempt + 1 < 3) {
                    lemma_report_target_wf(
                        BuildingView { roi_captures: bump(s.roi_captures), ..s },
                        false,
                    );
                }
            }
        },
        _ => {},
    }
}

/// Every cursor move and every key or button event comes right after a look
/// at the cancellation flag that found none, which follows a passed safety
/// gate, which follows another look at the flag.
pub proof fn lemma_building_moves_and_events_are_guarded(s: BuildingView, e: BuildingEvent)
    requires
        building_wf(s),
        bexpects(s, e),
        btransition(s, e).1 is Send || btransition(s, e).1 is MoveCursor,
    ensures
        s.phase is Queue,
        s.queue[s.next as int] is CheckCancel,
        e == (BuildingEvent::CancelChecked { cancelled: false }),
        s.next >= 2,
        s.queue[s.next - 1] is Gate,
        s.queue[s.next - 2] is CheckCancel,
{
    lemma_building_transition_keeps_wf(s, e);
    let t = btransition(s, e);
    assert(t.0.phase is Queue && t.1 == op_act(t.0.queue[t.0.next as int]));
    assert(guarded_at(t.0.queue, t.0.next as int));
    assert(t.0.next >= 3);
}

/// `A` is queued for a target only right after a panel read that confirmed
/// the profile's portrait.
pub proof fn lemma_a_only_after_a_verified_selection(s: BuildingView, e: BuildingEvent)
    requires
        building_wf(s),
        bexpects(s, e),
        btransition(s, e).0.phase is Queue,
        btransition(s, e).0.stage is Acted,
        !(s.phase is Queue && s.stage is Acted),
    ensures
        s.phase is Roi,
        e == BuildingEvent::RoiChecked(Ok(true)),
        btransition(s, e).0.queue == tap_seq(Key::A, s.timing),
{
}

/// A run takes at most one full capture, and at most three panel reads per
/// detected building.
pub proof fn lemma_building_capture_budget(s: BuildingView, e: BuildingEvent)
    requires
        building_wf(s),
        bexpects(s, e),
    ensures
        btransition(s, e).1 is Capture ==> s.full_captures == 0,
        btransition(s, e).0.full_captures <= 1,
        btransition(s, e).0.roi_captures <= 3 * btransition(s, e).0.found.len(),
{
    lemma_building_transition_keeps_wf(s, e);
}

/// A cancellation seen at any look at the flag, or during any wait, stops
/// the run on the spot: reported as cancelled, only `release_all` follows.
pub proof fn lemma_building_cancellation_stops(s: BuildingView, e: BuildingEvent)
    requires
        building_wf(s),
        bexpects(s, e),
        e == (BuildingEvent::CancelChecked { cancelled: true }) || e == (BuildingEvent::Waited {
            cancelled: true,
        }),
    ensures
        btransition(s, e).0.phase is Releasing,
        btransition(s, e).0.ending is Cancelled,
        btransition(s, e).1 is ReleaseAll,
{
}


/// A building outcome of the given ending and detail.
pub open spec fn building_outcome_is(o: BuildingActionOutcome, ending: Ending, detail: Seq<char>) -> bool {
    match ending {
        Ending::Completed => o is Completed,
        Ending::Cancelled => o is Cancelled,
        Ending::Aborted => o matches BuildingActionOutcome::Aborted { detail: d } && d@ == detail,
        Ending::Failed => o matches BuildingActionOutcome::Failed { detail: d } && d@ == detail,
    }
}

/// Why `A` was withheld for a target of the building class `label`.
pub open spec fn skip_reason(label: Seq<char>) -> Seq<char> {
    "selection panel did not show the "@ + label + " portrait; A withheld"@
}

fn make_building_outcome(ending: Ending, detail: String) -> (o: BuildingActionOutcome)
    ensures
        building_outcome_is(o, ending, detail@),
{
    match ending {
        Ending::Completed => BuildingActionOutcome::Completed,
        Ending::Cancelled => BuildingActionOutcome::Cancelled,
        Ending::Aborted => BuildingActionOutcome::Aborted { detail },
        Ending::Failed => BuildingActionOutcome::Failed { detail },
    }
}

/// The action that starts `op`.
fn bact_of(op: Op) -> (action: BuildingAction)
    ensures
        action == op_act(op),
{
    match op {
        Op::CheckCancel => BuildingAction::CheckCancel,
        Op::Gate => BuildingAction::SafetyCheck,
        Op::Send(p) => BuildingAction::Send(p),
        Op::Pause(ms) => BuildingAction::Wait { ms },
        Op::Move(p) => BuildingAction::MoveCursor(p),
    }
}

/// `q` with the guard appended.
fn push_guard(q: &mut Vec<Op>)
    ensures
        final(q)@ == old(q)@ + guard_ops(),
{
    q.push(Op::CheckCancel);
    q.push(Op::Gate);
    q.push(Op::CheckCancel);
    assert(final(q)@ =~= old(q)@ + guard_ops());
}

/// The guard alone.
fn guard_vec() -> (q: Vec<Op>)
    ensures
        q@ == guard_ops(),
{
    let mut q: Vec<Op> = Vec::new();
    push_guard(&mut q);
    assert(q@ =~= guard_ops());
    q
}

/// A key tap.
fn tap_vec(k: Key, t: Timing) -> (q: Vec<Op>)
    ensures
        q@ == tap_seq(k, t),
{
    let mut q: Vec<Op> = Vec::new();
    push_guard(&mut q);
    q.push(Op::Send(Primitive::KeyDown(k)));
    q.push(Op::Pause(t.press_ms));
    push_guard(&mut q);
    q.push(Op::Send(Primitive::KeyUp(k)));
    q.push(Op::Pause(ORDERING_GAP_MS));
    assert(q@ =~= tap_seq(k, t));
    q
}

/// Moving onto `center` and clicking it.
fn click_vec(center: Point, t: Timing) -> (q: Vec<Op>)
    ensures
        q@ == click_seq(center, t),
{
    let settle = if t.gap_ms < MOVE_SETTLE_MS {
        t.gap_ms
    } else {
        MOVE_SETTLE_MS
    };
    let mut q: Vec<Op> = Vec::new();
    q.push(Op::CheckCancel);
    push_guard(&mut q);
    q.push(Op::Move(center));
    q.push(Op::Pause(settle));
    push_guard(&mut q);
    q.push(Op::Send(Primitive::MouseLeftDown));
    q.push(Op::Pause(t.press_ms));
    push_guard(&mut q);
    q.push(Op::Send(Primitive::MouseLeftUp));
    q.push(Op::Pause(t.gap_ms));
    assert(q@ =~= click_seq(center, t));
    q
}

/// Why a capture cannot be searched, if it cannot: a blank frame (a
/// minimized or protected window), or anything but the 1920x1080 client at
/// the screen origin. Finding nothing on a usable capture is no problem.
pub fn capture_problem(frame: &Frame) -> (problem: Option<String>)
    ensures
        match (problem, frame_problem(frame@)) {
            (Some(p), Some(q)) => p@ == q,
            (None, None) => true,
            _ => false,
        },
{
    proof {
        reveal(frame_problem);
    }
    if frame.is_blank() {
        return Some(
            String::from_str("the capture is blank; the game window is minimized or not rendering"),
        );
    }
    if !supported_client(frame) {
        let o = frame.origin();
        let mut d = String::from_str("unsupported client size ");
        d.append(decimal(frame.width() as u128).as_str());
        d.append("x");
        d.append(decimal(frame.height() as u128).as_str());
        d.append(" at (");
        d.append(signed_decimal(o.x as i64).as_str());
        d.append(", ");
        d.append(signed_decimal(o.y as i64).as_str());
        d.append("); only 1920x1080 at (0, 0) is supported");
        return Some(d);
    }
    None
}

/// One run of the shared building action for one calibration profile.
///
/// The application calls [`BuildingRun::step`] with [`BuildingEvent::Start`],
/// performs each returned [`BuildingAction`] and hands back what happened,
/// until the action is [`BuildingAction::Finish`];
/// [`BuildingRun::report`] then tells what the run did.
pub struct BuildingRun {
    timing: Timing,
    label: &'static str,
    roi: Rect,
    profile_ok: bool,
    before: Option<Key>,
    phase: BuildingPhase,
    stage: BuildingStage,
    queue: Vec<Op>,
    next: usize,
    frame: Option<Frame>,
    found: Vec<Detection>,
    index: usize,
    attempt: usize,
    done: Vec<(Point, u32, bool)>,
    acted: usize,
    skipped: usize,
    full_captures: usize,
    roi_captures: usize,
    capture_ms: u128,
    detect_ms: u128,
    ending: Ending,
    detail: String,
}

impl View for BuildingRun {
    type V = BuildingView;

    closed spec fn view(&self) -> BuildingView {
        BuildingView {
            timing: self.timing,
            label: self.label@,
            roi: self.roi,
            profile_ok: self.profile_ok,
            before: self.before,
            phase: self.phase,
            stage: self.stage,
            queue: self.queue@,
            next: self.next as nat,
            frame: match &self.frame {
                Some(f) => Some(f@),
                None => None,
            },
            found: self.found@,
            index: self.index as nat,
            attempt: self.attempt as nat,
            done: self.done@,
            acted: self.acted as nat,
            skipped: self.skipped as nat,
            full_captures: self.full_captures as nat,
            roi_captures: self.roi_captures as nat,
            capture_ms: self.capture_ms,
            detect_ms: self.detect_ms,
            ending: self.ending,
            detail: self.detail@,
        }
    }
}

impl BuildingRun {
    /// The run's standing invariant.
    pub open spec fn wf(&self) -> bool {
        building_wf(self@)
    }

    /// A run for the building class `label`, whose selection-panel portrait
    /// is `roi`; `profile_ok` says whether the calibration profile is usable,
    /// and `before` is a key to tap before the capture, if any.
    pub fn new(timing: Timing, label: &'static str, roi: Rect, profile_ok: bool, before: Option<Key>) -> (run: Self)
        ensures
            run.wf(),
            run@.timing == timing,
            run@.label == label@,
            run@.roi == roi,
            run@.profile_ok == profile_ok,
            run@.before == before,
            run@.phase is Idle,
            run@.done.len() == 0,
    {
        BuildingRun {
            timing,
            label,
            roi,
            profile_ok,
            before,
            phase: BuildingPhase::Idle,
            stage: BuildingStage::Opened,
            queue: Vec::new(),
            next: 0,
            frame: None,
            found: Vec::new(),
            index: 0,
            attempt: 0,
            done: Vec::new(),
            acted: 0,
            skipped: 0,
            full_captures: 0,
            roi_captures: 0,
            capture_ms: 0,
            detect_ms: 0,
            ending: Ending::Completed,
            detail: String::new(),
        }
    }

    /// Where the run stands.
    pub fn phase(&self) -> (phase: BuildingPhase)
        ensures
            phase == self@.phase,
    {
        self.phase
    }

    /// The one full capture, once taken: what [`BuildingAction::Detect`]
    /// asks the application to search.
    pub fn frame(&self) -> (frame: Option<&Frame>)
        ensures
            match frame {
                Some(f) => self@.frame == Some(f@),
                None => self@.frame is None,
            },
    {
        match &self.frame {
            Some(f) => Some(f),
            None => None,
        }
    }

    /// Whether `event` is the answer the run waits for.
    pub fn expects(&self, event: &BuildingEvent) -> (yes: bool)
        requires
            self.wf(),
        ensures
            yes == bexpects(self@, *event),
    {
        match self.phase {
            BuildingPhase::Idle => matches!(event, BuildingEvent::Start),
            BuildingPhase::Queue => match self.queue[self.next] {
                Op::CheckCancel => matches!(event, BuildingEvent::CancelChecked { .. }),
                Op::Gate => matches!(event, BuildingEvent::GateChecked(_)),
                Op::Send(_) | Op::Move(_) => matches!(event, BuildingEvent::Sent(_)),
                Op::Pause(_) => matches!(event, BuildingEvent::Waited { .. }),
            },
            BuildingPhase::Capture => matches!(event, BuildingEvent::Captured { .. }),
            BuildingPhase::Detect => matches!(event, BuildingEvent::Detected { .. }),
            BuildingPhase::Roi => matches!(event, BuildingEvent::RoiChecked(_)),
            BuildingPhase::Releasing => matches!(event, BuildingEvent::Sent(_)),
            BuildingPhase::Done => false,
        }
    }

    /// Everything the run did: how it ended, what the search found, and for
    /// each reported target, in click order, whether `A` was sent or why it
    /// was withheld.
    pub fn report(&self) -> (report: BuildingActionReport)
        ensures
            report.label@ == self@.label,
            building_outcome_is(report.outcome, self@.ending, self@.detail),
            report.detections == self@.found.len(),
            report.targets@.len() == self@.done.len(),
            forall|i: int|
                0 <= i < self@.done.len() ==> {
                    let t = #[trigger] report.targets@[i];
                    &&& t.center == self@.done[i].0
                    &&& t.score_permille == self@.done[i].1
                    &&& (t.disposition is Acted) == self@.done[i].2
                    &&& (t.disposition matches BuildingTargetDisposition::Skipped { reason } ==> reason@
                        == skip_reason(self@.label))
                },
            report.acted == self@.acted,
            report.skipped == self@.skipped,
            report.full_captures == self@.full_captures,
            report.roi_captures == self@.roi_captures,
            report.capture_ms == self@.capture_ms,
            report.detect_ms == self@.detect_ms,
    {
        let mut targets: Vec<BuildingTargetReport> = Vec::new();
        let mut i: usize = 0;
        while i < self.done.len()
            invariant
                i <= self.done@.len(),
                targets@.len() == i,
                forall|j: int|
                    0 <= j < i ==> {
                        let t = #[trigger] targets@[j];
                        &&& t.center == self.done@[j].0
                        &&& t.score_permille == self.done@[j].1
                        &&& (t.disposition is Acted) == self.done@[j].2
                        &&& (t.disposition matches BuildingTargetDisposition::Skipped { reason }
                            ==> reason@ == skip_reason(self.label@))
                    },
            decreases self.done@.len() - i,
        {
            let (center, score_permille, acted) = self.done[i];
            let disposition = if acted {
                BuildingTargetDisposition::Acted
            } else {
                let mut reason = String::from_str("selection panel did not show the ");
                reason.append(self.label);
                reason.append(" portrait; A withheld");
                BuildingTargetDisposition::Skipped { reason }
            };
            targets.push(BuildingTargetReport { center, score_permille, disposition });
            i = i + 1;
        }
        BuildingActionReport {
            label: self.label,
            outcome: make_building_outcome(self.ending, self.detail.clone()),
            detections: self.found.len(),
            targets,
            acted: self.acted,
            skipped: self.skipped,
            full_captures: self.full_captures,
            roi_captures: self.roi_captures,
            capture_ms: self.capture_ms,
            detect_ms: self.detect_ms,
        }
    }
}


impl BuildingRun {
    fn bstop(&mut self, ending: Ending, detail: String) -> (action: BuildingAction)
        ensures
            (final(self)@, action) == bstop(old(self)@, ending, detail@),
    {
        self.phase = BuildingPhase::Releasing;
        self.ending = ending;
        self.detail = detail;
        BuildingAction::ReleaseAll
    }

    fn stop_on(&mut self, err: InputError) -> (action: BuildingAction)
        ensures
            (final(self)@, action) == bstop(old(self)@, error_ending(err), input_error_text(err)),
    {
        let ending = match err {
            InputError::Unsafe(_) => Ending::Aborted,
            InputError::Injection(_) => Ending::Failed,
        };
        self.bstop(ending, err.message())
    }

    fn bqueue(&mut self, q: Vec<Op>, stage: BuildingStage) -> (action: BuildingAction)
        requires
            q@.len() > 0,
        ensures
            (final(self)@, action) == bqueue(old(self)@, q@, stage),
    {
        let first = q[0];
        self.phase = BuildingPhase::Queue;
        self.queue = q;
        self.next = 0;
        self.stage = stage;
        bact_of(first)
    }

    fn next_target(&mut self) -> (action: BuildingAction)
        requires
            old(self)@.index <= old(self)@.found.len(),
        ensures
            (final(self)@, action) == next_target(old(self)@),
    {
        if self.index < self.found.len() {
            self.attempt = 0;
            let q = click_vec(self.found[self.index].center, self.timing);
            self.bqueue(q, BuildingStage::Clicked)
        } else {
            self.bstop(Ending::Completed, String::new())
        }
    }

    fn report_target(&mut self, acted: bool) -> (action: BuildingAction)
        requires
            old(self)@.index < old(self)@.found.len(),
            old(self)@.acted + old(self)@.skipped == old(self)@.index,
        ensures
            (final(self)@, action) == report_target(old(self)@, acted),
    {
        let n = self.found.len();
        assert(self.index < n);
        let d = self.found[self.index];
        self.done.push((d.center, d.score_permille, acted));
        if acted {
            self.acted = self.acted + 1;
        } else {
            self.skipped = self.skipped + 1;
        }
        self.index = self.index + 1;
        self.attempt = 0;
        self.next_target()
    }

    fn bresume(&mut self) -> (action: BuildingAction)
        requires
            building_wf(old(self)@),
            old(self)@.phase is Queue,
        ensures
            (final(self)@, action) == bresume(old(self)@),
    {
        match self.stage {
            BuildingStage::Opened => {
                if !self.profile_ok {
                    self.bstop(
                        Ending::Aborted,
                        String::from_str("invalid building calibration profile; no input was sent"),
                    )
                } else {
                    match self.before {
                        Some(k) => {
                            let mut q = tap_vec(k, self.timing);
                            q.push(Op::Pause(PRE_CAPTURE_SETTLE_MS));
                            assert(q@ =~= tap_seq(k, self.timing) + seq![Op::Pause(200)]);
                            self.bqueue(q, BuildingStage::Settled)
                        },
                        None => {
                            self.phase = BuildingPhase::Capture;
                            BuildingAction::Capture
                        },
                    }
                }
            },
            BuildingStage::Settled => {
                self.phase = BuildingPhase::Capture;
                BuildingAction::Capture
            },
            BuildingStage::Captured => {
                let problem = match &self.frame {
                    Some(f) => capture_problem(f),
                    None => Some(String::new()),
                };
                match problem {
                    Some(d) => self.bstop(Ending::Aborted, d),
                    None => {
                        self.phase = BuildingPhase::Detect;
                        BuildingAction::Detect
                    },
                }
            },
            BuildingStage::Scanned => self.next_target(),
            BuildingStage::Clicked => {
                let q = guard_vec();
                self.bqueue(q, BuildingStage::Verifying)
            },
            BuildingStage::Verifying => {
                self.phase = BuildingPhase::Roi;
                BuildingAction::CheckPortrait(self.roi)
            },
            BuildingStage::Acted => self.report_target(true),
        }
    }

    fn badvance(&mut self) -> (action: BuildingAction)
        requires
            building_wf(old(self)@),
            old(self)@.phase is Queue,
        ensures
            (final(self)@, action) == badvance(old(self)@),
    {
        if self.next < self.queue.len() - 1 {
            self.next = self.next + 1;
            bact_of(self.queue[self.next])
        } else {
            self.bresume()
        }
    }

    fn bqueue_step(&mut self, event: BuildingEvent) -> (action: BuildingAction)
        requires
            building_wf(old(self)@),
            old(self)@.phase is Queue,
            bexpects(old(self)@, event),
        ensures
            (final(self)@, action) == bqueue_step(old(self)@, event),
    {
        match event {
            BuildingEvent::CancelChecked { cancelled } => {
                if cancelled {
                    self.bstop(Ending::Cancelled, String::new())
                } else {
                    self.badvance()
                }
            },
            BuildingEvent::GateChecked(r) => match r {
                Err(err) => self.stop_on(err),
                Ok(()) => self.badvance(),
            },
            BuildingEvent::Sent(r) => match r {
                Err(err) => self.stop_on(err),
                Ok(()) => self.badvance(),
            },
            BuildingEvent::Waited { cancelled } => {
                if cancelled {
                    self.bstop(Ending::Cancelled, String::new())
                } else {
                    self.badvance()
                }
            },
            _ => BuildingAction::Finish,
        }
    }

    /// Takes the answer to the previous action and decides the next one.
    ///
    /// Before every cursor move, button and key event it looks at the
    /// cancellation flag, asks the safety gate and looks at the flag again;
    /// `A` is sent only after a panel read confirmed the portrait; a
    /// cancellation, a refused gate, a failed event or an unusable capture
    /// stops the run, and every stop ends with one `release_all`.
    pub fn step(&mut self, event: BuildingEvent) -> (action: BuildingAction)
        requires
            old(self).wf(),
            bexpects(old(self)@, event),
        ensures
            final(self).wf(),
            (final(self)@, action) == btransition(old(self)@, event),
    {
        proof {
            lemma_building_transition_keeps_wf(old(self)@, event);
        }
        match self.phase {
            BuildingPhase::Idle => {
                let q = vec![Op::CheckCancel];
                assert(q@ =~= seq![Op::CheckCancel]);
                self.bqueue(q, BuildingStage::Opened)
            },
            BuildingPhase::Queue => self.bqueue_step(event),
            BuildingPhase::Capture => match event {
                BuildingEvent::Captured { frame: Err(err), .. } => self.stop_on(err),
                BuildingEvent::Captured { frame: Ok(f), capture_ms } => {
                    self.frame = Some(f);
                    self.capture_ms = capture_ms;
                    self.full_captures = 1;
                    let q = vec![Op::CheckCancel];
                    assert(q@ =~= seq![Op::CheckCancel]);
                    self.bqueue(q, BuildingStage::Captured)
                },
                _ => BuildingAction::Finish,
            },
            BuildingPhase::Detect => match event {
                BuildingEvent::Detected { detections, detect_ms } => {
                    self.found = detections;
                    self.detect_ms = detect_ms;
                    self.index = 0;
                    let q = vec![Op::CheckCancel];
                    assert(q@ =~= seq![Op::CheckCancel]);
                    self.bqueue(q, BuildingStage::Scanned)
                },
                _ => BuildingAction::Finish,
            },
            BuildingPhase::Roi => match event {
                BuildingEvent::RoiChecked(Err(err)) => self.stop_on(err),
                BuildingEvent::RoiChecked(Ok(accepted)) => {
                    if self.roi_captures < usize::MAX {
                        self.roi_captures = self.roi_captures + 1;
                    }
                    if accepted {
                        self.attempt = self.attempt + 1;
                        let q = tap_vec(Key::A, self.timing);
                        self.bqueue(q, BuildingStage::Acted)
                    } else if self.attempt + 1 < VERIFY_ATTEMPTS {
                        self.attempt = self.attempt + 1;
                        let retry = if VERIFY_RETRY_GAP_MS < self.timing.gap_ms {
                            VERIFY_RETRY_GAP_MS
                        } else {
                            self.timing.gap_ms
                        };
                        let mut q: Vec<Op> = Vec::new();
                        q.push(Op::Pause(retry));
                        push_guard(&mut q);
                        self.bqueue(q, BuildingStage::Verifying)
                    } else {
                        self.report_target(false)
                    }
                },
                _ => BuildingAction::Finish,
            },
            BuildingPhase::Releasing => match event {
                BuildingEvent::Sent(r) => {
                    let keep = match self.ending {
                        Ending::Failed | Ending::Aborted => true,
                        _ => false,
                    };
                    if !keep {
                        if let Err(err) = r {
                            let mut d = String::from_str("could not release injected input: ");
                            d.append(err.message().as_str());
                            self.ending = Ending::Failed;
                            self.detail = d;
                        }
                    }
                    self.phase = BuildingPhase::Done;
                    BuildingAction::Finish
                },
                _ => BuildingAction::Finish,
            },
            BuildingPhase::Done => BuildingAction::Finish,
        }
    }
}

/// Where a scan-only pass stands.
#[derive(Clone, Copy, Debug, PartialEq, Eq, Structural)]
pub enum ScanPhase {
    /// Not started: waits for [`ScanEvent::Start`].
    Idle,
    /// Looking at the cancellation flag.
    Cancel,
    /// The one full-screen capture is in flight.
    Capture,
    /// The application searches the capture.
    Detect,
    /// The pass is over.
    Done,
}

/// Which look at the cancellation flag is in flight.
#[derive(Clone, Copy, Debug, PartialEq, Eq, Structural)]
pub enum ScanStage {
    /// Before anything is captured.
    Opened,
    /// After the capture.
    Captured,
    /// After the search.
    Searched,
}

/// What a scan-only pass asks the application to do next. None of these
/// injects input.
#[derive(Clone, Copy, Debug, PartialEq, Eq, Structural)]
pub enum ScanAction {
    /// Read the cancellation flag; answer [`ScanEvent::CancelChecked`].
    CheckCancel,
    /// Capture the full client; answer [`ScanEvent::Captured`].
    Capture,
    /// Search [`ScanRun::frame`]; answer [`ScanEvent::Detected`].
    Detect,
    /// The pass is over; [`ScanRun::result`] tells what it found.
    Finish,
}

/// What the application saw when it did what the pass asked.
#[derive(Debug)]
pub enum ScanEvent {
    /// Begin the pass.
    Start,
    /// Whether cancellation was requested.
    CancelChecked { cancelled: bool },
    /// The full capture and how long it took.
    Captured { frame: Result<Frame, InputError>, capture_ms: u128 },
    /// What the search found, in detection order, and how long it took.
    Detected { detections: Vec<Detection>, detect_ms: u128 },
}

/// How a scan-only pass ended.
pub ghost enum ScanEnd {
    /// Still running.
    Running,
    /// Cancelled before or during the capture or the search.
    Cancelled,
    /// The adapter could not deliver the capture.
    Adapter(InputError),
    /// The profile or the capture cannot be trusted.
    Unusable(Seq<char>),
    /// The search ran on a usable capture.
    Found,
}

/// The abstract state of a scan-only pass.
pub ghost struct ScanView {
    pub profile_ok: bool,
    pub phase: ScanPhase,
    pub stage: ScanStage,
    pub frame: Option<FrameView>,
    pub found: Seq<Detection>,
    pub capture_ms: u128,
    pub detect_ms: u128,
    pub full_captures: nat,
    pub end: ScanEnd,
}

/// Ending a scan-only pass.
pub open spec fn scan_done(s: ScanView, end: ScanEnd) -> (ScanView, ScanAction) {
    (ScanView { phase: ScanPhase::Done, end, ..s }, ScanAction::Finish)
}

/// One transition of a scan-only pass: it looks at the cancellation flag
/// first, refuses an unusable profile, captures once, refuses an unusable
/// capture, searches, and looks at the flag after the capture and after the
/// search.
pub open spec fn scan_transition(s: ScanView, e: ScanEvent) -> (ScanView, ScanAction) {
    match (s.phase, e) {
        (ScanPhase::Idle, ScanEvent::Start) => (
            ScanView { phase: ScanPhase::Cancel, stage: ScanStage::Opened, ..s },
            ScanAction::CheckCancel,
        ),
        (ScanPhase::Cancel, ScanEvent::CancelChecked { cancelled }) => if cancelled {
            scan_done(s, ScanEnd::Cancelled)
        } else {
            match s.stage {
                ScanStage::Opened => if !s.profile_ok {
                    scan_done(s, ScanEnd::Unusable("invalid building calibration profile"@))
                } else {
                    (ScanView { phase: ScanPhase::Capture, ..s }, ScanAction::Capture)
                },
                ScanStage::Captured => match frame_problem(s.frame.unwrap()) {
                    Some(d) => scan_done(s, ScanEnd::Unusable(d)),
                    None => (ScanView { phase: ScanPhase::Detect, ..s }, ScanAction::Detect),
                },
                ScanStage::Searched => scan_done(s, ScanEnd::Found),
            }
        },
        (ScanPhase::Capture, ScanEvent::Captured { frame: Err(err), .. }) => scan_done(
            s,
            ScanEnd::Adapter(err),
        ),
        (ScanPhase::Capture, ScanEvent::Captured { frame: Ok(f), capture_ms }) => (
            ScanView {
                phase: ScanPhase::Cancel,
                stage: ScanStage::Captured,
                frame: Some(f@),
                capture_ms,
                full_captures: 1,
                ..s
            },
            ScanAction::CheckCancel,
        ),
        (ScanPhase::Detect, ScanEvent::Detected { detections, detect_ms }) => (
            ScanView { phase: ScanPhase::Cancel, stage: ScanStage::Searched, found: detections@, detect_ms, ..s },
            ScanAction::CheckCancel,
        ),
        _ => (s, ScanAction::Finish),
    }
}

/// The answer a scan-only pass in state `s` waits for.
pub open spec fn scan_expects(s: ScanView, e: ScanEvent) -> bool {
    match s.phase {
        ScanPhase::Idle => e is Start,
        ScanPhase::Cancel => e is CancelChecked,
        ScanPhase::Capture => e is Captured,
        ScanPhase::Detect => e is Detected,
        ScanPhase::Done => false,
    }
}

/// The pass's standing invariant: at most one capture, taken only after a
/// look at the flag found none and the profile is usable; the search runs
/// only on a usable capture; nothing is found before the search.
pub open spec fn scan_wf(s: ScanView) -> bool {
    &&& s.full_captures <= 1
    &&& (s.phase is Idle ==> s.full_captures == 0 && s.end is Running && s.found.len() == 0)
    &&& (s.phase is Capture ==> s.full_captures == 0 && s.profile_ok && s.found.len() == 0)
    &&& (s.phase is Cancel && s.stage is Opened ==> s.full_captures == 0 && s.found.len() == 0)
    &&& (s.phase is Cancel && !(s.stage is Opened) ==> s.full_captures == 1 && s.frame is Some && s.profile_ok)
    &&& (s.phase is Cancel && s.stage is Captured ==> s.found.len() == 0)
    &&& ((s.phase is Detect || (s.phase is Cancel && s.stage is Searched)) ==> s.frame is Some
        && frame_problem(s.frame.unwrap()) is None && s.full_captures == 1 && s.profile_ok)
    &&& (s.phase is Detect ==> s.found.len() == 0)
    &&& (!(s.phase is Done) ==> s.end is Running)
    &&& (s.phase is Done ==> !(s.end is Running))
    &&& (s.end is Found ==> s.frame is Some && frame_problem(s.frame.unwrap()) is None
        && s.full_captures == 1 && s.profile_ok)
    &&& (s.full_captures == 0 ==> s.found.len() == 0)
}

/// Every transition keeps the scan-only pass's invariant.
pub proof fn lemma_scan_transition_keeps_wf(s: ScanView, e: ScanEvent)
    requires
        scan_wf(s),
        scan_expects(s, e),
    ensures
        scan_wf(scan_transition(s, e).0),
{
}

/// A scan-only pass captures at most once, never before a look at the
/// cancellation flag found none and never with an unusable profile; it
/// reports detections only from a usable capture, so a blank or unsupported
/// capture is never reported as "nothing found".
pub proof fn lemma_scan_reports_only_usable_captures(s: ScanView, e: ScanEvent)
    requires
        scan_wf(s),
        scan_expects(s, e),
    ensures
        scan_transition(s, e).1 is Capture ==> s.phase is Cancel && s.stage is Opened && e == (ScanEvent::CancelChecked { cancelled: false }) && s.profile_ok,
        scan_transition(s, e).0.full_captures <= 1,
        scan_transition(s, e).0.end is Found ==> scan_transition(s, e).0.frame is Some && frame_problem(
            scan_transition(s, e).0.frame.unwrap(),
        ) is None,
{
}

/// A copy of an input error.
fn copy_input_error(e: &InputError) -> (c: InputError)
    ensures
        c == *e,
{
    match e {
        InputError::Injection(d) => InputError::Injection(d.clone()),
        InputError::Unsafe(d) => InputError::Unsafe(d.clone()),
    }
}

/// A scan-only pass.
///
/// The application calls [`ScanRun::step`] with [`ScanEvent::Start`],
/// performs each returned [`ScanAction`] and hands back what happened,
/// until the action is [`ScanAction::Finish`]; [`ScanRun::result`] then
/// tells what the pass found. It never injects input.
pub struct ScanRun {
    profile_ok: bool,
    phase: ScanPhase,
    stage: ScanStage,
    frame: Option<Frame>,
    found: Vec<Detection>,
    capture_ms: u128,
    detect_ms: u128,
    full_captures: usize,
    error: Option<BuildingScanError>,
}

/// How a scan error stands for an ending.
pub open spec fn scan_error_of(end: ScanEnd, e: BuildingScanError) -> bool {
    match end {
        ScanEnd::Cancelled => e is Cancelled,
        ScanEnd::Adapter(err) => e == BuildingScanError::Adapter(err),
        ScanEnd::Unusable(d) => e matches BuildingScanError::Unusable { detail } && detail@ == d,
        _ => false,
    }
}

impl View for ScanRun {
    type V = ScanView;

    closed spec fn view(&self) -> ScanView {
        ScanView {
            profile_ok: self.profile_ok,
            phase: self.phase,
            stage: self.stage,
            frame: match &self.frame {
                Some(f) => Some(f@),
                None => None,
            },
            found: self.found@,
            capture_ms: self.capture_ms,
            detect_ms: self.detect_ms,
            full_captures: self.full_captures as nat,
            end: if self.phase == ScanPhase::Done {
                match &self.error {
                    None => ScanEnd::Found,
                    Some(BuildingScanError::Cancelled) => ScanEnd::Cancelled,
                    Some(BuildingScanError::Adapter(err)) => ScanEnd::Adapter(*err),
                    Some(BuildingScanError::Unusable { detail }) => ScanEnd::Unusable(detail@),
                    Some(BuildingScanError::Internal { detail }) => ScanEnd::Unusable(detail@),
                }
            } else {
                ScanEnd::Running
            },
        }
    }
}

impl ScanRun {
    /// The pass's standing invariant.
    pub open spec fn wf(&self) -> bool {
        scan_wf(self@)
    }

    /// A pass for a profile that is usable or not.
    pub fn new(profile_ok: bool) -> (run: Self)
        ensures
            run.wf(),
            run@.profile_ok == profile_ok,
            run@.phase is Idle,
    {
        ScanRun {
            profile_ok,
            phase: ScanPhase::Idle,
            stage: ScanStage::Opened,
            frame: None,
            found: Vec::new(),
            capture_ms: 0,
            detect_ms: 0,
            full_captures: 0,
            error: None,
        }
    }

    /// The one capture, once taken: what [`ScanAction::Detect`] asks the
    /// application to search.
    pub fn frame(&self) -> (frame: Option<&Frame>)
        ensures
            match frame {
                Some(f) => self@.frame == Some(f@),
                None => self@.frame is None,
            },
    {
        match &self.frame {
            Some(f) => Some(f),
            None => None,
        }
    }

    /// Whether `event` is the answer the pass waits for.
    pub fn expects(&self, event: &ScanEvent) -> (yes: bool)
        ensures
            yes == scan_expects(self@, *event),
    {
        match self.phase {
            ScanPhase::Idle => matches!(event, ScanEvent::Start),
            ScanPhase::Cancel => matches!(event, ScanEvent::CancelChecked { .. }),
            ScanPhase::Capture => matches!(event, ScanEvent::Captured { .. }),
            ScanPhase::Detect => matches!(event, ScanEvent::Detected { .. }),
            ScanPhase::Done => false,
        }
    }

    fn done(&mut self, error: Option<BuildingScanError>) -> (action: ScanAction)
        requires
            old(self)@.phase != ScanPhase::Done,
        ensures
            final(self)@ == (ScanView {
                phase: ScanPhase::Done,
                end: match error {
                    None => ScanEnd::Found,
                    Some(BuildingScanError::Cancelled) => ScanEnd::Cancelled,
                    Some(BuildingScanError::Adapter(err)) => ScanEnd::Adapter(err),
                    Some(BuildingScanError::Unusable { detail }) => ScanEnd::Unusable(detail@),
                    Some(BuildingScanError::Internal { detail }) => ScanEnd::Unusable(detail@),
                },
                ..old(self)@
            }),
            action == ScanAction::Finish,
    {
        self.phase = ScanPhase::Done;
        self.error = error;
        ScanAction::Finish
    }

    /// Takes the answer to the previous action and decides the next one.
    pub fn step(&mut self, event: ScanEvent) -> (action: ScanAction)
        requires
            old(self).wf(),
            scan_expects(old(self)@, event),
        ensures
            final(self).wf(),
            (final(self)@, action) == scan_transition(old(self)@, event),
    {
        proof {
            lemma_scan_transition_keeps_wf(old(self)@, event);
            reveal(frame_problem);
        }
        match event {
            ScanEvent::Start => {
                self.phase = ScanPhase::Cancel;
                self.stage = ScanStage::Opened;
                ScanAction::CheckCancel
            },
            ScanEvent::CancelChecked { cancelled } => {
                if cancelled {
                    return self.done(Some(BuildingScanError::Cancelled));
                }
                match self.stage {
                    ScanStage::Opened => if !self.profile_ok {
                        self.done(
                            Some(
                                BuildingScanError::Unusable {
                                    detail: String::from_str("invalid building calibration profile"),
                                },
                            ),
                        )
                    } else {
                        self.phase = ScanPhase::Capture;
                        ScanAction::Capture
                    },
                    ScanStage::Captured => {
                        let problem = capture_problem(self.frame.as_ref().unwrap());
                        match problem {
                            Some(detail) => self.done(Some(BuildingScanError::Unusable { detail })),
                            None => {
                                self.phase = ScanPhase::Detect;
                                ScanAction::Detect
                            },
                        }
                    },
                    ScanStage::Searched => self.done(None),
                }
            },
            ScanEvent::Captured { frame: Err(err), .. } => self.done(Some(BuildingScanError::Adapter(err))),
            ScanEvent::Captured { frame: Ok(f), capture_ms } => {
                self.frame = Some(f);
                self.capture_ms = capture_ms;
                self.full_captures = 1;
                self.phase = ScanPhase::Cancel;
                self.stage = ScanStage::Captured;
                ScanAction::CheckCancel
            },
            ScanEvent::Detected { detections, detect_ms } => {
                self.found = detections;
                self.detect_ms = detect_ms;
                self.phase = ScanPhase::Cancel;
                self.stage = ScanStage::Searched;
                ScanAction::CheckCancel
            },
        }
    }

    /// What the pass found: the detection centres in detection order with
    /// the capture and search times, or why nothing trustworthy was found.
    pub fn result(&self) -> (r: Result<BuildingScanReport, BuildingScanError>)
        requires
            self@.phase is Done,
        ensures
            match r {
                Ok(report) => {
                    &&& self@.end is Found
                    &&& report.count == self@.found.len()
                    &&& report.centers@.len() == self@.found.len()
                    &&& forall|i: int| 0 <= i < self@.found.len() ==> #[trigger] report.centers@[i] == self@.found[i].center
                    &&& report.capture_ms == self@.capture_ms
                    &&& report.detect_ms == self@.detect_ms
                    &&& report.full_captures == self@.full_captures
                },
                Err(e) => scan_error_of(self@.end, e),
            },
    {
        match &self.error {
            Some(BuildingScanError::Cancelled) => Err(BuildingScanError::Cancelled),
            Some(BuildingScanError::Adapter(err)) => Err(BuildingScanError::Adapter(copy_input_error(err))),
            Some(BuildingScanError::Unusable { detail }) => Err(BuildingScanError::Unusable { detail: detail.clone() }),
            Some(BuildingScanError::Internal { detail }) => Err(BuildingScanError::Unusable { detail: detail.clone() }),
            None => {
                let mut centers: Vec<Point> = Vec::new();
                let mut i: usize = 0;
                while i < self.found.len()
                    invariant
                        i <= self.found@.len(),
                        centers@.len() == i,
                        forall|j: int| 0 <= j < i ==> #[trigger] centers@[j] == self.found@[j].center,
                    decreases self.found@.len() - i,
                {
                    centers.push(self.found[i].center);
                    i = i + 1;
                }
                Ok(BuildingScanReport {
                    centers,
                    count: self.found.len(),
                    capture_ms: self.capture_ms,
                    detect_ms: self.detect_ms,
                    full_captures: self.full_captures,
                })
            },
        }
    }
}

} // verus!
