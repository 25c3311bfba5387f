//! One run of the row-build macro (F6/F7), as a state machine.
//!
//! The run reads the selection HUD, plans the row with
//! [`crate::colony::plan_row`] and builds one building per selected drone:
//! two or more drones are saved into scratch control group 9, and each
//! iteration selects one drone by clicking the last occupied portrait, taps
//! the build keys, confirms the placement preview and clicks; the group is
//! then recalled so a drone that is still travelling can be dropped before
//! the next order. A single drone builds once at the cursor.
//!
//! Every key press and click is preceded by a look at the cancellation flag
//! and the adapter's safety gate; every path ends with the adapter's
//! `release_all`. The decisions are [`RowBuilder`]; the application performs
//! each [`RowAction`] and hands back what happened as a [`RowEvent`].
use vstd::prelude::*;
use vstd::string::*;

use crate::colony::{
    close_step, confirm_timeout_ms, count_accepts, counts_unconfirmed, planned_row, plan_row, preview_decision, preview_step,
    recall_accepts, recall_ok, recalled_count, row_error_report, selection_count,
    selection_drones, single_accepts, ui_poll_ms, CloseStep, ColonyReport, PreviewStep, RowMode,
    CAPTURE_TIMEOUT_MS,
};
use crate::engine::{make_outcome, outcome_is, Ending};
use crate::frame::{Frame, FrameView, Point};
use crate::input::{input_error_text, InputError};
use crate::macros::{macro_keys, target_footprint, target_macro, BuildTarget, Key, Primitive, Timing};
use crate::play_area::playable;
use crate::text::{decimal, decimal_text};
use crate::vision::{
    detect_placement, detect_selection, placement_in_range, placement_of, selection_of,
    slot_center, slot_point, RejectReason, SelectionRead,
    lemma_group_read_counts_two_to_twelve,
};

verus! {

/// One step of a fixed sequence that the run performs without a decision of
/// its own.
#[derive(Clone, Copy, Debug, PartialEq, Eq, Structural)]
pub enum Op {
    /// Look at the cancellation flag; a cancellation stops the run.
    CheckCancel,
    /// Ask the adapter's safety gate; a refusal stops the run.
    Gate,
    /// Inject one event.
    Send(Primitive),
    /// Wait this many milliseconds, polling the cancellation flag.
    Pause(u64),
    /// Move the cursor.
    Move(Point),
}

/// What the run does once the current fixed sequence is through.
#[derive(Clone, Copy, Debug, PartialEq, Eq, Structural)]
pub enum Stage {
    /// The opening cancellation checks and safety gate: read the cursor.
    Guarded,
    /// The cursor rests on the anchor: read the selection.
    Parked,
    /// The cursor rests on the footprint: place the building there.
    AtTarget,
    /// The build keys were tapped: watch for the placement preview.
    Keys,
    /// The placement click was sent: watch the preview close.
    Clicked,
    /// Escape left a placement mode the game did not close.
    Escaped,
    /// Group 9 was saved: pick the next drone.
    Saved,
    /// A portrait was clicked and the cursor moved onto the footprint:
    /// confirm that exactly one drone is selected.
    Picked,
    /// Group 9 was recalled: read how many drones it still holds.
    Recalled,
    /// The travelling drone was removed and the group saved again: confirm
    /// the smaller group.
    Trimmed,
    /// The group was saved again without removing a portrait.
    Resaved,
}

/// Which selection a selection read waits for.
#[derive(Clone, Copy, Debug, PartialEq, Eq, Structural)]
pub enum Expect {
    /// The first read: any answer settles it.
    Any,
    /// Exactly one selected drone.
    Single,
    /// After recalling group 9: `pool` or `pool - 1` drones.
    Recall { pool: u8 },
    /// Exactly `n` drones.
    Count { n: u8 },
}

/// What a capture loop watches.
#[derive(Clone, Copy, Debug, PartialEq, Eq, Structural)]
pub enum Watch {
    /// The selection HUD.
    Selection(Expect),
    /// The placement preview before the click.
    Preview,
    /// The placement preview closing after the click.
    Close,
}

/// Where a [`RowBuilder`] stands.
#[derive(Clone, Copy, Debug, PartialEq, Eq, Structural)]
pub enum RowPhase {
    /// Not started: waits for [`RowEvent::Start`].
    Idle,
    /// Working through a fixed sequence of [`Op`]s.
    Queue,
    /// Reading the cursor position.
    Anchor,
    /// Reading the clock as a capture loop starts.
    Clock,
    /// A capture loop looks at the cancellation flag.
    Cancel,
    /// A capture loop captures the client.
    Capture,
    /// A capture loop waits before the next capture.
    Pause,
    /// Calling the adapter's closing `release_all`.
    Releasing,
    /// The run is over.
    Done,
}

/// What the run asks the application to do next.
#[derive(Clone, Copy, Debug, PartialEq, Eq, Structural)]
pub enum RowAction {
    /// Read the cancellation flag; answer [`RowEvent::CancelChecked`].
    CheckCancel,
    /// Run the adapter's safety gate; answer [`RowEvent::GateChecked`].
    SafetyCheck,
    /// Inject this event; answer [`RowEvent::Sent`].
    Send(Primitive),
    /// Wait this long, polling the cancellation flag; answer
    /// [`RowEvent::Waited`].
    Wait { ms: u64 },
    /// Move the cursor; answer [`RowEvent::Sent`].
    MoveCursor(Point),
    /// Read the cursor position; answer [`RowEvent::Cursor`].
    ReadCursor,
    /// Read the monotonic clock; answer [`RowEvent::Clock`].
    ReadClock,
    /// Capture the game client; answer [`RowEvent::Captured`].
    Capture,
    /// Call the adapter's `release_all`; answer [`RowEvent::Sent`].
    ReleaseAll,
    /// The run is over; [`RowBuilder::report`] tells how it ended.
    Finish,
}

/// What the application saw when it did what the run asked.
#[derive(Debug)]
pub enum RowEvent {
    /// Begin the run.
    Start,
    /// Whether cancellation was requested.
    CancelChecked { cancelled: bool },
    /// The safety gate's answer.
    GateChecked(Result<(), InputError>),
    /// The adapter's answer to an injected event, a cursor move or the
    /// closing release.
    Sent(Result<(), InputError>),
    /// Whether cancellation cut the wait short.
    Waited { cancelled: bool },
    /// The cursor position.
    Cursor(Result<Point, InputError>),
    /// Milliseconds on a monotonic clock.
    Clock { now_ms: u64 },
    /// A capture of the client, and the clock right after it.
    Captured { frame: Result<Frame, InputError>, now_ms: u64 },
}

/// The abstract state of a row-build run.
pub ghost struct RowView {
    pub timing: Timing,
    pub mode: RowMode,
    pub target: BuildTarget,
    /// The forced mode: click even without a confirmed green preview.
    pub force: bool,
    pub phase: RowPhase,
    pub stage: Stage,
    /// The current fixed sequence and the index of the step in flight.
    pub queue: Seq<Op>,
    pub next: nat,
    pub watch: Watch,
    /// When the current capture loop gives up, in clock milliseconds.
    pub deadline: u64,
    /// The cursor position when the run started; the row starts there.
    pub anchor: Point,
    /// The footprint centres, in placement order.
    pub targets: Seq<Point>,
    /// Buildings in the row.
    pub count: u8,
    /// Drones left in group 9, the one being placed included.
    pub pool: u8,
    /// The footprint being placed.
    pub point: Point,
    /// A green preview was seen before the current click.
    pub confirmed: bool,
    /// The preview closed after the current click.
    pub closed: bool,
    /// Orders issued: build keys and a click.
    pub issued: u8,
    /// Drones the first read reported.
    pub detected: u8,
    /// Orders issued without a confirmed, closed preview.
    pub unconfirmed: u8,
    pub ending: Ending,
    pub detail: Seq<char>,
}

/// The action that starts `op`.
pub open spec fn op_action(op: Op) -> RowAction {
    match op {
        Op::CheckCancel => RowAction::CheckCancel,
        Op::Gate => RowAction::SafetyCheck,
        Op::Send(p) => RowAction::Send(p),
        Op::Pause(ms) => RowAction::Wait { ms },
        Op::Move(p) => RowAction::MoveCursor(p),
    }
}

/// One event injected behind a look at the cancellation flag and the safety
/// gate, followed by a pause.
pub open spec fn guarded(p: Primitive, ms: u64) -> Seq<Op> {
    seq![Op::CheckCancel, Op::Gate, Op::Send(p), Op::Pause(ms)]
}

/// A key tap: held for `press`, then a `gap`.
pub open spec fn tap_ops(k: Key, t: Timing) -> Seq<Op> {
    guarded(Primitive::KeyDown(k), t.press_ms) + guarded(Primitive::KeyUp(k), t.gap_ms)
}

/// A chord: the modifier pressed first and released last.
pub open spec fn chord_ops(m: Key, k: Key, t: Timing) -> Seq<Op> {
    guarded(Primitive::KeyDown(m), t.press_ms) + guarded(Primitive::KeyDown(k), t.press_ms)
        + guarded(Primitive::KeyUp(k), t.gap_ms) + guarded(Primitive::KeyUp(m), t.gap_ms)
}

/// A left click.
pub open spec fn click_ops(t: Timing) -> Seq<Op> {
    guarded(Primitive::MouseLeftDown, t.press_ms) + guarded(Primitive::MouseLeftUp, t.gap_ms)
}

/// A shift-click, which removes one portrait from the selection.
pub open spec fn shift_click_ops(t: Timing) -> Seq<Op> {
    guarded(Primitive::KeyDown(Key::Shift), t.press_ms) + guarded(
        Primitive::MouseLeftDown,
        t.press_ms,
    ) + guarded(Primitive::MouseLeftUp, t.gap_ms) + guarded(Primitive::KeyUp(Key::Shift), t.gap_ms)
}

/// The build keys of the run's target, tapped in order.
pub open spec fn keys_ops(target: BuildTarget, t: Timing) -> Seq<Op> {
    let keys = macro_keys(target_macro(target));
    tap_ops(keys[0], t) + tap_ops(keys[1], t)
}

/// Every injected event of a sequence comes right after a safety gate that
/// comes right after a look at the cancellation flag.
pub open spec fn gated(q: Seq<Op>) -> bool {
    forall|j: int|
        0 <= j < q.len() && (#[trigger] q[j]) is Send ==> 2 <= j && q[j - 1] is Gate && q[j
            - 2] is CheckCancel
}

/// The gap between two captures of a capture loop.
pub open spec fn poll_ms(t: Timing) -> u64 {
    if t.gap_ms > 20 {
        t.gap_ms
    } else {
        20
    }
}

/// How long a capture loop may wait for what it watches.
pub open spec fn watch_timeout(watch: Watch, force: bool) -> u64 {
    match watch {
        Watch::Selection(_) => 1500,
        _ => if force {
            200
        } else {
            1500
        },
    }
}

/// `a + b`, or the largest `u64` when that does not fit.
pub open spec fn saturating_add(a: u64, b: u64) -> u64 {
    if a + b > u64::MAX {
        u64::MAX
    } else {
        (a + b) as u64
    }
}

/// Stopping the run: remember how it ended and call `release_all`.
pub open spec fn stop(s: RowView, ending: Ending, detail: Seq<char>) -> (RowView, RowAction) {
    (RowView { phase: RowPhase::Releasing, ending, detail, ..s }, RowAction::ReleaseAll)
}

/// Starting a fixed sequence; `stage` says what follows it.
pub open spec fn run_queue(s: RowView, q: Seq<Op>, stage: Stage) -> (RowView, RowAction) {
    (RowView { phase: RowPhase::Queue, queue: q, next: 0, stage, ..s }, op_action(q[0]))
}

/// Starting a capture loop.
pub open spec fn begin_watch(s: RowView, watch: Watch) -> (RowView, RowAction) {
    (RowView { phase: RowPhase::Clock, watch, ..s }, RowAction::ReadClock)
}

/// Waiting before the next capture.
pub open spec fn pause(s: RowView) -> (RowView, RowAction) {
    (RowView { phase: RowPhase::Pause, ..s }, RowAction::Wait { ms: poll_ms(s.timing) })
}

/// Placing a building at `point`: tap the build keys first.
pub open spec fn begin_place(s: RowView, point: Point) -> (RowView, RowAction) {
    run_queue(
        RowView { point, confirmed: false, closed: false, ..s },
        keys_ops(s.target, s.timing),
        Stage::Keys,
    )
}

/// Picking the next drone: with more than one left, click the last occupied
/// portrait and move onto its footprint; the last one is already selected.
pub open spec fn next_drone(s: RowView) -> (RowView, RowAction) {
    if s.pool > 1 {
        let p = s.targets[s.count - s.pool as int];
        run_queue(
            RowView { point: p, ..s },
            seq![Op::Move(slot_point(s.pool - 1))] + click_ops(s.timing) + seq![Op::Move(p)],
            Stage::Picked,
        )
    } else {
        let p = s.targets[s.count - 1int];
        run_queue(RowView { point: p, ..s }, seq![Op::Move(p)], Stage::AtTarget)
    }
}

/// An order was placed: count it, unconfirmed when no green preview was
/// seen or the preview never closed; then recall group 9, or finish.
pub open spec fn finish_place(s: RowView) -> (RowView, RowAction) {
    let t = RowView {
        issued: (s.issued + 1) as u8,
        unconfirmed: if !s.confirmed || !s.closed {
            (s.unconfirmed + 1) as u8
        } else {
            s.unconfirmed
        },
        ..s
    };
    if s.pool > 1 {
        run_queue(t, tap_ops(Key::Nine, s.timing), Stage::Recalled)
    } else {
        stop(t, Ending::Completed, seq![])
    }
}

/// What follows a fixed sequence.
#[verifier::opaque]
pub open spec fn resume(s: RowView) -> (RowView, RowAction) {
    match s.stage {
        Stage::Guarded => (RowView { phase: RowPhase::Anchor, ..s }, RowAction::ReadCursor),
        Stage::Parked => begin_watch(s, Watch::Selection(Expect::Any)),
        Stage::AtTarget => begin_place(s, s.point),
        Stage::Keys => begin_watch(s, Watch::Preview),
        Stage::Clicked => begin_watch(s, Watch::Close),
        Stage::Escaped => finish_place(s),
        Stage::Saved => next_drone(s),
        Stage::Picked => begin_watch(s, Watch::Selection(Expect::Single)),
        Stage::Recalled => begin_watch(s, Watch::Selection(Expect::Recall { pool: s.pool })),
        Stage::Trimmed => begin_watch(s, Watch::Selection(Expect::Count { n: (s.pool - 1) as u8 })),
        Stage::Resaved => next_drone(RowView { pool: (s.pool - 1) as u8, ..s }),
    }
}

/// The step in flight succeeded: start the next one, or what follows the
/// sequence.
pub open spec fn advance(s: RowView) -> (RowView, RowAction) {
    if s.next + 1 < s.queue.len() {
        (RowView { next: s.next + 1, ..s }, op_action(s.queue[s.next + 1 as int]))
    } else {
        resume(s)
    }
}

/// Whether a selection read is the one awaited.
pub open spec fn accepts(expect: Expect, read: SelectionRead) -> bool {
    match expect {
        Expect::Any => true,
        Expect::Single => read is SingleDrone,
        Expect::Recall { pool } => recall_ok(read, pool),
        Expect::Count { n } => match read {
            SelectionRead::Drones { count } => count == n,
            SelectionRead::SingleDrone => n == 1,
            SelectionRead::Rejected(_) => false,
        },
    }
}

/// The `Debug` spelling of a refusal reason.
pub open spec fn reason_text(r: RejectReason) -> Seq<char> {
    match r {
        RejectReason::UnsupportedProfile => "UnsupportedProfile"@,
        RejectReason::BlankCapture => "BlankCapture"@,
        RejectReason::NoDroneSelection => "NoDroneSelection"@,
        RejectReason::OccupiedNonDrone { slot } => "OccupiedNonDrone { slot: "@ + decimal_text(
            slot as nat,
        ) + " }"@,
        RejectReason::SingleWireframe => "SingleWireframe"@,
        RejectReason::UncertainSingle => "UncertainSingle"@,
    }
}

/// The `Debug` spelling of a selection read.
pub open spec fn read_text(read: SelectionRead) -> Seq<char> {
    match read {
        SelectionRead::Drones { count } => "Drones { count: "@ + decimal_text(count as nat) + " }"@,
        SelectionRead::SingleDrone => "SingleDrone"@,
        SelectionRead::Rejected(r) => "Rejected("@ + reason_text(r) + ")"@,
    }
}

/// Why a selection wait gave up.
pub open spec fn selection_timeout_text(read: SelectionRead) -> Seq<char> {
    "the selection HUD did not reach the expected state in time (last read: "@ + read_text(read)
        + ")"@
}

/// Why a strict run stops when the preview stays open after the click.
pub open spec fn stuck_preview_text() -> Seq<char> {
    "the placement preview did not close after the click; stopping"@
}

/// The awaited selection was read.
pub open spec fn on_selection(s: RowView, expect: Expect, read: SelectionRead) -> (
    RowView,
    RowAction,
) {
    match expect {
        Expect::Any => match selection_drones(read) {
            Err(d) => stop(s, Ending::Aborted, d),
            Ok(c) => {
                let t = RowView { detected: c, ..s };
                match planned_row(s.anchor, c, s.mode, s.target) {
                    Err(e) => stop(t, Ending::Aborted, row_error_report(e)),
                    Ok((n, points)) => {
                        let u = RowView { targets: points, count: n, pool: n, ..t };
                        if n == 1 {
                            run_queue(
                                RowView { point: s.anchor, ..u },
                                seq![Op::Move(s.anchor)],
                                Stage::AtTarget,
                            )
                        } else {
                            run_queue(u, chord_ops(Key::Control, Key::Nine, s.timing), Stage::Saved)
                        }
                    },
                }
            },
        },
        Expect::Single => begin_place(s, s.point),
        Expect::Recall { .. } => {
            let recalled: u8 = match read {
                SelectionRead::Drones { count } => count,
                _ => 1,
            };
            if recalled == s.pool {
                run_queue(
                    s,
                    seq![Op::Move(slot_point(s.pool - 1))] + shift_click_ops(s.timing) + chord_ops(
                        Key::Control,
                        Key::Nine,
                        s.timing,
                    ) + seq![Op::Move(s.anchor)],
                    Stage::Trimmed,
                )
            } else {
                run_queue(s, chord_ops(Key::Control, Key::Nine, s.timing), Stage::Resaved)
            }
        },
        Expect::Count { .. } => next_drone(RowView { pool: (s.pool - 1) as u8, ..s }),
    }
}

/// A capture arrived at clock `now`.
pub open spec fn on_capture(s: RowView, frame: FrameView, now: u64) -> (RowView, RowAction) {
    let expired = now >= s.deadline;
    match s.watch {
        Watch::Selection(expect) => {
            let read = selection_of(frame);
            if accepts(expect, read) {
                on_selection(s, expect, read)
            } else if expired {
                stop(s, Ending::Aborted, selection_timeout_text(read))
            } else {
                pause(s)
            }
        },
        Watch::Preview => {
            let read = placement_of(frame, s.point, target_footprint(s.target) as int);
            let (click, confirmed, detail) = preview_decision(read, s.force, expired, s.point);
            if click {
                run_queue(RowView { confirmed, ..s }, click_ops(s.timing), Stage::Clicked)
            } else if detail.len() > 0 {
                stop(s, Ending::Aborted, detail)
            } else {
                pause(s)
            }
        },
        Watch::Close => {
            let read = placement_of(frame, s.point, target_footprint(s.target) as int);
            if read is Absent {
                finish_place(RowView { closed: true, ..s })
            } else if !expired {
                pause(s)
            } else if !s.force {
                stop(s, Ending::Aborted, stuck_preview_text())
            } else if read is Valid || read is Invalid {
                run_queue(RowView { closed: false, ..s }, tap_ops(Key::Escape, s.timing), Stage::Escaped)
            } else {
                finish_place(RowView { closed: false, ..s })
            }
        },
    }
}

/// The answer to the step of a fixed sequence in flight.
pub open spec fn queue_step(s: RowView, e: RowEvent) -> (RowView, RowAction) {
    match (s.queue[s.next as int], e) {
        (Op::CheckCancel, RowEvent::CancelChecked { cancelled }) => if cancelled {
            stop(s, Ending::Cancelled, seq![])
        } else {
            advance(s)
        },
        (Op::Gate, RowEvent::GateChecked(r)) => match r {
            Err(err) => stop(s, Ending::Failed, input_error_text(err)),
            Ok(()) => advance(s),
        },
        (Op::Send(_), RowEvent::Sent(r)) => match r {
            Err(err) => stop(s, Ending::Failed, input_error_text(err)),
            Ok(()) => advance(s),
        },
        (Op::Pause(_), RowEvent::Waited { cancelled }) => if cancelled {
            stop(s, Ending::Cancelled, seq![])
        } else {
            advance(s)
        },
        (Op::Move(_), RowEvent::Sent(r)) => match r {
            Err(err) => stop(s, Ending::Failed, input_error_text(err)),
            Ok(()) => advance(s),
        },
        _ => (s, RowAction::Finish),
    }
}

/// How the run ended once `release_all` answered: a stop that was already
/// a refusal or a failure keeps its detail; otherwise a failed release turns
/// the run into a failure.
pub open spec fn release_outcome(ending: Ending, detail: Seq<char>, r: Result<(), InputError>) -> (
    Ending,
    Seq<char>,
) {
    if ending is Failed || ending is Aborted {
        (ending, detail)
    } else {
        match r {
            Err(err) => (Ending::Failed, "could not release injected input: "@ + input_error_text(err)),
            Ok(()) => (ending, detail),
        }
    }
}

/// One transition of the run.
pub open spec fn transition(s: RowView, e: RowEvent) -> (RowView, RowAction) {
    match s.phase {
        RowPhase::Idle => run_queue(
            s,
            seq![Op::CheckCancel, Op::CheckCancel, Op::Gate],
            Stage::Guarded,
        ),
        RowPhase::Queue => queue_step(s, e),
        RowPhase::Anchor => match e {
            RowEvent::Cursor(Err(err)) => stop(s, Ending::Failed, input_error_text(err)),
            RowEvent::Cursor(Ok(p)) => match planned_row(p, 1, s.mode, s.target) {
                Err(re) => stop(RowView { anchor: p, ..s }, Ending::Aborted, row_error_report(re)),
                Ok(_) => run_queue(RowView { anchor: p, ..s }, seq![Op::Move(p)], Stage::Parked),
            },
            _ => (s, RowAction::Finish),
        },
        RowPhase::Clock => match e {
            RowEvent::Clock { now_ms } => (
                RowView {
                    phase: RowPhase::Cancel,
                    deadline: saturating_add(now_ms, watch_timeout(s.watch, s.force)),
                    ..s
                },
                RowAction::CheckCancel,
            ),
            _ => (s, RowAction::Finish),
        },
        RowPhase::Cancel => match e {
            RowEvent::CancelChecked { cancelled } => if cancelled {
                stop(s, Ending::Cancelled, seq![])
            } else {
                (RowView { phase: RowPhase::Capture, ..s }, RowAction::Capture)
            },
            _ => (s, RowAction::Finish),
        },
        RowPhase::Capture => match e {
            RowEvent::Captured { frame: Err(err), .. } => stop(
                s,
                Ending::Failed,
                input_error_text(err),
            ),
            RowEvent::Captured { frame: Ok(f), now_ms } => on_capture(s, f@, now_ms),
            _ => (s, RowAction::Finish),
        },
        RowPhase::Pause => match e {
            RowEvent::Waited { cancelled } => if cancelled {
                stop(s, Ending::Cancelled, seq![])
            } else {
                (RowView { phase: RowPhase::Cancel, ..s }, RowAction::CheckCancel)
            },
            _ => (s, RowAction::Finish),
        },
        RowPhase::Releasing => match e {
            RowEvent::Sent(r) => {
                let (ending, detail) = release_outcome(s.ending, s.detail, r);
                (RowView { phase: RowPhase::Done, ending, detail, ..s }, RowAction::Finish)
            },
            _ => (s, RowAction::Finish),
        },
        RowPhase::Done => (s, RowAction::Finish),
    }
}

/// The answer a run in state `s` waits for.
pub open spec fn expects(s: RowView, e: RowEvent) -> bool {
    match s.phase {
        RowPhase::Idle => e is Start,
        RowPhase::Queue => match s.queue[s.next as int] {
            Op::CheckCancel => e is CancelChecked,
            Op::Gate => e is GateChecked,
            Op::Send(_) | Op::Move(_) => e is Sent,
            Op::Pause(_) => e is Waited,
        },
        RowPhase::Anchor => e is Cursor,
        RowPhase::Clock => e is Clock,
        RowPhase::Cancel => e is CancelChecked,
        RowPhase::Capture => e is Captured,
        RowPhase::Pause => e is Waited,
        RowPhase::Releasing => e is Sent,
        RowPhase::Done => false,
    }
}


/// The phases in which the run is working, neither idle nor stopping.
pub open spec fn running(phase: RowPhase) -> bool {
    phase is Queue || phase is Anchor || phase is Clock || phase is Cancel || phase is Capture
        || phase is Pause
}

/// The phases of a capture loop.
pub open spec fn awaiting(phase: RowPhase) -> bool {
    phase is Clock || phase is Cancel || phase is Capture || phase is Pause
}

/// The capture loop that follows each stage, if one does.
pub open spec fn stage_watch(s: RowView) -> Option<Watch> {
    match s.stage {
        Stage::Parked => Some(Watch::Selection(Expect::Any)),
        Stage::Keys => Some(Watch::Preview),
        Stage::Clicked => Some(Watch::Close),
        Stage::Picked => Some(Watch::Selection(Expect::Single)),
        Stage::Recalled => Some(Watch::Selection(Expect::Recall { pool: s.pool })),
        Stage::Trimmed => Some(Watch::Selection(Expect::Count { n: (s.pool - 1) as u8 })),
        _ => None,
    }
}

/// The stages after the row was planned.
pub open spec fn planned(stage: Stage) -> bool {
    !(stage is Guarded) && !(stage is Parked)
}

/// The stages from picking a drone to counting its order.
pub open spec fn placing(stage: Stage) -> bool {
    stage is Saved || stage is Picked || stage is AtTarget || stage is Keys || stage is Clicked
        || stage is Escaped
}

/// The stages with the cursor on the footprint being placed.
pub open spec fn on_footprint(stage: Stage) -> bool {
    stage is Picked || stage is AtTarget || stage is Keys || stage is Clicked || stage is Escaped
}

/// The stages between counting an order and picking the next drone.
pub open spec fn recalling(stage: Stage) -> bool {
    stage is Recalled || stage is Trimmed || stage is Resaved
}

/// The planned row: the counters are in range, the detected count is the
/// row's, and the anchor and every footprint are playable clickpoints.
pub open spec fn plan_ok(s: RowView) -> bool {
    &&& 1 <= s.pool <= s.count <= 12
    &&& s.count == s.detected
    &&& s.targets.len() == s.count
    &&& playable(s.anchor)
    &&& forall|i: int| 0 <= i < s.targets.len() ==> playable(#[trigger] s.targets[i])
}

/// What each planned stage adds: the cursor is on a playable footprint, the
/// orders issued agree with the drones left, and the strict mode clicks only
/// on a confirmed preview and never leaves a placement with Escape.
pub open spec fn stage_ok(s: RowView) -> bool {
    &&& (on_footprint(s.stage) ==> playable(s.point))
    &&& (placing(s.stage) ==> s.issued + s.pool == s.count)
    &&& (recalling(s.stage) ==> s.issued + s.pool == s.count + 1 && s.pool >= 2)
    &&& (!s.force && s.stage is Clicked ==> s.confirmed)
    &&& (!s.force ==> !(s.stage is Escaped))
}

/// The run's standing invariant: the counters are ordered, the strict mode
/// never counts an unconfirmed order, a fixed sequence is gated, a capture
/// loop watches what its stage needs, and once planned, the row is the
/// planned row of playable footprints and the counters agree with the stage.
pub open spec fn row_wf(s: RowView) -> bool {
    &&& s.unconfirmed <= s.issued <= s.detected <= 12
    &&& (!s.force ==> s.unconfirmed == 0)
    &&& (s.phase is Idle ==> s.issued == 0)
    &&& (s.phase is Queue ==> s.next < s.queue.len() && gated(s.queue))
    &&& (s.phase is Anchor ==> s.stage is Guarded)
    &&& (awaiting(s.phase) ==> stage_watch(s) == Some(s.watch))
    &&& (running(s.phase) && !planned(s.stage) ==> s.issued == 0)
    &&& (s.phase is Queue && !planned(s.stage) ==> forall|j: int|
        0 <= j < s.queue.len() ==> !((#[trigger] s.queue[j]) is Send))
    &&& (running(s.phase) && s.stage is Parked ==> playable(s.anchor))
    &&& (running(s.phase) && planned(s.stage) ==> plan_ok(s) && stage_ok(s))
}

/// Two gated sequences in a row are gated.
pub proof fn lemma_gated_concat(a: Seq<Op>, b: Seq<Op>)
    requires
        gated(a),
        gated(b),
    ensures
        gated(a + b),
{
    assert forall|j: int| 0 <= j < (a + b).len() && (#[trigger] (a + b)[j]) is Send implies 2 <= j
        && (a + b)[j - 1] is Gate && (a + b)[j - 2] is CheckCancel by {
        if j < a.len() {
            assert((a + b)[j] == a[j]);
        } else {
            assert((a + b)[j] == b[j - a.len()]);
            assert(b[j - a.len()] is Send);
            assert((a + b)[j - 1] == b[j - 1 - a.len()]);
            assert((a + b)[j - 2] == b[j - 2 - a.len()]);
        }
    }
}

/// The building blocks of the run's fixed sequences are gated.
pub proof fn lemma_blocks_are_gated(t: Timing, target: BuildTarget, k: Key, m: Key, p: Point)
    ensures
        gated(tap_ops(k, t)),
        gated(chord_ops(m, k, t)),
        gated(click_ops(t)),
        gated(shift_click_ops(t)),
        gated(keys_ops(target, t)),
        gated(seq![Op::Move(p)]),
        gated(seq![Op::CheckCancel, Op::CheckCancel, Op::Gate]),
{
    assert forall|p: Primitive, ms: u64| gated(#[trigger] guarded(p, ms)) by {
        let g = guarded(p, ms);
        assert forall|j: int| 0 <= j < g.len() && (#[trigger] g[j]) is Send implies 2 <= j && g[j
            - 1] is Gate && g[j - 2] is CheckCancel by {
            if j != 2 {
                assert(!(g[j] is Send));
            }
        }
    }
    let pr = t.press_ms;
    let gp = t.gap_ms;
    lemma_gated_concat(guarded(Primitive::KeyDown(k), pr), guarded(Primitive::KeyUp(k), gp));
    lemma_gated_concat(guarded(Primitive::KeyDown(m), pr), guarded(Primitive::KeyDown(k), pr));
    lemma_gated_concat(
        guarded(Primitive::KeyDown(m), pr) + guarded(Primitive::KeyDown(k), pr),
        guarded(Primitive::KeyUp(k), gp),
    );
    lemma_gated_concat(
        guarded(Primitive::KeyDown(m), pr) + guarded(Primitive::KeyDown(k), pr) + guarded(
            Primitive::KeyUp(k),
            gp,
        ),
        guarded(Primitive::KeyUp(m), gp),
    );
    lemma_gated_concat(guarded(Primitive::MouseLeftDown, pr), guarded(Primitive::MouseLeftUp, gp));
    lemma_gated_concat(
        guarded(Primitive::KeyDown(Key::Shift), pr),
        guarded(Primitive::MouseLeftDown, pr),
    );
    lemma_gated_concat(
        guarded(Primitive::KeyDown(Key::Shift), pr) + guarded(Primitive::MouseLeftDown, pr),
        guarded(Primitive::MouseLeftUp, gp),
    );
    lemma_gated_concat(
        guarded(Primitive::KeyDown(Key::Shift), pr) + guarded(Primitive::MouseLeftDown, pr)
            + guarded(Primitive::MouseLeftUp, gp),
        guarded(Primitive::KeyUp(Key::Shift), gp),
    );
    let keys = macro_keys(target_macro(target));
    lemma_gated_concat(
        guarded(Primitive::KeyDown(keys[0]), pr),
        guarded(Primitive::KeyUp(keys[0]), gp),
    );
    lemma_gated_concat(
        guarded(Primitive::KeyDown(keys[1]), pr),
        guarded(Primitive::KeyUp(keys[1]), gp),
    );
    lemma_gated_concat(tap_ops(keys[0], t), tap_ops(keys[1], t));
    let mv = seq![Op::Move(p)];
    assert forall|j: int| 0 <= j < mv.len() && (#[trigger] mv[j]) is Send implies 2 <= j && mv[j
        - 1] is Gate && mv[j - 2] is CheckCancel by {
        assert(mv[j] == Op::Move(p));
    }
    let opening = seq![Op::CheckCancel, Op::CheckCancel, Op::Gate];
    assert forall|j: int| 0 <= j < opening.len() && (#[trigger] opening[j]) is Send implies 2 <= j
        && opening[j - 1] is Gate && opening[j - 2] is CheckCancel by {
        assert(!(opening[j] is Send));
    }
}

/// The composite sequences the run builds are gated.
pub proof fn lemma_sequences_are_gated(t: Timing, a: Point, b: Point)
    ensures
        gated(seq![Op::Move(a)] + click_ops(t) + seq![Op::Move(b)]),
        gated(
            seq![Op::Move(a)] + shift_click_ops(t) + chord_ops(Key::Control, Key::Nine, t) + seq![
                Op::Move(b),
            ],
        ),
{
    lemma_blocks_are_gated(t, BuildTarget::Colony, Key::Nine, Key::Control, a);
    lemma_blocks_are_gated(t, BuildTarget::Colony, Key::Nine, Key::Control, b);
    lemma_gated_concat(seq![Op::Move(a)], click_ops(t));
    lemma_gated_concat(seq![Op::Move(a)] + click_ops(t), seq![Op::Move(b)]);
    lemma_gated_concat(seq![Op::Move(a)], shift_click_ops(t));
    lemma_gated_concat(
        seq![Op::Move(a)] + shift_click_ops(t),
        chord_ops(Key::Control, Key::Nine, t),
    );
    lemma_gated_concat(
        seq![Op::Move(a)] + shift_click_ops(t) + chord_ops(Key::Control, Key::Nine, t),
        seq![Op::Move(b)],
    );
}


/// Stopping keeps the invariant.
proof fn lemma_stop_wf(s: RowView, ending: Ending, detail: Seq<char>)
    requires
        row_wf(s),
    ensures
        row_wf(stop(s, ending, detail).0),
{
}

/// Starting to place at a playable footprint keeps the invariant.
proof fn lemma_begin_place_wf(s: RowView, point: Point)
    requires
        s.unconfirmed <= s.issued <= s.detected <= 12,
        !s.force ==> s.unconfirmed == 0,
        running(s.phase),
        plan_ok(s),
        s.issued + s.pool == s.count,
        playable(point),
    ensures
        row_wf(begin_place(s, point).0),
{
    lemma_blocks_are_gated(s.timing, s.target, Key::Nine, Key::Control, point);
}

/// Picking the next drone keeps the invariant.
proof fn lemma_next_drone_wf(s: RowView)
    requires
        s.unconfirmed <= s.issued <= s.detected <= 12,
        !s.force ==> s.unconfirmed == 0,
        running(s.phase),
        plan_ok(s),
        s.issued + s.pool == s.count,
    ensures
        row_wf(next_drone(s).0),
{
    if s.pool > 1 {
        let p = s.targets[s.count - s.pool as int];
        lemma_sequences_are_gated(s.timing, slot_point(s.pool - 1), p);
    } else {
        lemma_blocks_are_gated(s.timing, s.target, Key::Nine, Key::Control, s.targets[s.count - 1int]);
    }
}

/// Counting an order keeps the invariant.
proof fn lemma_finish_place_wf(s: RowView)
    requires
        s.unconfirmed <= s.issued <= s.detected <= 12,
        !s.force ==> s.unconfirmed == 0,
        running(s.phase),
        plan_ok(s),
        s.issued + s.pool == s.count,
        s.force || (s.confirmed && s.closed),
    ensures
        row_wf(finish_place(s).0),
{
    lemma_blocks_are_gated(s.timing, s.target, Key::Nine, Key::Control, s.point);
}

/// What follows a fixed sequence keeps the invariant.
proof fn lemma_resume_wf(s: RowView)
    requires
        row_wf(s),
        s.phase is Queue,
    ensures
        row_wf(resume(s).0),
{
    reveal(resume);
    match s.stage {
        Stage::AtTarget => lemma_begin_place_wf(s, s.point),
        Stage::Escaped => lemma_finish_place_wf(s),
        Stage::Saved => lemma_next_drone_wf(s),
        Stage::Resaved => lemma_next_drone_wf(RowView { pool: (s.pool - 1) as u8, ..s }),
        _ => {},
    }
}

/// Finishing one step of a fixed sequence keeps the invariant.
proof fn lemma_advance_wf(s: RowView)
    requires
        row_wf(s),
        s.phase is Queue,
    ensures
        row_wf(advance(s).0),
{
    if !(s.next + 1 < s.queue.len()) {
        lemma_resume_wf(s);
    }
}

/// The awaited selection keeps the invariant.
proof fn lemma_on_selection_wf(s: RowView, expect: Expect, v: FrameView)
    requires
        row_wf(s),
        s.phase is Capture,
        s.watch == Watch::Selection(expect),
        accepts(expect, selection_of(v)),
    ensures
        row_wf(on_selection(s, expect, selection_of(v)).0),
{
    let read = selection_of(v);
    match expect {
        Expect::Any => {
            lemma_group_read_counts_two_to_twelve(v);
            match selection_drones(read) {
                Err(d) => {},
                Ok(c) => {
                    crate::colony::lemma_planned_row_is_playable(s.anchor, c, s.mode, s.target);
                    lemma_blocks_are_gated(s.timing, s.target, Key::Nine, Key::Control, s.anchor);
                },
            }
        },
        Expect::Single => lemma_begin_place_wf(s, s.point),
        Expect::Recall { .. } => {
            lemma_sequences_are_gated(s.timing, slot_point(s.pool - 1), s.anchor);
            lemma_blocks_are_gated(s.timing, s.target, Key::Nine, Key::Control, s.anchor);
        },
        Expect::Count { .. } => lemma_next_drone_wf(RowView { pool: (s.pool - 1) as u8, ..s }),
    }
}

/// A capture of the placement preview keeps the invariant.
proof fn lemma_on_preview_wf(s: RowView, v: FrameView, now: u64)
    requires
        row_wf(s),
        s.phase is Capture,
        s.watch is Preview,
    ensures
        row_wf(on_capture(s, v, now).0),
{
    let read = placement_of(v, s.point, target_footprint(s.target) as int);
    crate::colony::lemma_strict_mode_clicks_only_green(read, now >= s.deadline, s.point);
    lemma_blocks_are_gated(s.timing, s.target, Key::Nine, Key::Control, s.point);
}

/// A capture after the click keeps the invariant.
proof fn lemma_on_close_wf(s: RowView, v: FrameView, now: u64)
    requires
        row_wf(s),
        s.phase is Capture,
        s.watch is Close,
    ensures
        row_wf(on_capture(s, v, now).0),
{
    let read = placement_of(v, s.point, target_footprint(s.target) as int);
    if read is Absent {
        lemma_finish_place_wf(RowView { closed: true, ..s });
    } else if now >= s.deadline && s.force {
        lemma_blocks_are_gated(s.timing, s.target, Key::Escape, Key::Control, s.point);
        if !(read is Valid || read is Invalid) {
            lemma_finish_place_wf(RowView { closed: false, ..s });
        }
    }
}

/// A capture keeps the invariant.
proof fn lemma_on_capture_wf(s: RowView, v: FrameView, now: u64)
    requires
        row_wf(s),
        s.phase is Capture,
    ensures
        row_wf(on_capture(s, v, now).0),
{
    match s.watch {
        Watch::Selection(expect) => {
            if accepts(expect, selection_of(v)) {
                lemma_on_selection_wf(s, expect, v);
            }
        },
        Watch::Preview => lemma_on_preview_wf(s, v, now),
        Watch::Close => lemma_on_close_wf(s, v, now),
    }
}

/// A run never goes back to waiting for its start.
pub proof fn lemma_row_never_idles_again(s: RowView, e: RowEvent)
    ensures
        !(transition(s, e).0.phase is Idle),
{
    reveal(resume);
}

/// Every transition keeps the run's invariant.
pub proof fn lemma_row_transition_keeps_wf(s: RowView, e: RowEvent)
    requires
        row_wf(s),
        expects(s, e),
    ensures
        row_wf(transition(s, e).0),
{
    match s.phase {
        RowPhase::Idle => {
            lemma_blocks_are_gated(s.timing, s.target, Key::Nine, Key::Control, s.anchor);
            let q = seq![Op::CheckCancel, Op::CheckCancel, Op::Gate];
            assert forall|j: int| 0 <= j < q.len() implies !((#[trigger] q[j]) is Send) by {}
        },
        RowPhase::Queue => {
            lemma_advance_wf(s);
        },
        RowPhase::Anchor => {
            if let RowEvent::Cursor(Ok(p)) = e {
                crate::colony::lemma_planned_row_is_playable(p, 1, s.mode, s.target);
                lemma_blocks_are_gated(s.timing, s.target, Key::Nine, Key::Control, p);
                let q = seq![Op::Move(p)];
                assert forall|j: int| 0 <= j < q.len() implies !((#[trigger] q[j]) is Send) by {}
            }
        },
        RowPhase::Capture => {
            if let RowEvent::Captured { frame: Ok(f), now_ms } = e {
                lemma_on_capture_wf(s, f@, now_ms);
            }
        },
        _ => {},
    }
}


/// The fixed sequences the run starts never begin with an injected event.
proof fn lemma_first_ops(t: Timing, target: BuildTarget, k: Key, m: Key, a: Point, b: Point)
    ensures
        tap_ops(k, t)[0] is CheckCancel,
        chord_ops(m, k, t)[0] is CheckCancel,
        click_ops(t)[0] is CheckCancel,
        keys_ops(target, t)[0] is CheckCancel,
        (seq![Op::Move(a)] + click_ops(t) + seq![Op::Move(b)])[0] is Move,
        (seq![Op::Move(a)] + shift_click_ops(t) + chord_ops(m, k, t) + seq![Op::Move(b)])[0] is Move,
{
    let keys = macro_keys(target_macro(target));
    assert(tap_ops(keys[0], t)[0] is CheckCancel);
}

/// What follows a fixed sequence never starts with an injected event.
proof fn lemma_resume_sends_nothing(s: RowView)
    ensures
        !(resume(s).1 is Send),
{
    reveal(resume);
    lemma_first_ops(s.timing, s.target, Key::Nine, Key::Control, s.anchor, s.point);
    if s.pool > 1 {
        lemma_first_ops(
            s.timing,
            s.target,
            Key::Nine,
            Key::Control,
            slot_point(s.pool - 1),
            s.targets[s.count - s.pool as int],
        );
    }
    if s.pool - 1 > 1 {
        lemma_first_ops(
            s.timing,
            s.target,
            Key::Nine,
            Key::Control,
            slot_point(s.pool - 2),
            s.targets[s.count - (s.pool - 1)],
        );
    }
}

/// A capture never leads straight to an injected event.
proof fn lemma_capture_sends_nothing(s: RowView, v: FrameView, now: u64)
    ensures
        !(on_capture(s, v, now).1 is Send),
{
    lemma_first_ops(s.timing, s.target, Key::Nine, Key::Control, s.anchor, s.point);
    lemma_first_ops(s.timing, s.target, Key::Escape, Key::Control, s.anchor, s.point);
    lemma_first_ops(
        s.timing,
        s.target,
        Key::Nine,
        Key::Control,
        slot_point(s.pool - 1),
        s.anchor,
    );
    if s.pool - 1 > 1 {
        lemma_first_ops(
            s.timing,
            s.target,
            Key::Nine,
            Key::Control,
            slot_point(s.pool - 2),
            s.targets[s.count - (s.pool - 1)],
        );
    }
}

/// Whenever the run asks to send a key or button event, the answer it just
/// received is a successful safety check, and the step before that check
/// looked at the cancellation flag: no key press or click is ever sent
/// without both.
pub proof fn lemma_row_events_are_gated(s: RowView, e: RowEvent)
    requires
        row_wf(s),
        expects(s, e),
        transition(s, e).1 is Send,
    ensures
        s.phase is Queue,
        s.queue[s.next as int] is Gate,
        e matches RowEvent::GateChecked(Ok(_)),
        s.next >= 1,
        s.queue[s.next - 1] is CheckCancel,
{
    lemma_resume_sends_nothing(s);
    lemma_first_ops(s.timing, s.target, Key::Nine, Key::Control, s.anchor, s.point);
    if let RowEvent::Captured { frame: Ok(f), now_ms } = e {
        lemma_capture_sends_nothing(s, f@, now_ms);
    }
    if let RowEvent::Cursor(Ok(p)) = e {
        lemma_first_ops(s.timing, s.target, Key::Nine, Key::Control, p, p);
    }
    assert(s.phase is Queue);
    let j = s.next + 1;
    assert(j < s.queue.len());
    assert(s.queue[j as int] is Send);
}

/// A cancellation seen at any look at the flag, or during any wait, stops
/// the run on the spot: it is reported as cancelled and the only thing still
/// asked for is the adapter's `release_all`.
pub proof fn lemma_row_cancellation_stops(s: RowView, e: RowEvent)
    requires
        row_wf(s),
        expects(s, e),
        e == (RowEvent::CancelChecked { cancelled: true }) || e == (RowEvent::Waited {
            cancelled: true,
        }),
    ensures
        transition(s, e).0.phase is Releasing,
        transition(s, e).0.ending is Cancelled,
        transition(s, e).1 is ReleaseAll,
{
}

/// Every stop asks for the adapter's `release_all`, and its answer ends the
/// run: nothing is asked after that.
pub proof fn lemma_row_stop_releases_then_finishes(s: RowView, e: RowEvent)
    requires
        row_wf(s),
        expects(s, e),
    ensures
        transition(s, e).0.phase is Releasing && !(s.phase is Releasing) ==> transition(s, e).1
            is ReleaseAll,
        s.phase is Releasing ==> transition(s, e).0.phase is Done && transition(s, e).1 is Finish,
{
    reveal(resume);
}

/// In the strict mode a placement click is started only on a capture that
/// shows the green preview at the footprint, and no order is ever counted
/// unconfirmed.
pub proof fn lemma_strict_row_clicks_only_on_green(s: RowView, e: RowEvent)
    requires
        row_wf(s),
        expects(s, e),
        !s.force,
        transition(s, e).0.stage is Clicked,
        !(s.stage is Clicked),
    ensures
        e matches RowEvent::Captured { frame: Ok(f), .. } && placement_of(
            f@,
            s.point,
            target_footprint(s.target) as int,
        ) is Valid,
        transition(s, e).0.confirmed,
        transition(s, e).0.unconfirmed == 0,
{
    reveal(resume);
    lemma_row_transition_keeps_wf(s, e);
    if let RowEvent::Captured { frame: Ok(f), now_ms } = e {
        let read = placement_of(f@, s.point, target_footprint(s.target) as int);
        crate::colony::lemma_strict_mode_clicks_only_green(read, now_ms >= s.deadline, s.point);
    }
}

/// What follows a fixed sequence counts an order only after an Escape that
/// left an unclosed placement.
proof fn lemma_resume_counts(s: RowView)
    requires
        row_wf(s),
        s.phase is Queue,
    ensures
        resume(s).0.issued == s.issued || (s.stage is Escaped && resume(s).0.issued == s.issued
            + 1),
        resume(s).0.issued == s.issued ==> resume(s).0.unconfirmed == s.unconfirmed,
        resume(s).0.unconfirmed <= s.unconfirmed + 1,
{
    reveal(resume);
}

/// A capture counts an order only when it settles a clicked placement.
proof fn lemma_capture_counts(s: RowView, v: FrameView, now: u64)
    requires
        row_wf(s),
        s.phase is Capture,
    ensures
        on_capture(s, v, now).0.issued == s.issued || (s.stage is Clicked && on_capture(
            s,
            v,
            now,
        ).0.issued == s.issued + 1),
        on_capture(s, v, now).0.issued == s.issued ==> on_capture(s, v, now).0.unconfirmed
            == s.unconfirmed,
        on_capture(s, v, now).0.unconfirmed <= s.unconfirmed + 1,
{
    match s.watch {
        Watch::Selection(expect) => {
            reveal(resume);
        },
        _ => {},
    }
}

/// An order is counted only once its placement click was sent: the issued
/// count grows by at most one per step, only when the placement that was
/// clicked is settled (its preview closed, or the forced mode gave up
/// waiting), and such an order adds at most one unconfirmed count.
pub proof fn lemma_row_counts_each_order_once(s: RowView, e: RowEvent)
    requires
        row_wf(s),
        expects(s, e),
    ensures
        transition(s, e).0.issued == s.issued || transition(s, e).0.issued == s.issued + 1,
        transition(s, e).0.issued == s.issued + 1 ==> (s.stage is Clicked || s.stage is Escaped),
        transition(s, e).0.issued == s.issued ==> transition(s, e).0.unconfirmed == s.unconfirmed,
        transition(s, e).0.unconfirmed <= s.unconfirmed + 1,
{
    match s.phase {
        RowPhase::Queue => lemma_resume_counts(s),
        RowPhase::Capture => {
            if let RowEvent::Captured { frame: Ok(f), now_ms } = e {
                lemma_capture_counts(s, f@, now_ms);
            }
        },
        _ => {},
    }
}

/// Until the selection has been read and the row planned, nothing is
/// injected: a refused selection, an anchor off the play area or a row that
/// does not fit stops the run before any key press or click.
pub proof fn lemma_row_no_input_before_the_plan(s: RowView, e: RowEvent)
    requires
        row_wf(s),
        expects(s, e),
        s.phase is Idle || s.stage is Guarded || s.stage is Parked,
    ensures
        !(transition(s, e).1 is Send),
        transition(s, e).0.phase is Releasing ==> transition(s, e).0.issued == 0,
{
    reveal(resume);
    lemma_resume_sends_nothing(s);
    lemma_first_ops(s.timing, s.target, Key::Nine, Key::Control, s.anchor, s.point);
    if let RowEvent::Captured { frame: Ok(f), now_ms } = e {
        lemma_capture_sends_nothing(s, f@, now_ms);
    }
    if let RowEvent::Cursor(Ok(p)) = e {
        lemma_first_ops(s.timing, s.target, Key::Nine, Key::Control, p, p);
    }
}


/// `r` asks for `release_all` exactly when it enters the release, and does
/// not finish the run.
spec fn settled(r: (RowView, RowAction)) -> bool {
    &&& (r.1 is ReleaseAll <==> r.0.phase is Releasing)
    &&& !(r.1 is Finish)
    &&& !(r.0.phase is Done)
}

proof fn lemma_resume_settled(s: RowView)
    ensures
        settled(resume(s)),
{
    reveal(resume);
}

proof fn lemma_on_capture_settled(s: RowView, frame: FrameView, now: u64)
    ensures
        settled(on_capture(s, frame, now)),
{
    lemma_resume_settled(s);
}

/// Only a stop asks for `release_all`, every stop does, and only its answer
/// finishes the run.
proof fn lemma_row_release_step(s: RowView, e: RowEvent)
    requires
        row_wf(s),
        expects(s, e),
    ensures
        !(s.phase is Releasing) ==> settled(transition(s, e)),
        s.phase is Releasing ==> transition(s, e).0.phase is Done && transition(s, e).1 is Finish,
{
    match s.phase {
        RowPhase::Queue => lemma_resume_settled(s),
        RowPhase::Capture => {
            if let RowEvent::Captured { frame: Ok(f), now_ms } = e {
                lemma_on_capture_settled(s, f@, now_ms);
            }
        },
        _ => {},
    }
}

/// The state reached, and the actions asked for, when `events` are handed to
/// a run in state `s` one at a time.
pub open spec fn row_run_from(s: RowView, events: Seq<RowEvent>) -> (RowView, Seq<RowAction>)
    decreases events.len(),
{
    if events.len() == 0 {
        (s, seq![])
    } else {
        let prev = row_run_from(s, events.drop_last());
        let next = transition(prev.0, events.last());
        (next.0, prev.1.push(next.1))
    }
}

/// Every one of `events` is the answer the run waits for when it comes.
pub open spec fn row_answered_in_turn(s: RowView, events: Seq<RowEvent>) -> bool
    decreases events.len(),
{
    events.len() == 0 || (row_answered_in_turn(s, events.drop_last()) && expects(
        row_run_from(s, events.drop_last()).0,
        events.last(),
    ))
}

/// What holds after any run from an idle state.
spec fn row_run_inv(t: RowView, acts: Seq<RowAction>) -> bool {
    &&& row_wf(t)
    &&& (t.phase is Idle ==> acts.len() == 0)
    &&& (t.phase is Releasing ==> acts.len() >= 1)
    &&& (t.phase is Done ==> acts.len() >= 2)
    &&& forall|i: int|
        0 <= i < acts.len() ==> (#[trigger] acts[i] is ReleaseAll <==> ((t.phase is Releasing
            && i == acts.len() - 1) || (t.phase is Done && i == acts.len() - 2)))
    &&& forall|i: int|
        0 <= i < acts.len() ==> (#[trigger] acts[i] is Finish <==> (t.phase is Done && i
            == acts.len() - 1))
}

/// [`row_run_inv`] holds after every run from an idle state.
proof fn lemma_row_run_inv(s: RowView, events: Seq<RowEvent>)
    requires
        row_wf(s),
        s.phase is Idle,
        row_answered_in_turn(s, events),
    ensures
        row_run_inv(row_run_from(s, events).0, row_run_from(s, events).1),
    decreases events.len(),
{
    if events.len() > 0 {
        let prev = events.drop_last();
        lemma_row_run_inv(s, prev);
        let (t, acts) = row_run_from(s, prev);
        let e = events.last();
        let (u, a) = transition(t, e);
        let acts2 = acts.push(a);
        lemma_row_transition_keeps_wf(t, e);
        lemma_row_never_idles_again(t, e);
        lemma_row_release_step(t, e);
        assert forall|i: int| 0 <= i < acts2.len() implies (#[trigger] acts2[i] is ReleaseAll <==> ((
        u.phase is Releasing && i == acts2.len() - 1) || (u.phase is Done && i == acts2.len() - 2))) by {
            if i < acts.len() {
                assert(acts2[i] == acts[i]);
            }
        }
        assert forall|i: int| 0 <= i < acts2.len() implies (#[trigger] acts2[i] is Finish <==> (
        u.phase is Done && i == acts2.len() - 1)) by {
            if i < acts.len() {
                assert(acts2[i] == acts[i]);
            }
        }
    }
}

/// Over a whole row run, the adapter's `release_all` is asked for at most
/// once and only last: a run that asked for it is releasing, or asked for
/// nothing more but the end; a finished run asked for it right before the
/// end. The counters stay ordered throughout: unconfirmed orders never
/// outnumber issued ones, nor issued ones the detected drones.
pub proof fn lemma_row_run_releases_all_once_and_last(s: RowView, events: Seq<RowEvent>)
    requires
        row_wf(s),
        s.phase is Idle,
        row_answered_in_turn(s, events),
    ensures
        ({
            let (t, acts) = row_run_from(s, events);
            &&& forall|i: int|
                0 <= i < acts.len() && #[trigger] acts[i] is ReleaseAll ==> (i == acts.len() - 1
                    && t.phase is Releasing) || (i == acts.len() - 2 && acts[i + 1] is Finish)
            &&& forall|i: int|
                0 <= i < acts.len() && #[trigger] acts[i] is Finish ==> i == acts.len() - 1
                    && t.phase is Done
            &&& t.phase is Done ==> acts.len() >= 2 && acts[acts.len() - 2] is ReleaseAll
                && acts.last() is Finish
            &&& t.unconfirmed <= t.issued <= t.detected
        }),
{
    lemma_row_run_inv(s, events);
}

/// A run whose first look at the cancellation flag finds it set injects
/// nothing: it asks for `release_all` at once, issues no order, and ends
/// cancelled once the release answered.
pub proof fn lemma_row_cancel_at_entry(s: RowView, r: Result<(), InputError>)
    requires
        row_wf(s),
        s.phase is Idle,
    ensures
        ({
            let events = seq![RowEvent::Start, RowEvent::CancelChecked { cancelled: true }, RowEvent::Sent(r)];
            let (t, acts) = row_run_from(s, events);
            &&& row_answered_in_turn(s, events)
            &&& acts == seq![RowAction::CheckCancel, RowAction::ReleaseAll, RowAction::Finish]
            &&& t.phase is Done
            &&& t.issued == 0
            &&& t.detected == s.detected
            &&& t.ending is Cancelled || (t.ending is Failed && r is Err)
        }),
{
    let e0 = RowEvent::Start;
    let e1 = RowEvent::CancelChecked { cancelled: true };
    let e2 = RowEvent::Sent(r);
    let events = seq![e0, e1, e2];
    let one = seq![e0];
    let two = seq![e0, e1];
    assert(one.drop_last() =~= Seq::<RowEvent>::empty());
    assert(two.drop_last() =~= one);
    assert(events.drop_last() =~= two);
    let r0 = row_run_from(s, Seq::<RowEvent>::empty());
    assert(r0.0 == s && r0.1 =~= Seq::<RowAction>::empty());
    assert(one.last() == e0 && two.last() == e1 && events.last() == e2);
    let r1 = row_run_from(s, one);
    assert(r1 == (transition(s, e0).0, r0.1.push(transition(s, e0).1)));
    let r2 = row_run_from(s, two);
    assert(r2 == (transition(r1.0, e1).0, r1.1.push(transition(r1.0, e1).1)));
    assert(r1.0.phase is Queue && r1.0.next == 0 && r1.0.queue[0] is CheckCancel);
    assert(r1.1 =~= seq![RowAction::CheckCancel]);
    assert(r2.0.phase is Releasing && r2.0.ending is Cancelled);
    assert(r2.1 =~= seq![RowAction::CheckCancel, RowAction::ReleaseAll]);
    assert(row_run_from(s, events).1 =~= seq![
        RowAction::CheckCancel,
        RowAction::ReleaseAll,
        RowAction::Finish,
    ]);
    assert(row_answered_in_turn(s, Seq::<RowEvent>::empty()));
    assert(row_answered_in_turn(s, one));
    assert(row_answered_in_turn(s, two));
    assert(row_answered_in_turn(s, events));
    let t = row_run_from(s, events).0;
    assert(t.phase is Done);
    assert(t.issued == 0);
}

/// A playable clickpoint is far enough from the numeric limits for the
/// preview search around it.
proof fn lemma_playable_in_range(p: Point, target: BuildTarget)
    requires
        playable(p),
    ensures
        placement_in_range(p, target_footprint(target) as int),
{
}

/// `seq` with `guarded(p, ms)` appended.
pub(crate) fn push_guarded(q: &mut Vec<Op>, p: Primitive, ms: u64)
    ensures
        final(q)@ == old(q)@ + guarded(p, ms),
{
    q.push(Op::CheckCancel);
    q.push(Op::Gate);
    q.push(Op::Send(p));
    q.push(Op::Pause(ms));
    assert(final(q)@ =~= old(q)@ + guarded(p, ms));
}

/// A key tap.
pub(crate) fn tap(k: Key, t: Timing) -> (q: Vec<Op>)
    ensures
        q@ == tap_ops(k, t),
{
    let mut q: Vec<Op> = Vec::new();
    push_guarded(&mut q, Primitive::KeyDown(k), t.press_ms);
    push_guarded(&mut q, Primitive::KeyUp(k), t.gap_ms);
    assert(q@ =~= tap_ops(k, t));
    q
}

/// A chord of a modifier and a key.
pub(crate) fn chord(m: Key, k: Key, t: Timing) -> (q: Vec<Op>)
    ensures
        q@ == chord_ops(m, k, t),
{
    let mut q: Vec<Op> = Vec::new();
    push_guarded(&mut q, Primitive::KeyDown(m), t.press_ms);
    push_guarded(&mut q, Primitive::KeyDown(k), t.press_ms);
    push_guarded(&mut q, Primitive::KeyUp(k), t.gap_ms);
    push_guarded(&mut q, Primitive::KeyUp(m), t.gap_ms);
    assert(q@ =~= chord_ops(m, k, t));
    q
}

/// `q` with a left click appended.
pub(crate) fn push_click(q: &mut Vec<Op>, t: Timing)
    ensures
        final(q)@ == old(q)@ + click_ops(t),
{
    push_guarded(q, Primitive::MouseLeftDown, t.press_ms);
    push_guarded(q, Primitive::MouseLeftUp, t.gap_ms);
    assert(final(q)@ =~= old(q)@ + click_ops(t));
}

/// A left click.
pub(crate) fn click(t: Timing) -> (q: Vec<Op>)
    ensures
        q@ == click_ops(t),
{
    let mut q: Vec<Op> = Vec::new();
    push_click(&mut q, t);
    assert(q@ =~= click_ops(t));
    q
}

/// The build keys of `target`, tapped in order.
pub(crate) fn build_keys(target: BuildTarget, t: Timing) -> (q: Vec<Op>)
    ensures
        q@ == keys_ops(target, t),
{
    let keys = target.build_keys();
    let mut q: Vec<Op> = Vec::new();
    push_guarded(&mut q, Primitive::KeyDown(keys[0]), t.press_ms);
    push_guarded(&mut q, Primitive::KeyUp(keys[0]), t.gap_ms);
    push_guarded(&mut q, Primitive::KeyDown(keys[1]), t.press_ms);
    push_guarded(&mut q, Primitive::KeyUp(keys[1]), t.gap_ms);
    assert(q@ =~= keys_ops(target, t));
    q
}

/// Move onto the portrait of `slot`, click it, and move onto `point`.
fn pick(slot: Point, point: Point, t: Timing) -> (q: Vec<Op>)
    ensures
        q@ == seq![Op::Move(slot)] + click_ops(t) + seq![Op::Move(point)],
{
    let mut q: Vec<Op> = Vec::new();
    q.push(Op::Move(slot));
    push_click(&mut q, t);
    q.push(Op::Move(point));
    assert(q@ =~= seq![Op::Move(slot)] + click_ops(t) + seq![Op::Move(point)]);
    q
}

/// Remove the portrait of `slot` from the selection, save group 9 again and
/// move back onto the anchor.
fn trim(slot: Point, anchor: Point, t: Timing) -> (q: Vec<Op>)
    ensures
        q@ == seq![Op::Move(slot)] + shift_click_ops(t) + chord_ops(Key::Control, Key::Nine, t)
            + seq![Op::Move(anchor)],
{
    let mut q: Vec<Op> = Vec::new();
    q.push(Op::Move(slot));
    push_guarded(&mut q, Primitive::KeyDown(Key::Shift), t.press_ms);
    push_guarded(&mut q, Primitive::MouseLeftDown, t.press_ms);
    push_guarded(&mut q, Primitive::MouseLeftUp, t.gap_ms);
    push_guarded(&mut q, Primitive::KeyUp(Key::Shift), t.gap_ms);
    push_guarded(&mut q, Primitive::KeyDown(Key::Control), t.press_ms);
    push_guarded(&mut q, Primitive::KeyDown(Key::Nine), t.press_ms);
    push_guarded(&mut q, Primitive::KeyUp(Key::Nine), t.gap_ms);
    push_guarded(&mut q, Primitive::KeyUp(Key::Control), t.gap_ms);
    q.push(Op::Move(anchor));
    assert(q@ =~= seq![Op::Move(slot)] + shift_click_ops(t) + chord_ops(Key::Control, Key::Nine, t)
        + seq![Op::Move(anchor)]);
    q
}

/// The `Debug` spelling of a refusal reason.
pub(crate) fn reason_string(r: RejectReason) -> (text: String)
    ensures
        text@ == reason_text(r),
{
    match r {
        RejectReason::UnsupportedProfile => String::from_str("UnsupportedProfile"),
        RejectReason::BlankCapture => String::from_str("BlankCapture"),
        RejectReason::NoDroneSelection => String::from_str("NoDroneSelection"),
        RejectReason::OccupiedNonDrone { slot } => {
            let mut t = String::from_str("OccupiedNonDrone { slot: ");
            t.append(decimal(slot as u128).as_str());
            t.append(" }");
            t
        },
        RejectReason::SingleWireframe => String::from_str("SingleWireframe"),
        RejectReason::UncertainSingle => String::from_str("UncertainSingle"),
    }
}

/// The `Debug` spelling of a selection read.
pub(crate) fn read_string(read: SelectionRead) -> (text: String)
    ensures
        text@ == read_text(read),
{
    match read {
        SelectionRead::Drones { count } => {
            let mut t = String::from_str("Drones { count: ");
            t.append(decimal(count as u128).as_str());
            t.append(" }");
            t
        },
        SelectionRead::SingleDrone => String::from_str("SingleDrone"),
        SelectionRead::Rejected(r) => {
            let mut t = String::from_str("Rejected(");
            t.append(reason_string(r).as_str());
            t.append(")");
            t
        },
    }
}

/// Whether a selection read is the one awaited.
pub(crate) fn accepts_read(expect: Expect, read: SelectionRead) -> (yes: bool)
    ensures
        yes == accepts(expect, read),
{
    match expect {
        Expect::Any => true,
        Expect::Single => single_accepts(read),
        Expect::Recall { pool } => recall_accepts(read, pool),
        Expect::Count { n } => count_accepts(read, n),
    }
}

/// The action that starts `op`.
pub(crate) fn action_of(op: Op) -> (action: RowAction)
    ensures
        action == op_action(op),
{
    match op {
        Op::CheckCancel => RowAction::CheckCancel,
        Op::Gate => RowAction::SafetyCheck,
        Op::Send(p) => RowAction::Send(p),
        Op::Pause(ms) => RowAction::Wait { ms },
        Op::Move(p) => RowAction::MoveCursor(p),
    }
}

/// One run of the row-build macro.
///
/// The application calls [`RowBuilder::step`] with [`RowEvent::Start`],
/// performs each returned [`RowAction`] and hands back what happened, until
/// the action is [`RowAction::Finish`]; [`RowBuilder::report`] then tells how
/// the run ended.
pub struct RowBuilder {
    timing: Timing,
    mode: RowMode,
    target: BuildTarget,
    force: bool,
    phase: RowPhase,
    stage: Stage,
    queue: Vec<Op>,
    next: usize,
    watch: Watch,
    deadline: u64,
    anchor: Point,
    targets: Vec<Point>,
    count: u8,
    pool: u8,
    point: Point,
    confirmed: bool,
    closed: bool,
    issued: u8,
    detected: u8,
    unconfirmed: u8,
    ending: Ending,
    detail: String,
}

impl View for RowBuilder {
    type V = RowView;

    closed spec fn view(&self) -> RowView {
        RowView {
            timing: self.timing,
            mode: self.mode,
            target: self.target,
            force: self.force,
            phase: self.phase,
            stage: self.stage,
            queue: self.queue@,
            next: self.next as nat,
            watch: self.watch,
            deadline: self.deadline,
            anchor: self.anchor,
            targets: self.targets@,
            count: self.count,
            pool: self.pool,
            point: self.point,
            confirmed: self.confirmed,
            closed: self.closed,
            issued: self.issued,
            detected: self.detected,
            unconfirmed: self.unconfirmed,
            ending: self.ending,
            detail: self.detail@,
        }
    }
}

impl RowBuilder {
    /// The run's standing invariant.
    pub open spec fn wf(&self) -> bool {
        row_wf(self@)
    }

    /// A run that builds a row of `target` in `mode`, not started yet;
    /// `force` clicks even without a confirmed green preview.
    pub fn new(timing: Timing, mode: RowMode, target: BuildTarget, force: bool) -> (run: Self)
        ensures
            run.wf(),
            run@.timing == timing,
            run@.mode == mode,
            run@.target == target,
            run@.force == force,
            run@.phase is Idle,
            run@.issued == 0,
            run@.detected == 0,
            run@.unconfirmed == 0,
    {
        RowBuilder {
            timing,
            mode,
            target,
            force,
            phase: RowPhase::Idle,
            stage: Stage::Guarded,
            queue: Vec::new(),
            next: 0,
            watch: Watch::Selection(Expect::Any),
            deadline: 0,
            anchor: Point::new(0, 0),
            targets: Vec::new(),
            count: 0,
            pool: 0,
            point: Point::new(0, 0),
            confirmed: false,
            closed: false,
            issued: 0,
            detected: 0,
            unconfirmed: 0,
            ending: Ending::Completed,
            detail: String::new(),
        }
    }

    /// Where the run stands.
    pub fn phase(&self) -> (phase: RowPhase)
        ensures
            phase == self@.phase,
    {
        self.phase
    }

    /// Whether `event` is the answer the run waits for.
    pub fn expects(&self, event: &RowEvent) -> (yes: bool)
        requires
            self.wf(),
        ensures
            yes == expects(self@, *event),
    {
        match self.phase {
            RowPhase::Idle => matches!(event, RowEvent::Start),
            RowPhase::Queue => match self.queue[self.next] {
                Op::CheckCancel => matches!(event, RowEvent::CancelChecked { .. }),
                Op::Gate => matches!(event, RowEvent::GateChecked(_)),
                Op::Send(_) | Op::Move(_) => matches!(event, RowEvent::Sent(_)),
                Op::Pause(_) => matches!(event, RowEvent::Waited { .. }),
            },
            RowPhase::Anchor => matches!(event, RowEvent::Cursor(_)),
            RowPhase::Clock => matches!(event, RowEvent::Clock { .. }),
            RowPhase::Cancel => matches!(event, RowEvent::CancelChecked { .. }),
            RowPhase::Capture => matches!(event, RowEvent::Captured { .. }),
            RowPhase::Pause => matches!(event, RowEvent::Waited { .. }),
            RowPhase::Releasing => matches!(event, RowEvent::Sent(_)),
            RowPhase::Done => false,
        }
    }

    /// How the run ended, with its counts.
    pub fn report(&self) -> (report: ColonyReport)
        ensures
            outcome_is(report.outcome, self@.ending, self@.detail),
            report.target == self@.target,
            report.orders_issued == self@.issued,
            report.detected == self@.detected,
            report.unconfirmed == self@.unconfirmed,
    {
        ColonyReport {
            outcome: make_outcome(self.ending, self.detail.clone()),
            target: self.target,
            orders_issued: self.issued,
            detected: self.detected,
            unconfirmed: self.unconfirmed,
        }
    }

    fn stop(&mut self, ending: Ending, detail: String) -> (action: RowAction)
        ensures
            (final(self)@, action) == stop(old(self)@, ending, detail@),
    {
        self.phase = RowPhase::Releasing;
        self.ending = ending;
        self.detail = detail;
        RowAction::ReleaseAll
    }

    fn run_queue(&mut self, q: Vec<Op>, stage: Stage) -> (action: RowAction)
        requires
            q@.len() > 0,
        ensures
            (final(self)@, action) == run_queue(old(self)@, q@, stage),
    {
        let first = q[0];
        self.phase = RowPhase::Queue;
        self.queue = q;
        self.next = 0;
        self.stage = stage;
        action_of(first)
    }

    fn begin_watch(&mut self, watch: Watch) -> (action: RowAction)
        ensures
            (final(self)@, action) == begin_watch(old(self)@, watch),
    {
        self.phase = RowPhase::Clock;
        self.watch = watch;
        RowAction::ReadClock
    }

    fn pause(&mut self) -> (action: RowAction)
        ensures
            (final(self)@, action) == pause(old(self)@),
    {
        self.phase = RowPhase::Pause;
        RowAction::Wait { ms: ui_poll_ms(self.timing.gap_ms) }
    }

    fn begin_place(&mut self, point: Point) -> (action: RowAction)
        ensures
            (final(self)@, action) == begin_place(old(self)@, point),
    {
        self.point = point;
        self.confirmed = false;
        self.closed = false;
        let q = build_keys(self.target, self.timing);
        self.run_queue(q, Stage::Keys)
    }

    fn next_drone(&mut self) -> (action: RowAction)
        requires
            1 <= old(self)@.pool <= old(self)@.count,
            old(self)@.targets.len() == old(self)@.count,
        ensures
            (final(self)@, action) == next_drone(old(self)@),
    {
        if self.pool > 1 {
            let p = self.targets[(self.count - self.pool) as usize];
            self.point = p;
            let q = pick(slot_center(self.pool - 1), p, self.timing);
            self.run_queue(q, Stage::Picked)
        } else {
            let p = self.targets[(self.count - 1) as usize];
            self.point = p;
            let q = vec![Op::Move(p)];
            assert(q@ =~= seq![Op::Move(p)]);
            self.run_queue(q, Stage::AtTarget)
        }
    }

    fn finish_place(&mut self) -> (action: RowAction)
        requires
            old(self)@.unconfirmed <= old(self)@.issued < 12,
        ensures
            (final(self)@, action) == finish_place(old(self)@),
    {
        if counts_unconfirmed(self.confirmed, self.closed) {
            self.unconfirmed = self.unconfirmed + 1;
        }
        self.issued = self.issued + 1;
        if self.pool > 1 {
            let q = tap(Key::Nine, self.timing);
            self.run_queue(q, Stage::Recalled)
        } else {
            self.stop(Ending::Completed, String::new())
        }
    }

    fn resume(&mut self) -> (action: RowAction)
        requires
            row_wf(old(self)@),
            old(self)@.phase is Queue,
        ensures
            (final(self)@, action) == resume(old(self)@),
    {
        proof {
            reveal(resume);
        }
        match self.stage {
            Stage::Guarded => {
                self.phase = RowPhase::Anchor;
                RowAction::ReadCursor
            },
            Stage::Parked => self.begin_watch(Watch::Selection(Expect::Any)),
            Stage::AtTarget => {
                let p = self.point;
                self.begin_place(p)
            },
            Stage::Keys => self.begin_watch(Watch::Preview),
            Stage::Clicked => self.begin_watch(Watch::Close),
            Stage::Escaped => self.finish_place(),
            Stage::Saved => self.next_drone(),
            Stage::Picked => self.begin_watch(Watch::Selection(Expect::Single)),
            Stage::Recalled => {
                let pool = self.pool;
                self.begin_watch(Watch::Selection(Expect::Recall { pool }))
            },
            Stage::Trimmed => {
                let n = self.pool - 1;
                self.begin_watch(Watch::Selection(Expect::Count { n }))
            },
            Stage::Resaved => {
                self.pool = self.pool - 1;
                self.next_drone()
            },
        }
    }

    fn step_next(&mut self) -> (action: RowAction)
        requires
            old(self)@.next + 1 < old(self)@.queue.len(),
        ensures
            final(self)@ == (RowView { next: old(self)@.next + 1, ..old(self)@ }),
            action == op_action(old(self)@.queue[old(self)@.next + 1 as int]),
    {
        assert(self.next + 1 < self.queue.len());
        self.next = self.next + 1;
        action_of(self.queue[self.next])
    }

    fn advance(&mut self) -> (action: RowAction)
        requires
            row_wf(old(self)@),
            old(self)@.phase is Queue,
        ensures
            (final(self)@, action) == advance(old(self)@),
    {
        if self.next < self.queue.len() - 1 {
            self.step_next()
        } else {
            self.resume()
        }
    }}


impl RowBuilder {
    fn on_selection(&mut self, expect: Expect, read: SelectionRead, Ghost(v): Ghost<FrameView>) -> (action: RowAction)
        requires
            row_wf(old(self)@),
            old(self)@.phase is Capture,
            old(self)@.watch == Watch::Selection(expect),
            read == selection_of(v),
            accepts(expect, read),
        ensures
            (final(self)@, action) == on_selection(old(self)@, expect, read),
    {
        match expect {
            Expect::Any => {
                match selection_count(read) {
                    Err(d) => self.stop(Ending::Aborted, d),
                    Ok(c) => {
                        self.detected = c;
                        match plan_row(self.anchor, c, self.mode, self.target) {
                            Err(e) => self.stop(Ending::Aborted, e.report_detail()),
                            Ok(plan) => {
                                proof {
                                    crate::colony::lemma_planned_row_is_playable(
                                        old(self)@.anchor,
                                        c,
                                        old(self)@.mode,
                                        old(self)@.target,
                                    );
                                }
                                let n = plan.count;
                                self.targets = plan.targets;
                                self.count = n;
                                self.pool = n;
                                if n == 1 {
                                    let a = self.anchor;
                                    self.point = a;
                                    let q = vec![Op::Move(a)];
                                    assert(q@ =~= seq![Op::Move(a)]);
                                    self.run_queue(q, Stage::AtTarget)
                                } else {
                                    let q = chord(Key::Control, Key::Nine, self.timing);
                                    self.run_queue(q, Stage::Saved)
                                }
                            },
                        }
                    },
                }
            },
            Expect::Single => {
                let p = self.point;
                self.begin_place(p)
            },
            Expect::Recall { .. } => {
                let recalled = recalled_count(read);
                if recalled == self.pool {
                    let q = trim(slot_center(self.pool - 1), self.anchor, self.timing);
                    self.run_queue(q, Stage::Trimmed)
                } else {
                    let q = chord(Key::Control, Key::Nine, self.timing);
                    self.run_queue(q, Stage::Resaved)
                }
            },
            Expect::Count { .. } => {
                self.pool = self.pool - 1;
                self.next_drone()
            },
        }
    }

    fn on_preview(&mut self, frame: &Frame, now: u64) -> (action: RowAction)
        requires
            row_wf(old(self)@),
            old(self)@.phase is Capture,
            old(self)@.watch is Preview,
        ensures
            (final(self)@, action) == on_capture(old(self)@, frame@, now),
    {
        proof {
            lemma_playable_in_range(old(self)@.point, old(self)@.target);
        }
        let expired = now >= self.deadline;
        let read = detect_placement(frame, self.point, self.target.footprint_px());
        match preview_step(read, self.force, expired, self.point) {
            PreviewStep::Click { confirmed } => {
                self.confirmed = confirmed;
                let q = click(self.timing);
                self.run_queue(q, Stage::Clicked)
            },
            PreviewStep::Refuse { detail } => self.stop(Ending::Aborted, detail),
            PreviewStep::Poll => self.pause(),
        }
    }

    fn on_close(&mut self, frame: &Frame, now: u64) -> (action: RowAction)
        requires
            row_wf(old(self)@),
            old(self)@.phase is Capture,
            old(self)@.watch is Close,
        ensures
            (final(self)@, action) == on_capture(old(self)@, frame@, now),
    {
        proof {
            lemma_playable_in_range(old(self)@.point, old(self)@.target);
        }
        let expired = now >= self.deadline;
        let read = detect_placement(frame, self.point, self.target.footprint_px());
        match close_step(read, self.force, expired) {
            CloseStep::Closed => {
                self.closed = true;
                self.finish_place()
            },
            CloseStep::Poll => self.pause(),
            CloseStep::Stuck { escape } => {
                self.closed = false;
                if escape {
                    let q = tap(Key::Escape, self.timing);
                    self.run_queue(q, Stage::Escaped)
                } else {
                    self.finish_place()
                }
            },
            CloseStep::Refuse { detail } => self.stop(Ending::Aborted, detail),
        }
    }

    fn on_capture(&mut self, frame: &Frame, now: u64) -> (action: RowAction)
        requires
            row_wf(old(self)@),
            old(self)@.phase is Capture,
        ensures
            (final(self)@, action) == on_capture(old(self)@, frame@, now),
    {
        match self.watch {
            Watch::Selection(expect) => {
                let read = detect_selection(frame);
                if accepts_read(expect, read) {
                    self.on_selection(expect, read, Ghost(frame@))
                } else if now >= self.deadline {
                    let mut d = String::from_str(
                        "the selection HUD did not reach the expected state in time (last read: ",
                    );
                    d.append(read_string(read).as_str());
                    d.append(")");
                    self.stop(Ending::Aborted, d)
                } else {
                    self.pause()
                }
            },
            Watch::Preview => self.on_preview(frame, now),
            Watch::Close => self.on_close(frame, now),
        }
    }
}


impl RowBuilder {
    fn queue_step(&mut self, event: RowEvent) -> (action: RowAction)
        requires
            row_wf(old(self)@),
            old(self)@.phase is Queue,
            expects(old(self)@, event),
        ensures
            (final(self)@, action) == queue_step(old(self)@, event),
    {
        let op = self.queue[self.next];
        match event {
            RowEvent::CancelChecked { cancelled } => {
                if cancelled {
                    self.stop(Ending::Cancelled, String::new())
                } else {
                    self.advance()
                }
            },
            RowEvent::GateChecked(r) => match r {
                Err(err) => self.stop(Ending::Failed, err.message()),
                Ok(()) => self.advance(),
            },
            RowEvent::Sent(r) => match r {
                Err(err) => self.stop(Ending::Failed, err.message()),
                Ok(()) => self.advance(),
            },
            RowEvent::Waited { cancelled } => {
                if cancelled {
                    self.stop(Ending::Cancelled, String::new())
                } else {
                    self.advance()
                }
            },
            _ => RowAction::Finish,
        }
    }

    /// Takes the answer to the previous action and decides the next one.
    ///
    /// Before every key press and click it looks at the cancellation flag
    /// and asks the safety gate; a cancellation, a refused gate, a failed
    /// event, an unreadable or unexpected selection, a row that does not
    /// fit, or (in the strict mode) a preview that is not green stops the
    /// run, and every stop ends with one `release_all`.
    pub fn step(&mut self, event: RowEvent) -> (action: RowAction)
        requires
            old(self).wf(),
            expects(old(self)@, event),
        ensures
            final(self).wf(),
            (final(self)@, action) == transition(old(self)@, event),
    {
        proof {
            lemma_row_transition_keeps_wf(old(self)@, event);
        }
        match self.phase {
            RowPhase::Idle => {
                let mut q: Vec<Op> = Vec::new();
                q.push(Op::CheckCancel);
                q.push(Op::CheckCancel);
                q.push(Op::Gate);
                assert(q@ =~= seq![Op::CheckCancel, Op::CheckCancel, Op::Gate]);
                self.run_queue(q, Stage::Guarded)
            },
            RowPhase::Queue => self.queue_step(event),
            RowPhase::Anchor => match event {
                RowEvent::Cursor(Err(err)) => self.stop(Ending::Failed, err.message()),
                RowEvent::Cursor(Ok(p)) => {
                    self.anchor = p;
                    match plan_row(p, 1, self.mode, self.target) {
                        Err(re) => self.stop(Ending::Aborted, re.report_detail()),
                        Ok(_) => {
                            let q = vec![Op::Move(p)];
                            assert(q@ =~= seq![Op::Move(p)]);
                            self.run_queue(q, Stage::Parked)
                        },
                    }
                },
                _ => RowAction::Finish,
            },
            RowPhase::Clock => match event {
                RowEvent::Clock { now_ms } => {
                    let timeout: u64 = match self.watch {
                        Watch::Selection(_) => CAPTURE_TIMEOUT_MS,
                        _ => confirm_timeout_ms(self.force),
                    };
                    self.deadline = if now_ms > u64::MAX - timeout {
                        u64::MAX
                    } else {
                        now_ms + timeout
                    };
                    self.phase = RowPhase::Cancel;
                    RowAction::CheckCancel
                },
                _ => RowAction::Finish,
            },
            RowPhase::Cancel => match event {
                RowEvent::CancelChecked { cancelled } => {
                    if cancelled {
                        self.stop(Ending::Cancelled, String::new())
                    } else {
                        self.phase = RowPhase::Capture;
                        RowAction::Capture
                    }
                },
                _ => RowAction::Finish,
            },
            RowPhase::Capture => match event {
                RowEvent::Captured { frame: Err(err), .. } => self.stop(
                    Ending::Failed,
                    err.message(),
                ),
                RowEvent::Captured { frame: Ok(f), now_ms } => self.on_capture(&f, now_ms),
                _ => RowAction::Finish,
            },
            RowPhase::Pause => match event {
                RowEvent::Waited { cancelled } => {
                    if cancelled {
                        self.stop(Ending::Cancelled, String::new())
                    } else {
                        self.phase = RowPhase::Cancel;
                        RowAction::CheckCancel
                    }
                },
                _ => RowAction::Finish,
            },
            RowPhase::Releasing => match event {
                RowEvent::Sent(r) => {
                    let keep = match self.ending {
                        Ending::Failed | Ending::Aborted => true,
                        _ => false,
                    };
                    if !keep {
                        if let Err(err) = r {
                            let mut d = String::from_str("could not release injected input: ");
                            d.append(err.message().as_str());
                            self.ending = Ending::Failed;
                            self.detail = d;
                        }
                    }
                    self.phase = RowPhase::Done;
                    RowAction::Finish
                },
                _ => RowAction::Finish,
            },
            RowPhase::Done => RowAction::Finish,
        }
    }
}

} // verus!
