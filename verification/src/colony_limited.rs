//! The ten-drone cap of the single-row modes.
//!
//! For the two single-row modes, selections of 11 or 12 drones are trimmed to
//! ten by Shift-clicking the last occupied wireframe portraits before the row
//! is built; the compact 6x2 mode uses the full selection (up to all 12).
//! Trimming keeps every rule of the row run: a look at the cancellation flag
//! and the safety gate before each key press and click, a verified count
//! after each removed portrait, and `release_all` on every stop.
use vstd::prelude::*;
use vstd::string::*;

use crate::colony::{planned_row, plan_row, row_error_report, ColonyReport, RowMode, CAPTURE_TIMEOUT_MS};
use crate::colony_run::{
    accepts, accepts_read, action_of, gated, lemma_blocks_are_gated, lemma_gated_concat,
    lemma_row_events_are_gated, lemma_row_transition_keeps_wf, op_action, push_guarded,
    read_string, release_outcome, row_wf, saturating_add, selection_timeout_text,
    shift_click_ops, transition, expects, Expect, Op, RowAction, RowBuilder, RowEvent,
    RowView,
};
use crate::engine::{make_outcome, outcome_is, Ending};
use crate::frame::{Frame, Point};
use crate::input::input_error_text;
use crate::macros::{BuildTarget, Key, Primitive, Timing};
use crate::vision::{detect_selection, selection_of, slot_center, slot_point, SelectionRead};

verus! {

/// Maximum number of selected drones the single-row modes use.
pub const MAX_ROW_BUILD_DRONES: u8 = 10;

/// Where a [`LimitedRowBuilder`] stands.
#[derive(Clone, Copy, Debug, PartialEq, Eq, Structural)]
pub enum TrimPhase {
    /// Not started: waits for [`RowEvent::Start`].
    Idle,
    /// Working through a fixed sequence of [`Op`]s.
    Queue,
    /// Reading the cursor position.
    Anchor,
    /// Capturing the client for the one selection read before trimming.
    Read,
    /// Reading the clock as the wait for a trimmed count starts.
    Clock,
    /// The count wait looks at the cancellation flag.
    Cancel,
    /// The count wait captures the client.
    Capture,
    /// The count wait pauses before the next capture.
    Pause,
    /// Calling the adapter's `release_all` after trimming stopped.
    Releasing,
    /// Trimming stopped and the run is over.
    Done,
    /// Trimming is over; the row run decides.
    Inner,
}

/// What follows the current fixed sequence of the trimming.
#[derive(Clone, Copy, Debug, PartialEq, Eq, Structural)]
pub enum TrimStage {
    /// The opening cancellation checks and safety gate: read the cursor.
    Guarded,
    /// The cursor rests on the anchor: read the selection once.
    Parked,
    /// The safety gate after the read: decide whether to trim.
    Checked,
    /// One portrait was Shift-clicked away: confirm the smaller count.
    Shifted,
    /// The cursor is back on the anchor: start the row run.
    Restored,
}

/// The abstract state of a capped row-build run.
pub ghost struct LimitedView {
    pub timing: Timing,
    pub mode: RowMode,
    pub target: BuildTarget,
    pub phase: TrimPhase,
    pub stage: TrimStage,
    pub queue: Seq<Op>,
    pub next: nat,
    pub anchor: Point,
    /// The selection read before trimming.
    pub read: SelectionRead,
    /// Drones the read reported, once trimming is decided on.
    pub detected: u8,
    /// Drones still selected.
    pub current: u8,
    pub deadline: u64,
    pub ending: Ending,
    pub detail: Seq<char>,
    /// The row run that follows the trimming.
    pub inner: RowView,
}

/// Stopping the trimming: remember how and call `release_all`.
pub open spec fn trim_stop(s: LimitedView, ending: Ending, detail: Seq<char>) -> (
    LimitedView,
    RowAction,
) {
    (LimitedView { phase: TrimPhase::Releasing, ending, detail, ..s }, RowAction::ReleaseAll)
}

/// Starting a fixed sequence of the trimming.
pub open spec fn trim_queue(s: LimitedView, q: Seq<Op>, stage: TrimStage) -> (
    LimitedView,
    RowAction,
) {
    (LimitedView { phase: TrimPhase::Queue, queue: q, next: 0, stage, ..s }, op_action(q[0]))
}

/// One transition of the row run inside a capped run.
#[verifier::opaque]
pub open spec fn inner_step(r: RowView, e: RowEvent) -> (RowView, RowAction) {
    transition(r, e)
}

/// Handing over to the row run, which starts on the spot.
pub open spec fn begin_inner(s: LimitedView) -> (LimitedView, RowAction) {
    let (r, a) = inner_step(s.inner, RowEvent::Start);
    (LimitedView { phase: TrimPhase::Inner, inner: r, ..s }, a)
}

/// Removing the last occupied portrait and moving back onto the anchor.
pub open spec fn shift_ops(s: LimitedView) -> Seq<Op> {
    seq![Op::Move(slot_point(s.current - 1))] + shift_click_ops(s.timing) + seq![
        Op::Move(s.anchor),
    ]
}

/// The next step with `s.current` drones confirmed: trim one more while more
/// than ten remain, else put the cursor back on the anchor.
pub open spec fn trim_more(s: LimitedView) -> (LimitedView, RowAction) {
    if s.current > 10 {
        trim_queue(s, shift_ops(s), TrimStage::Shifted)
    } else {
        trim_queue(s, seq![Op::Move(s.anchor)], TrimStage::Restored)
    }
}

/// What follows a fixed sequence of the trimming.
pub open spec fn trim_resume(s: LimitedView) -> (LimitedView, RowAction) {
    match s.stage {
        TrimStage::Guarded => (LimitedView { phase: TrimPhase::Anchor, ..s }, RowAction::ReadCursor),
        TrimStage::Parked => (LimitedView { phase: TrimPhase::Read, ..s }, RowAction::Capture),
        TrimStage::Checked => match s.read {
            SelectionRead::Drones { count } => if count <= 10 {
                begin_inner(s)
            } else {
                let t = LimitedView { detected: count, ..s };
                match planned_row(s.anchor, 10, s.mode, s.target) {
                    Err(e) => trim_stop(t, Ending::Aborted, row_error_report(e)),
                    Ok(_) => trim_more(LimitedView { current: count, ..t }),
                }
            },
            _ => begin_inner(s),
        },
        TrimStage::Shifted => (
            LimitedView { phase: TrimPhase::Clock, current: (s.current - 1) as u8, ..s },
            RowAction::ReadClock,
        ),
        TrimStage::Restored => begin_inner(s),
    }
}

/// The step in flight succeeded.
pub open spec fn trim_advance(s: LimitedView) -> (LimitedView, RowAction) {
    if s.next + 1 < s.queue.len() {
        (LimitedView { next: s.next + 1, ..s }, op_action(s.queue[s.next + 1 as int]))
    } else {
        trim_resume(s)
    }
}

/// The answer to the step of a fixed sequence in flight.
pub open spec fn trim_queue_step(s: LimitedView, e: RowEvent) -> (LimitedView, RowAction) {
    match (s.queue[s.next as int], e) {
        (Op::CheckCancel, RowEvent::CancelChecked { cancelled }) => if cancelled {
            trim_stop(s, Ending::Cancelled, seq![])
        } else {
            trim_advance(s)
        },
        (Op::Gate, RowEvent::GateChecked(r)) => match r {
            Err(err) => trim_stop(s, Ending::Failed, input_error_text(err)),
            Ok(()) => trim_advance(s),
        },
        (Op::Send(_), RowEvent::Sent(r)) => match r {
            Err(err) => trim_stop(s, Ending::Failed, input_error_text(err)),
            Ok(()) => trim_advance(s),
        },
        (Op::Pause(_), RowEvent::Waited { cancelled }) => if cancelled {
            trim_stop(s, Ending::Cancelled, seq![])
        } else {
            trim_advance(s)
        },
        (Op::Move(_), RowEvent::Sent(r)) => match r {
            Err(err) => trim_stop(s, Ending::Failed, input_error_text(err)),
            Ok(()) => trim_advance(s),
        },
        _ => (s, RowAction::Finish),
    }
}

/// One transition of a capped row-build run.
pub open spec fn limited_transition(s: LimitedView, e: RowEvent) -> (LimitedView, RowAction) {
    match s.phase {
        TrimPhase::Idle => if s.mode == RowMode::Grid6x2 {
            begin_inner(s)
        } else {
            trim_queue(s, seq![Op::CheckCancel, Op::CheckCancel, Op::Gate], TrimStage::Guarded)
        },
        TrimPhase::Queue => trim_queue_step(s, e),
        TrimPhase::Anchor => match e {
            RowEvent::Cursor(Err(err)) => trim_stop(s, Ending::Failed, input_error_text(err)),
            RowEvent::Cursor(Ok(p)) => {
                let t = LimitedView { anchor: p, ..s };
                if planned_row(p, 1, s.mode, s.target) is Err {
                    begin_inner(t)
                } else {
                    trim_queue(t, seq![Op::Move(p)], TrimStage::Parked)
                }
            },
            _ => (s, RowAction::Finish),
        },
        TrimPhase::Read => match e {
            RowEvent::Captured { frame: Err(err), .. } => trim_stop(
                s,
                Ending::Failed,
                input_error_text(err),
            ),
            RowEvent::Captured { frame: Ok(f), .. } => trim_queue(
                LimitedView { read: selection_of(f@), ..s },
                seq![Op::CheckCancel, Op::Gate],
                TrimStage::Checked,
            ),
            _ => (s, RowAction::Finish),
        },
        TrimPhase::Clock => match e {
            RowEvent::Clock { now_ms } => (
                LimitedView {
                    phase: TrimPhase::Cancel,
                    deadline: saturating_add(now_ms, 1500),
                    ..s
                },
                RowAction::CheckCancel,
            ),
            _ => (s, RowAction::Finish),
        },
        TrimPhase::Cancel => match e {
            RowEvent::CancelChecked { cancelled } => if cancelled {
                trim_stop(s, Ending::Cancelled, seq![])
            } else {
                (LimitedView { phase: TrimPhase::Capture, ..s }, RowAction::Capture)
            },
            _ => (s, RowAction::Finish),
        },
        TrimPhase::Capture => match e {
            RowEvent::Captured { frame: Err(err), .. } => trim_stop(
                s,
                Ending::Failed,
                input_error_text(err),
            ),
            RowEvent::Captured { frame: Ok(f), now_ms } => {
                let read = selection_of(f@);
                if accepts(Expect::Count { n: s.current }, read) {
                    trim_more(s)
                } else if now_ms >= s.deadline {
                    trim_stop(s, Ending::Aborted, selection_timeout_text(read))
                } else {
                    (
                        LimitedView { phase: TrimPhase::Pause, ..s },
                        RowAction::Wait { ms: crate::colony_run::poll_ms(s.timing) },
                    )
                }
            },
            _ => (s, RowAction::Finish),
        },
        TrimPhase::Pause => match e {
            RowEvent::Waited { cancelled } => if cancelled {
                trim_stop(s, Ending::Cancelled, seq![])
            } else {
                (LimitedView { phase: TrimPhase::Cancel, ..s }, RowAction::CheckCancel)
            },
            _ => (s, RowAction::Finish),
        },
        TrimPhase::Releasing => match e {
            RowEvent::Sent(r) => {
                let (ending, detail) = release_outcome(s.ending, s.detail, r);
                (LimitedView { phase: TrimPhase::Done, ending, detail, ..s }, RowAction::Finish)
            },
            _ => (s, RowAction::Finish),
        },
        TrimPhase::Done => (s, RowAction::Finish),
        TrimPhase::Inner => {
            let (r, a) = inner_step(s.inner, e);
            (LimitedView { inner: r, ..s }, a)
        },
    }
}

/// The answer a capped run in state `s` waits for.
pub open spec fn limited_expects(s: LimitedView, e: RowEvent) -> bool {
    match s.phase {
        TrimPhase::Idle => e is Start,
        TrimPhase::Queue => match s.queue[s.next as int] {
            Op::CheckCancel => e is CancelChecked,
            Op::Gate => e is GateChecked,
            Op::Send(_) | Op::Move(_) => e is Sent,
            Op::Pause(_) => e is Waited,
        },
        TrimPhase::Anchor => e is Cursor,
        TrimPhase::Read => e is Captured,
        TrimPhase::Clock => e is Clock,
        TrimPhase::Cancel => e is CancelChecked,
        TrimPhase::Capture => e is Captured,
        TrimPhase::Pause => e is Waited,
        TrimPhase::Releasing => e is Sent,
        TrimPhase::Done => false,
        TrimPhase::Inner => expects(s.inner, e),
    }
}

/// The phases of the wait for a trimmed count.
pub open spec fn counting(phase: TrimPhase) -> bool {
    phase is Clock || phase is Cancel || phase is Capture || phase is Pause
}

/// The capped run's standing invariant: before the hand-over the row run is
/// not started yet, afterwards it keeps its own invariant; the 6x2 mode
/// never trims; a fixed sequence is gated; and a portrait is removed only
/// while more than ten drones are selected, so trimming never goes below
/// ten.
pub open spec fn limited_wf(s: LimitedView) -> bool {
    &&& row_wf(s.inner)
    &&& (s.phase is Inner) != (s.inner.phase is Idle)
    &&& (s.mode == RowMode::Grid6x2 && !(s.phase is Idle) ==> s.phase is Inner)
    &&& (s.phase is Queue ==> s.next < s.queue.len() && gated(s.queue))
    &&& (s.phase is Queue && s.stage is Shifted ==> s.current > 10 && s.queue == shift_ops(s))
    &&& (counting(s.phase) ==> s.current >= 10)
}

/// Handing over keeps the invariant.
proof fn lemma_begin_inner_wf(s: LimitedView)
    requires
        row_wf(s.inner),
        s.inner.phase is Idle,
    ensures
        limited_wf(begin_inner(s).0),
        begin_inner(s).1 == RowAction::CheckCancel,
{
    lemma_inner_step_is_transition(s.inner, RowEvent::Start);
    lemma_row_transition_keeps_wf(s.inner, RowEvent::Start);
    crate::colony_run::lemma_row_never_idles_again(s.inner, RowEvent::Start);
}

/// The row run inside a capped run steps as it does alone.
proof fn lemma_inner_step_is_transition(r: RowView, e: RowEvent)
    ensures
        inner_step(r, e) == transition(r, e),
{
    reveal(inner_step);
}

/// A step of the row run inside a capped run keeps the invariant.
proof fn lemma_inner_step_wf(s: LimitedView, e: RowEvent)
    requires
        limited_wf(s),
        s.phase is Inner,
        expects(s.inner, e),
    ensures
        limited_wf(limited_transition(s, e).0),
        limited_transition(s, e).1 is Send ==> s.inner.phase is Queue && s.inner.queue[s.inner.next as int] is Gate
            && (e matches RowEvent::GateChecked(Ok(_))) && s.inner.next >= 1 && s.inner.queue[s.inner.next - 1] is CheckCancel,
{
    lemma_inner_step_is_transition(s.inner, e);
    lemma_row_transition_keeps_wf(s.inner, e);
    crate::colony_run::lemma_row_never_idles_again(s.inner, e);
    if transition(s.inner, e).1 is Send {
        lemma_row_events_are_gated(s.inner, e);
    }
}

/// Trimming one more portrait, or restoring the cursor, keeps the
/// invariant.
proof fn lemma_trim_more_wf(s: LimitedView)
    requires
        limited_wf(s),
        !(s.phase is Inner),
        s.mode != RowMode::Grid6x2,
        s.current >= 10,
    ensures
        limited_wf(trim_more(s).0),
{
    lemma_blocks_are_gated(s.timing, s.target, Key::Nine, Key::Control, s.anchor);
    lemma_gated_concat(seq![Op::Move(slot_point(s.current - 1))], shift_click_ops(s.timing));
    lemma_gated_concat(
        seq![Op::Move(slot_point(s.current - 1))] + shift_click_ops(s.timing),
        seq![Op::Move(s.anchor)],
    );
}

/// What follows a fixed sequence of the trimming keeps the invariant.
proof fn lemma_trim_resume_wf(s: LimitedView)
    requires
        limited_wf(s),
        s.phase is Queue,
    ensures
        limited_wf(trim_resume(s).0),
{
    match s.stage {
        TrimStage::Checked => {
            lemma_begin_inner_wf(s);
            if let SelectionRead::Drones { count } = s.read {
                if count > 10 {
                    let t = LimitedView { detected: count, current: count, ..s };
                    lemma_trim_more_wf(t);
                }
            }
        },
        TrimStage::Restored => lemma_begin_inner_wf(s),
        _ => {},
    }
}

/// Every transition keeps the capped run's invariant.
pub proof fn lemma_limited_transition_keeps_wf(s: LimitedView, e: RowEvent)
    requires
        limited_wf(s),
        limited_expects(s, e),
    ensures
        limited_wf(limited_transition(s, e).0),
{
    match s.phase {
        TrimPhase::Inner => lemma_inner_step_wf(s, e),
        TrimPhase::Idle => {
            lemma_begin_inner_wf(s);
            lemma_blocks_are_gated(s.timing, s.target, Key::Nine, Key::Control, s.anchor);
        },
        TrimPhase::Queue => {
            if !(s.next + 1 < s.queue.len()) {
                lemma_trim_resume_wf(s);
            }
        },
        TrimPhase::Anchor => {
            if let RowEvent::Cursor(Ok(p)) = e {
                lemma_begin_inner_wf(LimitedView { anchor: p, ..s });
                lemma_blocks_are_gated(s.timing, s.target, Key::Nine, Key::Control, p);
            }
        },
        TrimPhase::Read => {
            let two = seq![Op::CheckCancel, Op::Gate];
            assert forall|j: int| 0 <= j < two.len() && (#[trigger] two[j]) is Send implies 2 <= j
                && two[j - 1] is Gate && two[j - 2] is CheckCancel by {
                assert(!(two[j] is Send));
            }
        },
        TrimPhase::Capture => {
            lemma_trim_more_wf(s);
        },
        _ => {},
    }
}

/// The 6x2 mode hands over to the row run at once, without reading or
/// trimming anything.
pub proof fn lemma_grid_mode_is_never_trimmed(s: LimitedView, e: RowEvent)
    requires
        limited_wf(s),
        limited_expects(s, e),
        s.mode == RowMode::Grid6x2,
    ensures
        limited_transition(s, e).0.phase is Inner,
{
}

/// A portrait is Shift-clicked away only while more than ten drones are
/// selected: the sequence that removes one starts with the cursor on the
/// last occupied portrait of a selection of more than ten.
pub proof fn lemma_trimming_stops_at_ten(s: LimitedView, e: RowEvent)
    requires
        limited_wf(s),
        limited_expects(s, e),
        limited_transition(s, e).0.phase is Queue,
        limited_transition(s, e).0.stage is Shifted,
    ensures
        limited_transition(s, e).0.current > 10,
        limited_transition(s, e).0.queue[0] == Op::Move(slot_point(
            limited_transition(s, e).0.current - 1,
        )),
{
    lemma_limited_transition_keeps_wf(s, e);
}

/// Whenever a capped run asks to send a key or button event, the answer it
/// just received is a successful safety check, and the step before that
/// check looked at the cancellation flag.
pub proof fn lemma_limited_events_are_gated(s: LimitedView, e: RowEvent)
    requires
        limited_wf(s),
        limited_expects(s, e),
        limited_transition(s, e).1 is Send,
    ensures
        e matches RowEvent::GateChecked(Ok(_)),
        !(s.phase is Inner) ==> s.phase is Queue && s.queue[s.next as int] is Gate && s.next >= 1
            && s.queue[s.next - 1] is CheckCancel,
        s.phase is Inner ==> s.inner.phase is Queue && s.inner.queue[s.inner.next as int] is Gate
            && s.inner.next >= 1 && s.inner.queue[s.inner.next - 1] is CheckCancel,
{
    if s.phase is Inner {
        lemma_inner_step_wf(s, e);
    } else {
        lemma_limited_transition_keeps_wf(s, e);
        lemma_begin_inner_wf(s);
        if let RowEvent::Cursor(Ok(p)) = e {
            lemma_begin_inner_wf(LimitedView { anchor: p, ..s });
        }
        assert(s.phase is Queue);
        assert(s.next + 1 < s.queue.len());
        assert(s.queue[s.next + 1 as int] is Send);
    }
}


/// Remove the portrait of `slot` and move back onto `anchor`.
fn shift_queue(slot: Point, anchor: Point, t: Timing) -> (q: Vec<Op>)
    ensures
        q@ == seq![Op::Move(slot)] + shift_click_ops(t) + seq![Op::Move(anchor)],
{
    let mut q: Vec<Op> = Vec::new();
    q.push(Op::Move(slot));
    push_guarded(&mut q, Primitive::KeyDown(Key::Shift), t.press_ms);
    push_guarded(&mut q, Primitive::MouseLeftDown, t.press_ms);
    push_guarded(&mut q, Primitive::MouseLeftUp, t.gap_ms);
    push_guarded(&mut q, Primitive::KeyUp(Key::Shift), t.gap_ms);
    q.push(Op::Move(anchor));
    assert(q@ =~= seq![Op::Move(slot)] + shift_click_ops(t) + seq![Op::Move(anchor)]);
    q
}

/// A row-build run that first trims a selection of more than ten drones to
/// ten in the single-row modes, then builds the row like [`RowBuilder`].
///
/// It is driven exactly like a [`RowBuilder`]: start it with
/// [`RowEvent::Start`], perform each [`RowAction`], hand back what happened,
/// and read [`LimitedRowBuilder::report`] after [`RowAction::Finish`].
pub struct LimitedRowBuilder {
    timing: Timing,
    mode: RowMode,
    target: BuildTarget,
    phase: TrimPhase,
    stage: TrimStage,
    queue: Vec<Op>,
    next: usize,
    anchor: Point,
    read: SelectionRead,
    detected: u8,
    current: u8,
    deadline: u64,
    ending: Ending,
    detail: String,
    inner: RowBuilder,
}

impl View for LimitedRowBuilder {
    type V = LimitedView;

    closed spec fn view(&self) -> LimitedView {
        LimitedView {
            timing: self.timing,
            mode: self.mode,
            target: self.target,
            phase: self.phase,
            stage: self.stage,
            queue: self.queue@,
            next: self.next as nat,
            anchor: self.anchor,
            read: self.read,
            detected: self.detected,
            current: self.current,
            deadline: self.deadline,
            ending: self.ending,
            detail: self.detail@,
            inner: self.inner@,
        }
    }
}

impl LimitedRowBuilder {
    /// The capped run's standing invariant.
    pub open spec fn wf(&self) -> bool {
        limited_wf(self@)
    }

    /// A capped run that builds a row of `target` in `mode`, not started
    /// yet; `force` clicks even without a confirmed green preview.
    pub fn new(timing: Timing, mode: RowMode, target: BuildTarget, force: bool) -> (run: Self)
        ensures
            run.wf(),
            run@.timing == timing,
            run@.mode == mode,
            run@.target == target,
            run@.phase is Idle,
            run@.detected == 0,
            run@.inner.timing == timing,
            run@.inner.mode == mode,
            run@.inner.target == target,
            run@.inner.force == force,
    {
        LimitedRowBuilder {
            timing,
            mode,
            target,
            phase: TrimPhase::Idle,
            stage: TrimStage::Guarded,
            queue: Vec::new(),
            next: 0,
            anchor: Point::new(0, 0),
            read: SelectionRead::SingleDrone,
            detected: 0,
            current: 0,
            deadline: 0,
            ending: Ending::Completed,
            detail: String::new(),
            inner: RowBuilder::new(timing, mode, target, force),
        }
    }

    /// Where the capped run stands.
    pub fn phase(&self) -> (phase: TrimPhase)
        ensures
            phase == self@.phase,
    {
        self.phase
    }

    /// Whether `event` is the answer the capped run waits for.
    pub fn expects(&self, event: &RowEvent) -> (yes: bool)
        requires
            self.wf(),
        ensures
            yes == limited_expects(self@, *event),
    {
        match self.phase {
            TrimPhase::Idle => matches!(event, RowEvent::Start),
            TrimPhase::Queue => match self.queue[self.next] {
                Op::CheckCancel => matches!(event, RowEvent::CancelChecked { .. }),
                Op::Gate => matches!(event, RowEvent::GateChecked(_)),
                Op::Send(_) | Op::Move(_) => matches!(event, RowEvent::Sent(_)),
                Op::Pause(_) => matches!(event, RowEvent::Waited { .. }),
            },
            TrimPhase::Anchor => matches!(event, RowEvent::Cursor(_)),
            TrimPhase::Read => matches!(event, RowEvent::Captured { .. }),
            TrimPhase::Clock => matches!(event, RowEvent::Clock { .. }),
            TrimPhase::Cancel => matches!(event, RowEvent::CancelChecked { .. }),
            TrimPhase::Capture => matches!(event, RowEvent::Captured { .. }),
            TrimPhase::Pause => matches!(event, RowEvent::Waited { .. }),
            TrimPhase::Releasing => matches!(event, RowEvent::Sent(_)),
            TrimPhase::Done => false,
            TrimPhase::Inner => self.inner.expects(event),
        }
    }

    /// How the capped run ended: the row run's report once it took over,
    /// else the trimming's stop with no order and the detected count.
    pub fn report(&self) -> (report: ColonyReport)
        ensures
            self@.phase is Inner ==> outcome_is(report.outcome, self@.inner.ending, self@.inner.detail)
                && report.target == self@.inner.target && report.orders_issued == self@.inner.issued
                && report.detected == self@.inner.detected && report.unconfirmed
                == self@.inner.unconfirmed,
            !(self@.phase is Inner) ==> outcome_is(report.outcome, self@.ending, self@.detail)
                && report.target == self@.target && report.orders_issued == 0 && report.detected
                == self@.detected && report.unconfirmed == 0,
    {
        match self.phase {
            TrimPhase::Inner => self.inner.report(),
            _ => ColonyReport {
                outcome: make_outcome(self.ending, self.detail.clone()),
                target: self.target,
                orders_issued: 0,
                detected: self.detected,
                unconfirmed: 0,
            },
        }
    }

    fn trim_stop(&mut self, ending: Ending, detail: String) -> (action: RowAction)
        ensures
            (final(self)@, action) == trim_stop(old(self)@, ending, detail@),
    {
        self.phase = TrimPhase::Releasing;
        self.ending = ending;
        self.detail = detail;
        RowAction::ReleaseAll
    }

    fn trim_queue(&mut self, q: Vec<Op>, stage: TrimStage) -> (action: RowAction)
        requires
            q@.len() > 0,
        ensures
            (final(self)@, action) == trim_queue(old(self)@, q@, stage),
    {
        let first = q[0];
        self.phase = TrimPhase::Queue;
        self.queue = q;
        self.next = 0;
        self.stage = stage;
        action_of(first)
    }

    fn begin_inner(&mut self) -> (action: RowAction)
        requires
            row_wf(old(self)@.inner),
            old(self)@.inner.phase is Idle,
        ensures
            (final(self)@, action) == begin_inner(old(self)@),
    {
        proof {
            lemma_inner_step_is_transition(old(self)@.inner, RowEvent::Start);
        }
        self.phase = TrimPhase::Inner;
        self.inner.step(RowEvent::Start)
    }

    fn trim_more(&mut self) -> (action: RowAction)
        requires
            old(self)@.current >= 1,
        ensures
            (final(self)@, action) == trim_more(old(self)@),
    {
        if self.current > MAX_ROW_BUILD_DRONES {
            let q = shift_queue(slot_center(self.current - 1), self.anchor, self.timing);
            self.trim_queue(q, TrimStage::Shifted)
        } else {
            let a = self.anchor;
            let q = vec![Op::Move(a)];
            assert(q@ =~= seq![Op::Move(a)]);
            self.trim_queue(q, TrimStage::Restored)
        }
    }

    fn trim_resume(&mut self) -> (action: RowAction)
        requires
            limited_wf(old(self)@),
            old(self)@.phase is Queue,
        ensures
            (final(self)@, action) == trim_resume(old(self)@),
    {
        match self.stage {
            TrimStage::Guarded => {
                self.phase = TrimPhase::Anchor;
                RowAction::ReadCursor
            },
            TrimStage::Parked => {
                self.phase = TrimPhase::Read;
                RowAction::Capture
            },
            TrimStage::Checked => match self.read {
                SelectionRead::Drones { count } => {
                    if count <= MAX_ROW_BUILD_DRONES {
                        self.begin_inner()
                    } else {
                        self.detected = count;
                        match plan_row(self.anchor, MAX_ROW_BUILD_DRONES, self.mode, self.target) {
                            Err(e) => self.trim_stop(Ending::Aborted, e.report_detail()),
                            Ok(_) => {
                                self.current = count;
                                self.trim_more()
                            },
                        }
                    }
                },
                _ => self.begin_inner(),
            },
            TrimStage::Shifted => {
                self.current = self.current - 1;
                self.phase = TrimPhase::Clock;
                RowAction::ReadClock
            },
            TrimStage::Restored => self.begin_inner(),
        }
    }

    fn trim_advance(&mut self) -> (action: RowAction)
        requires
            limited_wf(old(self)@),
            old(self)@.phase is Queue,
        ensures
            (final(self)@, action) == trim_advance(old(self)@),
    {
        if self.next < self.queue.len() - 1 {
            self.next = self.next + 1;
            action_of(self.queue[self.next])
        } else {
            self.trim_resume()
        }
    }

    fn trim_queue_step(&mut self, event: RowEvent) -> (action: RowAction)
        requires
            limited_wf(old(self)@),
            old(self)@.phase is Queue,
            limited_expects(old(self)@, event),
        ensures
            (final(self)@, action) == trim_queue_step(old(self)@, event),
    {
        match event {
            RowEvent::CancelChecked { cancelled } => {
                if cancelled {
                    self.trim_stop(Ending::Cancelled, String::new())
                } else {
                    self.trim_advance()
                }
            },
            RowEvent::GateChecked(r) => match r {
                Err(err) => self.trim_stop(Ending::Failed, err.message()),
                Ok(()) => self.trim_advance(),
            },
            RowEvent::Sent(r) => match r {
                Err(err) => self.trim_stop(Ending::Failed, err.message()),
                Ok(()) => self.trim_advance(),
            },
            RowEvent::Waited { cancelled } => {
                if cancelled {
                    self.trim_stop(Ending::Cancelled, String::new())
                } else {
                    self.trim_advance()
                }
            },
            _ => RowAction::Finish,
        }
    }

    fn on_count(&mut self, frame: &Frame, now: u64) -> (action: RowAction)
        requires
            limited_wf(old(self)@),
            old(self)@.phase is Capture,
        ensures
            (final(self)@, action) == limited_transition(
                old(self)@,
                RowEvent::Captured { frame: Ok(*frame), now_ms: now },
            ),
    {
        let read = detect_selection(frame);
        if accepts_read(Expect::Count { n: self.current }, read) {
            self.trim_more()
        } else if now >= self.deadline {
            let mut d = String::from_str(
                "the selection HUD did not reach the expected state in time (last read: ",
            );
            d.append(read_string(read).as_str());
            d.append(")");
            self.trim_stop(Ending::Aborted, d)
        } else {
            self.phase = TrimPhase::Pause;
            RowAction::Wait { ms: crate::colony::ui_poll_ms(self.timing.gap_ms) }
        }
    }

    /// Takes the answer to the previous action and decides the next one.
    pub fn step(&mut self, event: RowEvent) -> (action: RowAction)
        requires
            old(self).wf(),
            limited_expects(old(self)@, event),
        ensures
            final(self).wf(),
            (final(self)@, action) == limited_transition(old(self)@, event),
    {
        proof {
            lemma_limited_transition_keeps_wf(old(self)@, event);
        }
        match self.phase {
            TrimPhase::Idle => {
                if self.mode == RowMode::Grid6x2 {
                    self.begin_inner()
                } else {
                    let mut q: Vec<Op> = Vec::new();
                    q.push(Op::CheckCancel);
                    q.push(Op::CheckCancel);
                    q.push(Op::Gate);
                    assert(q@ =~= seq![Op::CheckCancel, Op::CheckCancel, Op::Gate]);
                    self.trim_queue(q, TrimStage::Guarded)
                }
            },
            TrimPhase::Queue => self.trim_queue_step(event),
            TrimPhase::Anchor => match event {
                RowEvent::Cursor(Err(err)) => self.trim_stop(Ending::Failed, err.message()),
                RowEvent::Cursor(Ok(p)) => {
                    self.anchor = p;
                    match plan_row(p, 1, self.mode, self.target) {
                        Err(_) => self.begin_inner(),
                        Ok(_) => {
                            let q = vec![Op::Move(p)];
                            assert(q@ =~= seq![Op::Move(p)]);
                            self.trim_queue(q, TrimStage::Parked)
                        },
                    }
                },
                _ => RowAction::Finish,
            },
            TrimPhase::Read => match event {
                RowEvent::Captured { frame: Err(err), .. } => self.trim_stop(
                    Ending::Failed,
                    err.message(),
                ),
                RowEvent::Captured { frame: Ok(f), .. } => {
                    self.read = detect_selection(&f);
                    let mut q: Vec<Op> = Vec::new();
                    q.push(Op::CheckCancel);
                    q.push(Op::Gate);
                    assert(q@ =~= seq![Op::CheckCancel, Op::Gate]);
                    self.trim_queue(q, TrimStage::Checked)
                },
                _ => RowAction::Finish,
            },
            TrimPhase::Clock => match event {
                RowEvent::Clock { now_ms } => {
                    self.deadline = if now_ms > u64::MAX - CAPTURE_TIMEOUT_MS {
                        u64::MAX
                    } else {
                        now_ms + CAPTURE_TIMEOUT_MS
                    };
                    self.phase = TrimPhase::Cancel;
                    RowAction::CheckCancel
                },
                _ => RowAction::Finish,
            },
            TrimPhase::Cancel => match event {
                RowEvent::CancelChecked { cancelled } => {
                    if cancelled {
                        self.trim_stop(Ending::Cancelled, String::new())
                    } else {
                        self.phase = TrimPhase::Capture;
                        RowAction::Capture
                    }
                },
                _ => RowAction::Finish,
            },
            TrimPhase::Capture => match event {
                RowEvent::Captured { frame: Err(err), .. } => self.trim_stop(
                    Ending::Failed,
                    err.message(),
                ),
                RowEvent::Captured { frame: Ok(f), now_ms } => self.on_count(&f, now_ms),
                _ => RowAction::Finish,
            },
            TrimPhase::Pause => match event {
                RowEvent::Waited { cancelled } => {
                    if cancelled {
                        self.trim_stop(Ending::Cancelled, String::new())
                    } else {
                        self.phase = TrimPhase::Cancel;
                        RowAction::CheckCancel
                    }
                },
                _ => RowAction::Finish,
            },
            TrimPhase::Releasing => match event {
                RowEvent::Sent(r) => {
                    let keep = match self.ending {
                        Ending::Failed | Ending::Aborted => true,
                        _ => false,
                    };
                    if !keep {
                        if let Err(err) = r {
                            let mut d = String::from_str("could not release injected input: ");
                            d.append(err.message().as_str());
                            self.ending = Ending::Failed;
                            self.detail = d;
                        }
                    }
                    self.phase = TrimPhase::Done;
                    RowAction::Finish
                },
                _ => RowAction::Finish,
            },
            TrimPhase::Done => RowAction::Finish,
            TrimPhase::Inner => {
                proof {
                    lemma_inner_step_is_transition(old(self)@.inner, event);
                }
                self.inner.step(event)
            },
        }
    }
}

} // verus!
