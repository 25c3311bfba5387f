//! The macro executor.
//!
//! A run walks a [`crate::macros::plan`], asks the adapter's safety gate
//! before every single event, stops on cancellation, and releases every key
//! or button it pressed. The decisions are the state machine [`Executor`];
//! the application drives it, performs each [`Action`] and hands back what
//! happened as an [`Event`].
use vstd::prelude::*;
use vstd::string::*;

use crate::input::{input_error_text, InputError};
use crate::macros::{describe_text, plan, plan_steps, Key, MacroId, PlannedStep, Primitive, Timing};
use crate::text::{decimal, decimal_text};

verus! {

/// How a run ended.
#[derive(Clone, Debug, PartialEq, Eq)]
pub enum Outcome {
    /// All events were delivered and the configured delays elapsed.
    Completed,
    /// Cancelled before the next event (disarm, F8, shutdown).
    Cancelled,
    /// The safety gate refused to inject; nothing further was sent.
    Aborted { detail: String },
    /// The OS rejected an event, the run stopped there.
    Failed { detail: String },
}

/// What happened during one run, ready to be logged or displayed.
#[derive(Clone, Debug, PartialEq, Eq)]
pub struct RunReport {
    pub macro_id: MacroId,
    pub outcome: Outcome,
    /// Number of primitives the OS accepted.
    pub steps_done: usize,
    /// Number of primitives in the plan.
    pub steps_total: usize,
    /// Orders issued with the forced mode although the placement preview
    /// could not be confirmed. The plan-based engine always leaves this at 0.
    pub unconfirmed: usize,
}

impl RunReport {
    /// A report for a run that never got to execute its plan.
    pub fn failed(macro_id: MacroId, detail: &str) -> (report: Self)
        ensures
            report.macro_id == macro_id,
            report.outcome matches Outcome::Failed { detail: d } && d@ == detail@,
            report.steps_done == 0,
            report.steps_total == 0,
            report.unconfirmed == 0,
    {
        RunReport {
            macro_id,
            outcome: Outcome::Failed { detail: String::from_str(detail) },
            steps_done: 0,
            steps_total: 0,
            unconfirmed: 0,
        }
    }
}


/// Where an [`Executor`] stands.
#[derive(Clone, Copy, Debug, PartialEq, Eq, Structural)]
pub enum Phase {
    /// Not started: waits for [`Event::Start`].
    Idle,
    /// Asked whether the run was cancelled, before the safety gate.
    CancelBeforeGate,
    /// Asked the safety gate.
    Gate,
    /// Asked whether the run was cancelled while the safety check ran.
    CancelAfterGate,
    /// Asked to send the current step's event.
    Sending,
    /// Asked to wait the current step's delay.
    Waiting,
    /// Releasing the keys that were still held when the run stopped.
    Releasing,
    /// Releasing the left mouse button.
    ReleasingMouse,
    /// Asked for the adapter's closing `release_all`.
    ReleasingAll,
    /// The run is over; [`Executor::report`] tells how it ended.
    Done,
}

/// How a run ended, without its detail text.
#[derive(Clone, Copy, Debug, PartialEq, Eq, Structural)]
pub enum Ending {
    Completed,
    Cancelled,
    Aborted,
    Failed,
}

/// What the executor asks the application to do next.
#[derive(Clone, Copy, Debug, PartialEq, Eq, Structural)]
pub enum Action {
    /// Read the cancellation flag; answer [`Event::CancelChecked`].
    CheckCancel,
    /// Run the adapter's safety gate; answer [`Event::GateChecked`].
    SafetyCheck,
    /// Inject this event; answer [`Event::Sent`].
    Send(Primitive),
    /// Wait this long, polling the cancellation flag; answer [`Event::Waited`].
    Wait { ms: u64 },
    /// Inject this release even though the run stopped (never gated); answer
    /// [`Event::Sent`].
    Release(Primitive),
    /// Call the adapter's `release_all`; answer [`Event::Sent`].
    ReleaseAll,
    /// The run is over.
    Finish,
}

/// What the application saw when it did what the executor asked.
#[derive(Debug, PartialEq, Eq)]
pub enum Event {
    /// Begin the run.
    Start,
    /// Whether cancellation was requested.
    CancelChecked { cancelled: bool },
    /// The safety gate's answer.
    GateChecked(Result<(), InputError>),
    /// The adapter's answer to an injected event or a release.
    Sent(Result<(), InputError>),
    /// Whether cancellation cut the wait short.
    Waited { cancelled: bool },
}

/// The abstract state of an executor.
pub ghost struct ExecutorView {
    pub macro_id: MacroId,
    pub timing: Timing,
    pub steps: Seq<PlannedStep>,
    pub phase: Phase,
    /// The step being worked on.
    pub index: nat,
    /// Keys this run pressed and has not released, oldest first.
    pub held: Seq<Key>,
    /// The left button is pressed by this run.
    pub mouse_left: bool,
    /// Events the adapter accepted.
    pub steps_done: nat,
    /// How the run stopped, once it did.
    pub ending: Ending,
    pub detail: Seq<char>,
    /// The first release failure.
    pub release_error: Option<Seq<char>>,
    /// Keys still to release after a stop.
    pub to_release: Seq<Key>,
}

/// `held` without `k`.
pub open spec fn without_key(held: Seq<Key>, k: Key) -> Seq<Key>
    decreases held.len(),
{
    if held.len() == 0 {
        held
    } else {
        let rest = without_key(held.drop_last(), k);
        if held.last() == k {
            rest
        } else {
            rest.push(held.last())
        }
    }
}

/// The keys held after the adapter accepted `p`.
pub open spec fn keys_after(held: Seq<Key>, p: Primitive) -> Seq<Key> {
    match p {
        Primitive::KeyDown(k) => if held.contains(k) {
            held
        } else {
            held.push(k)
        },
        Primitive::KeyUp(k) => without_key(held, k),
        _ => held,
    }
}

/// Whether the left button is held after the adapter accepted `p`.
pub open spec fn mouse_after(mouse: bool, p: Primitive) -> bool {
    match p {
        Primitive::MouseLeftDown => true,
        Primitive::MouseLeftUp => false,
        _ => mouse,
    }
}

/// The keys held after the adapter accepted every event of `events`.
pub open spec fn held_after(events: Seq<Primitive>) -> Seq<Key>
    decreases events.len(),
{
    if events.len() == 0 {
        seq![]
    } else {
        keys_after(held_after(events.drop_last()), events.last())
    }
}

/// Whether the left button is held after the adapter accepted `events`.
pub open spec fn mouse_held_after(events: Seq<Primitive>) -> bool
    decreases events.len(),
{
    if events.len() == 0 {
        false
    } else {
        mouse_after(mouse_held_after(events.drop_last()), events.last())
    }
}

/// The primitives of a plan.
pub open spec fn primitives(steps: Seq<PlannedStep>) -> Seq<Primitive> {
    steps.map_values(|step: PlannedStep| step.primitive)
}

/// The ending and detail of an input error: a refused safety gate is an
/// expected, handled stop; a rejected event is a failure.
pub open spec fn error_ending(e: InputError) -> Ending {
    match e {
        InputError::Unsafe(_) => Ending::Aborted,
        InputError::Injection(_) => Ending::Failed,
    }
}

/// The detail of a rejected event: which step of how many, and what it was.
pub open spec fn send_failure_text(e: InputError, index: nat, total: nat, p: Primitive) -> Seq<char> {
    input_error_text(e) + " while sending step "@ + decimal_text(index + 1) + "/"@ + decimal_text(
        total,
    ) + " ("@ + describe_text(p) + ")"@
}

/// The next release after a stop: each remaining key, then the left button,
/// then the adapter's `release_all`.
pub open spec fn release_next(s: ExecutorView) -> (ExecutorView, Action) {
    if s.to_release.len() > 0 {
        (ExecutorView { phase: Phase::Releasing, ..s }, Action::Release(Primitive::KeyUp(s.to_release[0])))
    } else if s.mouse_left {
        (
            ExecutorView { phase: Phase::ReleasingMouse, mouse_left: false, ..s },
            Action::Release(Primitive::MouseLeftUp),
        )
    } else {
        (ExecutorView { phase: Phase::ReleasingAll, ..s }, Action::ReleaseAll)
    }
}

/// Stopping the run: remember how it ended and start releasing what it holds.
pub open spec fn stop(s: ExecutorView, ending: Ending, detail: Seq<char>) -> (ExecutorView, Action) {
    release_next(
        ExecutorView {
            ending,
            detail,
            to_release: s.held,
            held: seq![],
            release_error: None,
            ..s
        },
    )
}

/// Keeps the first release failure.
pub open spec fn note_release(s: ExecutorView, r: Result<(), InputError>) -> ExecutorView {
    match r {
        Err(e) => if s.release_error is None {
            ExecutorView { release_error: Some(input_error_text(e)), ..s }
        } else {
            s
        },
        Ok(()) => s,
    }
}

/// Starts step `index`, or ends the run when the plan is exhausted.
pub open spec fn begin_step(s: ExecutorView, index: nat) -> (ExecutorView, Action) {
    if index < s.steps.len() {
        (ExecutorView { phase: Phase::CancelBeforeGate, index, ..s }, Action::CheckCancel)
    } else {
        stop(ExecutorView { index, ..s }, Ending::Completed, seq![])
    }
}

/// The event an executor in phase `phase` waits for.
pub open spec fn expects(phase: Phase, e: Event) -> bool {
    match phase {
        Phase::Idle => e is Start,
        Phase::CancelBeforeGate | Phase::CancelAfterGate => e is CancelChecked,
        Phase::Gate => e is GateChecked,
        Phase::Sending | Phase::Releasing | Phase::ReleasingMouse | Phase::ReleasingAll => e is Sent,
        Phase::Waiting => e is Waited,
        Phase::Done => false,
    }
}

/// One transition of the executor.
pub open spec fn transition(s: ExecutorView, e: Event) -> (ExecutorView, Action) {
    match (s.phase, e) {
        (Phase::Idle, _) => begin_step(s, 0),
        (Phase::CancelBeforeGate, Event::CancelChecked { cancelled }) => if cancelled {
            stop(s, Ending::Cancelled, seq![])
        } else {
            (ExecutorView { phase: Phase::Gate, ..s }, Action::SafetyCheck)
        },
        (Phase::Gate, Event::GateChecked(r)) => match r {
            Ok(()) => (ExecutorView { phase: Phase::CancelAfterGate, ..s }, Action::CheckCancel),
            Err(err) => stop(s, error_ending(err), input_error_text(err)),
        },
        (Phase::CancelAfterGate, Event::CancelChecked { cancelled }) => if cancelled {
            stop(s, Ending::Cancelled, seq![])
        } else {
            (ExecutorView { phase: Phase::Sending, ..s }, Action::Send(s.steps[s.index as int].primitive))
        },
        (Phase::Sending, Event::Sent(r)) => {
            let step = s.steps[s.index as int];
            match r {
                Ok(()) => (
                    ExecutorView {
                        phase: Phase::Waiting,
                        held: keys_after(s.held, step.primitive),
                        mouse_left: mouse_after(s.mouse_left, step.primitive),
                        steps_done: s.steps_done + 1,
                        ..s
                    },
                    Action::Wait { ms: step.delay_after_ms },
                ),
                Err(err) => stop(
                    s,
                    error_ending(err),
                    send_failure_text(err, s.index, s.steps.len(), step.primitive),
                ),
            }
        },
        (Phase::Waiting, Event::Waited { cancelled }) => if cancelled {
            stop(s, Ending::Cancelled, seq![])
        } else {
            begin_step(s, s.index + 1)
        },
        (Phase::Releasing, Event::Sent(r)) => release_next(
            note_release(ExecutorView { to_release: s.to_release.drop_first(), ..s }, r),
        ),
        (Phase::ReleasingMouse, Event::Sent(r)) => (
            ExecutorView { phase: Phase::ReleasingAll, ..note_release(s, r) },
            Action::ReleaseAll,
        ),
        (Phase::ReleasingAll, Event::Sent(r)) => (
            ExecutorView { phase: Phase::Done, ..note_release(s, r) },
            Action::Finish,
        ),
        _ => (s, Action::Finish),
    }
}

/// The ending and detail of a finished run: a release failure turns a
/// completed or cancelled run into a failure and is appended to any other
/// stop's detail.
pub open spec fn final_outcome(s: ExecutorView) -> (Ending, Seq<char>) {
    match s.release_error {
        None => (s.ending, s.detail),
        Some(r) => match s.ending {
            Ending::Completed | Ending::Cancelled => (
                Ending::Failed,
                "could not release injected input: "@ + r,
            ),
            _ => (s.ending, s.detail + "; release also failed: "@ + r),
        },
    }
}

/// An outcome value of the given ending and detail.
pub open spec fn outcome_is(o: Outcome, ending: Ending, detail: Seq<char>) -> bool {
    match ending {
        Ending::Completed => o is Completed,
        Ending::Cancelled => o is Cancelled,
        Ending::Aborted => o matches Outcome::Aborted { detail: d } && d@ == detail,
        Ending::Failed => o matches Outcome::Failed { detail: d } && d@ == detail,
    }
}

/// The running phases, in which the plan is being worked through.
pub open spec fn running(phase: Phase) -> bool {
    phase is CancelBeforeGate || phase is Gate || phase is CancelAfterGate || phase is Sending
        || phase is Waiting
}

/// The executor's standing invariant: the plan is the macro's plan, the
/// counters agree with the phase, and what it holds is exactly what the
/// accepted events pressed and did not release.
pub open spec fn executor_wf(s: ExecutorView) -> bool {
    &&& s.steps == plan_steps(s.macro_id, s.timing)
    &&& s.index <= s.steps.len()
    &&& s.steps_done <= s.steps.len()
    &&& (s.phase is Idle ==> s.index == 0 && s.steps_done == 0 && s.held.len() == 0 && !s.mouse_left)
    &&& (running(s.phase) ==> s.index < s.steps.len())
    &&& (running(s.phase) && !(s.phase is Waiting) ==> s.steps_done == s.index)
    &&& (s.phase is Waiting ==> s.steps_done == s.index + 1)
    &&& (s.phase is Releasing ==> s.to_release.len() > 0)
    &&& (running(s.phase) ==> s.held == held_after(primitives(s.steps).take(s.steps_done as int))
        && s.mouse_left == mouse_held_after(primitives(s.steps).take(s.steps_done as int)))
}


/// The held keys after one more accepted event of the plan.
proof fn lemma_held_after_step(steps: Seq<PlannedStep>, n: int)
    requires
        0 <= n < steps.len(),
    ensures
        held_after(primitives(steps).take(n + 1)) == keys_after(
            held_after(primitives(steps).take(n)),
            steps[n].primitive,
        ),
        mouse_held_after(primitives(steps).take(n + 1)) == mouse_after(
            mouse_held_after(primitives(steps).take(n)),
            steps[n].primitive,
        ),
{
    assert(primitives(steps).take(n + 1).drop_last() =~= primitives(steps).take(n));
}

/// Every transition keeps the executor's invariant.
pub proof fn lemma_transition_keeps_wf(s: ExecutorView, e: Event)
    requires
        executor_wf(s),
        expects(s.phase, e),
    ensures
        executor_wf(transition(s, e).0),
{
    if s.phase is Sending && e matches Event::Sent(Ok(())) {
        lemma_held_after_step(s.steps, s.steps_done as int);
    }
    if s.phase is Idle {
        assert(primitives(s.steps).take(0) =~= Seq::<Primitive>::empty());
        assert(s.held =~= Seq::<Key>::empty());
        assert(s.steps.len() == 6);
    }
    if s.phase is Waiting {
        assert(executor_wf(transition(s, e).0));
    }
    if s.phase is Releasing {
        assert(executor_wf(transition(s, e).0));
    }
}

/// An event is injected only right after the safety gate passed and a fresh
/// look at the cancellation flag found none, and it is the plan's next event.
pub proof fn lemma_events_are_gated(s: ExecutorView, e: Event)
    requires
        executor_wf(s),
        expects(s.phase, e),
    ensures
        transition(s, e).1 is Send ==> s.phase is CancelAfterGate && e == (Event::CancelChecked {
            cancelled: false,
        }) && transition(s, e).1 == Action::Send(s.steps[s.steps_done as int].primitive),
        transition(s, e).0.phase is CancelAfterGate ==> s.phase is Gate && e == Event::GateChecked(
            Ok(()),
        ),
        transition(s, e).0.phase is Gate ==> s.phase is CancelBeforeGate && e == (
        Event::CancelChecked { cancelled: false }),
{
    if transition(s, e).0.phase is CancelAfterGate {
        assert(s.phase is Gate);
        if let Event::GateChecked(r) = e {
            if let Ok(u) = r {
                assert(u == ());
            }
        }
    }
}

/// A cancellation seen at either look at the flag, or during a wait, stops the
/// run on the spot: nothing more is injected, only releases follow.
pub proof fn lemma_cancellation_stops(s: ExecutorView, e: Event)
    requires
        executor_wf(s),
        running(s.phase),
        e == (Event::CancelChecked { cancelled: true }) || e == (Event::Waited { cancelled: true }),
        expects(s.phase, e),
    ensures
        !running(transition(s, e).0.phase),
        transition(s, e).0.ending == Ending::Cancelled,
        transition(s, e).1 is Release || transition(s, e).1 is ReleaseAll,
{
}

/// When a run stops, for whatever reason, the keys it schedules for release
/// are exactly those the accepted events pressed and did not release, and the
/// left button is released first when it is the only thing held.
pub proof fn lemma_stop_releases_what_is_held(s: ExecutorView, e: Event)
    requires
        executor_wf(s),
        running(s.phase),
        expects(s.phase, e),
        !running(transition(s, e).0.phase),
    ensures
        ({
            let t = transition(s, e).0;
            let pressed = primitives(s.steps).take(t.steps_done as int);
            &&& t.to_release == held_after(pressed)
            &&& t.release_error is None
            &&& (transition(s, e).1 == Action::Release(Primitive::MouseLeftUp) <==> (
            t.to_release.len() == 0 && mouse_held_after(pressed)))
            &&& (t.to_release.len() > 0 ==> transition(s, e).1 == Action::Release(
                Primitive::KeyUp(t.to_release[0]),
            ))
        }),
{
    if s.phase is Sending && e matches Event::Sent(Ok(())) {
        lemma_held_after_step(s.steps, s.steps_done as int);
    }
}

/// Releasing never stops early: whatever the adapter answers, the next key
/// is released, then the left button if held, then `release_all`, and only
/// then is the run finished.
pub proof fn lemma_release_runs_to_the_end(s: ExecutorView, e: Event)
    requires
        executor_wf(s),
        expects(s.phase, e),
        !running(s.phase),
        !(s.phase is Idle),
        !(s.phase is Done),
    ensures
        s.phase is Releasing ==> transition(s, e).0.to_release == s.to_release.drop_first() && (
        transition(s, e).1 is Release || transition(s, e).1 is ReleaseAll),
        s.phase is ReleasingMouse ==> transition(s, e).1 is ReleaseAll,
        s.phase is ReleasingAll ==> transition(s, e).1 is Finish && transition(s, e).0.phase is Done,
        transition(s, e).1 is Finish ==> s.phase is ReleasingAll,
{
}

/// The state reached, and the actions asked for, when `events` are handed to
/// an executor in state `s` one at a time.
pub open spec fn run_from(s: ExecutorView, events: Seq<Event>) -> (ExecutorView, Seq<Action>)
    decreases events.len(),
{
    if events.len() == 0 {
        (s, seq![])
    } else {
        let prev = run_from(s, events.drop_last());
        let next = transition(prev.0, events.last());
        (next.0, prev.1.push(next.1))
    }
}

/// Every one of `events` is the answer the executor waits for when it comes.
pub open spec fn answered_in_turn(s: ExecutorView, events: Seq<Event>) -> bool
    decreases events.len(),
{
    events.len() == 0 || (answered_in_turn(s, events.drop_last()) && expects(
        run_from(s, events.drop_last()).0.phase,
        events.last(),
    ))
}

/// The events `acts` asked to inject, in order.
pub open spec fn sent_events(acts: Seq<Action>) -> Seq<Primitive>
    decreases acts.len(),
{
    if acts.len() == 0 {
        seq![]
    } else {
        sent_events(acts.drop_last()) + match acts.last() {
            Action::Send(p) => seq![p],
            _ => seq![],
        }
    }
}

/// Some action after action `i` of `acts` injects or releases `p`.
pub open spec fn later_call(acts: Seq<Action>, i: int, p: Primitive) -> bool {
    exists|j: int| i < j < acts.len() && (acts[j] == Action::Send(p) || acts[j] == Action::Release(p))
}

/// Action `i` of `acts` injected `p`, and the adapter accepted it (the
/// answer to action `i` is event `i + 1`).
pub open spec fn accepted_send(acts: Seq<Action>, events: Seq<Event>, i: int, p: Primitive) -> bool {
    &&& 0 <= i
    &&& i + 1 < events.len()
    &&& i < acts.len()
    &&& acts[i] == Action::Send(p)
    &&& events[i + 1] matches Event::Sent(Ok(_))
}

/// `k` is still owed a release: held while running, scheduled once stopped.
pub open spec fn key_owed(t: ExecutorView, k: Key) -> bool {
    if running(t.phase) {
        t.held.contains(k)
    } else {
        t.to_release.contains(k)
    }
}

/// What holds after any run from an idle executor.
spec fn run_inv(t: ExecutorView, acts: Seq<Action>, events: Seq<Event>) -> bool {
    &&& executor_wf(t)
    &&& acts.len() == events.len()
    &&& (t.phase is Idle ==> acts.len() == 0)
    &&& (acts.len() > 0 && acts.last() is Send ==> t.phase is Sending)
    &&& (t.phase is Sending ==> acts.len() > 0 && acts.last() == Action::Send(
        t.steps[t.index as int].primitive,
    ))
    &&& (t.phase is Releasing ==> acts.len() > 0 && acts.last() == Action::Release(
        Primitive::KeyUp(t.to_release[0]),
    ))
    &&& (t.phase is ReleasingMouse || t.phase is ReleasingAll || t.phase is Done
        ==> t.to_release.len() == 0 && !t.mouse_left)
    &&& (t.phase is ReleasingAll ==> acts.len() >= 1)
    &&& (t.phase is Done ==> acts.len() >= 2)
    &&& forall|i: int|
        0 <= i < acts.len() ==> (#[trigger] acts[i] is ReleaseAll <==> ((t.phase is ReleasingAll
            && i == acts.len() - 1) || (t.phase is Done && i == acts.len() - 2)))
    &&& forall|i: int|
        0 <= i < acts.len() ==> (#[trigger] acts[i] is Finish <==> (t.phase is Done && i
            == acts.len() - 1))
    &&& (running(t.phase) && !(t.phase is Sending) ==> sent_events(acts) == primitives(t.steps).take(
        t.steps_done as int,
    ))
    &&& (t.phase is Sending ==> sent_events(acts) == primitives(t.steps).take(t.steps_done + 1int))
    &&& (!running(t.phase) && !(t.phase is Idle) && t.ending == Ending::Completed ==> t.steps_done
        == t.steps.len() && sent_events(acts) == primitives(t.steps))
    &&& forall|i: int, k: Key|
        #[trigger] accepted_send(acts, events, i, Primitive::KeyDown(k)) ==> later_call(
            acts,
            i,
            Primitive::KeyUp(k),
        ) || key_owed(t, k)
    &&& forall|i: int|
        #[trigger] accepted_send(acts, events, i, Primitive::MouseLeftDown) ==> later_call(
            acts,
            i,
            Primitive::MouseLeftUp,
        ) || t.mouse_left
}

/// `without_key` removes `k` and keeps every other key.
proof fn lemma_without_key_contains(held: Seq<Key>, k: Key, x: Key)
    ensures
        without_key(held, k).contains(x) <==> held.contains(x) && x != k,
    decreases held.len(),
{
    if held.len() > 0 {
        let front = held.drop_last();
        let rest = without_key(front, k);
        lemma_without_key_contains(front, k, x);
        assert(held =~= front.push(held.last()));
        assert(held.contains(x) <==> front.contains(x) || held.last() == x) by {
            if held.contains(x) {
                let i = choose|i: int| 0 <= i < held.len() && held[i] == x;
                if i < front.len() {
                    assert(front[i] == x);
                }
            }
            if front.contains(x) {
                let i = choose|i: int| 0 <= i < front.len() && front[i] == x;
                assert(held[i] == x);
            }
            if held.last() == x {
                assert(held[held.len() - 1] == x);
            }
        }
        if held.last() != k {
            assert(rest.push(held.last()).contains(x) <==> rest.contains(x) || held.last() == x) by {
                let r2 = rest.push(held.last());
                if r2.contains(x) {
                    let i = choose|i: int| 0 <= i < r2.len() && r2[i] == x;
                    if i < rest.len() {
                        assert(rest[i] == x);
                    }
                }
                if rest.contains(x) {
                    let i = choose|i: int| 0 <= i < rest.len() && rest[i] == x;
                    assert(r2[i] == x);
                }
                if held.last() == x {
                    assert(r2[rest.len() as int] == x);
                }
            }
        }
    }
}

/// A key owed a release stays owed after one more event, unless the call
/// just made, or the one just asked for, releases it.
proof fn lemma_key_owed_step(t: ExecutorView, e: Event, k: Key, last: Action)
    requires
        executor_wf(t),
        expects(t.phase, e),
        !(t.phase is Idle),
        t.phase is Sending ==> last == Action::Send(t.steps[t.index as int].primitive),
        t.phase is Releasing ==> last == Action::Release(Primitive::KeyUp(t.to_release[0])),
        key_owed(t, k),
    ensures
        key_owed(transition(t, e).0, k) || last == Action::Send(Primitive::KeyUp(k))
            || last == Action::Release(Primitive::KeyUp(k)) || transition(t, e).1 == Action::Release(
            Primitive::KeyUp(k),
        ),
{
    let u = transition(t, e).0;
    if t.phase is Sending {
        let p = t.steps[t.index as int].primitive;
        if let Primitive::KeyUp(k2) = p {
            lemma_without_key_contains(t.held, k2, k);
        }
        if let Primitive::KeyDown(k2) = p {
            if !t.held.contains(k2) {
                let i = choose|i: int| 0 <= i < t.held.len() && t.held[i] == k;
                assert(t.held.push(k2)[i] == k);
            }
        }
    }
    if t.phase is Releasing {
        let rest = t.to_release.drop_first();
        if t.to_release[0] != k {
            let i = choose|i: int| 0 <= i < t.to_release.len() && t.to_release[i] == k;
            assert(rest[i - 1] == k);
        }
    }
}

/// The key part of [`run_inv`] after one more answered event.
proof fn lemma_run_inv_keys(t: ExecutorView, acts: Seq<Action>, events: Seq<Event>, e: Event)
    requires
        run_inv(t, acts, events),
        expects(t.phase, e),
    ensures
        forall|i: int, k: Key|
            #[trigger] accepted_send(
                acts.push(transition(t, e).1),
                events.push(e),
                i,
                Primitive::KeyDown(k),
            ) ==> later_call(acts.push(transition(t, e).1), i, Primitive::KeyUp(k)) || key_owed(
                transition(t, e).0,
                k,
            ),
{
    let u = transition(t, e).0;
    let a = transition(t, e).1;
    let acts2 = acts.push(a);
    let events2 = events.push(e);
    let n = acts.len() as int;
    assert(acts2[n] == a);
    assert forall|i: int, k: Key| #[trigger] accepted_send(acts2, events2, i, Primitive::KeyDown(k))
        implies later_call(acts2, i, Primitive::KeyUp(k)) || key_owed(u, k) by {
        if i == n - 1 {
            assert(acts[n - 1] == Action::Send(Primitive::KeyDown(k)));
            assert(u.held.contains(k)) by {
                if t.held.contains(k) {
                } else {
                    assert(t.held.push(k)[t.held.len() as int] == k);
                }
            }
        } else {
            assert(acts2[i] == acts[i]);
            assert(events2[i + 1] == events[i + 1]);
            assert(accepted_send(acts, events, i, Primitive::KeyDown(k)));
            if later_call(acts, i, Primitive::KeyUp(k)) {
                let j = choose|j: int| i < j < acts.len() && (acts[j] == Action::Send(Primitive::KeyUp(k))
                    || acts[j] == Action::Release(Primitive::KeyUp(k)));
                assert(acts2[j] == acts[j]);
            } else {
                lemma_key_owed_step(t, e, k, acts.last());
                if !key_owed(u, k) {
                    if acts.last() == Action::Send(Primitive::KeyUp(k)) || acts.last() == Action::Release(
                        Primitive::KeyUp(k),
                    ) {
                        assert(acts2[n - 1] == acts.last());
                    } else {
                        assert(acts2[n] == a);
                    }
                }
            }
        }
    }
    assert(acts2.last() is Send ==> u.phase is Sending);
    assert(u.phase is Sending ==> acts2.last() == Action::Send(u.steps[u.index as int].primitive));
    assert(u.phase is Releasing ==> acts2.last() == Action::Release(Primitive::KeyUp(u.to_release[0])));
    assert(u.phase is ReleasingMouse || u.phase is ReleasingAll || u.phase is Done
        ==> u.to_release.len() == 0 && !u.mouse_left);
}

/// The left-button part of [`run_inv`] after one more answered event.
proof fn lemma_run_inv_mouse(t: ExecutorView, acts: Seq<Action>, events: Seq<Event>, e: Event)
    requires
        run_inv(t, acts, events),
        expects(t.phase, e),
    ensures
        forall|i: int|
            #[trigger] accepted_send(
                acts.push(transition(t, e).1),
                events.push(e),
                i,
                Primitive::MouseLeftDown,
            ) ==> later_call(acts.push(transition(t, e).1), i, Primitive::MouseLeftUp)
                || transition(t, e).0.mouse_left,
{
    let u = transition(t, e).0;
    let a = transition(t, e).1;
    let acts2 = acts.push(a);
    let events2 = events.push(e);
    let n = acts.len() as int;
    assert(acts2[n] == a);
    assert forall|i: int| #[trigger] accepted_send(acts2, events2, i, Primitive::MouseLeftDown)
        implies later_call(acts2, i, Primitive::MouseLeftUp) || u.mouse_left by {
        if i == n - 1 {
            assert(acts[n - 1] == Action::Send(Primitive::MouseLeftDown));
        } else {
            assert(acts2[i] == acts[i]);
            assert(events2[i + 1] == events[i + 1]);
            assert(accepted_send(acts, events, i, Primitive::MouseLeftDown));
            if later_call(acts, i, Primitive::MouseLeftUp) {
                let j = choose|j: int| i < j < acts.len() && (acts[j] == Action::Send(Primitive::MouseLeftUp)
                    || acts[j] == Action::Release(Primitive::MouseLeftUp));
                assert(acts2[j] == acts[j]);
            } else if !u.mouse_left {
                if acts.last() == Action::Send(Primitive::MouseLeftUp) {
                    assert(acts2[n - 1] == acts.last());
                } else {
                    assert(a == Action::Release(Primitive::MouseLeftUp));
                }
            }
        }
    }
}

/// One more answered event keeps [`run_inv`].
proof fn lemma_run_inv_step(t: ExecutorView, acts: Seq<Action>, events: Seq<Event>, e: Event)
    requires
        run_inv(t, acts, events),
        expects(t.phase, e),
    ensures
        run_inv(transition(t, e).0, acts.push(transition(t, e).1), events.push(e)),
{
    let u = transition(t, e).0;
    let a = transition(t, e).1;
    let acts2 = acts.push(a);
    let events2 = events.push(e);
    let n = acts.len() as int;
    lemma_transition_keeps_wf(t, e);
    assert(acts2.drop_last() =~= acts);
    assert(acts2[n] == a);
    assert forall|i: int| 0 <= i < n implies acts2[i] == acts[i] by {}
    assert forall|i: int| 0 <= i < n implies events2[i] == events[i] by {}
    // the release structure
    assert(u.phase is ReleasingAll <==> a is ReleaseAll);
    assert(a is Finish <==> t.phase is ReleasingAll);
    assert(u.phase is Done <==> t.phase is ReleasingAll);
    assert forall|i: int|
        0 <= i < acts2.len() implies (#[trigger] acts2[i] is ReleaseAll <==> ((u.phase is ReleasingAll
            && i == acts2.len() - 1) || (u.phase is Done && i == acts2.len() - 2))) by {
        if i < n {
            assert(acts2[i] == acts[i]);
        }
    }
    assert forall|i: int|
        0 <= i < acts2.len() implies (#[trigger] acts2[i] is Finish <==> (u.phase is Done && i
            == acts2.len() - 1)) by {
        if i < n {
            assert(acts2[i] == acts[i]);
        }
    }
    assert(!(u.phase is Idle));
    assert(sent_events(acts2) == sent_events(acts) + match a {
        Action::Send(p) => seq![p],
        _ => Seq::<Primitive>::empty(),
    });
    if t.phase is Idle {
        assert(acts =~= Seq::<Action>::empty());
        assert(sent_events(acts) =~= Seq::<Primitive>::empty());
        assert(primitives(u.steps).take(0) =~= Seq::<Primitive>::empty());
    }
    if t.phase is Sending && e matches Event::Sent(Ok(_)) {
        assert(primitives(t.steps).take(t.steps_done + 1int) =~= primitives(u.steps).take(
            u.steps_done as int,
        ));
    }
    lemma_run_inv_keys(t, acts, events, e);
    lemma_run_inv_mouse(t, acts, events, e);
    assert(running(u.phase) && !(u.phase is Sending) ==> sent_events(acts2) == primitives(u.steps).take(
        u.steps_done as int,
    ));
    assert(u.phase is Sending ==> sent_events(acts2) == primitives(u.steps).take(u.steps_done + 1int));
    assert(!running(u.phase) && !(u.phase is Idle) && u.ending == Ending::Completed ==> u.steps_done
        == u.steps.len() && sent_events(acts2) == primitives(u.steps));
    assert(forall|i: int, k: Key|
        #[trigger] accepted_send(acts2, events2, i, Primitive::KeyDown(k)) ==> later_call(
            acts2,
            i,
            Primitive::KeyUp(k),
        ) || key_owed(u, k));
    assert(forall|i: int|
        #[trigger] accepted_send(acts2, events2, i, Primitive::MouseLeftDown) ==> later_call(
            acts2,
            i,
            Primitive::MouseLeftUp,
        ) || u.mouse_left);
    assert(run_inv(u, acts2, events2));
}

/// [`run_inv`] holds after every run from an idle executor.
proof fn lemma_run_inv(s: ExecutorView, events: Seq<Event>)
    requires
        executor_wf(s),
        s.phase is Idle,
        answered_in_turn(s, events),
    ensures
        run_inv(run_from(s, events).0, run_from(s, events).1, events),
    decreases events.len(),
{
    if events.len() == 0 {
    } else {
        let prev = events.drop_last();
        lemma_run_inv(s, prev);
        let r = run_from(s, prev);
        lemma_run_inv_step(r.0, r.1, prev, events.last());
        assert(prev.push(events.last()) =~= events);
    }
}

/// The adapter's `release_all` is asked for at most once, and only last: a
/// run that asked for it is releasing, or it asked for nothing more but the
/// end; and a finished run asked for it right before the end.
pub proof fn lemma_release_all_once_and_last(s: ExecutorView, events: Seq<Event>)
    requires
        executor_wf(s),
        s.phase is Idle,
        answered_in_turn(s, events),
    ensures
        ({
            let (t, acts) = run_from(s, events);
            &&& forall|i: int|
                0 <= i < acts.len() && #[trigger] acts[i] is ReleaseAll ==> (i == acts.len() - 1
                    && t.phase is ReleasingAll) || (i == acts.len() - 2 && acts[i + 1] is Finish)
            &&& forall|i: int|
                0 <= i < acts.len() && #[trigger] acts[i] is Finish ==> i == acts.len() - 1
                    && t.phase is Done
            &&& t.phase is Done ==> acts.len() >= 2 && acts[acts.len() - 2] is ReleaseAll
                && acts.last() is Finish
        }),
{
    lemma_run_inv(s, events);
}

/// Every key press and every left-button press the adapter accepted during
/// a finished run is followed, later in the run, by a call that releases it.
pub proof fn lemma_finished_run_releases_every_press(s: ExecutorView, events: Seq<Event>)
    requires
        executor_wf(s),
        s.phase is Idle,
        answered_in_turn(s, events),
        run_from(s, events).0.phase is Done,
    ensures
        ({
            let acts = run_from(s, events).1;
            &&& forall|i: int, k: Key|
                #[trigger] accepted_send(acts, events, i, Primitive::KeyDown(k)) ==> later_call(
                    acts,
                    i,
                    Primitive::KeyUp(k),
                )
            &&& forall|i: int|
                #[trigger] accepted_send(acts, events, i, Primitive::MouseLeftDown) ==> later_call(
                    acts,
                    i,
                    Primitive::MouseLeftUp,
                )
        }),
{
    lemma_run_inv(s, events);
}

/// A run that completed injected exactly its plan's events, in order, each
/// accepted.
pub proof fn lemma_completed_run_sends_the_plan(s: ExecutorView, events: Seq<Event>)
    requires
        executor_wf(s),
        s.phase is Idle,
        answered_in_turn(s, events),
        run_from(s, events).0.phase is Done,
        run_from(s, events).0.ending == Ending::Completed,
    ensures
        sent_events(run_from(s, events).1) == primitives(plan_steps(s.macro_id, s.timing)),
        run_from(s, events).0.steps_done == plan_steps(s.macro_id, s.timing).len(),
{
    lemma_run_inv(s, events);
    lemma_run_keeps_plan(s, events);
}

/// A run never changes which macro and plan it works on.
proof fn lemma_run_keeps_plan(s: ExecutorView, events: Seq<Event>)
    ensures
        run_from(s, events).0.macro_id == s.macro_id,
        run_from(s, events).0.timing == s.timing,
    decreases events.len(),
{
    if events.len() > 0 {
        lemma_run_keeps_plan(s, events.drop_last());
    }
}

/// The plan-driven executor of one macro run.
///
/// The application calls [`Executor::step`] with [`Event::Start`], performs
/// each returned [`Action`] and hands back what happened, until the action is
/// [`Action::Finish`]; [`Executor::report`] then tells how the run ended.
pub struct Executor {
    macro_id: MacroId,
    timing: Timing,
    steps: Vec<PlannedStep>,
    phase: Phase,
    index: usize,
    held: Vec<Key>,
    mouse_left: bool,
    steps_done: usize,
    ending: Ending,
    detail: String,
    release_error: Option<String>,
    to_release: Vec<Key>,
}

impl View for Executor {
    type V = ExecutorView;

    closed spec fn view(&self) -> ExecutorView {
        ExecutorView {
            macro_id: self.macro_id,
            timing: self.timing,
            steps: self.steps@,
            phase: self.phase,
            index: self.index as nat,
            held: self.held@,
            mouse_left: self.mouse_left,
            steps_done: self.steps_done as nat,
            ending: self.ending,
            detail: self.detail@,
            release_error: match self.release_error {
                Some(e) => Some(e@),
                None => None,
            },
            to_release: self.to_release@,
        }
    }
}

/// `held` without `k`.
fn remove_key(held: &Vec<Key>, k: Key) -> (out: Vec<Key>)
    ensures
        out@ == without_key(held@, k),
{
    let mut out: Vec<Key> = Vec::new();
    let mut i: usize = 0;
    while i < held.len()
        invariant
            i <= held@.len(),
            out@ == without_key(held@.take(i as int), k),
        decreases held@.len() - i,
    {
        proof {
            assert(held@.take(i + 1).drop_last() =~= held@.take(i as int));
        }
        if held[i] != k {
            out.push(held[i]);
        }
        i = i + 1;
    }
    assert(held@.take(held@.len() as int) =~= held@);
    out
}

/// Whether `held` contains `k`.
fn holds_key(held: &Vec<Key>, k: Key) -> (yes: bool)
    ensures
        yes == held@.contains(k),
{
    let mut i: usize = 0;
    while i < held.len()
        invariant
            i <= held@.len(),
            forall|j: int| 0 <= j < i ==> held@[j] != k,
        decreases held@.len() - i,
    {
        if held[i] == k {
            return true;
        }
        i = i + 1;
    }
    false
}

/// An outcome of the given ending and detail.
pub fn make_outcome(ending: Ending, detail: String) -> (o: Outcome)
    ensures
        outcome_is(o, ending, detail@),
{
    match ending {
        Ending::Completed => Outcome::Completed,
        Ending::Cancelled => Outcome::Cancelled,
        Ending::Aborted => Outcome::Aborted { detail },
        Ending::Failed => Outcome::Failed { detail },
    }
}

impl Executor {
    /// The executor's standing invariant.
    pub open spec fn wf(&self) -> bool {
        executor_wf(self@)
    }

    /// An executor for one run of `macro_id` with `timing`, not started yet.
    pub fn new(macro_id: MacroId, timing: Timing) -> (ex: Self)
        ensures
            ex.wf(),
            ex@.macro_id == macro_id,
            ex@.timing == timing,
            ex@.phase == Phase::Idle,
            ex@.index == 0,
            ex@.steps_done == 0,
            ex@.held.len() == 0,
            !ex@.mouse_left,
            ex@.release_error is None,
    {
        Executor {
            macro_id,
            timing,
            steps: plan(macro_id, timing),
            phase: Phase::Idle,
            index: 0,
            held: Vec::new(),
            mouse_left: false,
            steps_done: 0,
            ending: Ending::Completed,
            detail: String::new(),
            release_error: None,
            to_release: Vec::new(),
        }
    }

    /// Where the executor stands.
    pub fn phase(&self) -> (phase: Phase)
        ensures
            phase == self@.phase,
    {
        self.phase
    }

    /// Whether `event` is the answer the executor waits for.
    pub fn expects(&self, event: &Event) -> (yes: bool)
        ensures
            yes == expects(self@.phase, *event),
    {
        match self.phase {
            Phase::Idle => matches!(event, Event::Start),
            Phase::CancelBeforeGate | Phase::CancelAfterGate => matches!(event, Event::CancelChecked { .. }),
            Phase::Gate => matches!(event, Event::GateChecked(_)),
            Phase::Sending | Phase::Releasing | Phase::ReleasingMouse | Phase::ReleasingAll => matches!(event, Event::Sent(_)),
            Phase::Waiting => matches!(event, Event::Waited { .. }),
            Phase::Done => false,
        }
    }

    fn release_next(&mut self) -> (action: Action)
        ensures
            (final(self)@, action) == release_next(old(self)@),
    {
        if self.to_release.len() > 0 {
            self.phase = Phase::Releasing;
            Action::Release(Primitive::KeyUp(self.to_release[0]))
        } else if self.mouse_left {
            self.phase = Phase::ReleasingMouse;
            self.mouse_left = false;
            Action::Release(Primitive::MouseLeftUp)
        } else {
            self.phase = Phase::ReleasingAll;
            Action::ReleaseAll
        }
    }

    fn stop(&mut self, ending: Ending, detail: String) -> (action: Action)
        ensures
            (final(self)@, action) == stop(old(self)@, ending, detail@),
    {
        self.ending = ending;
        self.detail = detail;
        let mut taken: Vec<Key> = Vec::new();
        std::mem::swap(&mut taken, &mut self.held);
        self.to_release = taken;
        self.release_error = None;
        self.release_next()
    }

    fn note_release(&mut self, r: Result<(), InputError>)
        ensures
            final(self)@ == note_release(old(self)@, r),
    {
        match r {
            Err(e) => {
                if self.release_error.is_none() {
                    self.release_error = Some(e.message());
                }
            },
            Ok(()) => {},
        }
    }

    fn begin_step(&mut self, index: usize) -> (action: Action)
        ensures
            (final(self)@, action) == begin_step(old(self)@, index as nat),
    {
        if index < self.steps.len() {
            self.phase = Phase::CancelBeforeGate;
            self.index = index;
            Action::CheckCancel
        } else {
            self.index = index;
            self.stop(Ending::Completed, String::new())
        }
    }
}


impl Executor {
    /// Takes the answer to the previous action and decides the next one.
    ///
    /// Before every injected event it asks whether the run was cancelled,
    /// then the safety gate, then about cancellation again; once the run
    /// stops, for whatever reason, it releases every key and button it still
    /// holds and closes with the adapter's `release_all`.
    pub fn step(&mut self, event: Event) -> (action: Action)
        requires
            old(self).wf(),
            expects(old(self)@.phase, event),
        ensures
            (final(self)@, action) == transition(old(self)@, event),
            final(self).wf(),
    {
        proof {
            lemma_transition_keeps_wf(self@, event);
        }
        match self.phase {
            Phase::Idle => self.begin_step(0),
            Phase::CancelBeforeGate => {
                let cancelled = match event {
                    Event::CancelChecked { cancelled } => cancelled,
                    _ => true,
                };
                if cancelled {
                    self.stop(Ending::Cancelled, String::new())
                } else {
                    self.phase = Phase::Gate;
                    Action::SafetyCheck
                }
            },
            Phase::Gate => {
                match event {
                    Event::GateChecked(Ok(())) => {
                        self.phase = Phase::CancelAfterGate;
                        Action::CheckCancel
                    },
                    Event::GateChecked(Err(e)) => {
                        let ending = match e {
                            InputError::Unsafe(_) => Ending::Aborted,
                            InputError::Injection(_) => Ending::Failed,
                        };
                        let detail = e.message();
                        self.stop(ending, detail)
                    },
                    _ => Action::Finish,
                }
            },
            Phase::CancelAfterGate => {
                let cancelled = match event {
                    Event::CancelChecked { cancelled } => cancelled,
                    _ => true,
                };
                if cancelled {
                    self.stop(Ending::Cancelled, String::new())
                } else {
                    self.phase = Phase::Sending;
                    Action::Send(self.steps[self.index].primitive)
                }
            },
            Phase::Sending => {
                let step = self.steps[self.index];
                match event {
                    Event::Sent(Ok(())) => {
                        let p = step.primitive;
                        let held = match p {
                            Primitive::KeyDown(k) => {
                                if holds_key(&self.held, k) {
                                    None
                                } else {
                                    let mut more = self.held.clone();
                                    more.push(k);
                                    Some(more)
                                }
                            },
                            Primitive::KeyUp(k) => Some(remove_key(&self.held, k)),
                            _ => None,
                        };
                        match held {
                            Some(h) => {
                                self.held = h;
                            },
                            None => {},
                        }
                        match p {
                            Primitive::MouseLeftDown => {
                                self.mouse_left = true;
                            },
                            Primitive::MouseLeftUp => {
                                self.mouse_left = false;
                            },
                            _ => {},
                        }
                        self.steps_done = self.steps_done + 1;
                        self.phase = Phase::Waiting;
                        Action::Wait { ms: step.delay_after_ms }
                    },
                    Event::Sent(Err(e)) => {
                        let ending = match e {
                            InputError::Unsafe(_) => Ending::Aborted,
                            InputError::Injection(_) => Ending::Failed,
                        };
                        let mut detail = e.message();
                        let number = decimal(self.index as u128 + 1);
                        let total = decimal(self.steps.len() as u128);
                        let what = step.primitive.describe();
                        detail.append(" while sending step ");
                        detail.append(number.as_str());
                        detail.append("/");
                        detail.append(total.as_str());
                        detail.append(" (");
                        detail.append(what.as_str());
                        detail.append(")");
                        self.stop(ending, detail)
                    },
                    _ => Action::Finish,
                }
            },
            Phase::Waiting => {
                let cancelled = match event {
                    Event::Waited { cancelled } => cancelled,
                    _ => true,
                };
                if cancelled {
                    self.stop(Ending::Cancelled, String::new())
                } else {
                    self.begin_step(self.index + 1)
                }
            },
            Phase::Releasing => {
                match event {
                    Event::Sent(r) => {
                        self.to_release.remove(0);
                        self.note_release(r);
                        self.release_next()
                    },
                    _ => Action::Finish,
                }
            },
            Phase::ReleasingMouse => {
                match event {
                    Event::Sent(r) => {
                        self.note_release(r);
                        self.phase = Phase::ReleasingAll;
                        Action::ReleaseAll
                    },
                    _ => Action::Finish,
                }
            },
            Phase::ReleasingAll => {
                match event {
                    Event::Sent(r) => {
                        self.note_release(r);
                        self.phase = Phase::Done;
                        Action::Finish
                    },
                    _ => Action::Finish,
                }
            },
            Phase::Done => Action::Finish,
        }
    }

    /// How the finished run ended.
    pub fn report(&self) -> (report: RunReport)
        requires
            self@.phase is Done,
        ensures
            report.macro_id == self@.macro_id,
            outcome_is(report.outcome, final_outcome(self@).0, final_outcome(self@).1),
            report.steps_done == self@.steps_done,
            report.steps_total == self@.steps.len(),
            report.unconfirmed == 0,
    {
        let (ending, detail) = match &self.release_error {
            None => (self.ending, self.detail.clone()),
            Some(r) => match self.ending {
                Ending::Completed | Ending::Cancelled => {
                    let mut d = String::from_str("could not release injected input: ");
                    d.append(r.as_str());
                    (Ending::Failed, d)
                },
                _ => {
                    let mut d = self.detail.clone();
                    d.append("; release also failed: ");
                    d.append(r.as_str());
                    (self.ending, d)
                },
            },
        };
        RunReport {
            macro_id: self.macro_id,
            outcome: make_outcome(ending, detail),
            steps_done: self.steps_done,
            steps_total: self.steps.len(),
            unconfirmed: 0,
        }
    }
}

} // verus!
