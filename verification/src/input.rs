//! The seam between the macro engine and the operating system.
//!
//! The engine only ever talks to an [`InputAdapter`]; the Windows
//! implementation lives in the application, tests use a fake.
use vstd::prelude::*;
use vstd::string::*;

use crate::frame::{Frame, Point, Rect};
use crate::macros::Key;
use crate::text::str_eq;

verus! {

/// A reason why an input event could not be delivered, or why the safety gate
/// refused to act.
#[derive(Clone, Debug, PartialEq, Eq)]
pub enum InputError {
    /// The OS refused to inject the event (for example `SendInput` returned 0).
    Injection(String),
    /// The pre-action safety gate refused: wrong foreground window, a held
    /// modifier, or a process that cannot be queried.
    Unsafe(String),
}

/// The English one-line rendering of an input error.
pub open spec fn input_error_text(error: InputError) -> Seq<char> {
    match error {
        InputError::Injection(detail) => "input injection failed: "@ + detail@,
        InputError::Unsafe(detail) => "safety check refused: "@ + detail@,
    }
}

impl InputError {
    /// The English one-line rendering, as shown after the localized framing.
    pub fn message(&self) -> (text: String)
        ensures
            text@ == input_error_text(*self),
    {
        match self {
            InputError::Injection(detail) => {
                let mut text = String::from_str("input injection failed: ");
                text.append(detail.as_str());
                text
            },
            InputError::Unsafe(detail) => {
                let mut text = String::from_str("safety check refused: ");
                text.append(detail.as_str());
                text
            },
        }
    }
}

/// Sends low level input events.
///
/// `release_all` releases only keys and buttons this adapter pressed and has
/// not released yet; it is never blocked by the safety gate and must be
/// idempotent. `safety_check` is asked before every injected event.
pub trait InputAdapter: Send {
    fn key_down(&mut self, key: Key) -> Result<(), InputError>;

    fn key_up(&mut self, key: Key) -> Result<(), InputError>;

    fn mouse_left_down(&mut self) -> Result<(), InputError>;

    fn mouse_left_up(&mut self) -> Result<(), InputError>;

    fn release_all(&mut self) -> Result<(), InputError>;

    fn safety_check(&mut self) -> Result<(), InputError>;
}

/// The extra desktop powers the row and search macros need on top of
/// injecting input: reading and moving the cursor, and capturing the client.
pub trait DesktopAdapter: InputAdapter {
    /// Current cursor position in physical screen pixels.
    fn cursor_position(&mut self) -> Result<Point, InputError>;

    /// Moves the cursor; the adapter runs the safety gate first.
    fn move_cursor(&mut self, point: Point) -> Result<(), InputError>;

    /// Captures the game client area.
    fn capture_client(&mut self) -> Result<Frame, InputError>;

    /// Captures only `rect` (physical screen pixels) as a frame whose origin
    /// is `(rect.x, rect.y)`.
    fn capture_region(&mut self, rect: Rect) -> Result<Frame, InputError>;
}

/// A modifier key this tool may press for itself as part of a chord.
#[derive(Clone, Copy, Debug, PartialEq, Eq, Structural)]
pub enum Modifier {
    Control,
    Shift,
}

/// Whether `name` is one of the physical key names reported for the left
/// instance of `m` (the right-hand variants are deliberately not listed).
pub open spec fn modifier_has_name(m: Modifier, name: Seq<char>) -> bool {
    match m {
        Modifier::Control => name == "left ctrl"@ || name == "ctrl"@,
        Modifier::Shift => name == "left shift"@ || name == "shift"@,
    }
}

/// Whether one of the `owned` modifiers accounts for the held key `name`.
pub open spec fn owned_name(owned: Seq<Modifier>, name: Seq<char>) -> bool {
    exists|i: int| 0 <= i < owned.len() && modifier_has_name(#[trigger] owned[i], name)
}

/// The held names that no owned modifier accounts for, in their order.
pub open spec fn unowned_names(held: Seq<&'static str>, owned: Seq<Modifier>) -> Seq<&'static str>
    decreases held.len(),
{
    if held.len() == 0 {
        Seq::empty()
    } else {
        let rest = unowned_names(held.drop_last(), owned);
        if owned_name(owned, held.last()@) {
            rest
        } else {
            rest.push(held.last())
        }
    }
}

impl Modifier {
    pub const ALL: [Modifier; 2] = [Modifier::Control, Modifier::Shift];

    /// Whether `name` is one of the key names reported for this modifier.
    pub fn has_name(self, name: &str) -> (yes: bool)
        ensures
            yes == modifier_has_name(self, name@),
    {
        let (left, plain) = match self {
            Modifier::Control => ("left ctrl", "ctrl"),
            Modifier::Shift => ("left shift", "shift"),
        };
        proof {
            reveal_strlit("left ctrl");
            reveal_strlit("ctrl");
            reveal_strlit("left shift");
            reveal_strlit("shift");
        }
        str_eq(name, left) || str_eq(name, plain)
    }

    /// The physical key names reported for this modifier when its left
    /// instance was injected.
    pub fn held_names(self) -> (names: [&'static str; 2])
        ensures
            modifier_has_name(self, names[0]@),
            modifier_has_name(self, names[1]@),
    {
        proof {
            reveal_strlit("left ctrl");
            reveal_strlit("ctrl");
            reveal_strlit("left shift");
            reveal_strlit("shift");
        }
        match self {
            Modifier::Control => ["left ctrl", "ctrl"],
            Modifier::Shift => ["left shift", "shift"],
        }
    }
}

/// Physical modifiers that are held but do not belong to this tool: the ones
/// the safety gate must still refuse on.
pub fn unowned_modifiers(held: &[&'static str], owned: &[Modifier]) -> (names: Vec<&'static str>)
    ensures
        names@ == unowned_names(held@, owned@),
{
    let mut names: Vec<&'static str> = Vec::new();
    let mut i: usize = 0;
    while i < held.len()
        invariant
            i <= held@.len(),
            names@ == unowned_names(held@.take(i as int), owned@),
        decreases held@.len() - i,
    {
        let name = held[i];
        let mut j: usize = 0;
        let mut claimed = false;
        while j < owned.len()
            invariant
                j <= owned@.len(),
                claimed == exists|k: int| 0 <= k < j && modifier_has_name(#[trigger] owned@[k], name@),
            decreases owned@.len() - j,
        {
            if owned[j].has_name(name) {
                claimed = true;
            }
            j = j + 1;
        }
        proof {
            assert(held@.take(i + 1).drop_last() =~= held@.take(i as int));
        }
        if !claimed {
            names.push(name);
        }
        i = i + 1;
    }
    proof {
        assert(held@.take(held@.len() as int) =~= held@);
    }
    names
}

} // verus!
