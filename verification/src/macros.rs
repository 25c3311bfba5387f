//! Pure description of the supported StarCraft macros.
//!
//! Nothing here touches the operating system: this module only states which
//! events have to be sent, and how long to wait between them.
use vstd::prelude::*;

use vstd::string::*;

use crate::text::{all_digits, digits_value, function_key_number, str_eq};

verus! {

/// The only keys this application is able to inject.
///
/// Deliberately a closed set: no configuration can turn this tool into a
/// general purpose keyboard/mouse automator.
#[derive(Clone, Copy, Debug, PartialEq, Eq, Hash, Structural)]
pub enum Key {
    B,
    C,
    V,
    S,
    /// Left Ctrl, used only for the scratch-group chord (Ctrl+9).
    Control,
    /// Left Shift, used only for the "remove one portrait" click.
    Shift,
    /// Digit 9, the one scratch control group this tool may touch.
    Nine,
    /// Escape, to leave a placement mode the game did not close.
    Escape,
    /// `A`, pressed only after a verified selection.
    A,
    /// Recall of the optional Stargate camera location.
    F2,
    /// Recall of the saved Colony camera location.
    F4,
}

/// Set 1 hardware scan code of each key.
pub open spec fn key_scan_code(key: Key) -> u16 {
    match key {
        Key::B => 0x30,
        Key::C => 0x2E,
        Key::V => 0x2F,
        Key::S => 0x1F,
        Key::Control => 0x1D,
        Key::Shift => 0x2A,
        Key::Nine => 0x0A,
        Key::Escape => 0x01,
        Key::A => 0x1E,
        Key::F2 => 0x3C,
        Key::F4 => 0x3E,
    }
}

/// Diagnostic name of each key.
pub open spec fn key_name(key: Key) -> Seq<char> {
    match key {
        Key::B => "B"@,
        Key::C => "C"@,
        Key::V => "V"@,
        Key::S => "S"@,
        Key::Control => "Ctrl"@,
        Key::Shift => "Shift"@,
        Key::Nine => "9"@,
        Key::Escape => "Esc"@,
        Key::A => "A"@,
        Key::F2 => "F2"@,
        Key::F4 => "F4"@,
    }
}

/// Every key is pressed at the Set 1 make code of the physical key its name
/// names: the function keys `F1`..`F10` are the consecutive codes
/// `0x3B`..`0x44`, and the digit keys `1`..`9` of the top row are the
/// consecutive codes `0x02`..`0x0A`.
pub proof fn lemma_scan_code_follows_the_name(key: Key)
    ensures
        function_key_number(key_name(key)) matches Some(n) ==> 1 <= n <= 10 && key_scan_code(key)
            == 0x3A + n,
        key_name(key).len() == 1 && all_digits(key_name(key)) && digits_value(key_name(key)) >= 1
            ==> key_scan_code(key) == 0x01 + digits_value(key_name(key)),
{
    reveal_with_fuel(digits_value, 2);
    reveal_strlit("B");
    reveal_strlit("C");
    reveal_strlit("V");
    reveal_strlit("S");
    reveal_strlit("Ctrl");
    reveal_strlit("Shift");
    reveal_strlit("9");
    reveal_strlit("Esc");
    reveal_strlit("A");
    reveal_strlit("F2");
    reveal_strlit("F4");
    let l = key_name(key);
    match key {
        Key::F2 | Key::F4 => {
            assert(l.skip(1) =~= seq![l[1]]);
            assert(l.skip(1).drop_last() =~= Seq::<char>::empty());
        },
        Key::Nine => {
            assert(l.drop_last() =~= Seq::<char>::empty());
        },
        _ => {},
    }
}

/// The letters of the three letter rows of a US keyboard, left to right,
/// with the Set 1 make code of each row's first key.
pub open spec fn letter_rows() -> Seq<(Seq<char>, int)> {
    seq![
        (seq!['Q', 'W', 'E', 'R', 'T', 'Y', 'U', 'I', 'O', 'P'], 0x10int),
        (seq!['A', 'S', 'D', 'F', 'G', 'H', 'J', 'K', 'L'], 0x1Eint),
        (seq!['Z', 'X', 'C', 'V', 'B', 'N', 'M'], 0x2Cint),
    ]
}

/// A letter key is pressed at the make code of its place on the keyboard:
/// the codes run left to right along each letter row.
pub proof fn lemma_letter_scan_code_follows_the_layout(key: Key, r: int, i: int)
    requires
        0 <= r < 3,
        0 <= i < letter_rows()[r].0.len(),
        key_name(key) == seq![letter_rows()[r].0[i]],
    ensures
        key_scan_code(key) == letter_rows()[r].1 + i,
{
    reveal_strlit("B");
    reveal_strlit("C");
    reveal_strlit("V");
    reveal_strlit("S");
    reveal_strlit("Ctrl");
    reveal_strlit("Shift");
    reveal_strlit("9");
    reveal_strlit("Esc");
    reveal_strlit("A");
    reveal_strlit("F2");
    reveal_strlit("F4");
    let c = letter_rows()[r].0[i];
    assert(key_name(key).len() == 1 && key_name(key)[0] == c);
    match key {
        Key::B => assert(c == 'B'),
        Key::C => assert(c == 'C'),
        Key::V => assert(c == 'V'),
        Key::S => assert(c == 'S'),
        Key::A => assert(c == 'A'),
        Key::Control => assert(key_name(key).len() == 4),
        Key::Shift => assert(key_name(key).len() == 5),
        Key::Nine => assert(c == '9'),
        Key::Escape => assert(key_name(key).len() == 3),
        Key::F2 | Key::F4 => assert(key_name(key).len() == 2),
    }
    let rows = letter_rows();
    if r == 0 {
        let row = seq!['Q', 'W', 'E', 'R', 'T', 'Y', 'U', 'I', 'O', 'P'];
        assert(rows[0].0 == row);
        assert(i == 0 || i == 1 || i == 2 || i == 3 || i == 4 || i == 5 || i == 6 || i == 7 || i == 8 || i == 9);
        assert(row[0] == 'Q' && row[1] == 'W' && row[2] == 'E' && row[3] == 'R' && row[4] == 'T' && row[5] == 'Y' && row[6] == 'U' && row[7] == 'I' && row[8] == 'O' && row[9] == 'P');
    } else if r == 1 {
        let row = seq!['A', 'S', 'D', 'F', 'G', 'H', 'J', 'K', 'L'];
        assert(rows[1].0 == row);
        assert(i == 0 || i == 1 || i == 2 || i == 3 || i == 4 || i == 5 || i == 6 || i == 7 || i == 8);
        assert(row[0] == 'A' && row[1] == 'S' && row[2] == 'D' && row[3] == 'F' && row[4] == 'G' && row[5] == 'H' && row[6] == 'J' && row[7] == 'K' && row[8] == 'L');
    } else if r == 2 {
        let row = seq!['Z', 'X', 'C', 'V', 'B', 'N', 'M'];
        assert(rows[2].0 == row);
        assert(i == 0 || i == 1 || i == 2 || i == 3 || i == 4 || i == 5 || i == 6);
        assert(row[0] == 'Z' && row[1] == 'X' && row[2] == 'C' && row[3] == 'V' && row[4] == 'B' && row[5] == 'N' && row[6] == 'M');
    }
}

/// No two keys share a scan code, so releasing one never releases another.
pub proof fn lemma_scan_codes_are_distinct(a: Key, b: Key)
    ensures
        key_scan_code(a) == key_scan_code(b) ==> a == b,
{
}

impl Key {
    /// Every key this tool may press, used when releasing held input.
    pub const ALL: [Key; 11] = [
        Key::B,
        Key::C,
        Key::V,
        Key::S,
        Key::Control,
        Key::Shift,
        Key::Nine,
        Key::Escape,
        Key::A,
        Key::F2,
        Key::F4,
    ];

    /// Set 1 ("XT") hardware scan code, the value `SendInput` expects with
    /// `KEYEVENTF_SCANCODE`; it addresses the physical key position.
    pub fn scan_code(self) -> (code: u16)
        ensures
            code == key_scan_code(self),
    {
        match self {
            Key::B => 0x30,
            Key::C => 0x2E,
            Key::V => 0x2F,
            Key::S => 0x1F,
            Key::Control => 0x1D,
            Key::Shift => 0x2A,
            Key::Nine => 0x0A,
            Key::Escape => 0x01,
            Key::A => 0x1E,
            Key::F2 => 0x3C,
            Key::F4 => 0x3E,
        }
    }

    /// Name used in logs and diagnostics.
    pub fn name(self) -> (name: &'static str)
        ensures
            name@ == key_name(self),
    {
        proof {
            reveal_strlit("B");
            reveal_strlit("C");
            reveal_strlit("V");
            reveal_strlit("S");
            reveal_strlit("Ctrl");
            reveal_strlit("Shift");
            reveal_strlit("9");
            reveal_strlit("Esc");
            reveal_strlit("A");
            reveal_strlit("F2");
            reveal_strlit("F4");
        }
        match self {
            Key::B => "B",
            Key::C => "C",
            Key::V => "V",
            Key::S => "S",
            Key::Control => "Ctrl",
            Key::Shift => "Shift",
            Key::Nine => "9",
            Key::Escape => "Esc",
            Key::A => "A",
            Key::F2 => "F2",
            Key::F4 => "F4",
        }
    }
}


/// A single low level input event.
#[derive(Clone, Copy, Debug, PartialEq, Eq, Structural)]
pub enum Primitive {
    KeyDown(Key),
    KeyUp(Key),
    MouseLeftDown,
    MouseLeftUp,
}

/// English diagnostic text of one event.
pub open spec fn describe_text(primitive: Primitive) -> Seq<char> {
    match primitive {
        Primitive::KeyDown(key) => "key down "@ + key_name(key),
        Primitive::KeyUp(key) => "key up "@ + key_name(key),
        Primitive::MouseLeftDown => "left button down"@,
        Primitive::MouseLeftUp => "left button up"@,
    }
}

impl Primitive {
    /// English diagnostic text. The GUI adds its own localized framing.
    pub fn describe(self) -> (text: String)
        ensures
            text@ == describe_text(self),
    {
        match self {
            Primitive::KeyDown(key) => {
                let mut text = String::from_str("key down ");
                text.append(key.name());
                text
            },
            Primitive::KeyUp(key) => {
                let mut text = String::from_str("key up ");
                text.append(key.name());
                text
            },
            Primitive::MouseLeftDown => String::from_str("left button down"),
            Primitive::MouseLeftUp => String::from_str("left button up"),
        }
    }
}

/// The supported macros.
#[derive(Clone, Copy, Debug, PartialEq, Eq, Structural)]
pub enum MacroId {
    /// `B` -> `C` -> left click, builds a Creep Colony.
    CreepColony,
    /// `V` -> `S` -> left click, builds a Spire.
    Spire,
}

/// The two build-menu keys of each macro, pressed in order before the click.
pub open spec fn macro_keys(macro_id: MacroId) -> [Key; 2] {
    match macro_id {
        MacroId::CreepColony => [Key::B, Key::C],
        MacroId::Spire => [Key::V, Key::S],
    }
}

/// Stable log identifier of each macro.
pub open spec fn macro_name(macro_id: MacroId) -> Seq<char> {
    match macro_id {
        MacroId::CreepColony => "CreepColony"@,
        MacroId::Spire => "Spire"@,
    }
}

impl MacroId {
    pub const ALL: [MacroId; 2] = [MacroId::CreepColony, MacroId::Spire];

    /// The two build-menu keys, pressed in order before the click.
    pub fn build_keys(self) -> (keys: [Key; 2])
        ensures
            keys == macro_keys(self),
    {
        match self {
            MacroId::CreepColony => [Key::B, Key::C],
            MacroId::Spire => [Key::V, Key::S],
        }
    }

    /// Stable identifier used in logs.
    pub fn name(self) -> (name: &'static str)
        ensures
            name@ == macro_name(self),
    {
        proof {
            reveal_strlit("CreepColony");
            reveal_strlit("Spire");
        }
        match self {
            MacroId::CreepColony => "CreepColony",
            MacroId::Spire => "Spire",
        }
    }
}

/// Which building the unified row-build macro orders.
#[derive(Clone, Copy, Debug, PartialEq, Eq, Structural)]
pub enum BuildTarget {
    /// `B`,`C`: square 2x2 footprint (the default).
    Colony,
    /// `V`,`S`: same calibrated footprint as the Creep Colony.
    Spire,
}

/// Stable config-file spelling of each target.
pub open spec fn target_text(target: BuildTarget) -> Seq<char> {
    match target {
        BuildTarget::Colony => "colony"@,
        BuildTarget::Spire => "spire"@,
    }
}

/// The target whose config spelling is `text`, if any.
pub open spec fn target_from_text(text: Seq<char>) -> Option<BuildTarget> {
    if text == "colony"@ {
        Some(BuildTarget::Colony)
    } else if text == "spire"@ {
        Some(BuildTarget::Spire)
    } else {
        None
    }
}

/// The macro that orders each target.
pub open spec fn target_macro(target: BuildTarget) -> MacroId {
    match target {
        BuildTarget::Colony => MacroId::CreepColony,
        BuildTarget::Spire => MacroId::Spire,
    }
}

/// Footprint width in client pixels, which is also the centre-to-centre
/// spacing of a row.
pub open spec fn target_footprint(target: BuildTarget) -> i32 {
    match target {
        BuildTarget::Colony => 144,
        BuildTarget::Spire => 144,
    }
}

impl Default for BuildTarget {
    fn default() -> (target: Self)
        ensures
            target == BuildTarget::Colony,
    {
        BuildTarget::Colony
    }
}

impl BuildTarget {
    /// Every selectable target, in the order the GUI offers them.
    pub const ALL: [BuildTarget; 2] = [BuildTarget::Colony, BuildTarget::Spire];

    /// Stable config-file spelling.
    pub fn as_str(self) -> (text: &'static str)
        ensures
            text@ == target_text(self),
    {
        proof {
            reveal_strlit("colony");
            reveal_strlit("spire");
        }
        match self {
            BuildTarget::Colony => "colony",
            BuildTarget::Spire => "spire",
        }
    }

    /// Parses [`Self::as_str`]. An unknown string is rejected, never guessed.
    pub fn from_str(value: &str) -> (target: Option<Self>)
        ensures
            target == target_from_text(value@),
    {
        if str_eq(value, BuildTarget::Colony.as_str()) {
            Some(BuildTarget::Colony)
        } else if str_eq(value, BuildTarget::Spire.as_str()) {
            Some(BuildTarget::Spire)
        } else {
            None
        }
    }

    /// Training-name spelling used in logs and diagnostics.
    pub fn name(self) -> (name: &'static str)
        ensures
            name@ == macro_name(target_macro(self)),
    {
        proof {
            reveal_strlit("CreepColony");
            reveal_strlit("Spire");
        }
        match self {
            BuildTarget::Colony => "CreepColony",
            BuildTarget::Spire => "Spire",
        }
    }

    /// The two build-menu keys, pressed in order before each placement click.
    pub fn build_keys(self) -> (keys: [Key; 2])
        ensures
            keys == macro_keys(target_macro(self)),
    {
        match self {
            BuildTarget::Colony => [Key::B, Key::C],
            BuildTarget::Spire => [Key::V, Key::S],
        }
    }

    /// Footprint width in client pixels, and therefore the exact
    /// centre-to-centre spacing of a row.
    pub fn footprint_px(self) -> (px: i32)
        ensures
            px == target_footprint(self),
    {
        match self {
            BuildTarget::Colony => 144,
            BuildTarget::Spire => 144,
        }
    }

    /// Half of [`Self::footprint_px`], used for the safe-area math.
    pub fn half_px(self) -> (px: i32)
        ensures
            px == target_footprint(self) / 2,
    {
        self.footprint_px() / 2
    }

    /// Run-report key of the macro that orders this building.
    pub fn macro_id(self) -> (macro_id: MacroId)
        ensures
            macro_id == target_macro(self),
    {
        match self {
            BuildTarget::Colony => MacroId::CreepColony,
            BuildTarget::Spire => MacroId::Spire,
        }
    }
}

/// Timing knobs in milliseconds, already validated by the configuration.
#[derive(Clone, Copy, Debug, PartialEq, Eq, Structural)]
pub struct Timing {
    /// How long a key stays pressed, and how long a mouse button stays down.
    pub press_ms: u64,
    /// Quiet gap after a completed event, before the next one starts.
    pub gap_ms: u64,
}

impl Timing {
    pub fn from_millis(press_ms: u32, gap_ms: u32) -> (timing: Self)
        ensures
            timing.press_ms == press_ms,
            timing.gap_ms == gap_ms,
    {
        Timing { press_ms: press_ms as u64, gap_ms: gap_ms as u64 }
    }
}

/// One primitive plus the pause, in milliseconds, that follows it.
#[derive(Clone, Copy, Debug, PartialEq, Eq, Structural)]
pub struct PlannedStep {
    pub primitive: Primitive,
    pub delay_after_ms: u64,
}

/// The exact event sequence of one macro: both build keys tapped in order
/// (held for `press`, then a `gap`), then one left click at the cursor.
pub open spec fn plan_steps(macro_id: MacroId, timing: Timing) -> Seq<PlannedStep> {
    let keys = macro_keys(macro_id);
    seq![
        PlannedStep { primitive: Primitive::KeyDown(keys[0]), delay_after_ms: timing.press_ms },
        PlannedStep { primitive: Primitive::KeyUp(keys[0]), delay_after_ms: timing.gap_ms },
        PlannedStep { primitive: Primitive::KeyDown(keys[1]), delay_after_ms: timing.press_ms },
        PlannedStep { primitive: Primitive::KeyUp(keys[1]), delay_after_ms: timing.gap_ms },
        PlannedStep { primitive: Primitive::MouseLeftDown, delay_after_ms: timing.press_ms },
        PlannedStep { primitive: Primitive::MouseLeftUp, delay_after_ms: timing.gap_ms },
    ]
}

/// Builds the exact event sequence for `macro_id`.
///
/// The click happens at the current mouse position; no coordinate is stored.
pub fn plan(macro_id: MacroId, timing: Timing) -> (steps: Vec<PlannedStep>)
    ensures
        steps@ == plan_steps(macro_id, timing),
{
    let keys = macro_id.build_keys();
    let mut steps: Vec<PlannedStep> = Vec::new();
    let mut i: usize = 0;
    while i < 2
        invariant
            i <= 2,
            keys == macro_keys(macro_id),
            steps@ == plan_steps(macro_id, timing).take(2 * i as int),
        decreases 2 - i,
    {
        let key = keys[i];
        steps.push(PlannedStep { primitive: Primitive::KeyDown(key), delay_after_ms: timing.press_ms });
        steps.push(PlannedStep { primitive: Primitive::KeyUp(key), delay_after_ms: timing.gap_ms });
        proof {
            assert(steps@ =~= plan_steps(macro_id, timing).take(2 * (i + 1) as int));
        }
        i = i + 1;
    }
    steps.push(PlannedStep { primitive: Primitive::MouseLeftDown, delay_after_ms: timing.press_ms });
    steps.push(PlannedStep { primitive: Primitive::MouseLeftUp, delay_after_ms: timing.gap_ms });
    assert(steps@ =~= plan_steps(macro_id, timing));
    steps
}

} // verus!
