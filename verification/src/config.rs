//! Settings model, validation and the migration of older settings files.
//!
//! Loading never fails hard: a broken or out-of-range file falls back to the
//! defaults and yields a [`ConfigWarning`] the GUI shows to the user. Reading
//! and writing the file, and the TOML syntax, belong to the application; this
//! module decides what a parsed file means.
use vstd::prelude::*;
use vstd::string::*;

use crate::colony::RowMode;
use crate::hotkey::{
    default_bindings, first_free, key_label, pick_free, stargate_chain, Bindings, HotkeyKey,
    STARGATE_FALLBACK_KEYS,
};
use crate::macros::{BuildTarget, Timing};
use crate::text::{decimal, decimal_text};

verus! {

/// Process name (exe basename) that must own the foreground window before any
/// event is injected.
pub const DEFAULT_TARGET_PROCESS: &'static str = "StarCraft.exe";
/// Smallest accepted press/gap interval, in milliseconds.
pub const MIN_INTERVAL_MS: u32 = 1;
/// Largest accepted press/gap interval, in milliseconds.
pub const MAX_INTERVAL_MS: u32 = 2000;
/// Default press and gap interval, in milliseconds.
pub const DEFAULT_INTERVAL_MS: u32 = 20;
/// Emergency stop key, fixed by design.
pub const EMERGENCY_HOTKEY: HotkeyKey = HotkeyKey::F8;
/// Default row-build trigger key.
pub const DEFAULT_TRIGGER_HOTKEY: HotkeyKey = HotkeyKey::F7;
/// Default key of the Spire action.
pub const DEFAULT_SPIRE_ACTION_HOTKEY: HotkeyKey = HotkeyKey::Tab;
/// Default key of the saved-view Colony search (F5 is a game key).
pub const DEFAULT_VACANT_COLONY_HOTKEY: HotkeyKey = HotkeyKey::F6;
/// Default key of the Stargate action.
pub const DEFAULT_STARGATE_ACTION_HOTKEY: HotkeyKey = HotkeyKey::Tilde;
/// Spire action key used when the row trigger already occupies the default.
pub const FALLBACK_SPIRE_ACTION_HOTKEY: HotkeyKey = HotkeyKey::F9;

/// The Spire action key a file that does not name one gets.
pub open spec fn spire_action_default(trigger: HotkeyKey) -> HotkeyKey {
    if trigger == HotkeyKey::Tab {
        HotkeyKey::F9
    } else {
        HotkeyKey::Tab
    }
}

/// The non-conflicting default for a file that does not name the Spire action.
pub fn default_spire_action_hotkey(trigger: HotkeyKey) -> (key: HotkeyKey)
    ensures
        key == spire_action_default(trigger),
{
    if trigger == DEFAULT_SPIRE_ACTION_HOTKEY {
        FALLBACK_SPIRE_ACTION_HOTKEY
    } else {
        DEFAULT_SPIRE_ACTION_HOTKEY
    }
}

/// The saved-view search key a file that does not name one gets.
pub fn default_vacant_colony_hotkey(trigger: HotkeyKey, action: HotkeyKey) -> (key: HotkeyKey)
    ensures
        key == default_bindings(trigger, action).vacant_colony,
{
    Bindings::new(trigger, action).vacant_colony
}

/// The Stargate key a file that does not name one gets: the first key of the
/// Stargate chain that none of the other bindings (nor F8) occupies.
pub open spec fn stargate_default(trigger: HotkeyKey, action: HotkeyKey, vacant: HotkeyKey) -> HotkeyKey {
    first_free(stargate_chain(), seq![trigger, action, vacant, HotkeyKey::F8])
}

/// The non-conflicting default for a file that does not name the Stargate key.
pub fn default_stargate_action_hotkey(trigger: HotkeyKey, action: HotkeyKey, vacant: HotkeyKey) -> (key:
    HotkeyKey)
    ensures
        key == stargate_default(trigger, action, vacant),
{
    let chain = STARGATE_FALLBACK_KEYS;
    let taken = [trigger, action, vacant, EMERGENCY_HOTKEY];
    proof {
        assert(chain@ == stargate_chain());
        assert(taken@ == seq![trigger, action, vacant, HotkeyKey::F8]);
    }
    pick_free(&chain, &taken)
}

/// Persisted settings.
#[derive(Clone, Debug, PartialEq, Eq)]
pub struct Config {
    /// The single key that starts the row build.
    pub trigger_hotkey: HotkeyKey,
    /// The key that starts the Spire action.
    pub spire_action_hotkey: HotkeyKey,
    /// The key that starts the Stargate action.
    pub stargate_action_hotkey: HotkeyKey,
    /// Tap F2 and wait for the saved view before scanning gates.
    pub stargate_recall_f2: bool,
    /// The saved-view Colony search key.
    pub vacant_colony_hotkey: HotkeyKey,
    /// Which building the row-build macro orders.
    pub build_target: BuildTarget,
    /// Order in which the row's footprints are built.
    pub colony_row_mode: RowMode,
    /// Click anyway when the green placement preview cannot be confirmed.
    pub force_build: bool,
    /// How long a key/button stays pressed, in milliseconds.
    pub press_ms: u32,
    /// Quiet gap between two events, in milliseconds.
    pub gap_ms: u32,
    /// Foreground process (exe basename) allowed to receive input.
    pub target_process: String,
}

/// The documented defaults.
pub open spec fn is_default_config(c: Config) -> bool {
    &&& c.trigger_hotkey == HotkeyKey::F7
    &&& c.spire_action_hotkey == HotkeyKey::Tab
    &&& c.stargate_action_hotkey == HotkeyKey::Tilde
    &&& !c.stargate_recall_f2
    &&& c.vacant_colony_hotkey == HotkeyKey::F6
    &&& c.build_target == BuildTarget::Colony
    &&& c.colony_row_mode == RowMode::LeftToRight
    &&& c.force_build
    &&& c.press_ms == 20
    &&& c.gap_ms == 20
    &&& c.target_process@ == "StarCraft.exe"@
}

impl Default for Config {
    fn default() -> (c: Self)
        ensures
            is_default_config(c),
    {
        Config {
            trigger_hotkey: DEFAULT_TRIGGER_HOTKEY,
            spire_action_hotkey: default_spire_action_hotkey(DEFAULT_TRIGGER_HOTKEY),
            stargate_action_hotkey: DEFAULT_STARGATE_ACTION_HOTKEY,
            stargate_recall_f2: false,
            vacant_colony_hotkey: DEFAULT_VACANT_COLONY_HOTKEY,
            build_target: BuildTarget::Colony,
            colony_row_mode: RowMode::LeftToRight,
            force_build: true,
            press_ms: DEFAULT_INTERVAL_MS,
            gap_ms: DEFAULT_INTERVAL_MS,
            target_process: String::from_str(DEFAULT_TARGET_PROCESS),
        }
    }
}

/// Why a settings file or an edited value was rejected.
#[derive(Clone, Debug, PartialEq, Eq)]
pub enum ConfigError {
    Io(String),
    Parse(String),
    Invalid(String),
}

/// English one-line rendering of a settings error.
pub open spec fn config_error_text(e: ConfigError) -> Seq<char> {
    match e {
        ConfigError::Io(d) => "settings file i/o failed: "@ + d@,
        ConfigError::Parse(d) => "settings file could not be parsed: "@ + d@,
        ConfigError::Invalid(d) => "settings are not usable: "@ + d@,
    }
}

impl ConfigError {
    /// English one-line rendering.
    pub fn message(&self) -> (text: String)
        ensures
            text@ == config_error_text(*self),
    {
        let (prefix, detail) = match self {
            ConfigError::Io(d) => ("settings file i/o failed: ", d),
            ConfigError::Parse(d) => ("settings file could not be parsed: ", d),
            ConfigError::Invalid(d) => ("settings are not usable: ", d),
        };
        let mut text = String::from_str(prefix);
        text.append(detail.as_str());
        text
    }
}

/// Non-fatal problem found while loading; the defaults were used instead.
#[derive(Clone, Debug, PartialEq, Eq)]
pub enum ConfigWarning {
    Read { detail: String },
    Parse { detail: String },
    Invalid { detail: String },
}

impl ConfigWarning {
    pub fn detail(&self) -> (d: &str)
        ensures
            d@ == match *self {
                ConfigWarning::Read { detail } => detail@,
                ConfigWarning::Parse { detail } => detail@,
                ConfigWarning::Invalid { detail } => detail@,
            },
    {
        match self {
            ConfigWarning::Read { detail } => detail.as_str(),
            ConfigWarning::Parse { detail } => detail.as_str(),
            ConfigWarning::Invalid { detail } => detail.as_str(),
        }
    }
}

/// Result of loading: usable settings, plus at most one warning.
#[derive(Clone, Debug, PartialEq, Eq)]
pub struct Loaded {
    pub config: Config,
    pub warning: Option<ConfigWarning>,
}


/// Unicode `White_Space` characters, the set that `str::trim` removes.
pub open spec fn is_white(c: char) -> bool {
    let u = c as u32;
    ||| 0x09 <= u <= 0x0D
    ||| u == 0x20
    ||| u == 0x85
    ||| u == 0xA0
    ||| u == 0x1680
    ||| 0x2000 <= u <= 0x200A
    ||| u == 0x2028
    ||| u == 0x2029
    ||| u == 0x202F
    ||| u == 0x205F
    ||| u == 0x3000
}

/// `s` without its leading white space.
pub open spec fn trim_start(s: Seq<char>) -> Seq<char>
    decreases s.len(),
{
    if s.len() > 0 && is_white(s[0]) {
        trim_start(s.drop_first())
    } else {
        s
    }
}

/// `s` without its trailing white space.
pub open spec fn trim_end(s: Seq<char>) -> Seq<char>
    decreases s.len(),
{
    if s.len() > 0 && is_white(s.last()) {
        trim_end(s.drop_last())
    } else {
        s
    }
}

/// `s` without white space at either end.
pub open spec fn trimmed(s: Seq<char>) -> Seq<char> {
    trim_end(trim_start(s))
}

/// Whether `s` holds a path separator or a drive colon.
pub open spec fn has_path_char(s: Seq<char>) -> bool {
    exists|k: int| 0 <= k < s.len() && (s[k] == '\\' || s[k] == '/' || s[k] == ':')
}

/// Whether `s` ends with `.exe`, letters compared ASCII case-insensitively.
pub open spec fn ends_with_exe(s: Seq<char>) -> bool {
    let n = s.len() as int;
    &&& n >= 4
    &&& s[n - 4] == '.'
    &&& (s[n - 3] == 'e' || s[n - 3] == 'E')
    &&& (s[n - 2] == 'x' || s[n - 2] == 'X')
    &&& (s[n - 1] == 'e' || s[n - 1] == 'E')
}

/// Why a target process name is refused, if it is.
pub open spec fn target_problem(target: Seq<char>) -> Option<Seq<char>> {
    let t = trimmed(target);
    if t.len() == 0 {
        Some("target_process is empty"@)
    } else if has_path_char(t) {
        Some("target_process must be an exe file name without a path, got '"@ + t + "'"@)
    } else if !ends_with_exe(t) {
        Some("target_process must end with .exe, got '"@ + t + "'"@)
    } else {
        None
    }
}

/// Why an interval is refused, if it is.
pub open spec fn interval_problem(field: Seq<char>, value: u32) -> Option<Seq<char>> {
    if 1 <= value <= 2000 {
        None
    } else {
        Some(field + " must be between 1 and 2000, got "@ + decimal_text(value as nat))
    }
}

/// The message for a binding that sits on the emergency key.
pub open spec fn emergency_message(field: Seq<char>) -> Seq<char> {
    field + " is F8, which is reserved for the emergency stop"@
}

/// The message for a binding that sits on the game's F4 view key.
pub open spec fn f4_message(field: Seq<char>) -> Seq<char> {
    field + ": F4 is reserved for the game's saved camera view"@
}

/// The first problem [`Config::validate`] reports, in its order of checks.
pub open spec fn config_problem(c: Config) -> Option<Seq<char>> {
    if interval_problem("press_ms"@, c.press_ms) is Some {
        interval_problem("press_ms"@, c.press_ms)
    } else if interval_problem("gap_ms"@, c.gap_ms) is Some {
        interval_problem("gap_ms"@, c.gap_ms)
    } else if c.trigger_hotkey == HotkeyKey::F8 {
        Some(emergency_message("trigger_hotkey"@))
    } else if c.spire_action_hotkey == HotkeyKey::F8 {
        Some(emergency_message("spire_action_hotkey"@))
    } else if c.stargate_action_hotkey == HotkeyKey::F8 {
        Some(emergency_message("stargate_action_hotkey"@))
    } else if c.spire_action_hotkey == c.trigger_hotkey {
        Some(
            "trigger_hotkey and spire_action_hotkey are both "@ + key_label(c.trigger_hotkey)
                + "; they must differ"@,
        )
    } else if c.trigger_hotkey == HotkeyKey::F4 {
        Some(f4_message("trigger_hotkey"@))
    } else if c.spire_action_hotkey == HotkeyKey::F4 {
        Some(f4_message("spire_action_hotkey"@))
    } else if c.stargate_action_hotkey == HotkeyKey::F4 {
        Some(f4_message("stargate_action_hotkey"@))
    } else if c.vacant_colony_hotkey == HotkeyKey::F4 {
        Some(f4_message("vacant_colony_hotkey"@))
    } else if c.vacant_colony_hotkey == HotkeyKey::F8 || c.vacant_colony_hotkey == c.trigger_hotkey
        || c.vacant_colony_hotkey == c.spire_action_hotkey {
        Some("vacant_colony_hotkey must differ from the other hotkeys and F8"@)
    } else if c.stargate_action_hotkey == c.trigger_hotkey || c.stargate_action_hotkey
        == c.spire_action_hotkey || c.stargate_action_hotkey == c.vacant_colony_hotkey {
        Some("stargate_action_hotkey must differ from the other hotkeys and F8"@)
    } else {
        target_problem(c.target_process@)
    }
}

/// What `validate` answers for a given problem.
pub open spec fn validation_matches(result: Result<(), ConfigError>, problem: Option<Seq<char>>) -> bool {
    match result {
        Ok(()) => problem is None,
        Err(ConfigError::Invalid(detail)) => problem == Some(detail@),
        Err(_) => false,
    }
}

/// Executable form of [`is_white`].
fn white_char(c: char) -> (yes: bool)
    ensures
        yes == is_white(c),
{
    let u = c as u32;
    (0x09 <= u && u <= 0x0D) || u == 0x20 || u == 0x85 || u == 0xA0 || u == 0x1680 || (0x2000 <= u
        && u <= 0x200A) || u == 0x2028 || u == 0x2029 || u == 0x202F || u == 0x205F || u == 0x3000
}

proof fn lemma_trim_start_step(s: Seq<char>, i: int)
    requires
        0 <= i < s.len(),
        is_white(s[i]),
    ensures
        trim_start(s.subrange(i, s.len() as int)) == trim_start(s.subrange(i + 1, s.len() as int)),
{
    assert(s.subrange(i, s.len() as int).drop_first() =~= s.subrange(i + 1, s.len() as int));
}

proof fn lemma_trim_end_step(s: Seq<char>, j: int)
    requires
        0 < j <= s.len(),
        is_white(s[j - 1]),
    ensures
        trim_end(s.subrange(0, j)) == trim_end(s.subrange(0, j - 1)),
{
    assert(s.subrange(0, j).drop_last() =~= s.subrange(0, j - 1));
}

/// `text` without white space at either end.
pub fn trim_white(text: &str) -> (t: &str)
    ensures
        t@ == trimmed(text@),
{
    let n = text.unicode_len();
    let mut i: usize = 0;
    assert(text@.subrange(0, n as int) =~= text@);
    while i < n && white_char(text.get_char(i))
        invariant
            n == text@.len(),
            i <= n,
            trim_start(text@) == trim_start(text@.subrange(i as int, n as int)),
        decreases n - i,
    {
        proof {
            lemma_trim_start_step(text@, i as int);
        }
        i = i + 1;
    }
    let rest = text.substring_char(i, n);
    assert(trim_start(text@) == rest@);
    let m = rest.unicode_len();
    let mut j: usize = m;
    assert(rest@.subrange(0, m as int) =~= rest@);
    while j > 0 && white_char(rest.get_char(j - 1))
        invariant
            m == rest@.len(),
            j <= m,
            trim_end(rest@) == trim_end(rest@.subrange(0, j as int)),
        decreases j,
    {
        proof {
            lemma_trim_end_step(rest@, j as int);
        }
        j = j - 1;
    }
    rest.substring_char(0, j)
}

/// Checks a target process name, as [`target_problem`] describes.
fn validate_target_process(target: &str) -> (result: Result<(), ConfigError>)
    ensures
        validation_matches(result, target_problem(target@)),
{
    let t = trim_white(target);
    let n = t.unicode_len();
    if n == 0 {
        return Err(ConfigError::Invalid(String::from_str("target_process is empty")));
    }
    let mut k: usize = 0;
    while k < n
        invariant
            n == t@.len(),
            n > 0,
            t@ == trimmed(target@),
            k <= n,
            forall|q: int| 0 <= q < k ==> !(t@[q] == '\\' || t@[q] == '/' || t@[q] == ':'),
        decreases n - k,
    {
        let c = t.get_char(k);
        if c == '\\' || c == '/' || c == ':' {
            assert(t@[k as int] == c);
            let mut message = String::from_str(
                "target_process must be an exe file name without a path, got '",
            );
            message.append(t);
            message.append("'");
            return Err(ConfigError::Invalid(message));
        }
        k = k + 1;
    }
    let exe = n >= 4 && t.get_char(n - 4) == '.' && (t.get_char(n - 3) == 'e' || t.get_char(n - 3)
        == 'E') && (t.get_char(n - 2) == 'x' || t.get_char(n - 2) == 'X') && (t.get_char(n - 1)
        == 'e' || t.get_char(n - 1) == 'E');
    if !exe {
        let mut message = String::from_str("target_process must end with .exe, got '");
        message.append(t);
        message.append("'");
        return Err(ConfigError::Invalid(message));
    }
    Ok(())
}

/// Checks one interval, as [`interval_problem`] describes.
fn validate_interval(field: &str, value: u32) -> (result: Result<(), ConfigError>)
    ensures
        validation_matches(result, interval_problem(field@, value)),
{
    if MIN_INTERVAL_MS <= value && value <= MAX_INTERVAL_MS {
        Ok(())
    } else {
        let mut message = String::from_str(field);
        message.append(" must be between 1 and 2000, got ");
        let digits = decimal(value as u128);
        message.append(digits.as_str());
        Err(ConfigError::Invalid(message))
    }
}

/// An `Invalid` error carrying `field` followed by `rest`.
fn invalid_with(field: &str, rest: &str) -> (e: ConfigError)
    ensures
        e matches ConfigError::Invalid(d) && d@ == field@ + rest@,
{
    let mut message = String::from_str(field);
    message.append(rest);
    ConfigError::Invalid(message)
}

impl Config {
    /// Rejects values that would produce unusable or dangerous behaviour.
    pub fn validate(&self) -> (result: Result<(), ConfigError>)
        ensures
            validation_matches(result, config_problem(*self)),
    {
        let press = validate_interval("press_ms", self.press_ms);
        if press.is_err() {
            return press;
        }
        let gap = validate_interval("gap_ms", self.gap_ms);
        if gap.is_err() {
            return gap;
        }
        let emergency = " is F8, which is reserved for the emergency stop";
        if self.trigger_hotkey == EMERGENCY_HOTKEY {
            return Err(invalid_with("trigger_hotkey", emergency));
        }
        if self.spire_action_hotkey == EMERGENCY_HOTKEY {
            return Err(invalid_with("spire_action_hotkey", emergency));
        }
        if self.stargate_action_hotkey == EMERGENCY_HOTKEY {
            return Err(invalid_with("stargate_action_hotkey", emergency));
        }
        if self.spire_action_hotkey == self.trigger_hotkey {
            let mut m = String::from_str("trigger_hotkey and spire_action_hotkey are both ");
            m.append(self.trigger_hotkey.label());
            m.append("; they must differ");
            return Err(ConfigError::Invalid(m));
        }
        let f4 = ": F4 is reserved for the game's saved camera view";
        if self.trigger_hotkey == HotkeyKey::F4 {
            return Err(invalid_with("trigger_hotkey", f4));
        }
        if self.spire_action_hotkey == HotkeyKey::F4 {
            return Err(invalid_with("spire_action_hotkey", f4));
        }
        if self.stargate_action_hotkey == HotkeyKey::F4 {
            return Err(invalid_with("stargate_action_hotkey", f4));
        }
        if self.vacant_colony_hotkey == HotkeyKey::F4 {
            return Err(invalid_with("vacant_colony_hotkey", f4));
        }
        let vacant = self.vacant_colony_hotkey;
        if vacant == EMERGENCY_HOTKEY || vacant == self.trigger_hotkey || vacant
            == self.spire_action_hotkey {
            return Err(
                ConfigError::Invalid(
                    String::from_str("vacant_colony_hotkey must differ from the other hotkeys and F8"),
                ),
            );
        }
        let stargate = self.stargate_action_hotkey;
        if stargate == self.trigger_hotkey || stargate == self.spire_action_hotkey || stargate
            == vacant {
            return Err(
                ConfigError::Invalid(
                    String::from_str(
                        "stargate_action_hotkey must differ from the other hotkeys and F8",
                    ),
                ),
            );
        }
        validate_target_process(self.target_process.as_str())
    }
}


/// The bindings a configuration arms: its four keys and the fixed stop key.
pub open spec fn config_bindings(c: Config) -> Bindings {
    Bindings {
        trigger: c.trigger_hotkey,
        spire_action: c.spire_action_hotkey,
        vacant_colony: c.vacant_colony_hotkey,
        stargate_action: c.stargate_action_hotkey,
        emergency: HotkeyKey::F8,
    }
}

impl Config {
    /// The one timing every macro uses.
    pub fn timing(&self) -> (timing: Timing)
        ensures
            timing.press_ms == self.press_ms,
            timing.gap_ms == self.gap_ms,
    {
        Timing::from_millis(self.press_ms, self.gap_ms)
    }

    /// The shared press/gap pair, for the GUI sliders; nothing else changes.
    pub fn intervals_mut(&mut self) -> (pair: (&mut u32, &mut u32))
        ensures
            *pair.0 == old(self).press_ms,
            *pair.1 == old(self).gap_ms,
            final(self).press_ms == *final(pair.0),
            final(self).gap_ms == *final(pair.1),
            final(self).trigger_hotkey == old(self).trigger_hotkey,
            final(self).spire_action_hotkey == old(self).spire_action_hotkey,
            final(self).stargate_action_hotkey == old(self).stargate_action_hotkey,
            final(self).stargate_recall_f2 == old(self).stargate_recall_f2,
            final(self).vacant_colony_hotkey == old(self).vacant_colony_hotkey,
            final(self).build_target == old(self).build_target,
            final(self).colony_row_mode == old(self).colony_row_mode,
            final(self).force_build == old(self).force_build,
            final(self).target_process == old(self).target_process,
    {
        (&mut self.press_ms, &mut self.gap_ms)
    }

    /// The hotkeys this configuration registers.
    pub fn bindings(&self) -> (b: Bindings)
        ensures
            b == config_bindings(*self),
    {
        Bindings::new(self.trigger_hotkey, self.spire_action_hotkey).with_vacant_colony(
            self.vacant_colony_hotkey,
        ).with_stargate_action(self.stargate_action_hotkey)
    }
}


/// A settings file as read from disk, every key optional but the target.
///
/// Older files stored the two intervals once per macro
/// (`colony_press_ms`/`colony_gap_ms` and `spire_press_ms`/`spire_gap_ms`)
/// instead of the shared `press_ms`/`gap_ms` pair, and named the row trigger
/// `colony_hotkey` or `spire_hotkey`. Exactly one timing schema must be
/// present: a file that mixes them, fills only half of one, or reports two
/// different per-macro pairs is rejected instead of silently losing settings.
#[derive(Clone, Debug, PartialEq, Eq)]
pub struct SettingsFile {
    pub trigger_hotkey: Option<HotkeyKey>,
    pub spire_action_hotkey: Option<HotkeyKey>,
    pub stargate_action_hotkey: Option<HotkeyKey>,
    pub stargate_recall_f2: Option<bool>,
    pub vacant_colony_hotkey: Option<HotkeyKey>,
    /// Removed key: read so that older files load, and then ignored.
    pub spire_scan_only: Option<bool>,
    /// Older spelling of the row trigger.
    pub colony_hotkey: Option<HotkeyKey>,
    /// Older spelling of the row trigger.
    pub spire_hotkey: Option<HotkeyKey>,
    pub build_target: Option<BuildTarget>,
    pub colony_row_mode: Option<RowMode>,
    pub force_build: Option<bool>,
    pub press_ms: Option<u32>,
    pub gap_ms: Option<u32>,
    pub colony_press_ms: Option<u32>,
    pub colony_gap_ms: Option<u32>,
    pub spire_press_ms: Option<u32>,
    pub spire_gap_ms: Option<u32>,
    pub target_process: String,
}

/// The refusal of a file that mixes both timing schemas.
pub open spec fn mixed_timing_message() -> Seq<char> {
    "settings mix the shared press_ms/gap_ms with the per-macro colony_press_ms/colony_gap_ms and spire_press_ms/spire_gap_ms; keep only the shared press_ms/gap_ms pair"@
}

/// The refusal of a file with half of the shared pair.
pub open spec fn half_shared_message() -> Seq<char> {
    "press_ms and gap_ms must both be set; one is missing"@
}

/// The refusal of a file with part of the per-macro pairs.
pub open spec fn incomplete_per_macro_message() -> Seq<char> {
    "per-macro timing is incomplete: colony_press_ms, colony_gap_ms, spire_press_ms and spire_gap_ms must all be set"@
}

/// The refusal of a file without any timing.
pub open spec fn no_timing_message() -> Seq<char> {
    "no timing values found: set press_ms and gap_ms"@
}

/// The refusal of two different per-macro pairs, naming both.
pub open spec fn differing_timing_message(cp: u32, cg: u32, sp: u32, sg: u32) -> Seq<char> {
    "the per-macro timing differs (colony "@ + decimal_text(cp as nat) + "/"@ + decimal_text(
        cg as nat,
    ) + " ms, spire "@ + decimal_text(sp as nat) + "/"@ + decimal_text(sg as nat)
        + " ms) but this version has one shared timing; set press_ms = "@ + decimal_text(
        cp as nat,
    ) + " and gap_ms = "@ + decimal_text(cg as nat) + " explicitly, or delete the per-macro keys"@
}

/// The press/gap pair a file names, or why it names none.
pub open spec fn file_timing(f: SettingsFile) -> Result<(u32, u32), Seq<char>> {
    let shared = f.press_ms is Some || f.gap_ms is Some;
    let per_macro = f.colony_press_ms is Some || f.colony_gap_ms is Some || f.spire_press_ms is Some
        || f.spire_gap_ms is Some;
    if shared && per_macro {
        Err(mixed_timing_message())
    } else if shared {
        if f.press_ms is Some && f.gap_ms is Some {
            Ok((f.press_ms->0, f.gap_ms->0))
        } else {
            Err(half_shared_message())
        }
    } else if per_macro {
        if f.colony_press_ms is Some && f.colony_gap_ms is Some && f.spire_press_ms is Some
            && f.spire_gap_ms is Some {
            let (cp, cg, sp, sg) = (
                f.colony_press_ms->0,
                f.colony_gap_ms->0,
                f.spire_press_ms->0,
                f.spire_gap_ms->0,
            );
            if cp != sp || cg != sg {
                Err(differing_timing_message(cp, cg, sp, sg))
            } else {
                Ok((cp, cg))
            }
        } else {
            Err(incomplete_per_macro_message())
        }
    } else {
        Err(no_timing_message())
    }
}

/// The row trigger a file names, under its current or an older spelling.
pub open spec fn file_trigger(f: SettingsFile) -> HotkeyKey {
    match f.trigger_hotkey {
        Some(k) => k,
        None => match f.colony_hotkey {
            Some(k) => k,
            None => match f.spire_hotkey {
                Some(k) => k,
                None => HotkeyKey::F7,
            },
        },
    }
}

/// `o`'s value, or `d` when it is absent.
pub open spec fn or_default<T>(o: Option<T>, d: T) -> T {
    match o {
        Some(v) => v,
        None => d,
    }
}

/// The Spire action key a file yields.
pub open spec fn file_action(f: SettingsFile) -> HotkeyKey {
    or_default(f.spire_action_hotkey, spire_action_default(file_trigger(f)))
}

/// The saved-view search key a file yields.
pub open spec fn file_vacant(f: SettingsFile) -> HotkeyKey {
    or_default(
        f.vacant_colony_hotkey,
        default_bindings(file_trigger(f), file_action(f)).vacant_colony,
    )
}

/// The Stargate action key a file yields.
pub open spec fn file_stargate(f: SettingsFile) -> HotkeyKey {
    or_default(
        f.stargate_action_hotkey,
        stargate_default(file_trigger(f), file_action(f), file_vacant(f)),
    )
}

/// What a file yields with the given timing, before migration.
pub open spec fn file_config(f: SettingsFile, press: u32, gap: u32) -> Config {
    Config {
        trigger_hotkey: file_trigger(f),
        spire_action_hotkey: file_action(f),
        stargate_action_hotkey: file_stargate(f),
        stargate_recall_f2: or_default(f.stargate_recall_f2, false),
        vacant_colony_hotkey: file_vacant(f),
        build_target: or_default(f.build_target, BuildTarget::Colony),
        colony_row_mode: or_default(f.colony_row_mode, RowMode::LeftToRight),
        force_build: or_default(f.force_build, true),
        press_ms: press,
        gap_ms: gap,
        target_process: f.target_process,
    }
}

/// Reads an optional key, falling back to `d`.
fn key_or(o: Option<HotkeyKey>, d: HotkeyKey) -> (k: HotkeyKey)
    ensures
        k == or_default(o, d),
{
    match o {
        Some(k) => k,
        None => d,
    }
}

/// Reads an optional flag, falling back to `d`.
fn flag_or(o: Option<bool>, d: bool) -> (b: bool)
    ensures
        b == or_default(o, d),
{
    match o {
        Some(b) => b,
        None => d,
    }
}

/// The press/gap pair of a file, as [`file_timing`] states it.
fn timing_of(f: &SettingsFile) -> (result: Result<(u32, u32), ConfigError>)
    ensures
        match (result, file_timing(*f)) {
            (Ok(pair), Ok(expected)) => pair == expected,
            (Err(ConfigError::Invalid(d)), Err(m)) => d@ == m,
            _ => false,
        },
{
    let shared = f.press_ms.is_some() || f.gap_ms.is_some();
    let per_macro = f.colony_press_ms.is_some() || f.colony_gap_ms.is_some()
        || f.spire_press_ms.is_some() || f.spire_gap_ms.is_some();
    if shared && per_macro {
        return Err(
            ConfigError::Invalid(
                String::from_str(
                    "settings mix the shared press_ms/gap_ms with the per-macro colony_press_ms/colony_gap_ms and spire_press_ms/spire_gap_ms; keep only the shared press_ms/gap_ms pair",
                ),
            ),
        );
    }
    if shared {
        return match (f.press_ms, f.gap_ms) {
            (Some(press), Some(gap)) => Ok((press, gap)),
            _ => Err(
                ConfigError::Invalid(
                    String::from_str("press_ms and gap_ms must both be set; one is missing"),
                ),
            ),
        };
    }
    if !per_macro {
        return Err(
            ConfigError::Invalid(
                String::from_str("no timing values found: set press_ms and gap_ms"),
            ),
        );
    }
    match (f.colony_press_ms, f.colony_gap_ms, f.spire_press_ms, f.spire_gap_ms) {
        (Some(cp), Some(cg), Some(sp), Some(sg)) => {
            if cp != sp || cg != sg {
                let cp_text = decimal(cp as u128);
                let cg_text = decimal(cg as u128);
                let sp_text = decimal(sp as u128);
                let sg_text = decimal(sg as u128);
                let mut m = String::from_str("the per-macro timing differs (colony ");
                m.append(cp_text.as_str());
                m.append("/");
                m.append(cg_text.as_str());
                m.append(" ms, spire ");
                m.append(sp_text.as_str());
                m.append("/");
                m.append(sg_text.as_str());
                m.append(" ms) but this version has one shared timing; set press_ms = ");
                m.append(cp_text.as_str());
                m.append(" and gap_ms = ");
                m.append(cg_text.as_str());
                m.append(" explicitly, or delete the per-macro keys");
                Err(ConfigError::Invalid(m))
            } else {
                Ok((cp, cg))
            }
        },
        _ => Err(
            ConfigError::Invalid(
                String::from_str(
                    "per-macro timing is incomplete: colony_press_ms, colony_gap_ms, spire_press_ms and spire_gap_ms must all be set",
                ),
            ),
        ),
    }
}

/// A key the file does not name loads as the default configuration's
/// value: the Stargate camera recall, the build target, the row mode and the
/// forced build each take the defaults' value, and with no row trigger named
/// under any spelling the hotkeys the file leaves out are the defaults' too.
pub proof fn lemma_unnamed_keys_load_as_defaults(f: SettingsFile, press: u32, gap: u32, d: Config)
    requires
        is_default_config(d),
    ensures
        ({
            let c = file_config(f, press, gap);
            &&& f.stargate_recall_f2 is None ==> c.stargate_recall_f2 == d.stargate_recall_f2
            &&& f.build_target is None ==> c.build_target == d.build_target
            &&& f.colony_row_mode is None ==> c.colony_row_mode == d.colony_row_mode
            &&& f.force_build is None ==> c.force_build == d.force_build
            &&& f.trigger_hotkey is None && f.colony_hotkey is None && f.spire_hotkey is None ==> {
                &&& c.trigger_hotkey == d.trigger_hotkey
                &&& f.spire_action_hotkey is None ==> {
                    &&& c.spire_action_hotkey == d.spire_action_hotkey
                    &&& f.vacant_colony_hotkey is None ==> {
                        &&& c.vacant_colony_hotkey == d.vacant_colony_hotkey
                        &&& f.stargate_action_hotkey is None ==> c.stargate_action_hotkey
                            == d.stargate_action_hotkey
                    }
                }
            }
            &&& c.press_ms == press && c.gap_ms == gap
        }),
{
    reveal_with_fuel(first_free, 3);
    assert(seq![HotkeyKey::F7, HotkeyKey::Tab].contains(HotkeyKey::F7)) by {
        assert(seq![HotkeyKey::F7, HotkeyKey::Tab][0] == HotkeyKey::F7);
    }
    let taken = seq![HotkeyKey::F7, HotkeyKey::Tab, HotkeyKey::F6, HotkeyKey::F8];
    assert(!taken.contains(HotkeyKey::Tilde));
    assert(!seq![HotkeyKey::F7, HotkeyKey::Tab].contains(HotkeyKey::F6));
}

impl SettingsFile {
    /// The settings a file names, with free defaults for the keys it does
    /// not name. The removed `spire_scan_only` key is ignored whatever its
    /// value. Fails only on the timing rules of [`file_timing`].
    pub fn into_config(self) -> (result: Result<Config, ConfigError>)
        ensures
            match (result, file_timing(self)) {
                (Ok(c), Ok((press, gap))) => c == file_config(self, press, gap),
                (Err(ConfigError::Invalid(d)), Err(m)) => d@ == m,
                _ => false,
            },
    {
        let (press_ms, gap_ms) = match timing_of(&self) {
            Ok(pair) => pair,
            Err(e) => {
                return Err(e);
            },
        };
        let trigger = match self.trigger_hotkey {
            Some(k) => k,
            None => key_or(key_or_none(self.colony_hotkey, self.spire_hotkey), DEFAULT_TRIGGER_HOTKEY),
        };
        let action = match self.spire_action_hotkey {
            Some(k) => k,
            None => default_spire_action_hotkey(trigger),
        };
        let vacant = match self.vacant_colony_hotkey {
            Some(k) => k,
            None => default_vacant_colony_hotkey(trigger, action),
        };
        let stargate = match self.stargate_action_hotkey {
            Some(k) => k,
            None => default_stargate_action_hotkey(trigger, action, vacant),
        };
        let build_target = match self.build_target {
            Some(t) => t,
            None => BuildTarget::Colony,
        };
        let colony_row_mode = match self.colony_row_mode {
            Some(m) => m,
            None => RowMode::LeftToRight,
        };
        Ok(
            Config {
                trigger_hotkey: trigger,
                spire_action_hotkey: action,
                stargate_action_hotkey: stargate,
                stargate_recall_f2: flag_or(self.stargate_recall_f2, false),
                vacant_colony_hotkey: vacant,
                build_target,
                colony_row_mode,
                force_build: flag_or(self.force_build, true),
                press_ms,
                gap_ms,
                target_process: self.target_process,
            },
        )
    }
}

/// The first of two optional keys that is present.
fn key_or_none(first: Option<HotkeyKey>, second: Option<HotkeyKey>) -> (k: Option<HotkeyKey>)
    ensures
        k == match first {
            Some(a) => Some(a),
            None => second,
        },
{
    match first {
        Some(a) => Some(a),
        None => second,
    }
}


/// The two default-key moves of older installs: the F6/F7 row pair becomes
/// F7/Tab, and a Tilde row trigger with the Stargate on F7 swaps the two.
/// Any other explicit pair is a custom binding and stays.
pub open spec fn migrate(c: Config) -> Config {
    let c1 = if c.trigger_hotkey == HotkeyKey::F6 && c.spire_action_hotkey == HotkeyKey::F7 {
        Config { trigger_hotkey: HotkeyKey::F7, spire_action_hotkey: HotkeyKey::Tab, ..c }
    } else {
        c
    };
    if c1.trigger_hotkey == HotkeyKey::Tilde && c1.stargate_action_hotkey == HotkeyKey::F7 {
        Config { trigger_hotkey: HotkeyKey::F7, stargate_action_hotkey: HotkeyKey::Tilde, ..c1 }
    } else {
        c1
    }
}

/// The settings a file yields once migrated and validated, or the message of
/// the first refusal.
pub open spec fn loaded_config(f: SettingsFile) -> Result<Config, Seq<char>> {
    match file_timing(f) {
        Err(m) => Err(m),
        Ok((press, gap)) => {
            let c = migrate(file_config(f, press, gap));
            match config_problem(c) {
                None => Ok(c),
                Some(m) => Err(m),
            }
        },
    }
}

/// The file a configuration is written as: every current key, the shared
/// timing pair, and none of the older keys.
pub open spec fn written_file(c: Config) -> SettingsFile {
    SettingsFile {
        trigger_hotkey: Some(c.trigger_hotkey),
        spire_action_hotkey: Some(c.spire_action_hotkey),
        stargate_action_hotkey: Some(c.stargate_action_hotkey),
        stargate_recall_f2: Some(c.stargate_recall_f2),
        vacant_colony_hotkey: Some(c.vacant_colony_hotkey),
        spire_scan_only: None,
        colony_hotkey: None,
        spire_hotkey: None,
        build_target: Some(c.build_target),
        colony_row_mode: Some(c.colony_row_mode),
        force_build: Some(c.force_build),
        press_ms: Some(c.press_ms),
        gap_ms: Some(c.gap_ms),
        colony_press_ms: None,
        colony_gap_ms: None,
        spire_press_ms: None,
        spire_gap_ms: None,
        target_process: c.target_process,
    }
}

impl Config {
    /// Reads one parsed settings file: the keys it names, free defaults for
    /// the others, the default-key migration, then [`Config::validate`].
    pub fn from_file(file: SettingsFile) -> (result: Result<Config, ConfigError>)
        ensures
            match (result, loaded_config(file)) {
                (Ok(c), Ok(expected)) => c == expected,
                (Err(ConfigError::Invalid(d)), Err(m)) => d@ == m,
                _ => false,
            },
    {
        let mut config = match file.into_config() {
            Ok(c) => c,
            Err(e) => {
                return Err(e);
            },
        };
        if config.trigger_hotkey == HotkeyKey::F6 && config.spire_action_hotkey == HotkeyKey::F7 {
            config.trigger_hotkey = DEFAULT_TRIGGER_HOTKEY;
            config.spire_action_hotkey = DEFAULT_SPIRE_ACTION_HOTKEY;
        }
        if config.trigger_hotkey == HotkeyKey::Tilde && config.stargate_action_hotkey
            == HotkeyKey::F7 {
            config.trigger_hotkey = HotkeyKey::F7;
            config.stargate_action_hotkey = HotkeyKey::Tilde;
        }
        match config.validate() {
            Ok(()) => Ok(config),
            Err(e) => Err(e),
        }
    }

    /// The file this configuration is saved as; refused when it does not
    /// validate, so an unusable value is never written.
    pub fn to_file(&self) -> (result: Result<SettingsFile, ConfigError>)
        ensures
            match result {
                Ok(f) => config_problem(*self) is None && f == written_file(*self),
                Err(ConfigError::Invalid(d)) => config_problem(*self) == Some(d@),
                Err(_) => false,
            },
    {
        match self.validate() {
            Ok(()) => {},
            Err(e) => {
                return Err(e);
            },
        }
        Ok(
            SettingsFile {
                trigger_hotkey: Some(self.trigger_hotkey),
                spire_action_hotkey: Some(self.spire_action_hotkey),
                stargate_action_hotkey: Some(self.stargate_action_hotkey),
                stargate_recall_f2: Some(self.stargate_recall_f2),
                vacant_colony_hotkey: Some(self.vacant_colony_hotkey),
                spire_scan_only: None,
                colony_hotkey: None,
                spire_hotkey: None,
                build_target: Some(self.build_target),
                colony_row_mode: Some(self.colony_row_mode),
                force_build: Some(self.force_build),
                press_ms: Some(self.press_ms),
                gap_ms: Some(self.gap_ms),
                colony_press_ms: None,
                colony_gap_ms: None,
                spire_press_ms: None,
                spire_gap_ms: None,
                target_process: self.target_process.clone(),
            },
        )
    }
}

/// The defaults, which every fallback of loading uses.
fn default_config() -> (c: Config)
    ensures
        is_default_config(c),
{
    Config::default()
}

impl Loaded {
    /// A missing file: the defaults, silently.
    pub fn defaults() -> (loaded: Loaded)
        ensures
            is_default_config(loaded.config),
            loaded.warning is None,
    {
        Loaded { config: default_config(), warning: None }
    }

    /// A file that could not be read: the defaults and a visible warning.
    pub fn unreadable(detail: String) -> (loaded: Loaded)
        ensures
            is_default_config(loaded.config),
            loaded.warning == Some(ConfigWarning::Read { detail }),
    {
        Loaded { config: default_config(), warning: Some(ConfigWarning::Read { detail }) }
    }

    /// A file that was read: its settings, or the defaults and a warning that
    /// keeps the reason. Loading never fails hard.
    pub fn from_parsed(result: Result<Config, ConfigError>) -> (loaded: Loaded)
        ensures
            match result {
                Ok(c) => loaded.config == c && loaded.warning is None,
                Err(ConfigError::Parse(d)) => is_default_config(loaded.config)
                    && loaded.warning == Some(ConfigWarning::Parse { detail: d }),
                Err(e) => is_default_config(loaded.config) && (loaded.warning matches Some(
                    ConfigWarning::Invalid { detail },
                ) && detail@ == config_error_text(e)),
            },
    {
        match result {
            Ok(config) => Loaded { config, warning: None },
            Err(ConfigError::Parse(detail)) => Loaded {
                config: default_config(),
                warning: Some(ConfigWarning::Parse { detail }),
            },
            Err(other) => {
                let detail = other.message();
                Loaded { config: default_config(), warning: Some(ConfigWarning::Invalid { detail }) }
            },
        }
    }
}


/// The removed `spire_scan_only` key changes nothing: a file loads to the same
/// settings, or fails with the same message, whatever value it stores.
pub proof fn lemma_scan_only_is_ignored(f: SettingsFile, stored: Option<bool>)
    ensures
        loaded_config(SettingsFile { spire_scan_only: stored, ..f }) == loaded_config(f),
{
    let g = SettingsFile { spire_scan_only: stored, ..f };
    assert(file_timing(g) == file_timing(f));
    assert(file_trigger(g) == file_trigger(f));
    assert(file_stargate(g) == file_stargate(f));
    match file_timing(f) {
        Ok((press, gap)) => {
            assert(file_config(g, press, gap) == file_config(f, press, gap));
        },
        Err(_) => {},
    }
}

/// The documented defaults pass validation.
pub proof fn lemma_defaults_are_valid(c: Config)
    requires
        is_default_config(c),
    ensures
        config_problem(c) is None,
{
    reveal_strlit("StarCraft.exe");
    let t = c.target_process@;
    assert(!is_white(t[0]));
    assert(trim_start(t) == t);
    assert(!is_white(t.last()));
    assert(trim_end(t) == t);
    assert(!has_path_char(t));
}

/// Whatever passes validation has intervals in range, no binding on the
/// emergency key or the game's F4 view key, and four different keys.
pub proof fn lemma_valid_bindings_are_distinct(c: Config)
    requires
        config_problem(c) is None,
    ensures
        1 <= c.press_ms <= 2000,
        1 <= c.gap_ms <= 2000,
        c.trigger_hotkey != HotkeyKey::F8 && c.trigger_hotkey != HotkeyKey::F4,
        c.spire_action_hotkey != HotkeyKey::F8 && c.spire_action_hotkey != HotkeyKey::F4,
        c.vacant_colony_hotkey != HotkeyKey::F8 && c.vacant_colony_hotkey != HotkeyKey::F4,
        c.stargate_action_hotkey != HotkeyKey::F8 && c.stargate_action_hotkey != HotkeyKey::F4,
        c.trigger_hotkey != c.spire_action_hotkey,
        c.vacant_colony_hotkey != c.trigger_hotkey,
        c.vacant_colony_hotkey != c.spire_action_hotkey,
        c.stargate_action_hotkey != c.trigger_hotkey,
        c.stargate_action_hotkey != c.spire_action_hotkey,
        c.stargate_action_hotkey != c.vacant_colony_hotkey,
        trimmed(c.target_process@).len() > 0,
{
}

/// The default-key migration changes a configuration at most once: what it
/// yields is left alone by a second pass.
pub proof fn lemma_migration_is_idempotent(c: Config)
    ensures
        migrate(migrate(c)) == migrate(c),
{
}

/// A valid configuration that the default-key migration leaves alone is read
/// back unchanged from the file it is saved as.
pub proof fn lemma_written_file_reads_back(c: Config)
    requires
        config_problem(c) is None,
        migrate(c) == c,
    ensures
        loaded_config(written_file(c)) == Ok::<Config, Seq<char>>(c),
{
    let f = written_file(c);
    assert(file_timing(f) == Ok::<(u32, u32), Seq<char>>((c.press_ms, c.gap_ms)));
    assert(file_config(f, c.press_ms, c.gap_ms) == c);
}

/// Whatever a file loads to is saved as a file that loads to the same
/// settings: a migrated file is rewritten in the current schema for good.
pub proof fn lemma_loaded_settings_round_trip(f: SettingsFile)
    requires
        loaded_config(f) is Ok,
    ensures
        loaded_config(written_file(loaded_config(f)->Ok_0)) == loaded_config(f),
{
    let c = loaded_config(f)->Ok_0;
    let (press, gap) = file_timing(f)->Ok_0;
    lemma_migration_is_idempotent(file_config(f, press, gap));
    lemma_written_file_reads_back(c);
}

} // verus!
