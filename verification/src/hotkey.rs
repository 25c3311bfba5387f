//! Hotkey model and the transactional registration protocol.
//!
//! The protocol lives here so that the "never leave a half-registered arm
//! behind" rule is independent of the OS: an implementation only has to
//! answer one register / unregister call per binding.
use vstd::prelude::*;
use vstd::string::*;

use crate::text::{digits_value, function_key_number};

verus! {

/// Keys a user may bind to a macro. F8 stays reserved for the emergency stop.
#[derive(Clone, Copy, Debug, PartialEq, Eq, Hash, Structural)]
pub enum HotkeyKey {
    Tilde,
    Tab,
    F1,
    F2,
    F3,
    F4,
    F5,
    F6,
    F7,
    F8,
    F9,
    F10,
    F11,
    F12,
}

/// Display name of each key; the same spelling the settings file uses.
pub open spec fn key_label(key: HotkeyKey) -> Seq<char> {
    match key {
        HotkeyKey::Tilde => "Tilde"@,
        HotkeyKey::Tab => "Tab"@,
        HotkeyKey::F1 => "F1"@,
        HotkeyKey::F2 => "F2"@,
        HotkeyKey::F3 => "F3"@,
        HotkeyKey::F4 => "F4"@,
        HotkeyKey::F5 => "F5"@,
        HotkeyKey::F6 => "F6"@,
        HotkeyKey::F7 => "F7"@,
        HotkeyKey::F8 => "F8"@,
        HotkeyKey::F9 => "F9"@,
        HotkeyKey::F10 => "F10"@,
        HotkeyKey::F11 => "F11"@,
        HotkeyKey::F12 => "F12"@,
    }
}

/// Win32 virtual key code of each key.
pub open spec fn key_vk(key: HotkeyKey) -> u16 {
    match key {
        HotkeyKey::Tilde => 0xC0,
        HotkeyKey::Tab => 0x09,
        HotkeyKey::F1 => 0x70,
        HotkeyKey::F2 => 0x71,
        HotkeyKey::F3 => 0x72,
        HotkeyKey::F4 => 0x73,
        HotkeyKey::F5 => 0x74,
        HotkeyKey::F6 => 0x75,
        HotkeyKey::F7 => 0x76,
        HotkeyKey::F8 => 0x77,
        HotkeyKey::F9 => 0x78,
        HotkeyKey::F10 => 0x79,
        HotkeyKey::F11 => 0x7A,
        HotkeyKey::F12 => 0x7B,
    }
}

/// Every key registers as the Win32 code of the key its label names: a
/// function key `Fn` as `VK_F1 + (n - 1)`, Tilde as `VK_OEM_3` and Tab as
/// `VK_TAB`.
pub proof fn lemma_virtual_key_follows_the_label(key: HotkeyKey)
    ensures
        function_key_number(key_label(key)) matches Some(n) ==> key_vk(key) == 0x6F + n,
        function_key_number(key_label(key)) is None ==> (key_label(key) == "Tilde"@ && key_vk(key)
            == 0xC0) || (key_label(key) == "Tab"@ && key_vk(key) == 0x09),
{
    reveal_with_fuel(digits_value, 3);
    reveal_strlit("Tilde");
    reveal_strlit("Tab");
    reveal_strlit("F1");
    reveal_strlit("F2");
    reveal_strlit("F3");
    reveal_strlit("F4");
    reveal_strlit("F5");
    reveal_strlit("F6");
    reveal_strlit("F7");
    reveal_strlit("F8");
    reveal_strlit("F9");
    reveal_strlit("F10");
    reveal_strlit("F11");
    reveal_strlit("F12");
    let l = key_label(key);
    if l.len() >= 2 {
        assert(l.skip(1).drop_last() =~= l.subrange(1, l.len() - 1));
    }
    match key {
        HotkeyKey::F10 | HotkeyKey::F11 | HotkeyKey::F12 => {
            assert(l.skip(1) =~= seq!['1', l[2]]);
            assert(l.skip(1).drop_last() =~= seq!['1']);
        },
        HotkeyKey::Tilde | HotkeyKey::Tab => {},
        _ => {
            assert(l.skip(1) =~= seq![l[1]]);
            assert(l.skip(1).drop_last() =~= Seq::<char>::empty());
        },
    }
}

/// No two keys register as the same Win32 code, so no binding can shadow
/// another one.
pub proof fn lemma_virtual_keys_are_distinct(a: HotkeyKey, b: HotkeyKey)
    ensures
        key_vk(a) == key_vk(b) ==> a == b,
{
}

impl HotkeyKey {
    pub const ALL: [HotkeyKey; 14] = [
        HotkeyKey::Tilde,
        HotkeyKey::Tab,
        HotkeyKey::F1,
        HotkeyKey::F2,
        HotkeyKey::F3,
        HotkeyKey::F4,
        HotkeyKey::F5,
        HotkeyKey::F6,
        HotkeyKey::F7,
        HotkeyKey::F8,
        HotkeyKey::F9,
        HotkeyKey::F10,
        HotkeyKey::F11,
        HotkeyKey::F12,
    ];

    /// Emergency key. Fixed by design: the panic button must not depend on
    /// configuration that may itself be wrong.
    pub const EMERGENCY: HotkeyKey = HotkeyKey::F8;

    /// Display name; matches the spelling used in the settings file.
    pub fn label(self) -> (label: &'static str)
        ensures
            label@ == key_label(self),
    {
        proof {
            reveal_strlit("Tilde");
            reveal_strlit("Tab");
            reveal_strlit("F1");
            reveal_strlit("F2");
            reveal_strlit("F3");
            reveal_strlit("F4");
            reveal_strlit("F5");
            reveal_strlit("F6");
            reveal_strlit("F7");
            reveal_strlit("F8");
            reveal_strlit("F9");
            reveal_strlit("F10");
            reveal_strlit("F11");
            reveal_strlit("F12");
        }
        match self {
            HotkeyKey::Tilde => "Tilde",
            HotkeyKey::Tab => "Tab",
            HotkeyKey::F1 => "F1",
            HotkeyKey::F2 => "F2",
            HotkeyKey::F3 => "F3",
            HotkeyKey::F4 => "F4",
            HotkeyKey::F5 => "F5",
            HotkeyKey::F6 => "F6",
            HotkeyKey::F7 => "F7",
            HotkeyKey::F8 => "F8",
            HotkeyKey::F9 => "F9",
            HotkeyKey::F10 => "F10",
            HotkeyKey::F11 => "F11",
            HotkeyKey::F12 => "F12",
        }
    }

    /// Win32 virtual key code used by `RegisterHotKey`.
    pub fn virtual_key(self) -> (vk: u16)
        ensures
            vk == key_vk(self),
    {
        match self {
            HotkeyKey::Tilde => 0xC0,
            HotkeyKey::Tab => 0x09,
            HotkeyKey::F1 => 0x70,
            HotkeyKey::F2 => 0x71,
            HotkeyKey::F3 => 0x72,
            HotkeyKey::F4 => 0x73,
            HotkeyKey::F5 => 0x74,
            HotkeyKey::F6 => 0x75,
            HotkeyKey::F7 => 0x76,
            HotkeyKey::F8 => 0x77,
            HotkeyKey::F9 => 0x78,
            HotkeyKey::F10 => 0x79,
            HotkeyKey::F11 => 0x7A,
            HotkeyKey::F12 => 0x7B,
        }
    }
}

/// The roles a hotkey can have. The numeric id is what Win32 delivers back in
/// `WM_HOTKEY.wParam`.
#[derive(Clone, Copy, Debug, PartialEq, Eq, Hash, Structural)]
pub enum HotkeySlot {
    /// The single row-build trigger.
    Trigger,
    /// The Spire action: scan the screen, click each Spire, verified `A`.
    SpireAction,
    /// The saved-view Colony search.
    VacantColony,
    /// The Stargate action: scan, click each Stargate, verified `A`.
    StargateAction,
    /// The emergency stop. Fixed to F8 and never configurable.
    Emergency,
}

/// Numeric id of each slot.
pub open spec fn slot_id(slot: HotkeySlot) -> i32 {
    match slot {
        HotkeySlot::Trigger => 1,
        HotkeySlot::SpireAction => 2,
        HotkeySlot::Emergency => 3,
        HotkeySlot::VacantColony => 4,
        HotkeySlot::StargateAction => 5,
    }
}

/// Every slot registers under its own id, one of `1..=5`, so a hotkey
/// message always names one slot.
pub proof fn lemma_slot_ids_are_distinct(a: HotkeySlot, b: HotkeySlot)
    ensures
        1 <= slot_id(a) <= 5,
        slot_id(a) == slot_id(b) ==> a == b,
{
}

/// English label of each slot.
pub open spec fn slot_label(slot: HotkeySlot) -> Seq<char> {
    match slot {
        HotkeySlot::Trigger => "trigger"@,
        HotkeySlot::SpireAction => "spire action"@,
        HotkeySlot::VacantColony => "vacant colony"@,
        HotkeySlot::StargateAction => "stargate action"@,
        HotkeySlot::Emergency => "emergency"@,
    }
}

impl HotkeySlot {
    pub const ALL: [HotkeySlot; 5] = [
        HotkeySlot::Trigger,
        HotkeySlot::SpireAction,
        HotkeySlot::VacantColony,
        HotkeySlot::StargateAction,
        HotkeySlot::Emergency,
    ];

    pub fn id(self) -> (id: i32)
        ensures
            id == slot_id(self),
    {
        match self {
            HotkeySlot::Trigger => 1,
            HotkeySlot::SpireAction => 2,
            HotkeySlot::Emergency => 3,
            HotkeySlot::VacantColony => 4,
            HotkeySlot::StargateAction => 5,
        }
    }

    /// The slot with numeric id `id`, if there is one.
    pub fn from_id(id: i32) -> (slot: Option<HotkeySlot>)
        ensures
            slot matches Some(s) ==> slot_id(s) == id,
            slot is None <==> !(1 <= id <= 5),
    {
        match id {
            1 => Some(HotkeySlot::Trigger),
            2 => Some(HotkeySlot::SpireAction),
            3 => Some(HotkeySlot::Emergency),
            4 => Some(HotkeySlot::VacantColony),
            5 => Some(HotkeySlot::StargateAction),
            _ => None,
        }
    }

    pub fn label(self) -> (label: &'static str)
        ensures
            label@ == slot_label(self),
    {
        proof {
            reveal_strlit("trigger");
            reveal_strlit("spire action");
            reveal_strlit("vacant colony");
            reveal_strlit("stargate action");
            reveal_strlit("emergency");
        }
        match self {
            HotkeySlot::Trigger => "trigger",
            HotkeySlot::SpireAction => "spire action",
            HotkeySlot::VacantColony => "vacant colony",
            HotkeySlot::StargateAction => "stargate action",
            HotkeySlot::Emergency => "emergency",
        }
    }
}

/// Free keys tried, in order, for the saved-view search when a settings file
/// does not name one. F4 (the game's saved view), F5 (a game key) and F8 (the
/// emergency stop) are never offered.
pub const VACANT_FALLBACK_KEYS: [HotkeyKey; 6] = [
    HotkeyKey::F6,
    HotkeyKey::F7,
    HotkeyKey::F9,
    HotkeyKey::F10,
    HotkeyKey::F11,
    HotkeyKey::F12,
];

/// Free keys tried, in order, for the Stargate action when a settings file
/// does not name one. Tilde is the normal default.
pub const STARGATE_FALLBACK_KEYS: [HotkeyKey; 5] = [
    HotkeyKey::Tilde,
    HotkeyKey::F9,
    HotkeyKey::F10,
    HotkeyKey::F11,
    HotkeyKey::F12,
];

/// The vacant-search fallback keys as a sequence.
pub open spec fn vacant_chain() -> Seq<HotkeyKey> {
    seq![
        HotkeyKey::F6,
        HotkeyKey::F7,
        HotkeyKey::F9,
        HotkeyKey::F10,
        HotkeyKey::F11,
        HotkeyKey::F12,
    ]
}

/// The Stargate fallback keys as a sequence.
pub open spec fn stargate_chain() -> Seq<HotkeyKey> {
    seq![HotkeyKey::Tilde, HotkeyKey::F9, HotkeyKey::F10, HotkeyKey::F11, HotkeyKey::F12]
}

/// The first key of `chain` that is not in `taken` (the chain's last key if
/// every key is taken).
pub open spec fn first_free(chain: Seq<HotkeyKey>, taken: Seq<HotkeyKey>) -> HotkeyKey
    decreases chain.len(),
{
    if chain.len() <= 1 {
        chain[0]
    } else if !taken.contains(chain[0]) {
        chain[0]
    } else {
        first_free(chain.drop_first(), taken)
    }
}

/// The first key of `chain` that is not in `taken`.
pub fn pick_free(chain: &[HotkeyKey], taken: &[HotkeyKey]) -> (key: HotkeyKey)
    requires
        chain@.len() > 0,
    ensures
        key == first_free(chain@, taken@),
{
    let n = chain.len();
    let mut i: usize = 0;
    proof {
        assert(chain@.skip(0) =~= chain@);
    }
    while i < n - 1
        invariant
            n == chain@.len(),
            i < n,
            first_free(chain@.skip(i as int), taken@) == first_free(chain@, taken@),
        decreases n - i,
    {
        let key = chain[i];
        let mut j: usize = 0;
        let mut taken_here = false;
        while j < taken.len()
            invariant
                j <= taken@.len(),
                taken_here == exists|k: int| 0 <= k < j && taken@[k] == key,
            decreases taken@.len() - j,
        {
            if taken[j] == key {
                taken_here = true;
            }
            j = j + 1;
        }
        proof {
            assert(chain@.skip(i as int)[0] == key);
            assert(chain@.skip(i as int).drop_first() =~= chain@.skip(i + 1));
            if !taken_here {
                assert(!taken@.contains(key));
            } else {
                let k = choose|k: int| 0 <= k < j && taken@[k] == key;
                assert(taken@.contains(key));
            }
        }
        if !taken_here {
            return key;
        }
        i = i + 1;
    }
    proof {
        assert(chain@.skip(i as int).len() == 1);
    }
    chain[i]
}

/// The complete set of hotkeys registered while the app is armed.
#[derive(Clone, Copy, Debug, PartialEq, Eq, Structural)]
pub struct Bindings {
    pub trigger: HotkeyKey,
    pub spire_action: HotkeyKey,
    pub vacant_colony: HotkeyKey,
    pub stargate_action: HotkeyKey,
    pub emergency: HotkeyKey,
}

/// The bindings [`Bindings::new`] builds: the two given keys, free defaults
/// for the saved-view search and the Stargate action, and the fixed stop key.
pub open spec fn default_bindings(trigger: HotkeyKey, spire_action: HotkeyKey) -> Bindings {
    let vacant = first_free(vacant_chain(), seq![trigger, spire_action]);
    Bindings {
        trigger,
        spire_action,
        vacant_colony: vacant,
        stargate_action: first_free(stargate_chain(), seq![trigger, spire_action, vacant]),
        emergency: HotkeyKey::F8,
    }
}

/// The key bound to `slot`.
pub open spec fn binding_of(b: Bindings, slot: HotkeySlot) -> HotkeyKey {
    match slot {
        HotkeySlot::Trigger => b.trigger,
        HotkeySlot::SpireAction => b.spire_action,
        HotkeySlot::VacantColony => b.vacant_colony,
        HotkeySlot::StargateAction => b.stargate_action,
        HotkeySlot::Emergency => b.emergency,
    }
}

/// Registration order: the row trigger and the Spire action, then the
/// emergency stop, so that the stop key is live before either of the later
/// action keys; the saved-view search and the Stargate action come last.
pub open spec fn slot_order() -> Seq<HotkeySlot> {
    seq![
        HotkeySlot::Trigger,
        HotkeySlot::SpireAction,
        HotkeySlot::Emergency,
        HotkeySlot::VacantColony,
        HotkeySlot::StargateAction,
    ]
}

/// Every `(slot, key)` pair of `b`, in registration order.
pub open spec fn slot_pairs(b: Bindings) -> Seq<(HotkeySlot, HotkeyKey)> {
    slot_order().map_values(|s: HotkeySlot| (s, binding_of(b, s)))
}

impl Bindings {
    /// The configurable row trigger and Spire action, free defaults for the
    /// other two actions, and the fixed emergency stop.
    pub fn new(trigger: HotkeyKey, spire_action: HotkeyKey) -> (b: Self)
        ensures
            b == default_bindings(trigger, spire_action),
    {
        let vacant_keys = VACANT_FALLBACK_KEYS;
        let stargate_keys = STARGATE_FALLBACK_KEYS;
        let taken = [trigger, spire_action];
        proof {
            assert(vacant_keys@ == vacant_chain());
            assert(taken@ == seq![trigger, spire_action]);
        }
        let vacant = pick_free(&vacant_keys, &taken);
        let taken3 = [trigger, spire_action, vacant];
        proof {
            assert(stargate_keys@ == stargate_chain());
            assert(taken3@ == seq![trigger, spire_action, vacant]);
        }
        let stargate = pick_free(&stargate_keys, &taken3);
        Bindings {
            trigger,
            spire_action,
            vacant_colony: vacant,
            stargate_action: stargate,
            emergency: HotkeyKey::EMERGENCY,
        }
    }

    /// The same bindings with an explicit saved-view search key.
    pub fn with_vacant_colony(self, key: HotkeyKey) -> (b: Self)
        ensures
            b == (Bindings { vacant_colony: key, ..self }),
    {
        Bindings { vacant_colony: key, ..self }
    }

    /// The same bindings with an explicit Stargate action key.
    pub fn with_stargate_action(self, key: HotkeyKey) -> (b: Self)
        ensures
            b == (Bindings { stargate_action: key, ..self }),
    {
        Bindings { stargate_action: key, ..self }
    }

    pub fn get(self, slot: HotkeySlot) -> (key: HotkeyKey)
        ensures
            key == binding_of(self, slot),
    {
        match slot {
            HotkeySlot::Trigger => self.trigger,
            HotkeySlot::SpireAction => self.spire_action,
            HotkeySlot::VacantColony => self.vacant_colony,
            HotkeySlot::StargateAction => self.stargate_action,
            HotkeySlot::Emergency => self.emergency,
        }
    }

    /// Slots in registration order.
    pub fn slots(self) -> (pairs: [(HotkeySlot, HotkeyKey); 5])
        ensures
            pairs@ == slot_pairs(self),
    {
        let pairs = [
            (HotkeySlot::Trigger, self.trigger),
            (HotkeySlot::SpireAction, self.spire_action),
            (HotkeySlot::Emergency, self.emergency),
            (HotkeySlot::VacantColony, self.vacant_colony),
            (HotkeySlot::StargateAction, self.stargate_action),
        ];
        proof {
            assert(pairs@ =~= slot_pairs(self));
        }
        pairs
    }
}

/// A registration or unregistration problem, ready to be shown in the UI.
#[derive(Clone, Debug, PartialEq, Eq)]
pub enum HotkeyError {
    Register {
        slot: HotkeySlot,
        key: HotkeyKey,
        /// English diagnostic detail; may mention a failed rollback.
        detail: String,
    },
    /// The listener thread could not be started or did not answer in time.
    Listener { detail: String },
}

/// English one-line rendering of a hotkey error.
pub open spec fn hotkey_error_text(e: HotkeyError) -> Seq<char> {
    match e {
        HotkeyError::Register { slot, key, detail } => "failed to register "@ + key_label(key)
            + " for "@ + slot_label(slot) + ": "@ + detail@,
        HotkeyError::Listener { detail } => "hotkey listener failed: "@ + detail@,
    }
}

impl HotkeyError {
    /// English one-line rendering.
    pub fn message(&self) -> (text: String)
        ensures
            text@ == hotkey_error_text(*self),
    {
        match self {
            HotkeyError::Register { slot, key, detail } => {
                let mut text = String::from_str("failed to register ");
                text.append(key.label());
                text.append(" for ");
                text.append(slot.label());
                text.append(": ");
                text.append(detail.as_str());
                text
            },
            HotkeyError::Listener { detail } => {
                let mut text = String::from_str("hotkey listener failed: ");
                text.append(detail.as_str());
                text
            },
        }
    }
}

/// One call made on a registrar, with the answer it gave.
#[derive(Debug)]
pub enum RegistrarCall {
    Register(HotkeySlot, HotkeyKey, Result<(), String>),
    Unregister(HotkeySlot, HotkeyKey, Result<(), String>),
}

/// One `RegisterHotKey` / `UnregisterHotKey` call each.
pub trait HotkeyRegistrar {
    /// Every call made on this registrar so far, oldest first, each with its
    /// answer. Each implementation keeps its own log; the default only gives
    /// the method a body.
    closed spec fn calls(&self) -> Seq<RegistrarCall> {
        Seq::empty()
    }

    fn register(&mut self, slot: HotkeySlot, key: HotkeyKey) -> (result: Result<(), String>)
        ensures
            final(self).calls() == old(self).calls().push(RegistrarCall::Register(slot, key, result)),
    ;

    fn unregister(&mut self, slot: HotkeySlot, key: HotkeyKey) -> (result: Result<(), String>)
        ensures
            final(self).calls() == old(self).calls().push(
                RegistrarCall::Unregister(slot, key, result),
            ),
    ;
}

/// `log` starts with `n` accepted registrations of the first `n` of `pairs`,
/// in order.
pub open spec fn registered_in_order(
    pairs: Seq<(HotkeySlot, HotkeyKey)>,
    n: int,
    log: Seq<RegistrarCall>,
) -> bool {
    &&& n <= log.len()
    &&& forall|k: int|
        0 <= k < n ==> (#[trigger] log[k] matches RegistrarCall::Register(s, key, Ok(_)) && s
            == pairs[k].0 && key == pairs[k].1)
}

/// `calls` unregisters the first `n` of `pairs`, the last one first, and
/// nothing else (whatever each call answered).
pub open spec fn unregistered_in_reverse(
    pairs: Seq<(HotkeySlot, HotkeyKey)>,
    n: int,
    calls: Seq<RegistrarCall>,
) -> bool {
    &&& calls.len() == n
    &&& forall|k: int|
        0 <= k < n ==> (#[trigger] calls[k] matches RegistrarCall::Unregister(s, key, _) && s
            == pairs[n - 1 - k].0 && key == pairs[n - 1 - k].1)
}

/// The rollback note appended to a failed arm's detail for one binding whose
/// unregistration also failed.
pub open spec fn rollback_note(slot: HotkeySlot, key: HotkeyKey, error: Seq<char>) -> Seq<char> {
    "; rollback of "@ + key_label(key) + " for "@ + slot_label(slot) + " also failed: "@ + error
}

/// One rollback note per refused unregistration in `calls`, in call order.
pub open spec fn rollback_notes(calls: Seq<RegistrarCall>) -> Seq<char>
    decreases calls.len(),
{
    if calls.len() == 0 {
        Seq::empty()
    } else {
        rollback_notes(calls.drop_last()) + match calls.last() {
            RegistrarCall::Unregister(slot, key, Err(e)) => rollback_note(slot, key, e@),
            _ => Seq::empty(),
        }
    }
}

/// What arming `pairs` does, given the registrar's answers: `log` is the
/// calls made. The first `i` registrations were accepted; if all of them
/// were, the arm succeeds. Otherwise registration `i` was refused with text
/// `m`, the `i` accepted bindings are unregistered again in reverse order,
/// and the error names binding `i` with `m` followed by one rollback note per
/// refused unregistration.
pub open spec fn arm_answer(
    pairs: Seq<(HotkeySlot, HotkeyKey)>,
    log: Seq<RegistrarCall>,
    result: Result<(), HotkeyError>,
) -> bool {
    exists|i: int| arm_answer_at(pairs, log, result, i)
}

/// [`arm_answer`] with the number `i` of accepted registrations given.
pub open spec fn arm_answer_at(
    pairs: Seq<(HotkeySlot, HotkeyKey)>,
    log: Seq<RegistrarCall>,
    result: Result<(), HotkeyError>,
    i: int,
) -> bool {
    0 <= i <= pairs.len() && registered_in_order(pairs, i, log) && if i == pairs.len() {
        log.len() == i && result is Ok
    } else {
        &&& log.len() == 2 * i + 1
        &&& match log[i] {
            RegistrarCall::Register(s, k, Err(m)) => s == pairs[i].0 && k == pairs[i].1
                && match result {
                Err(HotkeyError::Register { slot, key, detail }) => slot == s && key == k
                    && detail@ == m@ + rollback_notes(log.skip(i + 1)),
                _ => false,
            },
            _ => false,
        }
        &&& unregistered_in_reverse(pairs, i, log.skip(i + 1))
    }
}

/// The errors that releasing reports for `calls`: one per refused
/// unregistration, in call order, carrying the registrar's text.
pub open spec fn release_errors(calls: Seq<RegistrarCall>) -> Seq<HotkeyError>
    decreases calls.len(),
{
    if calls.len() == 0 {
        Seq::empty()
    } else {
        release_errors(calls.drop_last()) + match calls.last() {
            RegistrarCall::Unregister(slot, key, Err(detail)) => seq![
                HotkeyError::Register { slot, key, detail },
            ],
            _ => Seq::empty(),
        }
    }
}

/// The calls made on a registrar since it held `before`.
pub open spec fn calls_since(before: Seq<RegistrarCall>, after: Seq<RegistrarCall>) -> Seq<
    RegistrarCall,
> {
    after.skip(before.len() as int)
}

/// `after` extends `before`: earlier calls are never forgotten.
pub open spec fn extends(before: Seq<RegistrarCall>, after: Seq<RegistrarCall>) -> bool {
    before.len() <= after.len() && after.take(before.len() as int) == before
}

/// Registers every binding, or none at all.
///
/// If a registration fails, the bindings registered so far are unregistered
/// again in reverse order, so a failed arm cannot leave a partial set behind;
/// a failed rollback is reported inside the returned error.
pub fn register_all<R: HotkeyRegistrar + ?Sized>(registrar: &mut R, bindings: Bindings) -> (result:
    Result<(), HotkeyError>)
    ensures
        extends(old(registrar).calls(), final(registrar).calls()),
        arm_answer(
            slot_pairs(bindings),
            calls_since(old(registrar).calls(), final(registrar).calls()),
            result,
        ),
{
    let ghost base = registrar.calls();
    let pairs = bindings.slots();
    let mut done: Vec<(HotkeySlot, HotkeyKey)> = Vec::new();
    let mut i: usize = 0;
    proof {
        assert(base.take(base.len() as int) =~= base);
    }
    while i < 5
        invariant
            i <= 5,
            pairs@ == slot_pairs(bindings),
            pairs@.len() == 5,
            done@ == pairs@.take(i as int),
            base == old(registrar).calls(),
            extends(base, registrar.calls()),
            calls_since(base, registrar.calls()).len() == i,
            registered_in_order(pairs@, i as int, calls_since(base, registrar.calls())),
        decreases 5 - i,
    {
        let (slot, key) = pairs[i];
        let ghost before = registrar.calls();
        let answer = registrar.register(slot, key);
        proof {
            assert(registrar.calls().take(base.len() as int) =~= before.take(base.len() as int));
            assert(calls_since(base, registrar.calls()) =~= calls_since(base, before).push(
                RegistrarCall::Register(slot, key, answer),
            ));
        }
        match answer {
            Ok(()) => {
                done.push((slot, key));
                proof {
                    assert(done@ =~= pairs@.take(i + 1));
                    let log = calls_since(base, registrar.calls());
                    assert forall|k: int| 0 <= k < i + 1 implies (#[trigger] log[k] matches RegistrarCall::Register(s, key, Ok(_)) && s
                        == pairs@[k].0 && key == pairs@[k].1) by {
                        if k < i {
                            assert(log[k] == calls_since(base, before)[k]);
                        } else {
                            assert(log[k] == RegistrarCall::Register(slot, key, answer));
                            assert(pairs@[k] == (slot, key));
                        }
                    }
                }
            },
            Err(first) => {
                let ghost refused = registrar.calls();
                let ghost first_text = first@;
                let mut detail = first;
                let mut j: usize = done.len();
                proof {
                    assert(refused.skip(refused.len() as int) =~= Seq::<RegistrarCall>::empty());
                }
                while j > 0
                    invariant
                        j <= i,
                        done@.len() == i,
                        i < 5,
                        done@ == pairs@.take(i as int),
                        pairs@ == slot_pairs(bindings),
                        pairs@.len() == 5,
                        refused.len() <= registrar.calls().len(),
                        registrar.calls().take(refused.len() as int) == refused,
                        registrar.calls().skip(refused.len() as int).len() == i - j,
                        forall|k: int|
                            0 <= k < i - j ==> (#[trigger] registrar.calls().skip(
                                refused.len() as int,
                            )[k] matches RegistrarCall::Unregister(s, key, _) && s == pairs@[i - 1
                                - k].0 && key == pairs@[i - 1 - k].1),
                        detail@ == first_text + rollback_notes(
                            registrar.calls().skip(refused.len() as int),
                        ),
                    decreases j,
                {
                    j = j - 1;
                    let (undo_slot, undo_key) = done[j];
                    let ghost before_undo = registrar.calls();
                    let undone = registrar.unregister(undo_slot, undo_key);
                    let ghost rb = before_undo.skip(refused.len() as int);
                    let ghost c = RegistrarCall::Unregister(undo_slot, undo_key, undone);
                    proof {
                        assert(registrar.calls().take(refused.len() as int) =~= before_undo.take(
                            refused.len() as int,
                        ));
                        assert(registrar.calls().skip(refused.len() as int) =~= rb.push(c));
                        assert(rb.push(c).drop_last() =~= rb);
                    }
                    match undone {
                        Ok(()) => {},
                        Err(rollback) => {
                            detail.append("; rollback of ");
                            detail.append(undo_key.label());
                            detail.append(" for ");
                            detail.append(undo_slot.label());
                            detail.append(" also failed: ");
                            detail.append(rollback.as_str());
                        },
                    }
                }
                proof {
                    let fin = registrar.calls();
                    let log = calls_since(base, fin);
                    let head = calls_since(base, refused);
                    let rb = fin.skip(refused.len() as int);
                    assert(fin =~= refused + rb) by {
                        assert(fin =~= fin.take(refused.len() as int) + rb);
                    }
                    assert(fin.take(base.len() as int) =~= refused.take(base.len() as int));
                    assert(log =~= head + rb);
                    assert(log.skip(i + 1) =~= rb);
                    assert(log[i as int] == head[i as int]);
                    assert(registered_in_order(pairs@, i as int, log)) by {
                        assert forall|k: int| 0 <= k < i implies (#[trigger] log[k] matches RegistrarCall::Register(s, key, Ok(_)) && s
                            == pairs@[k].0 && key == pairs@[k].1) by {
                            assert(log[k] == head[k]);
                        }
                    }
                    assert(unregistered_in_reverse(pairs@, i as int, log.skip(i + 1)));
                    assert((slot, key) == pairs@[i as int]);
                }
                let refusal: Result<(), HotkeyError> = Err(HotkeyError::Register { slot, key, detail });
                proof {
                    assert(arm_answer_at(
                        pairs@,
                        calls_since(base, registrar.calls()),
                        refusal,
                        i as int,
                    ));
                }
                return refusal;
            },
        }
        i = i + 1;
    }
    proof {
        let log = calls_since(base, registrar.calls());
        assert(arm_answer_at(pairs@, log, Ok(()), 5));
    }
    Ok(())
}

/// The binding a call was about.
pub open spec fn call_binding(c: RegistrarCall) -> (HotkeySlot, HotkeyKey) {
    match c {
        RegistrarCall::Register(slot, key, _) => (slot, key),
        RegistrarCall::Unregister(slot, key, _) => (slot, key),
    }
}

/// `c` is a registration the registrar accepted.
pub open spec fn accepted_registration(c: RegistrarCall) -> bool {
    c matches RegistrarCall::Register(_, _, Ok(_))
}

/// An arm succeeds exactly when the registrar accepted all five
/// registrations, and then nothing else was asked of it.
pub proof fn lemma_arm_succeeds_iff_every_registration_is_accepted(
    b: Bindings,
    log: Seq<RegistrarCall>,
    result: Result<(), HotkeyError>,
)
    requires
        arm_answer(slot_pairs(b), log, result),
    ensures
        result is Ok <==> (log.len() == 5 && forall|k: int|
            0 <= k < 5 ==> accepted_registration(#[trigger] log[k])),
{
    let pairs = slot_pairs(b);
    let i = choose|i: int| arm_answer_at(pairs, log, result, i);
    if i == 5 {
        assert forall|k: int| 0 <= k < 5 implies accepted_registration(#[trigger] log[k]) by {
            assert(log[k] matches RegistrarCall::Register(s, key, Ok(_)) && s == pairs[k].0 && key
                == pairs[k].1);
        }
    } else {
        assert(!accepted_registration(log[i]));
    }
}

/// A failed arm leaves no partial set behind: every registration the
/// registrar accepted during the arm is followed, later in the same arm, by
/// an unregistration of the same binding.
pub proof fn lemma_failed_arm_rolls_back_every_binding(
    b: Bindings,
    log: Seq<RegistrarCall>,
    result: Result<(), HotkeyError>,
)
    requires
        arm_answer(slot_pairs(b), log, result),
        result is Err,
    ensures
        forall|k: int|
            0 <= k < log.len() && accepted_registration(#[trigger] log[k]) ==> exists|m: int|
                k < m < log.len() && log[m] is Unregister && call_binding(log[m]) == call_binding(
                    log[k],
                ),
{
    let pairs = slot_pairs(b);
    let i = choose|i: int| arm_answer_at(pairs, log, result, i);
    assert(i < 5);
    let rb = log.skip(i + 1);
    assert forall|k: int|
        0 <= k < log.len() && accepted_registration(#[trigger] log[k]) implies exists|m: int|
            k < m < log.len() && log[m] is Unregister && call_binding(log[m]) == call_binding(
                log[k],
            ) by {
        if k == i {
            assert(!accepted_registration(log[k]));
        } else if k > i {
            assert(log[k] == rb[k - i - 1]);
            assert(rb[k - i - 1] is Unregister);
        } else {
            let m = 2 * i - k;
            assert(log[m] == rb[i - 1 - k]);
            assert(rb[i - 1 - k] matches RegistrarCall::Unregister(s, key, _) && s == pairs[k].0
                && key == pairs[k].1);
            assert(log[k] matches RegistrarCall::Register(s, key, Ok(_)) && s == pairs[k].0 && key
                == pairs[k].1);
            assert(call_binding(log[m]) == call_binding(log[k]));
        }
    }
}

/// Releases every binding in reverse registration order, collecting the
/// failures instead of stopping early: one error per refused call, in call
/// order, carrying the registrar's text.
pub fn unregister_all<R: HotkeyRegistrar + ?Sized>(registrar: &mut R, bindings: Bindings) -> (errors:
    Vec<HotkeyError>)
    ensures
        extends(old(registrar).calls(), final(registrar).calls()),
        unregistered_in_reverse(
            slot_pairs(bindings),
            5,
            calls_since(old(registrar).calls(), final(registrar).calls()),
        ),
        errors@ == release_errors(calls_since(old(registrar).calls(), final(registrar).calls())),
{
    let ghost base = registrar.calls();
    let pairs = bindings.slots();
    let mut errors: Vec<HotkeyError> = Vec::new();
    let mut i: usize = 5;
    proof {
        assert(base.take(base.len() as int) =~= base);
        assert(base.skip(base.len() as int) =~= Seq::<RegistrarCall>::empty());
    }
    while i > 0
        invariant
            i <= 5,
            pairs@ == slot_pairs(bindings),
            pairs@.len() == 5,
            base == old(registrar).calls(),
            extends(base, registrar.calls()),
            calls_since(base, registrar.calls()).len() == 5 - i,
            forall|k: int|
                0 <= k < 5 - i ==> (#[trigger] calls_since(base, registrar.calls())[k] matches RegistrarCall::Unregister(s, key, _)
                    && s == pairs@[4 - k].0 && key == pairs@[4 - k].1),
            errors@ == release_errors(calls_since(base, registrar.calls())),
        decreases i,
    {
        i = i - 1;
        let (slot, key) = pairs[i];
        let ghost before = registrar.calls();
        let undone = registrar.unregister(slot, key);
        let ghost c = RegistrarCall::Unregister(slot, key, undone);
        proof {
            let rb = calls_since(base, before);
            assert(registrar.calls().take(base.len() as int) =~= before.take(base.len() as int));
            assert(calls_since(base, registrar.calls()) =~= rb.push(c));
            assert(rb.push(c).drop_last() =~= rb);
            assert forall|k: int| 0 <= k < 5 - i implies (#[trigger] calls_since(base, registrar.calls())[k] matches RegistrarCall::Unregister(s, key, _)
                && s == pairs@[4 - k].0 && key == pairs@[4 - k].1) by {
                if k < 4 - i {
                    assert(calls_since(base, registrar.calls())[k] == rb[k]);
                }
            }
        }
        match undone {
            Ok(()) => {},
            Err(detail) => {
                errors.push(HotkeyError::Register { slot, key, detail });
            },
        }
    }
    errors
}

} // verus!
