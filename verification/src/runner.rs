//! What a hotkey does, and why a run could not start.
//!
//! The worker thread that runs one macro at a time belongs to the
//! application; the routing rule it applies to each hotkey is here.
use vstd::prelude::*;
use vstd::string::*;

use crate::hotkey::HotkeySlot;

verus! {

/// What a registered hotkey does while the app is armed.
#[derive(Clone, Copy, Debug, PartialEq, Eq, Structural)]
pub enum HotkeyAction {
    /// Start the row-build macro.
    StartRowBuild,
    /// Start the Spire action (scan, click each crown, verified `A`).
    StartSpireAction,
    /// Start the saved-view Colony search.
    StartVacantColony,
    /// Start the Stargate action.
    StartStargateAction,
    /// Stop the running macro immediately.
    EmergencyStop,
}

/// The action of each hotkey slot.
pub open spec fn slot_action(slot: HotkeySlot) -> HotkeyAction {
    match slot {
        HotkeySlot::Trigger => HotkeyAction::StartRowBuild,
        HotkeySlot::SpireAction => HotkeyAction::StartSpireAction,
        HotkeySlot::VacantColony => HotkeyAction::StartVacantColony,
        HotkeySlot::StargateAction => HotkeyAction::StartStargateAction,
        HotkeySlot::Emergency => HotkeyAction::EmergencyStop,
    }
}

/// The routing rule the GUI applies to one hotkey slot.
pub fn action_for(slot: HotkeySlot) -> (action: HotkeyAction)
    ensures
        action == slot_action(slot),
{
    match slot {
        HotkeySlot::Trigger => HotkeyAction::StartRowBuild,
        HotkeySlot::SpireAction => HotkeyAction::StartSpireAction,
        HotkeySlot::VacantColony => HotkeyAction::StartVacantColony,
        HotkeySlot::StargateAction => HotkeyAction::StartStargateAction,
        HotkeySlot::Emergency => HotkeyAction::EmergencyStop,
    }
}

/// Only the emergency slot stops a run, and each other slot starts a
/// different action.
pub proof fn lemma_only_the_emergency_slot_stops(a: HotkeySlot, b: HotkeySlot)
    ensures
        (slot_action(a) == HotkeyAction::EmergencyStop) == (a == HotkeySlot::Emergency),
        slot_action(a) == slot_action(b) ==> a == b,
{
}

/// Why a run could not be started.
#[derive(Clone, Debug, PartialEq, Eq)]
pub enum StartError {
    /// A macro is still running. Triggers are dropped, never queued.
    Busy,
    /// The worker thread could not be created.
    Thread { detail: String },
}

/// English rendering of a start error.
pub open spec fn start_error_text(e: StartError) -> Seq<char> {
    match e {
        StartError::Busy => "a macro is already running"@,
        StartError::Thread { detail } => "could not start the macro thread: "@ + detail@,
    }
}

impl StartError {
    /// English rendering.
    pub fn message(&self) -> (text: String)
        ensures
            text@ == start_error_text(*self),
    {
        match self {
            StartError::Busy => String::from_str("a macro is already running"),
            StartError::Thread { detail } => {
                let mut t = String::from_str("could not start the macro thread: ");
                t.append(detail.as_str());
                t
            },
        }
    }
}

} // verus!
