use oh_my_macro::hotkey::{Bindings, HotkeyKey, HotkeySlot};
use oh_my_macro::runner::{action_for, HotkeyAction, StartError};

#[test]
fn the_trigger_starts_the_row_build_and_f8_stops_it() {
    assert_eq!(action_for(HotkeySlot::Trigger), HotkeyAction::StartRowBuild);
    assert_eq!(
        action_for(HotkeySlot::SpireAction),
        HotkeyAction::StartSpireAction
    );
    assert_eq!(action_for(HotkeySlot::Emergency), HotkeyAction::EmergencyStop);

    let bindings = Bindings::new(HotkeyKey::F6, HotkeyKey::F7);
    assert_eq!(bindings.get(HotkeySlot::Trigger), HotkeyKey::F6);
    assert_eq!(bindings.get(HotkeySlot::SpireAction), HotkeyKey::F7);
    assert_ne!(bindings.get(HotkeySlot::Trigger), HotkeyKey::EMERGENCY);
    for slot in HotkeySlot::ALL {
        let expected = match slot {
            HotkeySlot::Trigger => HotkeyAction::StartRowBuild,
            HotkeySlot::SpireAction => HotkeyAction::StartSpireAction,
            HotkeySlot::Emergency => HotkeyAction::EmergencyStop,
            HotkeySlot::VacantColony => HotkeyAction::StartVacantColony,
            HotkeySlot::StargateAction => HotkeyAction::StartStargateAction,
        };
        assert_eq!(action_for(slot), expected, "{slot:?}");
    }
}

#[test]
fn start_errors_render_in_english() {
    assert_eq!(StartError::Busy.message(), "a macro is already running");
    assert_eq!(
        StartError::Thread {
            detail: "no memory".to_owned()
        }
        .message(),
        "could not start the macro thread: no memory"
    );
}
