use oh_my_macro::hotkey::{
    register_all, unregister_all, Bindings, HotkeyError, HotkeyKey, HotkeyRegistrar, HotkeySlot,
};

/// In-memory `RegisterHotKey` replacement.
#[derive(Default)]
struct FakeRegistrar {
    registered: Vec<(HotkeySlot, HotkeyKey)>,
    unregistered: Vec<(HotkeySlot, HotkeyKey)>,
    live: Vec<(HotkeySlot, HotkeyKey)>,
    fail_register: Vec<(HotkeySlot, String)>,
    fail_unregister: Vec<(HotkeySlot, String)>,
}

impl FakeRegistrar {
    fn fail_on(&mut self, slot: HotkeySlot, detail: &str) {
        self.fail_register.push((slot, detail.to_owned()));
    }

    fn fail_unregister(&mut self, slot: HotkeySlot, detail: &str) {
        self.fail_unregister.push((slot, detail.to_owned()));
    }
}

impl HotkeyRegistrar for FakeRegistrar {
    fn register(&mut self, slot: HotkeySlot, key: HotkeyKey) -> Result<(), String> {
        if let Some((_, detail)) = self.fail_register.iter().find(|(s, _)| *s == slot) {
            return Err(detail.clone());
        }
        self.registered.push((slot, key));
        self.live.push((slot, key));
        Ok(())
    }

    fn unregister(&mut self, slot: HotkeySlot, key: HotkeyKey) -> Result<(), String> {
        if let Some((_, detail)) = self.fail_unregister.iter().find(|(s, _)| *s == slot) {
            return Err(detail.clone());
        }
        self.unregistered.push((slot, key));
        self.live.retain(|(s, _)| *s != slot);
        Ok(())
    }
}

#[test]
fn virtual_keys_are_vk_f1_to_vk_f12() {
    assert_eq!(HotkeyKey::F1.virtual_key(), 0x70);
    assert_eq!(HotkeyKey::F6.virtual_key(), 0x75);
    assert_eq!(HotkeyKey::F12.virtual_key(), 0x7B);
}

#[test]
fn slot_ids_round_trip() {
    for slot in HotkeySlot::ALL {
        assert_eq!(HotkeySlot::from_id(slot.id()), Some(slot));
    }
    assert_eq!(HotkeySlot::from_id(99), None);
}

#[test]
fn emergency_slot_is_fixed_to_f8() {
    let bindings = Bindings::new(HotkeyKey::F6, HotkeyKey::F7);
    assert_eq!(bindings.get(HotkeySlot::Emergency), HotkeyKey::F8);
}

#[test]
fn a_failing_registration_rolls_back_the_earlier_bindings() {
    let mut registrar = FakeRegistrar::default();
    registrar.fail_on(HotkeySlot::Emergency, "already in use by another program");
    let bindings = Bindings::new(HotkeyKey::F6, HotkeyKey::F7);

    let error = register_all(&mut registrar, bindings).expect_err("emergency must fail");
    match &error {
        HotkeyError::Register { slot, key, detail } => {
            assert_eq!(*slot, HotkeySlot::Emergency);
            assert_eq!(*key, HotkeyKey::F8);
            assert!(detail.contains("already in use"), "detail was {detail}");
        }
        other => panic!("unexpected error: {other:?}"),
    }
    assert_eq!(
        registrar.unregistered,
        vec![
            (HotkeySlot::SpireAction, HotkeyKey::F7),
            (HotkeySlot::Trigger, HotkeyKey::F6),
        ]
    );
    assert_eq!(registrar.live, Vec::new());
}

#[test]
fn a_failed_rollback_is_reported_instead_of_hidden() {
    let mut registrar = FakeRegistrar::default();
    registrar.fail_on(HotkeySlot::Emergency, "already in use");
    registrar.fail_unregister(HotkeySlot::Trigger, "no such binding");

    let error = register_all(&mut registrar, Bindings::new(HotkeyKey::F6, HotkeyKey::F7))
        .expect_err("emergency must fail");
    let detail = match error {
        HotkeyError::Register { detail, .. } => detail,
        other => panic!("unexpected error: {other:?}"),
    };
    assert!(detail.contains("rollback"), "detail was {detail}");
}

#[test]
fn an_unregisterable_trigger_is_reported_after_a_failed_arm() {
    let mut registrar = FakeRegistrar::default();
    registrar.fail_on(HotkeySlot::Emergency, "F8 taken");
    let error = register_all(&mut registrar, Bindings::new(HotkeyKey::F6, HotkeyKey::F7))
        .expect_err("emergency must fail");
    assert!(matches!(
        error,
        HotkeyError::Register {
            slot: HotkeySlot::Emergency,
            ..
        }
    ));
    assert_eq!(
        registrar.unregistered,
        vec![
            (HotkeySlot::SpireAction, HotkeyKey::F7),
            (HotkeySlot::Trigger, HotkeyKey::F6),
        ]
    );
}

#[test]
fn unregister_all_reports_every_failure() {
    let mut registrar = FakeRegistrar::default();
    assert_eq!(
        register_all(&mut registrar, Bindings::new(HotkeyKey::F6, HotkeyKey::F7)),
        Ok(())
    );
    registrar.fail_unregister(HotkeySlot::Emergency, "gone");

    let errors = unregister_all(&mut registrar, Bindings::new(HotkeyKey::F6, HotkeyKey::F7));
    assert_eq!(errors.len(), 1);
    assert!(matches!(
        errors.first(),
        Some(HotkeyError::Register {
            slot: HotkeySlot::Emergency,
            ..
        })
    ));
    assert_eq!(registrar.live, vec![(HotkeySlot::Emergency, HotkeyKey::F8)]);
}

#[test]
fn a_successful_arm_registers_every_binding_in_order() {
    let mut registrar = FakeRegistrar::default();
    let bindings = Bindings::new(HotkeyKey::F6, HotkeyKey::F7);
    assert_eq!(register_all(&mut registrar, bindings), Ok(()));
    assert_eq!(
        registrar.registered,
        vec![
            (HotkeySlot::Trigger, HotkeyKey::F6),
            (HotkeySlot::SpireAction, HotkeyKey::F7),
            (HotkeySlot::Emergency, HotkeyKey::F8),
            (HotkeySlot::VacantColony, HotkeyKey::F9),
            (HotkeySlot::StargateAction, HotkeyKey::Tilde),
        ]
    );
    assert!(registrar.unregistered.is_empty());
}

#[test]
fn the_free_defaults_skip_the_taken_keys() {
    let bindings = Bindings::new(HotkeyKey::Tilde, HotkeyKey::Tab);
    assert_eq!(bindings.get(HotkeySlot::VacantColony), HotkeyKey::F6);
    assert_eq!(bindings.get(HotkeySlot::StargateAction), HotkeyKey::F9);
    let bindings = bindings
        .with_vacant_colony(HotkeyKey::F11)
        .with_stargate_action(HotkeyKey::F12);
    assert_eq!(bindings.get(HotkeySlot::VacantColony), HotkeyKey::F11);
    assert_eq!(bindings.get(HotkeySlot::StargateAction), HotkeyKey::F12);
    assert_eq!(HotkeyKey::F11.label(), "F11");
    assert_eq!(HotkeyKey::Tilde.label(), "Tilde");
}

#[test]
fn a_refused_registration_is_reported_with_every_failed_rollback() {
    let mut registrar = FakeRegistrar::default();
    registrar.fail_on(HotkeySlot::Emergency, "already in use");
    registrar.fail_unregister(HotkeySlot::Trigger, "no such binding");
    registrar.fail_unregister(HotkeySlot::SpireAction, "access denied");
    let error = register_all(&mut registrar, Bindings::new(HotkeyKey::F6, HotkeyKey::F7))
        .expect_err("emergency must fail");
    assert_eq!(
        error,
        HotkeyError::Register {
            slot: HotkeySlot::Emergency,
            key: HotkeyKey::F8,
            detail: "already in use; rollback of F7 for spire action also failed: access denied; \
                     rollback of F6 for trigger also failed: no such binding"
                .to_owned(),
        }
    );
}

#[test]
fn a_refused_first_registration_asks_for_no_rollback() {
    let mut registrar = FakeRegistrar::default();
    registrar.fail_on(HotkeySlot::Trigger, "taken");
    let error = register_all(&mut registrar, Bindings::new(HotkeyKey::F6, HotkeyKey::F7))
        .expect_err("trigger must fail");
    assert_eq!(
        error,
        HotkeyError::Register {
            slot: HotkeySlot::Trigger,
            key: HotkeyKey::F6,
            detail: "taken".to_owned(),
        }
    );
    assert!(registrar.registered.is_empty());
    assert!(registrar.unregistered.is_empty());
}

#[test]
fn unregister_all_reports_each_refusal_in_call_order_with_its_text() {
    let mut registrar = FakeRegistrar::default();
    registrar.fail_unregister(HotkeySlot::Trigger, "gone");
    registrar.fail_unregister(HotkeySlot::StargateAction, "busy");
    let errors = unregister_all(&mut registrar, Bindings::new(HotkeyKey::F6, HotkeyKey::F7));
    assert_eq!(
        errors,
        vec![
            HotkeyError::Register {
                slot: HotkeySlot::StargateAction,
                key: HotkeyKey::Tilde,
                detail: "busy".to_owned(),
            },
            HotkeyError::Register {
                slot: HotkeySlot::Trigger,
                key: HotkeyKey::F6,
                detail: "gone".to_owned(),
            },
        ]
    );
    assert_eq!(
        registrar.unregistered,
        vec![
            (HotkeySlot::VacantColony, HotkeyKey::F9),
            (HotkeySlot::Emergency, HotkeyKey::F8),
            (HotkeySlot::SpireAction, HotkeyKey::F7),
        ]
    );
}
