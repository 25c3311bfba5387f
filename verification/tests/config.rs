use oh_my_macro::colony::RowMode;
use oh_my_macro::config::{
    Config, ConfigError, ConfigWarning, Loaded, SettingsFile, DEFAULT_VACANT_COLONY_HOTKEY,
    MAX_INTERVAL_MS, MIN_INTERVAL_MS,
};
use oh_my_macro::hotkey::{HotkeyKey, HotkeySlot};
use oh_my_macro::macros::{BuildTarget, Timing};

/// A file with nothing but the target process.
fn empty_file() -> SettingsFile {
    SettingsFile {
        trigger_hotkey: None,
        spire_action_hotkey: None,
        stargate_action_hotkey: None,
        stargate_recall_f2: None,
        vacant_colony_hotkey: None,
        spire_scan_only: None,
        colony_hotkey: None,
        spire_hotkey: None,
        build_target: None,
        colony_row_mode: None,
        force_build: None,
        press_ms: None,
        gap_ms: None,
        colony_press_ms: None,
        colony_gap_ms: None,
        spire_press_ms: None,
        spire_gap_ms: None,
        target_process: "StarCraft.exe".to_owned(),
    }
}

/// The current schema: trigger F6, the shared pair 50/50.
fn sample() -> SettingsFile {
    SettingsFile {
        trigger_hotkey: Some(HotkeyKey::F6),
        press_ms: Some(50),
        gap_ms: Some(50),
        ..empty_file()
    }
}

/// The oldest file: the shared pair 80/30.
fn legacy() -> SettingsFile {
    SettingsFile {
        trigger_hotkey: Some(HotkeyKey::F6),
        press_ms: Some(80),
        gap_ms: Some(30),
        ..empty_file()
    }
}

/// The previous schema, one pair per macro, both equal.
fn per_macro_equal() -> SettingsFile {
    SettingsFile {
        trigger_hotkey: Some(HotkeyKey::F6),
        colony_press_ms: Some(80),
        colony_gap_ms: Some(30),
        spire_press_ms: Some(80),
        spire_gap_ms: Some(30),
        ..empty_file()
    }
}

fn invalid_detail(result: Result<(), ConfigError>) -> String {
    match result {
        Err(ConfigError::Invalid(detail)) => detail,
        other => panic!("expected an invalid-settings error, got {other:?}"),
    }
}

#[test]
fn defaults_are_the_documented_ones() {
    let config = Config::default();
    assert_eq!(config.trigger_hotkey, HotkeyKey::F7);
    assert_eq!(config.spire_action_hotkey, HotkeyKey::Tab);
    assert_eq!(config.stargate_action_hotkey, HotkeyKey::Tilde);
    assert_eq!(config.vacant_colony_hotkey, HotkeyKey::F6);
    assert_eq!(config.build_target, BuildTarget::Colony);
    assert_eq!(config.colony_row_mode, RowMode::LeftToRight);
    assert!(config.force_build, "the forced mode is the default");
    assert_eq!(config.press_ms, 20);
    assert_eq!(config.gap_ms, 20);
    assert_eq!(config.target_process, "StarCraft.exe");
    assert_eq!(config.validate(), Ok(()));
    assert_eq!(config.timing(), Timing::from_millis(20, 20));
}

#[test]
fn a_previously_saved_timing_keeps_its_value_instead_of_the_new_default() {
    let config = Config::from_file(sample()).expect("a saved pair still loads");
    assert_eq!((config.press_ms, config.gap_ms), (50, 50));
    let file = config.to_file().expect("serialize");
    assert_eq!((file.press_ms, file.gap_ms), (Some(50), Some(50)));
}

#[test]
fn the_shared_pair_is_the_one_the_gui_edits() {
    let mut config = Config::default();
    {
        let (press_ms, gap_ms) = config.intervals_mut();
        *press_ms = 40;
        *gap_ms = 70;
    }
    assert_eq!(config.press_ms, 40);
    assert_eq!(config.gap_ms, 70);
    assert_eq!(config.timing(), Timing::from_millis(40, 70));
    assert_eq!(config.validate(), Ok(()));
}

#[test]
fn toml_round_trip_preserves_every_field() {
    let config = Config {
        trigger_hotkey: HotkeyKey::F11,
        spire_action_hotkey: HotkeyKey::F12,
        stargate_action_hotkey: HotkeyKey::F10,
        vacant_colony_hotkey: HotkeyKey::F9,
        stargate_recall_f2: true,
        build_target: BuildTarget::Spire,
        colony_row_mode: RowMode::EndsInward,
        force_build: false,
        press_ms: 35,
        gap_ms: 80,
        target_process: "StarCraft.exe".to_owned(),
    };
    let file = config.to_file().expect("serialize");
    assert_eq!(file.spire_scan_only, None, "the removed key is never written again");
    assert_eq!(file.colony_press_ms, None);
    assert_eq!(Config::from_file(file).expect("parse"), config);
}

#[test]
fn a_file_without_the_row_mode_key_loads_as_left_to_right() {
    let config = Config::from_file(sample()).expect("files written before the mode must still load");
    assert_eq!(config.colony_row_mode, RowMode::LeftToRight);
}

#[test]
fn a_file_without_the_build_target_key_loads_as_a_colony() {
    for file in [sample(), legacy()] {
        let config = Config::from_file(file).expect("files written before the target must load");
        assert_eq!(config.build_target, BuildTarget::Colony);
    }
}

#[test]
fn out_of_range_timing_is_rejected_for_the_shared_pair() {
    for (field, config) in [
        ("press_ms", Config { press_ms: MAX_INTERVAL_MS + 1, ..Config::default() }),
        ("gap_ms", Config { gap_ms: 0, ..Config::default() }),
    ] {
        let detail = invalid_detail(config.validate());
        assert!(detail.contains(field), "expected {field} in '{detail}'");
    }
    let at_the_edges = Config { press_ms: MAX_INTERVAL_MS, gap_ms: MIN_INTERVAL_MS, ..Config::default() };
    assert_eq!(at_the_edges.validate(), Ok(()));
}

#[test]
fn an_interval_refusal_names_the_value() {
    let detail = invalid_detail(Config { gap_ms: 2005, ..Config::default() }.validate());
    assert_eq!(detail, "gap_ms must be between 1 and 2000, got 2005");
}

#[test]
fn the_emergency_key_cannot_be_reused() {
    let config = Config { trigger_hotkey: HotkeyKey::EMERGENCY, ..Config::default() };
    assert!(matches!(config.validate(), Err(ConfigError::Invalid(_))));
}

#[test]
fn target_process_must_be_an_exe_basename() {
    for bad in ["", "   ", "StarCraft", "C:\\Games\\StarCraft.exe", "StarCraft.exe*"] {
        let config = Config { target_process: bad.to_owned(), ..Config::default() };
        assert!(
            matches!(config.validate(), Err(ConfigError::Invalid(_))),
            "expected '{bad}' to be rejected"
        );
    }
    let config = Config { target_process: "starcraft.exe".to_owned(), ..Config::default() };
    assert_eq!(config.validate(), Ok(()));
}

#[test]
fn the_target_is_trimmed_before_it_is_checked() {
    let config = Config { target_process: "  StarCraft.EXE\t".to_owned(), ..Config::default() };
    assert_eq!(config.validate(), Ok(()));
    let detail = invalid_detail(
        Config { target_process: " C:/sc.exe ".to_owned(), ..Config::default() }.validate(),
    );
    assert_eq!(detail, "target_process must be an exe file name without a path, got 'C:/sc.exe'");
    let detail = invalid_detail(Config { target_process: "  ".to_owned(), ..Config::default() }.validate());
    assert_eq!(detail, "target_process is empty");
}

#[test]
fn an_out_of_range_file_falls_back_to_defaults_with_a_visible_warning() {
    let file = SettingsFile { gap_ms: Some(0), ..sample() };
    let loaded = Loaded::from_parsed(Config::from_file(file));
    assert_eq!(loaded.config, Config::default());
    match loaded.warning {
        Some(ConfigWarning::Invalid { detail }) => assert!(detail.contains("gap_ms"), "{detail}"),
        other => panic!("unexpected warning: {other:?}"),
    }
}

#[test]
fn a_parse_failure_and_an_unreadable_file_fall_back_with_their_reason() {
    let loaded = Loaded::from_parsed(Err(ConfigError::Parse("unknown field `gapp_ms`".to_owned())));
    assert_eq!(loaded.config, Config::default());
    assert_eq!(
        loaded.warning,
        Some(ConfigWarning::Parse { detail: "unknown field `gapp_ms`".to_owned() })
    );
    let loaded = Loaded::unreadable("permission denied".to_owned());
    assert_eq!(loaded.config, Config::default());
    assert_eq!(loaded.warning.map(|w| w.detail().to_owned()), Some("permission denied".to_owned()));
    let loaded = Loaded::defaults();
    assert_eq!(loaded.config, Config::default());
    assert_eq!(loaded.warning, None);
}

#[test]
fn a_shared_timing_file_loads_into_the_shared_pair() {
    let config = Config::from_file(legacy()).expect("the shared schema is the current one");
    assert_eq!(config.timing(), Timing::from_millis(80, 30));
    assert_eq!(config.trigger_hotkey, HotkeyKey::F6);
    assert_eq!(config.target_process, "StarCraft.exe");
}

#[test]
fn equal_per_macro_timing_migrates_to_the_shared_pair() {
    let config = Config::from_file(per_macro_equal()).expect("equal pairs must still load");
    assert_eq!(config.press_ms, 80);
    assert_eq!(config.gap_ms, 30);
    assert_eq!(config.timing(), Timing::from_millis(80, 30));
    assert_eq!(config.build_target, BuildTarget::Colony);
}

#[test]
fn differing_per_macro_timing_is_rejected_instead_of_picking_one() {
    let file = SettingsFile {
        trigger_hotkey: Some(HotkeyKey::F6),
        colony_press_ms: Some(40),
        colony_gap_ms: Some(70),
        spire_press_ms: Some(90),
        spire_gap_ms: Some(15),
        ..empty_file()
    };
    match Config::from_file(file.clone()) {
        Err(ConfigError::Invalid(detail)) => {
            assert!(detail.contains("colony 40/70"), "{detail}");
            assert!(detail.contains("spire 90/15"), "{detail}");
            assert!(detail.contains("set press_ms = 40 and gap_ms = 70"), "{detail}");
        }
        other => panic!("expected an ambiguous-timing error, got {other:?}"),
    }
    let loaded = Loaded::from_parsed(Config::from_file(file));
    assert_eq!(loaded.config, Config::default(), "defaults, never a guess");
    assert!(matches!(loaded.warning, Some(ConfigWarning::Invalid { .. })));
}

#[test]
fn mixing_shared_and_per_macro_timing_is_rejected_as_ambiguous() {
    let mixed = SettingsFile { colony_press_ms: Some(10), ..legacy() };
    match Config::from_file(mixed) {
        Err(ConfigError::Invalid(detail)) => assert!(detail.contains("press_ms"), "{detail}"),
        other => panic!("expected an ambiguity error, got {other:?}"),
    }
}

#[test]
fn partially_filled_per_macro_timing_is_rejected() {
    let file = SettingsFile { spire_gap_ms: None, ..per_macro_equal() };
    match Config::from_file(file) {
        Err(ConfigError::Invalid(detail)) => assert!(detail.contains("incomplete"), "{detail}"),
        other => panic!("expected an incomplete-schema error, got {other:?}"),
    }
    let lone_press = SettingsFile { gap_ms: None, ..legacy() };
    match Config::from_file(lone_press) {
        Err(ConfigError::Invalid(detail)) => assert!(detail.contains("gap_ms"), "{detail}"),
        other => panic!("expected an incomplete-shared error, got {other:?}"),
    }
}

#[test]
fn a_file_without_any_timing_is_rejected() {
    let file = SettingsFile { press_ms: None, gap_ms: None, ..sample() };
    match Config::from_file(file) {
        Err(ConfigError::Invalid(detail)) => assert!(detail.contains("no timing"), "{detail}"),
        other => panic!("expected a missing-timing error, got {other:?}"),
    }
}

#[test]
fn the_default_keys_are_f7_tab_f6_and_tilde_with_f8_reserved() {
    let config = Config::default();
    assert_eq!(config.trigger_hotkey, HotkeyKey::F7);
    assert_eq!(config.spire_action_hotkey, HotkeyKey::Tab);
    assert_eq!(config.bindings().get(HotkeySlot::Trigger), HotkeyKey::F7);
    assert_eq!(config.bindings().get(HotkeySlot::SpireAction), HotkeyKey::Tab);
    assert_eq!(config.bindings().get(HotkeySlot::VacantColony), HotkeyKey::F6);
    assert_eq!(config.bindings().get(HotkeySlot::StargateAction), HotkeyKey::Tilde);
    assert_eq!(config.bindings().emergency, HotkeyKey::F8);
    assert!(config.force_build, "the forced mode is the default");
}

#[test]
fn a_file_without_the_spire_action_key_gets_the_default_action_key() {
    let config = Config::from_file(sample()).expect("an older file must still load");
    assert_eq!(config.spire_action_hotkey, HotkeyKey::Tab);
}

#[test]
fn a_legacy_scan_only_key_is_ignored_instead_of_resetting_anything() {
    for value in [true, false] {
        let file = SettingsFile { spire_scan_only: Some(value), ..sample() };
        let config = Config::from_file(file)
            .unwrap_or_else(|error| panic!("spire_scan_only = {value} must still load: {error:?}"));
        assert_eq!(config.trigger_hotkey, HotkeyKey::F6);
        assert_eq!(config.spire_action_hotkey, HotkeyKey::Tab);
        assert_eq!((config.press_ms, config.gap_ms), (50, 50));
        assert_eq!(config.build_target, BuildTarget::Colony);
        assert_eq!(config.colony_row_mode, RowMode::LeftToRight);
        assert!(config.force_build);
        assert_eq!(config.target_process, "StarCraft.exe");
        assert_eq!(config.validate(), Ok(()));
        assert_eq!(config, Config::from_file(sample()).expect("the same file without the key"));
    }
}

#[test]
fn the_removed_scan_only_key_is_never_written_again() {
    let legacy = Config::from_file(SettingsFile { spire_scan_only: Some(true), ..sample() })
        .expect("load");
    let saved = legacy.to_file().expect("serialize");
    assert_eq!(saved.spire_scan_only, None);
    let reloaded = Config::from_file(saved).expect("parse the rewritten file");
    assert_eq!(reloaded, legacy);
    assert_eq!((reloaded.press_ms, reloaded.gap_ms), (50, 50));
    assert_eq!(reloaded.spire_action_hotkey, HotkeyKey::Tab);
}

#[test]
fn a_file_without_the_stargate_action_key_gets_a_free_default() {
    let config = Config::from_file(sample()).expect("an older file must still load");
    assert_eq!(config.stargate_action_hotkey, HotkeyKey::Tilde);
    assert_eq!(config.validate(), Ok(()));
    assert_eq!(Config::default().stargate_action_hotkey, HotkeyKey::Tilde);
    let file = SettingsFile { stargate_action_hotkey: Some(HotkeyKey::F11), ..sample() };
    assert_eq!(Config::from_file(file).expect("explicit key").stargate_action_hotkey, HotkeyKey::F11);
}

#[test]
fn the_stargate_key_must_be_distinct_from_every_other_binding() {
    for key in [HotkeyKey::F7, HotkeyKey::Tab, HotkeyKey::F6, HotkeyKey::EMERGENCY] {
        let config = Config { stargate_action_hotkey: key, ..Config::default() };
        let error = config.validate().expect_err("duplicate must be rejected");
        assert!(error.message().contains("stargate_action_hotkey"), "{error:?}");
    }
}

#[test]
fn a_row_trigger_on_f7_keeps_the_file_valid_with_the_default_action_key() {
    let file = SettingsFile { trigger_hotkey: Some(HotkeyKey::F7), ..sample() };
    let config = Config::from_file(file).expect("previously valid file");
    assert_eq!(config.trigger_hotkey, HotkeyKey::F7);
    assert_eq!(config.spire_action_hotkey, HotkeyKey::Tab);
    assert_eq!(config.validate(), Ok(()));
}

#[test]
fn the_third_key_defaults_to_f6_and_moves_out_of_the_way() {
    assert_eq!(DEFAULT_VACANT_COLONY_HOTKEY, HotkeyKey::F6);
    assert_ne!(DEFAULT_VACANT_COLONY_HOTKEY, HotkeyKey::F5);
    let config = Config::from_file(sample()).expect("older file");
    assert_eq!(config.trigger_hotkey, HotkeyKey::F6);
    assert_eq!(config.vacant_colony_hotkey, HotkeyKey::F7);
    assert_eq!(config.validate(), Ok(()));
    // The F6/F7 pair is an older default install and moves to F7/Tab.
    let file = SettingsFile { spire_action_hotkey: Some(HotkeyKey::F7), ..sample() };
    let config = Config::from_file(file).expect("previously valid file");
    assert_eq!(config.vacant_colony_hotkey, HotkeyKey::F9);
    assert_eq!(config.validate(), Ok(()));
    assert_eq!(Config::default().vacant_colony_hotkey, HotkeyKey::F6);
    let file = SettingsFile { vacant_colony_hotkey: Some(HotkeyKey::F11), ..sample() };
    assert_eq!(Config::from_file(file).expect("explicit key").vacant_colony_hotkey, HotkeyKey::F11);
}

#[test]
fn the_game_s_f4_view_key_can_never_be_bound() {
    for config in [
        Config { trigger_hotkey: HotkeyKey::F4, ..Config::default() },
        Config { spire_action_hotkey: HotkeyKey::F4, ..Config::default() },
        Config { vacant_colony_hotkey: HotkeyKey::F4, ..Config::default() },
        Config { stargate_action_hotkey: HotkeyKey::F4, ..Config::default() },
    ] {
        let error = config.validate().expect_err("F4 must be rejected");
        assert!(error.message().contains("F4"), "{error:?}");
    }
    assert!(HotkeyKey::ALL.contains(&HotkeyKey::F4));
}

#[test]
fn the_third_key_must_differ_from_the_other_two_and_from_f8() {
    for key in [HotkeyKey::Tilde, HotkeyKey::Tab, HotkeyKey::EMERGENCY] {
        let config = Config {
            trigger_hotkey: HotkeyKey::Tilde,
            spire_action_hotkey: HotkeyKey::Tab,
            vacant_colony_hotkey: key,
            ..Config::default()
        };
        let error = config.validate().expect_err("duplicate must be rejected");
        assert!(error.message().contains("vacant_colony_hotkey"), "{error:?}");
    }
}

#[test]
fn an_explicit_duplicate_action_key_is_rejected_with_a_clear_message() {
    let file = SettingsFile { spire_action_hotkey: Some(HotkeyKey::F6), ..sample() };
    match Config::from_file(file).expect_err("duplicate must fail") {
        ConfigError::Invalid(detail) => {
            assert!(detail.contains("spire_action_hotkey"), "{detail}");
            assert!(detail.contains("F6"), "{detail}");
        }
        other => panic!("expected an invalid-settings error, got {other:?}"),
    }
}

#[test]
fn the_spire_action_key_cannot_be_the_emergency_key() {
    let config = Config { spire_action_hotkey: HotkeyKey::EMERGENCY, ..Config::default() };
    assert!(matches!(config.validate(), Err(ConfigError::Invalid(_))));
}

#[test]
fn the_legacy_spire_key_still_migrates_to_the_row_trigger() {
    let file = SettingsFile {
        trigger_hotkey: None,
        colony_hotkey: Some(HotkeyKey::F5),
        spire_hotkey: Some(HotkeyKey::F7),
        ..sample()
    };
    let config = Config::from_file(file).expect("legacy file");
    assert_eq!(config.trigger_hotkey, HotkeyKey::F5);
    assert_eq!(config.spire_action_hotkey, HotkeyKey::Tab);
}

#[test]
fn the_trigger_key_migrates_from_the_old_two_hotkey_files() {
    let two_keys = SettingsFile {
        trigger_hotkey: None,
        colony_hotkey: Some(HotkeyKey::F11),
        spire_hotkey: Some(HotkeyKey::F12),
        ..sample()
    };
    assert_eq!(Config::from_file(two_keys).expect("parse").trigger_hotkey, HotkeyKey::F11);
    let none = SettingsFile { trigger_hotkey: None, ..sample() };
    assert_eq!(Config::from_file(none).expect("no hotkey key").trigger_hotkey, HotkeyKey::F7);
}

#[test]
fn the_previous_tilde_default_swaps_with_the_stargate_key() {
    let file = SettingsFile {
        trigger_hotkey: Some(HotkeyKey::Tilde),
        spire_action_hotkey: Some(HotkeyKey::Tab),
        vacant_colony_hotkey: Some(HotkeyKey::F6),
        stargate_action_hotkey: Some(HotkeyKey::F7),
        ..sample()
    };
    let config = Config::from_file(file).expect("previous defaults");
    assert_eq!(config.trigger_hotkey, HotkeyKey::F7);
    assert_eq!(config.stargate_action_hotkey, HotkeyKey::Tilde);
}

#[test]
fn a_config_error_renders_its_kind() {
    assert_eq!(
        ConfigError::Invalid("x".to_owned()).message(),
        "settings are not usable: x"
    );
    assert_eq!(ConfigError::Io("y".to_owned()).message(), "settings file i/o failed: y");
}
