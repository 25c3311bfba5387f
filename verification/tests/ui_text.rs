use oh_my_macro::building_action::{
    BuildingActionOutcome, BuildingActionReport, BuildingScanError, BuildingScanReport,
    BuildingTargetDisposition, BuildingTargetReport,
};
use oh_my_macro::colony::RowMode;
use oh_my_macro::config::{ConfigError, ConfigWarning};
use oh_my_macro::engine::{Outcome, RunReport};
use oh_my_macro::frame::Point;
use oh_my_macro::hotkey::{HotkeyError, HotkeyKey, HotkeySlot};
use oh_my_macro::input::InputError;
use oh_my_macro::macros::{BuildTarget, MacroId};
use oh_my_macro::runner::StartError;
use oh_my_macro::ui_text::{run_notice_level, Labels, Lang, NoticeLevel};
use oh_my_macro::vacant_colony::VacantColonyReport;

fn contains_hangul(text: &str) -> bool {
    text.chars()
        .any(|c| ('\u{AC00}'..='\u{D7A3}').contains(&c) || ('\u{3130}'..='\u{318F}').contains(&c))
}

#[test]
fn korean_labels_are_actually_korean() {
    let labels = Labels::korean();
    assert_eq!(labels.lang, Lang::Korean);
    for text in [
        labels.arm_button,
        labels.disarm_button,
        labels.note_select_drone,
        labels.note_chat,
        labels.note_online,
        labels.hotkey_register_failed,
        labels.status_armed,
        labels.sequence_label,
        labels.trigger_label,
        labels.trigger_single_hint,
        labels.timing_text_hint,
        labels.force_build_checkbox,
        labels.force_build_hint,
        labels.unconfirmed_suffix,
        labels.mouse_click_label,
        labels.advanced_heading,
        labels.row_build_title,
        labels.build_spire_checkbox,
        labels.build_target_label,
        labels.colony_target_name,
        labels.spire_target_name,
        labels.row_build_hint,
        labels.row_mode_label,
        labels.row_mode_left_to_right,
        labels.row_mode_ends_inward,
        labels.spire_action_title,
        labels.spire_action_hotkey_label,
        labels.spire_action_sequence_label,
        labels.spire_search_step_label,
        labels.spire_action_hint,
        labels.spire_confirm_scope_note,
        labels.spire_preview_heading,
        labels.spire_preview_empty,
        labels.spire_positions_label,
        labels.spire_capture_label,
        labels.spire_detect_label,
        labels.spire_scan_label,
        labels.spire_scan_only_unsent,
        labels.spire_a_sent_label,
        labels.spire_skipped_label,
        labels.spire_a_not_upgrade,
        labels.spire_skipped_note,
        labels.spire_zero_note,
        labels.status_scanning,
        labels.arm_hint_invalid,
    ] {
        assert!(contains_hangul(text), "no Hangul in '{text}'");
    }
}

#[test]
fn english_labels_are_plain_ascii() {
    let labels = Labels::english();
    assert_eq!(labels.lang, Lang::English);
    for text in [
        labels.app_title,
        labels.arm_button,
        labels.note_select_drone,
        labels.note_chat,
        labels.note_online,
        labels.busy_note,
        labels.sequence_label,
        labels.trigger_label,
        labels.trigger_single_hint,
        labels.timing_text_hint,
        labels.force_build_checkbox,
        labels.force_build_hint,
        labels.unconfirmed_suffix,
        labels.mouse_click_label,
        labels.advanced_heading,
        labels.row_build_title,
        labels.build_spire_checkbox,
        labels.build_target_label,
        labels.colony_target_name,
        labels.spire_target_name,
        labels.row_build_hint,
        labels.row_mode_label,
        labels.row_mode_left_to_right,
        labels.row_mode_ends_inward,
        labels.spire_action_title,
        labels.spire_action_hotkey_label,
        labels.spire_action_sequence_label,
        labels.spire_search_step_label,
        labels.spire_action_hint,
        labels.spire_confirm_scope_note,
        labels.spire_preview_heading,
        labels.spire_preview_empty,
        labels.spire_detected_label,
        labels.spire_positions_label,
        labels.spire_capture_label,
        labels.spire_detect_label,
        labels.spire_roi_label,
        labels.spire_scan_label,
        labels.spire_scan_only_tag,
        labels.spire_scan_only_unsent,
        labels.spire_a_sent_label,
        labels.spire_skipped_label,
        labels.spire_a_not_upgrade,
        labels.spire_skipped_note,
        labels.spire_zero_note,
        labels.status_scanning,
        labels.arm_hint_invalid,
    ] {
        assert!(text.is_ascii(), "non ASCII in '{text}'");
    }
}

#[test]
fn the_row_build_hint_differs_per_language() {
    assert_ne!(Labels::korean().row_build_hint, Labels::english().row_build_hint);
}

#[test]
fn every_build_target_has_a_distinct_localized_name() {
    for labels in [Labels::korean(), Labels::english()] {
        let names: Vec<&str> = BuildTarget::ALL
            .into_iter()
            .map(|target| labels.build_target_name(target))
            .collect();
        assert_eq!(names.len(), BuildTarget::ALL.len());
        assert_eq!(names[0], labels.colony_target_name);
        assert_eq!(names[1], labels.spire_target_name);
        assert_ne!(names[0], names[1]);
    }
}

#[test]
fn every_row_mode_has_a_distinct_localized_name() {
    for labels in [Labels::korean(), Labels::english()] {
        let names: Vec<&str> = RowMode::ALL
            .into_iter()
            .map(|mode| labels.row_mode_name(mode))
            .collect();
        assert_eq!(names.len(), RowMode::ALL.len());
        assert_eq!(names[0], labels.row_mode_left_to_right);
        assert_eq!(names[1], labels.row_mode_ends_inward);
        assert_ne!(names[0], names[1]);
    }
    assert_ne!(Labels::korean().row_mode_label, Labels::english().row_mode_label);
}

#[test]
fn both_languages_describe_the_same_states() {
    assert_ne!(Labels::korean().arm_button, Labels::english().arm_button);
    assert_eq!(Labels::korean().macro_label(MacroId::CreepColony), Labels::korean().colony_label);
    assert_eq!(Labels::english().macro_label(MacroId::Spire), Labels::english().spire_label);
}

#[test]
fn outcomes_and_errors_are_rendered_with_progress_and_detail() {
    let labels = Labels::korean();
    let report = RunReport {
        macro_id: MacroId::Spire,
        outcome: Outcome::Aborted {
            detail: "foreground window belongs to 'notepad.exe'".to_owned(),
        },
        steps_done: 3,
        steps_total: 6,
        unconfirmed: 1,
    };
    let line = labels.outcome(&report);
    assert!(line.contains(labels.outcome_aborted), "{line}");
    assert!(line.contains("3/6"), "{line}");
    assert!(line.contains("notepad.exe"), "{line}");
    assert!(line.contains(labels.spire_label), "{line}");
}

#[test]
fn an_outcome_line_reads_exactly() {
    let labels = Labels::english();
    let report = RunReport {
        macro_id: MacroId::CreepColony,
        outcome: Outcome::Completed,
        steps_done: 6,
        steps_total: 6,
        unconfirmed: 2,
    };
    assert_eq!(
        labels.outcome(&report),
        "Creep Colony completed (steps 6/6) — 2 unconfirmed (forced)"
    );
    let report = RunReport { steps_total: 0, unconfirmed: 0, ..report };
    assert_eq!(labels.outcome(&report), "Creep Colony completed (6)");
}

#[test]
fn hotkey_errors_name_the_binding() {
    let labels = Labels::korean();
    let line = labels.hotkey_error(&HotkeyError::Register {
        slot: HotkeySlot::Trigger,
        key: HotkeyKey::F6,
        detail: "already registered".to_owned(),
    });
    assert!(line.contains("F6"), "{line}");
    assert!(line.contains(labels.hotkey_slot_trigger), "{line}");
    let line = labels.hotkey_error(&HotkeyError::Listener { detail: "timed out".to_owned() });
    assert!(line.contains(labels.hotkey_listener_failed), "{line}");
}

#[test]
fn warnings_keep_their_english_detail() {
    let labels = Labels::english();
    let line = labels.config_warning(&ConfigWarning::Parse {
        detail: "unknown field `gapp_ms`".to_owned(),
    });
    assert!(line.contains("unknown field"), "{line}");
    assert!(line.contains(labels.warn_parse), "{line}");
}

#[test]
fn a_save_failure_keeps_the_english_error() {
    let labels = Labels::english();
    assert_eq!(
        labels.config_error(&ConfigError::Io("disk full".to_owned())),
        "Could not save settings: settings file i/o failed: disk full"
    );
}

#[test]
fn start_errors_are_localized() {
    assert_eq!(Labels::korean().start_error(StartError::Busy), Labels::korean().busy_note);
    assert_eq!(Labels::english().start_error(StartError::Busy), Labels::english().busy_note);
    assert_eq!(
        Labels::english().start_error(StartError::Thread { detail: "oom".to_owned() }),
        "error: oom"
    );
}

#[test]
fn emergency_and_ignored_notes_are_localized() {
    let korean = Labels::korean();
    let english = Labels::english();
    assert_ne!(korean.status_emergency, english.status_emergency);
    assert_ne!(korean.status_not_armed, english.status_not_armed);
    for text in [korean.status_emergency, korean.status_not_armed] {
        assert!(contains_hangul(text), "no Hangul in '{text}'");
    }
    for text in [english.status_emergency, english.status_not_armed] {
        assert!(text.is_ascii(), "non ASCII in '{text}'");
    }
}

fn scan_report(count: usize) -> BuildingScanReport {
    BuildingScanReport {
        centers: (0..count).map(|index| Point::new(700 + index as i32, 150)).collect(),
        count,
        capture_ms: 28,
        detect_ms: 79,
        full_captures: 1,
    }
}

fn action_report(acted: usize, skipped: usize, outcome: BuildingActionOutcome) -> BuildingActionReport {
    let targets = (0..acted + skipped)
        .map(|index| BuildingTargetReport {
            center: Point::new(700 + index as i32, 160),
            score_permille: 900,
            disposition: if index < acted {
                BuildingTargetDisposition::Acted
            } else {
                BuildingTargetDisposition::Skipped {
                    reason: "selection panel did not show the Spire portrait".to_owned(),
                }
            },
        })
        .collect();
    BuildingActionReport {
        label: "Spire",
        outcome,
        detections: acted + skipped,
        targets,
        acted,
        skipped,
        full_captures: 1,
        roi_captures: acted + skipped,
        capture_ms: 28,
        detect_ms: 79,
    }
}

#[test]
fn a_scan_only_preview_reports_what_it_found_without_claiming_input() {
    for labels in [Labels::korean(), Labels::english()] {
        let preview = labels.spire_scan_preview(&scan_report(4));
        assert_eq!(preview.level, NoticeLevel::Info, "a preview can never be a success");
        assert!(preview.headline.contains('4'), "{}", preview.headline);
        assert!(preview.headline.contains(labels.spire_scan_only_tag), "{}", preview.headline);
        assert!(preview.headline.contains(labels.spire_scan_only_unsent), "{}", preview.headline);
        let timings = preview.timings.expect("capture and detect times");
        assert!(timings.contains("28 ms") && timings.contains("79 ms"), "{timings}");
        let positions = preview.positions.expect("positions");
        assert!(positions.contains(labels.spire_positions_label), "{positions}");
        assert!(positions.contains("(700,150)"), "{positions}");
        assert!(preview.notes.is_empty(), "{:?}", preview.notes);
    }
}

#[test]
fn a_zero_detection_scan_says_zero_without_pretending_it_is_an_answer() {
    for labels in [Labels::korean(), Labels::english()] {
        let preview = labels.spire_scan_preview(&scan_report(0));
        assert_eq!(preview.level, NoticeLevel::Info);
        assert!(preview.headline.contains('0'), "{}", preview.headline);
        assert!(preview.positions.is_none(), "nothing to point at");
        assert_eq!(preview.notes, vec![labels.spire_zero_note.to_owned()]);
    }
}

#[test]
fn a_refused_or_unusable_scan_is_an_error_that_keeps_the_english_reason() {
    let labels = Labels::korean();
    let refused = labels.spire_scan_error_preview(&BuildingScanError::Adapter(InputError::Unsafe(
        "foreground window belongs to 'notepad.exe'".to_owned(),
    )));
    assert_eq!(refused.level, NoticeLevel::Error);
    assert!(refused.headline.contains(labels.outcome_aborted), "{}", refused.headline);
    assert!(refused.headline.contains("notepad.exe"), "{}", refused.headline);
    assert!(refused.headline.contains(labels.spire_scan_label), "{}", refused.headline);
    assert!(refused.positions.is_none() && refused.timings.is_none());

    let blank = labels.spire_scan_error_preview(&BuildingScanError::Unusable {
        detail: "the capture is blank".to_owned(),
    });
    assert_eq!(blank.level, NoticeLevel::Error);
    assert!(blank.headline.contains(labels.outcome_aborted), "{}", blank.headline);
    assert!(blank.headline.contains("blank"), "{}", blank.headline);
}

#[test]
fn every_scan_error_has_a_localized_word_and_an_error_level() {
    let labels = Labels::korean();
    for (error, word) in [
        (BuildingScanError::Cancelled, labels.outcome_cancelled),
        (
            BuildingScanError::Adapter(InputError::Injection("SendInput refused".to_owned())),
            labels.outcome_failed,
        ),
        (BuildingScanError::Unusable { detail: "blank".to_owned() }, labels.outcome_aborted),
        (
            BuildingScanError::Internal {
                detail: "internal panic while scanning the screen".to_owned(),
            },
            labels.outcome_failed,
        ),
    ] {
        assert_eq!(labels.spire_scan_error_word(&error), word, "{error:?}");
        assert_eq!(labels.spire_scan_error_preview(&error).level, NoticeLevel::Error);
    }
}

#[test]
fn an_action_preview_counts_a_commands_and_says_they_are_not_buildings() {
    for labels in [Labels::korean(), Labels::english()] {
        let preview = labels.spire_action_preview(&action_report(4, 0, BuildingActionOutcome::Completed));
        assert_eq!(preview.level, NoticeLevel::Success);
        assert!(preview.headline.contains(labels.spire_action_title), "{}", preview.headline);
        assert!(preview.headline.contains(labels.spire_a_sent_label), "{}", preview.headline);
        assert!(preview.headline.contains(labels.spire_skipped_label), "{}", preview.headline);
        assert!(preview.notes.contains(&labels.spire_a_not_upgrade.to_owned()));
        assert!(!preview.notes.contains(&labels.spire_skipped_note.to_owned()));
        let timings = preview.timings.expect("capture and detect times");
        assert!(timings.contains(labels.spire_roi_label), "{timings}");
        assert!(timings.contains("28 ms") && timings.contains("79 ms"), "{timings}");
        assert!(preview.positions.is_some());
    }
}

#[test]
fn the_action_preview_warns_type_is_not_ownership_or_upgrade_availability() {
    for labels in [Labels::korean(), Labels::english()] {
        let preview = labels.spire_action_preview(&action_report(4, 0, BuildingActionOutcome::Completed));
        assert!(preview.notes.contains(&labels.spire_confirm_scope_note.to_owned()));
        assert!(preview.notes.contains(&labels.spire_a_not_upgrade.to_owned()));
    }
}

#[test]
fn an_english_action_headline_reads_exactly() {
    let labels = Labels::english();
    let preview = labels.stargate_action_preview(&action_report(3, 1, BuildingActionOutcome::Completed));
    assert_eq!(preview.headline, "Stargate detection completed | A sent 3 | 4 detected | 1 skipped");
    assert_eq!(preview.level, NoticeLevel::Info);
    assert_eq!(
        preview.timings.as_deref(),
        Some("scan capture 1 (28 ms) | detect 79 ms | ROI capture 4")
    );
    assert_eq!(preview.notes[0], labels.stargate_skipped_note);
}

#[test]
fn a_partial_or_empty_action_is_information_not_success() {
    let labels = Labels::korean();
    let partial = labels.spire_action_preview(&action_report(3, 1, BuildingActionOutcome::Completed));
    assert_eq!(partial.level, NoticeLevel::Info);
    assert!(partial.notes.contains(&labels.spire_skipped_note.to_owned()));
    let none = labels.spire_action_preview(&action_report(0, 4, BuildingActionOutcome::Completed));
    assert_eq!(none.level, NoticeLevel::Info, "no A sent is not a success");
    assert!(none.headline.contains(labels.outcome_completed), "{}", none.headline);
    let cancelled = labels.spire_action_preview(&action_report(1, 0, BuildingActionOutcome::Cancelled));
    assert_eq!(cancelled.level, NoticeLevel::Info);
    assert!(cancelled.headline.contains(labels.outcome_cancelled), "{}", cancelled.headline);
}

#[test]
fn an_aborted_action_is_an_error_that_keeps_the_english_detail() {
    let labels = Labels::english();
    let report = action_report(
        0,
        0,
        BuildingActionOutcome::Aborted { detail: "foreground window belongs to 'notepad.exe'".to_owned() },
    );
    let preview = labels.spire_action_preview(&report);
    assert_eq!(preview.level, NoticeLevel::Error);
    assert!(preview.headline.contains(labels.outcome_aborted), "{}", preview.headline);
    assert!(preview.headline.contains("notepad.exe"), "{}", preview.headline);
    assert!(preview.positions.is_none(), "nothing was clicked");
}

#[test]
fn a_long_position_list_is_truncated_with_a_localized_suffix() {
    for labels in [Labels::korean(), Labels::english()] {
        let centers: Vec<Point> = (0..10).map(|index| Point::new(700 + index, 150)).collect();
        let text = labels.spire_positions(&centers);
        assert!(text.contains("(700,150)"), "{text}");
        assert!(text.contains(labels.spire_more_positions(2).as_str()), "{text}");
        assert!(!text.contains("(709,150)"), "only the first eight are shown: {text}");
        assert_eq!(labels.spire_positions(&[]), "");
    }
    assert_eq!(
        Labels::english().spire_positions(&[Point::new(-3, 5), Point::new(7, 8)]),
        "(-3,5) | (7,8)"
    );
}

#[test]
fn the_third_feature_hint_is_short_and_names_the_saved_view() {
    for labels in [Labels::korean(), Labels::english()] {
        let hint = labels.vacant_colony_hint();
        assert!(hint.contains("F4"), "{hint}");
        assert!(hint.contains('2') && hint.contains("12"), "{hint}");
        assert!(hint.chars().count() < 150, "{hint}");
        assert!(!labels.vacant_colony_title().is_empty());
    }
    assert_ne!(Labels::korean().vacant_colony_hint(), Labels::english().vacant_colony_hint());
}

#[test]
fn the_third_feature_result_never_claims_completed_buildings() {
    let report = |outcome: Outcome, orders: usize, starts: usize, detected: u8, probes: usize| {
        VacantColonyReport {
            outcome,
            detected,
            orders: vec![Point::new(900, 400); orders],
            starts: vec![Point::new(900, 400); starts],
            probes,
        }
    };
    let labels = Labels::korean();
    let (level, text) = labels.vacant_colony_result(&report(Outcome::Completed, 3, 3, 4, 12));
    assert_eq!(level, NoticeLevel::Success);
    assert!(text.contains("3/4"), "{text}");
    assert!(text.contains("12"), "{text}");
    assert!(text.contains("변이 시작 확인 3개"), "the confirmed starts must be visible: {text}");
    assert!(text.contains("건설 완료 수 아님"), "an issued order is not a finished building: {text}");

    let (level, text) = labels.vacant_colony_result(&report(Outcome::Cancelled, 1, 0, 4, 30));
    assert_eq!(level, NoticeLevel::Info, "a partial run is not a success");
    assert!(text.contains("1/4"), "{text}");
    assert!(text.contains("변이 시작 확인 0개"), "starts are counted separately from orders: {text}");

    let (level, text) = labels.vacant_colony_result(&report(
        Outcome::Aborted {
            detail: "the F4 view changed; refusing stale screen coordinates".to_owned(),
        },
        0,
        0,
        4,
        7,
    ));
    assert_eq!(level, NoticeLevel::Error);
    assert!(text.contains("stale screen coordinates"), "the English detail must survive: {text}");

    let (english_level, english_text) =
        Labels::english().vacant_colony_result(&report(Outcome::Cancelled, 1, 0, 4, 30));
    assert_eq!(english_level, NoticeLevel::Info);
    assert!(english_text.contains("not completed buildings"), "{english_text}");
    assert!(english_text.contains("confirmed construction starts"), "{english_text}");
}

#[test]
fn the_live_counters_read_in_both_languages() {
    assert_eq!(
        Labels::english().vacant_colony_progress(12, 3, 2),
        "12 probes · 3 orders · 2 morphs confirmed started (not completed buildings)"
    );
    assert_eq!(Labels::english().steps(3, 6), "steps 3/6");
    assert_eq!(Labels::korean().spire_more_positions(3), "외 3곳");
}

#[test]
fn the_row_build_notice_level_follows_the_outcome_wording() {
    let mut report = RunReport {
        macro_id: MacroId::CreepColony,
        outcome: Outcome::Completed,
        steps_done: 1,
        steps_total: 1,
        unconfirmed: 0,
    };
    assert_eq!(run_notice_level(&report), NoticeLevel::Success);
    report.outcome = Outcome::Cancelled;
    assert_eq!(run_notice_level(&report), NoticeLevel::Error);
    report.outcome = Outcome::Failed { detail: "stub".to_owned() };
    assert_eq!(run_notice_level(&report), NoticeLevel::Error);
}

#[test]
fn action_hints_are_short_and_keep_the_verification_contract() {
    for labels in [Labels::korean(), Labels::english()] {
        let hint = labels.spire_action_hint;
        assert!(hint.chars().count() < 120, "{hint}");
        assert!(hint.contains("선택 확인") || hint.contains("verifying the selection"), "{hint}");
        assert!(hint.contains("1920x1080"), "{hint}");
        assert!(labels.spire_action_title.chars().count() < 24);
        assert!(labels.stargate_action_title.chars().count() < 24);
    }
}

#[test]
fn row_hint_is_short_and_keeps_the_required_constraints() {
    for labels in [Labels::korean(), Labels::english()] {
        let hint = labels.row_build_hint;
        assert!(hint.chars().count() < 150, "{hint}");
        assert!(hint.contains("2~12") || hint.contains("2-12"), "{hint}");
        assert!(hint.contains("1920x1080"), "{hint}");
        assert!(hint.contains("그룹 9") || hint.contains("group 9"), "{hint}");
        assert!(labels.colony_target_name.contains("2x2"));
        assert!(labels.spire_target_name.contains("2x2"));
        assert_ne!(labels.build_spire_checkbox, labels.colony_target_name);
    }
}
