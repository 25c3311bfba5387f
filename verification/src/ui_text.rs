//! Localized UI strings.
//!
//! Korean is the primary language; the GUI switches to English when no
//! Hangul capable font was found. Engine and adapter details stay English on
//! purpose: they carry data from the operating system and are appended after
//! the localized framing. Both label sets describe the same states, so every
//! line differs only in wording and language.
use vstd::prelude::*;
use vstd::string::*;

use crate::building_action::{
    scan_error_text, BuildingActionOutcome, BuildingActionReport, BuildingScanError,
    BuildingScanReport,
};
use crate::colony::RowMode;
use crate::config::{config_error_text, ConfigError, ConfigWarning};
use crate::engine::{Outcome, RunReport};
use crate::frame::Point;
use crate::hotkey::{hotkey_error_text, key_label, HotkeyError, HotkeySlot};
use crate::input::InputError;
use crate::macros::{BuildTarget, MacroId};
use crate::runner::{start_error_text, StartError};
use crate::text::{decimal, decimal_text, signed_decimal, signed_text};
use crate::vacant_colony::VacantColonyReport;

verus! {

/// UI language actually in use.
#[derive(Clone, Copy, Debug, PartialEq, Eq, Structural)]
pub enum Lang {
    Korean,
    English,
}

/// How the GUI presents one result: neutral information, a success, or a
/// problem. A preview is information by definition, and a pass that sent no
/// `A` is never a success.
#[derive(Clone, Copy, Debug, PartialEq, Eq, Structural)]
pub enum NoticeLevel {
    Info,
    Success,
    Error,
}

/// The compact, pre-localized result one Spire card shows until the next run.
#[derive(Clone, Debug, PartialEq, Eq)]
pub struct SpirePreview {
    pub level: NoticeLevel,
    /// One line: what ran and what it did.
    pub headline: String,
    /// Detection positions of this run, if it produced any.
    pub positions: Option<String>,
    /// Capture/detection timings of this run.
    pub timings: Option<String>,
    /// Extra honesty lines (skipped targets, "A commands are not upgrades").
    pub notes: Vec<String>,
}

/// All user visible strings.
#[derive(Clone, Copy, Debug)]
pub struct Labels {

    pub lang: Lang,

    pub app_title: &'static str,
    pub status_heading: &'static str,
    pub status_armed: &'static str,
    pub status_disarmed: &'static str,
    pub status_running: &'static str,
    pub status_idle: &'static str,
    pub status_emergency: &'static str,
    pub status_not_armed: &'static str,
    pub arm_button: &'static str,
    pub disarm_button: &'static str,
    pub arm_hint: &'static str,

    pub hotkeys_heading: &'static str,
    pub colony_label: &'static str,
    pub spire_label: &'static str,
    pub emergency_label: &'static str,
    pub emergency_hint: &'static str,
    pub hotkeys_locked_hint: &'static str,

    pub timing_heading: &'static str,
    pub press_label: &'static str,
    pub gap_label: &'static str,
    pub timing_hint: &'static str,
    pub target_label: &'static str,
    pub target_hint: &'static str,
    pub interval_range_hint: &'static str,

    pub sequence_label: &'static str,
    pub trigger_label: &'static str,
    pub trigger_single_hint: &'static str,
    pub timing_text_hint: &'static str,
    pub force_build_checkbox: &'static str,
    pub force_build_hint: &'static str,
    pub unconfirmed_suffix: &'static str,
    pub mouse_click_label: &'static str,
    pub row_build_title: &'static str,
    pub build_spire_checkbox: &'static str,
    pub build_target_label: &'static str,
    pub colony_target_name: &'static str,
    pub spire_target_name: &'static str,
    pub row_build_hint: &'static str,
    pub row_mode_label: &'static str,
    pub row_mode_left_to_right: &'static str,
    pub row_mode_ends_inward: &'static str,
    pub row_mode_grid_6x2: &'static str,
    pub spire_action_title: &'static str,
    pub spire_action_hotkey_label: &'static str,
    pub spire_action_sequence_label: &'static str,
    /// The read-only first step of one action run, shown in the sequence row
    /// before the first click: exactly one full-screen search.
    pub spire_search_step_label: &'static str,
    pub spire_action_hint: &'static str,
    /// Caveat under the Spire card: what a detection and a confirmed selection
    /// panel do **not** prove (type only, not ownership or upgrade availability).
    pub spire_confirm_scope_note: &'static str,
    pub spire_preview_heading: &'static str,
    pub spire_preview_empty: &'static str,
    pub spire_detected_label: &'static str,
    pub spire_positions_label: &'static str,
    pub spire_capture_label: &'static str,
    pub spire_detect_label: &'static str,
    pub spire_roi_label: &'static str,
    pub spire_scan_label: &'static str,
    /// Tag of the retained read-only scan diagnostic (no longer reachable from
    /// the action card, which always runs the action).
    pub spire_scan_only_tag: &'static str,
    pub spire_scan_only_unsent: &'static str,
    pub spire_a_sent_label: &'static str,
    pub spire_skipped_label: &'static str,
    pub spire_a_not_upgrade: &'static str,
    pub spire_skipped_note: &'static str,
    pub spire_zero_note: &'static str,
    pub stargate_action_title: &'static str,
    pub stargate_action_hint: &'static str,
    pub stargate_confirm_scope_note: &'static str,
    pub stargate_recall_f2_checkbox: &'static str,
    pub stargate_recall_f2_hint: &'static str,
    pub stargate_skipped_note: &'static str,
    /// Label of the retained read-only scan diagnostic (see
    /// [`Labels::spire_scan_preview`]); the action card itself only ever shows
    /// [`Labels::status_running`], because the action key always runs the full
    /// action.
    pub status_scanning: &'static str,
    pub arm_hint_invalid: &'static str,
    pub advanced_heading: &'static str,

    pub config_heading: &'static str,
    pub config_path_label: &'static str,
    pub save_button: &'static str,
    pub reload_button: &'static str,
    pub reset_button: &'static str,
    pub saved_ok: &'static str,
    pub save_failed: &'static str,

    pub warn_read: &'static str,
    pub warn_parse: &'static str,
    pub warn_invalid: &'static str,

    pub hotkey_register_failed: &'static str,
    pub hotkey_listener_failed: &'static str,
    pub hotkey_slot_trigger: &'static str,
    pub hotkey_slot_spire_action: &'static str,
    pub hotkey_slot_stargate_action: &'static str,
    pub hotkey_slot_emergency: &'static str,

    pub diag_heading: &'static str,
    pub diag_foreground: &'static str,
    pub diag_target_ok: &'static str,
    pub diag_target_not: &'static str,
    pub diag_unknown: &'static str,

    pub outcome_completed: &'static str,
    pub outcome_cancelled: &'static str,
    pub outcome_aborted: &'static str,
    pub outcome_failed: &'static str,
    pub steps_word: &'static str,
    pub busy_note: &'static str,

    pub notes_heading: &'static str,
    pub vacant_colony_sequence_label: &'static str,
    pub vacant_colony_search_step_label: &'static str,
    pub vacant_colony_confirm_step_label: &'static str,
    pub vacant_colony_caveat: &'static str,
    pub note_select_drone: &'static str,
    pub note_chat: &'static str,
    pub note_online: &'static str,
    pub note_language_fallback: &'static str,
}

/// The Korean label set.
pub open spec fn korean_labels() -> Labels {
    Labels {
        lang: Lang::Korean,
        app_title: "oh-my-macro",
        status_heading: "상태",
        status_armed: "사용 중",
        status_disarmed: "중지됨",
        status_running: "실행 중",
        status_idle: "대기",
        status_emergency: "정지 F8",
        status_not_armed: "중지 상태입니다",
        arm_button: "사용 시작",
        disarm_button: "사용 중지",
        arm_hint: "사용 시작 후 단축키가 동작합니다. F8로 언제든 정지할 수 있습니다.",
        hotkeys_heading: "단축키",
        colony_label: "크립 콜로니 (Creep Colony)",
        spire_label: "둥지탑 (Spire)",
        emergency_label: "정지",
        emergency_hint: "F8은 고정 정지 키입니다.",
        hotkeys_locked_hint: "사용 중에는 단축키를 바꿀 수 없습니다.",
        timing_heading: "입력 타이밍",
        press_label: "누름 (ms)",
        gap_label: "간격 (ms)",
        timing_hint: "기본 20ms입니다. 게임이 입력을 놓치면 50ms 전후로 늘려보세요.",
        target_label: "대상 프로세스 (exe 파일명)",
        target_hint: "창 제목이 아니라 실행 파일 이름입니다. 예: StarCraft.exe",
        interval_range_hint: "범위",
        sequence_label: "입력 순서",
        trigger_label: "트리거 단축키",
        trigger_single_hint: "이 단축키로 실행합니다. F8은 정지입니다.",
        timing_text_hint: "1~2000ms 숫자를 직접 입력하세요.",
        force_build_checkbox: "미리보기 확인 실패 시에도 강행",
        force_build_hint: "미리보기가 안 보여도 클릭을 계속합니다.",
        unconfirmed_suffix: "건은 미확인(강행)",
        mouse_click_label: "좌클릭",
        row_build_title: "드론 줄짓기 건설",
        build_spire_checkbox: "둥지탑(Spire) 건설 — 끄면 크립 콜로니",
        build_target_label: "건물",
        colony_target_name: "크립 콜로니 (2x2)",
        spire_target_name: "둥지탑 (2x2)",
        row_build_hint: "선택한 드론 2~12기로 커서 오른쪽에 한 줄 또는 6x2로 건설합니다. 그룹 9 사용 · 1920x1080 전용.",
        row_mode_label: "배치 순서",
        row_mode_left_to_right: "왼쪽→오른쪽",
        row_mode_ends_inward: "양끝→가운데",
        row_mode_grid_6x2: "6x2 (1~6 아래 / 7~12 위)",
        spire_action_title: "스파이어 감지",
        spire_action_hotkey_label: "단축키",
        spire_action_sequence_label: "동작",
        spire_search_step_label: "탐색",
        spire_action_hint: "화면의 스파이어를 클릭하고, 선택 확인 후에만 A를 누릅니다. 1920x1080 전용.",
        spire_confirm_scope_note: "소유권과 업그레이드 가능 여부는 확인하지 않습니다.",
        spire_preview_heading: "마지막 결과",
        spire_preview_empty: "아직 실행 결과가 없습니다.",
        spire_detected_label: "곳 감지",
        spire_positions_label: "감지 위치",
        spire_capture_label: "탐색용 캡처",
        spire_detect_label: "감지",
        spire_roi_label: "ROI 캡처",
        spire_scan_label: "스파이어 스캔",
        spire_scan_only_tag: "스캔만",
        spire_scan_only_unsent: "클릭·A를 보내지 않았습니다",
        spire_a_sent_label: "A 전송",
        spire_skipped_label: "건너뜀",
        spire_a_not_upgrade: "표시된 수는 완성된 업그레이드가 아니라 보낸 A 명령 수입니다.",
        spire_skipped_note: "선택 패널이 스파이어로 확인되지 않은 위치는 A를 보내지 않고 건너뛰었습니다.",
        spire_zero_note: "0곳은 없다는 증명이 아닙니다 — 게임 창이 전면에서 렌더링 중인지 확인하세요.",
        stargate_action_title: "스타게이트 감지",
        stargate_action_hint: "화면의 스타게이트를 클릭하고, 선택 확인 후에만 A를 누릅니다. 1920x1080 전용.",
        stargate_confirm_scope_note: "소유권과 업그레이드 가능 여부는 확인하지 않습니다.",
        stargate_recall_f2_checkbox: "실행 전에 F2 화면 호출",
        stargate_recall_f2_hint: "F2 화면으로 이동한 뒤 스타게이트를 탐색합니다.",
        stargate_skipped_note: "스타게이트로 확인되지 않으면 A를 보내지 않습니다.",
        status_scanning: "스캔 중",
        arm_hint_invalid: "설정을 확인하세요. 단축키가 겹치면 시작할 수 없습니다.",
        advanced_heading: "설정",
        config_heading: "설정 파일",
        config_path_label: "경로",
        save_button: "저장",
        reload_button: "다시 읽기",
        reset_button: "기본값으로",
        saved_ok: "설정을 저장했습니다.",
        save_failed: "설정 저장 실패",
        warn_read: "설정 파일을 읽을 수 없어 기본값을 사용합니다",
        warn_parse: "설정 파일이 올바르지 않아 기본값을 사용합니다",
        warn_invalid: "설정 값이 범위를 벗어나 기본값을 사용합니다",
        hotkey_register_failed: "단축키 등록 실패 — 다른 프로그램이 이미 사용 중일 수 있습니다",
        hotkey_listener_failed: "단축키 감시를 시작하지 못했습니다",
        hotkey_slot_trigger: "줄짓기 실행",
        hotkey_slot_spire_action: "스파이어 동작",
        hotkey_slot_stargate_action: "스타게이트 동작",
        hotkey_slot_emergency: "정지",
        diag_heading: "안전 점검",
        diag_foreground: "현재 전면 창 프로세스",
        diag_target_ok: "대상 확인됨 — 입력을 보낼 수 있습니다",
        diag_target_not: "대상 아님 — 입력을 보내지 않습니다",
        diag_unknown: "확인할 수 없음",
        outcome_completed: "완료",
        outcome_cancelled: "취소됨",
        outcome_aborted: "중단됨",
        outcome_failed: "오류",
        steps_word: "단계",
        busy_note: "이미 실행 중입니다. 새 입력은 대기열에 쌓지 않고 무시합니다.",
        notes_heading: "사용 전 확인",
        vacant_colony_sequence_label: "한 번 실행",
        vacant_colony_search_step_label: "빈자리 탐색·검증",
        vacant_colony_confirm_step_label: "변이 시작 확인",
        vacant_colony_caveat: "확인된 빈자리에만 건설합니다. 최대 탐색 60초.",
        note_select_drone: "줄짓기: 드론 2~12기를 선택하고 커서를 첫 위치에 둡니다. F6 기능은 게임의 F4 저장 화면을 사용합니다.",
        note_chat: "게임 채팅 입력 중에는 사용하지 마세요.",
        note_online: "온라인 경기에서는 이용 규정을 확인하세요.",
        note_language_fallback: "한글 글꼴을 찾지 못해 영어로 표시합니다.",
    }
}

/// The English label set.
pub open spec fn english_labels() -> Labels {
    Labels {
        lang: Lang::English,
        app_title: "oh-my-macro",
        status_heading: "Status",
        status_armed: "Active",
        status_disarmed: "Stopped",
        status_running: "Running",
        status_idle: "Idle",
        status_emergency: "Stop F8",
        status_not_armed: "ignored: stopped",
        arm_button: "Start",
        disarm_button: "Stop",
        arm_hint: "Press Start to enable hotkeys. Press F8 anytime to stop.",
        hotkeys_heading: "Hotkeys",
        colony_label: "Creep Colony",
        spire_label: "Spire",
        emergency_label: "Stop",
        emergency_hint: "F8 is the fixed stop key.",
        hotkeys_locked_hint: "Hotkeys cannot be changed while active.",
        timing_heading: "Input timing",
        press_label: "Hold (ms)",
        gap_label: "Gap (ms)",
        timing_hint: "The 20 ms default is fast; increase toward 50 ms if the game misses input.",
        target_label: "Target process (exe basename)",
        target_hint: "Exe file name, not a window title, e.g. StarCraft.exe",
        interval_range_hint: "range",
        sequence_label: "Sequence",
        trigger_label: "Trigger Hotkey",
        trigger_single_hint: "This hotkey runs the macro. F8 stops it.",
        timing_text_hint: "Enter a number from 1 to 2000 ms.",
        force_build_checkbox: "Keep going without a confirmed preview",
        force_build_hint: "Continue clicking when the preview is not visible.",
        unconfirmed_suffix: "unconfirmed (forced)",
        mouse_click_label: "Click",
        row_build_title: "Drone row build",
        build_spire_checkbox: "Build a Spire (unchecked: Creep Colony)",
        build_target_label: "Building",
        colony_target_name: "Creep Colony (2x2)",
        spire_target_name: "Spire (2x2)",
        row_build_hint: "Builds a row or 6x2 grid to the right with 2-12 selected drones. Uses group 9 - 1920x1080 only.",
        row_mode_label: "Row order",
        row_mode_left_to_right: "Left to right",
        row_mode_ends_inward: "Ends inward",
        row_mode_grid_6x2: "6x2 (1-6 bottom / 7-12 top)",
        spire_action_title: "Spire detection",
        spire_action_hotkey_label: "Hotkey",
        spire_action_sequence_label: "Action",
        spire_search_step_label: "Scan",
        spire_action_hint: "Clicks visible Spires and presses A only after verifying the selection. 1920x1080 only.",
        spire_confirm_scope_note: "Ownership and upgrade availability are not checked.",
        spire_preview_heading: "Last result",
        spire_preview_empty: "No result yet.",
        spire_detected_label: "detected",
        spire_positions_label: "positions",
        spire_capture_label: "scan capture",
        spire_detect_label: "detect",
        spire_roi_label: "ROI capture",
        spire_scan_label: "spire scan",
        spire_scan_only_tag: "scan only",
        spire_scan_only_unsent: "no click or A was sent",
        spire_a_sent_label: "A sent",
        spire_skipped_label: "skipped",
        spire_a_not_upgrade: "The count is A commands sent, not completed upgrades.",
        spire_skipped_note: "Positions whose selection panel was not confirmed as the Spire were skipped without A.",
        spire_zero_note: "0 found is not proof that there is none - check that the game window is in front and rendering.",
        stargate_action_title: "Stargate detection",
        stargate_action_hint: "Clicks visible Stargates and presses A only after verifying the selection. 1920x1080 only.",
        stargate_confirm_scope_note: "Ownership and upgrade availability are not checked.",
        stargate_recall_f2_checkbox: "Recall F2 before running",
        stargate_recall_f2_hint: "Recall the F2 view before scanning Stargates.",
        stargate_skipped_note: "No A is sent unless the Stargate is confirmed.",
        status_scanning: "Scanning",
        arm_hint_invalid: "Check the settings. Conflicting hotkeys prevent Start.",
        advanced_heading: "Settings",
        config_heading: "Settings file",
        config_path_label: "Path",
        save_button: "Save",
        reload_button: "Reload",
        reset_button: "Restore defaults",
        saved_ok: "Settings saved.",
        save_failed: "Could not save settings",
        warn_read: "Could not read the settings file, using defaults",
        warn_parse: "Settings file is not valid, using defaults",
        warn_invalid: "Settings values are out of range, using defaults",
        hotkey_register_failed: "Hotkey registration failed — another program may already use it",
        hotkey_listener_failed: "Could not start the hotkey listener",
        hotkey_slot_trigger: "row build",
        hotkey_slot_spire_action: "spire action",
        hotkey_slot_stargate_action: "stargate action",
        hotkey_slot_emergency: "stop",
        diag_heading: "Safety check",
        diag_foreground: "Foreground process",
        diag_target_ok: "Target confirmed — input will be sent",
        diag_target_not: "Not the target — no input is sent",
        diag_unknown: "Unknown",
        outcome_completed: "completed",
        outcome_cancelled: "cancelled",
        outcome_aborted: "aborted",
        outcome_failed: "error",
        steps_word: "steps",
        busy_note: "Already running. New triggers are ignored, never queued.",
        notes_heading: "Before you use it",
        vacant_colony_sequence_label: "one run",
        vacant_colony_search_step_label: "probe and verify free space",
        vacant_colony_confirm_step_label: "confirm morph start",
        vacant_colony_caveat: "Builds only on verified free space. Search limit: 60 seconds.",
        note_select_drone: "Row build: select 2-12 drones and place the cursor at the first position. F6 uses the game's saved F4 view.",
        note_chat: "Do not use while typing in game chat.",
        note_online: "Check the rules before using it in online matches.",
        note_language_fallback: "No Korean font was found, showing English.",
    }
}

impl Labels {
    /// The Korean label set.
    pub fn korean() -> (labels: Self)
        ensures
            labels == korean_labels(),
    {
        Labels {
            lang: Lang::Korean,
            app_title: "oh-my-macro",
            status_heading: "상태",
            status_armed: "사용 중",
            status_disarmed: "중지됨",
            status_running: "실행 중",
            status_idle: "대기",
            status_emergency: "정지 F8",
            status_not_armed: "중지 상태입니다",
            arm_button: "사용 시작",
            disarm_button: "사용 중지",
            arm_hint: "사용 시작 후 단축키가 동작합니다. F8로 언제든 정지할 수 있습니다.",
            hotkeys_heading: "단축키",
            colony_label: "크립 콜로니 (Creep Colony)",
            spire_label: "둥지탑 (Spire)",
            emergency_label: "정지",
            emergency_hint: "F8은 고정 정지 키입니다.",
            hotkeys_locked_hint: "사용 중에는 단축키를 바꿀 수 없습니다.",
            timing_heading: "입력 타이밍",
            press_label: "누름 (ms)",
            gap_label: "간격 (ms)",
            timing_hint: "기본 20ms입니다. 게임이 입력을 놓치면 50ms 전후로 늘려보세요.",
            target_label: "대상 프로세스 (exe 파일명)",
            target_hint: "창 제목이 아니라 실행 파일 이름입니다. 예: StarCraft.exe",
            interval_range_hint: "범위",
            sequence_label: "입력 순서",
            trigger_label: "트리거 단축키",
            trigger_single_hint: "이 단축키로 실행합니다. F8은 정지입니다.",
            timing_text_hint: "1~2000ms 숫자를 직접 입력하세요.",
            force_build_checkbox: "미리보기 확인 실패 시에도 강행",
            force_build_hint: "미리보기가 안 보여도 클릭을 계속합니다.",
            unconfirmed_suffix: "건은 미확인(강행)",
            mouse_click_label: "좌클릭",
            row_build_title: "드론 줄짓기 건설",
            build_spire_checkbox: "둥지탑(Spire) 건설 — 끄면 크립 콜로니",
            build_target_label: "건물",
            colony_target_name: "크립 콜로니 (2x2)",
            spire_target_name: "둥지탑 (2x2)",
            row_build_hint: "선택한 드론 2~12기로 커서 오른쪽에 한 줄 또는 6x2로 건설합니다. 그룹 9 사용 · 1920x1080 전용.",
            row_mode_label: "배치 순서",
            row_mode_left_to_right: "왼쪽→오른쪽",
            row_mode_ends_inward: "양끝→가운데",
            row_mode_grid_6x2: "6x2 (1~6 아래 / 7~12 위)",
            spire_action_title: "스파이어 감지",
            spire_action_hotkey_label: "단축키",
            spire_action_sequence_label: "동작",
            spire_search_step_label: "탐색",
            spire_action_hint: "화면의 스파이어를 클릭하고, 선택 확인 후에만 A를 누릅니다. 1920x1080 전용.",
            spire_confirm_scope_note: "소유권과 업그레이드 가능 여부는 확인하지 않습니다.",
            spire_preview_heading: "마지막 결과",
            spire_preview_empty: "아직 실행 결과가 없습니다.",
            spire_detected_label: "곳 감지",
            spire_positions_label: "감지 위치",
            spire_capture_label: "탐색용 캡처",
            spire_detect_label: "감지",
            spire_roi_label: "ROI 캡처",
            spire_scan_label: "스파이어 스캔",
            spire_scan_only_tag: "스캔만",
            spire_scan_only_unsent: "클릭·A를 보내지 않았습니다",
            spire_a_sent_label: "A 전송",
            spire_skipped_label: "건너뜀",
            spire_a_not_upgrade: "표시된 수는 완성된 업그레이드가 아니라 보낸 A 명령 수입니다.",
            spire_skipped_note: "선택 패널이 스파이어로 확인되지 않은 위치는 A를 보내지 않고 건너뛰었습니다.",
            spire_zero_note: "0곳은 없다는 증명이 아닙니다 — 게임 창이 전면에서 렌더링 중인지 확인하세요.",
            stargate_action_title: "스타게이트 감지",
            stargate_action_hint: "화면의 스타게이트를 클릭하고, 선택 확인 후에만 A를 누릅니다. 1920x1080 전용.",
            stargate_confirm_scope_note: "소유권과 업그레이드 가능 여부는 확인하지 않습니다.",
            stargate_recall_f2_checkbox: "실행 전에 F2 화면 호출",
            stargate_recall_f2_hint: "F2 화면으로 이동한 뒤 스타게이트를 탐색합니다.",
            stargate_skipped_note: "스타게이트로 확인되지 않으면 A를 보내지 않습니다.",
            status_scanning: "스캔 중",
            arm_hint_invalid: "설정을 확인하세요. 단축키가 겹치면 시작할 수 없습니다.",
            advanced_heading: "설정",
            config_heading: "설정 파일",
            config_path_label: "경로",
            save_button: "저장",
            reload_button: "다시 읽기",
            reset_button: "기본값으로",
            saved_ok: "설정을 저장했습니다.",
            save_failed: "설정 저장 실패",
            warn_read: "설정 파일을 읽을 수 없어 기본값을 사용합니다",
            warn_parse: "설정 파일이 올바르지 않아 기본값을 사용합니다",
            warn_invalid: "설정 값이 범위를 벗어나 기본값을 사용합니다",
            hotkey_register_failed: "단축키 등록 실패 — 다른 프로그램이 이미 사용 중일 수 있습니다",
            hotkey_listener_failed: "단축키 감시를 시작하지 못했습니다",
            hotkey_slot_trigger: "줄짓기 실행",
            hotkey_slot_spire_action: "스파이어 동작",
            hotkey_slot_stargate_action: "스타게이트 동작",
            hotkey_slot_emergency: "정지",
            diag_heading: "안전 점검",
            diag_foreground: "현재 전면 창 프로세스",
            diag_target_ok: "대상 확인됨 — 입력을 보낼 수 있습니다",
            diag_target_not: "대상 아님 — 입력을 보내지 않습니다",
            diag_unknown: "확인할 수 없음",
            outcome_completed: "완료",
            outcome_cancelled: "취소됨",
            outcome_aborted: "중단됨",
            outcome_failed: "오류",
            steps_word: "단계",
            busy_note: "이미 실행 중입니다. 새 입력은 대기열에 쌓지 않고 무시합니다.",
            notes_heading: "사용 전 확인",
            vacant_colony_sequence_label: "한 번 실행",
            vacant_colony_search_step_label: "빈자리 탐색·검증",
            vacant_colony_confirm_step_label: "변이 시작 확인",
            vacant_colony_caveat: "확인된 빈자리에만 건설합니다. 최대 탐색 60초.",
            note_select_drone: "줄짓기: 드론 2~12기를 선택하고 커서를 첫 위치에 둡니다. F6 기능은 게임의 F4 저장 화면을 사용합니다.",
            note_chat: "게임 채팅 입력 중에는 사용하지 마세요.",
            note_online: "온라인 경기에서는 이용 규정을 확인하세요.",
            note_language_fallback: "한글 글꼴을 찾지 못해 영어로 표시합니다.",
        }
    }

    /// The English label set.
    pub fn english() -> (labels: Self)
        ensures
            labels == english_labels(),
    {
        Labels {
            lang: Lang::English,
            app_title: "oh-my-macro",
            status_heading: "Status",
            status_armed: "Active",
            status_disarmed: "Stopped",
            status_running: "Running",
            status_idle: "Idle",
            status_emergency: "Stop F8",
            status_not_armed: "ignored: stopped",
            arm_button: "Start",
            disarm_button: "Stop",
            arm_hint: "Press Start to enable hotkeys. Press F8 anytime to stop.",
            hotkeys_heading: "Hotkeys",
            colony_label: "Creep Colony",
            spire_label: "Spire",
            emergency_label: "Stop",
            emergency_hint: "F8 is the fixed stop key.",
            hotkeys_locked_hint: "Hotkeys cannot be changed while active.",
            timing_heading: "Input timing",
            press_label: "Hold (ms)",
            gap_label: "Gap (ms)",
            timing_hint: "The 20 ms default is fast; increase toward 50 ms if the game misses input.",
            target_label: "Target process (exe basename)",
            target_hint: "Exe file name, not a window title, e.g. StarCraft.exe",
            interval_range_hint: "range",
            sequence_label: "Sequence",
            trigger_label: "Trigger Hotkey",
            trigger_single_hint: "This hotkey runs the macro. F8 stops it.",
            timing_text_hint: "Enter a number from 1 to 2000 ms.",
            force_build_checkbox: "Keep going without a confirmed preview",
            force_build_hint: "Continue clicking when the preview is not visible.",
            unconfirmed_suffix: "unconfirmed (forced)",
            mouse_click_label: "Click",
            row_build_title: "Drone row build",
            build_spire_checkbox: "Build a Spire (unchecked: Creep Colony)",
            build_target_label: "Building",
            colony_target_name: "Creep Colony (2x2)",
            spire_target_name: "Spire (2x2)",
            row_build_hint: "Builds a row or 6x2 grid to the right with 2-12 selected drones. Uses group 9 - 1920x1080 only.",
            row_mode_label: "Row order",
            row_mode_left_to_right: "Left to right",
            row_mode_ends_inward: "Ends inward",
            row_mode_grid_6x2: "6x2 (1-6 bottom / 7-12 top)",
            spire_action_title: "Spire detection",
            spire_action_hotkey_label: "Hotkey",
            spire_action_sequence_label: "Action",
            spire_search_step_label: "Scan",
            spire_action_hint: "Clicks visible Spires and presses A only after verifying the selection. 1920x1080 only.",
            spire_confirm_scope_note: "Ownership and upgrade availability are not checked.",
            spire_preview_heading: "Last result",
            spire_preview_empty: "No result yet.",
            spire_detected_label: "detected",
            spire_positions_label: "positions",
            spire_capture_label: "scan capture",
            spire_detect_label: "detect",
            spire_roi_label: "ROI capture",
            spire_scan_label: "spire scan",
            spire_scan_only_tag: "scan only",
            spire_scan_only_unsent: "no click or A was sent",
            spire_a_sent_label: "A sent",
            spire_skipped_label: "skipped",
            spire_a_not_upgrade: "The count is A commands sent, not completed upgrades.",
            spire_skipped_note: "Positions whose selection panel was not confirmed as the Spire were skipped without A.",
            spire_zero_note: "0 found is not proof that there is none - check that the game window is in front and rendering.",
            stargate_action_title: "Stargate detection",
            stargate_action_hint: "Clicks visible Stargates and presses A only after verifying the selection. 1920x1080 only.",
            stargate_confirm_scope_note: "Ownership and upgrade availability are not checked.",
            stargate_recall_f2_checkbox: "Recall F2 before running",
            stargate_recall_f2_hint: "Recall the F2 view before scanning Stargates.",
            stargate_skipped_note: "No A is sent unless the Stargate is confirmed.",
            status_scanning: "Scanning",
            arm_hint_invalid: "Check the settings. Conflicting hotkeys prevent Start.",
            advanced_heading: "Settings",
            config_heading: "Settings file",
            config_path_label: "Path",
            save_button: "Save",
            reload_button: "Reload",
            reset_button: "Restore defaults",
            saved_ok: "Settings saved.",
            save_failed: "Could not save settings",
            warn_read: "Could not read the settings file, using defaults",
            warn_parse: "Settings file is not valid, using defaults",
            warn_invalid: "Settings values are out of range, using defaults",
            hotkey_register_failed: "Hotkey registration failed — another program may already use it",
            hotkey_listener_failed: "Could not start the hotkey listener",
            hotkey_slot_trigger: "row build",
            hotkey_slot_spire_action: "spire action",
            hotkey_slot_stargate_action: "stargate action",
            hotkey_slot_emergency: "stop",
            diag_heading: "Safety check",
            diag_foreground: "Foreground process",
            diag_target_ok: "Target confirmed — input will be sent",
            diag_target_not: "Not the target — no input is sent",
            diag_unknown: "Unknown",
            outcome_completed: "completed",
            outcome_cancelled: "cancelled",
            outcome_aborted: "aborted",
            outcome_failed: "error",
            steps_word: "steps",
            busy_note: "Already running. New triggers are ignored, never queued.",
            notes_heading: "Before you use it",
            vacant_colony_sequence_label: "one run",
            vacant_colony_search_step_label: "probe and verify free space",
            vacant_colony_confirm_step_label: "confirm morph start",
            vacant_colony_caveat: "Builds only on verified free space. Search limit: 60 seconds.",
            note_select_drone: "Row build: select 2-12 drones and place the cursor at the first position. F6 uses the game's saved F4 view.",
            note_chat: "Do not use while typing in game chat.",
            note_online: "Check the rules before using it in online matches.",
            note_language_fallback: "No Korean font was found, showing English.",
        }
    }

}


/// Level for one finished row build: only a completed run is a success.
pub open spec fn run_level(o: Outcome) -> NoticeLevel {
    match o {
        Outcome::Completed => NoticeLevel::Success,
        _ => NoticeLevel::Error,
    }
}

/// Level for one finished row build, mirroring [`Labels::outcome`].
pub fn run_notice_level(report: &RunReport) -> (level: NoticeLevel)
    ensures
        level == run_level(report.outcome),
{
    match report.outcome {
        Outcome::Completed => NoticeLevel::Success,
        _ => NoticeLevel::Error,
    }
}

/// Level for one finished building action: a success needs at least one
/// verified `A` and no skipped target; a partial or empty pass is
/// information, never success.
pub open spec fn action_level(r: BuildingActionReport) -> NoticeLevel {
    match r.outcome {
        BuildingActionOutcome::Completed => if r.acted > 0 && r.skipped == 0 {
            NoticeLevel::Success
        } else {
            NoticeLevel::Info
        },
        BuildingActionOutcome::Cancelled => NoticeLevel::Info,
        _ => NoticeLevel::Error,
    }
}

/// Level for one finished Spire action.
pub fn spire_action_notice_level(report: &BuildingActionReport) -> (level: NoticeLevel)
    ensures
        level == action_level(*report),
{
    match report.outcome {
        BuildingActionOutcome::Completed => {
            if report.acted > 0 && report.skipped == 0 {
                NoticeLevel::Success
            } else {
                NoticeLevel::Info
            }
        },
        BuildingActionOutcome::Cancelled => NoticeLevel::Info,
        _ => NoticeLevel::Error,
    }
}

/// `items` joined with `sep` between neighbours.
pub open spec fn joined(items: Seq<Seq<char>>, sep: Seq<char>) -> Seq<char>
    decreases items.len(),
{
    if items.len() == 0 {
        seq![]
    } else if items.len() == 1 {
        items[0]
    } else {
        joined(items.drop_last(), sep) + sep + items.last()
    }
}

/// `(x,y)`.
pub open spec fn point_text(p: Point) -> Seq<char> {
    "("@ + signed_text(p.x as int) + ","@ + signed_text(p.y as int) + ")"@
}

/// The views of some strings.
pub open spec fn texts(v: Seq<String>) -> Seq<Seq<char>> {
    v.map_values(|t: String| t@)
}

/// The title of the saved-view search in each language.
pub open spec fn vacant_title_text(lang: Lang) -> Seq<char> {
    match lang {
        Lang::Korean => "F4 빈자리 크립 콜로니"@,
        Lang::English => "F4 vacant-space Colonies"@,
    }
}

impl Labels {
    /// The separator between the compact fields of one status line.
    pub open spec fn sep(&self) -> Seq<char> {
        match self.lang {
            Lang::Korean => " · "@,
            Lang::English => " | "@,
        }
    }

    /// "steps 3/6" in the label set's wording.
    pub open spec fn steps_text(&self, done: nat, total: nat) -> Seq<char> {
        self.steps_word@ + " "@ + decimal_text(done) + "/"@ + decimal_text(total)
    }

    /// "and 2 more" in the label set's wording.
    pub open spec fn more_text(&self, extra: nat) -> Seq<char> {
        match self.lang {
            Lang::Korean => "외 "@ + decimal_text(extra) + "곳"@,
            Lang::English => "and "@ + decimal_text(extra) + " more"@,
        }
    }

    /// The first eight centres, then how many more there are.
    pub open spec fn positions_text(&self, centers: Seq<Point>) -> Seq<char> {
        let shown = centers.take(if centers.len() < 8 { centers.len() as int } else { 8 });
        let list = joined(shown.map_values(|p: Point| point_text(p)), self.sep());
        if centers.len() > 8 {
            list + self.sep() + self.more_text((centers.len() - 8) as nat)
        } else {
            list
        }
    }

    /// The label of a macro.
    pub fn macro_label(&self, macro_id: MacroId) -> (label: &'static str)
        ensures
            label == match macro_id {
                MacroId::CreepColony => self.colony_label,
                MacroId::Spire => self.spire_label,
            },
    {
        match macro_id {
            MacroId::CreepColony => self.colony_label,
            MacroId::Spire => self.spire_label,
        }
    }

    /// Display name of one build target, including its tile footprint.
    pub fn build_target_name(&self, target: BuildTarget) -> (name: &'static str)
        ensures
            name == match target {
                BuildTarget::Colony => self.colony_target_name,
                BuildTarget::Spire => self.spire_target_name,
            },
    {
        match target {
            BuildTarget::Colony => self.colony_target_name,
            BuildTarget::Spire => self.spire_target_name,
        }
    }

    /// Display name of one row placement order.
    pub fn row_mode_name(&self, mode: RowMode) -> (name: &'static str)
        ensures
            name == match mode {
                RowMode::LeftToRight => self.row_mode_left_to_right,
                RowMode::EndsInward => self.row_mode_ends_inward,
                RowMode::Grid6x2 => self.row_mode_grid_6x2,
            },
    {
        match mode {
            RowMode::LeftToRight => self.row_mode_left_to_right,
            RowMode::EndsInward => self.row_mode_ends_inward,
            RowMode::Grid6x2 => self.row_mode_grid_6x2,
        }
    }

    /// The title of the saved-view search.
    pub fn vacant_colony_title(&self) -> (title: &'static str)
        ensures
            title@ == vacant_title_text(self.lang),
    {
        match self.lang {
            Lang::Korean => "F4 빈자리 크립 콜로니",
            Lang::English => "F4 vacant-space Colonies",
        }
    }

    /// The hint of the saved-view search.
    pub fn vacant_colony_hint(&self) -> (hint: &'static str)
        ensures
            hint@ == match self.lang {
                Lang::Korean =>
                    "게임의 F4에 빈 건설 화면을 저장해 두세요. 선택한 드론 2~12기로 확인된 빈자리만 순서대로 건설합니다."@,
                Lang::English =>
                    "Save a clear build view to in-game F4. Builds verified free positions in order with 2-12 selected drones."@,
            },
    {
        match self.lang {
            Lang::Korean =>
                "게임의 F4에 빈 건설 화면을 저장해 두세요. 선택한 드론 2~12기로 확인된 빈자리만 순서대로 건설합니다.",
            Lang::English =>
                "Save a clear build view to in-game F4. Builds verified free positions in order with 2-12 selected drones.",
        }
    }

    /// The label of one hotkey slot.
    pub fn slot_label(&self, slot: HotkeySlot) -> (label: &'static str)
        ensures
            match slot {
                HotkeySlot::Trigger => label == self.hotkey_slot_trigger,
                HotkeySlot::SpireAction => label == self.hotkey_slot_spire_action,
                HotkeySlot::StargateAction => label == self.hotkey_slot_stargate_action,
                HotkeySlot::Emergency => label == self.hotkey_slot_emergency,
                HotkeySlot::VacantColony => label@ == vacant_title_text(self.lang),
            },
    {
        match slot {
            HotkeySlot::Trigger => self.hotkey_slot_trigger,
            HotkeySlot::SpireAction => self.hotkey_slot_spire_action,
            HotkeySlot::StargateAction => self.hotkey_slot_stargate_action,
            HotkeySlot::Emergency => self.hotkey_slot_emergency,
            HotkeySlot::VacantColony => self.vacant_colony_title(),
        }
    }

    /// Live counters of a running saved-view search.
    pub fn vacant_colony_progress(&self, probes: usize, orders: usize, starts: usize) -> (text:
        String)
        ensures
            text@ == match self.lang {
                Lang::Korean => "검사 "@ + decimal_text(probes as nat) + "곳 · 보낸 명령 "@
                    + decimal_text(orders as nat) + "개 · 변이 시작 확인 "@ + decimal_text(
                    starts as nat,
                ) + "개 (건설 완료 아님)"@,
                Lang::English => decimal_text(probes as nat) + " probes · "@ + decimal_text(
                    orders as nat,
                ) + " orders · "@ + decimal_text(starts as nat)
                    + " morphs confirmed started (not completed buildings)"@,
            },
    {
        let p = decimal(probes as u128);
        let o = decimal(orders as u128);
        let st = decimal(starts as u128);
        match self.lang {
            Lang::Korean => {
                let mut t = String::from_str("검사 ");
                t.append(p.as_str());
                t.append("곳 · 보낸 명령 ");
                t.append(o.as_str());
                t.append("개 · 변이 시작 확인 ");
                t.append(st.as_str());
                t.append("개 (건설 완료 아님)");
                t
            },
            Lang::English => {
                let mut t = p;
                t.append(" probes · ");
                t.append(o.as_str());
                t.append(" orders · ");
                t.append(st.as_str());
                t.append(" morphs confirmed started (not completed buildings)");
                t
            },
        }
    }

    /// "steps 3/6".
    pub fn steps(&self, done: usize, total: usize) -> (text: String)
        ensures
            text@ == self.steps_text(done as nat, total as nat),
    {
        let mut t = String::from_str(self.steps_word);
        t.append(" ");
        t.append(decimal(done as u128).as_str());
        t.append("/");
        t.append(decimal(total as u128).as_str());
        t
    }

    fn separator(&self) -> (sep: &'static str)
        ensures
            sep@ == self.sep(),
    {
        match self.lang {
            Lang::Korean => " · ",
            Lang::English => " | ",
        }
    }

    /// The localized word for one action outcome.
    pub fn spire_outcome_word(&self, outcome: &BuildingActionOutcome) -> (word: &'static str)
        ensures
            word == match *outcome {
                BuildingActionOutcome::Completed => self.outcome_completed,
                BuildingActionOutcome::Cancelled => self.outcome_cancelled,
                BuildingActionOutcome::Aborted { .. } => self.outcome_aborted,
                BuildingActionOutcome::Failed { .. } => self.outcome_failed,
            },
    {
        match outcome {
            BuildingActionOutcome::Completed => self.outcome_completed,
            BuildingActionOutcome::Cancelled => self.outcome_cancelled,
            BuildingActionOutcome::Aborted { .. } => self.outcome_aborted,
            BuildingActionOutcome::Failed { .. } => self.outcome_failed,
        }
    }

    /// The localized word for a scan that produced no result: a refused gate
    /// or an unusable frame aborts, an OS failure or an internal panic is an
    /// error, a cancellation stays a cancellation.
    pub fn spire_scan_error_word(&self, error: &BuildingScanError) -> (word: &'static str)
        ensures
            word == match *error {
                BuildingScanError::Cancelled => self.outcome_cancelled,
                BuildingScanError::Adapter(InputError::Unsafe(_)) => self.outcome_aborted,
                BuildingScanError::Unusable { .. } => self.outcome_aborted,
                BuildingScanError::Adapter(InputError::Injection(_)) => self.outcome_failed,
                BuildingScanError::Internal { .. } => self.outcome_failed,
            },
    {
        match error {
            BuildingScanError::Cancelled => self.outcome_cancelled,
            BuildingScanError::Adapter(InputError::Unsafe(_)) => self.outcome_aborted,
            BuildingScanError::Unusable { .. } => self.outcome_aborted,
            BuildingScanError::Adapter(InputError::Injection(_)) => self.outcome_failed,
            BuildingScanError::Internal { .. } => self.outcome_failed,
        }
    }

    /// "외 3곳" / "and 3 more" for a truncated position list.
    pub fn spire_more_positions(&self, extra: usize) -> (text: String)
        ensures
            text@ == self.more_text(extra as nat),
    {
        let n = decimal(extra as u128);
        match self.lang {
            Lang::Korean => {
                let mut t = String::from_str("외 ");
                t.append(n.as_str());
                t.append("곳");
                t
            },
            Lang::English => {
                let mut t = String::from_str("and ");
                t.append(n.as_str());
                t.append(" more");
                t
            },
        }
    }
}


/// `(x,y)` for one centre.
fn point_string(p: Point) -> (text: String)
    ensures
        text@ == point_text(p),
{
    let mut t = String::from_str("(");
    t.append(signed_decimal(p.x as i64).as_str());
    t.append(",");
    t.append(signed_decimal(p.y as i64).as_str());
    t.append(")");
    t
}

/// `prefix: detail`.
fn colon_joined(prefix: &str, detail: &str) -> (text: String)
    ensures
        text@ == prefix@ + ": "@ + detail@,
{
    let mut t = String::from_str(prefix);
    t.append(": ");
    t.append(detail);
    t
}

/// The label set's word for a run outcome.
pub open spec fn outcome_word(l: Labels, o: Outcome) -> Seq<char> {
    match o {
        Outcome::Completed => l.outcome_completed@,
        Outcome::Cancelled => l.outcome_cancelled@,
        Outcome::Aborted { .. } => l.outcome_aborted@,
        Outcome::Failed { .. } => l.outcome_failed@,
    }
}

/// One line describing how a run ended.
pub open spec fn outcome_line(l: Labels, r: RunReport) -> Seq<char> {
    let label = match r.macro_id {
        MacroId::CreepColony => l.colony_label@,
        MacroId::Spire => l.spire_label@,
    };
    let progress = "("@ + (if r.steps_total == 0 {
        decimal_text(r.steps_done as nat)
    } else {
        l.steps_text(r.steps_done as nat, r.steps_total as nat)
    }) + ")"@;
    let base = label + " "@ + outcome_word(l, r.outcome) + " "@ + progress + match r.outcome {
        Outcome::Aborted { detail } => ": "@ + detail@,
        Outcome::Failed { detail } => ": "@ + detail@,
        _ => seq![],
    };
    if r.unconfirmed == 0 {
        base
    } else {
        base + " — "@ + decimal_text(r.unconfirmed as nat) + " "@ + l.unconfirmed_suffix@
    }
}

/// The state word, level and English detail of a saved-view search.
pub open spec fn vacant_state(l: Labels, o: Outcome) -> (NoticeLevel, Seq<char>, Seq<char>) {
    match o {
        Outcome::Completed => (
            NoticeLevel::Success,
            match l.lang {
                Lang::Korean => "명령 전송 완료"@,
                Lang::English => "orders sent"@,
            },
            seq![],
        ),
        Outcome::Cancelled => (
            NoticeLevel::Info,
            match l.lang {
                Lang::Korean => "취소"@,
                Lang::English => "cancelled"@,
            },
            seq![],
        ),
        Outcome::Aborted { detail } => (
            NoticeLevel::Error,
            match l.lang {
                Lang::Korean => "중단"@,
                Lang::English => "stopped"@,
            },
            detail@,
        ),
        Outcome::Failed { detail } => (
            NoticeLevel::Error,
            match l.lang {
                Lang::Korean => "중단"@,
                Lang::English => "stopped"@,
            },
            detail@,
        ),
    }
}

/// The counters of a saved-view search, which never claim finished
/// buildings.
pub open spec fn vacant_progress_text(l: Labels, r: VacantColonyReport) -> Seq<char> {
    let orders = decimal_text(r.orders@.len());
    let detected = decimal_text(r.detected as nat);
    let starts = decimal_text(r.starts@.len());
    let probes = decimal_text(r.probes as nat);
    match l.lang {
        Lang::Korean => "명령 "@ + orders + "/"@ + detected + " · 변이 시작 확인 "@ + starts
            + "개 · 검사 "@ + probes + "곳 · 건설 완료 수 아님"@,
        Lang::English => orders + "/"@ + detected + " orders, "@ + starts
            + " confirmed construction starts, "@ + probes + " probes (not completed buildings)"@,
    }
}

impl Labels {
    /// Compact list of detection centres: `(790,158) · (1366,373)`; at most
    /// eight are shown, then how many more there are.
    pub fn spire_positions(&self, centers: &[Point]) -> (text: String)
        ensures
            text@ == self.positions_text(centers@),
    {
        let sep = self.separator();
        let n = centers.len();
        let shown_len: usize = if n < 8 {
            n
        } else {
            8
        };
        let ghost shown = centers@.take(shown_len as int).map_values(|p: Point| point_text(p));
        let mut t = String::new();
        let mut i: usize = 0;
        while i < shown_len
            invariant
                i <= shown_len <= n,
                n == centers@.len(),
                shown_len == (if n < 8 { n } else { 8 }),
                shown == centers@.take(shown_len as int).map_values(|p: Point| point_text(p)),
                sep@ == self.sep(),
                t@ == joined(shown.take(i as int), sep@),
            decreases shown_len - i,
        {
            let item = point_string(centers[i]);
            proof {
                assert(shown.take(i + 1).drop_last() =~= shown.take(i as int));
                assert(shown.take(i + 1).last() == point_text(centers@[i as int]));
            }
            if i > 0 {
                t.append(sep);
            }
            t.append(item.as_str());
            proof {
                if i == 0 {
                    assert(t@ =~= joined(shown.take(1), sep@));
                }
            }
            i = i + 1;
        }
        assert(shown.take(shown_len as int) =~= shown);
        if n > 8 {
            t.append(sep);
            let more = self.spire_more_positions(n - 8);
            t.append(more.as_str());
        }
        t
    }

    /// One line describing how a run ended, including the English detail.
    pub fn outcome(&self, report: &RunReport) -> (line: String)
        ensures
            line@ == outcome_line(*self, *report),
    {
        let label = self.macro_label(report.macro_id);
        let mut progress = String::from_str("(");
        if report.steps_total == 0 {
            progress.append(decimal(report.steps_done as u128).as_str());
        } else {
            progress.append(self.steps(report.steps_done, report.steps_total).as_str());
        }
        progress.append(")");
        let mut line = String::from_str(label);
        line.append(" ");
        match &report.outcome {
            Outcome::Completed => {
                line.append(self.outcome_completed);
                line.append(" ");
                line.append(progress.as_str());
            },
            Outcome::Cancelled => {
                line.append(self.outcome_cancelled);
                line.append(" ");
                line.append(progress.as_str());
            },
            Outcome::Aborted { detail } => {
                line.append(self.outcome_aborted);
                line.append(" ");
                line.append(progress.as_str());
                line.append(": ");
                line.append(detail.as_str());
            },
            Outcome::Failed { detail } => {
                line.append(self.outcome_failed);
                line.append(" ");
                line.append(progress.as_str());
                line.append(": ");
                line.append(detail.as_str());
            },
        }
        if report.unconfirmed != 0 {
            line.append(" — ");
            line.append(decimal(report.unconfirmed as u128).as_str());
            line.append(" ");
            line.append(self.unconfirmed_suffix);
        }
        line
    }

    /// A settings warning: the localized framing and the English detail.
    pub fn config_warning(&self, warning: &ConfigWarning) -> (line: String)
        ensures
            line@ == match *warning {
                ConfigWarning::Read { detail } => self.warn_read@ + ": "@ + detail@,
                ConfigWarning::Parse { detail } => self.warn_parse@ + ": "@ + detail@,
                ConfigWarning::Invalid { detail } => self.warn_invalid@ + ": "@ + detail@,
            },
    {
        match warning {
            ConfigWarning::Read { detail } => colon_joined(self.warn_read, detail.as_str()),
            ConfigWarning::Parse { detail } => colon_joined(self.warn_parse, detail.as_str()),
            ConfigWarning::Invalid { detail } => colon_joined(self.warn_invalid, detail.as_str()),
        }
    }

    /// A failed save: the localized framing and the English error.
    pub fn config_error(&self, error: &ConfigError) -> (line: String)
        ensures
            line@ == self.save_failed@ + ": "@ + config_error_text(*error),
    {
        colon_joined(self.save_failed, error.message().as_str())
    }

    /// A hotkey problem, naming the binding.
    pub fn hotkey_error(&self, error: &HotkeyError) -> (line: String)
        ensures
            line@ == match *error {
                HotkeyError::Register { slot, key, detail } => self.hotkey_register_failed@
                    + " — "@ + (match slot {
                    HotkeySlot::Trigger => self.hotkey_slot_trigger@,
                    HotkeySlot::SpireAction => self.hotkey_slot_spire_action@,
                    HotkeySlot::StargateAction => self.hotkey_slot_stargate_action@,
                    HotkeySlot::Emergency => self.hotkey_slot_emergency@,
                    HotkeySlot::VacantColony => vacant_title_text(self.lang),
                }) + " "@ + key_label(key) + ": "@ + detail@,
                HotkeyError::Listener { detail } => self.hotkey_listener_failed@ + ": "@ + detail@,
            },
    {
        match error {
            HotkeyError::Register { slot, key, detail } => {
                let mut t = String::from_str(self.hotkey_register_failed);
                t.append(" — ");
                t.append(self.slot_label(*slot));
                t.append(" ");
                t.append(key.label());
                t.append(": ");
                t.append(detail.as_str());
                t
            },
            HotkeyError::Listener { detail } => colon_joined(
                self.hotkey_listener_failed,
                detail.as_str(),
            ),
        }
    }

    /// Why a run could not start, in the label set's wording.
    pub fn start_error(&self, error: StartError) -> (line: String)
        ensures
            line@ == match error {
                StartError::Busy => self.busy_note@,
                StartError::Thread { detail } => self.outcome_failed@ + ": "@ + detail@,
            },
    {
        match error {
            StartError::Busy => String::from_str(self.busy_note),
            StartError::Thread { detail } => colon_joined(self.outcome_failed, detail.as_str()),
        }
    }

    /// The result line of a saved-view search, and its level. It counts
    /// issued orders and confirmed morph starts, never finished buildings.
    pub fn vacant_colony_result(&self, report: &VacantColonyReport) -> (result: (NoticeLevel, String))
        ensures
            result.0 == vacant_state(*self, report.outcome).0,
            result.1@ == vacant_title_text(self.lang) + ": "@ + vacant_state(
                *self,
                report.outcome,
            ).1 + " · "@ + vacant_progress_text(*self, *report) + " "@ + vacant_state(
                *self,
                report.outcome,
            ).2,
    {
        let korean = match self.lang {
            Lang::Korean => true,
            Lang::English => false,
        };
        let (level, state, detail): (NoticeLevel, &str, &str) = match &report.outcome {
            Outcome::Completed => (
                NoticeLevel::Success,
                if korean {
                    "명령 전송 완료"
                } else {
                    "orders sent"
                },
                "",
            ),
            Outcome::Cancelled => (
                NoticeLevel::Info,
                if korean {
                    "취소"
                } else {
                    "cancelled"
                },
                "",
            ),
            Outcome::Aborted { detail } => (
                NoticeLevel::Error,
                if korean {
                    "중단"
                } else {
                    "stopped"
                },
                detail.as_str(),
            ),
            Outcome::Failed { detail } => (
                NoticeLevel::Error,
                if korean {
                    "중단"
                } else {
                    "stopped"
                },
                detail.as_str(),
            ),
        };
        proof {
            reveal_strlit("");
        }
        let orders = decimal(report.orders.len() as u128);
        let detected = decimal(report.detected as u128);
        let starts = decimal(report.starts.len() as u128);
        let probes = decimal(report.probes as u128);
        let mut progress = String::new();
        if korean {
            progress.append("명령 ");
            progress.append(orders.as_str());
            progress.append("/");
            progress.append(detected.as_str());
            progress.append(" · 변이 시작 확인 ");
            progress.append(starts.as_str());
            progress.append("개 · 검사 ");
            progress.append(probes.as_str());
            progress.append("곳 · 건설 완료 수 아님");
        } else {
            progress.append(orders.as_str());
            progress.append("/");
            progress.append(detected.as_str());
            progress.append(" orders, ");
            progress.append(starts.as_str());
            progress.append(" confirmed construction starts, ");
            progress.append(probes.as_str());
            progress.append(" probes (not completed buildings)");
        }
        let mut line = String::from_str(self.vacant_colony_title());
        line.append(": ");
        line.append(state);
        line.append(" · ");
        line.append(progress.as_str());
        line.append(" ");
        line.append(detail);
        (level, line)
    }
}


/// `12 ms`.
pub open spec fn millis_text(ms: u128) -> Seq<char> {
    decimal_text(ms as nat) + " ms"@
}

/// The positions line of a preview: only when there is something to point at.
pub open spec fn positions_line(l: Labels, centers: Seq<Point>) -> Option<Seq<char>> {
    if centers.len() == 0 {
        None
    } else {
        Some(l.spire_positions_label@ + ": "@ + l.positions_text(centers))
    }
}

/// The view of an optional string.
pub open spec fn opt_text(o: Option<String>) -> Option<Seq<char>> {
    match o {
        Some(t) => Some(t@),
        None => None,
    }
}

/// The headline of one action pass: what ran and how it ended, the `A`
/// commands sent, the detections and the skipped targets, plus the English
/// detail of a stop.
pub open spec fn action_headline(
    l: Labels,
    r: BuildingActionReport,
    title: Seq<char>,
) -> Seq<char> {
    let word = match r.outcome {
        BuildingActionOutcome::Completed => l.outcome_completed@,
        BuildingActionOutcome::Cancelled => l.outcome_cancelled@,
        BuildingActionOutcome::Aborted { .. } => l.outcome_aborted@,
        BuildingActionOutcome::Failed { .. } => l.outcome_failed@,
    };
    let parts = match l.lang {
        Lang::Korean => seq![
            title + " "@ + word,
            l.spire_a_sent_label@ + " "@ + decimal_text(r.acted as nat) + "회"@,
            decimal_text(r.detections as nat) + " "@ + l.spire_detected_label@,
            l.spire_skipped_label@ + " "@ + decimal_text(r.skipped as nat) + "건"@,
        ],
        Lang::English => seq![
            title + " "@ + word,
            l.spire_a_sent_label@ + " "@ + decimal_text(r.acted as nat),
            decimal_text(r.detections as nat) + " "@ + l.spire_detected_label@,
            decimal_text(r.skipped as nat) + " "@ + l.spire_skipped_label@,
        ],
    };
    let detail = match r.outcome {
        BuildingActionOutcome::Aborted { detail } => match l.lang {
            Lang::Korean => " — "@ + detail@,
            Lang::English => ": "@ + detail@,
        },
        BuildingActionOutcome::Failed { detail } => match l.lang {
            Lang::Korean => " — "@ + detail@,
            Lang::English => ": "@ + detail@,
        },
        _ => seq![],
    };
    joined(parts, l.sep()) + detail
}

/// The timings line of one action pass.
pub open spec fn action_timings(l: Labels, r: BuildingActionReport) -> Seq<char> {
    l.spire_capture_label@ + " "@ + decimal_text(r.full_captures as nat) + " ("@ + millis_text(
        r.capture_ms,
    ) + ")"@ + l.sep() + l.spire_detect_label@ + " "@ + millis_text(r.detect_ms) + l.sep()
        + l.spire_roi_label@ + " "@ + decimal_text(r.roi_captures as nat)
}

/// The notes of one action pass: the skipped note when something was
/// skipped, then what a confirmation does not prove, then that the count is
/// `A` commands, not upgrades.
pub open spec fn action_notes(l: Labels, r: BuildingActionReport, skipped_note: Seq<char>) -> Seq<
    Seq<char>,
> {
    let tail = seq![l.spire_confirm_scope_note@, l.spire_a_not_upgrade@];
    if r.skipped > 0 {
        seq![skipped_note] + tail
    } else {
        tail
    }
}

/// The centres of the targets of an action pass.
pub open spec fn target_centers(r: BuildingActionReport) -> Seq<Point> {
    r.targets@.map_values(|t: crate::building_action::BuildingTargetReport| t.center)
}

/// Four items joined.
proof fn lemma_joined_four(a: Seq<char>, b: Seq<char>, c: Seq<char>, d: Seq<char>, sep: Seq<char>)
    ensures
        joined(seq![a, b, c, d], sep) == a + sep + b + sep + c + sep + d,
{
    assert(seq![a, b, c, d].drop_last() =~= seq![a, b, c]);
    assert(seq![a, b, c].drop_last() =~= seq![a, b]);
    assert(seq![a, b].drop_last() =~= seq![a]);
    assert(joined(seq![a], sep) == a);
    assert(joined(seq![a, b], sep) == a + sep + b);
    assert(joined(seq![a, b, c], sep) == a + sep + b + sep + c);
}

/// `n ms`.
fn millis(ms: u128) -> (text: String)
    ensures
        text@ == millis_text(ms),
{
    let mut t = decimal(ms);
    t.append(" ms");
    t
}

impl Labels {
    /// Preview of a scan that produced no trustworthy result: always an error
    /// that keeps the English reason.
    pub fn spire_scan_error_preview(&self, error: &BuildingScanError) -> (preview: SpirePreview)
        ensures
            preview.level == NoticeLevel::Error,
            preview.headline@ == self.spire_scan_label@ + " "@ + (match *error {
                BuildingScanError::Cancelled => self.outcome_cancelled@,
                BuildingScanError::Adapter(InputError::Unsafe(_)) => self.outcome_aborted@,
                BuildingScanError::Unusable { .. } => self.outcome_aborted@,
                BuildingScanError::Adapter(InputError::Injection(_)) => self.outcome_failed@,
                BuildingScanError::Internal { .. } => self.outcome_failed@,
            }) + ": "@ + scan_error_text(*error),
            preview.positions is None,
            preview.timings is None,
            preview.notes@.len() == 0,
    {
        let mut headline = String::from_str(self.spire_scan_label);
        headline.append(" ");
        headline.append(self.spire_scan_error_word(error));
        headline.append(": ");
        headline.append(error.message().as_str());
        SpirePreview {
            level: NoticeLevel::Error,
            headline,
            positions: None,
            timings: None,
            notes: Vec::new(),
        }
    }

    fn positions_line(&self, centers: &[Point]) -> (line: Option<String>)
        ensures
            opt_text(line) == positions_line(*self, centers@),
    {
        if centers.len() == 0 {
            None
        } else {
            Some(colon_joined(self.spire_positions_label, self.spire_positions(centers).as_str()))
        }
    }

    /// Preview of one scan-only pass: what was found, where, and how long the
    /// single capture and search took. It is information, never a success,
    /// and a pass that found nothing says so with a caveat.
    pub fn spire_scan_preview(&self, report: &BuildingScanReport) -> (preview: SpirePreview)
        ensures
            preview.level == NoticeLevel::Info,
            preview.headline@ == self.spire_scan_only_tag@ + ": "@ + decimal_text(
                report.count as nat,
            ) + " "@ + self.spire_detected_label@ + self.sep() + self.spire_scan_only_unsent@,
            opt_text(preview.positions) == positions_line(*self, report.centers@),
            opt_text(preview.timings) == Some(
                self.spire_capture_label@ + " "@ + decimal_text(report.full_captures as nat) + " ("@
                    + millis_text(report.capture_ms) + ")"@ + self.sep() + self.spire_detect_label@
                    + " "@ + millis_text(report.detect_ms),
            ),
            texts(preview.notes@) == if report.count == 0 {
                seq![self.spire_zero_note@]
            } else {
                Seq::<Seq<char>>::empty()
            },
    {
        let sep = self.separator();
        let mut headline = String::from_str(self.spire_scan_only_tag);
        headline.append(": ");
        headline.append(decimal(report.count as u128).as_str());
        headline.append(" ");
        headline.append(self.spire_detected_label);
        headline.append(sep);
        headline.append(self.spire_scan_only_unsent);
        let mut notes: Vec<String> = Vec::new();
        if report.count == 0 {
            notes.push(String::from_str(self.spire_zero_note));
        }
        let mut timings = String::from_str(self.spire_capture_label);
        timings.append(" ");
        timings.append(decimal(report.full_captures as u128).as_str());
        timings.append(" (");
        timings.append(millis(report.capture_ms).as_str());
        timings.append(")");
        timings.append(sep);
        timings.append(self.spire_detect_label);
        timings.append(" ");
        timings.append(millis(report.detect_ms).as_str());
        let positions = self.positions_line(report.centers.as_slice());
        proof {
            assert(texts(notes@) =~= if report.count == 0 {
                seq![self.spire_zero_note@]
            } else {
                Seq::<Seq<char>>::empty()
            });
        }
        SpirePreview { level: NoticeLevel::Info, headline, positions, timings: Some(timings), notes }
    }

    /// Headline of one full action pass.
    fn action_headline_text(&self, report: &BuildingActionReport, title: &str) -> (headline: String)
        ensures
            headline@ == action_headline(*self, *report, title@),
    {
        let sep = self.separator();
        let korean = match self.lang {
            Lang::Korean => true,
            Lang::English => false,
        };
        let word = self.spire_outcome_word(&report.outcome);
        let acted = decimal(report.acted as u128);
        let detections = decimal(report.detections as u128);
        let skipped = decimal(report.skipped as u128);
        let mut headline = String::from_str(title);
        headline.append(" ");
        headline.append(word);
        headline.append(sep);
        headline.append(self.spire_a_sent_label);
        headline.append(" ");
        headline.append(acted.as_str());
        if korean {
            headline.append("회");
        }
        headline.append(sep);
        headline.append(detections.as_str());
        headline.append(" ");
        headline.append(self.spire_detected_label);
        headline.append(sep);
        if korean {
            headline.append(self.spire_skipped_label);
            headline.append(" ");
            headline.append(skipped.as_str());
            headline.append("건");
        } else {
            headline.append(skipped.as_str());
            headline.append(" ");
            headline.append(self.spire_skipped_label);
        }
        let ghost parts = match self.lang {
            Lang::Korean => seq![
                title@ + " "@ + word@,
                self.spire_a_sent_label@ + " "@ + acted@ + "회"@,
                detections@ + " "@ + self.spire_detected_label@,
                self.spire_skipped_label@ + " "@ + skipped@ + "건"@,
            ],
            Lang::English => seq![
                title@ + " "@ + word@,
                self.spire_a_sent_label@ + " "@ + acted@,
                detections@ + " "@ + self.spire_detected_label@,
                skipped@ + " "@ + self.spire_skipped_label@,
            ],
        };
        proof {
            lemma_joined_four(parts[0], parts[1], parts[2], parts[3], sep@);
            assert(parts =~= seq![parts[0], parts[1], parts[2], parts[3]]);
            assert(headline@ =~= parts[0] + sep@ + parts[1] + sep@ + parts[2] + sep@ + parts[3]);
        }
        match &report.outcome {
            BuildingActionOutcome::Aborted { detail } => {
                headline.append(if korean { " — " } else { ": " });
                headline.append(detail.as_str());
            },
            BuildingActionOutcome::Failed { detail } => {
                headline.append(if korean { " — " } else { ": " });
                headline.append(detail.as_str());
            },
            _ => {},
        }
        headline
    }

    /// Notes of one full action pass.
    fn action_notes_list(&self, report: &BuildingActionReport, skipped_note: &str) -> (notes: Vec<
        String,
    >)
        ensures
            texts(notes@) == action_notes(*self, *report, skipped_note@),
    {
        let mut notes: Vec<String> = Vec::new();
        if report.skipped > 0 {
            notes.push(String::from_str(skipped_note));
        }
        notes.push(String::from_str(self.spire_confirm_scope_note));
        notes.push(String::from_str(self.spire_a_not_upgrade));
        proof {
            assert(texts(notes@) =~= action_notes(*self, *report, skipped_note@));
        }
        notes
    }

    /// Timings line of one full action pass.
    fn action_timings_text(&self, report: &BuildingActionReport) -> (timings: String)
        ensures
            timings@ == action_timings(*self, *report),
    {
        let sep = self.separator();
        let mut timings = String::from_str(self.spire_capture_label);
        timings.append(" ");
        timings.append(decimal(report.full_captures as u128).as_str());
        timings.append(" (");
        timings.append(millis(report.capture_ms).as_str());
        timings.append(")");
        timings.append(sep);
        timings.append(self.spire_detect_label);
        timings.append(" ");
        timings.append(millis(report.detect_ms).as_str());
        timings.append(sep);
        timings.append(self.spire_roi_label);
        timings.append(" ");
        timings.append(decimal(report.roi_captures as u128).as_str());
        timings
    }

    /// Preview of one full action pass: what was clicked, where `A` was sent,
    /// what was skipped, and the capture/detection timings.
    fn action_preview(&self, report: &BuildingActionReport, title: &str, skipped_note: &str) -> (
        preview: SpirePreview)
        ensures
            preview.level == action_level(*report),
            preview.headline@ == action_headline(*self, *report, title@),
            opt_text(preview.positions) == positions_line(*self, target_centers(*report)),
            opt_text(preview.timings) == Some(action_timings(*self, *report)),
            texts(preview.notes@) == action_notes(*self, *report, skipped_note@),
    {
        let headline = self.action_headline_text(report, title);
        let notes = self.action_notes_list(report, skipped_note);
        let mut centers: Vec<Point> = Vec::new();
        let mut i: usize = 0;
        while i < report.targets.len()
            invariant
                i <= report.targets@.len(),
                centers@ =~= target_centers(*report).take(i as int),
            decreases report.targets@.len() - i,
        {
            centers.push(report.targets[i].center);
            i = i + 1;
        }
        assert(target_centers(*report).take(report.targets@.len() as int) =~= target_centers(
            *report,
        ));
        let positions = self.positions_line(centers.as_slice());
        let timings = self.action_timings_text(report);
        SpirePreview {
            level: spire_action_notice_level(report),
            headline,
            positions,
            timings: Some(timings),
            notes,
        }
    }

    /// Preview of one finished Spire action.
    pub fn spire_action_preview(&self, report: &BuildingActionReport) -> (preview: SpirePreview)
        ensures
            preview.level == action_level(*report),
            preview.headline@ == action_headline(*self, *report, self.spire_action_title@),
            opt_text(preview.positions) == positions_line(*self, target_centers(*report)),
            opt_text(preview.timings) == Some(action_timings(*self, *report)),
            texts(preview.notes@) == action_notes(*self, *report, self.spire_skipped_note@),
    {
        self.action_preview(report, self.spire_action_title, self.spire_skipped_note)
    }

    /// Preview of one finished Stargate action: the same report shape, titled
    /// and worded as the Stargate feature.
    pub fn stargate_action_preview(&self, report: &BuildingActionReport) -> (preview:
        SpirePreview)
        ensures
            preview.level == action_level(*report),
            preview.headline@ == action_headline(*self, *report, self.stargate_action_title@),
            opt_text(preview.positions) == positions_line(*self, target_centers(*report)),
            opt_text(preview.timings) == Some(action_timings(*self, *report)),
            texts(preview.notes@) == action_notes(*self, *report, self.stargate_skipped_note@),
    {
        self.action_preview(report, self.stargate_action_title, self.stargate_skipped_note)
    }
}

} // verus!
