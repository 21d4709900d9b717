use sabitori::config::{Config, WheelMode};
use sabitori::hook::{HookStatus, SharedState};
use sabitori::settings::{InputOutcome, SettingsModel, SliderKind};

fn model(mode: WheelMode, timeout: u32) -> SettingsModel {
    SettingsModel::new(mode, timeout, false, HookStatus::Installed)
}

const REDRAW: InputOutcome = InputOutcome { redraw: true, close: false, persist: None };

#[test]
fn slider_kind_constants() {
    assert_eq!(SliderKind::Timeout.label(), "Scroll timeout");
    assert_eq!(SliderKind::Timeout.nudge_step(), 5);
    assert_eq!(SliderKind::Timeout.nudge_range(), (50, 1000));
}

#[test]
fn typed_value_is_committed_and_published() {
    let shared = SharedState::new(WheelMode::DirectionLock, 500);
    let mut m = model(WheelMode::DirectionLock, 500);
    m.start_edit(SliderKind::Timeout);
    assert_eq!(m.editing(), Some(SliderKind::Timeout));
    assert_eq!(m.value_chip_text(SliderKind::Timeout), "500 ms|");
    assert_eq!(m.handle_key("7", Some("7"), false, &shared), REDRAW);
    assert_eq!(m.handle_key("5", Some("5"), false, &shared), REDRAW);
    assert_eq!(m.value_chip_text(SliderKind::Timeout), "75|");
    let out = m.handle_key("enter", None, false, &shared);
    let expected = Config { wheel_mode: WheelMode::DirectionLock, direction_lock_timeout_ms: 75 };
    assert_eq!(out, InputOutcome { redraw: true, close: false, persist: Some(expected) });
    assert_eq!(m.dir_lock_timeout_ms(), 75);
    assert_eq!(m.editing(), None);
    assert_eq!(shared.dir_lock_timeout_ms(), 75);
    assert_eq!(m.value_display(SliderKind::Timeout), "75 ms");
}

#[test]
fn committed_value_is_clamped() {
    let shared = SharedState::new(WheelMode::DirectionLock, 500);
    let mut m = model(WheelMode::DirectionLock, 500);
    m.start_edit(SliderKind::Timeout);
    m.handle_key("9", Some("9999"), false, &shared);
    m.handle_key("enter", None, false, &shared);
    assert_eq!(m.dir_lock_timeout_ms(), 1000);
    m.start_edit(SliderKind::Timeout);
    m.handle_key("0", Some("0"), false, &shared);
    m.handle_key("enter", None, false, &shared);
    assert_eq!(m.dir_lock_timeout_ms(), 50);
}

#[test]
fn empty_commit_and_escape_keep_value() {
    let shared = SharedState::new(WheelMode::DirectionLock, 500);
    let mut m = model(WheelMode::DirectionLock, 400);
    m.start_edit(SliderKind::Timeout);
    assert_eq!(m.handle_key("enter", None, false, &shared), REDRAW);
    assert_eq!(m.dir_lock_timeout_ms(), 400);
    assert_eq!(m.editing(), None);
    m.start_edit(SliderKind::Timeout);
    m.handle_key("1", Some("1"), false, &shared);
    assert_eq!(m.handle_key("escape", None, false, &shared), REDRAW);
    assert_eq!(m.dir_lock_timeout_ms(), 400);
    assert_eq!(m.editing(), None);
}

#[test]
fn typing_accepts_only_up_to_four_digits() {
    let shared = SharedState::new(WheelMode::DirectionLock, 500);
    let mut m = model(WheelMode::DirectionLock, 500);
    m.start_edit(SliderKind::Timeout);
    assert_eq!(m.handle_key("a", Some("a"), false, &shared), InputOutcome { redraw: false, close: false, persist: None });
    assert_eq!(m.handle_key("1", Some("123"), false, &shared), REDRAW);
    assert_eq!(m.handle_key("4", Some("45"), false, &shared).redraw, false);
    assert_eq!(m.handle_key("4", Some("4"), false, &shared), REDRAW);
    assert_eq!(m.handle_key("5", Some("5"), false, &shared).redraw, false);
    assert_eq!(m.value_chip_text(SliderKind::Timeout), "1234|");
    m.handle_key("backspace", None, false, &shared);
    assert_eq!(m.value_chip_text(SliderKind::Timeout), "123|");
}

#[test]
fn edit_needs_direction_lock() {
    let mut m = model(WheelMode::Off, 500);
    m.start_edit(SliderKind::Timeout);
    assert_eq!(m.editing(), None);
    assert_eq!(m.value_chip_text(SliderKind::Timeout), "500 ms");
}

#[test]
fn arrow_keys_nudge_and_clamp() {
    let shared = SharedState::new(WheelMode::DirectionLock, 500);
    let mut m = model(WheelMode::DirectionLock, 995);
    // No focus yet: nothing moves.
    let out = m.handle_key("right", None, false, &shared);
    assert_eq!(out, REDRAW);
    assert_eq!(m.dir_lock_timeout_ms(), 995);
    m.handle_key("tab", None, false, &shared);
    assert_eq!(m.focused_slider(), Some(SliderKind::Timeout));
    let out = m.handle_key("right", None, false, &shared);
    let up = Config { wheel_mode: WheelMode::DirectionLock, direction_lock_timeout_ms: 1000 };
    assert_eq!(out.persist, Some(up));
    m.handle_key("down", None, false, &shared);
    assert_eq!(m.dir_lock_timeout_ms(), 1000);
    m.handle_key("left", None, false, &shared);
    m.handle_key("up", None, false, &shared);
    assert_eq!(m.dir_lock_timeout_ms(), 990);
    assert_eq!(shared.dir_lock_timeout_ms(), 990);
}

#[test]
fn stepper_buttons_step_by_five() {
    let shared = SharedState::new(WheelMode::DirectionLock, 500);
    let mut m = model(WheelMode::DirectionLock, 52);
    let out = m.step_timeout(-1, &shared);
    assert_eq!(out, Some(Config { wheel_mode: WheelMode::DirectionLock, direction_lock_timeout_ms: 50 }));
    assert_eq!(m.step_timeout(1, &shared).unwrap().direction_lock_timeout_ms, 55);
    let mut off = model(WheelMode::Off, 500);
    assert_eq!(off.step_timeout(1, &shared), None);
    assert_eq!(off.dir_lock_timeout_ms(), 500);
}

#[test]
fn nudge_from_out_of_range_value_clamps() {
    let shared = SharedState::new(WheelMode::DirectionLock, 2000);
    let mut m = model(WheelMode::DirectionLock, 2000);
    assert_eq!(m.step_timeout(-1, &shared).unwrap().direction_lock_timeout_ms, 1000);
}

#[test]
fn escape_outside_entry_closes_window() {
    let shared = SharedState::new(WheelMode::DirectionLock, 500);
    shared.set_settings_rect(Some((1, 2, 3, 4)));
    let mut m = model(WheelMode::DirectionLock, 500);
    let out = m.handle_key("escape", None, false, &shared);
    assert_eq!(out, InputOutcome { redraw: false, close: true, persist: None });
    assert_eq!(shared.settings_rect(), None);
}

#[test]
fn tab_cycles_only_visible_sliders() {
    let shared = SharedState::new(WheelMode::Off, 500);
    let mut m = model(WheelMode::Off, 500);
    assert!(m.visible_sliders().is_empty());
    m.handle_key("tab", None, true, &shared);
    assert_eq!(m.focused_slider(), None);
    let mut m = model(WheelMode::DirectionLock, 500);
    assert_eq!(m.visible_sliders(), vec![SliderKind::Timeout]);
    m.cycle_focus(true);
    assert_eq!(m.focused_slider(), Some(SliderKind::Timeout));
    m.cycle_focus(false);
    assert_eq!(m.focused_slider(), Some(SliderKind::Timeout));
}

#[test]
fn mode_toggles() {
    let shared = SharedState::new(WheelMode::DirectionLock, 500);
    let mut m = model(WheelMode::DirectionLock, 500);
    m.start_edit(SliderKind::Timeout);
    let c = m.toggle_direction_lock(&shared);
    assert_eq!(c.wheel_mode, WheelMode::Off);
    assert_eq!(m.editing(), None);
    assert_eq!(shared.wheel_mode(), WheelMode::Off);
    assert_eq!(m.toggle_direction_lock(&shared).wheel_mode, WheelMode::DirectionLock);
    assert_eq!(m.toggle_scroll_lock(&shared).wheel_mode, WheelMode::Disable);
    assert_eq!(shared.wheel_mode(), WheelMode::Disable);
    assert_eq!(m.toggle_scroll_lock(&shared).wheel_mode, WheelMode::Off);
    assert_eq!(m.toggle_direction_lock(&shared).wheel_mode, WheelMode::DirectionLock);
}

#[test]
fn refresh_reports_changes() {
    let mut m = model(WheelMode::DirectionLock, 500);
    assert!(!m.refresh_from_shared(WheelMode::DirectionLock, 500, HookStatus::Installed));
    assert!(m.refresh_from_shared(WheelMode::Off, 500, HookStatus::Installed));
    assert_eq!(m.wheel_mode(), WheelMode::Off);
    assert!(m.refresh_from_shared(WheelMode::Off, 500, HookStatus::Failed));
    assert_eq!(m.hook_status(), HookStatus::Failed);
    assert!(m.refresh_from_shared(WheelMode::Off, 250, HookStatus::Failed));
    assert_eq!(m.current_config(), Config { wheel_mode: WheelMode::Off, direction_lock_timeout_ms: 250 });
}

#[test]
fn autostart_check_throttled_to_once_per_second() {
    let mut m = model(WheelMode::DirectionLock, 500);
    assert!(m.autostart_check_due(100));
    assert!(!m.autostart_check_due(100));
    assert!(m.autostart_check_due(101));
    assert!(!m.autostart_check_due(50));
    assert!(m.refresh_autostart(true));
    assert!(!m.refresh_autostart(true));
    assert!(m.autostart());
}

#[test]
fn autostart_checkbox_reverts_on_failure() {
    let mut m = model(WheelMode::DirectionLock, 500);
    m.autostart_toggled(true, false);
    assert!(!m.autostart());
    m.autostart_toggled(true, true);
    assert!(m.autostart());
    m.autostart_toggled(false, false);
    assert!(m.autostart());
    m.autostart_toggled(false, true);
    assert!(!m.autostart());
}

#[test]
fn nudge_overflow_checks() {
    let mut m = model(WheelMode::DirectionLock, 500);
    assert!(m.step_fits(1) && m.step_fits(-1));
    assert!(m.key_fits("left") && m.key_fits("right"));
    m.cycle_focus(false);
    assert!(m.nudge_fits(1) && m.nudge_fits(-1));
    // i32::MAX - 2 as a timeout: one step up would overflow, one down not.
    let mut big = model(WheelMode::DirectionLock, 0x7fff_fffd);
    assert!(!big.step_fits(1));
    assert!(big.step_fits(-1));
    big.cycle_focus(false);
    assert!(!big.key_fits("right"));
    assert!(big.key_fits("left"));
    assert!(big.key_fits("tab"));
    // Outside direction lock nothing is computed.
    let off = model(WheelMode::Off, 0x7fff_fffd);
    assert!(off.step_fits(1));
}
