use sabitori::config::WheelMode;
use sabitori::hook::HookStatus;
use sabitori::tray::{tray_poll_step, TrayAction, TrayInput, TrayPollActions, TrayPollState, WindowAction};

fn nothing() -> TrayInput {
    TrayInput { menu: None, tray_click: false, second_launch: false }
}

fn click() -> TrayInput {
    TrayInput { menu: None, tray_click: true, second_launch: false }
}

fn fresh() -> TrayPollState {
    TrayPollState { last_tip: None }
}

/// One tick with the given window situation and input, after the tooltip
/// was drawn for Installed / DirectionLock.
fn tick(dismissed: bool, has_window: bool, window_alive: bool, input: TrayInput) -> TrayPollActions {
    let s = TrayPollState { last_tip: Some((HookStatus::Installed, WheelMode::DirectionLock)) };
    tray_poll_step(s, HookStatus::Installed, WheelMode::DirectionLock, false, dismissed, has_window, window_alive, input).1
}

#[test]
fn first_tick_draws_tooltip_and_remembers_it() {
    let (s, acts) =
        tray_poll_step(fresh(), HookStatus::Pending, WheelMode::DirectionLock, false, false, false, false, nothing());
    assert!(acts.retip);
    assert_eq!(s.last_tip, Some((HookStatus::Pending, WheelMode::DirectionLock)));
    let (s, acts) = tray_poll_step(s, HookStatus::Pending, WheelMode::DirectionLock, false, false, false, false, nothing());
    assert!(!acts.retip);
    let (s, acts) = tray_poll_step(s, HookStatus::Installed, WheelMode::DirectionLock, false, false, false, false, nothing());
    assert!(acts.retip);
    let (s, acts) = tray_poll_step(s, HookStatus::Installed, WheelMode::Disable, false, false, false, false, nothing());
    assert!(acts.retip);
    assert_eq!(s.last_tip, Some((HookStatus::Installed, WheelMode::Disable)));
}

#[test]
fn retry_request_respawns_hook() {
    let s = fresh();
    let (_, acts) = tray_poll_step(s, HookStatus::Failed, WheelMode::Off, true, false, false, false, nothing());
    assert!(acts.respawn_hook);
    let (_, acts) = tray_poll_step(s, HookStatus::Failed, WheelMode::Off, false, false, false, false, nothing());
    assert!(!acts.respawn_hook);
}

#[test]
fn idle_tick_does_nothing_to_window() {
    let acts = tick(false, true, true, nothing());
    assert_eq!(acts.window, WindowAction::Keep);
    assert!(!acts.dismiss);
    assert!(!acts.quit);
}

#[test]
fn dismissal_closes_held_window_only() {
    assert!(tick(true, true, true, nothing()).dismiss);
    assert!(!tick(true, false, false, nothing()).dismiss);
    assert_eq!(tick(true, true, true, nothing()).window, WindowAction::Keep);
}

#[test]
fn click_toggles_flyout() {
    assert_eq!(tick(false, true, true, click()).window, WindowAction::Close);
    assert_eq!(tick(false, false, false, click()).window, WindowAction::Open);
    // A held handle whose window is already gone: open a new one.
    assert_eq!(tick(false, true, false, click()).window, WindowAction::Open);
}

#[test]
fn dismissing_click_stays_closed() {
    let acts = tick(true, true, true, click());
    assert!(acts.dismiss);
    assert_eq!(acts.window, WindowAction::Keep);
    assert_eq!(tick(true, false, false, click()).window, WindowAction::Keep);
}

#[test]
fn menu_settings_focuses_or_opens() {
    let menu = TrayInput { menu: Some(TrayAction::Settings), tray_click: false, second_launch: false };
    assert_eq!(tick(false, true, true, menu).window, WindowAction::Focus);
    assert_eq!(tick(false, false, false, menu).window, WindowAction::Open);
    assert_eq!(tick(false, true, false, menu).window, WindowAction::Open);
    // The dismissed window is closed first, so the menu opens a new one.
    assert_eq!(tick(true, true, true, menu).window, WindowAction::Open);
}

#[test]
fn second_launch_focuses_or_opens() {
    let launch = TrayInput { menu: None, tray_click: false, second_launch: true };
    assert_eq!(tick(false, true, true, launch).window, WindowAction::Focus);
    assert_eq!(tick(false, false, false, launch).window, WindowAction::Open);
    assert!(!tick(false, true, true, launch).quit);
}

#[test]
fn quit_from_menu_quits() {
    let quit = TrayInput { menu: Some(TrayAction::Quit), tray_click: true, second_launch: true };
    let acts = tick(false, true, true, quit);
    assert!(acts.quit);
    assert_eq!(acts.window, WindowAction::Keep);
    assert!(!tick(false, true, true, click()).quit);
}

#[test]
fn menu_choice_wins_over_click_but_click_still_toggles() {
    // Settings from the menu in the same tick as a click on the icon: the
    // click's toggle applies to the open window.
    let both = TrayInput { menu: Some(TrayAction::Settings), tray_click: true, second_launch: false };
    assert_eq!(tick(false, true, true, both).window, WindowAction::Close);
}
