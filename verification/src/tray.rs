//! The decisions of the tray poll loop.
//!
//! Every tick the application reads the hook status and wheel mode, takes
//! the pending retry and dismissal requests, and collects what the user did
//! through the tray (a menu choice, a left click on the icon, or a second
//! launch of the program). `tray_poll_step` turns those into the actions of
//! the tick; the caller performs them in the order of the fields of
//! `TrayPollActions`.
//!
//! A left click on the icon toggles the settings flyout like the system's
//! own flyouts: it closes an open window and opens a closed one. The menu's
//! Settings item and a second launch always open the window or bring it
//! forward. A click whose button-down already dismissed the window in the
//! same tick leaves it closed, so the gesture does not reopen it.

use vstd::prelude::*;
use crate::config::WheelMode;
use crate::hook::HookStatus;

verus! {

/// What the user asked for through the tray.
#[derive(Debug, Clone, Copy, PartialEq, Eq, Structural)]
pub enum TrayAction {
    /// Open (or bring forward) the settings window.
    Settings,
    /// Quit the application.
    Quit,
}

/// What the poll loop remembers between ticks: the hook status and wheel
/// mode the tray tooltip and icon were last drawn for.
#[derive(Debug, Clone, Copy)]
pub struct TrayPollState {
    pub last_tip: Option<(HookStatus, WheelMode)>,
}

/// What the user did through the tray since the last tick.
#[derive(Debug, Clone, Copy, PartialEq, Eq, Structural)]
pub struct TrayInput {
    /// A choice from the tray menu.
    pub menu: Option<TrayAction>,
    /// A left click on the tray icon.
    pub tray_click: bool,
    /// Another instance of the program was started. Read only when there is
    /// neither a menu choice nor a click: it then counts as `Settings`.
    pub second_launch: bool,
}

/// What happens to the settings window in one tick.
#[derive(Debug, Clone, Copy, PartialEq, Eq, Structural)]
pub enum WindowAction {
    /// Leave it as it is.
    Keep,
    /// Close the open window and withdraw its published rectangle.
    Close,
    /// Bring the open window forward.
    Focus,
    /// Open a new settings window.
    Open,
}

/// The actions of one tick, to be performed in field order.
#[derive(Debug, Clone, Copy, PartialEq, Eq, Structural)]
pub struct TrayPollActions {
    /// Redraw the tray tooltip and icon for the current status and mode.
    pub retip: bool,
    /// Respawn the hook thread (the Retry button was pressed).
    pub respawn_hook: bool,
    /// Close the held settings window and withdraw its rectangle (the hook
    /// saw a click outside it).
    pub dismiss: bool,
    /// What happens to the settings window for the user's tray request.
    pub window: WindowAction,
    /// Quit the application and leave the loop.
    pub quit: bool,
}

/// The request of this tick: the menu choice, else `Settings` for a click
/// on the icon, else `Settings` for a second launch.
pub open spec fn requested_action(input: TrayInput) -> Option<TrayAction> {
    if input.menu is Some {
        input.menu
    } else if input.tray_click || input.second_launch {
        Some(TrayAction::Settings)
    } else {
        None
    }
}

/// Whether the tooltip must be redrawn: the status or mode differs from the
/// one it was last drawn for (or it was never drawn).
pub open spec fn needs_retip(last: Option<(HookStatus, WheelMode)>, status: HookStatus, mode: WheelMode) -> bool {
    last != Some((status, mode))
}

/// The window's fate for a request. `has_window` says whether the loop holds
/// a window handle, `dismissed` whether the hook asked this tick to dismiss
/// it (the held window is then closed first), `window_alive` whether the
/// held window still exists.
pub open spec fn window_action_for(
    action: Option<TrayAction>,
    tray_click: bool,
    has_window: bool,
    dismissed: bool,
    window_alive: bool,
) -> WindowAction {
    let holding = has_window && !dismissed;
    match action {
        Some(TrayAction::Settings) => if tray_click && holding && window_alive {
            WindowAction::Close
        } else if tray_click && dismissed {
            WindowAction::Keep
        } else if holding && window_alive {
            WindowAction::Focus
        } else {
            WindowAction::Open
        },
        _ => WindowAction::Keep,
    }
}

/// One tick of the tray poll loop: the remembered state after it, and the
/// actions to perform.
pub open spec fn tray_poll_spec(
    s: TrayPollState,
    hook_status: HookStatus,
    wheel_mode: WheelMode,
    retry: bool,
    dismissed: bool,
    has_window: bool,
    window_alive: bool,
    input: TrayInput,
) -> (TrayPollState, TrayPollActions) {
    let action = requested_action(input);
    (
        TrayPollState { last_tip: Some((hook_status, wheel_mode)) },
        TrayPollActions {
            retip: needs_retip(s.last_tip, hook_status, wheel_mode),
            respawn_hook: retry,
            dismiss: dismissed && has_window,
            window: window_action_for(action, input.tray_click, has_window, dismissed, window_alive),
            quit: action == Some(TrayAction::Quit),
        },
    )
}

/// Decide one tick of the tray poll loop. `retry` and `dismissed` are the
/// requests taken from the shared state this tick, `has_window` whether the
/// loop holds a settings window handle and `window_alive` whether that
/// window still exists.
pub fn tray_poll_step(
    s: TrayPollState,
    hook_status: HookStatus,
    wheel_mode: WheelMode,
    retry: bool,
    dismissed: bool,
    has_window: bool,
    window_alive: bool,
    input: TrayInput,
) -> (r: (TrayPollState, TrayPollActions))
    ensures
        r == tray_poll_spec(s, hook_status, wheel_mode, retry, dismissed, has_window, window_alive, input),
{
    let retip = match s.last_tip {
        Some((last_status, last_mode)) => !(last_status == hook_status && last_mode == wheel_mode),
        None => true,
    };

    let action = match input.menu {
        Some(a) => Some(a),
        None => if input.tray_click || input.second_launch {
            Some(TrayAction::Settings)
        } else {
            None
        },
    };

    let holding = has_window && !dismissed;
    let window = match action {
        Some(TrayAction::Settings) => {
            if input.tray_click && holding && window_alive {
                // A click on the icon toggles an open window closed.
                WindowAction::Close
            } else if input.tray_click && dismissed {
                // The click's own button-down already dismissed the window.
                WindowAction::Keep
            } else if holding && window_alive {
                WindowAction::Focus
            } else {
                WindowAction::Open
            }
        },
        _ => WindowAction::Keep,
    };

    let quit = match action {
        Some(TrayAction::Quit) => true,
        _ => false,
    };

    (
        TrayPollState { last_tip: Some((hook_status, wheel_mode)) },
        TrayPollActions { retip, respawn_hook: retry, dismiss: dismissed && has_window, window, quit },
    )
}

/// The tooltip is redrawn on the first tick and whenever the status or mode
/// changed, and not again while both stay the same.
pub proof fn law_retip_only_on_change(
    s: TrayPollState,
    hook_status: HookStatus,
    wheel_mode: WheelMode,
    retry: bool,
    dismissed: bool,
    has_window: bool,
    window_alive: bool,
    input: TrayInput,
    retry2: bool,
    dismissed2: bool,
    has_window2: bool,
    window_alive2: bool,
    input2: TrayInput,
)
    ensures
        s.last_tip is None ==> tray_poll_spec(s, hook_status, wheel_mode, retry, dismissed, has_window, window_alive, input).1.retip,
        !tray_poll_spec(
            tray_poll_spec(s, hook_status, wheel_mode, retry, dismissed, has_window, window_alive, input).0,
            hook_status,
            wheel_mode,
            retry2,
            dismissed2,
            has_window2,
            window_alive2,
            input2,
        ).1.retip,
{
}

/// The loop quits exactly when Quit was chosen from the menu; a click or a
/// second launch never quits.
pub proof fn law_quit_only_from_menu(
    s: TrayPollState,
    hook_status: HookStatus,
    wheel_mode: WheelMode,
    retry: bool,
    dismissed: bool,
    has_window: bool,
    window_alive: bool,
    input: TrayInput,
)
    ensures
        tray_poll_spec(s, hook_status, wheel_mode, retry, dismissed, has_window, window_alive, input).1.quit
            <==> input.menu == Some(TrayAction::Quit),
        input.menu == Some(TrayAction::Quit) ==> tray_poll_spec(
            s,
            hook_status,
            wheel_mode,
            retry,
            dismissed,
            has_window,
            window_alive,
            input,
        ).1.window == WindowAction::Keep,
{
}

/// A click on the icon toggles the flyout: it closes a live open window and
/// opens one when none is held.
pub proof fn law_click_toggles(
    s: TrayPollState,
    hook_status: HookStatus,
    wheel_mode: WheelMode,
    retry: bool,
    has_window: bool,
    window_alive: bool,
)
    ensures
        ({
            let input = TrayInput { menu: None, tray_click: true, second_launch: false };
            let w = tray_poll_spec(s, hook_status, wheel_mode, retry, false, has_window, window_alive, input).1.window;
            &&& (has_window && window_alive ==> w == WindowAction::Close)
            &&& (!has_window ==> w == WindowAction::Open)
        }),
{
}

/// A click whose button-down dismissed the window in the same tick leaves it
/// closed: the window is dismissed and not reopened.
pub proof fn law_dismissing_click_stays_closed(
    s: TrayPollState,
    hook_status: HookStatus,
    wheel_mode: WheelMode,
    retry: bool,
    has_window: bool,
    window_alive: bool,
)
    ensures
        ({
            let input = TrayInput { menu: None, tray_click: true, second_launch: false };
            let acts = tray_poll_spec(s, hook_status, wheel_mode, retry, true, has_window, window_alive, input).1;
            &&& acts.dismiss == has_window
            &&& acts.window == WindowAction::Keep
        }),
{
}

/// The menu's Settings item and a second launch never close the window:
/// they bring a live window forward and open one otherwise.
pub proof fn law_settings_request_shows_window(
    s: TrayPollState,
    hook_status: HookStatus,
    wheel_mode: WheelMode,
    retry: bool,
    dismissed: bool,
    has_window: bool,
    window_alive: bool,
    input: TrayInput,
)
    requires
        !input.tray_click,
        input.menu == Some(TrayAction::Settings) || (input.menu is None && input.second_launch),
    ensures
        ({
            let w = tray_poll_spec(s, hook_status, wheel_mode, retry, dismissed, has_window, window_alive, input).1.window;
            &&& (has_window && !dismissed && window_alive ==> w == WindowAction::Focus)
            &&& (!(has_window && !dismissed && window_alive) ==> w == WindowAction::Open)
        }),
{
}

/// With nothing asked through the tray the window is left alone; only a
/// pending dismissal closes it.
pub proof fn law_idle_tick_keeps_window(
    s: TrayPollState,
    hook_status: HookStatus,
    wheel_mode: WheelMode,
    retry: bool,
    dismissed: bool,
    has_window: bool,
    window_alive: bool,
)
    ensures
        ({
            let input = TrayInput { menu: None, tray_click: false, second_launch: false };
            let acts = tray_poll_spec(s, hook_status, wheel_mode, retry, dismissed, has_window, window_alive, input).1;
            &&& acts.window == WindowAction::Keep
            &&& acts.dismiss == (dismissed && has_window)
            &&& !acts.quit
        }),
{
}

/// A Retry request taken this tick respawns the hook thread, and only then:
/// whatever the window situation, status, mode and tray input.
pub proof fn law_respawn_exactly_on_retry(
    s: TrayPollState,
    hook_status: HookStatus,
    wheel_mode: WheelMode,
    retry: bool,
    dismissed: bool,
    has_window: bool,
    window_alive: bool,
    input: TrayInput,
)
    ensures
        tray_poll_spec(s, hook_status, wheel_mode, retry, dismissed, has_window, window_alive, input).1.respawn_hook
            == retry,
{
}

/// The tooltip is redrawn whenever the hook status or the wheel mode
/// differs from the one it was last drawn for.
pub proof fn law_retip_on_any_change(
    last_status: HookStatus,
    last_mode: WheelMode,
    hook_status: HookStatus,
    wheel_mode: WheelMode,
    retry: bool,
    dismissed: bool,
    has_window: bool,
    window_alive: bool,
    input: TrayInput,
)
    requires
        last_status != hook_status || last_mode != wheel_mode,
    ensures
        tray_poll_spec(
            TrayPollState { last_tip: Some((last_status, last_mode)) },
            hook_status,
            wheel_mode,
            retry,
            dismissed,
            has_window,
            window_alive,
            input,
        ).1.retip,
{
}

/// A click on the icon (unless Quit was chosen in the same tick) closes a
/// held, live window that was not dismissed; after a dismissal in the same
/// tick it leaves the window closed; otherwise it opens a new window.
pub proof fn law_click_outcome(
    s: TrayPollState,
    hook_status: HookStatus,
    wheel_mode: WheelMode,
    retry: bool,
    dismissed: bool,
    has_window: bool,
    window_alive: bool,
    input: TrayInput,
)
    requires
        input.tray_click,
        input.menu != Some(TrayAction::Quit),
    ensures
        ({
            let acts = tray_poll_spec(s, hook_status, wheel_mode, retry, dismissed, has_window, window_alive, input).1;
            &&& !acts.quit
            &&& (has_window && !dismissed && window_alive ==> acts.window == WindowAction::Close)
            &&& (dismissed ==> acts.window == WindowAction::Keep)
            &&& (!dismissed && !(has_window && window_alive) ==> acts.window == WindowAction::Open)
        }),
{
}

} // verus!
