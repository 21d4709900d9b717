//! The low-level mouse hook's logic: the state shared with the settings
//! window, the direction-lock filter that swallows wheel bounce, and the
//! decision taken for every mouse event.

use std::sync::Arc;
use std::sync::atomic::{AtomicBool, AtomicI32, AtomicU32, Ordering};
use vstd::prelude::*;
use crate::config::WheelMode;
use crate::dir_lock::{DirLockState, DirLockView, dir_lock_filter_logic, lock_step};

verus! {

/// Marker placed in `dwExtraInfo` of synthetic events so the hook can
/// recognise and ignore injected input ("SABIT"). `dwExtraInfo` is a
/// pointer-sized value, 64 bits wide on the platform the hook runs on.
pub const SYNTHETIC_MARKER: u64 = 0x53_41_42_49_54;

/// Sentinel stored as the settings window's left edge while it is closed.
/// `i32::MAX` can't be a real screen coordinate.
pub const RECT_CLOSED: i32 = i32::MAX;

/// Timeout used when no shared state has been published yet.
pub const FALLBACK_TIMEOUT_MS: u32 = 500;

/// Win32 message: left mouse button pressed.
pub const WM_LBUTTONDOWN: u32 = 0x0201;
/// Win32 message: right mouse button pressed.
pub const WM_RBUTTONDOWN: u32 = 0x0204;
/// Win32 message: middle mouse button pressed.
pub const WM_MBUTTONDOWN: u32 = 0x0207;
/// Win32 message: vertical wheel rotated.
pub const WM_MOUSEWHEEL: u32 = 0x020A;

/// Status of the low-level mouse hook installation.
#[derive(Debug, Clone, Copy, PartialEq, Eq, Structural)]
pub enum HookStatus {
    /// Hook installation has not completed yet.
    Pending,
    /// Hook installed successfully and is processing input.
    Installed,
    /// Hook installation failed.
    Failed,
}

/// Integer encoding of a hook status (0 = Pending, 1 = Installed, 2 = Failed).
pub open spec fn hook_status_code(s: HookStatus) -> i32 {
    match s {
        HookStatus::Pending => 0,
        HookStatus::Installed => 1,
        HookStatus::Failed => 2,
    }
}

/// Decoding of an integer; every unknown value means `Pending`.
pub open spec fn hook_status_of_code(v: i32) -> HookStatus {
    if v == 1 {
        HookStatus::Installed
    } else if v == 2 {
        HookStatus::Failed
    } else {
        HookStatus::Pending
    }
}

impl HookStatus {
    /// Encode as `i32` for atomic storage.
    pub fn as_i32(self) -> (r: i32)
        ensures
            r == hook_status_code(self),
    {
        match self {
            HookStatus::Pending => 0,
            HookStatus::Installed => 1,
            HookStatus::Failed => 2,
        }
    }

    /// Decode from `i32`; unknown values fall back to `Pending`.
    pub fn from_i32(v: i32) -> (r: Self)
        ensures
            r == hook_status_of_code(v),
    {
        match v {
            1 => HookStatus::Installed,
            2 => HookStatus::Failed,
            _ => HookStatus::Pending,
        }
    }
}

/// Tooltip text that reflects the hook installation status, so a failed
/// install is visible without opening the settings window.
pub fn hook_tooltip(status: HookStatus) -> (r: String)
    ensures
        status == HookStatus::Pending ==> r@ == "Sabitori (starting…)"@,
        status == HookStatus::Installed ==> r@ == "Sabitori"@,
        status == HookStatus::Failed ==> r@ == "Sabitori (mouse hook failed)"@,
{
    match status {
        HookStatus::Pending => "Sabitori (starting…)".to_owned(),
        HookStatus::Installed => "Sabitori".to_owned(),
        HookStatus::Failed => "Sabitori (mouse hook failed)".to_owned(),
    }
}

/// Thread-safe state shared between the hook thread and the GUI thread.
/// All fields are lock-free atomics so the hook callback never blocks.
///
/// Another thread may store into any field at any moment, so a read returns
/// whatever some thread stored last, and the atomics' specifications say
/// nothing of their contents. The contracts below therefore state only what
/// holds of every value a read can return. What goes into the fields is made
/// by verified encoders (`WheelMode::as_i32`, `HookStatus::as_i32`, the
/// `RECT_CLOSED` sentinel for a closed window), and what comes out is decoded
/// by verified functions (`WheelMode::from_i32`, `HookStatus::from_i32`,
/// `decode_settings_rect`); the loads and stores themselves are unproved.
#[derive(Debug)]
pub struct SharedState {
    /// Wheel mode as integer (see `WheelMode::as_i32`).
    wheel_mode: AtomicI32,
    /// Direction-lock idle timeout in milliseconds.
    dir_lock_timeout_ms: AtomicU32,
    /// Hook installation status as integer (see `HookStatus::as_i32`).
    hook_status: AtomicI32,
    /// The settings window's on-screen rectangle in physical pixels while the
    /// window is open, or `RECT_CLOSED` in `settings_rect_left` when it is not.
    settings_rect_left: AtomicI32,
    settings_rect_top: AtomicI32,
    settings_rect_right: AtomicI32,
    settings_rect_bottom: AtomicI32,
    /// Set by the hook when a button-down lands outside the open settings
    /// window; consumed once by the GUI poll.
    dismiss_requested: AtomicBool,
    /// Set by the settings window's Retry button when the hook failed to
    /// install; consumed once by the GUI poll, which respawns the hook thread.
    retry_requested: AtomicBool,
}

/// The settings the hook reads from the shared state for one event.
#[derive(Debug, Clone, Copy)]
pub struct HookSettings {
    /// How wheel events are handled.
    pub wheel_mode: WheelMode,
    /// Direction-lock idle timeout in milliseconds.
    pub dir_lock_timeout_ms: u32,
    /// The open settings window's rectangle (left, top, right, bottom).
    pub settings_rect: Option<(i32, i32, i32, i32)>,
}

/// The rectangle that the four stored edges describe: none while the
/// stored left edge is the closed sentinel.
pub open spec fn decode_rect(left: i32, top: i32, right: i32, bottom: i32) -> Option<(i32, i32, i32, i32)> {
    if left == RECT_CLOSED {
        None
    } else {
        Some((left, top, right, bottom))
    }
}

/// Decode the four stored edges of the settings window: `None` while the
/// left edge holds the closed sentinel, else the rectangle they describe.
pub fn decode_settings_rect(left: i32, top: i32, right: i32, bottom: i32) -> (r: Option<(i32, i32, i32, i32)>)
    ensures
        r == decode_rect(left, top, right, bottom),
{
    if left == RECT_CLOSED {
        None
    } else {
        Some((left, top, right, bottom))
    }
}

impl SharedState {
    /// Shared state seeded with the loaded settings, hook status `Pending`,
    /// no settings window open and no pending requests.
    pub fn new(wheel_mode: WheelMode, dir_lock_timeout_ms: u32) -> Arc<Self> {
        let mode_code = wheel_mode.as_i32();
        let status_code = HookStatus::Pending.as_i32();
        Arc::new(SharedState {
            wheel_mode: AtomicI32::new(mode_code),
            dir_lock_timeout_ms: AtomicU32::new(dir_lock_timeout_ms),
            hook_status: AtomicI32::new(status_code),
            settings_rect_left: AtomicI32::new(RECT_CLOSED),
            settings_rect_top: AtomicI32::new(0),
            settings_rect_right: AtomicI32::new(0),
            settings_rect_bottom: AtomicI32::new(0),
            dismiss_requested: AtomicBool::new(false),
            retry_requested: AtomicBool::new(false),
        })
    }

    /// The current wheel mode, decoded from its stored integer.
    pub fn wheel_mode(&self) -> WheelMode {
        let code = self.wheel_mode.load(Ordering::Relaxed);
        WheelMode::from_i32(code)
    }

    /// Store a new wheel mode (as its integer encoding).
    pub fn set_wheel_mode(&self, mode: WheelMode) {
        let code = mode.as_i32();
        self.wheel_mode.store(code, Ordering::Relaxed);
    }

    /// The current direction-lock timeout in milliseconds.
    pub fn dir_lock_timeout_ms(&self) -> u32 {
        self.dir_lock_timeout_ms.load(Ordering::Relaxed)
    }

    /// Store a new direction-lock timeout in milliseconds.
    pub fn set_dir_lock_timeout_ms(&self, val: u32) {
        self.dir_lock_timeout_ms.store(val, Ordering::Relaxed);
    }

    /// The current hook status, decoded from its stored integer.
    pub fn hook_status(&self) -> HookStatus {
        let code = self.hook_status.load(Ordering::Relaxed);
        HookStatus::from_i32(code)
    }

    /// Store a new hook status (as its integer encoding).
    pub fn set_hook_status(&self, status: HookStatus) {
        let code = status.as_i32();
        self.hook_status.store(code, Ordering::Relaxed);
    }

    /// Publish the settings window's on-screen rect (physical pixels) so the
    /// hook can dismiss the flyout on outside clicks. `None` closes it.
    pub fn set_settings_rect(&self, rect: Option<(i32, i32, i32, i32)>) {
        match rect {
            Some((l, t, r, b)) => {
                self.settings_rect_left.store(l, Ordering::Relaxed);
                self.settings_rect_top.store(t, Ordering::Relaxed);
                self.settings_rect_right.store(r, Ordering::Relaxed);
                self.settings_rect_bottom.store(b, Ordering::Relaxed);
            },
            None => self.settings_rect_left.store(RECT_CLOSED, Ordering::Relaxed),
        }
    }

    /// The settings window's current on-screen rect, or `None` when closed:
    /// the four stored edges, read and decoded by `decode_settings_rect`.
    pub fn settings_rect(&self) -> (r: Option<(i32, i32, i32, i32)>)
        ensures
            r matches Some(rect) ==> rect.0 != RECT_CLOSED,
    {
        let left = self.settings_rect_left.load(Ordering::Relaxed);
        let top = self.settings_rect_top.load(Ordering::Relaxed);
        let right = self.settings_rect_right.load(Ordering::Relaxed);
        let bottom = self.settings_rect_bottom.load(Ordering::Relaxed);
        decode_settings_rect(left, top, right, bottom)
    }

    /// Ask the GUI to dismiss the settings window (outside click).
    pub fn request_dismiss(&self) {
        self.dismiss_requested.store(true, Ordering::Relaxed);
    }

    /// Consume a pending dismissal request, if any.
    pub fn take_dismiss_requested(&self) -> bool {
        self.dismiss_requested.swap(false, Ordering::Relaxed)
    }

    /// Ask the GUI to retry installing the mouse hook.
    pub fn request_retry(&self) {
        self.retry_requested.store(true, Ordering::Relaxed);
    }

    /// Consume a pending hook-retry request, if any.
    pub fn take_retry_requested(&self) -> bool {
        self.retry_requested.swap(false, Ordering::Relaxed)
    }

    /// The settings the hook needs for one event, read from the shared state.
    pub fn hook_settings(&self) -> (r: HookSettings)
        ensures
            r.settings_rect matches Some(rect) ==> rect.0 != RECT_CLOSED,
    {
        let wheel_mode = self.wheel_mode();
        let dir_lock_timeout_ms = self.dir_lock_timeout_ms();
        let settings_rect = self.settings_rect();
        HookSettings { wheel_mode, dir_lock_timeout_ms, settings_rect }
    }
}

/// Read-only check: is a hook thread currently alive? `slot` is the
/// process-wide hook-thread flag.
pub fn hook_thread_active(slot: &AtomicBool) -> bool {
    slot.load(Ordering::Acquire)
}

/// Claim the hook-thread slot: succeeds for at most one thread until the
/// slot is released (a compare-and-swap from free to taken).
pub fn try_claim_hook_thread(slot: &AtomicBool) -> bool {
    let claimed = slot.compare_exchange(false, true, Ordering::Acquire, Ordering::Relaxed);
    claimed.is_ok()
}

/// Release the hook-thread slot.
pub fn release_hook_thread(slot: &AtomicBool) {
    slot.store(false, Ordering::Release);
}

/// True when the point (physical pixels) lies outside the rectangle
/// (left, top, right, bottom). A point on the boundary counts as inside.
pub open spec fn outside(rect: (i32, i32, i32, i32), x: i32, y: i32) -> bool {
    x < rect.0 || x > rect.2 || y < rect.1 || y > rect.3
}

/// True when the point (physical pixels) lies outside the given rectangle
/// (left, top, right, bottom). A click on the boundary counts as inside.
pub fn point_outside(rect: (i32, i32, i32, i32), x: i32, y: i32) -> (r: bool)
    ensures
        r == outside(rect, x, y),
{
    x < rect.0 || x > rect.2 || y < rect.1 || y > rect.3
}

/// The signed wheel delta held in the high word of `mouseData`.
pub open spec fn wheel_delta_of(mouse_data: u32) -> int {
    let hi = mouse_data as int / 0x1_0000;
    if hi >= 0x8000 {
        hi - 0x1_0000
    } else {
        hi
    }
}

/// Extract the signed wheel delta from the high word of `mouseData`.
pub fn extract_wheel_delta(mouse_data: u32) -> (r: i32)
    ensures
        r == wheel_delta_of(mouse_data),
{
    let hi: u32 = mouse_data >> 16;
    assert(mouse_data >> 16 == mouse_data / 0x1_0000) by (bit_vector);
    let v: i32 = hi as i32;
    if v >= 0x8000 {
        v - 0x1_0000
    } else {
        v
    }
}

/// A wheel delta stored in the high word of `mouseData` (as the system
/// stores it, 16-bit two's complement) is extracted unchanged.
pub proof fn law_wheel_delta_roundtrip(delta: int, low: int)
    requires
        -0x8000 <= delta < 0x8000,
        0 <= low < 0x1_0000,
    ensures
        wheel_delta_of((((delta + 0x1_0000) % 0x1_0000) * 0x1_0000 + low) as u32) == delta,
{
    let k = (delta + 0x1_0000) % 0x1_0000;
    assert(0 <= k < 0x1_0000);
    assert((k * 0x1_0000 + low) / 0x1_0000 == k) by (nonlinear_arith)
        requires
            0 <= low < 0x1_0000,
            0 <= k,
    ;
    assert(k * 0x1_0000 + low < 0x1_0000_0000) by (nonlinear_arith)
        requires
            0 <= low < 0x1_0000,
            0 <= k < 0x1_0000,
    ;
}

/// One event as the low-level mouse hook receives it.
#[derive(Debug, Clone, Copy)]
pub struct MouseEvent {
    /// The hook code; negative codes must be passed on untouched.
    pub code: i32,
    /// The mouse message (`WM_*`).
    pub msg: u32,
    /// The event's `dwExtraInfo`.
    pub extra_info: u64,
    /// Cursor position in physical pixels.
    pub x: i32,
    pub y: i32,
    /// The event's `mouseData` (wheel delta in the high word).
    pub mouse_data: u32,
}

/// What the hook does with one event.
#[derive(Debug, Clone, Copy, PartialEq, Eq, Structural)]
pub struct HookOutcome {
    /// Pass the event on to the next hook (`false`: swallow it).
    pub pass_through: bool,
    /// Ask the GUI to dismiss the settings window (click outside it).
    pub request_dismiss: bool,
    /// The event arrived while no hook thread owns the lock state; worth a
    /// log line.
    pub report_inactive: bool,
}

/// A mouse button was pressed.
pub open spec fn is_button_down(msg: u32) -> bool {
    msg == WM_LBUTTONDOWN || msg == WM_RBUTTONDOWN || msg == WM_MBUTTONDOWN
}

/// A button-down lands outside the open settings window.
pub open spec fn dismisses(ev: MouseEvent, settings: Option<HookSettings>) -> bool {
    is_button_down(ev.msg) && match settings {
        Some(st) => match st.settings_rect {
            Some(rect) => outside(rect, ev.x, ev.y),
            None => false,
        },
        None => false,
    }
}

/// The wheel mode in force: `DirectionLock` until shared state exists.
pub open spec fn mode_in_force(settings: Option<HookSettings>) -> WheelMode {
    match settings {
        Some(st) => st.wheel_mode,
        None => WheelMode::DirectionLock,
    }
}

/// The direction-lock timeout in force: 500 ms until shared state exists.
pub open spec fn timeout_in_force(settings: Option<HookSettings>) -> u32 {
    match settings {
        Some(st) => st.dir_lock_timeout_ms,
        None => FALLBACK_TIMEOUT_MS,
    }
}

/// The hook's decision for one event: the next direction-lock state and
/// what to do with the event.
///
/// Negative hook codes, events while no hook thread is active, and the
/// application's own synthetic events pass untouched. A button-down outside
/// the open settings window requests its dismissal. Wheel events are
/// swallowed in `Disable`, passed in `Off`, and in `DirectionLock` go
/// through the direction lock (a zero delta passes without touching it).
/// Every other event passes.
pub open spec fn hook_step(
    ev: MouseEvent,
    hook_active: bool,
    settings: Option<HookSettings>,
    lock: DirLockView,
    now: u64,
) -> (DirLockView, HookOutcome) {
    if ev.code < 0 {
        (lock, HookOutcome { pass_through: true, request_dismiss: false, report_inactive: false })
    } else if !hook_active {
        (lock, HookOutcome { pass_through: true, request_dismiss: false, report_inactive: true })
    } else if ev.extra_info == SYNTHETIC_MARKER {
        (lock, HookOutcome { pass_through: true, request_dismiss: false, report_inactive: false })
    } else {
        let dismiss = dismisses(ev, settings);
        if ev.msg != WM_MOUSEWHEEL {
            (lock, HookOutcome { pass_through: true, request_dismiss: dismiss, report_inactive: false })
        } else {
            match mode_in_force(settings) {
                WheelMode::Disable => (
                    lock,
                    HookOutcome { pass_through: false, request_dismiss: dismiss, report_inactive: false },
                ),
                WheelMode::Off => (
                    lock,
                    HookOutcome { pass_through: true, request_dismiss: dismiss, report_inactive: false },
                ),
                WheelMode::DirectionLock => {
                    let delta = wheel_delta_of(ev.mouse_data);
                    if delta == 0 {
                        (lock, HookOutcome { pass_through: true, request_dismiss: dismiss, report_inactive: false })
                    } else {
                        let (next, allowed) = lock_step(lock, delta as i32, timeout_in_force(settings), now);
                        (next, HookOutcome { pass_through: allowed, request_dismiss: dismiss, report_inactive: false })
                    }
                },
            }
        }
    }
}

/// Decide what the low-level mouse hook does with one event, updating the
/// direction-lock state. `hook_active` says whether a hook thread owns the
/// lock state; `settings` is what the shared state holds, if it has been
/// published; `now_ns` is the event's time.
pub fn handle_mouse_event(
    ev: &MouseEvent,
    hook_active: bool,
    settings: Option<HookSettings>,
    lock: &mut DirLockState,
    now_ns: u64,
) -> (r: HookOutcome)
    ensures
        (final(lock)@, r) == hook_step(*ev, hook_active, settings, old(lock)@, now_ns),
{
    if ev.code < 0 {
        return HookOutcome { pass_through: true, request_dismiss: false, report_inactive: false };
    }
    if !hook_active {
        return HookOutcome { pass_through: true, request_dismiss: false, report_inactive: true };
    }
    if ev.extra_info == SYNTHETIC_MARKER {
        return HookOutcome { pass_through: true, request_dismiss: false, report_inactive: false };
    }

    // Native flyout dismissal: a button-down outside the open settings window.
    let button_down = ev.msg == WM_LBUTTONDOWN || ev.msg == WM_RBUTTONDOWN || ev.msg == WM_MBUTTONDOWN;
    let mut dismiss = false;
    if button_down {
        if let Some(st) = settings {
            if let Some(rect) = st.settings_rect {
                dismiss = point_outside(rect, ev.x, ev.y);
            }
        }
    }

    if ev.msg != WM_MOUSEWHEEL {
        return HookOutcome { pass_through: true, request_dismiss: dismiss, report_inactive: false };
    }
    let mode = match settings {
        Some(st) => st.wheel_mode,
        None => WheelMode::DirectionLock,
    };
    match mode {
        WheelMode::Disable => HookOutcome { pass_through: false, request_dismiss: dismiss, report_inactive: false },
        WheelMode::Off => HookOutcome { pass_through: true, request_dismiss: dismiss, report_inactive: false },
        WheelMode::DirectionLock => {
            let delta = extract_wheel_delta(ev.mouse_data);
            if delta == 0 {
                return HookOutcome { pass_through: true, request_dismiss: dismiss, report_inactive: false };
            }
            let timeout = match settings {
                Some(st) => st.dir_lock_timeout_ms,
                None => FALLBACK_TIMEOUT_MS,
            };
            let allowed = dir_lock_filter_logic(lock, delta, timeout, now_ns);
            HookOutcome { pass_through: allowed, request_dismiss: dismiss, report_inactive: false }
        },
    }
}

/// Decoding an encoded hook status gives the status back.
pub proof fn law_hook_status_code_roundtrip(s: HookStatus)
    ensures
        hook_status_of_code(hook_status_code(s)) == s,
{
}

/// Every code outside {0, 1, 2} decodes to `Pending`.
pub proof fn law_unknown_hook_status_code_is_pending(v: i32)
    requires
        v != 0 && v != 1 && v != 2,
    ensures
        hook_status_of_code(v) == HookStatus::Pending,
{
}

/// Decoding the edges of a published rectangle gives the rectangle back
/// unless its left edge is the closed sentinel; the sentinel decodes as
/// closed.
pub proof fn law_rect_roundtrip(rect: (i32, i32, i32, i32), top: i32, right: i32, bottom: i32)
    ensures
        rect.0 != RECT_CLOSED ==> decode_rect(rect.0, rect.1, rect.2, rect.3) == Some(rect),
        decode_rect(RECT_CLOSED, top, right, bottom) is None,
{
}

/// The boundary of the rectangle counts as inside; a point left of, right
/// of, above or below it is outside.
pub proof fn law_point_outside(rect: (i32, i32, i32, i32), x: i32, y: i32)
    ensures
        rect.0 <= x <= rect.2 && rect.1 <= y <= rect.3 ==> !outside(rect, x, y),
        x < rect.0 || x > rect.2 || y < rect.1 || y > rect.3 ==> outside(rect, x, y),
{
}

/// An event the hook does not own (negative code), an event with no active
/// hook thread, and the application's own synthetic input all pass
/// untouched and leave the direction lock as it was.
pub proof fn law_foreign_events_pass(ev: MouseEvent, hook_active: bool, settings: Option<HookSettings>, lock: DirLockView, now: u64)
    requires
        ev.code < 0 || !hook_active || ev.extra_info == SYNTHETIC_MARKER,
    ensures
        hook_step(ev, hook_active, settings, lock, now).0 == lock,
        hook_step(ev, hook_active, settings, lock, now).1.pass_through,
        !hook_step(ev, hook_active, settings, lock, now).1.request_dismiss,
{
}

/// In scroll-lock mode every physical wheel event is swallowed; in
/// pass-through mode every event passes; neither touches the lock.
pub proof fn law_modes_without_lock(ev: MouseEvent, settings: HookSettings, lock: DirLockView, now: u64)
    requires
        ev.code >= 0,
        ev.extra_info != SYNTHETIC_MARKER,
        ev.msg == WM_MOUSEWHEEL,
    ensures
        settings.wheel_mode == WheelMode::Disable ==> !hook_step(ev, true, Some(settings), lock, now).1.pass_through,
        settings.wheel_mode == WheelMode::Off ==> hook_step(ev, true, Some(settings), lock, now).1.pass_through,
        settings.wheel_mode != WheelMode::DirectionLock ==> hook_step(ev, true, Some(settings), lock, now).0 == lock,
{
}

/// Only wheel events can be swallowed, and only wheel events with a
/// nonzero delta in direction-lock mode move the lock.
pub proof fn law_only_wheel_filtered(ev: MouseEvent, hook_active: bool, settings: Option<HookSettings>, lock: DirLockView, now: u64)
    ensures
        ev.msg != WM_MOUSEWHEEL ==> hook_step(ev, hook_active, settings, lock, now).1.pass_through,
        hook_step(ev, hook_active, settings, lock, now).0 != lock ==> {
            &&& ev.msg == WM_MOUSEWHEEL
            &&& mode_in_force(settings) == WheelMode::DirectionLock
            &&& wheel_delta_of(ev.mouse_data) != 0
        },
{
}

/// A dismissal is requested exactly for a button-down (by an event the hook
/// owns) outside the open settings window.
pub proof fn law_dismiss_only_outside_clicks(ev: MouseEvent, settings: Option<HookSettings>, lock: DirLockView, now: u64)
    requires
        ev.code >= 0,
        ev.extra_info != SYNTHETIC_MARKER,
    ensures
        hook_step(ev, true, settings, lock, now).1.request_dismiss == dismisses(ev, settings),
{
}

/// The three button-down messages are the Win32 left, right and middle
/// button presses.
pub proof fn law_button_down_messages()
    ensures
        WM_LBUTTONDOWN == 0x0201,
        WM_RBUTTONDOWN == 0x0204,
        WM_MBUTTONDOWN == 0x0207,
{
}

/// A left, right or middle button press of an owned, non-synthetic event at
/// a point outside the published settings rectangle passes through and
/// requests dismissal of the window, whatever the mode and lock.
pub proof fn law_outside_press_dismisses(ev: MouseEvent, settings: HookSettings, lock: DirLockView, now: u64)
    requires
        ev.code >= 0,
        ev.extra_info != SYNTHETIC_MARKER,
        ev.msg == WM_LBUTTONDOWN || ev.msg == WM_RBUTTONDOWN || ev.msg == WM_MBUTTONDOWN,
        settings.settings_rect matches Some(r) && (ev.x < r.0 || ev.x > r.2 || ev.y < r.1 || ev.y > r.3),
    ensures
        hook_step(ev, true, Some(settings), lock, now).1 == (HookOutcome {
            pass_through: true,
            request_dismiss: true,
            report_inactive: false,
        }),
        hook_step(ev, true, Some(settings), lock, now).0 == lock,
{
}

/// A press inside (or on the edge of) the settings rectangle, or with no
/// window published, never requests dismissal.
pub proof fn law_inside_press_keeps_window(ev: MouseEvent, hook_active: bool, settings: HookSettings, lock: DirLockView, now: u64)
    requires
        settings.settings_rect matches Some(r) ==> (r.0 <= ev.x <= r.2 && r.1 <= ev.y <= r.3),
    ensures
        !hook_step(ev, hook_active, Some(settings), lock, now).1.request_dismiss,
{
}

/// The message and marker values the hook matches on: the Win32 wheel
/// message, the "SABIT" marker of synthetic input, and the sentinel of a
/// closed window.
pub proof fn law_hook_constants()
    ensures
        WM_MOUSEWHEEL == 0x020A,
        SYNTHETIC_MARKER == 0x53_41_42_49_54,
        RECT_CLOSED == 0x7FFF_FFFF,
        FALLBACK_TIMEOUT_MS == 500,
{
}

/// In direction-lock mode (also before any settings are published) a wheel
/// event with a nonzero delta goes through the direction lock with the
/// delta from the high word of `mouseData` and the published timeout
/// (500 ms before publication): the lock takes the step's next state and
/// the event passes exactly when the step lets it. A zero delta passes and
/// leaves the lock alone. Scroll lock swallows every wheel event and
/// pass-through passes every one, both leaving the lock alone.
pub proof fn law_wheel_by_mode(ev: MouseEvent, settings: Option<HookSettings>, lock: DirLockView, now: u64)
    requires
        ev.code >= 0,
        ev.extra_info != SYNTHETIC_MARKER,
        ev.msg == WM_MOUSEWHEEL,
    ensures
        ({
            let hi: int = ev.mouse_data as int / 0x1_0000;
            let delta: int = if hi >= 0x8000 { hi - 0x1_0000 } else { hi };
            let timeout: u32 = match settings {
                Some(st) => st.dir_lock_timeout_ms,
                None => 500u32,
            };
            let mode = match settings {
                Some(st) => st.wheel_mode,
                None => WheelMode::DirectionLock,
            };
            let (next, out) = hook_step(ev, true, settings, lock, now);
            &&& !out.report_inactive
            &&& (mode == WheelMode::DirectionLock && delta != 0 ==> {
                &&& next == lock_step(lock, delta as i32, timeout, now).0
                &&& out.pass_through == lock_step(lock, delta as i32, timeout, now).1
            })
            &&& (mode == WheelMode::DirectionLock && delta == 0 ==> next == lock && out.pass_through)
            &&& (mode == WheelMode::Disable ==> next == lock && !out.pass_through)
            &&& (mode == WheelMode::Off ==> next == lock && out.pass_through)
        }),
{
}

} // verus!
