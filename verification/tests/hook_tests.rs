use std::sync::atomic::AtomicBool;

use sabitori::config::WheelMode;
use sabitori::dir_lock::{dir_lock_filter_logic, DirLockState, Direction};
use sabitori::hook::{
    decode_settings_rect, extract_wheel_delta, handle_mouse_event, hook_thread_active, hook_tooltip, point_outside,
    release_hook_thread, try_claim_hook_thread, HookOutcome, HookSettings, HookStatus, MouseEvent,
    SharedState, RECT_CLOSED, SYNTHETIC_MARKER, WM_LBUTTONDOWN, WM_MOUSEWHEEL, WM_RBUTTONDOWN,
};

/// Nanoseconds in one millisecond.
const MS: u64 = 1_000_000;

/// An arbitrary point on the monotonic clock, standing for "now".
const T0: u64 = 7_000_000_000_000;

/// Feed a sequence of deltas at the given timestamps and collect the
/// allow/swallow decisions.
fn run_sequence(deltas: &[i32], timestamps: &[u64], timeout_ms: u32) -> Vec<bool> {
    assert_eq!(deltas.len(), timestamps.len());
    let mut state = DirLockState::new();
    deltas
        .iter()
        .zip(timestamps)
        .map(|(&d, &t)| dir_lock_filter_logic(&mut state, d, timeout_ms, t))
        .collect()
}

/// Timestamps at fixed intervals starting from a base.
fn timestamps(base: u64, interval_ms: u64, count: usize) -> Vec<u64> {
    (0..count).map(|i| base + interval_ms * MS * i as u64).collect()
}

#[test]
fn first_event_always_allowed() {
    let result = run_sequence(&[120], &[T0], 500);
    assert_eq!(result, vec![true]);
}

#[test]
fn same_direction_all_allowed() {
    let ts = timestamps(T0, 10, 5);
    let result = run_sequence(&[120, 120, 120, 120, 120], &ts, 500);
    assert_eq!(result, vec![true, true, true, true, true]);
}

#[test]
fn single_opposite_tick_swallowed() {
    let ts = timestamps(T0, 10, 3);
    let result = run_sequence(&[120, 120, -120], &ts, 500);
    assert_eq!(result, vec![true, true, false]);
}

#[test]
fn two_consecutive_opposite_ticks_flip_lock() {
    let ts = timestamps(T0, 10, 3);
    let result = run_sequence(&[120, -120, -120], &ts, 500);
    assert_eq!(result, vec![true, false, true]);
}

#[test]
fn bounce_streak_resets_on_same_direction() {
    let ts = timestamps(T0, 10, 4);
    let result = run_sequence(&[120, -120, 120, -120], &ts, 500);
    assert_eq!(result, vec![true, false, true, false]);
}

#[test]
fn idle_timeout_releases_lock() {
    let ts = vec![T0, T0 + 600 * MS];
    let result = run_sequence(&[120, -120], &ts, 500);
    assert_eq!(result, vec![true, true]);
}

#[test]
fn idle_within_timeout_keeps_lock() {
    let ts = vec![T0, T0 + 499 * MS];
    let result = run_sequence(&[120, -120], &ts, 500);
    assert_eq!(result, vec![true, false]);
}

#[test]
fn idle_exactly_at_timeout_releases_lock() {
    let ts = vec![T0, T0 + 500 * MS];
    let result = run_sequence(&[120, -120], &ts, 500);
    assert_eq!(result, vec![true, true]);
}

#[test]
fn continuous_reverse_bounce_suppressed() {
    let ts = timestamps(T0, 100, 6);
    let result = run_sequence(&[120, -120, 120, -120, 120, -120], &ts, 500);
    assert_eq!(result, vec![true, false, true, false, true, false]);
}

#[test]
fn lock_flips_then_new_direction_dominates() {
    let ts = timestamps(T0, 10, 5);
    let result = run_sequence(&[120, -120, -120, -120, -120], &ts, 500);
    assert_eq!(result, vec![true, false, true, true, true]);
}

#[test]
fn zero_delta_passes_through() {
    let result = run_sequence(&[0], &[T0], 500);
    assert_eq!(result, vec![true]);
}

#[test]
fn extract_wheel_delta_positive() {
    assert_eq!(extract_wheel_delta(120 << 16), 120);
}

#[test]
fn extract_wheel_delta_negative() {
    let mouse_data = ((-120i16) as u16 as u32) << 16;
    assert_eq!(extract_wheel_delta(mouse_data), -120);
}

#[test]
fn extract_wheel_delta_large_negative() {
    let mouse_data = ((-1000i16) as u16 as u32) << 16;
    assert_eq!(extract_wheel_delta(mouse_data), -1000);
}

#[test]
fn point_outside_check() {
    let rect = (100, 100, 200, 200);
    assert!(!point_outside(rect, 150, 150)); // center
    assert!(!point_outside(rect, 100, 100)); // top-left corner
    assert!(point_outside(rect, 99, 150)); // left of rect
    assert!(point_outside(rect, 150, 201)); // below rect
    assert!(point_outside(rect, 201, 150)); // right of rect
    assert!(point_outside(rect, 150, 99)); // above rect
}

#[test]
fn hook_status_roundtrip() {
    for status in [HookStatus::Pending, HookStatus::Installed, HookStatus::Failed] {
        assert_eq!(HookStatus::from_i32(status.as_i32()), status);
    }
}

#[test]
fn hook_status_from_i32_fallback() {
    assert_eq!(HookStatus::from_i32(999), HookStatus::Pending);
    assert_eq!(HookStatus::from_i32(-1), HookStatus::Pending);
}

#[test]
fn shared_state_settings_rect_roundtrip() {
    let shared = SharedState::new(WheelMode::DirectionLock, 500);
    assert!(shared.settings_rect().is_none());
    shared.set_settings_rect(Some((100, 200, 300, 400)));
    assert_eq!(shared.settings_rect(), Some((100, 200, 300, 400)));
    shared.set_settings_rect(None);
    assert!(shared.settings_rect().is_none());
}

#[test]
fn shared_state_dismiss_requested_consumed_once() {
    let shared = SharedState::new(WheelMode::DirectionLock, 500);
    assert!(!shared.take_dismiss_requested());
    shared.request_dismiss();
    assert!(shared.take_dismiss_requested());
    assert!(!shared.take_dismiss_requested());
}

#[test]
fn shared_state_retry_requested_consumed_once() {
    let shared = SharedState::new(WheelMode::DirectionLock, 500);
    assert!(!shared.take_retry_requested());
    shared.request_retry();
    assert!(shared.take_retry_requested());
    assert!(!shared.take_retry_requested());
}

#[test]
fn shared_state_wheel_mode_roundtrip() {
    let shared = SharedState::new(WheelMode::DirectionLock, 500);
    assert_eq!(shared.wheel_mode(), WheelMode::DirectionLock);
    shared.set_wheel_mode(WheelMode::Off);
    assert_eq!(shared.wheel_mode(), WheelMode::Off);
    shared.set_wheel_mode(WheelMode::Disable);
    assert_eq!(shared.wheel_mode(), WheelMode::Disable);
    shared.set_wheel_mode(WheelMode::DirectionLock);
    assert_eq!(shared.wheel_mode(), WheelMode::DirectionLock);
}

#[test]
fn shared_state_dir_lock_timeout_roundtrip() {
    let shared = SharedState::new(WheelMode::DirectionLock, 500);
    assert_eq!(shared.dir_lock_timeout_ms(), 500);
    shared.set_dir_lock_timeout_ms(250);
    assert_eq!(shared.dir_lock_timeout_ms(), 250);
    shared.set_dir_lock_timeout_ms(2000);
    assert_eq!(shared.dir_lock_timeout_ms(), 2000);
}

#[test]
fn shared_state_hook_status_roundtrip() {
    let shared = SharedState::new(WheelMode::DirectionLock, 500);
    assert_eq!(shared.hook_status(), HookStatus::Pending);
    shared.set_hook_status(HookStatus::Installed);
    assert_eq!(shared.hook_status(), HookStatus::Installed);
    shared.set_hook_status(HookStatus::Failed);
    assert_eq!(shared.hook_status(), HookStatus::Failed);
}

#[test]
fn direction_from_delta() {
    assert_eq!(Direction::from_delta(120), Direction::Up);
    assert_eq!(Direction::from_delta(1), Direction::Up);
    assert_eq!(Direction::from_delta(-120), Direction::Down);
    assert_eq!(Direction::from_delta(0), Direction::Down);
}

#[test]
fn extract_wheel_delta_ignores_low_word() {
    assert_eq!(extract_wheel_delta((120 << 16) | 0xFFFF), 120);
    assert_eq!(extract_wheel_delta(0x7FFF_0000), 32767);
    assert_eq!(extract_wheel_delta(0x8000_0000), -32768);
    assert_eq!(extract_wheel_delta(0xFFFF_0000), -1);
    assert_eq!(extract_wheel_delta(0), 0);
}

#[test]
fn no_two_events_swallowed_in_a_row() {
    // Up locks; a Down is swallowed; the next event passes whichever way it goes.
    let ts = timestamps(T0, 10, 3);
    assert_eq!(run_sequence(&[120, -120, 120], &ts, 500), vec![true, false, true]);
    assert_eq!(run_sequence(&[120, -120, -120], &ts, 500), vec![true, false, true]);
}

#[test]
fn swallowed_tick_does_not_rearm_timer() {
    // Up at 0, bounce Down at 400 (swallowed), Up at 600: the lock idled out
    // measured from the last accepted event (0), so the Up starts a new stroke
    // and a Down right after is swallowed again.
    let ts = vec![T0, T0 + 400 * MS, T0 + 600 * MS, T0 + 610 * MS];
    assert_eq!(run_sequence(&[120, -120, -120, 120], &ts, 500), vec![true, false, true, false]);
}

#[test]
fn idle_beyond_32_bit_millisecond_range_releases_lock() {
    // 2^32 + 10 ms of idle: far past the timeout, so the reversal passes.
    let idle_ms: u64 = (1u64 << 32) + 10;
    let ts = vec![T0, T0 + idle_ms * MS];
    assert_eq!(run_sequence(&[120, -120], &ts, 500), vec![true, true]);
    let ts = vec![T0, T0 + ((1u64 << 32) + 5) * MS];
    assert_eq!(run_sequence(&[120, -120], &ts, 10), vec![true, true]);
}

#[test]
fn clock_going_backwards_counts_as_no_idle() {
    let ts = vec![T0, T0 - 900 * MS];
    assert_eq!(run_sequence(&[120, -120], &ts, 500), vec![true, false]);
}

#[test]
fn reset_clears_lock() {
    let mut state = DirLockState::new();
    assert!(dir_lock_filter_logic(&mut state, 120, 500, T0));
    state.reset();
    assert!(dir_lock_filter_logic(&mut state, -120, 500, T0 + MS));
}

#[test]
fn hook_tooltip_texts() {
    assert_eq!(hook_tooltip(HookStatus::Pending), "Sabitori (starting…)");
    assert_eq!(hook_tooltip(HookStatus::Installed), "Sabitori");
    assert_eq!(hook_tooltip(HookStatus::Failed), "Sabitori (mouse hook failed)");
}

#[test]
fn hook_thread_slot_claimed_once() {
    let slot = AtomicBool::new(false);
    assert!(!hook_thread_active(&slot));
    assert!(try_claim_hook_thread(&slot));
    assert!(hook_thread_active(&slot));
    assert!(!try_claim_hook_thread(&slot));
    release_hook_thread(&slot);
    assert!(!hook_thread_active(&slot));
    assert!(try_claim_hook_thread(&slot));
}

fn wheel(delta: i16) -> MouseEvent {
    MouseEvent {
        code: 0,
        msg: WM_MOUSEWHEEL,
        extra_info: 0,
        x: 0,
        y: 0,
        mouse_data: (delta as u16 as u32) << 16,
    }
}

fn settings(mode: WheelMode, rect: Option<(i32, i32, i32, i32)>) -> Option<HookSettings> {
    Some(HookSettings { wheel_mode: mode, dir_lock_timeout_ms: 500, settings_rect: rect })
}

const PASS: HookOutcome = HookOutcome { pass_through: true, request_dismiss: false, report_inactive: false };
const SWALLOW: HookOutcome = HookOutcome { pass_through: false, request_dismiss: false, report_inactive: false };

#[test]
fn hook_scroll_lock_swallows_wheel() {
    let mut lock = DirLockState::new();
    let s = settings(WheelMode::Disable, None);
    assert_eq!(handle_mouse_event(&wheel(120), true, s, &mut lock, T0), SWALLOW);
    assert_eq!(handle_mouse_event(&wheel(-120), true, s, &mut lock, T0 + MS), SWALLOW);
}

#[test]
fn hook_pass_through_mode_passes_wheel() {
    let mut lock = DirLockState::new();
    let s = settings(WheelMode::Off, None);
    assert_eq!(handle_mouse_event(&wheel(120), true, s, &mut lock, T0), PASS);
    assert_eq!(handle_mouse_event(&wheel(-120), true, s, &mut lock, T0 + MS), PASS);
}

#[test]
fn hook_direction_lock_filters_bounce() {
    let mut lock = DirLockState::new();
    let s = settings(WheelMode::DirectionLock, None);
    assert_eq!(handle_mouse_event(&wheel(120), true, s, &mut lock, T0), PASS);
    assert_eq!(handle_mouse_event(&wheel(-120), true, s, &mut lock, T0 + 10 * MS), SWALLOW);
    // A zero delta passes without touching the lock.
    assert_eq!(handle_mouse_event(&wheel(0), true, s, &mut lock, T0 + 15 * MS), PASS);
    assert_eq!(handle_mouse_event(&wheel(-120), true, s, &mut lock, T0 + 20 * MS), PASS);
}

#[test]
fn hook_without_shared_state_uses_direction_lock() {
    let mut lock = DirLockState::new();
    assert_eq!(handle_mouse_event(&wheel(120), true, None, &mut lock, T0), PASS);
    assert_eq!(handle_mouse_event(&wheel(-120), true, None, &mut lock, T0 + 499 * MS), SWALLOW);
    assert_eq!(handle_mouse_event(&wheel(-120), true, None, &mut lock, T0 + 1500 * MS), PASS);
}

#[test]
fn hook_foreign_events_pass_untouched() {
    let mut lock = DirLockState::new();
    let s = settings(WheelMode::Disable, None);
    let mut negative = wheel(120);
    negative.code = -1;
    assert_eq!(handle_mouse_event(&negative, true, s, &mut lock, T0), PASS);
    let mut synthetic = wheel(120);
    synthetic.extra_info = SYNTHETIC_MARKER;
    assert_eq!(handle_mouse_event(&synthetic, true, s, &mut lock, T0), PASS);
    assert_eq!(
        handle_mouse_event(&wheel(120), false, s, &mut lock, T0),
        HookOutcome { pass_through: true, request_dismiss: false, report_inactive: true }
    );
}

#[test]
fn hook_outside_click_requests_dismiss() {
    let mut lock = DirLockState::new();
    let rect = Some((100, 100, 200, 200));
    let click = |msg: u32, x: i32, y: i32| MouseEvent { code: 0, msg, extra_info: 0, x, y, mouse_data: 0 };
    let s = settings(WheelMode::DirectionLock, rect);
    assert_eq!(
        handle_mouse_event(&click(WM_LBUTTONDOWN, 50, 150), true, s, &mut lock, T0),
        HookOutcome { pass_through: true, request_dismiss: true, report_inactive: false }
    );
    assert_eq!(
        handle_mouse_event(&click(WM_RBUTTONDOWN, 150, 150), true, s, &mut lock, T0),
        PASS
    );
    // Not a button-down: no dismissal.
    assert_eq!(handle_mouse_event(&click(0x0200, 50, 150), true, s, &mut lock, T0), PASS);
    // Window closed: no dismissal.
    let closed = settings(WheelMode::DirectionLock, None);
    assert_eq!(handle_mouse_event(&click(WM_LBUTTONDOWN, 50, 150), true, closed, &mut lock, T0), PASS);
}

#[test]
fn shared_state_snapshot_for_hook() {
    let shared = SharedState::new(WheelMode::Off, 300);
    let s = shared.hook_settings();
    assert_eq!(s.wheel_mode, WheelMode::Off);
    assert_eq!(s.dir_lock_timeout_ms, 300);
    assert_eq!(s.settings_rect, None);
    shared.set_settings_rect(Some((1, 2, 3, 4)));
    assert_eq!(shared.hook_settings().settings_rect, Some((1, 2, 3, 4)));
}

#[test]
fn shared_state_rect_with_sentinel_left_reads_closed() {
    let shared = SharedState::new(WheelMode::Off, 300);
    shared.set_settings_rect(Some((RECT_CLOSED, 2, 3, 4)));
    assert_eq!(shared.settings_rect(), None);
}

#[test]
fn decode_settings_rect_reads_sentinel_as_closed() {
    assert_eq!(decode_settings_rect(RECT_CLOSED, 1, 2, 3), None);
    assert_eq!(decode_settings_rect(10, 20, 30, 40), Some((10, 20, 30, 40)));
    assert_eq!(decode_settings_rect(-1920, 0, -1, 1079), Some((-1920, 0, -1, 1079)));
    assert_eq!(decode_settings_rect(i32::MIN, 0, 0, 0), Some((i32::MIN, 0, 0, 0)));
}
