//! The direction lock: wheel debounce for the `DirectionLock` mode.
//!
//! The lock holds whichever direction started the current stroke. An
//! isolated opposite-direction tick is treated as wheel bounce and
//! swallowed; only a sustained run of reverse ticks, a deliberate direction
//! change, flips the lock. The lock also releases after the wheel has been
//! idle for the timeout, so a reversal after a real pause takes effect
//! immediately.
//!
//! Times are nanoseconds on a monotonic clock with an arbitrary origin.

use vstd::prelude::*;

verus! {

/// Consecutive reverse ticks required to flip the direction lock. A single
/// opposite tick is treated as wheel bounce; only a sustained run proves the
/// user actually reversed direction.
pub const REVERSE_TICKS_TO_FLIP: u32 = 2;

/// Scroll direction of one wheel tick.
#[derive(Debug, Clone, Copy, PartialEq, Eq, Structural)]
pub enum Direction {
    Up,
    Down,
}

/// Positive delta is `Up`, zero or negative is `Down`.
pub open spec fn direction_of(delta: i32) -> Direction {
    if delta > 0 {
        Direction::Up
    } else {
        Direction::Down
    }
}

impl Direction {
    /// Positive delta → `Up`, zero or negative → `Down`.
    pub fn from_delta(delta: i32) -> (r: Self)
        ensures
            r == direction_of(delta),
    {
        if delta > 0 {
            Direction::Up
        } else {
            Direction::Down
        }
    }
}

/// The abstract state of the direction lock.
#[derive(Debug, Clone, Copy, PartialEq, Eq, Structural)]
pub struct DirLockView {
    /// The direction the current stroke is locked to, if any.
    pub locked: Option<Direction>,
    /// When the lock last accepted an event.
    pub last_event_ns: Option<u64>,
    /// Consecutive opposite-direction ticks swallowed so far.
    pub reverse_streak: u32,
}

/// The state with no locked direction and no timer.
pub open spec fn fresh_lock() -> DirLockView {
    DirLockView { locked: None, last_event_ns: None, reverse_streak: 0 }
}

/// Whole milliseconds from `last` to `now` (zero when `now` is earlier).
pub open spec fn elapsed_ms(last: u64, now: u64) -> int {
    let ns: int = if now >= last { now - last } else { 0 };
    ns / 1_000_000
}

/// The lock is released by idleness: it has a timestamp and at least
/// `timeout_ms` milliseconds have passed since it.
pub open spec fn idle_expired(s: DirLockView, timeout_ms: u32, now: u64) -> bool {
    match s.last_event_ns {
        Some(last) => elapsed_ms(last, now) >= timeout_ms,
        None => false,
    }
}

/// The state an event sees: the fresh state once the lock has idled out.
pub open spec fn after_idle(s: DirLockView, timeout_ms: u32, now: u64) -> DirLockView {
    if idle_expired(s, timeout_ms, now) {
        fresh_lock()
    } else {
        s
    }
}

/// One wheel event through the direction lock: the next state, and whether
/// the event passes (`true`) or is swallowed (`false`).
pub open spec fn lock_step(s: DirLockView, delta: i32, timeout_ms: u32, now: u64) -> (DirLockView, bool) {
    let d = direction_of(delta);
    let s1 = after_idle(s, timeout_ms, now);
    let locked_now = DirLockView { locked: Some(d), last_event_ns: Some(now), reverse_streak: 0 };
    match s1.locked {
        None => (locked_now, true),
        Some(l) => if l == d {
            (locked_now, true)
        } else if s1.reverse_streak + 1 >= REVERSE_TICKS_TO_FLIP {
            (locked_now, true)
        } else {
            (DirLockView { reverse_streak: (s1.reverse_streak + 1) as u32, ..s1 }, false)
        },
    }
}

/// A state the lock can be in: the streak stays below the flip count.
pub open spec fn lock_wf(s: DirLockView) -> bool {
    s.reverse_streak < REVERSE_TICKS_TO_FLIP
}

/// Direction-lock state.
pub struct DirLockState {
    locked_direction: Option<Direction>,
    last_event_ns: Option<u64>,
    /// Consecutive opposite-direction ticks seen while locked. A single
    /// reverse tick is almost always wheel bounce, so the lock only flips
    /// after a sustained run of reverse ticks.
    reverse_streak: u32,
}

impl View for DirLockState {
    type V = DirLockView;

    closed spec fn view(&self) -> DirLockView {
        DirLockView {
            locked: self.locked_direction,
            last_event_ns: self.last_event_ns,
            reverse_streak: self.reverse_streak,
        }
    }
}

impl DirLockState {
    #[verifier::type_invariant]
    closed spec fn inv(self) -> bool {
        self.reverse_streak < REVERSE_TICKS_TO_FLIP
    }

    /// The initial state: no locked direction, no timer.
    pub fn new() -> (r: Self)
        ensures
            r@ == fresh_lock(),
    {
        DirLockState { locked_direction: None, last_event_ns: None, reverse_streak: 0 }
    }

    /// Reset to the initial state (no locked direction, no timer).
    pub fn reset(&mut self)
        ensures
            final(self)@ == fresh_lock(),
    {
        *self = DirLockState::new();
    }
}

/// Whole milliseconds from `last` to `now`, zero when `now` is earlier.
fn elapsed_whole_ms(last: u64, now: u64) -> (r: u64)
    ensures
        r == elapsed_ms(last, now),
{
    let ns: u64 = if now >= last { now - last } else { 0 };
    ns / 1_000_000
}

/// The direction-lock decision: returns true if the wheel event should be
/// allowed through, false to swallow it. Takes the lock state and the
/// event's time, so the idle timeout is driven by the caller's clock.
pub fn dir_lock_filter_logic(state: &mut DirLockState, delta: i32, timeout_ms: u32, now_ns: u64) -> (allowed: bool)
    ensures
        (final(state)@, allowed) == lock_step(old(state)@, delta, timeout_ms, now_ns),
        lock_wf(final(state)@),
{
    proof {
        use_type_invariant(&*state);
    }
    let event_dir = Direction::from_delta(delta);

    // Release the lock after the wheel has been idle for at least the
    // timeout, so a fresh stroke in either direction starts immediately.
    if let Some(last) = state.last_event_ns {
        let timeout: u64 = timeout_ms as u64;
        if elapsed_whole_ms(last, now_ns) >= timeout {
            state.reset();
        }
    }

    match state.locked_direction {
        None => {
            *state = DirLockState { locked_direction: Some(event_dir), last_event_ns: Some(now_ns), reverse_streak: 0 };
            true
        },
        Some(locked) => {
            if locked == event_dir {
                // Same direction: re-arm the idle timer, clear any bounce streak.
                *state = DirLockState { locked_direction: Some(event_dir), last_event_ns: Some(now_ns), reverse_streak: 0 };
                true
            } else {
                // Opposite direction: only a sustained run flips the lock;
                // an isolated tick is swallowed and leaves the lock and its
                // timestamp untouched.
                let streak = state.reverse_streak + 1;
                if streak >= REVERSE_TICKS_TO_FLIP {
                    *state = DirLockState { locked_direction: Some(event_dir), last_event_ns: Some(now_ns), reverse_streak: 0 };
                    true
                } else {
                    state.reverse_streak = streak;
                    false
                }
            }
        },
    }
}

/// The first event of a stroke (no locked direction) always passes and
/// locks its own direction.
pub proof fn law_first_event_passes(delta: i32, timeout_ms: u32, now: u64)
    ensures
        lock_step(fresh_lock(), delta, timeout_ms, now).1,
        lock_step(fresh_lock(), delta, timeout_ms, now).0.locked == Some(direction_of(delta)),
{
}

/// An event in the locked direction always passes, whatever the timing.
pub proof fn law_locked_direction_passes(s: DirLockView, delta: i32, timeout_ms: u32, now: u64)
    requires
        s.locked == Some(direction_of(delta)),
    ensures
        lock_step(s, delta, timeout_ms, now).1,
{
}

/// After the wheel has been idle for at least the timeout, any event passes
/// and locks its own direction.
pub proof fn law_idle_timeout_releases(s: DirLockView, delta: i32, timeout_ms: u32, now: u64)
    requires
        idle_expired(s, timeout_ms, now),
    ensures
        lock_step(s, delta, timeout_ms, now).1,
        lock_step(s, delta, timeout_ms, now).0.locked == Some(direction_of(delta)),
{
}

/// A single opposite tick while locked, within the timeout and with no
/// reverse streak, is swallowed as bounce; it leaves the locked direction
/// and its timestamp untouched.
pub proof fn law_single_reverse_tick_swallowed(s: DirLockView, delta: i32, timeout_ms: u32, now: u64)
    requires
        s.locked matches Some(l) && l != direction_of(delta),
        s.reverse_streak == 0,
        !idle_expired(s, timeout_ms, now),
    ensures
        !lock_step(s, delta, timeout_ms, now).1,
        lock_step(s, delta, timeout_ms, now).0.locked == s.locked,
        lock_step(s, delta, timeout_ms, now).0.last_event_ns == s.last_event_ns,
        lock_step(s, delta, timeout_ms, now).0.reverse_streak == 1,
{
}

/// A second consecutive tick in a swallowed tick's direction flips the lock
/// to that direction and passes: a sustained reversal is never suppressed
/// beyond its first tick.
pub proof fn law_second_reverse_tick_flips(
    s: DirLockView,
    delta1: i32,
    now1: u64,
    delta2: i32,
    now2: u64,
    timeout_ms: u32,
)
    requires
        !lock_step(s, delta1, timeout_ms, now1).1,
        direction_of(delta2) == direction_of(delta1),
    ensures
        lock_step(lock_step(s, delta1, timeout_ms, now1).0, delta2, timeout_ms, now2).1,
        lock_step(lock_step(s, delta1, timeout_ms, now1).0, delta2, timeout_ms, now2).0.locked
            == Some(direction_of(delta2)),
{
}

/// The event right after a swallowed one always passes, in either
/// direction and at any time: the filter never swallows two events in a row.
pub proof fn law_no_two_swallowed_in_a_row(
    s: DirLockView,
    delta1: i32,
    now1: u64,
    delta2: i32,
    now2: u64,
    timeout_ms: u32,
)
    requires
        !lock_step(s, delta1, timeout_ms, now1).1,
    ensures
        lock_step(lock_step(s, delta1, timeout_ms, now1).0, delta2, timeout_ms, now2).1,
{
}

/// A passed event leaves the lock on its own direction with the timer
/// re-armed at its time and no streak; a swallowed event leaves the lock
/// on the opposite direction with the timer untouched.
pub proof fn law_step_outcome(s: DirLockView, delta: i32, timeout_ms: u32, now: u64)
    ensures
        ({
            let (t, allowed) = lock_step(s, delta, timeout_ms, now);
            if allowed {
                t == DirLockView { locked: Some(direction_of(delta)), last_event_ns: Some(now), reverse_streak: 0 }
            } else {
                &&& t.locked is Some
                &&& t.locked != Some(direction_of(delta))
                &&& t.last_event_ns == s.last_event_ns
                &&& t.reverse_streak == 1
            }
        }),
{
}

/// Every step keeps the reverse streak below the flip count.
pub proof fn law_step_keeps_wf(s: DirLockView, delta: i32, timeout_ms: u32, now: u64)
    ensures
        lock_wf(lock_step(s, delta, timeout_ms, now).0),
{
}

/// The idle release uses the timeout actually given: when the lock has a
/// timestamp and at least `timeout_ms` whole milliseconds have passed since
/// it, any event passes and locks its own direction with the timer re-armed
/// at its time.
pub proof fn law_idle_release_uses_given_timeout(s: DirLockView, delta: i32, timeout_ms: u32, now: u64)
    requires
        s.last_event_ns matches Some(last) && now >= last && (now - last) / 1_000_000 >= timeout_ms,
    ensures
        lock_step(s, delta, timeout_ms, now).1,
        lock_step(s, delta, timeout_ms, now).0 == (DirLockView {
            locked: Some(if delta > 0 { Direction::Up } else { Direction::Down }),
            last_event_ns: Some(now),
            reverse_streak: 0,
        }),
{
}

/// Below the timeout actually given the lock holds: with fewer than
/// `timeout_ms` whole milliseconds since its timestamp (a clock that went
/// backwards counts as none), a first reverse tick is swallowed and the
/// lock, its timestamp and its direction stay as they were.
pub proof fn law_reverse_tick_within_given_timeout_swallowed(s: DirLockView, delta: i32, timeout_ms: u32, now: u64)
    requires
        s.locked == Some(if delta > 0 { Direction::Down } else { Direction::Up }),
        s.reverse_streak == 0,
        s.last_event_ns matches Some(last) && (if now >= last { now - last } else { 0 }) / 1_000_000 < timeout_ms,
    ensures
        !lock_step(s, delta, timeout_ms, now).1,
        lock_step(s, delta, timeout_ms, now).0 == (DirLockView { reverse_streak: 1, ..s }),
{
}

/// A positive delta scrolls up; zero or a negative delta scrolls down.
pub proof fn law_direction_of_delta(delta: i32)
    ensures
        delta > 0 ==> direction_of(delta) == Direction::Up,
        delta <= 0 ==> direction_of(delta) == Direction::Down,
{
}

/// A tick in the locked direction passes, re-arms the timer at its time and
/// clears any streak; a second reverse tick in a row (within the timeout)
/// flips the lock to its own direction and passes.
pub proof fn law_locked_and_flip_steps(s: DirLockView, delta: i32, timeout_ms: u32, now: u64)
    requires
        s.last_event_ns matches Some(last) && now >= last && (now - last) / 1_000_000 < timeout_ms,
        s.locked is Some,
        s.reverse_streak == 0 || s.reverse_streak == 1,
    ensures
        s.locked == Some(if delta > 0 { Direction::Up } else { Direction::Down }) || s.reverse_streak == 1
            ==> lock_step(s, delta, timeout_ms, now) == (DirLockView {
                locked: Some(if delta > 0 { Direction::Up } else { Direction::Down }),
                last_event_ns: Some(now),
                reverse_streak: 0,
            }, true),
{
}

/// The fresh lock holds no direction, no timestamp and no streak.
pub proof fn law_fresh_lock_is_empty()
    ensures
        fresh_lock().locked is None,
        fresh_lock().last_event_ns is None,
        fresh_lock().reverse_streak == 0,
        REVERSE_TICKS_TO_FLIP == 2,
{
}

} // verus!
