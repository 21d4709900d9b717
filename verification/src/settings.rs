//! The settings window's editing model: the local mirrors of the settings
//! it shows, direct value entry, keyboard nudging and focus cycling, and
//! the mode toggles. Rendering and the native window stay with the GUI.

use vstd::prelude::*;
use crate::config::{
    Config, WheelMode, DIR_LOCK_TIMEOUT_MAX_MS, DIR_LOCK_TIMEOUT_MIN_MS, clamp_timeout,
};
use crate::hook::{HookStatus, SharedState};
use crate::text::{decimal, push_char, push_decimal};

verus! {

/// Longest value that can be typed into the value chip, in characters.
pub const MAX_TYPED_DIGITS: usize = 4;

/// Which numeric slider the user is interacting with.
#[derive(Debug, Clone, Copy, PartialEq, Eq, Structural)]
pub enum SliderKind {
    Timeout,
}

impl SliderKind {
    /// The label above the slider.
    pub fn label(self) -> (r: &'static str)
        ensures
            r@ == "Scroll timeout"@,
    {
        match self {
            SliderKind::Timeout => "Scroll timeout",
        }
    }

    /// Arrow-key nudge step, in the slider's native units (5 ms per press).
    pub fn nudge_step(self) -> (r: i32)
        ensures
            r == 5,
    {
        match self {
            SliderKind::Timeout => 5,
        }
    }

    /// Valid value range, in the slider's native units.
    pub fn nudge_range(self) -> (r: (i32, i32))
        ensures
            r == (DIR_LOCK_TIMEOUT_MIN_MS as i32, DIR_LOCK_TIMEOUT_MAX_MS as i32),
    {
        match self {
            SliderKind::Timeout => (50, 1000),
        }
    }
}

/// A decimal digit character.
pub open spec fn is_digit(c: char) -> bool {
    48 <= c as u32 <= 57
}

/// What the value chip can hold while typing: at most four digits.
pub open spec fn buffer_ok(b: Seq<char>) -> bool {
    b.len() <= MAX_TYPED_DIGITS && forall|i: int| 0 <= i < b.len() ==> is_digit(#[trigger] b[i])
}

/// The number that a run of decimal digits spells.
pub open spec fn digits_value(cs: Seq<char>) -> nat
    decreases cs.len(),
{
    if cs.len() == 0 {
        0
    } else {
        digits_value(cs.drop_last()) * 10 + (cs.last() as u32 - 48) as nat
    }
}

/// Ten to the power `n`.
pub open spec fn pow10(n: nat) -> nat
    decreases n,
{
    if n == 0 {
        1
    } else {
        10 * pow10((n - 1) as nat)
    }
}

/// A run of `n` digits spells a number below `10^n`.
pub proof fn lemma_digits_value_bound(cs: Seq<char>)
    requires
        forall|i: int| 0 <= i < cs.len() ==> is_digit(#[trigger] cs[i]),
    ensures
        digits_value(cs) < pow10(cs.len()),
    decreases cs.len(),
{
    if cs.len() > 0 {
        let init = cs.drop_last();
        assert forall|i: int| 0 <= i < init.len() implies is_digit(#[trigger] init[i]) by {
            assert(init[i] == cs[i]);
        }
        lemma_digits_value_bound(init);
        assert(is_digit(cs[cs.len() - 1]));
    }
}

/// The `i32` that a `u32` reinterprets as (two's complement).
pub open spec fn as_signed(t: u32) -> i32 {
    if t <= 0x7fff_ffff {
        t as i32
    } else {
        (t - 0x1_0000_0000) as i32
    }
}

/// `v` clamped into `[lo, hi]`.
pub open spec fn clamp_i32(v: int, lo: i32, hi: i32) -> i32 {
    if v < lo {
        lo
    } else if v > hi {
        hi
    } else {
        v as i32
    }
}

/// The abstract state of the settings window.
pub struct SettingsModelView {
    /// Local mirror of the wheel mode.
    pub wheel_mode: WheelMode,
    /// Local mirror of the direction-lock timeout.
    pub dir_lock_timeout_ms: u32,
    /// Local mirror of the autostart-on-login setting.
    pub autostart: bool,
    /// Local mirror of the hook status (drives the failure banner).
    pub hook_status: HookStatus,
    /// Which value is being typed directly, if any.
    pub editing: Option<SliderKind>,
    /// Which slider has keyboard focus, so arrow keys can nudge it.
    pub focused_slider: Option<SliderKind>,
    /// The digits typed so far.
    pub edit_buffer: Seq<char>,
    /// When autostart was last read from the registry (Unix seconds).
    pub last_autostart_check: Option<u64>,
}

/// What the settings window does after an input.
#[derive(Debug, Clone, Copy, PartialEq, Eq, Structural)]
pub struct InputOutcome {
    /// The window must be redrawn.
    pub redraw: bool,
    /// The window must close (it has already withdrawn its rectangle from
    /// the shared state).
    pub close: bool,
    /// Settings to persist, when the input changed them.
    pub persist: Option<Config>,
}

/// The settings window's editing model.
pub struct SettingsModel {
    wheel_mode: WheelMode,
    dir_lock_timeout_ms: u32,
    autostart: bool,
    hook_status: HookStatus,
    editing: Option<SliderKind>,
    focused_slider: Option<SliderKind>,
    edit_buffer: Vec<char>,
    last_autostart_check: Option<u64>,
}

impl View for SettingsModel {
    type V = SettingsModelView;

    closed spec fn view(&self) -> SettingsModelView {
        SettingsModelView {
            wheel_mode: self.wheel_mode,
            dir_lock_timeout_ms: self.dir_lock_timeout_ms,
            autostart: self.autostart,
            hook_status: self.hook_status,
            editing: self.editing,
            focused_slider: self.focused_slider,
            edit_buffer: self.edit_buffer@,
            last_autostart_check: self.last_autostart_check,
        }
    }
}

/// The settings the window shows.
pub open spec fn config_of(v: SettingsModelView) -> Config {
    Config { wheel_mode: v.wheel_mode, direction_lock_timeout_ms: v.dir_lock_timeout_ms }
}

/// The sliders visible in the window, in visual order: the timeout slider
/// while direction lock is on, none otherwise.
pub open spec fn visible_sliders_of(v: SettingsModelView) -> Seq<SliderKind> {
    if v.wheel_mode == WheelMode::DirectionLock {
        seq![SliderKind::Timeout]
    } else {
        seq![]
    }
}

/// Starting direct entry: only while direction lock is on; entry starts
/// from an empty buffer and focuses the slider.
pub open spec fn start_edit_step(v: SettingsModelView, kind: SliderKind) -> SettingsModelView {
    if v.wheel_mode != WheelMode::DirectionLock {
        v
    } else {
        SettingsModelView { editing: Some(kind), focused_slider: Some(kind), edit_buffer: seq![], ..v }
    }
}

/// Committing direct entry ends it. An empty buffer cancels; typed digits
/// set the timeout, clamped to its range, and the settings are persisted.
pub open spec fn commit_step(v: SettingsModelView) -> (SettingsModelView, Option<Config>) {
    match v.editing {
        None => (v, None),
        Some(_) => if v.edit_buffer.len() == 0 {
            (SettingsModelView { editing: None, ..v }, None)
        } else {
            let t = clamp_timeout(digits_value(v.edit_buffer) as u32);
            let w = SettingsModelView { editing: None, edit_buffer: seq![], dir_lock_timeout_ms: t, ..v };
            (w, Some(config_of(w)))
        },
    }
}

/// Nudging the focused slider by `direction` steps: only while direction
/// lock is on and a slider has focus; the value is clamped to its range and
/// the settings are persisted.
pub open spec fn nudge_step_of(v: SettingsModelView, direction: i32) -> (SettingsModelView, Option<Config>) {
    if v.wheel_mode != WheelMode::DirectionLock || v.focused_slider is None {
        (v, None)
    } else {
        let next = clamp_i32(as_signed(v.dir_lock_timeout_ms) + direction * 5, 50, 1000);
        let w = SettingsModelView { dir_lock_timeout_ms: next as u32, ..v };
        (w, Some(config_of(w)))
    }
}

/// A nudge of `direction` steps, when it moves the slider at all, stays
/// within `i32`.
pub open spec fn nudge_in_range(v: SettingsModelView, direction: i32) -> bool {
    v.wheel_mode == WheelMode::DirectionLock && v.focused_slider is Some ==> {
        &&& -0x8000_0000 <= direction * 5 <= 0x7fff_ffff
        &&& -0x8000_0000 <= as_signed(v.dir_lock_timeout_ms) + direction * 5 <= 0x7fff_ffff
    }
}

/// Tab / Shift-Tab: focus moves to the next / previous visible slider
/// (from the first when none of them has focus); nothing happens when no
/// slider is visible.
pub open spec fn cycle_step(v: SettingsModelView, backwards: bool) -> SettingsModelView {
    let sliders = visible_sliders_of(v);
    let n = sliders.len() as int;
    if n == 0 {
        v
    } else {
        let idx: int = match v.focused_slider {
            Some(f) => if sliders.contains(f) { choose|i: int| 0 <= i < n && sliders[i] == f } else { 0 },
            None => 0,
        };
        let next = if backwards { (idx + n - 1) % n } else { (idx + 1) % n };
        SettingsModelView { focused_slider: Some(sliders[next]), ..v }
    }
}

/// The slider's value as shown on its chip, e.g. `500 ms`.
pub open spec fn value_text(v: SettingsModelView) -> Seq<char> {
    decimal(v.dir_lock_timeout_ms as nat) + " ms"@
}

/// The value chip's text: while typing into it, the typed digits (or the
/// current value when nothing is typed yet) followed by a `|` cursor;
/// otherwise the value.
pub open spec fn chip_text(v: SettingsModelView, kind: SliderKind) -> Seq<char> {
    if v.editing == Some(kind) {
        if v.edit_buffer.len() == 0 {
            value_text(v) + "|"@
        } else {
            v.edit_buffer + "|"@
        }
    } else {
        value_text(v)
    }
}

/// Typing `typed` into the chip: accepted when it is all digits and the
/// buffer then holds at most four characters.
pub open spec fn accepts_typed(v: SettingsModelView, typed: Seq<char>) -> bool {
    &&& forall|i: int| 0 <= i < typed.len() ==> is_digit(#[trigger] typed[i])
    &&& v.edit_buffer.len() + typed.len() <= MAX_TYPED_DIGITS
}

/// One key press in the settings window, given the key's name, the text it
/// types (if any) and whether Shift is held.
///
/// While typing into the value chip: Enter commits, Escape cancels,
/// Backspace deletes the last digit, and digits are appended (see
/// `accepts_typed`). Otherwise: Left/Up nudge the focused slider down,
/// Right/Down nudge it up, Tab cycles focus (backwards with Shift), and
/// Escape closes the window.
pub open spec fn key_step(
    v: SettingsModelView,
    key: Seq<char>,
    typed: Option<Seq<char>>,
    shift: bool,
) -> (SettingsModelView, InputOutcome) {
    let quiet = InputOutcome { redraw: false, close: false, persist: None };
    let redraw = InputOutcome { redraw: true, close: false, persist: None };
    if v.editing is Some {
        if key == "enter"@ {
            let (w, p) = commit_step(v);
            (w, InputOutcome { redraw: true, close: false, persist: p })
        } else if key == "escape"@ {
            (SettingsModelView { editing: None, edit_buffer: seq![], ..v }, redraw)
        } else if key == "backspace"@ {
            (SettingsModelView { edit_buffer: if v.edit_buffer.len() == 0 { v.edit_buffer } else { v.edit_buffer.drop_last() }, ..v }, redraw)
        } else {
            match typed {
                Some(t) => if accepts_typed(v, t) {
                    (SettingsModelView { edit_buffer: v.edit_buffer + t, ..v }, redraw)
                } else {
                    (v, quiet)
                },
                None => (v, quiet),
            }
        }
    } else {
        if key == "left"@ || key == "up"@ {
            let (w, p) = nudge_step_of(v, -1i32);
            (w, InputOutcome { redraw: true, close: false, persist: p })
        } else if key == "right"@ || key == "down"@ {
            let (w, p) = nudge_step_of(v, 1i32);
            (w, InputOutcome { redraw: true, close: false, persist: p })
        } else if key == "tab"@ {
            (cycle_step(v, shift), redraw)
        } else if key == "escape"@ {
            (v, InputOutcome { redraw: false, close: true, persist: None })
        } else {
            (v, quiet)
        }
    }
}

/// A key press's nudge, when it moves the slider, stays within `i32`.
pub open spec fn key_nudge_in_range(v: SettingsModelView, key: Seq<char>) -> bool {
    v.editing is None ==> {
        &&& (key == "left"@ || key == "up"@) ==> nudge_in_range(v, -1i32)
        &&& !(key == "left"@ || key == "up"@) && (key == "right"@ || key == "down"@) ==> nudge_in_range(v, 1i32)
    }
}

/// The Scroll Lock button: toggles between scroll lock and pass-through;
/// any direct entry is abandoned and the settings are persisted.
pub open spec fn scroll_lock_toggled(v: SettingsModelView) -> SettingsModelView {
    SettingsModelView {
        wheel_mode: if v.wheel_mode == WheelMode::Disable { WheelMode::Off } else { WheelMode::Disable },
        editing: None,
        edit_buffer: seq![],
        ..v
    }
}

/// The Direction Lock button: toggles between direction lock and
/// pass-through; any direct entry is abandoned and the settings are
/// persisted.
pub open spec fn direction_lock_toggled(v: SettingsModelView) -> SettingsModelView {
    SettingsModelView {
        wheel_mode: if v.wheel_mode == WheelMode::DirectionLock { WheelMode::Off } else { WheelMode::DirectionLock },
        editing: None,
        edit_buffer: seq![],
        ..v
    }
}

/// Re-reading the shared settings: the mirrors take the shared values;
/// reports whether any of them changed.
pub open spec fn refreshed(v: SettingsModelView, wheel_mode: WheelMode, dir_lock_timeout_ms: u32, hook_status: HookStatus) -> (SettingsModelView, bool) {
    (
        SettingsModelView { wheel_mode, dir_lock_timeout_ms, hook_status, ..v },
        wheel_mode != v.wheel_mode || dir_lock_timeout_ms != v.dir_lock_timeout_ms || hook_status != v.hook_status,
    )
}

/// The autostart registry value is re-read at most once per second: when it
/// was never read, or at least a second has passed (by the seconds clock).
pub open spec fn autostart_due(v: SettingsModelView, now_secs: u64) -> bool {
    match v.last_autostart_check {
        None => true,
        Some(s) => now_secs >= s && now_secs - s >= 1,
    }
}

impl SettingsModel {
    #[verifier::type_invariant]
    closed spec fn inv(self) -> bool {
        buffer_ok(self.edit_buffer@)
    }

    /// A model seeded with the shared settings and the autostart state, with
    /// nothing being edited or focused.
    pub fn new(wheel_mode: WheelMode, dir_lock_timeout_ms: u32, autostart: bool, hook_status: HookStatus) -> (r: Self)
        ensures
            r@ == (SettingsModelView {
                wheel_mode,
                dir_lock_timeout_ms,
                autostart,
                hook_status,
                editing: None,
                focused_slider: None,
                edit_buffer: seq![],
                last_autostart_check: None,
            }),
    {
        SettingsModel {
            wheel_mode,
            dir_lock_timeout_ms,
            autostart,
            hook_status,
            editing: None,
            focused_slider: None,
            edit_buffer: Vec::new(),
            last_autostart_check: None,
        }
    }

    /// The settings the window shows.
    pub fn current_config(&self) -> (r: Config)
        ensures
            r == config_of(self@),
    {
        Config { wheel_mode: self.wheel_mode, direction_lock_timeout_ms: self.dir_lock_timeout_ms }
    }

    /// Publish the window's settings to the shared state and return them
    /// for persisting.
    pub fn save_and_sync(&self, shared: &SharedState) -> (r: Config)
        ensures
            r == config_of(self@),
    {
        shared.set_wheel_mode(self.wheel_mode);
        shared.set_dir_lock_timeout_ms(self.dir_lock_timeout_ms);
        self.current_config()
    }

    /// Start typing a value directly into the slider's value chip.
    pub fn start_edit(&mut self, kind: SliderKind)
        ensures
            final(self)@ == start_edit_step(old(self)@, kind),
    {
        proof {
            use_type_invariant(&*self);
        }
        if self.wheel_mode != WheelMode::DirectionLock {
            return;
        }
        self.editing = Some(kind);
        self.focused_slider = Some(kind);
        self.edit_buffer = Vec::new();
    }

    /// Abandon direct entry, keeping the current value.
    pub fn cancel_edit(&mut self)
        ensures
            final(self)@ == (SettingsModelView { editing: None, edit_buffer: seq![], ..old(self)@ }),
    {
        proof {
            use_type_invariant(&*self);
        }
        self.editing = None;
        self.edit_buffer = Vec::new();
    }

    /// Commit the typed value (see `commit_step`), publishing it to the
    /// shared state when it changed the settings.
    pub fn commit_edit(&mut self, shared: &SharedState) -> (r: Option<Config>)
        ensures
            (final(self)@, r) == commit_step(old(self)@),
    {
        proof {
            use_type_invariant(&*self);
        }
        if self.editing.is_none() {
            return None;
        }
        self.editing = None;
        if self.edit_buffer.len() == 0 {
            return None;
        }
        let typed = parse_digits(&self.edit_buffer);
        let t = if typed < DIR_LOCK_TIMEOUT_MIN_MS {
            DIR_LOCK_TIMEOUT_MIN_MS
        } else if typed > DIR_LOCK_TIMEOUT_MAX_MS {
            DIR_LOCK_TIMEOUT_MAX_MS
        } else {
            typed
        };
        self.dir_lock_timeout_ms = t;
        self.edit_buffer = Vec::new();
        Some(self.save_and_sync(shared))
    }

    /// The slider's value in its native units.
    fn value_for(&self, kind: SliderKind) -> (r: i32)
        ensures
            r == as_signed(self@.dir_lock_timeout_ms),
    {
        match kind {
            SliderKind::Timeout => {
                let t = self.dir_lock_timeout_ms;
                if t <= 0x7fff_ffff {
                    t as i32
                } else {
                    let high: i32 = (t - 0x8000_0000) as i32;
                    high - 0x7fff_ffff - 1
                }
            },
        }
    }

    /// Set the slider's value from a value within its range.
    fn set_value(&mut self, kind: SliderKind, value: i32)
        requires
            DIR_LOCK_TIMEOUT_MIN_MS <= value <= DIR_LOCK_TIMEOUT_MAX_MS,
        ensures
            final(self)@ == (SettingsModelView { dir_lock_timeout_ms: value as u32, ..old(self)@ }),
    {
        proof {
            use_type_invariant(&*self);
        }
        match kind {
            SliderKind::Timeout => self.dir_lock_timeout_ms = value as u32,
        }
    }

    /// Move the focused slider by `direction` nudge steps and publish the
    /// change (see `nudge_step_of`).
    pub fn nudge_focused(&mut self, direction: i32, shared: &SharedState) -> (r: Option<Config>)
        requires
            nudge_in_range(old(self)@, direction),
        ensures
            (final(self)@, r) == nudge_step_of(old(self)@, direction),
    {
        if self.wheel_mode != WheelMode::DirectionLock {
            return None;
        }
        let kind = match self.focused_slider {
            Some(k) => k,
            None => return None,
        };
        let (min, max) = kind.nudge_range();
        let moved = self.value_for(kind) + direction * kind.nudge_step();
        let next = if moved < min {
            min
        } else if moved > max {
            max
        } else {
            moved
        };
        self.set_value(kind, next);
        Some(self.save_and_sync(shared))
    }

    /// Whether nudging by `direction` steps stays within `i32` (the
    /// condition `nudge_focused` needs).
    pub fn nudge_fits(&self, direction: i32) -> (r: bool)
        ensures
            r == nudge_in_range(self@, direction),
    {
        if self.wheel_mode != WheelMode::DirectionLock || self.focused_slider.is_none() {
            return true;
        }
        let step: i64 = direction as i64 * 5;
        let moved: i64 = self.value_for(SliderKind::Timeout) as i64 + step;
        -0x8000_0000 <= step && step <= 0x7fff_ffff && -0x8000_0000 <= moved && moved <= 0x7fff_ffff
    }

    /// Whether a stepper click of `delta` steps stays within `i32` (the
    /// condition `step_timeout` needs).
    pub fn step_fits(&self, delta: i32) -> (r: bool)
        ensures
            r == nudge_in_range(SettingsModelView { focused_slider: Some(SliderKind::Timeout), ..self@ }, delta),
    {
        if self.wheel_mode != WheelMode::DirectionLock {
            return true;
        }
        let step: i64 = delta as i64 * 5;
        let moved: i64 = self.value_for(SliderKind::Timeout) as i64 + step;
        -0x8000_0000 <= step && step <= 0x7fff_ffff && -0x8000_0000 <= moved && moved <= 0x7fff_ffff
    }

    /// Whether the nudge a key press makes stays within `i32` (the
    /// condition `handle_key` needs).
    pub fn key_fits(&self, key: &str) -> (r: bool)
        ensures
            r == key_nudge_in_range(self@, key@),
    {
        if self.editing.is_some() {
            return true;
        }
        let k = key.to_owned();
        if k == "left".to_owned() || k == "up".to_owned() {
            self.nudge_fits(-1)
        } else if k == "right".to_owned() || k == "down".to_owned() {
            self.nudge_fits(1)
        } else {
            true
        }
    }

    /// One click of the timeout stepper's minus (`-1`) or plus (`1`)
    /// button: focus the timeout slider and nudge it.
    pub fn step_timeout(&mut self, delta: i32, shared: &SharedState) -> (r: Option<Config>)
        requires
            nudge_in_range(SettingsModelView { focused_slider: Some(SliderKind::Timeout), ..old(self)@ }, delta),
        ensures
            (final(self)@, r) == nudge_step_of(
                SettingsModelView { focused_slider: Some(SliderKind::Timeout), ..old(self)@ },
                delta,
            ),
    {
        proof {
            use_type_invariant(&*self);
        }
        self.focused_slider = Some(SliderKind::Timeout);
        self.nudge_focused(delta, shared)
    }

    /// The slider's value as shown on its chip, e.g. `500 ms`.
    pub fn value_display(&self, kind: SliderKind) -> (r: String)
        ensures
            r@ == value_text(self@),
    {
        let mut s = String::new();
        match kind {
            SliderKind::Timeout => {
                push_decimal(&mut s, self.dir_lock_timeout_ms as u64);
                s.append(" ms");
            },
        }
        proof {
            reveal_strlit(" ms");
            assert(s@ =~= value_text(self@));
        }
        s
    }

    /// The value chip's text (see `chip_text`).
    pub fn value_chip_text(&self, kind: SliderKind) -> (r: String)
        ensures
            r@ == chip_text(self@, kind),
    {
        if self.editing == Some(kind) {
            let mut s = if self.edit_buffer.len() == 0 {
                self.value_display(kind)
            } else {
                let mut b = String::new();
                let mut i: usize = 0;
                while i < self.edit_buffer.len()
                    invariant
                        i <= self.edit_buffer@.len(),
                        b@ == self.edit_buffer@.take(i as int),
                    decreases self.edit_buffer@.len() - i,
                {
                    let c = self.edit_buffer[i];
                    push_char(&mut b, c);
                    i = i + 1;
                    proof {
                        assert(b@ =~= self.edit_buffer@.take(i as int));
                    }
                }
                proof {
                    assert(self.edit_buffer@.take(i as int) =~= self.edit_buffer@);
                }
                b
            };
            s.append("|");
            s
        } else {
            self.value_display(kind)
        }
    }

    /// Handle one key press (see `key_step`). Escape outside direct entry
    /// withdraws the window's rectangle from the shared state before the
    /// window closes; settings that change are published to it.
    pub fn handle_key(&mut self, key: &str, typed: Option<&str>, shift: bool, shared: &SharedState) -> (r: InputOutcome)
        requires
            key_nudge_in_range(old(self)@, key@),
        ensures
            (final(self)@, r) == key_step(old(self)@, key@, match typed {
                Some(t) => Some(t@),
                None => None,
            }, shift),
            buffer_ok(final(self)@.edit_buffer),
    {
        proof {
            use_type_invariant(&*self);
            reveal_strlit("enter");
            reveal_strlit("escape");
            reveal_strlit("backspace");
            reveal_strlit("left");
            reveal_strlit("up");
            reveal_strlit("right");
            reveal_strlit("down");
            reveal_strlit("tab");
        }
        let quiet = InputOutcome { redraw: false, close: false, persist: None };
        let redraw = InputOutcome { redraw: true, close: false, persist: None };
        let k = key.to_owned();
        let outcome = if self.editing.is_some() {
            if k == "enter".to_owned() {
                let p = self.commit_edit(shared);
                InputOutcome { redraw: true, close: false, persist: p }
            } else if k == "escape".to_owned() {
                self.cancel_edit();
                redraw
            } else if k == "backspace".to_owned() {
                let n = self.edit_buffer.len();
                if n > 0 {
                    self.edit_buffer = copy_prefix(&self.edit_buffer, n - 1);
                }
                redraw
            } else {
                match typed {
                    Some(t) => if self.type_digits(t) {
                        redraw
                    } else {
                        quiet
                    },
                    None => quiet,
                }
            }
        } else {
            if k == "left".to_owned() || k == "up".to_owned() {
                let p = self.nudge_focused(-1, shared);
                InputOutcome { redraw: true, close: false, persist: p }
            } else if k == "right".to_owned() || k == "down".to_owned() {
                let p = self.nudge_focused(1, shared);
                InputOutcome { redraw: true, close: false, persist: p }
            } else if k == "tab".to_owned() {
                self.cycle_focus(shift);
                redraw
            } else if k == "escape".to_owned() {
                shared.set_settings_rect(None);
                InputOutcome { redraw: false, close: true, persist: None }
            } else {
                quiet
            }
        };
        proof {
            use_type_invariant(&*self);
        }
        outcome
    }

    /// Append typed text to the chip when it is all digits and fits;
    /// reports whether it was appended.
    fn type_digits(&mut self, typed: &str) -> (r: bool)
        ensures
            r == accepts_typed(old(self)@, typed@),
            final(self)@ == if r {
                SettingsModelView { edit_buffer: old(self)@.edit_buffer + typed@, ..old(self)@ }
            } else {
                old(self)@
            },
    {
        broadcast use vstd::string::group_string_axioms;

        proof {
            use_type_invariant(&*self);
        }
        let mut chars: Vec<char> = Vec::new();
        let ghost mut done: Seq<char> = Seq::empty();
        let mut all_digits = true;
        for c in it: typed.chars()
            invariant
                it.seq() == typed@,
                done == it.seq().take(it.index() as int),
                chars@ == done,
                all_digits == forall|i: int| 0 <= i < done.len() ==> is_digit(#[trigger] done[i]),
        {
            let ghost prev = done;
            let ghost prev_all = all_digits;
            proof {
                assert(done.push(c) =~= it.seq().take(it.index() + 1));
                done = done.push(c);
            }
            let code: u32 = c as u32;
            if !(48 <= code && code <= 57) {
                all_digits = false;
            }
            chars.push(c);
            proof {
                assert(done.drop_last() =~= prev);
                if all_digits {
                    assert forall|i: int| 0 <= i < done.len() implies is_digit(#[trigger] done[i]) by {
                        if i < prev.len() {
                            assert(done[i] == prev[i]);
                        }
                    }
                } else if !prev_all {
                    assert(exists|i: int| 0 <= i < prev.len() && !is_digit(#[trigger] prev[i]));
                    let j = choose|i: int| 0 <= i < prev.len() && !is_digit(#[trigger] prev[i]);
                    assert(done[j] == prev[j]);
                } else {
                    assert(!is_digit(done[done.len() - 1]));
                }
            }
        }
        proof {
            assert(done =~= typed@);
        }
        if !all_digits || chars.len() > MAX_TYPED_DIGITS - self.edit_buffer.len() {
            return false;
        }
        let mut buf = copy_prefix(&self.edit_buffer, self.edit_buffer.len());
        let mut i: usize = 0;
        let ghost start = self.edit_buffer@;
        while i < chars.len()
            invariant
                i <= chars@.len(),
                chars@ == typed@,
                buf@ == start + chars@.take(i as int),
            decreases chars@.len() - i,
        {
            buf.push(chars[i]);
            i = i + 1;
            proof {
                assert(start + chars@.take(i as int) =~= (start + chars@.take(i - 1)).push(chars@[i - 1]));
            }
        }
        proof {
            assert(chars@.take(i as int) =~= typed@);
            assert forall|k: int| 0 <= k < buf@.len() implies is_digit(#[trigger] buf@[k]) by {
                if k < start.len() {
                    assert(buf@[k] == start[k]);
                } else {
                    assert(buf@[k] == typed@[k - start.len()]);
                }
            }
        }
        self.edit_buffer = buf;
        true
    }

    /// The Scroll Lock button (see `scroll_lock_toggled`); returns the
    /// settings to persist, already published to the shared state.
    pub fn toggle_scroll_lock(&mut self, shared: &SharedState) -> (r: Config)
        ensures
            final(self)@ == scroll_lock_toggled(old(self)@),
            r == config_of(final(self)@),
    {
        proof {
            use_type_invariant(&*self);
        }
        self.wheel_mode = if self.wheel_mode == WheelMode::Disable {
            WheelMode::Off
        } else {
            WheelMode::Disable
        };
        self.editing = None;
        self.edit_buffer = Vec::new();
        self.save_and_sync(shared)
    }

    /// The Direction Lock button (see `direction_lock_toggled`); returns the
    /// settings to persist, already published to the shared state.
    pub fn toggle_direction_lock(&mut self, shared: &SharedState) -> (r: Config)
        ensures
            final(self)@ == direction_lock_toggled(old(self)@),
            r == config_of(final(self)@),
    {
        proof {
            use_type_invariant(&*self);
        }
        self.wheel_mode = if self.wheel_mode == WheelMode::DirectionLock {
            WheelMode::Off
        } else {
            WheelMode::DirectionLock
        };
        self.editing = None;
        self.edit_buffer = Vec::new();
        self.save_and_sync(shared)
    }

    /// Take the values read from the shared state into the mirrors;
    /// reports whether anything changed (see `refreshed`).
    pub fn refresh_from_shared(&mut self, wheel_mode: WheelMode, dir_lock_timeout_ms: u32, hook_status: HookStatus) -> (changed: bool)
        ensures
            (final(self)@, changed) == refreshed(old(self)@, wheel_mode, dir_lock_timeout_ms, hook_status),
    {
        proof {
            use_type_invariant(&*self);
        }
        let mut changed = false;
        if wheel_mode != self.wheel_mode {
            self.wheel_mode = wheel_mode;
            changed = true;
        }
        if dir_lock_timeout_ms != self.dir_lock_timeout_ms {
            self.dir_lock_timeout_ms = dir_lock_timeout_ms;
            changed = true;
        }
        // The hook status isn't a user setting, but the failure banner
        // depends on it.
        if hook_status != self.hook_status {
            self.hook_status = hook_status;
            changed = true;
        }
        changed
    }

    /// Whether the autostart registry value should be re-read now
    /// (`now_secs`, Unix seconds); when it is due, the check is recorded.
    pub fn autostart_check_due(&mut self, now_secs: u64) -> (due: bool)
        ensures
            due == autostart_due(old(self)@, now_secs),
            final(self)@ == if due {
                SettingsModelView { last_autostart_check: Some(now_secs), ..old(self)@ }
            } else {
                old(self)@
            },
    {
        proof {
            use_type_invariant(&*self);
        }
        let due = match self.last_autostart_check {
            None => true,
            Some(s) => now_secs >= s && now_secs - s >= 1,
        };
        if due {
            self.last_autostart_check = Some(now_secs);
        }
        due
    }

    /// Take the autostart state read from the registry; reports whether it
    /// changed.
    pub fn refresh_autostart(&mut self, enabled: bool) -> (changed: bool)
        ensures
            changed == (enabled != old(self)@.autostart),
            final(self)@ == (SettingsModelView { autostart: enabled, ..old(self)@ }),
    {
        proof {
            use_type_invariant(&*self);
        }
        let changed = enabled != self.autostart;
        self.autostart = enabled;
        changed
    }

    /// The Start-with-Windows checkbox was set to `requested`; `succeeded`
    /// says whether updating the registry worked. On failure the checkbox
    /// reverts.
    pub fn autostart_toggled(&mut self, requested: bool, succeeded: bool)
        ensures
            final(self)@ == (SettingsModelView {
                autostart: if succeeded { requested } else { !requested },
                ..old(self)@
            }),
    {
        proof {
            use_type_invariant(&*self);
        }
        self.autostart = if succeeded { requested } else { !requested };
    }

    /// The wheel mode the window shows.
    pub fn wheel_mode(&self) -> (r: WheelMode)
        ensures
            r == self@.wheel_mode,
    {
        self.wheel_mode
    }

    /// The direction-lock timeout the window shows.
    pub fn dir_lock_timeout_ms(&self) -> (r: u32)
        ensures
            r == self@.dir_lock_timeout_ms,
    {
        self.dir_lock_timeout_ms
    }

    /// Whether the window shows autostart as enabled.
    pub fn autostart(&self) -> (r: bool)
        ensures
            r == self@.autostart,
    {
        self.autostart
    }

    /// The hook status the window shows.
    pub fn hook_status(&self) -> (r: HookStatus)
        ensures
            r == self@.hook_status,
    {
        self.hook_status
    }

    /// Which value is being typed directly, if any.
    pub fn editing(&self) -> (r: Option<SliderKind>)
        ensures
            r == self@.editing,
    {
        self.editing
    }

    /// Which slider has keyboard focus, if any.
    pub fn focused_slider(&self) -> (r: Option<SliderKind>)
        ensures
            r == self@.focused_slider,
    {
        self.focused_slider
    }

    /// The sliders currently visible, in visual order.
    pub fn visible_sliders(&self) -> (r: Vec<SliderKind>)
        ensures
            r@ == visible_sliders_of(self@),
    {
        let mut v: Vec<SliderKind> = Vec::new();
        if self.wheel_mode == WheelMode::DirectionLock {
            v.push(SliderKind::Timeout);
        }
        proof {
            assert(v@ =~= visible_sliders_of(self@));
        }
        v
    }

    /// Move keyboard focus to the next or previous visible slider.
    pub fn cycle_focus(&mut self, backwards: bool)
        ensures
            final(self)@ == cycle_step(old(self)@, backwards),
    {
        proof {
            use_type_invariant(&*self);
        }
        let sliders = self.visible_sliders();
        let n = sliders.len();
        if n == 0 {
            return;
        }
        let mut idx: usize = 0;
        if let Some(f) = self.focused_slider {
            let mut i: usize = 0;
            while i < n
                invariant
                    n == sliders@.len(),
                    i <= n,
                    forall|k: int| 0 <= k < i ==> sliders@[k] != f,
                decreases n - i,
            {
                if sliders[i] == f {
                    break;
                }
                i = i + 1;
            }
            if i < n {
                idx = i;
            }
            proof {
                if i < n {
                    assert(sliders@[i as int] == f);
                    assert(sliders@.contains(f));
                } else {
                    assert(!sliders@.contains(f));
                }
            }
        }
        let next = if backwards {
            (idx + n - 1) % n
        } else {
            (idx + 1) % n
        };
        self.focused_slider = Some(sliders[next]);
    }
}

/// The first `n` characters of `v`.
fn copy_prefix(v: &Vec<char>, n: usize) -> (r: Vec<char>)
    requires
        n <= v@.len(),
    ensures
        r@ == v@.take(n as int),
{
    let mut r: Vec<char> = Vec::new();
    let mut i: usize = 0;
    while i < n
        invariant
            i <= n <= v@.len(),
            r@ == v@.take(i as int),
        decreases n - i,
    {
        r.push(v[i]);
        i = i + 1;
        proof {
            assert(r@ =~= v@.take(i as int));
        }
    }
    r
}

/// The number that a buffer of at most four digits spells.
fn parse_digits(buf: &Vec<char>) -> (r: u32)
    requires
        buffer_ok(buf@),
    ensures
        r == digits_value(buf@),
{
    let mut v: u32 = 0;
    let mut i: usize = 0;
    while i < buf.len()
        invariant
            buffer_ok(buf@),
            i <= buf.len(),
            v == digits_value(buf@.take(i as int)),
        decreases buf.len() - i,
    {
        proof {
            let pre = buf@.take(i as int);
            assert forall|k: int| 0 <= k < pre.len() implies is_digit(#[trigger] pre[k]) by {
                assert(pre[k] == buf@[k]);
            }
            lemma_digits_value_bound(pre);
            reveal_with_fuel(pow10, 5);
            assert(pow10(pre.len()) <= 1000);
            assert(buf@.take(i + 1).drop_last() =~= pre);
            assert(is_digit(buf@[i as int]));
        }
        let d: u32 = buf[i] as u32 - 48;
        v = v * 10 + d;
        i = i + 1;
    }
    proof {
        assert(buf@.take(i as int) =~= buf@);
    }
    v
}

/// A committed value is always within the valid timeout range, and
/// committing ends direct entry.
pub proof fn law_commit_in_range(v: SettingsModelView)
    ensures
        commit_step(v).0.editing is None,
        commit_step(v).1 matches Some(c) ==> DIR_LOCK_TIMEOUT_MIN_MS <= c.direction_lock_timeout_ms <= DIR_LOCK_TIMEOUT_MAX_MS,
        commit_step(v).1 is None ==> commit_step(v).0.dir_lock_timeout_ms == v.dir_lock_timeout_ms,
{
}

/// No key press takes the value chip out of what it can hold: starting from
/// at most four digits, it still holds at most four digits afterwards.
pub proof fn law_key_keeps_buffer_ok(v: SettingsModelView, key: Seq<char>, typed: Option<Seq<char>>, shift: bool)
    requires
        buffer_ok(v.edit_buffer),
    ensures
        buffer_ok(key_step(v, key, typed, shift).0.edit_buffer),
{
    let w = key_step(v, key, typed, shift).0;
    if v.editing is Some && key != "enter"@ && key != "escape"@ {
        if key == "backspace"@ {
            if v.edit_buffer.len() > 0 {
                assert forall|i: int| 0 <= i < w.edit_buffer.len() implies is_digit(#[trigger] w.edit_buffer[i]) by {
                    assert(w.edit_buffer[i] == v.edit_buffer[i]);
                }
            }
        } else if let Some(t) = typed {
            if accepts_typed(v, t) {
                assert forall|i: int| 0 <= i < w.edit_buffer.len() implies is_digit(#[trigger] w.edit_buffer[i]) by {
                    if i < v.edit_buffer.len() {
                        assert(w.edit_buffer[i] == v.edit_buffer[i]);
                    } else {
                        assert(w.edit_buffer[i] == t[i - v.edit_buffer.len()]);
                    }
                }
            }
        }
    }
}

/// A typed value that is already in range is committed as typed.
pub proof fn law_commit_keeps_valid_value(v: SettingsModelView)
    requires
        v.editing is Some,
        v.edit_buffer.len() > 0,
        buffer_ok(v.edit_buffer),
        DIR_LOCK_TIMEOUT_MIN_MS <= digits_value(v.edit_buffer) <= DIR_LOCK_TIMEOUT_MAX_MS,
    ensures
        commit_step(v).0.dir_lock_timeout_ms == digits_value(v.edit_buffer),
{
}

/// A nudge that changes anything lands within the valid timeout range and
/// persists exactly what the window then shows.
pub proof fn law_nudge_in_range(v: SettingsModelView, direction: i32)
    ensures
        nudge_step_of(v, direction).1 matches Some(c) ==> {
            &&& DIR_LOCK_TIMEOUT_MIN_MS <= c.direction_lock_timeout_ms <= DIR_LOCK_TIMEOUT_MAX_MS
            &&& c == config_of(nudge_step_of(v, direction).0)
        },
        nudge_step_of(v, direction).1 is None ==> nudge_step_of(v, direction).0 == v,
{
}

/// A plus step then a minus step from an in-range value at least one step
/// inside the range returns to it.
pub proof fn law_nudge_up_down(v: SettingsModelView)
    requires
        v.wheel_mode == WheelMode::DirectionLock,
        v.focused_slider is Some,
        DIR_LOCK_TIMEOUT_MIN_MS <= v.dir_lock_timeout_ms <= DIR_LOCK_TIMEOUT_MAX_MS - 5,
    ensures
        nudge_step_of(nudge_step_of(v, 1i32).0, -1i32).0 == v,
{
}

/// Escape during direct entry keeps the current value.
pub proof fn law_escape_cancels_entry(v: SettingsModelView, typed: Option<Seq<char>>, shift: bool)
    requires
        v.editing is Some,
    ensures
        key_step(v, "escape"@, typed, shift).0.dir_lock_timeout_ms == v.dir_lock_timeout_ms,
        key_step(v, "escape"@, typed, shift).0.editing is None,
        key_step(v, "escape"@, typed, shift).1.persist is None,
{
    reveal_strlit("escape");
    reveal_strlit("enter");
    assert("escape"@.len() != "enter"@.len());
}

/// Direct entry can only start while direction lock is on.
pub proof fn law_entry_needs_direction_lock(v: SettingsModelView, kind: SliderKind)
    ensures
        start_edit_step(v, kind).editing is Some ==> v.editing is Some || v.wheel_mode == WheelMode::DirectionLock,
{
}

/// The Direction Lock button switches between direction lock and
/// pass-through: pressing it twice from either restores the mode. The
/// Scroll Lock button does the same between scroll lock and pass-through.
pub proof fn law_toggles_are_involutions(v: SettingsModelView)
    ensures
        v.wheel_mode != WheelMode::Disable ==> direction_lock_toggled(direction_lock_toggled(v)).wheel_mode == v.wheel_mode,
        v.wheel_mode != WheelMode::DirectionLock ==> scroll_lock_toggled(scroll_lock_toggled(v)).wheel_mode == v.wheel_mode,
{
}

/// Refreshing with the values already mirrored reports no change and
/// changes nothing.
pub proof fn law_refresh_unchanged(v: SettingsModelView)
    ensures
        refreshed(v, v.wheel_mode, v.dir_lock_timeout_ms, v.hook_status).0 == v,
        !refreshed(v, v.wheel_mode, v.dir_lock_timeout_ms, v.hook_status).1,
{
}

/// The Direction Lock button turns direction lock on from every other mode
/// and turns it off (to pass-through) when it is on; the Scroll Lock button
/// turns scroll lock on from every other mode and off (to pass-through) when
/// it is on. The timeout is kept, and the persisted settings are the new
/// mode with that timeout.
pub proof fn law_mode_buttons(v: SettingsModelView)
    ensures
        v.wheel_mode != WheelMode::DirectionLock ==> direction_lock_toggled(v).wheel_mode == WheelMode::DirectionLock,
        v.wheel_mode == WheelMode::DirectionLock ==> direction_lock_toggled(v).wheel_mode == WheelMode::Off,
        v.wheel_mode != WheelMode::Disable ==> scroll_lock_toggled(v).wheel_mode == WheelMode::Disable,
        v.wheel_mode == WheelMode::Disable ==> scroll_lock_toggled(v).wheel_mode == WheelMode::Off,
        config_of(direction_lock_toggled(v)).direction_lock_timeout_ms == v.dir_lock_timeout_ms,
        config_of(scroll_lock_toggled(v)).direction_lock_timeout_ms == v.dir_lock_timeout_ms,
        config_of(direction_lock_toggled(v)).wheel_mode == direction_lock_toggled(v).wheel_mode,
        config_of(scroll_lock_toggled(v)).wheel_mode == scroll_lock_toggled(v).wheel_mode,
{
}

/// Committing typed digits sets the timeout to the number they spell,
/// raised to 50 ms when below and lowered to 1000 ms when above, ends
/// direct entry with an empty chip and persists the mode with the new
/// timeout. Committing with nothing typed only ends direct entry.
pub proof fn law_commit_values(v: SettingsModelView)
    requires
        v.editing is Some,
        buffer_ok(v.edit_buffer),
    ensures
        ({
            let (w, p) = commit_step(v);
            let typed = digits_value(v.edit_buffer);
            let t: int = if typed < 50 { 50 } else if typed > 1000 { 1000 } else { typed as int };
            &&& w.editing is None
            &&& (v.edit_buffer.len() > 0 ==> {
                &&& w.dir_lock_timeout_ms == t
                &&& w.edit_buffer.len() == 0
                &&& p == Some(Config { wheel_mode: v.wheel_mode, direction_lock_timeout_ms: t as u32 })
            })
            &&& (v.edit_buffer.len() == 0 ==> w.dir_lock_timeout_ms == v.dir_lock_timeout_ms && p is None)
        }),
{
    lemma_digits_value_bound(v.edit_buffer);
    assert(pow10(v.edit_buffer.len()) <= 10000) by {
        reveal_with_fuel(pow10, 5);
    }
}

/// With direction lock on and the slider focused, Right and Down raise the
/// timeout by 5 ms and Left and Up lower it by 5 ms, stopping at 1000 ms and
/// 50 ms, and the new settings are persisted.
pub proof fn law_arrow_keys_nudge(v: SettingsModelView, typed: Option<Seq<char>>, shift: bool)
    requires
        v.editing is None,
        v.wheel_mode == WheelMode::DirectionLock,
        v.focused_slider is Some,
        50 <= v.dir_lock_timeout_ms <= 1000,
    ensures
        ({
            let t = v.dir_lock_timeout_ms as int;
            let up: int = if t + 5 > 1000 { 1000 } else { t + 5 };
            let down: int = if t - 5 < 50 { 50 } else { t - 5 };
            &&& key_step(v, "right"@, typed, shift).0.dir_lock_timeout_ms == up
            &&& key_step(v, "down"@, typed, shift).0.dir_lock_timeout_ms == up
            &&& key_step(v, "left"@, typed, shift).0.dir_lock_timeout_ms == down
            &&& key_step(v, "up"@, typed, shift).0.dir_lock_timeout_ms == down
            &&& key_step(v, "right"@, typed, shift).1.persist
                == Some(Config { wheel_mode: WheelMode::DirectionLock, direction_lock_timeout_ms: up as u32 })
            &&& key_step(v, "left"@, typed, shift).1.persist
                == Some(Config { wheel_mode: WheelMode::DirectionLock, direction_lock_timeout_ms: down as u32 })
        }),
{
    reveal_strlit("right");
    reveal_strlit("down");
    reveal_strlit("left");
    reveal_strlit("up");
    assert("down"@[0] != "left"@[0]);
    assert("right"@.len() != "left"@.len() && "right"@.len() != "up"@.len());
}

/// Tab and Shift-Tab focus the timeout slider while direction lock is on,
/// and do nothing otherwise.
pub proof fn law_tab_focuses_timeout(v: SettingsModelView, backwards: bool)
    ensures
        v.wheel_mode == WheelMode::DirectionLock ==> cycle_step(v, backwards) == (SettingsModelView {
            focused_slider: Some(SliderKind::Timeout),
            ..v
        }),
        v.wheel_mode != WheelMode::DirectionLock ==> cycle_step(v, backwards) == v,
{
}

/// While typing into the chip, Backspace removes the last typed character
/// and typed digits that fit in four characters are appended; outside
/// direct entry, Escape closes the window and changes nothing.
pub proof fn law_typing_keys(v: SettingsModelView, typed: Option<Seq<char>>, shift: bool)
    ensures
        v.editing is Some && v.edit_buffer.len() > 0 ==> key_step(v, "backspace"@, typed, shift).0.edit_buffer
            == v.edit_buffer.subrange(0, v.edit_buffer.len() - 1),
        v.editing is None ==> key_step(v, "escape"@, typed, shift) == (v, InputOutcome {
            redraw: false,
            close: true,
            persist: None,
        }),
{
    reveal_strlit("backspace");
    reveal_strlit("enter");
    reveal_strlit("escape");
    reveal_strlit("left");
    reveal_strlit("up");
    reveal_strlit("right");
    reveal_strlit("down");
    reveal_strlit("tab");
    assert("escape"@.len() != "enter"@.len());
    assert("escape"@.len() != "left"@.len() && "escape"@.len() != "up"@.len() && "escape"@.len() != "right"@.len());
    assert("escape"@.len() != "down"@.len() && "escape"@.len() != "tab"@.len());
    assert("backspace"@.len() != "enter"@.len() && "backspace"@.len() != "escape"@.len());
}

/// Typing into the chip appends exactly the typed text when it is all
/// digits and the chip then holds at most four characters, and otherwise
/// leaves the model unchanged.
pub proof fn law_typed_digits_appended(v: SettingsModelView, key: Seq<char>, t: Seq<char>, shift: bool)
    requires
        v.editing is Some,
        key != "enter"@,
        key != "escape"@,
        key != "backspace"@,
    ensures
        (forall|i: int| 0 <= i < t.len() ==> 48 <= #[trigger] t[i] as u32 <= 57) && v.edit_buffer.len() + t.len() <= 4
            ==> key_step(v, key, Some(t), shift).0.edit_buffer == v.edit_buffer + t,
        !((forall|i: int| 0 <= i < t.len() ==> 48 <= #[trigger] t[i] as u32 <= 57) && v.edit_buffer.len() + t.len() <= 4)
            ==> key_step(v, key, Some(t), shift).0 == v,
{
}

} // verus!
