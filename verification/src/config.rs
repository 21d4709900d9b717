//! Persistent application settings.

use vstd::prelude::*;

verus! {

/// How physical mouse wheel events are handled.
#[derive(Debug, Clone, Copy, PartialEq, Eq, Structural)]
pub enum WheelMode {
    /// Swallow all physical wheel events (scroll lock).
    Disable,
    /// Filter spurious opposite-direction ticks (default).
    DirectionLock,
    /// Pass the wheel through untouched.
    Off,
}

/// Integer encoding of a wheel mode (0 = Disable, 1 = DirectionLock, 2 = Off).
pub open spec fn wheel_mode_code(m: WheelMode) -> i32 {
    match m {
        WheelMode::Disable => 0,
        WheelMode::DirectionLock => 1,
        WheelMode::Off => 2,
    }
}

/// Decoding of an integer; every unknown value means `DirectionLock`.
pub open spec fn wheel_mode_of_code(v: i32) -> WheelMode {
    if v == 0 {
        WheelMode::Disable
    } else if v == 2 {
        WheelMode::Off
    } else {
        WheelMode::DirectionLock
    }
}

impl WheelMode {
    /// Integer encoding for atomic storage (0=Disable, 1=DirectionLock, 2=Off).
    pub fn as_i32(self) -> (r: i32)
        ensures
            r == wheel_mode_code(self),
    {
        match self {
            WheelMode::Disable => 0,
            WheelMode::DirectionLock => 1,
            WheelMode::Off => 2,
        }
    }

    /// Decode from an integer; unknown values fall back to `DirectionLock`.
    pub fn from_i32(v: i32) -> (r: Self)
        ensures
            r == wheel_mode_of_code(v),
    {
        match v {
            0 => WheelMode::Disable,
            2 => WheelMode::Off,
            _ => WheelMode::DirectionLock,
        }
    }

    /// The name shown to the user.
    pub fn display_name(self) -> (r: &'static str)
        ensures
            self == WheelMode::Disable ==> r@ == "Scroll Lock"@,
            self == WheelMode::DirectionLock ==> r@ == "Direction Lock"@,
            self == WheelMode::Off ==> r@ == "Pass Through"@,
    {
        match self {
            WheelMode::Disable => "Scroll Lock",
            WheelMode::DirectionLock => "Direction Lock",
            WheelMode::Off => "Pass Through",
        }
    }
}

impl Default for WheelMode {
    /// Direction lock is the default mode.
    fn default() -> (r: Self)
        ensures
            r == WheelMode::DirectionLock,
    {
        WheelMode::DirectionLock
    }
}

/// Persistent application settings stored as JSON on disk.
#[derive(Debug, Clone, Copy, PartialEq, Eq, Structural)]
pub struct Config {
    /// How physical wheel events are handled.
    pub wheel_mode: WheelMode,
    /// Direction-lock idle timeout in milliseconds. After the wheel has been
    /// silent this long, the lock releases so a deliberate reversal takes
    /// effect immediately. During continuous scrolling, opposite-direction
    /// ticks are instead suppressed until two consecutive ones arrive.
    pub direction_lock_timeout_ms: u32,
}

/// Lower end of the valid direction-lock timeout, in milliseconds. Shared
/// with the settings window, so the UI and the on-load clamping agree.
pub const DIR_LOCK_TIMEOUT_MIN_MS: u32 = 50;
/// Upper end of the valid direction-lock timeout, in milliseconds.
pub const DIR_LOCK_TIMEOUT_MAX_MS: u32 = 1000;

/// The settings a fresh installation starts with.
pub open spec fn default_config() -> Config {
    Config { wheel_mode: WheelMode::DirectionLock, direction_lock_timeout_ms: 500 }
}

/// `v` clamped into `[DIR_LOCK_TIMEOUT_MIN_MS, DIR_LOCK_TIMEOUT_MAX_MS]`.
pub open spec fn clamp_timeout(v: u32) -> u32 {
    if v < DIR_LOCK_TIMEOUT_MIN_MS {
        DIR_LOCK_TIMEOUT_MIN_MS
    } else if v > DIR_LOCK_TIMEOUT_MAX_MS {
        DIR_LOCK_TIMEOUT_MAX_MS
    } else {
        v
    }
}

/// `c` with its numeric fields clamped to their valid ranges.
pub open spec fn sanitize(c: Config) -> Config {
    Config { wheel_mode: c.wheel_mode, direction_lock_timeout_ms: clamp_timeout(c.direction_lock_timeout_ms) }
}

impl Default for Config {
    /// Direction lock with a 500 ms idle timeout.
    fn default() -> (r: Self)
        ensures
            r == default_config(),
    {
        Config { wheel_mode: WheelMode::DirectionLock, direction_lock_timeout_ms: 500 }
    }
}

/// Default for `direction_lock_timeout_ms` when the stored settings lack the
/// field (500 ms, not the minimum that a zero would clamp to).
pub fn default_dir_lock_timeout_ms() -> (r: u32)
    ensures
        r == default_config().direction_lock_timeout_ms,
{
    let d = Config::default();
    d.direction_lock_timeout_ms
}

impl Config {
    /// Clamp numeric fields to their valid ranges.
    pub fn sanitized(self) -> (r: Self)
        ensures
            r == sanitize(self),
    {
        let mut c = self;
        if c.direction_lock_timeout_ms < DIR_LOCK_TIMEOUT_MIN_MS {
            c.direction_lock_timeout_ms = DIR_LOCK_TIMEOUT_MIN_MS;
        } else if c.direction_lock_timeout_ms > DIR_LOCK_TIMEOUT_MAX_MS {
            c.direction_lock_timeout_ms = DIR_LOCK_TIMEOUT_MAX_MS;
        }
        c
    }
}

/// What reading the settings file produced.
#[derive(Debug, Clone, Copy, PartialEq, Eq, Structural)]
pub enum StoredConfig {
    /// There is no settings file (first launch).
    Missing,
    /// The file exists but could not be read.
    Unreadable,
    /// The file was read but does not hold valid settings.
    Corrupt,
    /// The file held these settings.
    Parsed(Config),
}

/// The settings that loading yields from what the file held: the stored
/// settings when they parsed, the defaults otherwise, clamped either way.
pub open spec fn loaded_config(stored: StoredConfig) -> Config {
    match stored {
        StoredConfig::Parsed(c) => sanitize(c),
        _ => sanitize(default_config()),
    }
}

/// Load settings, falling back to defaults if the file is missing,
/// unreadable or invalid; numeric fields are clamped to their ranges.
pub fn load(stored: StoredConfig) -> (c: Config)
    ensures
        c == loaded_config(stored),
{
    let c = match stored {
        StoredConfig::Parsed(c) => c,
        _ => Config::default(),
    };
    c.sanitized()
}

/// Name of the temporary file a save writes before renaming it over the
/// settings file: the settings file's name plus `.tmp`, or
/// `config.json.tmp` when the path has no usable file name.
pub fn temp_file_name(file_name: Option<&str>) -> (r: String)
    ensures
        r@ == (match file_name {
            Some(n) => n@,
            None => "config.json"@,
        }) + ".tmp"@,
{
    let mut r = match file_name {
        Some(n) => n.to_owned(),
        None => "config.json".to_owned(),
    };
    r.append(".tmp");
    r
}

/// Decoding an encoded wheel mode gives the mode back.
pub proof fn law_wheel_mode_code_roundtrip(m: WheelMode)
    ensures
        wheel_mode_of_code(wheel_mode_code(m)) == m,
{
}

/// Every code outside {0, 1, 2} decodes to the default, `DirectionLock`.
pub proof fn law_unknown_wheel_mode_code_is_default(v: i32)
    requires
        v != 0 && v != 1 && v != 2,
    ensures
        wheel_mode_of_code(v) == WheelMode::DirectionLock,
{
}

/// Sanitizing puts the timeout in range, keeps the mode, leaves in-range
/// settings unchanged and is idempotent.
pub proof fn law_sanitize(c: Config)
    ensures
        DIR_LOCK_TIMEOUT_MIN_MS <= sanitize(c).direction_lock_timeout_ms <= DIR_LOCK_TIMEOUT_MAX_MS,
        sanitize(c).wheel_mode == c.wheel_mode,
        DIR_LOCK_TIMEOUT_MIN_MS <= c.direction_lock_timeout_ms <= DIR_LOCK_TIMEOUT_MAX_MS ==> sanitize(c) == c,
        sanitize(sanitize(c)) == sanitize(c),
{
}

/// Loading settings that were saved in range gives them back unchanged;
/// anything that is not valid settings loads as the defaults.
pub proof fn law_load_gives_back_saved(c: Config, stored: StoredConfig)
    ensures
        DIR_LOCK_TIMEOUT_MIN_MS <= c.direction_lock_timeout_ms <= DIR_LOCK_TIMEOUT_MAX_MS
            ==> loaded_config(StoredConfig::Parsed(c)) == c,
        !(stored is Parsed) ==> loaded_config(stored) == default_config(),
{
}

/// Whatever the file held, loaded settings are in range.
pub proof fn law_loaded_in_range(stored: StoredConfig)
    ensures
        DIR_LOCK_TIMEOUT_MIN_MS <= loaded_config(stored).direction_lock_timeout_ms <= DIR_LOCK_TIMEOUT_MAX_MS,
{
}

/// The valid timeout range is 50 to 1000 ms, and a fresh installation
/// starts in direction-lock mode with a 500 ms timeout.
pub proof fn law_config_values()
    ensures
        DIR_LOCK_TIMEOUT_MIN_MS == 50,
        DIR_LOCK_TIMEOUT_MAX_MS == 1000,
        default_config() == (Config { wheel_mode: WheelMode::DirectionLock, direction_lock_timeout_ms: 500 }),
{
}

/// Clamping a timeout: below 50 ms it becomes 50, above 1000 ms it becomes
/// 1000, and anything in between is kept; the mode is never touched.
pub proof fn law_sanitize_values(c: Config)
    ensures
        c.direction_lock_timeout_ms < 50 ==> sanitize(c).direction_lock_timeout_ms == 50,
        c.direction_lock_timeout_ms > 1000 ==> sanitize(c).direction_lock_timeout_ms == 1000,
        50 <= c.direction_lock_timeout_ms <= 1000 ==> sanitize(c).direction_lock_timeout_ms == c.direction_lock_timeout_ms,
        sanitize(c).wheel_mode == c.wheel_mode,
        loaded_config(StoredConfig::Missing) == (Config { wheel_mode: WheelMode::DirectionLock, direction_lock_timeout_ms: 500 }),
        loaded_config(StoredConfig::Unreadable) == loaded_config(StoredConfig::Missing),
        loaded_config(StoredConfig::Corrupt) == loaded_config(StoredConfig::Missing),
        loaded_config(StoredConfig::Parsed(c)) == sanitize(c),
{
}

/// Every wheel mode has its own code, so distinct modes never collide when
/// stored.
pub proof fn law_wheel_mode_codes_distinct(a: WheelMode, b: WheelMode)
    ensures
        a != b ==> wheel_mode_code(a) != wheel_mode_code(b),
{
}

} // verus!
