//! Sabitori: mouse-wheel bounce filtering for a tray application.
//!
//! The library holds the application's logic: the persisted settings and
//! their clamping, the direction-lock state machine that filters wheel
//! bounce, the decision the low-level mouse hook makes for every event,
//! the lock-free state shared between the hook thread and the settings
//! window, the settings window's editing model, the decisions of the tray
//! poll loop, and the small text
//! encoders (UTF-16, hex colours, log lines) the platform glue needs.

pub mod autostart;
pub mod config;
pub mod flyout;
pub mod dir_lock;
pub mod hook;
pub mod icons;
pub mod log;
pub mod settings;
pub mod text;
pub mod theme;
pub mod tray;
pub mod wide;

