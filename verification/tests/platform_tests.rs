use sabitori::autostart::{delete_disabled_autostart, quoted_path, run_value_data, run_value_matches};
use sabitori::flyout::{frame_arith_ok, frameless_bounds};
use sabitori::icons::{icon_asset, IconAsset};

fn wide(s: &str) -> Vec<u16> {
    s.encode_utf16().collect()
}

#[test]
fn quoted_path_wraps_in_quotes() {
    assert_eq!(quoted_path(r"C:\Program Files\Sabitori\sabitori.exe"), "\"C:\\Program Files\\Sabitori\\sabitori.exe\"");
    assert_eq!(quoted_path(""), "\"\"");
}

#[test]
fn run_value_data_is_utf16le_with_nul() {
    assert_eq!(run_value_data("a"), vec![b'"', 0, b'a', 0, b'"', 0, 0, 0]);
    assert_eq!(run_value_data("é"), vec![b'"', 0, 0xE9, 0, b'"', 0, 0, 0]);
}

#[test]
fn run_value_matches_quoted_path_ignoring_ascii_case() {
    let mut buf = [0u16; 1024];
    let stored = wide("\"C:\\APPS\\Sabitori.EXE\"");
    buf[..stored.len()].copy_from_slice(&stored);
    let bytes = ((stored.len() + 1) * 2) as u32;
    assert!(run_value_matches(&buf, bytes, Some(r"c:\apps\sabitori.exe")));
    assert!(!run_value_matches(&buf, bytes, Some(r"c:\apps\other.exe")));
    // Without the quotes it does not match.
    let plain = wide("C:\\apps\\sabitori.exe");
    let mut buf2 = [0u16; 1024];
    buf2[..plain.len()].copy_from_slice(&plain);
    assert!(!run_value_matches(&buf2, (plain.len() * 2) as u32, Some(r"C:\apps\sabitori.exe")));
}

#[test]
fn run_value_matches_stops_at_byte_len_and_nul() {
    let mut buf = [0u16; 16];
    let stored = wide("\"x\"junk");
    buf[..stored.len()].copy_from_slice(&stored);
    // Only the first three units were filled by the registry.
    assert!(run_value_matches(&buf, 6, Some("x")));
    // A NUL ends the value early.
    buf[3] = 0;
    assert!(run_value_matches(&buf, 16, Some("x")));
    // Nothing read: empty value, which matches only an unknown executable.
    assert!(!run_value_matches(&buf, 0, Some("x")));
    assert!(run_value_matches(&buf, 0, None));
    assert!(!run_value_matches(&buf, 6, None));
}

#[test]
fn run_value_matches_decodes_utf16() {
    let mut buf = [0u16; 16];
    let stored = wide("\"𝕩é\"");
    buf[..stored.len()].copy_from_slice(&stored);
    assert!(run_value_matches(&buf, (stored.len() * 2) as u32, Some("𝕩é")));
    // Non-ASCII letters are compared exactly.
    assert!(!run_value_matches(&buf, (stored.len() * 2) as u32, Some("𝕩É")));
    // An unpaired surrogate decodes as U+FFFD.
    let lone = [0x22u16, 0xD800, 0x22];
    assert!(run_value_matches(&lone, 6, Some("\u{FFFD}")));
}

#[test]
fn disable_accepts_missing_value() {
    assert!(delete_disabled_autostart(0));
    assert!(delete_disabled_autostart(2));
    assert!(!delete_disabled_autostart(5));
}

#[test]
fn icon_paths() {
    assert_eq!(icon_asset("icons/mouse.svg"), Some(IconAsset::Mouse));
    assert_eq!(icon_asset("icons/mouse-off.svg"), Some(IconAsset::MouseOff));
    assert_eq!(icon_asset("icons/arrows-move-vertical.svg"), Some(IconAsset::ArrowsMoveVertical));
    assert_eq!(icon_asset("icons/check.svg"), Some(IconAsset::Check));
    assert_eq!(icon_asset("icons/warning.svg"), Some(IconAsset::Warning));
    assert_eq!(icon_asset("icons/other.svg"), None);
    assert_eq!(icon_asset(""), None);
}

#[test]
fn frameless_bounds_shrinks_to_client() {
    // A 300x200 window at (100, 100) with an 8px frame on each side.
    let window = (100, 100, 400, 300);
    let client = (0, 0, 284, 184);
    assert_eq!(frameless_bounds(window, client), Some((108, 92, 284, 184)));
    // No frame: nothing to do.
    assert_eq!(frameless_bounds(window, (0, 0, 300, 200)), None);
    // Odd frame: half rounds toward zero.
    assert_eq!(frameless_bounds((0, 0, 101, 51), (0, 0, 100, 50)), Some((0, -1, 100, 50)));
    // Only one axis framed; the other difference is negative.
    assert_eq!(frameless_bounds((0, 0, 100, 100), (0, 0, 103, 90)), Some((-1, -5, 103, 90)));
}

#[test]
fn frame_arith_ok_detects_overflow() {
    assert!(frame_arith_ok((100, 100, 400, 300), (0, 0, 284, 184)));
    assert!(!frame_arith_ok((i32::MIN, 0, i32::MAX, 10), (0, 0, 10, 10)));
    assert!(!frame_arith_ok((0, 0, 10, 10), (i32::MIN, 0, i32::MAX, 10)));
}
