//! The settings UI's icon assets: which embedded SVG serves which path.

use vstd::prelude::*;

verus! {

/// An icon embedded in the application.
#[derive(Debug, Clone, Copy, PartialEq, Eq, Structural)]
pub enum IconAsset {
    /// The mouse (direction lock on).
    Mouse,
    /// The crossed-out mouse (direction lock off).
    MouseOff,
    /// Vertical arrows (scroll lock).
    ArrowsMoveVertical,
    /// Filled check mark, for the Start-with-Windows checkbox.
    Check,
    /// Warning triangle, for the failure banner.
    Warning,
}

/// The icon served for an asset path, if any.
pub open spec fn icon_for_path(path: Seq<char>) -> Option<IconAsset> {
    if path == "icons/mouse.svg"@ {
        Some(IconAsset::Mouse)
    } else if path == "icons/mouse-off.svg"@ {
        Some(IconAsset::MouseOff)
    } else if path == "icons/arrows-move-vertical.svg"@ {
        Some(IconAsset::ArrowsMoveVertical)
    } else if path == "icons/check.svg"@ {
        Some(IconAsset::Check)
    } else if path == "icons/warning.svg"@ {
        Some(IconAsset::Warning)
    } else {
        None
    }
}

/// The embedded icon for an asset path; `None` for every other path.
pub fn icon_asset(path: &str) -> (r: Option<IconAsset>)
    ensures
        r == icon_for_path(path@),
{
    let p = path.to_owned();
    if p == "icons/mouse.svg".to_owned() {
        Some(IconAsset::Mouse)
    } else if p == "icons/mouse-off.svg".to_owned() {
        Some(IconAsset::MouseOff)
    } else if p == "icons/arrows-move-vertical.svg".to_owned() {
        Some(IconAsset::ArrowsMoveVertical)
    } else if p == "icons/check.svg".to_owned() {
        Some(IconAsset::Check)
    } else if p == "icons/warning.svg".to_owned() {
        Some(IconAsset::Warning)
    } else {
        None
    }
}

} // verus!
