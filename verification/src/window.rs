use vstd::prelude::*;

use crate::text::{eq_ascii_case_insensitive, eq_ignore_ascii_case, has_visible_char, has_visible_text, text_eq};

verus! {

/// Title of the per-display capture overlay windows.
pub const CAPTURE_OVERLAY_TITLE: &'static str = "Legend Shot · Capture Overlay";

/// How high the capture overlays are stacked.
#[derive(Debug, Clone, Copy, PartialEq, Eq, Structural)]
pub enum CaptureOverlayLevel {
    AlwaysOnTop,
    AboveMainMenu,
}

/// On macOS the overlays must cover the menu bar; elsewhere always-on-top suffices.
pub fn capture_overlay_level_for(is_macos: bool) -> (level: CaptureOverlayLevel)
    ensures
        level == (if is_macos { CaptureOverlayLevel::AboveMainMenu } else { CaptureOverlayLevel::AlwaysOnTop }),
{
    if is_macos {
        CaptureOverlayLevel::AboveMainMenu
    } else {
        CaptureOverlayLevel::AlwaysOnTop
    }
}

/// Whether a window is one of the capture overlays, judged by its title.
pub fn is_capture_overlay_title(title: &str) -> (b: bool)
    ensures
        b == (title@ == CAPTURE_OVERLAY_TITLE@),
{
    text_eq(title, CAPTURE_OVERLAY_TITLE)
}

/// Capture works on Linux only in an X11 session: not under Wayland, and with a display set.
pub open spec fn spec_linux_x11_session_supported(
    session_type: Option<Seq<char>>,
    display: Option<Seq<char>>,
) -> bool {
    &&& !(session_type matches Some(t) && eq_ascii_case_insensitive(t, "wayland"@))
    &&& display matches Some(d) && has_visible_char(d)
}

pub open spec fn opt_view(value: Option<&str>) -> Option<Seq<char>> {
    match value {
        Some(v) => Some(v@),
        None => None,
    }
}

pub fn linux_x11_session_supported(session_type: Option<&str>, display: Option<&str>) -> (b: bool)
    ensures
        b == spec_linux_x11_session_supported(opt_view(session_type), opt_view(display)),
{
    if let Some(value) = session_type {
        if eq_ignore_ascii_case(value, "wayland") {
            return false;
        }
    }
    match display {
        Some(value) => has_visible_text(value),
        None => false,
    }
}

/// Window attributes of the hidden capture coordinator window.
#[derive(Debug, Clone, Copy, PartialEq, Eq, Structural)]
pub struct CaptureWindowStyle {
    pub accessory_application: bool,
    pub fullscreen: bool,
    pub decorations: bool,
    pub resizable: bool,
    pub close_button: bool,
    pub minimize_button: bool,
    pub maximize_button: bool,
}

/// A borderless, fixed, never fullscreen window; on macOS an accessory application.
pub fn capture_window_style_for(is_macos: bool) -> (style: CaptureWindowStyle)
    ensures
        style == (CaptureWindowStyle {
            accessory_application: is_macos,
            fullscreen: false,
            decorations: false,
            resizable: false,
            close_button: false,
            minimize_button: false,
            maximize_button: false,
        }),
{
    CaptureWindowStyle {
        accessory_application: is_macos,
        fullscreen: false,
        decorations: false,
        resizable: false,
        close_button: false,
        minimize_button: false,
        maximize_button: false,
    }
}

/// The saved OCR window geometry is applied only once fullscreen is known to be off.
pub fn ocr_window_geometry_can_be_applied(fullscreen: Option<bool>) -> (b: bool)
    ensures
        b == (fullscreen == Some(false)),
{
    match fullscreen {
        Some(false) => true,
        _ => false,
    }
}

/// What happens to the capture window when a capture ends.
#[derive(Debug, Clone, Copy, PartialEq, Eq, Structural)]
pub enum CompletionDisposition {
    Hide,
    Close,
}

/// A resident (tray) application hides the window; otherwise it closes.
pub fn completion_disposition_for(resident_platform: bool) -> (d: CompletionDisposition)
    ensures
        d == (if resident_platform { CompletionDisposition::Hide } else { CompletionDisposition::Close }),
{
    if resident_platform {
        CompletionDisposition::Hide
    } else {
        CompletionDisposition::Close
    }
}

/// What to do at start-up on macOS depending on the screen-recording permission.
#[derive(Debug, Clone, Copy, PartialEq, Eq, Structural)]
pub enum MacosCapturePermissionAction {
    Capture,
    RequestAndExit,
}

pub fn macos_capture_permission_action(has_permission: bool) -> (a: MacosCapturePermissionAction)
    ensures
        a == (if has_permission {
            MacosCapturePermissionAction::Capture
        } else {
            MacosCapturePermissionAction::RequestAndExit
        }),
{
    if has_permission {
        MacosCapturePermissionAction::Capture
    } else {
        MacosCapturePermissionAction::RequestAndExit
    }
}

} // verus!
