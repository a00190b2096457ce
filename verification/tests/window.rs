use legend_shot::window::{
    capture_overlay_level_for, capture_window_style_for, completion_disposition_for,
    is_capture_overlay_title, linux_x11_session_supported, macos_capture_permission_action,
    ocr_window_geometry_can_be_applied, CaptureOverlayLevel, CompletionDisposition,
    MacosCapturePermissionAction, CAPTURE_OVERLAY_TITLE,
};

#[test]
fn resident_platform_hides_after_capture() {
    assert_eq!(completion_disposition_for(true), CompletionDisposition::Hide);
}

#[test]
fn non_resident_platform_closes_after_capture() {
    assert_eq!(completion_disposition_for(false), CompletionDisposition::Close);
}

#[test]
fn macos_capture_overlay_is_raised_above_the_system_menu_bar() {
    assert_eq!(capture_overlay_level_for(true), CaptureOverlayLevel::AboveMainMenu);
    assert_eq!(capture_overlay_level_for(false), CaptureOverlayLevel::AlwaysOnTop);
    assert!(is_capture_overlay_title(CAPTURE_OVERLAY_TITLE));
    assert!(!is_capture_overlay_title("Legend Shot · 快捷键设置"));
    assert!(!is_capture_overlay_title("Legend Shot · 贴图"));
}

#[test]
fn linux_guard_rejects_wayland_and_requires_display() {
    assert!(linux_x11_session_supported(Some("x11"), Some(":0")));
    assert!(linux_x11_session_supported(None, Some(":0")));
    assert!(!linux_x11_session_supported(Some("wayland"), Some(":0")));
    assert!(!linux_x11_session_supported(None, None));
    assert!(!linux_x11_session_supported(Some("x11"), Some("")));
}

#[test]
fn linux_guard_ignores_case_of_session_type_and_blank_display() {
    assert!(!linux_x11_session_supported(Some("Wayland"), Some(":0")));
    assert!(!linux_x11_session_supported(Some("WAYLAND"), Some(":1")));
    assert!(linux_x11_session_supported(Some("wayland2"), Some(":0")));
    assert!(!linux_x11_session_supported(Some("x11"), Some(" \t ")));
}

#[test]
fn ocr_window_geometry_waits_until_fullscreen_has_exited() {
    assert!(!ocr_window_geometry_can_be_applied(Some(true)));
    assert!(ocr_window_geometry_can_be_applied(Some(false)));
    assert!(!ocr_window_geometry_can_be_applied(None));
}

#[test]
fn capture_coordinator_is_never_fullscreen() {
    for is_macos in [true, false] {
        let style = capture_window_style_for(is_macos);

        assert!(!style.fullscreen);
    }
}

#[test]
fn macos_capture_window_is_a_borderless_fixed_overlay() {
    let style = capture_window_style_for(true);

    assert!(style.accessory_application);
    assert!(!style.fullscreen);
    assert!(!style.decorations);
    assert!(!style.resizable);
    assert!(!style.close_button);
    assert!(!style.minimize_button);
    assert!(!style.maximize_button);
}

#[test]
fn non_macos_capture_coordinator_stays_hidden_and_windowless() {
    let style = capture_window_style_for(false);

    assert!(!style.accessory_application);
    assert!(!style.fullscreen);
    assert!(!style.decorations);
    assert!(!style.resizable);
    assert!(!style.close_button);
    assert!(!style.minimize_button);
    assert!(!style.maximize_button);
}

#[test]
fn macos_denied_screen_capture_permission_stops_before_capture() {
    assert_eq!(
        macos_capture_permission_action(false),
        MacosCapturePermissionAction::RequestAndExit
    );
}

#[test]
fn macos_granted_screen_capture_permission_allows_capture() {
    assert_eq!(macos_capture_permission_action(true), MacosCapturePermissionAction::Capture);
}
