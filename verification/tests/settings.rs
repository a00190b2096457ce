use legend_shot::app_state::AppLifecycle;
use legend_shot::settings::{
    capture_enabled, mac_keycap_symbol, save_failure_message, settings_should_close,
    recorded_key_name, shortcut_from_key_name, shortcut_keycaps, MacKeycapSymbol, RecordedKey,
    ShortcutSettings, StatusTone,
};

#[test]
fn shortcut_keycaps_use_platform_labels_and_clean_key_names() {
    assert_eq!(shortcut_keycaps("super+shift+KeyA", true), vec!["⌘", "⇧", "A"]);
    assert_eq!(shortcut_keycaps("control+alt+Digit7", false), vec!["Ctrl", "Alt", "7"]);
}

#[test]
fn shortcut_keycaps_skip_empty_parts_and_trim() {
    assert_eq!(shortcut_keycaps(" Ctrl + + Shift+ a ", false), vec!["Ctrl", "Shift", "a"]);
    assert_eq!(shortcut_keycaps("CMD+Option+F8", true), vec!["⌘", "⌥", "F8"]);
    assert_eq!(shortcut_keycaps("Command+Shift+A", false), vec!["Win", "Shift", "A"]);
    assert!(shortcut_keycaps("", true).is_empty());
    assert!(shortcut_keycaps("+", true).is_empty());
}

#[test]
fn macos_modifier_keycaps_use_vector_symbols_instead_of_font_glyphs() {
    assert_eq!(mac_keycap_symbol("⌘"), Some(MacKeycapSymbol::Command));
    assert_eq!(mac_keycap_symbol("⇧"), Some(MacKeycapSymbol::Shift));
    assert_eq!(mac_keycap_symbol("⌥"), Some(MacKeycapSymbol::Option));
    assert_eq!(mac_keycap_symbol("⌃"), Some(MacKeycapSymbol::Control));
    assert_eq!(mac_keycap_symbol("A"), None);
    assert_eq!(MacKeycapSymbol::Command.accessibility_label(), "Command");
    assert_eq!(MacKeycapSymbol::Shift.accessibility_label(), "Shift");
}

#[test]
fn shortcut_recorder_converts_pressed_key_and_modifiers_to_valid_shortcut() {
    assert_eq!(
        shortcut_from_key_name(true, false, false, true, "A"),
        Some("Command+Shift+A".to_owned())
    );
    assert_eq!(
        shortcut_from_key_name(false, true, true, false, recorded_key_name(RecordedKey::Num7)),
        Some("Ctrl+Alt+7".to_owned())
    );
    assert_eq!(shortcut_from_key_name(false, false, false, false, "A"), None);
    assert_eq!(shortcut_from_key_name(false, true, false, false, "NoSuchKey"), None);
}

fn open_settings() -> ShortcutSettings {
    let mut settings = ShortcutSettings::new();
    assert!(settings.open(AppLifecycle::TrayIdle, false, "Ctrl+Shift+A"));
    settings
}

#[test]
fn shortcut_settings_open_only_while_idle_in_the_tray() {
    let mut settings = ShortcutSettings::default();
    assert!(!settings.open(AppLifecycle::Capturing, false, "Ctrl+Shift+A"));
    assert!(!settings.open(AppLifecycle::TrayIdle, true, "Ctrl+Shift+A"));
    assert!(!settings.open);
    assert!(settings.open(AppLifecycle::TrayIdle, false, "Ctrl+Shift+A"));
    assert!(settings.open);
    assert_eq!(settings.draft, "Ctrl+Shift+A");
    assert!(!settings.recording);
    assert!(!settings.saved);
}

#[test]
fn recording_takes_a_modified_key_and_rejects_a_bare_one() {
    let mut settings = open_settings();
    settings.start_recording();
    assert_eq!(settings.prompt(), "请按下新的组合键");
    settings.record_key(false, false, false, false, false, "X");
    assert!(settings.recording);
    assert_eq!(settings.error.as_deref(), Some("请同时按下修饰键和一个普通按键"));
    assert_eq!(settings.draft, "Ctrl+Shift+A");
    settings.record_key(false, false, true, true, false, "X");
    assert!(!settings.recording);
    assert_eq!(settings.error, None);
    assert_eq!(settings.draft, "Ctrl+Alt+X");
    assert_eq!(settings.prompt(), "点击右侧按键即可修改");
}

#[test]
fn escape_ends_recording_and_keeps_the_window_open() {
    let mut settings = open_settings();
    settings.start_recording();
    settings.record_key(true, false, false, false, false, "Escape");
    assert!(!settings.recording);
    assert_eq!(settings.draft, "Ctrl+Shift+A");
    assert!(!settings_should_close(true, false, true));
    assert!(settings_should_close(false, false, true));
    assert!(settings_should_close(true, true, false));
}

#[test]
fn keys_are_ignored_unless_recording() {
    let mut settings = open_settings();
    settings.record_key(false, false, true, false, false, "Q");
    assert_eq!(settings.draft, "Ctrl+Shift+A");
    assert_eq!(settings.error, None);
}

#[test]
fn restoring_the_default_uses_the_platform_shortcut() {
    let mut settings = open_settings();
    settings.draft = "Ctrl+Alt+X".to_string();
    settings.restore_default(true);
    assert_eq!(settings.draft, "Command+Shift+A");
    settings.restore_default(false);
    assert_eq!(settings.draft, "Ctrl+Shift+A");
}

#[test]
fn status_line_reports_errors_then_saving_then_the_hint() {
    let mut settings = open_settings();
    assert_eq!(
        settings.status(),
        ("快捷键冲突时会保留原设置，也可继续从托盘截图".to_string(), StatusTone::Hint)
    );
    settings.finish_apply(Ok(()));
    assert_eq!(
        settings.status(),
        ("快捷键已保存，可以关闭窗口后测试".to_string(), StatusTone::Saved)
    );
    settings.finish_apply(Err("注册失败".to_string()));
    assert!(!settings.saved);
    assert_eq!(settings.status(), ("注册失败".to_string(), StatusTone::Error));
}

#[test]
fn saving_is_disabled_while_recording_and_invalid_drafts_are_refused() {
    let mut settings = open_settings();
    assert!(settings.can_apply());
    settings.start_recording();
    assert!(!settings.can_apply());
    settings.close();
    assert!(!settings.open);
    assert!(!settings.recording);
    settings.draft = "invalid+++shortcut".to_string();
    assert!(settings.shortcut_to_apply().is_err());
    settings.draft = " ctrl+shift+a ".to_string();
    assert_eq!(settings.shortcut_to_apply(), Ok("shift+control+KeyA".to_string()));
}

#[test]
fn save_failure_message_keeps_the_error() {
    assert_eq!(
        save_failure_message("磁盘已满"),
        "快捷键本次已生效，但无法保存设置：磁盘已满"
    );
}

#[test]
fn capture_shortcut_fires_only_when_idle_without_dialogs() {
    assert!(capture_enabled(AppLifecycle::TrayIdle, false, false));
    assert!(!capture_enabled(AppLifecycle::TrayIdle, true, false));
    assert!(!capture_enabled(AppLifecycle::TrayIdle, false, true));
    assert!(!capture_enabled(AppLifecycle::Capturing, false, false));
}

#[test]
fn applying_shows_the_canonical_shortcut_in_the_draft() {
    let mut settings = open_settings();
    settings.draft = " ctrl+shift+b ".to_string();
    let shortcut = settings.shortcut_to_apply().unwrap();
    settings.record_applied(shortcut);
    assert_eq!(settings.draft, "shift+control+KeyB");
}

#[test]
fn digits_and_punctuation_are_recorded_by_their_unshifted_key() {
    assert_eq!(recorded_key_name(RecordedKey::Num0), "0");
    assert_eq!(recorded_key_name(RecordedKey::Plus), "=");
    assert_eq!(recorded_key_name(RecordedKey::Colon), ";");
    assert_eq!(recorded_key_name(RecordedKey::Pipe), "\\");
    assert_eq!(recorded_key_name(RecordedKey::Questionmark), "/");
    assert_eq!(recorded_key_name(RecordedKey::Exclamationmark), "1");
    assert_eq!(
        shortcut_from_key_name(false, true, false, true, recorded_key_name(RecordedKey::Slash)),
        Some("Ctrl+Shift+/".to_owned())
    );
}
