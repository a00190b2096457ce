use legend_shot::tray::{command_for_menu_id, menu_specs, TrayCommand, CAPTURE_MENU_ID, EXIT_MENU_ID};

#[test]
fn maps_only_known_menu_ids() {
    assert_eq!(command_for_menu_id(CAPTURE_MENU_ID), Some(TrayCommand::Capture));
    assert_eq!(command_for_menu_id(EXIT_MENU_ID), Some(TrayCommand::Exit));
    assert_eq!(command_for_menu_id("legend-shot.unknown"), None);
}

#[test]
fn menu_contains_only_capture_then_exit() {
    let specs = menu_specs();
    assert_eq!(specs.len(), 2);
    assert_eq!(
        (specs[0].id, specs[0].label, specs[0].command),
        (CAPTURE_MENU_ID, "截图", TrayCommand::Capture)
    );
    assert_eq!((specs[1].id, specs[1].label, specs[1].command), (EXIT_MENU_ID, "退出", TrayCommand::Exit));
}

#[test]
fn every_menu_entry_maps_back_to_its_command() {
    for spec in menu_specs() {
        assert_eq!(command_for_menu_id(spec.id), Some(spec.command));
    }
}
