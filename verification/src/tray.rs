use vstd::prelude::*;

use crate::text::text_eq;

verus! {

/// What a tray menu entry asks for.
#[derive(Debug, Clone, Copy, PartialEq, Eq, Structural)]
pub enum TrayCommand {
    Capture,
    Exit,
}

pub const CAPTURE_MENU_ID: &'static str = "legend-shot.capture";
pub const EXIT_MENU_ID: &'static str = "legend-shot.exit";

/// One entry of the tray menu.
#[derive(Debug, Clone, Copy, PartialEq, Eq)]
pub struct TrayMenuSpec {
    pub id: &'static str,
    pub label: &'static str,
    pub command: TrayCommand,
}

/// The tray menu: capture, then exit.
pub fn menu_specs() -> (specs: [TrayMenuSpec; 2])
    ensures
        specs[0].id@ == CAPTURE_MENU_ID@,
        specs[0].label@ == "截图"@,
        specs[0].command == TrayCommand::Capture,
        specs[1].id@ == EXIT_MENU_ID@,
        specs[1].label@ == "退出"@,
        specs[1].command == TrayCommand::Exit,
{
    [
        TrayMenuSpec { id: CAPTURE_MENU_ID, label: "截图", command: TrayCommand::Capture },
        TrayMenuSpec { id: EXIT_MENU_ID, label: "退出", command: TrayCommand::Exit },
    ]
}

pub open spec fn spec_command_for_menu_id(id: Seq<char>) -> Option<TrayCommand> {
    if id == CAPTURE_MENU_ID@ {
        Some(TrayCommand::Capture)
    } else if id == EXIT_MENU_ID@ {
        Some(TrayCommand::Exit)
    } else {
        None
    }
}

/// The command of the menu entry with this identifier; unknown identifiers give none.
pub fn command_for_menu_id(id: &str) -> (c: Option<TrayCommand>)
    ensures
        c == spec_command_for_menu_id(id@),
{
    if text_eq(id, CAPTURE_MENU_ID) {
        Some(TrayCommand::Capture)
    } else if text_eq(id, EXIT_MENU_ID) {
        Some(TrayCommand::Exit)
    } else {
        None
    }
}

/// Each menu entry's identifier leads back to that entry's command.
pub proof fn lemma_menu_ids_map_to_their_commands()
    ensures
        spec_command_for_menu_id(CAPTURE_MENU_ID@) == Some(TrayCommand::Capture),
        spec_command_for_menu_id(EXIT_MENU_ID@) == Some(TrayCommand::Exit),
{
    reveal_strlit("legend-shot.capture");
    reveal_strlit("legend-shot.exit");
    assert(CAPTURE_MENU_ID@ != EXIT_MENU_ID@) by {
        assert(CAPTURE_MENU_ID@[12] != EXIT_MENU_ID@[12]);
    }
}

} // verus!
