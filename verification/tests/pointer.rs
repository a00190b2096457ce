use legend_shot::app_state::Tool;
use legend_shot::pointer::{
    click_memory, press_action, release_action, ClickMemory, PressAction, ReleaseAction,
};
use legend_shot::selection::ResizeHandle;

#[test]
fn presses_on_popups_and_the_toolbar_are_ignored() {
    let handle = Some(ResizeHandle::East);
    assert_eq!(
        press_action(true, false, false, true, Tool::Select, handle, true, false, true),
        PressAction::Ignore
    );
    assert_eq!(
        press_action(false, true, false, true, Tool::Pen, None, true, false, false),
        PressAction::Ignore
    );
    assert_eq!(click_memory(PressAction::Ignore), ClickMemory::Keep);
}

#[test]
fn a_handle_under_the_pointer_starts_a_resize_with_selection_tools() {
    let handle = Some(ResizeHandle::SouthWest);
    assert_eq!(
        press_action(false, false, false, true, Tool::MoveBox, handle, true, false, true),
        PressAction::BeginResize(ResizeHandle::SouthWest)
    );
    assert_eq!(
        press_action(false, false, true, true, Tool::Select, handle, false, false, false),
        PressAction::Nothing
    );
    assert_eq!(
        press_action(false, false, false, true, Tool::Pen, handle, true, false, false),
        PressAction::BeginAnnotation
    );
    assert_eq!(
        click_memory(PressAction::BeginResize(ResizeHandle::North)),
        ClickMemory::Forget
    );
}

#[test]
fn a_double_click_inside_the_selection_copies_and_finishes() {
    assert_eq!(
        press_action(false, false, false, true, Tool::Select, None, true, false, true),
        PressAction::CopyAndFinish
    );
    assert_eq!(
        press_action(false, false, false, true, Tool::Select, None, true, true, true),
        PressAction::Nothing
    );
    assert_eq!(click_memory(PressAction::CopyAndFinish), ClickMemory::Keep);
}

#[test]
fn presses_start_a_selection_a_move_or_a_mark() {
    assert_eq!(
        press_action(false, false, false, false, Tool::Select, None, false, false, false),
        PressAction::BeginSelection
    );
    assert_eq!(
        press_action(false, false, false, true, Tool::MoveBox, None, true, false, false),
        PressAction::BeginMove
    );
    assert_eq!(
        press_action(false, false, false, true, Tool::MoveBox, None, false, false, false),
        PressAction::Nothing
    );
    assert_eq!(
        press_action(false, false, false, true, Tool::Mosaic, None, false, false, false),
        PressAction::BeginAnnotation
    );
    assert_eq!(
        press_action(false, false, false, true, Tool::Ocr, None, true, false, false),
        PressAction::Nothing
    );
    assert_eq!(click_memory(PressAction::BeginSelection), ClickMemory::Remember);
}

#[test]
fn releases_end_resizes_selections_and_moves() {
    assert_eq!(
        release_action(true, true, true, true, true, Tool::Select, None),
        ReleaseAction::EndResize
    );
    assert_eq!(
        release_action(false, true, true, false, false, Tool::Select, None),
        ReleaseAction::EndSelection { finish_recapture: false, show_toolbar: true }
    );
    assert_eq!(
        release_action(false, true, true, true, false, Tool::Select, None),
        ReleaseAction::EndSelection { finish_recapture: true, show_toolbar: false }
    );
    assert_eq!(
        release_action(false, true, false, true, false, Tool::Select, None),
        ReleaseAction::EndSelection { finish_recapture: false, show_toolbar: false }
    );
    assert_eq!(
        release_action(false, false, true, false, true, Tool::MoveBox, None),
        ReleaseAction::EndMove
    );
}

#[test]
fn marks_need_one_point_for_mosaic_and_number_and_two_otherwise() {
    let release = |annotation| release_action(false, false, true, false, false, Tool::Pen, annotation);
    assert_eq!(release(Some((Tool::Pen, 2))), ReleaseAction::CommitAnnotation);
    assert_eq!(release(Some((Tool::Pen, 1))), ReleaseAction::CancelAnnotation);
    assert_eq!(release(Some((Tool::Mosaic, 1))), ReleaseAction::CommitAnnotation);
    assert_eq!(release(Some((Tool::Number, 1))), ReleaseAction::CommitAnnotation);
    assert_eq!(release(None), ReleaseAction::CancelAnnotation);
    assert_eq!(
        release_action(false, false, true, false, false, Tool::Text, Some((Tool::Text, 1))),
        ReleaseAction::Nothing
    );
}
