use vstd::prelude::*;

use crate::app_state::{spec_is_annotation_tool, Tool};
use crate::selection::ResizeHandle;

verus! {

/// What a press of the primary button does in the capture window.
#[derive(Debug, Clone, Copy, PartialEq, Eq, Structural)]
pub enum PressAction {
    /// The press belongs to a popup or to the toolbar.
    Ignore,
    /// Drag this handle of the selection.
    BeginResize(ResizeHandle),
    /// A double click inside the selection: copy it and finish the capture.
    CopyAndFinish,
    /// Drag out a new selection.
    BeginSelection,
    /// Drag the selection.
    BeginMove,
    /// Start a mark with the current tool.
    BeginAnnotation,
    /// Nothing starts.
    Nothing,
}

/// The select and move tools, which drag and resize the selection.
pub open spec fn is_selection_tool_spec(tool: Tool) -> bool {
    tool == Tool::Select || tool == Tool::MoveBox
}

/// The action of a press. `handle` is the selection handle under the pointer (none without a
/// selection), `inside_selection` whether the pointer is inside the selection, and
/// `double_click` whether the press follows the remembered click closely enough in time
/// and place.
pub open spec fn spec_press_action(
    popup_open: bool,
    in_toolbar: bool,
    text_input_open: bool,
    toolbar_shown: bool,
    tool: Tool,
    handle: Option<ResizeHandle>,
    inside_selection: bool,
    toolbar_focused: bool,
    double_click: bool,
) -> PressAction {
    if popup_open {
        PressAction::Ignore
    } else if toolbar_shown && in_toolbar {
        PressAction::Ignore
    } else if !text_input_open && toolbar_shown && is_selection_tool_spec(tool) && handle is Some {
        PressAction::BeginResize(handle->0)
    } else if inside_selection && !toolbar_focused && is_selection_tool_spec(tool) && double_click {
        PressAction::CopyAndFinish
    } else if tool == Tool::Select && !toolbar_shown {
        PressAction::BeginSelection
    } else if tool == Tool::MoveBox && !toolbar_focused && inside_selection {
        PressAction::BeginMove
    } else if spec_is_annotation_tool(tool) {
        PressAction::BeginAnnotation
    } else {
        PressAction::Nothing
    }
}

pub fn press_action(
    popup_open: bool,
    in_toolbar: bool,
    text_input_open: bool,
    toolbar_shown: bool,
    tool: Tool,
    handle: Option<ResizeHandle>,
    inside_selection: bool,
    toolbar_focused: bool,
    double_click: bool,
) -> (a: PressAction)
    ensures
        a == spec_press_action(
            popup_open,
            in_toolbar,
            text_input_open,
            toolbar_shown,
            tool,
            handle,
            inside_selection,
            toolbar_focused,
            double_click,
        ),
{
    let selection_tool = match tool {
        Tool::Select | Tool::MoveBox => true,
        _ => false,
    };
    if popup_open {
        return PressAction::Ignore;
    }
    if toolbar_shown && in_toolbar {
        return PressAction::Ignore;
    }
    if !text_input_open && toolbar_shown && selection_tool {
        if let Some(h) = handle {
            return PressAction::BeginResize(h);
        }
    }
    if inside_selection && !toolbar_focused && selection_tool && double_click {
        return PressAction::CopyAndFinish;
    }
    match tool {
        Tool::Select => if !toolbar_shown {
            return PressAction::BeginSelection;
        },
        Tool::MoveBox => if !toolbar_focused && inside_selection {
            return PressAction::BeginMove;
        },
        _ => {},
    }
    if tool.is_annotation_tool() {
        PressAction::BeginAnnotation
    } else {
        PressAction::Nothing
    }
}

/// What a press does to the click remembered for double clicks.
#[derive(Debug, Clone, Copy, PartialEq, Eq, Structural)]
pub enum ClickMemory {
    /// The remembered click stays.
    Keep,
    /// The remembered click is forgotten, so the next press is no double click.
    Forget,
    /// This press becomes the remembered click.
    Remember,
}

/// A press ignored or ending in a copy leaves the remembered click; a resize forgets it;
/// every other press is remembered.
pub open spec fn spec_click_memory(action: PressAction) -> ClickMemory {
    match action {
        PressAction::Ignore | PressAction::CopyAndFinish => ClickMemory::Keep,
        PressAction::BeginResize(_) => ClickMemory::Forget,
        _ => ClickMemory::Remember,
    }
}

pub fn click_memory(action: PressAction) -> (m: ClickMemory)
    ensures
        m == spec_click_memory(action),
{
    match action {
        PressAction::Ignore | PressAction::CopyAndFinish => ClickMemory::Keep,
        PressAction::BeginResize(_) => ClickMemory::Forget,
        _ => ClickMemory::Remember,
    }
}

/// What a release of the primary button does in the capture window.
#[derive(Debug, Clone, Copy, PartialEq, Eq, Structural)]
pub enum ReleaseAction {
    /// A resize ends; it is one undo step and the toolbar comes back.
    EndResize,
    /// A new selection ends: with a non-empty selection, an OCR recapture in progress is
    /// submitted, and otherwise the toolbar is shown.
    EndSelection { finish_recapture: bool, show_toolbar: bool },
    /// A move ends; it is one undo step and the toolbar comes back.
    EndMove,
    /// The mark being drawn is kept, as one undo step.
    CommitAnnotation,
    /// The mark being drawn is dropped and its edit abandoned.
    CancelAnnotation,
    /// Nothing ends.
    Nothing,
}

/// The fewest points that a mark of `tool` needs: one for a mosaic or a number, two for
/// the others.
pub open spec fn points_needed(tool: Tool) -> usize {
    if tool == Tool::Mosaic || tool == Tool::Number {
        1
    } else {
        2
    }
}

/// The action of a release. `annotation` is the tool and number of points of the mark
/// being drawn, if any.
pub open spec fn spec_release_action(
    resizing: bool,
    selecting: bool,
    selection_nonempty: bool,
    recapture_pending: bool,
    moving: bool,
    tool: Tool,
    annotation: Option<(Tool, usize)>,
) -> ReleaseAction {
    if resizing {
        ReleaseAction::EndResize
    } else if selecting {
        ReleaseAction::EndSelection {
            finish_recapture: selection_nonempty && recapture_pending,
            show_toolbar: selection_nonempty && !recapture_pending,
        }
    } else if moving {
        ReleaseAction::EndMove
    } else if tool != Tool::Text {
        if annotation matches Some((t, n)) && n >= points_needed(t) {
            ReleaseAction::CommitAnnotation
        } else {
            ReleaseAction::CancelAnnotation
        }
    } else {
        ReleaseAction::Nothing
    }
}

pub fn release_action(
    resizing: bool,
    selecting: bool,
    selection_nonempty: bool,
    recapture_pending: bool,
    moving: bool,
    tool: Tool,
    annotation: Option<(Tool, usize)>,
) -> (a: ReleaseAction)
    ensures
        a == spec_release_action(
            resizing,
            selecting,
            selection_nonempty,
            recapture_pending,
            moving,
            tool,
            annotation,
        ),
{
    if resizing {
        return ReleaseAction::EndResize;
    }
    if selecting {
        return ReleaseAction::EndSelection {
            finish_recapture: selection_nonempty && recapture_pending,
            show_toolbar: selection_nonempty && !recapture_pending,
        };
    }
    if moving {
        return ReleaseAction::EndMove;
    }
    let text_tool = match tool {
        Tool::Text => true,
        _ => false,
    };
    if text_tool {
        return ReleaseAction::Nothing;
    }
    match annotation {
        Some((t, n)) => {
            let needed: usize = match t {
                Tool::Mosaic | Tool::Number => 1,
                _ => 2,
            };
            if n >= needed {
                ReleaseAction::CommitAnnotation
            } else {
                ReleaseAction::CancelAnnotation
            }
        },
        None => ReleaseAction::CancelAnnotation,
    }
}

/// A press on the toolbar or a popup never starts anything, and a double click copies only
/// inside the selection with a selection tool.
pub proof fn lemma_presses_on_controls_start_nothing(
    popup_open: bool,
    in_toolbar: bool,
    text_input_open: bool,
    toolbar_shown: bool,
    tool: Tool,
    handle: Option<ResizeHandle>,
    inside_selection: bool,
    toolbar_focused: bool,
    double_click: bool,
)
    ensures
        (popup_open || (toolbar_shown && in_toolbar)) ==> spec_press_action(
            popup_open,
            in_toolbar,
            text_input_open,
            toolbar_shown,
            tool,
            handle,
            inside_selection,
            toolbar_focused,
            double_click,
        ) == PressAction::Ignore,
        spec_press_action(
            popup_open,
            in_toolbar,
            text_input_open,
            toolbar_shown,
            tool,
            handle,
            inside_selection,
            toolbar_focused,
            double_click,
        ) == PressAction::CopyAndFinish ==> inside_selection && double_click && is_selection_tool_spec(tool),
{
}

/// With the toolbar shown and no text being typed, a press on a handle of the selection with
/// either selection tool, Select or MoveBox, starts resizing by that handle; both tools do the
/// same there.
pub proof fn lemma_handle_press_resizes_with_both_selection_tools(
    tool: Tool,
    h: ResizeHandle,
    inside_selection: bool,
    toolbar_focused: bool,
    double_click: bool,
)
    requires
        tool == Tool::Select || tool == Tool::MoveBox,
    ensures
        spec_press_action(false, false, false, true, tool, Some(h), inside_selection, toolbar_focused, double_click)
            == PressAction::BeginResize(h),
        spec_press_action(false, false, false, true, Tool::Select, Some(h), inside_selection, toolbar_focused, double_click)
            == spec_press_action(false, false, false, true, Tool::MoveBox, Some(h), inside_selection, toolbar_focused, double_click),
{
}

/// A press off the controls with a marking tool (pen, rectangle, arrow, text, number,
/// mosaic) starts a mark, whatever lies under the pointer.
pub proof fn lemma_marking_tools_start_marks(
    text_input_open: bool,
    toolbar_shown: bool,
    tool: Tool,
    handle: Option<ResizeHandle>,
    inside_selection: bool,
    toolbar_focused: bool,
    double_click: bool,
)
    requires
        tool == Tool::Pen || tool == Tool::Rectangle || tool == Tool::Arrow || tool == Tool::Text
            || tool == Tool::Number || tool == Tool::Mosaic,
    ensures
        spec_press_action(false, false, text_input_open, toolbar_shown, tool, handle, inside_selection, toolbar_focused, double_click)
            == PressAction::BeginAnnotation,
{
}

/// A double click inside the selection, with a selection tool and the toolbar not focused,
/// copies and finishes unless it lands on a handle that starts a resize.
pub proof fn lemma_double_click_inside_copies(
    text_input_open: bool,
    toolbar_shown: bool,
    tool: Tool,
    handle: Option<ResizeHandle>,
)
    requires
        tool == Tool::Select || tool == Tool::MoveBox,
        text_input_open || !toolbar_shown || handle is None,
    ensures
        spec_press_action(false, false, text_input_open, toolbar_shown, tool, handle, true, false, true)
            == PressAction::CopyAndFinish,
{
}

/// Without a finished selection (no toolbar), a single press with the Select tool drags out a
/// new selection; with MoveBox a single press inside the selection, off the focused toolbar,
/// drags it.
pub proof fn lemma_single_press_selects_or_moves(
    in_toolbar: bool,
    text_input_open: bool,
    toolbar_shown: bool,
    handle: Option<ResizeHandle>,
    inside_selection: bool,
    toolbar_focused: bool,
)
    ensures
        spec_press_action(false, in_toolbar, text_input_open, false, Tool::Select, handle, inside_selection, toolbar_focused, false)
            == PressAction::BeginSelection,
        (!(toolbar_shown && in_toolbar) && (text_input_open || !toolbar_shown || handle is None))
            ==> spec_press_action(false, in_toolbar, text_input_open, toolbar_shown, Tool::MoveBox, handle, true, false, false)
            == PressAction::BeginMove,
{
}

/// A press that starts a resize forgets the remembered click, so the release of a resize
/// is never the first half of a double click; a copy or an ignored press leaves it, and every
/// other press becomes the click remembered.
pub proof fn lemma_click_memory_after_press(h: ResizeHandle)
    ensures
        spec_click_memory(PressAction::BeginResize(h)) == ClickMemory::Forget,
        spec_click_memory(PressAction::Ignore) == ClickMemory::Keep,
        spec_click_memory(PressAction::CopyAndFinish) == ClickMemory::Keep,
        spec_click_memory(PressAction::BeginSelection) == ClickMemory::Remember,
        spec_click_memory(PressAction::BeginMove) == ClickMemory::Remember,
        spec_click_memory(PressAction::BeginAnnotation) == ClickMemory::Remember,
        spec_click_memory(PressAction::Nothing) == ClickMemory::Remember,
{
}

/// A release ends a resize before anything else. A finished selection either submits the
/// OCR recapture or shows the toolbar, never both, and neither when it is empty. A move ends
/// next.
pub proof fn lemma_release_ends_the_drag_in_progress(
    selecting: bool,
    selection_nonempty: bool,
    recapture_pending: bool,
    moving: bool,
    tool: Tool,
    annotation: Option<(Tool, usize)>,
)
    ensures
        spec_release_action(true, selecting, selection_nonempty, recapture_pending, moving, tool, annotation)
            == ReleaseAction::EndResize,
        spec_release_action(false, true, selection_nonempty, recapture_pending, moving, tool, annotation)
            matches ReleaseAction::EndSelection { finish_recapture, show_toolbar } && (finish_recapture
            == (selection_nonempty && recapture_pending)) && (show_toolbar == (selection_nonempty
            && !recapture_pending)) && !(finish_recapture && show_toolbar),
        spec_release_action(false, false, selection_nonempty, recapture_pending, true, tool, annotation)
            == ReleaseAction::EndMove,
{
}

/// Outside a drag, a release keeps the mark being drawn once it has enough points (one for
/// a mosaic or a number, two for the others) and drops it otherwise; with the Text tool a
/// release does nothing.
pub proof fn lemma_release_commits_marks_with_enough_points(
    selection_nonempty: bool,
    recapture_pending: bool,
    tool: Tool,
    mark: Tool,
    n: usize,
)
    requires
        tool != Tool::Text,
    ensures
        spec_release_action(false, false, selection_nonempty, recapture_pending, false, Tool::Text, Some((mark, n)))
            == ReleaseAction::Nothing,
        spec_release_action(false, false, selection_nonempty, recapture_pending, false, tool, None)
            == ReleaseAction::CancelAnnotation,
        (mark == Tool::Mosaic || mark == Tool::Number) ==> (spec_release_action(
            false, false, selection_nonempty, recapture_pending, false, tool, Some((mark, n)),
        ) == if n >= 1 { ReleaseAction::CommitAnnotation } else { ReleaseAction::CancelAnnotation }),
        (mark != Tool::Mosaic && mark != Tool::Number) ==> (spec_release_action(
            false, false, selection_nonempty, recapture_pending, false, tool, Some((mark, n)),
        ) == if n >= 2 { ReleaseAction::CommitAnnotation } else { ReleaseAction::CancelAnnotation }),
{
}

} // verus!
