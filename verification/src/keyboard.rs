use vstd::prelude::*;

verus! {

/// What Escape does in the capture window.
#[derive(Debug, Clone, Copy, PartialEq, Eq, Structural)]
pub enum EscapeAction {
    CancelRecapture,
    CancelTextInput,
    CancelEdit,
    ClearSelection,
    HideCaptureWindow,
}

/// Escape undoes the innermost thing in progress: an OCR recapture, then text being typed,
/// then a move or resize of the selection, then the selection itself; with nothing left it
/// hides the capture window.
pub open spec fn spec_escape_action(
    recapture_pending: bool,
    text_input_open: bool,
    moving_or_resizing: bool,
    toolbar_shown: bool,
) -> EscapeAction {
    if recapture_pending {
        EscapeAction::CancelRecapture
    } else if text_input_open {
        EscapeAction::CancelTextInput
    } else if moving_or_resizing {
        EscapeAction::CancelEdit
    } else if toolbar_shown {
        EscapeAction::ClearSelection
    } else {
        EscapeAction::HideCaptureWindow
    }
}

pub fn escape_action(
    recapture_pending: bool,
    text_input_open: bool,
    moving_or_resizing: bool,
    toolbar_shown: bool,
) -> (action: EscapeAction)
    ensures
        action == spec_escape_action(recapture_pending, text_input_open, moving_or_resizing, toolbar_shown),
{
    if recapture_pending {
        EscapeAction::CancelRecapture
    } else if text_input_open {
        EscapeAction::CancelTextInput
    } else if moving_or_resizing {
        EscapeAction::CancelEdit
    } else if toolbar_shown {
        EscapeAction::ClearSelection
    } else {
        EscapeAction::HideCaptureWindow
    }
}

/// An arrow key.
#[derive(Debug, Clone, Copy, PartialEq, Eq, Structural)]
pub enum ArrowKey {
    Left,
    Right,
    Up,
    Down,
}

/// A keyboard nudge of the selection by `(dx, dy)` logical pixels: a move, or with Alt a
/// resize of its right and bottom edges.
#[derive(Debug, Clone, Copy, PartialEq, Eq, Structural)]
pub struct Nudge {
    pub dx: i32,
    pub dy: i32,
    pub resize: bool,
}

/// The nudge for an arrow key: one pixel, ten with Shift; none while Command or Ctrl is held
/// (those combinations belong to other shortcuts).
pub open spec fn spec_arrow_nudge(key: ArrowKey, command: bool, shift: bool, alt: bool) -> Option<Nudge> {
    if command {
        None
    } else {
        let step: i32 = if shift { 10 } else { 1 };
        let (dx, dy): (i32, i32) = match key {
            ArrowKey::Left => ((0 - step) as i32, 0),
            ArrowKey::Right => (step, 0),
            ArrowKey::Up => (0, (0 - step) as i32),
            ArrowKey::Down => (0, step),
        };
        Some(Nudge { dx, dy, resize: alt })
    }
}

pub fn arrow_nudge(key: ArrowKey, command: bool, shift: bool, alt: bool) -> (nudge: Option<Nudge>)
    ensures
        nudge == spec_arrow_nudge(key, command, shift, alt),
{
    if command {
        return None;
    }
    let step: i32 = if shift {
        10
    } else {
        1
    };
    let (dx, dy): (i32, i32) = match key {
        ArrowKey::Left => (-step, 0),
        ArrowKey::Right => (step, 0),
        ArrowKey::Up => (0, -step),
        ArrowKey::Down => (0, step),
    };
    Some(Nudge { dx, dy, resize: alt })
}

/// Arrow keys move the selection only while no text is being typed, its toolbar shows, and
/// no pointer interaction or unfinished annotation is in progress.
pub fn keyboard_nudge_allowed(
    text_input_open: bool,
    toolbar_shown: bool,
    selecting: bool,
    moving: bool,
    resizing: bool,
    annotating: bool,
) -> (allowed: bool)
    ensures
        allowed == (!text_input_open && toolbar_shown && !selecting && !moving && !resizing
            && !annotating),
{
    !text_input_open && toolbar_shown && !selecting && !moving && !resizing && !annotating
}

/// An undo or redo asked for from the keyboard.
#[derive(Debug, Clone, Copy, PartialEq, Eq, Structural)]
pub enum HistoryKey {
    Undo,
    Redo,
}

/// The capture window's shortcuts of one frame: undo or redo, copy (which finishes the
/// capture), save.
#[derive(Debug, Clone, Copy, PartialEq, Eq, Structural)]
pub struct CaptureShortcuts {
    pub history: Option<HistoryKey>,
    pub copy: bool,
    pub save: bool,
}

/// While text is being typed the shortcuts belong to the text editor. Otherwise
/// Command+Shift+Z redoes, and so does Ctrl+Y off macOS; else Command+Z undoes; a copy
/// (Command+C or the copy event) needs a selection and then ends the frame's handling, so
/// that Command+S saves only without it.
pub open spec fn spec_capture_shortcuts(
    text_input_open: bool,
    is_macos: bool,
    command_shift_z: bool,
    command_y: bool,
    command_z: bool,
    copy_pressed: bool,
    has_selection: bool,
    command_s: bool,
) -> CaptureShortcuts {
    if text_input_open {
        CaptureShortcuts { history: None, copy: false, save: false }
    } else {
        let copy = copy_pressed && has_selection;
        CaptureShortcuts {
            history: if command_shift_z || (!is_macos && command_y) {
                Some(HistoryKey::Redo)
            } else if command_z {
                Some(HistoryKey::Undo)
            } else {
                None
            },
            copy,
            save: !copy && command_s,
        }
    }
}

pub fn capture_shortcuts(
    text_input_open: bool,
    is_macos: bool,
    command_shift_z: bool,
    command_y: bool,
    command_z: bool,
    copy_pressed: bool,
    has_selection: bool,
    command_s: bool,
) -> (shortcuts: CaptureShortcuts)
    ensures
        shortcuts == spec_capture_shortcuts(
            text_input_open,
            is_macos,
            command_shift_z,
            command_y,
            command_z,
            copy_pressed,
            has_selection,
            command_s,
        ),
{
    if text_input_open {
        return CaptureShortcuts { history: None, copy: false, save: false };
    }
    let history = if command_shift_z || (!is_macos && command_y) {
        Some(HistoryKey::Redo)
    } else if command_z {
        Some(HistoryKey::Undo)
    } else {
        None
    };
    let copy = copy_pressed && has_selection;
    CaptureShortcuts { history, copy, save: !copy && command_s }
}

/// Outside text input, Command+Z (Ctrl+Z off macOS) undoes on every platform unless a redo
/// shortcut is pressed with it; on macOS Command+Y is no redo, so Command+Z still undoes.
pub proof fn lemma_command_z_undoes_on_every_platform(
    is_macos: bool,
    command_y: bool,
    copy_pressed: bool,
    has_selection: bool,
    command_s: bool,
)
    ensures
        spec_capture_shortcuts(false, is_macos, false, false, true, copy_pressed, has_selection, command_s).history
            == Some(HistoryKey::Undo),
        spec_capture_shortcuts(false, true, false, command_y, true, copy_pressed, has_selection, command_s).history
            == Some(HistoryKey::Undo),
        spec_capture_shortcuts(false, true, false, false, true, copy_pressed, has_selection, command_s)
            == spec_capture_shortcuts(false, false, false, false, true, copy_pressed, has_selection, command_s),
{
}

/// Outside text input, Command+Shift+Z redoes on every platform, and so does Ctrl+Y off macOS,
/// whatever else is pressed; with none of the three history keys nothing is undone or redone.
pub proof fn lemma_redo_keys(
    is_macos: bool,
    command_y: bool,
    command_z: bool,
    copy_pressed: bool,
    has_selection: bool,
    command_s: bool,
)
    ensures
        spec_capture_shortcuts(false, is_macos, true, command_y, command_z, copy_pressed, has_selection, command_s).history
            == Some(HistoryKey::Redo),
        spec_capture_shortcuts(false, false, false, true, command_z, copy_pressed, has_selection, command_s).history
            == Some(HistoryKey::Redo),
        spec_capture_shortcuts(false, true, false, command_y, false, copy_pressed, has_selection, command_s).history
            is None,
        spec_capture_shortcuts(false, is_macos, false, false, false, copy_pressed, has_selection, command_s).history
            is None,
{
}

/// While text is typed no capture shortcut fires; otherwise a copy fires exactly when it is
/// asked for and there is a selection, and a save exactly when asked for without a copy.
pub proof fn lemma_copy_and_save_shortcuts(
    is_macos: bool,
    command_shift_z: bool,
    command_y: bool,
    command_z: bool,
    copy_pressed: bool,
    has_selection: bool,
    command_s: bool,
)
    ensures
        spec_capture_shortcuts(true, is_macos, command_shift_z, command_y, command_z, copy_pressed, has_selection, command_s)
            == (CaptureShortcuts { history: None, copy: false, save: false }),
        spec_capture_shortcuts(false, is_macos, command_shift_z, command_y, command_z, copy_pressed, has_selection, command_s).copy
            == (copy_pressed && has_selection),
        spec_capture_shortcuts(false, is_macos, command_shift_z, command_y, command_z, copy_pressed, has_selection, command_s).save
            == (command_s && !(copy_pressed && has_selection)),
{
}

/// Escape cancels the innermost thing in progress first: a pending recapture before typed
/// text, typed text before a drag, a drag before the selection; only with nothing at all in
/// progress does it hide the capture window.
pub proof fn lemma_escape_cancels_innermost_first(
    text_input_open: bool,
    moving_or_resizing: bool,
    toolbar_shown: bool,
)
    ensures
        spec_escape_action(true, text_input_open, moving_or_resizing, toolbar_shown)
            == EscapeAction::CancelRecapture,
        spec_escape_action(false, true, moving_or_resizing, toolbar_shown)
            == EscapeAction::CancelTextInput,
        spec_escape_action(false, false, true, toolbar_shown) == EscapeAction::CancelEdit,
        spec_escape_action(false, false, false, true) == EscapeAction::ClearSelection,
        spec_escape_action(false, false, false, false) == EscapeAction::HideCaptureWindow,
{
}

/// An arrow key nudges by one pixel, or ten with Shift, along its own axis and direction:
/// Left and Right, Up and Down are opposite; Alt makes it a resize; with Command or Ctrl held
/// there is no nudge.
pub proof fn lemma_arrow_nudges(key: ArrowKey, shift: bool, alt: bool)
    ensures
        spec_arrow_nudge(key, true, shift, alt) is None,
        spec_arrow_nudge(key, false, shift, alt) is Some,
        spec_arrow_nudge(ArrowKey::Right, false, shift, alt) == Some(
            Nudge { dx: if shift { 10i32 } else { 1i32 }, dy: 0, resize: alt },
        ),
        spec_arrow_nudge(ArrowKey::Down, false, shift, alt) == Some(
            Nudge { dx: 0, dy: if shift { 10i32 } else { 1i32 }, resize: alt },
        ),
        spec_arrow_nudge(ArrowKey::Left, false, shift, alt)->0.dx == -spec_arrow_nudge(
            ArrowKey::Right,
            false,
            shift,
            alt,
        )->0.dx,
        spec_arrow_nudge(ArrowKey::Left, false, shift, alt)->0.dy == 0,
        spec_arrow_nudge(ArrowKey::Up, false, shift, alt)->0.dy == -spec_arrow_nudge(
            ArrowKey::Down,
            false,
            shift,
            alt,
        )->0.dy,
        spec_arrow_nudge(ArrowKey::Up, false, shift, alt)->0.dx == 0,
        spec_arrow_nudge(ArrowKey::Left, false, shift, alt)->0.resize == alt,
        spec_arrow_nudge(ArrowKey::Up, false, shift, alt)->0.resize == alt,
{
}

} // verus!
