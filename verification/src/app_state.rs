use vstd::prelude::*;

use crate::pixels::Rgba8;

verus! {

/// The tools and actions offered by the capture toolbar.
#[derive(Clone, Copy, PartialEq, Eq, Debug, Structural)]
pub enum Tool {
    Select,
    Pen,
    Rectangle,
    Arrow,
    Text,
    MoveBox,
    Number,
    Mosaic,
    ColorPicker,
    Ocr,
    Save,
    Copy,
    Exit,
}

/// A tool that leaves a mark on the capture (as opposed to an action such as OCR or Save).
pub open spec fn spec_is_annotation_tool(tool: Tool) -> bool {
    match tool {
        Tool::Pen | Tool::Rectangle | Tool::Arrow | Tool::Text | Tool::Number | Tool::Mosaic => true,
        _ => false,
    }
}

impl Tool {
    pub fn is_annotation_tool(self) -> (b: bool)
        ensures
            b == spec_is_annotation_tool(self),
    {
        match self {
            Tool::Pen | Tool::Rectangle | Tool::Arrow | Tool::Text | Tool::Number | Tool::Mosaic => true,
            _ => false,
        }
    }
}


/// Tools that keep the toolbar in place while they are selected.
pub open spec fn spec_is_persistent_toolbar_tool(tool: Tool) -> bool {
    spec_is_annotation_tool(tool) || tool == Tool::MoveBox || tool == Tool::ColorPicker
}

pub fn is_persistent_toolbar_tool(tool: Tool) -> (b: bool)
    ensures
        b == spec_is_persistent_toolbar_tool(tool),
{
    tool.is_annotation_tool() || match tool {
        Tool::MoveBox | Tool::ColorPicker => true,
        _ => false,
    }
}

/// Exporting needs an untouched copy of the background exactly when some annotation is a
/// mosaic, since the mosaic averages the pixels under it. `tools` are the annotations' tools.
pub fn requires_mosaic_background(tools: &[Tool]) -> (needed: bool)
    ensures
        needed <==> exists|i: int| 0 <= i < tools@.len() && tools@[i] == Tool::Mosaic,
{
    let mut i: usize = 0;
    while i < tools.len()
        invariant
            i <= tools@.len(),
            forall|j: int| 0 <= j < i ==> tools@[j] != Tool::Mosaic,
        decreases tools@.len() - i,
    {
        if tools[i] == Tool::Mosaic {
            return true;
        }
        i = i + 1;
    }
    false
}

/// The background and foreground (unmultiplied RGBA) of an undo, redo or pin button: blue
/// with white, brighter blue while highlighted; a disabled button keeps the blue hue and
/// the white at a lower alpha.
pub open spec fn spec_toolbar_action_colors(enabled: bool, highlighted: bool) -> (Rgba8, Rgba8) {
    if !enabled {
        (Rgba8 { r: 0, g: 100, b: 255, a: 115 }, Rgba8 { r: 255, g: 255, b: 255, a: 115 })
    } else if highlighted {
        (Rgba8 { r: 30, g: 120, b: 255, a: 255 }, Rgba8 { r: 255, g: 255, b: 255, a: 255 })
    } else {
        (Rgba8 { r: 0, g: 100, b: 255, a: 255 }, Rgba8 { r: 255, g: 255, b: 255, a: 255 })
    }
}

pub fn toolbar_action_colors(enabled: bool, highlighted: bool) -> (colors: (Rgba8, Rgba8))
    ensures
        colors == spec_toolbar_action_colors(enabled, highlighted),
{
    let white = Rgba8 { r: 255, g: 255, b: 255, a: 255 };
    if !enabled {
        return (Rgba8 { r: 0, g: 100, b: 255, a: 115 }, Rgba8 { r: 255, g: 255, b: 255, a: 115 });
    }
    let background = if highlighted {
        Rgba8 { r: 30, g: 120, b: 255, a: 255 }
    } else {
        Rgba8 { r: 0, g: 100, b: 255, a: 255 }
    };
    (background, white)
}

/// A disabled toolbar button has the colour of the enabled one, only more transparent.
pub proof fn lemma_disabled_buttons_keep_their_hue()
    ensures
        ({
            let (enabled, _) = spec_toolbar_action_colors(true, false);
            let (disabled, _) = spec_toolbar_action_colors(false, false);
            &&& (disabled.r, disabled.g, disabled.b) == (enabled.r, enabled.g, enabled.b)
            &&& disabled.a < enabled.a
        }),
{
}

/// A request that a background thread sends to the capture window.
#[derive(Debug, Clone, Copy, PartialEq, Eq, Structural)]
pub enum AppSignal {
    Save,
    Copy,
}

/// How the primary mouse button changed between two pointer samples.
#[derive(Debug, Clone, Copy, PartialEq, Eq, Structural)]
pub enum PrimaryButtonTransition {
    Idle,
    Pressed,
    Held,
    Released,
}

pub open spec fn spec_primary_button_transition(was_down: bool, is_down: bool) -> PrimaryButtonTransition {
    if !was_down && !is_down {
        PrimaryButtonTransition::Idle
    } else if !was_down && is_down {
        PrimaryButtonTransition::Pressed
    } else if was_down && is_down {
        PrimaryButtonTransition::Held
    } else {
        PrimaryButtonTransition::Released
    }
}

/// Press and release are each reported once: only for a change between samples.
pub fn primary_button_transition(was_down: bool, is_down: bool) -> (t: PrimaryButtonTransition)
    ensures
        t == spec_primary_button_transition(was_down, is_down),
{
    match (was_down, is_down) {
        (false, false) => PrimaryButtonTransition::Idle,
        (false, true) => PrimaryButtonTransition::Pressed,
        (true, true) => PrimaryButtonTransition::Held,
        (true, false) => PrimaryButtonTransition::Released,
    }
}

/// Which view the main window shows.
#[derive(Debug, Clone, Copy, PartialEq, Eq, Structural)]
pub enum AppView {
    Capture,
    OcrResult,
}

/// The resident application's life: waiting in the tray, capturing, or exiting.
#[derive(Debug, Clone, Copy, PartialEq, Eq, Structural)]
pub enum AppLifecycle {
    TrayIdle,
    Capturing,
    Exiting,
}

/// Opening the native save dialog waits for a frame in which the toolbar is hidden.
#[derive(Debug, Clone, Copy, PartialEq, Eq, Structural)]
pub enum NativeSaveDialogState {
    Idle,
    WaitingForHiddenFrame { restore_toolbar: bool },
    ReadyToOpen { restore_toolbar: bool },
}

/// Showing the capture overlay waits for one frame rendered while hidden.
#[derive(Debug, Clone, Copy, PartialEq, Eq, Structural)]
pub enum CaptureRevealState {
    Idle,
    WaitingForHiddenFrame,
    ReadyToReveal,
}

impl CaptureRevealState {
    /// Starts waiting for a hidden frame; refused unless idle.
    pub fn begin(&mut self) -> (started: bool)
        ensures
            started == (*old(self) == CaptureRevealState::Idle),
            *final(self) == (if started { CaptureRevealState::WaitingForHiddenFrame } else { *old(self) }),
    {
        if *self != CaptureRevealState::Idle {
            return false;
        }
        *self = CaptureRevealState::WaitingForHiddenFrame;
        true
    }

    /// Records that the hidden frame was rendered.
    pub fn finish_hidden_frame(&mut self) -> (finished: bool)
        ensures
            finished == (*old(self) == CaptureRevealState::WaitingForHiddenFrame),
            *final(self) == (if finished { CaptureRevealState::ReadyToReveal } else { *old(self) }),
    {
        if *self != CaptureRevealState::WaitingForHiddenFrame {
            return false;
        }
        *self = CaptureRevealState::ReadyToReveal;
        true
    }

    /// Whether the overlay may be shown now; a reveal is handed out once.
    pub fn take_reveal(&mut self) -> (reveal: bool)
        ensures
            reveal == (*old(self) == CaptureRevealState::ReadyToReveal),
            *final(self) == (if reveal { CaptureRevealState::Idle } else { *old(self) }),
    {
        if *self != CaptureRevealState::ReadyToReveal {
            return false;
        }
        *self = CaptureRevealState::Idle;
        true
    }
}

/// The dialog state after one more frame, and the toolbar flag when the dialog may open now.
pub open spec fn spec_advance_frame(s: NativeSaveDialogState) -> (NativeSaveDialogState, Option<bool>) {
    match s {
        NativeSaveDialogState::Idle => (NativeSaveDialogState::Idle, None),
        NativeSaveDialogState::WaitingForHiddenFrame { restore_toolbar } => (
            NativeSaveDialogState::ReadyToOpen { restore_toolbar },
            None,
        ),
        NativeSaveDialogState::ReadyToOpen { restore_toolbar } => (
            NativeSaveDialogState::Idle,
            Some(restore_toolbar),
        ),
    }
}

impl NativeSaveDialogState {
    /// Requests the dialog; a second request while one is pending is refused.
    pub fn begin(&mut self, restore_toolbar: bool) -> (started: bool)
        ensures
            started == (*old(self) == NativeSaveDialogState::Idle),
            *final(self) == (if started {
                NativeSaveDialogState::WaitingForHiddenFrame { restore_toolbar }
            } else {
                *old(self)
            }),
    {
        if *self != NativeSaveDialogState::Idle {
            return false;
        }
        *self = NativeSaveDialogState::WaitingForHiddenFrame { restore_toolbar };
        true
    }

    /// Advances one frame; gives the toolbar flag when the dialog may open now.
    pub fn advance_frame(&mut self) -> (open: Option<bool>)
        ensures
            (*final(self), open) == spec_advance_frame(*old(self)),
    {
        match *self {
            NativeSaveDialogState::Idle => None,
            NativeSaveDialogState::WaitingForHiddenFrame { restore_toolbar } => {
                *self = NativeSaveDialogState::ReadyToOpen { restore_toolbar };
                None
            },
            NativeSaveDialogState::ReadyToOpen { restore_toolbar } => {
                *self = NativeSaveDialogState::Idle;
                Some(restore_toolbar)
            },
        }
    }
}

impl AppLifecycle {
    /// Starts a capture from the tray; refused while capturing or exiting.
    pub fn begin_capture(&mut self) -> (started: bool)
        ensures
            started == (*old(self) == AppLifecycle::TrayIdle),
            *final(self) == (if started { AppLifecycle::Capturing } else { *old(self) }),
    {
        if *self != AppLifecycle::TrayIdle {
            return false;
        }
        *self = AppLifecycle::Capturing;
        true
    }

    /// Returns to the tray after a capture, unless the application is exiting.
    pub fn finish_capture(&mut self)
        ensures
            *final(self) == (if *old(self) == AppLifecycle::Exiting {
                AppLifecycle::Exiting
            } else {
                AppLifecycle::TrayIdle
            }),
    {
        if *self != AppLifecycle::Exiting {
            *self = AppLifecycle::TrayIdle;
        }
    }

    pub fn exit(&mut self)
        ensures
            *final(self) == AppLifecycle::Exiting,
    {
        *self = AppLifecycle::Exiting;
    }
}

/// The save dialog opens on the second frame after it is requested, with the toolbar flag
/// given at the request, and the state is idle again.
pub proof fn lemma_save_dialog_opens_after_hidden_frame(restore_toolbar: bool)
    ensures
        ({
            let waiting = NativeSaveDialogState::WaitingForHiddenFrame { restore_toolbar };
            let (ready, first) = spec_advance_frame(waiting);
            let (after, second) = spec_advance_frame(ready);
            &&& first is None
            &&& second == Some(restore_toolbar)
            &&& after == NativeSaveDialogState::Idle
        }),
{
}

} // verus!
