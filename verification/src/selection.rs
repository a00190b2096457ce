use vstd::prelude::*;

use crate::app_state::Tool;

verus! {

/// The eight handles on the edges and corners of a selection.
#[derive(Debug, Clone, Copy, PartialEq, Eq, Structural)]
pub enum ResizeHandle {
    NorthWest,
    North,
    NorthEast,
    East,
    SouthEast,
    South,
    SouthWest,
    West,
}

/// Mouse cursors that show along which axis a handle resizes.
#[derive(Debug, Clone, Copy, PartialEq, Eq, Structural)]
pub enum ResizeCursor {
    ResizeVertical,
    ResizeHorizontal,
    ResizeNwSe,
    ResizeNeSw,
}

pub open spec fn spec_cursor(handle: ResizeHandle) -> ResizeCursor {
    match handle {
        ResizeHandle::North | ResizeHandle::South => ResizeCursor::ResizeVertical,
        ResizeHandle::East | ResizeHandle::West => ResizeCursor::ResizeHorizontal,
        ResizeHandle::NorthWest | ResizeHandle::SouthEast => ResizeCursor::ResizeNwSe,
        ResizeHandle::NorthEast | ResizeHandle::SouthWest => ResizeCursor::ResizeNeSw,
    }
}

/// Whether the handle moves the left edge.
pub open spec fn moves_left(handle: ResizeHandle) -> bool {
    handle == ResizeHandle::NorthWest || handle == ResizeHandle::West || handle == ResizeHandle::SouthWest
}

/// Whether the handle moves the right edge.
pub open spec fn moves_right(handle: ResizeHandle) -> bool {
    handle == ResizeHandle::NorthEast || handle == ResizeHandle::East || handle == ResizeHandle::SouthEast
}

/// Whether the handle moves the top edge.
pub open spec fn moves_top(handle: ResizeHandle) -> bool {
    handle == ResizeHandle::NorthWest || handle == ResizeHandle::North || handle == ResizeHandle::NorthEast
}

/// Whether the handle moves the bottom edge.
pub open spec fn moves_bottom(handle: ResizeHandle) -> bool {
    handle == ResizeHandle::SouthWest || handle == ResizeHandle::South || handle == ResizeHandle::SouthEast
}

/// The edges that a handle moves: `(left, right, top, bottom)`.
#[derive(Debug, Clone, Copy, PartialEq, Eq, Structural)]
pub struct HandleEdges {
    pub left: bool,
    pub right: bool,
    pub top: bool,
    pub bottom: bool,
}

impl ResizeHandle {
    /// The cursor shown over this handle.
    pub fn cursor(self) -> (c: ResizeCursor)
        ensures
            c == spec_cursor(self),
    {
        match self {
            ResizeHandle::North | ResizeHandle::South => ResizeCursor::ResizeVertical,
            ResizeHandle::East | ResizeHandle::West => ResizeCursor::ResizeHorizontal,
            ResizeHandle::NorthWest | ResizeHandle::SouthEast => ResizeCursor::ResizeNwSe,
            ResizeHandle::NorthEast | ResizeHandle::SouthWest => ResizeCursor::ResizeNeSw,
        }
    }

    /// The edges that dragging this handle moves; the opposite edges stay anchored.
    pub fn edges(self) -> (e: HandleEdges)
        ensures
            e.left == moves_left(self),
            e.right == moves_right(self),
            e.top == moves_top(self),
            e.bottom == moves_bottom(self),
    {
        HandleEdges {
            left: match self {
                ResizeHandle::NorthWest | ResizeHandle::West | ResizeHandle::SouthWest => true,
                _ => false,
            },
            right: match self {
                ResizeHandle::NorthEast | ResizeHandle::East | ResizeHandle::SouthEast => true,
                _ => false,
            },
            top: match self {
                ResizeHandle::NorthWest | ResizeHandle::North | ResizeHandle::NorthEast => true,
                _ => false,
            },
            bottom: match self {
                ResizeHandle::SouthWest | ResizeHandle::South | ResizeHandle::SouthEast => true,
                _ => false,
            },
        }
    }
}

/// A handle never moves two opposite edges, and the cursor runs along the moved edges.
pub proof fn lemma_handles_move_one_edge_per_axis(handle: ResizeHandle)
    ensures
        !(moves_left(handle) && moves_right(handle)),
        !(moves_top(handle) && moves_bottom(handle)),
        spec_cursor(handle) == ResizeCursor::ResizeVertical <==> (!moves_left(handle) && !moves_right(handle)),
        spec_cursor(handle) == ResizeCursor::ResizeHorizontal <==> (!moves_top(handle) && !moves_bottom(handle)),
{
}

/// Whether the selection tools (select, move) are active, for which the handles are shown.
pub fn is_selection_tool(tool: Tool) -> (b: bool)
    ensures
        b == (tool == Tool::Select || tool == Tool::MoveBox),
{
    match tool {
        Tool::Select | Tool::MoveBox => true,
        _ => false,
    }
}

/// A selection in screen pixels, from its top-left to its bottom-right corner.
#[derive(Clone, Copy, Debug, PartialEq, Eq)]
pub struct MouseSelectionRect {
    pub start: (i32, i32),
    pub end: (i32, i32),
}

pub open spec fn min_i32(a: i32, b: i32) -> i32 {
    if a <= b { a } else { b }
}

pub open spec fn max_i32(a: i32, b: i32) -> i32 {
    if a >= b { a } else { b }
}

/// The selection spanned by two pointer positions, in whatever order they were dragged.
pub fn mouse_selection_between(a: (i32, i32), b: (i32, i32)) -> (r: MouseSelectionRect)
    ensures
        r.start == (min_i32(a.0, b.0), min_i32(a.1, b.1)),
        r.end == (max_i32(a.0, b.0), max_i32(a.1, b.1)),
        r.start.0 <= r.end.0,
        r.start.1 <= r.end.1,
{
    MouseSelectionRect {
        start: (if a.0 <= b.0 { a.0 } else { b.0 }, if a.1 <= b.1 { a.1 } else { b.1 }),
        end: (if a.0 >= b.0 { a.0 } else { b.0 }, if a.1 >= b.1 { a.1 } else { b.1 }),
    }
}

} // verus!
