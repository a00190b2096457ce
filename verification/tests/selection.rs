use legend_shot::selection::{mouse_selection_between, ResizeCursor, ResizeHandle};

#[test]
fn resize_cursor_matches_handle_axis() {
    for (handle, expected) in [
        (ResizeHandle::North, ResizeCursor::ResizeVertical),
        (ResizeHandle::East, ResizeCursor::ResizeHorizontal),
        (ResizeHandle::NorthWest, ResizeCursor::ResizeNwSe),
        (ResizeHandle::SouthEast, ResizeCursor::ResizeNwSe),
        (ResizeHandle::NorthEast, ResizeCursor::ResizeNeSw),
        (ResizeHandle::SouthWest, ResizeCursor::ResizeNeSw),
    ] {
        assert_eq!(handle.cursor(), expected);
    }
}

#[test]
fn each_handle_moves_only_its_edges() {
    let west = ResizeHandle::West.edges();
    assert!(west.left && !west.right && !west.top && !west.bottom);
    let south_east = ResizeHandle::SouthEast.edges();
    assert!(!south_east.left && south_east.right && !south_east.top && south_east.bottom);
    let north = ResizeHandle::North.edges();
    assert!(!north.left && !north.right && north.top && !north.bottom);
}

#[test]
fn mouse_selection_is_normalized_in_either_drag_direction() {
    let r = mouse_selection_between((300, 500), (-200, 100));
    assert_eq!(r.start, (-200, 100));
    assert_eq!(r.end, (300, 500));
    let same = mouse_selection_between((-200, 500), (300, 100));
    assert_eq!(same.start, (-200, 100));
    assert_eq!(same.end, (300, 500));
}
