use legend_shot::display::{tile_rects, PixelRect};

#[test]
fn tiles_one_display_without_reusing_another_display_identity() {
    assert_eq!(
        tile_rects((4097, 2050), 2048),
        vec![
            PixelRect { x: 0, y: 0, width: 2048, height: 2048 },
            PixelRect { x: 2048, y: 0, width: 2048, height: 2048 },
            PixelRect { x: 4096, y: 0, width: 1, height: 2048 },
            PixelRect { x: 0, y: 2048, width: 2048, height: 2 },
            PixelRect { x: 2048, y: 2048, width: 2048, height: 2 },
            PixelRect { x: 4096, y: 2048, width: 1, height: 2 },
        ]
    );
}

#[test]
fn empty_image_or_zero_tile_size_gives_no_tiles() {
    assert!(tile_rects((0, 10), 4).is_empty());
    assert!(tile_rects((10, 0), 4).is_empty());
    assert!(tile_rects((10, 10), 0).is_empty());
}

#[test]
fn image_smaller_than_a_tile_is_one_tile() {
    assert_eq!(tile_rects((20, 20), 20), vec![PixelRect { x: 0, y: 0, width: 20, height: 20 }]);
    assert_eq!(tile_rects((1, 2), 2048), vec![PixelRect { x: 0, y: 0, width: 1, height: 2 }]);
}

#[test]
fn tiles_cover_every_pixel_exactly_once() {
    let (width, height) = (37u32, 23u32);
    let tiles = tile_rects((width, height), 10);
    assert_eq!(tiles.len(), 12);
    for y in 0..height {
        for x in 0..width {
            let count = tiles
                .iter()
                .filter(|t| t.x <= x && x < t.x + t.width && t.y <= y && y < t.y + t.height)
                .count();
            assert_eq!(count, 1);
        }
    }
    assert_eq!(tiles.iter().filter(|t| t.y == 0).map(|t| t.width).sum::<u32>(), width);
}

#[test]
fn oversized_row_is_split_without_downsampling() {
    let tiles = tile_rects((4097, 2), 2048);
    assert_eq!(tiles.len(), 3);
    assert!(tiles.iter().all(|t| t.width <= 2048));
    assert_eq!(tiles.iter().map(|t| t.width).sum::<u32>(), 4097);
}

#[test]
fn largest_image_does_not_overflow_positions() {
    let tiles = tile_rects((u32::MAX, 1), u32::MAX / 2 + 1);
    assert_eq!(
        tiles,
        vec![
            PixelRect { x: 0, y: 0, width: u32::MAX / 2 + 1, height: 1 },
            PixelRect { x: u32::MAX / 2 + 1, y: 0, width: u32::MAX / 2, height: 1 },
        ]
    );
}
