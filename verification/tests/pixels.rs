use legend_shot::pixels::{alpha_bounds, mosaic, PixelImage, Rgba8};

fn image_from_fn(width: u32, height: u32, f: impl Fn(u32, u32) -> Rgba8) -> PixelImage {
    let mut pixels = Vec::new();
    for y in 0..height {
        for x in 0..width {
            pixels.push(f(x, y));
        }
    }
    PixelImage {
        width,
        height,
        pixels,
    }
}

fn pixel(image: &PixelImage, x: u32, y: u32) -> Rgba8 {
    image.pixels[(y * image.width + x) as usize]
}

fn rgba(r: u8, g: u8, b: u8, a: u8) -> Rgba8 {
    Rgba8 { r, g, b, a }
}

#[test]
fn alpha_bounds_of_a_transparent_image_is_none() {
    let image = image_from_fn(5, 4, |_, _| rgba(255, 255, 255, 0));
    assert_eq!(alpha_bounds(&image), None);
    let empty = image_from_fn(0, 0, |_, _| rgba(0, 0, 0, 0));
    assert_eq!(alpha_bounds(&empty), None);
}

#[test]
fn alpha_bounds_encloses_every_visible_pixel_tightly() {
    let visible = [(3, 1), (1, 2), (4, 5)];
    let image = image_from_fn(7, 8, |x, y| {
        if visible.contains(&(x, y)) {
            rgba(255, 255, 255, 1)
        } else {
            rgba(255, 0, 0, 0)
        }
    });
    assert_eq!(alpha_bounds(&image), Some((1, 1, 4, 5)));
}

#[test]
fn alpha_bounds_of_a_single_visible_pixel() {
    let image = image_from_fn(3, 3, |x, y| rgba(0, 0, 0, if (x, y) == (2, 0) { 200 } else { 0 }));
    assert_eq!(alpha_bounds(&image), Some((2, 0, 2, 0)));
}

#[test]
fn mosaic_annotation_still_renders_from_the_unmodified_background() {
    let source = image_from_fn(8, 8, |x, y| rgba((x * 16) as u8, (y * 16) as u8, 0, 255));
    let mut image = image_from_fn(8, 8, |x, y| rgba((x * 16) as u8, (y * 16) as u8, 0, 255));

    mosaic(&mut image, &source, 0, 0, 8, 8, 4);

    assert_eq!(pixel(&image, 0, 0), rgba(24, 24, 0, 255));
    assert_eq!(pixel(&image, 4, 4), rgba(88, 88, 0, 255));
    assert_eq!(pixel(&image, 7, 0), rgba(88, 24, 0, 255));
}

#[test]
fn mosaic_reads_the_source_not_the_painted_image() {
    let source = image_from_fn(4, 4, |_, _| rgba(10, 20, 30, 255));
    let mut image = image_from_fn(4, 4, |_, _| rgba(200, 200, 200, 100));

    mosaic(&mut image, &source, 0, 0, 2, 2, 2);

    assert_eq!(pixel(&image, 1, 1), rgba(10, 20, 30, 255));
    assert_eq!(pixel(&image, 2, 2), rgba(200, 200, 200, 100));
}

#[test]
fn mosaic_clips_blocks_at_the_region_edge() {
    let source = image_from_fn(5, 1, |x, _| rgba((x * 10) as u8, 0, 0, 255));
    let mut image = image_from_fn(5, 1, |_, _| rgba(0, 0, 0, 0));

    mosaic(&mut image, &source, 0, 0, 5, 1, 2);

    assert_eq!(pixel(&image, 0, 0), rgba(5, 0, 0, 255));
    assert_eq!(pixel(&image, 1, 0), rgba(5, 0, 0, 255));
    assert_eq!(pixel(&image, 2, 0), rgba(25, 0, 0, 255));
    assert_eq!(pixel(&image, 4, 0), rgba(40, 0, 0, 255));
}

#[test]
fn mosaic_block_without_source_pixels_is_left_alone() {
    let source = image_from_fn(2, 2, |_, _| rgba(90, 90, 90, 255));
    let mut image = image_from_fn(6, 2, |_, _| rgba(1, 2, 3, 4));

    mosaic(&mut image, &source, 0, 0, 6, 2, 2);

    assert_eq!(pixel(&image, 0, 0), rgba(90, 90, 90, 255));
    assert_eq!(pixel(&image, 3, 1), rgba(1, 2, 3, 4));
    assert_eq!(pixel(&image, 5, 0), rgba(1, 2, 3, 4));
}

#[test]
fn mosaic_outside_the_region_changes_nothing() {
    let source = image_from_fn(4, 4, |x, y| rgba((x * 50) as u8, (y * 50) as u8, 7, 255));
    let mut image = image_from_fn(4, 4, |x, y| rgba((x * 50) as u8, (y * 50) as u8, 7, 255));

    mosaic(&mut image, &source, 1, 1, 3, 3, 8);

    assert_eq!(pixel(&image, 0, 0), rgba(0, 0, 7, 255));
    assert_eq!(pixel(&image, 3, 3), rgba(150, 150, 7, 255));
    assert_eq!(pixel(&image, 1, 1), rgba(75, 75, 7, 255));
    assert_eq!(pixel(&image, 2, 2), rgba(75, 75, 7, 255));
}
