use vstd::prelude::*;

use vstd::arithmetic::div_mod::{lemma_fundamental_div_mod, lemma_mod_bound};

verus! {

/// One RGBA pixel, eight bits per channel.
#[derive(Debug, Clone, Copy, PartialEq, Eq, Structural)]
pub struct Rgba8 {
    pub r: u8,
    pub g: u8,
    pub b: u8,
    pub a: u8,
}

/// An RGBA image stored row by row: the pixel at column `x` of row `y` is
/// `pixels[y * width + x]`.
pub struct PixelImage {
    pub width: u32,
    pub height: u32,
    pub pixels: Vec<Rgba8>,
}

impl PixelImage {
    /// The pixel vector holds exactly one pixel per position.
    pub open spec fn wf(&self) -> bool {
        self.pixels@.len() == self.width * self.height
    }

    pub open spec fn contains(&self, x: int, y: int) -> bool {
        0 <= x < self.width && 0 <= y < self.height
    }

    pub open spec fn at(&self, x: int, y: int) -> Rgba8 {
        self.pixels@[y * self.width + x]
    }

    /// The pixel at `(x, y)` is not fully transparent.
    pub open spec fn visible_at(&self, x: int, y: int) -> bool {
        self.contains(x, y) && self.at(x, y).a != 0
    }
}

/// Row-major positions of a `width`-wide image that are in rows before `y`, or in row `y`
/// before column `x`.
pub open spec fn scanned_before(px: int, py: int, x: int, y: int) -> bool {
    py < y || (py == y && px < x)
}

/// The position `(x, y)` of a `width` × `height` image lies inside its pixel vector.
pub proof fn lemma_pixel_index_in_range(width: int, height: int, x: int, y: int)
    requires
        0 <= x < width,
        0 <= y < height,
    ensures
        0 <= y * width + x < width * height,
        y * width <= y * width + x,
{
    assert(0 <= y * width) by (nonlinear_arith)
        requires
            0 <= y,
            0 <= width,
    ;
    assert(y * width + x < width * height) by (nonlinear_arith)
        requires
            0 <= x < width,
            0 <= y < height,
    ;
}

/// The smallest box around the visible pixels, as `(min_x, min_y, max_x, max_y)`, both ends
/// inclusive; `None` when every pixel is fully transparent.
pub open spec fn is_alpha_bounds(image: PixelImage, bounds: Option<(u32, u32, u32, u32)>) -> bool {
    match bounds {
        None => forall|x: int, y: int| !#[trigger] image.visible_at(x, y),
        Some((x0, y0, x1, y1)) => {
            &&& forall|x: int, y: int|
                #[trigger] image.visible_at(x, y) ==> x0 <= x <= x1 && y0 <= y <= y1
            &&& exists|y: int| #[trigger] image.visible_at(x0 as int, y)
            &&& exists|y: int| #[trigger] image.visible_at(x1 as int, y)
            &&& exists|x: int| #[trigger] image.visible_at(x, y0 as int)
            &&& exists|x: int| #[trigger] image.visible_at(x, y1 as int)
        },
    }
}

/// The loop state of `alpha_bounds` after scanning every position before `(x, y)`.
spec fn scanned_bounds(
    image: PixelImage,
    bounds: Option<(u32, u32, u32, u32)>,
    x: int,
    y: int,
    witnesses: (int, int, int, int),
) -> bool {
    match bounds {
        None => forall|px: int, py: int|
            #[trigger] image.visible_at(px, py) && scanned_before(px, py, x, y) ==> false,
        Some((x0, y0, x1, y1)) => {
            let (wy0, wy1, wx0, wx1) = witnesses;
            &&& forall|px: int, py: int|
                #[trigger] image.visible_at(px, py) && scanned_before(px, py, x, y) ==> x0 <= px
                    <= x1 && y0 <= py <= y1
            &&& image.visible_at(x0 as int, wy0)
            &&& image.visible_at(x1 as int, wy1)
            &&& image.visible_at(wx0, y0 as int)
            &&& image.visible_at(wx1, y1 as int)
        },
    }
}

/// The box around the pixels that are not fully transparent.
pub fn alpha_bounds(image: &PixelImage) -> (bounds: Option<(u32, u32, u32, u32)>)
    requires
        image.wf(),
    ensures
        is_alpha_bounds(*image, bounds),
{
    let mut bounds: Option<(u32, u32, u32, u32)> = None;
    let ghost mut witnesses: (int, int, int, int) = (0, 0, 0, 0);
    let width = image.width;
    let height = image.height;
    let mut y: u32 = 0;
    while y < height
        invariant
            image.wf(),
            width == image.width,
            height == image.height,
            y <= height,
            scanned_bounds(*image, bounds, 0, y as int, witnesses),
        decreases height - y,
    {
        let mut x: u32 = 0;
        while x < width
            invariant
                image.wf(),
                width == image.width,
                height == image.height,
                y < height,
                x <= width,
                scanned_bounds(*image, bounds, x as int, y as int, witnesses),
            decreases width - x,
        {
            proof {
                lemma_pixel_index_in_range(width as int, height as int, x as int, y as int);
                assert(image.pixels@.len() == image.pixels.len());
            }
            let index = y as usize * width as usize + x as usize;
            let alpha = image.pixels[index].a;
            if alpha != 0 {
                assert(image.visible_at(x as int, y as int));
                match bounds {
                    None => {
                        bounds = Some((x, y, x, y));
                        proof {
                            witnesses = (y as int, y as int, x as int, x as int);
                        }
                    },
                    Some((x0, y0, x1, y1)) => {
                        let ghost (wy0, wy1, wx0, wx1) = witnesses;
                        let nx0 = if x < x0 { x } else { x0 };
                        let ny0 = if y < y0 { y } else { y0 };
                        let nx1 = if x > x1 { x } else { x1 };
                        let ny1 = if y > y1 { y } else { y1 };
                        bounds = Some((nx0, ny0, nx1, ny1));
                        proof {
                            witnesses = (
                                if x < x0 { y as int } else { wy0 },
                                if x > x1 { y as int } else { wy1 },
                                if y < y0 { x as int } else { wx0 },
                                if y > y1 { x as int } else { wx1 },
                            );
                        }
                    },
                }
            }
            assert forall|px: int, py: int|
                #[trigger] image.visible_at(px, py) && scanned_before(px, py, x + 1, y as int)
                    implies scanned_before(px, py, x as int, y as int) || (px == x && py == y) by {
            }
            x = x + 1;
        }
        assert forall|px: int, py: int|
            #[trigger] image.visible_at(px, py) && scanned_before(px, py, 0, y + 1) implies
                scanned_before(px, py, width as int, y as int) by {
        }
        y = y + 1;
    }
    proof {
        assert forall|px: int, py: int| #[trigger] image.visible_at(px, py) implies scanned_before(
            px,
            py,
            0,
            height as int,
        ) by {}
        if let Some((x0, y0, x1, y1)) = bounds {
            let (wy0, wy1, wx0, wx1) = witnesses;
            assert(image.visible_at(x0 as int, wy0));
            assert(image.visible_at(x1 as int, wy1));
            assert(image.visible_at(wx0, y0 as int));
            assert(image.visible_at(wx1, y1 as int));
        }
    }
    bounds
}


/// What the mosaic adds up for a pixel: its red, green or blue value for `m` = 0, 1, 2;
/// for `m` = 3 every pixel counts once, so the sum is the number of pixels.
pub open spec fn measure(p: Rgba8, m: int) -> int {
    if m == 0 {
        p.r as int
    } else if m == 1 {
        p.g as int
    } else if m == 2 {
        p.b as int
    } else {
        1
    }
}

/// The sum of `measure` over the pixels of row `y`, columns `x0..x1`, that lie in the image.
pub open spec fn row_sum(image: PixelImage, m: int, y: int, x0: int, x1: int) -> int
    decreases x1 - x0,
{
    if x1 <= x0 {
        0
    } else {
        row_sum(image, m, y, x0, x1 - 1) + if image.contains(x1 - 1, y) {
            measure(image.at(x1 - 1, y), m)
        } else {
            0
        }
    }
}

/// The sum of `measure` over the pixels of the block `x0..x1` × `y0..y1` that lie in the image.
pub open spec fn block_sum(image: PixelImage, m: int, x0: int, x1: int, y0: int, y1: int) -> int
    decreases y1 - y0,
{
    if y1 <= y0 {
        0
    } else {
        block_sum(image, m, x0, x1, y0, y1 - 1) + row_sum(image, m, y1 - 1, x0, x1)
    }
}

/// The opaque average colour (rounded down) of the image's pixels in the block
/// `x0..x1` × `y0..y1`; `None` when no pixel of the block lies in the image.
pub open spec fn block_average(image: PixelImage, x0: int, x1: int, y0: int, y1: int) -> Option<
    Rgba8,
> {
    let n = block_sum(image, 3, x0, x1, y0, y1);
    if n == 0 {
        None
    } else {
        Some(
            Rgba8 {
                r: (block_sum(image, 0, x0, x1, y0, y1) / n) as u8,
                g: (block_sum(image, 1, x0, x1, y0, y1) / n) as u8,
                b: (block_sum(image, 2, x0, x1, y0, y1) / n) as u8,
                a: 255,
            },
        )
    }
}

/// A block never holds more pixels than its area.
proof fn lemma_scanned_count(rows: int, width: int, columns: int, height: int)
    requires
        0 <= rows < height,
        0 <= columns < width,
    ensures
        rows * width + columns + 1 <= height * width,
{
    assert(rows * width + columns + 1 <= height * width) by (nonlinear_arith)
        requires
            0 <= rows < height,
            0 <= columns < width,
    ;
}

proof fn lemma_next_row(rows: int, width: int)
    ensures
        rows * width + width == (rows + 1) * width,
{
    assert(rows * width + width == (rows + 1) * width) by (nonlinear_arith);
}

/// An average of values that are at most 255 is at most 255.
proof fn lemma_average_fits(sum: int, count: int)
    requires
        0 <= sum <= 255 * count,
        0 < count,
    ensures
        0 <= sum / count <= 255,
{
    assert(0 <= sum / count <= 255) by (nonlinear_arith)
        requires
            0 <= sum <= 255 * count,
            0 < count,
    ;
}

/// The average colour of `source` over the block `x0..x1` × `y0..y1`.
fn average_block(source: &PixelImage, x0: u32, x1: u32, y0: u32, y1: u32) -> (average: Option<Rgba8>)
    requires
        source.wf(),
        x0 <= x1,
        y0 <= y1,
    ensures
        average == block_average(*source, x0 as int, x1 as int, y0 as int, y1 as int),
{
    let ghost width = x1 - x0;
    let ghost height = y1 - y0;
    assert(height * width <= 0x1_0000_0000 * 0x1_0000_0000) by (nonlinear_arith)
        requires
            0 <= height <= 0x1_0000_0000,
            0 <= width <= 0x1_0000_0000,
    ;
    let mut r: u128 = 0;
    let mut g: u128 = 0;
    let mut b: u128 = 0;
    let mut count: u128 = 0;
    let mut y: u32 = y0;
    while y < y1
        invariant
            source.wf(),
            x0 <= x1,
            y0 <= y <= y1,
            width == x1 - x0,
            height == y1 - y0,
            height * width <= 0x1_0000_0000 * 0x1_0000_0000,
            r == block_sum(*source, 0, x0 as int, x1 as int, y0 as int, y as int),
            g == block_sum(*source, 1, x0 as int, x1 as int, y0 as int, y as int),
            b == block_sum(*source, 2, x0 as int, x1 as int, y0 as int, y as int),
            count == block_sum(*source, 3, x0 as int, x1 as int, y0 as int, y as int),
            count <= (y - y0) * width,
            r <= 255 * count,
            g <= 255 * count,
            b <= 255 * count,
        decreases y1 - y,
    {
        let ghost (r_before, g_before, b_before, count_before) = (r, g, b, count);
        let mut x: u32 = x0;
        while x < x1
            invariant
                source.wf(),
                x0 <= x <= x1,
                y0 <= y < y1,
                width == x1 - x0,
                height == y1 - y0,
                height * width <= 0x1_0000_0000 * 0x1_0000_0000,
                r == r_before + row_sum(*source, 0, y as int, x0 as int, x as int),
                g == g_before + row_sum(*source, 1, y as int, x0 as int, x as int),
                b == b_before + row_sum(*source, 2, y as int, x0 as int, x as int),
                count == count_before + row_sum(*source, 3, y as int, x0 as int, x as int),
                count <= (y - y0) * width + (x - x0),
                r <= 255 * count,
                g <= 255 * count,
                b <= 255 * count,
            decreases x1 - x,
        {
            proof {
                lemma_scanned_count(y - y0, width, x - x0, height);
            }
            if x < source.width && y < source.height {
                proof {
                    lemma_pixel_index_in_range(
                        source.width as int,
                        source.height as int,
                        x as int,
                        y as int,
                    );
                    assert(source.pixels@.len() == source.pixels.len());
                }
                let index = y as usize * source.width as usize + x as usize;
                let pixel = source.pixels[index];
                r = r + pixel.r as u128;
                g = g + pixel.g as u128;
                b = b + pixel.b as u128;
                count = count + 1;
            }
            x = x + 1;
        }
        proof {
            lemma_next_row(y - y0, width);
        }
        y = y + 1;
    }
    if count == 0 {
        None
    } else {
        proof {
            lemma_average_fits(r as int, count as int);
            lemma_average_fits(g as int, count as int);
            lemma_average_fits(b as int, count as int);
        }
        Some(
            Rgba8 {
                r: (r / count) as u8,
                g: (g / count) as u8,
                b: (b / count) as u8,
                a: 255,
            },
        )
    }
}


/// Distinct positions of a `width`-wide image have distinct places in its pixel vector.
proof fn lemma_pixel_index_unique(width: int, x: int, y: int, px: int, py: int)
    requires
        0 <= x < width,
        0 <= px < width,
        0 <= y,
        0 <= py,
        py * width + px == y * width + x,
    ensures
        px == x,
        py == y,
{
    if py < y {
        assert(py * width + px < y * width + x) by (nonlinear_arith)
            requires
                0 <= py < y,
                0 <= px < width,
                0 <= x,
        ;
    } else if y < py {
        assert(y * width + x < py * width + px) by (nonlinear_arith)
            requires
                0 <= y < py,
                0 <= x < width,
                0 <= px,
        ;
    }
}

/// Writing `color` at `(x, y)` changes that pixel and no other.
proof fn lemma_set_pixel(before: PixelImage, after: PixelImage, x: int, y: int, color: Rgba8)
    requires
        before.wf(),
        before.contains(x, y),
        after.width == before.width,
        after.height == before.height,
        after.pixels@ == before.pixels@.update(y * before.width + x, color),
    ensures
        after.wf(),
        forall|px: int, py: int|
            before.contains(px, py) ==> #[trigger] after.at(px, py) == if px == x && py == y {
                color
            } else {
                before.at(px, py)
            },
{
    lemma_pixel_index_in_range(before.width as int, before.height as int, x, y);
    assert forall|px: int, py: int| before.contains(px, py) implies #[trigger] after.at(px, py)
        == if px == x && py == y {
        color
    } else {
        before.at(px, py)
    } by {
        lemma_pixel_index_in_range(before.width as int, before.height as int, px, py);
        if py * before.width + px == y * before.width + x {
            lemma_pixel_index_unique(before.width as int, x, y, px, py);
        }
    }
}

/// Paints the pixels of the block `x0..x1` × `y0..y1` that lie in the image with `color`.
fn fill_block(image: &mut PixelImage, color: Rgba8, x0: u32, x1: u32, y0: u32, y1: u32)
    requires
        old(image).wf(),
    ensures
        final(image).wf(),
        final(image).width == old(image).width,
        final(image).height == old(image).height,
        forall|x: int, y: int|
            old(image).contains(x, y) ==> #[trigger] final(image).at(x, y) == if x0 <= x < x1 && y0
                <= y < y1 {
                color
            } else {
                old(image).at(x, y)
            },
{
    let ghost initial = *image;
    let mut y: u32 = y0;
    while y < y1
        invariant
            image.wf(),
            image.width == initial.width,
            image.height == initial.height,
            initial.wf(),
            y0 <= y,
            y0 < y1 ==> y <= y1,
            y1 <= y0 ==> y == y0,
            forall|px: int, py: int|
                initial.contains(px, py) ==> #[trigger] image.at(px, py) == if x0 <= px < x1 && y0
                    <= py < y {
                    color
                } else {
                    initial.at(px, py)
                },
        decreases y1 - y,
    {
        let mut x: u32 = x0;
        while x < x1
            invariant
                image.wf(),
                image.width == initial.width,
                image.height == initial.height,
                initial.wf(),
                y0 <= y < y1,
                x0 <= x,
                x0 < x1 ==> x <= x1,
                x1 <= x0 ==> x == x0,
                forall|px: int, py: int|
                    initial.contains(px, py) ==> #[trigger] image.at(px, py) == if (x0 <= px < x1
                        && y0 <= py < y) || (x0 <= px < x && py == y) {
                        color
                    } else {
                        initial.at(px, py)
                    },
            decreases x1 - x,
        {
            if x < image.width && y < image.height {
                let ghost before = *image;
                proof {
                    lemma_pixel_index_in_range(
                        image.width as int,
                        image.height as int,
                        x as int,
                        y as int,
                    );
                    assert(image.pixels@.len() == image.pixels.len());
                }
                let index = y as usize * image.width as usize + x as usize;
                image.pixels.set(index, color);
                proof {
                    lemma_set_pixel(before, *image, x as int, y as int, color);
                }
            }
            x = x + 1;
        }
        y = y + 1;
    }
}


pub open spec fn min_int(a: int, b: int) -> int {
    if a <= b {
        a
    } else {
        b
    }
}

/// The first column (or row) of the mosaic block that covers `pos`, when blocks of `size`
/// are laid from `start`.
pub open spec fn block_start(start: int, pos: int, size: int) -> int {
    start + (pos - start) / size * size
}

/// The pixel at `(x, y)` after the mosaic of the region `x1..x2` × `y1..y2`: the region is cut
/// into blocks of `size` × `size` from its top left corner (clipped at its right and bottom
/// edges), and each block takes the average colour of `source` over it; a block with no
/// `source` pixel, and everything outside the region, keeps the colour of `image`.
pub open spec fn mosaic_pixel(
    image: PixelImage,
    source: PixelImage,
    x1: int,
    y1: int,
    x2: int,
    y2: int,
    size: int,
    x: int,
    y: int,
) -> Rgba8 {
    if x1 <= x < x2 && y1 <= y < y2 {
        let bx = block_start(x1, x, size);
        let by = block_start(y1, y, size);
        match block_average(source, bx, min_int(bx + size, x2), by, min_int(by + size, y2)) {
            Some(color) => color,
            None => image.at(x, y),
        }
    } else {
        image.at(x, y)
    }
}

/// Which block of `size` laid from `start` covers `pos`: the `k`-th exactly when `pos` lies
/// in `start + k * size .. start + k * size + size`.
proof fn lemma_block_index(start: int, pos: int, size: int, k: int)
    requires
        size > 0,
    ensures
        (pos - start) / size == k <==> start + k * size <= pos < start + k * size + size,
        (pos - start) / size >= k <==> pos >= start + k * size,
{
    let q = (pos - start) / size;
    let r = (pos - start) % size;
    lemma_fundamental_div_mod(pos - start, size);
    lemma_mod_bound(pos - start, size);
    assert(q == k <==> start + k * size <= pos < start + k * size + size) by (nonlinear_arith)
        requires
            size > 0,
            0 <= r < size,
            pos - start == size * q + r,
    ;
    assert(q >= k <==> pos >= start + k * size) by (nonlinear_arith)
        requires
            size > 0,
            0 <= r < size,
            pos - start == size * q + r,
    ;
}

/// The mosaic has reached block `col` of block row `row`: the pixels of the earlier blocks
/// have their final colour, the others are untouched.
spec fn mosaic_progress(
    initial: PixelImage,
    image: PixelImage,
    source: PixelImage,
    x1: int,
    y1: int,
    x2: int,
    y2: int,
    size: int,
    row: int,
    col: int,
) -> bool {
    &&& image.wf()
    &&& image.width == initial.width
    &&& image.height == initial.height
    &&& forall|x: int, y: int|
        initial.contains(x, y) ==> #[trigger] image.at(x, y) == if (y - y1) / size < row || ((y
            - y1) / size == row && (x - x1) / size < col) {
            mosaic_pixel(initial, source, x1, y1, x2, y2, size, x, y)
        } else {
            initial.at(x, y)
        }
}

proof fn lemma_mosaic_starts(initial: PixelImage, source: PixelImage, x1: int, y1: int, x2: int, y2: int, size: int)
    requires
        initial.wf(),
        size > 0,
    ensures
        mosaic_progress(initial, initial, source, x1, y1, x2, y2, size, 0, 0),
{
    assert forall|x: int, y: int| initial.contains(x, y) implies #[trigger] initial.at(x, y)
        == if (y - y1) / size < 0 || ((y - y1) / size == 0 && (x - x1) / size < 0) {
        mosaic_pixel(initial, source, x1, y1, x2, y2, size, x, y)
    } else {
        initial.at(x, y)
    } by {
        lemma_block_index(y1, y, size, 0);
        lemma_block_index(x1, x, size, 0);
    }
}

/// Block `col` of row `row`, `bx..ex` × `by..ey`, has been given its colour.
proof fn lemma_mosaic_block_done(
    initial: PixelImage,
    before: PixelImage,
    after: PixelImage,
    source: PixelImage,
    x1: int,
    y1: int,
    x2: int,
    y2: int,
    size: int,
    row: int,
    col: int,
    ex: int,
    ey: int,
)
    requires
        size > 0,
        row >= 0,
        col >= 0,
        x1 + col * size < x2,
        y1 + row * size < y2,
        ex == min_int(x1 + col * size + size, x2),
        ey == min_int(y1 + row * size + size, y2),
        mosaic_progress(initial, before, source, x1, y1, x2, y2, size, row, col),
        after.wf(),
        after.width == initial.width,
        after.height == initial.height,
        forall|x: int, y: int|
            initial.contains(x, y) ==> #[trigger] after.at(x, y) == match block_average(
                source,
                x1 + col * size,
                ex,
                y1 + row * size,
                ey,
            ) {
                Some(color) => if x1 + col * size <= x < ex && y1 + row * size <= y < ey {
                    color
                } else {
                    before.at(x, y)
                },
                None => before.at(x, y),
            },
    ensures
        mosaic_progress(initial, after, source, x1, y1, x2, y2, size, row, col + 1),
{
    assert forall|x: int, y: int| initial.contains(x, y) implies #[trigger] after.at(x, y) == if (y
        - y1) / size < row || ((y - y1) / size == row && (x - x1) / size < col + 1) {
        mosaic_pixel(initial, source, x1, y1, x2, y2, size, x, y)
    } else {
        initial.at(x, y)
    } by {
        lemma_block_index(x1, x, size, col);
        lemma_block_index(y1, y, size, row);
        assert(before.at(x, y) == if (y - y1) / size < row || ((y - y1) / size == row && (x - x1)
            / size < col) {
            mosaic_pixel(initial, source, x1, y1, x2, y2, size, x, y)
        } else {
            initial.at(x, y)
        });
    }
}

/// A block row is done once its blocks reach the right edge of the region.
proof fn lemma_mosaic_row_done(
    initial: PixelImage,
    image: PixelImage,
    source: PixelImage,
    x1: int,
    y1: int,
    x2: int,
    y2: int,
    size: int,
    row: int,
    col: int,
)
    requires
        size > 0,
        x1 + col * size >= x2,
        mosaic_progress(initial, image, source, x1, y1, x2, y2, size, row, col),
    ensures
        mosaic_progress(initial, image, source, x1, y1, x2, y2, size, row + 1, 0),
{
    assert forall|x: int, y: int| initial.contains(x, y) implies #[trigger] image.at(x, y) == if (y
        - y1) / size < row + 1 || ((y - y1) / size == row + 1 && (x - x1) / size < 0) {
        mosaic_pixel(initial, source, x1, y1, x2, y2, size, x, y)
    } else {
        initial.at(x, y)
    } by {
        lemma_block_index(x1, x, size, col);
        lemma_block_index(x1, x, size, 0);
        lemma_block_index(y1, y, size, row);
        lemma_block_index(y1, y, size, row + 1);
    }
}

/// Once the block rows reach the bottom edge of the region, every pixel has its final colour.
proof fn lemma_mosaic_done(
    initial: PixelImage,
    image: PixelImage,
    source: PixelImage,
    x1: int,
    y1: int,
    x2: int,
    y2: int,
    size: int,
    row: int,
)
    requires
        size > 0,
        y1 + row * size >= y2,
        mosaic_progress(initial, image, source, x1, y1, x2, y2, size, row, 0),
    ensures
        forall|x: int, y: int|
            initial.contains(x, y) ==> #[trigger] image.at(x, y) == mosaic_pixel(
                initial,
                source,
                x1,
                y1,
                x2,
                y2,
                size,
                x,
                y,
            ),
{
    assert forall|x: int, y: int| initial.contains(x, y) implies #[trigger] image.at(x, y)
        == mosaic_pixel(initial, source, x1, y1, x2, y2, size, x, y) by {
        lemma_block_index(y1, y, size, row);
        lemma_block_index(x1, x, size, 0);
    }
}

/// Pixelation is uniform: two pixels of the region in the same block end up with the same
/// colour whenever the block holds any `source` pixel, and pixels outside the region keep
/// their colour.
pub proof fn lemma_mosaic_blocks_are_uniform(
    image: PixelImage,
    source: PixelImage,
    x1: int,
    y1: int,
    x2: int,
    y2: int,
    size: int,
    x: int,
    y: int,
    u: int,
    v: int,
)
    requires
        size > 0,
        x1 <= x < x2 && y1 <= y < y2,
        x1 <= u < x2 && y1 <= v < y2,
        block_start(x1, x, size) == block_start(x1, u, size),
        block_start(y1, y, size) == block_start(y1, v, size),
        block_average(
            source,
            block_start(x1, x, size),
            min_int(block_start(x1, x, size) + size, x2),
            block_start(y1, y, size),
            min_int(block_start(y1, y, size) + size, y2),
        ) is Some,
    ensures
        mosaic_pixel(image, source, x1, y1, x2, y2, size, x, y) == mosaic_pixel(
            image,
            source,
            x1,
            y1,
            x2,
            y2,
            size,
            u,
            v,
        ),
        forall|px: int, py: int|
            !(x1 <= px < x2 && y1 <= py < y2) ==> #[trigger] mosaic_pixel(
                image,
                source,
                x1,
                y1,
                x2,
                y2,
                size,
                px,
                py,
            ) == image.at(px, py),
{
}

/// Pixelates the region `x1..x2` × `y1..y2` of `image` in blocks of `block_size`, each block
/// taking the average colour of `source` under it (see `mosaic_pixel`).
pub fn mosaic(
    image: &mut PixelImage,
    source: &PixelImage,
    x1: u32,
    y1: u32,
    x2: u32,
    y2: u32,
    block_size: u32,
)
    requires
        old(image).wf(),
        source.wf(),
        block_size > 0,
    ensures
        final(image).wf(),
        final(image).width == old(image).width,
        final(image).height == old(image).height,
        forall|x: int, y: int|
            old(image).contains(x, y) ==> #[trigger] final(image).at(x, y) == mosaic_pixel(
                *old(image),
                *source,
                x1 as int,
                y1 as int,
                x2 as int,
                y2 as int,
                block_size as int,
                x,
                y,
            ),
{
    let ghost initial = *image;
    let ghost size_int = block_size as int;
    let size = block_size as u64;
    let mut block_y: u64 = y1 as u64;
    let ghost mut row: int = 0;
    proof {
        lemma_mosaic_starts(initial, *source, x1 as int, y1 as int, x2 as int, y2 as int, size_int);
    }
    while block_y < y2 as u64
        invariant
            initial.wf(),
            source.wf(),
            size == block_size,
            size_int == block_size,
            block_size > 0,
            row >= 0,
            block_y == y1 + row * size_int,
            block_y <= 0x1_0000_0000 + size,
            mosaic_progress(initial, *image, *source, x1 as int, y1 as int, x2 as int, y2 as int, size_int, row, 0),
        decreases y2 + size - block_y,
    {
        let end_y: u32 = if block_y + size < y2 as u64 {
            (block_y + size) as u32
        } else {
            y2
        };
        let mut block_x: u64 = x1 as u64;
        let ghost mut col: int = 0;
        while block_x < x2 as u64
            invariant
                initial.wf(),
                source.wf(),
                size == block_size,
                size_int == block_size,
                block_size > 0,
                row >= 0,
                col >= 0,
                block_y == y1 + row * size_int,
                block_y < y2,
                end_y == min_int(block_y + size, y2 as int),
                block_x == x1 + col * size_int,
                block_x <= 0x1_0000_0000 + size,
                mosaic_progress(initial, *image, *source, x1 as int, y1 as int, x2 as int, y2 as int, size_int, row, col),
            decreases x2 + size - block_x,
        {
            let end_x: u32 = if block_x + size < x2 as u64 {
                (block_x + size) as u32
            } else {
                x2
            };
            let ghost before = *image;
            let average = average_block(source, block_x as u32, end_x, block_y as u32, end_y);
            match average {
                Some(color) => {
                    fill_block(image, color, block_x as u32, end_x, block_y as u32, end_y);
                },
                None => {},
            }
            proof {
                lemma_mosaic_block_done(
                    initial,
                    before,
                    *image,
                    *source,
                    x1 as int,
                    y1 as int,
                    x2 as int,
                    y2 as int,
                    size_int,
                    row,
                    col,
                    end_x as int,
                    end_y as int,
                );
                col = col + 1;
                assert(x1 + col * size_int == x1 + (col - 1) * size_int + size_int) by (nonlinear_arith);
            }
            block_x = block_x + size;
        }
        proof {
            lemma_mosaic_row_done(
                initial,
                *image,
                *source,
                x1 as int,
                y1 as int,
                x2 as int,
                y2 as int,
                size_int,
                row,
                col,
            );
            row = row + 1;
            assert(y1 + row * size_int == y1 + (row - 1) * size_int + size_int) by (nonlinear_arith);
        }
        block_y = block_y + size;
    }
    proof {
        lemma_mosaic_done(initial, *image, *source, x1 as int, y1 as int, x2 as int, y2 as int, size_int, row);
    }
}

} // verus!
