use vstd::prelude::*;
use vstd::arithmetic::div_mod::{lemma_fundamental_div_mod, lemma_fundamental_div_mod_converse, lemma_mod_pos_bound};

verus! {

/// A rectangle of native screenshot pixels.
#[derive(Debug, Clone, Copy, PartialEq, Eq, Structural)]
pub struct PixelRect {
    pub x: u32,
    pub y: u32,
    pub width: u32,
    pub height: u32,
}

/// Number of spans of length at most `m` needed to cover `len` units: `ceil(len / m)`.
pub open spec fn span_count(len: int, m: int) -> int {
    (len + m - 1) / m
}

pub open spec fn min_int(a: int, b: int) -> int {
    if a <= b { a } else { b }
}

/// The `k`-th tile, counted row by row from the top-left corner, of a `w` × `h` image
/// cut into tiles of at most `m` × `m` pixels.
pub open spec fn spec_tile(w: u32, h: u32, m: u32, k: int) -> PixelRect {
    let cols = span_count(w as int, m as int);
    let x = (k % cols) * m;
    let y = (k / cols) * m;
    PixelRect {
        x: x as u32,
        y: y as u32,
        width: min_int(w - x, m as int) as u32,
        height: min_int(h - y, m as int) as u32,
    }
}

/// All tiles of a `w` × `h` image, row by row; none for an empty image or a zero tile size.
pub open spec fn spec_tile_rects(w: u32, h: u32, m: u32) -> Seq<PixelRect> {
    if w == 0 || h == 0 || m == 0 {
        Seq::empty()
    } else {
        Seq::new(
            (span_count(w as int, m as int) * span_count(h as int, m as int)) as nat,
            |k: int| spec_tile(w, h, m, k),
        )
    }
}

/// `c * m < len` exactly when `c` is below the number of spans that cover `len`.
proof fn lemma_span_count(len: int, m: int, c: int)
    requires
        m > 0,
        len >= 0,
        c >= 0,
    ensures
        (c * m < len) <==> (c < span_count(len, m)),
        span_count(len, m) >= 0,
{
    let n = len + m - 1;
    lemma_fundamental_div_mod(n, m);
    lemma_mod_pos_bound(n, m);
    let q = n / m;
    let r = n % m;
    assert(q >= 0) by (nonlinear_arith)
        requires
            n == m * q + r,
            0 <= r < m,
            n >= 0,
    ;
    if c < q {
        assert(c * m < len) by (nonlinear_arith)
            requires
                c < q,
                n == m * q + r,
                0 <= r < m,
                n == len + m - 1,
                m > 0,
        ;
    } else {
        assert(c * m >= len) by (nonlinear_arith)
            requires
                c >= q,
                n == m * q + r,
                0 <= r < m,
                n == len + m - 1,
                m > 0,
        ;
    }
}

/// The position `row * cols + col` of a grid cell gives back its row and column.
proof fn lemma_grid_index(row: int, col: int, cols: int)
    requires
        0 <= col < cols,
    ensures
        (row * cols + col) / cols == row,
        (row * cols + col) % cols == col,
{
    assert(row * cols + col == row * cols + col);
    lemma_fundamental_div_mod_converse(row * cols + col, cols, row, col);
}

/// Cuts a `width` × `height` image into tiles of at most `max_tile_size` pixels per side,
/// row by row from the top-left corner.
pub fn tile_rects(pixel_size: (u32, u32), max_tile_size: u32) -> (tiles: Vec<PixelRect>)
    ensures
        tiles@ == spec_tile_rects(pixel_size.0, pixel_size.1, max_tile_size),
{
    let (w, h) = pixel_size;
    let m = max_tile_size;
    if w == 0 || h == 0 || m == 0 {
        return Vec::new();
    }
    let ghost cols = span_count(w as int, m as int);
    let ghost rows = span_count(h as int, m as int);
    proof {
        lemma_span_count(w as int, m as int, 0);
        lemma_span_count(h as int, m as int, 0);
    }
    let mut tiles: Vec<PixelRect> = Vec::new();
    let mut y: u64 = 0;
    let ghost mut row: int = 0;
    while y < h as u64
        invariant
            w > 0,
            h > 0,
            m > 0,
            cols == span_count(w as int, m as int),
            rows == span_count(h as int, m as int),
            cols >= 1,
            0 <= row <= rows,
            y == row * m,
            tiles@.len() == row * cols,
            forall|j: int| 0 <= j < tiles@.len() ==> #[trigger] tiles@[j] == spec_tile(w, h, m, j),
        decreases rows - row,
    {
        proof {
            lemma_span_count(h as int, m as int, row);
        }
        let mut x: u64 = 0;
        let ghost mut col: int = 0;
        while x < w as u64
            invariant
                w > 0,
                h > 0,
                m > 0,
                cols == span_count(w as int, m as int),
                rows == span_count(h as int, m as int),
                cols >= 1,
                0 <= row < rows,
                y == row * m,
                y < h,
                0 <= col <= cols,
                x == col * m,
                tiles@.len() == row * cols + col,
                forall|j: int| 0 <= j < tiles@.len() ==> #[trigger] tiles@[j] == spec_tile(w, h, m, j),
            decreases cols - col,
        {
            proof {
                lemma_span_count(w as int, m as int, col);
                lemma_grid_index(row, col, cols);
            }
            let width = if (w as u64) - x < m as u64 { ((w as u64) - x) as u32 } else { m };
            let height = if (h as u64) - y < m as u64 { ((h as u64) - y) as u32 } else { m };
            let tile = PixelRect { x: x as u32, y: y as u32, width, height };
            let ghost k = row * cols + col;
            assert(tile == spec_tile(w, h, m, k));
            tiles.push(tile);
            x = x + m as u64;
            proof {
                col = col + 1;
                assert(x == col * m) by (nonlinear_arith)
                    requires
                        x == (col - 1) * m + m,
                ;
            }
        }
        proof {
            lemma_span_count(w as int, m as int, col);
            assert(col == cols);
            assert(tiles@.len() == (row + 1) * cols) by (nonlinear_arith)
                requires
                    tiles@.len() == row * cols + col,
                    col == cols,
            ;
        }
        y = y + m as u64;
        proof {
            row = row + 1;
            assert(y == row * m) by (nonlinear_arith)
                requires
                    y == (row - 1) * m + m,
            ;
        }
    }
    proof {
        lemma_span_count(h as int, m as int, row);
        assert(row == rows);
        assert(rows * cols == cols * rows) by (nonlinear_arith);
        assert(tiles@ =~= spec_tile_rects(w, h, m));
    }
    tiles
}


/// Whether pixel `(px, py)` lies in `tile`.
pub open spec fn tile_contains(tile: PixelRect, px: int, py: int) -> bool {
    tile.x <= px < tile.x + tile.width && tile.y <= py < tile.y + tile.height
}

/// Position `k` of the grid cell that holds pixel `(px, py)`.
pub open spec fn tile_index_of(w: u32, m: u32, px: int, py: int) -> int {
    (py / (m as int)) * span_count(w as int, m as int) + px / (m as int)
}

/// Column and row of tile `k`, and the facts that bound them.
proof fn lemma_tile_cell(w: u32, h: u32, m: u32, k: int)
    requires
        w > 0,
        h > 0,
        m > 0,
        0 <= k < spec_tile_rects(w, h, m).len(),
    ensures
        ({
            let cols = span_count(w as int, m as int);
            let col = k % cols;
            let row = k / cols;
            &&& cols >= 1
            &&& 0 <= col < cols
            &&& 0 <= row < span_count(h as int, m as int)
            &&& col * m < w
            &&& row * m < h
            &&& col * m >= 0
            &&& row * m >= 0
        }),
{
    let cols = span_count(w as int, m as int);
    let rows = span_count(h as int, m as int);
    lemma_span_count(w as int, m as int, 0);
    lemma_span_count(h as int, m as int, 0);
    lemma_fundamental_div_mod(k, cols);
    lemma_mod_pos_bound(k, cols);
    let col = k % cols;
    let row = k / cols;
    assert(0 <= row < rows) by (nonlinear_arith)
        requires
            k == cols * row + col,
            0 <= col < cols,
            0 <= k < cols * rows,
            cols >= 1,
    ;
    lemma_span_count(w as int, m as int, col);
    lemma_span_count(h as int, m as int, row);
    assert(col * m >= 0 && row * m >= 0) by (nonlinear_arith)
        requires
            col >= 0,
            row >= 0,
            m > 0,
    ;
}

/// Every tile is a non-empty part of the image, at most `max_tile_size` pixels on each side.
pub proof fn lemma_tiles_inside_image(w: u32, h: u32, m: u32, k: int)
    requires
        0 <= k < spec_tile_rects(w, h, m).len(),
    ensures
        ({
            let t = spec_tile_rects(w, h, m)[k];
            &&& 1 <= t.width <= m
            &&& 1 <= t.height <= m
            &&& t.x + t.width <= w
            &&& t.y + t.height <= h
        }),
{
    lemma_tile_cell(w, h, m, k);
}

/// Every pixel of the image lies in the tile that `tile_index_of` names.
pub proof fn lemma_tiles_cover_image(w: u32, h: u32, m: u32, px: int, py: int)
    requires
        0 <= px < w,
        0 <= py < h,
        m > 0,
    ensures
        0 <= tile_index_of(w, m, px, py) < spec_tile_rects(w, h, m).len(),
        tile_contains(spec_tile_rects(w, h, m)[tile_index_of(w, m, px, py)], px, py),
{
    let mi = m as int;
    let cols = span_count(w as int, mi);
    let rows = span_count(h as int, mi);
    lemma_fundamental_div_mod(px, mi);
    lemma_mod_pos_bound(px, mi);
    lemma_fundamental_div_mod(py, mi);
    lemma_mod_pos_bound(py, mi);
    let col = px / mi;
    let row = py / mi;
    assert(col >= 0 && row >= 0 && col * mi <= px && row * mi <= py && px < col * mi + mi
        && py < row * mi + mi) by (nonlinear_arith)
        requires
            px == mi * col + px % mi,
            py == mi * row + py % mi,
            0 <= px % mi < mi,
            0 <= py % mi < mi,
            px >= 0,
            py >= 0,
    ;
    lemma_span_count(w as int, mi, col);
    lemma_span_count(h as int, mi, row);
    lemma_grid_index(row, col, cols);
    let k = row * cols + col;
    assert(0 <= k < cols * rows) by (nonlinear_arith)
        requires
            k == row * cols + col,
            0 <= col < cols,
            0 <= row < rows,
    ;
}

/// Tiles do not overlap: a pixel lies in one tile only.
pub proof fn lemma_tiles_disjoint(w: u32, h: u32, m: u32, k1: int, k2: int, px: int, py: int)
    requires
        0 <= k1 < spec_tile_rects(w, h, m).len(),
        0 <= k2 < spec_tile_rects(w, h, m).len(),
        tile_contains(spec_tile_rects(w, h, m)[k1], px, py),
        tile_contains(spec_tile_rects(w, h, m)[k2], px, py),
    ensures
        k1 == k2,
{
    lemma_tile_is_located(w, h, m, k1, px, py);
    lemma_tile_is_located(w, h, m, k2, px, py);
}

/// A tile that holds pixel `(px, py)` is the tile that `tile_index_of` names.
proof fn lemma_tile_is_located(w: u32, h: u32, m: u32, k: int, px: int, py: int)
    requires
        0 <= k < spec_tile_rects(w, h, m).len(),
        tile_contains(spec_tile_rects(w, h, m)[k], px, py),
    ensures
        k == tile_index_of(w, m, px, py),
{
    lemma_tile_cell(w, h, m, k);
    let mi = m as int;
    let cols = span_count(w as int, mi);
    let col = k % cols;
    let row = k / cols;
    lemma_fundamental_div_mod(k, cols);
    let t = spec_tile_rects(w, h, m)[k];
    assert(t.x == col * mi && t.y == row * mi);
    assert(col * mi <= px < col * mi + mi);
    assert(row * mi <= py < row * mi + mi);
    lemma_fundamental_div_mod_converse(px, mi, col, px - col * mi);
    lemma_fundamental_div_mod_converse(py, mi, row, py - row * mi);
    assert(k == row * cols + col) by (nonlinear_arith)
        requires
            k == cols * row + col,
    ;
}

} // verus!
