//! The integer stage of rasterizing a function: each column's sample, already
//! scaled to row units and rounded, is clamped into the grid and joined to its
//! neighbours so that steep sections draw as unbroken vertical runs.

use vstd::prelude::*;

verus! {

/// How many pixel rows a grid of `y_pixels` rows of resolution has.
#[derive(Debug, Clone, Copy, PartialEq, Eq, Structural)]
pub enum RowMode {
    /// `y_pixels` rows; samples scale onto rows `0 ..= y_pixels - 1`.
    Exclusive,
    /// `y_pixels + 1` rows; samples scale onto rows `0 ..= y_pixels`.
    Inclusive,
}

/// The grid height for a resolution and a row mode.
pub open spec fn grid_height(y_pixels: nat, mode: RowMode) -> nat {
    match mode {
        RowMode::Exclusive => y_pixels,
        RowMode::Inclusive => y_pixels + 1,
    }
}

/// Whether a resolution is usable in a row mode: at least one row, and a row
/// count that fits in `usize`.
pub open spec fn valid_resolution(y_pixels: usize, mode: RowMode) -> bool {
    match mode {
        RowMode::Exclusive => y_pixels >= 1,
        RowMode::Inclusive => y_pixels < usize::MAX,
    }
}

/// The row a scaled sample lands on: values past either end of the grid go
/// to the nearest boundary row.
pub open spec fn clamped_row(scaled: int, height: nat) -> int {
    if scaled < 0 {
        0
    } else if scaled >= height {
        height - 1
    } else {
        scaled
    }
}

/// The rows of all samples.
pub open spec fn sample_rows(samples: Seq<i64>, height: nat) -> Seq<int> {
    Seq::new(samples.len(), |c: int| clamped_row(samples[c] as int, height))
}

/// Whether gap filling turns on row `y` of column `c`: interior columns fill
/// from their own row toward the previous column's row when that lies below,
/// else toward the next column's row; the far end is left out.
pub open spec fn gap_filled(rows: Seq<int>, y: int, c: int) -> bool {
    &&& 1 <= c < rows.len() - 1
    &&& if rows[c - 1] > rows[c] {
        rows[c] <= y < rows[c - 1]
    } else {
        rows[c] <= y < rows[c + 1]
    }
}

/// Whether pixel `(y, c)` of the rasterized grid is on.
pub open spec fn raster_on(rows: Seq<int>, y: int, c: int) -> bool {
    y == rows[c] || gap_filled(rows, y, c)
}

/// The grid that `rows` rasterize to: `height` rows of one cell per column.
pub open spec fn is_raster(grid: Seq<Vec<bool>>, rows: Seq<int>, height: nat) -> bool {
    &&& grid.len() == height
    &&& forall|y: int| 0 <= y < height ==> #[trigger] grid[y]@.len() == rows.len()
    &&& forall|y: int, c: int|
        0 <= y < height && 0 <= c < rows.len() ==> #[trigger] grid[y]@[c] == raster_on(rows, y, c)
}

/// The grid height for a resolution and a row mode.
pub fn row_count(y_pixels: usize, mode: RowMode) -> (r: usize)
    requires
        valid_resolution(y_pixels, mode),
    ensures
        r == grid_height(y_pixels as nat, mode),
        r >= 1,
{
    match mode {
        RowMode::Exclusive => y_pixels,
        RowMode::Inclusive => y_pixels + 1,
    }
}

/// The row a scaled sample lands on in a grid of `height` rows.
pub fn clamp_row(scaled: i64, height: usize) -> (r: usize)
    requires
        height >= 1,
    ensures
        r == clamped_row(scaled as int, height as nat),
        r < height,
        scaled <= 0 ==> r == 0,
        scaled >= height - 1 ==> r == height - 1,
{
    if scaled < 0 {
        0
    } else if scaled as u64 >= height as u64 {
        height - 1
    } else {
        scaled as usize
    }
}

/// Whether pixel `(y, c)` is on, for sample rows `rows`.
fn pixel_on(rows: &[usize], y: usize, c: usize) -> (r: bool)
    requires
        c < rows@.len(),
    ensures
        r == raster_on(rows@.map_values(|v: usize| v as int), y as int, c as int),
{
    if y == rows[c] {
        true
    } else if c >= 1 && c + 1 < rows.len() {
        if rows[c - 1] > rows[c] {
            rows[c] <= y && y < rows[c - 1]
        } else {
            rows[c] <= y && y < rows[c + 1]
        }
    } else {
        false
    }
}

/// Rasterizes scaled samples, one per column, into a grid of
/// `grid_height(y_pixels, mode)` rows: each sample turns on the row it is
/// clamped to, and gap filling joins interior columns to their neighbours.
pub fn rasterize(samples: &[i64], y_pixels: usize, mode: RowMode) -> (grid: Vec<Vec<bool>>)
    requires
        samples@.len() >= 2,
        valid_resolution(y_pixels, mode),
    ensures
        is_raster(grid@, sample_rows(samples@, grid_height(y_pixels as nat, mode)), grid_height(y_pixels as nat, mode)),
{
    let height = row_count(y_pixels, mode);
    let ghost h = height as nat;
    let mut rows: Vec<usize> = Vec::new();
    let mut c: usize = 0;
    while c < samples.len()
        invariant
            c <= samples@.len(),
            height >= 1,
            h == height,
            rows@.len() == c,
            forall|k: int| 0 <= k < c ==> (#[trigger] rows@[k]) as int == clamped_row(samples@[k] as int, h),
        decreases samples@.len() - c,
    {
        rows.push(clamp_row(samples[c], height));
        c += 1;
    }
    let ghost spec_rows = sample_rows(samples@, h);
    assert(rows@.map_values(|v: usize| v as int) =~= spec_rows);
    let mut grid: Vec<Vec<bool>> = Vec::new();
    let mut y: usize = 0;
    while y < height
        invariant
            y <= height,
            h == height,
            rows@.len() == samples@.len(),
            rows@.map_values(|v: usize| v as int) == spec_rows,
            grid@.len() == y,
            forall|yy: int| 0 <= yy < y ==> #[trigger] grid@[yy]@.len() == rows@.len(),
            forall|yy: int, cc: int|
                0 <= yy < y && 0 <= cc < rows@.len() ==> #[trigger] grid@[yy]@[cc] == raster_on(spec_rows, yy, cc),
        decreases height - y,
    {
        let mut line: Vec<bool> = Vec::new();
        let mut c: usize = 0;
        while c < rows.len()
            invariant
                c <= rows@.len(),
                rows@.map_values(|v: usize| v as int) == spec_rows,
                line@.len() == c,
                forall|cc: int| 0 <= cc < c ==> #[trigger] line@[cc] == raster_on(spec_rows, y as int, cc),
            decreases rows@.len() - c,
        {
            line.push(pixel_on(rows.as_slice(), y, c));
            c += 1;
        }
        grid.push(line);
        y += 1;
    }
    grid
}

/// Adjacent columns join up wherever the fill rule reaches across them:
/// when interior column `c` fills toward a previous sample that lies below
/// its own; when interior column `c - 1` reaches column `c`'s row, filling
/// toward it or toward an earlier sample at or below it; or when the two
/// samples are at most one row apart. Then the two columns together turn on
/// every row between and including their two sample rows: an unbroken
/// vertical run of `|rows[c - 1] - rows[c]| + 1` pixels.
pub proof fn lemma_gap_filling_connects(rows: Seq<int>, c: int)
    requires
        1 <= c < rows.len(),
        (c < rows.len() - 1 && rows[c - 1] > rows[c])
            || (c >= 2 && rows[c - 2] <= rows[c - 1] && rows[c - 1] < rows[c])
            || (c >= 2 && rows[c - 1] < rows[c] && rows[c] <= rows[c - 2])
            || (rows[c] - 1 <= rows[c - 1] <= rows[c] + 1),
    ensures
        forall|y: int|
            (rows[c] <= y <= rows[c - 1] || rows[c - 1] <= y <= rows[c]) ==> raster_on(rows, y, c - 1)
                || raster_on(rows, y, c),
{
}

/// Samples are clamped, never dropped: each one lands on a row of the grid,
/// and one at or past either end of the grid lands on that end's boundary
/// row.
pub proof fn lemma_clamping_to_boundary(samples: Seq<i64>, height: nat, c: int)
    requires
        height >= 1,
        0 <= c < samples.len(),
    ensures
        0 <= sample_rows(samples, height)[c] < height,
        samples[c] <= 0 ==> sample_rows(samples, height)[c] == 0,
        samples[c] >= height - 1 ==> sample_rows(samples, height)[c] == height - 1,
{
}

} // verus!
