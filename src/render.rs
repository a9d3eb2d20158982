//! Packing a pixel grid into block indices and rendering it as text.

use crate::display::TerminalDisplay;
use crate::glyph::{get_char_for_pixels, glyph};
use crate::text::push_char;
use vstd::prelude::*;

verus! {

/// The logical width of a grid: its longest row.
pub open spec fn logical_width<T>(p: Seq<Vec<T>>) -> nat
    decreases p.len(),
{
    if p.len() == 0 {
        0
    } else {
        let w = logical_width(p.drop_last());
        if p.last()@.len() > w {
            p.last()@.len()
        } else {
            w
        }
    }
}

/// Whether pixel `(y, x)` is on; cells past the end of the grid or of a row
/// are off.
pub open spec fn pixel_at(p: Seq<Vec<bool>>, y: int, x: int) -> bool {
    0 <= y < p.len() && 0 <= x < p[y]@.len() && p[y]@[x]
}

/// Weight of bit `k`: two to the power `k`.
pub open spec fn bit_weight(k: nat) -> nat
    decreases k,
{
    if k == 0 {
        1
    } else {
        2 * bit_weight((k - 1) as nat)
    }
}

/// The number whose bit `k` is set exactly when `s[k]` holds.
pub open spec fn bits_value(s: Seq<bool>) -> nat
    decreases s.len(),
{
    if s.len() == 0 {
        0
    } else {
        bits_value(s.drop_last()) + if s.last() {
            bit_weight((s.len() - 1) as nat)
        } else {
            0
        }
    }
}

/// The six pixels of the sextant cell at `(col, row)`, position `k` being
/// pixel row `k / 2` and pixel column `k % 2` within the cell.
pub open spec fn cell_pixels(p: Seq<Vec<bool>>, col: int, row: int) -> Seq<bool> {
    Seq::new(6, |k: int| pixel_at(p, 3 * row + k / 2, 2 * col + k % 2))
}

/// The block index of the sextant cell at `(col, row)`.
pub open spec fn block_index(p: Seq<Vec<bool>>, col: int, row: int) -> nat {
    bits_value(cell_pixels(p, col, row))
}

/// Cells per line of text: half the logical width rounded up.
pub open spec fn cell_cols(p: Seq<Vec<bool>>) -> nat {
    (logical_width(p) + 1) / 2
}

/// Lines of text: a third of the pixel rows rounded up.
pub open spec fn cell_rows(p: Seq<Vec<bool>>) -> nat {
    (p.len() + 2) / 3
}

/// The first `n` glyphs of line `row`.
pub open spec fn sextant_line(p: Seq<Vec<bool>>, row: int, n: nat) -> Seq<char>
    decreases n,
{
    if n == 0 {
        seq![]
    } else {
        sextant_line(p, row, (n - 1) as nat).push(glyph(block_index(p, n - 1, row)))
    }
}

/// The first `n` lines of the sextant rendering, each ended by a newline.
pub open spec fn sextant_text(p: Seq<Vec<bool>>, n: nat) -> Seq<char>
    decreases n,
{
    if n == 0 {
        seq![]
    } else {
        sextant_text(p, (n - 1) as nat) + sextant_line(p, n - 1, cell_cols(p)).push('\n')
    }
}

/// Grid row `y` drawn one character per pixel, over the first `n` columns.
pub open spec fn block_line(p: Seq<Vec<bool>>, y: int, n: nat) -> Seq<char>
    decreases n,
{
    if n == 0 {
        seq![]
    } else {
        block_line(p, y, (n - 1) as nat).push(
            if pixel_at(p, y, n - 1) {
                '\u{2588}'
            } else {
                ' '
            },
        )
    }
}

/// The first `n` grid rows drawn one character per pixel, each ended by a
/// newline.
pub open spec fn block_text(p: Seq<Vec<bool>>, n: nat) -> Seq<char>
    decreases n,
{
    if n == 0 {
        seq![]
    } else {
        block_text(p, (n - 1) as nat) + block_line(p, n - 1, logical_width(p)).push('\n')
    }
}

proof fn lemma_bits_value_bound(s: Seq<bool>)
    ensures
        bits_value(s) < bit_weight(s.len()),
    decreases s.len(),
{
    if s.len() > 0 {
        lemma_bits_value_bound(s.drop_last());
    }
}

/// The longest row length of the grid; zero for an empty grid.
pub fn get_highest_x<T>(pixels: &[Vec<T>]) -> (r: usize)
    ensures
        r == logical_width(pixels@),
{
    let mut max: usize = 0;
    let mut i: usize = 0;
    while i < pixels.len()
        invariant
            i <= pixels@.len(),
            max == logical_width(pixels@.subrange(0, i as int)),
        decreases pixels@.len() - i,
    {
        assert(pixels@.subrange(0, i + 1).drop_last() =~= pixels@.subrange(0, i as int));
        if pixels[i].len() > max {
            max = pixels[i].len();
        }
        i += 1;
    }
    assert(pixels@.subrange(0, i as int) =~= pixels@);
    max
}

/// Packs up to eight flags into a byte: flag `k` is bit `k`.
pub fn bool_arr_to_int(arr: &[bool]) -> (r: u8)
    requires
        arr@.len() <= 8,
    ensures
        r == bits_value(arr@),
{
    let mut out: u8 = 0;
    let mut weight: u16 = 1;
    let mut i: usize = 0;
    while i < arr.len()
        invariant
            i <= arr@.len() <= 8,
            weight == bit_weight(i as nat),
            weight <= 256,
            out == bits_value(arr@.subrange(0, i as int)),
            out < weight,
        decreases arr@.len() - i,
    {
        assert(arr@.subrange(0, i + 1).drop_last() =~= arr@.subrange(0, i as int));
        assert(i < 8);
        assert(weight <= 128) by {
            reveal_with_fuel(bit_weight, 8);
        };
        if arr[i] {
            out = out + weight as u8;
        }
        weight = weight * 2;
        i += 1;
    }
    assert(arr@.subrange(0, i as int) =~= arr@);
    out
}

/// Pixel `(base_y + dy, base_x + dx)`, off past the end of the grid or of
/// its row.
fn cell_pixel(pixels: &[Vec<bool>], base_y: usize, base_x: usize, dy: usize, dx: usize) -> (r:
    bool)
    ensures
        r == pixel_at(pixels@, base_y + dy, base_x + dx),
{
    if base_y < pixels.len() && dy < pixels.len() - base_y {
        let row = &pixels[base_y + dy];
        if base_x < row.len() && dx < row.len() - base_x {
            row[base_x + dx]
        } else {
            false
        }
    } else {
        false
    }
}

/// The block index of the sextant cell whose top left pixel is
/// `(3 * char_row, 2 * char_col)`; pixels past the grid count as off.
pub fn cell_index(pixels: &[Vec<bool>], char_row: usize, char_col: usize) -> (r: u8)
    requires
        3 * char_row <= usize::MAX,
        2 * char_col <= usize::MAX,
    ensures
        r == block_index(pixels@, char_col as int, char_row as int),
        r < 64,
{
    let mut block: Vec<bool> = Vec::new();
    let mut k: usize = 0;
    while k < 6
        invariant
            k <= 6,
            3 * char_row <= usize::MAX,
            2 * char_col <= usize::MAX,
            block@ =~= cell_pixels(pixels@, char_col as int, char_row as int).subrange(0, k as int),
        decreases 6 - k,
    {
        let on = cell_pixel(pixels, 3 * char_row, 2 * char_col, k / 2, k % 2);
        block.push(on);
        k += 1;
    }
    assert(block@ =~= cell_pixels(pixels@, char_col as int, char_row as int));
    let r = bool_arr_to_int(block.as_slice());
    proof {
        lemma_bits_value_bound(block@);
        reveal_with_fuel(bit_weight, 7);
    }
    r
}

impl TerminalDisplay {
    /// Renders the grid in sextant mode: each line of text covers three pixel
    /// rows, each glyph two pixel columns; every line ends with a newline.
    /// A grid without rows gives the empty text, and one whose rows are all
    /// empty gives empty lines.
    pub fn render(pixels: &[Vec<bool>]) -> (r: String)
        ensures
            r@ == sextant_text(pixels@, cell_rows(pixels@)),
    {
        let width = get_highest_x(pixels);
        let cols: usize = width / 2 + width % 2;
        let rows: usize = pixels.len() / 3 + if pixels.len() % 3 == 0 {
            0
        } else {
            1
        };
        assert(cols == cell_cols(pixels@));
        assert(rows == cell_rows(pixels@));
        let mut output = String::new();
        let mut char_row: usize = 0;
        while char_row < rows
            invariant
                char_row <= rows,
                rows == cell_rows(pixels@),
                cols == cell_cols(pixels@),
                rows == 0 || 3 * (rows - 1) <= usize::MAX,
                cols == 0 || 2 * (cols - 1) <= usize::MAX,
                output@ == sextant_text(pixels@, char_row as nat),
            decreases rows - char_row,
        {
            let ghost before = output@;
            let mut char_col: usize = 0;
            while char_col < cols
                invariant
                    char_row < rows,
                    char_col <= cols,
                    rows == cell_rows(pixels@),
                    cols == cell_cols(pixels@),
                    3 * (rows - 1) <= usize::MAX,
                    cols == 0 || 2 * (cols - 1) <= usize::MAX,
                    output@ == before + sextant_line(pixels@, char_row as int, char_col as nat),
                decreases cols - char_col,
            {
                let index = cell_index(pixels, char_row, char_col);
                push_char(&mut output, get_char_for_pixels(index));
                char_col += 1;
            }
            push_char(&mut output, '\n');
            char_row += 1;
        }
        output
    }

    /// Renders the grid one character per pixel: a full block where the
    /// pixel is on, a space where it is off or missing; each grid row is as
    /// wide as the longest one and ends with a newline.
    pub fn render_full_block(pixels: &[Vec<bool>]) -> (r: String)
        ensures
            r@ == block_text(pixels@, pixels@.len()),
    {
        let width = get_highest_x(pixels);
        let mut output = String::new();
        let mut char_row: usize = 0;
        while char_row < pixels.len()
            invariant
                char_row <= pixels@.len(),
                width == logical_width(pixels@),
                output@ == block_text(pixels@, char_row as nat),
            decreases pixels@.len() - char_row,
        {
            let ghost before = output@;
            let mut char_col: usize = 0;
            while char_col < width
                invariant
                    char_row < pixels@.len(),
                    char_col <= width,
                    width == logical_width(pixels@),
                    output@ == before + block_line(pixels@, char_row as int, char_col as nat),
                decreases width - char_col,
            {
                let on = char_col < pixels[char_row].len() && pixels[char_row][char_col];
                push_char(&mut output, if on { '\u{2588}' } else { ' ' });
                char_col += 1;
            }
            push_char(&mut output, '\n');
            char_row += 1;
        }
        output
    }
}

} // verus!
