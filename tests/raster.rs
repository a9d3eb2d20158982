use term_plot::raster::{clamp_row, rasterize, row_count, RowMode};
use term_plot::TerminalDisplay;

fn on_rows(grid: &[Vec<bool>], col: usize) -> Vec<usize> {
    (0..grid.len()).filter(|&y| grid[y][col]).collect()
}

/// Samples `f` the way a plotting front end does: column `i` at
/// `x0 + i * (x1 - x0) / x_pixels`, scaled onto the grid's rows and rounded.
fn samples(x0: f64, x1: f64, y0: f64, y1: f64, x_pixels: usize, height: usize, f: fn(f64) -> f64) -> Vec<i64> {
    (0..x_pixels)
        .map(|i| {
            let y = f(i as f64 * (x1 - x0) / x_pixels as f64 + x0);
            ((y - y0) * (height - 1) as f64 / (y1 - y0)).round() as i64
        })
        .collect()
}

#[test]
fn row_modes_give_grid_heights() {
    assert_eq!(row_count(6, RowMode::Exclusive), 6);
    assert_eq!(row_count(6, RowMode::Inclusive), 7);
    assert_eq!(row_count(0, RowMode::Inclusive), 1);
}

#[test]
fn clamping_sends_outliers_to_boundary_rows() {
    assert_eq!(clamp_row(-7, 6), 0);
    assert_eq!(clamp_row(0, 6), 0);
    assert_eq!(clamp_row(3, 6), 3);
    assert_eq!(clamp_row(5, 6), 5);
    assert_eq!(clamp_row(6, 6), 5);
    assert_eq!(clamp_row(i64::MAX, 6), 5);
    assert_eq!(clamp_row(i64::MIN, 6), 0);
}

#[test]
fn rasterize_never_drops_out_of_range_samples() {
    let grid = rasterize(&[-100, 2, 100], 4, RowMode::Exclusive);
    assert_eq!(grid.len(), 4);
    assert!(grid.iter().all(|row| row.len() == 3));
    assert_eq!(on_rows(&grid, 0), vec![0]);
    assert_eq!(on_rows(&grid, 2), vec![3]);
}

#[test]
fn gap_filling_joins_steep_columns() {
    // Column 1 falls back toward column 0's lower row; column 2 reaches
    // toward column 3.
    let grid = rasterize(&[5, 1, 1, 4], 6, RowMode::Exclusive);
    assert_eq!(on_rows(&grid, 0), vec![5]);
    assert_eq!(on_rows(&grid, 1), vec![1, 2, 3, 4]);
    assert_eq!(on_rows(&grid, 2), vec![1, 2, 3]);
    assert_eq!(on_rows(&grid, 3), vec![4]);
}

#[test]
fn edge_columns_are_not_gap_filled() {
    let grid = rasterize(&[0, 0, 5], 6, RowMode::Exclusive);
    assert_eq!(on_rows(&grid, 0), vec![0]);
    assert_eq!(on_rows(&grid, 1), vec![0, 1, 2, 3, 4]);
    assert_eq!(on_rows(&grid, 2), vec![5]);
}

#[test]
fn inclusive_mode_has_one_more_row() {
    let grid = rasterize(&[0, 9, 9], 3, RowMode::Inclusive);
    assert_eq!(grid.len(), 4);
    assert_eq!(on_rows(&grid, 1), vec![3]);
    assert_eq!(on_rows(&grid, 2), vec![3]);
}

#[test]
fn sine_renders_to_golden_sextants() {
    let height = row_count(6, RowMode::Exclusive);
    let s = samples(0.0, 2.0 * std::f64::consts::PI, -1.0, 1.0, 12, height, f64::sin);
    assert_eq!(s, vec![3, 4, 5, 5, 5, 4, 3, 1, 0, 0, 0, 1]);
    let grid = rasterize(&s, 6, RowMode::Exclusive);
    let text = TerminalDisplay::render(&grid);
    let lines: Vec<&str> = text.lines().collect();
    assert_eq!(lines.len(), 2);
    assert!(lines.iter().all(|l| l.chars().count() == 6));
    assert_eq!(
        text,
        "   \u{1FB26}\u{1FB02}\u{1FB08}\n\u{1FB08}\u{1FB2D}\u{1FB16}\u{1FB00}  \n"
    );
}
