use crossterm::style::{Color, SetForegroundColor};
use term_plot::color::render_color_runs;
use term_plot::TerminalDisplay;

#[test]
fn color_switches_only_where_color_changes() {
    let red = SetForegroundColor(Color::Red).to_string();
    let blue = SetForegroundColor(Color::Blue).to_string();
    let pixels = vec![
        Some(Color::Red),
        Some(Color::Red),
        None,
        Some(Color::Red),
        Some(Color::Blue),
        Some(Color::Blue),
    ];
    let expected = format!(
        "\u{2588}\u{2588} {}\u{2588}{}\u{2588}\u{2588}",
        red, blue
    );
    assert_eq!(TerminalDisplay::render_full_block_color(&pixels, 3), expected);
}

#[test]
fn color_sequence_is_not_empty_on_terminals() {
    let pixels = vec![None, Some(Color::Green)];
    let out = TerminalDisplay::render_full_block_color(&pixels, 2);
    assert!(out.starts_with(" \u{1b}["));
    assert!(out.ends_with("m\u{2588}"));
}

#[test]
fn empty_color_pixels_render_empty() {
    assert_eq!(TerminalDisplay::render_full_block_color(&[], 0), "");
    assert_eq!(TerminalDisplay::render_full_block_color(&[None, None], 1), "  ");
}

#[test]
fn color_runs_insert_given_codes_at_switches_only() {
    let pixels = vec![
        Some(Color::Red),
        Some(Color::Red),
        None,
        Some(Color::Red),
        Some(Color::Blue),
    ];
    let codes: Vec<String> = ["<0>", "<1>", "<2>", "<3>", "<4>"]
        .iter()
        .map(|c| c.to_string())
        .collect();
    assert_eq!(
        render_color_runs(&pixels, &codes),
        "\u{2588}\u{2588} <3>\u{2588}<4>\u{2588}"
    );
}

#[test]
fn color_escapes_count_color_switches() {
    let pixels = vec![
        Some(Color::Red),
        Some(Color::Green),
        Some(Color::Green),
        None,
        None,
        Some(Color::Green),
        Some(Color::Rgb { r: 1, g: 2, b: 3 }),
    ];
    let out = TerminalDisplay::render_full_block_color(&pixels, 7);
    assert_eq!(out.matches('\u{1b}').count(), 3);
    assert!(out.contains(&SetForegroundColor(Color::Rgb { r: 1, g: 2, b: 3 }).to_string()));
}
