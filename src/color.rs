//! Full-block rendering with a foreground colour per pixel, switching colour
//! only where it changes.

use crate::display::TerminalDisplay;
use crate::text::push_char;
use crossterm::style::Color;
use std::fmt::Write;
use vstd::prelude::*;

verus! {

#[verifier::external_type_specification]
#[verifier::external_body]
pub struct ExColor(crossterm::style::Color);

/// Whether `c` may stand among the parameters of a colour sequence.
pub open spec fn is_parameter_char(c: char) -> bool {
    ('0' <= c && c <= '9') || c == ';'
}

/// Whether `s` is nothing or one colour control sequence: ESC `[`, then
/// digits and semicolons, then `m`.
pub open spec fn is_color_sequence(s: Seq<char>) -> bool {
    s.len() == 0 || {
        &&& s.len() >= 3
        &&& s[0] == '\x1b'
        &&& s[1] == '['
        &&& s.last() == 'm'
        &&& forall|k: int| 2 <= k < s.len() - 1 ==> is_parameter_char(#[trigger] s[k])
    }
}

/// Whether pixel `i` starts a new colour run: it is coloured, follows another
/// pixel, and that pixel is not of the same colour.
pub open spec fn switches_color(p: Seq<Option<Color>>, i: int) -> bool {
    &&& p[i] is Some
    &&& i > 0
    &&& p[i - 1] != p[i]
}

/// What pixel `i` is drawn as: a space when it is empty, else a full block,
/// preceded by `codes[i]` where the colour switches.
pub open spec fn color_piece(p: Seq<Option<Color>>, codes: Seq<Seq<char>>, i: int) -> Seq<char> {
    if p[i] is None {
        seq![' ']
    } else if switches_color(p, i) {
        codes[i].push('\u{2588}')
    } else {
        seq!['\u{2588}']
    }
}

/// The first `n` pixels drawn, with `codes[i]` the colour sequence of pixel
/// `i`.
pub open spec fn color_text(p: Seq<Option<Color>>, codes: Seq<Seq<char>>, n: nat) -> Seq<char>
    decreases n,
{
    if n == 0 {
        seq![]
    } else {
        color_text(p, codes, (n - 1) as nat) + color_piece(p, codes, n - 1)
    }
}

/// Relies on the derived PartialEq of crossterm::style::Color (through
/// Option's): two pixels compare equal exactly when they are the same value.
#[verifier::external_body]
fn same_pixel(a: &Option<Color>, b: &Option<Color>) -> (r: bool)
    ensures
        r == (*a == *b),
{
    a == b
}

/// Relies on crossterm's Display for SetForegroundColor: it writes ESC `[`,
/// the colour's parameters (digits and semicolons; none where NO_COLOR is
/// set) and `m`, or, where a Windows console runs the command itself,
/// nothing or an error, which gives the empty string here.
#[verifier::external_body]
fn foreground_sequence(c: Color) -> (r: String)
    ensures
        is_color_sequence(r@),
{
    let mut s = String::new();
    match write!(s, "{}", crossterm::style::SetForegroundColor(c)) {
        Ok(()) => s,
        Err(_) => String::new(),
    }
}

/// Whether pixel `i` starts a new colour run.
fn starts_run(pixels: &[Option<Color>], i: usize) -> (r: bool)
    requires
        i < pixels@.len(),
    ensures
        r == switches_color(pixels@, i as int),
{
    pixels[i].is_some() && i > 0 && !same_pixel(&pixels[i - 1], &pixels[i])
}

/// The views of a list of strings.
pub open spec fn string_views(v: Seq<String>) -> Seq<Seq<char>> {
    v.map_values(|s: String| s@)
}

/// Draws the pixels with `codes[i]` as the colour sequence of pixel `i`:
/// an empty pixel is a space, a coloured one a full block, preceded by
/// `codes[i]` exactly where the colour differs from the pixel before.
pub fn render_color_runs(pixels: &[Option<Color>], codes: &[String]) -> (r: String)
    requires
        codes@.len() == pixels@.len(),
    ensures
        r@ == color_text(pixels@, string_views(codes@), pixels@.len() as nat),
{
    let ghost views = string_views(codes@);
    let mut output = String::new();
    let mut i: usize = 0;
    while i < pixels.len()
        invariant
            i <= pixels@.len(),
            codes@.len() == pixels@.len(),
            views == string_views(codes@),
            output@ == color_text(pixels@, views, i as nat),
        decreases pixels@.len() - i,
    {
        if pixels[i].is_none() {
            push_char(&mut output, ' ');
        } else {
            if starts_run(pixels, i) {
                output.append(codes[i].as_str());
            }
            push_char(&mut output, '\u{2588}');
        }
        i += 1;
    }
    output
}

impl TerminalDisplay {
    /// Renders pixels one character each, as one run without line breaks
    /// (the width argument does not change the output): an empty pixel is a
    /// space, a coloured one a full block, preceded by the colour's foreground
    /// sequence where the colour differs from the pixel before. The first
    /// pixel never carries a sequence. The sequences are fetched only for
    /// those pixels and drawn by `render_color_runs`; what they hold depends
    /// on the environment (NO_COLOR, the console), so only their shape is
    /// stated here: each is empty or a single control sequence.
    pub fn render_full_block_color(pixels: &[Option<Color>], _width: u16) -> (r: String)
        ensures
            exists|codes: Seq<Seq<char>>|
                {
                    &&& codes.len() == pixels@.len()
                    &&& forall|i: int| 0 <= i < codes.len() ==> is_color_sequence(#[trigger] codes[i])
                    &&& r@ == color_text(pixels@, codes, pixels@.len() as nat)
                },
    {
        let mut codes: Vec<String> = Vec::new();
        let mut i: usize = 0;
        while i < pixels.len()
            invariant
                i <= pixels@.len(),
                codes@.len() == i,
                forall|k: int| 0 <= k < i ==> is_color_sequence(#[trigger] codes@[k]@),
            decreases pixels@.len() - i,
        {
            let code = match &pixels[i] {
                Some(color) => if starts_run(pixels, i) {
                    foreground_sequence(*color)
                } else {
                    String::new()
                },
                None => String::new(),
            };
            codes.push(code);
            i += 1;
        }
        let r = render_color_runs(pixels, codes.as_slice());
        assert(forall|k: int|
            0 <= k < pixels@.len() ==> is_color_sequence(#[trigger] string_views(codes@)[k]));
        r
    }
}

} // verus!
