//! Text for the terminal: escape sequences that set the colours of a cell,
//! rows of half blocks, and bars over a checkerboard.

use vstd::prelude::*;
use colorgrad::Color;
use crate::cli::OutputColor;
use crate::color::{
    bytes_of, channels, css_hsl, css_hwb, css_rgb, hex_digit, hex_notation, hex_pair, rgba8, Rgba,
};
use crate::text::opt_text;

verus! {

/// The decimal digit for a number below ten.
pub open spec fn digit(d: int) -> char {
    ((48 + d) as u8) as char
}

/// A natural number in decimal digits, without leading zeros.
pub open spec fn decimal(n: int) -> Seq<char>
    decreases n,
{
    if n < 10 {
        seq![digit(n)]
    } else {
        decimal(n / 10).push(digit(n % 10))
    }
}

/// The three numbers of a colour in an escape sequence: red, green and blue
/// in decimal, with semicolons between them.
pub open spec fn triple(bytes: (u8, u8, u8, u8)) -> Seq<char> {
    decimal(bytes.0 as int) + seq![';'] + decimal(bytes.1 as int) + seq![';'] + decimal(
        bytes.2 as int,
    )
}

/// The escape sequence that sets the foreground to one colour and the
/// background to another.
pub open spec fn paint(fg: (u8, u8, u8, u8), bg: (u8, u8, u8, u8)) -> Seq<char> {
    "\x1B[38;2;"@ + triple(fg) + ";48;2;"@ + triple(bg) + "m"@
}

/// The escape sequence that gives both colours back to the terminal.
pub open spec fn unpaint() -> Seq<char> {
    "\x1B[39;49m"@
}

/// A text between the escape sequences that switch bold on and off.
pub open spec fn emboldened(s: Seq<char>) -> Seq<char> {
    "\x1B[1m"@ + s + "\x1B[0m"@
}

/// The glyph of a bar at a place: the upper half block at the even places and
/// the lower half block at the odd ones.
pub open spec fn bar_glyph(place: int) -> char {
    if place % 2 == 0 {
        '\u{2580}'
    } else {
        '\u{2584}'
    }
}

/// The first `width` cells of a bar. Each cell sets the two colours anew and
/// shows a half block, so that the two colours change places from cell to
/// cell.
pub open spec fn bar_cells(fg: (u8, u8, u8, u8), bg: (u8, u8, u8, u8), width: int) -> Seq<char>
    decreases width,
{
    if width <= 0 {
        Seq::empty()
    } else {
        bar_cells(fg, bg, width - 1) + paint(fg, bg).push(bar_glyph(width - 1))
    }
}

/// A bar of `width` cells, and the escape sequence that ends it.
pub open spec fn bar(fg: (u8, u8, u8, u8), bg: (u8, u8, u8, u8), width: int) -> Seq<char> {
    bar_cells(fg, bg, width) + unpaint()
}

/// The bytes of the colours of a list.
pub open spec fn bytes_of_all(colors: Seq<Color>) -> Seq<(u8, u8, u8, u8)> {
    colors.map_values(|c: Color| bytes_of(c))
}

/// The first `cells` cells of a row of left half blocks. A cell takes two
/// samples: the first is its foreground, which the left half shows, the
/// second its background, which the right half shows.
pub open spec fn row_cells(samples: Seq<(u8, u8, u8, u8)>, cells: int) -> Seq<char>
    decreases cells,
{
    if cells <= 0 {
        Seq::empty()
    } else {
        row_cells(samples, cells - 1) + paint(
            samples[2 * (cells - 1)],
            samples[2 * (cells - 1) + 1],
        ).push('\u{258C}')
    }
}

/// A row of left half blocks over all the pairs of samples, the escape
/// sequence that ends it, and a line feed. A sample left over at the end is
/// not shown.
pub open spec fn row(samples: Seq<(u8, u8, u8, u8)>) -> Seq<char> {
    row_cells(samples, samples.len() as int / 2) + unpaint() + seq!['\n']
}

/// The tile of the checkerboard under the cell in column `x` of row `y`: 0
/// for the first colour, 1 for the second. A tile is two cells wide and one
/// row high.
pub open spec fn tile(x: int, y: int) -> int {
    if (x / 2) % 2 == y % 2 {
        0
    } else {
        1
    }
}

fn push_digit(out: &mut String, d: u8)
    requires
        d < 10,
    ensures
        final(out)@ == old(out)@.push(digit(d as int)),
{
    out.push((48 + d) as char);
}

/// Appends a byte in decimal digits.
pub fn push_decimal(out: &mut String, n: u8)
    ensures
        final(out)@ == old(out)@ + decimal(n as int),
{
    let ghost before = out@;
    if n >= 100 {
        push_digit(out, n / 100);
    }
    if n >= 10 {
        push_digit(out, (n / 10) % 10);
    }
    push_digit(out, n % 10);
    proof {
        reveal_with_fuel(decimal, 3);
        assert(out@ == before + decimal(n as int));
    }
}

fn push_triple(out: &mut String, bytes: &[u8; 4])
    ensures
        final(out)@ == old(out)@ + triple((bytes[0], bytes[1], bytes[2], bytes[3])),
{
    let ghost before = out@;
    push_decimal(out, bytes[0]);
    out.push(';');
    push_decimal(out, bytes[1]);
    out.push(';');
    push_decimal(out, bytes[2]);
    assert(out@ == before + triple((bytes[0], bytes[1], bytes[2], bytes[3])));
}

pub(crate) fn push_paint(out: &mut String, fg: &[u8; 4], bg: &[u8; 4])
    ensures
        final(out)@ == old(out)@ + paint(
            (fg[0], fg[1], fg[2], fg[3]),
            (bg[0], bg[1], bg[2], bg[3]),
        ),
{
    let ghost before = out@;
    out.append("\x1B[38;2;");
    push_triple(out, fg);
    out.append(";48;2;");
    push_triple(out, bg);
    out.append("m");
    assert(out@ == before + paint((fg[0], fg[1], fg[2], fg[3]), (bg[0], bg[1], bg[2], bg[3])));
}

/// The line that shows a named colour: three spaces on the colour as
/// background, then, in the colour as foreground, its hexadecimal notation,
/// and after it the name.
pub open spec fn named_line(name: Seq<char>, r: u8, g: u8, b: u8) -> Seq<char> {
    "\x1B[48;2;"@ + triple((r, g, b, 255u8)) + "m   \x1B[49;38;2;"@ + triple((r, g, b, 255u8))
        + "m #"@ + hex_pair(r) + hex_pair(g) + hex_pair(b) + "\x1B[39m "@ + name
}

fn push_hex_digit(out: &mut String, d: u8)
    requires
        d < 16,
    ensures
        final(out)@ == old(out)@.push(hex_digit(d as int)),
{
    if d < 10 {
        out.push((48 + d) as char);
    } else {
        out.push((87 + d) as char);
    }
}

fn push_hex_pair(out: &mut String, b: u8)
    ensures
        final(out)@ == old(out)@ + hex_pair(b),
{
    let ghost before = out@;
    push_hex_digit(out, b / 16);
    push_hex_digit(out, b % 16);
    assert(out@ == before + hex_pair(b));
}

/// The line that shows a named colour in the list of named colours.
pub fn named_color_line(name: &str, r: u8, g: u8, b: u8) -> (line: String)
    ensures
        line@ == named_line(name@, r, g, b),
{
    let bytes: [u8; 4] = [r, g, b, 255];
    let mut out = String::new();
    out.append("\x1B[48;2;");
    push_triple(&mut out, &bytes);
    out.append("m   \x1B[49;38;2;");
    push_triple(&mut out, &bytes);
    out.append("m #");
    push_hex_pair(&mut out, r);
    push_hex_pair(&mut out, g);
    push_hex_pair(&mut out, b);
    out.append("\x1B[39m ");
    out.append(name);
    assert(out@ == named_line(name@, r, g, b));
    out
}

/// Puts a text between the escape sequences that switch bold on and off.
pub fn bold(s: &str) -> (r: String)
    ensures
        r@ == emboldened(s@),
{
    let mut out = String::new();
    out.append("\x1B[1m");
    out.append(s);
    out.append("\x1B[0m");
    assert(out@ == emboldened(s@));
    out
}

/// A bar of `width` cells that shows a colour over a checkerboard.
///
/// `over_first` is the colour laid over the first colour of the
/// checkerboard, `over_second` the colour laid over the second. Each cell
/// sets the first as foreground and the second as background and shows a
/// half block, the upper and the lower in turn; the bar ends with the escape
/// sequence that gives the colours back.
pub fn color_to_ansi(over_first: &Color, over_second: &Color, width: usize) -> (r: String)
    ensures
        r@ == bar(bytes_of(*over_first), bytes_of(*over_second), width as int),
{
    let fg = over_first.to_rgba8();
    let bg = over_second.to_rgba8();
    let mut out = String::new();
    let mut i: usize = 0;
    while i < width
        invariant
            i <= width,
            (fg[0], fg[1], fg[2], fg[3]) == bytes_of(*over_first),
            (bg[0], bg[1], bg[2], bg[3]) == bytes_of(*over_second),
            out@ == bar_cells(bytes_of(*over_first), bytes_of(*over_second), i as int),
        decreases width - i,
    {
        let ghost before = out@;
        push_paint(&mut out, &fg, &bg);
        out.push(if i % 2 == 0 { '\u{2580}' } else { '\u{2584}' });
        assert(out@ == before + paint(bytes_of(*over_first), bytes_of(*over_second)).push(
            bar_glyph(i as int),
        ));
        i += 1;
    }
    out.append("\x1B[39;49m");
    out
}

/// A colour in a notation, where the colour library prints that notation.
/// `Rgb` and `Rgb255` both give the `rgb()` notation with numbers up to 255,
/// which is the one the colour library has. It has none for `Hsv`.
pub open spec fn notation(c: Rgba, format: OutputColor) -> Option<Seq<char>> {
    match format {
        OutputColor::Hex => Some(hex_notation(rgba8(c))),
        OutputColor::Rgb => Some(css_rgb(c)),
        OutputColor::Rgb255 => Some(css_rgb(c)),
        OutputColor::Hsl => Some(css_hsl(c)),
        OutputColor::Hsv => None,
        OutputColor::Hwb => Some(css_hwb(c)),
    }
}

/// Prints a colour in a notation. The colour library does the printing; for
/// `Hsv`, which it does not print, the result is `None`.
pub fn format_color(col: &Color, format: OutputColor) -> (r: Option<String>)
    ensures
        opt_text(r) == notation(channels(*col), format),
{
    match format {
        OutputColor::Hex => Some(col.to_css_hex()),
        OutputColor::Rgb => Some(col.to_css_rgb()),
        OutputColor::Rgb255 => Some(col.to_css_rgb()),
        OutputColor::Hsl => Some(col.to_css_hsl()),
        OutputColor::Hsv => None,
        OutputColor::Hwb => Some(col.to_css_hwb()),
    }
}

/// Which colour of the checkerboard lies under the cell in column `x` of row
/// `y`: 0 for the first, 1 for the second.
pub fn checker_tile(x: usize, y: usize) -> (r: usize)
    ensures
        r == tile(x as int, y as int),
        r == ((x / 2) & 1) ^ (y & 1),
{
    let column = (x / 2) & 1;
    let line = y & 1;
    assert(column == (x / 2) % 2) by (bit_vector)
        requires
            column == (x / 2) & 1,
    ;
    assert(line == y % 2) by (bit_vector)
        requires
            line == y & 1,
    ;
    assert(column ^ line == (if column == line { 0usize } else { 1usize })) by (bit_vector)
        requires
            column < 2,
            line < 2,
    ;
    column ^ line
}

/// What lies behind the colours that are shown: one colour everywhere, or a
/// checkerboard of two.
#[derive(Debug)]
pub enum Background {
    Solid(Color),
    Checkerboard(Color, Color),
}

impl Background {
    /// The colour behind the cell in column `x` of row `y`: the one colour
    /// of a solid background; of a checkerboard the first colour on the
    /// tiles numbered 0 and the second on those numbered 1.
    pub open spec fn under(self, x: int, y: int) -> Color {
        match self {
            Background::Solid(c) => c,
            Background::Checkerboard(first, second) => if tile(x, y) == 0 {
                first
            } else {
                second
            },
        }
    }

    /// The colour behind the cell in column `x` of row `y`.
    pub fn at(&self, x: usize, y: usize) -> (r: &Color)
        ensures
            *r == self.under(x as int, y as int),
    {
        match self {
            Background::Solid(c) => c,
            Background::Checkerboard(first, second) => if checker_tile(x, y) == 0 {
                first
            } else {
                second
            },
        }
    }
}

/// One row of a gradient: a left half block for each pair of samples, the
/// first sample of the pair on the left and the second on the right, then the
/// escape sequence that gives the colours back, and a line feed.
pub fn block_row(samples: &Vec<Color>) -> (r: String)
    ensures
        r@ == row(bytes_of_all(samples@)),
{
    let cells = samples.len() / 2;
    let ghost bytes = bytes_of_all(samples@);
    let mut out = String::new();
    let mut i: usize = 0;
    while i < cells
        invariant
            i <= cells == samples@.len() / 2,
            samples@.len() <= usize::MAX,
            bytes == bytes_of_all(samples@),
            out@ == row_cells(bytes, i as int),
        decreases cells - i,
    {
        let ghost before = out@;
        let fg = samples[2 * i].to_rgba8();
        let bg = samples[2 * i + 1].to_rgba8();
        push_paint(&mut out, &fg, &bg);
        out.push('\u{258C}');
        assert(out@ == before + paint(bytes[2 * i], bytes[2 * i + 1]).push('\u{258C}'));
        i += 1;
    }
    out.append("\x1B[39;49m");
    out.push('\n');
    assert(out@ == row(bytes));
    out
}

} // verus!
