//! Discrete colours as text: a list for another program, plain lines, or,
//! in a terminal, the notation of each colour, written on the colour, with
//! a bar that shows the colour over a checkerboard.

use vstd::prelude::*;
use colorgrad::Color;
use crate::binary32::{less, lt};
use crate::cli::OutputColor;
use crate::color::bytes_of;
use crate::render::{bar, color_to_ansi, paint, push_paint, unpaint};

verus! {

/// One colour to be shown: its notation; the colour itself, on which the
/// notation is written in a terminal; whether the colour is so dark that the
/// notation is written in white and not in black; and the colour laid over
/// the first and over the second colour of the checkerboard.
#[derive(Debug)]
pub struct Swatch {
    pub text: String,
    pub color: Color,
    pub light_text: bool,
    pub over_first: Color,
    pub over_second: Color,
}

/// A swatch as a mathematical value: the notation, the bytes of the colour,
/// whether the notation is written in white, and the bytes of the two
/// colours of the bar.
pub ghost struct SwatchModel {
    pub text: Seq<char>,
    pub color: (u8, u8, u8, u8),
    pub light_text: bool,
    pub first: (u8, u8, u8, u8),
    pub second: (u8, u8, u8, u8),
}

impl View for Swatch {
    type V = SwatchModel;

    open spec fn view(&self) -> SwatchModel {
        SwatchModel {
            text: self.text@,
            color: bytes_of(self.color),
            light_text: self.light_text,
            first: bytes_of(self.over_first),
            second: bytes_of(self.over_second),
        }
    }
}

/// The swatches of a list, each as a mathematical value.
pub open spec fn swatch_models(swatches: Seq<Swatch>) -> Seq<SwatchModel> {
    swatches.map_values(|s: Swatch| s@)
}

/// The relative luminance below which a colour counts as dark: the bits of
/// the binary32 value next to three tenths.
pub const DARK_BELOW: u32 = 0x3e99_999a;

/// Whether a notation is written in white on a colour: on a colour whose
/// relative luminance, given as binary32 bits, is below three tenths. On
/// any other colour, and where the luminance is no number, it is written in
/// black.
pub fn needs_light_text(luminance: u32) -> (r: bool)
    ensures
        r == less(luminance, DARK_BELOW),
{
    lt(luminance, DARK_BELOW)
}

/// The width that a text takes in a line: the number of its characters.
pub open spec fn width(text: Seq<char>) -> int {
    text.len() as int
}

/// A text as the `Debug` formatting of `str` prints it: between double
/// quotes, with escapes where it needs them.
pub uninterp spec fn quoted(s: Seq<char>) -> Seq<char>;

/// Formats a text with `Debug` (`format!` with `{:?}`). It is believed that
/// the result depends on the text alone, which `quoted` names.
#[verifier::external_body]
fn quote(s: &str) -> (r: String)
    ensures
        r@ == quoted(s@),
{
    format!("{:?}", s)
}

/// The first `n` notations, each quoted, with a comma and a space between
/// them.
pub open spec fn listed(swatches: Seq<SwatchModel>, n: int) -> Seq<char>
    decreases n,
{
    if n <= 0 {
        Seq::empty()
    } else if n == 1 {
        quoted(swatches[0].text)
    } else {
        listed(swatches, n - 1) + ", "@ + quoted(swatches[n - 1].text)
    }
}

/// All notations as one list in square brackets, and a line feed.
pub open spec fn array_line(swatches: Seq<SwatchModel>) -> Seq<char> {
    "["@ + listed(swatches, swatches.len() as int) + "]\n"@
}

/// The first `n` notations, each on a line of its own.
pub open spec fn plain_lines(swatches: Seq<SwatchModel>, n: int) -> Seq<char>
    decreases n,
{
    if n <= 0 {
        Seq::empty()
    } else {
        plain_lines(swatches, n - 1) + swatches[n - 1].text + "\n"@
    }
}

/// The colour in which a notation is written: white on a dark colour, black
/// on any other.
pub open spec fn ink(light_text: bool) -> (u8, u8, u8, u8) {
    if light_text {
        (255u8, 255u8, 255u8, 255u8)
    } else {
        (0u8, 0u8, 0u8, 255u8)
    }
}

/// The notation of a swatch as a terminal shows it: written on the colour
/// itself, in white or in black, between the escape sequence that sets the
/// two and the one that gives them back.
pub open spec fn label(s: SwatchModel) -> Seq<char> {
    paint(ink(s.light_text), s.color) + s.text + unpaint()
}

/// The line of one swatch with its bar before it: a bar of seven cells, a
/// space, the notation on its colour, and a line feed.
pub open spec fn bar_line(s: SwatchModel) -> Seq<char> {
    bar(s.first, s.second, 7) + " "@ + label(s) + "\n"@
}

/// The first `n` swatches, each on a line with its bar.
pub open spec fn bar_lines(swatches: Seq<SwatchModel>, n: int) -> Seq<char>
    decreases n,
{
    if n <= 0 {
        Seq::empty()
    } else {
        bar_lines(swatches, n - 1) + bar_line(swatches[n - 1])
    }
}

/// Where the layout of swatches in rows stands: what is written, the row of
/// bars and the row of notations that are being filled, and how wide they
/// are.
pub ghost struct Layout {
    pub out: Seq<char>,
    pub upper: Seq<char>,
    pub lower: Seq<char>,
    pub width: int,
}

/// The layout with one more swatch. Its bar, as wide as its notation, goes
/// to the upper row and its notation, on its colour, to the lower one; a
/// space follows in both while the rows are narrower than the terminal. The
/// rows are written out, the upper above the lower, when the next notation
/// would make them wider than the terminal, and after the last swatch. The
/// widths are those of the notations, without the escape sequences.
pub open spec fn placed(l: Layout, s: SwatchModel, next: int, last: bool, term: int) -> Layout {
    let upper = l.upper + bar(s.first, s.second, width(s.text));
    let lower = l.lower + label(s);
    let wide = l.width + width(s.text);
    let spaced = wide < term;
    let upper = if spaced {
        upper.push(' ')
    } else {
        upper
    };
    let lower = if spaced {
        lower.push(' ')
    } else {
        lower
    };
    let wide = if spaced {
        wide + 1
    } else {
        wide
    };
    if wide + next > term || last {
        Layout {
            out: l.out + upper + "\n"@ + lower + "\n"@,
            upper: Seq::empty(),
            lower: Seq::empty(),
            width: 0,
        }
    } else {
        Layout { out: l.out, upper, lower, width: wide }
    }
}

/// The width of the notation after the first `n` swatches; 0 where there is
/// none.
pub open spec fn next_width(swatches: Seq<SwatchModel>, n: int) -> int {
    if 0 <= n < swatches.len() {
        width(swatches[n].text)
    } else {
        0
    }
}

/// The layout after the first `n` swatches, in a terminal of `term` columns.
pub open spec fn laid(swatches: Seq<SwatchModel>, n: int, term: int) -> Layout
    decreases n,
{
    if n <= 0 {
        Layout { out: Seq::empty(), upper: Seq::empty(), lower: Seq::empty(), width: 0 }
    } else {
        placed(
            laid(swatches, n - 1, term),
            swatches[n - 1],
            next_width(swatches, n),
            n == swatches.len(),
            term,
        )
    }
}

/// The swatches in rows: what the layout has written after all of them.
pub open spec fn rows(swatches: Seq<SwatchModel>, term: int) -> Seq<char> {
    laid(swatches, swatches.len() as int, term).out
}

/// What is shown of a list of colours. As a list in square brackets where
/// that is asked for; else, in a terminal, in rows for the hexadecimal
/// notation and one to a line with its bar for any other; else one notation
/// to a line.
pub open spec fn shown(
    swatches: Seq<SwatchModel>,
    array: bool,
    is_terminal: bool,
    format: OutputColor,
    term: int,
) -> Seq<char> {
    if array {
        array_line(swatches)
    } else if is_terminal {
        if format != OutputColor::Hex {
            bar_lines(swatches, swatches.len() as int)
        } else {
            rows(swatches, term)
        }
    } else {
        plain_lines(swatches, swatches.len() as int)
    }
}

fn push_label(out: &mut String, s: &Swatch)
    ensures
        final(out)@ == old(out)@ + label(s@),
{
    let ghost before = out@;
    let fg: [u8; 4] = if s.light_text {
        [255, 255, 255, 255]
    } else {
        [0, 0, 0, 255]
    };
    let bg = s.color.to_rgba8();
    push_paint(out, &fg, &bg);
    out.append(s.text.as_str());
    out.append("\x1B[39;49m");
    assert(out@ == before + label(s@));
}

/// The notations as one list in square brackets: each quoted, a comma and a
/// space between them, and a line feed at the end.
pub fn array_text(swatches: &Vec<Swatch>) -> (r: String)
    ensures
        r@ == array_line(swatch_models(swatches@)),
{
    let ghost models = swatch_models(swatches@);
    let mut out = String::new();
    out.append("[");
    let mut i: usize = 0;
    while i < swatches.len()
        invariant
            i <= swatches@.len(),
            models == swatch_models(swatches@),
            out@ == "["@ + listed(models, i as int),
        decreases swatches@.len() - i,
    {
        let ghost before = out@;
        if i > 0 {
            out.append(", ");
        }
        let item = quote(swatches[i].text.as_str());
        out.append(item.as_str());
        assert(models[i as int].text == swatches@[i as int].text@);
        assert(out@ == "["@ + listed(models, i + 1));
        i += 1;
    }
    out.append("]\n");
    out
}

/// The notations, one to a line.
pub fn plain_text(swatches: &Vec<Swatch>) -> (r: String)
    ensures
        r@ == plain_lines(swatch_models(swatches@), swatches@.len() as int),
{
    let ghost models = swatch_models(swatches@);
    let mut out = String::new();
    let mut i: usize = 0;
    while i < swatches.len()
        invariant
            i <= swatches@.len(),
            models == swatch_models(swatches@),
            out@ == plain_lines(models, i as int),
        decreases swatches@.len() - i,
    {
        out.append(swatches[i].text.as_str());
        out.append("\n");
        assert(models[i as int].text == swatches@[i as int].text@);
        assert(out@ == plain_lines(models, i + 1));
        i += 1;
    }
    out
}

/// The swatches, one to a line: a bar of seven cells, a space, and the
/// notation on its colour.
pub fn bar_text(swatches: &Vec<Swatch>) -> (r: String)
    ensures
        r@ == bar_lines(swatch_models(swatches@), swatches@.len() as int),
{
    let ghost models = swatch_models(swatches@);
    let mut out = String::new();
    let mut i: usize = 0;
    while i < swatches.len()
        invariant
            i <= swatches@.len(),
            models == swatch_models(swatches@),
            out@ == bar_lines(models, i as int),
        decreases swatches@.len() - i,
    {
        let ghost before = out@;
        let s = &swatches[i];
        let colored = color_to_ansi(&s.over_first, &s.over_second, 7);
        out.append(colored.as_str());
        out.append(" ");
        push_label(&mut out, s);
        out.append("\n");
        assert(models[i as int] == swatches@[i as int]@);
        assert(out@ == before + bar_line(models[i as int]));
        i += 1;
    }
    out
}

/// The swatches in rows, for a terminal of `term_width` columns: the bars in
/// one row and the notations, each on its colour, in the row below, as many
/// as fit. What fits is measured by the notations alone, not by the escape
/// sequences around them.
pub fn rows_text(swatches: &Vec<Swatch>, term_width: usize) -> (r: String)
    ensures
        r@ == rows(swatch_models(swatches@), term_width as int),
{
    let ghost models = swatch_models(swatches@);
    let ghost term = term_width as int;
    let n = swatches.len();
    let mut out = String::new();
    let mut upper = String::new();
    let mut lower = String::new();
    let mut w: usize = 0;
    let mut i: usize = 0;
    while i < n
        invariant
            i <= n == swatches@.len(),
            models == swatch_models(swatches@),
            term == term_width,
            w <= term_width,
            laid(models, i as int, term) == (Layout {
                out: out@,
                upper: upper@,
                lower: lower@,
                width: w as int,
            }),
        decreases n - i,
    {
        let ghost before = laid(models, i as int, term);
        let s = &swatches[i];
        assert(models[i as int] == s@);
        let wc = s.text.as_str().unicode_len();
        let colored = color_to_ansi(&s.over_first, &s.over_second, wc);
        upper.append(colored.as_str());
        push_label(&mut lower, s);
        let mut wide: u128 = w as u128 + wc as u128;
        if wide < term_width as u128 {
            upper.push(' ');
            lower.push(' ');
            wide = wide + 1;
        }
        let last = i + 1 == n;
        let nwc: usize = if last {
            0
        } else {
            swatches[i + 1].text.as_str().unicode_len()
        };
        assert(nwc == next_width(models, i + 1)) by {
            if !last {
                assert(models[i + 1].text == swatches@[i + 1].text@);
            }
        }
        if wide + nwc as u128 > term_width as u128 || last {
            out.append(upper.as_str());
            out.append("\n");
            out.append(lower.as_str());
            out.append("\n");
            upper = String::new();
            lower = String::new();
            w = 0;
        } else {
            w = wide as usize;
        }
        assert(laid(models, i + 1, term) == placed(
            before,
            models[i as int],
            next_width(models, i + 1),
            last,
            term,
        ));
        i += 1;
    }
    out
}

/// What is shown of a list of colours: a list in square brackets where
/// `array` asks for it; else, in a terminal, rows of bars and notations for
/// the hexadecimal notation, and a bar and a notation to a line for any
/// other; else one notation to a line.
pub fn display_colors(
    swatches: &Vec<Swatch>,
    array: bool,
    is_terminal: bool,
    format: OutputColor,
    term_width: usize,
) -> (r: String)
    ensures
        r@ == shown(swatch_models(swatches@), array, is_terminal, format, term_width as int),
{
    if array {
        array_text(swatches)
    } else if is_terminal {
        match format {
            OutputColor::Hex => rows_text(swatches, term_width),
            _ => bar_text(swatches),
        }
    } else {
        plain_text(swatches)
    }
}

} // verus!
