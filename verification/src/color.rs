//! Colours: the colour type of the colour library, and the channels of a
//! colour as plain numbers.

use vstd::prelude::*;
use colorgrad::{Color, ParseColorError};
use crate::binary32::{clamp_unit, unit_clamped, ONE, ZERO};

verus! {

/// The colour type of the colour library, `colorgrad::Color`. Nothing is
/// known of a value of it but what `channels` names.
#[verifier::external_type_specification]
#[verifier::external_body]
pub struct ExColor(Color);

/// The error of the colour library for a text that is no colour,
/// `colorgrad::ParseColorError`. It is handed on as it comes.
#[verifier::external_type_specification]
#[verifier::external_body]
pub struct ExParseColorError(ParseColorError);

/// The four channels of a colour, each held as the bits of its binary32
/// value. The colours of gradient stops are kept in this form: two of them
/// are equal exactly when all their bits are.
#[derive(Clone, Copy, Debug, PartialEq, Eq, Structural)]
pub struct Rgba {
    pub r: u32,
    pub g: u32,
    pub b: u32,
    pub a: u32,
}

/// Opaque black.
pub open spec fn black() -> Rgba {
    Rgba { r: ZERO, g: ZERO, b: ZERO, a: ONE }
}

impl Rgba {
    /// Opaque black, the colour of a stop that names none.
    pub fn black() -> (r: Rgba)
        ensures
            r == black(),
    {
        Rgba { r: ZERO, g: ZERO, b: ZERO, a: ONE }
    }

    /// The colour with its alpha replaced by an opacity, which is first
    /// brought into the unit interval.
    pub open spec fn faded(self, opacity: u32) -> Rgba {
        Rgba { r: self.r, g: self.g, b: self.b, a: unit_clamped(opacity) }
    }

    /// Replaces the alpha of the colour by an opacity brought into the unit
    /// interval.
    pub fn with_opacity(self, opacity: u32) -> (r: Rgba)
        ensures
            r == self.faded(opacity),
    {
        Rgba { r: self.r, g: self.g, b: self.b, a: clamp_unit(opacity) }
    }
}

/// The channels of a colour of the colour library: the bits of its fields
/// `r`, `g`, `b` and `a`.
pub uninterp spec fn channels(c: Color) -> Rgba;

/// What `Color::to_rgba8` gives for a colour with these channels: red,
/// green, blue and alpha, each as a byte.
pub uninterp spec fn rgba8(c: Rgba) -> (u8, u8, u8, u8);

/// What `Color::to_css_rgb` prints for a colour with these channels.
pub uninterp spec fn css_rgb(c: Rgba) -> Seq<char>;

/// What `Color::to_css_hsl` prints for a colour with these channels.
pub uninterp spec fn css_hsl(c: Rgba) -> Seq<char>;

/// What `Color::to_css_hwb` prints for a colour with these channels.
pub uninterp spec fn css_hwb(c: Rgba) -> Seq<char>;

/// The bytes of a colour of the colour library.
pub open spec fn bytes_of(c: Color) -> (u8, u8, u8, u8) {
    rgba8(channels(c))
}

/// The digit for a number below sixteen, in lower case.
pub open spec fn hex_digit(d: int) -> char {
    if d < 10 {
        ((48 + d) as u8) as char
    } else {
        ((87 + d) as u8) as char
    }
}

/// A byte as two hexadecimal digits.
pub open spec fn hex_pair(b: u8) -> Seq<char> {
    seq![hex_digit(b as int / 16), hex_digit(b as int % 16)]
}

/// The hexadecimal notation of a colour: a number sign and two digits for
/// each of red, green and blue, and two more for the alpha where the colour
/// is not opaque.
pub open spec fn hex_notation(bytes: (u8, u8, u8, u8)) -> Seq<char> {
    let opaque = seq!['#'] + hex_pair(bytes.0) + hex_pair(bytes.1) + hex_pair(bytes.2);
    if bytes.3 < 255 {
        opaque + hex_pair(bytes.3)
    } else {
        opaque
    }
}

/// `Color::to_rgba8`: the result depends on the channels alone.
pub assume_specification[ Color::to_rgba8 ](c: &Color) -> (r: [u8; 4])
    ensures
        (r[0], r[1], r[2], r[3]) == rgba8(channels(*c)),
;

/// `Color::to_css_hex`: the hexadecimal notation of the bytes that
/// `Color::to_rgba8` gives.
pub assume_specification[ Color::to_css_hex ](c: &Color) -> (r: String)
    ensures
        r@ == hex_notation(rgba8(channels(*c))),
;

/// `Color::to_css_rgb`: the result depends on the channels alone.
pub assume_specification[ Color::to_css_rgb ](c: &Color) -> (r: String)
    ensures
        r@ == css_rgb(channels(*c)),
;

/// `Color::to_css_hsl`: the result depends on the channels alone.
pub assume_specification[ Color::to_css_hsl ](c: &Color) -> (r: String)
    ensures
        r@ == css_hsl(channels(*c)),
;

/// `Color::to_css_hwb`: the result depends on the channels alone.
pub assume_specification[ Color::to_css_hwb ](c: &Color) -> (r: String)
    ensures
        r@ == css_hwb(channels(*c)),
;

/// The colour that the colour library reads from a text, by its channels;
/// `None` for a text that it does not take for a colour.
pub uninterp spec fn parsed_color(s: Seq<char>) -> Option<Rgba>;

/// Parses a colour with the colour library (`FromStr` of `Color`) and hands
/// out the channels of what it found, or its error. It is believed that the
/// outcome depends on the text alone, which `parsed_color` names.
#[verifier::external_body]
pub(crate) fn parse_rgba(s: &str) -> (r: Result<Rgba, ParseColorError>)
    ensures
        match r {
            Ok(c) => parsed_color(s@) == Some(c),
            Err(_) => parsed_color(s@) is None,
        },
{
    match s.parse::<Color>() {
        Ok(c) => Ok(Rgba { r: c.r.to_bits(), g: c.g.to_bits(), b: c.b.to_bits(), a: c.a.to_bits() }),
        Err(e) => Err(e),
    }
}

} // verus!
