//! What the command line can name: blend modes, interpolations, colour
//! notations and preset gradients; lists of colours; and the size of what
//! is shown.

use vstd::prelude::*;
use std::str::FromStr;
use colorgrad::ParseColorError;
use crate::color::{parse_rgba, parsed_color, Rgba};
use crate::text::{chars_of, lowercase, same_text, text_of};

verus! {

/// The colour space in which the colours of a gradient are blended.
#[derive(Clone, Copy, Debug, PartialEq, Eq, Structural)]
pub enum BlendMode {
    Rgb,
    LinearRgb,
    Oklab,
    Lab,
}

/// The curve that leads from one colour of a gradient to the next.
#[derive(Clone, Copy, Debug, PartialEq, Eq, Structural)]
pub enum Interpolation {
    Linear,
    Basis,
    CatmullRom,
}

/// The notation in which a colour is printed.
#[derive(Clone, Copy, Debug, PartialEq, Eq, Structural)]
pub enum OutputColor {
    Hex,
    Rgb,
    Rgb255,
    Hsl,
    Hsv,
    Hwb,
}

/// The names of the preset gradients, in the order in which they are listed.
pub const PRESET_NAMES: [&'static str; 38] = [
    "blues",
    "br-bg",
    "bu-gn",
    "bu-pu",
    "cividis",
    "cool",
    "cubehelix",
    "gn-bu",
    "greens",
    "greys",
    "inferno",
    "magma",
    "or-rd",
    "oranges",
    "pi-yg",
    "plasma",
    "pr-gn",
    "pu-bu",
    "pu-bu-gn",
    "pu-or",
    "pu-rd",
    "purples",
    "rainbow",
    "rd-bu",
    "rd-gy",
    "rd-pu",
    "rd-yl-bu",
    "rd-yl-gn",
    "reds",
    "sinebow",
    "spectral",
    "turbo",
    "viridis",
    "warm",
    "yl-gn",
    "yl-gn-bu",
    "yl-or-br",
    "yl-or-rd",
];

/// The message for a value that is none of those an option takes: the name
/// of the option, the value as it was given, and the values to pick from.
pub open spec fn refusal(option: Seq<char>, value: Seq<char>, choices: Seq<char>) -> Seq<char> {
    "Invalid --"@ + option + " '"@ + value + "' [pick from: "@ + choices + "]"@
}

fn refuse(option: &str, value: &str, choices: &str) -> (r: String)
    ensures
        r@ == refusal(option@, value@, choices@),
{
    let mut out = String::new();
    out.append("Invalid --");
    out.append(option);
    out.append(" '");
    out.append(value);
    out.append("' [pick from: ");
    out.append(choices);
    out.append("]");
    assert(out@ == refusal(option@, value@, choices@));
    out
}

impl BlendMode {
    /// The blend mode with a name, which is in lower case.
    pub open spec fn named(name: Seq<char>) -> Option<BlendMode> {
        if name == "rgb"@ {
            Some(BlendMode::Rgb)
        } else if name == "linear-rgb"@ {
            Some(BlendMode::LinearRgb)
        } else if name == "oklab"@ {
            Some(BlendMode::Oklab)
        } else if name == "lab"@ {
            Some(BlendMode::Lab)
        } else {
            None
        }
    }

    /// Looks up a blend mode by its name, which is in lower case.
    pub fn from_name(name: &str) -> (r: Option<BlendMode>)
        ensures
            r == BlendMode::named(name@),
    {
        if same_text(name, "rgb") {
            Some(BlendMode::Rgb)
        } else if same_text(name, "linear-rgb") {
            Some(BlendMode::LinearRgb)
        } else if same_text(name, "oklab") {
            Some(BlendMode::Oklab)
        } else if same_text(name, "lab") {
            Some(BlendMode::Lab)
        } else {
            None
        }
    }

    /// Reads a blend mode from its name, in any case; or says which names
    /// there are.
    pub fn parse(s: &str) -> (r: Result<BlendMode, String>)
        ensures
            match BlendMode::named(lowercase(s@)) {
                Some(m) => r == Ok::<BlendMode, String>(m),
                None => r is Err && r->Err_0@ == refusal(
                    "blend-mode"@,
                    s@,
                    "rgb, linear-rgb, oklab, lab"@,
                ),
            },
    {
        match BlendMode::from_name(s.to_lowercase().as_str()) {
            Some(m) => Ok(m),
            None => Err(refuse("blend-mode", s, "rgb, linear-rgb, oklab, lab")),
        }
    }

    /// The blend mode to use where the command line may have named one: the
    /// one it named, else Oklab.
    pub fn or_default(chosen: Option<BlendMode>) -> (r: BlendMode)
        ensures
            r == match chosen {
                Some(m) => m,
                None => BlendMode::Oklab,
            },
    {
        match chosen {
            Some(m) => m,
            None => BlendMode::Oklab,
        }
    }
}

impl FromStr for BlendMode {
    type Err = String;

    /// Reads the value from its name, in any case, as `parse` does: the
    /// value with that name in lower case, or the message that says which
    /// names there are.
    fn from_str(s: &str) -> (r: Result<Self, Self::Err>)
        ensures
            match BlendMode::named(lowercase(s@)) {
                Some(m) => r == Ok::<BlendMode, String>(m),
                None => r is Err && r->Err_0@ == refusal(
                    "blend-mode"@,
                    s@,
                    "rgb, linear-rgb, oklab, lab"@,
                ),
            },
    {
        BlendMode::parse(s)
    }
}

impl Interpolation {
    /// The interpolation with a name, which is in lower case.
    pub open spec fn named(name: Seq<char>) -> Option<Interpolation> {
        if name == "linear"@ {
            Some(Interpolation::Linear)
        } else if name == "basis"@ {
            Some(Interpolation::Basis)
        } else if name == "catmull-rom"@ {
            Some(Interpolation::CatmullRom)
        } else {
            None
        }
    }

    /// Looks up an interpolation by its name, which is in lower case.
    pub fn from_name(name: &str) -> (r: Option<Interpolation>)
        ensures
            r == Interpolation::named(name@),
    {
        if same_text(name, "linear") {
            Some(Interpolation::Linear)
        } else if same_text(name, "basis") {
            Some(Interpolation::Basis)
        } else if same_text(name, "catmull-rom") {
            Some(Interpolation::CatmullRom)
        } else {
            None
        }
    }

    /// Reads an interpolation from its name, in any case; or says which
    /// names there are.
    pub fn parse(s: &str) -> (r: Result<Interpolation, String>)
        ensures
            match Interpolation::named(lowercase(s@)) {
                Some(m) => r == Ok::<Interpolation, String>(m),
                None => r is Err && r->Err_0@ == refusal(
                    "interpolation"@,
                    s@,
                    "linear, basis, catmull-rom"@,
                ),
            },
    {
        match Interpolation::from_name(s.to_lowercase().as_str()) {
            Some(m) => Ok(m),
            None => Err(refuse("interpolation", s, "linear, basis, catmull-rom")),
        }
    }

    /// The interpolation to use where the command line may have named one:
    /// the one it named, else Catmull-Rom.
    pub fn or_default(chosen: Option<Interpolation>) -> (r: Interpolation)
        ensures
            r == match chosen {
                Some(m) => m,
                None => Interpolation::CatmullRom,
            },
    {
        match chosen {
            Some(m) => m,
            None => Interpolation::CatmullRom,
        }
    }
}

impl FromStr for Interpolation {
    type Err = String;

    /// Reads the value from its name, in any case, as `parse` does: the
    /// value with that name in lower case, or the message that says which
    /// names there are.
    fn from_str(s: &str) -> (r: Result<Self, Self::Err>)
        ensures
            match Interpolation::named(lowercase(s@)) {
                Some(m) => r == Ok::<Interpolation, String>(m),
                None => r is Err && r->Err_0@ == refusal(
                    "interpolation"@,
                    s@,
                    "linear, basis, catmull-rom"@,
                ),
            },
    {
        Interpolation::parse(s)
    }
}

impl OutputColor {
    /// The notation with a name, which is in lower case.
    pub open spec fn named(name: Seq<char>) -> Option<OutputColor> {
        if name == "hex"@ {
            Some(OutputColor::Hex)
        } else if name == "rgb"@ {
            Some(OutputColor::Rgb)
        } else if name == "rgb255"@ {
            Some(OutputColor::Rgb255)
        } else if name == "hsl"@ {
            Some(OutputColor::Hsl)
        } else if name == "hsv"@ {
            Some(OutputColor::Hsv)
        } else if name == "hwb"@ {
            Some(OutputColor::Hwb)
        } else {
            None
        }
    }

    /// Looks up a notation by its name, which is in lower case.
    pub fn from_name(name: &str) -> (r: Option<OutputColor>)
        ensures
            r == OutputColor::named(name@),
    {
        if same_text(name, "hex") {
            Some(OutputColor::Hex)
        } else if same_text(name, "rgb") {
            Some(OutputColor::Rgb)
        } else if same_text(name, "rgb255") {
            Some(OutputColor::Rgb255)
        } else if same_text(name, "hsl") {
            Some(OutputColor::Hsl)
        } else if same_text(name, "hsv") {
            Some(OutputColor::Hsv)
        } else if same_text(name, "hwb") {
            Some(OutputColor::Hwb)
        } else {
            None
        }
    }

    /// Reads a notation from its name, in any case; or says which names
    /// there are.
    pub fn parse(s: &str) -> (r: Result<OutputColor, String>)
        ensures
            match OutputColor::named(lowercase(s@)) {
                Some(m) => r == Ok::<OutputColor, String>(m),
                None => r is Err && r->Err_0@ == refusal(
                    "format"@,
                    s@,
                    "hex, rgb, rgb255, hsl, hsv, hwb"@,
                ),
            },
    {
        match OutputColor::from_name(s.to_lowercase().as_str()) {
            Some(m) => Ok(m),
            None => Err(refuse("format", s, "hex, rgb, rgb255, hsl, hsv, hwb")),
        }
    }
}

impl FromStr for OutputColor {
    type Err = String;

    /// Reads the value from its name, in any case, as `parse` does: the
    /// value with that name in lower case, or the message that says which
    /// names there are.
    fn from_str(s: &str) -> (r: Result<Self, Self::Err>)
        ensures
            match OutputColor::named(lowercase(s@)) {
                Some(m) => r == Ok::<OutputColor, String>(m),
                None => r is Err && r->Err_0@ == refusal(
                    "format"@,
                    s@,
                    "hex, rgb, rgb255, hsl, hsv, hwb"@,
                ),
            },
    {
        OutputColor::parse(s)
    }
}

/// Whether a text is the name of a preset gradient, as the names are listed.
pub open spec fn is_preset(name: Seq<char>) -> bool {
    exists|i: int| 0 <= i < 38 && (#[trigger] PRESET_NAMES[i])@ == name
}

/// Tells whether a text, which is in lower case, is the name of a preset
/// gradient.
pub fn preset_listed(name: &str) -> (r: bool)
    ensures
        r == is_preset(name@),
{
    let mut i: usize = 0;
    while i < 38
        invariant
            i <= 38,
            forall|j: int| 0 <= j < i ==> (#[trigger] PRESET_NAMES[j])@ != name@,
        decreases 38 - i,
    {
        if same_text(PRESET_NAMES[i], name) {
            return true;
        }
        i += 1;
    }
    false
}

/// Reads the name of a preset gradient, in any case, and gives it in lower
/// case; refuses a name that is not listed.
pub fn parse_preset_name(s: &str) -> (r: Result<String, String>)
    ensures
        is_preset(lowercase(s@)) ==> r is Ok && r->Ok_0@ == lowercase(s@),
        !is_preset(lowercase(s@)) ==> r is Err && r->Err_0@
            == "invalid preset name, try --list-presets"@,
{
    let name = s.to_lowercase();
    if preset_listed(name.as_str()) {
        Ok(name)
    } else {
        Err("invalid preset name, try --list-presets".to_owned())
    }
}

/// A text with an underscore for each hyphen.
pub open spec fn underscored(s: Seq<char>) -> Seq<char> {
    s.map_values(|c: char| if c == '-' { '_' } else { c })
}

fn underscore(s: &str) -> (r: String)
    ensures
        r@ == underscored(s@),
{
    let chars = chars_of(s);
    let mut out = String::new();
    let mut i: usize = 0;
    while i < chars.len()
        invariant
            i <= chars@.len(),
            chars@ == s@,
            out@ == underscored(s@.take(i as int)),
        decreases chars@.len() - i,
    {
        let c = chars[i];
        out.push(if c == '-' { '_' } else { c });
        i += 1;
        assert(out@ == underscored(s@.take(i as int)));
    }
    assert(s@.take(s@.len() as int) == s@);
    out
}

/// Whether the preset at a place goes by a key: the two are alike once
/// hyphens and underscores count as one.
pub open spec fn preset_matches(place: int, key: Seq<char>) -> bool {
    underscored(PRESET_NAMES[place]@) == underscored(key)
}

/// Finds the preset gradient that a name stands for: its place in
/// `PRESET_NAMES`. The name may be in any case, and may have underscores for
/// hyphens.
pub fn preset_index(name: &str) -> (r: Option<usize>)
    ensures
        match r {
            Some(place) => place < 38 && preset_matches(place as int, lowercase(name@)) && forall|
                j: int,
            |
                0 <= j < place ==> !preset_matches(j, lowercase(name@)),
            None => forall|j: int| 0 <= j < 38 ==> !preset_matches(j, lowercase(name@)),
        },
{
    let key = underscore(name.to_lowercase().as_str());
    let mut i: usize = 0;
    while i < 38
        invariant
            i <= 38,
            key@ == underscored(lowercase(name@)),
            forall|j: int| 0 <= j < i ==> !preset_matches(j, lowercase(name@)),
        decreases 38 - i,
    {
        let candidate = underscore(PRESET_NAMES[i]);
        if same_text(candidate.as_str(), key.as_str()) {
            return Some(i);
        }
        i += 1;
    }
    None
}

/// Whether a character leaves the text inside parentheses: an opening one
/// does, a closing one does not, any other changes nothing. Parentheses do
/// not nest.
pub open spec fn inside_after(inside: bool, c: char) -> bool {
    if c == '(' {
        true
    } else if c == ')' {
        false
    } else {
        inside
    }
}

/// The place of the first comma that stands outside parentheses; the length
/// of the text where there is none.
pub open spec fn top_comma(s: Seq<char>, inside: bool) -> int
    decreases s.len(),
{
    if s.len() == 0 {
        0
    } else if s[0] == ',' && !inside {
        0
    } else {
        1 + top_comma(s.skip(1), inside_after(inside, s[0]))
    }
}

/// The colours of a list, after those in `acc`: the pieces between the
/// commas outside parentheses, each read by the colour library; `None` where
/// one of them is no colour.
pub open spec fn colors_from(s: Seq<char>, acc: Seq<Rgba>) -> Option<Seq<Rgba>>
    decreases s.len(),
{
    let end = top_comma(s, false);
    match parsed_color(s.take(end)) {
        None => None,
        Some(c) => if 0 <= end < s.len() {
            colors_from(s.skip(end + 1), acc.push(c))
        } else {
            Some(acc.push(c))
        },
    }
}

/// The colours of a list.
pub open spec fn color_list(s: Seq<char>) -> Option<Seq<Rgba>> {
    colors_from(s, Seq::empty())
}

fn find_top_comma(chars: &Vec<char>, from: usize) -> (r: usize)
    requires
        from <= chars@.len(),
    ensures
        r == from + top_comma(chars@.skip(from as int), false),
        from <= r <= chars@.len(),
{
    let mut i: usize = from;
    let mut inside = false;
    while i < chars.len() && !(chars[i] == ',' && !inside)
        invariant
            from <= i <= chars@.len(),
            top_comma(chars@.skip(from as int), false) == (i - from) + top_comma(
                chars@.skip(i as int),
                inside,
            ),
        decreases chars@.len() - i,
    {
        assert(chars@.skip(i as int).skip(1) == chars@.skip(i + 1));
        let c = chars[i];
        if c == '(' {
            inside = true;
        } else if c == ')' {
            inside = false;
        }
        i += 1;
    }
    i
}

/// Reads a list of colours: texts separated by commas, where a comma inside
/// parentheses belongs to the colour around it. Gives the colours in their
/// order, or the error of the first text that is no colour.
pub fn parse_colors(s: &str) -> (r: Result<Vec<Rgba>, ParseColorError>)
    ensures
        match r {
            Ok(colors) => color_list(s@) == Some(colors@),
            Err(_) => color_list(s@) is None,
        },
{
    let chars = chars_of(s);
    let n = chars.len();
    let mut colors: Vec<Rgba> = Vec::new();
    let mut start: usize = 0;
    assert(s@.skip(0) == s@);
    loop
        invariant_except_break
            start <= n,
            color_list(s@) == colors_from(s@.skip(start as int), colors@),
        invariant
            n == s@.len(),
            chars@ == s@,
        ensures
            color_list(s@) == Some(colors@),
        decreases n - start,
    {
        let end = find_top_comma(&chars, start);
        let piece = text_of(&chars, start, end);
        assert(piece@ == s@.skip(start as int).take(end - start));
        match parse_rgba(piece.as_str()) {
            Ok(c) => {
                colors.push(c);
            },
            Err(e) => {
                return Err(e);
            },
        }
        if end >= n {
            break;
        }
        assert(s@.skip(start as int).skip(end - start + 1) == s@.skip(end + 1));
        start = end + 1;
    }
    Ok(colors)
}

/// What is shown of a gradient.
#[derive(Clone, Copy, Debug, PartialEq, Eq, Structural)]
pub enum OutputMode {
    /// The gradient itself, as a block.
    Gradient,
    /// A number of colours, evenly spaced.
    ColorsN,
    /// The colours at given positions.
    ColorsSample,
}

/// What is shown: evenly spaced colours where a number of them was asked
/// for, else the colours at the positions that were given, else the gradient
/// itself.
pub fn output_mode(take: bool, sample: bool) -> (r: OutputMode)
    ensures
        r == if take {
            OutputMode::ColorsN
        } else if sample {
            OutputMode::ColorsSample
        } else {
            OutputMode::Gradient
        },
{
    if take {
        OutputMode::ColorsN
    } else if sample {
        OutputMode::ColorsSample
    } else {
        OutputMode::Gradient
    }
}

/// The width of what is shown, in cells. The width asked for, or that of the
/// terminal where none was asked for, or 80 where the terminal has none
/// either; not below 10; and then not above the width of the terminal, or
/// 1000 where it has none.
pub open spec fn fitted_width(requested: Option<usize>, terminal: Option<usize>) -> int {
    let wanted: int = match requested {
        Some(w) => w as int,
        None => match terminal {
            Some(t) => t as int,
            None => 80,
        },
    };
    let floor: int = if wanted < 10 {
        10
    } else {
        wanted
    };
    let limit: int = match terminal {
        Some(t) => t as int,
        None => 1000,
    };
    if floor > limit {
        limit
    } else {
        floor
    }
}

/// The width of what is shown, in cells.
pub fn display_width(requested: Option<usize>, terminal: Option<usize>) -> (r: usize)
    ensures
        r == fitted_width(requested, terminal),
{
    let wanted: usize = match requested {
        Some(w) => w,
        None => match terminal {
            Some(t) => t,
            None => 80,
        },
    };
    let floor: usize = if wanted < 10 {
        10
    } else {
        wanted
    };
    let limit: usize = match terminal {
        Some(t) => t,
        None => 1000,
    };
    if floor > limit {
        limit
    } else {
        floor
    }
}

/// The height of what is shown, in rows: the height asked for, or 2 where
/// none was asked for; not below 1 and not above 50.
pub open spec fn fitted_height(requested: Option<usize>) -> int {
    let wanted: int = match requested {
        Some(h) => h as int,
        None => 2,
    };
    if wanted < 1 {
        1
    } else if wanted > 50 {
        50
    } else {
        wanted
    }
}

/// The height of what is shown, in rows.
pub fn display_height(requested: Option<usize>) -> (r: usize)
    ensures
        r == fitted_height(requested),
{
    let wanted: usize = match requested {
        Some(h) => h,
        None => 2,
    };
    if wanted < 1 {
        1
    } else if wanted > 50 {
        50
    } else {
        wanted
    }
}

} // verus!
