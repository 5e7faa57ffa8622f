//! The core of a command-line tool that shows colour gradients in the
//! terminal: it gathers the stops of the gradients in a document, pads them
//! for the builder of the gradient, and prints colours as escape sequences.

pub mod binary32;
pub mod cli;
pub mod color;
pub mod dispatch;
pub mod markup;
pub mod normalize;
pub mod render;
pub mod scan;
pub mod styles;
pub mod svg_gradient;
pub mod swatch;
pub mod text;

pub use cli::{parse_colors, parse_preset_name, BlendMode, Interpolation, OutputColor, PRESET_NAMES};
pub use color::Rgba;
pub use normalize::{GradientStops, Rejected};
pub use render::{block_row, bold, checker_tile, color_to_ansi, format_color, Background};
pub use scan::{scan, MarkupError, NumberToken, StopTokens, TokenEvent};
pub use styles::parse_styles;
pub use swatch::{display_colors, needs_light_text, Swatch};
pub use svg_gradient::{extract, Parsed, StopEvent, StopSource, StopValues, SvgGradient};
