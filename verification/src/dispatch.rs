//! What the tool does with its options and with each file: which action
//! runs, how a file is read, and what is reported of a document without
//! gradients.

use vstd::prelude::*;
use crate::cli::OutputMode;
use crate::normalize::Rejected;
use crate::text::{lowercase, opt_str, opt_text, same_text};

verus! {

/// What one run of the tool does.
#[derive(Clone, Copy, Debug, PartialEq, Eq, Structural)]
pub enum Action {
    /// Lists the preset gradients.
    ListPresets,
    /// Lists the named colours.
    NamedColors,
    /// Shows a preset gradient.
    Preset,
    /// Shows a gradient made from colours or from a CSS gradient.
    Custom,
    /// Shows the gradients of files.
    File,
    /// Shows examples, since nothing was asked for.
    Help,
}

/// What was asked for on the command line, as far as it decides the action.
#[derive(Clone, Copy, Debug, PartialEq, Eq, Structural)]
pub struct Request {
    pub list_presets: bool,
    pub named_colors: bool,
    pub preset: bool,
    pub custom: bool,
    pub css: bool,
    pub file: bool,
}

/// The action for a request: the first that was asked for, in the order of
/// listing the presets, listing the named colours, a preset, a custom
/// gradient, files; and the examples where nothing was.
pub open spec fn action_of(request: Request) -> Action {
    if request.list_presets {
        Action::ListPresets
    } else if request.named_colors {
        Action::NamedColors
    } else if request.preset {
        Action::Preset
    } else if request.custom || request.css {
        Action::Custom
    } else if request.file {
        Action::File
    } else {
        Action::Help
    }
}

/// Picks the action for a request.
pub fn select_action(request: Request) -> (r: Action)
    ensures
        r == action_of(request),
{
    if request.list_presets {
        Action::ListPresets
    } else if request.named_colors {
        Action::NamedColors
    } else if request.preset {
        Action::Preset
    } else if request.custom || request.css {
        Action::Custom
    } else if request.file {
        Action::File
    } else {
        Action::Help
    }
}

/// How a file is read.
#[derive(Clone, Copy, Debug, PartialEq, Eq, Structural)]
pub enum FileKind {
    /// A GIMP gradient.
    Ggr,
    /// A document with gradient elements.
    Svg,
    /// Neither.
    Unsupported,
}

/// How a file with an extension, which is in lower case, is read.
pub open spec fn kind_named(extension: Seq<char>) -> FileKind {
    if extension == "ggr"@ {
        FileKind::Ggr
    } else if extension == "svg"@ {
        FileKind::Svg
    } else {
        FileKind::Unsupported
    }
}

/// How a file is read: by its extension, in any case; a file without one is
/// not read.
pub open spec fn kind_of(extension: Option<Seq<char>>) -> FileKind {
    match extension {
        Some(e) => kind_named(lowercase(e)),
        None => FileKind::Unsupported,
    }
}

/// Tells how a file with an extension, which is in lower case, is read.
pub fn file_kind_named(extension: &str) -> (r: FileKind)
    ensures
        r == kind_named(extension@),
{
    if same_text(extension, "ggr") {
        FileKind::Ggr
    } else if same_text(extension, "svg") {
        FileKind::Svg
    } else {
        FileKind::Unsupported
    }
}

/// Tells how a file is read, from its extension.
pub fn file_kind(extension: Option<&str>) -> (r: FileKind)
    ensures
        r == kind_of(opt_str(extension)),
{
    match extension {
        Some(e) => file_kind_named(e.to_lowercase().as_str()),
        None => FileKind::Unsupported,
    }
}

/// The label of a gradient: a number sign and its identifier, or a note
/// that it has none.
pub open spec fn label_of(id: Option<Seq<char>>) -> Seq<char> {
    match id {
        Some(s) => "#"@ + s,
        None => "[without id]"@,
    }
}

/// The label under which a gradient of a document is reported.
pub fn gradient_label(id: &Option<String>) -> (r: String)
    ensures
        r@ == label_of(opt_text(*id)),
{
    match id {
        Some(s) => {
            let mut out = String::new();
            out.append("#");
            out.append(s.as_str());
            assert(out@ == "#"@ + s@);
            out
        },
        None => "[without id]".to_owned(),
    }
}

/// Why a document gave nothing to show.
#[derive(Clone, Copy, Debug, PartialEq, Eq, Structural)]
pub enum EmptyScan {
    /// No gradient has the identifier that was asked for.
    NothingMatched,
    /// The document has no gradient.
    NoGradients,
}

/// What is reported of a document once its records are gone through:
/// nothing where it had a record, usable or not; else that nothing matched
/// where an identifier was asked for, and that no gradient was found where
/// none was.
pub fn empty_scan(usable: usize, refused: usize, filtered: bool) -> (r: Option<EmptyScan>)
    ensures
        r == if usable != 0 || refused != 0 {
            None
        } else if filtered {
            Some(EmptyScan::NothingMatched)
        } else {
            Some(EmptyScan::NoGradients)
        },
{
    if usable != 0 || refused != 0 {
        None
    } else if filtered {
        Some(EmptyScan::NothingMatched)
    } else {
        Some(EmptyScan::NoGradients)
    }
}

/// What is done with a record that gives no gradient.
#[derive(Clone, Copy, Debug, PartialEq, Eq, Structural)]
pub enum Outcome {
    /// The record is passed over in silence.
    Skip,
    /// The record is reported as invalid, and the run counts as failed.
    Report,
}

/// What is done with a record that gives no gradient: an empty record is
/// passed over in silence while the whole document is gone through, and
/// reported where an identifier was asked for; any other is reported.
pub open spec fn outcome_of(refusal: Rejected, filtered: bool) -> Outcome {
    if refusal is Empty && !filtered {
        Outcome::Skip
    } else {
        Outcome::Report
    }
}

/// Tells what is done with a record that gives no gradient.
pub fn record_outcome(refusal: &Rejected, filtered: bool) -> (r: Outcome)
    ensures
        r == outcome_of(*refusal, filtered),
{
    match refusal {
        Rejected::Empty => if filtered {
            Outcome::Report
        } else {
            Outcome::Skip
        },
        _ => Outcome::Report,
    }
}

/// Whether a gradient is shown as a block: only in a terminal, since a
/// block is for the eye alone.
pub fn shows_block(is_terminal: bool) -> (r: bool)
    ensures
        r == is_terminal,
{
    is_terminal
}

/// Whether the name of a file and of its gradient goes before what is shown
/// of it: in a terminal, and wherever the gradient itself is shown.
pub fn shows_names(is_terminal: bool, mode: OutputMode) -> (r: bool)
    ensures
        r == (is_terminal || mode == OutputMode::Gradient),
{
    match mode {
        OutputMode::Gradient => true,
        _ => is_terminal,
    }
}

} // verus!
