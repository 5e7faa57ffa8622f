//! From the tags of a document to what the gradient extractor needs of them:
//! which gradient elements open and close, and the texts that each stop
//! element gives for its colour, its opacity and its offset.
//!
//! Numbers stay texts here. A number is split from its percent sign, and
//! whoever turns the digits into a binary32 value divides by a hundred where
//! the sign was there.

use vstd::prelude::*;
use crate::markup::{
    key_texts, markup, models, read_markup, MarkupEvent, MarkupModel, Tag, TagKind,
};
use crate::styles::{parse_styles, styles, StyleModel};
use crate::text::{chars_of, opt_str, opt_text, same_text, text_of};

verus! {

/// The place of each attribute among the values of a tag.
pub const ID: usize = 0;

pub const STOP_COLOR: usize = 1;

pub const STOP_OPACITY: usize = 2;

pub const STYLE: usize = 3;

pub const OFFSET: usize = 4;

/// The attributes that are read from each tag, in the order of their places.
pub open spec fn attribute_keys() -> Seq<Seq<char>> {
    seq!["id"@, "stop-color"@, "stop-opacity"@, "style"@, "offset"@]
}

/// The document could not be read at all.
#[derive(Clone, Copy, Debug, PartialEq, Eq, Structural)]
pub struct MarkupError;

/// A number as it stands in an attribute: its text without a percent sign at
/// the end, and whether the sign was there.
#[derive(Debug)]
pub struct NumberToken {
    pub text: String,
    pub percent: bool,
}

/// A number token as a mathematical value.
pub ghost struct NumberModel {
    pub text: Seq<char>,
    pub percent: bool,
}

impl View for NumberToken {
    type V = NumberModel;

    open spec fn view(&self) -> NumberModel {
        NumberModel { text: self.text@, percent: self.percent }
    }
}

/// The token of a number text: a percent sign at its end is taken off and
/// noted.
pub open spec fn number_split(s: Seq<char>) -> NumberModel {
    if s.len() > 0 && s.last() == '%' {
        NumberModel { text: s.drop_last(), percent: true }
    } else {
        NumberModel { text: s, percent: false }
    }
}

/// The token of a number text that may be missing.
pub open spec fn opt_number(o: Option<Seq<char>>) -> Option<NumberModel> {
    match o {
        Some(s) => Some(number_split(s)),
        None => None,
    }
}

/// The model of a token that may be missing.
pub open spec fn opt_token(o: Option<NumberToken>) -> Option<NumberModel> {
    match o {
        Some(t) => Some(t@),
        None => None,
    }
}

/// Splits a number text from the percent sign at its end.
pub fn number_token(s: &str) -> (r: NumberToken)
    ensures
        r@ == number_split(s@),
{
    let chars = chars_of(s);
    let n = chars.len();
    if n > 0 && chars[n - 1] == '%' {
        let text = text_of(&chars, 0, n - 1);
        assert(chars@.subrange(0, n - 1) == s@.drop_last());
        NumberToken { text, percent: true }
    } else {
        NumberToken { text: s.to_owned(), percent: false }
    }
}

/// The texts that one stop element gives: the `stop-color` and the
/// `stop-opacity` attribute, the two declarations of the same names in the
/// `style` attribute, and the `offset` attribute.
#[derive(Debug)]
pub struct StopTokens {
    pub color: Option<String>,
    pub opacity: Option<NumberToken>,
    pub style_color: Option<String>,
    pub style_opacity: Option<NumberToken>,
    pub offset: Option<NumberToken>,
}

/// The texts of a stop as a mathematical value.
pub ghost struct StopTokensModel {
    pub color: Option<Seq<char>>,
    pub opacity: Option<NumberModel>,
    pub style_color: Option<Seq<char>>,
    pub style_opacity: Option<NumberModel>,
    pub offset: Option<NumberModel>,
}

impl View for StopTokens {
    type V = StopTokensModel;

    open spec fn view(&self) -> StopTokensModel {
        StopTokensModel {
            color: opt_text(self.color),
            opacity: opt_token(self.opacity),
            style_color: opt_text(self.style_color),
            style_opacity: opt_token(self.style_opacity),
            offset: opt_token(self.offset),
        }
    }
}

/// One step through the document, its numbers still as texts.
#[derive(Debug)]
pub enum TokenEvent {
    /// A gradient element opens; with its identifier.
    Open(Option<String>),
    /// A gradient element closes.
    Close,
    /// A stop element.
    Stop(StopTokens),
}

/// A step as a mathematical value.
pub ghost enum TokenEventModel {
    Open(Option<Seq<char>>),
    Close,
    Stop(StopTokensModel),
}

impl View for TokenEvent {
    type V = TokenEventModel;

    open spec fn view(&self) -> TokenEventModel {
        match self {
            TokenEvent::Open(id) => TokenEventModel::Open(opt_text(*id)),
            TokenEvent::Close => TokenEventModel::Close,
            TokenEvent::Stop(tokens) => TokenEventModel::Stop(tokens@),
        }
    }
}

/// The steps of a list, each as a mathematical value.
pub open spec fn token_models(events: Seq<TokenEvent>) -> Seq<TokenEventModel> {
    events.map_values(|e: TokenEvent| e@)
}

/// The value at a place among the values of a tag; none beyond their end.
pub open spec fn value_at(values: Seq<Option<Seq<char>>>, place: int) -> Option<Seq<char>> {
    if 0 <= place < values.len() {
        values[place]
    } else {
        None
    }
}

/// What the style attribute of a tag declares; nothing where the tag has
/// none.
pub open spec fn tag_styles(values: Seq<Option<Seq<char>>>) -> StyleModel {
    match value_at(values, STYLE as int) {
        Some(s) => styles(s),
        None => StyleModel { color: None, opacity: None },
    }
}

/// The texts that a stop tag gives.
pub open spec fn stop_tokens(values: Seq<Option<Seq<char>>>) -> StopTokensModel {
    StopTokensModel {
        color: value_at(values, STOP_COLOR as int),
        opacity: opt_number(value_at(values, STOP_OPACITY as int)),
        style_color: tag_styles(values).color,
        style_opacity: opt_number(tag_styles(values).opacity),
        offset: opt_number(value_at(values, OFFSET as int)),
    }
}

/// Whether a tag name is that of a gradient element. The linear and the
/// radial kind count alike.
pub open spec fn is_gradient_name(name: Seq<char>) -> bool {
    name == "linearGradient"@ || name == "radialGradient"@
}

/// The step that an event stands for, if any. A tag named `stop` is a stop,
/// whether it opens, closes or is closed in itself. A gradient tag opens or
/// closes a gradient; one that is closed in itself does neither. Every other
/// event is passed over.
pub open spec fn token_of(e: MarkupModel) -> Option<TokenEventModel> {
    match e {
        MarkupModel::Tag(tag) => {
            if is_gradient_name(tag.name) {
                match tag.kind {
                    TagKind::Start => Some(TokenEventModel::Open(value_at(tag.values, ID as int))),
                    TagKind::End => Some(TokenEventModel::Close),
                    TagKind::Empty => None,
                }
            } else if tag.name == "stop"@ {
                Some(TokenEventModel::Stop(stop_tokens(tag.values)))
            } else {
                None
            }
        },
        _ => None,
    }
}

/// The steps that a list of events stands for, in its order.
pub open spec fn token_events(events: Seq<MarkupModel>) -> Seq<TokenEventModel>
    decreases events.len(),
{
    if events.len() == 0 {
        Seq::empty()
    } else {
        match token_of(events.last()) {
            Some(t) => token_events(events.drop_last()).push(t),
            None => token_events(events.drop_last()),
        }
    }
}

fn attribute<'a>(tag: &'a Tag, place: usize) -> (r: Option<&'a str>)
    ensures
        opt_str(r) == value_at(tag@.values, place as int),
{
    if place < tag.values.len() {
        match &tag.values[place] {
            Some(s) => Some(s.as_str()),
            None => None,
        }
    } else {
        None
    }
}

fn owned(o: Option<&str>) -> (r: Option<String>)
    ensures
        opt_text(r) == opt_str(o),
{
    match o {
        Some(s) => Some(s.to_owned()),
        None => None,
    }
}

fn number_of(o: Option<&str>) -> (r: Option<NumberToken>)
    ensures
        opt_token(r) == opt_number(opt_str(o)),
{
    match o {
        Some(s) => Some(number_token(s)),
        None => None,
    }
}

/// Gathers the texts of a stop tag.
pub fn read_stop(tag: &Tag) -> (r: StopTokens)
    ensures
        r@ == stop_tokens(tag@.values),
{
    let style = match attribute(tag, STYLE) {
        Some(s) => parse_styles(s),
        None => (None, None),
    };
    StopTokens {
        color: owned(attribute(tag, STOP_COLOR)),
        opacity: number_of(attribute(tag, STOP_OPACITY)),
        style_color: owned(style.0),
        style_opacity: number_of(style.1),
        offset: number_of(attribute(tag, OFFSET)),
    }
}

fn read_event(event: &MarkupEvent) -> (r: Option<TokenEvent>)
    ensures
        match r {
            Some(t) => token_of(event@) == Some(t@),
            None => token_of(event@) is None,
        },
{
    match event {
        MarkupEvent::Tag(tag) => {
            let name = tag.name.as_str();
            if same_text(name, "linearGradient") || same_text(name, "radialGradient") {
                match tag.kind {
                    TagKind::Start => Some(TokenEvent::Open(owned(attribute(tag, ID)))),
                    TagKind::End => Some(TokenEvent::Close),
                    TagKind::Empty => None,
                }
            } else if same_text(name, "stop") {
                Some(TokenEvent::Stop(read_stop(tag)))
            } else {
                None
            }
        },
        _ => None,
    }
}

/// Turns the events of a document into the steps of the extractor, in the
/// order of the document. Events that are no gradient tag and no stop tag
/// are passed over.
pub fn tokens_of(events: &Vec<MarkupEvent>) -> (r: Vec<TokenEvent>)
    ensures
        token_models(r@) == token_events(models(events@)),
{
    let mut steps: Vec<TokenEvent> = Vec::new();
    let n = events.len();
    let mut i: usize = 0;
    assert(models(events@).take(0) == Seq::<MarkupModel>::empty());
    assert(token_models(steps@) == Seq::<TokenEventModel>::empty());
    while i < n
        invariant
            i <= n == events@.len(),
            token_models(steps@) == token_events(models(events@).take(i as int)),
        decreases n - i,
    {
        proof {
            let done = models(events@).take(i + 1);
            assert(done.drop_last() == models(events@).take(i as int));
            assert(done.last() == events@[i as int]@);
        }
        let ghost before = steps@;
        match read_event(&events[i]) {
            Some(t) => {
                steps.push(t);
                assert(token_models(steps@) == token_models(before).push(t@));
            },
            None => {},
        }
        i += 1;
    }
    assert(models(events@).take(n as int) == models(events@));
    steps
}

/// Reads a document and turns its tags into the steps of the extractor.
///
/// The events are those that the parser of the `svg` crate reports. A tag
/// that the parser cannot read is passed over like text; only a document
/// that the parser refuses altogether gives an error.
pub fn scan(content: &str) -> (r: Result<Vec<TokenEvent>, MarkupError>)
    ensures
        match markup(content@, attribute_keys()) {
            None => r is Err,
            Some(events) => r is Ok && token_models(r->Ok_0@) == token_events(events),
        },
{
    let keys: Vec<&'static str> = vec!["id", "stop-color", "stop-opacity", "style", "offset"];
    assert(key_texts(keys@) == attribute_keys());
    match read_markup(content, &keys) {
        None => Err(MarkupError),
        Some(events) => Ok(tokens_of(&events)),
    }
}

} // verus!
