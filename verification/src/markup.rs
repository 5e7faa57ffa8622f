//! Reading the tags of a document.

use vstd::prelude::*;
use svg::node::element::tag::Type;
use svg::parser::Event;
use crate::text::opt_text;

verus! {

/// How a tag stands in the document: opening, closing, or closed in itself.
#[derive(Clone, Copy, Debug, PartialEq, Eq, Structural)]
pub enum TagKind {
    Start,
    End,
    Empty,
}

/// One tag of a document, with the values of the attributes that were asked
/// for, in the order of the asking.
#[derive(Clone, Debug)]
pub struct Tag {
    pub name: String,
    pub kind: TagKind,
    pub values: Vec<Option<String>>,
}

/// What a document is made of, as far as this library looks at it.
#[derive(Clone, Debug)]
pub enum MarkupEvent {
    /// A tag.
    Tag(Tag),
    /// Text, a comment, a declaration, an instruction, or a place where the
    /// parser could not read a tag.
    Other,
}

/// A tag as a mathematical value.
pub ghost struct TagModel {
    pub name: Seq<char>,
    pub kind: TagKind,
    pub values: Seq<Option<Seq<char>>>,
}

/// An event as a mathematical value.
pub ghost enum MarkupModel {
    Tag(TagModel),
    Other,
}

impl View for Tag {
    type V = TagModel;

    open spec fn view(&self) -> TagModel {
        TagModel {
            name: self.name@,
            kind: self.kind,
            values: self.values@.map_values(|o: Option<String>| opt_text(o)),
        }
    }
}

impl View for MarkupEvent {
    type V = MarkupModel;

    open spec fn view(&self) -> MarkupModel {
        match self {
            MarkupEvent::Tag(t) => MarkupModel::Tag(t@),
            MarkupEvent::Other => MarkupModel::Other,
        }
    }
}

/// The events of a list, each as a mathematical value.
pub open spec fn models(events: Seq<MarkupEvent>) -> Seq<MarkupModel> {
    events.map_values(|e: MarkupEvent| e@)
}

/// The texts of a list of attribute names.
pub open spec fn key_texts(keys: Seq<&'static str>) -> Seq<Seq<char>> {
    keys.map_values(|k: &'static str| k@)
}

/// The events that the parser of the `svg` crate reports for a document, in
/// the order of the document; each tag with the values of the attributes
/// named in `keys`. `None` where the document cannot be read at all.
pub uninterp spec fn markup(content: Seq<char>, keys: Seq<Seq<char>>) -> Option<Seq<MarkupModel>>;

/// Runs the parser of the `svg` crate (`svg::read`) over a document and hands
/// out its events one for one. It is believed that the events are those that
/// `markup` names: what the parser reports depends on the document alone.
#[verifier::external_body]
pub(crate) fn read_markup(content: &str, keys: &Vec<&'static str>) -> (r: Option<Vec<MarkupEvent>>)
    ensures
        match r {
            Some(events) => markup(content@, key_texts(keys@)) == Some(models(events@)),
            None => markup(content@, key_texts(keys@)) is None,
        },
{
    let parser = svg::read(content).ok()?;
    Some(parser.map(|event| match event {
        Event::Tag(name, kind, attributes) => MarkupEvent::Tag(Tag {
            name: name.to_string(),
            kind: match kind {
                Type::Start => TagKind::Start,
                Type::End => TagKind::End,
                Type::Empty => TagKind::Empty,
            },
            values: keys.iter().map(|k| attributes.get(*k).map(|v| v.to_string())).collect(),
        }),
        _ => MarkupEvent::Other,
    }).collect())
}

} // verus!
