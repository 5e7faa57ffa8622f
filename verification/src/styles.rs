//! The declarations of a `style` attribute, and the split of a number from
//! its percent sign.

use vstd::prelude::*;
use crate::text::{chars_of, find, index_of, lowercase, opt_str, same_text, trimmed};

verus! {

/// The colour and the opacity that a style list declares, as texts.
pub ghost struct StyleModel {
    pub color: Option<Seq<char>>,
    pub opacity: Option<Seq<char>>,
}

/// A declaration is a piece with exactly one colon: the key, trimmed and
/// in lower case, and the value as it stands.
pub open spec fn declaration(piece: Seq<char>) -> Option<(Seq<char>, Seq<char>)> {
    let colon = index_of(piece, ':');
    if colon < piece.len() && index_of(piece.skip(colon + 1), ':') == piece.len() - (colon + 1) {
        Some((lowercase(trimmed(piece.take(colon))), piece.skip(colon + 1)))
    } else {
        None
    }
}

/// What is declared after one more piece: a declaration of `stop-color` or of
/// `stop-opacity` replaces the earlier one; anything else changes nothing.
pub open spec fn with_piece(acc: StyleModel, piece: Seq<char>) -> StyleModel {
    match declaration(piece) {
        Some((key, value)) => {
            if key == "stop-color"@ {
                StyleModel { color: Some(value), opacity: acc.opacity }
            } else if key == "stop-opacity"@ {
                StyleModel { color: acc.color, opacity: Some(value) }
            } else {
                acc
            }
        },
        None => acc,
    }
}

/// What is declared after the pieces of `s`, which semicolons separate.
pub open spec fn styles_from(s: Seq<char>, acc: StyleModel) -> StyleModel
    decreases s.len(),
{
    let end = index_of(s, ';');
    let next = with_piece(acc, s.take(end));
    if 0 <= end < s.len() {
        styles_from(s.skip(end + 1), next)
    } else {
        next
    }
}

/// What a style list declares.
pub open spec fn styles(s: Seq<char>) -> StyleModel {
    styles_from(s, StyleModel { color: None, opacity: None })
}

/// What a style list declares, from the two slices that stand for it.
pub open spec fn style_model(color: Option<&str>, opacity: Option<&str>) -> StyleModel {
    StyleModel { color: opt_str(color), opacity: opt_str(opacity) }
}

fn apply_piece<'a>(piece: &'a str, color: Option<&'a str>, opacity: Option<&'a str>) -> (r: (
    Option<&'a str>,
    Option<&'a str>,
))
    ensures
        style_model(r.0, r.1) == with_piece(style_model(color, opacity), piece@),
{
    let chars = chars_of(piece);
    let n = chars.len();
    let colon = find(&chars, 0, ':');
    assert(chars@.skip(0) == chars@);
    if colon < n && find(&chars, colon + 1, ':') == n {
        let key = piece.substring_char(0, colon).trim().to_lowercase();
        let value = piece.substring_char(colon + 1, n);
        assert(piece@.subrange(0, colon as int) == piece@.take(colon as int));
        assert(piece@.subrange(colon + 1, n as int) == piece@.skip(colon + 1));
        if same_text(key.as_str(), "stop-color") {
            (Some(value), opacity)
        } else if same_text(key.as_str(), "stop-opacity") {
            (color, Some(value))
        } else {
            (color, opacity)
        }
    } else {
        (color, opacity)
    }
}

/// Reads a style list: pieces separated by semicolons, each a key and a
/// value separated by one colon. Returns the value declared for `stop-color`
/// and the one for `stop-opacity`, the last of each where there are several.
/// The key is compared without the whitespace around it and without
/// regard to case; the value is returned as it stands.
pub fn parse_styles(s: &str) -> (r: (Option<&str>, Option<&str>))
    ensures
        style_model(r.0, r.1) == styles(s@),
{
    let chars = chars_of(s);
    let n = chars.len();
    let mut color: Option<&str> = None;
    let mut opacity: Option<&str> = None;
    let mut start: usize = 0;
    assert(s@.skip(0) == s@);
    loop
        invariant_except_break
            start <= n,
            styles(s@) == styles_from(s@.skip(start as int), style_model(color, opacity)),
        invariant
            n == s@.len(),
            chars@ == s@,
        ensures
            style_model(color, opacity) == styles(s@),
        decreases n - start,
    {
        let end = find(&chars, start, ';');
        let piece = s.substring_char(start, end);
        assert(piece@ == s@.skip(start as int).take(end - start));
        let next = apply_piece(piece, color, opacity);
        color = next.0;
        opacity = next.1;
        if end >= n {
            break;
        }
        assert(s@.skip(start as int).skip(end - start + 1) == s@.skip(end + 1));
        start = end + 1;
    }
    (color, opacity)
}

} // verus!
