//! From a gradient record to the stops that a gradient is built from: the
//! record is refused where it cannot give a gradient, and its stops are
//! padded so that they reach zero at the front and one at the back.

use vstd::prelude::*;
use crate::binary32::{is_finite, less, lt, rank, ONE, ZERO};
use crate::color::Rgba;
use crate::svg_gradient::{steady, GradientModel, SvgGradient};

verus! {

/// Why a record gives no gradient.
#[derive(Clone, Debug, PartialEq, Eq)]
pub enum Rejected {
    /// A stop of the record could not be read.
    InvalidStop,
    /// The record has no stop.
    Empty,
    /// The builder of the gradient refused the stops; with its message. The
    /// library itself never reports this: it is for the one who runs the
    /// builder.
    BuildFailed(String),
}

/// The colours and positions that a gradient is built from.
#[derive(Debug)]
pub struct GradientStops {
    pub colors: Vec<Rgba>,
    pub positions: Vec<u32>,
}

/// Whether the stops start above zero, so that a stop at zero goes before
/// them.
pub open spec fn pads_front(g: GradientModel) -> bool {
    g.pos.len() > 0 && less(ZERO, g.pos.first())
}

/// Whether the stops end below one, so that a stop at one goes after them.
pub open spec fn pads_back(g: GradientModel) -> bool {
    g.pos.len() > 0 && less(g.pos.last(), ONE)
}

/// The positions after padding.
pub open spec fn padded_positions(g: GradientModel) -> Seq<u32> {
    let front = if pads_front(g) {
        seq![ZERO] + g.pos
    } else {
        g.pos
    };
    if pads_back(g) {
        front.push(ONE)
    } else {
        front
    }
}

/// The colours after padding: the stop at zero has the colour of the first
/// stop, the stop at one that of the last.
pub open spec fn padded_colors(g: GradientModel) -> Seq<Rgba> {
    let front = if pads_front(g) {
        seq![g.colors.first()] + g.colors
    } else {
        g.colors
    };
    if pads_back(g) {
        front.push(g.colors.last())
    } else {
        front
    }
}

/// A record after padding.
pub open spec fn padded(g: GradientModel) -> GradientModel {
    GradientModel { id: g.id, colors: padded_colors(g), pos: padded_positions(g), valid: g.valid }
}

/// Whether a record gives a gradient: it is valid and has a stop.
pub open spec fn usable(g: GradientModel) -> bool {
    g.valid && g.colors.len() > 0
}

/// Why a record that gives no gradient is refused: a spoiled one for its
/// stop, also where it is empty as well.
pub open spec fn refusal(g: GradientModel) -> Rejected {
    if !g.valid {
        Rejected::InvalidStop
    } else {
        Rejected::Empty
    }
}

fn copy_of<T: Copy>(v: &Vec<T>) -> (r: Vec<T>)
    ensures
        r@ == v@,
{
    let mut out: Vec<T> = Vec::new();
    let mut i: usize = 0;
    while i < v.len()
        invariant
            i <= v@.len(),
            out@ == v@.take(i as int),
        decreases v@.len() - i,
    {
        out.push(v[i]);
        i += 1;
        assert(out@ == v@.take(i as int));
    }
    assert(v@.take(v@.len() as int) == v@);
    out
}

impl SvgGradient {
    /// Pads the stops of the record in place and hands out a copy of them
    /// for the builder of the gradient. A record that is spoiled or empty is
    /// left as it is and gives `None`.
    ///
    /// Where the first position is above zero, a stop at zero with the first
    /// colour goes before it; where the last position is below one, a stop
    /// at one with the last colour goes after it.
    pub fn gradient_builder(&mut self) -> (r: Option<GradientStops>)
        requires
            old(self).colors@.len() == old(self).pos@.len(),
        ensures
            r is Some <==> usable(old(self)@),
            r is None ==> final(self)@ == old(self)@,
            r is Some ==> final(self)@ == padded(old(self)@),
            r is Some ==> r->0.colors@ == final(self).colors@,
            r is Some ==> r->0.positions@ == final(self).pos@,
    {
        if !self.valid || self.colors.len() == 0 {
            return None;
        }
        let ghost before = self@;
        if lt(ZERO, self.pos[0]) {
            let first = self.colors[0];
            self.pos.insert(0, ZERO);
            self.colors.insert(0, first);
            assert(self.pos@ == seq![ZERO] + before.pos);
            assert(self.colors@ == seq![before.colors.first()] + before.colors);
        }
        let last = self.colors.len() - 1;
        if lt(self.pos[last], ONE) {
            let color = self.colors[last];
            self.pos.push(ONE);
            self.colors.push(color);
        }
        assert(self.pos@ == padded_positions(before));
        assert(self.colors@ == padded_colors(before));
        Some(GradientStops { colors: copy_of(&self.colors), positions: copy_of(&self.pos) })
    }

    /// The stops that a gradient is built from, or why the record gives
    /// none. The record itself stays as it is.
    pub fn normalize(&self) -> (r: Result<GradientStops, Rejected>)
        requires
            self.colors@.len() == self.pos@.len(),
        ensures
            r is Ok <==> usable(self@),
            r is Err ==> r->Err_0 == refusal(self@),
            r is Ok ==> r->Ok_0.colors@ == padded_colors(self@),
            r is Ok ==> r->Ok_0.positions@ == padded_positions(self@),
    {
        if !self.valid {
            return Err(Rejected::InvalidStop);
        }
        if self.colors.len() == 0 {
            return Err(Rejected::Empty);
        }
        let mut padded = SvgGradient {
            id: None,
            colors: copy_of(&self.colors),
            pos: copy_of(&self.pos),
            valid: true,
        };
        match padded.gradient_builder() {
            Some(stops) => Ok(stops),
            None => Err(Rejected::Empty),
        }
    }
}

/// Stops that already start at zero and end at one come out of the padding
/// as they went in.
pub proof fn padding_keeps_full_range(g: GradientModel)
    requires
        g.colors.len() == g.pos.len(),
        g.pos.len() > 0,
        g.pos.first() == ZERO,
        g.pos.last() == ONE,
    ensures
        padded(g) == g,
{
}

/// Padding what is padded changes nothing.
pub proof fn padding_is_idempotent(g: GradientModel)
    requires
        g.colors.len() == g.pos.len(),
    ensures
        padded(padded(g)) == padded(g),
{
    let once = padded(g);
    if g.pos.len() > 0 {
        assert(once.pos.first() == if pads_front(g) { ZERO } else { g.pos.first() });
        assert(once.pos.last() == if pads_back(g) { ONE } else { g.pos.last() });
        assert(!pads_front(once));
        assert(!pads_back(once));
    }
}

/// After the padding the stops reach both ends of the unit interval: the
/// first position is not above zero and the last is not below one; a stop
/// that the padding put there stands exactly at zero, or exactly at one.
/// Padding keeps one colour for each position, and keeps a steady record
/// steady.
pub proof fn padding_covers_unit_range(g: GradientModel)
    requires
        g.colors.len() == g.pos.len(),
        g.pos.len() > 0,
    ensures
        padded(g).colors.len() == padded(g).pos.len(),
        !less(ZERO, padded(g).pos.first()),
        !less(padded(g).pos.last(), ONE),
        pads_front(g) ==> padded(g).pos.first() == ZERO,
        pads_back(g) ==> padded(g).pos.last() == ONE,
        steady(g) ==> steady(padded(g)),
{
    let once = padded(g);
    if steady(g) {
        let shift: int = if pads_front(g) { 1 } else { 0 };
        assert forall|i: int| 0 <= i < once.pos.len() implies is_finite(#[trigger] once.pos[i]) by {
            if shift <= i < shift + g.pos.len() {
                assert(once.pos[i] == g.pos[i - shift]);
            }
        }
        assert forall|i: int, j: int| 0 <= i <= j < once.pos.len() implies rank(
            #[trigger] once.pos[i],
        ) <= rank(#[trigger] once.pos[j]) by {
            assert(rank(g.pos.first()) <= rank(g.pos.last()));
            if shift <= i < shift + g.pos.len() {
                assert(once.pos[i] == g.pos[i - shift]);
                assert(rank(g.pos[i - shift]) <= rank(g.pos.last()));
            }
            if shift <= j < shift + g.pos.len() {
                assert(once.pos[j] == g.pos[j - shift]);
                assert(rank(g.pos.first()) <= rank(g.pos[j - shift]));
            }
        }
    }
}

} // verus!
