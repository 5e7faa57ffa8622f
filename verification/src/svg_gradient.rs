//! Gradients read from markup: the stops of each gradient element, gathered
//! in the order of the document.
//!
//! The extractor is a small state machine. It is outside every gradient, or
//! inside the one that was opened last, or inside one that the filter leaves
//! out. A stop met inside a gradient is added to its record. A stop with an
//! attribute that cannot be read spoils the record; it still takes its place
//! in a record that was valid until then, with the default for what could
//! not be read, and is left out of a record that was spoiled before.

use vstd::prelude::*;
use crate::binary32::{
    at_most, finite, finite_or_zero, is_finite, larger, max, rank, NEG_INFINITY, ZERO,
};
use crate::color::{black, parse_rgba, parsed_color, Rgba};
use crate::text::{opt_str, opt_text, same_text};

verus! {

/// What became of an attribute: it was not there, it was there and could not
/// be read, or it gave a value.
#[derive(Clone, Copy, Debug, PartialEq, Eq)]
pub enum Parsed<T> {
    Absent,
    Invalid,
    Value(T),
}

impl<T> Parsed<T> {
    /// An attribute together with the style declaration that stands in for
    /// it: unreadable if either is; else the attribute's value where it has
    /// one, and the declaration's where it has not.
    pub open spec fn merged(self, fallback: Parsed<T>) -> Parsed<T> {
        if self is Invalid || fallback is Invalid {
            Parsed::Invalid
        } else if self is Value {
            self
        } else {
            fallback
        }
    }

    /// Joins an attribute with the style declaration that stands in for it.
    pub fn or(self, fallback: Parsed<T>) -> (r: Parsed<T>)
        ensures
            r == self.merged(fallback),
    {
        match (self, fallback) {
            (Parsed::Invalid, _) => Parsed::Invalid,
            (_, Parsed::Invalid) => Parsed::Invalid,
            (Parsed::Value(v), _) => Parsed::Value(v),
            (Parsed::Absent, other) => other,
        }
    }
}

/// What one stop element says, each attribute already read.
#[derive(Clone, Copy, Debug, PartialEq, Eq)]
pub struct StopValues {
    pub color: Parsed<Rgba>,
    pub opacity: Parsed<u32>,
    pub offset: Parsed<u32>,
}

/// The stops of one gradient element. `pos` holds the offsets as binary32
/// bits, `colors` the colour at each offset. `valid` is false once a stop of
/// the element could not be read.
#[derive(Debug)]
pub struct SvgGradient {
    pub id: Option<String>,
    pub colors: Vec<Rgba>,
    pub pos: Vec<u32>,
    pub valid: bool,
}

/// A gradient record as a mathematical value.
pub ghost struct GradientModel {
    pub id: Option<Seq<char>>,
    pub colors: Seq<Rgba>,
    pub pos: Seq<u32>,
    pub valid: bool,
}

impl View for SvgGradient {
    type V = GradientModel;

    open spec fn view(&self) -> GradientModel {
        GradientModel {
            id: opt_text(self.id),
            colors: self.colors@,
            pos: self.pos@,
            valid: self.valid,
        }
    }
}

/// The records of a list, each as a mathematical value.
pub open spec fn models(records: Seq<SvgGradient>) -> Seq<GradientModel> {
    records.map_values(|g: SvgGradient| g@)
}

/// Where the extractor stands in the document.
#[derive(Clone, Copy, Debug, PartialEq, Eq, Structural)]
pub enum Mode {
    /// Outside every gradient element.
    Outside,
    /// Inside the gradient element whose record is the last one.
    Inside,
    /// Inside a gradient element that the filter leaves out.
    Skipped,
}

/// The state of the extractor as a mathematical value: the records so far,
/// where it stands, and the largest offset met in the gradient that is open.
pub ghost struct ExtractorModel {
    pub records: Seq<GradientModel>,
    pub mode: Mode,
    pub running: u32,
}

/// The state before anything was read.
pub open spec fn initial() -> ExtractorModel {
    ExtractorModel { records: Seq::empty(), mode: Mode::Outside, running: NEG_INFINITY }
}

/// The record of a gradient element that has just been opened.
pub open spec fn empty_record(id: Option<Seq<char>>) -> GradientModel {
    GradientModel { id, colors: Seq::empty(), pos: Seq::empty(), valid: true }
}

/// Whether the filter leaves out a gradient with this identifier: it does
/// when a target is set and the identifier is missing or another.
pub open spec fn filtered_out(id: Option<Seq<char>>, target: Option<Seq<char>>) -> bool {
    target is Some && id != target
}

/// The state after a gradient element opens. One that the filter leaves out
/// gets no record; any other gets an empty, valid record, which is then the
/// one that stops are added to.
pub open spec fn opened(st: ExtractorModel, id: Option<Seq<char>>, target: Option<Seq<char>>) -> ExtractorModel {
    if filtered_out(id, target) {
        ExtractorModel { records: st.records, mode: Mode::Skipped, running: st.running }
    } else {
        ExtractorModel {
            records: st.records.push(empty_record(id)),
            mode: Mode::Inside,
            running: st.running,
        }
    }
}

/// The state after a gradient element closes.
pub open spec fn closed(st: ExtractorModel) -> ExtractorModel {
    ExtractorModel { records: st.records, mode: Mode::Outside, running: NEG_INFINITY }
}

/// Whether a stop can be read: none of its attributes is unreadable.
pub open spec fn readable(v: StopValues) -> bool {
    !(v.color is Invalid) && !(v.opacity is Invalid) && !(v.offset is Invalid)
}

/// A stop with every attribute that cannot be read taken as missing.
pub open spec fn defaulted(v: StopValues) -> StopValues {
    StopValues {
        color: if v.color is Invalid {
            Parsed::Absent
        } else {
            v.color
        },
        opacity: if v.opacity is Invalid {
            Parsed::Absent
        } else {
            v.opacity
        },
        offset: if v.offset is Invalid {
            Parsed::Absent
        } else {
            v.offset
        },
    }
}

/// The colour of a stop: the colour it names, or opaque black where it names
/// none; with its alpha replaced by the opacity where the stop gives one.
pub open spec fn stop_color(v: StopValues) -> Rgba {
    let base = match v.color {
        Parsed::Value(c) => c,
        _ => black(),
    };
    match v.opacity {
        Parsed::Value(o) => base.faded(o),
        _ => base,
    }
}

/// The position of a stop. Its offset is the one it names, or the largest
/// so far where it names none; an offset that is not finite counts as
/// zero; and the position is never below the largest so far.
pub open spec fn stop_position(v: StopValues, running: u32) -> u32 {
    let offset = match v.offset {
        Parsed::Value(o) => o,
        _ => running,
    };
    larger(finite_or_zero(offset), running)
}

/// A record with one more stop.
pub open spec fn with_stop(g: GradientModel, color: Rgba, position: u32) -> GradientModel {
    GradientModel { id: g.id, colors: g.colors.push(color), pos: g.pos.push(position), valid: g.valid }
}

/// A record that a stop has spoiled.
pub open spec fn spoiled(g: GradientModel) -> GradientModel {
    GradientModel { id: g.id, colors: g.colors, pos: g.pos, valid: false }
}

/// The open record with the stop added to it: with the colour and the
/// position of the stop, each attribute that cannot be read taken as
/// missing; and spoiled where the stop cannot be read.
pub open spec fn received(g: GradientModel, v: StopValues, running: u32) -> GradientModel {
    let d = defaulted(v);
    let added = with_stop(g, stop_color(d), stop_position(d, running));
    if readable(v) {
        added
    } else {
        spoiled(added)
    }
}

/// The state after a stop element. Outside a gradient, or inside one that is
/// left out, nothing changes. A stop that can be read is added to the open
/// record, and its position becomes the largest so far. A stop that cannot
/// be read spoils the open record. Where the record was valid until then,
/// the stop still takes its place in it, with the default for each attribute
/// that cannot be read, and its position becomes the largest so far; where
/// the record was spoiled before, the stop is left out.
pub open spec fn stopped(st: ExtractorModel, v: StopValues) -> ExtractorModel {
    if st.mode != Mode::Inside || st.records.len() == 0 {
        st
    } else if !readable(v) && !st.records.last().valid {
        ExtractorModel {
            records: st.records.drop_last().push(spoiled(st.records.last())),
            mode: st.mode,
            running: st.running,
        }
    } else {
        ExtractorModel {
            records: st.records.drop_last().push(received(st.records.last(), v, st.running)),
            mode: st.mode,
            running: stop_position(defaulted(v), st.running),
        }
    }
}

/// The extractor: the records gathered so far and the place in the document.
pub struct StopExtractor {
    target: Option<String>,
    records: Vec<SvgGradient>,
    mode: Mode,
    running: u32,
}

impl View for StopExtractor {
    type V = ExtractorModel;

    closed spec fn view(&self) -> ExtractorModel {
        ExtractorModel { records: models(self.records@), mode: self.mode, running: self.running }
    }
}

fn same_id(id: &Option<String>, target: &str) -> (r: bool)
    ensures
        r == (opt_text(*id) == Some(target@)),
{
    match id {
        Some(s) => same_text(s.as_str(), target),
        None => false,
    }
}

fn clone_id(id: &Option<String>) -> (r: Option<String>)
    ensures
        opt_text(r) == opt_text(*id),
{
    match id {
        Some(s) => Some(s.clone()),
        None => None,
    }
}

impl StopExtractor {
    /// The identifier that the extractor keeps to; `None` where it keeps
    /// every gradient.
    pub closed spec fn target(&self) -> Option<Seq<char>> {
        opt_text(self.target)
    }

    /// While the extractor is inside a gradient, that gradient has a record.
    pub closed spec fn wf(&self) -> bool {
        self.mode == Mode::Inside ==> self.records@.len() > 0
    }

    /// An extractor at the start of a document, which keeps the gradients
    /// with the identifier `target_id`, or all of them where that is `None`.
    pub fn new(target_id: Option<&str>) -> (r: StopExtractor)
        ensures
            r.wf(),
            r@ == initial(),
            r.target() == opt_str(target_id),
    {
        let target = match target_id {
            Some(t) => Some(t.to_owned()),
            None => None,
        };
        let r = StopExtractor {
            target,
            records: Vec::new(),
            mode: Mode::Outside,
            running: NEG_INFINITY,
        };
        assert(models(r.records@) == Seq::<GradientModel>::empty());
        r
    }

    /// A gradient element with the identifier `id` opens.
    pub fn open(&mut self, id: Option<String>)
        requires
            old(self).wf(),
        ensures
            final(self).wf(),
            final(self)@ == opened(old(self)@, opt_text(id), old(self).target()),
            final(self).target() == old(self).target(),
    {
        let skip = match &self.target {
            Some(t) => !same_id(&id, t.as_str()),
            None => false,
        };
        if skip {
            self.mode = Mode::Skipped;
        } else {
            let ghost before = self.records@;
            let record = SvgGradient { id, colors: Vec::new(), pos: Vec::new(), valid: true };
            self.records.push(record);
            self.mode = Mode::Inside;
            assert(models(self.records@) == models(before).push(record@));
        }
    }

    /// A gradient element closes.
    pub fn close(&mut self)
        requires
            old(self).wf(),
        ensures
            final(self).wf(),
            final(self)@ == closed(old(self)@),
            final(self).target() == old(self).target(),
    {
        self.mode = Mode::Outside;
        self.running = NEG_INFINITY;
    }

    /// A stop element, with what its attributes gave. A stop outside an open
    /// gradient changes nothing. A stop that can be read is added to the
    /// open record. A stop that cannot be read spoils the open record; it is
    /// added with defaults where the record was valid, and left out where
    /// the record was spoiled before.
    pub fn stop(&mut self, values: StopValues)
        requires
            old(self).wf(),
        ensures
            final(self).wf(),
            final(self)@ == stopped(old(self)@, values),
            final(self).target() == old(self).target(),
    {
        match self.mode {
            Mode::Inside => {},
            _ => {
                return ;
            },
        }
        let ghost before = self.records@;
        let mut record = self.records.pop().unwrap();
        assert(record@ == models(before).last());
        let unreadable = match (values.color, values.opacity, values.offset) {
            (Parsed::Invalid, _, _) => true,
            (_, Parsed::Invalid, _) => true,
            (_, _, Parsed::Invalid) => true,
            _ => false,
        };
        if !unreadable || record.valid {
            let base = match values.color {
                Parsed::Value(c) => c,
                _ => Rgba::black(),
            };
            let color = match values.opacity {
                Parsed::Value(o) => base.with_opacity(o),
                _ => base,
            };
            let offset = match values.offset {
                Parsed::Value(o) => o,
                _ => self.running,
            };
            let position = max(if finite(offset) { offset } else { ZERO }, self.running);
            record.colors.push(color);
            record.pos.push(position);
            self.running = position;
            if unreadable {
                record.valid = false;
            }
        }
        self.records.push(record);
        assert(models(self.records@) == models(before).drop_last().push(record@));
    }

    /// The records, in the order in which their gradients opened.
    pub fn finish(self) -> (r: Vec<SvgGradient>)
        ensures
            models(r@) == self@.records,
    {
        self.records
    }
}

/// What one stop element says, with its numbers read and its colours still
/// as texts: the `stop-color` attribute and the `stop-color` of the style
/// list, the `stop-opacity` attribute and the `stop-opacity` of the style
/// list, and the `offset` attribute.
#[derive(Debug)]
pub struct StopSource {
    pub color: Option<String>,
    pub style_color: Option<String>,
    pub opacity: Parsed<u32>,
    pub style_opacity: Parsed<u32>,
    pub offset: Parsed<u32>,
}

/// One step through the document, as the extractor sees it.
#[derive(Debug)]
pub enum StopEvent {
    /// A gradient element opens; with its identifier.
    Open(Option<String>),
    /// A gradient element closes.
    Close,
    /// A stop element.
    Stop(StopSource),
}

/// A stop source as a mathematical value.
pub ghost struct StopSourceModel {
    pub color: Option<Seq<char>>,
    pub style_color: Option<Seq<char>>,
    pub opacity: Parsed<u32>,
    pub style_opacity: Parsed<u32>,
    pub offset: Parsed<u32>,
}

/// A step as a mathematical value.
pub ghost enum StopEventModel {
    Open(Option<Seq<char>>),
    Close,
    Stop(StopSourceModel),
}

impl View for StopSource {
    type V = StopSourceModel;

    open spec fn view(&self) -> StopSourceModel {
        StopSourceModel {
            color: opt_text(self.color),
            style_color: opt_text(self.style_color),
            opacity: self.opacity,
            style_opacity: self.style_opacity,
            offset: self.offset,
        }
    }
}

impl View for StopEvent {
    type V = StopEventModel;

    open spec fn view(&self) -> StopEventModel {
        match self {
            StopEvent::Open(id) => StopEventModel::Open(opt_text(*id)),
            StopEvent::Close => StopEventModel::Close,
            StopEvent::Stop(source) => StopEventModel::Stop(source@),
        }
    }
}

/// The steps of a list, each as a mathematical value.
pub open spec fn steps(events: Seq<StopEvent>) -> Seq<StopEventModel> {
    events.map_values(|e: StopEvent| e@)
}

/// What became of a colour attribute: absent where there is no text, else
/// what the colour library reads from the text.
pub open spec fn color_of(token: Option<Seq<char>>) -> Parsed<Rgba> {
    match token {
        None => Parsed::Absent,
        Some(t) => match parsed_color(t) {
            Some(c) => Parsed::Value(c),
            None => Parsed::Invalid,
        },
    }
}

/// What a stop says once its colours are read: the attribute goes before
/// the style list, for the colour and for the opacity.
pub open spec fn resolved(source: StopSourceModel) -> StopValues {
    StopValues {
        color: color_of(source.color).merged(color_of(source.style_color)),
        opacity: source.opacity.merged(source.style_opacity),
        offset: source.offset,
    }
}

/// The state after one step.
pub open spec fn step(st: ExtractorModel, e: StopEventModel, target: Option<Seq<char>>) -> ExtractorModel {
    match e {
        StopEventModel::Open(id) => opened(st, id, target),
        StopEventModel::Close => closed(st),
        StopEventModel::Stop(source) => stopped(st, resolved(source)),
    }
}

/// The state after all the steps of a document.
pub open spec fn after(events: Seq<StopEventModel>, target: Option<Seq<char>>) -> ExtractorModel
    decreases events.len(),
{
    if events.len() == 0 {
        initial()
    } else {
        step(after(events.drop_last(), target), events.last(), target)
    }
}

/// The records that a document gives.
pub open spec fn extraction(events: Seq<StopEventModel>, target: Option<Seq<char>>) -> Seq<GradientModel> {
    after(events, target).records
}

fn read_color(token: &Option<String>) -> (r: Parsed<Rgba>)
    ensures
        r == color_of(opt_text(*token)),
{
    match token {
        None => Parsed::Absent,
        Some(t) => match parse_rgba(t.as_str()) {
            Ok(c) => Parsed::Value(c),
            Err(_) => Parsed::Invalid,
        },
    }
}

/// Reads the colours of a stop and joins each attribute with its style
/// declaration.
pub fn resolve(source: &StopSource) -> (r: StopValues)
    ensures
        r == resolved(source@),
{
    let color = read_color(&source.color).or(read_color(&source.style_color));
    let opacity = source.opacity.or(source.style_opacity);
    StopValues { color, opacity, offset: source.offset }
}

/// Gathers the gradients of a document from its steps, in the order of the
/// document. With a `target_id`, only the gradients with that identifier are
/// kept; where none has it the result is empty.
pub fn extract(events: &Vec<StopEvent>, target_id: Option<&str>) -> (r: Vec<SvgGradient>)
    ensures
        models(r@) == extraction(steps(events@), opt_str(target_id)),
        forall|k: int| 0 <= k < r@.len() ==> steady(#[trigger] r@[k]@),
{
    let mut extractor = StopExtractor::new(target_id);
    let ghost target = opt_str(target_id);
    let n = events.len();
    let mut i: usize = 0;
    assert(steps(events@).take(0) == Seq::<StopEventModel>::empty());
    while i < n
        invariant
            i <= n == events@.len(),
            extractor.wf(),
            extractor.target() == target,
            extractor@ == after(steps(events@).take(i as int), target),
        decreases n - i,
    {
        proof {
            let done = steps(events@).take(i + 1);
            assert(done.drop_last() == steps(events@).take(i as int));
            assert(done.last() == events@[i as int]@);
        }
        match &events[i] {
            StopEvent::Open(id) => {
                extractor.open(clone_id(id));
            },
            StopEvent::Close => {
                extractor.close();
            },
            StopEvent::Stop(source) => {
                extractor.stop(resolve(source));
            },
        }
        i += 1;
    }
    assert(steps(events@).take(n as int) == steps(events@));
    proof {
        after_is_sound(steps(events@), target);
    }
    let records = extractor.finish();
    assert forall|k: int| 0 <= k < records@.len() implies steady(#[trigger] records@[k]@) by {
        assert(models(records@)[k] == records@[k]@);
    }
    records
}

/// A record is steady when it has one colour for each position, every
/// position is finite, and no position is below an earlier one.
pub open spec fn steady(g: GradientModel) -> bool {
    &&& g.colors.len() == g.pos.len()
    &&& forall|i: int| 0 <= i < g.pos.len() ==> is_finite(#[trigger] g.pos[i])
    &&& forall|i: int, j: int|
        0 <= i <= j < g.pos.len() ==> rank(#[trigger] g.pos[i]) <= rank(#[trigger] g.pos[j])
}

/// What holds of the extractor at every step: each record is steady; the
/// largest offset so far is negative infinity or finite; and inside a
/// gradient no position of the open record is above it.
pub open spec fn sound(st: ExtractorModel) -> bool {
    &&& forall|k: int| 0 <= k < st.records.len() ==> steady(#[trigger] st.records[k])
    &&& (st.running == NEG_INFINITY || is_finite(st.running))
    &&& st.mode == Mode::Inside && st.records.len() > 0 ==> forall|i: int|
        0 <= i < st.records.last().pos.len() ==> rank(#[trigger] st.records.last().pos[i]) <= rank(
            st.running,
        )
}

/// A step keeps the extractor sound.
pub proof fn step_keeps_sound(st: ExtractorModel, e: StopEventModel, target: Option<Seq<char>>)
    requires
        sound(st),
    ensures
        sound(step(st, e, target)),
{
    let next = step(st, e, target);
    match e {
        StopEventModel::Open(id) => {
            assert forall|k: int| 0 <= k < next.records.len() implies steady(
                #[trigger] next.records[k],
            ) by {
                if k < st.records.len() {
                    assert(next.records[k] == st.records[k]);
                }
            }
        },
        StopEventModel::Close => {},
        StopEventModel::Stop(source) => {
            let v = resolved(source);
            if st.mode == Mode::Inside && st.records.len() > 0 {
                let last = st.records.last();
                assert(steady(last));
                let position = stop_position(defaulted(v), st.running);
                let adds = readable(v) || last.valid;
                assert(is_finite(position));
                assert(rank(st.running) <= rank(position));
                assert forall|k: int| 0 <= k < next.records.len() implies steady(
                    #[trigger] next.records[k],
                ) by {
                    if k < st.records.len() - 1 {
                        assert(next.records[k] == st.records[k]);
                    } else if adds {
                        let g = next.records[k];
                        assert(g == received(last, v, st.running));
                        assert(g.pos == last.pos.push(position));
                        assert forall|i: int| 0 <= i < g.pos.len() implies is_finite(
                            #[trigger] g.pos[i],
                        ) by {
                            if i < last.pos.len() {
                                assert(g.pos[i] == last.pos[i]);
                            }
                        }
                        assert forall|i: int, j: int| 0 <= i <= j < g.pos.len() implies rank(
                            #[trigger] g.pos[i],
                        ) <= rank(#[trigger] g.pos[j]) by {
                            if j < last.pos.len() {
                                assert(g.pos[i] == last.pos[i] && g.pos[j] == last.pos[j]);
                            } else if i < last.pos.len() {
                                assert(g.pos[i] == last.pos[i]);
                            }
                        }
                    } else {
                        assert(next.records[k] == spoiled(last));
                    }
                }
                if adds {
                    let g = next.records.last();
                    assert(g == received(last, v, st.running));
                    assert(g.pos == last.pos.push(position));
                    assert forall|i: int| 0 <= i < g.pos.len() implies rank(#[trigger] g.pos[i])
                        <= rank(next.running) by {
                        if i < last.pos.len() {
                            assert(g.pos[i] == last.pos[i]);
                        }
                    }
                } else {
                    assert(next.records.last() == spoiled(last));
                }
            }
        },
    }
}

/// The extractor is sound after any steps.
pub proof fn after_is_sound(events: Seq<StopEventModel>, target: Option<Seq<char>>)
    ensures
        sound(after(events, target)),
    decreases events.len(),
{
    if events.len() > 0 {
        after_is_sound(events.drop_last(), target);
        step_keeps_sound(after(events.drop_last(), target), events.last(), target);
    }
}

/// Within one record the positions never decrease, whatever offsets the
/// stops of the document gave: decreasing ones, infinite ones, NaN. Every
/// position is finite, and every record has one colour for each position.
pub proof fn positions_never_decrease(
    events: Seq<StopEventModel>,
    target: Option<Seq<char>>,
    k: int,
    i: int,
    j: int,
)
    requires
        0 <= k < extraction(events, target).len(),
        0 <= i <= j < extraction(events, target)[k].pos.len(),
    ensures
        at_most(extraction(events, target)[k].pos[i], extraction(events, target)[k].pos[j]),
        is_finite(extraction(events, target)[k].pos[i]),
        extraction(events, target)[k].colors.len() == extraction(events, target)[k].pos.len(),
{
    after_is_sound(events, target);
    let g = extraction(events, target)[k];
    assert(steady(g));
    assert(is_finite(g.pos[i]) && is_finite(g.pos[j]));
}

/// A stop changes no record but the open one, and nothing at all outside an
/// open gradient. A stop that can be read adds one stop to the open record
/// and leaves its validity as it was. A stop that cannot be read spoils the
/// open record alone: in a record that was valid until then it still takes
/// one place, with the colour and the position that its readable attributes
/// and the defaults give; in a record that was spoiled before it takes none.
pub proof fn stop_changes_only_open_record(st: ExtractorModel, v: StopValues)
    ensures
        stopped(st, v).records.len() == st.records.len(),
        forall|k: int|
            0 <= k < st.records.len() - 1 ==> (#[trigger] stopped(st, v).records[k])
                == st.records[k],
        st.mode != Mode::Inside ==> stopped(st, v) == st,
        st.mode == Mode::Inside && st.records.len() > 0 && readable(v) ==> {
            &&& stopped(st, v).records.last().pos == st.records.last().pos.push(
                stop_position(v, st.running),
            )
            &&& stopped(st, v).records.last().colors == st.records.last().colors.push(
                stop_color(v),
            )
            &&& stopped(st, v).records.last().valid == st.records.last().valid
        },
        st.mode == Mode::Inside && st.records.len() > 0 && !readable(v)
            && st.records.last().valid ==> {
            &&& stopped(st, v).records.last().pos == st.records.last().pos.push(
                stop_position(defaulted(v), st.running),
            )
            &&& stopped(st, v).records.last().colors == st.records.last().colors.push(
                stop_color(defaulted(v)),
            )
            &&& !stopped(st, v).records.last().valid
            &&& stopped(st, v).running == stop_position(defaulted(v), st.running)
        },
        st.mode == Mode::Inside && st.records.len() > 0 && !readable(v)
            && !st.records.last().valid ==> stopped(st, v) == st,
{
    if st.mode == Mode::Inside && st.records.len() > 0 {
        let last = st.records.last();
        if !readable(v) && !last.valid {
            assert(spoiled(last) == last);
            assert(st.records.drop_last().push(last) == st.records);
        } else if readable(v) {
            assert(defaulted(v) == v);
        }
    }
}

/// In a record that is valid, every stop met inside it has taken a place:
/// a step adds exactly one stop to the open record when it is a stop inside
/// a gradient whose record was valid, whether the stop can be read or not.
pub proof fn valid_record_takes_every_stop(st: ExtractorModel, v: StopValues)
    requires
        st.mode == Mode::Inside,
        st.records.len() > 0,
        st.records.last().valid,
    ensures
        stopped(st, v).records.last().pos.len() == st.records.last().pos.len() + 1,
        stopped(st, v).records.last().colors.len() == st.records.last().colors.len() + 1,
        stopped(st, v).records.last().valid == readable(v),
{
}

/// What holds of the records under a filter: each has the identifier that
/// the filter keeps.
pub open spec fn all_match(records: Seq<GradientModel>, target: Seq<char>) -> bool {
    forall|k: int| 0 <= k < records.len() ==> (#[trigger] records[k]).id == Some(target)
}

/// With a target, every record of the result has the target as its
/// identifier, whatever the document holds: a gradient with another
/// identifier, or with none, gives no record.
pub proof fn filter_keeps_only_target(events: Seq<StopEventModel>, target: Seq<char>)
    ensures
        all_match(extraction(events, Some(target)), target),
    decreases events.len(),
{
    if events.len() > 0 {
        filter_keeps_only_target(events.drop_last(), target);
        let before = after(events.drop_last(), Some(target));
        let next = after(events, Some(target));
        assert forall|k: int| 0 <= k < next.records.len() implies (#[trigger] next.records[k]).id
            == Some(target) by {
            if k < before.records.len() - 1 {
                assert(next.records[k] == before.records[k]);
            } else if k < before.records.len() {
                assert(next.records[k].id == before.records[k].id);
            }
        }
    }
}

} // verus!
