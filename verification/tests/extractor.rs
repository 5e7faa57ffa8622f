use colorgrad::{Color, Gradient, GradientBuilder, LinearGradient};
use gradient::binary32::{NEG_INFINITY, ONE, ZERO};
use gradient::markup::{MarkupEvent, Tag, TagKind};
use gradient::scan::{number_token, tokens_of};
use gradient::svg_gradient::{resolve, StopExtractor};
use gradient::{
    extract, scan, GradientStops, Parsed, Rejected, Rgba, StopEvent, StopSource, StopValues,
    SvgGradient, TokenEvent,
};

fn bits(x: f32) -> u32 {
    x.to_bits()
}

fn rgba(s: &str) -> Rgba {
    let c = s.parse::<Color>().unwrap();
    Rgba {
        r: c.r.to_bits(),
        g: c.g.to_bits(),
        b: c.b.to_bits(),
        a: c.a.to_bits(),
    }
}

fn plain_stop(color: Option<&str>, offset: Parsed<u32>) -> StopEvent {
    StopEvent::Stop(StopSource {
        color: color.map(String::from),
        style_color: None,
        opacity: Parsed::Absent,
        style_opacity: Parsed::Absent,
        offset,
    })
}

fn offsets_of(sg: &SvgGradient) -> Vec<f32> {
    sg.pos.iter().map(|b| f32::from_bits(*b)).collect()
}

fn record(colors: &[&str], pos: &[f32], valid: bool) -> SvgGradient {
    SvgGradient {
        id: Some("r".into()),
        colors: colors.iter().map(|c| rgba(c)).collect(),
        pos: pos.iter().map(|p| p.to_bits()).collect(),
        valid,
    }
}

fn build(stops: &GradientStops) -> LinearGradient {
    let colors: Vec<Color> = stops
        .colors
        .iter()
        .map(|c| {
            Color::new(
                f32::from_bits(c.r),
                f32::from_bits(c.g),
                f32::from_bits(c.b),
                f32::from_bits(c.a),
            )
        })
        .collect();
    let positions: Vec<f32> = stops.positions.iter().map(|p| f32::from_bits(*p)).collect();
    let mut builder = GradientBuilder::new();
    builder.colors(&colors);
    builder.domain(&positions);
    builder.mode(colorgrad::BlendMode::Rgb);
    builder.build::<LinearGradient>().unwrap()
}

#[test]
fn positions_never_decrease() {
    let given = [
        0.5,
        0.2,
        f32::NAN,
        f32::INFINITY,
        0.7,
        f32::NEG_INFINITY,
        -3.0,
        0.7,
        9.0,
        1.0,
    ];
    let mut events = vec![StopEvent::Open(Some("g".into()))];
    for x in given {
        events.push(plain_stop(None, Parsed::Value(bits(x))));
    }
    events.push(StopEvent::Close);
    let result = extract(&events, None);
    assert_eq!(result.len(), 1);
    let pos = offsets_of(&result[0]);
    assert_eq!(pos, vec![0.5, 0.5, 0.5, 0.5, 0.7, 0.7, 0.7, 0.7, 9.0, 9.0]);
    for pair in pos.windows(2) {
        assert!(pair[0] <= pair[1]);
    }
    assert_eq!(result[0].colors.len(), 10);
    assert!(result[0].valid);
}

#[test]
fn first_offset_that_is_not_finite_counts_as_zero() {
    for x in [f32::NAN, f32::INFINITY, f32::NEG_INFINITY] {
        let events = vec![
            StopEvent::Open(None),
            plain_stop(None, Parsed::Value(bits(x))),
            plain_stop(None, Parsed::Value(bits(-2.0))),
            plain_stop(None, Parsed::Absent),
            StopEvent::Close,
        ];
        let result = extract(&events, None);
        assert_eq!(offsets_of(&result[0]), vec![0.0, 0.0, 0.0]);
    }
    let events = vec![
        StopEvent::Open(None),
        plain_stop(None, Parsed::Value(bits(-2.0))),
        plain_stop(None, Parsed::Absent),
        plain_stop(None, Parsed::Value(bits(-1.0))),
    ];
    let result = extract(&events, None);
    assert_eq!(offsets_of(&result[0]), vec![-2.0, -2.0, -1.0]);
}

#[test]
fn running_offset_starts_anew_in_each_gradient() {
    let events = vec![
        StopEvent::Open(Some("a".into())),
        plain_stop(Some("red"), Parsed::Value(bits(0.9))),
        StopEvent::Close,
        plain_stop(Some("red"), Parsed::Value(bits(0.95))),
        StopEvent::Open(Some("b".into())),
        plain_stop(Some("blue"), Parsed::Value(bits(0.1))),
        StopEvent::Close,
    ];
    let result = extract(&events, None);
    assert_eq!(result.len(), 2);
    assert_eq!(offsets_of(&result[0]), vec![0.9]);
    assert_eq!(offsets_of(&result[1]), vec![0.1]);
    assert_eq!(result[1].colors, vec![rgba("blue")]);
}

#[test]
fn attribute_goes_before_style() {
    let source = StopSource {
        color: Some("red".into()),
        style_color: Some("blue".into()),
        opacity: Parsed::Value(bits(0.25)),
        style_opacity: Parsed::Value(bits(0.75)),
        offset: Parsed::Value(bits(0.5)),
    };
    let values = resolve(&source);
    assert_eq!(values.color, Parsed::Value(rgba("red")));
    assert_eq!(values.opacity, Parsed::Value(bits(0.25)));
    assert_eq!(values.offset, Parsed::Value(bits(0.5)));

    let source = StopSource {
        color: None,
        style_color: Some("blue".into()),
        opacity: Parsed::Absent,
        style_opacity: Parsed::Value(bits(0.75)),
        offset: Parsed::Absent,
    };
    let values = resolve(&source);
    assert_eq!(values.color, Parsed::Value(rgba("blue")));
    assert_eq!(values.opacity, Parsed::Value(bits(0.75)));

    let source = StopSource {
        color: Some("red".into()),
        style_color: Some("#zzz".into()),
        opacity: Parsed::Invalid,
        style_opacity: Parsed::Value(bits(0.75)),
        offset: Parsed::Absent,
    };
    let values = resolve(&source);
    assert_eq!(values.color, Parsed::Invalid);
    assert_eq!(values.opacity, Parsed::Invalid);
    assert_eq!(Parsed::<u32>::Absent.or(Parsed::Absent), Parsed::Absent);
}

#[test]
fn extractor_steps() {
    let mut x = StopExtractor::new(Some("keep"));
    let red = StopValues {
        color: Parsed::Value(rgba("red")),
        opacity: Parsed::Value(bits(3.0)),
        offset: Parsed::Value(bits(0.25)),
    };
    let bare = StopValues {
        color: Parsed::Absent,
        opacity: Parsed::Value(bits(0.5)),
        offset: Parsed::Absent,
    };
    let broken = StopValues {
        color: Parsed::Absent,
        opacity: Parsed::Absent,
        offset: Parsed::Invalid,
    };
    x.stop(red);
    x.open(Some("other".into()));
    x.stop(red);
    x.close();
    x.open(None);
    x.stop(red);
    x.close();
    x.open(Some("keep".into()));
    x.stop(red);
    x.stop(broken);
    x.stop(bare);
    x.close();
    x.stop(red);
    x.open(Some("keep".into()));
    let records = x.finish();
    assert_eq!(records.len(), 2);
    assert_eq!(records[0].id, Some("keep".to_string()));
    assert!(!records[0].valid);
    assert_eq!(offsets_of(&records[0]), vec![0.25, 0.25, 0.25]);
    assert_eq!(records[0].colors[0], rgba("red"));
    assert_eq!(records[0].colors[1], Rgba::black());
    let faded = records[0].colors[2];
    assert_eq!((faded.r, faded.g, faded.b), (ZERO, ZERO, ZERO));
    assert_eq!(faded.a, bits(0.5));
    assert!(records[1].valid);
    assert!(records[1].colors.is_empty());
    assert_eq!(NEG_INFINITY, f32::NEG_INFINITY.to_bits());
}

#[test]
fn unreadable_stop_takes_its_place_in_a_valid_record() {
    let bad_colour = StopValues {
        color: Parsed::Invalid,
        opacity: Parsed::Value(bits(0.5)),
        offset: Parsed::Value(bits(0.5)),
    };
    let bad_offset = StopValues {
        color: Parsed::Value(rgba("gold")),
        opacity: Parsed::Absent,
        offset: Parsed::Invalid,
    };
    let plain = StopValues {
        color: Parsed::Value(rgba("red")),
        opacity: Parsed::Absent,
        offset: Parsed::Value(bits(0.75)),
    };

    let mut x = StopExtractor::new(None);
    x.open(Some("a".into()));
    x.stop(bad_colour);
    x.stop(bad_offset);
    x.stop(plain);
    x.close();
    x.open(Some("b".into()));
    x.stop(plain);
    x.stop(bad_offset);
    x.stop(bad_offset);
    x.stop(plain);
    let records = x.finish();

    assert!(!records[0].valid);
    assert_eq!(offsets_of(&records[0]), vec![0.5, 0.75]);
    assert_eq!(
        records[0].colors,
        vec![Rgba::black().with_opacity(bits(0.5)), rgba("red")]
    );

    assert!(!records[1].valid);
    assert_eq!(offsets_of(&records[1]), vec![0.75, 0.75, 0.75]);
    assert_eq!(
        records[1].colors,
        vec![rgba("red"), rgba("gold"), rgba("red")]
    );
}

#[test]
fn padding_leaves_a_full_range_alone() {
    let g = record(&["red", "lime", "blue"], &[0.0, 0.5, 1.0], true);
    let stops = g.normalize().unwrap();
    assert_eq!(stops.colors, g.colors);
    assert_eq!(stops.positions, g.pos);

    let mut h = record(&["red", "blue"], &[-0.0, 1.0], true);
    let kept = h.gradient_builder().unwrap();
    assert_eq!(kept.positions, vec![bits(-0.0), ONE]);
    assert_eq!(h.pos, vec![bits(-0.0), ONE]);
    assert_eq!(h.colors.len(), 2);
}

#[test]
fn padding_reaches_both_ends() {
    let mut g = record(&["red", "lime", "blue"], &[0.1, 0.5, 0.9], true);
    let stops = g.gradient_builder().unwrap();
    assert_eq!(
        stops.positions,
        vec![ZERO, bits(0.1), bits(0.5), bits(0.9), ONE]
    );
    assert_eq!(
        stops.colors,
        vec![rgba("red"), rgba("red"), rgba("lime"), rgba("blue"), rgba("blue")]
    );
    assert_eq!(g.pos, stops.positions);
    assert_eq!(g.colors, stops.colors);

    let again = g.normalize().unwrap();
    assert_eq!(again.positions, stops.positions);
    assert_eq!(again.colors, stops.colors);

    let one = record(&["gold"], &[0.35], true).normalize().unwrap();
    assert_eq!(one.positions, vec![ZERO, bits(0.35), ONE]);
    let wide = record(&["gold", "red"], &[-5.0, 7.0], true).normalize().unwrap();
    assert_eq!(wide.positions, vec![bits(-5.0), bits(7.0)]);
}

#[test]
fn records_without_a_gradient_are_refused() {
    let mut spoiled = record(&["red", "blue"], &[0.2, 0.8], false);
    assert_eq!(spoiled.normalize().unwrap_err(), Rejected::InvalidStop);
    assert!(spoiled.gradient_builder().is_none());
    assert_eq!(spoiled.pos, vec![bits(0.2), bits(0.8)]);
    let mut empty = record(&[], &[], true);
    assert_eq!(empty.normalize().unwrap_err(), Rejected::Empty);
    assert!(empty.gradient_builder().is_none());
    let both = record(&[], &[], false);
    assert_eq!(both.normalize().unwrap_err(), Rejected::InvalidStop);
}

#[test]
fn round_trip() {
    let events = vec![
        StopEvent::Open(Some("banana".into())),
        plain_stop(Some("#C41189"), Parsed::Value(bits(0.0))),
        plain_stop(Some("#00BFFF"), Parsed::Value(bits(0.5))),
        plain_stop(Some("#FFD700"), Parsed::Value(bits(1.0))),
        StopEvent::Close,
    ];
    let result = extract(&events, Some("banana"));
    assert_eq!(result.len(), 1);
    let stops = result[0].normalize().unwrap();
    assert_eq!(
        stops.colors,
        vec![rgba("#c41189"), rgba("#00bfff"), rgba("#ffd700")]
    );
    assert_eq!(stops.positions, vec![bits(0.0), bits(0.5), bits(1.0)]);
}

#[test]
fn missing_attributes_take_their_defaults() {
    let events = vec![
        StopEvent::Open(Some("g4657".into())),
        plain_stop(None, Parsed::Value(bits(0.0))),
        plain_stop(Some("gold"), Parsed::Value(bits(0.7))),
        plain_stop(Some("steelblue"), Parsed::Absent),
        StopEvent::Close,
    ];
    let result = extract(&events, None);
    assert_eq!(
        result[0].colors,
        vec![rgba("#000000"), rgba("gold"), rgba("steelblue")]
    );
    assert_eq!(offsets_of(&result[0]), vec![0.0, 0.7, 0.7]);
    assert_eq!(result[0].colors[0], Rgba::black());
}

#[test]
fn invalid_record_does_not_spoil_its_sibling() {
    let events = vec![
        StopEvent::Open(Some("bad".into())),
        plain_stop(Some("stone"), Parsed::Value(bits(0.0))),
        plain_stop(Some("red"), Parsed::Value(bits(1.0))),
        StopEvent::Close,
        StopEvent::Open(Some("good".into())),
        plain_stop(Some("red"), Parsed::Value(bits(0.0))),
        plain_stop(Some("blue"), Parsed::Value(bits(1.0))),
        StopEvent::Close,
    ];
    let result = extract(&events, None);
    assert_eq!(result.len(), 2);
    assert_eq!(result[0].normalize().unwrap_err(), Rejected::InvalidStop);
    assert_eq!(result[0].colors, vec![Rgba::black(), rgba("red")]);
    assert_eq!(offsets_of(&result[0]), vec![0.0, 1.0]);
    let stops = result[1].normalize().unwrap();
    let gradient = build(&stops);
    assert_eq!(gradient.at(0.0).to_rgba8(), [255, 0, 0, 255]);
    assert_eq!(gradient.at(1.0).to_rgba8(), [0, 0, 255, 255]);
}

#[test]
fn end_to_end_midpoint() {
    let stops = record(&["red", "blue"], &[0.0, 1.0], true)
        .normalize()
        .unwrap();
    let gradient = build(&stops);
    assert_eq!(gradient.at(0.5).to_rgba8(), [128, 0, 128, 255]);
}

#[test]
fn same_identifier_under_both_kinds() {
    let doc = r##"
        <linearGradient id="guava"><stop offset="0.1" stop-color="#f00"/></linearGradient>
        <radialGradient id="guava"><stop offset="35%" stop-color="#abc123"/></radialGradient>
        <linearGradient id="Guava"><stop offset="1" stop-color="#000"/></linearGradient>
    "##;
    let steps = scan(doc).unwrap();
    assert_eq!(steps.len(), 9);
    let events: Vec<StopEvent> = steps
        .into_iter()
        .map(|step| match step {
            TokenEvent::Open(id) => StopEvent::Open(id),
            TokenEvent::Close => StopEvent::Close,
            TokenEvent::Stop(t) => {
                let offset = t.offset.unwrap();
                let value: f32 = offset.text.parse().unwrap();
                plain_stop(
                    t.color.as_deref(),
                    Parsed::Value(bits(if offset.percent { value / 100.0 } else { value })),
                )
            }
        })
        .collect();
    let both = extract(&events, Some("guava"));
    assert_eq!(both.len(), 2);
    assert_eq!(both[0].colors, vec![rgba("#ff0000")]);
    assert_eq!(both[1].colors, vec![rgba("#abc123")]);
    assert_eq!(offsets_of(&both[1]), vec![0.35]);
    assert!(extract(&events, Some("papaya")).is_empty());
    assert_eq!(extract(&events, None).len(), 3);
}

#[test]
fn tags_become_steps() {
    let tag = |name: &str, kind: TagKind, values: Vec<Option<&str>>| {
        MarkupEvent::Tag(Tag {
            name: name.into(),
            kind,
            values: values.into_iter().map(|v| v.map(String::from)).collect(),
        })
    };
    let events = vec![
        MarkupEvent::Other,
        tag("svg", TagKind::Start, vec![Some("root"), None, None, None, None]),
        tag("linearGradient", TagKind::Empty, vec![Some("e")]),
        tag("radialGradient", TagKind::Start, vec![Some("m")]),
        tag(
            "stop",
            TagKind::Empty,
            vec![
                None,
                Some("red"),
                Some("40%"),
                Some(" Stop-Color : blue; stop-opacity:0.5;x:y:z"),
                Some("7"),
            ],
        ),
        tag("stop", TagKind::End, vec![]),
        tag("linearGradient", TagKind::End, vec![]),
        tag("LinearGradient", TagKind::Start, vec![Some("case")]),
    ];
    let steps = tokens_of(&events);
    assert_eq!(steps.len(), 4);
    assert!(matches!(&steps[0], TokenEvent::Open(Some(id)) if id == "m"));
    match &steps[1] {
        TokenEvent::Stop(t) => {
            assert_eq!(t.color.as_deref(), Some("red"));
            assert_eq!(t.style_color.as_deref(), Some(" blue"));
            let opacity = t.opacity.as_ref().unwrap();
            assert_eq!((opacity.text.as_str(), opacity.percent), ("40", true));
            let style_opacity = t.style_opacity.as_ref().unwrap();
            assert_eq!(
                (style_opacity.text.as_str(), style_opacity.percent),
                ("0.5", false)
            );
            let offset = t.offset.as_ref().unwrap();
            assert_eq!((offset.text.as_str(), offset.percent), ("7", false));
        }
        _ => panic!("a stop was expected"),
    }
    match &steps[2] {
        TokenEvent::Stop(t) => {
            assert!(t.color.is_none() && t.offset.is_none() && t.style_opacity.is_none());
        }
        _ => panic!("a stop was expected"),
    }
    assert!(matches!(&steps[3], TokenEvent::Close));
    let percent = number_token("%");
    assert_eq!((percent.text.as_str(), percent.percent), ("", true));
    let double = number_token("5%%");
    assert_eq!((double.text.as_str(), double.percent), ("5%", true));
}

#[test]
fn unreadable_tags_are_passed_over() {
    let doc = r##"<linearGradient id=a><stop offset="0"/></linearGradient>
        <linearGradient id="b"><stop offset="0" bad/><stop offset="1"/></linearGradient>"##;
    let steps = scan(doc).unwrap();
    assert_eq!(steps.len(), 6);
    assert!(matches!(&steps[0], TokenEvent::Stop(_)));
    assert!(matches!(&steps[1], TokenEvent::Close));
    assert!(matches!(&steps[2], TokenEvent::Open(Some(id)) if id == "b"));
    assert!(matches!(&steps[3], TokenEvent::Stop(_)));
    assert!(matches!(&steps[4], TokenEvent::Stop(_)));
    assert!(matches!(&steps[5], TokenEvent::Close));
    assert!(scan("").unwrap().is_empty());
    assert!(scan("<linearGradient").unwrap().is_empty());
}
