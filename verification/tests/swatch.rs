use colorgrad::Color;
use gradient::cli::OutputMode;
use gradient::dispatch::{
    empty_scan, file_kind, gradient_label, record_outcome, select_action, shows_block,
    shows_names, Action, EmptyScan, FileKind, Outcome, Request,
};
use gradient::swatch::DARK_BELOW;
use gradient::{color_to_ansi, display_colors, needs_light_text, OutputColor, Rejected, Swatch};

fn swatch_of(text: &str, color: &str, light_text: bool, first: &Color, second: &Color) -> Swatch {
    Swatch {
        text: text.into(),
        color: color.parse().unwrap(),
        light_text,
        over_first: first.clone(),
        over_second: second.clone(),
    }
}

fn three() -> Vec<Swatch> {
    let dark = Color::new(0.1, 0.1, 0.1, 1.0);
    let light = Color::new(0.2, 0.2, 0.2, 1.0);
    vec![
        swatch_of("#ff0055", "#ff0055", true, &dark, &light),
        swatch_of("#ed7458", "#ed7458", false, &light, &dark),
        swatch_of("#00ff5a", "#00ff5a", false, &dark, &dark),
    ]
}

fn labels() -> [&'static str; 3] {
    [
        "\x1B[38;2;255;255;255;48;2;255;0;85m#ff0055\x1B[39;49m",
        "\x1B[38;2;0;0;0;48;2;237;116;88m#ed7458\x1B[39;49m",
        "\x1B[38;2;0;0;0;48;2;0;255;90m#00ff5a\x1B[39;49m",
    ]
}

#[test]
fn array_is_one_quoted_list() {
    assert_eq!(
        display_colors(&three(), true, true, OutputColor::Hex, 80),
        "[\"#ff0055\", \"#ed7458\", \"#00ff5a\"]\n"
    );
    assert_eq!(
        display_colors(&three(), true, false, OutputColor::Hsl, 0),
        "[\"#ff0055\", \"#ed7458\", \"#00ff5a\"]\n"
    );
    assert_eq!(display_colors(&vec![], true, false, OutputColor::Hex, 80), "[]\n");
    let black = Color::new(0.0, 0.0, 0.0, 1.0);
    let odd = vec![swatch_of("a\"b\\c", "black", true, &black, &black)];
    assert_eq!(
        display_colors(&odd, true, false, OutputColor::Hex, 80),
        "[\"a\\\"b\\\\c\"]\n"
    );
}

#[test]
fn plain_is_one_notation_to_a_line() {
    assert_eq!(
        display_colors(&three(), false, false, OutputColor::Hex, 80),
        "#ff0055\n#ed7458\n#00ff5a\n"
    );
    assert_eq!(display_colors(&vec![], false, false, OutputColor::Rgb, 80), "");
}

#[test]
fn other_notations_get_a_bar_each() {
    let list = three();
    let mut expected = String::new();
    for (s, label) in list.iter().zip(labels()) {
        expected.push_str(&color_to_ansi(&s.over_first, &s.over_second, 7));
        expected.push(' ');
        expected.push_str(label);
        expected.push('\n');
    }
    assert_eq!(
        display_colors(&list, false, true, OutputColor::Rgb, 80),
        expected
    );
    assert!(expected.starts_with(
        "\x1B[38;2;26;26;26;48;2;51;51;51m\u{2580}\x1B[38;2;26;26;26;48;2;51;51;51m\u{2584}"
    ));
}

#[test]
fn hexadecimal_notations_fill_rows() {
    let list = three();
    let bar = |i: usize| color_to_ansi(&list[i].over_first, &list[i].over_second, 7);
    let [a, b, c] = labels();

    let wide = display_colors(&list, false, true, OutputColor::Hex, 80);
    assert_eq!(
        wide,
        format!("{} {} {} \n{a} {b} {c} \n", bar(0), bar(1), bar(2))
    );

    let two = display_colors(&list, false, true, OutputColor::Hex, 15);
    assert_eq!(
        two,
        format!("{} {}\n{a} {b}\n{} \n{c} \n", bar(0), bar(1), bar(2))
    );

    let narrow = display_colors(&list, false, true, OutputColor::Hex, 7);
    assert_eq!(
        narrow,
        format!("{}\n{a}\n{}\n{b}\n{}\n{c}\n", bar(0), bar(1), bar(2))
    );

    let none = display_colors(&list, false, true, OutputColor::Hex, 0);
    assert_eq!(none, narrow);
    assert_eq!(display_colors(&vec![], false, true, OutputColor::Hex, 80), "");
}

#[test]
fn rows_are_measured_in_characters() {
    let grey = Color::new(0.5, 0.5, 0.5, 1.0);
    let list = vec![
        swatch_of("\u{e9}\u{e9}\u{e9}", "white", false, &grey, &grey),
        swatch_of("abc", "white", false, &grey, &grey),
    ];
    let bar = color_to_ansi(&grey, &grey, 3);
    let label = |t: &str| format!("\x1B[38;2;0;0;0;48;2;255;255;255m{t}\x1B[39;49m");

    let both = display_colors(&list, false, true, OutputColor::Hex, 7);
    assert_eq!(
        both,
        format!(
            "{bar} {bar}\n{} {}\n",
            label("\u{e9}\u{e9}\u{e9}"),
            label("abc")
        )
    );
    let apart = display_colors(&list, false, true, OutputColor::Hex, 6);
    assert_eq!(
        apart,
        format!(
            "{bar} \n{} \n{bar} \n{} \n",
            label("\u{e9}\u{e9}\u{e9}"),
            label("abc")
        )
    );
}

#[test]
fn dark_colours_get_white_text() {
    assert_eq!(DARK_BELOW, 0.3f32.to_bits());
    assert!(needs_light_text(0.2126f32.to_bits()));
    assert!(needs_light_text(0.0f32.to_bits()));
    assert!(needs_light_text((-1.0f32).to_bits()));
    assert!(needs_light_text(0.29999f32.to_bits()));
    assert!(!needs_light_text(0.3f32.to_bits()));
    assert!(!needs_light_text(0.7152f32.to_bits()));
    assert!(!needs_light_text(1.0f32.to_bits()));
    assert!(!needs_light_text(f32::NAN.to_bits()));
    for x in [0.0f32, 0.1, 0.2999, 0.3, 0.3001, 0.5, 1.0, f32::INFINITY] {
        assert_eq!(needs_light_text(x.to_bits()), x < 0.3);
    }
}

#[test]
fn refused_records_are_skipped_or_reported() {
    assert_eq!(record_outcome(&Rejected::Empty, false), Outcome::Skip);
    assert_eq!(record_outcome(&Rejected::Empty, true), Outcome::Report);
    assert_eq!(record_outcome(&Rejected::InvalidStop, false), Outcome::Report);
    assert_eq!(record_outcome(&Rejected::InvalidStop, true), Outcome::Report);
    let failed = Rejected::BuildFailed("invalid stops".into());
    assert_eq!(record_outcome(&failed, false), Outcome::Report);
    assert_eq!(record_outcome(&failed, true), Outcome::Report);
}

#[test]
fn blocks_and_names_follow_the_terminal() {
    assert!(shows_block(true));
    assert!(!shows_block(false));
    assert!(shows_names(true, OutputMode::ColorsN));
    assert!(shows_names(true, OutputMode::Gradient));
    assert!(shows_names(false, OutputMode::Gradient));
    assert!(!shows_names(false, OutputMode::ColorsN));
    assert!(!shows_names(false, OutputMode::ColorsSample));
}

#[test]
fn action_follows_the_order_of_the_options() {
    let nothing = Request {
        list_presets: false,
        named_colors: false,
        preset: false,
        custom: false,
        css: false,
        file: false,
    };
    assert_eq!(select_action(nothing), Action::Help);
    assert_eq!(
        select_action(Request { file: true, ..nothing }),
        Action::File
    );
    assert_eq!(
        select_action(Request { file: true, css: true, ..nothing }),
        Action::Custom
    );
    assert_eq!(
        select_action(Request { custom: true, ..nothing }),
        Action::Custom
    );
    assert_eq!(
        select_action(Request { preset: true, custom: true, file: true, ..nothing }),
        Action::Preset
    );
    assert_eq!(
        select_action(Request { named_colors: true, preset: true, ..nothing }),
        Action::NamedColors
    );
    assert_eq!(
        select_action(Request {
            list_presets: true,
            named_colors: true,
            preset: true,
            custom: true,
            css: true,
            file: true
        }),
        Action::ListPresets
    );
}

#[test]
fn files_are_told_apart_by_extension() {
    assert_eq!(file_kind(Some("svg")), FileKind::Svg);
    assert_eq!(file_kind(Some("SVG")), FileKind::Svg);
    assert_eq!(file_kind(Some("Ggr")), FileKind::Ggr);
    assert_eq!(file_kind(Some("toml")), FileKind::Unsupported);
    assert_eq!(file_kind(Some("")), FileKind::Unsupported);
    assert_eq!(file_kind(None), FileKind::Unsupported);
}

#[test]
fn labels_and_empty_documents() {
    assert_eq!(gradient_label(&Some("banana".into())), "#banana");
    assert_eq!(gradient_label(&Some("".into())), "#");
    assert_eq!(gradient_label(&None), "[without id]");
    assert_eq!(empty_scan(0, 0, true), Some(EmptyScan::NothingMatched));
    assert_eq!(empty_scan(0, 0, false), Some(EmptyScan::NoGradients));
    assert_eq!(empty_scan(1, 0, true), None);
    assert_eq!(empty_scan(0, 2, false), None);
}
