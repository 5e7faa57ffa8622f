use gradient::cli::{display_height, display_width, output_mode, preset_index, OutputMode};
use gradient::{
    parse_colors, parse_preset_name, BlendMode, Interpolation, OutputColor, Rgba, PRESET_NAMES,
};

fn hex_of(c: &Rgba) -> String {
    colorgrad::Color::new(
        f32::from_bits(c.r),
        f32::from_bits(c.g),
        f32::from_bits(c.b),
        f32::from_bits(c.a),
    )
    .to_hex_string()
}

#[test]
fn preset_name_test() {
    assert_eq!(parse_preset_name("rainbow"), Ok("rainbow".into()));
    assert_eq!(parse_preset_name("Rainbow"), Ok("rainbow".into()));
    assert_eq!(parse_preset_name("PLASMA"), Ok("plasma".into()));

    assert!(parse_preset_name("sky").is_err());
}

#[test]
fn parse_colors_test() {
    let res = parse_colors("rgb(0,255, 0), #ff0, rgba(100%, 0%, 0%, 100%), blue").unwrap();

    assert_eq!(res.len(), 4);
    assert_eq!(hex_of(&res[0]), "#00ff00");
    assert_eq!(hex_of(&res[1]), "#ffff00");
    assert_eq!(hex_of(&res[2]), "#ff0000");
    assert_eq!(hex_of(&res[3]), "#0000ff");

    assert!(parse_colors("red, rgb(90,20,)").is_err());
}

#[test]
fn parse_colors_keeps_commas_inside_parentheses() {
    let res = parse_colors("hsl(0,100%,50%),red").unwrap();
    assert_eq!(res.len(), 2);
    assert_eq!(hex_of(&res[0]), "#ff0000");
    assert_eq!(res[0], res[1]);
    assert!(parse_colors("").is_err());
    assert!(parse_colors("red,").is_err());
}

#[test]
fn preset_name_error_message() {
    assert_eq!(
        parse_preset_name("sky"),
        Err("invalid preset name, try --list-presets".to_string())
    );
    assert!(parse_preset_name("br_bg").is_err());
    assert_eq!(parse_preset_name("Br-Bg"), Ok("br-bg".to_string()));
}

#[test]
fn preset_index_takes_underscores() {
    assert_eq!(PRESET_NAMES.len(), 38);
    assert_eq!(preset_index("blues"), Some(0));
    assert_eq!(preset_index("Br-Bg"), Some(1));
    assert_eq!(preset_index("br_bg"), Some(1));
    assert_eq!(preset_index("YL_OR_RD"), Some(37));
    assert_eq!(preset_index("sunset"), None);
}

#[test]
fn blend_mode_names() {
    assert_eq!("rgb".parse::<BlendMode>(), Ok(BlendMode::Rgb));
    assert_eq!("Linear-RGB".parse::<BlendMode>(), Ok(BlendMode::LinearRgb));
    assert_eq!("OKLAB".parse::<BlendMode>(), Ok(BlendMode::Oklab));
    assert_eq!("lab".parse::<BlendMode>(), Ok(BlendMode::Lab));
    assert_eq!(BlendMode::from_name("Lab"), None);
    assert_eq!(
        "Hsv".parse::<BlendMode>(),
        Err("Invalid --blend-mode 'Hsv' [pick from: rgb, linear-rgb, oklab, lab]".to_string())
    );
    assert_eq!(BlendMode::or_default(None), BlendMode::Oklab);
    assert_eq!(BlendMode::or_default(Some(BlendMode::Rgb)), BlendMode::Rgb);
}

#[test]
fn interpolation_names() {
    assert_eq!("linear".parse::<Interpolation>(), Ok(Interpolation::Linear));
    assert_eq!("Basis".parse::<Interpolation>(), Ok(Interpolation::Basis));
    assert_eq!(
        "catmull-rom".parse::<Interpolation>(),
        Ok(Interpolation::CatmullRom)
    );
    assert_eq!(
        "cubic".parse::<Interpolation>(),
        Err("Invalid --interpolation 'cubic' [pick from: linear, basis, catmull-rom]".to_string())
    );
    assert_eq!(Interpolation::or_default(None), Interpolation::CatmullRom);
}

#[test]
fn output_color_names() {
    assert_eq!("hex".parse::<OutputColor>(), Ok(OutputColor::Hex));
    assert_eq!("RGB".parse::<OutputColor>(), Ok(OutputColor::Rgb));
    assert_eq!("rgb255".parse::<OutputColor>(), Ok(OutputColor::Rgb255));
    assert_eq!("hsl".parse::<OutputColor>(), Ok(OutputColor::Hsl));
    assert_eq!("hsv".parse::<OutputColor>(), Ok(OutputColor::Hsv));
    assert_eq!("hwb".parse::<OutputColor>(), Ok(OutputColor::Hwb));
    assert_eq!(
        "lab".parse::<OutputColor>(),
        Err("Invalid --format 'lab' [pick from: hex, rgb, rgb255, hsl, hsv, hwb]".to_string())
    );
}

#[test]
fn width_and_height_are_fitted() {
    assert_eq!(display_width(None, None), 80);
    assert_eq!(display_width(None, Some(120)), 120);
    assert_eq!(display_width(Some(5), Some(120)), 10);
    assert_eq!(display_width(Some(500), Some(120)), 120);
    assert_eq!(display_width(Some(5000), None), 1000);
    assert_eq!(display_width(Some(40), Some(8)), 8);
    assert_eq!(display_height(None), 2);
    assert_eq!(display_height(Some(0)), 1);
    assert_eq!(display_height(Some(7)), 7);
    assert_eq!(display_height(Some(51)), 50);
}

#[test]
fn output_mode_prefers_take() {
    assert_eq!(output_mode(true, true), OutputMode::ColorsN);
    assert_eq!(output_mode(false, true), OutputMode::ColorsSample);
    assert_eq!(output_mode(false, false), OutputMode::Gradient);
}
