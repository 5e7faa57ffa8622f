use colorgrad::Color;
use gradient::render::named_color_line;
use gradient::{
    Background, block_row, bold, checker_tile, color_to_ansi, format_color, parse_colors, OutputColor, Rgba,
};

#[test]
fn test() {
    let red = Color::new(1.0, 0.0, 0.0, 1.0);
    assert_eq!(format_color(&red, OutputColor::Hex).unwrap(), "#ff0000");
    assert_eq!(format_color(&red, OutputColor::Rgb).unwrap(), "rgb(255 0 0)");
    assert_eq!(format_color(&red, OutputColor::Hsl).unwrap(), "hsl(0 100% 50%)");
    assert_eq!(format_color(&red, OutputColor::Hwb).unwrap(), "hwb(0 0% 0%)");
}

#[test]
fn format_color_leaves_hsv_to_the_caller() {
    let red = Color::new(1.0, 0.0, 0.0, 1.0);
    assert_eq!(format_color(&red, OutputColor::Hsv), None);
    assert_eq!(
        format_color(&red, OutputColor::Rgb255).unwrap(),
        "rgb(255 0 0)"
    );
    let faint = Color::new(0.0, 0.5, 1.0, 0.5);
    assert_eq!(format_color(&faint, OutputColor::Hex).unwrap(), "#0080ff80");
    assert_eq!(
        format_color(&faint, OutputColor::Rgb).unwrap(),
        "rgb(0 128 255 / 50%)"
    );
}

#[test]
fn bold_wraps_the_text() {
    assert_eq!(bold("INFO:"), "\x1B[1mINFO:\x1B[0m");
    assert_eq!(bold(""), "\x1B[1m\x1B[0m");
}

#[test]
fn bar_alternates_half_blocks() {
    let a = Color::new(1.0, 0.0, 0.0, 1.0);
    let b = Color::new(0.0, 0.2, 1.0, 1.0);
    assert_eq!(color_to_ansi(&a, &b, 0), "\x1B[39;49m");
    assert_eq!(
        color_to_ansi(&a, &b, 3),
        "\x1B[38;2;255;0;0;48;2;0;51;255m\u{2580}\
         \x1B[38;2;255;0;0;48;2;0;51;255m\u{2584}\
         \x1B[38;2;255;0;0;48;2;0;51;255m\u{2580}\x1B[39;49m"
    );
}

#[test]
fn row_pairs_the_samples() {
    let a = Color::new(1.0, 0.0, 0.0, 1.0);
    let b = Color::new(0.0, 1.0, 0.0, 1.0);
    let c = Color::new(0.0, 0.0, 1.0, 1.0);
    assert_eq!(block_row(&vec![]), "\x1B[39;49m\n");
    assert_eq!(
        block_row(&vec![a.clone(), b.clone(), c.clone(), a.clone(), b.clone()]),
        "\x1B[38;2;255;0;0;48;2;0;255;0m\u{258C}\
         \x1B[38;2;0;0;255;48;2;255;0;0m\u{258C}\x1B[39;49m\n"
    );
}

#[test]
fn checkerboard_parity() {
    assert_eq!(checker_tile(0, 0), 0);
    assert_eq!(checker_tile(2, 0), 1);
    assert_eq!(checker_tile(0, 1), 1);
    assert_eq!(checker_tile(2, 1), 0);
    for y in 0..2usize {
        for x in 0..4usize {
            assert_eq!(checker_tile(x, y), ((x / 2) & 1) ^ (y & 1));
        }
    }
    assert_eq!(checker_tile(1, 0), 0);
    assert_eq!(checker_tile(3, 0), 1);
    assert_eq!(checker_tile(4, 0), 0);
    assert_eq!(checker_tile(usize::MAX, usize::MAX), 0);

    let a = Color::new(0.05, 0.05, 0.05, 1.0);
    let b = Color::new(0.2, 0.2, 0.2, 1.0);
    let board = Background::Checkerboard(a.clone(), b.clone());
    assert_eq!(board.at(0, 0), &a);
    assert_eq!(board.at(2, 0), &b);
    assert_eq!(board.at(0, 1), &b);
    assert_eq!(board.at(2, 1), &a);
    let solid = Background::Solid(b.clone());
    for y in 0..2usize {
        for x in 0..4usize {
            assert_eq!(solid.at(x, y), &b);
        }
    }
}

#[test]
fn named_colour_line() {
    assert_eq!(
        named_color_line("gold", 255, 215, 0),
        "\x1B[48;2;255;215;0m   \x1B[49;38;2;255;215;0m #ffd700\x1B[39m gold"
    );
    assert_eq!(
        named_color_line("x", 1, 10, 171),
        "\x1B[48;2;1;10;171m   \x1B[49;38;2;1;10;171m #010aab\x1B[39m x"
    );
}

#[test]
fn channels_of_a_colour() {
    let parsed = parse_colors("rgb(100% 0% 50% / 25%)").unwrap();
    let c = "rgb(100% 0% 50% / 25%)".parse::<Color>().unwrap();
    assert_eq!(
        parsed,
        vec![Rgba {
            r: c.r.to_bits(),
            g: c.g.to_bits(),
            b: c.b.to_bits(),
            a: c.a.to_bits()
        }]
    );
    assert_eq!(parsed[0].r, 1.0f32.to_bits());
    assert_eq!(parsed[0].a, 0.25f32.to_bits());
    let black = Rgba {
        r: 0.0f32.to_bits(),
        g: 0.0f32.to_bits(),
        b: 0.0f32.to_bits(),
        a: 1.0f32.to_bits(),
    };
    assert_eq!(Rgba::black(), black);
    assert_eq!(Rgba::black().with_opacity(2.5f32.to_bits()), black);
    assert_eq!(
        Rgba::black().with_opacity((-1.0f32).to_bits()).a,
        0.0f32.to_bits()
    );
    assert_eq!(
        Rgba::black().with_opacity(0.3f32.to_bits()).a,
        0.3f32.to_bits()
    );
}
