use cscheme::color::Channel;
use cscheme::color::Color;
use cscheme::color::ColorEncoding;
use cscheme::color::ColorValue;
use cscheme::color::to_color_code;
use cscheme::palette::builtin_scheme;

fn hex_text(s: &str) -> Color {
    Color(ColorValue::HexText { text: s.to_string() })
}

fn rgb(r: (u32, u32), g: (u32, u32), b: (u32, u32)) -> Color {
    Color(ColorValue::Rgb {
        r: Channel { num: r.0, den: r.1 },
        g: Channel { num: g.0, den: g.1 },
        b: Channel { num: b.0, den: b.1 },
    })
}

#[test]
fn hex_digits_pass_through_uppercase() {
    let c = hex_text("#1A2B3C");
    assert_eq!(to_color_code(&c, ColorEncoding::Hex), "1A2B3C");
    assert_eq!(to_color_code(&c, ColorEncoding::RgbaHex), "1A2B3Cff");
}

#[test]
fn hex_digits_pass_through_verbatim_without_validation() {
    // No case normalization and no digit-count validation for hex text.
    assert_eq!(to_color_code(&hex_text("#abc"), ColorEncoding::Hex), "abc");
    assert_eq!(to_color_code(&hex_text("#"), ColorEncoding::Hex), "");
    assert_eq!(to_color_code(&hex_text("#ffddee"), ColorEncoding::RgbaHex), "ffddeeff");
}

#[test]
fn half_intensity_rounds_away_from_zero() {
    // 0.5 * 255 = 127.5; ties away from zero gives 128 = 0x80.
    let c = rgb((1, 2), (1, 2), (1, 2));
    assert_eq!(to_color_code(&c, ColorEncoding::Hex), "808080");
}

#[test]
fn tenth_intensity_rounds_up_at_half_boundary() {
    // 0.1 * 255 = 25.5; ties away from zero gives 26 = 0x1A.
    let c = rgb((10, 100), (10, 100), (10, 100));
    assert_eq!(to_color_code(&c, ColorEncoding::Hex), "1A1A1A");
}

#[test]
fn exact_thirds_need_no_rounding() {
    // 255 / 3 = 85 = 0x55 and 2 * 255 / 3 = 170 = 0xAA, both exact.
    let c = rgb((1, 3), (2, 3), (0, 1));
    assert_eq!(to_color_code(&c, ColorEncoding::Hex), "55AA00");
}

#[test]
fn full_and_zero_intensity_are_extremes() {
    let c = rgb((1, 1), (0, 1), (1, 1));
    assert_eq!(to_color_code(&c, ColorEncoding::Hex), "FF00FF");
    assert_eq!(to_color_code(&c, ColorEncoding::RgbaHex), "FF00FFff");
}

#[test]
fn channels_above_full_intensity_clamp() {
    let c = rgb((3, 2), (1, 1), (0, 1));
    assert_eq!(to_color_code(&c, ColorEncoding::Hex), "FFFF00");
}

#[test]
fn builtin_gray_sits_on_the_rounding_boundary() {
    // The built-in gray is the exact half triple, so its code shows the
    // ties-away rounding.
    let s = builtin_scheme();
    assert_eq!(to_color_code(&s.gray, ColorEncoding::Hex), "808080");
    assert_eq!(to_color_code(&s.black, ColorEncoding::Hex), "000000");
    assert_eq!(to_color_code(&s.white, ColorEncoding::Hex), "FFFFFF");
    assert_eq!(to_color_code(&s.white, ColorEncoding::RgbaHex), "FFFFFFff");
}
