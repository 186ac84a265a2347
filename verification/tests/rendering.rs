use cscheme::color::Color;
use cscheme::color::ColorEncoding;
use cscheme::color::ColorValue;
use cscheme::palette::ColorScheme;
use cscheme::render::render;
use cscheme::tokens::ColorToken;

fn hex(s: &str) -> Color {
    Color(ColorValue::HexText { text: s.to_string() })
}

fn scheme() -> ColorScheme {
    ColorScheme {
        font_family: "Fira Sans".to_string(),
        black: hex("#000000"),
        light_black: hex("#111111"),
        dark_gray: hex("#222222"),
        gray: hex("#333333"),
        faint_gray: hex("#444444"),
        light_gray: hex("#555555"),
        dark_white: hex("#666666"),
        white: hex("#777777"),
        red: hex("#AB0012"),
        orange: hex("#884400"),
        yellow: hex("#999900"),
        green: hex("#00AA00"),
        cyan: hex("#00BBBB"),
        blue: hex("#445566"),
        purple: hex("#660066"),
        brown: hex("#553311"),
    }
}

#[test]
fn spellings_carry_the_sigil_and_kebab_names() {
    assert_eq!(ColorToken::FontFamily.to_scheme_token(), "$font-family");
    assert_eq!(ColorToken::Red.to_scheme_token(), "$red");
    assert_eq!(ColorToken::LightBlack.to_scheme_token(), "$light-black");
    assert_eq!(ColorToken::FaintGray.to_scheme_token(), "$faint-gray");
    assert_eq!(ColorToken::DarkWhite.to_scheme_token(), "$dark-white");
}

#[test]
fn content_without_tokens_is_untouched() {
    let content = "no placeholders here; a $ sign alone; $quux is unknown; red alone";
    // Unknown text after the sigil is no token and is left untouched, and
    // the spellings are case-sensitive.
    let content2 = "background = $Red $RED $ red";
    assert_eq!(render(content, &scheme(), ColorEncoding::Hex), content);
    assert_eq!(render(content2, &scheme(), ColorEncoding::Hex), content2);
}

#[test]
fn token_substrings_inside_longer_words_are_still_literal_occurrences() {
    // Substitution is plain literal substring replacement: `$reddish`
    // contains the spelling `$red` and that part is replaced.
    let out = render("$reddish", &scheme(), ColorEncoding::Hex);
    assert_eq!(out, "AB0012dish");
}

#[test]
fn every_occurrence_of_a_present_token_is_replaced() {
    let content = "a $red b $red c $red d";
    let out = render(content, &scheme(), ColorEncoding::Hex);
    assert_eq!(out, "a AB0012 b AB0012 c AB0012 d");
    assert!(!out.contains("$red"));
}

#[test]
fn longer_spellings_are_not_shadowed_by_shorter_ones() {
    let out = render("$light-black/$black/$light-gray/$gray", &scheme(), ColorEncoding::Hex);
    assert_eq!(out, "111111/000000/555555/333333");
}

#[test]
fn rgba_encoding_appends_the_opaque_suffix_everywhere() {
    let out = render("c1: $blue; c2: $green;", &scheme(), ColorEncoding::RgbaHex);
    assert_eq!(out, "c1: 445566ff; c2: 00AA00ff;");
}

#[test]
fn font_family_is_substituted_raw() {
    let out = render("font: $font-family;", &scheme(), ColorEncoding::Hex);
    assert_eq!(out, "font: Fira Sans;");
}

#[test]
fn all_sixteen_color_tokens_resolve() {
    let content = "$black $light-black $dark-gray $gray $faint-gray $light-gray $dark-white \
                   $white $red $orange $yellow $green $cyan $blue $purple $brown";
    let out = render(content, &scheme(), ColorEncoding::Hex);
    assert_eq!(
        out,
        "000000 111111 222222 333333 444444 555555 666666 777777 AB0012 884400 999900 00AA00 \
         00BBBB 445566 660066 553311"
    );
}
