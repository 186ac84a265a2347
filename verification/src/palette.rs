//! The palette: the closed set of named colors (plus the free-text font
//! family) that one run applies to every template.

use vstd::prelude::*;

use crate::color::Channel;
use crate::color::Color;
use crate::color::ColorValue;
use crate::errors::SchemeError;
use vstd::string::StringExecFns;

verus! {

/// The raw values of a palette document, one string per required key, before
/// the color values are validated.
#[derive(Debug)]
pub struct ColorSchemeInput {
    pub font_family: String,
    pub black: String,
    pub light_black: String,
    pub dark_gray: String,
    pub gray: String,
    pub faint_gray: String,
    pub light_gray: String,
    pub dark_white: String,
    pub white: String,
    pub red: String,
    pub orange: String,
    pub yellow: String,
    pub green: String,
    pub cyan: String,
    pub blue: String,
    pub purple: String,
    pub brown: String,
}

/// The validated palette applied to every template of a run.
#[derive(Debug)]
pub struct ColorScheme {
    pub font_family: String,
    pub black: Color,
    pub light_black: Color,
    pub dark_gray: Color,
    pub gray: Color,
    pub faint_gray: Color,
    pub light_gray: Color,
    pub dark_white: Color,
    pub white: Color,
    pub red: Color,
    pub orange: Color,
    pub yellow: Color,
    pub green: Color,
    pub cyan: Color,
    pub blue: Color,
    pub purple: Color,
    pub brown: Color,
}

impl ColorScheme {
    pub open spec fn wf(self) -> bool {
        &&& self.black.wf()
        &&& self.light_black.wf()
        &&& self.dark_gray.wf()
        &&& self.gray.wf()
        &&& self.faint_gray.wf()
        &&& self.light_gray.wf()
        &&& self.dark_white.wf()
        &&& self.white.wf()
        &&& self.red.wf()
        &&& self.orange.wf()
        &&& self.yellow.wf()
        &&& self.green.wf()
        &&& self.cyan.wf()
        &&& self.blue.wf()
        &&& self.purple.wf()
        &&& self.brown.wf()
    }
}

/// A color value carries the required leading marker.
pub open spec fn marked(s: Seq<char>) -> bool {
    s.len() >= 1 && s[0] == '#'
}

/// The entry is hexadecimal text with exactly the given characters.
pub open spec fn is_hex_color(c: Color, s: Seq<char>) -> bool {
    c.0 matches ColorValue::HexText { text } && text@ == s
}

/// The kebab-case name of the first color key, in document order, whose value
/// lacks the `#` marker; `None` when every color value carries it.
pub open spec fn first_unmarked_key(input: ColorSchemeInput) -> Option<Seq<char>> {
    if !marked(input.black@) {
        Some("black"@)
    } else if !marked(input.light_black@) {
        Some("light-black"@)
    } else if !marked(input.dark_gray@) {
        Some("dark-gray"@)
    } else if !marked(input.gray@) {
        Some("gray"@)
    } else if !marked(input.faint_gray@) {
        Some("faint-gray"@)
    } else if !marked(input.light_gray@) {
        Some("light-gray"@)
    } else if !marked(input.dark_white@) {
        Some("dark-white"@)
    } else if !marked(input.white@) {
        Some("white"@)
    } else if !marked(input.red@) {
        Some("red"@)
    } else if !marked(input.orange@) {
        Some("orange"@)
    } else if !marked(input.yellow@) {
        Some("yellow"@)
    } else if !marked(input.green@) {
        Some("green"@)
    } else if !marked(input.cyan@) {
        Some("cyan"@)
    } else if !marked(input.blue@) {
        Some("blue"@)
    } else if !marked(input.purple@) {
        Some("purple"@)
    } else if !marked(input.brown@) {
        Some("brown"@)
    } else {
        None
    }
}

/// Tests one raw value for the leading marker.
fn check_marked(s: &String) -> (b: bool)
    ensures
        b == marked(s@),
{
    if s.as_str().unicode_len() == 0 {
        false
    } else {
        s.as_str().get_char(0) == '#'
    }
}

impl ColorSchemeInput {
    /// Converts the raw document values into a validated palette.  Every
    /// color value must carry the leading `#` marker; the first one that does
    /// not names the key of the `MalformedColorValue` error.  The font family
    /// is free text and is taken as is.
    pub fn parse(self) -> (r: Result<ColorScheme, SchemeError>)
        ensures
            match r {
                Ok(scheme) => {
                    &&& first_unmarked_key(self) is None
                    &&& scheme.wf()
                    &&& scheme.font_family@ == self.font_family@
                    &&& is_hex_color(scheme.black, self.black@)
                    &&& is_hex_color(scheme.light_black, self.light_black@)
                    &&& is_hex_color(scheme.dark_gray, self.dark_gray@)
                    &&& is_hex_color(scheme.gray, self.gray@)
                    &&& is_hex_color(scheme.faint_gray, self.faint_gray@)
                    &&& is_hex_color(scheme.light_gray, self.light_gray@)
                    &&& is_hex_color(scheme.dark_white, self.dark_white@)
                    &&& is_hex_color(scheme.white, self.white@)
                    &&& is_hex_color(scheme.red, self.red@)
                    &&& is_hex_color(scheme.orange, self.orange@)
                    &&& is_hex_color(scheme.yellow, self.yellow@)
                    &&& is_hex_color(scheme.green, self.green@)
                    &&& is_hex_color(scheme.cyan, self.cyan@)
                    &&& is_hex_color(scheme.blue, self.blue@)
                    &&& is_hex_color(scheme.purple, self.purple@)
                    &&& is_hex_color(scheme.brown, self.brown@)
                },
                Err(e) => e matches SchemeError::MalformedColorValue { key } && Some(key@)
                    == first_unmarked_key(self),
            },
    {
        if !check_marked(&self.black) {
            return Err(SchemeError::MalformedColorValue { key: String::from_str("black") });
        }
        if !check_marked(&self.light_black) {
            return Err(SchemeError::MalformedColorValue { key: String::from_str("light-black") });
        }
        if !check_marked(&self.dark_gray) {
            return Err(SchemeError::MalformedColorValue { key: String::from_str("dark-gray") });
        }
        if !check_marked(&self.gray) {
            return Err(SchemeError::MalformedColorValue { key: String::from_str("gray") });
        }
        if !check_marked(&self.faint_gray) {
            return Err(SchemeError::MalformedColorValue { key: String::from_str("faint-gray") });
        }
        if !check_marked(&self.light_gray) {
            return Err(SchemeError::MalformedColorValue { key: String::from_str("light-gray") });
        }
        if !check_marked(&self.dark_white) {
            return Err(SchemeError::MalformedColorValue { key: String::from_str("dark-white") });
        }
        if !check_marked(&self.white) {
            return Err(SchemeError::MalformedColorValue { key: String::from_str("white") });
        }
        if !check_marked(&self.red) {
            return Err(SchemeError::MalformedColorValue { key: String::from_str("red") });
        }
        if !check_marked(&self.orange) {
            return Err(SchemeError::MalformedColorValue { key: String::from_str("orange") });
        }
        if !check_marked(&self.yellow) {
            return Err(SchemeError::MalformedColorValue { key: String::from_str("yellow") });
        }
        if !check_marked(&self.green) {
            return Err(SchemeError::MalformedColorValue { key: String::from_str("green") });
        }
        if !check_marked(&self.cyan) {
            return Err(SchemeError::MalformedColorValue { key: String::from_str("cyan") });
        }
        if !check_marked(&self.blue) {
            return Err(SchemeError::MalformedColorValue { key: String::from_str("blue") });
        }
        if !check_marked(&self.purple) {
            return Err(SchemeError::MalformedColorValue { key: String::from_str("purple") });
        }
        if !check_marked(&self.brown) {
            return Err(SchemeError::MalformedColorValue { key: String::from_str("brown") });
        }
        Ok(
            ColorScheme {
                font_family: self.font_family,
                black: Color(ColorValue::HexText { text: self.black }),
                light_black: Color(ColorValue::HexText { text: self.light_black }),
                dark_gray: Color(ColorValue::HexText { text: self.dark_gray }),
                gray: Color(ColorValue::HexText { text: self.gray }),
                faint_gray: Color(ColorValue::HexText { text: self.faint_gray }),
                light_gray: Color(ColorValue::HexText { text: self.light_gray }),
                dark_white: Color(ColorValue::HexText { text: self.dark_white }),
                white: Color(ColorValue::HexText { text: self.white }),
                red: Color(ColorValue::HexText { text: self.red }),
                orange: Color(ColorValue::HexText { text: self.orange }),
                yellow: Color(ColorValue::HexText { text: self.yellow }),
                green: Color(ColorValue::HexText { text: self.green }),
                cyan: Color(ColorValue::HexText { text: self.cyan }),
                blue: Color(ColorValue::HexText { text: self.blue }),
                purple: Color(ColorValue::HexText { text: self.purple }),
                brown: Color(ColorValue::HexText { text: self.brown }),
            },
        )
    }
}

/// A gray channel of the given percentage.
fn pct(n: u32) -> (c: Channel)
    ensures
        c == (Channel { num: n, den: 100 }),
        c.wf(),
{
    Channel { num: n, den: 100 }
}

/// One built-in color from channel percentages.
fn rgb_pct(r: u32, g: u32, b: u32) -> (c: Color)
    ensures
        c.0 == (ColorValue::Rgb { r: Channel { num: r, den: 100 }, g: Channel { num: g, den: 100 }, b: Channel { num: b, den: 100 } }),
        c.wf(),
{
    Color(ColorValue::Rgb { r: pct(r), g: pct(g), b: pct(b) })
}

/// The channels of the built-in color for each key, as percentages.
pub open spec fn builtin_channels(key: int) -> (int, int, int) {
    if key == 0 {
        (0, 0, 0)  // black
    } else if key == 1 {
        (20, 20, 20)  // light-black
    } else if key == 2 {
        (35, 35, 35)  // dark-gray
    } else if key == 3 {
        (50, 50, 50)  // gray
    } else if key == 4 {
        (65, 65, 65)  // faint-gray
    } else if key == 5 {
        (75, 75, 75)  // light-gray
    } else if key == 6 {
        (90, 90, 90)  // dark-white
    } else if key == 7 {
        (100, 100, 100)  // white
    } else if key == 8 {
        (80, 20, 20)  // red
    } else if key == 9 {
        (90, 55, 10)  // orange
    } else if key == 10 {
        (95, 85, 20)  // yellow
    } else if key == 11 {
        (25, 65, 30)  // green
    } else if key == 12 {
        (15, 70, 75)  // cyan
    } else if key == 13 {
        (25, 45, 85)  // blue
    } else if key == 14 {
        (55, 30, 70)  // purple
    } else {
        (55, 40, 25)  // brown
    }
}

/// The color a built-in palette entry must hold.
pub open spec fn is_builtin_color(c: Color, key: int) -> bool {
    c.0 == (ColorValue::Rgb {
        r: Channel { num: builtin_channels(key).0 as u32, den: 100 },
        g: Channel { num: builtin_channels(key).1 as u32, den: 100 },
        b: Channel { num: builtin_channels(key).2 as u32, den: 100 },
    })
}

/// What the built-in palette holds.
pub open spec fn is_builtin_scheme(s: ColorScheme) -> bool {
    &&& s.wf()
    &&& s.font_family@ == "monospace"@
    &&& is_builtin_color(s.black, 0)
    &&& is_builtin_color(s.light_black, 1)
    &&& is_builtin_color(s.dark_gray, 2)
    &&& is_builtin_color(s.gray, 3)
    &&& is_builtin_color(s.faint_gray, 4)
    &&& is_builtin_color(s.light_gray, 5)
    &&& is_builtin_color(s.dark_white, 6)
    &&& is_builtin_color(s.white, 7)
    &&& is_builtin_color(s.red, 8)
    &&& is_builtin_color(s.orange, 9)
    &&& is_builtin_color(s.yellow, 10)
    &&& is_builtin_color(s.green, 11)
    &&& is_builtin_color(s.cyan, 12)
    &&& is_builtin_color(s.blue, 13)
    &&& is_builtin_color(s.purple, 14)
    &&& is_builtin_color(s.brown, 15)
}

/// The fixed built-in palette, used when no palette document is supplied.
/// Its colors are exact fractions of full intensity; this path cannot fail.
pub fn builtin_scheme() -> (s: ColorScheme)
    ensures
        is_builtin_scheme(s),
{
    ColorScheme {
        font_family: String::from_str("monospace"),
        black: rgb_pct(0, 0, 0),
        light_black: rgb_pct(20, 20, 20),
        dark_gray: rgb_pct(35, 35, 35),
        gray: rgb_pct(50, 50, 50),
        faint_gray: rgb_pct(65, 65, 65),
        light_gray: rgb_pct(75, 75, 75),
        dark_white: rgb_pct(90, 90, 90),
        white: rgb_pct(100, 100, 100),
        red: rgb_pct(80, 20, 20),
        orange: rgb_pct(90, 55, 10),
        yellow: rgb_pct(95, 85, 20),
        green: rgb_pct(25, 65, 30),
        cyan: rgb_pct(15, 70, 75),
        blue: rgb_pct(25, 45, 85),
        purple: rgb_pct(55, 30, 70),
        brown: rgb_pct(55, 40, 25),
    }
}

} // verus!
