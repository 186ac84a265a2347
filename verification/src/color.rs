//! Color values and the color encoder.
//!
//! A color is either a marker-prefixed hexadecimal string taken verbatim from
//! a palette document, or a normalized RGB triple whose channels are exact
//! fractions in `[0, 1]`.  The encoder renders a color as text for one of the
//! recognized encodings.

use vstd::prelude::*;

use crate::strutil::push_char;
use vstd::string::StrSliceExecFns;
use vstd::string::StringExecFns;

verus! {

/// How a color must be rendered into text for one template file.
#[derive(Debug, Clone, Copy, PartialEq, Eq, Structural)]
pub enum ColorEncoding {
    /// Six hex digits, no marker.
    Hex,
    /// Six hex digits plus the fixed fully-opaque alpha suffix `ff`.
    RgbaHex,
}

/// One RGB channel as an exact fraction `num / den` of full intensity.
#[derive(Debug, Clone, Copy, PartialEq, Eq, Structural)]
pub struct Channel {
    pub num: u32,
    pub den: u32,
}

/// A color value: either hexadecimal text with its leading `#` marker, or a
/// normalized RGB triple.
#[derive(Debug)]
pub enum ColorValue {
    HexText { text: String },
    Rgb { r: Channel, g: Channel, b: Channel },
}

/// One palette entry.
#[derive(Debug)]
pub struct Color(pub ColorValue);

impl Channel {
    /// A channel denotes a fraction, so its denominator must be positive.
    pub open spec fn wf(self) -> bool {
        self.den > 0
    }

    /// The channel scaled to `[0, 255]`: multiplied by 255, rounded to the
    /// nearest integer with ties away from zero, then clamped.
    pub open spec fn byte(self) -> int {
        let q = (self.num * 510 + self.den) / (self.den * 2);
        if q > 255 {
            255int
        } else {
            q
        }
    }
}

impl ColorValue {
    /// Hexadecimal text must keep its leading marker; a triple must have
    /// well-formed channels.
    pub open spec fn wf(self) -> bool {
        match self {
            ColorValue::HexText { text } => text@.len() >= 1 && text@[0] == '#',
            ColorValue::Rgb { r, g, b } => r.wf() && g.wf() && b.wf(),
        }
    }
}

impl Color {
    pub open spec fn wf(self) -> bool {
        self.0.wf()
    }
}

/// The uppercase hexadecimal digit for a value below sixteen.
pub open spec fn spec_hex_digit(n: int) -> char {
    if n == 0 {
        '0'
    } else if n == 1 {
        '1'
    } else if n == 2 {
        '2'
    } else if n == 3 {
        '3'
    } else if n == 4 {
        '4'
    } else if n == 5 {
        '5'
    } else if n == 6 {
        '6'
    } else if n == 7 {
        '7'
    } else if n == 8 {
        '8'
    } else if n == 9 {
        '9'
    } else if n == 10 {
        'A'
    } else if n == 11 {
        'B'
    } else if n == 12 {
        'C'
    } else if n == 13 {
        'D'
    } else if n == 14 {
        'E'
    } else {
        'F'
    }
}

/// The two uppercase hex digits of a byte, high digit first.
pub open spec fn spec_byte_hex(n: int) -> Seq<char> {
    seq![spec_hex_digit(n / 16), spec_hex_digit(n % 16)]
}

/// What the encoder returns for a well-formed color: for hexadecimal text the
/// digits after the marker, verbatim; for a triple the three channel bytes as
/// uppercase hex, concatenated R-G-B; `RgbaHex` appends the literal `ff`.
pub open spec fn spec_encode(c: Color, e: ColorEncoding) -> Seq<char> {
    let base = match c.0 {
        ColorValue::HexText { text } => text@.skip(1),
        ColorValue::Rgb { r, g, b } => spec_byte_hex(r.byte()) + spec_byte_hex(g.byte())
            + spec_byte_hex(b.byte()),
    };
    match e {
        ColorEncoding::Hex => base,
        ColorEncoding::RgbaHex => base + seq!['f', 'f'],
    }
}

/// An uppercase hexadecimal digit.
pub open spec fn is_upper_hex_digit(ch: char) -> bool {
    ('0' <= ch && ch <= '9') || ('A' <= ch && ch <= 'F')
}

/// LAW — A color given as the marker plus six uppercase hex digits encodes
/// under `Hex` to exactly those six digits, and under `RgbaHex` to those six
/// digits followed by the literal `ff`.  (The digits pass through verbatim,
/// so "the same digits uppercased" holds of values that are already
/// uppercase; a lowercase value comes back lowercase.)
pub proof fn lemma_encode_hex_digits(c: Color, digits: Seq<char>)
    requires
        digits.len() == 6,
        forall|k: int| 0 <= k < 6 ==> is_upper_hex_digit(#[trigger] digits[k]),
        c.0 matches ColorValue::HexText { text } && text@ == seq!['#'] + digits,
    ensures
        spec_encode(c, ColorEncoding::Hex) == digits,
        spec_encode(c, ColorEncoding::RgbaHex) == digits + seq!['f', 'f'],
{
    assert((seq!['#'] + digits).skip(1) =~= digits);
}

fn hex_digit(n: u8) -> (c: char)
    requires
        n < 16,
    ensures
        c == spec_hex_digit(n as int),
{
    match n {
        0 => '0',
        1 => '1',
        2 => '2',
        3 => '3',
        4 => '4',
        5 => '5',
        6 => '6',
        7 => '7',
        8 => '8',
        9 => '9',
        10 => 'A',
        11 => 'B',
        12 => 'C',
        13 => 'D',
        14 => 'E',
        _ => 'F',
    }
}

/// Appends the two uppercase hex digits of `n` to `out`.
fn push_byte_hex(out: &mut String, n: u8)
    ensures
        final(out)@ == old(out)@ + spec_byte_hex(n as int),
{
    let ghost start = out@;
    let hi = n / 16;
    let lo = n % 16;
    push_char(out, hex_digit(hi));
    push_char(out, hex_digit(lo));
    assert(out@ =~= start + spec_byte_hex(n as int));
}

impl Channel {
    /// The channel scaled by 255, rounded to nearest with ties away from
    /// zero, clamped to `[0, 255]`.
    pub fn to_byte(self) -> (n: u8)
        requires
            self.wf(),
        ensures
            n as int == self.byte(),
    {
        let q: u64 = ((self.num as u64) * 510 + (self.den as u64)) / ((self.den as u64) * 2);
        if q > 255 {
            255
        } else {
            q as u8
        }
    }
}

/// Renders a color as text for the requested encoding: `Hex` gives the six
/// (or however many the palette held) hex digits with the marker stripped, or
/// the uppercase channel codes for a triple; `RgbaHex` appends `ff`.
pub fn to_color_code(color: &Color, color_type: ColorEncoding) -> (code: String)
    requires
        color.wf(),
    ensures
        code@ == spec_encode(*color, color_type),
{
    let mut out = String::new();
    match &color.0 {
        ColorValue::HexText { text } => {
            let n = text.as_str().unicode_len();
            let tail = text.as_str().substring_char(1, n);
            out.append(tail);
        },
        ColorValue::Rgb { r, g, b } => {
            push_byte_hex(&mut out, r.to_byte());
            push_byte_hex(&mut out, g.to_byte());
            push_byte_hex(&mut out, b.to_byte());
        },
    }
    if matches!(color_type, ColorEncoding::RgbaHex) {
        push_char(&mut out, 'f');
        push_char(&mut out, 'f');
    }
    assert(out@ =~= spec_encode(*color, color_type));
    out
}

} // verus!
