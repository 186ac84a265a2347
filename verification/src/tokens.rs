//! The closed token vocabulary: each token's fixed spelling inside template
//! content is the sigil `$` followed by the kebab-cased semantic name.

use vstd::prelude::*;

use vstd::string::StringExecFns;

verus! {

/// The symbolic placeholders recognized inside template content.
#[derive(Debug, Clone, Copy, PartialEq, Eq, Structural)]
pub enum ColorToken {
    FontFamily,
    Black,
    LightBlack,
    DarkGray,
    Gray,
    FaintGray,
    LightGray,
    DarkWhite,
    White,
    Red,
    Orange,
    Yellow,
    Green,
    Cyan,
    Blue,
    Purple,
    Brown,
}

/// The textual spelling of a token inside templates.
pub open spec fn spelling(t: ColorToken) -> Seq<char> {
    match t {
        ColorToken::FontFamily => "$font-family"@,
        ColorToken::Black => "$black"@,
        ColorToken::LightBlack => "$light-black"@,
        ColorToken::DarkGray => "$dark-gray"@,
        ColorToken::Gray => "$gray"@,
        ColorToken::FaintGray => "$faint-gray"@,
        ColorToken::LightGray => "$light-gray"@,
        ColorToken::DarkWhite => "$dark-white"@,
        ColorToken::White => "$white"@,
        ColorToken::Red => "$red"@,
        ColorToken::Orange => "$orange"@,
        ColorToken::Yellow => "$yellow"@,
        ColorToken::Green => "$green"@,
        ColorToken::Cyan => "$cyan"@,
        ColorToken::Blue => "$blue"@,
        ColorToken::Purple => "$purple"@,
        ColorToken::Brown => "$brown"@,
    }
}

/// The whole vocabulary, in substitution order.
pub open spec fn token_list() -> Seq<ColorToken> {
    seq![
        ColorToken::FontFamily,
        ColorToken::Black,
        ColorToken::LightBlack,
        ColorToken::DarkGray,
        ColorToken::Gray,
        ColorToken::FaintGray,
        ColorToken::LightGray,
        ColorToken::DarkWhite,
        ColorToken::White,
        ColorToken::Red,
        ColorToken::Orange,
        ColorToken::Yellow,
        ColorToken::Green,
        ColorToken::Cyan,
        ColorToken::Blue,
        ColorToken::Purple,
        ColorToken::Brown,
    ]
}

/// Every spelling starts with the sigil, so none is empty.
pub proof fn lemma_spellings_nonempty()
    ensures
        forall|t: ColorToken| (#[trigger] spelling(t)).len() >= 1,
{
    reveal_strlit("$font-family");
    reveal_strlit("$black");
    reveal_strlit("$light-black");
    reveal_strlit("$dark-gray");
    reveal_strlit("$gray");
    reveal_strlit("$faint-gray");
    reveal_strlit("$light-gray");
    reveal_strlit("$dark-white");
    reveal_strlit("$white");
    reveal_strlit("$red");
    reveal_strlit("$orange");
    reveal_strlit("$yellow");
    reveal_strlit("$green");
    reveal_strlit("$cyan");
    reveal_strlit("$blue");
    reveal_strlit("$purple");
    reveal_strlit("$brown");
    assert forall|t: ColorToken| (#[trigger] spelling(t)).len() >= 1 by {
        match t {
            ColorToken::FontFamily => assert(spelling(t).len() == 12),
            ColorToken::Black => assert(spelling(t).len() == 6),
            ColorToken::LightBlack => assert(spelling(t).len() == 12),
            ColorToken::DarkGray => assert(spelling(t).len() == 10),
            ColorToken::Gray => assert(spelling(t).len() == 5),
            ColorToken::FaintGray => assert(spelling(t).len() == 11),
            ColorToken::LightGray => assert(spelling(t).len() == 11),
            ColorToken::DarkWhite => assert(spelling(t).len() == 11),
            ColorToken::White => assert(spelling(t).len() == 6),
            ColorToken::Red => assert(spelling(t).len() == 4),
            ColorToken::Orange => assert(spelling(t).len() == 7),
            ColorToken::Yellow => assert(spelling(t).len() == 7),
            ColorToken::Green => assert(spelling(t).len() == 6),
            ColorToken::Cyan => assert(spelling(t).len() == 5),
            ColorToken::Blue => assert(spelling(t).len() == 5),
            ColorToken::Purple => assert(spelling(t).len() == 7),
            ColorToken::Brown => assert(spelling(t).len() == 6),
        }
    }
}

impl ColorToken {
    /// The token's spelling as an owned string.
    pub fn to_scheme_token(&self) -> (r: String)
        ensures
            r@ == spelling(*self),
    {
        match self {
            ColorToken::FontFamily => String::from_str("$font-family"),
            ColorToken::Black => String::from_str("$black"),
            ColorToken::LightBlack => String::from_str("$light-black"),
            ColorToken::DarkGray => String::from_str("$dark-gray"),
            ColorToken::Gray => String::from_str("$gray"),
            ColorToken::FaintGray => String::from_str("$faint-gray"),
            ColorToken::LightGray => String::from_str("$light-gray"),
            ColorToken::DarkWhite => String::from_str("$dark-white"),
            ColorToken::White => String::from_str("$white"),
            ColorToken::Red => String::from_str("$red"),
            ColorToken::Orange => String::from_str("$orange"),
            ColorToken::Yellow => String::from_str("$yellow"),
            ColorToken::Green => String::from_str("$green"),
            ColorToken::Cyan => String::from_str("$cyan"),
            ColorToken::Blue => String::from_str("$blue"),
            ColorToken::Purple => String::from_str("$purple"),
            ColorToken::Brown => String::from_str("$brown"),
        }
    }
}

/// The whole vocabulary as a vector, in substitution order.
pub fn all_tokens() -> (v: Vec<ColorToken>)
    ensures
        v@ == token_list(),
{
    let v = vec![
        ColorToken::FontFamily,
        ColorToken::Black,
        ColorToken::LightBlack,
        ColorToken::DarkGray,
        ColorToken::Gray,
        ColorToken::FaintGray,
        ColorToken::LightGray,
        ColorToken::DarkWhite,
        ColorToken::White,
        ColorToken::Red,
        ColorToken::Orange,
        ColorToken::Yellow,
        ColorToken::Green,
        ColorToken::Cyan,
        ColorToken::Blue,
        ColorToken::Purple,
        ColorToken::Brown,
    ];
    assert(v@ =~= token_list());
    v
}

} // verus!
