//! The substitution engine: renders template content by replacing every
//! occurrence of every token spelling with the palette entry, encoded for the
//! template's requested encoding.

use vstd::prelude::*;

use crate::color::spec_encode;
use crate::color::to_color_code;
use crate::color::ColorEncoding;
use crate::palette::ColorScheme;
use crate::strutil::chars_disjoint;
use crate::strutil::has_substring;
use crate::strutil::lemma_replace_absent;
use crate::strutil::lemma_replace_preserves_absence;
use crate::strutil::lemma_replace_removes;
use crate::strutil::replace_all;
use crate::strutil::spec_replace;
use crate::tokens::all_tokens;
use crate::tokens::lemma_spellings_nonempty;
use crate::tokens::spelling;
use crate::tokens::token_list;
use crate::tokens::ColorToken;

verus! {

/// The text a token is replaced with: the raw font family for the non-color
/// token, and the encoded palette color for every other one.
pub open spec fn replacement_view(scheme: ColorScheme, t: ColorToken, e: ColorEncoding) -> Seq<
    char,
> {
    match t {
        ColorToken::FontFamily => scheme.font_family@,
        ColorToken::Black => spec_encode(scheme.black, e),
        ColorToken::LightBlack => spec_encode(scheme.light_black, e),
        ColorToken::DarkGray => spec_encode(scheme.dark_gray, e),
        ColorToken::Gray => spec_encode(scheme.gray, e),
        ColorToken::FaintGray => spec_encode(scheme.faint_gray, e),
        ColorToken::LightGray => spec_encode(scheme.light_gray, e),
        ColorToken::DarkWhite => spec_encode(scheme.dark_white, e),
        ColorToken::White => spec_encode(scheme.white, e),
        ColorToken::Red => spec_encode(scheme.red, e),
        ColorToken::Orange => spec_encode(scheme.orange, e),
        ColorToken::Yellow => spec_encode(scheme.yellow, e),
        ColorToken::Green => spec_encode(scheme.green, e),
        ColorToken::Cyan => spec_encode(scheme.cyan, e),
        ColorToken::Blue => spec_encode(scheme.blue, e),
        ColorToken::Purple => spec_encode(scheme.purple, e),
        ColorToken::Brown => spec_encode(scheme.brown, e),
    }
}

/// The content after the passes for the tokens from position `k` of the
/// vocabulary onward, one non-overlapping left-to-right pass per token.
pub open spec fn spec_render_from(
    content: Seq<char>,
    scheme: ColorScheme,
    e: ColorEncoding,
    k: int,
) -> Seq<char>
    decreases token_list().len() - k,
{
    if k < 0 || k >= token_list().len() {
        content
    } else {
        spec_render_from(
            spec_replace(
                content,
                spelling(token_list()[k]),
                replacement_view(scheme, token_list()[k], e),
            ),
            scheme,
            e,
            k + 1,
        )
    }
}

/// The rendered text: one replacement pass per token, in vocabulary order.
pub open spec fn spec_render(content: Seq<char>, scheme: ColorScheme, e: ColorEncoding) -> Seq<
    char,
> {
    spec_render_from(content, scheme, e, 0)
}

/// The replacement text for one token.
fn scheme_replacement(scheme: &ColorScheme, t: ColorToken, e: ColorEncoding) -> (r: String)
    requires
        scheme.wf(),
    ensures
        r@ == replacement_view(*scheme, t, e),
{
    match t {
        ColorToken::FontFamily => scheme.font_family.clone(),
        ColorToken::Black => to_color_code(&scheme.black, e),
        ColorToken::LightBlack => to_color_code(&scheme.light_black, e),
        ColorToken::DarkGray => to_color_code(&scheme.dark_gray, e),
        ColorToken::Gray => to_color_code(&scheme.gray, e),
        ColorToken::FaintGray => to_color_code(&scheme.faint_gray, e),
        ColorToken::LightGray => to_color_code(&scheme.light_gray, e),
        ColorToken::DarkWhite => to_color_code(&scheme.dark_white, e),
        ColorToken::White => to_color_code(&scheme.white, e),
        ColorToken::Red => to_color_code(&scheme.red, e),
        ColorToken::Orange => to_color_code(&scheme.orange, e),
        ColorToken::Yellow => to_color_code(&scheme.yellow, e),
        ColorToken::Green => to_color_code(&scheme.green, e),
        ColorToken::Cyan => to_color_code(&scheme.cyan, e),
        ColorToken::Blue => to_color_code(&scheme.blue, e),
        ColorToken::Purple => to_color_code(&scheme.purple, e),
        ColorToken::Brown => to_color_code(&scheme.brown, e),
    }
}

/// Renders template content with the palette, one pass per token in
/// vocabulary order, exactly as `spec_render` describes.
pub fn render(content: &str, scheme: &ColorScheme, color_type: ColorEncoding) -> (out: String)
    requires
        scheme.wf(),
    ensures
        out@ == spec_render(content@, *scheme, color_type),
{
    let tokens = all_tokens();
    let mut cur = content.to_owned();
    let mut k: usize = 0;
    while k < tokens.len()
        invariant
            tokens@ == token_list(),
            scheme.wf(),
            0 <= k <= token_list().len(),
            spec_render(content@, *scheme, color_type) == spec_render_from(
                cur@,
                *scheme,
                color_type,
                k as int,
            ),
        decreases token_list().len() - k,
    {
        proof {
            lemma_spellings_nonempty();
        }
        let t = tokens[k];
        let pat = t.to_scheme_token();
        let rep = scheme_replacement(scheme, t, color_type);
        let next = replace_all(cur.as_str(), pat.as_str(), rep.as_str());
        cur = next;
        k += 1;
    }
    cur
}

/// LAW — Rendering is the identity on content in which no token spelling
/// occurs: tokens absent from the content are simply absent from the output.
pub proof fn lemma_render_untouched(content: Seq<char>, scheme: ColorScheme, e: ColorEncoding)
    requires
        forall|t: ColorToken| !has_substring(content, #[trigger] spelling(t)),
    ensures
        spec_render(content, scheme, e) == content,
{
    lemma_render_from_untouched(content, scheme, e, 0);
}

proof fn lemma_render_from_untouched(
    content: Seq<char>,
    scheme: ColorScheme,
    e: ColorEncoding,
    k: int,
)
    requires
        forall|t: ColorToken| !has_substring(content, #[trigger] spelling(t)),
        0 <= k <= token_list().len(),
    ensures
        spec_render_from(content, scheme, e, k) == content,
    decreases token_list().len() - k,
{
    if k < token_list().len() {
        lemma_spellings_nonempty();
        let t = token_list()[k];
        lemma_replace_absent(content, spelling(t), replacement_view(scheme, t, e));
        lemma_render_from_untouched(content, scheme, e, k + 1);
    }
}

/// Replacement texts that keep substitution complete: each is nonempty and
/// shares no character with any token spelling, so no pass can write a new
/// token occurrence into the content.
pub open spec fn replacements_inert(scheme: ColorScheme, e: ColorEncoding) -> bool {
    &&& forall|t1: ColorToken, t2: ColorToken|
        #[trigger] chars_disjoint(spelling(t1), replacement_view(scheme, t2, e))
    &&& forall|t: ColorToken| (#[trigger] replacement_view(scheme, t, e)).len() >= 1
}

/// Every token is a member of the vocabulary sequence.
proof fn lemma_token_index(t: ColorToken)
    ensures
        exists|j: int| 0 <= j < token_list().len() && token_list()[j] == t,
{
    match t {
        ColorToken::FontFamily => assert(token_list()[0] == t),
        ColorToken::Black => assert(token_list()[1] == t),
        ColorToken::LightBlack => assert(token_list()[2] == t),
        ColorToken::DarkGray => assert(token_list()[3] == t),
        ColorToken::Gray => assert(token_list()[4] == t),
        ColorToken::FaintGray => assert(token_list()[5] == t),
        ColorToken::LightGray => assert(token_list()[6] == t),
        ColorToken::DarkWhite => assert(token_list()[7] == t),
        ColorToken::White => assert(token_list()[8] == t),
        ColorToken::Red => assert(token_list()[9] == t),
        ColorToken::Orange => assert(token_list()[10] == t),
        ColorToken::Yellow => assert(token_list()[11] == t),
        ColorToken::Green => assert(token_list()[12] == t),
        ColorToken::Cyan => assert(token_list()[13] == t),
        ColorToken::Blue => assert(token_list()[14] == t),
        ColorToken::Purple => assert(token_list()[15] == t),
        ColorToken::Brown => assert(token_list()[16] == t),
    }
}

proof fn lemma_render_from_preserves(
    content: Seq<char>,
    scheme: ColorScheme,
    e: ColorEncoding,
    k: int,
    p: Seq<char>,
)
    requires
        replacements_inert(scheme, e),
        0 <= k <= token_list().len(),
        p.len() >= 1,
        !has_substring(content, p),
        forall|t: ColorToken| chars_disjoint(p, #[trigger] replacement_view(scheme, t, e)),
    ensures
        !has_substring(spec_render_from(content, scheme, e, k), p),
    decreases token_list().len() - k,
{
    if k < token_list().len() {
        lemma_spellings_nonempty();
        let t = token_list()[k];
        lemma_replace_preserves_absence(content, spelling(t), replacement_view(scheme, t, e), p);
        lemma_render_from_preserves(
            spec_replace(content, spelling(t), replacement_view(scheme, t, e)),
            scheme,
            e,
            k + 1,
            p,
        );
    }
}

proof fn lemma_render_from_complete(
    content: Seq<char>,
    scheme: ColorScheme,
    e: ColorEncoding,
    k: int,
)
    requires
        replacements_inert(scheme, e),
        0 <= k <= token_list().len(),
    ensures
        forall|j: int|
            k <= j < token_list().len() ==> !has_substring(
                spec_render_from(content, scheme, e, k),
                spelling(#[trigger] token_list()[j]),
            ),
    decreases token_list().len() - k,
{
    if k < token_list().len() {
        lemma_spellings_nonempty();
        let t = token_list()[k];
        let c1 = spec_replace(content, spelling(t), replacement_view(scheme, t, e));
        lemma_replace_removes(content, spelling(t), replacement_view(scheme, t, e));
        lemma_render_from_preserves(c1, scheme, e, k + 1, spelling(t));
        lemma_render_from_complete(c1, scheme, e, k + 1);
    }
}

/// LAW — Substitution is complete: when every replacement text is nonempty
/// and shares no character with any token spelling, the rendered output
/// contains no occurrence of any token spelling, whatever the content held.
/// (With replacement texts that themselves contain token characters a later
/// pass can recreate an earlier token, so those palettes are excluded here.)
pub proof fn lemma_render_complete(content: Seq<char>, scheme: ColorScheme, e: ColorEncoding)
    requires
        replacements_inert(scheme, e),
    ensures
        forall|t: ColorToken|
            !has_substring(spec_render(content, scheme, e), #[trigger] spelling(t)),
{
    lemma_render_from_complete(content, scheme, e, 0);
    assert forall|t: ColorToken|
        !has_substring(spec_render(content, scheme, e), #[trigger] spelling(t)) by {
        lemma_token_index(t);
        let j = choose|j: int| 0 <= j < token_list().len() && token_list()[j] == t;
        assert(!has_substring(
            spec_render_from(content, scheme, e, 0),
            spelling(token_list()[j]),
        ));
    }
}

} // verus!
