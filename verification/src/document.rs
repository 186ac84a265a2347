//! The palette document: a flat key/value object, `{ "key": "value", ... }`
//! with kebab-case keys and quoted values, the whitespace of the four usual
//! blank characters allowed between tokens.  Strings carry no escapes: a
//! backslash or a stray quote makes the document malformed.

use vstd::prelude::*;

use crate::errors::SchemeError;
use crate::palette::marked;
use crate::palette::ColorSchemeInput;
use crate::strutil::str_eq;
use vstd::pervasive::unreached;
use vstd::string::StrSliceExecFns;
use vstd::string::StringExecFns;

verus! {

/// Blank characters allowed between document tokens.
pub open spec fn is_ws(c: char) -> bool {
    c == ' ' || c == '\n' || c == '\t' || c == '\r'
}

/// Characters allowed inside a quoted string.
pub open spec fn is_plain_char(c: char) -> bool {
    c != '"' && c != '\\'
}

/// The first position at or after `i` holding no blank character.
pub open spec fn ws_end(s: Seq<char>, i: int) -> int
    decreases s.len() - i,
{
    if i < 0 {
        0
    } else if i >= s.len() {
        s.len() as int
    } else if is_ws(s[i]) {
        ws_end(s, i + 1)
    } else {
        i
    }
}

/// The first position at or after `i` holding a quote or a backslash.
pub open spec fn plain_end(s: Seq<char>, i: int) -> int
    decreases s.len() - i,
{
    if i < 0 {
        0
    } else if i >= s.len() {
        s.len() as int
    } else if is_plain_char(s[i]) {
        plain_end(s, i + 1)
    } else {
        i
    }
}

/// One `"key" : "value"` member starting exactly at `i`: its key, its value,
/// and the position after the value's closing quote.
pub open spec fn spec_parse_pair(s: Seq<char>, i: int) -> Option<(Seq<char>, Seq<char>, int)> {
    if i < 0 || i >= s.len() || s[i] != '"' {
        None
    } else {
        let ke = plain_end(s, i + 1);
        if ke >= s.len() || s[ke] != '"' {
            None
        } else {
            let j = ws_end(s, ke + 1);
            if j >= s.len() || s[j] != ':' {
                None
            } else {
                let k = ws_end(s, j + 1);
                if k >= s.len() || s[k] != '"' {
                    None
                } else {
                    let ve = plain_end(s, k + 1);
                    if ve >= s.len() || s[ve] != '"' {
                        None
                    } else {
                        Some((s.subrange(i + 1, ke), s.subrange(k + 1, ve), ve + 1))
                    }
                }
            }
        }
    }
}

/// The members from position `i` (which must start a member) to the closing
/// brace, which must end the document.
pub open spec fn spec_parse_members(s: Seq<char>, i: int) -> Option<
    Seq<(Seq<char>, Seq<char>)>,
>
    decreases s.len() - i,
{
    match spec_parse_pair(s, i) {
        None => None,
        Some((k, v, n)) => {
            let j = ws_end(s, n);
            if j >= s.len() {
                None
            } else if s[j] == '}' {
                if ws_end(s, j + 1) == s.len() {
                    Some(seq![(k, v)])
                } else {
                    None
                }
            } else if s[j] == ',' {
                let m = ws_end(s, j + 1);
                if m <= i || m > s.len() {
                    None  // unreachable: a member ends past its start
                } else {
                    match spec_parse_members(s, m) {
                        None => None,
                        Some(rest) => Some(seq![(k, v)] + rest),
                    }
                }
            } else {
                None
            }
        },
    }
}

/// The key/value members of a well-formed document, in document order;
/// `None` when the text is not one flat brace-enclosed object.
pub open spec fn spec_parse_doc(s: Seq<char>) -> Option<Seq<(Seq<char>, Seq<char>)>> {
    let i0 = ws_end(s, 0);
    if i0 >= s.len() || s[i0] != '{' {
        None
    } else {
        let i1 = ws_end(s, i0 + 1);
        if i1 < s.len() && s[i1] == '}' {
            if ws_end(s, i1 + 1) == s.len() {
                Some(Seq::empty())
            } else {
                None
            }
        } else {
            spec_parse_members(s, i1)
        }
    }
}

/// The members a vector of owned strings denotes.
pub open spec fn pairs_view(v: Seq<(String, String)>) -> Seq<(Seq<char>, Seq<char>)> {
    v.map_values(|p: (String, String)| (p.0@, p.1@))
}

/// How often `key` occurs among the members.
pub open spec fn key_count_from(pairs: Seq<(Seq<char>, Seq<char>)>, key: Seq<char>, j: int) -> int
    decreases pairs.len() - j,
{
    if j < 0 || j >= pairs.len() {
        0
    } else {
        (if pairs[j].0 == key {
            1int
        } else {
            0int
        }) + key_count_from(pairs, key, j + 1)
    }
}

pub open spec fn key_count(pairs: Seq<(Seq<char>, Seq<char>)>, key: Seq<char>) -> int {
    key_count_from(pairs, key, 0)
}

/// The value of the first member carrying `key`; empty when there is none.
pub open spec fn first_value_from(
    pairs: Seq<(Seq<char>, Seq<char>)>,
    key: Seq<char>,
    j: int,
) -> Seq<char>
    decreases pairs.len() - j,
{
    if j < 0 || j >= pairs.len() {
        Seq::empty()
    } else if pairs[j].0 == key {
        pairs[j].1
    } else {
        first_value_from(pairs, key, j + 1)
    }
}

pub open spec fn first_value(pairs: Seq<(Seq<char>, Seq<char>)>, key: Seq<char>) -> Seq<char> {
    first_value_from(pairs, key, 0)
}

/// Skips blank characters.
fn skip_ws(s: &str, i: usize) -> (r: usize)
    requires
        i <= s@.len(),
    ensures
        r as int == ws_end(s@, i as int),
        i <= r,
        r <= s@.len(),
{
    let n = s.unicode_len();
    let mut j = i;
    while j < n
        invariant
            n == s@.len(),
            n <= usize::MAX,
            i <= j <= n,
            ws_end(s@, i as int) == ws_end(s@, j as int),
        decreases n - j,
    {
        let c = s.get_char(j);
        if !(c == ' ' || c == '\n' || c == '\t' || c == '\r') {
            return j;
        }
        j += 1;
    }
    j
}

/// Scans to the end of a quoted string's plain characters.
fn scan_plain(s: &str, i: usize) -> (r: usize)
    requires
        i <= s@.len(),
    ensures
        r as int == plain_end(s@, i as int),
        i <= r,
        r <= s@.len(),
{
    let n = s.unicode_len();
    let mut j = i;
    while j < n
        invariant
            n == s@.len(),
            n <= usize::MAX,
            i <= j <= n,
            plain_end(s@, i as int) == plain_end(s@, j as int),
        decreases n - j,
    {
        let c = s.get_char(j);
        if c == '"' || c == '\\' {
            return j;
        }
        j += 1;
    }
    j
}

/// Parses one member starting exactly at `i`, as `spec_parse_pair` describes.
fn parse_pair_at(s: &str, i: usize) -> (r: Option<(String, String, usize)>)
    requires
        i <= s@.len(),
    ensures
        match r {
            Some(p) => spec_parse_pair(s@, i as int) == Some((p.0@, p.1@, p.2 as int)) && i < p.2
                <= s@.len(),
            None => spec_parse_pair(s@, i as int) is None,
        },
{
    let n = s.unicode_len();
    if i >= n {
        return None;
    }
    if s.get_char(i) != '"' {
        return None;
    }
    let ke = scan_plain(s, i + 1);
    if ke >= n {
        return None;
    }
    if s.get_char(ke) != '"' {
        return None;
    }
    let j = skip_ws(s, ke + 1);
    if j >= n {
        return None;
    }
    if s.get_char(j) != ':' {
        return None;
    }
    let k = skip_ws(s, j + 1);
    if k >= n {
        return None;
    }
    if s.get_char(k) != '"' {
        return None;
    }
    let ve = scan_plain(s, k + 1);
    if ve >= n {
        return None;
    }
    if s.get_char(ve) != '"' {
        return None;
    }
    let key = s.substring_char(i + 1, ke).to_owned();
    let val = s.substring_char(k + 1, ve).to_owned();
    Some((key, val, ve + 1))
}

/// Parses a whole document into its members, as `spec_parse_doc` describes.
pub fn parse_document_pairs(s: &str) -> (r: Option<Vec<(String, String)>>)
    ensures
        match r {
            Some(v) => spec_parse_doc(s@) == Some(pairs_view(v@)),
            None => spec_parse_doc(s@) is None,
        },
{
    let n = s.unicode_len();
    let i0 = skip_ws(s, 0);
    if i0 >= n {
        return None;
    }
    if s.get_char(i0) != '{' {
        return None;
    }
    let i1 = skip_ws(s, i0 + 1);
    if i1 < n && s.get_char(i1) == '}' {
        let e = skip_ws(s, i1 + 1);
        if e == n {
            let empty: Vec<(String, String)> = Vec::new();
            proof {
                assert(pairs_view(empty@) =~= Seq::<(Seq<char>, Seq<char>)>::empty());
            }
            return Some(empty);
        }
        return None;
    }
    let mut out: Vec<(String, String)> = Vec::new();
    let mut i = i1;
    proof {
        assert(spec_parse_doc(s@) == spec_parse_members(s@, i as int));
    }
    loop
        invariant
            n == s@.len(),
            n <= usize::MAX,
            i <= n,
            (match spec_parse_members(s@, i as int) {
                None => spec_parse_doc(s@) is None,
                Some(rest) => spec_parse_doc(s@) == Some(pairs_view(out@) + rest),
            }),
        decreases n - i,
    {
        let ghost out0 = out@;
        match parse_pair_at(s, i) {
            None => {
                return None;
            },
            Some((key, val, nn)) => {
                let ghost kk = key@;
                let ghost vv = val@;
                out.push((key, val));
                proof {
                    assert(pairs_view(out@) =~= pairs_view(out0) + seq![(kk, vv)]);
                }
                let j = skip_ws(s, nn);
                if j >= n {
                    return None;
                }
                let c = s.get_char(j);
                if c == '}' {
                    let e = skip_ws(s, j + 1);
                    if e == n {
                        proof {
                            assert(spec_parse_members(s@, i as int) == Some(seq![(kk, vv)]));
                            assert(pairs_view(out0) + seq![(kk, vv)] =~= pairs_view(out@));
                        }
                        return Some(out);
                    }
                    return None;
                } else if c == ',' {
                    let m = skip_ws(s, j + 1);
                    proof {
                        assert(m > i);
                        assert(match spec_parse_members(s@, m as int) {
                            None => spec_parse_members(s@, i as int) is None,
                            Some(rest) => spec_parse_members(s@, i as int) == Some(
                                seq![(kk, vv)] + rest,
                            ),
                        });
                        if spec_parse_members(s@, m as int) is Some {
                            let rest = spec_parse_members(s@, m as int)->Some_0;
                            assert(pairs_view(out0) + (seq![(kk, vv)] + rest) =~= pairs_view(out@)
                                + rest);
                        }
                    }
                    i = m;
                } else {
                    return None;
                }
            },
        }
    }
}

/// Counts the members carrying `key` and hands out the first one's value.
fn lookup_value(pairs: &Vec<(String, String)>, key: &str) -> (r: (usize, Option<String>))
    ensures
        r.0 as int == key_count(pairs_view(pairs@), key@),
        match r.1 {
            Some(v) => key_count(pairs_view(pairs@), key@) >= 1 && v@ == first_value(
                pairs_view(pairs@),
                key@,
            ),
            None => key_count(pairs_view(pairs@), key@) == 0,
        },
{
    let ghost ps = pairs_view(pairs@);
    let mut count: usize = 0;
    let mut found: Option<String> = None;
    let mut j: usize = 0;
    while j < pairs.len()
        invariant
            ps == pairs_view(pairs@),
            0 <= j <= pairs@.len(),
            count <= j,
            key_count(ps, key@) == count + key_count_from(ps, key@, j as int),
            (match found {
                None => count == 0 && first_value(ps, key@) == first_value_from(
                    ps,
                    key@,
                    j as int,
                ),
                Some(v) => count >= 1 && v@ == first_value(ps, key@),
            }),
        decreases pairs@.len() - j,
    {
        let hit = str_eq(pairs[j].0.as_str(), key);
        proof {
            assert(ps[j as int].0 == pairs@[j as int].0@);
            assert(ps[j as int].1 == pairs@[j as int].1@);
        }
        if hit {
            count += 1;
            if count == 1 {
                found = Some(pairs[j].1.clone());
            }
        }
        j += 1;
    }
    (count, found)
}

/// The kebab-case name of the first required key, in document order, that is
/// not present exactly once; `None` when every required key is.
pub open spec fn first_bad_count(pairs: Seq<(Seq<char>, Seq<char>)>) -> Option<Seq<char>> {
    if key_count(pairs, "font-family"@) != 1 {
        Some("font-family"@)
    } else if key_count(pairs, "black"@) != 1 {
        Some("black"@)
    } else if key_count(pairs, "light-black"@) != 1 {
        Some("light-black"@)
    } else if key_count(pairs, "dark-gray"@) != 1 {
        Some("dark-gray"@)
    } else if key_count(pairs, "gray"@) != 1 {
        Some("gray"@)
    } else if key_count(pairs, "faint-gray"@) != 1 {
        Some("faint-gray"@)
    } else if key_count(pairs, "light-gray"@) != 1 {
        Some("light-gray"@)
    } else if key_count(pairs, "dark-white"@) != 1 {
        Some("dark-white"@)
    } else if key_count(pairs, "white"@) != 1 {
        Some("white"@)
    } else if key_count(pairs, "red"@) != 1 {
        Some("red"@)
    } else if key_count(pairs, "orange"@) != 1 {
        Some("orange"@)
    } else if key_count(pairs, "yellow"@) != 1 {
        Some("yellow"@)
    } else if key_count(pairs, "green"@) != 1 {
        Some("green"@)
    } else if key_count(pairs, "cyan"@) != 1 {
        Some("cyan"@)
    } else if key_count(pairs, "blue"@) != 1 {
        Some("blue"@)
    } else if key_count(pairs, "purple"@) != 1 {
        Some("purple"@)
    } else if key_count(pairs, "brown"@) != 1 {
        Some("brown"@)
    } else {
        None
    }
}

/// The kebab-case name of the first color key, in document order, whose
/// value in the members lacks the `#` marker; `None` when every color value
/// carries it.
pub open spec fn first_unmarked_value(pairs: Seq<(Seq<char>, Seq<char>)>) -> Option<Seq<char>> {
    if !marked(first_value(pairs, "black"@)) {
        Some("black"@)
    } else if !marked(first_value(pairs, "light-black"@)) {
        Some("light-black"@)
    } else if !marked(first_value(pairs, "dark-gray"@)) {
        Some("dark-gray"@)
    } else if !marked(first_value(pairs, "gray"@)) {
        Some("gray"@)
    } else if !marked(first_value(pairs, "faint-gray"@)) {
        Some("faint-gray"@)
    } else if !marked(first_value(pairs, "light-gray"@)) {
        Some("light-gray"@)
    } else if !marked(first_value(pairs, "dark-white"@)) {
        Some("dark-white"@)
    } else if !marked(first_value(pairs, "white"@)) {
        Some("white"@)
    } else if !marked(first_value(pairs, "red"@)) {
        Some("red"@)
    } else if !marked(first_value(pairs, "orange"@)) {
        Some("orange"@)
    } else if !marked(first_value(pairs, "yellow"@)) {
        Some("yellow"@)
    } else if !marked(first_value(pairs, "green"@)) {
        Some("green"@)
    } else if !marked(first_value(pairs, "cyan"@)) {
        Some("cyan"@)
    } else if !marked(first_value(pairs, "blue"@)) {
        Some("blue"@)
    } else if !marked(first_value(pairs, "purple"@)) {
        Some("purple"@)
    } else if !marked(first_value(pairs, "brown"@)) {
        Some("brown"@)
    } else {
        None
    }
}

/// The raw input the members denote: each required key's value, verbatim.
pub open spec fn input_matches(input: ColorSchemeInput, pairs: Seq<(Seq<char>, Seq<char>)>) -> bool {
    &&& input.font_family@ == first_value(pairs, "font-family"@)
    &&& input.black@ == first_value(pairs, "black"@)
    &&& input.light_black@ == first_value(pairs, "light-black"@)
    &&& input.dark_gray@ == first_value(pairs, "dark-gray"@)
    &&& input.gray@ == first_value(pairs, "gray"@)
    &&& input.faint_gray@ == first_value(pairs, "faint-gray"@)
    &&& input.light_gray@ == first_value(pairs, "light-gray"@)
    &&& input.dark_white@ == first_value(pairs, "dark-white"@)
    &&& input.white@ == first_value(pairs, "white"@)
    &&& input.red@ == first_value(pairs, "red"@)
    &&& input.orange@ == first_value(pairs, "orange"@)
    &&& input.yellow@ == first_value(pairs, "yellow"@)
    &&& input.green@ == first_value(pairs, "green"@)
    &&& input.cyan@ == first_value(pairs, "cyan"@)
    &&& input.blue@ == first_value(pairs, "blue"@)
    &&& input.purple@ == first_value(pairs, "purple"@)
    &&& input.brown@ == first_value(pairs, "brown"@)
}

/// Takes one required key's value out of the members, or reports it bad.
fn take_key(pairs: &Vec<(String, String)>, key: &str) -> (r: Result<String, SchemeError>)
    ensures
        match r {
            Ok(v) => key_count(pairs_view(pairs@), key@) == 1 && v@ == first_value(
                pairs_view(pairs@),
                key@,
            ),
            Err(e) => key_count(pairs_view(pairs@), key@) != 1 && (e matches
                SchemeError::MalformedPalette { detail } && detail@ == key@),
        },
{
    let (count, found) = lookup_value(pairs, key);
    if count != 1 {
        return Err(SchemeError::MalformedPalette { detail: key.to_owned() });
    }
    match found {
        Some(v) => Ok(v),
        None => unreached(),
    }
}

/// Reads the raw palette values out of a document's text: the text must be
/// one flat key/value object holding every required key exactly once.  A
/// syntactically invalid document, or a missing or repeated required key, is
/// a `MalformedPalette` error whose detail names the problem.
pub fn palette_from_document(text: &str) -> (r: Result<ColorSchemeInput, SchemeError>)
    ensures
        match r {
            Ok(input) => spec_parse_doc(text@) matches Some(pairs) && first_bad_count(pairs)
                is None && input_matches(input, pairs),
            Err(e) => match spec_parse_doc(text@) {
                None => e matches SchemeError::MalformedPalette { detail } && detail@
                    == "invalid syntax"@,
                Some(pairs) => first_bad_count(pairs) matches Some(k) && e matches
                    SchemeError::MalformedPalette { detail } && detail@ == k,
            },
        },
{
    let pairs = match parse_document_pairs(text) {
        Some(pairs) => pairs,
        None => {
            return Err(
                SchemeError::MalformedPalette { detail: String::from_str("invalid syntax") },
            );
        },
    };
    let font_family = take_key(&pairs, "font-family")?;
    let black = take_key(&pairs, "black")?;
    let light_black = take_key(&pairs, "light-black")?;
    let dark_gray = take_key(&pairs, "dark-gray")?;
    let gray = take_key(&pairs, "gray")?;
    let faint_gray = take_key(&pairs, "faint-gray")?;
    let light_gray = take_key(&pairs, "light-gray")?;
    let dark_white = take_key(&pairs, "dark-white")?;
    let white = take_key(&pairs, "white")?;
    let red = take_key(&pairs, "red")?;
    let orange = take_key(&pairs, "orange")?;
    let yellow = take_key(&pairs, "yellow")?;
    let green = take_key(&pairs, "green")?;
    let cyan = take_key(&pairs, "cyan")?;
    let blue = take_key(&pairs, "blue")?;
    let purple = take_key(&pairs, "purple")?;
    let brown = take_key(&pairs, "brown")?;
    Ok(
        ColorSchemeInput {
            font_family,
            black,
            light_black,
            dark_gray,
            gray,
            faint_gray,
            light_gray,
            dark_white,
            white,
            red,
            orange,
            yellow,
            green,
            cyan,
            blue,
            purple,
            brown,
        },
    )
}

} // verus!
