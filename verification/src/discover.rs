//! Template discovery: a file is a template iff its path ends with the
//! literal suffix `.cscheme`; the path segment between the last two dots
//! before that suffix names the encoding, and the output path is the source
//! path with both trailing suffixes removed.

use vstd::prelude::*;

use crate::color::ColorEncoding;
use crate::errors::SchemeError;
use crate::strutil::str_eq;
use vstd::string::StrSliceExecFns;
use vstd::string::StringExecFns;

verus! {

/// `s` ends with `suffix`.
pub open spec fn ends_with(s: Seq<char>, suffix: Seq<char>) -> bool {
    suffix.len() <= s.len() && s.subrange(s.len() - suffix.len(), s.len() as int) == suffix
}

/// The path names a template file.
pub open spec fn is_template_path(s: Seq<char>) -> bool {
    ends_with(s, ".cscheme"@)
}

/// Relies on `regex::Regex::is_match` with the pattern `\.cscheme$`: the
/// escaped dot is literal and, with multi-line mode off (the default), `$`
/// matches only at the end of the haystack, so the pattern matches iff the
/// path ends with the literal suffix `.cscheme`.  `Regex::new` cannot fail on
/// this fixed well-formed pattern.
#[verifier::external_body]
fn path_has_template_suffix(path: &str) -> (r: bool)
    ensures
        r == is_template_path(path@),
{
    let re = regex::Regex::new(r"\.cscheme$").unwrap();
    re.is_match(path)
}

/// Whether a walked path names a template file.
pub fn is_template(path: &String) -> (r: bool)
    ensures
        r == is_template_path(path@),
{
    path_has_template_suffix(path.as_str())
}

/// The position of the last dot of `s`, or `-1` when it has none.
pub open spec fn last_dot(s: Seq<char>) -> int
    decreases s.len(),
{
    if s.len() == 0 {
        -1
    } else if s[s.len() - 1] == '.' {
        s.len() - 1
    } else {
        last_dot(s.take(s.len() - 1))
    }
}

/// What the naming convention derives from a path: the output path (the
/// source path with `.<tag>.cscheme` removed) and the encoding the tag
/// names; `None` when the path is no template, carries no inner tag, or
/// carries an unrecognized one.
pub open spec fn spec_parse_template_name(s: Seq<char>) -> Option<(Seq<char>, ColorEncoding)> {
    if !is_template_path(s) {
        None
    } else {
        let core = s.subrange(0, s.len() - 8);
        let d = last_dot(core);
        if d < 0 {
            None
        } else {
            let tag = core.subrange(d + 1, core.len() as int);
            if tag == "hex"@ {
                Some((core.subrange(0, d), ColorEncoding::Hex))
            } else if tag == "rrggbbaa"@ {
                Some((core.subrange(0, d), ColorEncoding::RgbaHex))
            } else {
                None
            }
        }
    }
}

/// The position after the last dot of `s@.subrange(0, end)`, or `0` when
/// that prefix has none.
fn find_after_last_dot(s: &str, end: usize) -> (r: usize)
    requires
        end <= s@.len(),
    ensures
        r as int == last_dot(s@.subrange(0, end as int)) + 1,
        r <= end,
{
    let ghost core = s@.subrange(0, end as int);
    let mut j = end;
    proof {
        assert(core.take(end as int) =~= core);
    }
    while j > 0
        invariant
            end <= s@.len(),
            core == s@.subrange(0, end as int),
            0 <= j <= end,
            last_dot(core) == last_dot(core.take(j as int)),
        decreases j,
    {
        let c = s.get_char(j - 1);
        proof {
            assert(core.take(j as int)[j - 1] == s@[j - 1]);
        }
        if c == '.' {
            return j;
        }
        proof {
            assert(core.take(j as int).take(j - 1) =~= core.take(j - 1));
        }
        j -= 1;
    }
    proof {
        assert(core.take(0) =~= Seq::<char>::empty());
    }
    0
}

/// Derives a template's output path and encoding from its path, exactly as
/// `spec_parse_template_name` describes; any path the convention does not
/// cover is a fatal `MissingColorType` error naming that path.
pub fn parse_template_name(path: &str) -> (r: Result<(String, ColorEncoding), SchemeError>)
    ensures
        match r {
            Ok(p) => spec_parse_template_name(path@) == Some((p.0@, p.1)),
            Err(e) => spec_parse_template_name(path@) is None && (e matches
                SchemeError::MissingColorType { path: q } && q@ == path@),
        },
{
    if !path_has_template_suffix(path) {
        return Err(SchemeError::MissingColorType { path: path.to_owned() });
    }
    let n = path.unicode_len();
    proof {
        reveal_strlit(".cscheme");
        assert(path@.len() >= 8);
    }
    let core_len = n - 8;
    let ghost core = path@.subrange(0, core_len as int);
    let after = find_after_last_dot(path, core_len);
    if after == 0 {
        return Err(SchemeError::MissingColorType { path: path.to_owned() });
    }
    let tag = path.substring_char(after, core_len);
    proof {
        assert(tag@ =~= core.subrange(after as int, core_len as int));
    }
    let enc = if str_eq(tag, "hex") {
        ColorEncoding::Hex
    } else if str_eq(tag, "rrggbbaa") {
        ColorEncoding::RgbaHex
    } else {
        return Err(SchemeError::MissingColorType { path: path.to_owned() });
    };
    let out = path.substring_char(0, after - 1).to_owned();
    proof {
        assert(out@ =~= core.subrange(0, after - 1));
    }
    Ok((out, enc))
}

} // verus!
