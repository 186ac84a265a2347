//! Character-level string helpers shared by the encoder, the parser and the
//! substitution engine: substring predicates, and literal non-overlapping
//! left-to-right replacement with the lemmas the engine's laws need.

use vstd::prelude::*;

use vstd::string::StrSliceExecFns;
use vstd::string::StringExecFns;

verus! {

/// Relies on `String::push`: appends exactly one character at the end.
#[verifier::external_body]
pub fn push_char(s: &mut String, c: char)
    ensures
        final(s)@ == old(s)@.push(c),
{
    s.push(c);
}

/// Exact character equality of two strings.
pub fn str_eq(a: &str, b: &str) -> (r: bool)
    ensures
        r == (a@ == b@),
{
    let na = a.unicode_len();
    let nb = b.unicode_len();
    if na != nb {
        return false;
    }
    let mut j: usize = 0;
    while j < na
        invariant
            na == a@.len(),
            na == b@.len(),
            na <= usize::MAX,
            0 <= j <= na,
            forall|k: int| 0 <= k < j ==> a@[k] == b@[k],
        decreases na - j,
    {
        if a.get_char(j) != b.get_char(j) {
            return false;
        }
        j += 1;
    }
    proof {
        assert(a@ =~= b@);
    }
    true
}

/// `s` begins with `p`.
pub open spec fn starts_with(s: Seq<char>, p: Seq<char>) -> bool {
    p.len() <= s.len() && s.subrange(0, p.len() as int) == p
}

/// `p` occurs in `s` at position `i`.
pub open spec fn contains_at(s: Seq<char>, p: Seq<char>, i: int) -> bool {
    0 <= i && i + p.len() <= s.len() && s.subrange(i, i + p.len()) == p
}

/// `p` occurs somewhere in `s`.
pub open spec fn has_substring(s: Seq<char>, p: Seq<char>) -> bool {
    exists|i: int| contains_at(s, p, i)
}

/// No character of `a` occurs in `b`.
pub open spec fn chars_disjoint(a: Seq<char>, b: Seq<char>) -> bool {
    forall|i: int, j: int| 0 <= i < a.len() && 0 <= j < b.len() ==> a[i] != b[j]
}

/// Non-overlapping left-to-right replacement of every occurrence of `pat` in
/// `s` by `rep`; an empty pattern replaces nothing.
pub open spec fn spec_replace(s: Seq<char>, pat: Seq<char>, rep: Seq<char>) -> Seq<char>
    decreases s.len(),
{
    if pat.len() == 0 || s.len() < pat.len() {
        s
    } else if starts_with(s, pat) {
        rep + spec_replace(s.skip(pat.len() as int), pat, rep)
    } else {
        seq![s[0]] + spec_replace(s.skip(1), pat, rep)
    }
}

/// An occurrence in a suffix of `s` is an occurrence in `s`, shifted.
pub proof fn lemma_contains_at_skip(s: Seq<char>, p: Seq<char>, k: int, i: int)
    requires
        0 <= k <= s.len(),
    ensures
        contains_at(s.skip(k), p, i) ==> contains_at(s, p, k + i),
        i >= 0 && contains_at(s, p, k + i) ==> contains_at(s.skip(k), p, i),
{
    if contains_at(s.skip(k), p, i) {
        assert(s.subrange(k + i, k + i + p.len()) =~= s.skip(k).subrange(i, i + p.len()));
    }
    if contains_at(s, p, k + i) && i >= 0 {
        assert(s.skip(k).subrange(i, i + p.len()) =~= s.subrange(k + i, k + i + p.len()));
    }
}

/// A string with no occurrence of `p` keeps that property when a prefix is
/// dropped.
pub proof fn lemma_has_substring_skip(s: Seq<char>, p: Seq<char>, k: int)
    requires
        0 <= k <= s.len(),
        !has_substring(s, p),
    ensures
        !has_substring(s.skip(k), p),
{
    assert forall|i: int| !contains_at(s.skip(k), p, i) by {
        lemma_contains_at_skip(s, p, k, i);
    }
}

/// Exact character comparison of `pat` against `s` at position `i`.
fn match_at(s: &str, i: usize, pat: &str) -> (b: bool)
    requires
        i + pat@.len() <= s@.len(),
        s@.len() <= usize::MAX,
    ensures
        b == contains_at(s@, pat@, i as int),
{
    let m = pat.unicode_len();
    let mut j: usize = 0;
    while j < m
        invariant
            m == pat@.len(),
            i + m <= s@.len() <= usize::MAX,
            0 <= j <= m,
            forall|k: int| 0 <= k < j ==> s@[i + k] == pat@[k],
        decreases m - j,
    {
        if s.get_char(i + j) != pat.get_char(j) {
            assert(s@.subrange(i as int, i + m) != pat@) by {
                assert(s@.subrange(i as int, i + m)[j as int] == s@[i + j]);
            }
            return false;
        }
        j += 1;
    }
    assert(s@.subrange(i as int, i + m) =~= pat@);
    true
}

/// Replaces every occurrence of `pat` in `content` by `rep`, left to right and
/// without overlap, exactly as `spec_replace` describes.
pub fn replace_all(content: &str, pat: &str, rep: &str) -> (out: String)
    requires
        pat@.len() >= 1,
    ensures
        out@ == spec_replace(content@, pat@, rep@),
{
    let n = content.unicode_len();
    let m = pat.unicode_len();
    let mut out = String::new();
    let mut i: usize = 0;
    proof {
        assert(content@.skip(0) =~= content@);
        assert(Seq::<char>::empty() + spec_replace(content@, pat@, rep@) =~= spec_replace(
            content@,
            pat@,
            rep@,
        ));
    }
    while n - i >= m
        invariant
            n == content@.len(),
            m == pat@.len(),
            m >= 1,
            0 <= i <= n,
            spec_replace(content@, pat@, rep@) == out@ + spec_replace(
                content@.skip(i as int),
                pat@,
                rep@,
            ),
        decreases n - i,
    {
        let ghost out0 = out@;
        let ghost i0 = i as int;
        let ghost rest = content@.skip(i0);
        if match_at(content, i, pat) {
            out.append(rep);
            i += m;
            proof {
                assert(rest.subrange(0, m as int) =~= content@.subrange(i0, i0 + m));
                assert(starts_with(rest, pat@));
                assert(rest.skip(m as int) =~= content@.skip(i as int));
                assert(out0 + (rep@ + spec_replace(content@.skip(i as int), pat@, rep@)) =~= out@
                    + spec_replace(content@.skip(i as int), pat@, rep@));
            }
        } else {
            let piece = content.substring_char(i, i + 1);
            out.append(piece);
            i += 1;
            proof {
                assert(!starts_with(rest, pat@)) by {
                    if starts_with(rest, pat@) {
                        assert(content@.subrange(i0, i0 + m) =~= rest.subrange(0, m as int));
                    }
                }
                assert(rest.skip(1) =~= content@.skip(i as int));
                assert(piece@ =~= seq![rest[0]]);
                assert(out0 + (seq![rest[0]] + spec_replace(content@.skip(i as int), pat@, rep@))
                    =~= out@ + spec_replace(content@.skip(i as int), pat@, rep@));
            }
        }
    }
    let tail = content.substring_char(i, n);
    out.append(tail);
    proof {
        assert(content@.skip(i as int) =~= content@.subrange(i as int, n as int));
        assert(spec_replace(content@.skip(i as int), pat@, rep@) == content@.skip(i as int));
    }
    out
}

/// Replacement leaves a string unchanged when the pattern does not occur in
/// it.
pub proof fn lemma_replace_absent(s: Seq<char>, pat: Seq<char>, rep: Seq<char>)
    requires
        pat.len() >= 1,
        !has_substring(s, pat),
    ensures
        spec_replace(s, pat, rep) == s,
    decreases s.len(),
{
    if s.len() < pat.len() {
    } else if starts_with(s, pat) {
        assert(contains_at(s, pat, 0));
    } else {
        lemma_has_substring_skip(s, pat, 1);
        lemma_replace_absent(s.skip(1), pat, rep);
        assert(seq![s[0]] + s.skip(1) =~= s);
    }
}

/// If `c` followed by `r1` begins with `w`, then `c` is `w`'s head and `r1`
/// begins with `w`'s tail.
proof fn lemma_cons_starts_with(r1: Seq<char>, c: char, w: Seq<char>)
    requires
        w.len() >= 1,
        starts_with(seq![c] + r1, w),
    ensures
        c == w[0],
        w.len() == 1 || starts_with(r1, w.skip(1)),
{
    let r = seq![c] + r1;
    assert(w[0] == r.subrange(0, w.len() as int)[0]);
    if w.len() > 1 {
        assert forall|k: int| 0 <= k < w.len() - 1 implies r1.subrange(0, w.len() - 1)[k]
            == w.skip(1)[k] by {
            assert(r1.subrange(0, w.len() - 1)[k] == r1[k]);
            assert(r1[k] == r[k + 1]);
            assert(r[k + 1] == r.subrange(0, w.len() as int)[k + 1]);
        }
        assert(r1.subrange(0, w.len() - 1) =~= w.skip(1));
    }
}

/// A head match and a tail match join to a full prefix match.
proof fn lemma_cons_prefix_join(s: Seq<char>, w: Seq<char>)
    requires
        w.len() >= 1,
        s.len() >= 1,
        s[0] == w[0],
        w.len() == 1 || starts_with(s.skip(1), w.skip(1)),
    ensures
        starts_with(s, w),
{
    assert forall|k: int| 0 <= k < w.len() implies s.subrange(0, w.len() as int)[k] == w[k] by {
        if k > 0 {
            assert(s.skip(1).subrange(0, w.len() - 1)[k - 1] == w.skip(1)[k - 1]);
            assert(s.skip(1).subrange(0, w.len() - 1)[k - 1] == s[k]);
            assert(w.skip(1)[k - 1] == w[k]);
        }
    }
    assert(s.subrange(0, w.len() as int) =~= w);
}

/// An occurrence beyond a leading block lies in the right part of a
/// concatenation.
proof fn lemma_concat_contains_right(a: Seq<char>, b: Seq<char>, p: Seq<char>, i: int)
    requires
        contains_at(a + b, p, i),
        i >= a.len(),
    ensures
        contains_at(b, p, i - a.len()),
{
    assert(b.subrange(i - a.len(), i - a.len() + p.len()) =~= (a + b).subrange(i, i + p.len()));
}

/// If the result of a replacement begins with a string `w` that shares no
/// character with `rep`, then the original string already began with `w`.
pub proof fn lemma_replace_prefix(s: Seq<char>, pat: Seq<char>, rep: Seq<char>, w: Seq<char>)
    requires
        pat.len() >= 1,
        rep.len() >= 1,
        w.len() >= 1,
        chars_disjoint(w, rep),
        starts_with(spec_replace(s, pat, rep), w),
    ensures
        starts_with(s, w),
    decreases s.len(),
{
    let r = spec_replace(s, pat, rep);
    if s.len() < pat.len() {
    } else if starts_with(s, pat) {
        assert(r == rep + spec_replace(s.skip(pat.len() as int), pat, rep));
        assert(r[0] == rep[0]);
        assert(w[0] == r.subrange(0, w.len() as int)[0]);
        assert(false);
    } else {
        let r1 = spec_replace(s.skip(1), pat, rep);
        assert(r == seq![s[0]] + r1);
        lemma_cons_starts_with(r1, s[0], w);
        if w.len() == 1 {
            assert(s.subrange(0, 1) =~= w);
        } else {
            assert(chars_disjoint(w.skip(1), rep));
            lemma_replace_prefix(s.skip(1), pat, rep, w.skip(1));
            lemma_cons_prefix_join(s, w);
        }
    }
}

/// After replacing `pat` by a nonempty `rep` that shares no character with
/// `pat`, the pattern occurs nowhere in the result.
pub proof fn lemma_replace_removes(s: Seq<char>, pat: Seq<char>, rep: Seq<char>)
    requires
        pat.len() >= 1,
        rep.len() >= 1,
        chars_disjoint(pat, rep),
    ensures
        !has_substring(spec_replace(s, pat, rep), pat),
    decreases s.len(),
{
    let r = spec_replace(s, pat, rep);
    if s.len() < pat.len() {
        assert(forall|i: int| !contains_at(r, pat, i));
    } else if starts_with(s, pat) {
        let rest = spec_replace(s.skip(pat.len() as int), pat, rep);
        lemma_replace_removes(s.skip(pat.len() as int), pat, rep);
        assert(r == rep + rest);
        assert forall|i: int| !contains_at(r, pat, i) by {
            if contains_at(r, pat, i) {
                if i < rep.len() {
                    assert(pat[0] == r.subrange(i, i + pat.len())[0]);
                    assert(pat[0] == rep[i]);
                } else {
                    lemma_concat_contains_right(rep, rest, pat, i);
                }
            }
        }
    } else {
        let r1 = spec_replace(s.skip(1), pat, rep);
        lemma_replace_removes(s.skip(1), pat, rep);
        assert(r == seq![s[0]] + r1);
        assert forall|i: int| !contains_at(r, pat, i) by {
            if contains_at(r, pat, i) {
                if i == 0 {
                    lemma_cons_starts_with(r1, s[0], pat);
                    if pat.len() == 1 {
                        assert(s.subrange(0, 1) =~= pat);
                        assert(starts_with(s, pat));
                    } else {
                        assert(chars_disjoint(pat.skip(1), rep));
                        lemma_replace_prefix(s.skip(1), pat, rep, pat.skip(1));
                        lemma_cons_prefix_join(s, pat);
                    }
                } else {
                    lemma_concat_contains_right(seq![s[0]], r1, pat, i);
                }
            }
        }
    }
}

/// Replacing one pattern cannot introduce an occurrence of another string `p`
/// that was absent, as long as the inserted text is nonempty and shares no
/// character with `p`.
pub proof fn lemma_replace_preserves_absence(
    s: Seq<char>,
    pat: Seq<char>,
    rep: Seq<char>,
    p: Seq<char>,
)
    requires
        pat.len() >= 1,
        rep.len() >= 1,
        p.len() >= 1,
        chars_disjoint(p, rep),
        !has_substring(s, p),
    ensures
        !has_substring(spec_replace(s, pat, rep), p),
    decreases s.len(),
{
    let r = spec_replace(s, pat, rep);
    if s.len() < pat.len() {
    } else if starts_with(s, pat) {
        let rest = spec_replace(s.skip(pat.len() as int), pat, rep);
        lemma_has_substring_skip(s, p, pat.len() as int);
        lemma_replace_preserves_absence(s.skip(pat.len() as int), pat, rep, p);
        assert(r == rep + rest);
        assert forall|i: int| !contains_at(r, p, i) by {
            if contains_at(r, p, i) {
                if i < rep.len() {
                    assert(p[0] == r.subrange(i, i + p.len())[0]);
                    assert(p[0] == rep[i]);
                } else {
                    lemma_concat_contains_right(rep, rest, p, i);
                }
            }
        }
    } else {
        let r1 = spec_replace(s.skip(1), pat, rep);
        lemma_has_substring_skip(s, p, 1);
        lemma_replace_preserves_absence(s.skip(1), pat, rep, p);
        assert(r == seq![s[0]] + r1);
        assert forall|i: int| !contains_at(r, p, i) by {
            if contains_at(r, p, i) {
                if i == 0 {
                    lemma_cons_starts_with(r1, s[0], p);
                    if p.len() == 1 {
                        assert(s.subrange(0, 1) =~= p);
                        assert(contains_at(s, p, 0));
                    } else {
                        assert(chars_disjoint(p.skip(1), rep));
                        lemma_replace_prefix(s.skip(1), pat, rep, p.skip(1));
                        lemma_cons_prefix_join(s, p);
                        assert(contains_at(s, p, 0));
                    }
                } else {
                    lemma_concat_contains_right(seq![s[0]], r1, p, i);
                }
            }
        }
    }
}

} // verus!
