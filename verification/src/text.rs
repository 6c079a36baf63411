//! Cell-text normalization.
//!
//! A cell fetched from the spreadsheet may carry HTML anchor markup,
//! non-breaking-space entities, and platform-specific line breaks. Before a
//! cell is used in a message, anchors are unwrapped (the link target kept,
//! separated by a space), `&nbsp;` becomes a plain space, and CR/CRLF line
//! breaks are normalized to a single LF. Nothing is trimmed: whitespace inside
//! the cell is preserved.

use vstd::prelude::*;

verus! {

/// Replacement of every occurrence of `pat` in `s` by `rep`, scanning left to
/// right without revisiting replaced text, exactly as `str::replace` does for
/// a non-empty pattern. An empty pattern leaves `s` unchanged.
pub open spec fn spec_replace(s: Seq<char>, pat: Seq<char>, rep: Seq<char>) -> Seq<char>
    decreases s.len(),
{
    if pat.len() == 0 || s.len() < pat.len() {
        s
    } else if s.subrange(0, pat.len() as int) == pat {
        rep + spec_replace(s.subrange(pat.len() as int, s.len() as int), pat, rep)
    } else {
        seq![s[0]] + spec_replace(s.subrange(1, s.len() as int), pat, rep)
    }
}

/// When the pattern starts at position `i`, replacement emits `rep` and
/// continues after the matched text.
proof fn lemma_replace_match_prefix(s: Seq<char>, i: int, pat: Seq<char>, rep: Seq<char>)
    requires
        pat.len() >= 1,
        0 <= i,
        i + pat.len() <= s.len(),
        s.subrange(i, i + pat.len() as int) == pat,
    ensures
        spec_replace(s.subrange(i, s.len() as int), pat, rep) == rep + spec_replace(
            s.subrange(i + pat.len() as int, s.len() as int),
            pat,
            rep,
        ),
{
    let suf = s.subrange(i, s.len() as int);
    assert(suf.subrange(0, pat.len() as int) =~= s.subrange(i, i + pat.len() as int));
    assert(suf.subrange(pat.len() as int, suf.len() as int) =~= s.subrange(
        i + pat.len() as int,
        s.len() as int,
    ));
}

/// When no occurrence of the pattern starts at position `i`, replacement
/// copies the character at `i` and continues at `i + 1`.
proof fn lemma_replace_no_match_prefix(s: Seq<char>, i: int, pat: Seq<char>, rep: Seq<char>)
    requires
        pat.len() >= 1,
        0 <= i < s.len(),
        i + pat.len() > s.len() || s.subrange(i, i + pat.len() as int) != pat,
    ensures
        spec_replace(s.subrange(i, s.len() as int), pat, rep) == seq![s[i]] + spec_replace(
            s.subrange(i + 1, s.len() as int),
            pat,
            rep,
        ),
{
    let suf = s.subrange(i, s.len() as int);
    let rest = s.subrange(i + 1, s.len() as int);
    if suf.len() < pat.len() {
        assert(spec_replace(suf, pat, rep) == suf);
        assert(spec_replace(rest, pat, rep) == rest);
        assert(suf =~= seq![s[i]] + rest);
    } else {
        assert(suf.subrange(0, pat.len() as int) =~= s.subrange(i, i + pat.len() as int));
        assert(suf.subrange(1, suf.len() as int) =~= rest);
        assert(suf[0] == s[i]);
        assert(spec_replace(suf, pat, rep) == seq![s[i]] + spec_replace(rest, pat, rep));
    }
}

/// True when the pattern occurs in `s` starting at character position `i`.
fn match_at(s: &str, i: usize, m: usize, pat: &str) -> (b: bool)
    requires
        m == pat@.len(),
        i + m <= s@.len(),
        s@.len() <= usize::MAX,
    ensures
        b == (s@.subrange(i as int, i as int + m as int) == pat@),
{
    let mut j: usize = 0;
    while j < m
        invariant
            m == pat@.len(),
            i + m <= s@.len(),
            s@.len() <= usize::MAX,
            j <= m,
            forall|k: int| 0 <= k < j ==> s@[i + k] == pat@[k],
        decreases m - j,
    {
        if s.get_char(i + j) != pat.get_char(j) {
            proof {
                assert(s@.subrange(i as int, i as int + m as int)[j as int] != pat@[j as int]);
            }
            return false;
        }
        j = j + 1;
    }
    proof {
        assert(s@.subrange(i as int, i as int + m as int) =~= pat@);
    }
    true
}

/// Replaces every occurrence of `pat` in `s` by `rep`, scanning left to right.
pub fn replace_all(s: &str, pat: &str, rep: &str) -> (r: String)
    requires
        pat@.len() >= 1,
    ensures
        r@ == spec_replace(s@, pat@, rep@),
{
    let n = s.unicode_len();
    let m = pat.unicode_len();
    let mut r = String::new();
    let mut i: usize = 0;
    proof {
        assert(s@.subrange(0, n as int) =~= s@);
        assert(r@ + spec_replace(s@, pat@, rep@) =~= spec_replace(s@, pat@, rep@));
    }
    while i < n
        invariant
            n == s@.len(),
            m == pat@.len(),
            m >= 1,
            i <= n,
            spec_replace(s@, pat@, rep@) == r@ + spec_replace(
                s@.subrange(i as int, n as int),
                pat@,
                rep@,
            ),
        decreases n - i,
    {
        let ghost r0 = r@;
        let matched = if m <= n - i {
            match_at(s, i, m, pat)
        } else {
            false
        };
        if matched {
            r.append(rep);
            proof {
                lemma_replace_match_prefix(s@, i as int, pat@, rep@);
                assert(r0 + (rep@ + spec_replace(
                    s@.subrange(i + m, n as int),
                    pat@,
                    rep@,
                )) =~= r@ + spec_replace(s@.subrange(i + m, n as int), pat@, rep@));
            }
            i = i + m;
        } else {
            let c = s.substring_char(i, i + 1);
            r.append(c);
            proof {
                lemma_replace_no_match_prefix(s@, i as int, pat@, rep@);
                assert(c@ =~= seq![s@[i as int]]);
                assert(r0 + (seq![s@[i as int]] + spec_replace(
                    s@.subrange(i + 1, n as int),
                    pat@,
                    rep@,
                )) =~= r@ + spec_replace(s@.subrange(i + 1, n as int), pat@, rep@));
            }
            i = i + 1;
        }
    }
    proof {
        assert(s@.subrange(n as int, n as int) =~= Seq::<char>::empty());
        assert(r@ + Seq::<char>::empty() =~= r@);
    }
    r
}

/// The normalization applied to every single-cell fetch: anchor markup
/// unwrapped, `&nbsp;` turned into a space, CRLF and CR turned into LF.
pub open spec fn spec_normalize_cell(s: Seq<char>) -> Seq<char> {
    let s1 = spec_replace(s, "<a href=\""@, ""@);
    let s2 = spec_replace(s1, "\">"@, " "@);
    let s3 = spec_replace(s2, "</a>"@, ""@);
    let s4 = spec_replace(s3, "&nbsp;"@, " "@);
    let s5 = spec_replace(s4, "\r\n"@, "\n"@);
    spec_replace(s5, "\r"@, "\n"@)
}

/// Normalizes one cell's text; whitespace inside the cell is kept as is.
pub fn normalize_cell(s: &str) -> (r: String)
    ensures
        r@ == spec_normalize_cell(s@),
{
    proof {
        reveal_strlit("<a href=\"");
        reveal_strlit("\">");
        reveal_strlit("</a>");
        reveal_strlit("&nbsp;");
        reveal_strlit("\r\n");
        reveal_strlit("\r");
    }
    let s1 = replace_all(s, "<a href=\"", "");
    let s2 = replace_all(s1.as_str(), "\">", " ");
    let s3 = replace_all(s2.as_str(), "</a>", "");
    let s4 = replace_all(s3.as_str(), "&nbsp;", " ");
    let s5 = replace_all(s4.as_str(), "\r\n", "\n");
    replace_all(s5.as_str(), "\r", "\n")
}

} // verus!
