//! Verified text utilities: template substitution and line counting.
//!
//! Every path template and command line in this library is built by literal
//! substring replacement, so the whole placeholder engine reduces to
//! `replace_all`, which is proved equal to the spec-level `spec_replace`.

use vstd::prelude::*;

verus! {

/// The result of replacing, left to right, every non-overlapping occurrence
/// of `pat` in `s` by `rep`. An empty `pat` never matches, so it leaves `s`
/// unchanged.
pub open spec fn spec_replace(s: Seq<char>, pat: Seq<char>, rep: Seq<char>) -> Seq<char>
    decreases s.len(),
{
    if s.len() == 0 {
        Seq::<char>::empty()
    } else if 0 < pat.len() <= s.len() && s.subrange(0, pat.len() as int) == pat {
        rep + spec_replace(s.skip(pat.len() as int), pat, rep)
    } else {
        seq![s[0]] + spec_replace(s.skip(1), pat, rep)
    }
}

/// Whether `pat` occurs in `s` starting at position `i`.
pub open spec fn matches_from(s: Seq<char>, i: int, pat: Seq<char>) -> bool {
    i + pat.len() <= s.len() && s.subrange(i, i + pat.len()) == pat
}

fn matches_at(s: &str, slen: usize, i: usize, pat: &str, plen: usize) -> (r: bool)
    requires
        slen == s@.len(),
        plen == pat@.len(),
        i <= slen,
    ensures
        r == matches_from(s@, i as int, pat@),
{
    if plen > slen - i {
        return false;
    }
    let mut j: usize = 0;
    while j < plen
        invariant
            slen == s@.len(),
            plen == pat@.len(),
            i + plen <= slen,
            j <= plen,
            forall|k: int| 0 <= k < j ==> s@[i + k] == pat@[k],
        decreases plen - j,
    {
        if s.get_char(i + j) != pat.get_char(j) {
            assert(s@.subrange(i as int, i + plen)[j as int] == s@[i + j]);
            return false;
        }
        j += 1;
    }
    assert(s@.subrange(i as int, i + plen) =~= pat@);
    true
}

/// Replace every non-overlapping occurrence of `pat` in `s` by `rep`,
/// scanning left to right. This is the whole placeholder-expansion engine:
/// substituting a `{token}` marker is one call of this function.
pub fn replace_all(s: &str, pat: &str, rep: &str) -> (r: String)
    ensures
        r@ == spec_replace(s@, pat@, rep@),
{
    let slen = s.unicode_len();
    let plen = pat.unicode_len();
    let mut res = String::new();
    let mut i: usize = 0;
    proof {
        assert(s@.skip(0) =~= s@);
        assert(Seq::<char>::empty() + spec_replace(s@, pat@, rep@) =~= spec_replace(
            s@,
            pat@,
            rep@,
        ));
    }
    while i < slen
        invariant
            slen == s@.len(),
            plen == pat@.len(),
            i <= slen,
            spec_replace(s@, pat@, rep@) == res@ + spec_replace(
                s@.skip(i as int),
                pat@,
                rep@,
            ),
        decreases slen - i,
    {
        let ghost prev = i as int;
        let ghost t = s@.skip(prev);
        if plen > 0 && matches_at(s, slen, i, pat, plen) {
            res.append(rep);
            i += plen;
            proof {
                assert(t.subrange(0, plen as int) =~= s@.subrange(prev, prev + plen));
                assert(t.skip(plen as int) =~= s@.skip(i as int));
                assert(spec_replace(t, pat@, rep@) == rep@ + spec_replace(
                    s@.skip(i as int),
                    pat@,
                    rep@,
                ));
                assert(res@ + spec_replace(s@.skip(i as int), pat@, rep@) =~= spec_replace(
                    s@,
                    pat@,
                    rep@,
                ));
            }
        } else {
            res.append(s.substring_char(i, i + 1));
            i += 1;
            proof {
                if 0 < pat@.len() <= t.len() && t.subrange(0, plen as int) == pat@ {
                    assert(t.subrange(0, plen as int) =~= s@.subrange(prev, prev + plen));
                    assert(matches_from(s@, prev, pat@));
                }
                assert(spec_replace(t, pat@, rep@) == seq![t[0]] + spec_replace(
                    t.skip(1),
                    pat@,
                    rep@,
                ));
                assert(s@.subrange(prev, prev + 1) =~= seq![t[0]]);
                assert(t.skip(1) =~= s@.skip(i as int));
                assert(res@ + spec_replace(s@.skip(i as int), pat@, rep@) =~= spec_replace(
                    s@,
                    pat@,
                    rep@,
                ));
            }
        }
    }
    proof {
        assert(s@.skip(slen as int) =~= Seq::<char>::empty());
        assert(res@ =~= res@ + spec_replace(s@.skip(slen as int), pat@, rep@));
    }
    res
}

/// The number of newline characters in `s`.
pub open spec fn newline_count(s: Seq<char>) -> nat
    decreases s.len(),
{
    if s.len() == 0 {
        0
    } else {
        newline_count(s.drop_last()) + if s.last() == '\n' {
            1nat
        } else {
            0nat
        }
    }
}

/// The number of lines in `s`, counting a final fragment without a trailing
/// newline as one more line: the count a line-oriented reader reports.
pub open spec fn spec_line_count(s: Seq<char>) -> nat {
    if s.len() == 0 {
        0
    } else if s.last() == '\n' {
        newline_count(s)
    } else {
        newline_count(s) + 1
    }
}

proof fn lemma_newline_count_le(s: Seq<char>)
    ensures
        newline_count(s) <= s.len(),
    decreases s.len(),
{
    if s.len() > 0 {
        lemma_newline_count_le(s.drop_last());
    }
}

/// Count the lines of `text`, treating a trailing fragment without a final
/// newline as a line of its own.
pub fn count_lines(text: &str) -> (n: usize)
    ensures
        n == spec_line_count(text@),
{
    let len = text.unicode_len();
    let mut nl: usize = 0;
    let mut i: usize = 0;
    proof {
        assert(text@.take(0) =~= Seq::<char>::empty());
    }
    while i < len
        invariant
            len == text@.len(),
            i <= len,
            nl == newline_count(text@.take(i as int)),
            nl <= i,
        decreases len - i,
    {
        let c = text.get_char(i);
        proof {
            assert(text@.take(i + 1).drop_last() =~= text@.take(i as int));
            assert(text@.take(i + 1).last() == text@[i as int]);
        }
        if c == '\n' {
            nl += 1;
        }
        i += 1;
    }
    proof {
        assert(text@.take(len as int) =~= text@);
    }
    if len == 0 {
        0
    } else if text.get_char(len - 1) == '\n' {
        nl
    } else {
        proof {
            lemma_newline_count_le(text@.drop_last());
        }
        nl + 1
    }
}

} // verus!
