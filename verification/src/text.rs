//! Character-level string matching and literal substring replacement.
//!
//! URLs assembled by the decision engine are rewritten by applying a list of
//! literal `(pattern, substitute)` pairs; each pair replaces every
//! non-overlapping occurrence of the pattern, scanning left to right. The
//! functions here give that operation, and prefix matching, exact
//! specifications over `Seq<char>`.

use vstd::prelude::*;

verus! {

/// The pattern `pat` occurs in `s` at character position `i`.
pub open spec fn match_at(s: Seq<char>, pat: Seq<char>, i: int) -> bool {
    0 <= i && i + pat.len() <= s.len() && s.subrange(i, i + pat.len()) == pat
}

/// Compares `pat` against the characters of `s` starting at position `i`.
/// `n` and `m` are the character lengths of `s` and `pat`.
fn matches_at(s: &str, pat: &str, i: usize, n: usize, m: usize) -> (r: bool)
    requires
        n == s@.len(),
        m == pat@.len(),
        i + m <= n,
    ensures
        r == match_at(s@, pat@, i as int),
{
    let mut j: usize = 0;
    while j < m
        invariant
            j <= m,
            n == s@.len(),
            m == pat@.len(),
            i + m <= n,
            forall|k: int| 0 <= k < j ==> s@[i + k] == pat@[k],
        decreases m - j,
    {
        if s.get_char(i + j) != pat.get_char(j) {
            proof {
                assert(s@.subrange(i as int, i + m) != pat@) by {
                    assert(s@.subrange(i as int, i + m)[j as int] == s@[i + j]);
                }
            }
            return false;
        }
        j += 1;
    }
    proof {
        assert(s@.subrange(i as int, i + m) =~= pat@);
    }
    true
}

/// Whether `s` begins with the characters of `pre`.
pub fn starts_with_str(s: &str, pre: &str) -> (r: bool)
    ensures
        r == pre@.is_prefix_of(s@),
{
    let n = s.unicode_len();
    let m = pre.unicode_len();
    if m > n {
        return false;
    }
    let r = matches_at(s, pre, 0, n, m);
    proof {
        if r {
            assert(pre@ =~= s@.subrange(0, m as int));
        }
        if pre@.is_prefix_of(s@) {
            assert(s@.subrange(0, m as int) =~= pre@);
        }
    }
    r
}

/// The result of replacing every non-overlapping occurrence of `pat` in `s`
/// by `sub`, scanning left to right. An empty pattern matches at every
/// character boundary, so the substitute is placed before every character and
/// once at the end.
pub open spec fn replace_all(s: Seq<char>, pat: Seq<char>, sub: Seq<char>) -> Seq<char>
    decreases s.len(),
{
    if pat.len() == 0 {
        if s.len() == 0 {
            sub
        } else {
            sub + seq![s[0]] + replace_all(s.skip(1), pat, sub)
        }
    } else if s.len() < pat.len() {
        s
    } else if match_at(s, pat, 0) {
        sub + replace_all(s.skip(pat.len() as int), pat, sub)
    } else {
        seq![s[0]] + replace_all(s.skip(1), pat, sub)
    }
}

/// How `replace_all` consumes the suffix of `s` that starts at position `i`:
/// a match of `pat` there emits the substitute and skips the pattern's length,
/// anything else emits the character in place (after the substitute, when the
/// pattern is empty).
proof fn lemma_replace_all_step(s: Seq<char>, pat: Seq<char>, sub: Seq<char>, i: int)
    requires
        0 <= i < s.len(),
    ensures
        pat.len() > 0 && match_at(s, pat, i) ==> replace_all(s.skip(i), pat, sub) == sub
            + replace_all(s.skip(i + pat.len()), pat, sub),
        pat.len() > 0 && !match_at(s, pat, i) ==> replace_all(s.skip(i), pat, sub) == seq![s[i]]
            + replace_all(s.skip(i + 1), pat, sub),
        pat.len() == 0 ==> replace_all(s.skip(i), pat, sub) == sub + seq![s[i]] + replace_all(
            s.skip(i + 1),
            pat,
            sub,
        ),
{
    let suf = s.skip(i);
    assert(suf.len() == s.len() - i);
    assert(suf[0] == s[i]);
    assert(suf.skip(1) =~= s.skip(i + 1));
    if pat.len() == 0 {
    } else if match_at(s, pat, i) {
        assert(suf.subrange(0, pat.len() as int) =~= s.subrange(i, i + pat.len()));
        assert(match_at(suf, pat, 0));
        assert(suf.skip(pat.len() as int) =~= s.skip(i + pat.len()));
    } else {
        if suf.len() >= pat.len() {
            assert(!match_at(suf, pat, 0)) by {
                if match_at(suf, pat, 0) {
                    assert(suf.subrange(0, pat.len() as int) =~= s.subrange(i, i + pat.len()));
                }
            }
            assert(replace_all(suf, pat, sub) == seq![suf[0]] + replace_all(
                suf.skip(1),
                pat,
                sub,
            ));
        } else {
            assert(replace_all(suf, pat, sub) == suf);
            assert(suf.skip(1).len() < pat.len());
            assert(replace_all(suf.skip(1), pat, sub) == suf.skip(1));
            assert(suf =~= seq![suf[0]] + suf.skip(1));
        }
    }
}

/// The result of replacing every non-overlapping occurrence of `pat` in `s`
/// by `sub`, scanning left to right.
pub fn replace_str(s: &str, pat: &str, sub: &str) -> (res: String)
    ensures
        res@ == replace_all(s@, pat@, sub@),
{
    let n = s.unicode_len();
    let m = pat.unicode_len();
    let mut res = String::new();
    let mut i: usize = 0;
    proof {
        assert(s@.skip(0) =~= s@);
    }
    while i < n
        invariant
            i <= n,
            n == s@.len(),
            m == pat@.len(),
            replace_all(s@, pat@, sub@) == res@ + replace_all(s@.skip(i as int), pat@, sub@),
        decreases n - i,
    {
        let ghost pre = res@;
        proof {
            lemma_replace_all_step(s@, pat@, sub@, i as int);
        }
        if m > 0 && m <= n - i && matches_at(s, pat, i, n, m) {
            res.append(sub);
            i = i + m;
            proof {
                assert(pre + (sub@ + replace_all(s@.skip(i as int), pat@, sub@)) =~= (pre + sub@)
                    + replace_all(s@.skip(i as int), pat@, sub@));
            }
        } else {
            proof {
                if m > 0 && i + m > n {
                    assert(!match_at(s@, pat@, i as int));
                }
            }
            if m == 0 {
                res.append(sub);
            }
            let c = s.substring_char(i, i + 1);
            res.append(c);
            proof {
                assert(c@ =~= seq![s@[i as int]]);
            }
            i = i + 1;
            proof {
                let rest = replace_all(s@.skip(i as int), pat@, sub@);
                if m == 0 {
                    assert(pre + (sub@ + seq![s@[i - 1]] + rest) =~= ((pre + sub@) + c@) + rest);
                } else {
                    assert(pre + (seq![s@[i - 1]] + rest) =~= (pre + c@) + rest);
                }
            }
        }
    }
    proof {
        assert(s@.skip(n as int) =~= Seq::<char>::empty());
    }
    if m == 0 {
        res.append(sub);
        proof {
            assert(replace_all(Seq::<char>::empty(), pat@, sub@) == sub@);
        }
    } else {
        proof {
            assert(replace_all(Seq::<char>::empty(), pat@, sub@) == Seq::<char>::empty());
            assert(res@ + Seq::<char>::empty() =~= res@);
        }
    }
    res
}

/// One character substituted for another.
pub open spec fn subst_char(p: char, q: char, x: char) -> char {
    if x == p {
        q
    } else {
        x
    }
}

/// Replacing a one-character pattern by a one-character substitute rewrites
/// the string pointwise.
pub proof fn lemma_replace_single_char(s: Seq<char>, p: char, q: char)
    ensures
        replace_all(s, seq![p], seq![q]) == s.map_values(|x: char| subst_char(p, q, x)),
    decreases s.len(),
{
    let pat = seq![p];
    let sub = seq![q];
    let f = |x: char| subst_char(p, q, x);
    if s.len() == 0 {
        assert(replace_all(s, pat, sub) == s);
        assert(s.map_values(f) =~= s);
    } else {
        lemma_replace_single_char(s.skip(1), p, q);
        assert(s.subrange(0, 1) =~= seq![s[0]]);
        if s[0] == p {
            assert(match_at(s, pat, 0));
            assert(sub + s.skip(1).map_values(f) =~= s.map_values(f));
        } else {
            assert(!match_at(s, pat, 0)) by {
                assert(s.subrange(0, 1)[0] == s[0]);
            }
            assert(seq![s[0]] + s.skip(1).map_values(f) =~= s.map_values(f));
        }
    }
}

/// Whether two string slices hold the same characters.
pub fn str_eq(a: &str, b: &str) -> (r: bool)
    ensures
        r == (a@ == b@),
{
    let n = a.unicode_len();
    let m = b.unicode_len();
    if n != m {
        return false;
    }
    let r = matches_at(a, b, 0, n, m);
    proof {
        if r {
            assert(a@ =~= a@.subrange(0, m as int));
        }
        if a@ == b@ {
            assert(a@.subrange(0, m as int) =~= b@);
        }
    }
    r
}

} // verus!
