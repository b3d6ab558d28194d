//! Character-level text utilities: conversions between `String` and
//! `Vec<char>`, and a verified single-pass substring replacement used by the
//! HTML page renderer and the profile normalizer.

use vstd::prelude::*;
use vstd::string::*;

verus! {

/// Replace every occurrence of `pat` in `s` by `val`, scanning left to
/// right; replaced text is skipped over, and inserted text is never
/// rescanned (the substitution is non-recursive).
pub open spec fn spec_replace(s: Seq<char>, pat: Seq<char>, val: Seq<char>) -> Seq<char>
    decreases s.len(),
{
    if pat.len() == 0 || s.len() < pat.len() {
        s
    } else if s.take(pat.len() as int) == pat {
        val + spec_replace(s.skip(pat.len() as int), pat, val)
    } else {
        seq![s[0]] + spec_replace(s.skip(1), pat, val)
    }
}

/// Collect the characters of a string slice into a vector.
pub fn str_to_chars(s: &str) -> (r: Vec<char>)
    ensures
        r@ == s@,
{
    let n = s.unicode_len();
    let mut out: Vec<char> = Vec::new();
    let mut i: usize = 0;
    while i < n
        invariant
            n == s@.len(),
            i <= n,
            out@ == s@.take(i as int),
        decreases n - i,
    {
        out.push(s.get_char(i));
        i = i + 1;
        proof {
            assert(out@ =~= s@.take(i as int));
        }
    }
    proof {
        assert(out@ =~= s@);
    }
    out
}

/// Relies on `String::push`: appends exactly the given character.
#[verifier::external_body]
fn push_char(s: &mut String, c: char)
    ensures
        final(s)@ == old(s)@.push(c),
{
    s.push(c);
}

/// Build a string from a vector of characters.
pub fn chars_to_string(v: &Vec<char>) -> (r: String)
    ensures
        r@ == v@,
{
    let mut out = String::new();
    let mut i: usize = 0;
    while i < v.len()
        invariant
            i <= v@.len(),
            out@ == v@.take(i as int),
        decreases v@.len() - i,
    {
        push_char(&mut out, v[i]);
        i = i + 1;
        proof {
            assert(out@ =~= v@.take(i as int));
        }
    }
    proof {
        assert(out@ =~= v@);
    }
    out
}

/// True when `pat` occurs in `s` starting at index `i`.
pub open spec fn match_at(s: Seq<char>, pat: Seq<char>, i: int) -> bool {
    0 <= i && i + pat.len() <= s.len() && s.subrange(i, i + pat.len()) == pat
}

/// Compare `pat` against `s` at position `i`.
fn is_match_at(s: &Vec<char>, pat: &Vec<char>, i: usize) -> (r: bool)
    requires
        i + pat@.len() <= s@.len(),
    ensures
        r == match_at(s@, pat@, i as int),
{
    let n = s.len();
    let mut j: usize = 0;
    while j < pat.len()
        invariant
            n == s@.len(),
            i + pat@.len() <= s@.len(),
            j <= pat@.len(),
            forall|k: int| 0 <= k < j ==> s@[i + k] == pat@[k],
        decreases pat@.len() - j,
    {
        if s[i + j] != pat[j] {
            proof {
                assert(s@.subrange(i as int, i + pat@.len())[j as int] != pat@[j as int]);
            }
            return false;
        }
        j = j + 1;
    }
    proof {
        assert(s@.subrange(i as int, i + pat@.len()) =~= pat@);
    }
    true
}

/// Append all characters of `v` to `out`.
fn extend_chars(out: &mut Vec<char>, v: &Vec<char>)
    ensures
        final(out)@ == old(out)@ + v@,
{
    let mut j: usize = 0;
    while j < v.len()
        invariant
            j <= v@.len(),
            out@ == old(out)@ + v@.take(j as int),
        decreases v@.len() - j,
    {
        out.push(v[j]);
        j = j + 1;
        proof {
            assert(old(out)@ + v@.take(j as int) =~= (old(out)@ + v@.take(j - 1)).push(v@[j - 1]));
        }
    }
    proof {
        assert(old(out)@ + v@.take(v@.len() as int) =~= old(out)@ + v@);
    }
}

/// Replace every occurrence of `pat` in `s` by `val`, left to right and
/// without rescanning inserted text.
pub fn replace_all(s: &Vec<char>, pat: &Vec<char>, val: &Vec<char>) -> (r: Vec<char>)
    requires
        pat@.len() > 0,
    ensures
        r@ == spec_replace(s@, pat@, val@),
{
    let mut out: Vec<char> = Vec::new();
    let mut i: usize = 0;
    proof {
        assert(s@.skip(0) =~= s@);
        assert(Seq::<char>::empty() + spec_replace(s@, pat@, val@) =~= spec_replace(
            s@,
            pat@,
            val@,
        ));
    }
    while i < s.len()
        invariant
            pat@.len() > 0,
            i <= s@.len(),
            spec_replace(s@, pat@, val@) == out@ + spec_replace(s@.skip(i as int), pat@, val@),
        decreases s@.len() - i,
    {
        let ghost pre = s@.skip(i as int);
        if pat.len() <= s.len() - i && is_match_at(s, pat, i) {
            extend_chars(&mut out, val);
            i = i + pat.len();
            proof {
                assert(pre.take(pat@.len() as int) =~= s@.subrange(
                    i - pat@.len(),
                    i - pat@.len() + pat@.len(),
                ));
                assert(pre.skip(pat@.len() as int) =~= s@.skip(i as int));
                assert(spec_replace(pre, pat@, val@) == val@ + spec_replace(
                    s@.skip(i as int),
                    pat@,
                    val@,
                ));
            }
        } else {
            out.push(s[i]);
            i = i + 1;
            proof {
                if pre.len() >= pat@.len() {
                    assert(pre.take(pat@.len() as int) != pat@) by {
                        if pre.take(pat@.len() as int) == pat@ {
                            assert(match_at(s@, pat@, i - 1)) by {
                                assert(s@.subrange(i - 1, i - 1 + pat@.len()) =~= pre.take(
                                    pat@.len() as int,
                                ));
                            }
                        }
                    }
                }
                assert(pre.skip(1) =~= s@.skip(i as int));
                assert(spec_replace(pre, pat@, val@) == seq![pre[0]] + spec_replace(
                    s@.skip(i as int),
                    pat@,
                    val@,
                ));
                assert(out@ + spec_replace(s@.skip(i as int), pat@, val@) =~= (out@.drop_last()
                    + seq![pre[0]]) + spec_replace(s@.skip(i as int), pat@, val@));
            }
        }
    }
    proof {
        assert(s@.skip(s@.len() as int) =~= Seq::<char>::empty());
        assert(out@ =~= out@ + spec_replace(s@.skip(i as int), pat@, val@));
    }
    out
}

/// Replace occurrences of `pat` in the string `s` by `val`.
pub fn replace_in_str(s: &str, pat: &str, val: &str) -> (r: String)
    requires
        pat@.len() > 0,
    ensures
        r@ == spec_replace(s@, pat@, val@),
{
    let sv = str_to_chars(s);
    let pv = str_to_chars(pat);
    let vv = str_to_chars(val);
    let out = replace_all(&sv, &pv, &vv);
    chars_to_string(&out)
}

} // verus!
