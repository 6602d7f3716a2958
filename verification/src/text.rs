//! Small verified text utilities: substring matching, token replacement and
//! decimal rendering, shared by the providers and the configuration model.

use vstd::prelude::*;

verus! {

/// The pattern `pat` occurs in `s` starting at position `i`.
pub open spec fn spec_contains_at(s: Seq<char>, pat: Seq<char>, i: int) -> bool {
    0 <= i && i + pat.len() <= s.len() && s.subrange(i, i + pat.len() as int) == pat
}

/// The pattern `pat` occurs somewhere in `s`.
pub open spec fn spec_contains(s: Seq<char>, pat: Seq<char>) -> bool {
    exists|i: int| spec_contains_at(s, pat, i)
}

/// Replacement of every non-overlapping occurrence of `pat` in `s` by `to`,
/// scanning left to right, as `str::replace` does.
pub open spec fn spec_replace(s: Seq<char>, pat: Seq<char>, to: Seq<char>) -> Seq<char>
    decreases s.len(),
{
    if pat.len() == 0 || s.len() < pat.len() {
        s
    } else if s.take(pat.len() as int) == pat {
        to + spec_replace(s.skip(pat.len() as int), pat, to)
    } else {
        seq![s[0]] + spec_replace(s.skip(1), pat, to)
    }
}

/// One scanning step of `spec_replace`, phrased over a suffix of `s`:
/// either the pattern matches at `i` and the scan jumps past it, or the
/// single character at `i` is kept.
proof fn lemma_replace_step(s: Seq<char>, pat: Seq<char>, to: Seq<char>, i: int)
    requires
        pat.len() >= 1,
        0 <= i < s.len(),
    ensures
        (i + pat.len() <= s.len() && s.subrange(i, i + pat.len() as int) == pat) ==> spec_replace(
            s.skip(i),
            pat,
            to,
        ) == to + spec_replace(s.skip(i + pat.len() as int), pat, to),
        !(i + pat.len() <= s.len() && s.subrange(i, i + pat.len() as int) == pat)
            ==> spec_replace(s.skip(i), pat, to) == seq![s[i]] + spec_replace(
            s.skip(i + 1),
            pat,
            to,
        ),
{
    let suf = s.skip(i);
    if i + pat.len() <= s.len() && s.subrange(i, i + pat.len() as int) == pat {
        assert(suf.take(pat.len() as int) =~= s.subrange(i, i + pat.len() as int));
        assert(suf.skip(pat.len() as int) =~= s.skip(i + pat.len() as int));
    } else {
        if s.len() < i + pat.len() {
            // The suffix is shorter than the pattern: it is kept verbatim,
            // which agrees with keeping one character at a time.
            assert(suf.len() < pat.len());
            assert(spec_replace(suf, pat, to) == suf);
            assert(s.skip(i + 1).len() < pat.len());
            assert(spec_replace(s.skip(i + 1), pat, to) == s.skip(i + 1));
            assert(suf =~= seq![s[i]] + s.skip(i + 1));
        } else {
            assert(suf.take(pat.len() as int) =~= s.subrange(i, i + pat.len() as int));
            assert(suf.take(pat.len() as int) != pat);
            assert(suf[0] == s[i]);
            assert(suf.skip(1) =~= s.skip(i + 1));
        }
    }
}

/// A template in which the pattern does not occur is left unchanged by the
/// replacement.
pub proof fn lemma_replace_absent(s: Seq<char>, pat: Seq<char>, to: Seq<char>)
    requires
        pat.len() >= 1,
        !spec_contains(s, pat),
    ensures
        spec_replace(s, pat, to) == s,
    decreases s.len(),
{
    if s.len() < pat.len() {
    } else if s.take(pat.len() as int) == pat {
        assert(s.subrange(0, pat.len() as int) =~= s.take(pat.len() as int));
        assert(spec_contains_at(s, pat, 0));
        assert(false);
    } else {
        assert forall|j: int| !spec_contains_at(s.skip(1), pat, j) by {
            if spec_contains_at(s.skip(1), pat, j) {
                assert(s.skip(1).subrange(j, j + pat.len() as int) =~= s.subrange(
                    j + 1,
                    j + 1 + pat.len() as int,
                ));
                assert(spec_contains_at(s, pat, j + 1));
            }
        }
        lemma_replace_absent(s.skip(1), pat, to);
        assert(seq![s[0]] + s.skip(1) =~= s);
    }
}

/// Whether `pat` occurs in `s` at position `i`; all lengths are passed in to
/// avoid recounting.
pub(crate) fn match_at(s: &str, pat: &str, i: usize, s_len: usize, pat_len: usize) -> (r: bool)
    requires
        s_len == s@.len(),
        pat_len == pat@.len(),
        i + pat_len <= s_len,
    ensures
        r == spec_contains_at(s@, pat@, i as int),
{
    let mut j: usize = 0;
    while j < pat_len
        invariant
            j <= pat_len,
            s_len == s@.len(),
            pat_len == pat@.len(),
            i + pat_len <= s_len,
            forall|k: int| 0 <= k < j ==> s@[i + k] == pat@[k],
        decreases pat_len - j,
    {
        if s.get_char(i + j) != pat.get_char(j) {
            proof {
                assert(s@.subrange(i as int, i + pat_len) != pat@) by {
                    assert(s@.subrange(i as int, i + pat_len)[j as int] == s@[i + j]);
                }
            }
            return false;
        }
        j += 1;
    }
    proof {
        assert(s@.subrange(i as int, i + pat_len) =~= pat@);
    }
    true
}

/// Replaces every occurrence of `pat` in `s` by `to`, scanning left to right.
pub fn replace_str(s: &str, pat: &str, to: &str) -> (r: String)
    requires
        pat@.len() >= 1,
    ensures
        r@ == spec_replace(s@, pat@, to@),
{
    let s_len = s.unicode_len();
    let pat_len = pat.unicode_len();
    let mut out = String::new();
    let mut i: usize = 0;
    proof {
        assert(s@.skip(0) =~= s@);
        assert(out@ + spec_replace(s@, pat@, to@) =~= spec_replace(s@, pat@, to@));
    }
    while i < s_len
        invariant
            i <= s_len,
            s_len == s@.len(),
            pat_len == pat@.len(),
            pat_len >= 1,
            out@ + spec_replace(s@.skip(i as int), pat@, to@) == spec_replace(s@, pat@, to@),
        decreases s_len - i,
    {
        proof {
            lemma_replace_step(s@, pat@, to@, i as int);
        }
        let ghost pre = out@;
        if pat_len <= s_len - i && match_at(s, pat, i, s_len, pat_len) {
            out.append(to);
            proof {
                assert(out@ + spec_replace(s@.skip(i + pat_len as int), pat@, to@) =~= pre
                    + spec_replace(s@.skip(i as int), pat@, to@));
            }
            i += pat_len;
        } else {
            let piece = s.substring_char(i, i + 1);
            out.append(piece);
            proof {
                assert(piece@ =~= seq![s@[i as int]]);
                assert(out@ + spec_replace(s@.skip(i + 1int), pat@, to@) =~= pre + spec_replace(
                    s@.skip(i as int),
                    pat@,
                    to@,
                ));
            }
            i += 1;
        }
    }
    proof {
        assert(s@.skip(s_len as int) =~= Seq::<char>::empty());
        assert(spec_replace(Seq::<char>::empty(), pat@, to@) == Seq::<char>::empty());
        assert(out@ =~= out@ + Seq::<char>::empty());
    }
    out
}

/// Whether `pat` occurs anywhere in `s`.
pub fn contains_str(s: &str, pat: &str) -> (r: bool)
    ensures
        r == spec_contains(s@, pat@),
{
    let s_len = s.unicode_len();
    let pat_len = pat.unicode_len();
    if pat_len == 0 {
        proof {
            assert(s@.subrange(0, 0) =~= pat@);
            assert(spec_contains_at(s@, pat@, 0));
        }
        return true;
    }
    if pat_len > s_len {
        proof {
            assert forall|i: int| !spec_contains_at(s@, pat@, i) by {}
        }
        return false;
    }
    let mut i: usize = 0;
    while i <= s_len - pat_len
        invariant
            1 <= pat_len <= s_len,
            s_len == s@.len(),
            pat_len == pat@.len(),
            i <= s_len - pat_len + 1,
            forall|j: int| 0 <= j < i ==> !spec_contains_at(s@, pat@, j),
        decreases s_len - pat_len + 1 - i,
    {
        if match_at(s, pat, i, s_len, pat_len) {
            return true;
        }
        i += 1;
    }
    proof {
        assert forall|j: int| !spec_contains_at(s@, pat@, j) by {
            if 0 <= j < i {
            }
        }
    }
    false
}

/// Whether two strings hold the same characters.
pub fn str_eq(a: &str, b: &str) -> (r: bool)
    ensures
        r == (a@ == b@),
{
    let a_len = a.unicode_len();
    let b_len = b.unicode_len();
    if a_len != b_len {
        return false;
    }
    let mut i: usize = 0;
    while i < a_len
        invariant
            i <= a_len,
            a_len == a@.len(),
            a_len == b@.len(),
            forall|k: int| 0 <= k < i ==> a@[k] == b@[k],
        decreases a_len - i,
    {
        if a.get_char(i) != b.get_char(i) {
            return false;
        }
        i += 1;
    }
    proof {
        assert(a@ =~= b@);
    }
    true
}

/// The character for a single decimal digit.
pub open spec fn spec_digit_char(d: int) -> char {
    if d == 0 {
        '0'
    } else if d == 1 {
        '1'
    } else if d == 2 {
        '2'
    } else if d == 3 {
        '3'
    } else if d == 4 {
        '4'
    } else if d == 5 {
        '5'
    } else if d == 6 {
        '6'
    } else if d == 7 {
        '7'
    } else if d == 8 {
        '8'
    } else {
        '9'
    }
}

/// The usual decimal rendering of a non-negative integer, without leading
/// zeros (a single zero for 0).
pub open spec fn spec_dec(n: int) -> Seq<char>
    decreases n,
{
    if n < 10 {
        seq![spec_digit_char(n)]
    } else {
        spec_dec(n / 10).push(spec_digit_char(n % 10))
    }
}

/// The one-character string for a decimal digit.
pub(crate) fn digit_str(d: u32) -> (r: &'static str)
    requires
        d < 10,
    ensures
        r@ == seq![spec_digit_char(d as int)],
{
    proof {
        reveal_strlit("0");
        reveal_strlit("1");
        reveal_strlit("2");
        reveal_strlit("3");
        reveal_strlit("4");
        reveal_strlit("5");
        reveal_strlit("6");
        reveal_strlit("7");
        reveal_strlit("8");
        reveal_strlit("9");
    }
    match d {
        0 => "0",
        1 => "1",
        2 => "2",
        3 => "3",
        4 => "4",
        5 => "5",
        6 => "6",
        7 => "7",
        8 => "8",
        _ => "9",
    }
}

/// Renders a number in decimal.
pub fn u32_dec(n: u32) -> (r: String)
    ensures
        r@ == spec_dec(n as int),
    decreases n,
{
    if n < 10 {
        String::from_str(digit_str(n))
    } else {
        let mut s = u32_dec(n / 10);
        s.append(digit_str(n % 10));
        proof {
            assert(s@ =~= spec_dec((n / 10) as int).push(spec_digit_char((n % 10) as int)));
        }
        s
    }
}

} // verus!
