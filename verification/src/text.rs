//! Character-sequence primitives shared by the HTML rewriting stages.
//!
//! Documents are handled as sequences of Unicode scalar values. The spec
//! functions here say what it means for a pattern to occur in a document and
//! what replacing its occurrences yields; the executable functions compute
//! the same on `Vec<char>` buffers.

use vstd::prelude::*;

verus! {

/// Whether `s` begins with `pat`.
pub open spec fn starts_with(s: Seq<char>, pat: Seq<char>) -> bool {
    pat.len() <= s.len() && s.subrange(0, pat.len() as int) == pat
}

/// Offset of the leftmost occurrence of `pat` in `s`, if it occurs at all.
pub open spec fn find(s: Seq<char>, pat: Seq<char>) -> Option<int>
    decreases s.len(),
{
    if starts_with(s, pat) {
        Some(0)
    } else if s.len() == 0 {
        None
    } else {
        match find(s.skip(1), pat) {
            Some(k) => Some(k + 1),
            None => None,
        }
    }
}

/// `s` with every occurrence of `pat` replaced by `rep`, occurrences being
/// taken left to right without overlap. An empty pattern replaces nothing.
pub open spec fn replace_all(s: Seq<char>, pat: Seq<char>, rep: Seq<char>) -> Seq<char>
    decreases s.len(),
{
    if pat.len() == 0 || s.len() == 0 {
        s
    } else if starts_with(s, pat) {
        rep + replace_all(s.skip(pat.len() as int), pat, rep)
    } else {
        seq![s[0]] + replace_all(s.skip(1), pat, rep)
    }
}

/// Skipping twice is skipping once by the sum.
pub proof fn lemma_skip_skip(s: Seq<char>, i: int, j: int)
    requires
        0 <= i,
        0 <= j,
        i + j <= s.len(),
    ensures
        s.skip(i).skip(j) == s.skip(i + j),
{
    assert(s.skip(i).skip(j) =~= s.skip(i + j));
}

/// A prefix test on a suffix reads the characters of the whole sequence.
pub proof fn lemma_starts_with_at(s: Seq<char>, pat: Seq<char>, i: int)
    requires
        0 <= i <= s.len(),
    ensures
        starts_with(s.skip(i), pat) <==> (i + pat.len() <= s.len() && forall|k: int|
            0 <= k < pat.len() ==> s[i + k] == pat[k]),
{
    let t = s.skip(i);
    if i + pat.len() <= s.len() {
        if forall|k: int| 0 <= k < pat.len() ==> s[i + k] == pat[k] {
            assert(t.subrange(0, pat.len() as int) =~= pat);
        }
        if starts_with(t, pat) {
            assert forall|k: int| 0 <= k < pat.len() implies s[i + k] == pat[k] by {
                assert(t.subrange(0, pat.len() as int)[k] == pat[k]);
            }
        }
    }
}

/// `find` returns the leftmost offset at which the pattern occurs, and
/// `None` exactly when it occurs nowhere.
pub proof fn lemma_find_leftmost(s: Seq<char>, pat: Seq<char>)
    ensures
        match find(s, pat) {
            Some(k) => {
                &&& 0 <= k
                &&& k + pat.len() <= s.len()
                &&& starts_with(s.skip(k), pat)
                &&& forall|j: int| 0 <= j < k ==> !starts_with(s.skip(j), pat)
            },
            None => forall|j: int| 0 <= j <= s.len() ==> !starts_with(s.skip(j), pat),
        },
    decreases s.len(),
{
    assert(s.skip(0) =~= s);
    if starts_with(s, pat) {
    } else if s.len() == 0 {
    } else {
        let t = s.skip(1);
        lemma_find_leftmost(t, pat);
        match find(t, pat) {
            Some(k) => {
                lemma_skip_skip(s, 1, k);
                assert forall|j: int| 0 <= j < k + 1 implies !starts_with(s.skip(j), pat) by {
                    if j > 0 {
                        lemma_skip_skip(s, 1, j - 1);
                    }
                }
            },
            None => {
                assert forall|j: int| 0 <= j <= s.len() implies !starts_with(s.skip(j), pat) by {
                    if j > 0 {
                        lemma_skip_skip(s, 1, j - 1);
                    }
                }
            },
        }
    }
}

/// An offset at which the pattern occurs, with no occurrence before it, is
/// the offset that `find` returns.
pub proof fn lemma_find_is(s: Seq<char>, pat: Seq<char>, k: int)
    requires
        0 <= k <= s.len(),
        starts_with(s.skip(k), pat),
        forall|j: int| 0 <= j < k ==> !starts_with(s.skip(j), pat),
    ensures
        find(s, pat) == Some(k),
{
    lemma_find_leftmost(s, pat);
}

/// A pattern that does not occur in a text does not occur in what is left
/// of the text after skipping some of it.
pub proof fn lemma_find_none_skip(s: Seq<char>, pat: Seq<char>, n: int)
    requires
        find(s, pat) is None,
        0 <= n <= s.len(),
    ensures
        find(s.skip(n), pat) is None,
{
    lemma_find_leftmost(s, pat);
    lemma_find_leftmost(s.skip(n), pat);
    if let Some(k) = find(s.skip(n), pat) {
        lemma_skip_skip(s, n, k);
    }
}

/// Where the pattern does not occur there is nothing to replace.
pub proof fn lemma_replace_all_absent(s: Seq<char>, pat: Seq<char>, rep: Seq<char>)
    requires
        find(s, pat) is None,
    ensures
        replace_all(s, pat, rep) == s,
    decreases s.len(),
{
    if pat.len() == 0 || s.len() == 0 {
    } else {
        lemma_replace_all_absent(s.skip(1), pat, rep);
        assert(seq![s[0]] + s.skip(1) =~= s);
    }
}

/// `String::push` of the standard library: the character is appended to the
/// end of the string and nothing else changes.
#[verifier::external_body]
fn push_char(s: &mut String, c: char)
    ensures
        final(s)@ == old(s)@.push(c),
{
    s.push(c)
}

/// Copies the characters of a string slice into a vector.
pub fn to_chars(s: &str) -> (v: Vec<char>)
    ensures
        v@ == s@,
{
    let mut v: Vec<char> = Vec::new();
    for c in it: s.chars()
        invariant
            v@ == it.seq().take(it.index() as int),
            it.seq() == s@,
    {
        v.push(c);
    }
    v
}

/// Builds a string from a vector of characters.
pub fn from_chars(v: &Vec<char>) -> (s: String)
    ensures
        s@ == v@,
{
    let mut s = String::new();
    let mut i: usize = 0;
    while i < v.len()
        invariant
            i <= v.len(),
            s@ == v@.take(i as int),
        decreases v.len() - i,
    {
        push_char(&mut s, v[i]);
        i += 1;
    }
    s
}

/// Appends the characters of `v` from index `from` up to `to` to `out`.
pub fn push_range(out: &mut Vec<char>, v: &Vec<char>, from: usize, to: usize)
    requires
        from <= to <= v.len(),
    ensures
        final(out)@ == old(out)@ + v@.subrange(from as int, to as int),
{
    let mut i: usize = from;
    while i < to
        invariant
            from <= i <= to <= v.len(),
            out@ == old(out)@ + v@.subrange(from as int, i as int),
        decreases to - i,
    {
        out.push(v[i]);
        i += 1;
    }
}

/// Appends all of `v` to `out`.
pub fn push_all(out: &mut Vec<char>, v: &Vec<char>)
    ensures
        final(out)@ == old(out)@ + v@,
{
    push_range(out, v, 0, v.len());
    assert(v@.subrange(0, v.len() as int) =~= v@);
}

/// Appends the characters of a string slice to `out`.
pub fn push_str(out: &mut Vec<char>, s: &str)
    ensures
        final(out)@ == old(out)@ + s@,
{
    for c in it: s.chars()
        invariant
            out@ == old(out)@ + it.seq().take(it.index() as int),
            it.seq() == s@,
    {
        out.push(c);
    }
}

/// The characters of `v` from index `from` up to `to`, as a vector of their own.
pub fn copy_range(v: &Vec<char>, from: usize, to: usize) -> (r: Vec<char>)
    requires
        from <= to <= v.len(),
    ensures
        r@ == v@.subrange(from as int, to as int),
{
    let mut r: Vec<char> = Vec::new();
    push_range(&mut r, v, from, to);
    r
}

/// Whether `pat` occurs in `s` at index `i`.
pub fn starts_with_at(s: &Vec<char>, pat: &Vec<char>, i: usize) -> (b: bool)
    requires
        i <= s.len(),
    ensures
        b == starts_with(s@.skip(i as int), pat@),
{
    proof {
        lemma_starts_with_at(s@, pat@, i as int);
    }
    if pat.len() > s.len() - i {
        return false;
    }
    let mut k: usize = 0;
    while k < pat.len()
        invariant
            i + pat.len() <= s.len(),
            k <= pat.len(),
            forall|j: int| 0 <= j < k ==> s@[i + j] == pat@[j],
        decreases pat.len() - k,
    {
        if s[i + k] != pat[k] {
            return false;
        }
        k += 1;
    }
    true
}

/// Index of the leftmost occurrence of `pat` in `s` that starts at or after `i`.
pub fn find_from(s: &Vec<char>, pat: &Vec<char>, i: usize) -> (r: Option<usize>)
    requires
        i <= s.len(),
    ensures
        match r {
            Some(k) => i <= k && k + pat.len() <= s.len() && find(s@.skip(i as int), pat@)
                == Some(k - i),
            None => find(s@.skip(i as int), pat@) is None,
        },
{
    let mut j: usize = i;
    loop
        invariant
            i <= j <= s.len(),
            find(s@.skip(i as int), pat@) == match find(s@.skip(j as int), pat@) {
                Some(k) => Some(k + j - i),
                None => None,
            },
        decreases s.len() - j,
    {
        if starts_with_at(s, pat, j) {
            return Some(j);
        }
        if j == s.len() {
            return None;
        }
        proof {
            lemma_skip_skip(s@, j as int, 1);
        }
        j += 1;
    }
}

/// Replaces every occurrence of `pat` in `s` by `rep`.
pub fn replace_all_chars(s: &Vec<char>, pat: &Vec<char>, rep: &Vec<char>) -> (out: Vec<char>)
    ensures
        out@ == replace_all(s@, pat@, rep@),
{
    let mut out: Vec<char> = Vec::new();
    if pat.len() == 0 {
        push_all(&mut out, s);
        return out;
    }
    let mut i: usize = 0;
    assert(s@.skip(0) =~= s@);
    while i < s.len()
        invariant
            i <= s.len(),
            pat.len() > 0,
            out@ + replace_all(s@.skip(i as int), pat@, rep@) == replace_all(s@, pat@, rep@),
        decreases s.len() - i,
    {
        let ghost rest = s@.skip(i as int);
        let ghost before = out@;
        if starts_with_at(s, pat, i) {
            push_all(&mut out, rep);
            proof {
                lemma_skip_skip(s@, i as int, pat.len() as int);
                assert(out@ + replace_all(rest.skip(pat.len() as int), pat@, rep@) =~= before
                    + replace_all(rest, pat@, rep@));
            }
            i += pat.len();
        } else {
            out.push(s[i]);
            proof {
                lemma_skip_skip(s@, i as int, 1);
                assert(out@ + replace_all(rest.skip(1), pat@, rep@) =~= before + replace_all(
                    rest,
                    pat@,
                    rep@,
                ));
            }
            i += 1;
        }
    }
    out
}

} // verus!
