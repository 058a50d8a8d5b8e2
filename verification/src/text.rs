//! Verified text helpers: conversion between strings and character vectors,
//! leftmost non-overlapping pattern replacement, joining, and membership.

use vstd::prelude::*;
use vstd::string::*;

verus! {

/// Relies on str::chars collected through std's iterator machinery:
/// yields exactly the characters of the string, in order.
#[verifier::external_body]
pub fn string_chars(s: &str) -> (r: Vec<char>)
    ensures
        r@ == s@,
{
    s.chars().collect()
}

/// Relies on String::from_iter over characters: builds the string whose
/// characters are exactly those of the vector, in order.
#[verifier::external_body]
pub fn chars_string(v: &Vec<char>) -> (r: String)
    ensures
        r@ == v@,
{
    v.iter().collect()
}

/// The result of replacing, left to right and without overlap, every
/// occurrence of `pat` in `s` by `rep`.
pub open spec fn replace_all_spec(s: Seq<char>, pat: Seq<char>, rep: Seq<char>) -> Seq<char>
    decreases s.len(),
{
    if pat.len() == 0 || s.len() < pat.len() {
        s
    } else if s.subrange(0, pat.len() as int) == pat {
        rep + replace_all_spec(s.skip(pat.len() as int), pat, rep)
    } else {
        seq![s[0]] + replace_all_spec(s.skip(1), pat, rep)
    }
}

/// Whether `pat` occurs in `v` starting at index `i`.
fn matches_at(v: &Vec<char>, i: usize, pat: &Vec<char>) -> (r: bool)
    requires
        i <= v@.len(),
        pat@.len() <= v@.len() - i,
    ensures
        r == (v@.subrange(i as int, i + pat@.len()) == pat@),
{
    let vlen = v.len();
    let mut j: usize = 0;
    while j < pat.len()
        invariant
            0 <= j <= pat@.len(),
            i + pat@.len() <= v@.len(),
            v@.len() == vlen,
            forall|k: int| 0 <= k < j ==> v@[i + k] == pat@[k],
        decreases pat@.len() - j,
    {
        if v[i + j] != pat[j] {
            assert(v@.subrange(i as int, i + pat@.len())[j as int] != pat@[j as int]);
            return false;
        }
        j += 1;
    }
    assert(v@.subrange(i as int, i + pat@.len()) =~= pat@);
    true
}

/// Appends every character of `src` to `out`, in order.
pub fn push_all(out: &mut Vec<char>, src: &Vec<char>)
    ensures
        final(out)@ == old(out)@ + src@,
{
    let mut j: usize = 0;
    while j < src.len()
        invariant
            0 <= j <= src@.len(),
            out@ == old(out)@ + src@.subrange(0, j as int),
        decreases src@.len() - j,
    {
        out.push(src[j]);
        assert(out@ =~= old(out)@ + src@.subrange(0, j + 1));
        j += 1;
    }
    assert(out@ =~= old(out)@ + src@);
}

/// Replaces every occurrence of `pat` in `v` by `rep`, left to right,
/// without overlap.
pub fn replace_all(v: &Vec<char>, pat: &Vec<char>, rep: &Vec<char>) -> (r: Vec<char>)
    requires
        pat@.len() > 0,
    ensures
        r@ == replace_all_spec(v@, pat@, rep@),
{
    let mut out: Vec<char> = Vec::new();
    let mut i: usize = 0;
    proof {
        assert(v@.skip(0) =~= v@);
        assert(out@ + replace_all_spec(v@, pat@, rep@) =~= replace_all_spec(v@, pat@, rep@));
    }
    while i < v.len()
        invariant
            0 <= i <= v@.len(),
            pat@.len() > 0,
            replace_all_spec(v@, pat@, rep@) == out@ + replace_all_spec(
                v@.skip(i as int),
                pat@,
                rep@,
            ),
        decreases v@.len() - i,
    {
        let ghost i0 = i as int;
        let ghost out0 = out@;
        let ghost tail = v@.skip(i as int);
        let remaining = v.len() - i;
        if pat.len() <= remaining && matches_at(v, i, pat) {
            proof {
                assert(tail.subrange(0, pat@.len() as int) =~= v@.subrange(
                    i0,
                    i0 + pat@.len(),
                ));
                assert(tail.skip(pat@.len() as int) =~= v@.skip(i0 + pat@.len()));
                assert(replace_all_spec(tail, pat@, rep@) == rep@ + replace_all_spec(
                    v@.skip(i0 + pat@.len()),
                    pat@,
                    rep@,
                ));
            }
            push_all(&mut out, rep);
            i += pat.len();
            proof {
                assert(out0 + (rep@ + replace_all_spec(v@.skip(i as int), pat@, rep@)) =~= out@
                    + replace_all_spec(v@.skip(i as int), pat@, rep@));
            }
        } else {
            proof {
                if tail.len() >= pat@.len() {
                    assert(tail.subrange(0, pat@.len() as int) =~= v@.subrange(
                        i0,
                        i0 + pat@.len(),
                    ));
                }
                assert(tail =~= seq![v@[i0]] + v@.skip(i0 + 1));
                if tail.len() < pat@.len() {
                    assert(replace_all_spec(tail, pat@, rep@) == tail);
                    assert(v@.skip(i0 + 1).len() < pat@.len());
                    assert(replace_all_spec(v@.skip(i0 + 1), pat@, rep@) == v@.skip(i0 + 1));
                    assert(replace_all_spec(tail, pat@, rep@) == seq![v@[i0]]
                        + replace_all_spec(v@.skip(i0 + 1), pat@, rep@));
                } else {
                    assert(replace_all_spec(tail, pat@, rep@) == seq![tail[0]]
                        + replace_all_spec(tail.skip(1), pat@, rep@));
                    assert(tail.skip(1) =~= v@.skip(i0 + 1));
                    assert(tail[0] == v@[i0]);
                }
            }
            out.push(v[i]);
            i += 1;
            proof {
                assert(out0 + (seq![v@[i0]] + replace_all_spec(v@.skip(i as int), pat@, rep@))
                    =~= out@ + replace_all_spec(v@.skip(i as int), pat@, rep@));
            }
        }
    }
    proof {
        assert(v@.skip(i as int) =~= Seq::<char>::empty());
        assert(out@ + Seq::<char>::empty() =~= out@);
    }
    out
}

/// Whether one of the strings of `v` has the same characters as `s`.
pub open spec fn contains_text(v: Seq<Seq<char>>, s: Seq<char>) -> bool {
    exists|k: int| 0 <= k < v.len() && v[k] == s
}

/// Membership of a string in a vector of strings, compared by contents.
pub fn contains_string(v: &Vec<String>, s: &String) -> (r: bool)
    ensures
        r == contains_text(v.deep_view(), s@),
{
    let mut k: usize = 0;
    while k < v.len()
        invariant
            0 <= k <= v@.len(),
            v.deep_view().len() == v@.len(),
            forall|m: int| 0 <= m < v@.len() ==> v.deep_view()[m] == v@[m]@,
            forall|m: int| 0 <= m < k ==> v@[m]@ != s@,
        decreases v@.len() - k,
    {
        if v[k] == *s {
            assert(v.deep_view()[k as int] == s@);
            return true;
        }
        k += 1;
    }
    false
}

/// The strings of `parts` joined with `sep` between neighbours.
pub open spec fn join_spec(parts: Seq<Seq<char>>, sep: Seq<char>) -> Seq<char>
    decreases parts.len(),
{
    if parts.len() == 0 {
        Seq::empty()
    } else if parts.len() == 1 {
        parts[0]
    } else {
        parts[0] + sep + join_spec(parts.drop_first(), sep)
    }
}

/// Appending one more part to a non-empty join appends the separator and
/// then the part.
pub proof fn lemma_join_snoc(parts: Seq<Seq<char>>, sep: Seq<char>, last: Seq<char>)
    requires
        parts.len() >= 1,
    ensures
        join_spec(parts.push(last), sep) == join_spec(parts, sep) + sep + last,
    decreases parts.len(),
{
    if parts.len() == 1 {
        assert(parts.push(last).drop_first() =~= seq![last]);
        assert(join_spec(seq![last], sep) == last);
        assert(parts.push(last)[0] == parts[0]);
    } else {
        lemma_join_snoc(parts.drop_first(), sep, last);
        assert(parts.push(last).drop_first() =~= parts.drop_first().push(last));
        assert(parts.push(last)[0] == parts[0]);
        assert(parts[0] + sep + (join_spec(parts.drop_first(), sep) + sep + last) =~= (parts[0]
            + sep + join_spec(parts.drop_first(), sep)) + sep + last);
    }
}

/// The hex form of the all-zero commit identifier: forty zero digits.
pub open spec fn zero_hash_spec() -> Seq<char> {
    Seq::new(40, |k: int| '0')
}

/// The all-zero commit identifier, used as the parent of a root commit.
pub fn zero_hash() -> (r: String)
    ensures
        r@ == zero_hash_spec(),
{
    let mut v: Vec<char> = Vec::new();
    let mut k: usize = 0;
    while k < 40
        invariant
            0 <= k <= 40,
            v@.len() == k,
            forall|m: int| 0 <= m < k ==> v@[m] == '0',
        decreases 40 - k,
    {
        v.push('0');
        k += 1;
    }
    proof {
        assert(v@ =~= zero_hash_spec());
    }
    chars_string(&v)
}

} // verus!
