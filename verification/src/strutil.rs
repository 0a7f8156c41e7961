//! Verified character-level string utilities: substring search, suffix
//! extraction and joining. Everything here is stated over `Seq<char>` views.

use vstd::prelude::*;

verus! {

/// The first index `i >= from` at which `pat` occurs in `s`, if any.
pub open spec fn first_match_from(s: Seq<char>, pat: Seq<char>, from: int) -> Option<int>
    decreases s.len() + 1 - from,
{
    if from < 0 || from + pat.len() > s.len() {
        None
    } else if s.subrange(from, from + pat.len() as int) == pat {
        Some(from)
    } else {
        first_match_from(s, pat, from + 1)
    }
}

/// Whether `pat` occurs anywhere in `s`.
pub open spec fn contains_seq(s: Seq<char>, pat: Seq<char>) -> bool {
    first_match_from(s, pat, 0) is Some
}

/// A found match really is a match: it lies in range and the slice agrees.
pub proof fn lemma_first_match_is_match(s: Seq<char>, pat: Seq<char>, from: int)
    requires
        first_match_from(s, pat, from) is Some,
    ensures
        ({
            let i = first_match_from(s, pat, from)->0;
            &&& from <= i
            &&& i + pat.len() <= s.len()
            &&& s.subrange(i, i + pat.len() as int) == pat
        }),
    decreases s.len() + 1 - from,
{
    if !(from < 0 || from + pat.len() > s.len())
        && s.subrange(from, from + pat.len() as int) != pat {
        lemma_first_match_is_match(s, pat, from + 1);
    }
}

/// Tests whether `pat` occurs in `s` at exactly position `i`.
fn match_at(s: &str, pat: &str, i: usize) -> (r: bool)
    requires
        i + pat@.len() <= s@.len(),
    ensures
        r == (s@.subrange(i as int, i + pat@.len()) == pat@),
{
    let slen = s.unicode_len();
    let plen = pat.unicode_len();
    let mut k: usize = 0;
    while k < plen
        invariant
            slen == s@.len(),
            i + plen <= slen,
            plen == pat@.len(),
            k <= plen,
            forall|j: int| 0 <= j < k ==> s@[i + j] == pat@[j],
        decreases plen - k,
    {
        if s.get_char(i + k) != pat.get_char(k) {
            assert(s@.subrange(i as int, i + pat@.len())[k as int] != pat@[k as int]);
            return false;
        }
        k += 1;
    }
    assert(s@.subrange(i as int, i + pat@.len()) =~= pat@);
    true
}

/// Finds the first occurrence of `pat` in `s` at or after `from`.
pub fn find_from(s: &str, pat: &str, from: usize) -> (r: Option<usize>)
    ensures
        match r {
            Some(i) => first_match_from(s@, pat@, from as int) == Some(i as int),
            None => first_match_from(s@, pat@, from as int) is None,
        },
{
    let slen = s.unicode_len();
    let plen = pat.unicode_len();
    if from > slen || plen > slen - from {
        return None;
    }
    if plen == 0 {
        proof {
            assert(s@.subrange(from as int, from as int) =~= pat@);
        }
        return Some(from);
    }
    let mut i = from;
    while i <= slen - plen
        invariant
            slen == s@.len(),
            plen == pat@.len(),
            1 <= plen <= slen,
            from <= i,
            i <= slen - plen + 1,
            first_match_from(s@, pat@, from as int) == first_match_from(s@, pat@, i as int),
        decreases slen - plen - i + 1,
    {
        if match_at(s, pat, i) {
            return Some(i);
        }
        assert(first_match_from(s@, pat@, i as int) == first_match_from(s@, pat@, i + 1));
        i += 1;
    }
    assert(first_match_from(s@, pat@, i as int) is None);
    None
}

/// Whether `pat` occurs anywhere in `s`.
pub fn contains_sub(s: &str, pat: &str) -> (r: bool)
    ensures
        r == contains_seq(s@, pat@),
{
    find_from(s, pat, 0).is_some()
}

/// The suffix of `s` after its last `'/'`; all of `s` when it has none.
pub open spec fn last_seg(s: Seq<char>) -> Seq<char>
    decreases s.len(),
{
    if s.len() == 0 {
        s
    } else if s[s.len() - 1] == '/' {
        Seq::empty()
    } else {
        last_seg(s.drop_last()).push(s[s.len() - 1])
    }
}

/// If no character of `s` from `i + 1` on is a `'/'`, the last segment of `s`
/// is its suffix from `i + 1`.
proof fn lemma_last_seg_after(s: Seq<char>, i: int)
    requires
        0 <= i < s.len(),
        s[i] == '/',
        forall|j: int| i < j < s.len() ==> s[j] != '/',
    ensures
        last_seg(s) == s.subrange(i + 1, s.len() as int),
    decreases s.len(),
{
    if s.len() == i + 1 {
        assert(last_seg(s) =~= s.subrange(i + 1, s.len() as int));
    } else {
        lemma_last_seg_after(s.drop_last(), i);
        assert(s.drop_last().subrange(i + 1, s.len() - 1) =~= s.subrange(i + 1, s.len() - 1));
        assert(last_seg(s) =~= s.subrange(i + 1, s.len() as int));
    }
}

/// If `s` holds no `'/'` at all, it is its own last segment.
proof fn lemma_last_seg_whole(s: Seq<char>)
    requires
        forall|j: int| 0 <= j < s.len() ==> s[j] != '/',
    ensures
        last_seg(s) == s,
    decreases s.len(),
{
    if s.len() > 0 {
        lemma_last_seg_whole(s.drop_last());
        assert(last_seg(s) =~= s);
    }
}

/// The suffix of `s` after its last `'/'`.
pub fn last_segment(s: &str) -> (r: String)
    ensures
        r@ == last_seg(s@),
{
    let slen = s.unicode_len();
    let mut i = slen;
    while i > 0
        invariant
            slen == s@.len(),
            i <= slen,
            forall|j: int| i <= j < slen ==> s@[j] != '/',
        decreases i,
    {
        if s.get_char(i - 1) == '/' {
            let r = s.substring_char(i, slen).to_owned();
            proof {
                lemma_last_seg_after(s@, i - 1);
            }
            return r;
        }
        i -= 1;
    }
    proof {
        lemma_last_seg_whole(s@);
    }
    s.substring_char(0, slen).to_owned()
}

/// The sequences of `ss`, joined with `sep` between consecutive elements.
pub open spec fn join_seqs(ss: Seq<Seq<char>>, sep: Seq<char>) -> Seq<char>
    decreases ss.len(),
{
    if ss.len() == 0 {
        Seq::empty()
    } else if ss.len() == 1 {
        ss[0]
    } else {
        ss[0] + sep + join_seqs(ss.drop_first(), sep)
    }
}

/// Joining one more element appends a separator and the element.
proof fn lemma_join_push(ss: Seq<Seq<char>>, sep: Seq<char>, x: Seq<char>)
    requires
        ss.len() >= 1,
    ensures
        join_seqs(ss.push(x), sep) == join_seqs(ss, sep) + sep + x,
    decreases ss.len(),
{
    assert(ss.push(x)[0] == ss[0]);
    if ss.len() == 1 {
        assert(ss.push(x).drop_first() =~= seq![x]);
        assert(join_seqs(seq![x], sep) == x);
        assert(join_seqs(ss.push(x), sep) =~= join_seqs(ss, sep) + sep + x);
    } else {
        lemma_join_push(ss.drop_first(), sep, x);
        assert(ss.push(x).drop_first() =~= ss.drop_first().push(x));
        assert(join_seqs(ss.push(x), sep) =~= join_seqs(ss, sep) + sep + x);
    }
}

/// Joins the strings of `v` with `sep` between consecutive elements.
pub fn join_strings(v: &Vec<String>, sep: &str) -> (r: String)
    ensures
        r@ == join_seqs(v.deep_view(), sep@),
{
    if v.len() == 0 {
        return String::new();
    }
    let mut r: String = v[0].clone();
    let mut i: usize = 1;
    while i < v.len()
        invariant
            1 <= i <= v.len(),
            r@ == join_seqs(v.deep_view().take(i as int), sep@),
        decreases v.len() - i,
    {
        r.append(sep);
        r.append(v[i].as_str());
        proof {
            lemma_join_push(v.deep_view().take(i as int), sep@, v.deep_view()[i as int]);
            assert(v.deep_view().take(i as int).push(v.deep_view()[i as int])
                =~= v.deep_view().take(i + 1));
        }
        i += 1;
    }
    proof {
        assert(v.deep_view().take(v.len() as int) =~= v.deep_view());
    }
    r
}

/// Whether two strings hold the same characters.
pub fn str_eq(a: &str, b: &str) -> (r: bool)
    ensures
        r == (a@ == b@),
{
    let alen = a.unicode_len();
    let blen = b.unicode_len();
    if alen != blen {
        return false;
    }
    let mut i: usize = 0;
    while i < alen
        invariant
            alen == a@.len(),
            alen == b@.len(),
            i <= alen,
            forall|j: int| 0 <= j < i ==> a@[j] == b@[j],
        decreases alen - i,
    {
        if a.get_char(i) != b.get_char(i) {
            return false;
        }
        i += 1;
    }
    proof {
        assert(a@ =~= b@);
    }
    true
}

/// The concatenation of two strings.
pub fn concat_str(a: &str, b: &str) -> (r: String)
    ensures
        r@ == a@ + b@,
{
    let mut r = a.to_owned();
    r.append(b);
    r
}

} // verus!
