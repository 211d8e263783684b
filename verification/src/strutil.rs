//! Verified helpers for character-level string processing.
//!
//! All contracts are stated over the `Seq<char>` views of `&str` and
//! `String`.

use vstd::prelude::*;
use vstd::string::*;

verus! {

/// `needle` occurs in `hay` starting at character position `i`.
pub open spec fn matches_at(hay: Seq<char>, needle: Seq<char>, i: int) -> bool {
    &&& 0 <= i
    &&& i + needle.len() <= hay.len()
    &&& hay.subrange(i, i + needle.len() as int) == needle
}

/// `needle` occurs somewhere in `hay`.
pub open spec fn spec_contains(hay: Seq<char>, needle: Seq<char>) -> bool {
    exists|i: int| matches_at(hay, needle, i)
}

/// `p` is a prefix of `s`.
pub open spec fn spec_starts_with(s: Seq<char>, p: Seq<char>) -> bool {
    p.len() <= s.len() && s.subrange(0, p.len() as int) == p
}

/// Start of the last occurrence of `needle` at or before position `i`.
pub open spec fn spec_find_last_from(hay: Seq<char>, needle: Seq<char>, i: int) -> Option<int>
    decreases i + 1,
{
    if i < 0 {
        None
    } else if matches_at(hay, needle, i) {
        Some(i)
    } else {
        spec_find_last_from(hay, needle, i - 1)
    }
}

/// Start of the last occurrence of `needle` in `hay`, if any.
pub open spec fn spec_find_last(hay: Seq<char>, needle: Seq<char>) -> Option<int> {
    spec_find_last_from(hay, needle, hay.len() - needle.len())
}

/// What `spec_find_last_from` returns is the last match at or before `i`.
pub proof fn lemma_find_last_from(hay: Seq<char>, needle: Seq<char>, i: int)
    ensures
        match spec_find_last_from(hay, needle, i) {
            Some(k) => 0 <= k <= i && matches_at(hay, needle, k) && (forall|j: int|
                k < j <= i ==> !matches_at(hay, needle, j)),
            None => forall|j: int| j <= i ==> !matches_at(hay, needle, j),
        },
    decreases i + 1,
{
    if i >= 0 && !matches_at(hay, needle, i) {
        lemma_find_last_from(hay, needle, i - 1);
    }
}

/// `spec_find_last` succeeds exactly when `needle` occurs in `hay`, and
/// then names the start of the last occurrence.
pub proof fn lemma_find_last_contains(hay: Seq<char>, needle: Seq<char>)
    ensures
        spec_find_last(hay, needle) is Some <==> spec_contains(hay, needle),
        match spec_find_last(hay, needle) {
            Some(k) => matches_at(hay, needle, k) && (forall|j: int|
                j > k ==> !matches_at(hay, needle, j)),
            None => true,
        },
{
    lemma_find_last_from(hay, needle, hay.len() - needle.len());
    if spec_contains(hay, needle) {
        let w = choose|i: int| matches_at(hay, needle, i);
        assert(w <= hay.len() - needle.len());
    }
}

/// Whether `needle` occurs in `hay` at character position `i`.
pub fn contains_at(hay: &str, needle: &str, i: usize) -> (r: bool)
    requires
        i + needle@.len() <= hay@.len(),
    ensures
        r == matches_at(hay@, needle@, i as int),
{
    let n = needle.unicode_len();
    let hay_len = hay.unicode_len();
    let mut j: usize = 0;
    while j < n
        invariant
            j <= n,
            n == needle@.len(),
            hay_len == hay@.len(),
            i + n <= hay@.len(),
            forall|k: int| 0 <= k < j ==> hay@[i + k] == needle@[k],
        decreases n - j,
    {
        if hay.get_char(i + j) != needle.get_char(j) {
            proof {
                assert(hay@.subrange(i as int, i + n as int)[j as int] == hay@[i + j]);
            }
            return false;
        }
        j += 1;
    }
    proof {
        assert(hay@.subrange(i as int, i + n as int) =~= needle@);
    }
    true
}

/// Whether the views of `a` and `b` are equal.
pub fn str_eq(a: &str, b: &str) -> (r: bool)
    ensures
        r == (a@ == b@),
{
    let al = a.unicode_len();
    let bl = b.unicode_len();
    if al != bl {
        return false;
    }
    let r = contains_at(a, b, 0);
    proof {
        assert(a@.subrange(0, al as int) =~= a@);
    }
    r
}

/// Whether `p` is a prefix of `s`.
pub fn starts_with(s: &str, p: &str) -> (r: bool)
    ensures
        r == spec_starts_with(s@, p@),
{
    let sl = s.unicode_len();
    let pl = p.unicode_len();
    if pl > sl {
        return false;
    }
    contains_at(s, p, 0)
}

/// Position of the last occurrence of `needle` in `hay`, if any.
pub fn find_last(hay: &str, needle: &str) -> (r: Option<usize>)
    requires
        needle@.len() > 0,
    ensures
        match r {
            Some(k) => spec_find_last(hay@, needle@) == Some(k as int),
            None => spec_find_last(hay@, needle@) is None,
        },
{
    let hay_len = hay.unicode_len();
    let needle_len = needle.unicode_len();
    if needle_len > hay_len {
        return None;
    }
    let start: usize = hay_len - needle_len;
    let mut i: usize = start;
    loop
        invariant
            0 <= i <= start,
            start == hay@.len() - needle@.len(),
            needle_len == needle@.len(),
            hay_len == hay@.len(),
            spec_find_last(hay@, needle@) == spec_find_last_from(hay@, needle@, i as int),
        decreases i,
    {
        if contains_at(hay, needle, i) {
            return Some(i);
        }
        if i == 0 {
            return None;
        }
        i -= 1;
    }
}

/// `p` is a suffix of `s`.
pub open spec fn spec_ends_with(s: Seq<char>, p: Seq<char>) -> bool {
    p.len() <= s.len() && s.subrange(s.len() - p.len(), s.len() as int) == p
}

/// Whether `p` is a suffix of `s`.
pub fn ends_with(s: &str, p: &str) -> (r: bool)
    ensures
        r == spec_ends_with(s@, p@),
{
    let sl = s.unicode_len();
    let pl = p.unicode_len();
    if pl > sl {
        return false;
    }
    contains_at(s, p, sl - pl)
}

/// Whether `needle` occurs anywhere in `hay`.
pub fn contains(hay: &str, needle: &str) -> (r: bool)
    requires
        needle@.len() > 0,
    ensures
        r == spec_contains(hay@, needle@),
{
    proof {
        lemma_find_last_contains(hay@, needle@);
    }
    find_last(hay, needle).is_some()
}


/// The decimal digit `d` as a character.
pub open spec fn spec_digit_char(d: int) -> char {
    if d == 0 {
        '0'
    } else if d == 1 {
        '1'
    } else if d == 2 {
        '2'
    } else if d == 3 {
        '3'
    } else if d == 4 {
        '4'
    } else if d == 5 {
        '5'
    } else if d == 6 {
        '6'
    } else if d == 7 {
        '7'
    } else if d == 8 {
        '8'
    } else {
        '9'
    }
}

/// Decimal digits of `n`, most significant first.
pub open spec fn spec_digits(n: int) -> Seq<char>
    decreases n,
{
    if n < 10 {
        seq![spec_digit_char(n)]
    } else {
        spec_digits(n / 10) + seq![spec_digit_char(n % 10)]
    }
}

/// The single decimal digit `d` as a string.
fn digit_str(d: u16) -> (r: &'static str)
    requires
        d < 10,
    ensures
        r@ == seq![spec_digit_char(d as int)],
{
    proof {
        reveal_strlit("0");
        reveal_strlit("1");
        reveal_strlit("2");
        reveal_strlit("3");
        reveal_strlit("4");
        reveal_strlit("5");
        reveal_strlit("6");
        reveal_strlit("7");
        reveal_strlit("8");
        reveal_strlit("9");
    }
    let r = match d {
        0 => "0",
        1 => "1",
        2 => "2",
        3 => "3",
        4 => "4",
        5 => "5",
        6 => "6",
        7 => "7",
        8 => "8",
        _ => "9",
    };
    proof {
        assert(r@ =~= seq![spec_digit_char(d as int)]);
    }
    r
}

/// The decimal form of `n`.
pub fn u16_to_string(n: u16) -> (r: String)
    ensures
        r@ == spec_digits(n as int),
    decreases n,
{
    if n < 10 {
        String::from_str(digit_str(n))
    } else {
        let mut s = u16_to_string(n / 10);
        s.append(digit_str(n % 10));
        proof {
            assert(s@ =~= spec_digits(n as int));
        }
        s
    }
}

/// `s` with every occurrence of `from`, scanned left to right, replaced
/// by `to`.
pub open spec fn spec_replace(s: Seq<char>, from: Seq<char>, to: Seq<char>) -> Seq<char>
    decreases s.len(),
{
    if from.len() == 0 || s.len() < from.len() {
        s
    } else if s.subrange(0, from.len() as int) == from {
        to + spec_replace(s.skip(from.len() as int), from, to)
    } else {
        seq![s[0]] + spec_replace(s.skip(1), from, to)
    }
}

/// Replaces every occurrence of `from` in `s`, scanned left to right, by
/// `to`.
pub fn replace_all(s: &str, from: &str, to: &str) -> (r: String)
    requires
        from@.len() > 0,
    ensures
        r@ == spec_replace(s@, from@, to@),
{
    let s_len = s.unicode_len();
    let from_len = from.unicode_len();
    let mut out = String::new();
    let mut i: usize = 0;
    proof {
        assert(s@.skip(0) =~= s@);
        assert(out@ + spec_replace(s@, from@, to@) =~= spec_replace(s@, from@, to@));
    }
    while i < s_len
        invariant
            i <= s_len,
            s_len == s@.len(),
            from_len == from@.len(),
            from@.len() > 0,
            spec_replace(s@, from@, to@) == out@ + spec_replace(s@.skip(i as int), from@, to@),
        decreases s_len - i,
    {
        let ghost rest = s@.skip(i as int);
        if from_len <= s_len - i && contains_at(s, from, i) {
            out.append(to);
            i = i + from_len;
            proof {
                assert(rest.subrange(0, from@.len() as int) =~= s@.subrange(
                    i - from@.len(),
                    i as int,
                ));
                assert(rest.skip(from@.len() as int) =~= s@.skip(i as int));
            }
        } else {
            let c = s.substring_char(i, i + 1);
            out.append(c);
            i = i + 1;
            proof {
                assert(c@ =~= seq![s@[i - 1]]);
                assert(rest[0] == s@[i - 1]);
                if from@.len() <= rest.len() {
                    assert(rest.subrange(0, from@.len() as int) =~= s@.subrange(
                        i - 1,
                        i - 1 + from@.len(),
                    ));
                    assert(rest.skip(1) =~= s@.skip(i as int));
                    assert(spec_replace(rest, from@, to@) == seq![rest[0]] + spec_replace(
                        s@.skip(i as int),
                        from@,
                        to@,
                    ));
                } else {
                    assert(spec_replace(rest, from@, to@) == rest);
                    assert(rest =~= seq![rest[0]] + s@.skip(i as int));
                    assert(spec_replace(s@.skip(i as int), from@, to@) == s@.skip(i as int));
                }
            }
        }
    }
    proof {
        assert(s@.skip(s_len as int) =~= Seq::<char>::empty());
        assert(spec_replace(s@.skip(s_len as int), from@, to@) == Seq::<char>::empty());
        assert(out@ + Seq::<char>::empty() =~= out@);
    }
    out
}

} // verus!
