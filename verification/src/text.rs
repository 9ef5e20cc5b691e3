//! Verified helpers over strings: character search, equality, prefix tests,
//! separator splitting and first-seen-order deduplication.
//!
//! The spec functions here are the vocabulary that the engine's contracts are
//! written in; the exec functions are proved against them.

use vstd::prelude::*;
use vstd::string::StrSliceExecFns;

verus! {

/// Index of the first occurrence of `c` in `s`, if any.
pub open spec fn find_first(s: Seq<char>, c: char) -> Option<int>
    decreases s.len(),
{
    if s.len() == 0 {
        None
    } else if s[0] == c {
        Some(0)
    } else {
        match find_first(s.drop_first(), c) {
            Some(i) => Some(i + 1),
            None => None,
        }
    }
}

/// Index of the last occurrence of `c` in `s`, if any.
pub open spec fn find_last(s: Seq<char>, c: char) -> Option<int>
    decreases s.len(),
{
    if s.len() == 0 {
        None
    } else if s[s.len() - 1] == c {
        Some(s.len() - 1)
    } else {
        find_last(s.drop_last(), c)
    }
}

/// `find_first` returns the first occurrence, and `None` means no occurrence.
pub proof fn lemma_find_first(s: Seq<char>, c: char)
    ensures
        match find_first(s, c) {
            Some(i) => 0 <= i < s.len() && s[i] == c && (forall|j: int| 0 <= j < i ==> s[j] != c),
            None => forall|j: int| 0 <= j < s.len() ==> s[j] != c,
        },
    decreases s.len(),
{
    if s.len() == 0 {
    } else if s[0] == c {
    } else {
        lemma_find_first(s.drop_first(), c);
        match find_first(s.drop_first(), c) {
            Some(i) => {
                assert(s.drop_first()[i] == s[i + 1]);
                assert forall|j: int| 0 <= j < i + 1 implies s[j] != c by {
                    if j > 0 {
                        assert(s[j] == s.drop_first()[j - 1]);
                    }
                }
            },
            None => {
                assert forall|j: int| 0 <= j < s.len() implies s[j] != c by {
                    if j > 0 {
                        assert(s[j] == s.drop_first()[j - 1]);
                    }
                }
            },
        }
    }
}

/// If `c` stands at `i` and nowhere earlier, the first occurrence is `i`.
pub proof fn lemma_find_first_at(s: Seq<char>, c: char, i: int)
    requires
        0 <= i < s.len(),
        s[i] == c,
        forall|j: int| 0 <= j < i ==> s[j] != c,
    ensures
        find_first(s, c) == Some(i),
{
    lemma_find_first(s, c);
}

/// `find_last` returns the last occurrence, and `None` means no occurrence.
pub proof fn lemma_find_last(s: Seq<char>, c: char)
    ensures
        match find_last(s, c) {
            Some(i) => 0 <= i < s.len() && s[i] == c && (forall|j: int|
                i < j < s.len() ==> s[j] != c),
            None => forall|j: int| 0 <= j < s.len() ==> s[j] != c,
        },
    decreases s.len(),
{
    if s.len() == 0 {
    } else if s[s.len() - 1] == c {
    } else {
        lemma_find_last(s.drop_last(), c);
        assert(forall|j: int| 0 <= j < s.drop_last().len() ==> s.drop_last()[j] == s[j]);
    }
}

/// If `c` stands at `i` and nowhere later, the last occurrence is `i`.
pub proof fn lemma_find_last_at(s: Seq<char>, c: char, i: int)
    requires
        0 <= i < s.len(),
        s[i] == c,
        forall|j: int| i < j < s.len() ==> s[j] != c,
    ensures
        find_last(s, c) == Some(i),
{
    lemma_find_last(s, c);
}

/// First occurrence of `c` in `s`, executably.
pub fn find_char(s: &str, c: char) -> (r: Option<usize>)
    ensures
        match r {
            Some(i) => find_first(s@, c) == Some(i as int),
            None => find_first(s@, c) is None,
        },
{
    let n = s.unicode_len();
    let mut i: usize = 0;
    while i < n
        invariant
            i <= n,
            n == s@.len(),
            forall|j: int| 0 <= j < i ==> s@[j] != c,
        decreases n - i,
    {
        if s.get_char(i) == c {
            proof {
                lemma_find_first_at(s@, c, i as int);
            }
            return Some(i);
        }
        i = i + 1;
    }
    proof {
        lemma_find_first(s@, c);
    }
    None
}

/// Last occurrence of `c` in `s`, executably.
pub fn rfind_char(s: &str, c: char) -> (r: Option<usize>)
    ensures
        match r {
            Some(i) => find_last(s@, c) == Some(i as int),
            None => find_last(s@, c) is None,
        },
{
    let n = s.unicode_len();
    let mut i: usize = n;
    while i > 0
        invariant
            i <= n,
            n == s@.len(),
            forall|j: int| i <= j < n ==> s@[j] != c,
        decreases i,
    {
        if s.get_char(i - 1) == c {
            proof {
                lemma_find_last_at(s@, c, i as int - 1);
            }
            return Some(i - 1);
        }
        i = i - 1;
    }
    proof {
        lemma_find_last(s@, c);
    }
    None
}

/// Character-wise string equality.
pub fn str_eq(a: &str, b: &str) -> (r: bool)
    ensures
        r == (a@ == b@),
{
    let la = a.unicode_len();
    let lb = b.unicode_len();
    if la != lb {
        return false;
    }
    let mut i: usize = 0;
    while i < la
        invariant
            i <= la,
            la == a@.len(),
            la == b@.len(),
            forall|j: int| 0 <= j < i ==> a@[j] == b@[j],
        decreases la - i,
    {
        if a.get_char(i) != b.get_char(i) {
            return false;
        }
        i = i + 1;
    }
    proof {
        assert(a@ =~= b@);
    }
    true
}

/// Whether `p` is a prefix of `s`.
pub fn str_starts_with(s: &str, p: &str) -> (r: bool)
    ensures
        r == p@.is_prefix_of(s@),
{
    let ls = s.unicode_len();
    let lp = p.unicode_len();
    if lp > ls {
        proof {
            assert(!p@.is_prefix_of(s@));
        }
        return false;
    }
    let mut i: usize = 0;
    while i < lp
        invariant
            i <= lp,
            lp <= ls,
            ls == s@.len(),
            lp == p@.len(),
            forall|j: int| 0 <= j < i ==> p@[j] == s@[j],
        decreases lp - i,
    {
        if p.get_char(i) != s.get_char(i) {
            proof {
                assert(s@.subrange(0, lp as int)[i as int] == s@[i as int]);
            }
            return false;
        }
        i = i + 1;
    }
    proof {
        assert(p@ =~= s@.subrange(0, lp as int));
    }
    true
}

/// Copy of the character range `[from, to)` of `s`.
pub fn substring(s: &str, from: usize, to: usize) -> (r: String)
    requires
        from <= to <= s@.len(),
    ensures
        r@ == s@.subrange(from as int, to as int),
{
    s.substring_char(from, to).to_owned()
}

/// `s` split on `sep`: the separated pieces, in order, separators removed.
/// A string without the separator is a single piece; every separator ends a
/// piece, so adjacent separators yield empty pieces.
pub open spec fn split_spec(s: Seq<char>, sep: char) -> Seq<Seq<char>>
    decreases s.len(),
{
    match find_first(s, sep) {
        Some(i) => if 0 <= i < s.len() {
            seq![s.subrange(0, i)] + split_spec(s.subrange(i + 1, s.len() as int), sep)
        } else {
            seq![s]
        },
        None => seq![s],
    }
}

/// Split `s` on `sep`, executably.
pub fn split_on_char(s: &str, sep: char) -> (r: Vec<String>)
    ensures
        r.deep_view() == split_spec(s@, sep),
{
    let mut out: Vec<String> = Vec::new();
    let mut rest: &str = s;
    loop
        invariant
            split_spec(s@, sep) == out.deep_view() + split_spec(rest@, sep),
        decreases rest@.len(),
    {
        let ghost prev = rest@;
        let ghost out_prev = out.deep_view();
        match find_char(rest, sep) {
            Some(i) => {
                proof {
                    lemma_find_first(prev, sep);
                }
                let n = rest.unicode_len();
                let piece = substring(rest, 0, i);
                out.push(piece);
                rest = rest.substring_char(i + 1, n);
                proof {
                    lemma_find_first(prev, sep);
                    assert(split_spec(prev, sep) == seq![prev.subrange(0, i as int)]
                        + split_spec(prev.subrange(i as int + 1, prev.len() as int), sep));
                    assert(out.deep_view() =~= out_prev.push(prev.subrange(0, i as int)));
                    assert(out.deep_view() + split_spec(rest@, sep) =~= out_prev + split_spec(
                        prev,
                        sep,
                    ));
                }
            },
            None => {
                let whole = rest.to_owned();
                out.push(whole);
                proof {
                    assert(split_spec(prev, sep) == seq![prev]);
                    assert(out.deep_view() =~= out_prev.push(prev));
                    assert(out.deep_view() =~= out_prev + split_spec(prev, sep));
                }
                return out;
            },
        }
    }
}

/// `s` with later repetitions of an entry removed: the first occurrence of
/// each entry survives, in its first-seen position.
pub open spec fn dedup_spec(s: Seq<Seq<char>>) -> Seq<Seq<char>>
    decreases s.len(),
{
    if s.len() == 0 {
        Seq::empty()
    } else {
        let prefix = dedup_spec(s.drop_last());
        if prefix.contains(s.last()) {
            prefix
        } else {
            prefix.push(s.last())
        }
    }
}

/// Whether some entry of `v` equals `x`.
pub fn vec_contains_str(v: &Vec<String>, x: &str) -> (r: bool)
    ensures
        r == v.deep_view().contains(x@),
{
    let mut i: usize = 0;
    while i < v.len()
        invariant
            i <= v.len(),
            forall|j: int| 0 <= j < i ==> v.deep_view()[j] != x@,
        decreases v.len() - i,
    {
        if str_eq(v[i].as_str(), x) {
            proof {
                assert(v.deep_view()[i as int] == x@);
            }
            return true;
        }
        i = i + 1;
    }
    proof {
        if v.deep_view().contains(x@) {
            let k = choose|k: int| 0 <= k < v.deep_view().len() && v.deep_view()[k] == x@;
            assert(v.deep_view()[k] != x@);
        }
    }
    false
}

/// Remove later repetitions, keeping first-seen order.
pub fn dedup_strings(v: &Vec<String>) -> (r: Vec<String>)
    ensures
        r.deep_view() == dedup_spec(v.deep_view()),
{
    let mut out: Vec<String> = Vec::new();
    let mut i: usize = 0;
    while i < v.len()
        invariant
            i <= v.len(),
            out.deep_view() == dedup_spec(v.deep_view().take(i as int)),
        decreases v.len() - i,
    {
        let ghost out_prev = out.deep_view();
        if !vec_contains_str(&out, v[i].as_str()) {
            let x = v[i].clone();
            out.push(x);
        }
        i = i + 1;
        proof {
            let t = v.deep_view().take(i as int);
            assert(t.drop_last() =~= v.deep_view().take(i as int - 1));
            assert(t.last() == v.deep_view()[i as int - 1]);
            if out_prev.contains(v.deep_view()[i as int - 1]) {
                assert(out.deep_view() == dedup_spec(t));
            } else {
                assert(out.deep_view() =~= out_prev.push(v.deep_view()[i as int - 1]));
            }
        }
    }
    proof {
        assert(v.deep_view().take(v.deep_view().len() as int) =~= v.deep_view());
    }
    out
}

} // verus!
