//! Lexicographic order on strings and sorted, duplicate-free string lists.
use vstd::prelude::*;
use crate::text::{char_views, chars_eq, chars_of_string, string_of, views};

verus! {

/// `a` sorts strictly before `b` (`String`'s `Ord`: code point order, shorter prefix first).
pub open spec fn lex_lt(a: Seq<char>, b: Seq<char>) -> bool
    decreases a.len(),
{
    if a.len() == 0 {
        b.len() > 0
    } else if b.len() == 0 {
        false
    } else if a[0] != b[0] {
        a[0] < b[0]
    } else {
        lex_lt(a.drop_first(), b.drop_first())
    }
}

/// Every element sorts strictly before every later one.
pub open spec fn strictly_sorted(s: Seq<Seq<char>>) -> bool {
    forall|i: int, j: int| 0 <= i < j < s.len() ==> lex_lt(#[trigger] s[i], #[trigger] s[j])
}

/// No string sorts strictly before itself.
pub proof fn lemma_lex_irreflexive(a: Seq<char>)
    ensures
        !lex_lt(a, a),
    decreases a.len(),
{
    if a.len() > 0 {
        lemma_lex_irreflexive(a.drop_first());
    }
}

/// The order is transitive.
pub proof fn lemma_lex_transitive(a: Seq<char>, b: Seq<char>, c: Seq<char>)
    requires
        lex_lt(a, b),
        lex_lt(b, c),
    ensures
        lex_lt(a, c),
    decreases a.len(),
{
    if a.len() > 0 && b.len() > 0 && c.len() > 0 {
        if a[0] == b[0] && b[0] == c[0] {
            lemma_lex_transitive(a.drop_first(), b.drop_first(), c.drop_first());
        }
    }
}

/// Two different strings are ordered one way or the other.
pub proof fn lemma_lex_total(a: Seq<char>, b: Seq<char>)
    requires
        a != b,
    ensures
        lex_lt(a, b) || lex_lt(b, a),
    decreases a.len(),
{
    if a.len() > 0 && b.len() > 0 && a[0] == b[0] {
        if a.drop_first() == b.drop_first() {
            assert(a =~= seq![a[0]] + a.drop_first());
            assert(b =~= seq![b[0]] + b.drop_first());
        }
        lemma_lex_total(a.drop_first(), b.drop_first());
    } else if a.len() == 0 && b.len() == 0 {
        assert(a =~= b);
    } else if a.len() > 0 && b.len() > 0 {
        
    }
}

/// Whether `a` sorts strictly before `b`.
pub fn lex_less(a: &Vec<char>, b: &Vec<char>) -> (r: bool)
    ensures
        r == lex_lt(a@, b@),
{
    let mut i: usize = 0;
    assert(a@.skip(0) =~= a@ && b@.skip(0) =~= b@);
    while i < a.len() && i < b.len()
        invariant
            i <= a.len(),
            i <= b.len(),
            lex_lt(a@, b@) == lex_lt(a@.skip(i as int), b@.skip(i as int)),
        decreases a.len() - i,
    {
        if a[i] != b[i] {
            return a[i] < b[i];
        }
        assert(a@.skip(i as int).drop_first() =~= a@.skip(i + 1));
        assert(b@.skip(i as int).drop_first() =~= b@.skip(i + 1));
        i += 1;
    }
    i == a.len() && i < b.len()
}

/// `s` with `x` inserted at `p`.
proof fn lemma_insert_sorted(s: Seq<Seq<char>>, p: int, x: Seq<char>)
    requires
        strictly_sorted(s),
        0 <= p <= s.len(),
        forall|i: int| 0 <= i < p ==> lex_lt(#[trigger] s[i], x),
        p < s.len() ==> lex_lt(x, s[p]),
    ensures
        strictly_sorted(s.insert(p, x)),
{
    let t = s.insert(p, x);
    assert forall|i: int, j: int| 0 <= i < j < t.len() implies lex_lt(#[trigger] t[i], #[trigger] t[j]) by {
        if j < p {
            assert(t[i] == s[i] && t[j] == s[j]);
        } else if j == p {
            assert(t[i] == s[i]);
        } else if i < p {
            assert(t[i] == s[i] && t[j] == s[j - 1]);
            lemma_lex_transitive(s[i], x, s[p]);
            if j - 1 > p {
                lemma_lex_transitive(s[i], s[p], s[j - 1]);
            }
        } else if i == p {
            assert(t[j] == s[j - 1]);
            if j - 1 > p {
                lemma_lex_transitive(x, s[p], s[j - 1]);
            }
        } else {
            assert(t[i] == s[i - 1] && t[j] == s[j - 1]);
        }
    }
}

/// The distinct elements of `v`, in strictly increasing order.
pub fn sorted_unique_chars(v: &Vec<Vec<char>>) -> (r: Vec<Vec<char>>)
    ensures
        strictly_sorted(char_views(r@)),
        char_views(r@).to_set() == char_views(v@).to_set(),
{
    let mut r: Vec<Vec<char>> = Vec::new();
    let mut k: usize = 0;
    while k < v.len()
        invariant
            k <= v.len(),
            strictly_sorted(char_views(r@)),
            char_views(r@).to_set() == char_views(v@).subrange(0, k as int).to_set(),
        decreases v.len() - k,
    {
        let x = &v[k];
        let mut p: usize = 0;
        while p < r.len() && lex_less(&r[p], x)
            invariant
                p <= r.len(),
                forall|i: int| 0 <= i < p ==> lex_lt(#[trigger] char_views(r@)[i], x@),
            decreases r.len() - p,
        {
            p += 1;
        }
        let ghost old_r = char_views(r@);
        let ghost new_pre = char_views(v@).subrange(0, k + 1);
        assert(new_pre =~= char_views(v@).subrange(0, k as int).push(x@));
        if p < r.len() && chars_eq(&r[p], x) {
            assert forall|e: Seq<char>| new_pre.to_set().contains(e) <==> old_r.to_set().contains(e) by {
                if e == x@ {
                    assert(old_r[p as int] == e);
                }
                if new_pre.to_set().contains(e) {
                    let j = choose|j: int| 0 <= j < new_pre.len() && new_pre[j] == e;
                    if j < k {
                        assert(char_views(v@).subrange(0, k as int)[j] == e);
                    }
                }
            }
            assert(new_pre.to_set() =~= old_r.to_set());
        } else {
            proof {
                if p < r.len() {
                    assert(old_r[p as int] != x@);
                    lemma_lex_total(old_r[p as int], x@);
                }
                lemma_insert_sorted(old_r, p as int, x@);
            }
            r.insert(p, x.clone());
            assert(char_views(r@) =~= old_r.insert(p as int, x@));
            let ghost nr = char_views(r@);
            assert forall|e: Seq<char>| new_pre.to_set().contains(e) <==> nr.to_set().contains(e) by {
                if e == x@ {
                    assert(nr[p as int] == e);
                    assert(new_pre[k as int] == e);
                }
                if new_pre.to_set().contains(e) && e != x@ {
                    let j = choose|j: int| 0 <= j < new_pre.len() && new_pre[j] == e;
                    assert(char_views(v@).subrange(0, k as int)[j] == e);
                    assert(old_r.to_set().contains(e));
                    let q = choose|q: int| 0 <= q < old_r.len() && old_r[q] == e;
                    if q < p {
                        assert(nr[q] == e);
                    } else {
                        assert(nr[q + 1] == e);
                    }
                }
                if nr.to_set().contains(e) && e != x@ {
                    let q = choose|q: int| 0 <= q < nr.len() && nr[q] == e;
                    if q < p {
                        assert(old_r[q] == e);
                    } else {
                        assert(old_r[q - 1] == e);
                    }
                    assert(old_r.to_set().contains(e));
                    assert(char_views(v@).subrange(0, k as int).to_set().contains(e));
                    let j = choose|j: int| 0 <= j < k && char_views(v@).subrange(0, k as int)[j] == e;
                    assert(new_pre[j] == e);
                }
            }
            assert(new_pre.to_set() =~= nr.to_set());
        }
        k += 1;
    }
    assert(char_views(v@).subrange(0, v.len() as int) =~= char_views(v@));
    r
}

/// The distinct strings of `v`, in strictly increasing order
/// (what `sort` followed by `dedup` leaves).
pub fn sorted_unique_strings(v: &Vec<String>) -> (r: Vec<String>)
    ensures
        strictly_sorted(views(r@)),
        views(r@).to_set() == views(v@).to_set(),
{
    let mut cs: Vec<Vec<char>> = Vec::new();
    let mut k: usize = 0;
    while k < v.len()
        invariant
            k <= v.len(),
            char_views(cs@) =~= views(v@).subrange(0, k as int),
        decreases v.len() - k,
    {
        let c = chars_of_string(&v[k]);
        let ghost prev = char_views(cs@);
        cs.push(c);
        assert(char_views(cs@) =~= prev.push(c@));
        assert(views(v@).subrange(0, k + 1) =~= views(v@).subrange(0, k as int).push(v@[k as int]@));
        k += 1;
    }
    assert(char_views(cs@) =~= views(v@));
    let sorted = sorted_unique_chars(&cs);
    let mut r: Vec<String> = Vec::new();
    let mut k: usize = 0;
    while k < sorted.len()
        invariant
            k <= sorted.len(),
            views(r@) =~= char_views(sorted@).subrange(0, k as int),
        decreases sorted.len() - k,
    {
        let st = string_of(&sorted[k]);
        let ghost prev = views(r@);
        r.push(st);
        assert(views(r@) =~= prev.push(st@));
        assert(char_views(sorted@).subrange(0, k + 1) =~= char_views(sorted@).subrange(0, k as int).push(sorted@[k as int]@));
        k += 1;
    }
    assert(views(r@) =~= char_views(sorted@));
    r
}


/// No element sorts strictly before an earlier one.
pub open spec fn sorted(s: Seq<Seq<char>>) -> bool {
    forall|i: int, j: int| 0 <= i < j < s.len() ==> !lex_lt(#[trigger] s[j], #[trigger] s[i])
}

pub(crate) proof fn lemma_insert_keeps_sorted(s: Seq<Seq<char>>, p: int, x: Seq<char>)
    requires
        sorted(s),
        0 <= p <= s.len(),
        forall|i: int| 0 <= i < p ==> !lex_lt(x, #[trigger] s[i]),
        p < s.len() ==> lex_lt(x, s[p]),
    ensures
        sorted(s.insert(p, x)),
{
    let t = s.insert(p, x);
    assert forall|i: int, j: int| 0 <= i < j < t.len() implies !lex_lt(#[trigger] t[j], #[trigger] t[i]) by {
        if j < p {
            assert(t[i] == s[i] && t[j] == s[j]);
        } else if j == p {
            assert(t[i] == s[i]);
        } else if i < p {
            assert(t[i] == s[i] && t[j] == s[j - 1]);
        } else if i == p {
            assert(t[j] == s[j - 1]);
            if lex_lt(s[j - 1], x) {
                lemma_lex_transitive(s[j - 1], x, s[p]);
                if j - 1 == p {
                    lemma_lex_irreflexive(s[p]);
                }
            }
        } else {
            assert(t[i] == s[i - 1] && t[j] == s[j - 1]);
        }
    }
}

/// The strings of `v` in increasing order, duplicates kept (`sort`).
pub fn sort_strings(v: &Vec<String>) -> (r: Vec<String>)
    ensures
        sorted(views(r@)),
        views(r@).to_multiset() == views(v@).to_multiset(),
{
    broadcast use vstd::seq_lib::group_to_multiset_ensures;

    let mut r: Vec<String> = Vec::new();
    let mut k: usize = 0;
    while k < v.len()
        invariant
            k <= v.len(),
            sorted(views(r@)),
            views(r@).to_multiset() == views(v@).subrange(0, k as int).to_multiset(),
        decreases v.len() - k,
    {
        let x = chars_of_string(&v[k]);
        let mut p: usize = 0;
        while p < r.len() && !lex_less(&x, &chars_of_string(&r[p]))
            invariant
                p <= r.len(),
                forall|i: int| 0 <= i < p ==> !lex_lt(x@, #[trigger] views(r@)[i]),
            decreases r.len() - p,
        {
            p += 1;
        }
        let ghost before = views(r@);
        proof {
            if p < r.len() {
                assert(lex_lt(x@, before[p as int]));
            }
            lemma_insert_keeps_sorted(before, p as int, x@);
            vstd::seq_lib::to_multiset_insert(before, p as int, x@);
            vstd::seq_lib::to_multiset_build(views(v@).subrange(0, k as int), x@);
            assert(views(v@).subrange(0, k + 1) =~= views(v@).subrange(0, k as int).push(x@));
        }
        r.insert(p, v[k].clone());
        assert(views(r@) =~= before.insert(p as int, x@));
        k += 1;
    }
    assert(views(v@).subrange(0, v.len() as int) =~= views(v@));
    r
}

} // verus!
