//! Stable sorting of keyed items, the way `sort`, `sort_by` and
//! `sort_by_key` of std order them: items with equal keys keep their order.
use vstd::prelude::*;
use crate::order::{
    chars_order, comps_order, compare_chars, compare_comps, lemma_chars_order_antisym,
    lemma_chars_order_trans, lemma_comps_order_antisym, lemma_comps_order_trans,
};
use crate::paths::views;
use vstd::multiset::Multiset;

verus! {

/// A key with a total preorder, given as a three-way comparison.
pub trait SortKey: Sized {
    /// Negative, zero or positive as `self` sorts before, with or after
    /// `other`.
    spec fn key_order(self, other: Self) -> int;

    fn compare(&self, other: &Self) -> (r: i8)
        ensures
            r as int == self.key_order(*other),
    ;

    proof fn lemma_antisym(a: Self, b: Self)
        ensures
            a.key_order(b) == -b.key_order(a),
            -1 <= a.key_order(b) <= 1,
    ;

    proof fn lemma_trans(a: Self, b: Self, c: Self)
        requires
            a.key_order(b) <= 0,
            b.key_order(c) <= 0,
        ensures
            a.key_order(c) <= 0,
    ;
}

/// Strings by code point, as `String` compares.
impl SortKey for Vec<char> {
    open spec fn key_order(self, other: Self) -> int {
        chars_order(self@, other@)
    }

    fn compare(&self, other: &Self) -> (r: i8) {
        compare_chars(self.as_slice(), other.as_slice())
    }

    proof fn lemma_antisym(a: Self, b: Self) {
        lemma_chars_order_antisym(a@, b@);
    }

    proof fn lemma_trans(a: Self, b: Self, c: Self) {
        lemma_chars_order_trans(a@, b@, c@);
    }
}

/// Paths as lists of components, as `Path` compares.
impl SortKey for Vec<Vec<char>> {
    open spec fn key_order(self, other: Self) -> int {
        comps_order(views(self@), views(other@))
    }

    fn compare(&self, other: &Self) -> (r: i8) {
        compare_comps(self, other)
    }

    proof fn lemma_antisym(a: Self, b: Self) {
        lemma_comps_order_antisym(views(a@), views(b@));
    }

    proof fn lemma_trans(a: Self, b: Self, c: Self) {
        lemma_comps_order_trans(views(a@), views(b@), views(c@));
    }
}

/// A number first, then a string.
impl SortKey for (u8, Vec<char>) {
    open spec fn key_order(self, other: Self) -> int {
        if self.0 < other.0 {
            -1
        } else if self.0 > other.0 {
            1
        } else {
            chars_order(self.1@, other.1@)
        }
    }

    fn compare(&self, other: &Self) -> (r: i8) {
        if self.0 < other.0 {
            -1
        } else if self.0 > other.0 {
            1
        } else {
            compare_chars(self.1.as_slice(), other.1.as_slice())
        }
    }

    proof fn lemma_antisym(a: Self, b: Self) {
        lemma_chars_order_antisym(a.1@, b.1@);
    }

    proof fn lemma_trans(a: Self, b: Self, c: Self) {
        lemma_chars_order_antisym(a.1@, b.1@);
        lemma_chars_order_antisym(b.1@, c.1@);
        if a.0 == b.0 && b.0 == c.0 {
            lemma_chars_order_trans(a.1@, b.1@, c.1@);
        }
    }
}

/// Two numbers first, then a string.
impl SortKey for (u8, u8, Vec<char>) {
    open spec fn key_order(self, other: Self) -> int {
        if self.0 < other.0 {
            -1
        } else if self.0 > other.0 {
            1
        } else if self.1 < other.1 {
            -1
        } else if self.1 > other.1 {
            1
        } else {
            chars_order(self.2@, other.2@)
        }
    }

    fn compare(&self, other: &Self) -> (r: i8) {
        if self.0 < other.0 {
            -1
        } else if self.0 > other.0 {
            1
        } else if self.1 < other.1 {
            -1
        } else if self.1 > other.1 {
            1
        } else {
            compare_chars(self.2.as_slice(), other.2.as_slice())
        }
    }

    proof fn lemma_antisym(a: Self, b: Self) {
        lemma_chars_order_antisym(a.2@, b.2@);
    }

    proof fn lemma_trans(a: Self, b: Self, c: Self) {
        lemma_chars_order_antisym(a.2@, b.2@);
        lemma_chars_order_antisym(b.2@, c.2@);
        if a.0 == b.0 && b.0 == c.0 && a.1 == b.1 && b.1 == c.1 {
            lemma_chars_order_trans(a.2@, b.2@, c.2@);
        }
    }
}

/// `s` with `x` placed after every element that `ord` does not put after
/// `x`.
pub open spec fn insert_by<A>(s: Seq<A>, x: A, ord: spec_fn(A, A) -> int) -> Seq<A>
    decreases s.len(),
{
    if s.len() > 0 && ord(x, s.last()) < 0 {
        insert_by(s.drop_last(), x, ord).push(s.last())
    } else {
        s.push(x)
    }
}

/// Where `insert_by` places `x`.
pub open spec fn insert_pos_by<A>(s: Seq<A>, x: A, ord: spec_fn(A, A) -> int) -> int
    decreases s.len(),
{
    if s.len() > 0 && ord(x, s.last()) < 0 {
        insert_pos_by(s.drop_last(), x, ord)
    } else {
        s.len() as int
    }
}

/// The stable sort of `s` under `ord`: each element inserted in turn.
pub open spec fn sorted_by<A>(s: Seq<A>, ord: spec_fn(A, A) -> int) -> Seq<A>
    decreases s.len(),
{
    if s.len() == 0 {
        s
    } else {
        insert_by(sorted_by(s.drop_last(), ord), s.last(), ord)
    }
}

/// `ord` never puts a later element of `s` before an earlier one.
pub open spec fn is_sorted_by<A>(s: Seq<A>, ord: spec_fn(A, A) -> int) -> bool {
    forall|i: int, j: int| 0 <= i < j < s.len() ==> #[trigger] ord(s[i], s[j]) <= 0
}

/// `ord` is a three-way comparison of a total preorder.
pub open spec fn is_order<A>(ord: spec_fn(A, A) -> int) -> bool {
    &&& forall|a: A, b: A| #[trigger] ord(a, b) == -ord(b, a) && -1 <= ord(a, b) <= 1
    &&& forall|a: A, b: A, c: A|
        #![trigger ord(a, b), ord(b, c)]
        ord(a, b) <= 0 && ord(b, c) <= 0 ==> ord(a, c) <= 0
}

/// The comparison of keyed items by their keys.
pub open spec fn key_ord<K: SortKey, T>() -> spec_fn((K, T), (K, T)) -> int {
    |a: (K, T), b: (K, T)| a.0.key_order(b.0)
}

pub proof fn lemma_insert_shape<A>(s: Seq<A>, x: A, ord: spec_fn(A, A) -> int)
    ensures
        0 <= insert_pos_by(s, x, ord) <= s.len(),
        insert_by(s, x, ord) == s.insert(insert_pos_by(s, x, ord), x),
        forall|i: int| insert_pos_by(s, x, ord) <= i < s.len() ==> ord(x, #[trigger] s[i]) < 0,
        insert_pos_by(s, x, ord) > 0 ==> ord(x, s[insert_pos_by(s, x, ord) - 1]) >= 0,
    decreases s.len(),
{
    if s.len() > 0 && ord(x, s.last()) < 0 {
        lemma_insert_shape(s.drop_last(), x, ord);
        let p = insert_pos_by(s, x, ord);
        assert(insert_by(s, x, ord) =~= s.insert(p, x));
        assert forall|i: int| p <= i < s.len() implies ord(x, #[trigger] s[i]) < 0 by {
            if i < s.len() - 1 {
                assert(s.drop_last()[i] == s[i]);
            }
        }
        if p > 0 {
            assert(s.drop_last()[p - 1] == s[p - 1]);
        }
    } else {
        assert(insert_by(s, x, ord) =~= s.insert(s.len() as int, x));
    }
}

pub proof fn lemma_insert_sorted<A>(s: Seq<A>, x: A, ord: spec_fn(A, A) -> int)
    requires
        is_order(ord),
        is_sorted_by(s, ord),
    ensures
        is_sorted_by(insert_by(s, x, ord), ord),
        insert_by(s, x, ord).to_multiset() == s.to_multiset().insert(x),
        insert_by(s, x, ord).len() == s.len() + 1,
    decreases s.len(),
{
    broadcast use vstd::seq_lib::group_to_multiset_ensures;

    lemma_insert_shape(s, x, ord);
    let p = insert_pos_by(s, x, ord);
    let r = insert_by(s, x, ord);
    assert forall|i: int, j: int| 0 <= i < j < r.len() implies #[trigger] ord(r[i], r[j]) <= 0 by {
        if i < p && j < p {
            assert(r[i] == s[i] && r[j] == s[j]);
        } else if i < p && j == p {
            assert(ord(x, s[p - 1]) == -ord(s[p - 1], x));
            if i < p - 1 {
                assert(ord(s[i], s[p - 1]) <= 0);
            }
        } else if i < p && j > p {
            assert(r[j] == s[j - 1]);
            assert(ord(s[i], s[j - 1]) <= 0);
        } else if i == p {
            assert(r[j] == s[j - 1]);
            assert(ord(x, s[j - 1]) < 0);
        } else {
            assert(r[i] == s[i - 1] && r[j] == s[j - 1]);
            assert(ord(s[i - 1], s[j - 1]) <= 0);
        }
    }
    if s.len() > 0 && ord(x, s.last()) < 0 {
        assert(s.drop_last().push(s.last()) =~= s);
        lemma_insert_multiset(s.drop_last(), x, ord);
        assert(insert_by(s, x, ord).to_multiset() =~= s.drop_last().to_multiset().insert(x).insert(
            s.last(),
        ));
        assert(s.to_multiset() =~= s.drop_last().to_multiset().insert(s.last()));
    }
}

proof fn lemma_insert_multiset<A>(s: Seq<A>, x: A, ord: spec_fn(A, A) -> int)
    ensures
        insert_by(s, x, ord).to_multiset() == s.to_multiset().insert(x),
    decreases s.len(),
{
    broadcast use vstd::seq_lib::group_to_multiset_ensures;

    if s.len() > 0 && ord(x, s.last()) < 0 {
        assert(s.drop_last().push(s.last()) =~= s);
        lemma_insert_multiset(s.drop_last(), x, ord);
        assert(insert_by(s, x, ord).to_multiset() =~= s.drop_last().to_multiset().insert(x).insert(
            s.last(),
        ));
        assert(s.to_multiset() =~= s.drop_last().to_multiset().insert(s.last()));
    }
}

/// The stable sort of `s` is sorted and holds the elements of `s`.
pub proof fn lemma_sorted_by<A>(s: Seq<A>, ord: spec_fn(A, A) -> int)
    requires
        is_order(ord),
    ensures
        is_sorted_by(sorted_by(s, ord), ord),
        sorted_by(s, ord).to_multiset() == s.to_multiset(),
        sorted_by(s, ord).len() == s.len(),
    decreases s.len(),
{
    broadcast use vstd::seq_lib::group_to_multiset_ensures;

    if s.len() > 0 {
        lemma_sorted_by(s.drop_last(), ord);
        lemma_insert_sorted(sorted_by(s.drop_last(), ord), s.last(), ord);
        assert(s.drop_last().push(s.last()) =~= s);
    } else {
        assert(s.to_multiset() =~= Multiset::empty());
        assert(sorted_by(s, ord).to_multiset() =~= Multiset::empty());
    }
}

/// Every element of the stable sort of `s` that satisfies `p` comes from
/// `s`; if all of `s` satisfies `p`, so does all of its sort.
pub proof fn lemma_sorted_by_keeps<A>(s: Seq<A>, ord: spec_fn(A, A) -> int, p: spec_fn(A) -> bool)
    requires
        forall|i: int| 0 <= i < s.len() ==> p(#[trigger] s[i]),
    ensures
        forall|i: int| 0 <= i < sorted_by(s, ord).len() ==> p(#[trigger] sorted_by(s, ord)[i]),
        sorted_by(s, ord).len() == s.len(),
    decreases s.len(),
{
    if s.len() > 0 {
        let t = sorted_by(s.drop_last(), ord);
        lemma_sorted_by_keeps(s.drop_last(), ord, p);
        lemma_insert_shape(t, s.last(), ord);
        let q = insert_pos_by(t, s.last(), ord);
        assert forall|i: int| 0 <= i < sorted_by(s, ord).len() implies p(
            #[trigger] sorted_by(s, ord)[i],
        ) by {
            if i < q {
                assert(sorted_by(s, ord)[i] == t[i]);
            } else if i == q {
                assert(p(s[s.len() - 1]));
            } else {
                assert(sorted_by(s, ord)[i] == t[i - 1]);
            }
        }
    }
}

/// Sorting commutes with a map `f` that carries `ord_a` to `ord_b` on the
/// elements that satisfy `p`.
pub proof fn lemma_sorted_by_map<A, B>(
    s: Seq<A>,
    ord_a: spec_fn(A, A) -> int,
    f: spec_fn(A) -> B,
    ord_b: spec_fn(B, B) -> int,
    p: spec_fn(A) -> bool,
)
    requires
        forall|i: int| 0 <= i < s.len() ==> p(#[trigger] s[i]),
        forall|a: A, b: A| p(a) && p(b) ==> #[trigger] ord_a(a, b) == ord_b(f(a), f(b)),
    ensures
        sorted_by(s, ord_a).map_values(f) == sorted_by(s.map_values(f), ord_b),
    decreases s.len(),
{
    if s.len() > 0 {
        let t = sorted_by(s.drop_last(), ord_a);
        lemma_sorted_by_map(s.drop_last(), ord_a, f, ord_b, p);
        lemma_sorted_by_keeps(s.drop_last(), ord_a, p);
        assert(s.map_values(f).drop_last() =~= s.drop_last().map_values(f));
        assert(s.map_values(f).last() == f(s.last()));
        lemma_insert_map(t, s.last(), ord_a, f, ord_b, p);
    }
}

proof fn lemma_insert_map<A, B>(
    s: Seq<A>,
    x: A,
    ord_a: spec_fn(A, A) -> int,
    f: spec_fn(A) -> B,
    ord_b: spec_fn(B, B) -> int,
    p: spec_fn(A) -> bool,
)
    requires
        forall|i: int| 0 <= i < s.len() ==> p(#[trigger] s[i]),
        p(x),
        forall|a: A, b: A| p(a) && p(b) ==> #[trigger] ord_a(a, b) == ord_b(f(a), f(b)),
    ensures
        insert_by(s, x, ord_a).map_values(f) == insert_by(s.map_values(f), f(x), ord_b),
    decreases s.len(),
{
    if s.len() > 0 {
        assert(p(s.last()));
        assert(s.map_values(f).last() == f(s.last()));
        assert(s.map_values(f).drop_last() =~= s.drop_last().map_values(f));
        if ord_a(x, s.last()) < 0 {
            lemma_insert_map(s.drop_last(), x, ord_a, f, ord_b, p);
            assert(insert_by(s, x, ord_a).map_values(f) =~= insert_by(s.drop_last(), x, ord_a).map_values(
                f,
            ).push(f(s.last())));
        } else {
            assert(insert_by(s, x, ord_a).map_values(f) =~= s.map_values(f).push(f(x)));
        }
    } else {
        assert(insert_by(s, x, ord_a).map_values(f) =~= seq![f(x)]);
        assert(insert_by(s.map_values(f), f(x), ord_b) =~= seq![f(x)]);
    }
}

proof fn lemma_pos_step<A>(s: Seq<A>, x: A, ord: spec_fn(A, A) -> int, j: int)
    requires
        0 < j <= s.len(),
        ord(x, s[j - 1]) < 0,
    ensures
        insert_pos_by(s.take(j), x, ord) == insert_pos_by(s.take(j - 1), x, ord),
{
    assert(s.take(j).drop_last() =~= s.take(j - 1));
    assert(s.take(j).last() == s[j - 1]);
}

proof fn lemma_pos_stop<A>(s: Seq<A>, x: A, ord: spec_fn(A, A) -> int, j: int)
    requires
        0 <= j <= s.len(),
        j == 0 || ord(x, s[j - 1]) >= 0,
    ensures
        insert_pos_by(s.take(j), x, ord) == j,
{
    if j > 0 {
        assert(s.take(j).last() == s[j - 1]);
    }
}

/// Inserts `x` into `r` after every item whose key does not sort after the
/// key of `x`.
pub fn insert_by_key<K: SortKey, T>(r: &mut Vec<(K, T)>, x: (K, T))
    ensures
        final(r)@ == insert_by(old(r)@, x, key_ord::<K, T>()),
{
    let ghost start = r@;
    let ghost ord = key_ord::<K, T>();
    let mut j = r.len();
    assert(start.take(j as int) =~= start);
    let mut moving = j > 0 && x.0.compare(&r[j - 1].0) < 0;
    while moving
        invariant
            j <= r@.len(),
            r@ == start,
            ord == key_ord::<K, T>(),
            insert_pos_by(start, x, ord) == insert_pos_by(start.take(j as int), x, ord),
            moving ==> j > 0 && ord(x, start[j - 1]) < 0,
            !moving ==> j == 0 || ord(x, start[j - 1]) >= 0,
        decreases j,
    {
        proof {
            lemma_pos_step(start, x, ord, j as int);
        }
        j -= 1;
        moving = j > 0 && x.0.compare(&r[j - 1].0) < 0;
    }
    proof {
        lemma_pos_stop(start, x, ord, j as int);
        lemma_insert_shape(start, x, ord);
    }
    r.insert(j, x);
}

/// The items sorted by key, stably: `sort_by_key` of std.
pub fn stable_sort<K: SortKey, T>(items: Vec<(K, T)>) -> (r: Vec<(K, T)>)
    ensures
        r@ == sorted_by(items@, key_ord::<K, T>()),
{
    let ghost orig = items@;
    let ghost ord = key_ord::<K, T>();
    let n = items.len();
    let mut rest = items;
    let mut r: Vec<(K, T)> = Vec::new();
    let mut k: usize = 0;
    assert(orig.take(0) =~= Seq::<(K, T)>::empty());
    assert(orig.skip(0) =~= orig);
    while rest.len() > 0
        invariant
            k + rest@.len() == orig.len(),
            orig.len() == n,
            ord == key_ord::<K, T>(),
            rest@ == orig.skip(k as int),
            r@ == sorted_by(orig.take(k as int), ord),
        decreases rest@.len(),
    {
        let x = rest.remove(0);
        assert(orig.take(k + 1).drop_last() =~= orig.take(k as int));
        assert(orig.take(k + 1).last() == x);
        insert_by_key(&mut r, x);
        assert(rest@ =~= orig.skip(k + 1));
        k += 1;
    }
    assert(orig.take(k as int) =~= orig);
    r
}

/// The second part of a pair.
pub open spec fn second<K, T>() -> spec_fn((K, T)) -> T {
    |it: (K, T)| it.1
}

/// The items of keyed items, in order.
pub fn values_of<K, T>(items: Vec<(K, T)>) -> (r: Vec<T>)
    ensures
        r@ == items@.map_values(second::<K, T>()),
{
    let ghost sv = items@;
    let m = items.len();
    let mut out: Vec<T> = Vec::new();
    let mut j: usize = 0;
    let mut rest = items;
    assert(sv.skip(0) =~= sv);
    while j < m
        invariant
            m == sv.len(),
            rest@ == sv.skip(j as int),
            j <= m,
            out@ == sv.map_values(second::<K, T>()).take(j as int),
        decreases m - j,
    {
        let (_, v) = rest.remove(0);
        assert(v == sv[j as int].1);
        out.push(v);
        assert(out@ =~= sv.map_values(second::<K, T>()).take(j + 1));
        assert(rest@ =~= sv.skip(j + 1));
        j += 1;
    }
    assert(sv.map_values(second::<K, T>()).take(m as int) =~= sv.map_values(second::<K, T>()));
    out
}

} // verus!
