//! Orders used when the installer ranks what it found: strings by code
//! point (as `String` compares), path components (root, then `.`, then
//! `..`, then names), and paths component by component (as `Path`
//! compares).
use vstd::prelude::*;
use crate::paths::{cur_dir, parent_dir, root_dir, views};

verus! {

/// Three-way comparison of character sequences by code point, shorter
/// prefixes first.
pub open spec fn chars_order(a: Seq<char>, b: Seq<char>) -> int
    decreases a.len(),
{
    if a.len() == 0 {
        if b.len() == 0 {
            0
        } else {
            -1
        }
    } else if b.len() == 0 {
        1
    } else if a[0] < b[0] {
        -1
    } else if a[0] > b[0] {
        1
    } else {
        chars_order(a.drop_first(), b.drop_first())
    }
}

pub proof fn lemma_chars_order_antisym(a: Seq<char>, b: Seq<char>)
    ensures
        chars_order(a, b) == -chars_order(b, a),
        -1 <= chars_order(a, b) <= 1,
        chars_order(a, b) == 0 <==> a == b,
    decreases a.len(),
{
    if a.len() == 0 || b.len() == 0 {
        if a.len() != b.len() {
            assert(a != b);
        } else {
            assert(a =~= b);
        }
    } else if a[0] != b[0] {
        assert(a != b);
    } else {
        lemma_chars_order_antisym(a.drop_first(), b.drop_first());
        if a.drop_first() == b.drop_first() {
            assert(a =~= b) by {
                assert forall|i: int| 0 <= i < a.len() implies a[i] == b[i] by {
                    if i > 0 {
                        assert(a[i] == a.drop_first()[i - 1]);
                        assert(b[i] == b.drop_first()[i - 1]);
                    }
                }
            }
        } else {
            assert(a != b) by {
                if a == b {
                    assert(a.drop_first() =~= b.drop_first());
                }
            }
        }
    }
}

pub proof fn lemma_chars_order_trans(a: Seq<char>, b: Seq<char>, c: Seq<char>)
    requires
        chars_order(a, b) <= 0,
        chars_order(b, c) <= 0,
    ensures
        chars_order(a, c) <= 0,
        chars_order(a, b) < 0 || chars_order(b, c) < 0 ==> chars_order(a, c) < 0,
    decreases a.len(),
{
    lemma_chars_order_antisym(a, b);
    lemma_chars_order_antisym(b, c);
    lemma_chars_order_antisym(a, c);
    if a.len() > 0 && b.len() > 0 && c.len() > 0 && a[0] == b[0] && b[0] == c[0] {
        lemma_chars_order_trans(a.drop_first(), b.drop_first(), c.drop_first());
    }
}

/// Three-way comparison of two character sequences.
pub fn compare_chars(a: &[char], b: &[char]) -> (r: i8)
    ensures
        r as int == chars_order(a@, b@),
{
    let n = a.len();
    let m = b.len();
    let mut i: usize = 0;
    assert(a@.skip(0) =~= a@);
    assert(b@.skip(0) =~= b@);
    while i < n && i < m
        invariant
            n == a@.len(),
            m == b@.len(),
            i <= n,
            i <= m,
            chars_order(a@, b@) == chars_order(a@.skip(i as int), b@.skip(i as int)),
        decreases n - i,
    {
        if a[i] < b[i] {
            return -1;
        }
        if a[i] > b[i] {
            return 1;
        }
        assert(a@.skip(i as int).drop_first() =~= a@.skip(i + 1));
        assert(b@.skip(i as int).drop_first() =~= b@.skip(i + 1));
        i += 1;
    }
    if i < n {
        1
    } else if i < m {
        -1
    } else {
        0
    }
}

/// The rank of a path component: root, `.`, `..`, then names.
pub open spec fn comp_rank(c: Seq<char>) -> int {
    if c == root_dir() {
        0
    } else if c == cur_dir() {
        1
    } else if c == parent_dir() {
        2
    } else {
        3
    }
}

/// Three-way comparison of path components.
pub open spec fn comp_order(a: Seq<char>, b: Seq<char>) -> int {
    if comp_rank(a) < comp_rank(b) {
        -1
    } else if comp_rank(a) > comp_rank(b) {
        1
    } else if comp_rank(a) == 3 {
        chars_order(a, b)
    } else {
        0
    }
}

pub proof fn lemma_comp_order_antisym(a: Seq<char>, b: Seq<char>)
    ensures
        comp_order(a, b) == -comp_order(b, a),
        -1 <= comp_order(a, b) <= 1,
        comp_order(a, b) == 0 <==> a == b,
{
    lemma_chars_order_antisym(a, b);
}

pub proof fn lemma_comp_order_trans(a: Seq<char>, b: Seq<char>, c: Seq<char>)
    requires
        comp_order(a, b) <= 0,
        comp_order(b, c) <= 0,
    ensures
        comp_order(a, c) <= 0,
        comp_order(a, b) < 0 || comp_order(b, c) < 0 ==> comp_order(a, c) < 0,
{
    lemma_comp_order_antisym(a, b);
    lemma_comp_order_antisym(b, c);
    lemma_comp_order_antisym(a, c);
    if comp_rank(a) == 3 && comp_rank(b) == 3 && comp_rank(c) == 3 {
        lemma_chars_order_trans(a, b, c);
    }
}

fn rank_of(c: &Vec<char>) -> (r: u8)
    ensures
        r as int == comp_rank(c@),
{
    let n = c.len();
    if n == 1 && c[0] == '/' {
        assert(c@ =~= root_dir());
        return 0;
    }
    if n == 1 && c[0] == '.' {
        assert(c@ =~= cur_dir());
        assert(c@ != root_dir()) by {
            assert(c@[0] != root_dir()[0]);
        }
        return 1;
    }
    if n == 2 && c[0] == '.' && c[1] == '.' {
        assert(c@ =~= parent_dir());
        return 2;
    }
    assert(c@ != root_dir() && c@ != cur_dir() && c@ != parent_dir()) by {
        if n == 1 {
            assert(c@[0] != root_dir()[0]);
            assert(c@[0] != cur_dir()[0]);
        }
        if n == 2 {
            assert(c@[0] != parent_dir()[0] || c@[1] != parent_dir()[1]);
        }
    }
    3
}

/// Three-way comparison of two path components.
pub fn compare_comp(a: &Vec<char>, b: &Vec<char>) -> (r: i8)
    ensures
        r as int == comp_order(a@, b@),
{
    let ra = rank_of(a);
    let rb = rank_of(b);
    if ra < rb {
        -1
    } else if ra > rb {
        1
    } else if ra == 3 {
        compare_chars(a.as_slice(), b.as_slice())
    } else {
        0
    }
}

/// Three-way comparison of component lists, element by element.
pub open spec fn comps_order(a: Seq<Seq<char>>, b: Seq<Seq<char>>) -> int
    decreases a.len(),
{
    if a.len() == 0 {
        if b.len() == 0 {
            0
        } else {
            -1
        }
    } else if b.len() == 0 {
        1
    } else if comp_order(a[0], b[0]) != 0 {
        comp_order(a[0], b[0])
    } else {
        comps_order(a.drop_first(), b.drop_first())
    }
}

pub proof fn lemma_comps_order_antisym(a: Seq<Seq<char>>, b: Seq<Seq<char>>)
    ensures
        comps_order(a, b) == -comps_order(b, a),
        -1 <= comps_order(a, b) <= 1,
        comps_order(a, b) == 0 <==> a == b,
    decreases a.len(),
{
    if a.len() == 0 || b.len() == 0 {
        if a.len() != b.len() {
            assert(a != b);
        } else {
            assert(a =~= b);
        }
    } else {
        lemma_comp_order_antisym(a[0], b[0]);
        if comp_order(a[0], b[0]) != 0 {
            assert(a != b);
        } else {
            lemma_comps_order_antisym(a.drop_first(), b.drop_first());
            if a.drop_first() == b.drop_first() {
                assert(a =~= b) by {
                    assert forall|i: int| 0 <= i < a.len() implies a[i] == b[i] by {
                        if i > 0 {
                            assert(a[i] == a.drop_first()[i - 1]);
                            assert(b[i] == b.drop_first()[i - 1]);
                        }
                    }
                }
            } else {
                assert(a != b) by {
                    if a == b {
                        assert(a.drop_first() =~= b.drop_first());
                    }
                }
            }
        }
    }
}

pub proof fn lemma_comps_order_trans(a: Seq<Seq<char>>, b: Seq<Seq<char>>, c: Seq<Seq<char>>)
    requires
        comps_order(a, b) <= 0,
        comps_order(b, c) <= 0,
    ensures
        comps_order(a, c) <= 0,
        comps_order(a, b) < 0 || comps_order(b, c) < 0 ==> comps_order(a, c) < 0,
    decreases a.len(),
{
    lemma_comps_order_antisym(a, b);
    lemma_comps_order_antisym(b, c);
    lemma_comps_order_antisym(a, c);
    if a.len() > 0 && b.len() > 0 && c.len() > 0 {
        lemma_comp_order_antisym(a[0], b[0]);
        lemma_comp_order_antisym(b[0], c[0]);
        lemma_comp_order_antisym(a[0], c[0]);
        if comp_order(a[0], b[0]) <= 0 && comp_order(b[0], c[0]) <= 0 {
            lemma_comp_order_trans(a[0], b[0], c[0]);
        }
        if comp_order(a[0], b[0]) == 0 && comp_order(b[0], c[0]) == 0 {
            lemma_comps_order_trans(a.drop_first(), b.drop_first(), c.drop_first());
        }
    }
}

/// Three-way comparison of two component lists.
pub fn compare_comps(a: &Vec<Vec<char>>, b: &Vec<Vec<char>>) -> (r: i8)
    ensures
        r as int == comps_order(views(a@), views(b@)),
{
    let n = a.len();
    let m = b.len();
    let ghost av = views(a@);
    let ghost bv = views(b@);
    let mut i: usize = 0;
    assert(av.skip(0) =~= av);
    assert(bv.skip(0) =~= bv);
    while i < n && i < m
        invariant
            n == a@.len(),
            m == b@.len(),
            av == views(a@),
            bv == views(b@),
            i <= n,
            i <= m,
            comps_order(av, bv) == comps_order(av.skip(i as int), bv.skip(i as int)),
        decreases n - i,
    {
        let c = compare_comp(&a[i], &b[i]);
        assert(av.skip(i as int)[0] == a@[i as int]@);
        assert(bv.skip(i as int)[0] == b@[i as int]@);
        if c != 0 {
            return c;
        }
        assert(av.skip(i as int).drop_first() =~= av.skip(i + 1));
        assert(bv.skip(i as int).drop_first() =~= bv.skip(i + 1));
        i += 1;
    }
    if i < n {
        1
    } else if i < m {
        -1
    } else {
        0
    }
}

} // verus!
