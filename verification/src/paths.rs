//! Unix paths held as strings.
//!
//! A path is read as a list of components: an optional leading root (`/`)
//! or current-directory marker (`.`), followed by the non-empty segments
//! between slashes other than `.`. Every query here is stated over that
//! list: the file name, its stem and extension, joining, prefix tests,
//! prefix removal and the parent.
use vstd::prelude::*;
use crate::text::{chars_eq, chars_last_index_of, from_chars, last_index_of, lemma_last_index_of, push_all, sub_vec, to_chars};

verus! {

// ---------------------------------------------------------------------------
// The component model
// ---------------------------------------------------------------------------

/// The segments of `s` between slashes, empty ones included.
pub open spec fn split_slash(s: Seq<char>) -> Seq<Seq<char>>
    decreases s.len(),
{
    if s.len() == 0 {
        seq![Seq::<char>::empty()]
    } else {
        let p = split_slash(s.drop_last());
        if s.last() == '/' {
            p.push(Seq::<char>::empty())
        } else {
            p.update(p.len() - 1, p.last().push(s.last()))
        }
    }
}

pub proof fn lemma_split_slash_len(s: Seq<char>)
    ensures
        split_slash(s).len() >= 1,
    decreases s.len(),
{
    if s.len() > 0 {
        lemma_split_slash_len(s.drop_last());
    }
}

pub open spec fn root_dir() -> Seq<char> {
    seq!['/']
}

pub open spec fn cur_dir() -> Seq<char> {
    seq!['.']
}

pub open spec fn parent_dir() -> Seq<char> {
    seq!['.', '.']
}

/// A segment that names a component: neither empty nor `.`.
pub open spec fn names_component(seg: Seq<char>) -> bool {
    seg.len() > 0 && seg != cur_dir()
}

/// The segments of `ss` that name components, in order.
pub open spec fn kept(ss: Seq<Seq<char>>) -> Seq<Seq<char>>
    decreases ss.len(),
{
    if ss.len() == 0 {
        Seq::empty()
    } else if names_component(ss.last()) {
        kept(ss.drop_last()).push(ss.last())
    } else {
        kept(ss.drop_last())
    }
}

/// The components of `s` after its root or leading `.`.
pub open spec fn body_parts(s: Seq<char>) -> Seq<Seq<char>> {
    kept(split_slash(s))
}

/// The leading component: the root for an absolute path, `.` for a path
/// that is `.` or starts with `./`, none otherwise.
pub open spec fn head_part(s: Seq<char>) -> Seq<Seq<char>> {
    if s.len() > 0 && s[0] == '/' {
        seq![root_dir()]
    } else if s.len() > 0 && s[0] == '.' && (s.len() == 1 || s[1] == '/') {
        seq![cur_dir()]
    } else {
        Seq::empty()
    }
}

/// The components of the path `s`.
pub open spec fn components(s: Seq<char>) -> Seq<Seq<char>> {
    head_part(s) + body_parts(s)
}

/// `Path::is_absolute`.
pub open spec fn is_absolute(s: Seq<char>) -> bool {
    s.len() > 0 && s[0] == '/'
}

/// Components joined by `/`.
pub open spec fn join_slash(cs: Seq<Seq<char>>) -> Seq<char>
    decreases cs.len(),
{
    if cs.len() == 0 {
        Seq::empty()
    } else if cs.len() == 1 {
        cs[0]
    } else {
        join_slash(cs.drop_last()) + seq!['/'] + cs.last()
    }
}

/// `Path::file_name`: the last component when it is a name.
pub open spec fn file_name(s: Seq<char>) -> Option<Seq<char>> {
    let b = body_parts(s);
    if b.len() > 0 && b.last() != parent_dir() {
        Some(b.last())
    } else {
        None
    }
}

/// The split of a file name at its last dot into stem and extension, as
/// `Path::file_stem` and `Path::extension` read it.
pub open spec fn split_at_dot(name: Seq<char>) -> (Option<Seq<char>>, Option<Seq<char>>) {
    if name == parent_dir() {
        (Some(name), None)
    } else {
        match last_index_of(name, '.') {
            None => (None, Some(name)),
            Some(k) => if k == 0 {
                (Some(name), None)
            } else {
                (Some(name.take(k)), Some(name.skip(k + 1)))
            },
        }
    }
}

/// `Path::extension`.
pub open spec fn extension(s: Seq<char>) -> Option<Seq<char>> {
    match file_name(s) {
        None => None,
        Some(n) => match split_at_dot(n) {
            (Some(_), after) => after,
            (None, _) => None,
        },
    }
}

/// `Path::file_stem`.
pub open spec fn file_stem(s: Seq<char>) -> Option<Seq<char>> {
    match file_name(s) {
        None => None,
        Some(n) => match split_at_dot(n) {
            (Some(before), _) => Some(before),
            (None, after) => after,
        },
    }
}

/// `Path::join`: an absolute `b` replaces `a`; otherwise `b` follows `a`,
/// with a slash between them unless `a` is empty or already ends in one.
pub open spec fn join(a: Seq<char>, b: Seq<char>) -> Seq<char> {
    if is_absolute(b) {
        b
    } else if a.len() > 0 && a.last() != '/' {
        a + seq!['/'] + b
    } else {
        a + b
    }
}

/// `xs` begins with the elements of `prefix`.
pub open spec fn seq_is_prefix<T>(prefix: Seq<T>, xs: Seq<T>) -> bool {
    prefix.len() <= xs.len() && xs.take(prefix.len() as int) == prefix
}

/// `Path::starts_with`: the components of `base` begin those of `s`.
pub open spec fn path_starts_with(s: Seq<char>, base: Seq<char>) -> bool {
    seq_is_prefix(components(base), components(s))
}

/// The indices of the segments of `ss` that name components, in order.
pub open spec fn kept_indices(ss: Seq<Seq<char>>) -> Seq<int>
    decreases ss.len(),
{
    if ss.len() == 0 {
        Seq::empty()
    } else if names_component(ss.last()) {
        kept_indices(ss.drop_last()).push(ss.len() - 1)
    } else {
        kept_indices(ss.drop_last())
    }
}

/// The text of the leading component: `/`, `.` or nothing.
pub open spec fn head_text(s: Seq<char>) -> Seq<char> {
    if s.len() > 0 && s[0] == '/' {
        seq!['/']
    } else if s.len() > 0 && s[0] == '.' && (s.len() == 1 || s[1] == '/') {
        seq!['.']
    } else {
        Seq::empty()
    }
}

/// The text of `s` up to the end of its `t`-th named segment.
pub open spec fn through_kept(s: Seq<char>, t: int) -> Seq<char> {
    let segs = split_slash(s);
    join_slash(segs.take(kept_indices(segs)[t] + 1))
}

/// The text of `s` from its `t`-th named segment to the end of its last.
pub open spec fn kept_span(s: Seq<char>, t: int) -> Seq<char> {
    let segs = split_slash(s);
    let ix = kept_indices(segs);
    join_slash(segs.subrange(ix[t], ix.last() + 1))
}

/// `Path::strip_prefix`: the text of `s` after the components of `base`,
/// from the next named segment to the last one; with no components in
/// `base`, `s` up to its last named segment.
pub open spec fn strip_prefix(s: Seq<char>, base: Seq<char>) -> Option<Seq<char>> {
    if path_starts_with(s, base) {
        let m = components(base).len() as int;
        let h = head_part(s).len() as int;
        let k = body_parts(s).len() as int;
        Some(
            if m == 0 {
                if k == 0 {
                    head_text(s)
                } else {
                    through_kept(s, k - 1)
                }
            } else if m - h < k {
                kept_span(s, m - h)
            } else {
                Seq::empty()
            },
        )
    } else {
        None
    }
}

/// `Path::parent`: the text of `s` up to the end of the component before
/// its last, unless the last is the root or there is none.
pub open spec fn parent(s: Seq<char>) -> Option<Seq<char>> {
    let cs = components(s);
    let k = body_parts(s).len() as int;
    if cs.len() > 0 && cs.last() != root_dir() {
        Some(
            if k >= 2 {
                through_kept(s, k - 2)
            } else if k == 1 {
                head_text(s)
            } else {
                Seq::empty()
            },
        )
    } else {
        None
    }
}

/// Some component of `s` is exactly `name`.
pub open spec fn has_component(s: Seq<char>, name: Seq<char>) -> bool {
    components(s).contains(name)
}

/// The character sequences held by a vector of character vectors.
pub open spec fn views(v: Seq<Vec<char>>) -> Seq<Seq<char>> {
    v.map_values(|x: Vec<char>| x@)
}

/// The characters of an optional string.
pub open spec fn opt_view(o: Option<String>) -> Option<Seq<char>> {
    match o {
        Some(s) => Some(s@),
        None => None,
    }
}

/// The characters of an optional character vector.
pub open spec fn opt_vec_view(o: Option<Vec<char>>) -> Option<Seq<char>> {
    match o {
        Some(s) => Some(s@),
        None => None,
    }
}

// ---------------------------------------------------------------------------
// Parsing into components
// ---------------------------------------------------------------------------

proof fn lemma_kept_push(ss: Seq<Seq<char>>, seg: Seq<char>)
    ensures
        kept(ss.push(seg)) == if names_component(seg) {
            kept(ss).push(seg)
        } else {
            kept(ss)
        },
{
    assert(ss.push(seg).drop_last() =~= ss);
}

/// The indices of named segments pick out, in order, the named segments.
pub proof fn lemma_kept_indices(ss: Seq<Seq<char>>)
    ensures
        kept_indices(ss).len() == kept(ss).len(),
        forall|t: int|
            0 <= t < kept_indices(ss).len() ==> 0 <= #[trigger] kept_indices(ss)[t] < ss.len()
                && ss[kept_indices(ss)[t]] == kept(ss)[t],
        forall|t: int, u: int|
            0 <= t < u < kept_indices(ss).len() ==> #[trigger] kept_indices(ss)[t]
                < #[trigger] kept_indices(ss)[u],
    decreases ss.len(),
{
    if ss.len() > 0 {
        lemma_kept_indices(ss.drop_last());
        let p = kept_indices(ss.drop_last());
        assert forall|t: int| 0 <= t < p.len() implies ss[p[t]] == ss.drop_last()[p[t]] by {}
    }
}

fn is_component_name(seg: &Vec<char>) -> (r: bool)
    ensures
        r == names_component(seg@),
{
    if seg.len() == 0 {
        return false;
    }
    if seg.len() == 1 && seg[0] == '.' {
        assert(seg@ =~= cur_dir());
        return false;
    }
    assert(seg@ != cur_dir()) by {
        if seg@.len() == 1 {
            assert(seg@[0] != cur_dir()[0]);
        }
    }
    true
}

/// Appends the components of `s` after its root or leading `.` to `out`.
fn push_body_parts(s: &[char], out: &mut Vec<Vec<char>>)
    ensures
        views(final(out)@) == views(old(out)@) + body_parts(s@),
{
    let ghost start = views(out@);
    let n = s.len();
    let mut cur: Vec<char> = Vec::new();
    let ghost mut done: Seq<Seq<char>> = Seq::empty();
    assert(s@.take(0) =~= Seq::<char>::empty());
    assert(done.push(cur@) =~= split_slash(s@.take(0)));
    assert(kept(done) =~= Seq::<Seq<char>>::empty());
    assert(views(out@) =~= start + kept(done));
    for i in 0..n
        invariant
            n == s@.len(),
            done.push(cur@) == split_slash(s@.take(i as int)),
            views(out@) == start + kept(done),
    {
        let c = s[i];
        assert(s@.take(i + 1).drop_last() =~= s@.take(i as int));
        assert(s@.take(i + 1).last() == c);
        proof {
            lemma_split_slash_len(s@.take(i as int));
        }
        if c == '/' {
            let ghost cv = cur@;
            let ghost before = views(out@);
            proof {
                lemma_kept_push(done, cv);
            }
            if is_component_name(&cur) {
                out.push(cur);
                assert(views(out@) =~= before.push(cv));
            }
            proof {
                done = done.push(cv);
            }
            cur = Vec::new();
            assert(done.push(cur@) =~= split_slash(s@.take(i + 1)));
        } else {
            let ghost cv = cur@;
            cur.push(c);
            assert(done.push(cur@) =~= split_slash(s@.take(i + 1)));
        }
    }
    assert(s@.take(n as int) =~= s@);
    let ghost cv = cur@;
    let ghost before = views(out@);
    proof {
        lemma_kept_push(done, cv);
    }
    if is_component_name(&cur) {
        out.push(cur);
        assert(views(out@) =~= before.push(cv));
    }
    assert(final_parts(views(out@), start, kept(done.push(cv))));
}

spec fn final_parts(v: Seq<Seq<char>>, start: Seq<Seq<char>>, parts: Seq<Seq<char>>) -> bool {
    v =~= start + parts
}

/// The components of `s` after its root or leading `.`.
pub fn body_parts_of(s: &[char]) -> (r: Vec<Vec<char>>)
    ensures
        views(r@) == body_parts(s@),
{
    let mut out: Vec<Vec<char>> = Vec::new();
    assert(views(out@) =~= Seq::<Seq<char>>::empty());
    push_body_parts(s, &mut out);
    assert(views(out@) =~= body_parts(s@));
    out
}

/// The components of the path `s`.
pub fn components_of(s: &[char]) -> (r: Vec<Vec<char>>)
    ensures
        views(r@) == components(s@),
{
    let n = s.len();
    let mut out: Vec<Vec<char>> = Vec::new();
    if n > 0 && s[0] == '/' {
        let mut root: Vec<char> = Vec::new();
        root.push('/');
        assert(root@ =~= root_dir());
        out.push(root);
    } else if n > 0 && s[0] == '.' && (n == 1 || s[1] == '/') {
        let mut cur: Vec<char> = Vec::new();
        cur.push('.');
        assert(cur@ =~= cur_dir());
        out.push(cur);
    }
    assert(views(out@) =~= head_part(s@));
    push_body_parts(s, &mut out);
    out
}

// ---------------------------------------------------------------------------
// Queries
// ---------------------------------------------------------------------------

/// `Path::is_absolute`.
pub fn path_is_absolute(p: &str) -> (r: bool)
    ensures
        r == is_absolute(p@),
{
    let v = to_chars(p);
    v.len() > 0 && v[0] == '/'
}

fn is_parent_dir(seg: &Vec<char>) -> (r: bool)
    ensures
        r == (seg@ == parent_dir()),
{
    let r = seg.len() == 2 && seg[0] == '.' && seg[1] == '.';
    if r {
        assert(seg@ =~= parent_dir());
    } else {
        assert(seg@ != parent_dir()) by {
            if seg@.len() == 2 {
                assert(seg@[0] != parent_dir()[0] || seg@[1] != parent_dir()[1]);
            }
        }
    }
    r
}

/// `Path::file_name` on characters.
pub fn file_name_chars(s: &[char]) -> (r: Option<Vec<char>>)
    ensures
        opt_vec_view(r) == file_name(s@),
{
    let mut parts = body_parts_of(s);
    let n = parts.len();
    if n == 0 {
        return None;
    }
    if is_parent_dir(&parts[n - 1]) {
        return None;
    }
    let ghost pv = views(parts@);
    let last = parts.pop().unwrap();
    assert(last@ == pv.last());
    Some(last)
}

/// `Path::file_name`.
pub fn path_file_name(p: &str) -> (r: Option<String>)
    ensures
        opt_view(r) == file_name(p@),
{
    let v = to_chars(p);
    match file_name_chars(v.as_slice()) {
        Some(n) => Some(from_chars(n.as_slice())),
        None => None,
    }
}

/// The stem and extension of a file name.
pub fn split_at_dot_chars(name: &[char]) -> (r: (Option<Vec<char>>, Option<Vec<char>>))
    ensures
        (opt_vec_view(r.0), opt_vec_view(r.1)) == split_at_dot(name@),
{
    let n = name.len();
    if n == 2 && name[0] == '.' && name[1] == '.' {
        assert(name@ =~= parent_dir());
        return (Some(sub_vec(name, 0, n)), None);
    }
    assert(name@ != parent_dir()) by {
        if name@.len() == 2 {
            assert(name@[0] != parent_dir()[0] || name@[1] != parent_dir()[1]);
        }
    }
    assert(name@.subrange(0, n as int) =~= name@);
    proof {
        lemma_last_index_of(name@, '.');
    }
    match chars_last_index_of(name, '.') {
        None => (None, Some(sub_vec(name, 0, n))),
        Some(k) => {
            if k == 0 {
                (Some(sub_vec(name, 0, n)), None)
            } else {
                assert(name@.subrange(0, k as int) =~= name@.take(k as int));
                assert(name@.subrange(k + 1, n as int) =~= name@.skip(k + 1));
                (Some(sub_vec(name, 0, k)), Some(sub_vec(name, k + 1, n)))
            }
        },
    }
}

/// `Path::extension` on characters.
pub fn extension_chars(s: &[char]) -> (r: Option<Vec<char>>)
    ensures
        opt_vec_view(r) == extension(s@),
{
    match file_name_chars(s) {
        None => None,
        Some(n) => {
            let (before, after) = split_at_dot_chars(n.as_slice());
            match before {
                Some(_) => after,
                None => None,
            }
        },
    }
}

/// `Path::file_stem` on characters.
pub fn file_stem_chars(s: &[char]) -> (r: Option<Vec<char>>)
    ensures
        opt_vec_view(r) == file_stem(s@),
{
    match file_name_chars(s) {
        None => None,
        Some(n) => {
            let (before, after) = split_at_dot_chars(n.as_slice());
            match before {
                Some(b) => Some(b),
                None => after,
            }
        },
    }
}

/// `Path::join` on characters.
pub fn join_chars(a: &[char], b: &[char]) -> (r: Vec<char>)
    ensures
        r@ == join(a@, b@),
{
    if b.len() > 0 && b[0] == '/' {
        return sub_vec(b, 0, b.len());
    }
    let mut out = sub_vec(a, 0, a.len());
    assert(a@.subrange(0, a@.len() as int) =~= a@);
    if a.len() > 0 && a[a.len() - 1] != '/' {
        out.push('/');
    }
    push_all(&mut out, b);
    assert(b@.subrange(0, b@.len() as int) =~= b@);
    out
}

/// `Path::join`.
pub fn path_join(a: &str, b: &str) -> (r: String)
    ensures
        r@ == join(a@, b@),
{
    let av = to_chars(a);
    let bv = to_chars(b);
    let j = join_chars(av.as_slice(), bv.as_slice());
    from_chars(j.as_slice())
}

/// Segments `from..to` joined by `/`.
fn push_joined(cs: &Vec<Vec<char>>, from: usize, to: usize, out: &mut Vec<char>)
    requires
        from <= to <= cs@.len(),
    ensures
        final(out)@ == old(out)@ + join_slash(views(cs@).subrange(from as int, to as int)),
{
    let ghost start = out@;
    let ghost dv = views(cs@);
    let mut i = from;
    assert(dv.subrange(from as int, from as int) =~= Seq::<Seq<char>>::empty());
    while i < to
        invariant
            from <= i <= to <= cs@.len(),
            dv == views(cs@),
            out@ == start + join_slash(dv.subrange(from as int, i as int)),
        decreases to - i,
    {
        let ghost prefix = dv.subrange(from as int, i as int);
        let ghost next = dv.subrange(from as int, i + 1);
        assert(next.drop_last() =~= prefix);
        assert(next.last() == cs[i as int]@);
        if i > from {
            out.push('/');
        }
        push_all(out, cs[i].as_slice());
        assert(out@ =~= start + join_slash(next));
        i += 1;
    }
}

/// The segments of `s` between slashes, empty ones included.
pub fn segments_of(s: &[char]) -> (r: Vec<Vec<char>>)
    ensures
        views(r@) == split_slash(s@),
{
    let n = s.len();
    let mut out: Vec<Vec<char>> = Vec::new();
    let mut cur: Vec<char> = Vec::new();
    assert(s@.take(0) =~= Seq::<char>::empty());
    assert(views(out@).push(cur@) =~= split_slash(s@.take(0)));
    for i in 0..n
        invariant
            n == s@.len(),
            views(out@).push(cur@) == split_slash(s@.take(i as int)),
    {
        let c = s[i];
        assert(s@.take(i + 1).drop_last() =~= s@.take(i as int));
        assert(s@.take(i + 1).last() == c);
        proof {
            lemma_split_slash_len(s@.take(i as int));
        }
        let ghost before = views(out@);
        if c == '/' {
            let ghost cv = cur@;
            out.push(cur);
            assert(views(out@) =~= before.push(cv));
            cur = Vec::new();
            assert(views(out@).push(cur@) =~= split_slash(s@.take(i + 1)));
        } else {
            cur.push(c);
            assert(views(out@).push(cur@) =~= split_slash(s@.take(i + 1)));
        }
    }
    assert(s@.take(n as int) =~= s@);
    let ghost before = views(out@);
    let ghost cv = cur@;
    out.push(cur);
    assert(views(out@) =~= before.push(cv));
    out
}

/// Integers of indices.
pub open spec fn ints(v: Seq<usize>) -> Seq<int> {
    v.map_values(|x: usize| x as int)
}

/// The indices of the segments that name components.
pub fn kept_indices_of(segs: &Vec<Vec<char>>) -> (r: Vec<usize>)
    ensures
        ints(r@) == kept_indices(views(segs@)),
{
    let ghost dv = views(segs@);
    let n = segs.len();
    let mut out: Vec<usize> = Vec::new();
    assert(dv.take(0) =~= Seq::<Seq<char>>::empty());
    for i in 0..n
        invariant
            n == segs@.len(),
            dv == views(segs@),
            ints(out@) == kept_indices(dv.take(i as int)),
    {
        assert(dv.take(i + 1).drop_last() =~= dv.take(i as int));
        assert(dv.take(i + 1).last() == segs@[i as int]@);
        let ghost before = out@;
        if is_component_name(&segs[i]) {
            out.push(i);
            assert(ints(out@) =~= ints(before).push(i as int));
        }
    }
    assert(dv.take(n as int) =~= dv);
    out
}

fn is_root(seg: &Vec<char>) -> (r: bool)
    ensures
        r == (seg@ == root_dir()),
{
    let r = seg.len() == 1 && seg[0] == '/';
    if r {
        assert(seg@ =~= root_dir());
    } else {
        assert(seg@ != root_dir()) by {
            if seg@.len() == 1 {
                assert(seg@[0] != root_dir()[0]);
            }
        }
    }
    r
}

/// Whether the components `prefix` begin the components `xs`.
pub fn comps_prefix(prefix: &Vec<Vec<char>>, xs: &Vec<Vec<char>>) -> (r: bool)
    ensures
        r == seq_is_prefix(views(prefix@), views(xs@)),
{
    let m = prefix.len();
    if m > xs.len() {
        return false;
    }
    let ghost pv = views(prefix@);
    let ghost xv = views(xs@);
    for i in 0..m
        invariant
            m == prefix@.len(),
            m <= xs@.len(),
            pv == views(prefix@),
            xv == views(xs@),
            forall|k: int| 0 <= k < i ==> pv[k] == xv[k],
    {
        if !chars_eq(prefix[i].as_slice(), xs[i].as_slice()) {
            assert(xv.take(m as int)[i as int] != pv[i as int]);
            return false;
        }
    }
    assert(xv.take(m as int) =~= pv);
    true
}

/// `Path::starts_with` on characters.
pub fn starts_with_chars(s: &[char], base: &[char]) -> (r: bool)
    ensures
        r == path_starts_with(s@, base@),
{
    let cs = components_of(s);
    let cb = components_of(base);
    comps_prefix(&cb, &cs)
}

/// `Path::starts_with`.
pub fn path_starts_with_str(s: &str, base: &str) -> (r: bool)
    ensures
        r == path_starts_with(s@, base@),
{
    let sv = to_chars(s);
    let bv = to_chars(base);
    starts_with_chars(sv.as_slice(), bv.as_slice())
}

/// The text of `s` through its `t`-th named segment.
fn through_kept_chars(segs: &Vec<Vec<char>>, ix: &Vec<usize>, t: usize, s: Ghost<Seq<char>>) -> (r: Vec<char>)
    requires
        views(segs@) == split_slash(s@),
        ints(ix@) == kept_indices(split_slash(s@)),
        t < ix@.len(),
    ensures
        r@ == through_kept(s@, t as int),
{
    proof {
        lemma_kept_indices(split_slash(s@));
    }
    let mut out: Vec<char> = Vec::new();
    let n = segs.len();
    assert(ints(ix@)[t as int] == ix@[t as int] as int);
    assert(ix@[t as int] < n);
    push_joined(segs, 0, ix[t] + 1, &mut out);
    assert(views(segs@).subrange(0, ix@[t as int] + 1) =~= views(segs@).take(ix@[t as int] + 1));
    out
}

/// The text of `s` from its `t`-th named segment to the end of its last.
fn kept_span_chars(segs: &Vec<Vec<char>>, ix: &Vec<usize>, t: usize, s: Ghost<Seq<char>>) -> (r: Vec<char>)
    requires
        views(segs@) == split_slash(s@),
        ints(ix@) == kept_indices(split_slash(s@)),
        t < ix@.len(),
    ensures
        r@ == kept_span(s@, t as int),
{
    proof {
        lemma_kept_indices(split_slash(s@));
    }
    let mut out: Vec<char> = Vec::new();
    let last = ix[ix.len() - 1];
    let n = segs.len();
    assert(ints(ix@)[t as int] == ix@[t as int] as int);
    assert(ints(ix@).last() == last as int);
    assert(ints(ix@)[ix@.len() - 1] == last as int);
    assert(last < n);
    if t < ix.len() - 1 {
        assert(ints(ix@)[t as int] < ints(ix@)[ix@.len() - 1]);
    }
    push_joined(segs, ix[t], last + 1, &mut out);
    out
}

fn head_text_chars(s: &[char]) -> (r: Vec<char>)
    ensures
        r@ == head_text(s@),
{
    let n = s.len();
    let mut out: Vec<char> = Vec::new();
    if n > 0 && s[0] == '/' {
        out.push('/');
    } else if n > 0 && s[0] == '.' && (n == 1 || s[1] == '/') {
        out.push('.');
    }
    assert(out@ =~= head_text(s@));
    out
}

/// `Path::strip_prefix` on characters.
pub fn strip_prefix_chars(s: &[char], base: &[char]) -> (r: Option<Vec<char>>)
    ensures
        opt_vec_view(r) == strip_prefix(s@, base@),
{
    let cs = components_of(s);
    let cb = components_of(base);
    if !comps_prefix(&cb, &cs) {
        return None;
    }
    let segs = segments_of(s);
    let ix = kept_indices_of(&segs);
    proof {
        lemma_kept_indices(split_slash(s@));
    }
    let k = ix.len();
    assert(k == body_parts(s@).len());
    let h = cs.len() - k;
    assert(h == head_part(s@).len());
    let m = cb.len();
    if m == 0 {
        if k == 0 {
            Some(head_text_chars(s))
        } else {
            Some(through_kept_chars(&segs, &ix, k - 1, Ghost(s@)))
        }
    } else if m - h < k {
        Some(kept_span_chars(&segs, &ix, m - h, Ghost(s@)))
    } else {
        Some(Vec::new())
    }
}

/// `Path::strip_prefix`.
pub fn path_strip_prefix(s: &str, base: &str) -> (r: Option<String>)
    ensures
        opt_view(r) == strip_prefix(s@, base@),
{
    let sv = to_chars(s);
    let bv = to_chars(base);
    match strip_prefix_chars(sv.as_slice(), bv.as_slice()) {
        Some(v) => Some(from_chars(v.as_slice())),
        None => None,
    }
}

/// `Path::parent` on characters.
pub fn parent_chars(s: &[char]) -> (r: Option<Vec<char>>)
    ensures
        opt_vec_view(r) == parent(s@),
{
    let cs = components_of(s);
    let n = cs.len();
    if n == 0 || is_root(&cs[n - 1]) {
        return None;
    }
    let segs = segments_of(s);
    let ix = kept_indices_of(&segs);
    proof {
        lemma_kept_indices(split_slash(s@));
    }
    let k = ix.len();
    assert(k == body_parts(s@).len());
    if k >= 2 {
        Some(through_kept_chars(&segs, &ix, k - 2, Ghost(s@)))
    } else if k == 1 {
        Some(head_text_chars(s))
    } else {
        Some(Vec::new())
    }
}

/// Whether some component of `s` is exactly `name`.
pub fn has_component_chars(s: &[char], name: &[char]) -> (r: bool)
    ensures
        r == has_component(s@, name@),
{
    let cs = components_of(s);
    let ghost dv = views(cs@);
    let n = cs.len();
    for i in 0..n
        invariant
            n == cs@.len(),
            dv == views(cs@),
            dv == components(s@),
            forall|k: int| 0 <= k < i ==> dv[k] != name@,
    {
        if chars_eq(cs[i].as_slice(), name) {
            assert(dv[i as int] == name@);
            assert(dv.contains(name@));
            return true;
        }
    }
    false
}

// ---------------------------------------------------------------------------
// Laws
// ---------------------------------------------------------------------------

proof fn lemma_split_concat(x: Seq<char>, y: Seq<char>)
    ensures
        split_slash(x + seq!['/'] + y) == split_slash(x) + split_slash(y),
    decreases y.len(),
{
    if y.len() == 0 {
        assert(x + seq!['/'] + y =~= x.push('/'));
        assert((x.push('/')).drop_last() =~= x);
        assert(split_slash(x) + split_slash(y) =~= split_slash(x).push(Seq::<char>::empty()));
    } else {
        let y2 = y.drop_last();
        let c = y.last();
        lemma_split_concat(x, y2);
        lemma_split_slash_len(y2);
        lemma_split_slash_len(x);
        let s = x + seq!['/'] + y;
        assert(s.drop_last() =~= x + seq!['/'] + y2);
        assert(s.last() == c);
        let p = split_slash(x);
        let q = split_slash(y2);
        if c == '/' {
            assert(split_slash(s) =~= (p + q).push(Seq::<char>::empty()));
            assert(split_slash(y) =~= q.push(Seq::<char>::empty()));
            assert((p + q).push(Seq::<char>::empty()) =~= p + q.push(Seq::<char>::empty()));
        } else {
            assert(split_slash(y) =~= q.update(q.len() - 1, q.last().push(c)));
            assert((p + q).last() == q.last());
            assert((p + q).update((p + q).len() - 1, (p + q).last().push(c)) =~= p + q.update(
                q.len() - 1,
                q.last().push(c),
            ));
        }
    }
}

proof fn lemma_kept_concat(a: Seq<Seq<char>>, b: Seq<Seq<char>>)
    ensures
        kept(a + b) == kept(a) + kept(b),
    decreases b.len(),
{
    if b.len() == 0 {
        assert(a + b =~= a);
        assert(kept(a) + kept(b) =~= kept(a));
    } else {
        lemma_kept_concat(a, b.drop_last());
        assert((a + b).drop_last() =~= a + b.drop_last());
        assert((a + b).last() == b.last());
        if names_component(b.last()) {
            assert(kept(a) + kept(b.drop_last()).push(b.last()) =~= (kept(a) + kept(
                b.drop_last(),
            )).push(b.last()));
        }
    }
}

/// Joining a relative path to a non-empty path appends the relative path's
/// components.
pub proof fn lemma_join_components(a: Seq<char>, b: Seq<char>)
    requires
        a.len() > 0,
        !is_absolute(b),
    ensures
        components(join(a, b)) == components(a) + body_parts(b),
{
    let j = join(a, b);
    if a.last() != '/' {
        assert(j == a + seq!['/'] + b);
        lemma_split_concat(a, b);
        lemma_kept_concat(split_slash(a), split_slash(b));
        if a.len() == 1 {
            assert(j[1] == '/');
        } else {
            assert(j[1] == a[1]);
        }
        assert(j[0] == a[0]);
        assert(head_part(j) == head_part(a));
    } else {
        let a2 = a.drop_last();
        assert(a =~= a2 + seq!['/'] + Seq::<char>::empty());
        assert(j =~= a2 + seq!['/'] + b);
        lemma_split_concat(a2, b);
        lemma_split_concat(a2, Seq::<char>::empty());
        assert(split_slash(Seq::<char>::empty()) =~= seq![Seq::<char>::empty()]);
        lemma_kept_concat(split_slash(a2), split_slash(b));
        lemma_kept_concat(split_slash(a2), seq![Seq::<char>::empty()]);
        lemma_kept_single_empty();
        assert(kept(split_slash(a2)) + kept(seq![Seq::<char>::empty()]) =~= kept(split_slash(a2)));
        if a.len() == 1 {
            assert(head_part(a) == seq![root_dir()]);
            assert(j[0] == '/');
        } else {
            assert(j[1] == a[1]);
            assert(j[0] == a[0]);
        }
        assert(head_part(j) == head_part(a));
    }
    assert(components(j) =~= components(a) + body_parts(b));
}

/// The components of the empty path: none.
pub proof fn lemma_components_empty()
    ensures
        components(Seq::<char>::empty()) == Seq::<Seq<char>>::empty(),
{
    assert(split_slash(Seq::<char>::empty()) =~= seq![Seq::<char>::empty()]);
    lemma_kept_single_empty();
    assert(components(Seq::<char>::empty()) =~= Seq::<Seq<char>>::empty());
}

proof fn lemma_kept_single_empty()
    ensures
        kept(seq![Seq::<char>::empty()]) == Seq::<Seq<char>>::empty(),
{
    let ss = seq![Seq::<char>::empty()];
    assert(ss.len() == 1);
    assert(ss.last() =~= Seq::<char>::empty());
    assert(!names_component(ss.last()));
    assert(ss.drop_last() =~= Seq::<Seq<char>>::empty());
    assert(kept(Seq::<Seq<char>>::empty()) =~= Seq::<Seq<char>>::empty());
    assert(kept(ss) == kept(ss.drop_last()));
    assert(kept(ss) =~= Seq::<Seq<char>>::empty());
}

/// A text without a slash is a single segment.
pub proof fn lemma_split_slashless(s: Seq<char>)
    requires
        forall|i: int| 0 <= i < s.len() ==> #[trigger] s[i] != '/',
    ensures
        split_slash(s) == seq![s],
    decreases s.len(),
{
    if s.len() > 0 {
        assert forall|i: int| 0 <= i < s.drop_last().len() implies #[trigger] s.drop_last()[i]
            != '/' by {
            assert(s.drop_last()[i] == s[i]);
        }
        lemma_split_slashless(s.drop_last());
        assert(s.drop_last().push(s.last()) =~= s);
        assert(seq![s.drop_last()].update(0, s) =~= seq![s]);
    } else {
        assert(s =~= Seq::<char>::empty());
    }
}

/// Joining a single name, neither `.` nor `..`, to any path makes that
/// name the file name.
pub proof fn lemma_file_name_join(a: Seq<char>, b: Seq<char>)
    requires
        b.len() > 0,
        forall|i: int| 0 <= i < b.len() ==> #[trigger] b[i] != '/',
        b != cur_dir(),
        b != parent_dir(),
    ensures
        file_name(join(a, b)) == Some(b),
{
    lemma_split_slashless(b);
    assert(b[0] != '/');
    let single = seq![b];
    assert(names_component(b));
    assert(single.drop_last() =~= Seq::<Seq<char>>::empty());
    assert(kept(single) == kept(single.drop_last()).push(b));
    assert(kept(single) =~= single);
    let j = join(a, b);
    if a.len() == 0 {
        assert(j =~= b);
    } else {
        let a2 = if a.last() != '/' {
            a
        } else {
            a.drop_last()
        };
        assert(j =~= a2 + seq!['/'] + b);
        lemma_split_concat(a2, b);
        lemma_kept_concat(split_slash(a2), single);
        assert(body_parts(j) == kept(split_slash(a2)) + single);
    }
}

/// A relative path joined to any path lies under that path.
pub proof fn lemma_join_starts_with(a: Seq<char>, b: Seq<char>)
    requires
        !is_absolute(b),
    ensures
        path_starts_with(join(a, b), a),
{
    if a.len() == 0 {
        lemma_components_empty();
        assert(components(join(a, b)).take(0) =~= Seq::<Seq<char>>::empty());
    } else {
        lemma_join_components(a, b);
        assert((components(a) + body_parts(b)).take(components(a).len() as int) =~= components(a));
    }
}

/// A relative path whose every segment names a component: no empty
/// segment, no `.` segment, no leading or trailing slash.
pub open spec fn is_plain_relative(b: Seq<char>) -> bool {
    forall|i: int| 0 <= i < split_slash(b).len() ==> names_component(#[trigger] split_slash(b)[i])
}

/// Indices shifted by `n`.
pub open spec fn shifted(ix: Seq<int>, n: int) -> Seq<int> {
    ix.map_values(|i: int| i + n)
}

proof fn lemma_kept_indices_concat(x: Seq<Seq<char>>, y: Seq<Seq<char>>)
    ensures
        kept_indices(x + y) == kept_indices(x) + shifted(kept_indices(y), x.len() as int),
    decreases y.len(),
{
    if y.len() == 0 {
        assert(x + y =~= x);
        assert(kept_indices(x) + shifted(kept_indices(y), x.len() as int) =~= kept_indices(x));
    } else {
        lemma_kept_indices_concat(x, y.drop_last());
        assert((x + y).drop_last() =~= x + y.drop_last());
        assert((x + y).last() == y.last());
        if names_component(y.last()) {
            assert(shifted(kept_indices(y), x.len() as int) =~= shifted(
                kept_indices(y.drop_last()),
                x.len() as int,
            ).push(y.len() - 1 + x.len()));
            assert(kept_indices(x + y) =~= kept_indices(x) + shifted(kept_indices(y), x.len() as int));
        } else {
            assert(shifted(kept_indices(y), x.len() as int) =~= shifted(
                kept_indices(y.drop_last()),
                x.len() as int,
            ));
        }
    }
}

proof fn lemma_kept_indices_all(y: Seq<Seq<char>>)
    requires
        forall|i: int| 0 <= i < y.len() ==> names_component(#[trigger] y[i]),
    ensures
        kept_indices(y) == Seq::new(y.len(), |i: int| i),
    decreases y.len(),
{
    if y.len() > 0 {
        assert forall|i: int| 0 <= i < y.drop_last().len() implies names_component(
            #[trigger] y.drop_last()[i],
        ) by {
            assert(y.drop_last()[i] == y[i]);
        }
        lemma_kept_indices_all(y.drop_last());
        assert(names_component(y[y.len() - 1]));
        assert(kept_indices(y) =~= Seq::new(y.len(), |i: int| i));
    } else {
        assert(kept_indices(y) =~= Seq::new(y.len(), |i: int| i));
    }
}

proof fn lemma_join_slash_update(p: Seq<Seq<char>>, c: char)
    requires
        p.len() > 0,
    ensures
        join_slash(p.update(p.len() - 1, p.last().push(c))) == join_slash(p).push(c),
{
    let q = p.update(p.len() - 1, p.last().push(c));
    if p.len() > 1 {
        assert(q.drop_last() =~= p.drop_last());
    }
    assert(join_slash(q) =~= join_slash(p).push(c));
}

/// Splitting at slashes and joining with slashes gives back the text.
pub proof fn lemma_join_split(b: Seq<char>)
    ensures
        join_slash(split_slash(b)) == b,
    decreases b.len(),
{
    if b.len() == 0 {
        assert(join_slash(seq![Seq::<char>::empty()]) =~= b);
    } else {
        lemma_join_split(b.drop_last());
        lemma_split_slash_len(b.drop_last());
        let p = split_slash(b.drop_last());
        if b.last() == '/' {
            assert(p.push(Seq::<char>::empty()).drop_last() =~= p);
            assert(join_slash(p.push(Seq::<char>::empty())) =~= b);
        } else {
            lemma_join_slash_update(p, b.last());
            assert(b.drop_last().push(b.last()) =~= b);
        }
    }
}

/// Removing a path with components from its join with a plain relative
/// path gives back the relative path.
pub proof fn lemma_strip_join(a: Seq<char>, b: Seq<char>)
    requires
        components(a).len() > 0,
        is_plain_relative(b),
    ensures
        strip_prefix(join(a, b), a) == Some(b),
{
    lemma_split_slash_len(b);
    assert(names_component(split_slash(b)[0]));
    assert(!is_absolute(b)) by {
        if is_absolute(b) {
            lemma_split_first_empty(b);
        }
    }
    assert(a.len() > 0) by {
        if a.len() == 0 {
            lemma_components_empty();
        }
    }
    let j = join(a, b);
    let a2 = if a.last() != '/' {
        a
    } else {
        a.drop_last()
    };
    assert(j =~= a2 + seq!['/'] + b);
    lemma_split_concat(a2, b);
    lemma_join_components(a, b);
    lemma_join_starts_with(a, b);
    let sa = split_slash(a2);
    let sb = split_slash(b);
    assert(kept(split_slash(a)) == kept(sa)) by {
        if a.last() == '/' {
            assert(a =~= a2 + seq!['/'] + Seq::<char>::empty());
            lemma_split_concat(a2, Seq::<char>::empty());
            assert(split_slash(Seq::<char>::empty()) =~= seq![Seq::<char>::empty()]);
            lemma_kept_concat(sa, seq![Seq::<char>::empty()]);
            lemma_kept_single_empty();
            assert(kept(sa) + Seq::<Seq<char>>::empty() =~= kept(sa));
        }
    }
    lemma_kept_concat(sa, sb);
    lemma_kept_indices_concat(sa, sb);
    lemma_kept_indices_all(sb);
    lemma_kept_indices(sa);
    lemma_kept_indices(sa + sb);
    lemma_kept_indices(sb);
    lemma_join_split(b);
    let ix = kept_indices(sa + sb);
    let ka = kept(sa).len() as int;
    assert(ix[ka] == sa.len());
    assert(ix.last() == sa.len() + sb.len() - 1);
    assert((sa + sb).subrange(sa.len() as int, (sa.len() + sb.len()) as int) =~= sb);
    assert(head_part(j) == head_part(a));
}

proof fn lemma_split_first_empty(b: Seq<char>)
    requires
        is_absolute(b),
    ensures
        split_slash(b)[0].len() == 0,
        split_slash(b).len() >= 2,
    decreases b.len(),
{
    if b.len() > 1 {
        assert(b.drop_last()[0] == '/');
        lemma_split_first_empty(b.drop_last());
    } else {
        assert(b.drop_last() =~= Seq::<char>::empty());
        assert(b.last() == '/');
        assert(split_slash(Seq::<char>::empty()) =~= seq![Seq::<char>::empty()]);
        assert(split_slash(b) == split_slash(b.drop_last()).push(Seq::<char>::empty()));
        assert(split_slash(b) =~= seq![Seq::<char>::empty(), Seq::<char>::empty()]);
    }
}

/// No piece between slashes holds a slash.
proof fn lemma_split_no_slash(s: Seq<char>)
    ensures
        forall|i: int| 0 <= i < split_slash(s).len() ==> !(#[trigger] split_slash(s)[i]).contains('/'),
    decreases s.len(),
{
    if s.len() > 0 {
        lemma_split_no_slash(s.drop_last());
        lemma_split_slash_len(s.drop_last());
        let p = split_slash(s.drop_last());
        if s.last() != '/' {
            let q = split_slash(s);
            assert forall|i: int| 0 <= i < q.len() implies !(#[trigger] q[i]).contains('/') by {
                if i == q.len() - 1 {
                    assert(q[i] == p.last().push(s.last()));
                    assert(!p[p.len() - 1].contains('/'));
                    if q[i].contains('/') {
                        let k = choose|k: int| 0 <= k < q[i].len() && q[i][k] == '/';
                        assert(k < q[i].len() - 1);
                        assert(p.last()[k] == '/');
                    }
                } else {
                    assert(q[i] == p[i]);
                }
            }
        } else {
            let q = split_slash(s);
            assert forall|i: int| 0 <= i < q.len() implies !(#[trigger] q[i]).contains('/') by {
                if i < p.len() {
                    assert(q[i] == p[i]);
                } else {
                    assert(q[i] =~= Seq::<char>::empty());
                }
            }
        }
    }
}

proof fn lemma_kept_props(ss: Seq<Seq<char>>)
    requires
        forall|i: int| 0 <= i < ss.len() ==> !(#[trigger] ss[i]).contains('/'),
    ensures
        forall|i: int|
            0 <= i < kept(ss).len() ==> !(#[trigger] kept(ss)[i]).contains('/') && kept(ss)[i].len()
                > 0,
    decreases ss.len(),
{
    if ss.len() > 0 {
        assert forall|i: int| 0 <= i < ss.drop_last().len() implies !(
        #[trigger] ss.drop_last()[i]).contains('/') by {
            assert(ss.drop_last()[i] == ss[i]);
        }
        lemma_kept_props(ss.drop_last());
        assert(!ss[ss.len() - 1].contains('/'));
        let k = kept(ss.drop_last());
        if names_component(ss.last()) {
            assert forall|i: int| 0 <= i < kept(ss).len() implies !(
            #[trigger] kept(ss)[i]).contains('/') && kept(ss)[i].len() > 0 by {
                if i < k.len() {
                    assert(kept(ss)[i] == k[i]);
                } else {
                    assert(kept(ss)[i] == ss.last());
                }
            }
        }
    }
}

/// The components after the root or leading `.` are non-empty and hold
/// no slash.
pub proof fn lemma_body_parts_plain(s: Seq<char>)
    ensures
        forall|i: int|
            0 <= i < body_parts(s).len() ==> !(#[trigger] body_parts(s)[i]).contains('/')
                && body_parts(s)[i].len() > 0,
{
    lemma_split_no_slash(s);
    lemma_kept_props(split_slash(s));
}

/// What is left of a path after a non-empty prefix of components is a
/// relative path.
pub proof fn lemma_strip_relative(s: Seq<char>, base: Seq<char>)
    requires
        components(base).len() > 0,
        strip_prefix(s, base) is Some,
    ensures
        !is_absolute(strip_prefix(s, base).unwrap()),
{
    let segs = split_slash(s);
    lemma_split_no_slash(s);
    lemma_kept_props(segs);
    lemma_kept_indices(segs);
    let ix = kept_indices(segs);
    let m = components(base).len() as int;
    let h = head_part(s).len() as int;
    let k = body_parts(s).len() as int;
    if m - h < k {
        let t = m - h;
        assert(0 <= t);
        let part = segs.subrange(ix[t], ix.last() + 1);
        assert(ix.last() == ix[k - 1]);
        if t < k - 1 {
            assert(ix[t] < ix[k - 1]);
        }
        assert(part[0] == segs[ix[t]]);
        assert(segs[ix[t]] == kept(segs)[t]);
        assert(part[0].len() > 0);
        lemma_join_slash_first(part);
        assert(part[0][0] != '/') by {
            if part[0][0] == '/' {
                assert(kept(segs)[t].contains('/'));
            }
        }
    }
}

proof fn lemma_join_slash_first(cs: Seq<Seq<char>>)
    requires
        cs.len() > 0,
        cs[0].len() > 0,
    ensures
        join_slash(cs).len() > 0 && join_slash(cs)[0] == cs[0][0],
    decreases cs.len(),
{
    if cs.len() > 1 {
        lemma_join_slash_first(cs.drop_last());
    }
}

} // verus!
