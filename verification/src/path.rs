//! Lexical path handling: components, parents, ancestors and prefix tests.
//!
//! A path is a sequence of characters in which `/` separates pieces. Nothing
//! here looks at a disk: `..` stays a component and links are not followed.
use crate::text::{
    field_end, find_field_end, from_chars, lemma_field_end_bounds, lemma_field_end_is,
    option_view, rows,
    same_chars, slice_chars, to_chars, views,
};
use vstd::prelude::*;

verus! {

/// The character that separates the pieces of a path.
pub open spec fn is_separator(c: char) -> bool {
    c == '/'
}

/// A path that begins at the root directory.
pub open spec fn has_root(p: Seq<char>) -> bool {
    p.len() > 0 && is_separator(p[0])
}

/// The text of the root component.
pub open spec fn root_text() -> Seq<char> {
    seq!['/']
}

/// Where the piece that starts at `i` ends: the first separator at or after
/// `i`, or the end of the path.
pub open spec fn piece_end(p: Seq<char>, i: int) -> int {
    field_end(p, '/', i)
}

/// Whether the piece `p[i..j]` is a component: it is not empty, and it is
/// not a `.` unless it opens the path.
pub open spec fn is_component(p: Seq<char>, i: int, j: int) -> bool {
    j > i && !(j == i + 1 && p[i] == '.' && i != 0)
}

/// The components among the pieces that start at `i` or later, each as the
/// pair of its first index and the index after its last.
pub open spec fn spans_from(p: Seq<char>, i: int) -> Seq<(int, int)>
    decreases p.len() - i,
{
    if i < 0 || i > p.len() {
        seq![]
    } else {
        let j = piece_end(p, i);
        let head = if is_component(p, i, j) {
            seq![(i, j)]
        } else {
            seq![]
        };
        if i <= j < p.len() {
            head + spans_from(p, j + 1)
        } else {
            head
        }
    }
}

/// The components of `p` below the root, as index pairs.
pub open spec fn spans(p: Seq<char>) -> Seq<(int, int)> {
    spans_from(p, 0)
}

/// The text of each span.
pub open spec fn span_texts(p: Seq<char>, s: Seq<(int, int)>) -> Seq<Seq<char>> {
    Seq::new(s.len(), |k: int| p.subrange(s[k].0, s[k].1))
}

/// The components of `p`: the root, if `p` has one, and then each piece that
/// is not empty and is not a `.` after the first piece.
pub open spec fn components(p: Seq<char>) -> Seq<Seq<char>> {
    if has_root(p) {
        seq![root_text()] + span_texts(p, spans(p))
    } else {
        span_texts(p, spans(p))
    }
}

/// Where the text that holds the root and the first `m` spans ends.
pub open spec fn cut(p: Seq<char>, m: int) -> int {
    if m <= 0 {
        if has_root(p) {
            1
        } else {
            0
        }
    } else {
        spans(p)[m - 1].1
    }
}

/// The path without its last component: `None` for a path that has no
/// component below the root, else the text up to the end of the component
/// before the last (`/` or the empty path where there is none).
pub open spec fn parent(p: Seq<char>) -> Option<Seq<char>> {
    let n = spans(p).len() as int;
    if n == 0 {
        None
    } else {
        Some(p.take(cut(p, n - 1)))
    }
}

/// The path itself, then its parent, then the parent of that, down to the
/// root or the empty path.
pub open spec fn ancestors(p: Seq<char>) -> Seq<Seq<char>> {
    let n = spans(p).len() as int;
    Seq::new(
        (n + 1) as nat,
        |k: int|
            if k == 0 {
                p
            } else {
                p.take(cut(p, n - k))
            },
    )
}

/// Whether the components of `base` open the components of `p`. Whole
/// components count: `/etc/foo.rs` does not start with `/etc/foo`.
pub open spec fn starts_with(p: Seq<char>, base: Seq<char>) -> bool {
    let whole = components(p);
    let lead = components(base);
    lead.len() <= whole.len() && whole.take(lead.len() as int) == lead
}

/// `name` below `base`: `name` alone where it has a root, else `base`, a
/// separator unless `base` is empty or ends in one, and `name`.
pub open spec fn join(base: Seq<char>, name: Seq<char>) -> Seq<char> {
    if has_root(name) {
        name
    } else if base.len() == 0 || is_separator(base.last()) {
        base + name
    } else {
        base + seq!['/'] + name
    }
}

/// What is left of `p` behind the components of `base`: `None` where `p`
/// does not start with `base`; else the text from the first component that
/// `base` does not hold to the end of the last component, which is empty
/// where `base` holds them all. Where `base` has no component, it is `p`
/// up to the end of its last component.
pub open spec fn strip_prefix(p: Seq<char>, base: Seq<char>) -> Option<Seq<char>> {
    let n = spans(p).len() as int;
    let lead = components(base).len() as int;
    let below = if has_root(p) {
        lead - 1
    } else {
        lead
    };
    if !starts_with(p, base) {
        None
    } else if lead == 0 {
        Some(p.take(cut(p, n)))
    } else if below >= n {
        Some(seq![])
    } else {
        Some(p.subrange(spans(p)[below].0, spans(p)[n - 1].1))
    }
}

/// Every span starts a piece, ends where that piece ends, is a component,
/// and lies behind the spans before it.
pub proof fn lemma_spans_from_shape(p: Seq<char>, i: int)
    requires
        0 <= i <= p.len(),
        i == 0 || is_separator(p[i - 1]),
    ensures
        forall|k: int|
            0 <= k < spans_from(p, i).len() ==> {
                let s = #[trigger] spans_from(p, i)[k];
                &&& i <= s.0 < s.1 <= p.len()
                &&& piece_end(p, s.0) == s.1
                &&& is_component(p, s.0, s.1)
                &&& (s.0 == 0 || is_separator(p[s.0 - 1]))
            },
        forall|k: int, m: int|
            0 <= k < m < spans_from(p, i).len() ==> (#[trigger] spans_from(p, i)[k]).1 < (
            #[trigger] spans_from(p, i)[m]).0,
    decreases p.len() - i,
{
    let j = piece_end(p, i);
    let all = spans_from(p, i);
    lemma_field_end_bounds(p, '/', i);
    let head = if is_component(p, i, j) {
        seq![(i, j)]
    } else {
        seq![]
    };
    if j < p.len() {
        let rest = spans_from(p, j + 1);
        lemma_spans_from_shape(p, j + 1);
        assert(all == head + rest);
        assert forall|k: int| 0 <= k < all.len() implies {
            let s = #[trigger] all[k];
            &&& i <= s.0 < s.1 <= p.len()
            &&& piece_end(p, s.0) == s.1
            &&& is_component(p, s.0, s.1)
            &&& (s.0 == 0 || is_separator(p[s.0 - 1]))
        } by {
            if k >= head.len() {
                assert(all[k] == rest[k - head.len()]);
            }
        }
        assert forall|k: int, m: int| 0 <= k < m < all.len() implies (#[trigger] all[k]).1 < (
        #[trigger] all[m]).0 by {
            assert(all[m] == rest[m - head.len()]);
            if k >= head.len() {
                assert(all[k] == rest[k - head.len()]);
            }
        }
    } else {
        assert(all == head);
    }
}

/// The spans of a path from `i` on are those of its first `c` characters
/// from `i` on, followed by those behind `c`, where `c` is a separator or
/// the end.
pub proof fn lemma_spans_of_prefix(p: Seq<char>, c: int, i: int)
    requires
        0 <= i <= c <= p.len(),
        c == p.len() || is_separator(p[c]),
    ensures
        spans_from(p, i) == spans_from(p.take(c), i) + (if c < p.len() {
            spans_from(p, c + 1)
        } else {
            seq![]
        }),
    decreases c - i,
{
    let q = p.take(c);
    let j = piece_end(p, i);
    lemma_field_end_bounds(p, '/', i);
    if j > c {
        assert(p[c] != '/');
    }
    assert forall|k: int| i <= k < j implies #[trigger] q[k] != '/' by {
        assert(q[k] == p[k]);
    }
    lemma_field_end_is(q, '/', i, j);
    assert(is_component(q, i, j) == is_component(p, i, j));
    let head = if is_component(p, i, j) {
        seq![(i, j)]
    } else {
        seq![]
    };
    let tail = if c < p.len() {
        spans_from(p, c + 1)
    } else {
        seq![]
    };
    if j < c {
        lemma_spans_of_prefix(p, c, j + 1);
        assert(spans_from(p, i) == head + spans_from(p, j + 1));
        assert(spans_from(q, i) == head + spans_from(q, j + 1));
        assert(head + (spans_from(q, j + 1) + tail) =~= (head + spans_from(q, j + 1)) + tail);
    } else {
        assert(spans_from(q, i) == head);
        assert(spans_from(p, i) == head + tail);
    }
}

/// The text up to the end of the `m`-th span has the root that the path
/// has, its first `m` spans, and so its first components.
pub proof fn lemma_prefix_components(p: Seq<char>, m: int)
    requires
        0 <= m <= spans(p).len(),
    ensures
        0 <= cut(p, m) <= p.len(),
        has_root(p.take(cut(p, m))) == has_root(p),
        spans(p.take(cut(p, m))) == spans(p).take(m),
        components(p.take(cut(p, m))) == components(p).take(
            m + (if has_root(p) {
                1int
            } else {
                0int
            }),
        ),
{
    let c = cut(p, m);
    let q = p.take(c);
    lemma_spans_from_shape(p, 0);
    if m == 0 {
        if has_root(p) {
            assert(q =~= seq!['/']);
            assert(field_end(q, '/', 0) == 0);
            assert(field_end(q, '/', 1) == 1);
            assert(spans_from(q, 1) =~= seq![]);
            assert(spans_from(q, 0) =~= seq![]);
        } else {
            assert(q =~= seq![]);
            assert(spans_from(q, 0) =~= seq![]);
        }
        assert(spans(q) =~= spans(p).take(0));
    } else {
        let s = spans(p)[m - 1];
        assert(c == s.1);
        lemma_field_end_bounds(p, '/', s.0);
        lemma_spans_of_prefix(p, c, 0);
        lemma_spans_from_shape(q, 0);
        let tail = if c < p.len() {
            spans_from(p, c + 1)
        } else {
            seq![]
        };
        if c < p.len() {
            lemma_spans_from_shape(p, c + 1);
        }
        let a = spans(q).len() as int;
        assert(spans(p) == spans(q) + tail);
        if m - 1 >= a {
            assert(spans(p)[m - 1] == tail[m - 1 - a]);
            assert(false);
        }
        if m < a {
            assert(spans(p)[m] == spans(q)[m]);
            assert(spans(p)[m - 1].1 < spans(p)[m].0);
            assert(false);
        }
        assert(spans(q) =~= spans(p).take(m));
    }
    assert(spans(q) == spans(p).take(m));
    assert(has_root(q) == has_root(p));
    assert forall|k: int| 0 <= k < m implies #[trigger] span_texts(q, spans(q))[k] == span_texts(
        p,
        spans(p),
    )[k] by {
        let s = spans(p)[k];
        assert(spans(q)[k] == s);
        if k < m - 1 {
            assert(spans(p)[k].1 < spans(p)[m - 1].0);
        }
        assert(s.1 <= c);
        assert(q.subrange(s.0, s.1) =~= p.subrange(s.0, s.1));
    }
    assert(span_texts(q, spans(q)) =~= span_texts(p, spans(p)).take(m));
    if has_root(p) {
        assert(components(q) =~= components(p).take(m + 1));
    } else {
        assert(components(q) =~= components(p).take(m));
    }
}

/// The ends of the spans grow: a text that holds fewer spans is shorter.
pub proof fn lemma_cut_grows(p: Seq<char>, a: int, b: int)
    requires
        0 <= a <= b <= spans(p).len(),
    ensures
        0 <= cut(p, a) <= cut(p, b) <= p.len(),
        a < b ==> cut(p, a) < cut(p, b),
{
    lemma_spans_from_shape(p, 0);
    if a < b {
        if a == 0 {
            let s = spans(p)[b - 1];
            if has_root(p) {
                assert(s.0 != 0) by {
                    lemma_field_end_bounds(p, '/', 0);
                    if s.0 == 0 {
                        assert(field_end(p, '/', 0) == 0);
                    }
                }
            }
        } else {
            assert(spans(p)[a - 1].1 < spans(p)[b - 1].0);
        }
    }
}

/// Each entry of `ancestors` is a text that holds the first components of
/// the path, one fewer from entry to entry.
pub proof fn lemma_ancestor_components(p: Seq<char>, k: int)
    requires
        0 <= k < ancestors(p).len(),
    ensures
        components(ancestors(p)[k]) == components(p).take(components(p).len() - k),
        spans(ancestors(p)[k]) == spans(p).take(spans(p).len() - k),
        has_root(ancestors(p)[k]) == has_root(p),
{
    let n = spans(p).len() as int;
    if k == 0 {
        assert(components(p).take(components(p).len() as int) =~= components(p));
        assert(spans(p).take(n) =~= spans(p));
    } else {
        lemma_prefix_components(p, n - k);
    }
}

/// The path starts with each of its ancestors.
pub proof fn lemma_ancestors_start_the_path(p: Seq<char>, k: int)
    requires
        0 <= k < ancestors(p).len(),
    ensures
        starts_with(p, ancestors(p)[k]),
{
    lemma_ancestor_components(p, k);
}

/// Each entry of `ancestors` but the last has the next entry as its parent,
/// and the last has none: the sequence is the walk from the path upwards.
pub proof fn lemma_ancestors_are_parents(p: Seq<char>, k: int)
    requires
        0 <= k < ancestors(p).len(),
    ensures
        parent(ancestors(p)[k]) == (if k + 1 < ancestors(p).len() {
            Some(ancestors(p)[k + 1])
        } else {
            None
        }),
{
    let n = spans(p).len() as int;
    let a = ancestors(p)[k];
    lemma_ancestor_components(p, k);
    lemma_spans_from_shape(p, 0);
    if k < n {
        let m = n - k - 1;
        lemma_cut_grows(p, m, n - k);
        let c = cut(p, m);
        assert(cut(a, m) == c) by {
            if m > 0 {
                assert(spans(a)[m - 1] == spans(p)[m - 1]);
            }
        }
        if k == 0 {
            assert(a.take(c) == p.take(c));
        } else {
            assert(a.take(c) =~= p.take(c));
        }
    }
}

/// The walk upwards from an ancestor is the rest of the walk upwards from
/// the path.
pub proof fn lemma_ancestors_of_ancestor(p: Seq<char>, k: int)
    requires
        0 <= k < ancestors(p).len(),
    ensures
        ancestors(ancestors(p)[k]) == ancestors(p).skip(k),
{
    let n = spans(p).len() as int;
    let a = ancestors(p)[k];
    lemma_ancestor_components(p, k);
    lemma_spans_from_shape(p, 0);
    let walk = ancestors(a);
    let rest = ancestors(p).skip(k);
    assert(walk.len() == rest.len());
    assert forall|i: int| 0 <= i < walk.len() implies walk[i] == rest[i] by {
        if i > 0 {
            let m = n - k - i;
            lemma_cut_grows(p, m, n - k);
            assert(cut(a, m) == cut(p, m)) by {
                if m > 0 {
                    assert(spans(a)[m - 1] == spans(p)[m - 1]);
                }
            }
            assert(a.take(cut(p, m)) =~= p.take(cut(p, m)));
        }
    }
    assert(walk =~= rest);
}

/// The components of a text that ends before a separator, or at the end,
/// open the components of the whole path.
pub proof fn lemma_prefix_starts(p: Seq<char>, c: int)
    requires
        0 <= c <= p.len(),
        c == p.len() || is_separator(p[c]),
        c > 0 || !has_root(p),
    ensures
        starts_with(p, p.take(c)),
{
    let q = p.take(c);
    lemma_spans_of_prefix(p, c, 0);
    lemma_spans_from_shape(q, 0);
    assert(has_root(q) == has_root(p));
    let n = spans(q).len() as int;
    assert(spans(p).take(n) =~= spans(q));
    assert forall|k: int| 0 <= k < n implies #[trigger] span_texts(q, spans(q))[k] == span_texts(
        p,
        spans(p),
    )[k] by {
        let s = spans(q)[k];
        assert(spans(p)[k] == s);
        assert(q.subrange(s.0, s.1) =~= p.subrange(s.0, s.1));
    }
    assert(span_texts(p, spans(p)).take(n) =~= span_texts(q, spans(q)));
    if has_root(p) {
        assert(components(p).take(n + 1) =~= components(q));
    } else {
        assert(components(p).take(n) =~= components(q));
    }
}

/// A separator at the end of a path adds no component.
pub proof fn lemma_trailing_separator(d: Seq<char>)
    requires
        d.len() > 0,
        is_separator(d.last()),
    ensures
        components(d.drop_last()) == if d.len() == 1 {
            Seq::<Seq<char>>::empty()
        } else {
            components(d)
        },
        d.len() > 1 ==> starts_with(d, d.drop_last()) && starts_with(d.drop_last(), d),
{
    let c = d.len() - 1;
    let q = d.take(c);
    assert(q =~= d.drop_last());
    if d.len() == 1 {
        assert(spans_from(q, 0) =~= seq![]);
        assert(components(q) =~= Seq::<Seq<char>>::empty());
    } else {
        lemma_spans_of_prefix(d, c, 0);
        assert(field_end(d, '/', c + 1) == d.len());
        assert(spans_from(d, c + 1) =~= seq![]);
        assert(spans(d) =~= spans(q));
        lemma_prefix_starts(d, c);
        assert(components(q).len() == components(d).len());
        assert(components(d).take(components(d).len() as int) =~= components(d));
        assert(components(q) =~= components(d));
        lemma_starts_with_itself(d);
    }
}

/// A path made by joining a name that has no root below `base` starts with
/// `base`: joining leads downwards, whatever the name holds.
pub proof fn lemma_join_stays_below(base: Seq<char>, name: Seq<char>)
    requires
        !has_root(name),
    ensures
        starts_with(join(base, name), base),
{
    let p = join(base, name);
    if base.len() == 0 {
        assert(spans_from(base, 0) =~= seq![]);
        assert(components(base) =~= Seq::<Seq<char>>::empty());
        assert(components(p).take(0) =~= components(base));
    } else if is_separator(base.last()) {
        let c = base.len() - 1;
        assert(p == base + name);
        assert(p[c] == base[c]);
        assert(p.take(c) =~= base.drop_last());
        lemma_trailing_separator(base);
        if base.len() == 1 {
            assert(has_root(p));
            assert(spans_from(base, 1) =~= seq![]);
            assert(field_end(base, '/', 0) == 0);
            assert(spans_from(base, 0) =~= seq![]);
            assert(components(base) =~= seq![root_text()]);
            assert(components(p).take(1) =~= seq![root_text()]);
        } else {
            lemma_prefix_starts(p, c);
            lemma_starts_with_chains(p, base.drop_last(), base);
        }
    } else {
        let c = base.len() as int;
        assert(p == base + seq!['/'] + name);
        assert(p[c] == '/');
        assert(p.take(c) =~= base);
        lemma_prefix_starts(p, c);
    }
}

/// A path starts with itself.
pub proof fn lemma_starts_with_itself(p: Seq<char>)
    ensures
        starts_with(p, p),
{
    assert(components(p).take(components(p).len() as int) =~= components(p));
}

/// What starts with a path starts with all that the path starts with.
pub proof fn lemma_starts_with_chains(a: Seq<char>, b: Seq<char>, c: Seq<char>)
    requires
        starts_with(a, b),
        starts_with(b, c),
    ensures
        starts_with(a, c),
{
    let x = components(a);
    let y = components(b);
    let z = components(c);
    assert(x.take(z.len() as int) =~= x.take(y.len() as int).take(z.len() as int));
}

/// A path that starts with `base` has an ancestor with the components of
/// `base`, unless `base` has no component at all.
pub proof fn lemma_base_is_among_ancestors(p: Seq<char>, base: Seq<char>)
    requires
        starts_with(p, base),
        components(base).len() > 0,
    ensures
        exists|k: int|
            0 <= k < ancestors(p).len() && components(#[trigger] ancestors(p)[k]) == components(
                base,
            ),
{
    let k = components(p).len() - components(base).len();
    assert(components(p).len() <= spans(p).len() + 1);
    lemma_ancestor_components(p, k);
    assert(components(ancestors(p)[k]) == components(base));
}

/// Index pairs held as machine integers, read as integers.
pub open spec fn spans_view(v: Seq<(usize, usize)>) -> Seq<(int, int)> {
    Seq::new(v.len(), |k: int| (v[k].0 as int, v[k].1 as int))
}

/// The spans of `p`, found in one pass from left to right.
fn find_spans(p: &Vec<char>) -> (v: Vec<(usize, usize)>)
    ensures
        spans_view(v@) == spans(p@),
{
    let mut v: Vec<(usize, usize)> = Vec::new();
    let n: usize = p.len();
    let mut i: usize = 0;
    assert(spans_view(v@) + spans_from(p@, 0) == spans(p@));
    loop
        invariant_except_break
            i <= n,
            spans(p@) == spans_view(v@) + spans_from(p@, i as int),
        invariant
            n == p.len(),
        ensures
            spans(p@) == spans_view(v@),
        decreases n - i,
    {
        let j: usize = find_field_end(p, '/', i);
        let ghost before = spans_view(v@);
        if j > i && !(j == i + 1 && p[i] == '.' && i != 0) {
            v.push((i, j));
            assert(spans_view(v@) == before + seq![(i as int, j as int)]);
        }
        if j < n {
            assert(spans_view(v@) + spans_from(p@, j + 1) == before + spans_from(p@, i as int));
            i = j + 1;
        } else {
            assert(spans_view(v@) == before + spans_from(p@, i as int));
            break;
        }
    }
    v
}

/// The components of `p`, each as a row of characters.
fn component_rows(p: &Vec<char>) -> (r: Vec<Vec<char>>)
    ensures
        rows(r@) == components(p@),
{
    let found = find_spans(p);
    let mut r: Vec<Vec<char>> = Vec::new();
    if p.len() > 0 && p[0] == '/' {
        let mut root: Vec<char> = Vec::new();
        root.push('/');
        assert(root@ == root_text());
        r.push(root);
    }
    let ghost lead = rows(r@);
    proof {
        lemma_spans_from_shape(p@, 0);
        assert(lead + span_texts(p@, spans(p@).take(0)) == lead);
    }
    let mut k: usize = 0;
    while k < found.len()
        invariant
            k <= found.len(),
            spans_view(found@) == spans(p@),
            rows(r@) == lead + span_texts(p@, spans(p@).take(k as int)),
            forall|m: int|
                0 <= m < spans(p@).len() ==> 0 <= (#[trigger] spans(p@)[m]).0 < spans(p@)[m].1
                    <= p@.len(),
        decreases found.len() - k,
    {
        let ghost at = spans(p@)[k as int];
        assert(spans_view(found@)[k as int] == at);
        let text = slice_chars(p, found[k].0, found[k].1);
        let ghost before = rows(r@);
        r.push(text);
        assert(rows(r@) == before + seq![p@.subrange(at.0, at.1)]);
        assert(span_texts(p@, spans(p@).take(k + 1)) == span_texts(p@, spans(p@).take(k as int))
            + seq![p@.subrange(at.0, at.1)]);
        k += 1;
    }
    assert(spans(p@).take(k as int) == spans(p@));
    r
}

/// The components of `p`, in order: `/` for the root, then the names.
pub fn path_components(p: &str) -> (r: Vec<String>)
    ensures
        views(r@) == components(p@),
{
    let chars = to_chars(p);
    let found = component_rows(&chars);
    let mut r: Vec<String> = Vec::new();
    let mut k: usize = 0;
    while k < found.len()
        invariant
            k <= found.len(),
            views(r@) == rows(found@).take(k as int),
        decreases found.len() - k,
    {
        let ghost before = views(r@);
        let text = from_chars(&found[k]);
        r.push(text);
        assert(views(r@) == before + seq![found@[k as int]@]);
        assert(rows(found@).take(k + 1) == rows(found@).take(k as int) + seq![found@[k as int]@]);
        k += 1;
    }
    assert(rows(found@).take(k as int) == rows(found@));
    r
}

/// The length of the root of `p`: 1 where it has one, else 0.
fn root_len(p: &Vec<char>) -> (r: usize)
    ensures
        r == cut(p@, 0),
{
    if p.len() > 0 && p[0] == '/' {
        1
    } else {
        0
    }
}

/// The path without its last component, if it has one below the root.
pub fn path_parent(p: &str) -> (r: Option<String>)
    ensures
        option_view(r) == parent(p@),
{
    let chars = to_chars(p);
    let found = find_spans(&chars);
    let n: usize = found.len();
    proof {
        lemma_spans_from_shape(p@, 0);
    }
    if n == 0 {
        None
    } else {
        let end: usize = if n == 1 {
            root_len(&chars)
        } else {
            assert(spans_view(found@)[n - 2] == spans(p@)[n - 2]);
            found[n - 2].1
        };
        let head = slice_chars(&chars, 0, end);
        Some(from_chars(&head))
    }
}

/// The path, its parent, the parent of that, and so on to the last one.
pub fn path_ancestors(p: &str) -> (r: Vec<String>)
    ensures
        views(r@) == ancestors(p@),
{
    let chars = to_chars(p);
    let found = find_spans(&chars);
    let n: usize = found.len();
    let mut r: Vec<String> = Vec::new();
    r.push(from_chars(&chars));
    proof {
        lemma_spans_from_shape(p@, 0);
        assert(views(r@) == ancestors(p@).take(1));
    }
    let mut m: usize = n;
    while m > 0
        invariant
            m <= n,
            n == found.len(),
            chars@ == p@,
            spans_view(found@) == spans(p@),
            views(r@) == ancestors(p@).take(n - m + 1),
            forall|i: int|
                0 <= i < spans(p@).len() ==> 0 <= (#[trigger] spans(p@)[i]).0 < spans(p@)[i].1
                    <= p@.len(),
        decreases m,
    {
        m -= 1;
        let end: usize = if m == 0 {
            root_len(&chars)
        } else {
            assert(spans_view(found@)[m - 1] == spans(p@)[m - 1]);
            found[m - 1].1
        };
        let head = slice_chars(&chars, 0, end);
        let ghost before = views(r@);
        r.push(from_chars(&head));
        assert(views(r@) == before + seq![head@]);
        assert(ancestors(p@).take(n - m + 1) == ancestors(p@).take(n - m) + seq![head@]);
    }
    assert(ancestors(p@).take(n + 1) == ancestors(p@));
    r
}

/// Whether `p` starts with `base`, component by component.
pub fn path_starts_with(p: &str, base: &str) -> (r: bool)
    ensures
        r == starts_with(p@, base@),
{
    let whole = component_rows(&to_chars(p));
    let lead = component_rows(&to_chars(base));
    if lead.len() > whole.len() {
        return false;
    }
    let mut k: usize = 0;
    while k < lead.len()
        invariant
            k <= lead.len() <= whole.len(),
            rows(whole@) == components(p@),
            rows(lead@) == components(base@),
            components(p@).take(k as int) == components(base@).take(k as int),
        decreases lead.len() - k,
    {
        assert(rows(whole@)[k as int] == whole@[k as int]@);
        assert(rows(lead@)[k as int] == lead@[k as int]@);
        if !same_chars(&whole[k], &lead[k]) {
            assert(components(p@).take(lead.len() as int)[k as int] != components(base@)[k as int]);
            return false;
        }
        assert(components(p@).take(k + 1) == components(p@).take(k as int).push(
            components(p@)[k as int],
        ));
        assert(components(base@).take(k + 1) == components(base@).take(k as int).push(
            components(base@)[k as int],
        ));
        k += 1;
    }
    assert(components(base@).take(k as int) == components(base@));
    true
}

/// What is left of `p` behind `base`, where `p` starts with `base`.
pub fn path_strip_prefix(p: &str, base: &str) -> (r: Option<String>)
    ensures
        option_view(r) == strip_prefix(p@, base@),
{
    if !path_starts_with(p, base) {
        return None;
    }
    let chars = to_chars(p);
    let found = find_spans(&chars);
    let n: usize = found.len();
    let parts = component_rows(&to_chars(base));
    let lead: usize = parts.len();
    let root: usize = root_len(&chars);
    proof {
        lemma_spans_from_shape(p@, 0);
        assert(rows(parts@).len() == components(base@).len());
    }
    if lead == 0 {
        let end: usize = if n == 0 {
            root
        } else {
            assert(spans_view(found@)[n - 1] == spans(p@)[n - 1]);
            found[n - 1].1
        };
        return Some(from_chars(&slice_chars(&chars, 0, end)));
    }
    assert(components(p@).len() == n + root);
    let below: usize = lead - root;
    if below >= n {
        return Some(String::new());
    }
    assert(spans_view(found@)[below as int] == spans(p@)[below as int]);
    assert(spans_view(found@)[n - 1] == spans(p@)[n - 1]);
    if below < n - 1 {
        assert(spans(p@)[below as int].1 < spans(p@)[n - 1].0);
    }
    Some(from_chars(&slice_chars(&chars, found[below].0, found[n - 1].1)))
}

/// `name` below `base`.
pub fn path_join(base: &str, name: &str) -> (r: String)
    ensures
        r@ == join(base@, name@),
{
    let b = to_chars(base);
    let n = to_chars(name);
    if n.len() > 0 && n[0] == '/' {
        return from_chars(&n);
    }
    let mut out: Vec<char> = Vec::new();
    let mut k: usize = 0;
    while k < b.len()
        invariant
            k <= b.len(),
            out@ == b@.take(k as int),
        decreases b.len() - k,
    {
        out.push(b[k]);
        k += 1;
    }
    assert(b@.take(k as int) == b@);
    if b.len() > 0 && b[b.len() - 1] != '/' {
        out.push('/');
    }
    let ghost lead = out@;
    let mut m: usize = 0;
    while m < n.len()
        invariant
            m <= n.len(),
            out@ == lead + n@.take(m as int),
        decreases n.len() - m,
    {
        out.push(n[m]);
        m += 1;
    }
    assert(n@.take(m as int) == n@);
    from_chars(&out)
}

} // verus!
