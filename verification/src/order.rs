//! The order of `Path` values, which compares components, and a stable sort
//! of relative paths by it.

use vstd::prelude::*;
use crate::path::{components, components_spec};
use crate::text::str_eq;

verus! {

/// Whether `lt` is a strict total order.
pub open spec fn strict_total<T>(lt: spec_fn(T, T) -> bool) -> bool {
    &&& forall|a: T| !#[trigger] lt(a, a)
    &&& forall|a: T, b: T, c: T| #[trigger] lt(a, b) && #[trigger] lt(b, c) ==> lt(a, c)
    &&& forall|a: T, b: T| a != b ==> #[trigger] lt(a, b) || #[trigger] lt(b, a)
}

/// The lexicographic order of sequences under an order of their elements;
/// a proper prefix comes first.
pub open spec fn lex_lt<T>(a: Seq<T>, b: Seq<T>, lt: spec_fn(T, T) -> bool) -> bool
    decreases a.len(),
{
    if a.len() == 0 {
        b.len() > 0
    } else if b.len() == 0 {
        false
    } else if a[0] == b[0] {
        lex_lt(a.drop_first(), b.drop_first(), lt)
    } else {
        lt(a[0], b[0])
    }
}

proof fn lemma_lex_irreflexive<T>(a: Seq<T>, lt: spec_fn(T, T) -> bool)
    requires
        strict_total(lt),
    ensures
        !lex_lt(a, a, lt),
    decreases a.len(),
{
    if a.len() > 0 {
        lemma_lex_irreflexive(a.drop_first(), lt);
    }
}

proof fn lemma_lex_transitive<T>(a: Seq<T>, b: Seq<T>, c: Seq<T>, lt: spec_fn(T, T) -> bool)
    requires
        strict_total(lt),
        lex_lt(a, b, lt),
        lex_lt(b, c, lt),
    ensures
        lex_lt(a, c, lt),
    decreases a.len(),
{
    if a.len() > 0 && b.len() > 0 && c.len() > 0 {
        if a[0] == b[0] && b[0] == c[0] {
            lemma_lex_transitive(a.drop_first(), b.drop_first(), c.drop_first(), lt);
        } else if a[0] == b[0] {
            assert(lt(b[0], c[0]));
        } else if b[0] == c[0] {
            assert(lt(a[0], b[0]));
        } else {
            assert(lt(a[0], b[0]) && lt(b[0], c[0]));
            if a[0] == c[0] {
                assert(lt(a[0], a[0]));
            }
        }
    }
}

proof fn lemma_lex_total<T>(a: Seq<T>, b: Seq<T>, lt: spec_fn(T, T) -> bool)
    requires
        strict_total(lt),
        a != b,
    ensures
        lex_lt(a, b, lt) || lex_lt(b, a, lt),
    decreases a.len(),
{
    if a.len() > 0 && b.len() > 0 {
        if a[0] == b[0] {
            if a.drop_first() == b.drop_first() {
                assert(a =~= seq![a[0]] + a.drop_first());
                assert(b =~= seq![b[0]] + b.drop_first());
            }
            lemma_lex_total(a.drop_first(), b.drop_first(), lt);
        } else {
            assert(lt(a[0], b[0]) || lt(b[0], a[0]));
        }
    } else if a.len() == 0 && b.len() == 0 {
        assert(a =~= b);
    }
}

/// The lexicographic order of a strict total order is one too.
pub proof fn lemma_lex_strict_total<T>(lt: spec_fn(T, T) -> bool)
    requires
        strict_total(lt),
    ensures
        strict_total(|a: Seq<T>, b: Seq<T>| lex_lt(a, b, lt)),
{
    let l = |a: Seq<T>, b: Seq<T>| lex_lt(a, b, lt);
    assert forall|a: Seq<T>| !#[trigger] l(a, a) by {
        lemma_lex_irreflexive(a, lt);
    }
    assert forall|a: Seq<T>, b: Seq<T>, c: Seq<T>| #[trigger] l(a, b) && #[trigger] l(b, c) implies l(
        a,
        c,
    ) by {
        lemma_lex_transitive(a, b, c, lt);
    }
    assert forall|a: Seq<T>, b: Seq<T>| a != b implies #[trigger] l(a, b) || #[trigger] l(b, a) by {
        lemma_lex_total(a, b, lt);
    }
}

/// Characters by their scalar values, which is also the order of their
/// UTF-8 encodings.
pub open spec fn char_lt(a: char, b: char) -> bool {
    (a as int) < (b as int)
}

/// The character order as a relation.
pub open spec fn char_order() -> spec_fn(char, char) -> bool {
    |x: char, y: char| char_lt(x, y)
}

/// The order of two components: `..` (a parent-directory component) comes
/// before every named one, and names compare by their characters.
pub open spec fn component_lt(a: Seq<char>, b: Seq<char>) -> bool {
    if a == seq!['.', '.'] {
        b != seq!['.', '.']
    } else if b == seq!['.', '.'] {
        false
    } else {
        lex_lt(a, b, char_order())
    }
}

/// The component order as a relation.
pub open spec fn component_order() -> spec_fn(Seq<char>, Seq<char>) -> bool {
    |x: Seq<char>, y: Seq<char>| component_lt(x, y)
}

/// The order of two relative paths: their components, lexicographically.
pub open spec fn path_lt(a: Seq<char>, b: Seq<char>) -> bool {
    lex_lt(components_spec(a), components_spec(b), component_order())
}

/// Characters are strictly and totally ordered by their code points.
pub proof fn lemma_char_order()
    ensures
        strict_total(char_order()),
{
    let l = char_order();
    assert forall|a: char, b: char| a != b implies #[trigger] l(a, b) || #[trigger] l(b, a) by {
        assert((a as int) != (b as int));
    }
}

proof fn lemma_component_order()
    ensures
        strict_total(component_order()),
{
    let cl = char_order();
    lemma_char_order();
    lemma_lex_strict_total(cl);
    let l = component_order();
    let dd = seq!['.', '.'];
    assert forall|a: Seq<char>| !#[trigger] l(a, a) by {
        lemma_lex_irreflexive(a, cl);
    }
    assert forall|a: Seq<char>, b: Seq<char>, c: Seq<char>| #[trigger] l(a, b) && #[trigger] l(
        b,
        c,
    ) implies l(a, c) by {
        if a != dd && b != dd && c != dd {
            lemma_lex_transitive(a, b, c, cl);
        }
    }
    assert forall|a: Seq<char>, b: Seq<char>| a != b implies #[trigger] l(a, b) || #[trigger] l(
        b,
        a,
    ) by {
        if a != dd && b != dd {
            lemma_lex_total(a, b, cl);
        }
    }
}

/// The lexicographic order of component sequences as a relation.
pub open spec fn components_order() -> spec_fn(Seq<Seq<char>>, Seq<Seq<char>>) -> bool {
    |x: Seq<Seq<char>>, y: Seq<Seq<char>>| lex_lt(x, y, component_order())
}

/// Component order is a strict total order on sequences of components.
pub proof fn lemma_path_order()
    ensures
        strict_total(components_order()),
{
    lemma_component_order();
    lemma_lex_strict_total(component_order());
}

/// Whether `a` precedes `b` character by character.
fn chars_less(a: &str, b: &str) -> (r: bool)
    ensures
        r == lex_lt(a@, b@, char_order()),
{
    let n = a.unicode_len();
    let m = b.unicode_len();
    let mut i: usize = 0;
    assert(a@.skip(0) =~= a@ && b@.skip(0) =~= b@);
    while i < n && i < m
        invariant
            n == a@.len(),
            m == b@.len(),
            i <= n,
            i <= m,
            lex_lt(a@, b@, char_order()) == lex_lt(a@.skip(i as int), b@.skip(i as int), char_order()),
        decreases n - i,
    {
        let x = a.get_char(i);
        let y = b.get_char(i);
        assert(a@.skip(i as int)[0] == x && b@.skip(i as int)[0] == y);
        if x != y {
            return (x as u32) < (y as u32);
        }
        assert(a@.skip(i as int).drop_first() =~= a@.skip(i + 1));
        assert(b@.skip(i as int).drop_first() =~= b@.skip(i + 1));
        i = i + 1;
    }
    i == n && i < m
}

/// Whether component `a` precedes component `b`.
fn component_less(a: &str, b: &str) -> (r: bool)
    ensures
        r == component_lt(a@, b@),
{
    proof {
        reveal_strlit("..");
        assert(".."@ =~= seq!['.', '.']);
    }
    let ad = str_eq(a, "..");
    let bd = str_eq(b, "..");
    assert(ad == (a@ == seq!['.', '.'])) by {
        if a@ == seq!['.', '.'] {
            assert(a@ =~= ".."@);
        }
    }
    assert(bd == (b@ == seq!['.', '.'])) by {
        if b@ == seq!['.', '.'] {
            assert(b@ =~= ".."@);
        }
    }
    if ad {
        !bd
    } else if bd {
        false
    } else {
        chars_less(a, b)
    }
}

/// Whether path `a` precedes path `b` in component order.
pub fn path_less(a: &str, b: &str) -> (r: bool)
    ensures
        r == path_lt(a@, b@),
{
    let ca = components(a);
    let cb = components(b);
    let ghost sa = ca@.map_values(|s: String| s@);
    let ghost sb = cb@.map_values(|s: String| s@);
    let n = ca.len();
    let m = cb.len();
    let mut i: usize = 0;
    assert(sa.skip(0) =~= sa && sb.skip(0) =~= sb);
    while i < n && i < m
        invariant
            n == ca@.len(),
            m == cb@.len(),
            sa == ca@.map_values(|s: String| s@),
            sb == cb@.map_values(|s: String| s@),
            i <= n,
            i <= m,
            path_lt(a@, b@) == lex_lt(sa.skip(i as int), sb.skip(i as int), component_order()),
        decreases n - i,
    {
        assert(sa.skip(i as int)[0] == ca@[i as int]@ && sb.skip(i as int)[0] == cb@[i as int]@);
        if !str_eq(ca[i].as_str(), cb[i].as_str()) {
            return component_less(ca[i].as_str(), cb[i].as_str());
        }
        assert(sa.skip(i as int).drop_first() =~= sa.skip(i + 1));
        assert(sb.skip(i as int).drop_first() =~= sb.skip(i + 1));
        i = i + 1;
    }
    i == n && i < m
}

/// Whether a sequence of paths is in component order.
pub open spec fn paths_sorted(s: Seq<Seq<char>>) -> bool {
    forall|i: int, j: int| 0 <= i < j < s.len() ==> !path_lt(#[trigger] s[j], #[trigger] s[i])
}

/// Where a path goes among sorted paths so that it follows every path that
/// does not come after it: before the first one that does.
pub open spec fn insertion_point(r: Seq<Seq<char>>, x: Seq<char>) -> int
    decreases r.len(),
{
    if r.len() == 0 {
        0
    } else if path_lt(x, r[0]) {
        0
    } else {
        1 + insertion_point(r.drop_first(), x)
    }
}

/// The paths in component order, each inserted after the paths before it
/// that it does not precede: a stable sort, which keeps paths with equal
/// components in their given order.
pub open spec fn path_sort(s: Seq<Seq<char>>) -> Seq<Seq<char>>
    decreases s.len(),
{
    if s.len() == 0 {
        seq![]
    } else {
        let r = path_sort(s.drop_last());
        r.insert(insertion_point(r, s.last()), s.last())
    }
}

proof fn lemma_insertion_point(r: Seq<Seq<char>>, x: Seq<char>, p: int)
    requires
        0 <= p <= r.len(),
        forall|q: int| 0 <= q < p ==> !path_lt(x, #[trigger] r[q]),
        p < r.len() ==> path_lt(x, r[p]),
    ensures
        insertion_point(r, x) == p,
    decreases p,
{
    if p > 0 {
        let t = r.drop_first();
        assert forall|q: int| 0 <= q < p - 1 implies !path_lt(x, #[trigger] t[q]) by {
            assert(t[q] == r[q + 1]);
        }
        if p - 1 < t.len() {
            assert(t[p - 1] == r[p]);
        }
        lemma_insertion_point(t, x, p - 1);
        assert(!path_lt(x, r[0]));
    }
}

/// The paths in component order, equal paths in their given order
/// (`<[PathBuf]>::sort`).
pub fn sort_paths(v: &Vec<String>) -> (r: Vec<String>)
    ensures
        r@.map_values(|s: String| s@) == path_sort(v@.map_values(|s: String| s@)),
        r@.map_values(|s: String| s@).to_multiset() == v@.map_values(|s: String| s@).to_multiset(),
        paths_sorted(r@.map_values(|s: String| s@)),
{
    broadcast use vstd::seq_lib::group_to_multiset_ensures;

    proof {
        lemma_path_order();
    }
    let ghost vv = v@.map_values(|s: String| s@);
    let mut r: Vec<String> = Vec::new();
    let mut k: usize = 0;
    assert(r@.map_values(|s: String| s@) =~= vv.subrange(0, 0));
    while k < v.len()
        invariant
            k <= v.len(),
            vv == v@.map_values(|s: String| s@),
            r@.map_values(|s: String| s@).to_multiset() == vv.subrange(0, k as int).to_multiset(),
            r@.map_values(|s: String| s@) == path_sort(vv.subrange(0, k as int)),
            paths_sorted(r@.map_values(|s: String| s@)),
            strict_total(components_order()),
        decreases v.len() - k,
    {
        let x = v[k].clone();
        let ghost rv = r@.map_values(|s: String| s@);
        let mut p: usize = 0;
        while p < r.len() && !path_less(x.as_str(), r[p].as_str())
            invariant
                p <= r.len(),
                rv == r@.map_values(|s: String| s@),
                forall|q: int| 0 <= q < p ==> !path_lt(x@, #[trigger] rv[q]),
            decreases r.len() - p,
        {
            p = p + 1;
        }
        proof {
            let po = components_order();
            assert(p < rv.len() ==> path_lt(x@, rv[p as int]));
            assert forall|q: int| p <= q < rv.len() implies !path_lt(#[trigger] rv[q], x@) by {
                let cx = components_spec(x@);
                let cp = components_spec(rv[p as int]);
                let cq = components_spec(rv[q]);
                assert(po(cx, cp));
                if path_lt(rv[q], x@) {
                    assert(po(cq, cx));
                    if q == p {
                        assert(po(cx, cx));
                    } else {
                        assert(po(cq, cp));
                        assert(!path_lt(rv[q], rv[p as int]));
                    }
                }
            }
        }
        proof {
            lemma_insertion_point(rv, x@, p as int);
        }
        r.insert(p, x);
        proof {
            let nv = r@.map_values(|s: String| s@);
            assert(nv =~= rv.insert(p as int, v@[k as int]@));
            vstd::seq_lib::to_multiset_insert(rv, p as int, vv[k as int]);
            assert(vv.subrange(0, k + 1) =~= vv.subrange(0, k as int).push(vv[k as int]));
            assert(vv.subrange(0, k + 1).drop_last() =~= vv.subrange(0, k as int));
            vstd::seq_lib::to_multiset_build(vv.subrange(0, k as int), vv[k as int]);
            assert forall|i: int, j: int| 0 <= i < j < nv.len() implies !path_lt(
                #[trigger] nv[j],
                #[trigger] nv[i],
            ) by {
                if j < p {
                    assert(nv[i] == rv[i] && nv[j] == rv[j]);
                } else if j == p {
                    assert(nv[i] == rv[i]);
                } else if i < p {
                    assert(nv[i] == rv[i] && nv[j] == rv[j - 1]);
                    assert(!path_lt(rv[j - 1], rv[i]) || i == j - 1);
                    if path_lt(rv[j - 1], rv[i]) {
                    }
                } else if i == p {
                    assert(nv[j] == rv[j - 1]);
                } else {
                    assert(nv[i] == rv[i - 1] && nv[j] == rv[j - 1]);
                }
            }
        }
        k = k + 1;
    }
    assert(vv.subrange(0, v.len() as int) =~= vv);
    r
}

/// Whether strings are in character order, as `<[String]>::sort` leaves
/// them (byte order of UTF-8 is the order of the characters).
pub open spec fn strings_sorted(s: Seq<Seq<char>>) -> bool {
    forall|i: int, j: int| 0 <= i < j < s.len() ==> !lex_lt(#[trigger] s[j], #[trigger] s[i], char_order())
}

/// Where a string goes among sorted strings: before the first one that
/// comes after it.
pub open spec fn string_insertion_point(r: Seq<Seq<char>>, x: Seq<char>) -> int
    decreases r.len(),
{
    if r.len() == 0 {
        0
    } else if lex_lt(x, r[0], char_order()) {
        0
    } else {
        1 + string_insertion_point(r.drop_first(), x)
    }
}

/// The strings in character order, each inserted after the strings before
/// it that it does not precede.
pub open spec fn string_sort(s: Seq<Seq<char>>) -> Seq<Seq<char>>
    decreases s.len(),
{
    if s.len() == 0 {
        seq![]
    } else {
        let r = string_sort(s.drop_last());
        r.insert(string_insertion_point(r, s.last()), s.last())
    }
}

proof fn lemma_string_insertion_point(r: Seq<Seq<char>>, x: Seq<char>, p: int)
    requires
        0 <= p <= r.len(),
        forall|q: int| 0 <= q < p ==> !lex_lt(x, #[trigger] r[q], char_order()),
        p < r.len() ==> lex_lt(x, r[p], char_order()),
    ensures
        string_insertion_point(r, x) == p,
    decreases p,
{
    if p > 0 {
        let t = r.drop_first();
        assert forall|q: int| 0 <= q < p - 1 implies !lex_lt(x, #[trigger] t[q], char_order()) by {
            assert(t[q] == r[q + 1]);
        }
        if p - 1 < t.len() {
            assert(t[p - 1] == r[p]);
        }
        lemma_string_insertion_point(t, x, p - 1);
        assert(!lex_lt(x, r[0], char_order()));
    }
}

/// The strings in character order.
pub fn sort_strings(v: &Vec<String>) -> (r: Vec<String>)
    ensures
        r@.map_values(|s: String| s@) == string_sort(v@.map_values(|s: String| s@)),
        r@.map_values(|s: String| s@).to_multiset() == v@.map_values(|s: String| s@).to_multiset(),
        strings_sorted(r@.map_values(|s: String| s@)),
{
    proof {
        lemma_char_order();
        lemma_lex_strict_total(char_order());
    }
    let ghost so = |a: Seq<char>, b: Seq<char>| lex_lt(a, b, char_order());
    let ghost vv = v@.map_values(|s: String| s@);
    let mut r: Vec<String> = Vec::new();
    let mut k: usize = 0;
    assert(r@.map_values(|s: String| s@) =~= vv.subrange(0, 0));
    while k < v.len()
        invariant
            k <= v.len(),
            vv == v@.map_values(|s: String| s@),
            r@.map_values(|s: String| s@).to_multiset() == vv.subrange(0, k as int).to_multiset(),
            r@.map_values(|s: String| s@) == string_sort(vv.subrange(0, k as int)),
            strings_sorted(r@.map_values(|s: String| s@)),
            strict_total(so),
            so == (|a: Seq<char>, b: Seq<char>| lex_lt(a, b, char_order())),
        decreases v.len() - k,
    {
        let x = v[k].clone();
        let ghost rv = r@.map_values(|s: String| s@);
        let mut p: usize = 0;
        while p < r.len() && !chars_less(x.as_str(), r[p].as_str())
            invariant
                p <= r.len(),
                rv == r@.map_values(|s: String| s@),
                forall|q: int| 0 <= q < p ==> !lex_lt(x@, #[trigger] rv[q], char_order()),
            decreases r.len() - p,
        {
            p = p + 1;
        }
        proof {
            assert(p < rv.len() ==> lex_lt(x@, rv[p as int], char_order()));
            assert forall|q: int| p <= q < rv.len() implies !lex_lt(#[trigger] rv[q], x@, char_order()) by {
                assert(so(x@, rv[p as int]));
                if lex_lt(rv[q], x@, char_order()) {
                    assert(so(rv[q], x@));
                    if q == p {
                        assert(so(x@, x@));
                    } else {
                        assert(so(rv[q], rv[p as int]));
                        assert(!lex_lt(rv[q], rv[p as int], char_order()));
                    }
                }
            }
        }
        proof {
            lemma_string_insertion_point(rv, x@, p as int);
        }
        r.insert(p, x);
        proof {
            let nv = r@.map_values(|s: String| s@);
            assert(nv =~= rv.insert(p as int, v@[k as int]@));
            vstd::seq_lib::to_multiset_insert(rv, p as int, vv[k as int]);
            assert(vv.subrange(0, k + 1) =~= vv.subrange(0, k as int).push(vv[k as int]));
            assert(vv.subrange(0, k + 1).drop_last() =~= vv.subrange(0, k as int));
            vstd::seq_lib::to_multiset_build(vv.subrange(0, k as int), vv[k as int]);
            assert forall|i: int, j: int| 0 <= i < j < nv.len() implies !lex_lt(
                #[trigger] nv[j],
                #[trigger] nv[i],
                char_order(),
            ) by {
                if j < p {
                    assert(nv[i] == rv[i] && nv[j] == rv[j]);
                } else if j == p {
                    assert(nv[i] == rv[i]);
                } else if i < p {
                    assert(nv[i] == rv[i] && nv[j] == rv[j - 1]);
                } else if i == p {
                    assert(nv[j] == rv[j - 1]);
                } else {
                    assert(nv[i] == rv[i - 1] && nv[j] == rv[j - 1]);
                }
            }
        }
        k = k + 1;
    }
    assert(vv.subrange(0, v.len() as int) =~= vv);
    r
}

} // verus!
