//! Unix path text with the semantics of `std::path`: absolute paths, joining,
//! components, file names and component-wise equality.

use vstd::prelude::*;
use crate::text::{push_char, str_eq};

verus! {

/// Whether a path begins at the root directory.
pub open spec fn is_absolute_spec(p: Seq<char>) -> bool {
    p.len() > 0 && p[0] == '/'
}

/// `base.join(p)`: an absolute `p` replaces `base`; otherwise a separator is
/// inserted unless `base` is empty or already ends with one.
pub open spec fn join_spec(base: Seq<char>, p: Seq<char>) -> Seq<char> {
    if is_absolute_spec(p) {
        p
    } else if base.len() == 0 || base.last() == '/' {
        base + p
    } else {
        base.push('/') + p
    }
}

/// Whether one of the `/`-separated components is `..`.
pub open spec fn has_parent_component_spec(p: Seq<char>) -> bool {
    exists|i: int|
        0 <= i && i + 2 <= p.len() && #[trigger] p[i] == '.' && p[i + 1] == '.' && (i == 0 || p[i
            - 1] == '/') && (i + 2 == p.len() || p[i + 2] == '/')
}

/// Appends a finished segment unless it is empty or `.`, which `Path`
/// components skip.
pub open spec fn push_component(acc: Seq<Seq<char>>, seg: Seq<char>) -> Seq<Seq<char>> {
    if seg.len() == 0 || seg =~= seq!['.'] {
        acc
    } else {
        acc.push(seg)
    }
}

/// The components of `p[i..]` after the segment `cur` and the components
/// `acc` already read.
pub open spec fn components_from(p: Seq<char>, i: int, cur: Seq<char>, acc: Seq<Seq<char>>) -> Seq<
    Seq<char>,
>
    decreases p.len() - i,
{
    if i >= p.len() {
        push_component(acc, cur)
    } else if p[i] == '/' {
        components_from(p, i + 1, seq![], push_component(acc, cur))
    } else {
        components_from(p, i + 1, cur.push(p[i]), acc)
    }
}

/// The named components of a path (`..` included), without the root and
/// without `.` and empty segments.
pub open spec fn components_spec(p: Seq<char>) -> Seq<Seq<char>> {
    components_from(p, 0, seq![], seq![])
}

/// Whether a relative path begins with the current-directory component.
pub open spec fn leading_cur_dir(p: Seq<char>) -> bool {
    p.len() > 0 && p[0] == '.' && (p.len() == 1 || p[1] == '/')
}

/// `Path` equality, which compares components.
pub open spec fn path_eq_spec(a: Seq<char>, b: Seq<char>) -> bool {
    is_absolute_spec(a) == is_absolute_spec(b) && leading_cur_dir(a) == leading_cur_dir(b)
        && components_spec(a) == components_spec(b)
}

/// `Path::file_name`: the last component unless it is `..`.
pub open spec fn file_name_spec(p: Seq<char>) -> Option<Seq<char>> {
    let c = components_spec(p);
    if c.len() > 0 && c.last() != seq!['.', '.'] {
        Some(c.last())
    } else {
        None
    }
}

/// `Path::is_absolute`.
pub fn is_absolute(p: &str) -> (r: bool)
    ensures
        r == is_absolute_spec(p@),
{
    p.unicode_len() > 0 && p.get_char(0) == '/'
}

/// `Path::join`.
pub fn join(base: &str, p: &str) -> (r: String)
    ensures
        r@ == join_spec(base@, p@),
{
    if is_absolute(p) {
        return String::from_str(p);
    }
    let n = base.unicode_len();
    let mut s = String::from_str(base);
    if n > 0 && base.get_char(n - 1) != '/' {
        push_char(&mut s, '/');
    }
    s.append(p);
    s
}

/// Whether a path has a `..` component.
pub fn has_parent_component(p: &str) -> (r: bool)
    ensures
        r == has_parent_component_spec(p@),
{
    let n = p.unicode_len();
    let mut i: usize = 0;
    while n >= 2 && i <= n - 2
        invariant
            n == p@.len(),
            i <= n,
            forall|j: int|
                0 <= j < i ==> !(j + 2 <= p@.len() && #[trigger] p@[j] == '.' && p@[j + 1] == '.'
                    && (j == 0 || p@[j - 1] == '/') && (j + 2 == p@.len() || p@[j + 2] == '/')),
        decreases n - i,
    {
        if p.get_char(i) == '.' && p.get_char(i + 1) == '.' && (i == 0 || p.get_char(i - 1) == '/')
            && (i + 2 == n || p.get_char(i + 2) == '/') {
            return true;
        }
        i = i + 1;
    }
    false
}

/// The named components of a path, as `components_spec` describes them.
pub fn components(p: &str) -> (r: Vec<String>)
    ensures
        r@.map_values(|s: String| s@) == components_spec(p@),
{
    let n = p.unicode_len();
    let mut acc: Vec<String> = Vec::new();
    let mut cur = String::new();
    let mut i: usize = 0;
    assert(acc@.map_values(|s: String| s@) =~= Seq::<Seq<char>>::empty());
    assert(cur@ =~= Seq::<char>::empty());
    while i < n
        invariant
            n == p@.len(),
            i <= n,
            components_from(p@, i as int, cur@, acc@.map_values(|s: String| s@)) == components_spec(
                p@,
            ),
        decreases n - i,
    {
        let c = p.get_char(i);
        if c == '/' {
            let ghost before = acc@.map_values(|s: String| s@);
            let ghost seg = cur@;
            if !is_skipped_segment(&cur) {
                acc.push(cur);
                assert(acc@.map_values(|s: String| s@) =~= before.push(seg));
            }
            cur = String::new();
            assert(acc@.map_values(|s: String| s@) =~= push_component(before, seg));
        } else {
            push_char(&mut cur, c);
        }
        i = i + 1;
    }
    let ghost before = acc@.map_values(|s: String| s@);
    let ghost seg = cur@;
    if !is_skipped_segment(&cur) {
        acc.push(cur);
        assert(acc@.map_values(|s: String| s@) =~= before.push(seg));
    }
    assert(acc@.map_values(|s: String| s@) =~= push_component(before, seg));
    acc
}

/// Whether a segment is empty or `.`, which components skip.
fn is_skipped_segment(seg: &String) -> (r: bool)
    ensures
        r == (seg@.len() == 0 || seg@ =~= seq!['.']),
{
    let n = seg.as_str().unicode_len();
    if n == 0 {
        return true;
    }
    if n == 1 && seg.as_str().get_char(0) == '.' {
        assert(seg@ =~= seq!['.']);
        return true;
    }
    false
}

/// Whether a relative path begins with the current-directory component.
fn starts_at_cur_dir(p: &str) -> (r: bool)
    ensures
        r == leading_cur_dir(p@),
{
    let n = p.unicode_len();
    n > 0 && p.get_char(0) == '.' && (n == 1 || p.get_char(1) == '/')
}

/// `Path` equality: the same root, leading `.` and named components.
pub fn path_eq(a: &str, b: &str) -> (r: bool)
    ensures
        r == path_eq_spec(a@, b@),
{
    if is_absolute(a) != is_absolute(b) || starts_at_cur_dir(a) != starts_at_cur_dir(b) {
        return false;
    }
    let ca = components(a);
    let cb = components(b);
    let ghost sa = ca@.map_values(|s: String| s@);
    let ghost sb = cb@.map_values(|s: String| s@);
    if ca.len() != cb.len() {
        assert(sa.len() != sb.len());
        return false;
    }
    let mut i: usize = 0;
    while i < ca.len()
        invariant
            ca.len() == cb.len(),
            i <= ca.len(),
            sa == ca@.map_values(|s: String| s@),
            sb == cb@.map_values(|s: String| s@),
            sa == components_spec(a@),
            sb == components_spec(b@),
            forall|j: int| 0 <= j < i ==> sa[j] == sb[j],
        decreases ca.len() - i,
    {
        if !str_eq(ca[i].as_str(), cb[i].as_str()) {
            assert(sa[i as int] != sb[i as int]);
            return false;
        }
        i = i + 1;
    }
    assert(sa =~= sb);
    true
}

/// `Path::file_name`.
pub fn file_name(p: &str) -> (r: Option<String>)
    ensures
        r matches Some(n) ==> file_name_spec(p@) == Some(n@),
        r is None ==> file_name_spec(p@) is None,
{
    let c = components(p);
    let ghost sc = c@.map_values(|s: String| s@);
    let n = c.len();
    if n == 0 {
        return None;
    }
    let last = c[n - 1].clone();
    assert(sc.last() == last@);
    if str_eq(last.as_str(), "..") {
        proof {
            reveal_strlit("..");
        }
        assert(last@ =~= seq!['.', '.']);
        None
    } else {
        proof {
            reveal_strlit("..");
        }
        assert(last@ != seq!['.', '.']) by {
            if last@ =~= seq!['.', '.'] {
                assert(last@ == ".."@);
            }
        }
        Some(last)
    }
}

} // verus!
