//! Staged installation: where files land under a staging directory, the
//! content hashes and the ownership records that let a later installation
//! or an uninstallation touch only what it installed.

use vstd::prelude::*;
use crate::path::{
    is_absolute, is_absolute_spec, join, join_spec, has_parent_component, path_eq, path_eq_spec,
    components, components_spec, leading_cur_dir,
};
use crate::manifest::{Manifest, Item, absolute_dir_ok};
use crate::text::{
    str_eq, strip_prefix, seq_starts_with, push_hex_padded, hex, pad_left, lines, lines_spec,
};
use crate::order::{sort_strings, string_sort};

verus! {

/// Where an installation is staged and which build profile it takes.
#[derive(Clone, Debug)]
pub struct InstallOptions {
    pub destdir: String,
    pub profile: String,
}

impl Default for InstallOptions {
    /// No staging directory; the release build.
    fn default() -> (r: Self)
        ensures
            r.destdir@ == Seq::<char>::empty(),
            r.profile@ == "release"@,
    {
        InstallOptions { destdir: String::new(), profile: String::from_str("release") }
    }
}

/// A path without its leading separators and `.` components.
pub open spec fn trim_front(s: Seq<char>) -> Seq<char>
    decreases s.len(),
{
    if s.len() > 0 && s[0] == '/' {
        trim_front(s.drop_first())
    } else if s.len() > 0 && s[0] == '.' && (s.len() == 1 || s[1] == '/') {
        trim_front(s.drop_first())
    } else {
        s
    }
}

/// A path without its trailing separators and `.` components.
pub open spec fn trim_back(s: Seq<char>) -> Seq<char>
    decreases s.len(),
{
    if s.len() > 0 && s.last() == '/' {
        trim_back(s.drop_last())
    } else if s.len() > 0 && s.last() == '.' && (s.len() == 1 || s[s.len() - 2] == '/') {
        trim_back(s.drop_last())
    } else {
        s
    }
}

/// `path.strip_prefix("/").unwrap_or(path)`: an absolute path relative to
/// the root, a relative path as it is.
pub open spec fn strip_root_spec(p: Seq<char>) -> Seq<char> {
    if is_absolute_spec(p) {
        trim_back(trim_front(p.drop_first()))
    } else {
        p
    }
}

/// Where a logical path lands under a staging directory (none when empty).
pub open spec fn staged_spec(destdir: Seq<char>, logical: Seq<char>) -> Seq<char> {
    if destdir.len() == 0 {
        logical
    } else {
        join_spec(destdir, strip_root_spec(logical))
    }
}

fn strip_root(p: &str) -> (r: String)
    ensures
        r@ == strip_root_spec(p@),
{
    if !is_absolute(p) {
        return String::from_str(p);
    }
    let n = p.unicode_len();
    let mut a: usize = 1;
    assert(p@.subrange(1, n as int) =~= p@.drop_first());
    while a < n && (p.get_char(a) == '/' || (p.get_char(a) == '.' && (a + 1 == n || p.get_char(a + 1)
        == '/')))
        invariant
            n == p@.len(),
            1 <= a <= n,
            trim_front(p@.subrange(a as int, n as int)) == trim_front(p@.drop_first()),
        decreases n - a,
    {
        assert(p@.subrange(a as int, n as int).drop_first() =~= p@.subrange(a + 1, n as int));
        a = a + 1;
    }
    let ghost front = p@.subrange(a as int, n as int);
    assert(trim_front(front) == front);
    let mut b: usize = n;
    assert(p@.subrange(a as int, b as int) =~= front);
    while b > a && (p.get_char(b - 1) == '/' || (p.get_char(b - 1) == '.' && (b - 1 == a
        || p.get_char(b - 2) == '/')))
        invariant
            n == p@.len(),
            1 <= a <= b <= n,
            trim_back(p@.subrange(a as int, b as int)) == trim_back(front),
        decreases b - a,
    {
        assert(p@.subrange(a as int, b as int).drop_last() =~= p@.subrange(a as int, b - 1));
        b = b - 1;
    }
    let t = p.substring_char(a, b);
    String::from_str(t)
}

/// Where a logical path is written under the staging directory `destdir`.
pub fn staged(destdir: &str, logical: &str) -> (r: String)
    ensures
        r@ == staged_spec(destdir@, logical@),
{
    if destdir.unicode_len() == 0 {
        String::from_str(logical)
    } else {
        let rel = strip_root(logical);
        join(destdir, rel.as_str())
    }
}

/// The ownership marker of an installation: `wiiland/.xtask-install` in the
/// configuration directory, staged.
pub fn marker_path(manifest: &Manifest, destdir: &str) -> (r: String)
    ensures
        r@ == staged_spec(destdir@, join_spec(manifest.dirs.sysconfdir@, "wiiland/.xtask-install"@)),
{
    let logical = join(manifest.dirs.sysconfdir.as_str(), "wiiland/.xtask-install");
    staged(destdir, logical.as_str())
}

/// The 64-bit FNV-1a offset basis.
pub const FNV_OFFSET: u64 = 0xcbf29ce484222325;

/// The 64-bit FNV-1a prime.
pub const FNV_PRIME: u64 = 0x100000001b3;

/// FNV-1a of `s` from the state `h`: each byte is xored in, then the state
/// is multiplied by the prime modulo 2^64.
pub open spec fn fnv1a_from(h: u64, s: Seq<u8>) -> u64
    decreases s.len(),
{
    if s.len() == 0 {
        h
    } else {
        fnv1a_from(
            (((h ^ (s[0] as u64)) as nat * FNV_PRIME as nat) % 0x1_0000_0000_0000_0000nat) as u64,
            s.drop_first(),
        )
    }
}

/// The 64-bit FNV-1a hash of a file's bytes, which the ownership records
/// hold.
pub fn hash_bytes(bytes: &[u8]) -> (r: u64)
    ensures
        r == fnv1a_from(FNV_OFFSET, bytes@),
{
    let mut hash: u64 = FNV_OFFSET;
    let mut i: usize = 0;
    assert(bytes@.skip(0) =~= bytes@);
    while i < bytes.len()
        invariant
            i <= bytes.len(),
            fnv1a_from(hash, bytes@.skip(i as int)) == fnv1a_from(FNV_OFFSET, bytes@),
        decreases bytes.len() - i,
    {
        assert(bytes@.skip(i as int).drop_first() =~= bytes@.skip(i + 1));
        hash = hash ^ (bytes[i] as u64);
        hash = hash.wrapping_mul(FNV_PRIME);
        i = i + 1;
    }
    hash
}

/// A hash as sixteen lower-case hexadecimal digits.
pub fn hash_text(hash: u64) -> (r: String)
    ensures
        r@ == pad_left(hex(hash as nat), 16, '0'),
{
    let mut s = String::new();
    push_hex_padded(&mut s, hash, 16);
    assert(s@ =~= pad_left(hex(hash as nat), 16, '0'));
    s
}

/// A recorded path that an uninstallation may touch: absolute, without
/// `..`.
pub fn safe_record_path(value: &str) -> (r: Option<String>)
    ensures
        absolute_dir_ok(value@) ==> (r matches Some(p) && p@ == value@),
        !absolute_dir_ok(value@) ==> r is None,
{
    if !is_absolute(value) || has_parent_component(value) {
        None
    } else {
        Some(String::from_str(value))
    }
}

/// What an installation recorded as its own: a file (with the hash of its
/// contents, or `link:` and the target of a link) or a directory it created.
#[derive(Clone, Debug, PartialEq, Eq)]
pub enum OwnershipRecord {
    File { logical: String, expected: String },
    Directory(String),
}

/// The abstract form of a record.
pub enum RecordView {
    File { logical: Seq<char>, expected: Seq<char> },
    Directory(Seq<char>),
}

impl View for OwnershipRecord {
    type V = RecordView;

    open spec fn view(&self) -> RecordView {
        match self {
            OwnershipRecord::File { logical, expected } => RecordView::File {
                logical: logical@,
                expected: expected@,
            },
            OwnershipRecord::Directory(p) => RecordView::Directory(p@),
        }
    }
}

/// The index of the first tab in `s[i..]`, or the length.
pub open spec fn first_tab(s: Seq<char>, i: int) -> int
    decreases s.len() - i,
{
    if i >= s.len() {
        s.len() as int
    } else if s[i] == '\t' {
        i
    } else {
        first_tab(s, i + 1)
    }
}

/// The record a marker line holds: `dir<TAB>PATH`, or `[file<TAB>]PATH<TAB>EXPECTED`;
/// lines without a safe path (absolute, without `..`) hold none.
pub open spec fn record_spec(line: Seq<char>) -> Option<RecordView> {
    if seq_starts_with(line, "dir\t"@) {
        let rest = line.subrange("dir\t"@.len() as int, line.len() as int);
        if absolute_dir_ok(rest) {
            Some(RecordView::Directory(rest))
        } else {
            None
        }
    } else {
        let rec = if seq_starts_with(line, "file\t"@) {
            line.subrange("file\t"@.len() as int, line.len() as int)
        } else {
            line
        };
        let k = first_tab(rec, 0);
        if k >= rec.len() {
            None
        } else {
            let logical = rec.subrange(0, k);
            if absolute_dir_ok(logical) {
                Some(RecordView::File { logical, expected: rec.subrange(k + 1, rec.len() as int) })
            } else {
                None
            }
        }
    }
}

/// The records of marker lines, in order.
pub open spec fn records_spec(lines: Seq<Seq<char>>) -> Seq<RecordView>
    decreases lines.len(),
{
    if lines.len() == 0 {
        seq![]
    } else {
        let prev = records_spec(lines.drop_last());
        match record_spec(lines.last()) {
            Some(r) => prev.push(r),
            None => prev,
        }
    }
}

/// Reads one marker line.
fn record_of_line(line: &str) -> (r: Option<OwnershipRecord>)
    ensures
        match record_spec(line@) {
            Some(v) => r matches Some(rec) && rec@ == v,
            None => r is None,
        },
{
    match strip_prefix(line, "dir\t") {
        Some(rest) => {
            return match safe_record_path(rest) {
                Some(p) => Some(OwnershipRecord::Directory(p)),
                None => None,
            };
        },
        None => {},
    }
    let rec = match strip_prefix(line, "file\t") {
        Some(r) => r,
        None => line,
    };
    let n = rec.unicode_len();
    let mut k: usize = 0;
    while k < n && rec.get_char(k) != '\t'
        invariant
            n == rec@.len(),
            k <= n,
            first_tab(rec@, k as int) == first_tab(rec@, 0),
        decreases n - k,
    {
        k = k + 1;
    }
    if k >= n {
        return None;
    }
    let logical = rec.substring_char(0, k);
    let expected = rec.substring_char(k + 1, n);
    match safe_record_path(logical) {
        Some(p) => Some(OwnershipRecord::File { logical: p, expected: String::from_str(expected) }),
        None => None,
    }
}

/// The records of an ownership marker's text.
pub fn parse_records(text: &str) -> (r: Vec<OwnershipRecord>)
    ensures
        r@.map_values(|x: OwnershipRecord| x@) == records_spec(lines_spec(text@)),
{
    let ls = lines(text);
    let ghost lv = ls@.map_values(|l: String| l@);
    let mut out: Vec<OwnershipRecord> = Vec::new();
    let mut i: usize = 0;
    assert(lv.subrange(0, 0) =~= Seq::<Seq<char>>::empty());
    assert(out@.map_values(|x: OwnershipRecord| x@) =~= Seq::<RecordView>::empty());
    while i < ls.len()
        invariant
            i <= ls.len(),
            lv == ls@.map_values(|l: String| l@),
            out@.map_values(|x: OwnershipRecord| x@) == records_spec(lv.subrange(0, i as int)),
        decreases ls.len() - i,
    {
        assert(lv.subrange(0, i + 1).drop_last() =~= lv.subrange(0, i as int));
        assert(lv.subrange(0, i + 1).last() == ls@[i as int]@);
        let ghost before = out@.map_values(|x: OwnershipRecord| x@);
        match record_of_line(ls[i].as_str()) {
            Some(rec) => {
                let ghost v = rec@;
                out.push(rec);
                assert(out@.map_values(|x: OwnershipRecord| x@) =~= before.push(v));
            },
            None => {},
        }
        i = i + 1;
    }
    assert(lv.subrange(0, ls.len() as int) =~= lv);
    out
}

/// Whether some destination is the path `p`.
pub open spec fn is_destination(dests: Seq<Seq<char>>, p: Seq<char>) -> bool {
    exists|j: int| 0 <= j < dests.len() && path_eq_spec(#[trigger] dests[j], p)
}

/// The previously owned files that no current item installs, in order.
pub open spec fn stale_spec(prior: Seq<(Seq<char>, Seq<char>)>, dests: Seq<Seq<char>>) -> Seq<
    (Seq<char>, Seq<char>),
>
    decreases prior.len(),
{
    if prior.len() == 0 {
        seq![]
    } else {
        let prev = stale_spec(prior.drop_last(), dests);
        if is_destination(dests, prior.last().0) {
            prev
        } else {
            prev.push(prior.last())
        }
    }
}

/// The item destinations, as text.
pub open spec fn destinations(items: Seq<Item>) -> Seq<Seq<char>> {
    items.map_values(|i: Item| i.destination@)
}

fn installs(items: &Vec<Item>, logical: &str) -> (r: bool)
    ensures
        r == is_destination(destinations(items@), logical@),
{
    let ghost dv = destinations(items@);
    let mut j: usize = 0;
    while j < items.len()
        invariant
            j <= items.len(),
            dv == destinations(items@),
            forall|q: int| 0 <= q < j ==> !path_eq_spec(#[trigger] dv[q], logical@),
        decreases items.len() - j,
    {
        if path_eq(items[j].destination.as_str(), logical) {
            assert(path_eq_spec(dv[j as int], logical@));
            return true;
        }
        j = j + 1;
    }
    false
}

/// The files a previous installation owned (path and expected content) that
/// the current items do not install again: candidates for removal.
pub fn stale_files(prior: &Vec<(String, String)>, items: &Vec<Item>) -> (r: Vec<(String, String)>)
    ensures
        r@.map_values(|p: (String, String)| (p.0@, p.1@)) == stale_spec(
            prior@.map_values(|p: (String, String)| (p.0@, p.1@)),
            destinations(items@),
        ),
{
    let ghost pv = prior@.map_values(|p: (String, String)| (p.0@, p.1@));
    let mut out: Vec<(String, String)> = Vec::new();
    let mut i: usize = 0;
    assert(pv.subrange(0, 0) =~= Seq::<(Seq<char>, Seq<char>)>::empty());
    assert(out@.map_values(|p: (String, String)| (p.0@, p.1@)) =~= Seq::<(Seq<char>, Seq<char>)>::empty());
    while i < prior.len()
        invariant
            i <= prior.len(),
            pv == prior@.map_values(|p: (String, String)| (p.0@, p.1@)),
            out@.map_values(|p: (String, String)| (p.0@, p.1@)) == stale_spec(
                pv.subrange(0, i as int),
                destinations(items@),
            ),
        decreases prior.len() - i,
    {
        assert(pv.subrange(0, i + 1).drop_last() =~= pv.subrange(0, i as int));
        assert(pv.subrange(0, i + 1).last() == pv[i as int]);
        let ghost before = out@.map_values(|p: (String, String)| (p.0@, p.1@));
        if !installs(items, prior[i].0.as_str()) {
            let pair = (prior[i].0.clone(), prior[i].1.clone());
            out.push(pair);
            assert(out@.map_values(|p: (String, String)| (p.0@, p.1@)) =~= before.push(pv[i as int]));
        }
        i = i + 1;
    }
    assert(pv.subrange(0, prior.len() as int) =~= pv);
    out
}

/// Adds a directory the installation created, unless it is already owned
/// (by path equality); says whether it was added.
pub fn add_owned_dir(dirs: &mut Vec<String>, logical: String) -> (r: bool)
    ensures
        r == !is_destination(old(dirs)@.map_values(|d: String| d@), logical@),
        r ==> final(dirs)@.map_values(|d: String| d@) == old(dirs)@.map_values(|d: String| d@).push(
            logical@,
        ),
        !r ==> final(dirs)@ == old(dirs)@,
{
    let ghost dv = dirs@.map_values(|d: String| d@);
    let mut j: usize = 0;
    while j < dirs.len()
        invariant
            j <= dirs.len(),
            dv == dirs@.map_values(|d: String| d@),
            forall|q: int| 0 <= q < j ==> !path_eq_spec(#[trigger] dv[q], logical@),
        decreases dirs.len() - j,
    {
        if path_eq(dirs[j].as_str(), logical.as_str()) {
            assert(path_eq_spec(dv[j as int], logical@));
            return false;
        }
        j = j + 1;
    }
    dirs.push(logical);
    assert(dirs@.map_values(|d: String| d@) =~= dv.push(logical@));
    true
}

/// The marker line of an installed file.
pub fn file_record(destination: &str, expected: &str) -> (r: String)
    ensures
        r@ == "file\t"@ + destination@ + "\t"@ + expected@,
{
    let mut s = String::from_str("file\t");
    s.append(destination);
    s.append("\t");
    s.append(expected);
    s
}

/// The marker line of a created directory.
pub fn dir_record(logical: &str) -> (r: String)
    ensures
        r@ == "dir\t"@ + logical@,
{
    let mut s = String::from_str("dir\t");
    s.append(logical);
    s
}

/// What a record expects of an installed link: `link:` and its target.
pub fn link_expected(target: &str) -> (r: String)
    ensures
        r@ == "link:"@ + target@,
{
    let mut s = String::from_str("link:");
    s.append(target);
    s
}

/// Lines joined by newlines, each ended by one.
pub open spec fn marker_lines(ls: Seq<Seq<char>>) -> Seq<char>
    decreases ls.len(),
{
    if ls.len() == 0 {
        seq![]
    } else if ls.len() == 1 {
        ls[0]
    } else {
        marker_lines(ls.drop_last()) + "\n"@ + ls.last()
    }
}

/// The marker's text: the records in character order, one per line.
pub fn marker_text(records: &Vec<String>) -> (r: String)
    ensures
        r@ == marker_lines(string_sort(records@.map_values(|s: String| s@))) + "\n"@,
{
    let sorted = sort_strings(records);
    let ghost sv = sorted@.map_values(|s: String| s@);
    let mut out = String::new();
    let mut i: usize = 0;
    assert(out@ =~= marker_lines(sv.subrange(0, 0)));
    while i < sorted.len()
        invariant
            i <= sorted.len(),
            sv == sorted@.map_values(|s: String| s@),
            out@ == marker_lines(sv.subrange(0, i as int)),
        decreases sorted.len() - i,
    {
        let ghost before = out@;
        assert(sv.subrange(0, i + 1).drop_last() =~= sv.subrange(0, i as int));
        if i > 0 {
            out.append("\n");
        }
        out.append(sorted[i].as_str());
        assert(out@ =~= marker_lines(sv.subrange(0, i + 1)));
        i = i + 1;
    }
    out.append("\n");
    assert(sv.subrange(0, sorted.len() as int) =~= sv);
    out
}

/// The text before the program directory in the systemd user unit.
pub const SERVICE_HEAD: &'static str = "[Unit]\nDescription=WiiLand input bridge\nDocumentation=man:wiilandd(1)\n\n[Service]\nType=simple\nNoNewPrivileges=yes\nLockPersonality=yes\nMemoryDenyWriteExecute=yes\nRestrictRealtime=yes\nRestrictSUIDSGID=yes\nSystemCallArchitectures=native\nUMask=0077\nExecCondition=";

/// The text after the program directory in the `ExecCondition` line, up to
/// the program directory of `ExecStart`.
pub const SERVICE_MIDDLE: &'static str = "/wiilandd --check-config\nExecStart=";

/// The rest of the systemd user unit.
pub const SERVICE_TAIL: &'static str = "/wiilandd\nRestart=on-failure\nRestartSec=2s\n\n[Install]\nWantedBy=default.target\n";

/// The systemd user unit for a logical program directory: only the logical
/// `bindir` appears in it, never a staging directory.
pub fn service_unit(bindir: &str) -> (r: String)
    ensures
        r@ == SERVICE_HEAD@ + bindir@ + SERVICE_MIDDLE@ + bindir@ + SERVICE_TAIL@,
{
    let mut s = String::from_str(SERVICE_HEAD);
    s.append(bindir);
    s.append(SERVICE_MIDDLE);
    s.append(bindir);
    s.append(SERVICE_TAIL);
    s
}

/// `Path::components().count()`: the root or a leading `.`, and the named
/// components.
pub open spec fn depth(p: Seq<char>) -> int {
    (if is_absolute_spec(p) || leading_cur_dir(p) {
        1int
    } else {
        0int
    }) + components_spec(p).len()
}

fn depth_of(p: &str) -> (r: u128)
    ensures
        r == depth(p@),
{
    let c = components(p);
    assert(c@.map_values(|s: String| s@).len() == c@.len());
    let n = p.unicode_len();
    let lead = is_absolute(p) || (n > 0 && p.get_char(0) == '.' && (n == 1 || p.get_char(1) == '/'));
    if lead {
        c.len() as u128 + 1
    } else {
        c.len() as u128
    }
}

/// The paths of depth `k`.
pub open spec fn at_depth(k: int) -> spec_fn(Seq<char>) -> bool {
    |p: Seq<char>| depth(p) == k
}

/// Whether deeper paths come first.
pub open spec fn deepest_first(s: Seq<Seq<char>>) -> bool {
    forall|i: int, j: int| 0 <= i < j < s.len() ==> depth(#[trigger] s[i]) >= depth(#[trigger] s[j])
}

/// `Vec::dedup` under path equality: each path equal to the one before it is
/// dropped.
pub open spec fn dedup_paths(s: Seq<Seq<char>>) -> Seq<Seq<char>>
    decreases s.len(),
{
    if s.len() <= 1 {
        s
    } else {
        let prev = dedup_paths(s.drop_last());
        if path_eq_spec(s[s.len() - 2], s.last()) {
            prev
        } else {
            prev.push(s.last())
        }
    }
}

proof fn lemma_filter_insert(r: Seq<Seq<char>>, p: int, x: Seq<char>, f: spec_fn(Seq<char>) -> bool)
    requires
        0 <= p <= r.len(),
    ensures
        r.insert(p, x).filter(f) == r.subrange(0, p).filter(f) + seq![x].filter(f) + r.subrange(
            p,
            r.len() as int,
        ).filter(f),
        r.filter(f) == r.subrange(0, p).filter(f) + r.subrange(p, r.len() as int).filter(f),
{
    assert(r.insert(p, x) =~= r.subrange(0, p) + seq![x] + r.subrange(p, r.len() as int));
    assert(r =~= r.subrange(0, p) + r.subrange(p, r.len() as int));
    Seq::filter_distributes_over_add(r.subrange(0, p) + seq![x], r.subrange(p, r.len() as int), f);
    Seq::filter_distributes_over_add(r.subrange(0, p), seq![x], f);
    Seq::filter_distributes_over_add(r.subrange(0, p), r.subrange(p, r.len() as int), f);
}

proof fn lemma_filter_none(s: Seq<Seq<char>>, f: spec_fn(Seq<char>) -> bool)
    requires
        forall|i: int| 0 <= i < s.len() ==> !f(#[trigger] s[i]),
    ensures
        s.filter(f) == Seq::<Seq<char>>::empty(),
    decreases s.len(),
{
    reveal(Seq::filter);
    if s.len() > 0 {
        lemma_filter_none(s.drop_last(), f);
    }
}

proof fn lemma_filter_single(x: Seq<char>, f: spec_fn(Seq<char>) -> bool)
    ensures
        seq![x].filter(f) == if f(x) {
            seq![x]
        } else {
            Seq::<Seq<char>>::empty()
        },
{
    reveal_with_fuel(Seq::filter, 2);
    assert(seq![x].drop_last() =~= Seq::<Seq<char>>::empty());
}

/// Whether `r` is the removal order of `dirs`: `dirs` sorted deepest
/// first, paths of equal depth in their given order, with a path equal to
/// the one before it kept once.
pub open spec fn is_removal_order(dirs: Seq<Seq<char>>, r: Seq<Seq<char>>) -> bool {
    exists|sorted: Seq<Seq<char>>|
        #![trigger deepest_first(sorted)]
        deepest_first(sorted) && (forall|k: int|
            #![trigger at_depth(k)]
            sorted.filter(at_depth(k)) == dirs.filter(at_depth(k))) && r == dedup_paths(sorted)
}

/// The order in which an uninstallation removes the directories it created:
/// deepest first, paths of equal depth in their recorded order, and a path
/// equal to the one before it only once.
pub fn removal_order(dirs: &Vec<String>) -> (r: Vec<String>)
    ensures
        is_removal_order(dirs@.map_values(|s: String| s@), r@.map_values(|s: String| s@)),
{
    let ghost dv = dirs@.map_values(|s: String| s@);
    let mut sorted: Vec<String> = Vec::new();
    let mut k: usize = 0;
    proof {
        reveal(Seq::filter);
        assert forall|d: int| #![trigger at_depth(d)] sorted@.map_values(|s: String| s@).filter(
            at_depth(d),
        ) == dv.subrange(0, 0).filter(at_depth(d)) by {
            assert(sorted@.map_values(|s: String| s@) =~= Seq::<Seq<char>>::empty());
            assert(dv.subrange(0, 0) =~= Seq::<Seq<char>>::empty());
        }
    }
    while k < dirs.len()
        invariant
            k <= dirs.len(),
            dv == dirs@.map_values(|s: String| s@),
            deepest_first(sorted@.map_values(|s: String| s@)),
            forall|d: int|
                #![trigger at_depth(d)]
                sorted@.map_values(|s: String| s@).filter(at_depth(d)) == dv.subrange(0, k as int).filter(
                    at_depth(d),
                ),
        decreases dirs.len() - k,
    {
        let x = dirs[k].clone();
        let dx = depth_of(x.as_str());
        let ghost rv = sorted@.map_values(|s: String| s@);
        let mut p: usize = 0;
        while p < sorted.len() && depth_of(sorted[p].as_str()) >= dx
            invariant
                p <= sorted.len(),
                rv == sorted@.map_values(|s: String| s@),
                dx == depth(x@),
                forall|q: int| 0 <= q < p ==> depth(#[trigger] rv[q]) >= depth(x@),
            decreases sorted.len() - p,
        {
            p = p + 1;
        }
        sorted.insert(p, x);
        proof {
            let nv = sorted@.map_values(|s: String| s@);
            let xv = dv[k as int];
            assert(nv =~= rv.insert(p as int, xv));
            assert(p < rv.len() ==> depth(rv[p as int]) < depth(xv));
            assert forall|q: int| p <= q < rv.len() implies depth(#[trigger] rv[q]) < depth(xv) by {
                if q > p {
                    assert(depth(rv[p as int]) >= depth(rv[q]));
                }
            }
            assert forall|i: int, j: int| 0 <= i < j < nv.len() implies depth(#[trigger] nv[i]) >= depth(
                #[trigger] nv[j],
            ) by {
                if j < p {
                    assert(nv[i] == rv[i] && nv[j] == rv[j]);
                } else if j == p {
                    assert(nv[i] == rv[i]);
                } else if i < p {
                    assert(nv[i] == rv[i] && nv[j] == rv[j - 1]);
                } else if i == p {
                    assert(nv[j] == rv[j - 1]);
                } else {
                    assert(nv[i] == rv[i - 1] && nv[j] == rv[j - 1]);
                }
            }
            assert(dv.subrange(0, k + 1) =~= dv.subrange(0, k as int).push(xv));
            assert forall|d: int| #![trigger at_depth(d)] nv.filter(at_depth(d)) == dv.subrange(
                0,
                k + 1,
            ).filter(at_depth(d)) by {
                let f = at_depth(d);
                lemma_filter_insert(rv, p as int, xv, f);
                lemma_filter_single(xv, f);
                reveal(Seq::filter);
                assert(dv.subrange(0, k + 1).drop_last() =~= dv.subrange(0, k as int));
                if depth(xv) == d {
                    lemma_filter_none(rv.subrange(p as int, rv.len() as int), f);
                    assert(nv.filter(f) =~= rv.subrange(0, p as int).filter(f) + seq![xv]);
                    assert(rv.filter(f) =~= rv.subrange(0, p as int).filter(f));
                } else {
                    assert(nv.filter(f) =~= rv.subrange(0, p as int).filter(f) + rv.subrange(
                        p as int,
                        rv.len() as int,
                    ).filter(f));
                }
            }
        }
        k = k + 1;
    }
    let ghost sv = sorted@.map_values(|s: String| s@);
    assert(dv.subrange(0, dirs.len() as int) =~= dv);
    let mut out: Vec<String> = Vec::new();
    let mut i: usize = 0;
    assert(out@.map_values(|s: String| s@) =~= dedup_paths(sv.subrange(0, 0)));
    while i < sorted.len()
        invariant
            i <= sorted.len(),
            sv == sorted@.map_values(|s: String| s@),
            out@.map_values(|s: String| s@) == dedup_paths(sv.subrange(0, i as int)),
        decreases sorted.len() - i,
    {
        let ghost before = out@.map_values(|s: String| s@);
        let ghost sub = sv.subrange(0, i + 1);
        assert(sub.drop_last() =~= sv.subrange(0, i as int));
        if i == 0 || !path_eq(sorted[i - 1].as_str(), sorted[i].as_str()) {
            out.push(sorted[i].clone());
            assert(out@.map_values(|s: String| s@) =~= before.push(sv[i as int]));
            if i == 0 {
                assert(sub =~= seq![sv[0]]);
                assert(before =~= Seq::<Seq<char>>::empty());
            }
        }
        i = i + 1;
    }
    assert(sv.subrange(0, sorted.len() as int) =~= sv);
    out
}

/// The files an uninstallation removes: those of the file records whose
/// entry is unchanged (`unchanged[i]` for `records[i]`), in record order.
pub open spec fn file_removals(records: Seq<RecordView>, unchanged: Seq<bool>) -> Seq<Seq<char>>
    decreases records.len(),
{
    if records.len() == 0 || unchanged.len() < records.len() {
        seq![]
    } else {
        let prev = file_removals(records.drop_last(), unchanged);
        match records.last() {
            RecordView::File { logical, expected } => if unchanged[records.len() - 1] {
                prev.push(logical)
            } else {
                prev
            },
            RecordView::Directory(_) => prev,
        }
    }
}

/// The directories the records say were created, in record order.
pub open spec fn owned_dirs(records: Seq<RecordView>) -> Seq<Seq<char>>
    decreases records.len(),
{
    if records.len() == 0 {
        seq![]
    } else {
        let prev = owned_dirs(records.drop_last());
        match records.last() {
            RecordView::Directory(d) => prev.push(d),
            RecordView::File { .. } => prev,
        }
    }
}

/// What an uninstallation removes: the owned files whose content or link
/// target is unchanged, then, after the marker, the owned directories in
/// removal order (each only if it is empty by then).
pub struct UninstallPlan {
    pub files: Vec<String>,
    pub dirs: Vec<String>,
}

/// The uninstallation of the marker's `records`, where `unchanged[i]`
/// says whether the entry of `records[i]` still holds what was installed
/// (a file with the recorded hash, or a link to the recorded target).
pub fn uninstall_plan(records: &Vec<OwnershipRecord>, unchanged: &Vec<bool>) -> (r: UninstallPlan)
    requires
        unchanged@.len() == records@.len(),
    ensures
        r.files@.map_values(|s: String| s@) == file_removals(
            records@.map_values(|x: OwnershipRecord| x@),
            unchanged@,
        ),
        is_removal_order(
            owned_dirs(records@.map_values(|x: OwnershipRecord| x@)),
            r.dirs@.map_values(|s: String| s@),
        ),
{
    let ghost rv = records@.map_values(|x: OwnershipRecord| x@);
    let mut files: Vec<String> = Vec::new();
    let mut owned: Vec<String> = Vec::new();
    let mut i: usize = 0;
    assert(rv.subrange(0, 0) =~= Seq::<RecordView>::empty());
    assert(files@.map_values(|s: String| s@) =~= Seq::<Seq<char>>::empty());
    assert(owned@.map_values(|s: String| s@) =~= Seq::<Seq<char>>::empty());
    while i < records.len()
        invariant
            i <= records@.len(),
            unchanged@.len() == records@.len(),
            rv == records@.map_values(|x: OwnershipRecord| x@),
            files@.map_values(|s: String| s@) == file_removals(rv.subrange(0, i as int), unchanged@),
            owned@.map_values(|s: String| s@) == owned_dirs(rv.subrange(0, i as int)),
        decreases records@.len() - i,
    {
        let ghost sub = rv.subrange(0, i + 1);
        assert(sub.drop_last() =~= rv.subrange(0, i as int));
        assert(sub.last() == records@[i as int]@);
        let ghost fb = files@;
        let ghost ob = owned@;
        match &records[i] {
            OwnershipRecord::File { logical, expected } => {
                if unchanged[i] {
                    files.push(logical.clone());
                    assert(files@.map_values(|s: String| s@) =~= fb.map_values(|s: String| s@).push(
                        logical@,
                    ));
                }
            },
            OwnershipRecord::Directory(d) => {
                owned.push(d.clone());
                assert(owned@.map_values(|s: String| s@) =~= ob.map_values(|s: String| s@).push(d@));
            },
        }
        i = i + 1;
    }
    assert(rv.subrange(0, records@.len() as int) =~= rv);
    let dirs = removal_order(&owned);
    UninstallPlan { files, dirs }
}

/// An uninstallation removes only owned files whose entry is unchanged,
/// and every such file.
pub proof fn lemma_uninstall_removes_only_unchanged(records: Seq<RecordView>, unchanged: Seq<bool>, p: Seq<char>)
    requires
        unchanged.len() == records.len(),
    ensures
        file_removals(records, unchanged).contains(p) <==> exists|i: int|
            0 <= i < records.len() && unchanged[i] && (#[trigger] records[i] matches RecordView::File {
                logical,
                ..
            } && logical == p),
{
    lemma_removals_general(records, unchanged, p);
}

proof fn lemma_removals_general(records: Seq<RecordView>, unchanged: Seq<bool>, p: Seq<char>)
    requires
        unchanged.len() >= records.len(),
    ensures
        file_removals(records, unchanged).contains(p) <==> exists|i: int|
            0 <= i < records.len() && unchanged[i] && (#[trigger] records[i] matches RecordView::File {
                logical,
                ..
            } && logical == p),
    decreases records.len(),
{
    if records.len() > 0 {
        let n = records.len() - 1;
        let init = records.drop_last();
        lemma_removals_general(init, unchanged, p);
        let prev = file_removals(init, unchanged);
        if file_removals(records, unchanged).contains(p) {
            let k = choose|k: int| 0 <= k < file_removals(records, unchanged).len() && file_removals(records, unchanged)[k] == p;
            if k < prev.len() {
                assert(prev[k] == p);
                let i = choose|i: int|
                    0 <= i < init.len() && unchanged[i] && (#[trigger] init[i] matches RecordView::File {
                        logical,
                        ..
                    } && logical == p);
                assert(records[i] == init[i]);
            } else {
                assert(records[n] matches RecordView::File { logical, .. } && logical == p);
            }
        }
        if exists|i: int|
            0 <= i < records.len() && unchanged[i] && (#[trigger] records[i] matches RecordView::File {
                logical,
                ..
            } && logical == p) {
            let i = choose|i: int|
                0 <= i < records.len() && unchanged[i] && (#[trigger] records[i] matches RecordView::File {
                    logical,
                    ..
                } && logical == p);
            if i < n {
                assert(init[i] == records[i]);
                assert(prev.contains(p));
                let k = choose|k: int| 0 <= k < prev.len() && prev[k] == p;
                assert(file_removals(records, unchanged)[k] == p);
            } else {
                let fr = file_removals(records, unchanged);
                assert(fr[fr.len() - 1] == p);
            }
        }
    }
}

/// The stale files a reinstallation removes: those whose entry is
/// unchanged (`unchanged[i]` for `stale[i]`), in order.
pub open spec fn stale_removals_spec(stale: Seq<(Seq<char>, Seq<char>)>, unchanged: Seq<bool>) -> Seq<
    Seq<char>,
>
    decreases stale.len(),
{
    if stale.len() == 0 || unchanged.len() < stale.len() {
        seq![]
    } else {
        let prev = stale_removals_spec(stale.drop_last(), unchanged);
        if unchanged[stale.len() - 1] {
            prev.push(stale.last().0)
        } else {
            prev
        }
    }
}

/// The stale owned files a reinstallation removes: of the files the marker
/// owns that the new installation no longer writes (`stale_files`), those
/// whose entry still holds what was installed.
pub fn stale_removals(stale: &Vec<(String, String)>, unchanged: &Vec<bool>) -> (r: Vec<String>)
    requires
        unchanged@.len() == stale@.len(),
    ensures
        r@.map_values(|s: String| s@) == stale_removals_spec(
            stale@.map_values(|p: (String, String)| (p.0@, p.1@)),
            unchanged@,
        ),
{
    let ghost sv = stale@.map_values(|p: (String, String)| (p.0@, p.1@));
    let mut out: Vec<String> = Vec::new();
    let mut i: usize = 0;
    assert(sv.subrange(0, 0) =~= Seq::<(Seq<char>, Seq<char>)>::empty());
    assert(out@.map_values(|s: String| s@) =~= Seq::<Seq<char>>::empty());
    while i < stale.len()
        invariant
            i <= stale@.len(),
            unchanged@.len() == stale@.len(),
            sv == stale@.map_values(|p: (String, String)| (p.0@, p.1@)),
            out@.map_values(|s: String| s@) == stale_removals_spec(sv.subrange(0, i as int), unchanged@),
        decreases stale@.len() - i,
    {
        let ghost sub = sv.subrange(0, i + 1);
        assert(sub.drop_last() =~= sv.subrange(0, i as int));
        assert(sub.last() == (stale@[i as int].0@, stale@[i as int].1@));
        let ghost before = out@;
        if unchanged[i] {
            out.push(stale[i].0.clone());
            assert(out@.map_values(|s: String| s@) =~= before.map_values(|s: String| s@).push(
                stale@[i as int].0@,
            ));
        }
        i = i + 1;
    }
    assert(sv.subrange(0, stale@.len() as int) =~= sv);
    out
}

/// What the file system shows at an owned entry.
#[derive(Clone, Debug)]
pub enum EntryFacts {
    /// Nothing is there.
    Missing,
    /// A symbolic link, with its target when it could be read.
    Link(Option<String>),
    /// A regular file, with the hash of its content when it could be read.
    File(Option<u64>),
    /// Something else.
    Other,
}

/// Whether an entry still holds what a record says was installed: for a
/// `link:` record a link to an equal target path, else a regular file
/// whose content hash is the recorded one.
pub open spec fn entry_matches_spec(expected: Seq<char>, facts: EntryFacts) -> bool {
    if seq_starts_with(expected, "link:"@) {
        facts matches EntryFacts::Link(Some(t)) && path_eq_spec(
            t@,
            expected.subrange(5, expected.len() as int),
        )
    } else {
        facts matches EntryFacts::File(Some(h)) && pad_left(hex(h as nat), 16, '0') == expected
    }
}

/// Whether the entry a record names is unchanged.
pub fn entry_matches(expected: &str, facts: &EntryFacts) -> (r: bool)
    ensures
        r == entry_matches_spec(expected@, *facts),
{
    proof {
        reveal_strlit("link:");
    }
    match strip_prefix(expected, "link:") {
        Some(link) => match facts {
            EntryFacts::Link(Some(t)) => path_eq(t.as_str(), link),
            _ => false,
        },
        None => match facts {
            EntryFacts::File(Some(h)) => {
                let text = hash_text(*h);
                str_eq(text.as_str(), expected)
            },
            _ => false,
        },
    }
}

} // verus!
