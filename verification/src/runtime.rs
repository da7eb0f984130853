//! The bookkeeping of the device reactor: which devices to drop after a
//! snapshot of the present ones, the queue of devices to add, and the
//! lifecycle diagnostics.

use vstd::prelude::*;
use crate::text::{push_decimal, push_signed, decimal, signed_decimal};
use crate::path::{path_eq, path_eq_spec};

verus! {

/// The most devices bridged at once.
pub const MAX_DEVICES: usize = 32;

/// Whether the bridges create and feed virtual devices: not in a dry run.
pub fn outputs_enabled(dry_run: bool) -> (r: bool)
    ensures
        r == !dry_run,
{
    !dry_run
}

/// The paths of a vector, as text.
pub open spec fn paths_view(v: Seq<String>) -> Seq<Seq<char>> {
    v.map_values(|p: String| p@)
}

/// Whether `paths` holds a path equal to `p` (`Path` equality, which
/// compares components, so `/a/b/` and `/a/b` are the same path).
pub open spec fn holds_path(paths: Seq<Seq<char>>, p: Seq<char>) -> bool {
    exists|j: int| 0 <= j < paths.len() && path_eq_spec(#[trigger] paths[j], p)
}

/// Whether no path occurs twice, under `Path` equality.
pub open spec fn no_duplicates(s: Seq<Seq<char>>) -> bool {
    forall|i: int, j: int| 0 <= i < j < s.len() ==> !path_eq_spec(#[trigger] s[i], #[trigger] s[j])
}

/// Appends `path` unless an equal path is already queued; says whether it
/// was added.
pub fn push_unique(paths: &mut Vec<String>, path: String) -> (r: bool)
    ensures
        r == !holds_path(paths_view(old(paths)@), path@),
        r ==> paths_view(final(paths)@) == paths_view(old(paths)@).push(path@),
        !r ==> final(paths)@ == old(paths)@,
        no_duplicates(paths_view(old(paths)@)) ==> no_duplicates(paths_view(final(paths)@)),
{
    let ghost before = paths_view(paths@);
    if contains_path(paths, path.as_str()) {
        return false;
    }
    paths.push(path);
    assert(paths_view(paths@) =~= before.push(path@));
    assert(no_duplicates(before) ==> no_duplicates(paths_view(paths@))) by {
        let after = paths_view(paths@);
        if no_duplicates(before) {
            assert forall|i: int, j: int| 0 <= i < j < after.len() implies !path_eq_spec(
                #[trigger] after[i],
                #[trigger] after[j],
            ) by {
                if j == before.len() {
                    assert(after[i] == before[i]);
                    if path_eq_spec(after[i], after[j]) {
                        assert(path_eq_spec(before[i], path@));
                    }
                }
            }
        }
    }
    true
}

/// The slots among the active `(slot, path)` pairs whose path the snapshot
/// `present` no longer holds, in the order of `active`.
pub open spec fn missing_slots_spec(active: Seq<(usize, Seq<char>)>, present: Seq<Seq<char>>) -> Seq<
    usize,
>
    decreases active.len(),
{
    if active.len() == 0 {
        seq![]
    } else {
        let prev = missing_slots_spec(active.drop_last(), present);
        let last = active.last();
        if holds_path(present, last.1) {
            prev
        } else {
            prev.push(last.0)
        }
    }
}

/// The active pairs, as slots and text.
pub open spec fn active_view(active: Seq<(usize, String)>) -> Seq<(usize, Seq<char>)> {
    active.map_values(|a: (usize, String)| (a.0, a.1@))
}

/// Whether `present` holds a path equal to `path`.
pub fn contains_path(present: &Vec<String>, path: &str) -> (r: bool)
    ensures
        r == holds_path(paths_view(present@), path@),
{
    let ghost pv = paths_view(present@);
    let mut i: usize = 0;
    while i < present.len()
        invariant
            i <= present.len(),
            pv == paths_view(present@),
            forall|j: int| 0 <= j < i ==> !path_eq_spec(#[trigger] pv[j], path@),
        decreases present.len() - i,
    {
        if path_eq(present[i].as_str(), path) {
            assert(path_eq_spec(pv[i as int], path@));
            return true;
        }
        i = i + 1;
    }
    false
}

/// The slots to drop after a snapshot: those whose device is not present.
pub fn missing_slots(active: &Vec<(usize, String)>, present: &Vec<String>) -> (r: Vec<usize>)
    ensures
        r@ == missing_slots_spec(active_view(active@), paths_view(present@)),
{
    let ghost av = active_view(active@);
    let mut out: Vec<usize> = Vec::new();
    let mut i: usize = 0;
    assert(av.subrange(0, 0) =~= Seq::<(usize, Seq<char>)>::empty());
    while i < active.len()
        invariant
            i <= active.len(),
            av == active_view(active@),
            out@ == missing_slots_spec(av.subrange(0, i as int), paths_view(present@)),
        decreases active.len() - i,
    {
        let (slot, path) = (active[i].0, active[i].1.as_str());
        assert(av.subrange(0, i + 1).drop_last() =~= av.subrange(0, i as int));
        assert(av.subrange(0, i + 1).last() == (slot, path@));
        if !contains_path(present, path) {
            out.push(slot);
        }
        i = i + 1;
    }
    assert(av.subrange(0, active.len() as int) =~= av);
    out
}

/// A lifecycle event of the reactor.
#[derive(Clone, Debug)]
pub enum Lifecycle {
    Add(String),
    Remove(String),
    Gone(String),
    Reconcile { snapshot: usize, queued: usize, active: usize },
    Error { operation: &'static str, path: Option<String>, code: i32 },
}

/// The diagnostic line of a lifecycle event.
pub open spec fn lifecycle_text(e: Lifecycle) -> Seq<char> {
    match e {
        Lifecycle::Add(p) => "wiilandd: add: "@ + p@,
        Lifecycle::Remove(p) => "wiilandd: remove: "@ + p@,
        Lifecycle::Gone(p) => "wiilandd: gone: "@ + p@,
        Lifecycle::Reconcile { snapshot, queued, active } => "wiilandd: reconcile: snapshot="@
            + decimal(snapshot as nat) + " queued="@ + decimal(queued as nat) + " active="@
            + decimal(active as nat),
        Lifecycle::Error { operation, path, code } => match path {
            Some(p) => "wiilandd: error: "@ + operation@ + " "@ + p@ + ": "@ + signed_decimal(
                code as int,
            ),
            None => "wiilandd: error: "@ + operation@ + ": "@ + signed_decimal(code as int),
        },
    }
}

impl Lifecycle {
    /// The diagnostic line.
    pub fn to_text(&self) -> (r: String)
        ensures
            r@ == lifecycle_text(*self),
    {
        match self {
            Lifecycle::Add(p) => {
                let mut s = String::from_str("wiilandd: add: ");
                s.append(p.as_str());
                s
            },
            Lifecycle::Remove(p) => {
                let mut s = String::from_str("wiilandd: remove: ");
                s.append(p.as_str());
                s
            },
            Lifecycle::Gone(p) => {
                let mut s = String::from_str("wiilandd: gone: ");
                s.append(p.as_str());
                s
            },
            Lifecycle::Reconcile { snapshot, queued, active } => {
                let mut s = String::from_str("wiilandd: reconcile: snapshot=");
                push_decimal(&mut s, *snapshot as u64);
                s.append(" queued=");
                push_decimal(&mut s, *queued as u64);
                s.append(" active=");
                push_decimal(&mut s, *active as u64);
                s
            },
            Lifecycle::Error { operation, path, code } => {
                let mut s = String::from_str("wiilandd: error: ");
                s.append(operation);
                match path {
                    Some(p) => {
                        s.append(" ");
                        s.append(p.as_str());
                    },
                    None => {},
                }
                s.append(": ");
                push_signed(&mut s, *code as i64);
                s
            },
        }
    }
}

/// Whether lifecycle events are reported (with `--verbose`).
#[derive(Clone, Copy, Debug)]
pub struct Diagnostics {
    pub enabled: bool,
}

impl Diagnostics {
    /// The line to report for an event, if reporting is on.
    pub fn emit(&self, event: &Lifecycle) -> (r: Option<String>)
        ensures
            self.enabled ==> (r matches Some(l) && l@ == lifecycle_text(*event)),
            !self.enabled ==> r is None,
    {
        if self.enabled {
            Some(event.to_text())
        } else {
            None
        }
    }
}

} // verus!
