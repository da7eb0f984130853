//! The decisions of the device reactor: the table of bridged devices by
//! slot, where a new device goes, which descriptors a wake-up polls, what a
//! drained device or a failed poll leads to, and when the reactor wakes.
//! Time is counted in nanoseconds of a monotonic clock.

use vstd::prelude::*;
use crate::bridge::BridgeAction;
use crate::errno::{EINTR, EIO, ENOSPC};
use crate::runtime::{
    MAX_DEVICES, Lifecycle, active_view, holds_path, missing_slots, missing_slots_spec, no_duplicates,
    paths_view,
    push_unique,
};
use crate::path::{path_eq, path_eq_spec};

verus! {

/// How often held pointer keys move the pointer.
pub const POINTER_TICK_NS: u64 = 16_000_000;

/// How often the reactor compares its devices with a fresh snapshot.
pub const RECONCILE_TICK_NS: u64 = 1_000_000_000;

/// A slot's device path, as text.
pub open spec fn slot_view(o: Option<String>) -> Option<Seq<char>> {
    match o {
        Some(p) => Some(p@),
        None => None,
    }
}

/// Whether a slot bridges the device at `p`: it holds a path equal to `p`
/// (`Path` equality, which compares components).
pub open spec fn bridges(o: Option<Seq<char>>, p: Seq<char>) -> bool {
    o matches Some(q) && path_eq_spec(q, p)
}

/// Whether a table has one entry per slot and no device in two slots.
pub open spec fn slots_wf(v: Seq<Option<Seq<char>>>) -> bool {
    &&& v.len() == MAX_DEVICES
    &&& forall|i: int, j: int|
        #![trigger v[i], v[j]]
        0 <= i < v.len() && 0 <= j < v.len() && i != j && v[i] is Some ==> !bridges(v[j], v[i]->0)
}

/// The occupied slots of `v[..n]` with their paths, in slot order.
pub open spec fn occupied_upto(v: Seq<Option<Seq<char>>>, n: int) -> Seq<(usize, Seq<char>)>
    decreases n,
{
    if n <= 0 {
        seq![]
    } else {
        let prev = occupied_upto(v, n - 1);
        match v[n - 1] {
            Some(p) => prev.push(((n - 1) as usize, p)),
            None => prev,
        }
    }
}

/// The occupied slots with their paths, in slot order.
pub open spec fn occupied(v: Seq<Option<Seq<char>>>) -> Seq<(usize, Seq<char>)> {
    occupied_upto(v, v.len() as int)
}

/// The devices a reactor bridges, by slot.
pub struct SlotTable {
    slots: Vec<Option<String>>,
}

impl View for SlotTable {
    type V = Seq<Option<Seq<char>>>;

    closed spec fn view(&self) -> Seq<Option<Seq<char>>> {
        self.slots@.map_values(|o: Option<String>| slot_view(o))
    }
}

impl SlotTable {
    /// Whether the table is well formed.
    pub open spec fn wf(&self) -> bool {
        slots_wf(self@)
    }

    /// A table with every slot free.
    pub fn new() -> (r: Self)
        ensures
            r.wf(),
            r@ == Seq::new(MAX_DEVICES as nat, |i: int| None::<Seq<char>>),
    {
        let mut slots: Vec<Option<String>> = Vec::new();
        let mut i: usize = 0;
        while i < MAX_DEVICES
            invariant
                i <= MAX_DEVICES,
                slots@.len() == i,
                forall|j: int| 0 <= j < i ==> slots@[j] is None,
            decreases MAX_DEVICES - i,
        {
            slots.push(None);
            i = i + 1;
        }
        let r = SlotTable { slots };
        assert(r@ =~= Seq::new(MAX_DEVICES as nat, |i: int| None::<Seq<char>>));
        r
    }

    /// The slot bridging `path`, if any.
    pub fn find(&self, path: &str) -> (r: Option<usize>)
        requires
            self.wf(),
        ensures
            r matches Some(i) ==> i < MAX_DEVICES && bridges(self@[i as int], path@),
            r is None ==> forall|i: int| 0 <= i < MAX_DEVICES ==> !bridges(#[trigger] self@[i], path@),
    {
        let ghost v = self@;
        let mut i: usize = 0;
        while i < self.slots.len()
            invariant
                v == self@,
                v.len() == self.slots@.len(),
                v.len() == MAX_DEVICES,
                i <= self.slots@.len(),
                forall|j: int| 0 <= j < i ==> !bridges(#[trigger] v[j], path@),
            decreases self.slots@.len() - i,
        {
            assert(v[i as int] == slot_view(self.slots@[i as int]));
            match &self.slots[i] {
                Some(p) => {
                    if path_eq(p.as_str(), path) {
                        return Some(i);
                    }
                },
                None => {},
            }
            i = i + 1;
        }
        None
    }

    /// The first free slot, if any.
    pub fn free_slot(&self) -> (r: Option<usize>)
        requires
            self.wf(),
        ensures
            r matches Some(i) ==> i < MAX_DEVICES && self@[i as int] is None && forall|j: int|
                0 <= j < i ==> self@[j] is Some,
            r is None ==> forall|i: int| 0 <= i < MAX_DEVICES ==> self@[i] is Some,
    {
        let ghost v = self@;
        let mut i: usize = 0;
        while i < self.slots.len()
            invariant
                v == self@,
                v.len() == self.slots@.len(),
                v.len() == MAX_DEVICES,
                i <= self.slots@.len(),
                forall|j: int| 0 <= j < i ==> v[j] is Some,
            decreases self.slots@.len() - i,
        {
            assert(v[i as int] == slot_view(self.slots@[i as int]));
            if self.slots[i].is_none() {
                return Some(i);
            }
            i = i + 1;
        }
        None
    }

    /// Where a device at `path` goes: nowhere (`Ok(None)`) when it is
    /// bridged already, the first free slot, or `-ENOSPC` when every slot
    /// is taken.
    pub fn plan_add(&self, path: &str) -> (r: Result<Option<usize>, i32>)
        requires
            self.wf(),
        ensures
            r == Ok::<Option<usize>, i32>(None) <==> exists|i: int|
                0 <= i < MAX_DEVICES && bridges(#[trigger] self@[i], path@),
            r matches Ok(Some(i)) ==> i < MAX_DEVICES && self@[i as int] is None && (forall|j: int|
                0 <= j < i ==> self@[j] is Some),
            r is Err ==> r == Err::<Option<usize>, i32>((-ENOSPC) as i32) && (forall|i: int|
                0 <= i < MAX_DEVICES ==> self@[i] is Some && !bridges(#[trigger] self@[i], path@)),
            r matches Ok(Some(i)) ==> forall|j: int| 0 <= j < MAX_DEVICES ==> !bridges(#[trigger] self@[j], path@),
    {
        match self.find(path) {
            Some(i) => {
                assert(bridges(self@[i as int], path@));
                Ok(None)
            },
            None => match self.free_slot() {
                Some(i) => {
                    Ok(Some(i))
                },
                None => Err(-ENOSPC),
            },
        }
    }

    /// Puts the device at `path` into the free slot `slot`.
    pub fn insert(&mut self, slot: usize, path: String)
        requires
            old(self).wf(),
            slot < MAX_DEVICES,
            old(self)@[slot as int] is None,
            forall|i: int| 0 <= i < MAX_DEVICES ==> !bridges(#[trigger] old(self)@[i], path@),
        ensures
            final(self).wf(),
            final(self)@ == old(self)@.update(slot as int, Some(path@)),
    {
        let ghost p = path@;
        self.slots.set(slot, Some(path));
        assert(self@ =~= old(self)@.update(slot as int, Some(p)));
    }

    /// Empties `slot`, handing back the path it held.
    pub fn remove(&mut self, slot: usize) -> (r: Option<String>)
        requires
            old(self).wf(),
            slot < MAX_DEVICES,
        ensures
            final(self).wf(),
            final(self)@ == old(self)@.update(slot as int, None),
            slot_view(r) == old(self)@[slot as int],
    {
        assert(slot_view(self.slots@[slot as int]) == old(self)@[slot as int]);
        let taken = self.slots.remove(slot);
        self.slots.insert(slot, None);
        assert(self.slots@ =~= old(self).slots@.update(slot as int, None));
        assert(self@ =~= old(self)@.update(slot as int, None));
        taken
    }

    /// The occupied slots with their paths, in slot order.
    pub fn occupied(&self) -> (r: Vec<(usize, String)>)
        requires
            self.wf(),
        ensures
            active_view(r@) == occupied(self@),
    {
        let ghost v = self@;
        let mut out: Vec<(usize, String)> = Vec::new();
        let mut i: usize = 0;
        assert(active_view(out@) =~= occupied_upto(v, 0));
        while i < self.slots.len()
            invariant
                v == self@,
                v.len() == self.slots@.len(),
                i <= self.slots@.len(),
                active_view(out@) == occupied_upto(v, i as int),
            decreases self.slots@.len() - i,
        {
            assert(v[i as int] == slot_view(self.slots@[i as int]));
            match &self.slots[i] {
                Some(p) => {
                    let ghost before = out@;
                    out.push((i, p.clone()));
                    assert(active_view(out@) =~= active_view(before).push((i, p@)));
                },
                None => {},
            }
            i = i + 1;
        }
        out
    }

    /// How many slots are occupied.
    pub fn active_count(&self) -> (r: usize)
        requires
            self.wf(),
        ensures
            r == occupied(self@).len(),
    {
        let ghost v = self@;
        let mut n: usize = 0;
        let mut i: usize = 0;
        while i < self.slots.len()
            invariant
                v == self@,
                v.len() == self.slots@.len(),
                v.len() == MAX_DEVICES,
                i <= self.slots@.len(),
                n == occupied_upto(v, i as int).len(),
                n <= i,
            decreases self.slots@.len() - i,
        {
            assert(v[i as int] == slot_view(self.slots@[i as int]));
            if self.slots[i].is_some() {
                n = n + 1;
            }
            i = i + 1;
        }
        n
    }

    /// Whether every slot is free.
    pub fn is_empty(&self) -> (r: bool)
        requires
            self.wf(),
        ensures
            r == forall|i: int| 0 <= i < MAX_DEVICES ==> self@[i] is None,
    {
        let ghost v = self@;
        let mut i: usize = 0;
        while i < self.slots.len()
            invariant
                v == self@,
                v.len() == self.slots@.len(),
                v.len() == MAX_DEVICES,
                i <= self.slots@.len(),
                forall|j: int| 0 <= j < i ==> v[j] is None,
            decreases self.slots@.len() - i,
        {
            assert(v[i as int] == slot_view(self.slots@[i as int]));
            if self.slots[i].is_some() {
                return false;
            }
            i = i + 1;
        }
        true
    }

    /// The descriptors one wake-up polls, in order: the signal pipe, the
    /// device monitor when it has one, and every bridged device by slot.
    pub fn poll_sources(&self, monitor: bool) -> (r: Vec<PollSource>)
        requires
            self.wf(),
        ensures
            r@ == poll_sources_spec(self@, monitor),
    {
        let mut out: Vec<PollSource> = Vec::new();
        out.push(PollSource::Signal);
        if monitor {
            out.push(PollSource::Monitor);
        }
        let ghost head = out@;
        let occ = self.occupied();
        let ghost ov = occupied(self@);
        let mut i: usize = 0;
        while i < occ.len()
            invariant
                ov == occupied(self@),
                ov == active_view(occ@),
                i <= occ@.len(),
                out@ == head + ov.subrange(0, i as int).map_values(
                    |a: (usize, Seq<char>)| PollSource::Device(a.0),
                ),
            decreases occ@.len() - i,
        {
            let ghost before = out@;
            assert(ov[i as int].0 == occ@[i as int].0);
            out.push(PollSource::Device(occ[i].0));
            assert(ov.subrange(0, i + 1).map_values(|a: (usize, Seq<char>)| PollSource::Device(a.0))
                =~= ov.subrange(0, i as int).map_values(
                |a: (usize, Seq<char>)| PollSource::Device(a.0),
            ).push(PollSource::Device(occ@[i as int].0)));
            i = i + 1;
        }
        assert(ov.subrange(0, occ@.len() as int) =~= ov);
        out
    }
}

/// A device put into a free slot is bridged there and nowhere else, and
/// the table stays well formed.
pub proof fn lemma_inserted_device_is_found(v: Seq<Option<Seq<char>>>, slot: int, path: Seq<char>)
    requires
        slots_wf(v),
        0 <= slot < MAX_DEVICES,
        v[slot] is None,
        forall|i: int| 0 <= i < MAX_DEVICES ==> !bridges(#[trigger] v[i], path),
    ensures
        slots_wf(v.update(slot, Some(path))),
        forall|i: int|
            0 <= i < MAX_DEVICES ==> (bridges(#[trigger] v.update(slot, Some(path))[i], path) <==> i
                == slot),
{
    let w = v.update(slot, Some(path));
    assert forall|i: int, j: int|
        #![trigger w[i], w[j]]
        0 <= i < w.len() && 0 <= j < w.len() && i != j && w[i] is Some implies !bridges(w[j], w[i]->0) by {
        if i == slot {
            assert(!bridges(v[j], path));
        } else if j == slot {
            assert(!bridges(v[i], path));
        }
    }
}

/// A device whose slot is emptied is bridged nowhere any more.
pub proof fn lemma_removed_device_is_gone(v: Seq<Option<Seq<char>>>, slot: int)
    requires
        slots_wf(v),
        0 <= slot < MAX_DEVICES,
        v[slot] is Some,
    ensures
        slots_wf(v.update(slot, None)),
        forall|i: int| 0 <= i < MAX_DEVICES ==> !bridges(#[trigger] v.update(slot, None)[i], v[slot]->0),
{
    let w = v.update(slot, None);
    assert forall|i: int| 0 <= i < MAX_DEVICES implies !bridges(#[trigger] w[i], v[slot]->0) by {
        if i != slot && w[i] is Some {
            assert(!bridges(v[slot], w[i]->0));
        }
    }
}

/// The slots listed as occupied are exactly the occupied ones, in
/// increasing order, each with its path.
pub proof fn lemma_occupied_upto(v: Seq<Option<Seq<char>>>, n: int)
    requires
        0 <= n <= v.len(),
        v.len() <= usize::MAX,
    ensures
        forall|j: int|
            0 <= j < occupied_upto(v, n).len() ==> #[trigger] occupied_upto(v, n)[j].0 < n && v[occupied_upto(
                v,
                n,
            )[j].0 as int] == Some(occupied_upto(v, n)[j].1),
        forall|j: int, k: int|
            0 <= j < k < occupied_upto(v, n).len() ==> #[trigger] occupied_upto(v, n)[j].0
                < #[trigger] occupied_upto(v, n)[k].0,
        forall|i: int|
            0 <= i < n && #[trigger] v[i] is Some ==> exists|j: int|
                0 <= j < occupied_upto(v, n).len() && occupied_upto(v, n)[j].0 == i,
    decreases n,
{
    if n > 0 {
        lemma_occupied_upto(v, n - 1);
        let prev = occupied_upto(v, n - 1);
        let cur = occupied_upto(v, n);
        assert forall|i: int| 0 <= i < n && #[trigger] v[i] is Some implies exists|j: int|
            0 <= j < cur.len() && cur[j].0 == i by {
            if i < n - 1 {
                let j = choose|j: int| 0 <= j < prev.len() && prev[j].0 == i;
                assert(cur[j] == prev[j]);
            } else {
                assert(cur[prev.len() as int].0 == i);
            }
        }
    }
}

/// Every bridged device is polled, and only bridged devices are: a slot is
/// among the polled descriptors exactly when it is occupied.
pub proof fn lemma_every_bridged_device_is_polled(v: Seq<Option<Seq<char>>>, monitor: bool, slot: int)
    requires
        slots_wf(v),
        0 <= slot < MAX_DEVICES,
    ensures
        poll_sources_spec(v, monitor).contains(PollSource::Device(slot as usize)) <==> v[slot] is Some,
{
    lemma_occupied_upto(v, v.len() as int);
    let occ = occupied(v);
    let head = if monitor {
        seq![PollSource::Signal, PollSource::Monitor]
    } else {
        seq![PollSource::Signal]
    };
    let tail = occ.map_values(|a: (usize, Seq<char>)| PollSource::Device(a.0));
    let all = poll_sources_spec(v, monitor);
    assert(all == head + tail);
    if v[slot] is Some {
        let j = choose|j: int| 0 <= j < occ.len() && occ[j].0 == slot;
        assert(all[head.len() + j] == PollSource::Device(slot as usize));
    }
    if all.contains(PollSource::Device(slot as usize)) {
        let k = choose|k: int| 0 <= k < all.len() && all[k] == PollSource::Device(slot as usize);
        assert(k >= head.len());
        let j = k - head.len();
        assert(tail[j] == PollSource::Device(occ[j].0));
        assert(occ[j].0 == slot);
    }
}

/// A descriptor the reactor polls.
#[derive(Clone, Copy, Debug, PartialEq, Eq, Structural)]
pub enum PollSource {
    /// The pipe the signal handler writes to: a request to stop.
    Signal,
    /// The device monitor: devices came or went.
    Monitor,
    /// The bridged device in a slot.
    Device(usize),
}

/// The descriptors one wake-up polls.
pub open spec fn poll_sources_spec(v: Seq<Option<Seq<char>>>, monitor: bool) -> Seq<PollSource> {
    let head = if monitor {
        seq![PollSource::Signal, PollSource::Monitor]
    } else {
        seq![PollSource::Signal]
    };
    head + occupied(v).map_values(|a: (usize, Seq<char>)| PollSource::Device(a.0))
}

/// What a drained device leads to.
#[derive(Clone, Copy, Debug, PartialEq, Eq, Structural)]
pub enum DrainStep {
    /// The device stays.
    Keep,
    /// The device went away: its slot is emptied and it is reported gone.
    Gone,
    /// The drain failed with `code`: the slot is emptied and the error
    /// reported; with `stop` the run ends with `code`.
    Failed { code: i32, stop: bool },
}

/// The step after draining a slot (`None` when the slot was empty): a
/// device that went away or failed leaves its slot, and a failure ends a
/// run that bridges a single device.
pub fn drain_step(outcome: Option<Result<BridgeAction, i32>>, single: bool) -> (r: DrainStep)
    ensures
        r == (match outcome {
            None => DrainStep::Keep,
            Some(Ok(BridgeAction::Continue)) => DrainStep::Keep,
            Some(Ok(BridgeAction::Gone)) => DrainStep::Gone,
            Some(Err(code)) => DrainStep::Failed { code, stop: single },
        }),
{
    match outcome {
        None => DrainStep::Keep,
        Some(Ok(BridgeAction::Continue)) => DrainStep::Keep,
        Some(Ok(BridgeAction::Gone)) => DrainStep::Gone,
        Some(Err(code)) => DrainStep::Failed { code, stop: single },
    }
}

/// How a failed poll ends a wake-up, given the error number it set: an
/// interrupted poll is a wake-up with nothing to do (`Ok(false)`: the run
/// goes on); any other error, `EIO` when there is none, ends the run with
/// its negated code.
pub fn poll_failure(errno: Option<i32>) -> (r: Result<bool, i32>)
    requires
        errno matches Some(e) ==> e > i32::MIN,
    ensures
        errno == Some(EINTR) ==> r == Ok::<bool, i32>(false),
        errno != Some(EINTR) ==> r == Err::<bool, i32>(
            match errno {
                Some(e) => (-e) as i32,
                None => (-EIO) as i32,
            },
        ),
{
    match errno {
        Some(e) => if e == EINTR {
            Ok(false)
        } else {
            Err(-e)
        },
        None => Err(-EIO),
    }
}

/// When the reactor must wake next: at the pointer tick, and, unless it
/// bridges a single device, at the reconcile tick if that comes first.
pub open spec fn wake_deadline(next_pointer: u64, next_reconcile: u64, single: bool) -> u64 {
    if single || next_pointer <= next_reconcile {
        next_pointer
    } else {
        next_reconcile
    }
}

/// The poll timeout at `now`, in whole milliseconds until the next
/// deadline (none when it has passed), at most `i32::MAX`.
pub fn poll_timeout_ms(now: u64, next_pointer: u64, next_reconcile: u64, single: bool) -> (r: i32)
    ensures
        ({
            let d = wake_deadline(next_pointer, next_reconcile, single);
            let ms = if d > now {
                (d - now) / 1_000_000
            } else {
                0
            };
            r == if ms > i32::MAX {
                i32::MAX as int
            } else {
                ms
            }
        }),
{
    let d = if single || next_pointer <= next_reconcile {
        next_pointer
    } else {
        next_reconcile
    };
    let ms: u64 = if d > now {
        (d - now) / 1_000_000
    } else {
        0
    };
    if ms > i32::MAX as u64 {
        i32::MAX
    } else {
        ms as i32
    }
}

/// The next deadline of a periodic tick after `now`: `next` itself while it
/// lies ahead, else the first `next + k * tick` after `now`.
pub fn advance_deadline(next: u64, now: u64, tick: u64) -> (r: u64)
    requires
        tick > 0,
        now + tick <= u64::MAX,
    ensures
        next > now ==> r == next,
        next <= now ==> now < r <= now + tick && (r - next) % (tick as int) == 0,
{
    let mut n = next;
    let ghost mut k: int = 0;
    while n <= now
        invariant
            tick > 0,
            now + tick <= u64::MAX,
            k >= 0,
            n == next + k * tick,
            k > 0 ==> n <= now + tick,
            k == 0 ==> n == next,
            next > now ==> k == 0,
        decreases now + tick - n,
    {
        n = n + tick;
        proof {
            k = k + 1;
            assert(n == next + k * tick) by (nonlinear_arith)
                requires
                    n == next + (k - 1) * tick + tick,
            ;
        }
    }
    proof {
        if next <= now {
            vstd::arithmetic::div_mod::lemma_mod_multiples_basic(k, tick as int);
            assert((n - next) as int == k * (tick as int));
            assert((n - next) % (tick as int) == 0);
        }
    }
    n
}

/// The paths in their order, each path equal to an earlier one left out.
pub open spec fn unique_paths(s: Seq<Seq<char>>) -> Seq<Seq<char>>
    decreases s.len(),
{
    if s.len() == 0 {
        seq![]
    } else {
        let prev = unique_paths(s.drop_last());
        if holds_path(prev, s.last()) {
            prev
        } else {
            prev.push(s.last())
        }
    }
}

/// The paths in their order, each device only once.
pub fn unique(paths: &Vec<String>) -> (r: Vec<String>)
    ensures
        paths_view(r@) == unique_paths(paths_view(paths@)),
        no_duplicates(paths_view(r@)),
{
    let ghost pv = paths_view(paths@);
    let mut out: Vec<String> = Vec::new();
    let mut i: usize = 0;
    assert(paths_view(out@) =~= unique_paths(pv.subrange(0, 0)));
    while i < paths.len()
        invariant
            i <= paths@.len(),
            pv == paths_view(paths@),
            paths_view(out@) == unique_paths(pv.subrange(0, i as int)),
            no_duplicates(paths_view(out@)),
        decreases paths@.len() - i,
    {
        assert(pv.subrange(0, i + 1).drop_last() =~= pv.subrange(0, i as int));
        assert(pv.subrange(0, i + 1).last() == paths@[i as int]@);
        push_unique(&mut out, paths[i].clone());
        i = i + 1;
    }
    assert(pv.subrange(0, paths@.len() as int) =~= pv);
    out
}

/// What a reconcile does: the slots whose device the snapshot no longer
/// holds are emptied, then every snapshot device and every queued device
/// is added (those already bridged are skipped), and the reconcile is
/// reported with the snapshot's device count, the number of queued monitor
/// events and the devices that were bridged before.
pub struct ReconcilePlan {
    pub remove: Vec<usize>,
    pub add: Vec<String>,
    pub report: Lifecycle,
}

/// The reconcile after a snapshot of the present devices and the paths the
/// monitor queued since, both as they were enumerated.
pub fn reconcile_plan(table: &SlotTable, snapshot: &Vec<String>, queued: &Vec<String>) -> (r:
    ReconcilePlan)
    requires
        table.wf(),
    ensures
        r.remove@ == missing_slots_spec(occupied(table@), unique_paths(paths_view(snapshot@))),
        paths_view(r.add@) == unique_paths(paths_view(snapshot@)) + unique_paths(
            paths_view(queued@),
        ),
        r.report matches Lifecycle::Reconcile { snapshot: s, queued: q, active: a } && s
            == unique_paths(paths_view(snapshot@)).len() && q == queued@.len() && a == occupied(
            table@,
        ).len(),
{
    let present = unique(snapshot);
    let active_count = table.active_count();
    let active = table.occupied();
    let remove = missing_slots(&active, &present);
    let mut add = present.clone();
    let later = unique(queued);
    let ghost first = paths_view(add@);
    let mut i: usize = 0;
    assert(present@ == add@);
    while i < later.len()
        invariant
            i <= later@.len(),
            paths_view(add@) == first + paths_view(later@).subrange(0, i as int),
        decreases later@.len() - i,
    {
        let ghost before = add@;
        let p = later[i].clone();
        add.push(p);
        assert(paths_view(add@) =~= paths_view(before).push(later@[i as int]@));
        assert(paths_view(later@).subrange(0, i + 1) =~= paths_view(later@).subrange(0, i as int).push(
            later@[i as int]@,
        ));
        assert(paths_view(add@) =~= first + paths_view(later@).subrange(0, i + 1));
        i = i + 1;
    }
    assert(paths_view(later@).subrange(0, later@.len() as int) =~= paths_view(later@));
    let report = Lifecycle::Reconcile {
        snapshot: present.len(),
        queued: queued.len(),
        active: active_count,
    };
    ReconcilePlan { remove, add, report }
}

} // verus!
