use wiiland::bridge::BridgeAction;
use wiiland::errno::{EINTR, EIO, ENOSPC};
use wiiland::reactor::{
    advance_deadline, drain_step, poll_failure, poll_timeout_ms, reconcile_plan, unique, DrainStep,
    PollSource, SlotTable, POINTER_TICK_NS, RECONCILE_TICK_NS,
};
use wiiland::runtime::{Lifecycle, MAX_DEVICES};

#[test]
fn devices_take_the_first_free_slot_once() {
    let mut table = SlotTable::new();
    assert!(table.is_empty());
    assert_eq!(table.plan_add("/sys/a"), Ok(Some(0)));
    table.insert(0, "/sys/a".to_owned());
    assert_eq!(table.plan_add("/sys/a"), Ok(None));
    assert_eq!(table.find("/sys/a"), Some(0));
    assert_eq!(table.plan_add("/sys/b"), Ok(Some(1)));
    table.insert(1, "/sys/b".to_owned());
    assert_eq!(table.remove(0).as_deref(), Some("/sys/a"));
    assert_eq!(table.find("/sys/a"), None);
    assert_eq!(table.free_slot(), Some(0));
    assert_eq!(table.occupied(), vec![(1, "/sys/b".to_owned())]);
    assert_eq!(table.active_count(), 1);
    assert!(!table.is_empty());
    assert_eq!(table.remove(5), None);
}

#[test]
fn a_full_table_refuses_new_devices() {
    let mut table = SlotTable::new();
    for slot in 0..MAX_DEVICES {
        let path = format!("/sys/devices/wiimote{slot}");
        assert_eq!(table.plan_add(&path), Ok(Some(slot)));
        table.insert(slot, path);
    }
    assert_eq!(table.active_count(), MAX_DEVICES);
    assert_eq!(table.free_slot(), None);
    assert_eq!(table.plan_add("/sys/devices/wiimote99"), Err(-ENOSPC));
    assert_eq!(table.plan_add("/sys/devices/wiimote3"), Ok(None));
}

#[test]
fn a_wake_up_polls_the_signal_the_monitor_and_each_device() {
    let mut table = SlotTable::new();
    table.insert(2, "/sys/c".to_owned());
    table.insert(7, "/sys/d".to_owned());
    assert_eq!(
        table.poll_sources(true),
        vec![PollSource::Signal, PollSource::Monitor, PollSource::Device(2), PollSource::Device(7)]
    );
    assert_eq!(
        table.poll_sources(false),
        vec![PollSource::Signal, PollSource::Device(2), PollSource::Device(7)]
    );
}

#[test]
fn drained_devices_stay_leave_or_end_a_single_run() {
    assert_eq!(drain_step(None, true), DrainStep::Keep);
    assert_eq!(drain_step(Some(Ok(BridgeAction::Continue)), true), DrainStep::Keep);
    assert_eq!(drain_step(Some(Ok(BridgeAction::Gone)), false), DrainStep::Gone);
    assert_eq!(drain_step(Some(Err(-19)), false), DrainStep::Failed { code: -19, stop: false });
    assert_eq!(drain_step(Some(Err(-5)), true), DrainStep::Failed { code: -5, stop: true });
}

#[test]
fn interrupted_polls_go_on_and_other_failures_end_the_run() {
    assert_eq!(poll_failure(Some(EINTR)), Ok(false));
    assert_eq!(poll_failure(Some(9)), Err(-9));
    assert_eq!(poll_failure(None), Err(-EIO));
}

#[test]
fn wake_ups_follow_the_nearest_tick() {
    assert_eq!(POINTER_TICK_NS, 16_000_000);
    assert_eq!(RECONCILE_TICK_NS, 1_000_000_000);
    assert_eq!(poll_timeout_ms(0, 16_000_000, 1_000_000_000, false), 16);
    assert_eq!(poll_timeout_ms(0, 2_000_000_000, 1_000_000_000, false), 1_000);
    assert_eq!(poll_timeout_ms(0, 2_000_000_000, 1_000_000_000, true), 2_000);
    assert_eq!(poll_timeout_ms(5_000_000, 5_999_999, 9_000_000, false), 0);
    assert_eq!(poll_timeout_ms(9, 3, 9, false), 0);
    assert_eq!(poll_timeout_ms(0, u64::MAX, u64::MAX, true), i32::MAX);

    assert_eq!(advance_deadline(100, 50, 16), 100);
    assert_eq!(advance_deadline(100, 100, 16), 116);
    assert_eq!(advance_deadline(100, 150, 16), 164);
    assert_eq!(advance_deadline(0, 1_000, 1_000), 2_000);
}

fn strings(values: &[&str]) -> Vec<String> {
    values.iter().map(|v| (*v).to_owned()).collect()
}

#[test]
fn reconcile_drops_vanished_devices_and_adds_the_rest() {
    assert_eq!(unique(&strings(&["/a", "/b", "/a", "/c", "/b"])), strings(&["/a", "/b", "/c"]));
    let mut table = SlotTable::new();
    table.insert(0, "/sys/kept".to_owned());
    table.insert(3, "/sys/vanished".to_owned());
    let plan = reconcile_plan(
        &table,
        &strings(&["/sys/kept", "/sys/new", "/sys/kept"]),
        &strings(&["/sys/queued", "/sys/queued", "/sys/new"]),
    );
    assert_eq!(plan.remove, vec![3]);
    assert_eq!(plan.add, strings(&["/sys/kept", "/sys/new", "/sys/queued", "/sys/new"]));
    assert_eq!(
        plan.report.to_text(),
        "wiilandd: reconcile: snapshot=2 queued=3 active=2"
    );
    assert!(matches!(plan.report, Lifecycle::Reconcile { snapshot: 2, queued: 3, active: 2 }));
}

#[test]
fn the_slot_table_compares_paths_by_components() {
    let mut table = SlotTable::new();
    table.insert(0, "/sys/devices/wiimote0".to_owned());
    assert_eq!(table.find("/sys/devices/wiimote0/"), Some(0));
    assert_eq!(table.plan_add("/sys//devices/wiimote0"), Ok(None));
    assert_eq!(table.plan_add("/sys/devices/wiimote1"), Ok(Some(1)));
    assert_eq!(unique(&strings(&["/a/b", "/a/b/", "/a"])), strings(&["/a/b", "/a"]));
}
