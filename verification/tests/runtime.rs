use wiiland::runtime::{missing_slots, outputs_enabled, push_unique, Diagnostics, Lifecycle, MAX_DEVICES};

#[test]
fn empty_event_queue_does_not_remove_snapshot_devices() {
    let path = "/sys/devices/wiimote0".to_owned();
    let present = vec![path.clone()];
    let active = vec![(0usize, path.clone())];

    assert!(missing_slots(&active, &present).is_empty());
}

#[test]
fn snapshot_removals_and_queued_additions_reconcile_independently() {
    let retained = "/sys/devices/wiimote0".to_owned();
    let removed = "/sys/devices/wiimote1".to_owned();
    let snapshot_add = "/sys/devices/wiimote2".to_owned();
    let queued_add = "/sys/devices/wiimote3".to_owned();
    let snapshot = vec![retained.clone(), snapshot_add.clone()];
    let mut queued = Vec::new();

    assert!(push_unique(&mut queued, queued_add.clone()));
    assert!(!push_unique(&mut queued, queued_add.clone()));

    let active = vec![(0usize, retained.clone()), (1usize, removed.clone())];
    assert_eq!(missing_slots(&active, &snapshot), vec![1]);
    assert_eq!(snapshot, vec![retained, snapshot_add]);
    assert_eq!(queued, vec![queued_add]);
}

#[test]
fn dry_run_disables_bridge_outputs() {
    assert!(outputs_enabled(false));
    assert!(!outputs_enabled(true));
}

#[test]
fn lifecycle_diagnostics_are_quiet_unless_verbose_and_deterministic() {
    let mut lines = Vec::<String>::new();
    let mut diagnostics = Diagnostics { enabled: false };
    let path = "/sys/devices/wiimote0".to_owned();

    if let Some(line) = diagnostics.emit(&Lifecycle::Add(path.clone())) {
        lines.push(line);
    }
    assert!(lines.is_empty());

    diagnostics.enabled = true;
    for event in [
        Lifecycle::Add(path.clone()),
        Lifecycle::Remove(path.clone()),
        Lifecycle::Gone(path.clone()),
        Lifecycle::Reconcile { snapshot: 2, queued: 1, active: 1 },
        Lifecycle::Error { operation: "drain", path: Some(path.clone()), code: -5 },
        Lifecycle::Error { operation: "monitor", path: None, code: -12 },
    ] {
        if let Some(line) = diagnostics.emit(&event) {
            lines.push(line);
        }
    }

    assert_eq!(
        lines,
        [
            "wiilandd: add: /sys/devices/wiimote0",
            "wiilandd: remove: /sys/devices/wiimote0",
            "wiilandd: gone: /sys/devices/wiimote0",
            "wiilandd: reconcile: snapshot=2 queued=1 active=1",
            "wiilandd: error: drain /sys/devices/wiimote0: -5",
            "wiilandd: error: monitor: -12",
        ]
    );
}

#[test]
fn every_absent_slot_is_dropped_in_order() {
    let active = vec![(3usize, "/a".to_owned()), (0usize, "/b".to_owned()), (7usize, "/c".to_owned())];
    let present = vec!["/b".to_owned()];
    assert_eq!(missing_slots(&active, &present), vec![3, 7]);
    assert_eq!(MAX_DEVICES, 32);
}

#[test]
fn device_paths_are_compared_as_paths() {
    let active = vec![(0usize, "/sys/devices/wiimote0/".to_owned()), (1usize, "/sys/devices//wiimote1".to_owned())];
    let present = vec!["/sys/devices/wiimote0".to_owned(), "/sys/devices/wiimote2".to_owned()];
    assert_eq!(missing_slots(&active, &present), vec![1]);
    let mut queued = vec!["/sys/devices/wiimote0".to_owned()];
    assert!(!push_unique(&mut queued, "/sys/devices/./wiimote0/".to_owned()));
    assert!(push_unique(&mut queued, "sys/devices/wiimote0".to_owned()));
    assert_eq!(queued.len(), 2);
}
