use wiiland::report::{
    append_optional_output, civil_from_days, display_command, list_row, manual, parse_args,
    report_device_syspath, report_malformed_row, run_required, timestamp, usage, ArgError,
    ListRow, ReportEnvironment, bluetooth_controllers, finish_report, report_selected_lines,
    trace_args, ReportEnd, compositor_variables, session_variables, variable_line, xauthority_lines,
};

#[test]
fn help_is_not_forwarded_when_first_argument_is_help() {
    let args = vec!["--help".to_owned()];
    let parsed = parse_args(&args).expect("help should parse");
    assert_eq!(parsed.device, None);
    assert_eq!(parsed.extra, vec!["--help"]);
}

#[test]
fn scanner_matches_conflict_contract() {
    let args = vec!["4".to_owned(), "--profile".to_owned(), "both".to_owned()];
    assert_eq!(
        parse_args(&args),
        Err(ArgError::Conflicting("--profile".to_owned()))
    );

    let args = vec![
        "4".to_owned(),
        "--trace-events=ir".to_owned(),
        "--trace-events=axes".to_owned(),
    ];
    assert_eq!(parse_args(&args), Err(ArgError::MultipleTraceSelectors));
}

#[test]
fn value_options_are_forwarded_without_scanning_their_value() {
    let args = vec![
        "4".to_owned(),
        "--config".to_owned(),
        "--device-name-that-is-not-a-report-option".to_owned(),
        "--trace-events=motion-plus".to_owned(),
    ];
    let parsed = parse_args(&args).expect("valid trace arguments");
    assert_eq!(
        parsed.extra[0..2],
        ["--config", "--device-name-that-is-not-a-report-option"]
    );
    assert_eq!(parsed.trace_selectors, 1);
}

#[test]
fn scanner_preserves_trace_order_and_consumes_values() {
    let args: Vec<String> = vec![
        "7".into(),
        "--config".into(),
        "x".into(),
        "--trace-events=ir".into(),
    ];
    let parsed = parse_args(&args).unwrap();
    assert_eq!(parsed.device.as_deref(), Some("7"));
    assert_eq!(parsed.extra, vec!["--config", "x", "--trace-events=ir"]);
    assert_eq!(parsed.trace_selectors, 1);
}

#[test]
fn scanner_rejects_conflicts_and_multiple_selectors() {
    for alias in ["-p", "--profile", "-n", "--dry-run"] {
        let args: Vec<String> = vec!["7".into(), alias.into()];
        assert_eq!(
            parse_args(&args),
            Err(ArgError::Conflicting(alias.into())),
            "{alias}"
        );
    }
    let args: Vec<String> = vec!["7".into(), "--device".into()];
    assert_eq!(
        parse_args(&args),
        Err(ArgError::Conflicting("--device".into()))
    );
    let args: Vec<String> = vec![
        "7".into(),
        "--trace-events=ir".into(),
        "--trace-events=axes".into(),
    ];
    assert_eq!(parse_args(&args), Err(ArgError::MultipleTraceSelectors));
}

#[test]
fn captured_optional_output_stays_in_schema_order() {
    let mut report = "$ optional: bluetoothctl show AA:BB\n".to_owned();

    assert!(append_optional_output(
        &mut report,
        "bluetoothctl show AA:BB",
        "Controller details\n",
        true
    ));
    report.push_str("optional.next=value\n");

    assert_eq!(
        report,
        "$ optional: bluetoothctl show AA:BB\nController details\noptional.next=value\n"
    );
}

#[test]
fn failed_optional_output_is_noted_after_its_text() {
    let mut report = String::new();
    assert!(!append_optional_output(&mut report, "lsusb", "partial\n", false));
    assert_eq!(report, "partial\noptional failed: lsusb\n");
}

#[test]
fn arg_errors_display_their_messages() {
    assert_eq!(
        ArgError::Conflicting("-n".to_owned()).to_text(),
        "conflicting trace argument: -n"
    );
    assert_eq!(
        ArgError::MultipleTraceSelectors.to_text(),
        "exactly one trace selector is allowed"
    );
}

#[test]
fn command_lines_are_shown_with_their_arguments() {
    let mut out = String::new();
    display_command(&mut out, "$", "wiilandd", &["--list".to_owned(), "-v".to_owned()]);
    assert_eq!(out, "$ wiilandd --list -v\n");
}

#[test]
fn required_failures_are_numbered() {
    let mut out = String::new();
    let mut failures = 0usize;
    run_required(&mut out, &mut failures, true, "list");
    assert_eq!((out.as_str(), failures), ("", 0));
    run_required(&mut out, &mut failures, false, "list");
    run_required(&mut out, &mut failures, false, "trace");
    assert_eq!(failures, 2);
    assert_eq!(out, "core.failure.1=wiilandd.list\ncore.failure.2=wiilandd.trace\n");
}

#[test]
fn civil_dates_follow_the_proleptic_gregorian_calendar() {
    assert_eq!(civil_from_days(0), (1970, 1, 1));
    assert_eq!(civil_from_days(-1), (1969, 12, 31));
    assert_eq!(civil_from_days(59), (1970, 3, 1));
    assert_eq!(civil_from_days(11016), (2000, 2, 29));
    assert_eq!(civil_from_days(19723), (2024, 1, 1));
}

#[test]
fn timestamps_are_utc_iso_8601() {
    assert_eq!(timestamp(0), "1970-01-01T00:00:00Z");
    assert_eq!(timestamp(951_782_400 + 3_661), "2000-02-29T01:01:01Z");
    assert_eq!(timestamp(1_704_067_199), "2023-12-31T23:59:59Z");
}

#[test]
fn the_usage_names_the_selector() {
    assert!(usage().starts_with("Usage:\n  wiilandd-hardware-report\n"));
}

#[test]
fn manual_section_lists_the_validation_items() {
    let mut out = String::new();
    manual(&mut out);
    assert!(out.starts_with("\n== manual-validation ==\nmanual.sdl=TODO"));
    assert!(out.ends_with("manual.notes=TODO: record pass/fail details, game/app names, display server, and deviations\n"));
}

#[test]
fn device_list_rows_are_classified() {
    assert!(matches!(list_row("   \t"), ListRow::Skip));
    assert!(matches!(list_row("No Wii Remote devices found"), ListRow::Skip));
    match list_row("1\t/sys/devices/wiimote0") {
        ListRow::Device { index, syspath } => {
            assert_eq!(index, "1");
            assert_eq!(syspath, "/sys/devices/wiimote0");
        }
        _ => panic!("expected a device row"),
    }
    match list_row("x /sys/a") {
        ListRow::Malformed { reason, index, syspath, extra } => {
            assert_eq!((reason, index.as_str(), syspath.as_str(), extra.as_str()), ("invalid-index", "x", "/sys/a", ""));
        }
        _ => panic!("expected a malformed row"),
    }
    match list_row("2") {
        ListRow::Malformed { reason, .. } => assert_eq!(reason, "missing-syspath"),
        _ => panic!("expected a malformed row"),
    }
    match list_row("3 /sys/b  devtype=gen10   ext") {
        ListRow::Malformed { reason, extra, .. } => {
            assert_eq!(reason, "extra-fields");
            assert_eq!(extra, "devtype=gen10 ext");
        }
        _ => panic!("expected a malformed row"),
    }
}

#[test]
fn malformed_rows_are_reported_and_counted() {
    let mut out = String::new();
    let mut failures = 1usize;
    report_malformed_row(&mut out, &mut failures, 3, "extra-fields", "3", "/sys/b", "x y");
    assert_eq!(failures, 2);
    assert_eq!(
        out,
        "device-list.row.3.malformed=extra-fields\ndevice-list.row.3.parsed=3|/sys/b|x y\ncore.failure.2=wiilandd.list.malformed-row.3\n"
    );
    let mut head = String::new();
    report_device_syspath(&mut head, "1", "/sys/devices/wiimote0");
    assert_eq!(head, "device.1.syspath=/sys/devices/wiimote0\n");
}

#[test]
fn report_environment_falls_back_to_defaults() {
    let env = ReportEnvironment::from_values(None, None, Some("/work".to_owned()), None, None, None);
    assert_eq!(env.wiilandd, "wiilandd");
    assert_eq!(env.repo_dir, "/work");
    assert_eq!(env.module_dir, "/sys/module/hid_wiimote");
    assert_eq!(env.os_release, "/etc/os-release");
    assert_eq!(env.tmp_dir, "/tmp");
    let set = ReportEnvironment::from_values(
        Some("/opt/wiilandd".to_owned()),
        Some("/repo".to_owned()),
        Some("/work".to_owned()),
        Some("/mod".to_owned()),
        Some("/os".to_owned()),
        Some("/t".to_owned()),
    );
    assert_eq!(
        (set.wiilandd.as_str(), set.repo_dir.as_str(), set.module_dir.as_str(), set.os_release.as_str(), set.tmp_dir.as_str()),
        ("/opt/wiilandd", "/repo", "/mod", "/os", "/t")
    );
    assert_eq!(ReportEnvironment::from_values(None, None, None, None, None, None).repo_dir, ".");
}

#[test]
fn selected_lines_keep_only_the_listed_keys() {
    let mut out = String::new();
    report_selected_lines(
        &mut out,
        "os-release",
        "NAME=Arch\nBUILD_ID=rolling\nID=arch\r\n",
        &["NAME=", "PRETTY_NAME=", "ID=", "VERSION_ID=", "VERSION_CODENAME="],
    );
    assert_eq!(out, "os-release.NAME=Arch\nos-release.ID=arch\n");
}

#[test]
fn bluetooth_controllers_are_the_listed_addresses() {
    let listing = "Controller AA:BB:CC:DD:EE:FF host [default]\nDevice 11:22\nController\n  Controller 00:11 second\n";
    assert_eq!(bluetooth_controllers(listing), vec!["AA:BB:CC:DD:EE:FF", "00:11"]);
}

#[test]
fn live_trace_arguments() {
    let parsed = parse_args(&["4".to_owned(), "--config".to_owned(), "x".to_owned()]).unwrap();
    assert_eq!(
        trace_args(&parsed, "4"),
        vec!["--dry-run", "--trace-events", "--verbose", "--device", "4", "--profile", "both", "--config", "x"]
    );
    let focused = parse_args(&["4".to_owned(), "--trace-events=ir".to_owned()]).unwrap();
    assert_eq!(
        trace_args(&focused, "4"),
        vec!["--dry-run", "--verbose", "--device", "4", "--profile", "both", "--trace-events=ir"]
    );
}

#[test]
fn the_result_section_decides_how_the_report_ends() {
    let mut out = String::new();
    assert_eq!(finish_report(&mut out, 2, Some("4"), "wiilandd"), ReportEnd::Failed);
    assert_eq!(out, "\n== result ==\nreport.core-failures=2\nreport.status=failed\n");
    let mut out = String::new();
    assert_eq!(finish_report(&mut out, 0, Some("4"), "wiilandd"), ReportEnd::Trace);
    assert_eq!(out, "\n== result ==\nreport.core-failures=0\nreport.status=ok\n\n== trace ==\nTracing 4. Stop with Ctrl-C after exercising the hardware matrix.\n");
    let mut out = String::new();
    assert_eq!(finish_report(&mut out, 0, None, "/bin/w"), ReportEnd::Complete);
    assert!(out.contains("  WIILANDD=/bin/w wiilandd-hardware-report <number-or-/sys/path> --trace-events=ir\n"));
    assert!(out.ends_with("Stop with Ctrl-C.\n"));
}

#[test]
fn session_variables_and_xauthority_lines() {
    assert_eq!(session_variables().len(), 8);
    assert_eq!(session_variables()[0], "XDG_CURRENT_DESKTOP");
    assert_eq!(session_variables()[7], "DISPLAY");
    assert_eq!(compositor_variables(), vec!["SWAYSOCK", "HYPRLAND_INSTANCE_SIGNATURE"]);
    assert_eq!(variable_line("DISPLAY", Some(":0")), "DISPLAY=:0\n");
    assert_eq!(variable_line("GDMSESSION", None), "GDMSESSION=\n");
    assert_eq!(xauthority_lines(None), "XAUTHORITY.set=no\nXAUTHORITY.readable=no\n");
    assert_eq!(xauthority_lines(Some(true)), "XAUTHORITY.set=yes\nXAUTHORITY.readable=yes\n");
    assert_eq!(xauthority_lines(Some(false)), "XAUTHORITY.set=yes\nXAUTHORITY.readable=no\n");
}
