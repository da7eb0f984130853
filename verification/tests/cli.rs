use wiiland::bridge::{dispatch_error_outcome, BridgeAction, MAX_EVENTS_PER_DRAIN};
use wiiland::cli::{
    bool_value, chosen, int_value, parse_choice, parse_pass1, parse_pass2, requested_action, usage, Action,
    ChoiceOption, FlagOption, IntOption, Setting,
};
use wiiland::errno::{EAGAIN, EINVAL, EIO};
use wiiland::uinput::{
    emits_relative, key_value, setup_requests, teardown_requests, write_outcome, VirtualKind,
    UINPUT_PATH, UI_DEV_DESTROY, UI_SET_ABSBIT, UI_SET_EVBIT, UI_SET_KEYBIT, UI_SET_RELBIT,
};

fn args(values: &[&str]) -> Vec<String> {
    values.iter().map(|value| (*value).to_owned()).collect()
}

#[test]
fn first_pass_finds_the_configuration_and_action() {
    let p = parse_pass1(&args(&["-v", "--config=/etc/w.conf", "--list", "-l"])).unwrap();
    assert_eq!(p.config_path.as_deref(), Some("/etc/w.conf"));
    assert!(p.explicit_config && !p.no_config);
    assert_eq!(p.action, Action::List);
    let p = parse_pass1(&args(&["-c", "/a", "--no-config"])).unwrap_err();
    assert_eq!(p.code, EINVAL);
    assert!(!p.usage);
    assert_eq!(p.to_text(), "wiilandd: --no-config cannot be combined with --config");
    let e = parse_pass1(&args(&["--config"])).unwrap_err();
    assert_eq!(e.to_text(), "wiilandd: --config requires a path");
    assert!(e.usage);
    let e = parse_pass1(&args(&["--doctor", "--version"])).unwrap_err();
    assert_eq!(e.to_text(), "wiilandd: conflicting actions: --doctor and --version");
    assert_eq!(parse_pass1(&args(&[])).unwrap().action, Action::Run);
}

#[test]
fn actions_are_exclusive_but_may_repeat() {
    let mut selected = Action::Run;
    assert!(requested_action(&mut selected, Action::Help, "-h").is_ok());
    assert!(requested_action(&mut selected, Action::Help, "--help").is_ok());
    assert!(requested_action(&mut selected, Action::List, "--list").is_err());
    assert_eq!(selected, Action::Help);
    assert_eq!(Action::CalibrateAim.label(), "--calibrate-aim");
    assert!(Action::AxisMap.diagnostic_without_config());
    assert!(!Action::Doctor.diagnostic_without_config());
}

#[test]
fn option_values_are_checked() {
    assert_eq!(int_value("8", 1, 127, "--ir-speed").unwrap(), 8);
    assert_eq!(int_value("0", 1, 127, "--ir-speed").unwrap_err().to_text(), "wiilandd: invalid value for --ir-speed");
    assert_eq!(bool_value("yes", "--aim-invert-x").unwrap(), true);
    assert_eq!(bool_value("0", "--aim-invert-x").unwrap(), false);
    assert!(bool_value("maybe", "--aim-invert-x").is_err());
    let parsed = parse_choice("b", |v: &str| if v == "b" { Some(2u8) } else { None }, "--aim-activation");
    assert_eq!(parsed.unwrap(), 2);
    assert!(parse_choice("q", |_: &str| None::<u8>, "--aim-activation").is_err());
    assert!(usage().starts_with("Usage:\n\twiilandd [OPTIONS]\n"));
}

#[test]
fn virtual_devices_and_their_events() {
    assert_eq!(VirtualKind::Controller.name(), "WiiLand Virtual Controller");
    assert_eq!(VirtualKind::Desktop.name(), "WiiLand Virtual Desktop");
    assert_eq!(UINPUT_PATH, "/dev/uinput");
    assert_eq!((key_value(0), key_value(1), key_value(2), key_value(9)), (0, 1, 2, 2));
    assert!(!emits_relative(0));
    assert!(emits_relative(-3));
    assert_eq!(write_outcome(24, 24), Ok(()));
    assert_eq!(write_outcome(3, 24), Err(-EIO));
}

#[test]
fn an_empty_queue_ends_the_drain() {
    assert_eq!(dispatch_error_outcome(-EAGAIN), Ok(BridgeAction::Continue));
    assert_eq!(dispatch_error_outcome(-19), Err(-19));
    assert_eq!(MAX_EVENTS_PER_DRAIN, 256);
}

#[test]
fn second_pass_collects_settings_in_order() {
    let p = parse_pass2(&args(&[
        "-c",
        "/etc/w.conf",
        "--no-config",
        "--config=/x",
        "-v",
        "--dry-run",
        "--device=2",
        "--pointer-speed",
        "20",
        "--ir-speed=9",
        "--aim-invert-y=yes",
        "--aim-mode",
        "mouse",
        "--profile=both",
        "--backend",
        "uinput",
        "--trace-events=keys",
        "--doctor",
    ]));
    assert!(p.error.is_none());
    assert_eq!(p.action, Action::Doctor);
    assert_eq!(p.device.as_deref(), Some("2"));
    assert!(p.verbose && p.dry_run && p.trace);
    assert_eq!(
        p.settings,
        vec![
            Setting::Int(IntOption::PointerSpeed, 20),
            Setting::Int(IntOption::IrSpeed, 9),
            Setting::Flag(FlagOption::AimInvertY, true),
            Setting::Choice(ChoiceOption::AimMode, "mouse".to_owned()),
            Setting::Choice(ChoiceOption::Profile, "both".to_owned()),
            Setting::BackendUinput,
            Setting::Choice(ChoiceOption::TraceEvents, "keys".to_owned()),
        ]
    );
    let p = parse_pass2(&args(&["--trace-events", "-d", "/sys/x"]));
    assert!(p.trace && p.error.is_none());
    assert_eq!(p.settings, vec![Setting::TraceAll]);
    assert_eq!(p.device.as_deref(), Some("/sys/x"));
    assert_eq!(parse_pass2(&args(&[])).action, Action::Run);
}

#[test]
fn second_pass_stops_at_the_first_malformed_option() {
    let p = parse_pass2(&args(&["--aim-deadzone", "5", "--frobnicate", "--ir-speed=0"]));
    assert_eq!(p.settings, vec![Setting::Int(IntOption::AimDeadzone, 5)]);
    let e = p.error.unwrap();
    assert_eq!((e.code, e.usage), (EINVAL, true));
    assert_eq!(e.to_text(), "wiilandd: unrecognized option '--frobnicate'");
    let e = parse_pass2(&args(&["--ir-speed=0"])).error.unwrap();
    assert_eq!(e.to_text(), "wiilandd: invalid value for --ir-speed");
    let e = parse_pass2(&args(&["--aim-smoothing=96"])).error.unwrap();
    assert_eq!(e.to_text(), "wiilandd: invalid value for --aim-smoothing=96");
    let e = parse_pass2(&args(&["--aim-deadzone"])).error.unwrap();
    assert_eq!(e.to_text(), "wiilandd: --aim-deadzone requires a value");
    let e = parse_pass2(&args(&["--device="])).error.unwrap();
    assert_eq!(e.to_text(), "wiilandd: --device requires a value");
    let e = parse_pass2(&args(&["--backend=evdev"])).error.unwrap();
    assert_eq!(e.to_text(), "wiilandd: invalid value for --backend");
    let e = parse_pass2(&args(&["--aim-invert-x", "maybe"])).error.unwrap();
    assert_eq!(e.to_text(), "wiilandd: invalid value for --aim-invert-x");
    let e = parse_pass2(&args(&["--list", "--self-test"])).error.unwrap();
    assert!(!e.usage);
    assert_eq!(e.to_text(), "wiilandd: conflicting actions: --list and --self-test");
    let p = parse_pass2(&args(&["--config"]));
    assert!(p.error.is_none());
}

#[test]
fn second_pass_refuses_unknown_choices() {
    let p = parse_pass2(&args(&["--ir-speed=4", "--aim-mode", "bogus", "--frobnicate"]));
    assert_eq!(p.settings, vec![Setting::Int(IntOption::IrSpeed, 4)]);
    assert_eq!(p.error.unwrap().to_text(), "wiilandd: invalid value for --aim-mode");
    let e = parse_pass2(&args(&["--profile=all"])).error.unwrap();
    assert_eq!((e.to_text().as_str(), e.usage), ("wiilandd: invalid value for --profile=all", true));
    let e = parse_pass2(&args(&["--trace-events=buttons"])).error.unwrap();
    assert_eq!(e.to_text(), "wiilandd: invalid value for --trace-events");
    let p = parse_pass2(&args(&[
        "-p", "desktop", "--ir-tracking=centroid", "--ir-aim-mapping", "absolute",
        "--aim-source=motion-plus", "--aim-activation", "z", "--aim-mode=right-stick",
    ]));
    assert!(p.error.is_none());
    assert_eq!(p.settings.len(), 6);
    assert_eq!(p.settings[0], Setting::Choice(ChoiceOption::Profile, "desktop".to_owned()));
    assert_eq!(p.settings[5], Setting::Choice(ChoiceOption::AimMode, "right-stick".to_owned()));
}

#[test]
fn virtual_devices_are_configured_in_order() {
    assert_eq!(
        setup_requests(&vec![0x130, 0x131], &vec![0, 1], &vec![]),
        vec![
            (UI_SET_EVBIT, 1),
            (UI_SET_KEYBIT, 0x130),
            (UI_SET_KEYBIT, 0x131),
            (UI_SET_EVBIT, 3),
            (UI_SET_ABSBIT, 0),
            (UI_SET_ABSBIT, 1),
        ]
    );
    assert_eq!(
        setup_requests(&vec![0x110], &vec![], &vec![0, 1]),
        vec![(UI_SET_EVBIT, 1), (UI_SET_KEYBIT, 0x110), (UI_SET_EVBIT, 2), (UI_SET_RELBIT, 0), (UI_SET_RELBIT, 1)]
    );
    assert_eq!(setup_requests(&vec![], &vec![], &vec![]), vec![(UI_SET_EVBIT, 1)]);
    assert_eq!(UI_SET_EVBIT, 0x4004_5564);
    assert_eq!(teardown_requests(true), vec![(UI_DEV_DESTROY, 0)]);
    assert!(teardown_requests(false).is_empty());
}

#[test]
fn the_last_choice_on_the_command_line_wins() {
    let p = parse_pass2(&args(&["--aim-mode", "mouse", "-v", "--aim-mode=off", "--profile", "both"]));
    assert_eq!(chosen(&p.settings, ChoiceOption::AimMode).as_deref(), Some("off"));
    assert_eq!(chosen(&p.settings, ChoiceOption::Profile).as_deref(), Some("both"));
    assert_eq!(chosen(&p.settings, ChoiceOption::AimSource), None);
}
