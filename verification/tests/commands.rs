use std::cell::RefCell;
use wiiland::commands::{
    access_state, calibration_dispatch_failure, calibration_interfaces, calibration_opened,
    calibration_outcome, calibration_prompt, display_server, path_state, resolve_device_arg, resolve_run_device_with,
    runtime_error, wayland_path, x11_path, xwayland, user_config_path, CommandError, PathProbe,
};
use wiiland::errno::{EAGAIN, ENODEV};

#[test]
fn normal_run_resolves_numeric_device_before_runtime() {
    let selector = RefCell::new(None);
    let resolved = resolve_run_device_with(Some("2"), |arg: &str| {
        *selector.borrow_mut() = Some(arg.to_owned());
        Some("/sys/devices/second".to_owned())
    })
    .unwrap();

    assert_eq!(selector.borrow().as_deref(), Some("2"));
    assert_eq!(resolved.as_deref(), Some("/sys/devices/second"));

    let error = resolve_run_device_with(Some("9"), |_: &str| None).unwrap_err();
    assert_eq!(error.code(), ENODEV);
    assert!(error.to_text().contains("cannot resolve device"));
    assert_eq!(resolve_run_device_with(None, |_: &str| None).unwrap(), None);
}

#[test]
fn numeric_device_resolution_uses_one_based_enumeration() {
    let devices = vec![
        "/sys/devices/first".to_owned(),
        "/sys/devices/second".to_owned(),
    ];

    assert_eq!(
        resolve_device_arg("2", &devices).as_deref(),
        Some("/sys/devices/second")
    );
}

#[test]
fn device_arguments_outside_the_enumeration_resolve_to_nothing() {
    let devices = vec!["/sys/devices/first".to_owned()];
    assert_eq!(resolve_device_arg("0", &devices), None);
    assert_eq!(resolve_device_arg("2", &devices), None);
    assert_eq!(resolve_device_arg("one", &devices), None);
    assert_eq!(resolve_device_arg("+1", &devices).as_deref(), Some("/sys/devices/first"));
    assert_eq!(resolve_device_arg("/sys/x", &devices).as_deref(), Some("/sys/x"));
}

#[test]
fn runtime_errors_exit_with_the_magnitude() {
    let e = runtime_error(-19);
    assert_eq!(e.code(), 19);
    assert_eq!(e.to_text(), "wiilandd: runtime failed: -19");
    assert_eq!(runtime_error(i32::MIN).code(), i32::MIN);
    let c = CommandError::new(22, "bad");
    assert_eq!((c.code(), c.to_text().as_str()), (22, "bad"));
}

#[test]
fn session_socket_paths() {
    assert_eq!(wayland_path(Some("wayland-0"), Some("/run/user/1000")).as_deref(), Some("/run/user/1000/wayland-0"));
    assert_eq!(wayland_path(Some("/tmp/w"), None).as_deref(), Some("/tmp/w"));
    assert_eq!(wayland_path(Some("wayland-0"), None), None);
    assert_eq!(wayland_path(None, Some("/run")), None);
    assert_eq!(x11_path(Some(":0"), None).as_deref(), Some("/tmp/.X11-unix/X0"));
    assert_eq!(x11_path(Some("unix:1.0"), None).as_deref(), Some("/tmp/.X11-unix/X1"));
    assert_eq!(x11_path(Some("box:2"), Some("box")).as_deref(), Some("/tmp/.X11-unix/X2"));
    assert_eq!(x11_path(Some("other:2"), Some("box")), None);
    assert_eq!(x11_path(Some(":x"), None), None);
    assert_eq!(x11_path(Some("nodisplay"), None), None);
}

#[test]
fn display_server_and_xwayland_answers() {
    assert_eq!(display_server(Some("x11"), true, true), "x11");
    assert_eq!(display_server(Some("tty"), true, false), "wayland");
    assert_eq!(display_server(None, false, true), "x11");
    assert_eq!(display_server(None, false, false), "headless");
    assert_eq!(xwayland("x11", true, true, true), "not-applicable");
    assert_eq!(xwayland("wayland", false, false, false), "no");
    assert_eq!(xwayland("wayland", true, false, false), "unknown");
    assert_eq!(xwayland("wayland", true, true, true), "yes");
    assert_eq!(xwayland("wayland", true, true, false), "no");
}

#[test]
fn user_configuration_follows_the_xdg_rules() {
    assert_eq!(user_config_path(Some("/cfg"), Some("/home/u")).as_deref(), Some("/cfg/wiiland/wiilandd.conf"));
    assert_eq!(user_config_path(Some("rel"), Some("/home/u")).as_deref(), Some("/home/u/.config/wiiland/wiilandd.conf"));
    assert_eq!(user_config_path(None, Some("home")), None);
    assert_eq!(user_config_path(None, None), None);
}

#[test]
fn doctor_path_and_access_states() {
    assert_eq!(path_state(None, 0), "unknown");
    assert_eq!(path_state(Some(PathProbe::Present { socket: true }), 0), "yes");
    assert_eq!(path_state(Some(PathProbe::Present { socket: true }), 1), "socket");
    assert_eq!(path_state(Some(PathProbe::Present { socket: false }), 1), "other");
    assert_eq!(path_state(Some(PathProbe::Missing), 0), "no");
    assert_eq!(path_state(Some(PathProbe::Missing), 1), "missing");
    assert_eq!(path_state(Some(PathProbe::Failed), 0), "unknown");
    assert_eq!(access_state(Some(true)), "yes");
    assert_eq!(access_state(Some(false)), "no");
    assert_eq!(access_state(None), "unknown");
}

#[test]
fn calibration_needs_an_accelerometer_or_motion_plus() {
    assert_eq!(calibration_interfaces(0x0007).unwrap(), 0x0002);
    assert_eq!(calibration_interfaces(0x0303).unwrap(), 0x0102);
    let e = calibration_interfaces(0x0001).unwrap_err();
    assert_eq!(e.code(), ENODEV);
    assert_eq!(e.to_text(), "wiilandd: calibration device has no accelerometer or MotionPlus");
    assert_eq!(calibration_opened(0x0103, 0x0102).unwrap(), 0x0102);
    let e = calibration_opened(0x0001, 0x0102).unwrap_err();
    assert_eq!((e.code(), e.to_text().as_str()), (ENODEV, "wiilandd: cannot open calibration interfaces"));
    assert!(calibration_outcome(true, false).is_ok());
    assert!(calibration_outcome(false, true).is_ok());
    let e = calibration_outcome(false, false).unwrap_err();
    assert_eq!(e.code(), EAGAIN);
    assert!(e.to_text().starts_with("wiilandd: calibration failed: keep the Wii Remote flat"));
    assert!(calibration_dispatch_failure("/sys/w", -EAGAIN).is_none());
    let e = calibration_dispatch_failure("/sys/w", -19).unwrap();
    assert_eq!(e.code(), 19);
    assert_eq!(e.to_text(), "wiilandd: calibration dispatch failed for /sys/w: -19");
    assert_eq!(
        calibration_prompt(3),
        "wiilandd: place the Wii Remote face down, buttons against a flat stable surface, and keep it still for 3 seconds"
    );
}
