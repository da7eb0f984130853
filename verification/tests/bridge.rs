use wiiland::abi::{
    XWII_IFACE_ACCEL, XWII_IFACE_ALL, XWII_IFACE_CORE, XWII_IFACE_IR, XWII_IFACE_MOTION_PLUS,
    XWII_IFACE_NUNCHUK,
};
use wiiland::abi::{
    XWII_EVENT_ACCEL, XWII_EVENT_BALANCE_BOARD, XWII_EVENT_DRUMS_KEY, XWII_EVENT_GONE,
    XWII_EVENT_IR, XWII_EVENT_KEY, XWII_EVENT_MOTION_PLUS, XWII_EVENT_NUM, XWII_EVENT_NUNCHUK_MOVE,
    XWII_EVENT_WATCH, XWII_KEY_A, XWII_KEY_C, XWII_KEY_DOWN, XWII_KEY_LEFT, XWII_KEY_TWO,
};
use wiiland::bridge::{
    desktop_button, desktop_key_code, feeds_aim, has_desktop_profile, monotonic_us, needs_desktop,
    needs_gamepad, opened_interfaces, output_plan, pointer_direction, requested_interfaces,
    retry_outcome, route_event, stick_value, watch_update, AimActivation, AimMode, AimSettings,
    AimSource, DesktopAction, DesktopButton, EventRoute, MotionSource, PointerDirection, Profile,
};
use wiiland::errno::ENODEV;

const GAMEPAD: Profile = Profile { gamepad: true, desktop: false };
const DESKTOP: Profile = Profile { gamepad: false, desktop: true };
const BOTH: Profile = Profile { gamepad: true, desktop: true };

fn aim(mode: AimMode, source: AimSource, activation: AimActivation) -> AimSettings {
    AimSettings { mode, source, activation }
}

#[test]
fn requested_interfaces_include_nunchuk_for_z_and_c_activation() {
    for activation in [AimActivation::Z, AimActivation::C] {
        let settings = aim(AimMode::Mouse, AimSource::Accelerometer, activation);
        assert_ne!(requested_interfaces(DESKTOP, settings) & XWII_IFACE_NUNCHUK, 0);
    }

    let settings = aim(AimMode::Mouse, AimSource::Accelerometer, AimActivation::B);
    assert_eq!(requested_interfaces(DESKTOP, settings) & XWII_IFACE_NUNCHUK, 0);
}

#[test]
fn gamepad_forwarding_predicate_includes_right_stick_aim_output() {
    let settings = aim(AimMode::RightStick, AimSource::Auto, AimActivation::Always);
    assert!(needs_gamepad(DESKTOP, settings));
    assert!(!DESKTOP.gamepad);
}

#[test]
fn desktop_pointer_controls_require_the_desktop_profile_not_only_an_aim_output() {
    let settings = aim(AimMode::Mouse, AimSource::Auto, AimActivation::Always);
    assert!(needs_desktop(GAMEPAD, settings));
    assert!(!has_desktop_profile(GAMEPAD));
}

#[test]
fn requested_interfaces_exact_masks() {
    let off = aim(AimMode::Off, AimSource::Auto, AimActivation::Z);
    assert_eq!(requested_interfaces(GAMEPAD, off), XWII_IFACE_ALL & !XWII_IFACE_IR);
    assert_eq!(requested_interfaces(GAMEPAD, off), 0x007f03);
    assert_eq!(requested_interfaces(DESKTOP, off), XWII_IFACE_CORE | XWII_IFACE_IR);
    assert_eq!(requested_interfaces(BOTH, off), XWII_IFACE_ALL);
    assert_eq!(requested_interfaces(Profile { gamepad: false, desktop: false }, off), 0);

    let auto = aim(AimMode::Mouse, AimSource::Auto, AimActivation::Always);
    assert_eq!(
        requested_interfaces(DESKTOP, auto),
        XWII_IFACE_CORE | XWII_IFACE_IR | XWII_IFACE_MOTION_PLUS | XWII_IFACE_ACCEL
    );
    let mp = aim(AimMode::RightStick, AimSource::MotionPlus, AimActivation::C);
    assert_eq!(
        requested_interfaces(Profile { gamepad: false, desktop: false }, mp),
        XWII_IFACE_MOTION_PLUS | XWII_IFACE_NUNCHUK
    );
    let ir = aim(AimMode::Mouse, AimSource::Ir, AimActivation::B);
    assert_eq!(
        requested_interfaces(Profile { gamepad: false, desktop: false }, ir),
        XWII_IFACE_IR
    );
}

#[test]
fn output_plan_follows_profile_aim_and_dry_run() {
    let off = aim(AimMode::Off, AimSource::Auto, AimActivation::Always);
    assert_eq!(output_plan(GAMEPAD, off, true), (true, false));
    assert_eq!(output_plan(DESKTOP, off, true), (false, true));
    assert_eq!(output_plan(BOTH, off, true), (true, true));
    assert_eq!(output_plan(BOTH, off, false), (false, false));
    let mouse = aim(AimMode::Mouse, AimSource::Auto, AimActivation::Always);
    assert_eq!(output_plan(GAMEPAD, mouse, true), (true, true));
    assert_eq!(output_plan(GAMEPAD, mouse, false), (false, false));
}

#[test]
fn monotonic_clock_microseconds_truncate_and_saturate() {
    assert_eq!(monotonic_us(0, 0), 0);
    assert_eq!(monotonic_us(2, 345_678_901), 2_345_678);
    assert_eq!(monotonic_us(0, 999), 0);
    assert_eq!(monotonic_us(0, -1_999), -1);
    assert_eq!(monotonic_us(i64::MAX, 0), i64::MAX);
    assert_eq!(monotonic_us(i64::MIN, 0), i64::MIN);
    assert_eq!(monotonic_us(i64::MAX / 1_000_000, 999_999_999), i64::MAX);
}

#[test]
fn events_are_routed_by_type() {
    assert_eq!(route_event(XWII_EVENT_GONE), EventRoute::Gone);
    assert_eq!(route_event(XWII_EVENT_WATCH), EventRoute::Watch);
    assert_eq!(route_event(XWII_EVENT_KEY), EventRoute::Key);
    assert_eq!(route_event(XWII_EVENT_DRUMS_KEY), EventRoute::Key);
    assert_eq!(route_event(XWII_EVENT_ACCEL), EventRoute::Motion(MotionSource::Accel));
    assert_eq!(route_event(XWII_EVENT_NUNCHUK_MOVE), EventRoute::Motion(MotionSource::Nunchuk));
    assert_eq!(route_event(XWII_EVENT_BALANCE_BOARD), EventRoute::Motion(MotionSource::Balance));
    assert_eq!(route_event(XWII_EVENT_MOTION_PLUS), EventRoute::Motion(MotionSource::MotionPlus));
    assert_eq!(route_event(XWII_EVENT_IR), EventRoute::Ir);
    assert_eq!(route_event(XWII_EVENT_NUM), EventRoute::Ignored);
    assert!(feeds_aim(MotionSource::Accel) && feeds_aim(MotionSource::MotionPlus));
    assert!(!feeds_aim(MotionSource::Nunchuk));
}

#[test]
fn desktop_bindings_and_pointer_keys() {
    assert_eq!(desktop_button(XWII_KEY_A), Some(DesktopButton::A));
    assert_eq!(desktop_button(XWII_KEY_TWO), Some(DesktopButton::Two));
    assert_eq!(desktop_button(XWII_KEY_C), None);
    assert_eq!(desktop_key_code(DesktopAction::LeftClick), Some(0x110));
    assert_eq!(desktop_key_code(DesktopAction::Overview), Some(125));
    assert_eq!(desktop_key_code(DesktopAction::PageDown), Some(109));
    assert_eq!(desktop_key_code(DesktopAction::Disabled), None);
    assert_eq!(pointer_direction(XWII_KEY_LEFT), Some(PointerDirection::Left));
    assert_eq!(pointer_direction(XWII_KEY_DOWN), Some(PointerDirection::Down));
    assert_eq!(pointer_direction(XWII_KEY_A), None);
    assert_eq!(stick_value(40_000), 32767);
    assert_eq!(stick_value(-40_000), -32768);
    assert_eq!(stick_value(-12), -12);
}

#[test]
fn interfaces_are_reopened_after_watch_events() {
    assert_eq!(opened_interfaces(0x0207, 0x0005, Err(-19)), Ok(0x0202));
    assert_eq!(opened_interfaces(0x0207, 0, Err(-19)), Err(-19));
    assert_eq!(opened_interfaces(0x0207, 0, Ok(())), Ok(0x0207));
    assert_eq!(watch_update(0x0207, 0x0005, 0x0207), (true, 0x0202));
    assert_eq!(watch_update(0x0005, 0x0205, 0x0207), (false, 0x0002));
    assert_eq!(retry_outcome(0, 0, 0x0207, Err(-5)), Ok(()));
    assert_eq!(retry_outcome(0x0200, 0x0001, 0x0207, Err(-5)), Ok(()));
    assert_eq!(retry_outcome(0x0200, 0x0000, 0x0207, Err(-5)), Err(-ENODEV));
    assert_eq!(retry_outcome(0x0200, 0x0000, 0x0207, Ok(())), Ok(()));
}
