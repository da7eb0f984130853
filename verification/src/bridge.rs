//! The choices of one bridged device: which interfaces it opens and which
//! virtual outputs it feeds for its profile and aim settings, how many
//! events one wake-up handles, and how a dispatch without an event ends it.

use vstd::prelude::*;
use crate::errno::{EAGAIN, ENODEV};
use crate::abi::{
    XWII_EVENT_ACCEL, XWII_EVENT_BALANCE_BOARD, XWII_EVENT_CLASSIC_CONTROLLER_KEY,
    XWII_EVENT_CLASSIC_CONTROLLER_MOVE, XWII_EVENT_DRUMS_KEY, XWII_EVENT_DRUMS_MOVE, XWII_EVENT_GONE,
    XWII_EVENT_GUITAR_KEY, XWII_EVENT_GUITAR_MOVE, XWII_EVENT_IR, XWII_EVENT_KEY,
    XWII_EVENT_MOTION_PLUS, XWII_EVENT_NUNCHUK_KEY, XWII_EVENT_NUNCHUK_MOVE,
    XWII_EVENT_PRO_CONTROLLER_KEY, XWII_EVENT_PRO_CONTROLLER_MOVE, XWII_EVENT_WATCH,
    XWII_IFACE_ACCEL, XWII_IFACE_ALL, XWII_IFACE_CORE, XWII_IFACE_IR, XWII_IFACE_MOTION_PLUS,
    XWII_IFACE_NUNCHUK, XWII_KEY_A, XWII_KEY_B, XWII_KEY_DOWN, XWII_KEY_HOME, XWII_KEY_LEFT,
    XWII_KEY_MINUS, XWII_KEY_ONE, XWII_KEY_PLUS, XWII_KEY_RIGHT, XWII_KEY_TWO, XWII_KEY_UP,
};

verus! {

/// The most events one drain handles before yielding to the other devices.
pub const MAX_EVENTS_PER_DRAIN: usize = 256;

/// Whether a bridged device stays after a drain.
#[derive(Clone, Copy, Debug, PartialEq, Eq, Structural)]
pub enum BridgeAction {
    Continue,
    Gone,
}

/// How a drain ends when the interface reports `error` instead of an event:
/// `EAGAIN` (also `EWOULDBLOCK` on Linux) means the queue is empty and the
/// device stays; any other error is returned.
pub fn dispatch_error_outcome(error: i32) -> (r: Result<BridgeAction, i32>)
    ensures
        error == -EAGAIN ==> r == Ok::<BridgeAction, i32>(BridgeAction::Continue),
        error != -EAGAIN ==> r == Err::<BridgeAction, i32>(error),
{
    if error == -EAGAIN {
        Ok(BridgeAction::Continue)
    } else {
        Err(error)
    }
}

/// Which virtual outputs a device's profile asks for.
#[derive(Clone, Copy, Debug, PartialEq, Eq, Structural)]
pub struct Profile {
    pub gamepad: bool,
    pub desktop: bool,
}

/// Where motion aim goes: nowhere, the pointer, or the right stick.
#[derive(Clone, Copy, Debug, PartialEq, Eq, Structural)]
pub enum AimMode {
    Off,
    Mouse,
    RightStick,
}

/// Which sensor drives motion aim.
#[derive(Clone, Copy, Debug, PartialEq, Eq, Structural)]
pub enum AimSource {
    Auto,
    Ir,
    MotionPlus,
    Accelerometer,
}

/// Which button, if any, must be held for motion aim.
#[derive(Clone, Copy, Debug, PartialEq, Eq, Structural)]
pub enum AimActivation {
    Always,
    B,
    Z,
    C,
}

/// The aim settings a bridge reads from its configuration.
#[derive(Clone, Copy, Debug, PartialEq, Eq, Structural)]
pub struct AimSettings {
    pub mode: AimMode,
    pub source: AimSource,
    pub activation: AimActivation,
}

/// Whether a device feeds a virtual gamepad: with the gamepad profile, or
/// to aim with the right stick.
pub fn needs_gamepad(p: Profile, aim: AimSettings) -> (r: bool)
    ensures
        r == (p.gamepad || aim.mode == AimMode::RightStick),
{
    p.gamepad || aim.mode == AimMode::RightStick
}

/// Whether a device feeds a virtual desktop device: with the desktop
/// profile, or to aim with the pointer.
pub fn needs_desktop(p: Profile, aim: AimSettings) -> (r: bool)
    ensures
        r == (p.desktop || aim.mode == AimMode::Mouse),
{
    p.desktop || aim.mode == AimMode::Mouse
}

/// Whether the desktop pointer controls are on: only with the desktop
/// profile itself, not for a pointer aim output alone.
pub fn has_desktop_profile(p: Profile) -> (r: bool)
    ensures
        r == p.desktop,
{
    p.desktop
}

/// The virtual outputs to create: none in a dry run, else the gamepad and
/// the desktop device as the profile and aim settings need them.
pub fn output_plan(p: Profile, aim: AimSettings, outputs_enabled: bool) -> (r: (bool, bool))
    ensures
        r == (outputs_enabled && (p.gamepad || aim.mode == AimMode::RightStick), outputs_enabled && (
        p.desktop || aim.mode == AimMode::Mouse)),
{
    if !outputs_enabled {
        return (false, false);
    }
    (needs_gamepad(p, aim), needs_desktop(p, aim))
}

/// The interfaces a sensor feeds aim from.
pub open spec fn aim_source_ifaces(s: AimSource) -> u32 {
    match s {
        AimSource::Ir => XWII_IFACE_IR,
        AimSource::MotionPlus => XWII_IFACE_MOTION_PLUS,
        AimSource::Accelerometer => XWII_IFACE_ACCEL,
        AimSource::Auto => XWII_IFACE_IR | XWII_IFACE_MOTION_PLUS | XWII_IFACE_ACCEL,
    }
}

/// The interfaces a device opens: every interface but IR for the gamepad,
/// the core buttons and IR for the desktop, and with aim on, its sensor
/// (all three for `auto`) and the Nunchuk when Z or C activates it.
pub open spec fn requested_interfaces_spec(p: Profile, aim: AimSettings) -> u32 {
    let g: u32 = if p.gamepad {
        XWII_IFACE_ALL & !XWII_IFACE_IR
    } else {
        0
    };
    let d: u32 = if p.desktop {
        g | (XWII_IFACE_CORE | XWII_IFACE_IR)
    } else {
        g
    };
    if aim.mode != AimMode::Off {
        let a = d | aim_source_ifaces(aim.source);
        if aim.activation == AimActivation::Z || aim.activation == AimActivation::C {
            a | XWII_IFACE_NUNCHUK
        } else {
            a
        }
    } else {
        d
    }
}

/// The interface mask a bridged device opens.
pub fn requested_interfaces(p: Profile, aim: AimSettings) -> (r: u32)
    ensures
        r == requested_interfaces_spec(p, aim),
{
    let mut f: u32 = 0;
    if p.gamepad {
        f = XWII_IFACE_ALL & !XWII_IFACE_IR;
    }
    if p.desktop {
        f = f | (XWII_IFACE_CORE | XWII_IFACE_IR);
    }
    if aim.mode != AimMode::Off {
        let src: u32 = match aim.source {
            AimSource::Ir => XWII_IFACE_IR,
            AimSource::MotionPlus => XWII_IFACE_MOTION_PLUS,
            AimSource::Accelerometer => XWII_IFACE_ACCEL,
            AimSource::Auto => XWII_IFACE_IR | XWII_IFACE_MOTION_PLUS | XWII_IFACE_ACCEL,
        };
        f = f | src;
        if aim.activation == AimActivation::Z || aim.activation == AimActivation::C {
            f = f | XWII_IFACE_NUNCHUK;
        }
    }
    f
}

/// The Nunchuk interface is opened exactly when the gamepad profile asks
/// for every extension, or when aim is on and the Nunchuk's Z or C button
/// activates it.
pub proof fn lemma_nunchuk_requested(p: Profile, aim: AimSettings)
    ensures
        (requested_interfaces_spec(p, aim) & XWII_IFACE_NUNCHUK != 0) <==> (p.gamepad || (aim.mode
            != AimMode::Off && (aim.activation == AimActivation::Z || aim.activation
            == AimActivation::C))),
{
    let g: u32 = if p.gamepad {
        XWII_IFACE_ALL & !XWII_IFACE_IR
    } else {
        0
    };
    let d: u32 = if p.desktop {
        g | (XWII_IFACE_CORE | XWII_IFACE_IR)
    } else {
        g
    };
    let s = aim_source_ifaces(aim.source);
    assert(s & 0x200u32 == 0) by {
        if aim.source == AimSource::Auto {
            assert((4u32 | 0x100u32 | 2u32) & 0x200u32 == 0) by (bit_vector);
        } else if aim.source == AimSource::Ir {
            assert(4u32 & 0x200u32 == 0) by (bit_vector);
        } else if aim.source == AimSource::MotionPlus {
            assert(0x100u32 & 0x200u32 == 0) by (bit_vector);
        } else {
            assert(2u32 & 0x200u32 == 0) by (bit_vector);
        }
    }
    assert((0x7f07u32 & !4u32) & 0x200u32 != 0) by (bit_vector);
    assert(0u32 & 0x200u32 == 0) by (bit_vector);
    assert((g & 0x200u32 != 0) == p.gamepad);
    assert((g | (1u32 | 4u32)) & 0x200u32 == g & 0x200u32) by (bit_vector);
    assert((d & 0x200u32 != 0) == p.gamepad);
    assert forall|x: u32, y: u32|
        y & 0x200u32 == 0 implies (#[trigger] (x | y)) & 0x200u32 == x & 0x200u32 by {
        assert(y & 0x200u32 == 0 ==> (x | y) & 0x200u32 == x & 0x200u32) by (bit_vector);
    }
    assert forall|x: u32| (#[trigger] (x | 0x200u32)) & 0x200u32 != 0 by {
        assert((x | 0x200u32) & 0x200u32 != 0) by (bit_vector);
    }
    if aim.mode != AimMode::Off {
        assert((d | s) & 0x200u32 == d & 0x200u32);
    }
}

/// Whole microseconds in `n` nanoseconds, rounded toward zero as integer
/// division does.
pub open spec fn micros_of_nanos(n: int) -> int {
    if n >= 0 {
        n / 1_000
    } else {
        -((-n) / 1_000)
    }
}

/// A monotonic clock reading in microseconds, saturating at the bounds of
/// `i64`.
pub open spec fn monotonic_us_spec(sec: i64, nsec: i64) -> int {
    let m = sec * 1_000_000;
    let ms = if m > i64::MAX {
        i64::MAX as int
    } else if m < i64::MIN {
        i64::MIN as int
    } else {
        m
    };
    let t = ms + micros_of_nanos(nsec as int);
    if t > i64::MAX {
        i64::MAX as int
    } else if t < i64::MIN {
        i64::MIN as int
    } else {
        t
    }
}

/// The trace timestamp of a monotonic clock reading (seconds and
/// nanoseconds), in microseconds.
pub fn monotonic_us(sec: i64, nsec: i64) -> (r: i64)
    ensures
        r == monotonic_us_spec(sec, nsec),
{
    let m: i64 = match sec.checked_mul(1_000_000) {
        Some(v) => v,
        None => if sec > 0 {
            i64::MAX
        } else {
            i64::MIN
        },
    };
    let q: i64 = if nsec >= 0 {
        nsec / 1_000
    } else {
        -((-(nsec as i128)) / 1_000) as i64
    };
    match m.checked_add(q) {
        Some(v) => v,
        None => if q > 0 {
            i64::MAX
        } else {
            i64::MIN
        },
    }
}

/// Which motion report a movement event carries.
#[derive(Clone, Copy, Debug, PartialEq, Eq, Structural)]
pub enum MotionSource {
    Accel,
    Nunchuk,
    Classic,
    Pro,
    Guitar,
    Drums,
    Balance,
    MotionPlus,
}

/// How a bridge handles an event, by its type.
#[derive(Clone, Copy, Debug, PartialEq, Eq, Structural)]
pub enum EventRoute {
    /// The device went away: the bridge ends.
    Gone,
    /// The interfaces changed: reopen what was lost.
    Watch,
    /// A button of the remote or an extension.
    Key,
    /// Axes of the remote or an extension.
    Motion(MotionSource),
    /// The IR camera.
    Ir,
    /// Nothing to do.
    Ignored,
}

/// The route of each event type.
pub open spec fn event_route(kind: u32) -> EventRoute {
    if kind == XWII_EVENT_GONE {
        EventRoute::Gone
    } else if kind == XWII_EVENT_WATCH {
        EventRoute::Watch
    } else if kind == XWII_EVENT_KEY || kind == XWII_EVENT_NUNCHUK_KEY || kind
        == XWII_EVENT_CLASSIC_CONTROLLER_KEY || kind == XWII_EVENT_PRO_CONTROLLER_KEY || kind
        == XWII_EVENT_GUITAR_KEY || kind == XWII_EVENT_DRUMS_KEY {
        EventRoute::Key
    } else if kind == XWII_EVENT_ACCEL {
        EventRoute::Motion(MotionSource::Accel)
    } else if kind == XWII_EVENT_NUNCHUK_MOVE {
        EventRoute::Motion(MotionSource::Nunchuk)
    } else if kind == XWII_EVENT_CLASSIC_CONTROLLER_MOVE {
        EventRoute::Motion(MotionSource::Classic)
    } else if kind == XWII_EVENT_PRO_CONTROLLER_MOVE {
        EventRoute::Motion(MotionSource::Pro)
    } else if kind == XWII_EVENT_GUITAR_MOVE {
        EventRoute::Motion(MotionSource::Guitar)
    } else if kind == XWII_EVENT_DRUMS_MOVE {
        EventRoute::Motion(MotionSource::Drums)
    } else if kind == XWII_EVENT_BALANCE_BOARD {
        EventRoute::Motion(MotionSource::Balance)
    } else if kind == XWII_EVENT_MOTION_PLUS {
        EventRoute::Motion(MotionSource::MotionPlus)
    } else if kind == XWII_EVENT_IR {
        EventRoute::Ir
    } else {
        EventRoute::Ignored
    }
}

/// How a bridge handles an event of type `kind`.
pub fn route_event(kind: u32) -> (r: EventRoute)
    ensures
        r == event_route(kind),
{
    if kind == XWII_EVENT_GONE {
        EventRoute::Gone
    } else if kind == XWII_EVENT_WATCH {
        EventRoute::Watch
    } else if kind == XWII_EVENT_KEY || kind == XWII_EVENT_NUNCHUK_KEY || kind
        == XWII_EVENT_CLASSIC_CONTROLLER_KEY || kind == XWII_EVENT_PRO_CONTROLLER_KEY || kind
        == XWII_EVENT_GUITAR_KEY || kind == XWII_EVENT_DRUMS_KEY {
        EventRoute::Key
    } else if kind == XWII_EVENT_ACCEL {
        EventRoute::Motion(MotionSource::Accel)
    } else if kind == XWII_EVENT_NUNCHUK_MOVE {
        EventRoute::Motion(MotionSource::Nunchuk)
    } else if kind == XWII_EVENT_CLASSIC_CONTROLLER_MOVE {
        EventRoute::Motion(MotionSource::Classic)
    } else if kind == XWII_EVENT_PRO_CONTROLLER_MOVE {
        EventRoute::Motion(MotionSource::Pro)
    } else if kind == XWII_EVENT_GUITAR_MOVE {
        EventRoute::Motion(MotionSource::Guitar)
    } else if kind == XWII_EVENT_DRUMS_MOVE {
        EventRoute::Motion(MotionSource::Drums)
    } else if kind == XWII_EVENT_BALANCE_BOARD {
        EventRoute::Motion(MotionSource::Balance)
    } else if kind == XWII_EVENT_MOTION_PLUS {
        EventRoute::Motion(MotionSource::MotionPlus)
    } else if kind == XWII_EVENT_IR {
        EventRoute::Ir
    } else {
        EventRoute::Ignored
    }
}

/// Whether a motion report feeds motion aim: only the remote's own
/// accelerometer and MotionPlus do.
pub fn feeds_aim(source: MotionSource) -> (r: bool)
    ensures
        r == (source == MotionSource::Accel || source == MotionSource::MotionPlus),
{
    source == MotionSource::Accel || source == MotionSource::MotionPlus
}

/// The remote buttons a desktop binding can name.
#[derive(Clone, Copy, Debug, PartialEq, Eq, Structural)]
pub enum DesktopButton {
    A,
    B,
    Plus,
    Minus,
    Home,
    One,
    Two,
}

/// The remote button a key code is, among those with a desktop binding.
pub fn desktop_button(code: u32) -> (r: Option<DesktopButton>)
    ensures
        r == (if code == XWII_KEY_A {
            Some(DesktopButton::A)
        } else if code == XWII_KEY_B {
            Some(DesktopButton::B)
        } else if code == XWII_KEY_PLUS {
            Some(DesktopButton::Plus)
        } else if code == XWII_KEY_MINUS {
            Some(DesktopButton::Minus)
        } else if code == XWII_KEY_HOME {
            Some(DesktopButton::Home)
        } else if code == XWII_KEY_ONE {
            Some(DesktopButton::One)
        } else if code == XWII_KEY_TWO {
            Some(DesktopButton::Two)
        } else {
            None
        }),
{
    if code == XWII_KEY_A {
        Some(DesktopButton::A)
    } else if code == XWII_KEY_B {
        Some(DesktopButton::B)
    } else if code == XWII_KEY_PLUS {
        Some(DesktopButton::Plus)
    } else if code == XWII_KEY_MINUS {
        Some(DesktopButton::Minus)
    } else if code == XWII_KEY_HOME {
        Some(DesktopButton::Home)
    } else if code == XWII_KEY_ONE {
        Some(DesktopButton::One)
    } else if code == XWII_KEY_TWO {
        Some(DesktopButton::Two)
    } else {
        None
    }
}

/// What a desktop binding does.
#[derive(Clone, Copy, Debug, PartialEq, Eq, Structural)]
pub enum DesktopAction {
    LeftClick,
    RightClick,
    Enter,
    Escape,
    Overview,
    PageUp,
    PageDown,
    Disabled,
}

/// The evdev key a desktop action presses, if any: `BTN_LEFT`, `BTN_RIGHT`,
/// `KEY_ENTER`, `KEY_ESC`, `KEY_LEFTMETA`, `KEY_PAGEUP` and `KEY_PAGEDOWN`.
pub fn desktop_key_code(action: DesktopAction) -> (r: Option<u32>)
    ensures
        r == (match action {
            DesktopAction::LeftClick => Some(0x110u32),
            DesktopAction::RightClick => Some(0x111u32),
            DesktopAction::Enter => Some(28u32),
            DesktopAction::Escape => Some(1u32),
            DesktopAction::Overview => Some(125u32),
            DesktopAction::PageUp => Some(104u32),
            DesktopAction::PageDown => Some(109u32),
            DesktopAction::Disabled => None,
        }),
{
    match action {
        DesktopAction::LeftClick => Some(0x110),
        DesktopAction::RightClick => Some(0x111),
        DesktopAction::Enter => Some(28),
        DesktopAction::Escape => Some(1),
        DesktopAction::Overview => Some(125),
        DesktopAction::PageUp => Some(104),
        DesktopAction::PageDown => Some(109),
        DesktopAction::Disabled => None,
    }
}

/// A direction the pad moves the desktop pointer in.
#[derive(Clone, Copy, Debug, PartialEq, Eq, Structural)]
pub enum PointerDirection {
    Left,
    Right,
    Up,
    Down,
}

/// The pointer direction of a pad key, if it is one.
pub fn pointer_direction(code: u32) -> (r: Option<PointerDirection>)
    ensures
        r == (if code == XWII_KEY_LEFT {
            Some(PointerDirection::Left)
        } else if code == XWII_KEY_RIGHT {
            Some(PointerDirection::Right)
        } else if code == XWII_KEY_UP {
            Some(PointerDirection::Up)
        } else if code == XWII_KEY_DOWN {
            Some(PointerDirection::Down)
        } else {
            None
        }),
{
    if code == XWII_KEY_LEFT {
        Some(PointerDirection::Left)
    } else if code == XWII_KEY_RIGHT {
        Some(PointerDirection::Right)
    } else if code == XWII_KEY_UP {
        Some(PointerDirection::Up)
    } else if code == XWII_KEY_DOWN {
        Some(PointerDirection::Down)
    } else {
        None
    }
}

/// A right-stick aim value, clamped to the stick's signed 16-bit range.
pub fn stick_value(v: i32) -> (r: i32)
    ensures
        r == (if v < -32768 {
            -32768i32
        } else if v > 32767 {
            32767i32
        } else {
            v
        }),
{
    if v < -32768 {
        -32768
    } else if v > 32767 {
        32767
    } else {
        v
    }
}

/// The interfaces still to open after opening `requested`, when the device
/// reports `opened`; a device that opened nothing fails with the open's
/// error (`Ok` when the open did not fail).
pub fn opened_interfaces(requested: u32, opened: u32, open_result: Result<(), i32>) -> (r: Result<u32, i32>)
    ensures
        opened == 0 && open_result is Err ==> r == Err::<u32, i32>(open_result->Err_0),
        !(opened == 0 && open_result is Err) ==> r == Ok::<u32, i32>(requested & !opened),
{
    if opened == 0 {
        if let Err(e) = open_result {
            return Err(e);
        }
    }
    Ok(requested & !opened)
}

/// After a watch event: whether an interface that was open has been lost
/// (the virtual outputs are then recreated), and the requested interfaces
/// that are not open.
pub fn watch_update(was_opened: u32, opened: u32, requested: u32) -> (r: (bool, u32))
    ensures
        r == (was_opened & !opened != 0, requested & !opened),
{
    (was_opened & !opened != 0, requested & !opened)
}

/// How a retry to open the pending interfaces ends: fine when nothing was
/// pending or some requested interface is open, else the open's error, or
/// `-ENODEV` when the open reported none.
pub fn retry_outcome(pending: u32, opened: u32, requested: u32, open_result: Result<(), i32>) -> (r: Result<(), i32>)
    ensures
        pending == 0 || opened & requested != 0 ==> r is Ok,
        pending != 0 && opened & requested == 0 ==> r == (match open_result {
            Ok(()) => Ok::<(), i32>(()),
            Err(_) => Err::<(), i32>((-ENODEV) as i32),
        }),
{
    if pending == 0 || opened & requested != 0 {
        return Ok(());
    }
    match open_result {
        Ok(()) => Ok(()),
        Err(_) => Err(-ENODEV),
    }
}

/// Every event type is handled by what it carries: the six button event
/// types (remote, Nunchuk, Classic Controller, Pro Controller, guitar,
/// drums) as keys, the eight movement types as motion of their own source,
/// IR as IR, and only the types beyond the published ones are ignored.
pub proof fn lemma_every_event_type_is_routed(kind: u32)
    ensures
        (event_route(kind) == EventRoute::Key) <==> (kind == 0 || kind == 5 || kind == 8 || kind == 10
            || kind == 12 || kind == 14),
        (event_route(kind) == EventRoute::Gone) <==> kind == 16,
        (event_route(kind) == EventRoute::Watch) <==> kind == 7,
        (event_route(kind) == EventRoute::Ir) <==> kind == 2,
        (event_route(kind) == EventRoute::Ignored) <==> kind >= 17,
        kind == 1 ==> event_route(kind) == EventRoute::Motion(MotionSource::Accel),
        kind == 3 ==> event_route(kind) == EventRoute::Motion(MotionSource::Balance),
        kind == 4 ==> event_route(kind) == EventRoute::Motion(MotionSource::MotionPlus),
        kind == 6 ==> event_route(kind) == EventRoute::Motion(MotionSource::Pro),
        kind == 9 ==> event_route(kind) == EventRoute::Motion(MotionSource::Classic),
        kind == 11 ==> event_route(kind) == EventRoute::Motion(MotionSource::Nunchuk),
        kind == 13 ==> event_route(kind) == EventRoute::Motion(MotionSource::Drums),
        kind == 15 ==> event_route(kind) == EventRoute::Motion(MotionSource::Guitar),
{
}

/// The interfaces a device opens serve what it is asked to do: with aim on,
/// the sensor aim reads is open (all three for `auto`); the gamepad profile
/// opens every interface but IR; the desktop profile opens the core buttons
/// and IR; without any of them nothing is opened; and nothing outside the
/// published interfaces is ever requested.
pub proof fn lemma_requested_interfaces_serve_their_users(p: Profile, aim: AimSettings)
    ensures
        ({
            let m = requested_interfaces_spec(p, aim);
            &&& aim.mode != AimMode::Off && aim.source == AimSource::Accelerometer ==> m & 0x2 != 0
            &&& aim.mode != AimMode::Off && aim.source == AimSource::Ir ==> m & 0x4 != 0
            &&& aim.mode != AimMode::Off && aim.source == AimSource::MotionPlus ==> m & 0x100 != 0
            &&& aim.mode != AimMode::Off && aim.source == AimSource::Auto ==> m & 0x106 == 0x106
            &&& p.gamepad ==> m & 0x7f03 == 0x7f03
            &&& p.desktop ==> m & 0x5 == 0x5
            &&& !p.gamepad && !p.desktop && aim.mode == AimMode::Off ==> m == 0
            &&& m & !0x7f07u32 == 0
        }),
{
    let gp = p.gamepad;
    let dp = p.desktop;
    let on = aim.mode != AimMode::Off;
    let nz = aim.activation == AimActivation::Z || aim.activation == AimActivation::C;
    let src = aim_source_ifaces(aim.source);
    assert(4u32 | 0x100u32 | 2u32 == 0x106u32) by (bit_vector);
    assert(src == 2u32 || src == 4u32 || src == 0x100u32 || src == 0x106u32);
    let g: u32 = if gp {
        0x7f07u32 & !4u32
    } else {
        0u32
    };
    let d: u32 = if dp {
        g | 5u32
    } else {
        g
    };
    let m: u32 = if on {
        if nz {
            (d | src) | 0x200u32
        } else {
            d | src
        }
    } else {
        d
    };
    assert(1u32 | 4u32 == 5u32) by (bit_vector);
    assert(m == requested_interfaces_spec(p, aim));
    assert({
        &&& on && src == 2u32 ==> m & 2u32 != 0
        &&& on && src == 4u32 ==> m & 4u32 != 0
        &&& on && src == 0x100u32 ==> m & 0x100u32 != 0
        &&& on && src == 0x106u32 ==> m & 0x106u32 == 0x106u32
        &&& gp ==> m & 0x7f03u32 == 0x7f03u32
        &&& dp ==> m & 5u32 == 5u32
        &&& !gp && !dp && !on ==> m == 0
        &&& m & !0x7f07u32 == 0
    }) by (bit_vector)
        requires
            src == 2u32 || src == 4u32 || src == 0x100u32 || src == 0x106u32,
            g == (if gp {
                0x7f07u32 & !4u32
            } else {
                0u32
            }),
            d == (if dp {
                g | 5u32
            } else {
                g
            }),
            m == (if on {
                if nz {
                    (d | src) | 0x200u32
                } else {
                    d | src
                }
            } else {
                d
            }),
    ;
}

} // verus!
