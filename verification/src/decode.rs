//! Decoding of Linux evdev input into typed xwiimote events.
//!
//! No file descriptor or ioctl is touched here.  The device layer hands over
//! [`InputEvent`] values and, after a `SYN_DROPPED`, the current key and
//! absolute state, which [`RecoveryState`] turns into synthetic transitions.

use vstd::prelude::*;
use crate::abi::{ABS_HAT0X, ABS_HAT0Y, ABS_HAT1X, ABS_HAT1Y, ABS_HAT2X, ABS_HAT2Y, ABS_HAT3X, ABS_HAT3Y, ABS_RX, ABS_RY, ABS_RZ, ABS_X, ABS_Y, BTN_1, BTN_2, BTN_3, BTN_4, BTN_5, BTN_A, BTN_B, BTN_C, BTN_DPAD_DOWN, BTN_DPAD_LEFT, BTN_DPAD_RIGHT, BTN_DPAD_UP, BTN_EAST, BTN_MODE, BTN_NORTH, BTN_SELECT, BTN_SOUTH, BTN_START, BTN_THUMBL, BTN_THUMBR, BTN_TL, BTN_TL2, BTN_TR, BTN_TR2, BTN_WEST, BTN_X, BTN_Y, BTN_Z, CEventAbs, CEventKey, EV_ABS, EV_KEY, EV_SYN, InputEvent, KEY_DOWN, KEY_LEFT, KEY_NEXT, KEY_PREVIOUS, KEY_RIGHT, KEY_UP, SYN_DROPPED, SYN_REPORT, Timeval, XWII_EVENT_ACCEL, XWII_EVENT_BALANCE_BOARD, XWII_EVENT_CLASSIC_CONTROLLER_KEY, XWII_EVENT_CLASSIC_CONTROLLER_MOVE, XWII_EVENT_DRUMS_KEY, XWII_EVENT_DRUMS_MOVE, XWII_EVENT_GONE, XWII_EVENT_GUITAR_KEY, XWII_EVENT_GUITAR_MOVE, XWII_EVENT_IR, XWII_EVENT_KEY, XWII_EVENT_MOTION_PLUS, XWII_EVENT_NUM, XWII_EVENT_NUNCHUK_KEY, XWII_EVENT_NUNCHUK_MOVE, XWII_EVENT_PRO_CONTROLLER_KEY, XWII_EVENT_PRO_CONTROLLER_MOVE, XWII_EVENT_WATCH, XWII_KEY_A, XWII_KEY_B, XWII_KEY_C, XWII_KEY_DOWN, XWII_KEY_FRET_FAR_LOW, XWII_KEY_FRET_FAR_UP, XWII_KEY_FRET_LOW, XWII_KEY_FRET_MID, XWII_KEY_FRET_UP, XWII_KEY_HOME, XWII_KEY_LEFT, XWII_KEY_MINUS, XWII_KEY_NUM, XWII_KEY_ONE, XWII_KEY_PLUS, XWII_KEY_RIGHT, XWII_KEY_STRUM_BAR_DOWN, XWII_KEY_STRUM_BAR_UP, XWII_KEY_THUMBL, XWII_KEY_THUMBR, XWII_KEY_TL, XWII_KEY_TR, XWII_KEY_TWO, XWII_KEY_UP, XWII_KEY_X, XWII_KEY_Y, XWII_KEY_Z, XWII_KEY_ZL, XWII_KEY_ZR};

verus! {

pub type Abs = CEventAbs;

pub type Key = CEventKey;

/// Typed event discriminant, with a case for values this library does not
/// know yet.
#[derive(Clone, Copy, Debug, PartialEq, Eq, Structural)]
#[non_exhaustive]
pub enum EventType {
    Key,
    Accel,
    Ir,
    BalanceBoard,
    MotionPlus,
    ProControllerKey,
    ProControllerMove,
    Watch,
    ClassicControllerKey,
    ClassicControllerMove,
    NunchukKey,
    NunchukMove,
    DrumsKey,
    DrumsMove,
    GuitarKey,
    GuitarMove,
    Gone,
    Unknown(u32),
}

/// The typed discriminant of a raw C event type.
pub open spec fn event_type_from_raw(value: u32) -> EventType {
    if value == XWII_EVENT_KEY {
        EventType::Key
    } else if value == XWII_EVENT_ACCEL {
        EventType::Accel
    } else if value == XWII_EVENT_IR {
        EventType::Ir
    } else if value == XWII_EVENT_BALANCE_BOARD {
        EventType::BalanceBoard
    } else if value == XWII_EVENT_MOTION_PLUS {
        EventType::MotionPlus
    } else if value == XWII_EVENT_PRO_CONTROLLER_KEY {
        EventType::ProControllerKey
    } else if value == XWII_EVENT_PRO_CONTROLLER_MOVE {
        EventType::ProControllerMove
    } else if value == XWII_EVENT_WATCH {
        EventType::Watch
    } else if value == XWII_EVENT_CLASSIC_CONTROLLER_KEY {
        EventType::ClassicControllerKey
    } else if value == XWII_EVENT_CLASSIC_CONTROLLER_MOVE {
        EventType::ClassicControllerMove
    } else if value == XWII_EVENT_NUNCHUK_KEY {
        EventType::NunchukKey
    } else if value == XWII_EVENT_NUNCHUK_MOVE {
        EventType::NunchukMove
    } else if value == XWII_EVENT_DRUMS_KEY {
        EventType::DrumsKey
    } else if value == XWII_EVENT_DRUMS_MOVE {
        EventType::DrumsMove
    } else if value == XWII_EVENT_GUITAR_KEY {
        EventType::GuitarKey
    } else if value == XWII_EVENT_GUITAR_MOVE {
        EventType::GuitarMove
    } else if value == XWII_EVENT_GONE {
        EventType::Gone
    } else {
        EventType::Unknown(value)
    }
}

/// The raw C event type of a typed discriminant.
pub open spec fn event_type_raw(t: EventType) -> u32 {
    match t {
        EventType::Key => XWII_EVENT_KEY,
        EventType::Accel => XWII_EVENT_ACCEL,
        EventType::Ir => XWII_EVENT_IR,
        EventType::BalanceBoard => XWII_EVENT_BALANCE_BOARD,
        EventType::MotionPlus => XWII_EVENT_MOTION_PLUS,
        EventType::ProControllerKey => XWII_EVENT_PRO_CONTROLLER_KEY,
        EventType::ProControllerMove => XWII_EVENT_PRO_CONTROLLER_MOVE,
        EventType::Watch => XWII_EVENT_WATCH,
        EventType::ClassicControllerKey => XWII_EVENT_CLASSIC_CONTROLLER_KEY,
        EventType::ClassicControllerMove => XWII_EVENT_CLASSIC_CONTROLLER_MOVE,
        EventType::NunchukKey => XWII_EVENT_NUNCHUK_KEY,
        EventType::NunchukMove => XWII_EVENT_NUNCHUK_MOVE,
        EventType::DrumsKey => XWII_EVENT_DRUMS_KEY,
        EventType::DrumsMove => XWII_EVENT_DRUMS_MOVE,
        EventType::GuitarKey => XWII_EVENT_GUITAR_KEY,
        EventType::GuitarMove => XWII_EVENT_GUITAR_MOVE,
        EventType::Gone => XWII_EVENT_GONE,
        EventType::Unknown(v) => v,
    }
}

impl EventType {
    /// The typed discriminant of a raw C event type; values this library
    /// does not know are kept as `Unknown`.
    pub fn from_raw(value: u32) -> (r: Self)
        ensures
            r == event_type_from_raw(value),
    {
        if value == XWII_EVENT_KEY {
            Self::Key
        } else if value == XWII_EVENT_ACCEL {
            Self::Accel
        } else if value == XWII_EVENT_IR {
            Self::Ir
        } else if value == XWII_EVENT_BALANCE_BOARD {
            Self::BalanceBoard
        } else if value == XWII_EVENT_MOTION_PLUS {
            Self::MotionPlus
        } else if value == XWII_EVENT_PRO_CONTROLLER_KEY {
            Self::ProControllerKey
        } else if value == XWII_EVENT_PRO_CONTROLLER_MOVE {
            Self::ProControllerMove
        } else if value == XWII_EVENT_WATCH {
            Self::Watch
        } else if value == XWII_EVENT_CLASSIC_CONTROLLER_KEY {
            Self::ClassicControllerKey
        } else if value == XWII_EVENT_CLASSIC_CONTROLLER_MOVE {
            Self::ClassicControllerMove
        } else if value == XWII_EVENT_NUNCHUK_KEY {
            Self::NunchukKey
        } else if value == XWII_EVENT_NUNCHUK_MOVE {
            Self::NunchukMove
        } else if value == XWII_EVENT_DRUMS_KEY {
            Self::DrumsKey
        } else if value == XWII_EVENT_DRUMS_MOVE {
            Self::DrumsMove
        } else if value == XWII_EVENT_GUITAR_KEY {
            Self::GuitarKey
        } else if value == XWII_EVENT_GUITAR_MOVE {
            Self::GuitarMove
        } else if value == XWII_EVENT_GONE {
            Self::Gone
        } else {
            Self::Unknown(value)
        }
    }

    /// The raw C event type.
    pub fn raw(self) -> (r: u32)
        ensures
            r == event_type_raw(self),
    {
        match self {
            Self::Key => XWII_EVENT_KEY,
            Self::Accel => XWII_EVENT_ACCEL,
            Self::Ir => XWII_EVENT_IR,
            Self::BalanceBoard => XWII_EVENT_BALANCE_BOARD,
            Self::MotionPlus => XWII_EVENT_MOTION_PLUS,
            Self::ProControllerKey => XWII_EVENT_PRO_CONTROLLER_KEY,
            Self::ProControllerMove => XWII_EVENT_PRO_CONTROLLER_MOVE,
            Self::Watch => XWII_EVENT_WATCH,
            Self::ClassicControllerKey => XWII_EVENT_CLASSIC_CONTROLLER_KEY,
            Self::ClassicControllerMove => XWII_EVENT_CLASSIC_CONTROLLER_MOVE,
            Self::NunchukKey => XWII_EVENT_NUNCHUK_KEY,
            Self::NunchukMove => XWII_EVENT_NUNCHUK_MOVE,
            Self::DrumsKey => XWII_EVENT_DRUMS_KEY,
            Self::DrumsMove => XWII_EVENT_DRUMS_MOVE,
            Self::GuitarKey => XWII_EVENT_GUITAR_KEY,
            Self::GuitarMove => XWII_EVENT_GUITAR_MOVE,
            Self::Gone => XWII_EVENT_GONE,
            Self::Unknown(v) => v,
        }
    }
}

/// Every raw event type survives the round trip through its typed form,
/// known and unknown values alike.
pub proof fn lemma_event_type_round_trip(value: u32)
    ensures
        event_type_raw(event_type_from_raw(value)) == value,
{
}

/// Two raw event types with the same typed form are equal: the typed form
/// loses nothing.
pub proof fn lemma_event_type_from_raw_injective(a: u32, b: u32)
    requires
        event_type_from_raw(a) == event_type_from_raw(b),
    ensures
        a == b,
{
    lemma_event_type_round_trip(a);
    lemma_event_type_round_trip(b);
}

/// Known values map to their own variant; every other value is `Unknown`.
pub proof fn lemma_event_type_unknown_exactly_above_range(value: u32)
    ensures
        (event_type_from_raw(value) is Unknown) <==> value >= XWII_EVENT_NUM,
{
}

/// The interface an evdev node belongs to, which selects how it is decoded.
#[derive(Clone, Copy, Debug, PartialEq, Eq, Structural)]
#[non_exhaustive]
pub enum InterfaceKind {
    Core,
    Accel,
    Ir,
    MotionPlus,
    Nunchuk,
    Classic,
    BalanceBoard,
    Pro,
    Drums,
    Guitar,
}

/// A decoded event payload.
#[derive(Clone, Copy, Debug, PartialEq, Eq)]
#[non_exhaustive]
pub enum EventKind {
    Key(Key),
    Accel(Abs),
    Ir([Abs; 4]),
    BalanceBoard([Abs; 4]),
    MotionPlus(Abs),
    ProControllerKey(Key),
    ProControllerMove([Abs; 2]),
    Watch,
    ClassicControllerKey(Key),
    ClassicControllerMove([Abs; 3]),
    NunchukKey(Key),
    NunchukMove([Abs; 2]),
    DrumsKey(Key),
    DrumsMove([Abs; 8]),
    GuitarKey(Key),
    GuitarMove([Abs; 3]),
    Gone,
    Unknown(u32),
}

/// The raw C event type of a payload.
pub open spec fn event_kind_raw(k: EventKind) -> u32 {
    match k {
        EventKind::Key(_) => XWII_EVENT_KEY,
        EventKind::Accel(_) => XWII_EVENT_ACCEL,
        EventKind::Ir(_) => XWII_EVENT_IR,
        EventKind::BalanceBoard(_) => XWII_EVENT_BALANCE_BOARD,
        EventKind::MotionPlus(_) => XWII_EVENT_MOTION_PLUS,
        EventKind::ProControllerKey(_) => XWII_EVENT_PRO_CONTROLLER_KEY,
        EventKind::ProControllerMove(_) => XWII_EVENT_PRO_CONTROLLER_MOVE,
        EventKind::Watch => XWII_EVENT_WATCH,
        EventKind::ClassicControllerKey(_) => XWII_EVENT_CLASSIC_CONTROLLER_KEY,
        EventKind::ClassicControllerMove(_) => XWII_EVENT_CLASSIC_CONTROLLER_MOVE,
        EventKind::NunchukKey(_) => XWII_EVENT_NUNCHUK_KEY,
        EventKind::NunchukMove(_) => XWII_EVENT_NUNCHUK_MOVE,
        EventKind::DrumsKey(_) => XWII_EVENT_DRUMS_KEY,
        EventKind::DrumsMove(_) => XWII_EVENT_DRUMS_MOVE,
        EventKind::GuitarKey(_) => XWII_EVENT_GUITAR_KEY,
        EventKind::GuitarMove(_) => XWII_EVENT_GUITAR_MOVE,
        EventKind::Gone => XWII_EVENT_GONE,
        EventKind::Unknown(v) => v,
    }
}

impl EventKind {
    /// The raw C event type of this payload.
    pub fn raw_type(self) -> (r: u32)
        ensures
            r == event_kind_raw(self),
    {
        match self {
            Self::Key(_) => XWII_EVENT_KEY,
            Self::Accel(_) => XWII_EVENT_ACCEL,
            Self::Ir(_) => XWII_EVENT_IR,
            Self::BalanceBoard(_) => XWII_EVENT_BALANCE_BOARD,
            Self::MotionPlus(_) => XWII_EVENT_MOTION_PLUS,
            Self::ProControllerKey(_) => XWII_EVENT_PRO_CONTROLLER_KEY,
            Self::ProControllerMove(_) => XWII_EVENT_PRO_CONTROLLER_MOVE,
            Self::Watch => XWII_EVENT_WATCH,
            Self::ClassicControllerKey(_) => XWII_EVENT_CLASSIC_CONTROLLER_KEY,
            Self::ClassicControllerMove(_) => XWII_EVENT_CLASSIC_CONTROLLER_MOVE,
            Self::NunchukKey(_) => XWII_EVENT_NUNCHUK_KEY,
            Self::NunchukMove(_) => XWII_EVENT_NUNCHUK_MOVE,
            Self::DrumsKey(_) => XWII_EVENT_DRUMS_KEY,
            Self::DrumsMove(_) => XWII_EVENT_DRUMS_MOVE,
            Self::GuitarKey(_) => XWII_EVENT_GUITAR_KEY,
            Self::GuitarMove(_) => XWII_EVENT_GUITAR_MOVE,
            Self::Gone => XWII_EVENT_GONE,
            Self::Unknown(v) => v,
        }
    }
}

/// A decoded event with the time the kernel stamped on it.
#[derive(Clone, Copy, Debug, PartialEq, Eq)]
pub struct Event {
    pub time: Timeval,
    pub kind: EventKind,
}

/// The xwiimote key of a core Wii Remote evdev key code.
pub open spec fn core_key(c: u16) -> Option<u32> {
    if c == KEY_LEFT {
        Some(XWII_KEY_LEFT)
    } else if c == KEY_RIGHT {
        Some(XWII_KEY_RIGHT)
    } else if c == KEY_UP {
        Some(XWII_KEY_UP)
    } else if c == KEY_DOWN {
        Some(XWII_KEY_DOWN)
    } else if c == KEY_NEXT {
        Some(XWII_KEY_PLUS)
    } else if c == KEY_PREVIOUS {
        Some(XWII_KEY_MINUS)
    } else if c == BTN_1 {
        Some(XWII_KEY_ONE)
    } else if c == BTN_2 {
        Some(XWII_KEY_TWO)
    } else if c == BTN_A {
        Some(XWII_KEY_A)
    } else if c == BTN_B {
        Some(XWII_KEY_B)
    } else if c == BTN_MODE {
        Some(XWII_KEY_HOME)
    } else {
        None
    }
}

/// The xwiimote key of a Nunchuk evdev key code.
pub open spec fn nunchuk_key(c: u16) -> Option<u32> {
    if c == BTN_C {
        Some(XWII_KEY_C)
    } else if c == BTN_Z {
        Some(XWII_KEY_Z)
    } else {
        None
    }
}

/// The xwiimote key of a Classic Controller evdev key code.
pub open spec fn classic_key(c: u16) -> Option<u32> {
    if c == BTN_A {
        Some(XWII_KEY_A)
    } else if c == BTN_B {
        Some(XWII_KEY_B)
    } else if c == BTN_X {
        Some(XWII_KEY_X)
    } else if c == BTN_Y {
        Some(XWII_KEY_Y)
    } else if c == KEY_NEXT {
        Some(XWII_KEY_PLUS)
    } else if c == KEY_PREVIOUS {
        Some(XWII_KEY_MINUS)
    } else if c == BTN_MODE {
        Some(XWII_KEY_HOME)
    } else if c == KEY_LEFT {
        Some(XWII_KEY_LEFT)
    } else if c == KEY_RIGHT {
        Some(XWII_KEY_RIGHT)
    } else if c == KEY_UP {
        Some(XWII_KEY_UP)
    } else if c == KEY_DOWN {
        Some(XWII_KEY_DOWN)
    } else if c == BTN_TL {
        Some(XWII_KEY_TL)
    } else if c == BTN_TR {
        Some(XWII_KEY_TR)
    } else if c == BTN_TL2 {
        Some(XWII_KEY_ZL)
    } else if c == BTN_TR2 {
        Some(XWII_KEY_ZR)
    } else {
        None
    }
}

/// The xwiimote key of a Pro Controller evdev key code.
pub open spec fn pro_key(c: u16) -> Option<u32> {
    if c == BTN_EAST {
        Some(XWII_KEY_A)
    } else if c == BTN_SOUTH {
        Some(XWII_KEY_B)
    } else if c == BTN_NORTH {
        Some(XWII_KEY_X)
    } else if c == BTN_WEST {
        Some(XWII_KEY_Y)
    } else if c == BTN_START {
        Some(XWII_KEY_PLUS)
    } else if c == BTN_SELECT {
        Some(XWII_KEY_MINUS)
    } else if c == BTN_MODE {
        Some(XWII_KEY_HOME)
    } else if c == BTN_DPAD_LEFT {
        Some(XWII_KEY_LEFT)
    } else if c == BTN_DPAD_RIGHT {
        Some(XWII_KEY_RIGHT)
    } else if c == BTN_DPAD_UP {
        Some(XWII_KEY_UP)
    } else if c == BTN_DPAD_DOWN {
        Some(XWII_KEY_DOWN)
    } else if c == BTN_TL {
        Some(XWII_KEY_TL)
    } else if c == BTN_TR {
        Some(XWII_KEY_TR)
    } else if c == BTN_TL2 {
        Some(XWII_KEY_ZL)
    } else if c == BTN_TR2 {
        Some(XWII_KEY_ZR)
    } else if c == BTN_THUMBL {
        Some(XWII_KEY_THUMBL)
    } else if c == BTN_THUMBR {
        Some(XWII_KEY_THUMBR)
    } else {
        None
    }
}

/// The xwiimote key of a drums evdev key code.
pub open spec fn drums_key(c: u16) -> Option<u32> {
    if c == BTN_START {
        Some(XWII_KEY_PLUS)
    } else if c == BTN_SELECT {
        Some(XWII_KEY_MINUS)
    } else {
        None
    }
}

/// The xwiimote key of a guitar evdev key code.
pub open spec fn guitar_key(c: u16) -> Option<u32> {
    if c == BTN_1 {
        Some(XWII_KEY_FRET_FAR_UP)
    } else if c == BTN_2 {
        Some(XWII_KEY_FRET_UP)
    } else if c == BTN_3 {
        Some(XWII_KEY_FRET_MID)
    } else if c == BTN_4 {
        Some(XWII_KEY_FRET_LOW)
    } else if c == BTN_5 {
        Some(XWII_KEY_FRET_FAR_LOW)
    } else if c == BTN_DPAD_UP {
        Some(XWII_KEY_STRUM_BAR_UP)
    } else if c == BTN_DPAD_DOWN {
        Some(XWII_KEY_STRUM_BAR_DOWN)
    } else if c == BTN_START {
        Some(XWII_KEY_PLUS)
    } else if c == BTN_SELECT {
        Some(XWII_KEY_MINUS)
    } else {
        None
    }
}

/// The remote button of a core evdev key code.
pub fn map_core_key(c: u16) -> (r: Option<u32>)
    ensures
        r == core_key(c),
{
    if c == KEY_LEFT {
        Some(XWII_KEY_LEFT)
    } else if c == KEY_RIGHT {
        Some(XWII_KEY_RIGHT)
    } else if c == KEY_UP {
        Some(XWII_KEY_UP)
    } else if c == KEY_DOWN {
        Some(XWII_KEY_DOWN)
    } else if c == KEY_NEXT {
        Some(XWII_KEY_PLUS)
    } else if c == KEY_PREVIOUS {
        Some(XWII_KEY_MINUS)
    } else if c == BTN_1 {
        Some(XWII_KEY_ONE)
    } else if c == BTN_2 {
        Some(XWII_KEY_TWO)
    } else if c == BTN_A {
        Some(XWII_KEY_A)
    } else if c == BTN_B {
        Some(XWII_KEY_B)
    } else if c == BTN_MODE {
        Some(XWII_KEY_HOME)
    } else {
        None
    }
}

/// The Nunchuk button of an evdev key code.
pub fn map_nunchuk_key(c: u16) -> (r: Option<u32>)
    ensures
        r == nunchuk_key(c),
{
    if c == BTN_C {
        Some(XWII_KEY_C)
    } else if c == BTN_Z {
        Some(XWII_KEY_Z)
    } else {
        None
    }
}

/// The Classic Controller button of an evdev key code.
pub fn map_classic_key(c: u16) -> (r: Option<u32>)
    ensures
        r == classic_key(c),
{
    if c == BTN_A {
        Some(XWII_KEY_A)
    } else if c == BTN_B {
        Some(XWII_KEY_B)
    } else if c == BTN_X {
        Some(XWII_KEY_X)
    } else if c == BTN_Y {
        Some(XWII_KEY_Y)
    } else if c == KEY_NEXT {
        Some(XWII_KEY_PLUS)
    } else if c == KEY_PREVIOUS {
        Some(XWII_KEY_MINUS)
    } else if c == BTN_MODE {
        Some(XWII_KEY_HOME)
    } else if c == KEY_LEFT {
        Some(XWII_KEY_LEFT)
    } else if c == KEY_RIGHT {
        Some(XWII_KEY_RIGHT)
    } else if c == KEY_UP {
        Some(XWII_KEY_UP)
    } else if c == KEY_DOWN {
        Some(XWII_KEY_DOWN)
    } else if c == BTN_TL {
        Some(XWII_KEY_TL)
    } else if c == BTN_TR {
        Some(XWII_KEY_TR)
    } else if c == BTN_TL2 {
        Some(XWII_KEY_ZL)
    } else if c == BTN_TR2 {
        Some(XWII_KEY_ZR)
    } else {
        None
    }
}

/// The Pro Controller button of an evdev key code.
pub fn map_pro_key(c: u16) -> (r: Option<u32>)
    ensures
        r == pro_key(c),
{
    if c == BTN_EAST {
        Some(XWII_KEY_A)
    } else if c == BTN_SOUTH {
        Some(XWII_KEY_B)
    } else if c == BTN_NORTH {
        Some(XWII_KEY_X)
    } else if c == BTN_WEST {
        Some(XWII_KEY_Y)
    } else if c == BTN_START {
        Some(XWII_KEY_PLUS)
    } else if c == BTN_SELECT {
        Some(XWII_KEY_MINUS)
    } else if c == BTN_MODE {
        Some(XWII_KEY_HOME)
    } else if c == BTN_DPAD_LEFT {
        Some(XWII_KEY_LEFT)
    } else if c == BTN_DPAD_RIGHT {
        Some(XWII_KEY_RIGHT)
    } else if c == BTN_DPAD_UP {
        Some(XWII_KEY_UP)
    } else if c == BTN_DPAD_DOWN {
        Some(XWII_KEY_DOWN)
    } else if c == BTN_TL {
        Some(XWII_KEY_TL)
    } else if c == BTN_TR {
        Some(XWII_KEY_TR)
    } else if c == BTN_TL2 {
        Some(XWII_KEY_ZL)
    } else if c == BTN_TR2 {
        Some(XWII_KEY_ZR)
    } else if c == BTN_THUMBL {
        Some(XWII_KEY_THUMBL)
    } else if c == BTN_THUMBR {
        Some(XWII_KEY_THUMBR)
    } else {
        None
    }
}

/// The drums button of an evdev key code.
pub fn map_drums_key(c: u16) -> (r: Option<u32>)
    ensures
        r == drums_key(c),
{
    if c == BTN_START {
        Some(XWII_KEY_PLUS)
    } else if c == BTN_SELECT {
        Some(XWII_KEY_MINUS)
    } else {
        None
    }
}

/// The guitar button of an evdev key code.
pub fn map_guitar_key(c: u16) -> (r: Option<u32>)
    ensures
        r == guitar_key(c),
{
    if c == BTN_1 {
        Some(XWII_KEY_FRET_FAR_UP)
    } else if c == BTN_2 {
        Some(XWII_KEY_FRET_UP)
    } else if c == BTN_3 {
        Some(XWII_KEY_FRET_MID)
    } else if c == BTN_4 {
        Some(XWII_KEY_FRET_LOW)
    } else if c == BTN_5 {
        Some(XWII_KEY_FRET_FAR_LOW)
    } else if c == BTN_DPAD_UP {
        Some(XWII_KEY_STRUM_BAR_UP)
    } else if c == BTN_DPAD_DOWN {
        Some(XWII_KEY_STRUM_BAR_DOWN)
    } else if c == BTN_START {
        Some(XWII_KEY_PLUS)
    } else if c == BTN_SELECT {
        Some(XWII_KEY_MINUS)
    } else {
        None
    }
}

/// Every mapped key is a published xwiimote key.
pub proof fn lemma_mapped_keys_are_published(c: u16)
    ensures
        core_key(c) matches Some(k) ==> k < XWII_KEY_NUM,
        nunchuk_key(c) matches Some(k) ==> k < XWII_KEY_NUM,
        classic_key(c) matches Some(k) ==> k < XWII_KEY_NUM,
        pro_key(c) matches Some(k) ==> k < XWII_KEY_NUM,
        drums_key(c) matches Some(k) ==> k < XWII_KEY_NUM,
        guitar_key(c) matches Some(k) ==> k < XWII_KEY_NUM,
{
}

/// The absolute axis codes an interface reports, in report order.
pub open spec fn abs_code_seq(interface: InterfaceKind) -> Seq<u16> {
    match interface {
        InterfaceKind::Accel | InterfaceKind::MotionPlus => seq![ABS_RX, ABS_RY, ABS_RZ],
        InterfaceKind::Ir => seq![
            ABS_HAT0X,
            ABS_HAT0Y,
            ABS_HAT1X,
            ABS_HAT1Y,
            ABS_HAT2X,
            ABS_HAT2Y,
            ABS_HAT3X,
            ABS_HAT3Y,
        ],
        InterfaceKind::Nunchuk => seq![ABS_HAT0X, ABS_HAT0Y, ABS_RX, ABS_RY, ABS_RZ],
        InterfaceKind::Classic => seq![
            ABS_HAT1X,
            ABS_HAT1Y,
            ABS_HAT2X,
            ABS_HAT2Y,
            ABS_HAT3X,
            ABS_HAT3Y,
        ],
        InterfaceKind::BalanceBoard => seq![ABS_HAT0X, ABS_HAT0Y, ABS_HAT1X, ABS_HAT1Y],
        InterfaceKind::Pro => seq![ABS_X, ABS_Y, ABS_RX, ABS_RY],
        InterfaceKind::Drums => seq![
            ABS_X,
            ABS_Y,
            ABS_HAT2X,
            ABS_HAT2Y,
            ABS_HAT0X,
            ABS_HAT1X,
            ABS_HAT0Y,
            ABS_HAT3X,
            ABS_HAT3Y,
        ],
        InterfaceKind::Guitar => seq![ABS_X, ABS_Y, ABS_HAT1X, ABS_HAT0X],
        InterfaceKind::Core => seq![],
    }
}

/// The absolute axis codes an interface reports.
pub fn abs_codes(interface: InterfaceKind) -> (r: Vec<u16>)
    ensures
        r@ == abs_code_seq(interface),
{
    let r = match interface {
        InterfaceKind::Accel | InterfaceKind::MotionPlus => vec![ABS_RX, ABS_RY, ABS_RZ],
        InterfaceKind::Ir => vec![
            ABS_HAT0X,
            ABS_HAT0Y,
            ABS_HAT1X,
            ABS_HAT1Y,
            ABS_HAT2X,
            ABS_HAT2Y,
            ABS_HAT3X,
            ABS_HAT3Y,
        ],
        InterfaceKind::Nunchuk => vec![ABS_HAT0X, ABS_HAT0Y, ABS_RX, ABS_RY, ABS_RZ],
        InterfaceKind::Classic => vec![
            ABS_HAT1X,
            ABS_HAT1Y,
            ABS_HAT2X,
            ABS_HAT2Y,
            ABS_HAT3X,
            ABS_HAT3Y,
        ],
        InterfaceKind::BalanceBoard => vec![ABS_HAT0X, ABS_HAT0Y, ABS_HAT1X, ABS_HAT1Y],
        InterfaceKind::Pro => vec![ABS_X, ABS_Y, ABS_RX, ABS_RY],
        InterfaceKind::Drums => vec![
            ABS_X,
            ABS_Y,
            ABS_HAT2X,
            ABS_HAT2Y,
            ABS_HAT0X,
            ABS_HAT1X,
            ABS_HAT0Y,
            ABS_HAT3X,
            ABS_HAT3Y,
        ],
        InterfaceKind::Guitar => vec![ABS_X, ABS_Y, ABS_HAT1X, ABS_HAT0X],
        InterfaceKind::Core => Vec::new(),
    };
    assert(r@ =~= abs_code_seq(interface));
    r
}

/// Whether an interface reports the absolute axis `code`.
fn known_abs(interface: InterfaceKind, code: u16) -> (r: bool)
    ensures
        r == abs_code_seq(interface).contains(code),
{
    let codes = abs_codes(interface);
    let mut i: usize = 0;
    while i < codes.len()
        invariant
            codes@ == abs_code_seq(interface),
            i <= codes@.len(),
            forall|j: int| 0 <= j < i ==> codes@[j] != code,
        decreases codes@.len() - i,
    {
        if codes[i] == code {
            return true;
        }
        i = i + 1;
    }
    false
}


/// `v` limited to the range of `i32`.
pub open spec fn clamp_i32(v: int) -> int {
    if v < i32::MIN {
        i32::MIN as int
    } else if v > i32::MAX {
        i32::MAX as int
    } else {
        v
    }
}

/// Division by one hundred, truncated toward zero as Rust's integer `/` is.
pub open spec fn div100(v: int) -> int {
    if v >= 0 {
        v / 100
    } else {
        -((-v) / 100)
    }
}

/// The stored form of a calibration offset: a hundred times the value,
/// saturated to `i32`.
pub open spec fn scaled_offset(v: int) -> int {
    clamp_i32(v * 100)
}

/// One normalized axis: the sample less the current offset, and the offset
/// moved by `factor` toward the sample whenever the result is not zero.
pub open spec fn normalized_axis(value: int, offset: int, factor: int) -> (int, int) {
    let n = clamp_i32(value - div100(offset));
    let next = if n == 0 {
        offset
    } else if n > 0 {
        clamp_i32(offset + factor)
    } else {
        clamp_i32(offset - factor)
    };
    (n, next)
}

fn clamp_to_i32(v: i64) -> (r: i32)
    ensures
        r as int == clamp_i32(v as int),
{
    if v < i32::MIN as i64 {
        i32::MIN
    } else if v > i32::MAX as i64 {
        i32::MAX
    } else {
        v as i32
    }
}

fn div100_i64(v: i64) -> (r: i64)
    requires
        v > i64::MIN,
    ensures
        r as int == div100(v as int),
{
    if v >= 0 {
        ((v as u64) / 100) as i64
    } else {
        let m = (-v) as u64;
        -((m / 100) as i64)
    }
}

fn scale_offset(value: i32) -> (r: i32)
    ensures
        r as int == scaled_offset(value as int),
{
    clamp_to_i32((value as i64) * 100)
}

fn normalize_axis(value: i32, offset: &mut i32, factor: i32) -> (r: i32)
    ensures
        (r as int, *final(offset) as int) == normalized_axis(
            value as int,
            *old(offset) as int,
            factor as int,
        ),
{
    let normalized = clamp_to_i32(value as i64 - div100_i64(*offset as i64));
    if normalized != 0 {
        let step: i64 = if normalized > 0 {
            factor as i64
        } else {
            -(factor as i64)
        };
        *offset = clamp_to_i32(*offset as i64 + step);
    }
    normalized
}

/// MotionPlus drift compensation: per-axis offsets (kept a hundred times
/// finer than the samples) and the step by which they follow the input.
#[derive(Clone, Copy, Debug, Default, PartialEq, Eq)]
pub struct MotionPlusNormalizer {
    offsets: Abs,
    factor: i32,
}

impl View for MotionPlusNormalizer {
    /// The stored x, y and z offsets and the factor.
    type V = (i32, i32, i32, i32);

    closed spec fn view(&self) -> (i32, i32, i32, i32) {
        (self.offsets.x, self.offsets.y, self.offsets.z, self.factor)
    }
}

/// One normalized sample and the normalizer state after it.
pub open spec fn normalize_spec(n: (i32, i32, i32, i32), value: Abs) -> (Abs, (i32, i32, i32, i32)) {
    let (x, ox) = normalized_axis(value.x as int, n.0 as int, n.3 as int);
    let (y, oy) = normalized_axis(value.y as int, n.1 as int, n.3 as int);
    let (z, oz) = normalized_axis(value.z as int, n.2 as int, n.3 as int);
    (Abs { x: x as i32, y: y as i32, z: z as i32 }, (ox as i32, oy as i32, oz as i32, n.3))
}

impl MotionPlusNormalizer {
    /// A normalizer with zero offsets and zero factor, which passes samples
    /// through unchanged.
    pub fn new() -> (r: Self)
        ensures
            r@ == (0i32, 0i32, 0i32, 0i32),
    {
        Self { offsets: Abs { x: 0, y: 0, z: 0 }, factor: 0 }
    }

    /// Sets the offsets (in sample units) and the factor.
    pub fn set(&mut self, x: i32, y: i32, z: i32, factor: i32)
        ensures
            final(self)@ == (
                scaled_offset(x as int) as i32,
                scaled_offset(y as int) as i32,
                scaled_offset(z as int) as i32,
                factor,
            ),
    {
        self.offsets.x = scale_offset(x);
        self.offsets.y = scale_offset(y);
        self.offsets.z = scale_offset(z);
        self.factor = factor;
    }

    /// The offsets in sample units and the factor.
    pub fn values(&self) -> (r: (i32, i32, i32, i32))
        ensures
            r == (
                div100(self@.0 as int) as i32,
                div100(self@.1 as int) as i32,
                div100(self@.2 as int) as i32,
                self@.3,
            ),
    {
        (
            div100_i64(self.offsets.x as i64) as i32,
            div100_i64(self.offsets.y as i64) as i32,
            div100_i64(self.offsets.z as i64) as i32,
            self.factor,
        )
    }

    /// Normalizes one sample and lets the offsets follow it.
    pub fn normalize(&mut self, value: Abs) -> (r: Abs)
        ensures
            (r, final(self)@) == normalize_spec(old(self)@, value),
    {
        let x = normalize_axis(value.x, &mut self.offsets.x, self.factor);
        let y = normalize_axis(value.y, &mut self.offsets.y, self.factor);
        let z = normalize_axis(value.z, &mut self.offsets.z, self.factor);
        Abs { x, y, z }
    }
}

/// Offsets set through `set` read back through `values` as the values set,
/// except where a hundred times the value leaves the range of `i32`.
pub proof fn lemma_set_values_round_trip(x: i32, y: i32, z: i32, factor: i32)
    requires
        i32::MIN <= x * 100 <= i32::MAX,
        i32::MIN <= y * 100 <= i32::MAX,
        i32::MIN <= z * 100 <= i32::MAX,
    ensures
        div100(scaled_offset(x as int)) == x,
        div100(scaled_offset(y as int)) == y,
        div100(scaled_offset(z as int)) == z,
{
    assert(div100(x * 100) == x) by (nonlinear_arith);
    assert(div100(y * 100) == y) by (nonlinear_arith);
    assert(div100(z * 100) == z) by (nonlinear_arith);
}

/// A normalizer with a zero factor never moves its offsets, and with zero
/// offsets it passes every sample through unchanged.
pub proof fn lemma_zero_normalizer_is_identity(value: Abs)
    ensures
        normalize_spec((0i32, 0i32, 0i32, 0i32), value) == (value, (0i32, 0i32, 0i32, 0i32)),
{
}


/// How one axis offset moves after a normalized sample `out` (for a
/// non-negative factor `f`): up by `f` after a positive result, down by `f`
/// after a negative one, not at all after zero, always saturating at the
/// bounds of `i32`. The offset thus follows the sample, so drift is
/// compensated rather than amplified.
pub open spec fn offset_follows(out: i32, old: i32, next: i32, f: i32) -> bool {
    &&& out == 0 ==> next == old
    &&& out > 0 ==> next >= old && (old + f <= i32::MAX ==> next == old + f) && (old + f
        > i32::MAX ==> next == i32::MAX)
    &&& out < 0 ==> next <= old && (old - f >= i32::MIN ==> next == old - f) && (old - f
        < i32::MIN ==> next == i32::MIN)
}

/// A normalized sample is the raw sample less the offset in whole units
/// (the stored offset is a hundred times it, truncated toward zero),
/// saturated to `i32`; each offset then moves toward the sample by the
/// factor; the factor stays.
pub proof fn lemma_normalization_tracks_the_sample(n: (i32, i32, i32, i32), value: Abs)
    requires
        n.3 >= 0,
    ensures
        ({
            let (out, next) = normalize_spec(n, value);
            &&& next.3 == n.3
            &&& offset_follows(out.x, n.0, next.0, n.3)
            &&& offset_follows(out.y, n.1, next.1, n.3)
            &&& offset_follows(out.z, n.2, next.2, n.3)
            &&& n.0 >= 0 && value.x - n.0 / 100 >= i32::MIN ==> out.x == value.x - n.0 / 100
            &&& n.0 < 0 && value.x + (-n.0) / 100 <= i32::MAX ==> out.x == value.x + (-n.0) / 100
        }),
{
}

/// The same sample normalized twice in a row, with a positive factor: the
/// second result is no further from zero than the first and on the same
/// side or zero, so a constant drift shrinks.
pub proof fn lemma_repeated_sample_moves_toward_zero(n: (i32, i32, i32, i32), value: Abs)
    requires
        n.3 > 0,
    ensures
        ({
            let (first, mid) = normalize_spec(n, value);
            let (second, _) = normalize_spec(mid, value);
            &&& first.x < 0 ==> first.x <= second.x
            &&& first.x > 0 ==> second.x <= first.x
            &&& first.x == 0 ==> second.x == 0
        }),
{
    let (first, mid) = normalize_spec(n, value);
    assert(mid.0 <= n.0 ==> div100(mid.0 as int) <= div100(n.0 as int));
    assert(mid.0 >= n.0 ==> div100(mid.0 as int) >= div100(n.0 as int));
}

/// Number of 64-bit words of a key bitmap: `KEY_MAX` is 0x2ff on Linux, so
/// 768 key codes.
pub const KEY_WORDS: usize = 12;

/// The abstract state of [`RecoveryState`].
pub struct RecoveryView {
    /// The last known key bitmap, one bit per key code.
    pub state: Seq<u64>,
    /// The keys whose change still has to be reported.
    pub pending: Seq<u64>,
    pub desynced: bool,
    pub key_resync_pending: bool,
    pub report_resync_pending: bool,
    pub resync_time: Timeval,
}

/// Whether bit `b` of `w` is set.
pub open spec fn bit_set(w: u64, b: u64) -> bool {
    (w >> b) & 1u64 == 1u64
}

/// Word `i` of a caller-supplied key bitmap, zero past its end.
pub open spec fn key_word(keys: Seq<u64>, i: int) -> u64 {
    if 0 <= i < keys.len() {
        keys[i]
    } else {
        0
    }
}

/// The first index at or after `from` of a nonzero word, or the length.
pub open spec fn first_nonzero(p: Seq<u64>, from: int) -> int
    decreases p.len() - from,
{
    if from >= p.len() {
        p.len() as int
    } else if p[from] != 0 {
        from
    } else {
        first_nonzero(p, from + 1)
    }
}

/// The state after the kernel reported the key bitmap `keys` following a
/// drop: every key whose bit differs from the last known state is pending,
/// and an absolute report is pending when the interface has axes.
pub open spec fn seed_spec(v: RecoveryView, keys: Seq<u64>, time: Timeval, has_abs: bool) -> RecoveryView {
    let pending = Seq::new(KEY_WORDS as nat, |i: int| v.state[i] ^ key_word(keys, i));
    RecoveryView {
        state: Seq::new(KEY_WORDS as nat, |i: int| key_word(keys, i)),
        pending,
        desynced: false,
        key_resync_pending: exists|i: int| 0 <= i < KEY_WORDS && pending[i] != 0,
        report_resync_pending: has_abs,
        resync_time: time,
    }
}

/// The next synthetic key transition: the lowest pending key code, reported
/// with its current state at the resync time, and the state without it.
pub open spec fn next_key_spec(v: RecoveryView) -> (RecoveryView, Option<InputEvent>) {
    if !v.key_resync_pending {
        (v, None)
    } else {
        let i = first_nonzero(v.pending, 0);
        if i >= KEY_WORDS {
            (RecoveryView { key_resync_pending: false, ..v }, None)
        } else {
            let w = v.pending[i];
            let b = w.trailing_zeros() as u64;
            let event = InputEvent {
                time: v.resync_time,
                event_type: EV_KEY,
                code: (i * 64 + b) as u16,
                value: if bit_set(v.state[i], b) {
                    1
                } else {
                    0
                },
            };
            (RecoveryView { pending: v.pending.update(i, w & !(1u64 << b)), ..v }, Some(event))
        }
    }
}

/// The pending absolute report, stamped with the resync time, and the state
/// without it.
pub open spec fn take_report_spec(v: RecoveryView) -> (RecoveryView, Option<InputEvent>) {
    if !v.report_resync_pending {
        (v, None)
    } else {
        (
            RecoveryView { report_resync_pending: false, ..v },
            Some(
                InputEvent {
                    time: v.resync_time,
                    event_type: EV_SYN,
                    code: SYN_REPORT,
                    value: 0,
                },
            ),
        )
    }
}

/// The key bitmap after a key event: a valid key code (below 768) with a
/// valid value (0, 1 or 2) sets or clears its bit; anything else is ignored.
pub open spec fn remember_spec(state: Seq<u64>, input: InputEvent) -> Seq<u64> {
    if input.event_type != EV_KEY || input.code >= 768 || !(0 <= input.value <= 2) {
        state
    } else {
        let word = input.code / 64;
        let mask = 1u64 << (input.code % 64) as u64;
        if input.value == 0 {
            state.update(word as int, state[word as int] & !mask)
        } else {
            state.update(word as int, state[word as int] | mask)
        }
    }
}

/// State needed to reproduce libxwiimote's `SYN_DROPPED` recovery order.
#[derive(Clone, Debug)]
pub struct RecoveryState {
    key_state: [u64; KEY_WORDS],
    key_pending: [u64; KEY_WORDS],
    desynced: bool,
    key_resync_pending: bool,
    report_resync_pending: bool,
    resync_time: Timeval,
}

impl View for RecoveryState {
    type V = RecoveryView;

    closed spec fn view(&self) -> RecoveryView {
        RecoveryView {
            state: self.key_state@,
            pending: self.key_pending@,
            desynced: self.desynced,
            key_resync_pending: self.key_resync_pending,
            report_resync_pending: self.report_resync_pending,
            resync_time: self.resync_time,
        }
    }
}

impl Default for RecoveryState {
    fn default() -> (r: Self)
        ensures
            r@ == (RecoveryView {
                state: Seq::new(KEY_WORDS as nat, |i: int| 0u64),
                pending: Seq::new(KEY_WORDS as nat, |i: int| 0u64),
                desynced: false,
                key_resync_pending: false,
                report_resync_pending: false,
                resync_time: Timeval { tv_sec: 0, tv_usec: 0 },
            }),
    {
        let r = Self {
            key_state: [0; KEY_WORDS],
            key_pending: [0; KEY_WORDS],
            desynced: false,
            key_resync_pending: false,
            report_resync_pending: false,
            resync_time: Timeval { tv_sec: 0, tv_usec: 0 },
        };
        assert(r.key_state@ =~= Seq::new(KEY_WORDS as nat, |i: int| 0u64));
        assert(r.key_pending@ =~= Seq::new(KEY_WORDS as nat, |i: int| 0u64));
        r
    }
}

impl RecoveryState {
    /// Marks the stream as desynchronized after a `SYN_DROPPED`.
    pub fn dropped(&mut self)
        ensures
            final(self)@ == (RecoveryView { desynced: true, ..old(self)@ }),
    {
        self.desynced = true;
    }

    /// Whether events are being dropped until the state is taken over.
    pub fn is_desynced(&self) -> (r: bool)
        ensures
            r == self@.desynced,
    {
        self.desynced
    }

    /// Takes over the kernel's key bitmap at open time, without queueing any
    /// transition.
    pub fn initialize(&mut self, keys: &[u64])
        ensures
            final(self)@ == (RecoveryView {
                state: Seq::new(KEY_WORDS as nat, |i: int| key_word(keys@, i)),
                pending: Seq::new(KEY_WORDS as nat, |i: int| 0u64),
                desynced: false,
                key_resync_pending: false,
                report_resync_pending: false,
                ..old(self)@
            }),
    {
        self.key_pending = [0; KEY_WORDS];
        let mut i: usize = 0;
        while i < KEY_WORDS
            invariant
                i <= KEY_WORDS,
                self.key_pending@ =~= Seq::new(KEY_WORDS as nat, |k: int| 0u64),
                forall|k: int| 0 <= k < i ==> self.key_state@[k] == key_word(keys@, k),
                self.resync_time == old(self).resync_time,
            decreases KEY_WORDS - i,
        {
            let next = if i < keys.len() {
                keys[i]
            } else {
                0
            };
            self.key_state[i] = next;
            i = i + 1;
        }
        self.desynced = false;
        self.key_resync_pending = false;
        self.report_resync_pending = false;
        assert(self.key_state@ =~= Seq::new(KEY_WORDS as nat, |k: int| key_word(keys@, k)));
    }

    /// Takes over the kernel's key bitmap after a drop and queues one
    /// transition per changed key, then (when `has_abs`) one report.
    pub fn seed(&mut self, keys: &[u64], time: Timeval, has_abs: bool)
        ensures
            final(self)@ == seed_spec(old(self)@, keys@, time, has_abs),
    {
        let ghost old_state = self.key_state@;
        self.key_resync_pending = false;
        let mut i: usize = 0;
        while i < KEY_WORDS
            invariant
                i <= KEY_WORDS,
                old_state == old(self)@.state,
                old_state.len() == KEY_WORDS,
                forall|k: int| i <= k < KEY_WORDS ==> self.key_state@[k] == old_state[k],
                forall|k: int| 0 <= k < i ==> self.key_state@[k] == key_word(keys@, k),
                forall|k: int|
                    0 <= k < i ==> self.key_pending@[k] == old_state[k] ^ key_word(keys@, k),
                self.key_resync_pending == exists|k: int| 0 <= k < i && self.key_pending@[k] != 0,
            decreases KEY_WORDS - i,
        {
            let next = if i < keys.len() {
                keys[i]
            } else {
                0
            };
            let p = self.key_state[i] ^ next;
            let ghost before = self.key_pending@;
            self.key_pending[i] = p;
            if p != 0 {
                self.key_resync_pending = true;
            }
            self.key_state[i] = next;
            proof {
                assert(self.key_pending@[i as int] == p);
                assert forall|k: int| 0 <= k < i implies self.key_pending@[k] == before[k] by {}
                if p != 0 {
                    assert(0 <= i < i + 1 && self.key_pending@[i as int] != 0);
                }
            }
            i = i + 1;
        }
        self.resync_time = time;
        self.report_resync_pending = has_abs;
        self.desynced = false;
        assert(self.key_state@ =~= seed_spec(old(self)@, keys@, time, has_abs).state);
        assert(self.key_pending@ =~= seed_spec(old(self)@, keys@, time, has_abs).pending);
    }

    /// The next synthetic key transition after a drop, lowest key code first.
    pub fn next_key(&mut self) -> (r: Option<InputEvent>)
        ensures
            (final(self)@, r) == next_key_spec(old(self)@),
    {
        if !self.key_resync_pending {
            return None;
        }
        let mut i: usize = 0;
        while i < KEY_WORDS
            invariant
                i <= KEY_WORDS,
                self.key_pending@.len() == KEY_WORDS,
                self.key_state@.len() == KEY_WORDS,
                self@ == old(self)@,
                self.key_resync_pending,
                forall|k: int| 0 <= k < i ==> self.key_pending@[k] == 0,
                first_nonzero(self.key_pending@, 0) == first_nonzero(self.key_pending@, i as int),
            decreases KEY_WORDS - i,
        {
            let pending = self.key_pending[i];
            if pending != 0 {
                let bit = pending.trailing_zeros();
                proof {
                    vstd::std_specs::bits::axiom_u64_trailing_zeros(pending);
                }
                let b = bit as u64;
                self.key_pending[i] = pending & !(1u64 << b);
                let code = i * 64 + bit as usize;
                let value: i32 = if self.key_state[i] & (1u64 << b) != 0 {
                    1
                } else {
                    0
                };
                proof {
                    let w = self.key_state@[i as int];
                    assert((w & (1u64 << b) != 0) == ((w >> b) & 1u64 == 1u64)) by (bit_vector)
                        requires
                            b < 64,
                    ;
                    let ov = old(self)@;
                    assert(first_nonzero(ov.pending, i as int) == i);
                    assert(first_nonzero(ov.pending, 0) == i);
                    assert(self.key_pending@ =~= ov.pending.update(i as int, pending & !(1u64 << b)));
                }
                return Some(
                    InputEvent {
                        time: self.resync_time,
                        event_type: EV_KEY,
                        code: code as u16,
                        value,
                    },
                );
            }
            i = i + 1;
        }
        self.key_resync_pending = false;
        None
    }

    /// The absolute report queued after a drop, once.
    pub fn take_report(&mut self) -> (r: Option<InputEvent>)
        ensures
            (final(self)@, r) == take_report_spec(old(self)@),
    {
        if !self.report_resync_pending {
            return None;
        }
        self.report_resync_pending = false;
        Some(InputEvent { time: self.resync_time, event_type: EV_SYN, code: SYN_REPORT, value: 0 })
    }

    /// Whether a synthetic transition or report is still queued.
    pub fn has_pending(&self) -> (r: bool)
        ensures
            r == (self@.key_resync_pending || self@.report_resync_pending),
    {
        self.key_resync_pending || self.report_resync_pending
    }

    /// The last known key bitmap.
    pub fn key_state(&self) -> (r: &[u64; KEY_WORDS])
        ensures
            r@ == self@.state,
    {
        &self.key_state
    }

    /// Records a key event in the key bitmap.
    fn remember(&mut self, input: InputEvent)
        ensures
            final(self)@ == (RecoveryView {
                state: remember_spec(old(self)@.state, input),
                ..old(self)@
            }),
    {
        if input.event_type != EV_KEY || input.code as usize >= KEY_WORDS * 64 || !(0 <= input.value
            && input.value <= 2) {
            return;
        }
        let word = input.code as usize / 64;
        let mask = 1u64 << (input.code as usize % 64) as u64;
        if input.value == 0 {
            self.key_state[word] = self.key_state[word] & !mask;
        } else {
            self.key_state[word] = self.key_state[word] | mask;
        }
        assert(self.key_state@ =~= remember_spec(old(self)@.state, input));
    }
}


/// The last value of every absolute axis of every interface.
#[verifier::ext_equal]
#[derive(Clone, Debug)]
pub struct CacheState {
    pub accel: Abs,
    pub ir: [Abs; 4],
    pub motion_plus: Abs,
    pub nunchuk: [Abs; 2],
    pub classic: [Abs; 3],
    pub balance_board: [Abs; 4],
    pub pro: [Abs; 2],
    pub drums: [Abs; 8],
    pub guitar: [Abs; 3],
}

/// An axis triple at rest.
pub open spec fn zero_abs() -> Abs {
    Abs { x: 0, y: 0, z: 0 }
}

/// An unset IR slot: both coordinates at the 1023 sentinel.
pub open spec fn ir_unset() -> Abs {
    Abs { x: 1023, y: 1023, z: 0 }
}

/// The cache before any axis was reported: every axis zero, except the IR
/// slots, which start unset.
pub open spec fn initial_cache(c: CacheState) -> bool {
    &&& c.accel == zero_abs()
    &&& c.ir@ == seq![ir_unset(), ir_unset(), ir_unset(), ir_unset()]
    &&& c.motion_plus == zero_abs()
    &&& c.nunchuk@ == seq![zero_abs(), zero_abs()]
    &&& c.classic@ == seq![zero_abs(), zero_abs(), zero_abs()]
    &&& c.balance_board@ == seq![zero_abs(), zero_abs(), zero_abs(), zero_abs()]
    &&& c.pro@ == seq![zero_abs(), zero_abs()]
    &&& c.drums@ == Seq::new(8, |i: int| zero_abs())
    &&& c.guitar@ == seq![zero_abs(), zero_abs(), zero_abs()]
}

impl Default for CacheState {
    fn default() -> (r: Self)
        ensures
            initial_cache(r),
    {
        let z = Abs { x: 0, y: 0, z: 0 };
        let u = Abs { x: 1023, y: 1023, z: 0 };
        let r = Self {
            accel: z,
            ir: [u, u, u, u],
            motion_plus: z,
            nunchuk: [z, z],
            classic: [z, z, z],
            balance_board: [z, z, z, z],
            pro: [z, z],
            drums: [z, z, z, z, z, z, z, z],
            guitar: [z, z, z],
        };
        assert(r.ir@ =~= seq![ir_unset(), ir_unset(), ir_unset(), ir_unset()]);
        assert(r.nunchuk@ =~= seq![zero_abs(), zero_abs()]);
        assert(r.classic@ =~= seq![zero_abs(), zero_abs(), zero_abs()]);
        assert(r.balance_board@ =~= seq![zero_abs(), zero_abs(), zero_abs(), zero_abs()]);
        assert(r.pro@ =~= seq![zero_abs(), zero_abs()]);
        assert(r.drums@ =~= Seq::new(8, |i: int| zero_abs()));
        assert(r.guitar@ =~= seq![zero_abs(), zero_abs(), zero_abs()]);
        r
    }
}

/// The triple with `x` replaced.
pub open spec fn set_x(a: Abs, v: i32) -> Abs {
    Abs { x: v, ..a }
}

/// The triple with `y` replaced.
pub open spec fn set_y(a: Abs, v: i32) -> Abs {
    Abs { y: v, ..a }
}

/// The triple with `z` replaced.
pub open spec fn set_z(a: Abs, v: i32) -> Abs {
    Abs { z: v, ..a }
}

/// The cache after the absolute axis `code` of `interface` reported `value`;
/// codes the interface does not report leave it unchanged.  The slot order
/// follows libxwiimote, including its swapped Classic Controller triggers.
pub open spec fn abs_update(interface: InterfaceKind, c: CacheState, code: u16, value: i32) -> CacheState {
    match interface {
        InterfaceKind::Accel => CacheState {
            accel: if code == ABS_RX {
                set_x(c.accel, value)
            } else if code == ABS_RY {
                set_y(c.accel, value)
            } else if code == ABS_RZ {
                set_z(c.accel, value)
            } else {
                c.accel
            },
            ..c
        },
        InterfaceKind::MotionPlus => CacheState {
            motion_plus: if code == ABS_RX {
                set_x(c.motion_plus, value)
            } else if code == ABS_RY {
                set_y(c.motion_plus, value)
            } else if code == ABS_RZ {
                set_z(c.motion_plus, value)
            } else {
                c.motion_plus
            },
            ..c
        },
        InterfaceKind::Ir => CacheState {
            ir: if code == ABS_HAT0X {
                vstd::array::spec_array_update(c.ir, 0, set_x(c.ir@[0], value))
            } else if code == ABS_HAT0Y {
                vstd::array::spec_array_update(c.ir, 0, set_y(c.ir@[0], value))
            } else if code == ABS_HAT1X {
                vstd::array::spec_array_update(c.ir, 1, set_x(c.ir@[1], value))
            } else if code == ABS_HAT1Y {
                vstd::array::spec_array_update(c.ir, 1, set_y(c.ir@[1], value))
            } else if code == ABS_HAT2X {
                vstd::array::spec_array_update(c.ir, 2, set_x(c.ir@[2], value))
            } else if code == ABS_HAT2Y {
                vstd::array::spec_array_update(c.ir, 2, set_y(c.ir@[2], value))
            } else if code == ABS_HAT3X {
                vstd::array::spec_array_update(c.ir, 3, set_x(c.ir@[3], value))
            } else if code == ABS_HAT3Y {
                vstd::array::spec_array_update(c.ir, 3, set_y(c.ir@[3], value))
            } else {
                c.ir
            },
            ..c
        },
        InterfaceKind::Nunchuk => CacheState {
            nunchuk: if code == ABS_HAT0X {
                vstd::array::spec_array_update(c.nunchuk, 0, set_x(c.nunchuk@[0], value))
            } else if code == ABS_HAT0Y {
                vstd::array::spec_array_update(c.nunchuk, 0, set_y(c.nunchuk@[0], value))
            } else if code == ABS_RX {
                vstd::array::spec_array_update(c.nunchuk, 1, set_x(c.nunchuk@[1], value))
            } else if code == ABS_RY {
                vstd::array::spec_array_update(c.nunchuk, 1, set_y(c.nunchuk@[1], value))
            } else if code == ABS_RZ {
                vstd::array::spec_array_update(c.nunchuk, 1, set_z(c.nunchuk@[1], value))
            } else {
                c.nunchuk
            },
            ..c
        },
        InterfaceKind::Classic => CacheState {
            classic: if code == ABS_HAT1X {
                vstd::array::spec_array_update(c.classic, 0, set_x(c.classic@[0], value))
            } else if code == ABS_HAT1Y {
                vstd::array::spec_array_update(c.classic, 0, set_y(c.classic@[0], value))
            } else if code == ABS_HAT2X {
                vstd::array::spec_array_update(c.classic, 1, set_x(c.classic@[1], value))
            } else if code == ABS_HAT2Y {
                vstd::array::spec_array_update(c.classic, 1, set_y(c.classic@[1], value))
            } else if code == ABS_HAT3X {
                vstd::array::spec_array_update(c.classic, 2, set_y(c.classic@[2], value))
            } else if code == ABS_HAT3Y {
                vstd::array::spec_array_update(c.classic, 2, set_x(c.classic@[2], value))
            } else {
                c.classic
            },
            ..c
        },
        InterfaceKind::BalanceBoard => CacheState {
            balance_board: if code == ABS_HAT0X {
                vstd::array::spec_array_update(c.balance_board, 0, set_x(c.balance_board@[0], value))
            } else if code == ABS_HAT0Y {
                vstd::array::spec_array_update(c.balance_board, 1, set_x(c.balance_board@[1], value))
            } else if code == ABS_HAT1X {
                vstd::array::spec_array_update(c.balance_board, 2, set_x(c.balance_board@[2], value))
            } else if code == ABS_HAT1Y {
                vstd::array::spec_array_update(c.balance_board, 3, set_x(c.balance_board@[3], value))
            } else {
                c.balance_board
            },
            ..c
        },
        InterfaceKind::Pro => CacheState {
            pro: if code == ABS_X {
                vstd::array::spec_array_update(c.pro, 0, set_x(c.pro@[0], value))
            } else if code == ABS_Y {
                vstd::array::spec_array_update(c.pro, 0, set_y(c.pro@[0], value))
            } else if code == ABS_RX {
                vstd::array::spec_array_update(c.pro, 1, set_x(c.pro@[1], value))
            } else if code == ABS_RY {
                vstd::array::spec_array_update(c.pro, 1, set_y(c.pro@[1], value))
            } else {
                c.pro
            },
            ..c
        },
        InterfaceKind::Drums => CacheState {
            drums: if code == ABS_X {
                vstd::array::spec_array_update(c.drums, 0, set_x(c.drums@[0], value))
            } else if code == ABS_Y {
                vstd::array::spec_array_update(c.drums, 0, set_y(c.drums@[0], value))
            } else if code == ABS_HAT2X {
                vstd::array::spec_array_update(c.drums, 1, set_x(c.drums@[1], value))
            } else if code == ABS_HAT2Y {
                vstd::array::spec_array_update(c.drums, 2, set_x(c.drums@[2], value))
            } else if code == ABS_HAT0X {
                vstd::array::spec_array_update(c.drums, 3, set_x(c.drums@[3], value))
            } else if code == ABS_HAT1X {
                vstd::array::spec_array_update(c.drums, 4, set_x(c.drums@[4], value))
            } else if code == ABS_HAT0Y {
                vstd::array::spec_array_update(c.drums, 5, set_x(c.drums@[5], value))
            } else if code == ABS_HAT3X {
                vstd::array::spec_array_update(c.drums, 6, set_x(c.drums@[6], value))
            } else if code == ABS_HAT3Y {
                vstd::array::spec_array_update(c.drums, 7, set_x(c.drums@[7], value))
            } else {
                c.drums
            },
            ..c
        },
        InterfaceKind::Guitar => CacheState {
            guitar: if code == ABS_X {
                vstd::array::spec_array_update(c.guitar, 0, set_x(c.guitar@[0], value))
            } else if code == ABS_Y {
                vstd::array::spec_array_update(c.guitar, 0, set_y(c.guitar@[0], value))
            } else if code == ABS_HAT1X {
                vstd::array::spec_array_update(c.guitar, 1, set_x(c.guitar@[1], value))
            } else if code == ABS_HAT0X {
                vstd::array::spec_array_update(c.guitar, 2, set_x(c.guitar@[2], value))
            } else {
                c.guitar
            },
            ..c
        },
        InterfaceKind::Core => c,
    }
}


/// The cache after a sequence of absolute axis values, applied in order.
pub open spec fn abs_update_all(interface: InterfaceKind, c: CacheState, abs: Seq<(u16, i32)>) -> CacheState
    decreases abs.len(),
{
    if abs.len() == 0 {
        c
    } else {
        let prev = abs_update_all(interface, c, abs.drop_last());
        abs_update(interface, prev, abs.last().0, abs.last().1)
    }
}

/// The typed key event of a key input: values outside 0..=2 and codes the
/// interface does not map give nothing.
pub open spec fn decode_key_spec(interface: InterfaceKind, input: InputEvent) -> Option<Event> {
    if !(0 <= input.value <= 2) {
        None
    } else {
        let mapped = match interface {
            InterfaceKind::Core => core_key(input.code),
            InterfaceKind::Nunchuk => nunchuk_key(input.code),
            InterfaceKind::Classic => classic_key(input.code),
            InterfaceKind::Pro => pro_key(input.code),
            InterfaceKind::Drums => drums_key(input.code),
            InterfaceKind::Guitar => guitar_key(input.code),
            _ => None,
        };
        match mapped {
            None => None,
            Some(code) => {
                let key = Key { code, state: input.value as u32 };
                let kind = match interface {
                    InterfaceKind::Core => EventKind::Key(key),
                    InterfaceKind::Nunchuk => EventKind::NunchukKey(key),
                    InterfaceKind::Classic => EventKind::ClassicControllerKey(key),
                    InterfaceKind::Pro => EventKind::ProControllerKey(key),
                    InterfaceKind::Drums => EventKind::DrumsKey(key),
                    _ => EventKind::GuitarKey(key),
                };
                Some(Event { time: input.time, kind })
            },
        }
    }
}

/// The complete cached report of an interface at `time`, and the
/// normalizer state after it (only MotionPlus reports normalize).  The core
/// interface has no absolute report.
pub open spec fn report_spec(
    interface: InterfaceKind,
    c: CacheState,
    mp: (i32, i32, i32, i32),
    time: Timeval,
) -> (Option<Event>, (i32, i32, i32, i32)) {
    match interface {
        InterfaceKind::Accel => (Some(Event { time, kind: EventKind::Accel(c.accel) }), mp),
        InterfaceKind::Ir => (Some(Event { time, kind: EventKind::Ir(c.ir) }), mp),
        InterfaceKind::MotionPlus => {
            let (n, next) = normalize_spec(mp, c.motion_plus);
            (Some(Event { time, kind: EventKind::MotionPlus(n) }), next)
        },
        InterfaceKind::Nunchuk => (Some(Event { time, kind: EventKind::NunchukMove(c.nunchuk) }), mp),
        InterfaceKind::Classic => (
            Some(Event { time, kind: EventKind::ClassicControllerMove(c.classic) }),
            mp,
        ),
        InterfaceKind::BalanceBoard => (
            Some(Event { time, kind: EventKind::BalanceBoard(c.balance_board) }),
            mp,
        ),
        InterfaceKind::Pro => (Some(Event { time, kind: EventKind::ProControllerMove(c.pro) }), mp),
        InterfaceKind::Drums => (Some(Event { time, kind: EventKind::DrumsMove(c.drums) }), mp),
        InterfaceKind::Guitar => (Some(Event { time, kind: EventKind::GuitarMove(c.guitar) }), mp),
        InterfaceKind::Core => (None, mp),
    }
}

/// The recovery state a decoder starts with.
pub open spec fn initial_recovery() -> RecoveryView {
    RecoveryView {
        state: Seq::new(KEY_WORDS as nat, |i: int| 0u64),
        pending: Seq::new(KEY_WORDS as nat, |i: int| 0u64),
        desynced: false,
        key_resync_pending: false,
        report_resync_pending: false,
        resync_time: Timeval { tv_sec: 0, tv_usec: 0 },
    }
}

/// Pure decoder of one evdev node: the interface it belongs to, the axis
/// cache, the `SYN_DROPPED` recovery state and the MotionPlus normalizer.
pub struct Decoder {
    pub interface: InterfaceKind,
    pub cache: CacheState,
    pub recovery: RecoveryState,
    pub motion_plus: MotionPlusNormalizer,
}

/// Whether two decoders hold the same state.
pub open spec fn same_decoder(a: &Decoder, b: &Decoder) -> bool {
    &&& a.interface == b.interface
    &&& a.cache =~= b.cache
    &&& a.recovery@ == b.recovery@
    &&& a.motion_plus@ == b.motion_plus@
}

/// What [`Decoder::push`] does with one input event: `o` before, `n` after,
/// `r` the event returned.
pub open spec fn push_spec(o: &Decoder, input: InputEvent, n: &Decoder, r: Option<Event>) -> bool {
    &&& n.interface == o.interface
    &&& if o.recovery@.desynced {
        // Everything is dropped until the kernel state is seeded again.
        r is None && same_decoder(n, o)
    } else if input.event_type == EV_SYN && input.code == SYN_DROPPED {
        &&& r is None
        &&& n.recovery@ == (RecoveryView { desynced: true, ..o.recovery@ })
        &&& n.cache =~= o.cache
        &&& n.motion_plus@ == o.motion_plus@
    } else if input.event_type == EV_KEY {
        &&& r == decode_key_spec(o.interface, input)
        &&& n.recovery@ == (RecoveryView {
            state: remember_spec(o.recovery@.state, input),
            ..o.recovery@
        })
        &&& n.cache =~= o.cache
        &&& n.motion_plus@ == o.motion_plus@
    } else if input.event_type == EV_ABS {
        &&& r is None
        &&& n.cache =~= abs_update(o.interface, o.cache, input.code, input.value)
        &&& n.recovery@ == o.recovery@
        &&& n.motion_plus@ == o.motion_plus@
    } else if input.event_type == EV_SYN && input.code == SYN_REPORT {
        &&& (r, n.motion_plus@) == report_spec(o.interface, o.cache, o.motion_plus@, input.time)
        &&& n.cache =~= o.cache
        &&& n.recovery@ == o.recovery@
    } else {
        r is None && same_decoder(n, o)
    }
}

/// What [`Decoder::push_recovered`] does: pending key transitions first, in
/// key-code order, then the absolute report.
pub open spec fn push_recovered_spec(o: &Decoder, n: &Decoder, r: Option<Event>) -> bool {
    let (after_key, key) = next_key_spec(o.recovery@);
    &&& n.interface == o.interface
    &&& match key {
        Some(input) => {
            &&& r == decode_key_spec(o.interface, input)
            &&& n.recovery@ == after_key
            &&& n.cache =~= o.cache
            &&& n.motion_plus@ == o.motion_plus@
        },
        None => {
            let (after_report, report) = take_report_spec(after_key);
            &&& n.recovery@ == after_report
            &&& n.cache =~= o.cache
            &&& match report {
                Some(input) => (r, n.motion_plus@) == report_spec(
                    o.interface,
                    o.cache,
                    o.motion_plus@,
                    input.time,
                ),
                None => r is None && n.motion_plus@ == o.motion_plus@,
            }
        },
    }
}

impl Decoder {
    /// A decoder for `interface` with an empty cache, no key held and a
    /// pass-through normalizer.
    pub fn new(interface: InterfaceKind) -> (r: Self)
        ensures
            r.interface == interface,
            initial_cache(r.cache),
            r.recovery@ == initial_recovery(),
            r.motion_plus@ == (0i32, 0i32, 0i32, 0i32),
    {
        Self {
            interface,
            cache: CacheState::default(),
            recovery: RecoveryState::default(),
            motion_plus: MotionPlusNormalizer::new(),
        }
    }

    /// Sets the MotionPlus offsets and factor.
    pub fn set_mp_normalization(&mut self, x: i32, y: i32, z: i32, factor: i32)
        ensures
            final(self).motion_plus@ == (
                scaled_offset(x as int) as i32,
                scaled_offset(y as int) as i32,
                scaled_offset(z as int) as i32,
                factor,
            ),
            final(self).interface == old(self).interface,
            final(self).cache =~= old(self).cache,
            final(self).recovery@ == old(self).recovery@,
    {
        self.motion_plus.set(x, y, z, factor);
    }

    /// The MotionPlus offsets in sample units and the factor.
    pub fn mp_normalization(&self) -> (r: (i32, i32, i32, i32))
        ensures
            r == (
                div100(self.motion_plus@.0 as int) as i32,
                div100(self.motion_plus@.1 as int) as i32,
                div100(self.motion_plus@.2 as int) as i32,
                self.motion_plus@.3,
            ),
    {
        self.motion_plus.values()
    }

    /// Decodes one input event.  Key events give a key event when the
    /// interface maps the code; `SYN_REPORT` gives the complete cached
    /// report; absolute values only update the cache.
    pub fn push(&mut self, input: InputEvent) -> (r: Option<Event>)
        ensures
            push_spec(old(self), input, final(self), r),
    {
        if self.recovery.is_desynced() {
            return None;
        }
        if input.event_type == EV_SYN && input.code == SYN_DROPPED {
            self.recovery.dropped();
            return None;
        }
        if input.event_type == EV_KEY {
            self.recovery.remember(input);
            return self.decode_key(input);
        }
        if input.event_type == EV_ABS {
            self.update_abs(input.code, input.value);
            return None;
        }
        if input.event_type == EV_SYN && input.code == SYN_REPORT {
            return self.report(input.time);
        }
        None
    }

    /// Applies absolute values in order.
    fn update_abs_all(&mut self, abs: &[(u16, i32)])
        ensures
            final(self).cache =~= abs_update_all(old(self).interface, old(self).cache, abs@),
            final(self).interface == old(self).interface,
            final(self).recovery@ == old(self).recovery@,
            final(self).motion_plus@ == old(self).motion_plus@,
    {
        let mut i: usize = 0;
        while i < abs.len()
            invariant
                i <= abs@.len(),
                self.cache =~= abs_update_all(old(self).interface, old(self).cache, abs@.subrange(0, i as int)),
                self.interface == old(self).interface,
                self.recovery@ == old(self).recovery@,
                self.motion_plus@ == old(self).motion_plus@,
            decreases abs@.len() - i,
        {
            let (code, value) = abs[i];
            self.update_abs(code, value);
            proof {
                assert(abs@.subrange(0, i + 1).drop_last() =~= abs@.subrange(0, i as int));
            }
            i = i + 1;
        }
        assert(abs@.subrange(0, abs@.len() as int) =~= abs@);
    }

    /// Takes over the kernel state at open time: absolute values go to the
    /// cache and the key bitmap to the recovery state, without queueing any
    /// synthetic transition or report.
    pub fn seed_state(&mut self, keys: &[u64], abs: &[(u16, i32)])
        ensures
            final(self).interface == old(self).interface,
            final(self).cache =~= abs_update_all(old(self).interface, old(self).cache, abs@),
            final(self).recovery@ == (RecoveryView {
                state: Seq::new(KEY_WORDS as nat, |i: int| key_word(keys@, i)),
                pending: Seq::new(KEY_WORDS as nat, |i: int| 0u64),
                desynced: false,
                key_resync_pending: false,
                report_resync_pending: false,
                ..old(self).recovery@
            }),
            final(self).motion_plus@ == old(self).motion_plus@,
    {
        self.update_abs_all(abs);
        self.recovery.initialize(keys);
    }

    /// Takes over the kernel state after a drop.  The synthetic key
    /// transitions and, for interfaces with axes, one report can then be
    /// taken in order with [`Self::push_recovered`].
    pub fn recover(&mut self, keys: &[u64], abs: &[(u16, i32)], time: Timeval)
        ensures
            final(self).interface == old(self).interface,
            final(self).cache =~= abs_update_all(old(self).interface, old(self).cache, abs@),
            final(self).recovery@ == seed_spec(
                old(self).recovery@,
                keys@,
                time,
                abs_code_seq(old(self).interface).len() > 0,
            ),
            final(self).motion_plus@ == old(self).motion_plus@,
    {
        self.update_abs_all(abs);
        let has_abs = abs_codes(self.interface).len() > 0;
        self.recovery.seed(keys, time, has_abs);
    }

    /// The next synthetic event after a drop: key transitions first, lowest
    /// key code first, then the absolute report; `None` when nothing is
    /// queued.
    pub fn push_recovered(&mut self) -> (r: Option<Event>)
        ensures
            push_recovered_spec(old(self), final(self), r),
    {
        if let Some(input) = self.recovery.next_key() {
            return self.decode_key(input);
        }
        if let Some(input) = self.recovery.take_report() {
            return self.push_report(input);
        }
        None
    }

    fn push_report(&mut self, input: InputEvent) -> (r: Option<Event>)
        ensures
            (r, final(self).motion_plus@) == report_spec(
                old(self).interface,
                old(self).cache,
                old(self).motion_plus@,
                input.time,
            ),
            final(self).interface == old(self).interface,
            final(self).cache =~= old(self).cache,
            final(self).recovery@ == old(self).recovery@,
    {
        self.report(input.time)
    }

    fn report(&mut self, time: Timeval) -> (r: Option<Event>)
        ensures
            (r, final(self).motion_plus@) == report_spec(
                old(self).interface,
                old(self).cache,
                old(self).motion_plus@,
                time,
            ),
            final(self).interface == old(self).interface,
            final(self).cache =~= old(self).cache,
            final(self).recovery@ == old(self).recovery@,
    {
        let kind = match self.interface {
            InterfaceKind::Accel => EventKind::Accel(self.cache.accel),
            InterfaceKind::Ir => EventKind::Ir(self.cache.ir),
            InterfaceKind::MotionPlus => EventKind::MotionPlus(
                self.motion_plus.normalize(self.cache.motion_plus),
            ),
            InterfaceKind::Nunchuk => EventKind::NunchukMove(self.cache.nunchuk),
            InterfaceKind::Classic => EventKind::ClassicControllerMove(self.cache.classic),
            InterfaceKind::BalanceBoard => EventKind::BalanceBoard(self.cache.balance_board),
            InterfaceKind::Pro => EventKind::ProControllerMove(self.cache.pro),
            InterfaceKind::Drums => EventKind::DrumsMove(self.cache.drums),
            InterfaceKind::Guitar => EventKind::GuitarMove(self.cache.guitar),
            InterfaceKind::Core => {
                return None;
            },
        };
        Some(Event { time, kind })
    }

    fn decode_key(&self, input: InputEvent) -> (r: Option<Event>)
        ensures
            r == decode_key_spec(self.interface, input),
    {
        if !(0 <= input.value && input.value <= 2) {
            return None;
        }
        let mapped = match self.interface {
            InterfaceKind::Core => map_core_key(input.code),
            InterfaceKind::Nunchuk => map_nunchuk_key(input.code),
            InterfaceKind::Classic => map_classic_key(input.code),
            InterfaceKind::Pro => map_pro_key(input.code),
            InterfaceKind::Drums => map_drums_key(input.code),
            InterfaceKind::Guitar => map_guitar_key(input.code),
            _ => None,
        };
        let code = match mapped {
            Some(code) => code,
            None => {
                return None;
            },
        };
        let key = Key { code, state: input.value as u32 };
        let kind = match self.interface {
            InterfaceKind::Core => EventKind::Key(key),
            InterfaceKind::Nunchuk => EventKind::NunchukKey(key),
            InterfaceKind::Classic => EventKind::ClassicControllerKey(key),
            InterfaceKind::Pro => EventKind::ProControllerKey(key),
            InterfaceKind::Drums => EventKind::DrumsKey(key),
            _ => EventKind::GuitarKey(key),
        };
        Some(Event { time: input.time, kind })
    }

    /// Stores one absolute axis value and tells whether the interface
    /// reports that axis; values of other axes are ignored.
    pub fn update_abs_cache(&mut self, code: u16, value: i32) -> (r: bool)
        ensures
            r == abs_code_seq(old(self).interface).contains(code),
            final(self).cache =~= abs_update(old(self).interface, old(self).cache, code, value),
            !r ==> final(self).cache =~= old(self).cache,
            final(self).interface == old(self).interface,
            final(self).recovery@ == old(self).recovery@,
            final(self).motion_plus@ == old(self).motion_plus@,
    {
        if !known_abs(self.interface, code) {
            proof {
                lemma_unknown_abs_is_ignored(self.interface, self.cache, code, value);
            }
            return false;
        }
        self.update_abs(code, value);
        true
    }

    /// Stores one absolute axis value in the cache.
    fn update_abs(&mut self, code: u16, value: i32)
        ensures
            final(self).cache =~= abs_update(old(self).interface, old(self).cache, code, value),
            final(self).interface == old(self).interface,
            final(self).recovery@ == old(self).recovery@,
            final(self).motion_plus@ == old(self).motion_plus@,
    {
        match self.interface {
            InterfaceKind::Accel => {
                if code == ABS_RX {
                    self.cache.accel.x = value;
                } else if code == ABS_RY {
                    self.cache.accel.y = value;
                } else if code == ABS_RZ {
                    self.cache.accel.z = value;
                }
            },
            InterfaceKind::MotionPlus => {
                if code == ABS_RX {
                    self.cache.motion_plus.x = value;
                } else if code == ABS_RY {
                    self.cache.motion_plus.y = value;
                } else if code == ABS_RZ {
                    self.cache.motion_plus.z = value;
                }
            },
            InterfaceKind::Ir => {
                if code == ABS_HAT0X {
                    self.cache.ir[0].x = value;
                } else if code == ABS_HAT0Y {
                    self.cache.ir[0].y = value;
                } else if code == ABS_HAT1X {
                    self.cache.ir[1].x = value;
                } else if code == ABS_HAT1Y {
                    self.cache.ir[1].y = value;
                } else if code == ABS_HAT2X {
                    self.cache.ir[2].x = value;
                } else if code == ABS_HAT2Y {
                    self.cache.ir[2].y = value;
                } else if code == ABS_HAT3X {
                    self.cache.ir[3].x = value;
                } else if code == ABS_HAT3Y {
                    self.cache.ir[3].y = value;
                }
            },
            InterfaceKind::Nunchuk => {
                if code == ABS_HAT0X {
                    self.cache.nunchuk[0].x = value;
                } else if code == ABS_HAT0Y {
                    self.cache.nunchuk[0].y = value;
                } else if code == ABS_RX {
                    self.cache.nunchuk[1].x = value;
                } else if code == ABS_RY {
                    self.cache.nunchuk[1].y = value;
                } else if code == ABS_RZ {
                    self.cache.nunchuk[1].z = value;
                }
            },
            InterfaceKind::Classic => {
                if code == ABS_HAT1X {
                    self.cache.classic[0].x = value;
                } else if code == ABS_HAT1Y {
                    self.cache.classic[0].y = value;
                } else if code == ABS_HAT2X {
                    self.cache.classic[1].x = value;
                } else if code == ABS_HAT2Y {
                    self.cache.classic[1].y = value;
                } else if code == ABS_HAT3X {
                    self.cache.classic[2].y = value;
                } else if code == ABS_HAT3Y {
                    self.cache.classic[2].x = value;
                }
            },
            InterfaceKind::BalanceBoard => {
                if code == ABS_HAT0X {
                    self.cache.balance_board[0].x = value;
                } else if code == ABS_HAT0Y {
                    self.cache.balance_board[1].x = value;
                } else if code == ABS_HAT1X {
                    self.cache.balance_board[2].x = value;
                } else if code == ABS_HAT1Y {
                    self.cache.balance_board[3].x = value;
                }
            },
            InterfaceKind::Pro => {
                if code == ABS_X {
                    self.cache.pro[0].x = value;
                } else if code == ABS_Y {
                    self.cache.pro[0].y = value;
                } else if code == ABS_RX {
                    self.cache.pro[1].x = value;
                } else if code == ABS_RY {
                    self.cache.pro[1].y = value;
                }
            },
            InterfaceKind::Drums => {
                if code == ABS_X {
                    self.cache.drums[0].x = value;
                } else if code == ABS_Y {
                    self.cache.drums[0].y = value;
                } else if code == ABS_HAT2X {
                    self.cache.drums[1].x = value;
                } else if code == ABS_HAT2Y {
                    self.cache.drums[2].x = value;
                } else if code == ABS_HAT0X {
                    self.cache.drums[3].x = value;
                } else if code == ABS_HAT1X {
                    self.cache.drums[4].x = value;
                } else if code == ABS_HAT0Y {
                    self.cache.drums[5].x = value;
                } else if code == ABS_HAT3X {
                    self.cache.drums[6].x = value;
                } else if code == ABS_HAT3Y {
                    self.cache.drums[7].x = value;
                }
            },
            InterfaceKind::Guitar => {
                if code == ABS_X {
                    self.cache.guitar[0].x = value;
                } else if code == ABS_Y {
                    self.cache.guitar[0].y = value;
                } else if code == ABS_HAT1X {
                    self.cache.guitar[1].x = value;
                } else if code == ABS_HAT0X {
                    self.cache.guitar[2].x = value;
                }
            },
            InterfaceKind::Core => {},
        }
    }
}

/// An axis value of an axis the interface does not report leaves the cache
/// unchanged.
pub proof fn lemma_unknown_abs_is_ignored(interface: InterfaceKind, c: CacheState, code: u16, value: i32)
    requires
        !abs_code_seq(interface).contains(code),
    ensures
        abs_update(interface, c, code, value) =~= c,
{
    let codes = abs_code_seq(interface);
    assert forall|k: u16| #[trigger] codes.contains(k) <==> codes.contains(k) by {}
    match interface {
        InterfaceKind::Accel | InterfaceKind::MotionPlus => {
            assert(codes[0] == ABS_RX && codes[1] == ABS_RY && codes[2] == ABS_RZ);
        },
        InterfaceKind::Ir => {
            assert(codes[0] == ABS_HAT0X && codes[1] == ABS_HAT0Y && codes[2] == ABS_HAT1X
                && codes[3] == ABS_HAT1Y && codes[4] == ABS_HAT2X && codes[5] == ABS_HAT2Y
                && codes[6] == ABS_HAT3X && codes[7] == ABS_HAT3Y);
        },
        InterfaceKind::Nunchuk => {
            assert(codes[0] == ABS_HAT0X && codes[1] == ABS_HAT0Y && codes[2] == ABS_RX
                && codes[3] == ABS_RY && codes[4] == ABS_RZ);
        },
        InterfaceKind::Classic => {
            assert(codes[0] == ABS_HAT1X && codes[1] == ABS_HAT1Y && codes[2] == ABS_HAT2X
                && codes[3] == ABS_HAT2Y && codes[4] == ABS_HAT3X && codes[5] == ABS_HAT3Y);
        },
        InterfaceKind::BalanceBoard => {
            assert(codes[0] == ABS_HAT0X && codes[1] == ABS_HAT0Y && codes[2] == ABS_HAT1X
                && codes[3] == ABS_HAT1Y);
        },
        InterfaceKind::Pro => {
            assert(codes[0] == ABS_X && codes[1] == ABS_Y && codes[2] == ABS_RX && codes[3]
                == ABS_RY);
        },
        InterfaceKind::Drums => {
            assert(codes[0] == ABS_X && codes[1] == ABS_Y && codes[2] == ABS_HAT2X && codes[3]
                == ABS_HAT2Y && codes[4] == ABS_HAT0X && codes[5] == ABS_HAT1X && codes[6]
                == ABS_HAT0Y && codes[7] == ABS_HAT3X && codes[8] == ABS_HAT3Y);
        },
        InterfaceKind::Guitar => {
            assert(codes[0] == ABS_X && codes[1] == ABS_Y && codes[2] == ABS_HAT1X && codes[3]
                == ABS_HAT0X);
        },
        InterfaceKind::Core => {},
    }
}


/// Clearing the lowest set bit of a word leaves a word whose lowest set bit
/// is higher, or no set bit at all.
proof fn lemma_clear_lowest_bit(w: u64)
    requires
        w != 0,
    ensures
        ({
            let b = w.trailing_zeros() as u64;
            let rest = w & !(1u64 << b);
            rest == 0 || rest.trailing_zeros() > b
        }),
{
    vstd::std_specs::bits::axiom_u64_trailing_zeros(w);
    let b = w.trailing_zeros() as u64;
    let rest = w & !(1u64 << b);
    if rest != 0 {
        vstd::std_specs::bits::axiom_u64_trailing_zeros(rest);
        let t = rest.trailing_zeros() as u64;
        assert(t < 64);
        if t <= b {
            if t < b {
                assert((w >> t) & 1u64 == 0u64);
                assert((w >> t) & 1u64 == 0u64 ==> (rest >> t) & 1u64 == 0u64) by (bit_vector)
                    requires
                        rest == w & !(1u64 << b),
                        t < b,
                        b < 64,
                ;
            } else {
                assert((rest >> t) & 1u64 == 0u64) by (bit_vector)
                    requires
                        rest == w & !(1u64 << b),
                        t == b,
                        b < 64,
                ;
            }
        }
    }
}

proof fn lemma_first_nonzero_bounds(p: Seq<u64>, from: int)
    requires
        0 <= from,
    ensures
        from <= first_nonzero(p, from) || p.len() <= from,
        first_nonzero(p, from) <= p.len() || from > p.len(),
        first_nonzero(p, from) < p.len() ==> p[first_nonzero(p, from)] != 0,
        forall|j: int| from <= j < first_nonzero(p, from) && j < p.len() ==> p[j] == 0,
    decreases p.len() - from,
{
    if from < p.len() && p[from] == 0 {
        lemma_first_nonzero_bounds(p, from + 1);
    }
}

/// Synthetic key transitions after a drop come out in strictly increasing
/// key-code order.
pub proof fn lemma_recovered_keys_increase(v: RecoveryView)
    requires
        v.state.len() == KEY_WORDS,
        v.pending.len() == KEY_WORDS,
        next_key_spec(v).1 is Some,
        next_key_spec(next_key_spec(v).0).1 is Some,
    ensures
        next_key_spec(v).1.unwrap().code < next_key_spec(next_key_spec(v).0).1.unwrap().code,
{
    let p = v.pending;
    lemma_first_nonzero_bounds(p, 0);
    let i = first_nonzero(p, 0);
    let w = p[i];
    let b = w.trailing_zeros() as u64;
    vstd::std_specs::bits::axiom_u64_trailing_zeros(w);
    let v1 = next_key_spec(v).0;
    let p1 = v1.pending;
    lemma_first_nonzero_bounds(p1, 0);
    let i1 = first_nonzero(p1, 0);
    lemma_clear_lowest_bit(w);
    if i1 < i {
        assert(p1[i1] == p[i1]);
    }
    assert(i <= i1);
    let b1 = p1[i1].trailing_zeros() as u64;
    vstd::std_specs::bits::axiom_u64_trailing_zeros(p1[i1]);
    assert(i == i1 ==> b < b1);
    assert(i * 64 + b < i1 * 64 + b1);
    assert(i1 * 64 + b1 < 768);
}

/// Seeding with exactly the key bitmap already known queues no key
/// transition: after a drop, only keys whose state changed are replayed.
pub proof fn lemma_seed_unchanged_keys_queues_nothing(v: RecoveryView, time: Timeval, has_abs: bool)
    requires
        v.state.len() == KEY_WORDS,
    ensures
        !seed_spec(v, v.state, time, has_abs).key_resync_pending,
        next_key_spec(seed_spec(v, v.state, time, has_abs)).1 is None,
{
    let n = seed_spec(v, v.state, time, has_abs);
    assert forall|i: int| 0 <= i < KEY_WORDS implies n.pending[i] == 0 by {
        let w = v.state[i];
        assert(w ^ w == 0) by (bit_vector);
    }
}

/// The queued report comes out once: a second take gives nothing.
pub proof fn lemma_report_taken_once(v: RecoveryView)
    ensures
        take_report_spec(take_report_spec(v).0).1 is None,
        take_report_spec(v).1 is Some <==> v.report_resync_pending,
{
}

} // verus!
