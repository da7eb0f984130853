//! C-compatible data types and numeric constants of the xwiimote interface.
//!
//! Numeric fields stay plain integers rather than Rust enums, so that values
//! introduced by a newer library remain representable by older clients.

use vstd::prelude::*;

verus! {

// The kernel's input device names of each interface.
pub const XWII_NAME_CORE: &'static str = "Nintendo Wii Remote";
pub const XWII_NAME_ACCEL: &'static str = "Nintendo Wii Remote Accelerometer";
pub const XWII_NAME_IR: &'static str = "Nintendo Wii Remote IR";
pub const XWII_NAME_MOTION_PLUS: &'static str = "Nintendo Wii Remote Motion Plus";
pub const XWII_NAME_NUNCHUK: &'static str = "Nintendo Wii Remote Nunchuk";
pub const XWII_NAME_CLASSIC_CONTROLLER: &'static str = "Nintendo Wii Remote Classic Controller";
pub const XWII_NAME_BALANCE_BOARD: &'static str = "Nintendo Wii Remote Balance Board";
pub const XWII_NAME_PRO_CONTROLLER: &'static str = "Nintendo Wii Remote Pro Controller";
pub const XWII_NAME_DRUMS: &'static str = "Nintendo Wii Remote Drums";
pub const XWII_NAME_GUITAR: &'static str = "Nintendo Wii Remote Guitar";

// Event types.
pub const XWII_EVENT_KEY: u32 = 0;
pub const XWII_EVENT_ACCEL: u32 = 1;
pub const XWII_EVENT_IR: u32 = 2;
pub const XWII_EVENT_BALANCE_BOARD: u32 = 3;
pub const XWII_EVENT_MOTION_PLUS: u32 = 4;
pub const XWII_EVENT_PRO_CONTROLLER_KEY: u32 = 5;
pub const XWII_EVENT_PRO_CONTROLLER_MOVE: u32 = 6;
pub const XWII_EVENT_WATCH: u32 = 7;
pub const XWII_EVENT_CLASSIC_CONTROLLER_KEY: u32 = 8;
pub const XWII_EVENT_CLASSIC_CONTROLLER_MOVE: u32 = 9;
pub const XWII_EVENT_NUNCHUK_KEY: u32 = 10;
pub const XWII_EVENT_NUNCHUK_MOVE: u32 = 11;
pub const XWII_EVENT_DRUMS_KEY: u32 = 12;
pub const XWII_EVENT_DRUMS_MOVE: u32 = 13;
pub const XWII_EVENT_GUITAR_KEY: u32 = 14;
pub const XWII_EVENT_GUITAR_MOVE: u32 = 15;
pub const XWII_EVENT_GONE: u32 = 16;
pub const XWII_EVENT_NUM: u32 = 17;

// Button codes.
pub const XWII_KEY_LEFT: u32 = 0;
pub const XWII_KEY_RIGHT: u32 = 1;
pub const XWII_KEY_UP: u32 = 2;
pub const XWII_KEY_DOWN: u32 = 3;
pub const XWII_KEY_A: u32 = 4;
pub const XWII_KEY_B: u32 = 5;
pub const XWII_KEY_PLUS: u32 = 6;
pub const XWII_KEY_MINUS: u32 = 7;
pub const XWII_KEY_HOME: u32 = 8;
pub const XWII_KEY_ONE: u32 = 9;
pub const XWII_KEY_TWO: u32 = 10;
pub const XWII_KEY_X: u32 = 11;
pub const XWII_KEY_Y: u32 = 12;
pub const XWII_KEY_TL: u32 = 13;
pub const XWII_KEY_TR: u32 = 14;
pub const XWII_KEY_ZL: u32 = 15;
pub const XWII_KEY_ZR: u32 = 16;
pub const XWII_KEY_THUMBL: u32 = 17;
pub const XWII_KEY_THUMBR: u32 = 18;
pub const XWII_KEY_C: u32 = 19;
pub const XWII_KEY_Z: u32 = 20;
pub const XWII_KEY_STRUM_BAR_UP: u32 = 21;
pub const XWII_KEY_STRUM_BAR_DOWN: u32 = 22;
pub const XWII_KEY_FRET_FAR_UP: u32 = 23;
pub const XWII_KEY_FRET_UP: u32 = 24;
pub const XWII_KEY_FRET_MID: u32 = 25;
pub const XWII_KEY_FRET_LOW: u32 = 26;
pub const XWII_KEY_FRET_FAR_LOW: u32 = 27;
pub const XWII_KEY_NUM: u32 = 28;

// Slots of the drums' axis report, and the size of an axis report.
pub const XWII_DRUMS_ABS_PAD: usize = 0;
pub const XWII_DRUMS_ABS_CYMBAL_LEFT: usize = 1;
pub const XWII_DRUMS_ABS_CYMBAL_RIGHT: usize = 2;
pub const XWII_DRUMS_ABS_TOM_LEFT: usize = 3;
pub const XWII_DRUMS_ABS_TOM_RIGHT: usize = 4;
pub const XWII_DRUMS_ABS_TOM_FAR_RIGHT: usize = 5;
pub const XWII_DRUMS_ABS_BASS: usize = 6;
pub const XWII_DRUMS_ABS_HI_HAT: usize = 7;
pub const XWII_DRUMS_ABS_NUM: usize = 8;
pub const XWII_ABS_NUM: usize = 8;

// Interface bits.
pub const XWII_IFACE_CORE: u32 = 0x000001;
pub const XWII_IFACE_ACCEL: u32 = 0x000002;
pub const XWII_IFACE_IR: u32 = 0x000004;
pub const XWII_IFACE_MOTION_PLUS: u32 = 0x000100;
pub const XWII_IFACE_NUNCHUK: u32 = 0x000200;
pub const XWII_IFACE_CLASSIC_CONTROLLER: u32 = 0x000400;
pub const XWII_IFACE_BALANCE_BOARD: u32 = 0x000800;
pub const XWII_IFACE_PRO_CONTROLLER: u32 = 0x001000;
pub const XWII_IFACE_DRUMS: u32 = 0x002000;
pub const XWII_IFACE_GUITAR: u32 = 0x004000;
pub const XWII_IFACE_ALL: u32 = 0x007f07;
pub const XWII_IFACE_WRITABLE: u32 = 0x010000;
// LED numbers.
pub const XWII_LED1: u32 = 1;
pub const XWII_LED2: u32 = 2;
pub const XWII_LED3: u32 = 3;
pub const XWII_LED4: u32 = 4;

/// Linux evdev event kinds used by the decoder.
pub const EV_SYN: u16 = 0;
pub const EV_KEY: u16 = 1;
pub const EV_ABS: u16 = 3;
pub const SYN_REPORT: u16 = 0;
pub const SYN_DROPPED: u16 = 3;

// Linux evdev key and absolute-axis codes, as in `linux/input-event-codes.h`.
pub const KEY_LEFT: u16 = 105;
pub const KEY_RIGHT: u16 = 106;
pub const KEY_UP: u16 = 103;
pub const KEY_DOWN: u16 = 108;
pub const KEY_NEXT: u16 = 0x197;
pub const KEY_PREVIOUS: u16 = 0x19c;
pub const BTN_1: u16 = 0x101;
pub const BTN_2: u16 = 0x102;
pub const BTN_3: u16 = 0x103;
pub const BTN_4: u16 = 0x104;
pub const BTN_5: u16 = 0x105;
pub const BTN_A: u16 = 0x130;
pub const BTN_B: u16 = 0x131;
pub const BTN_C: u16 = 0x132;
pub const BTN_X: u16 = 0x133;
pub const BTN_Y: u16 = 0x134;
pub const BTN_Z: u16 = 0x135;
pub const BTN_TL: u16 = 0x136;
pub const BTN_TR: u16 = 0x137;
pub const BTN_TL2: u16 = 0x138;
pub const BTN_TR2: u16 = 0x139;
pub const BTN_SELECT: u16 = 0x13a;
pub const BTN_START: u16 = 0x13b;
pub const BTN_MODE: u16 = 0x13c;
pub const BTN_THUMBL: u16 = 0x13d;
pub const BTN_THUMBR: u16 = 0x13e;
pub const BTN_DPAD_UP: u16 = 0x220;
pub const BTN_DPAD_DOWN: u16 = 0x221;
pub const BTN_DPAD_LEFT: u16 = 0x222;
pub const BTN_DPAD_RIGHT: u16 = 0x223;
pub const BTN_EAST: u16 = 0x131;
pub const BTN_SOUTH: u16 = 0x130;
pub const BTN_NORTH: u16 = 0x133;
pub const BTN_WEST: u16 = 0x134;
pub const ABS_X: u16 = 0;
pub const ABS_Y: u16 = 1;
pub const ABS_RX: u16 = 3;
pub const ABS_RY: u16 = 4;
pub const ABS_RZ: u16 = 5;
pub const ABS_HAT0X: u16 = 16;
pub const ABS_HAT0Y: u16 = 17;
pub const ABS_HAT1X: u16 = 18;
pub const ABS_HAT1Y: u16 = 19;
pub const ABS_HAT2X: u16 = 20;
pub const ABS_HAT2Y: u16 = 21;
pub const ABS_HAT3X: u16 = 22;
pub const ABS_HAT3Y: u16 = 23;

/// C `struct xwii_event_key`.
#[derive(Clone, Copy, Debug, Default, PartialEq, Eq, Structural)]
pub struct CEventKey {
    pub code: u32,
    pub state: u32,
}

/// C `struct xwii_event_abs`.
#[derive(Clone, Copy, Debug, Default, PartialEq, Eq, Structural)]
pub struct CEventAbs {
    pub x: i32,
    pub y: i32,
    pub z: i32,
}

/// A point in time as the kernel reports it: seconds and microseconds.
#[derive(Clone, Copy, Debug, Default, PartialEq, Eq, Structural)]
pub struct Timeval {
    pub tv_sec: i64,
    pub tv_usec: i64,
}

/// A raw Linux input event, as fed to the decoder.
#[derive(Clone, Copy, Debug, Default, PartialEq, Eq, Structural)]
pub struct InputEvent {
    pub time: Timeval,
    pub event_type: u16,
    pub code: u16,
    pub value: i32,
}

/// A set of xwiimote interfaces, held as the C bit mask.
#[derive(Clone, Copy, Debug, Default, PartialEq, Eq, Structural, Hash)]
pub struct InterfaceMask(pub u32);

impl View for InterfaceMask {
    type V = u32;

    open spec fn view(&self) -> u32 {
        self.0
    }
}

impl InterfaceMask {
    /// The mask of the `XWII_IFACE_CORE` bits.
    pub fn core_iface() -> (r: Self)
        ensures
            r@ == XWII_IFACE_CORE,
    {
        Self(XWII_IFACE_CORE)
    }

    /// The mask of the `XWII_IFACE_ACCEL` bits.
    pub fn accel() -> (r: Self)
        ensures
            r@ == XWII_IFACE_ACCEL,
    {
        Self(XWII_IFACE_ACCEL)
    }

    /// The mask of the `XWII_IFACE_IR` bits.
    pub fn ir() -> (r: Self)
        ensures
            r@ == XWII_IFACE_IR,
    {
        Self(XWII_IFACE_IR)
    }

    /// The mask of the `XWII_IFACE_MOTION_PLUS` bits.
    pub fn motion_plus() -> (r: Self)
        ensures
            r@ == XWII_IFACE_MOTION_PLUS,
    {
        Self(XWII_IFACE_MOTION_PLUS)
    }

    /// The mask of the `XWII_IFACE_NUNCHUK` bits.
    pub fn nunchuk() -> (r: Self)
        ensures
            r@ == XWII_IFACE_NUNCHUK,
    {
        Self(XWII_IFACE_NUNCHUK)
    }

    /// The mask of the `XWII_IFACE_CLASSIC_CONTROLLER` bits.
    pub fn classic_controller() -> (r: Self)
        ensures
            r@ == XWII_IFACE_CLASSIC_CONTROLLER,
    {
        Self(XWII_IFACE_CLASSIC_CONTROLLER)
    }

    /// The mask of the `XWII_IFACE_BALANCE_BOARD` bits.
    pub fn balance_board() -> (r: Self)
        ensures
            r@ == XWII_IFACE_BALANCE_BOARD,
    {
        Self(XWII_IFACE_BALANCE_BOARD)
    }

    /// The mask of the `XWII_IFACE_PRO_CONTROLLER` bits.
    pub fn pro_controller() -> (r: Self)
        ensures
            r@ == XWII_IFACE_PRO_CONTROLLER,
    {
        Self(XWII_IFACE_PRO_CONTROLLER)
    }

    /// The mask of the `XWII_IFACE_DRUMS` bits.
    pub fn drums() -> (r: Self)
        ensures
            r@ == XWII_IFACE_DRUMS,
    {
        Self(XWII_IFACE_DRUMS)
    }

    /// The mask of the `XWII_IFACE_GUITAR` bits.
    pub fn guitar() -> (r: Self)
        ensures
            r@ == XWII_IFACE_GUITAR,
    {
        Self(XWII_IFACE_GUITAR)
    }

    /// The mask of the `XWII_IFACE_ALL` bits.
    pub fn all() -> (r: Self)
        ensures
            r@ == XWII_IFACE_ALL,
    {
        Self(XWII_IFACE_ALL)
    }

    /// The mask of the `XWII_IFACE_WRITABLE` bits.
    pub fn writable() -> (r: Self)
        ensures
            r@ == XWII_IFACE_WRITABLE,
    {
        Self(XWII_IFACE_WRITABLE)
    }


    /// The mask of no interface.
    pub fn empty() -> (r: Self)
        ensures
            r@ == 0,
    {
        Self(0)
    }

    /// The mask holding exactly these bits.
    pub fn from_bits(bits: u32) -> (r: Self)
        ensures
            r@ == bits,
    {
        Self(bits)
    }

    /// The raw bits of the mask.
    pub fn bits(self) -> (r: u32)
        ensures
            r == self@,
    {
        self.0
    }

    /// Whether every bit of `other` is set in `self`.
    pub fn contains(self, other: Self) -> (r: bool)
        ensures
            r == (self@ & other@ == other@),
    {
        self.0 & other.0 == other.0
    }

    /// The union of both masks.
    pub fn insert(self, other: Self) -> (r: Self)
        ensures
            r@ == self@ | other@,
    {
        Self(self.0 | other.0)
    }

    /// `self` without the bits of `other`.
    pub fn remove(self, other: Self) -> (r: Self)
        ensures
            r@ == self@ & !other@,
    {
        Self(self.0 & !other.0)
    }

    /// The intersection of both masks.
    pub fn intersect(self, other: Self) -> (r: Self)
        ensures
            r@ == self@ & other@,
    {
        Self(self.0 & other.0)
    }

    /// Every bit that `self` lacks.
    pub fn complement(self) -> (r: Self)
        ensures
            r@ == !self@,
    {
        Self(!self.0)
    }

    /// Whether no bit is set.
    pub fn is_empty(self) -> (r: bool)
        ensures
            r == (self@ == 0),
    {
        self.0 == 0
    }
}


impl core::ops::BitOr for InterfaceMask {
    type Output = Self;

    fn bitor(self, rhs: Self) -> (r: Self) {
        Self(self.0 | rhs.0)
    }
}

impl vstd::std_specs::ops::BitOrSpecImpl for InterfaceMask {
    open spec fn obeys_bitor_spec() -> bool {
        true
    }

    open spec fn bitor_req(self, rhs: Self) -> bool {
        true
    }

    open spec fn bitor_spec(self, rhs: Self) -> Self {
        InterfaceMask(self.0 | rhs.0)
    }
}


impl core::ops::BitAnd for InterfaceMask {
    type Output = Self;

    fn bitand(self, rhs: Self) -> (r: Self) {
        Self(self.0 & rhs.0)
    }
}

impl vstd::std_specs::ops::BitAndSpecImpl for InterfaceMask {
    open spec fn obeys_bitand_spec() -> bool {
        true
    }

    open spec fn bitand_req(self, rhs: Self) -> bool {
        true
    }

    open spec fn bitand_spec(self, rhs: Self) -> Self {
        InterfaceMask(self.0 & rhs.0)
    }
}

impl core::ops::Not for InterfaceMask {
    type Output = Self;

    fn not(self) -> (r: Self) {
        Self(!self.0)
    }
}

impl vstd::std_specs::ops::NotSpecImpl for InterfaceMask {
    open spec fn obeys_not_spec() -> bool {
        true
    }

    open spec fn not_req(self) -> bool {
        true
    }

    open spec fn not_spec(self) -> Self {
        InterfaceMask(!self.0)
    }
}

/// After inserting `b` into `a`, the result contains `b` and still contains
/// every mask that `a` contained.
pub proof fn lemma_insert_contains(a: InterfaceMask, b: InterfaceMask, c: InterfaceMask)
    ensures
        (a@ | b@) & b@ == b@,
        a@ & c@ == c@ ==> (a@ | b@) & c@ == c@,
{
    let x = a@;
    let y = b@;
    let z = c@;
    assert((x | y) & y == y) by (bit_vector);
    assert(x & z == z ==> (x | y) & z == z) by (bit_vector);
}

/// Removing `b` from `a` leaves no bit of `b`, and inserting `b` again gives
/// the union of `a` and `b`.
pub proof fn lemma_remove_insert(a: InterfaceMask, b: InterfaceMask)
    ensures
        (a@ & !b@) & b@ == 0,
        ((a@ & !b@) | b@) == (a@ | b@),
{
    let x = a@;
    let y = b@;
    assert((x & !y) & y == 0) by (bit_vector);
    assert(((x & !y) | y) == (x | y)) by (bit_vector);
}

/// The identifier of LED number `num` (counted from one).
pub fn xwii_led(num: u32) -> (r: u32)
    requires
        num < u32::MAX,
    ensures
        r == num,
{
    XWII_LED1 + num - 1
}

/// Whether an IR slot holds a tracked point: the slot is unset exactly when
/// both coordinates are 1023.
pub fn xwii_event_ir_is_valid(abs: &CEventAbs) -> (r: bool)
    ensures
        r == !(abs.x == 1023 && abs.y == 1023),
{
    abs.x != 1023 || abs.y != 1023
}

/// The published name of a single interface bit, or `None` for any other
/// value (no bit, several bits, or an unknown bit).
pub fn interface_name(iface: u32) -> (r: Option<&'static str>)
    ensures
        r is Some <==> (iface == XWII_IFACE_CORE || iface == XWII_IFACE_ACCEL || iface
            == XWII_IFACE_IR || iface == XWII_IFACE_MOTION_PLUS || iface == XWII_IFACE_NUNCHUK
            || iface == XWII_IFACE_CLASSIC_CONTROLLER || iface == XWII_IFACE_BALANCE_BOARD || iface
            == XWII_IFACE_PRO_CONTROLLER || iface == XWII_IFACE_DRUMS || iface
            == XWII_IFACE_GUITAR),
        iface == XWII_IFACE_CORE ==> r == Some(XWII_NAME_CORE),
        iface == XWII_IFACE_ACCEL ==> r == Some(XWII_NAME_ACCEL),
        iface == XWII_IFACE_IR ==> r == Some(XWII_NAME_IR),
        iface == XWII_IFACE_MOTION_PLUS ==> r == Some(XWII_NAME_MOTION_PLUS),
        iface == XWII_IFACE_NUNCHUK ==> r == Some(XWII_NAME_NUNCHUK),
        iface == XWII_IFACE_CLASSIC_CONTROLLER ==> r == Some(XWII_NAME_CLASSIC_CONTROLLER),
        iface == XWII_IFACE_BALANCE_BOARD ==> r == Some(XWII_NAME_BALANCE_BOARD),
        iface == XWII_IFACE_PRO_CONTROLLER ==> r == Some(XWII_NAME_PRO_CONTROLLER),
        iface == XWII_IFACE_DRUMS ==> r == Some(XWII_NAME_DRUMS),
        iface == XWII_IFACE_GUITAR ==> r == Some(XWII_NAME_GUITAR),
{
    if iface == XWII_IFACE_CORE {
        Some(XWII_NAME_CORE)
    } else if iface == XWII_IFACE_ACCEL {
        Some(XWII_NAME_ACCEL)
    } else if iface == XWII_IFACE_IR {
        Some(XWII_NAME_IR)
    } else if iface == XWII_IFACE_MOTION_PLUS {
        Some(XWII_NAME_MOTION_PLUS)
    } else if iface == XWII_IFACE_NUNCHUK {
        Some(XWII_NAME_NUNCHUK)
    } else if iface == XWII_IFACE_CLASSIC_CONTROLLER {
        Some(XWII_NAME_CLASSIC_CONTROLLER)
    } else if iface == XWII_IFACE_BALANCE_BOARD {
        Some(XWII_NAME_BALANCE_BOARD)
    } else if iface == XWII_IFACE_PRO_CONTROLLER {
        Some(XWII_NAME_PRO_CONTROLLER)
    } else if iface == XWII_IFACE_DRUMS {
        Some(XWII_NAME_DRUMS)
    } else if iface == XWII_IFACE_GUITAR {
        Some(XWII_NAME_GUITAR)
    } else {
        None
    }
}

} // verus!
