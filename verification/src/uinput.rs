//! The virtual devices that `wiilandd` creates through uinput: their kinds
//! and names, and the rules for the events written to them.

use vstd::prelude::*;
use crate::errno::EIO;
use crate::abi::{EV_ABS, EV_KEY};

verus! {

/// The uinput device node.
pub const UINPUT_PATH: &'static str = "/dev/uinput";

/// The two virtual devices: a gamepad and a desktop pointer/keyboard.
#[derive(Clone, Copy, Debug, PartialEq, Eq, Structural)]
pub enum VirtualKind {
    Controller,
    Desktop,
}

impl VirtualKind {
    /// The device name announced to the input stack.
    pub fn name(self) -> (r: &'static str)
        ensures
            r@ == match self {
                VirtualKind::Controller => "WiiLand Virtual Controller"@,
                VirtualKind::Desktop => "WiiLand Virtual Desktop"@,
            },
    {
        match self {
            VirtualKind::Controller => "WiiLand Virtual Controller",
            VirtualKind::Desktop => "WiiLand Virtual Desktop",
        }
    }
}

/// The value of a key event: released (0), pressed (1), or repeated (2)
/// for any larger state.
pub fn key_value(state: u32) -> (r: i32)
    ensures
        r == if state < 2 {
            state as i32
        } else {
            2
        },
{
    if state < 2 {
        state as i32
    } else {
        2
    }
}

/// Whether a relative motion is written: a zero motion is skipped.
pub fn emits_relative(value: i32) -> (r: bool)
    ensures
        r == (value != 0),
{
    value != 0
}

/// The result of a write of `len` bytes that wrote `written`: a short write
/// is an I/O error.
pub fn write_outcome(written: usize, len: usize) -> (r: Result<(), i32>)
    ensures
        written == len ==> r is Ok,
        written != len ==> (r matches Err(e) && e == -EIO),
{
    if written == len {
        Ok(())
    } else {
        Err(-EIO)
    }
}

/// The uinput request that creates the configured device.
pub const UI_DEV_CREATE: u64 = 0x5501;

/// The uinput request that destroys the created device.
pub const UI_DEV_DESTROY: u64 = 0x5502;

/// The uinput request that enables an event type.
pub const UI_SET_EVBIT: u64 = 0x40045564;

/// The uinput request that enables a key code.
pub const UI_SET_KEYBIT: u64 = 0x40045565;

/// The uinput request that enables a relative axis.
pub const UI_SET_RELBIT: u64 = 0x40045566;

/// The uinput request that enables an absolute axis.
pub const UI_SET_ABSBIT: u64 = 0x40045567;

/// Relative axis events.
pub const EV_REL: u16 = 2;

/// The identity the virtual devices announce: a Bluetooth Nintendo device.
pub const BUS_BLUETOOTH: u16 = 0x0005;

/// The vendor the virtual devices announce.
pub const VENDOR_NINTENDO: u16 = 0x057e;

/// The product the virtual devices announce.
pub const PRODUCT_ID: u16 = 0x0337;

/// The version the virtual devices announce.
pub const PRODUCT_VERSION: u16 = 1;

/// The requests enabling each of `codes` with the request `bit`.
pub open spec fn code_requests(bit: u64, codes: Seq<u16>) -> Seq<(u64, i32)> {
    codes.map_values(|c: u16| (bit, c as i32))
}

/// The requests that configure a virtual device with the given key codes,
/// absolute axes and relative axes, in order: key events and each key,
/// then, when there are any, absolute events and each axis, then relative
/// events and each axis.
pub open spec fn setup_requests_spec(keys: Seq<u16>, axes: Seq<u16>, rels: Seq<u16>) -> Seq<(u64, i32)> {
    seq![(UI_SET_EVBIT, EV_KEY as i32)] + code_requests(UI_SET_KEYBIT, keys) + (if axes.len() > 0 {
        seq![(UI_SET_EVBIT, EV_ABS as i32)] + code_requests(UI_SET_ABSBIT, axes)
    } else {
        seq![]
    }) + (if rels.len() > 0 {
        seq![(UI_SET_EVBIT, EV_REL as i32)] + code_requests(UI_SET_RELBIT, rels)
    } else {
        seq![]
    })
}

fn push_codes(out: &mut Vec<(u64, i32)>, bit: u64, codes: &Vec<u16>)
    ensures
        final(out)@ == old(out)@ + code_requests(bit, codes@),
{
    let ghost start = out@;
    let mut i: usize = 0;
    while i < codes.len()
        invariant
            i <= codes@.len(),
            out@ == start + code_requests(bit, codes@.subrange(0, i as int)),
        decreases codes@.len() - i,
    {
        out.push((bit, codes[i] as i32));
        assert(code_requests(bit, codes@.subrange(0, i + 1)) =~= code_requests(
            bit,
            codes@.subrange(0, i as int),
        ).push((bit, codes@[i as int] as i32)));
        i = i + 1;
    }
    assert(codes@.subrange(0, codes@.len() as int) =~= codes@);
}

/// The configuration requests of a virtual device, each a request and its
/// argument.
pub fn setup_requests(keys: &Vec<u16>, axes: &Vec<u16>, rels: &Vec<u16>) -> (r: Vec<(u64, i32)>)
    ensures
        r@ == setup_requests_spec(keys@, axes@, rels@),
{
    let mut out: Vec<(u64, i32)> = Vec::new();
    out.push((UI_SET_EVBIT, EV_KEY as i32));
    push_codes(&mut out, UI_SET_KEYBIT, keys);
    let ghost after_keys = out@;
    if axes.len() > 0 {
        out.push((UI_SET_EVBIT, EV_ABS as i32));
        push_codes(&mut out, UI_SET_ABSBIT, axes);
    }
    let ghost after_axes = out@;
    if rels.len() > 0 {
        out.push((UI_SET_EVBIT, EV_REL as i32));
        push_codes(&mut out, UI_SET_RELBIT, rels);
    }
    assert(out@ =~= setup_requests_spec(keys@, axes@, rels@));
    out
}

/// The requests that tear a virtual device down: destroy it when it was
/// created; the device node is closed afterwards in any case.
pub fn teardown_requests(created: bool) -> (r: Vec<(u64, i32)>)
    ensures
        r@ == if created {
            seq![(UI_DEV_DESTROY, 0i32)]
        } else {
            seq![]
        },
{
    let mut out: Vec<(u64, i32)> = Vec::new();
    if created {
        out.push((UI_DEV_DESTROY, 0));
    }
    assert(out@ =~= if created {
        seq![(UI_DEV_DESTROY, 0i32)]
    } else {
        seq![]
    });
    out
}

} // verus!
