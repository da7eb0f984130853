//! Linux error numbers used in this crate's results.

use vstd::prelude::*;

verus! {

pub const EINTR: i32 = 4;
pub const EIO: i32 = 5;
pub const EAGAIN: i32 = 11;
pub const ENOMEM: i32 = 12;
pub const ENODEV: i32 = 19;
pub const EINVAL: i32 = 22;
pub const ENOSPC: i32 = 28;

} // verus!
