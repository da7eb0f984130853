//! WiiLand: the decisions of a Linux input stack for Wii-family controllers,
//! stated and proved.
//!
//! - `abi`, `decode`: the xwiimote data types and the decoder of evdev input
//!   into typed events, with drop recovery and MotionPlus normalization.
//! - `eeprom`: the text of an EEPROM dump.
//! - `cli`, `commands`, `doctor`, `runtime`, `uinput`, `bridge`: the
//!   daemon's command line (both passes), one-shot commands, the readiness
//!   report, lifecycle diagnostics, virtual device setup, and the choices of
//!   one bridged device.
//! - `reactor`, `session`: the device reactor's slot table, polling and
//!   timing decisions, and the IPC session of one client.
//! - `report`: the hardware report's command line and sections.
//! - `show`: the device viewer's command line, view mode and status log.
//! - `task`, `manifest`, `install`, `dist`: the build and installation tasks.
//! - `text`, `path`, `order`, `errno`: characters and numerals, Unix paths,
//!   path and string order, error numbers.
//!
//! The daemon's event bridge, reactor loop, virtual-device backends and
//! configuration loading, the IPC server and the viewer's terminal
//! interface rest on crates that are not part of this build; only their
//! decisions are here.

use vstd::prelude::*;

pub mod abi;
pub mod text;
pub mod decode;
pub mod eeprom;
pub mod errno;
pub mod cli;
pub mod report;
pub mod path;
pub mod manifest;
pub mod order;
pub mod install;
pub mod task;
pub mod commands;
pub mod doctor;
pub mod runtime;
pub mod show;
pub mod uinput;
pub mod bridge;
pub mod reactor;
pub mod session;
pub mod dist;
