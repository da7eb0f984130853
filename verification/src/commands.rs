//! The decisions of `wiilandd`'s one-shot commands: resolving the device a
//! run is asked for, the errors the commands end with, and the session
//! readiness facts of `--doctor`.

use vstd::prelude::*;
use crate::errno::{EAGAIN, ENODEV};
use crate::text::{
    starts_with, seq_starts_with, parse_usize, parse_usize_spec, push_signed, signed_decimal,
    str_eq, is_all_digits, all_digits,
};
use crate::path::{join, join_spec, is_absolute, is_absolute_spec};

verus! {

/// A failed command: the process exit code and the message.
#[derive(Clone, Debug)]
pub struct CommandError {
    pub code: i32,
    pub message: String,
}

impl CommandError {
    /// An error with an exit code and a message.
    pub fn new(code: i32, message: &str) -> (r: Self)
        ensures
            r.code == code,
            r.message@ == message@,
    {
        CommandError { code, message: String::from_str(message) }
    }

    /// The exit code.
    pub fn code(&self) -> (r: i32)
        ensures
            r == self.code,
    {
        self.code
    }

    /// The message the error displays.
    pub fn to_text(&self) -> (r: String)
        ensures
            r@ == self.message@,
    {
        self.message.clone()
    }
}

/// `i32::unsigned_abs` read back as an `i32`: the magnitude, except that
/// `i32::MIN` stays itself.
pub open spec fn magnitude_code(code: i32) -> i32 {
    if code == i32::MIN {
        i32::MIN
    } else if code < 0 {
        -code as i32
    } else {
        code
    }
}

/// The error of a runtime that ended with `code` (a negative errno): the
/// exit code is its magnitude and the message shows it as it was.
pub fn runtime_error(code: i32) -> (r: CommandError)
    ensures
        r.code == magnitude_code(code),
        r.message@ == "wiilandd: runtime failed: "@ + signed_decimal(code as int),
{
    let mut message = String::from_str("wiilandd: runtime failed: ");
    push_signed(&mut message, code as i64);
    let c = if code == i32::MIN {
        i32::MIN
    } else if code < 0 {
        -code
    } else {
        code
    };
    CommandError { code: c, message }
}

/// The interfaces an aim calibration samples: the accelerometer and
/// MotionPlus.
pub const CALIBRATION_IFACES: u32 = 0x102;

/// The interfaces to open for an aim calibration, of those a device has;
/// a device with neither cannot be calibrated.
pub fn calibration_interfaces(available: u32) -> (r: Result<u32, CommandError>)
    ensures
        available & CALIBRATION_IFACES != 0 ==> (r matches Ok(m) && m == available
            & CALIBRATION_IFACES),
        available & CALIBRATION_IFACES == 0 ==> (r matches Err(e) && e.code == ENODEV && e.message@
            == "wiilandd: calibration device has no accelerometer or MotionPlus"@),
{
    let wanted = available & CALIBRATION_IFACES;
    if wanted == 0 {
        Err(CommandError::new(ENODEV, "wiilandd: calibration device has no accelerometer or MotionPlus"))
    } else {
        Ok(wanted)
    }
}

/// The calibration interfaces that did open, given what the device reports
/// as opened; a calibration needs at least one of them.
pub fn calibration_opened(opened: u32, wanted: u32) -> (r: Result<u32, CommandError>)
    ensures
        opened & wanted != 0 ==> (r matches Ok(m) && m == opened & wanted),
        opened & wanted == 0 ==> (r matches Err(e) && e.code == ENODEV && e.message@
            == "wiilandd: cannot open calibration interfaces"@),
{
    let got = opened & wanted;
    if got == 0 {
        Err(CommandError::new(ENODEV, "wiilandd: cannot open calibration interfaces"))
    } else {
        Ok(got)
    }
}

/// How a calibration ends once its window has passed: it needs a stable
/// accelerometer or MotionPlus result.
pub fn calibration_outcome(accel_stable: bool, motion_stable: bool) -> (r: Result<(), CommandError>)
    ensures
        accel_stable || motion_stable ==> r is Ok,
        !accel_stable && !motion_stable ==> (r matches Err(e) && e.code == EAGAIN && e.message@
            == "wiilandd: calibration failed: keep the Wii Remote flat and still; no stable accelerometer or MotionPlus window was captured"@),
{
    if !accel_stable && !motion_stable {
        Err(
            CommandError::new(
                EAGAIN,
                "wiilandd: calibration failed: keep the Wii Remote flat and still; no stable accelerometer or MotionPlus window was captured",
            ),
        )
    } else {
        Ok(())
    }
}

/// What a failed dispatch during a calibration leads to: an empty queue
/// (`-EAGAIN`) means waiting and trying again (`None`); any other error
/// `e` ends the calibration, with `|e|` as the exit code.
pub fn calibration_dispatch_failure(device: &str, e: i32) -> (r: Option<CommandError>)
    requires
        e > i32::MIN,
    ensures
        e == -EAGAIN ==> r is None,
        e != -EAGAIN ==> (r matches Some(err) && err.code == magnitude_code(e) && err.message@
            == "wiilandd: calibration dispatch failed for "@ + device@ + ": "@ + signed_decimal(
            e as int,
        )),
{
    if e == -EAGAIN {
        return None;
    }
    let mut message = String::from_str("wiilandd: calibration dispatch failed for ");
    message.append(device);
    message.append(": ");
    push_signed(&mut message, e as i64);
    let code = if e < 0 {
        -e
    } else {
        e
    };
    Some(CommandError { code, message })
}

/// The prompt before a calibration window of `seconds`.
pub fn calibration_prompt(seconds: i32) -> (r: String)
    ensures
        r@ == "wiilandd: place the Wii Remote face down, buttons against a flat stable surface, and keep it still for "@
            + signed_decimal(seconds as int) + " seconds"@,
{
    let mut s = String::from_str(
        "wiilandd: place the Wii Remote face down, buttons against a flat stable surface, and keep it still for ",
    );
    push_signed(&mut s, seconds as i64);
    s.append(" seconds");
    s
}

/// The device a `--device` argument names among the devices in
/// enumeration order: a path given as such, or the device at a one-based
/// position.
pub open spec fn resolve_device_spec(arg: Seq<char>, devices: Seq<Seq<char>>) -> Option<Seq<char>> {
    if seq_starts_with(arg, "/"@) {
        Some(arg)
    } else {
        match parse_usize_spec(arg) {
            Some(n) => if 1 <= n <= devices.len() {
                Some(devices[n - 1])
            } else {
                None
            },
            None => None,
        }
    }
}

/// Resolves a `--device` argument against the devices in enumeration order.
pub fn resolve_device_arg(arg: &str, devices: &Vec<String>) -> (r: Option<String>)
    ensures
        match resolve_device_spec(arg@, devices@.map_values(|d: String| d@)) {
            Some(p) => r matches Some(s) && s@ == p,
            None => r is None,
        },
{
    if starts_with(arg, "/") {
        return Some(String::from_str(arg));
    }
    match parse_usize(arg) {
        Some(n) => {
            if n != 0 && n <= devices.len() {
                Some(devices[n - 1].clone())
            } else {
                None
            }
        },
        None => None,
    }
}

/// The message when a run's device cannot be resolved.
pub const UNRESOLVED_DEVICE: &'static str = "wiilandd: cannot resolve device; run --list and pass --device <number|/sys/path>";

/// The device a run bridges: none without `--device`, else what `resolve`
/// finds for the argument, or `ENODEV` when it finds nothing.
pub fn resolve_run_device_with<F: Fn(&str) -> Option<String>>(arg: Option<&str>, resolve: F) -> (r:
    Result<Option<String>, CommandError>)
    requires
        arg matches Some(a) ==> call_requires(resolve, (a,)),
    ensures
        arg is None ==> r matches Ok(None),
        arg matches Some(a) ==> match r {
            Ok(Some(p)) => call_ensures(resolve, (a,), Some(p)),
            Ok(None) => false,
            Err(e) => call_ensures(resolve, (a,), None::<String>) && e.code == ENODEV
                && e.message@ == UNRESOLVED_DEVICE@,
        },
{
    match arg {
        None => Ok(None),
        Some(a) => match resolve(a) {
            Some(p) => Ok(Some(p)),
            None => Err(CommandError::new(ENODEV, UNRESOLVED_DEVICE)),
        },
    }
}

/// The Wayland socket of a display: an absolute display names it, a
/// relative one lives in the runtime directory.
pub open spec fn wayland_path_spec(display: Option<Seq<char>>, runtime: Option<Seq<char>>) -> Option<
    Seq<char>,
> {
    match display {
        None => None,
        Some(d) => if seq_starts_with(d, "/"@) {
            Some(d)
        } else {
            match runtime {
                Some(r) => Some(join_spec(r, d)),
                None => None,
            }
        },
    }
}

/// An optional text by its characters.
pub open spec fn opt_chars(o: Option<&str>) -> Option<Seq<char>> {
    match o {
        Some(s) => Some(s@),
        None => None,
    }
}

/// The Wayland socket path of `WAYLAND_DISPLAY` under `XDG_RUNTIME_DIR`.
pub fn wayland_path(display: Option<&str>, runtime: Option<&str>) -> (r: Option<String>)
    ensures
        match wayland_path_spec(opt_chars(display), opt_chars(runtime)) {
            Some(p) => r matches Some(s) && s@ == p,
            None => r is None,
        },
{
    let d = match display {
        Some(d) => d,
        None => {
            return None;
        },
    };
    if starts_with(d, "/") {
        Some(String::from_str(d))
    } else {
        match runtime {
            Some(r) => Some(join(r, d)),
            None => None,
        }
    }
}

/// The index of the last `:` in `s[..end]`, or -1.
pub open spec fn last_colon(s: Seq<char>, end: int) -> int
    decreases end,
{
    if end <= 0 {
        -1
    } else if s[end - 1] == ':' {
        end - 1
    } else {
        last_colon(s, end - 1)
    }
}

/// The index of the first `.` in `s[i..]`, or the length.
pub open spec fn first_dot_from(s: Seq<char>, i: int) -> int
    decreases s.len() - i,
{
    if i >= s.len() {
        s.len() as int
    } else if s[i] == '.' {
        i
    } else {
        first_dot_from(s, i + 1)
    }
}

/// Whether an X11 display's host part names this machine.
pub open spec fn local_host(host: Seq<char>, hostname: Option<Seq<char>>) -> bool {
    host.len() == 0 || host == "unix"@ || host == "unix/"@ || host == "localhost"@ || host
        == "localhost.localdomain"@ || hostname == Some(host)
}

/// The local X11 socket of a `DISPLAY` such as `:0` or `unix:1.0`: the
/// display number is what follows the last `:` up to a `.`, and must be
/// digits; `hostname` is `HOSTNAME` from the environment.
pub open spec fn x11_path_spec(display: Option<Seq<char>>, hostname: Option<Seq<char>>) -> Option<
    Seq<char>,
> {
    match display {
        None => None,
        Some(d) => {
            let colon = last_colon(d, d.len() as int);
            if colon < 0 {
                None
            } else {
                let host = d.subrange(0, colon);
                let n = d.subrange(colon + 1, first_dot_from(d, colon + 1));
                if n.len() == 0 || !all_digits(n) || !local_host(host, hostname) {
                    None
                } else {
                    Some("/tmp/.X11-unix/X"@ + n)
                }
            }
        },
    }
}

/// The local X11 socket path of `DISPLAY`, when it names one.
pub fn x11_path(display: Option<&str>, hostname: Option<&str>) -> (r: Option<String>)
    ensures
        match x11_path_spec(opt_chars(display), opt_chars(hostname)) {
            Some(p) => r matches Some(s) && s@ == p,
            None => r is None,
        },
{
    let d = match display {
        Some(d) => d,
        None => {
            return None;
        },
    };
    let len = d.unicode_len();
    let mut end: usize = len;
    while end > 0 && d.get_char(end - 1) != ':'
        invariant
            len == d@.len(),
            end <= len,
            last_colon(d@, len as int) == last_colon(d@, end as int),
        decreases end,
    {
        end = end - 1;
    }
    if end == 0 {
        return None;
    }
    let colon = end - 1;
    let mut stop: usize = colon + 1;
    while stop < len && d.get_char(stop) != '.'
        invariant
            len == d@.len(),
            colon + 1 <= stop <= len,
            first_dot_from(d@, colon + 1) == first_dot_from(d@, stop as int),
        decreases len - stop,
    {
        stop = stop + 1;
    }
    let host = d.substring_char(0, colon);
    let n = d.substring_char(colon + 1, stop);
    if n.unicode_len() == 0 || !is_all_digits(n) {
        return None;
    }
    let named = match hostname {
        Some(h) => str_eq(h, host),
        None => false,
    };
    let local = host.unicode_len() == 0 || str_eq(host, "unix") || str_eq(host, "unix/") || str_eq(
        host,
        "localhost",
    ) || str_eq(host, "localhost.localdomain") || named;
    if !local {
        return None;
    }
    let mut p = String::from_str("/tmp/.X11-unix/X");
    p.append(n);
    Some(p)
}

/// The display server of a session: `XDG_SESSION_TYPE` when it is `wayland`
/// or `x11`, else whichever display variable is set, else `headless`.
pub open spec fn display_server_spec(session: Option<Seq<char>>, wayland: bool, x11: bool) -> Seq<
    char,
> {
    if session == Some("wayland"@) {
        "wayland"@
    } else if session == Some("x11"@) {
        "x11"@
    } else if wayland {
        "wayland"@
    } else if x11 {
        "x11"@
    } else {
        "headless"@
    }
}

/// The display server that `--doctor` reports.
pub fn display_server(session: Option<&str>, wayland: bool, x11: bool) -> (r: &'static str)
    ensures
        r@ == display_server_spec(opt_chars(session), wayland, x11),
{
    let (is_wayland, is_x11) = match session {
        Some(s) => (str_eq(s, "wayland"), str_eq(s, "x11")),
        None => (false, false),
    };
    if is_wayland {
        "wayland"
    } else if is_x11 {
        "x11"
    } else if wayland {
        "wayland"
    } else if x11 {
        "x11"
    } else {
        "headless"
    }
}

/// Whether XWayland is available: only asked of a Wayland session, then
/// answered by whether the X11 socket (when `DISPLAY` is set and names one)
/// is a socket; `socket_is_socket` is what the file system says of it.
pub open spec fn xwayland_spec(server: Seq<char>, x11: bool, x11_socket: bool, socket_is_socket: bool) -> Seq<char> {
    if server != "wayland"@ {
        "not-applicable"@
    } else if !x11 {
        "no"@
    } else if !x11_socket {
        "unknown"@
    } else if socket_is_socket {
        "yes"@
    } else {
        "no"@
    }
}

/// The XWayland availability that `--doctor` reports.
pub fn xwayland(server: &str, x11: bool, x11_socket: bool, socket_is_socket: bool) -> (r: &'static str)
    ensures
        r@ == xwayland_spec(server@, x11, x11_socket, socket_is_socket),
{
    if !str_eq(server, "wayland") {
        "not-applicable"
    } else if !x11 {
        "no"
    } else if !x11_socket {
        "unknown"
    } else if socket_is_socket {
        "yes"
    } else {
        "no"
    }
}

/// What the file system answered about a path.
#[derive(Clone, Copy, Debug, PartialEq, Eq, Structural)]
pub enum PathProbe {
    /// The path exists; `socket` says whether it is a socket.
    Present { socket: bool },
    /// The path does not exist.
    Missing,
    /// The file system gave another error.
    Failed,
}

/// How `--doctor` reports a path: with `mode` 0 whether it exists
/// (`yes`/`no`), with any other mode its type (`socket`/`other`/`missing`);
/// `unknown` without a path or on another error.
pub open spec fn path_state_spec(probe: Option<PathProbe>, mode: u8) -> Seq<char> {
    match probe {
        None => "unknown"@,
        Some(PathProbe::Present { socket }) => if mode == 0 {
            "yes"@
        } else if socket {
            "socket"@
        } else {
            "other"@
        },
        Some(PathProbe::Missing) => if mode == 0 {
            "no"@
        } else {
            "missing"@
        },
        Some(PathProbe::Failed) => "unknown"@,
    }
}

/// The existence or type of a path as `--doctor` prints it.
pub fn path_state(probe: Option<PathProbe>, mode: u8) -> (r: &'static str)
    ensures
        r@ == path_state_spec(probe, mode),
{
    match probe {
        None => "unknown",
        Some(PathProbe::Present { socket }) => if mode == 0 {
            "yes"
        } else if socket {
            "socket"
        } else {
            "other"
        },
        Some(PathProbe::Missing) => if mode == 0 {
            "no"
        } else {
            "missing"
        },
        Some(PathProbe::Failed) => "unknown",
    }
}

/// How `--doctor` reports an access check: `yes` or `no` as the check
/// answered, `unknown` when no check could be made.
pub fn access_state(allowed: Option<bool>) -> (r: &'static str)
    ensures
        r@ == (match allowed {
            Some(true) => "yes"@,
            Some(false) => "no"@,
            None => "unknown"@,
        }),
{
    match allowed {
        Some(true) => "yes",
        Some(false) => "no",
        None => "unknown",
    }
}

/// The user configuration file: under `XDG_CONFIG_HOME` when it is
/// absolute, else under `$HOME/.config` when `HOME` is absolute.
pub open spec fn user_config_path_spec(xdg: Option<Seq<char>>, home: Option<Seq<char>>) -> Option<Seq<char>> {
    let base = match xdg {
        Some(x) if is_absolute_spec(x) => Some(x),
        _ => match home {
            Some(h) if is_absolute_spec(h) => Some(join_spec(h, ".config"@)),
            _ => None,
        },
    };
    match base {
        Some(b) => Some(join_spec(b, "wiiland/wiilandd.conf"@)),
        None => None,
    }
}

/// The user configuration file that `wiilandd` layers over the system one.
pub fn user_config_path(xdg: Option<&str>, home: Option<&str>) -> (r: Option<String>)
    ensures
        match user_config_path_spec(opt_chars(xdg), opt_chars(home)) {
            Some(p) => r matches Some(s) && s@ == p,
            None => r is None,
        },
{
    let base = match xdg {
        Some(x) if is_absolute(x) => Some(String::from_str(x)),
        _ => match home {
            Some(h) if is_absolute(h) => Some(join(h, ".config")),
            _ => None,
        },
    };
    match base {
        Some(b) => Some(join(b.as_str(), "wiiland/wiilandd.conf")),
        None => None,
    }
}

} // verus!
