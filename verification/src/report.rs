//! The finite diagnostics of `wiilandd-hardware-report`: scanning of its
//! command line, and the text of the report sections that do not depend on
//! the host.  Probing the host (running programs, reading files) is left to
//! the caller, which hands the results in.

use vstd::prelude::*;
use crate::text::{
    str_eq, starts_with, seq_starts_with, decimal, pad_left, push_decimal, push_decimal_padded,
    is_blank, all_whitespace, words, words_spec, is_all_digits, all_digits,
    lines, lines_spec,
};

verus! {

/// The parsed command line: the device selector, the arguments forwarded to
/// the trace, and how many trace selectors they hold.
#[derive(Clone, Debug, PartialEq, Eq)]
pub struct ParsedArgs {
    pub device: Option<String>,
    pub extra: Vec<String>,
    pub trace_selectors: usize,
}

/// Why the report's arguments were refused.
#[derive(Clone, Debug, PartialEq, Eq)]
pub enum ArgError {
    /// An argument that the report sets itself, or that would not trace.
    Conflicting(String),
    /// More than one `--trace-events` selector.
    MultipleTraceSelectors,
}

impl ArgError {
    /// The message the error displays.
    pub fn to_text(&self) -> (r: String)
        ensures
            r@ == match self {
                ArgError::Conflicting(arg) => "conflicting trace argument: "@ + arg@,
                ArgError::MultipleTraceSelectors => "exactly one trace selector is allowed"@,
            },
    {
        match self {
            ArgError::Conflicting(arg) => {
                let mut s = String::new();
                s.append("conflicting trace argument: ");
                s.append(arg.as_str());
                s
            },
            ArgError::MultipleTraceSelectors => String::from_str("exactly one trace selector is allowed"),
        }
    }
}

/// Whether an argument conflicts with the trace that the report runs: it
/// selects a device, profile or dry run, or an action other than running.
pub open spec fn conflicting(arg: Seq<char>) -> bool {
    arg == "-d"@
        || arg == "--device"@
        || arg == "-p"@
        || arg == "--profile"@
        || arg == "-n"@
        || arg == "--dry-run"@
        || arg == "-h"@
        || arg == "--help"@
        || arg == "--version"@
        || arg == "-l"@
        || arg == "--list"@
        || arg == "--calibrate-aim"@
        || arg == "--check-config"@
        || arg == "--self-test"@
        || arg == "--axis-map"@
        || arg == "--validation-checklist"@
        || arg == "--doctor"@
        || arg == "--dump-config"@
        || seq_starts_with(arg, "--device="@)
        || seq_starts_with(arg, "--profile="@)
        || seq_starts_with(arg, "--dry-run="@)
}

/// Whether an option takes the next argument as its value.
pub open spec fn takes_value(arg: Seq<char>) -> bool {
    arg == "-c"@
        || arg == "--config"@
        || arg == "--backend"@
        || arg == "--ir-speed"@
        || arg == "--ir-deadzone"@
        || arg == "--ir-smoothing"@
        || arg == "--ir-tracking"@
        || arg == "--ir-aim-mapping"@
        || arg == "--pointer-speed"@
        || arg == "--aim-mode"@
        || arg == "--aim-source"@
        || arg == "--aim-activation"@
        || arg == "--aim-sensitivity"@
        || arg == "--aim-deadzone"@
        || arg == "--aim-smoothing"@
        || arg == "--aim-invert-x"@
        || arg == "--aim-invert-y"@
        || arg == "--aim-calibration-duration"@
}

/// Whether an argument selects trace events.
pub open spec fn trace_selector(arg: Seq<char>) -> bool {
    arg == "--trace-events"@ || seq_starts_with(arg, "--trace-events="@)
}

fn is_conflicting(arg: &str) -> (r: bool)
    ensures
        r == conflicting(arg@),
{
    str_eq(arg, "-d")
        || str_eq(arg, "--device")
        || str_eq(arg, "-p")
        || str_eq(arg, "--profile")
        || str_eq(arg, "-n")
        || str_eq(arg, "--dry-run")
        || str_eq(arg, "-h")
        || str_eq(arg, "--help")
        || str_eq(arg, "--version")
        || str_eq(arg, "-l")
        || str_eq(arg, "--list")
        || str_eq(arg, "--calibrate-aim")
        || str_eq(arg, "--check-config")
        || str_eq(arg, "--self-test")
        || str_eq(arg, "--axis-map")
        || str_eq(arg, "--validation-checklist")
        || str_eq(arg, "--doctor")
        || str_eq(arg, "--dump-config")
        || starts_with(arg, "--device=")
        || starts_with(arg, "--profile=")
        || starts_with(arg, "--dry-run=")
}

fn consumes_value(arg: &str) -> (r: bool)
    ensures
        r == takes_value(arg@),
{
    str_eq(arg, "-c")
        || str_eq(arg, "--config")
        || str_eq(arg, "--backend")
        || str_eq(arg, "--ir-speed")
        || str_eq(arg, "--ir-deadzone")
        || str_eq(arg, "--ir-smoothing")
        || str_eq(arg, "--ir-tracking")
        || str_eq(arg, "--ir-aim-mapping")
        || str_eq(arg, "--pointer-speed")
        || str_eq(arg, "--aim-mode")
        || str_eq(arg, "--aim-source")
        || str_eq(arg, "--aim-activation")
        || str_eq(arg, "--aim-sensitivity")
        || str_eq(arg, "--aim-deadzone")
        || str_eq(arg, "--aim-smoothing")
        || str_eq(arg, "--aim-invert-x")
        || str_eq(arg, "--aim-invert-y")
        || str_eq(arg, "--aim-calibration-duration")
}

/// The scan of the arguments after the device, from index `i` with `sel`
/// selectors seen: the conflicting argument, or the number of selectors.
/// Every argument is forwarded; a value option's value is forwarded unscanned.
pub open spec fn scan_spec(rest: Seq<Seq<char>>, i: int, sel: nat) -> Result<nat, Seq<char>>
    decreases rest.len() - i,
{
    if i < 0 || i >= rest.len() {
        Ok(sel)
    } else {
        let arg = rest[i];
        let sel2 = if trace_selector(arg) {
            sel + 1
        } else {
            sel
        };
        if conflicting(arg) {
            Err(arg)
        } else if takes_value(arg) && i + 1 < rest.len() {
            scan_spec(rest, i + 2, sel2)
        } else {
            scan_spec(rest, i + 1, sel2)
        }
    }
}

/// The views of a list of arguments.
pub open spec fn arg_views(args: Seq<String>) -> Seq<Seq<char>> {
    args.map_values(|a: String| a@)
}

/// Whether `first` asks for help.
pub open spec fn help_arg(first: Seq<char>) -> bool {
    first == "-h"@ || first == "--help"@
}

/// Parses the report's device selector and the arguments forwarded to the
/// trace.  Only a first `-h`/`--help` is help (it is kept as the single
/// forwarded argument); every later argument is forwarded in order, value
/// options take their next argument unscanned, and arguments that conflict
/// with the trace, or a second trace selector, are refused.
pub fn parse_args(args: &[String]) -> (r: Result<ParsedArgs, ArgError>)
    ensures
        args@.len() == 0 ==> (r matches Ok(p) && p.device is None && p.extra@.len() == 0
            && p.trace_selectors == 0),
        args@.len() > 0 && help_arg(args@[0]@) ==> (r matches Ok(p) && p.device is None
            && arg_views(p.extra@) == seq![args@[0]@] && p.trace_selectors == 0),
        args@.len() > 0 && !help_arg(args@[0]@) ==> match scan_spec(
            arg_views(args@).drop_first(),
            0,
            0,
        ) {
            Err(arg) => r matches Err(ArgError::Conflicting(a)) && a@ == arg,
            Ok(sel) => if sel > 1 {
                r matches Err(ArgError::MultipleTraceSelectors)
            } else {
                r matches Ok(p) && p.device matches Some(d) && d@ == args@[0]@ && arg_views(p.extra@)
                    == arg_views(args@).drop_first() && p.trace_selectors == sel
            },
        },
{
    if args.len() == 0 {
        return Ok(ParsedArgs { device: None, extra: Vec::new(), trace_selectors: 0 });
    }
    let first = args[0].as_str();
    if str_eq(first, "-h") || str_eq(first, "--help") {
        let mut extra: Vec<String> = Vec::new();
        extra.push(args[0].clone());
        proof {
            assert(arg_views(extra@) =~= seq![args@[0]@]);
        }
        return Ok(ParsedArgs { device: None, extra, trace_selectors: 0 });
    }
    let ghost rest = arg_views(args@).drop_first();
    let mut extra: Vec<String> = Vec::new();
    let mut selectors: usize = 0;
    let mut i: usize = 1;
    while i < args.len()
        invariant
            1 <= i <= args@.len(),
            args@.len() > 0,
            !help_arg(args@[0]@),
            rest == arg_views(args@).drop_first(),
            arg_views(extra@) == rest.subrange(0, i - 1),
            selectors <= i - 1,
            scan_spec(rest, 0, 0) == scan_spec(rest, i - 1, selectors as nat),
        decreases args@.len() - i,
    {
        let arg = args[i].as_str();
        assert(rest[i - 1] == arg@);
        if str_eq(arg, "--trace-events") || starts_with(arg, "--trace-events=") {
            selectors = selectors + 1;
        }
        if is_conflicting(arg) {
            return Err(ArgError::Conflicting(args[i].clone()));
        }
        let ghost before = extra@;
        extra.push(args[i].clone());
        proof {
            assert(extra@ == before.push(args@[i as int]));
            assert(arg_views(extra@) =~= arg_views(before).push(args@[i as int]@));
            assert(rest.subrange(0, i as int) =~= rest.subrange(0, i - 1).push(rest[i - 1]));
        }
        if consumes_value(arg) && i + 1 < args.len() {
            i = i + 1;
            let ghost before2 = extra@;
            extra.push(args[i].clone());
            proof {
                assert(rest[i - 1] == args@[i as int]@);
                assert(extra@ == before2.push(args@[i as int]));
                assert(arg_views(extra@) =~= arg_views(before2).push(args@[i as int]@));
                assert(rest.subrange(0, i as int) =~= rest.subrange(0, i - 1).push(rest[i - 1]));
            }
        }
        i = i + 1;
    }
    assert(rest.subrange(0, rest.len() as int) =~= rest);
    if selectors > 1 {
        return Err(ArgError::MultipleTraceSelectors);
    }
    Ok(ParsedArgs { device: Some(args[0].clone()), extra, trace_selectors: selectors })
}

/// The usage text of the report.
pub const USAGE: &'static str = "Usage:\n  wiilandd-hardware-report\n  wiilandd-hardware-report <number-or-/sys/path> [extra wiilandd args]\n\nCollect finite WiiLand host, permission, config, doctor, axis-map, device, and\nmanual Wayland/X.org validation diagnostics. With a device argument, continue\ninto live dry-run trace capture and pass non-conflicting arguments to wiilandd.";

/// The usage text of the report.
pub fn usage() -> (r: &'static str)
    ensures
        r == USAGE,
{
    USAGE
}

/// Each argument after a space.
pub open spec fn spaced_args(args: Seq<Seq<char>>) -> Seq<char>
    decreases args.len(),
{
    if args.len() == 0 {
        Seq::empty()
    } else {
        spaced_args(args.drop_last()) + " "@ + args.last()
    }
}

/// `{prefix} {program}` and each argument after a space, then a newline.
pub open spec fn command_line(prefix: Seq<char>, program: Seq<char>, args: Seq<Seq<char>>) -> Seq<char> {
    prefix + " "@ + program + spaced_args(args) + "\n"@
}

/// Appends the command line a probe runs, as the report shows it.
pub fn display_command(out: &mut String, prefix: &str, program: &str, args: &[String])
    ensures
        final(out)@ == old(out)@ + command_line(prefix@, program@, arg_views(args@)),
{
    let ghost start = out@;
    out.append(prefix);
    out.append(" ");
    out.append(program);
    let ghost head = out@;
    let mut i: usize = 0;
    while i < args.len()
        invariant
            i <= args@.len(),
            out@ == head + spaced_args(arg_views(args@).subrange(0, i as int)),
        decreases args@.len() - i,
    {
        out.append(" ");
        out.append(args[i].as_str());
        proof {
            let sub = arg_views(args@).subrange(0, i + 1);
            assert(sub.drop_last() =~= arg_views(args@).subrange(0, i as int));
            assert(out@ =~= head + spaced_args(sub));
        }
        i = i + 1;
    }
    assert(arg_views(args@).subrange(0, args@.len() as int) =~= arg_views(args@));
    out.append("\n");
    assert(out@ =~= start + command_line(prefix@, program@, arg_views(args@)));
}

/// Counts a failed required probe: `core.failure.N=wiilandd.NAME`, where N
/// is the number of failures so far.
pub open spec fn failure_line(n: nat, name: Seq<char>) -> Seq<char> {
    "core.failure."@ + decimal(n) + "=wiilandd."@ + name + "\n"@
}

/// Records the outcome of a required probe: a failure is counted and
/// reported under `name`; a success adds nothing.
pub fn run_required(out: &mut String, failures: &mut usize, probe_ok: bool, name: &str)
    requires
        *old(failures) < usize::MAX,
    ensures
        probe_ok ==> final(out)@ == old(out)@ && *final(failures) == *old(failures),
        !probe_ok ==> *final(failures) == *old(failures) + 1 && final(out)@ == old(out)@
            + failure_line(*final(failures) as nat, name@),
{
    if !probe_ok {
        *failures = *failures + 1;
        let ghost start = out@;
        out.append("core.failure.");
        push_decimal(out, *failures as u64);
        out.append("=wiilandd.");
        out.append(name);
        out.append("\n");
        assert(out@ =~= start + failure_line(*failures as nat, name@));
    }
}

/// Appends the output of an optional probe that already printed its command
/// line: its standard output, then a failure note when it failed.  Returns
/// whether it succeeded.
pub fn append_optional_output(out: &mut String, shown: &str, stdout: &str, success: bool) -> (r: bool)
    ensures
        r == success,
        success ==> final(out)@ == old(out)@ + stdout@,
        !success ==> final(out)@ == old(out)@ + stdout@ + "optional failed: "@ + shown@ + "\n"@,
{
    out.append(stdout);
    if success {
        true
    } else {
        out.append("optional failed: ");
        out.append(shown);
        out.append("\n");
        false
    }
}

/// The manual validation section of the report.
pub open spec fn manual_text() -> Seq<char> {
    "\n== manual-validation ==\n"@ + "manual.sdl=TODO: validate virtual gamepad in an SDL input tester\n"@ + "manual.wine-proton=TODO: validate virtual gamepad in one Wine/Proton game\n"@ + "manual.native-wayland-desktop=TODO: validate desktop profile pointer/buttons under a native Wayland compositor\n"@ + "manual.native-xorg-desktop=TODO: validate desktop profile pointer/buttons in a native X.org session\n"@ + "manual.native-x11-consumer=TODO: validate a native X11 application in a native X.org session\n"@ + "manual.xwayland-consumer=TODO: validate an X11 application through XWayland in a Wayland session\n"@ + "manual.steam-motion-aim=TODO: validate aim-mode=right-stick in one Steam Input game\n"@ + "manual.nonsteam-motion-aim=TODO: validate aim-mode=right-stick in one native or XWayland non-Steam game\n"@ + "manual.mouse-motion-aim=TODO: validate aim-mode=mouse in one game that accepts mouse aim\n"@ + "manual.motion-aim-calibration=TODO: run wiilandd --device <N> --calibrate-aim on a flat stable surface and paste generated offsets into the test config\n"@ + "manual.ir-screen-calibration=optional: for absolute IR aim, record ir-screen-left/right/top/bottom and sensor bar placement used during validation\n"@ + "manual.notes=TODO: record pass/fail details, game/app names, display server, and deviations\n"@
}

/// Appends the manual validation section.
pub fn manual(out: &mut String)
    ensures
        final(out)@ == old(out)@ + manual_text(),
{
    let ghost start = out@;
    out.append("\n== manual-validation ==\n");
    out.append("manual.sdl=TODO: validate virtual gamepad in an SDL input tester\n");
    out.append("manual.wine-proton=TODO: validate virtual gamepad in one Wine/Proton game\n");
    out.append("manual.native-wayland-desktop=TODO: validate desktop profile pointer/buttons under a native Wayland compositor\n");
    out.append("manual.native-xorg-desktop=TODO: validate desktop profile pointer/buttons in a native X.org session\n");
    out.append("manual.native-x11-consumer=TODO: validate a native X11 application in a native X.org session\n");
    out.append("manual.xwayland-consumer=TODO: validate an X11 application through XWayland in a Wayland session\n");
    out.append("manual.steam-motion-aim=TODO: validate aim-mode=right-stick in one Steam Input game\n");
    out.append("manual.nonsteam-motion-aim=TODO: validate aim-mode=right-stick in one native or XWayland non-Steam game\n");
    out.append("manual.mouse-motion-aim=TODO: validate aim-mode=mouse in one game that accepts mouse aim\n");
    out.append("manual.motion-aim-calibration=TODO: run wiilandd --device <N> --calibrate-aim on a flat stable surface and paste generated offsets into the test config\n");
    out.append("manual.ir-screen-calibration=optional: for absolute IR aim, record ir-screen-left/right/top/bottom and sensor bar placement used during validation\n");
    out.append("manual.notes=TODO: record pass/fail details, game/app names, display server, and deviations\n");
    assert(out@ =~= start + manual_text());
}


/// The proleptic Gregorian date (year, month, day) of a day count since
/// 1970-01-01, by Howard Hinnant's `civil_from_days`, with floor division.
pub open spec fn civil_spec(days: int) -> (int, int, int) {
    let z = days + 719468;
    let era = z / 146097;
    let doe = z - era * 146097;
    let yoe = (doe - doe / 1460 + doe / 36524 - doe / 146096) / 365;
    let y = yoe + era * 400;
    let doy = doe - (365 * yoe + yoe / 4 - yoe / 100);
    let mp = (5 * doy + 2) / 153;
    let d = doy - (153 * mp + 2) / 5 + 1;
    let m = if mp < 10 {
        mp + 3
    } else {
        mp - 9
    };
    (
        if m <= 2 {
            y + 1
        } else {
            y
        },
        m,
        d,
    )
}

/// The calendar date of a day count since 1970-01-01.
#[verifier::spinoff_prover]
#[verifier::rlimit(40)]
pub fn civil_from_days(days: i64) -> (r: (i64, i64, i64))
    requires
        days <= i64::MAX - 719468,
        days >= i64::MIN + 146096 - 719468,
    ensures
        (r.0 as int, r.1 as int, r.2 as int) == civil_spec(days as int),
{
    let z = days + 719_468;
    let era = if z >= 0 {
        z
    } else {
        z - 146_096
    } / 146_097;
    proof {
        if z >= 0 {
            assert(era == z / 146097);
        } else {
            let n = -z;
            assert(era == -((146096 + n) / 146097));
            assert(-((146096 + n) / 146097) == z / 146097) by (nonlinear_arith)
                requires
                    n > 0,
                    z == -n,
            ;
        }
    }
    let doe = z - era * 146_097;
    assert(0 <= doe < 146097) by (nonlinear_arith)
        requires
            era == z / 146097,
            doe == z - era * 146097,
    ;
    let yoe = (doe - doe / 1_460 + doe / 36_524 - doe / 146_096) / 365;
    assert(0 <= yoe <= 400) by (nonlinear_arith)
        requires
            0 <= doe < 146097,
            yoe == (doe - doe / 1460 + doe / 36524 - doe / 146096) / 365,
    ;
    let y = yoe + era * 400;
    let doy = doe - (365 * yoe + yoe / 4 - yoe / 100);
    assert(-200000 <= doy <= 200000) by (nonlinear_arith)
        requires
            0 <= doe < 146097,
            0 <= yoe <= 400,
            doy == doe - (365 * yoe + yoe / 4 - yoe / 100),
    ;
    let mp = (5 * doy + 2) / 153;
    let d = doy - (153 * mp + 2) / 5 + 1;
    let m = mp + if mp < 10 {
        3
    } else {
        -9
    };
    (y + if m <= 2 {
        1
    } else {
        0
    }, m, d)
}

/// `YYYY-MM-DDTHH:MM:SSZ`: the UTC time of a Unix time in seconds.
pub open spec fn timestamp_spec(seconds: nat) -> Seq<char> {
    let days = seconds / 86400;
    let rem = seconds % 86400;
    let (y, m, d) = civil_spec(days as int);
    pad_left(decimal(y as nat), 4, '0') + "-"@ + pad_left(decimal(m as nat), 2, '0') + "-"@
        + pad_left(decimal(d as nat), 2, '0') + "T"@ + pad_left(decimal(rem / 3600), 2, '0')
        + ":"@ + pad_left(decimal((rem / 60) % 60), 2, '0') + ":"@ + pad_left(
        decimal(rem % 60),
        2,
        '0',
    ) + "Z"@
}

/// The UTC calendar time of a Unix time, formatted without locale.
pub fn timestamp(seconds: u64) -> (r: String)
    ensures
        r@ == timestamp_spec(seconds as nat),
{
    let days = seconds / 86_400;
    let rem = seconds % 86_400;
    let (year, month, day) = civil_from_days(days as i64);
    proof {
        lemma_civil_of_nonnegative_days(days as int);
    }
    let mut s = String::new();
    push_decimal_padded(&mut s, year as u64, 4);
    s.append("-");
    push_decimal_padded(&mut s, month as u64, 2);
    s.append("-");
    push_decimal_padded(&mut s, day as u64, 2);
    s.append("T");
    push_decimal_padded(&mut s, rem / 3600, 2);
    s.append(":");
    push_decimal_padded(&mut s, (rem / 60) % 60, 2);
    s.append(":");
    push_decimal_padded(&mut s, rem % 60, 2);
    s.append("Z");
    s
}

/// From 1970 on, the year, month and day are positive.
proof fn lemma_civil_of_nonnegative_days(days: int)
    requires
        days >= 0,
    ensures
        civil_spec(days).0 >= 0,
        civil_spec(days).1 >= 0,
        civil_spec(days).2 >= 0,
{
    lemma_civil_ranges(days);
    let z = days + 719468;
    let era = z / 146097;
    assert(era >= 0) by (nonlinear_arith)
        requires
            z >= 0,
            era == z / 146097,
    ;
}

/// Every day count gives a month from 1 to 12 and a day from 1 to 31.
pub proof fn lemma_civil_ranges(days: int)
    ensures
        1 <= civil_spec(days).1 <= 12,
        1 <= civil_spec(days).2 <= 31,
{
    let z = days + 719468;
    let era = z / 146097;
    let doe = z - era * 146097;
    assert(0 <= doe < 146097) by (nonlinear_arith)
        requires
            era == z / 146097,
            doe == z - era * 146097,
    ;
    let yoe = (doe - doe / 1460 + doe / 36524 - doe / 146096) / 365;
    let doy = doe - (365 * yoe + yoe / 4 - yoe / 100);
    lemma_day_of_year_range(doe);
    let mp = (5 * doy + 2) / 153;
    assert(0 <= mp <= 11) by (nonlinear_arith)
        requires
            0 <= doy <= 365,
            mp == (5 * doy + 2) / 153,
    ;
    let d = doy - (153 * mp + 2) / 5 + 1;
    assert(1 <= d <= 31) by (nonlinear_arith)
        requires
            0 <= doy <= 365,
            mp == (5 * doy + 2) / 153,
            d == doy - (153 * mp + 2) / 5 + 1,
    ;
}

/// The day of the year within an era, counted from March 1, is 0 to 365.
proof fn lemma_day_of_year_range(doe: int)
    requires
        0 <= doe < 146097,
    ensures
        ({
            let yoe = (doe - doe / 1460 + doe / 36524 - doe / 146096) / 365;
            let doy = doe - (365 * yoe + yoe / 4 - yoe / 100);
            0 <= doy <= 365
        }),
{
    let a = doe / 1460;
    let b = doe / 36524;
    let c = doe / 146096;
    let t = doe - a + b - c;
    let yoe = t / 365;
    let p = yoe / 4;
    let s = yoe / 100;
    assert(doe == 1460 * a + doe % 1460 && 0 <= doe % 1460 < 1460);
    assert(doe == 36524 * b + doe % 36524 && 0 <= doe % 36524 < 36524);
    assert(doe == 146096 * c + doe % 146096 && 0 <= doe % 146096 < 146096);
    assert(t == 365 * yoe + t % 365 && 0 <= t % 365 < 365);
    assert(yoe == 4 * p + yoe % 4 && 0 <= yoe % 4 < 4);
    assert(yoe == 100 * s + yoe % 100 && 0 <= yoe % 100 < 100);
    lemma_day_of_year_linear(doe, a, b, c, t, yoe, p, s);
}

/// The linear core of the day-of-year bound, with each quotient named.
#[verifier::spinoff_prover]
#[verifier::rlimit(60)]
proof fn lemma_day_of_year_linear(doe: int, a: int, b: int, c: int, t: int, yoe: int, p: int, s: int)
    requires
        0 <= doe < 146097,
        0 <= doe - 1460 * a < 1460,
        0 <= doe - 36524 * b < 36524,
        0 <= doe - 146096 * c < 146096,
        t == doe - a + b - c,
        0 <= t - 365 * yoe < 365,
        0 <= yoe - 4 * p < 4,
        0 <= yoe - 100 * s < 100,
    ensures
        0 <= doe - (365 * yoe + p - s) <= 365,
{
}

/// Where the report looks and what it runs.
#[derive(Clone, Debug)]
pub struct ReportEnvironment {
    pub wiilandd: String,
    pub repo_dir: String,
    pub module_dir: String,
    pub os_release: String,
    pub tmp_dir: String,
}

fn or_literal(v: Option<String>, d: &str) -> (r: String)
    ensures
        r@ == match v {
            Some(s) => s@,
            None => d@,
        },
{
    match v {
        Some(s) => s,
        None => String::from_str(d),
    }
}

impl ReportEnvironment {
    /// The environment from the variables that are set: `WIILANDD` (else
    /// `wiilandd`), `WIILAND_REPO_DIR` (else the current directory, else
    /// `.`), `HID_WIIMOTE_MODULE_DIR` (else `/sys/module/hid_wiimote`),
    /// `OS_RELEASE_PATH` (else `/etc/os-release`) and `TMPDIR` (else
    /// `/tmp`).
    pub fn from_values(
        wiilandd: Option<String>,
        repo_dir: Option<String>,
        current_dir: Option<String>,
        module_dir: Option<String>,
        os_release: Option<String>,
        tmp_dir: Option<String>,
    ) -> (r: Self)
        ensures
            r.wiilandd@ == match wiilandd {
                Some(s) => s@,
                None => "wiilandd"@,
            },
            r.repo_dir@ == match (repo_dir, current_dir) {
                (Some(s), _) => s@,
                (None, Some(c)) => c@,
                (None, None) => "."@,
            },
            r.module_dir@ == match module_dir {
                Some(s) => s@,
                None => "/sys/module/hid_wiimote"@,
            },
            r.os_release@ == match os_release {
                Some(s) => s@,
                None => "/etc/os-release"@,
            },
            r.tmp_dir@ == match tmp_dir {
                Some(s) => s@,
                None => "/tmp"@,
            },
    {
        let repo = match repo_dir {
            Some(s) => s,
            None => or_literal(current_dir, "."),
        };
        ReportEnvironment {
            wiilandd: or_literal(wiilandd, "wiilandd"),
            repo_dir: repo,
            module_dir: or_literal(module_dir, "/sys/module/hid_wiimote"),
            os_release: or_literal(os_release, "/etc/os-release"),
            tmp_dir: or_literal(tmp_dir, "/tmp"),
        }
    }
}

/// The line `wiilandd --list` prints when it finds no device.
pub const NO_DEVICES: &'static str = "No Wii Remote devices found";

/// One line of `wiilandd --list` output, as the report reads it.
#[derive(Clone, Debug)]
pub enum ListRow {
    /// A blank line, or the no-device notice.
    Skip,
    /// A line that is not `<index> <syspath>`: why, and what was read.
    Malformed { reason: &'static str, index: String, syspath: String, extra: String },
    /// A listed device.
    Device { index: String, syspath: String },
}

/// The abstract form of a list row.
pub enum ListRowView {
    Skip,
    Malformed { reason: Seq<char>, index: Seq<char>, syspath: Seq<char>, extra: Seq<char> },
    Device { index: Seq<char>, syspath: Seq<char> },
}

impl View for ListRow {
    type V = ListRowView;

    open spec fn view(&self) -> ListRowView {
        match self {
            ListRow::Skip => ListRowView::Skip,
            ListRow::Malformed { reason, index, syspath, extra } => ListRowView::Malformed {
                reason: reason@,
                index: index@,
                syspath: syspath@,
                extra: extra@,
            },
            ListRow::Device { index, syspath } => ListRowView::Device {
                index: index@,
                syspath: syspath@,
            },
        }
    }
}

/// Words joined by single spaces.
pub open spec fn join_words(ws: Seq<Seq<char>>) -> Seq<char>
    decreases ws.len(),
{
    if ws.len() == 0 {
        seq![]
    } else if ws.len() == 1 {
        ws[0]
    } else {
        join_words(ws.drop_last()) + " "@ + ws.last()
    }
}

/// How a line of the device list reads: its first word is the index, which
/// must be digits, its second the sysfs path, and there must be no third.
pub open spec fn list_row_spec(line: Seq<char>) -> ListRowView {
    if all_whitespace(line) || line == NO_DEVICES@ {
        ListRowView::Skip
    } else {
        let f = words_spec(line);
        let index = if f.len() > 0 {
            f[0]
        } else {
            seq![]
        };
        let syspath = if f.len() > 1 {
            f[1]
        } else {
            seq![]
        };
        let extra = if f.len() > 2 {
            join_words(f.subrange(2, f.len() as int))
        } else {
            seq![]
        };
        if index.len() == 0 || !all_digits(index) {
            ListRowView::Malformed { reason: "invalid-index"@, index, syspath, extra }
        } else if syspath.len() == 0 {
            ListRowView::Malformed { reason: "missing-syspath"@, index, syspath, extra }
        } else if f.len() > 2 {
            ListRowView::Malformed { reason: "extra-fields"@, index, syspath, extra }
        } else {
            ListRowView::Device { index, syspath }
        }
    }
}

/// Reads one line of the device list.
pub fn list_row(line: &str) -> (r: ListRow)
    ensures
        r@ == list_row_spec(line@),
{
    if is_blank(line) || str_eq(line, NO_DEVICES) {
        return ListRow::Skip;
    }
    let f = words(line);
    let ghost fv = f@.map_values(|w: String| w@);
    let index = if f.len() > 0 {
        f[0].clone()
    } else {
        String::new()
    };
    let syspath = if f.len() > 1 {
        f[1].clone()
    } else {
        String::new()
    };
    let mut extra = String::new();
    if f.len() > 2 {
        extra = f[2].clone();
        let mut k: usize = 3;
        assert(fv.subrange(2, 3) =~= seq![fv[2]]);
        while k < f.len()
            invariant
                3 <= k <= f.len(),
                fv == f@.map_values(|w: String| w@),
                extra@ == join_words(fv.subrange(2, k as int)),
            decreases f.len() - k,
        {
            let ghost before = extra@;
            extra.append(" ");
            extra.append(f[k].as_str());
            assert(fv.subrange(2, k + 1).drop_last() =~= fv.subrange(2, k as int));
            assert(extra@ =~= before + " "@ + fv[k as int]);
            k = k + 1;
        }
        assert(fv.subrange(2, f.len() as int) =~= fv.subrange(2, k as int));
    }
    assert(index@ == (if fv.len() > 0 {
        fv[0]
    } else {
        seq![]
    }));
    if index.as_str().unicode_len() == 0 || !is_all_digits(index.as_str()) {
        ListRow::Malformed { reason: "invalid-index", index, syspath, extra }
    } else if syspath.as_str().unicode_len() == 0 {
        ListRow::Malformed { reason: "missing-syspath", index, syspath, extra }
    } else if f.len() > 2 {
        ListRow::Malformed { reason: "extra-fields", index, syspath, extra }
    } else {
        ListRow::Device { index, syspath }
    }
}

/// The lines that report a malformed row `row` and count it as the
/// failure numbered `n`.
pub open spec fn malformed_row_text(
    row: nat,
    reason: Seq<char>,
    index: Seq<char>,
    syspath: Seq<char>,
    extra: Seq<char>,
    n: nat,
) -> Seq<char> {
    "device-list.row."@ + decimal(row) + ".malformed="@ + reason + "\n"@ + "device-list.row."@
        + decimal(row) + ".parsed="@ + index + "|"@ + syspath + "|"@ + extra + "\n"@
        + "core.failure."@ + decimal(n) + "=wiilandd.list.malformed-row."@ + decimal(row) + "\n"@
}

/// Reports the malformed row `row` (counted from one) and counts it.
pub fn report_malformed_row(
    out: &mut String,
    failures: &mut usize,
    row: usize,
    reason: &str,
    index: &str,
    syspath: &str,
    extra: &str,
)
    requires
        *old(failures) < usize::MAX,
    ensures
        *final(failures) == *old(failures) + 1,
        final(out)@ == old(out)@ + malformed_row_text(
            row as nat,
            reason@,
            index@,
            syspath@,
            extra@,
            *final(failures) as nat,
        ),
{
    let ghost start = out@;
    out.append("device-list.row.");
    push_decimal(out, row as u64);
    out.append(".malformed=");
    out.append(reason);
    out.append("\n");
    out.append("device-list.row.");
    push_decimal(out, row as u64);
    out.append(".parsed=");
    out.append(index);
    out.append("|");
    out.append(syspath);
    out.append("|");
    out.append(extra);
    out.append("\n");
    *failures = *failures + 1;
    out.append("core.failure.");
    push_decimal(out, *failures as u64);
    out.append("=wiilandd.list.malformed-row.");
    push_decimal(out, row as u64);
    out.append("\n");
    assert(out@ =~= start + malformed_row_text(
        row as nat,
        reason@,
        index@,
        syspath@,
        extra@,
        *failures as nat,
    ));
}

/// The first line reported of a listed device.
pub fn report_device_syspath(out: &mut String, index: &str, syspath: &str)
    ensures
        final(out)@ == old(out)@ + "device."@ + index@ + ".syspath="@ + syspath@ + "\n"@,
{
    let ghost start = out@;
    out.append("device.");
    out.append(index);
    out.append(".syspath=");
    out.append(syspath);
    out.append("\n");
    assert(out@ =~= start + "device."@ + index@ + ".syspath="@ + syspath@ + "\n"@);
}

/// Whether `line` begins with one of `prefixes`.
pub open spec fn has_any_prefix(line: Seq<char>, prefixes: Seq<Seq<char>>) -> bool {
    exists|k: int| 0 <= k < prefixes.len() && seq_starts_with(line, #[trigger] prefixes[k])
}

/// The lines of `ls` that begin with one of `prefixes`, each as
/// `{label}.{line}` and a newline.
pub open spec fn selected_lines(label: Seq<char>, ls: Seq<Seq<char>>, prefixes: Seq<Seq<char>>) -> Seq<char>
    decreases ls.len(),
{
    if ls.len() == 0 {
        seq![]
    } else {
        let prev = selected_lines(label, ls.drop_last(), prefixes);
        if has_any_prefix(ls.last(), prefixes) {
            prev + label + "."@ + ls.last() + "\n"@
        } else {
            prev
        }
    }
}

fn starts_with_any(line: &str, prefixes: &[&str]) -> (r: bool)
    ensures
        r == has_any_prefix(line@, prefixes@.map_values(|p: &str| p@)),
{
    let ghost pv = prefixes@.map_values(|p: &str| p@);
    let mut k: usize = 0;
    while k < prefixes.len()
        invariant
            k <= prefixes.len(),
            pv == prefixes@.map_values(|p: &str| p@),
            forall|j: int| 0 <= j < k ==> !seq_starts_with(line@, #[trigger] pv[j]),
        decreases prefixes.len() - k,
    {
        if starts_with(line, prefixes[k]) {
            assert(seq_starts_with(line@, pv[k as int]));
            return true;
        }
        k = k + 1;
    }
    false
}

/// Appends the lines of `contents` that begin with one of `prefixes`, each
/// under `label` (the `os-release` and `uevent` sections).
pub fn report_selected_lines(out: &mut String, label: &str, contents: &str, prefixes: &[&str])
    ensures
        final(out)@ == old(out)@ + selected_lines(
            label@,
            lines_spec(contents@),
            prefixes@.map_values(|p: &str| p@),
        ),
{
    let ls = lines(contents);
    let ghost lv = ls@.map_values(|l: String| l@);
    let ghost pv = prefixes@.map_values(|p: &str| p@);
    let ghost start = out@;
    let mut i: usize = 0;
    assert(lv.subrange(0, 0) =~= Seq::<Seq<char>>::empty());
    assert(out@ =~= start + selected_lines(label@, lv.subrange(0, 0), pv));
    while i < ls.len()
        invariant
            i <= ls.len(),
            lv == ls@.map_values(|l: String| l@),
            pv == prefixes@.map_values(|p: &str| p@),
            out@ == start + selected_lines(label@, lv.subrange(0, i as int), pv),
        decreases ls.len() - i,
    {
        assert(lv.subrange(0, i + 1).drop_last() =~= lv.subrange(0, i as int));
        assert(lv.subrange(0, i + 1).last() == ls@[i as int]@);
        if starts_with_any(ls[i].as_str(), prefixes) {
            let ghost before = out@;
            out.append(label);
            out.append(".");
            out.append(ls[i].as_str());
            out.append("\n");
            assert(out@ =~= before + label@ + "."@ + ls@[i as int]@ + "\n"@);
        }
        i = i + 1;
    }
    assert(lv.subrange(0, ls.len() as int) =~= lv);
}

/// The controllers of a `bluetoothctl list` output: the second word of each
/// line whose first word is `Controller`.
pub open spec fn controllers_spec(ls: Seq<Seq<char>>) -> Seq<Seq<char>>
    decreases ls.len(),
{
    if ls.len() == 0 {
        seq![]
    } else {
        let prev = controllers_spec(ls.drop_last());
        let w = words_spec(ls.last());
        if w.len() >= 2 && w[0] == "Controller"@ {
            prev.push(w[1])
        } else {
            prev
        }
    }
}

/// The controller addresses listed by `bluetoothctl list`.
pub fn bluetooth_controllers(listing: &str) -> (r: Vec<String>)
    ensures
        r@.map_values(|a: String| a@) == controllers_spec(lines_spec(listing@)),
{
    let ls = lines(listing);
    let ghost lv = ls@.map_values(|l: String| l@);
    let mut out: Vec<String> = Vec::new();
    let mut i: usize = 0;
    assert(lv.subrange(0, 0) =~= Seq::<Seq<char>>::empty());
    assert(out@.map_values(|a: String| a@) =~= Seq::<Seq<char>>::empty());
    while i < ls.len()
        invariant
            i <= ls.len(),
            lv == ls@.map_values(|l: String| l@),
            out@.map_values(|a: String| a@) == controllers_spec(lv.subrange(0, i as int)),
        decreases ls.len() - i,
    {
        assert(lv.subrange(0, i + 1).drop_last() =~= lv.subrange(0, i as int));
        assert(lv.subrange(0, i + 1).last() == ls@[i as int]@);
        let w = words(ls[i].as_str());
        let ghost wv = w@.map_values(|x: String| x@);
        if w.len() >= 2 && str_eq(w[0].as_str(), "Controller") {
            let ghost before = out@.map_values(|a: String| a@);
            let address = w[1].clone();
            assert(address@ == wv[1]);
            out.push(address);
            assert(out@.map_values(|a: String| a@) =~= before.push(wv[1]));
        }
        i = i + 1;
    }
    assert(lv.subrange(0, ls.len() as int) =~= lv);
    out
}

/// The arguments of the live trace: a dry run that traces every event unless
/// a selector was given, verbose, of the device, with both profiles, then
/// the forwarded arguments.
pub open spec fn trace_args_spec(device: Seq<char>, extra: Seq<Seq<char>>, selectors: nat) -> Seq<Seq<char>> {
    seq!["--dry-run"@] + (if selectors == 0 {
        seq!["--trace-events"@]
    } else {
        seq![]
    }) + seq!["--verbose"@, "--device"@, device, "--profile"@, "both"@] + extra
}

/// The command line of the live trace for the selected device.
pub fn trace_args(parsed: &ParsedArgs, device: &str) -> (r: Vec<String>)
    ensures
        arg_views(r@) == trace_args_spec(device@, arg_views(parsed.extra@), parsed.trace_selectors as nat),
{
    let mut a: Vec<String> = Vec::new();
    a.push(String::from_str("--dry-run"));
    if parsed.trace_selectors == 0 {
        a.push(String::from_str("--trace-events"));
    }
    a.push(String::from_str("--verbose"));
    a.push(String::from_str("--device"));
    a.push(String::from_str(device));
    a.push(String::from_str("--profile"));
    a.push(String::from_str("both"));
    let ghost head = arg_views(a@);
    assert(head =~= trace_args_spec(device@, seq![], parsed.trace_selectors as nat));
    let mut i: usize = 0;
    while i < parsed.extra.len()
        invariant
            i <= parsed.extra.len(),
            arg_views(a@) == head + arg_views(parsed.extra@).subrange(0, i as int),
        decreases parsed.extra.len() - i,
    {
        let ghost before = arg_views(a@);
        a.push(parsed.extra[i].clone());
        assert(arg_views(a@) =~= before.push(parsed.extra@[i as int]@));
        assert(arg_views(parsed.extra@).subrange(0, i + 1) =~= arg_views(parsed.extra@).subrange(0, i as int).push(parsed.extra@[i as int]@));
        i = i + 1;
    }
    assert(arg_views(parsed.extra@).subrange(0, parsed.extra.len() as int) =~= arg_views(parsed.extra@));
    assert(trace_args_spec(device@, arg_views(parsed.extra@), parsed.trace_selectors as nat) =~= head + arg_views(parsed.extra@));
    a
}

/// How a report ends: failed, complete without a live trace, or going on to
/// trace the selected device.
#[derive(Clone, Copy, Debug, PartialEq, Eq, Structural)]
pub enum ReportEnd {
    Failed,
    Complete,
    Trace,
}

/// The hint shown when no device was selected.
pub open spec fn trace_hint(wiilandd: Seq<char>) -> Seq<char> {
    "\nPass a device number or sysfs path to capture live dry-run traces:\n"@ + "  WIILANDD="@ + wiilandd
        + " wiilandd-hardware-report <number-or-/sys/path> [extra wiilandd args]\n"@
        + "For focused traces:\n  WIILANDD="@ + wiilandd
        + " wiilandd-hardware-report <number-or-/sys/path> --trace-events=motion-plus\n  WIILANDD="@
        + wiilandd + " wiilandd-hardware-report <number-or-/sys/path> --trace-events=ir\n"@
        + "\nDuring trace capture, exercise every button, stick, trigger, accelerometer,\nMotionPlus axis, IR pointer source, and attached extension. Stop with Ctrl-C.\n"@
}

/// The result section: the failure count and status, then either the hint
/// (no device selected) or the trace header.
pub open spec fn result_text(failures: nat, device: Option<Seq<char>>, wiilandd: Seq<char>) -> Seq<char> {
    "\n== result ==\nreport.core-failures="@ + decimal(failures) + "\n"@ + if failures > 0 {
        "report.status=failed\n"@
    } else {
        "report.status=ok\n"@ + match device {
            None => trace_hint(wiilandd),
            Some(d) => "\n== trace ==\nTracing "@ + d
                + ". Stop with Ctrl-C after exercising the hardware matrix.\n"@,
        }
    }
}

/// Appends the result section and says how the report ends.
pub fn finish_report(out: &mut String, failures: usize, device: Option<&str>, wiilandd: &str) -> (r: ReportEnd)
    ensures
        final(out)@ == old(out)@ + result_text(
            failures as nat,
            match device {
                Some(d) => Some(d@),
                None => None,
            },
            wiilandd@,
        ),
        r == if failures > 0 {
            ReportEnd::Failed
        } else if device is None {
            ReportEnd::Complete
        } else {
            ReportEnd::Trace
        },
{
    let ghost start = out@;
    let ghost dv = match device {
        Some(d) => Some(d@),
        None => None,
    };
    out.append("\n== result ==\nreport.core-failures=");
    push_decimal(out, failures as u64);
    out.append("\n");
    let ghost head = out@;
    assert(head =~= start + "\n== result ==\nreport.core-failures="@ + decimal(failures as nat) + "\n"@);
    if failures > 0 {
        out.append("report.status=failed\n");
        assert(out@ =~= start + result_text(failures as nat, dv, wiilandd@));
        return ReportEnd::Failed;
    }
    out.append("report.status=ok\n");
    match device {
        None => {
            out.append("\nPass a device number or sysfs path to capture live dry-run traces:\n");
            out.append("  WIILANDD=");
            out.append(wiilandd);
            out.append(" wiilandd-hardware-report <number-or-/sys/path> [extra wiilandd args]\n");
            out.append("For focused traces:\n  WIILANDD=");
            out.append(wiilandd);
            out.append(" wiilandd-hardware-report <number-or-/sys/path> --trace-events=motion-plus\n  WIILANDD=");
            out.append(wiilandd);
            out.append(" wiilandd-hardware-report <number-or-/sys/path> --trace-events=ir\n");
            out.append("\nDuring trace capture, exercise every button, stick, trigger, accelerometer,\nMotionPlus axis, IR pointer source, and attached extension. Stop with Ctrl-C.\n");
            assert(out@ =~= head + "report.status=ok\n"@ + trace_hint(wiilandd@));
            assert(out@ =~= start + result_text(failures as nat, dv, wiilandd@));
            ReportEnd::Complete
        },
        Some(d) => {
            out.append("\n== trace ==\nTracing ");
            out.append(d);
            out.append(". Stop with Ctrl-C after exercising the hardware matrix.\n");
            assert(out@ =~= start + result_text(failures as nat, dv, wiilandd@));
            ReportEnd::Trace
        },
    }
}

/// The desktop-session variables the report shows, in order.
pub open spec fn session_variables_spec() -> Seq<Seq<char>> {
    seq![
        "XDG_CURRENT_DESKTOP"@,
        "XDG_SESSION_DESKTOP"@,
        "XDG_SESSION_TYPE"@,
        "DESKTOP_SESSION"@,
        "GDMSESSION"@,
        "KDE_SESSION_VERSION"@,
        "WAYLAND_DISPLAY"@,
        "DISPLAY"@,
    ]
}

/// The desktop-session variables the report shows, in order.
pub fn session_variables() -> (r: Vec<&'static str>)
    ensures
        r@.map_values(|k: &'static str| k@) == session_variables_spec(),
{
    let r = vec![
        "XDG_CURRENT_DESKTOP",
        "XDG_SESSION_DESKTOP",
        "XDG_SESSION_TYPE",
        "DESKTOP_SESSION",
        "GDMSESSION",
        "KDE_SESSION_VERSION",
        "WAYLAND_DISPLAY",
        "DISPLAY",
    ];
    assert(r@.map_values(|k: &'static str| k@) =~= session_variables_spec());
    r
}

/// The compositor variables the report shows after `XAUTHORITY`, in order.
pub fn compositor_variables() -> (r: Vec<&'static str>)
    ensures
        r@.map_values(|k: &'static str| k@) == seq!["SWAYSOCK"@, "HYPRLAND_INSTANCE_SIGNATURE"@],
{
    let r = vec!["SWAYSOCK", "HYPRLAND_INSTANCE_SIGNATURE"];
    assert(r@.map_values(|k: &'static str| k@) =~= seq!["SWAYSOCK"@, "HYPRLAND_INSTANCE_SIGNATURE"@]);
    r
}

/// The line of an environment variable: its value, empty when it is unset.
pub fn variable_line(key: &str, value: Option<&str>) -> (r: String)
    ensures
        r@ == key@ + "="@ + (match value {
            Some(v) => v@,
            None => Seq::<char>::empty(),
        }) + "\n"@,
{
    let mut s = String::from_str(key);
    s.append("=");
    match value {
        Some(v) => s.append(v),
        None => {},
    }
    s.append("\n");
    assert(s@ =~= key@ + "="@ + (match value {
        Some(v) => v@,
        None => Seq::<char>::empty(),
    }) + "\n"@);
    s
}

/// The `XAUTHORITY` lines: whether it is set, and whether it names a
/// readable regular file (`xauthority` is `None` when unset, else that
/// answer).
pub fn xauthority_lines(xauthority: Option<bool>) -> (r: &'static str)
    ensures
        r@ == match xauthority {
            None => "XAUTHORITY.set=no\nXAUTHORITY.readable=no\n"@,
            Some(true) => "XAUTHORITY.set=yes\nXAUTHORITY.readable=yes\n"@,
            Some(false) => "XAUTHORITY.set=yes\nXAUTHORITY.readable=no\n"@,
        },
{
    match xauthority {
        None => "XAUTHORITY.set=no\nXAUTHORITY.readable=no\n",
        Some(true) => "XAUTHORITY.set=yes\nXAUTHORITY.readable=yes\n",
        Some(false) => "XAUTHORITY.set=yes\nXAUTHORITY.readable=no\n",
    }
}

} // verus!
