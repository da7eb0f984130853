//! Command-line scanning of `wiilandd`: the first pass, which only finds the
//! configuration selectors and the requested action, and the value parsers
//! shared by the option handlers.

use vstd::prelude::*;
use crate::errno::EINVAL;
use crate::text::{str_eq, starts_with, strip_prefix, seq_starts_with, parse_i64, parse_i64_spec};

verus! {

/// The mutually exclusive top-level operations of `wiilandd`.
#[derive(Clone, Copy, Debug, PartialEq, Eq, Structural)]
pub enum Action {
    Run,
    Help,
    Version,
    List,
    AxisMap,
    ValidationChecklist,
    Doctor,
    DumpConfig,
    CheckConfig,
    SelfTest,
    CalibrateAim,
}

/// The option that selects an action (`run` for the default one).
pub open spec fn action_label(a: Action) -> Seq<char> {
    match a {
        Action::Run => "run"@,
        Action::Help => "--help"@,
        Action::Version => "--version"@,
        Action::List => "--list"@,
        Action::AxisMap => "--axis-map"@,
        Action::ValidationChecklist => "--validation-checklist"@,
        Action::Doctor => "--doctor"@,
        Action::DumpConfig => "--dump-config"@,
        Action::CheckConfig => "--check-config"@,
        Action::SelfTest => "--self-test"@,
        Action::CalibrateAim => "--calibrate-aim"@,
    }
}

/// The action an option selects, if it selects one.
pub open spec fn action_of_option(arg: Seq<char>) -> Option<Action> {
    if arg == "-h"@ || arg == "--help"@ {
        Some(Action::Help)
    } else if arg == "--version"@ {
        Some(Action::Version)
    } else if arg == "-l"@ || arg == "--list"@ {
        Some(Action::List)
    } else if arg == "--axis-map"@ {
        Some(Action::AxisMap)
    } else if arg == "--validation-checklist"@ {
        Some(Action::ValidationChecklist)
    } else if arg == "--doctor"@ {
        Some(Action::Doctor)
    } else if arg == "--dump-config"@ {
        Some(Action::DumpConfig)
    } else if arg == "--check-config"@ {
        Some(Action::CheckConfig)
    } else if arg == "--self-test"@ {
        Some(Action::SelfTest)
    } else if arg == "--calibrate-aim"@ {
        Some(Action::CalibrateAim)
    } else {
        None
    }
}

/// Whether an action runs without loading any configuration.
pub open spec fn without_config(a: Action) -> bool {
    a == Action::Help || a == Action::Version || a == Action::List || a == Action::AxisMap || a
        == Action::ValidationChecklist
}

impl Action {
    /// The option that selects this action (`run` for the default one).
    pub fn label(self) -> (r: &'static str)
        ensures
            r@ == action_label(self),
    {
        match self {
            Self::Run => "run",
            Self::Help => "--help",
            Self::Version => "--version",
            Self::List => "--list",
            Self::AxisMap => "--axis-map",
            Self::ValidationChecklist => "--validation-checklist",
            Self::Doctor => "--doctor",
            Self::DumpConfig => "--dump-config",
            Self::CheckConfig => "--check-config",
            Self::SelfTest => "--self-test",
            Self::CalibrateAim => "--calibrate-aim",
        }
    }

    /// Whether this action runs without loading any configuration.
    pub fn diagnostic_without_config(self) -> (r: bool)
        ensures
            r == without_config(self),
    {
        match self {
            Self::Help | Self::Version | Self::List | Self::AxisMap | Self::ValidationChecklist => true,
            _ => false,
        }
    }
}

/// The action an option selects, if it selects one.
fn option_action(arg: &str) -> (r: Option<Action>)
    ensures
        r == action_of_option(arg@),
{
    if str_eq(arg, "-h") || str_eq(arg, "--help") {
        Some(Action::Help)
    } else if str_eq(arg, "--version") {
        Some(Action::Version)
    } else if str_eq(arg, "-l") || str_eq(arg, "--list") {
        Some(Action::List)
    } else if str_eq(arg, "--axis-map") {
        Some(Action::AxisMap)
    } else if str_eq(arg, "--validation-checklist") {
        Some(Action::ValidationChecklist)
    } else if str_eq(arg, "--doctor") {
        Some(Action::Doctor)
    } else if str_eq(arg, "--dump-config") {
        Some(Action::DumpConfig)
    } else if str_eq(arg, "--check-config") {
        Some(Action::CheckConfig)
    } else if str_eq(arg, "--self-test") {
        Some(Action::SelfTest)
    } else if str_eq(arg, "--calibrate-aim") {
        Some(Action::CalibrateAim)
    } else {
        None
    }
}

/// Results of the first pass: the configuration layering and the action.
/// Value options are left for after the configuration is loaded.
#[derive(Clone, Debug, PartialEq, Eq)]
pub struct Pass1 {
    pub config_path: Option<String>,
    pub explicit_config: bool,
    pub no_config: bool,
    pub action: Action,
}

/// A command-line error: the exit code, the message, and whether the usage
/// text should follow it.
#[derive(Clone, Debug, PartialEq, Eq)]
pub struct CliError {
    pub code: i32,
    pub message: String,
    pub usage: bool,
}

impl CliError {
    /// A malformed command line; the usage text follows the message.
    fn syntax(message: String) -> (r: Self)
        ensures
            r.code == EINVAL,
            r.message == message,
            r.usage,
    {
        Self { code: EINVAL, message, usage: true }
    }

    /// Options that contradict each other; no usage text follows.
    fn conflict(message: String) -> (r: Self)
        ensures
            r.code == EINVAL,
            r.message == message,
            !r.usage,
    {
        Self { code: EINVAL, message, usage: false }
    }

    /// The message, as the error displays.
    pub fn to_text(&self) -> (r: String)
        ensures
            r@ == self.message@,
    {
        self.message.clone()
    }
}

/// The abstract result of a scan: the message and usage flag of an error,
/// or the configuration path, `explicit_config`, `no_config` and action.
pub type ScanResult = Result<(Option<Seq<char>>, bool, bool, Action), (Seq<char>, bool)>;

/// The message for two different actions on one command line.
pub open spec fn conflict_message(selected: Action, option: Seq<char>) -> Seq<char> {
    "wiilandd: conflicting actions: "@ + action_label(selected) + " and "@ + option
}

/// The first pass over `args[i..]` from the state `st`.
pub open spec fn pass1_scan(
    args: Seq<Seq<char>>,
    i: int,
    st: (Option<Seq<char>>, bool, bool, Action),
) -> ScanResult
    decreases args.len() - i,
{
    if i >= args.len() || i < 0 {
        Ok(st)
    } else {
        let arg = args[i];
        if seq_starts_with(arg, "--config="@) {
            let path = arg.subrange("--config="@.len() as int, arg.len() as int);
            if path.len() == 0 {
                Err(("wiilandd: --config requires a path"@, true))
            } else {
                pass1_scan(args, i + 1, (Some(path), true, st.2, st.3))
            }
        } else if arg == "-c"@ || arg == "--config"@ {
            if i + 1 >= args.len() {
                Err(("wiilandd: --config requires a path"@, true))
            } else {
                pass1_scan(args, i + 2, (Some(args[i + 1]), true, st.2, st.3))
            }
        } else if arg == "--no-config"@ {
            pass1_scan(args, i + 1, (st.0, st.1, true, st.3))
        } else {
            match action_of_option(arg) {
                Some(a) => if st.3 != Action::Run && st.3 != a {
                    Err((conflict_message(st.3, arg), false))
                } else {
                    pass1_scan(args, i + 1, (st.0, st.1, st.2, a))
                },
                None => pass1_scan(args, i + 1, st),
            }
        }
    }
}

/// The first pass over a whole command line (without the program name).
pub open spec fn parse_pass1_spec(args: Seq<Seq<char>>) -> ScanResult {
    match pass1_scan(args, 0, (None, false, false, Action::Run)) {
        Err(e) => Err(e),
        Ok(st) => if st.2 && st.1 {
            Err(("wiilandd: --no-config cannot be combined with --config"@, false))
        } else {
            Ok(st)
        },
    }
}

/// Selects `requested` unless a different action was selected before.
pub fn requested_action(selected: &mut Action, requested: Action, option: &str) -> (r: Result<(), CliError>)
    ensures
        (*old(selected) != Action::Run && *old(selected) != requested) ==> (r matches Err(e) && e.code
            == EINVAL && !e.usage && e.message@ == conflict_message(*old(selected), option@)
            && *final(selected) == *old(selected)),
        !(*old(selected) != Action::Run && *old(selected) != requested) ==> (r is Ok && *final(selected) == requested),
{
    if *selected != Action::Run && *selected != requested {
        let mut m = String::new();
        m.append("wiilandd: conflicting actions: ");
        m.append(selected.label());
        m.append(" and ");
        m.append(option);
        return Err(CliError::conflict(m));
    }
    *selected = requested;
    Ok(())
}

/// The views of a list of arguments.
pub open spec fn arg_views(args: Seq<String>) -> Seq<Seq<char>> {
    args.map_values(|a: String| a@)
}

/// Scans the configuration selectors and the action without applying any
/// value: `--config PATH`, `-c PATH` and `--config=PATH` select a file,
/// `--no-config` selects none (the two conflict), and at most one action
/// may be requested, though it may be repeated.
pub fn parse_pass1(args: &[String]) -> (r: Result<Pass1, CliError>)
    ensures
        match parse_pass1_spec(arg_views(args@)) {
            Ok(st) => r matches Ok(p) && st == (
                match p.config_path {
                    Some(c) => Some(c@),
                    None => None,
                },
                p.explicit_config,
                p.no_config,
                p.action,
            ),
            Err((message, usage)) => r matches Err(e) && e.code == EINVAL && e.message@ == message
                && e.usage == usage,
        },
{
    let ghost views = arg_views(args@);
    let mut config_path: Option<String> = None;
    let mut explicit_config = false;
    let mut no_config = false;
    let mut action = Action::Run;
    let mut i: usize = 0;
    while i < args.len()
        invariant
            views == arg_views(args@),
            i <= args@.len(),
            pass1_scan(views, 0, (None, false, false, Action::Run)) == pass1_scan(
                views,
                i as int,
                (
                    match config_path {
                        Some(c) => Some(c@),
                        None => None,
                    },
                    explicit_config,
                    no_config,
                    action,
                ),
            ),
        decreases args@.len() - i,
    {
        let arg = args[i].as_str();
        assert(views[i as int] == arg@);
        if let Some(path) = strip_prefix(arg, "--config=") {
            if path.unicode_len() == 0 {
                return Err(CliError::syntax(String::from_str("wiilandd: --config requires a path")));
            }
            config_path = Some(String::from_str(path));
            explicit_config = true;
        } else if str_eq(arg, "-c") || str_eq(arg, "--config") {
            i = i + 1;
            if i >= args.len() {
                return Err(CliError::syntax(String::from_str("wiilandd: --config requires a path")));
            }
            assert(views[i as int] == args@[i as int]@);
            config_path = Some(args[i].clone());
            explicit_config = true;
        } else if str_eq(arg, "--no-config") {
            no_config = true;
        } else {
            match option_action(arg) {
                Some(a) => {
                    let res = requested_action(&mut action, a, arg);
                    if let Err(e) = res {
                        return Err(e);
                    }
                },
                None => {},
            }
        }
        i = i + 1;
    }
    if no_config && explicit_config {
        return Err(
            CliError::conflict(
                String::from_str("wiilandd: --no-config cannot be combined with --config"),
            ),
        );
    }
    Ok(Pass1 { config_path, explicit_config, no_config, action })
}

/// The message for a value an option does not accept.
pub open spec fn invalid_value_message(option: Seq<char>) -> Seq<char> {
    "wiilandd: invalid value for "@ + option
}

fn invalid_value(option: &str) -> (r: CliError)
    ensures
        r.code == EINVAL,
        r.usage,
        r.message@ == invalid_value_message(option@),
{
    let mut m = String::new();
    m.append("wiilandd: invalid value for ");
    m.append(option);
    CliError::syntax(m)
}

/// An integer option value within `min..=max`.
pub fn int_value(value: &str, min: i64, max: i64, option: &str) -> (r: Result<i32, CliError>)
    ensures
        match parse_i64_spec(value@) {
            Some(v) => if min <= v <= max {
                r == Ok::<i32, CliError>(v as i32)
            } else {
                r matches Err(e) && e.code == EINVAL && e.usage && e.message@
                    == invalid_value_message(option@)
            },
            None => r matches Err(e) && e.code == EINVAL && e.usage && e.message@
                == invalid_value_message(option@),
        },
{
    match parse_i64(value) {
        Some(v) => {
            if min <= v && v <= max {
                Ok(v as i32)
            } else {
                Err(invalid_value(option))
            }
        },
        None => Err(invalid_value(option)),
    }
}

/// A yes/no option value: `yes`, `true` or `1`, and `no`, `false` or `0`.
pub open spec fn bool_of(value: Seq<char>) -> Option<bool> {
    if value == "yes"@ || value == "true"@ || value == "1"@ {
        Some(true)
    } else if value == "no"@ || value == "false"@ || value == "0"@ {
        Some(false)
    } else {
        None
    }
}

/// A yes/no option value.
pub fn bool_value(value: &str, option: &str) -> (r: Result<bool, CliError>)
    ensures
        match bool_of(value@) {
            Some(b) => r == Ok::<bool, CliError>(b),
            None => r matches Err(e) && e.code == EINVAL && e.usage && e.message@
                == invalid_value_message(option@),
        },
{
    if str_eq(value, "yes") || str_eq(value, "true") || str_eq(value, "1") {
        Ok(true)
    } else if str_eq(value, "no") || str_eq(value, "false") || str_eq(value, "0") {
        Ok(false)
    } else {
        Err(invalid_value(option))
    }
}

/// An option value read by `parser`; what the parser rejects is an invalid
/// value for `option`.
pub fn parse_choice<T, F: Fn(&str) -> Option<T>>(value: &str, parser: F, option: &str) -> (r: Result<T, CliError>)
    requires
        call_requires(parser, (value,)),
    ensures
        r matches Ok(t) ==> call_ensures(parser, (value,), Some(t)),
        r matches Err(e) ==> call_ensures(parser, (value,), None::<T>) && e.code == EINVAL && e.usage
            && e.message@ == invalid_value_message(option@),
{
    match parser(value) {
        Some(t) => Ok(t),
        None => Err(invalid_value(option)),
    }
}

/// The options with a numeric value.
#[derive(Clone, Copy, Debug, PartialEq, Eq, Structural)]
pub enum IntOption {
    PointerSpeed,
    IrSpeed,
    IrDeadzone,
    IrSmoothing,
    AimSensitivity,
    AimDeadzone,
    AimSmoothing,
    AimCalibrationDuration,
}

/// The inclusive range each numeric option accepts.
pub open spec fn int_bounds(o: IntOption) -> (i64, i64) {
    match o {
        IntOption::PointerSpeed => (1, 127),
        IntOption::IrSpeed => (1, 127),
        IntOption::IrDeadzone => (0, 127),
        IntOption::IrSmoothing => (0, 95),
        IntOption::AimSensitivity => (1, 127),
        IntOption::AimDeadzone => (0, 32767),
        IntOption::AimSmoothing => (0, 95),
        IntOption::AimCalibrationDuration => (1, 30),
    }
}

/// The inclusive range a numeric option accepts.
pub fn int_range(o: IntOption) -> (r: (i64, i64))
    ensures
        r == int_bounds(o),
{
    match o {
        IntOption::PointerSpeed => (1, 127),
        IntOption::IrSpeed => (1, 127),
        IntOption::IrDeadzone => (0, 127),
        IntOption::IrSmoothing => (0, 95),
        IntOption::AimSensitivity => (1, 127),
        IntOption::AimDeadzone => (0, 32767),
        IntOption::AimSmoothing => (0, 95),
        IntOption::AimCalibrationDuration => (1, 30),
    }
}

/// The options with a yes/no value.
#[derive(Clone, Copy, Debug, PartialEq, Eq, Structural)]
pub enum FlagOption {
    AimInvertX,
    AimInvertY,
}

/// The options whose value names one of a fixed set of choices.
#[derive(Clone, Copy, Debug, PartialEq, Eq, Structural)]
pub enum ChoiceOption {
    Profile,
    IrTracking,
    IrAimMapping,
    AimMode,
    AimSource,
    AimActivation,
    TraceEvents,
}

/// The names a choice option accepts, as the usage text lists them:
/// profiles `gamepad`, `desktop` and `both`; IR tracking `dual`,
/// `centroid` and `first`; IR aim mapping `relative` and `absolute`; aim
/// mode `off`, `mouse` and `right-stick`; aim source `auto`, `ir`,
/// `motion-plus` and `accelerometer`; aim activation `always`, `b`, `z` and
/// `c`; trace filters `all`, `keys`, `axes`, `ir` and `motion-plus`.
pub open spec fn choice_accepts(c: ChoiceOption, v: Seq<char>) -> bool {
    match c {
        ChoiceOption::Profile => v == "gamepad"@ || v == "desktop"@ || v == "both"@,
        ChoiceOption::IrTracking => v == "dual"@ || v == "centroid"@ || v == "first"@,
        ChoiceOption::IrAimMapping => v == "relative"@ || v == "absolute"@,
        ChoiceOption::AimMode => v == "off"@ || v == "mouse"@ || v == "right-stick"@,
        ChoiceOption::AimSource => v == "auto"@ || v == "ir"@ || v == "motion-plus"@ || v
            == "accelerometer"@,
        ChoiceOption::AimActivation => v == "always"@ || v == "b"@ || v == "z"@ || v == "c"@,
        ChoiceOption::TraceEvents => v == "all"@ || v == "keys"@ || v == "axes"@ || v == "ir"@
            || v == "motion-plus"@,
    }
}

/// Whether a choice option accepts a name.
pub fn accepts_choice(c: ChoiceOption, v: &str) -> (r: bool)
    ensures
        r == choice_accepts(c, v@),
{
    match c {
        ChoiceOption::Profile => str_eq(v, "gamepad") || str_eq(v, "desktop") || str_eq(v, "both"),
        ChoiceOption::IrTracking => str_eq(v, "dual") || str_eq(v, "centroid") || str_eq(v, "first"),
        ChoiceOption::IrAimMapping => str_eq(v, "relative") || str_eq(v, "absolute"),
        ChoiceOption::AimMode => str_eq(v, "off") || str_eq(v, "mouse") || str_eq(v, "right-stick"),
        ChoiceOption::AimSource => str_eq(v, "auto") || str_eq(v, "ir") || str_eq(v, "motion-plus")
            || str_eq(v, "accelerometer"),
        ChoiceOption::AimActivation => str_eq(v, "always") || str_eq(v, "b") || str_eq(v, "z")
            || str_eq(v, "c"),
        ChoiceOption::TraceEvents => str_eq(v, "all") || str_eq(v, "keys") || str_eq(v, "axes")
            || str_eq(v, "ir") || str_eq(v, "motion-plus"),
    }
}

/// What an option's value is read as.
#[derive(Clone, Copy, Debug, PartialEq, Eq, Structural)]
pub enum ValueKind {
    Device,
    Backend,
    Int(IntOption),
    Flag(FlagOption),
    Choice(ChoiceOption),
}

/// One configuration value the command line sets, in command-line order.
#[derive(Clone, Debug, PartialEq, Eq)]
pub enum Setting {
    Int(IntOption, i32),
    Flag(FlagOption, bool),
    /// One of the names the option accepts.
    Choice(ChoiceOption, String),
    /// `--backend uinput`.
    BackendUinput,
    /// `--trace-events` without a filter: trace every event.
    TraceAll,
}

/// A setting with its strings as character sequences.
pub enum SettingView {
    Int(IntOption, i32),
    Flag(FlagOption, bool),
    Choice(ChoiceOption, Seq<char>),
    BackendUinput,
    TraceAll,
}

impl View for Setting {
    type V = SettingView;

    open spec fn view(&self) -> SettingView {
        match self {
            Setting::Int(o, v) => SettingView::Int(*o, *v),
            Setting::Flag(o, b) => SettingView::Flag(*o, *b),
            Setting::Choice(option, value) => SettingView::Choice(*option, value@),
            Setting::BackendUinput => SettingView::BackendUinput,
            Setting::TraceAll => SettingView::TraceAll,
        }
    }
}

/// The second pass: every option read as a value for the configuration.
/// `settings` are the configuration values in command-line order; the scan
/// stops at the first malformed option, whose error is `error`, and then
/// `settings` hold what came before it.
#[derive(Clone, Debug, PartialEq, Eq)]
pub struct Pass2 {
    pub action: Action,
    pub device: Option<String>,
    pub dry_run: bool,
    pub verbose: bool,
    pub trace: bool,
    pub settings: Vec<Setting>,
    pub error: Option<CliError>,
}

/// The state of the second pass as plain values.
pub struct Pass2View {
    pub action: Action,
    pub device: Option<Seq<char>>,
    pub dry_run: bool,
    pub verbose: bool,
    pub trace: bool,
    pub settings: Seq<SettingView>,
}

/// The view of the state of a second pass, its error aside.
pub open spec fn pass2_view(p: Pass2) -> Pass2View {
    Pass2View {
        action: p.action,
        device: match p.device {
            Some(d) => Some(d@),
            None => None,
        },
        dry_run: p.dry_run,
        verbose: p.verbose,
        trace: p.trace,
        settings: p.settings@.map_values(|s: Setting| s@),
    }
}

/// The state before any option.
pub open spec fn pass2_start() -> Pass2View {
    Pass2View {
        action: Action::Run,
        device: None,
        dry_run: false,
        verbose: false,
        trace: false,
        settings: Seq::empty(),
    }
}

/// The message for an option whose value is missing.
pub open spec fn requires_value_message(option: Seq<char>) -> Seq<char> {
    "wiilandd: "@ + option + " requires a value"@
}

/// The message for an option `wiilandd` does not know.
pub open spec fn unrecognized_message(option: Seq<char>) -> Seq<char> {
    "wiilandd: unrecognized option '"@ + option + "'"@
}

/// The options that take the next argument as their value.
pub open spec fn value_option_of(arg: Seq<char>) -> Option<ValueKind> {
    if arg == "-d"@ || arg == "--device"@ {
        Some(ValueKind::Device)
    } else if arg == "-p"@ || arg == "--profile"@ {
        Some(ValueKind::Choice(ChoiceOption::Profile))
    } else if arg == "--backend"@ {
        Some(ValueKind::Backend)
    } else if arg == "--pointer-speed"@ {
        Some(ValueKind::Int(IntOption::PointerSpeed))
    } else if arg == "--ir-speed"@ {
        Some(ValueKind::Int(IntOption::IrSpeed))
    } else if arg == "--ir-deadzone"@ {
        Some(ValueKind::Int(IntOption::IrDeadzone))
    } else if arg == "--ir-smoothing"@ {
        Some(ValueKind::Int(IntOption::IrSmoothing))
    } else if arg == "--ir-tracking"@ {
        Some(ValueKind::Choice(ChoiceOption::IrTracking))
    } else if arg == "--ir-aim-mapping"@ {
        Some(ValueKind::Choice(ChoiceOption::IrAimMapping))
    } else if arg == "--aim-mode"@ {
        Some(ValueKind::Choice(ChoiceOption::AimMode))
    } else if arg == "--aim-source"@ {
        Some(ValueKind::Choice(ChoiceOption::AimSource))
    } else if arg == "--aim-activation"@ {
        Some(ValueKind::Choice(ChoiceOption::AimActivation))
    } else if arg == "--aim-sensitivity"@ {
        Some(ValueKind::Int(IntOption::AimSensitivity))
    } else if arg == "--aim-deadzone"@ {
        Some(ValueKind::Int(IntOption::AimDeadzone))
    } else if arg == "--aim-smoothing"@ {
        Some(ValueKind::Int(IntOption::AimSmoothing))
    } else if arg == "--aim-invert-x"@ {
        Some(ValueKind::Flag(FlagOption::AimInvertX))
    } else if arg == "--aim-invert-y"@ {
        Some(ValueKind::Flag(FlagOption::AimInvertY))
    } else if arg == "--aim-calibration-duration"@ {
        Some(ValueKind::Int(IntOption::AimCalibrationDuration))
    } else {
        None
    }
}

/// What follows the prefix `p` in `arg`.
pub open spec fn after(arg: Seq<char>, p: Seq<char>) -> Seq<char> {
    arg.subrange(p.len() as int, arg.len() as int)
}

/// The `--option=value` forms: the kind of the value, the value, and the
/// name an error gives for it (the whole argument, or for some options the
/// option alone).
pub open spec fn inline_option_of(arg: Seq<char>) -> Option<(ValueKind, Seq<char>, Seq<char>)> {
    if seq_starts_with(arg, "--device="@) {
        Some((ValueKind::Device, after(arg, "--device="@), arg))
    } else if seq_starts_with(arg, "--profile="@) {
        Some((ValueKind::Choice(ChoiceOption::Profile), after(arg, "--profile="@), arg))
    } else if seq_starts_with(arg, "--backend="@) {
        Some((ValueKind::Backend, after(arg, "--backend="@), "--backend"@))
    } else if seq_starts_with(arg, "--trace-events="@) {
        Some(
            (
                ValueKind::Choice(ChoiceOption::TraceEvents),
                after(arg, "--trace-events="@),
                "--trace-events"@,
            ),
        )
    } else if seq_starts_with(arg, "--pointer-speed="@) {
        Some(
            (
                ValueKind::Int(IntOption::PointerSpeed),
                after(arg, "--pointer-speed="@),
                "--pointer-speed"@,
            ),
        )
    } else if seq_starts_with(arg, "--ir-speed="@) {
        Some((ValueKind::Int(IntOption::IrSpeed), after(arg, "--ir-speed="@), "--ir-speed"@))
    } else if seq_starts_with(arg, "--ir-deadzone="@) {
        Some(
            (ValueKind::Int(IntOption::IrDeadzone), after(arg, "--ir-deadzone="@), "--ir-deadzone"@),
        )
    } else if seq_starts_with(arg, "--ir-smoothing="@) {
        Some(
            (
                ValueKind::Int(IntOption::IrSmoothing),
                after(arg, "--ir-smoothing="@),
                "--ir-smoothing"@,
            ),
        )
    } else if seq_starts_with(arg, "--ir-tracking="@) {
        Some((ValueKind::Choice(ChoiceOption::IrTracking), after(arg, "--ir-tracking="@), arg))
    } else if seq_starts_with(arg, "--ir-aim-mapping="@) {
        Some((ValueKind::Choice(ChoiceOption::IrAimMapping), after(arg, "--ir-aim-mapping="@), arg))
    } else if seq_starts_with(arg, "--aim-mode="@) {
        Some((ValueKind::Choice(ChoiceOption::AimMode), after(arg, "--aim-mode="@), arg))
    } else if seq_starts_with(arg, "--aim-source="@) {
        Some((ValueKind::Choice(ChoiceOption::AimSource), after(arg, "--aim-source="@), arg))
    } else if seq_starts_with(arg, "--aim-activation="@) {
        Some((ValueKind::Choice(ChoiceOption::AimActivation), after(arg, "--aim-activation="@), arg))
    } else if seq_starts_with(arg, "--aim-sensitivity="@) {
        Some((ValueKind::Int(IntOption::AimSensitivity), after(arg, "--aim-sensitivity="@), arg))
    } else if seq_starts_with(arg, "--aim-deadzone="@) {
        Some((ValueKind::Int(IntOption::AimDeadzone), after(arg, "--aim-deadzone="@), arg))
    } else if seq_starts_with(arg, "--aim-smoothing="@) {
        Some((ValueKind::Int(IntOption::AimSmoothing), after(arg, "--aim-smoothing="@), arg))
    } else if seq_starts_with(arg, "--aim-invert-x="@) {
        Some((ValueKind::Flag(FlagOption::AimInvertX), after(arg, "--aim-invert-x="@), arg))
    } else if seq_starts_with(arg, "--aim-invert-y="@) {
        Some((ValueKind::Flag(FlagOption::AimInvertY), after(arg, "--aim-invert-y="@), arg))
    } else if seq_starts_with(arg, "--aim-calibration-duration="@) {
        Some(
            (
                ValueKind::Int(IntOption::AimCalibrationDuration),
                after(arg, "--aim-calibration-duration="@),
                arg,
            ),
        )
    } else {
        None
    }
}

/// The state with one more setting.
pub open spec fn with_setting(st: Pass2View, s: SettingView) -> Pass2View {
    Pass2View { settings: st.settings.push(s), ..st }
}

/// Applies an option's value; `name` is what an error calls the option.
pub open spec fn apply_value(k: ValueKind, value: Seq<char>, name: Seq<char>, st: Pass2View) -> Result<
    Pass2View,
    (Seq<char>, bool),
> {
    match k {
        ValueKind::Device => Ok(Pass2View { device: Some(value), ..st }),
        ValueKind::Backend => if value == "uinput"@ {
            Ok(with_setting(st, SettingView::BackendUinput))
        } else {
            Err((invalid_value_message("--backend"@), true))
        },
        ValueKind::Int(o) => match parse_i64_spec(value) {
            Some(v) => if int_bounds(o).0 <= v <= int_bounds(o).1 {
                Ok(with_setting(st, SettingView::Int(o, v as i32)))
            } else {
                Err((invalid_value_message(name), true))
            },
            None => Err((invalid_value_message(name), true)),
        },
        ValueKind::Flag(o) => match bool_of(value) {
            Some(b) => Ok(with_setting(st, SettingView::Flag(o, b))),
            None => Err((invalid_value_message(name), true)),
        },
        ValueKind::Choice(c) => if choice_accepts(c, value) {
            let s = with_setting(st, SettingView::Choice(c, value));
            Ok(Pass2View { trace: st.trace || c == ChoiceOption::TraceEvents, ..s })
        } else {
            Err((invalid_value_message(name), true))
        },
    }
}

/// One option of the second pass at `args[i]`: the new state and whether
/// the next argument was its value, or the error.
pub open spec fn pass2_step(args: Seq<Seq<char>>, i: int, st: Pass2View) -> Result<
    (bool, Pass2View),
    (Seq<char>, bool),
> {
    let arg = args[i];
    match action_of_option(arg) {
        Some(a) => if st.action != Action::Run && st.action != a {
            Err((conflict_message(st.action, arg), false))
        } else {
            Ok((false, Pass2View { action: a, ..st }))
        },
        None => if arg == "--no-config"@ || seq_starts_with(arg, "--config="@) {
            Ok((false, st))
        } else if arg == "--config"@ || arg == "-c"@ {
            Ok((true, st))
        } else if arg == "-v"@ || arg == "--verbose"@ {
            Ok((false, Pass2View { verbose: true, ..st }))
        } else if arg == "-n"@ || arg == "--dry-run"@ {
            Ok((false, Pass2View { dry_run: true, ..st }))
        } else if arg == "--trace-events"@ {
            let s = with_setting(st, SettingView::TraceAll);
            Ok((false, Pass2View { trace: true, ..s }))
        } else {
            match value_option_of(arg) {
                Some(k) => if i + 1 < args.len() {
                    match apply_value(k, args[i + 1], arg, st) {
                        Ok(s) => Ok((true, s)),
                        Err(e) => Err(e),
                    }
                } else {
                    Err((requires_value_message(arg), true))
                },
                None => match inline_option_of(arg) {
                    Some((k, v, name)) => if k == ValueKind::Device && v.len() == 0 {
                        Err((requires_value_message("--device"@), true))
                    } else {
                        match apply_value(k, v, name, st) {
                            Ok(s) => Ok((false, s)),
                            Err(e) => Err(e),
                        }
                    },
                    None => Err((unrecognized_message(arg), true)),
                },
            }
        },
    }
}

/// The second pass over `args[i..]` from the state `st`: the final state,
/// or the state before the first malformed option with its error.
pub open spec fn pass2_scan(args: Seq<Seq<char>>, i: int, st: Pass2View) -> (
    Pass2View,
    Option<(Seq<char>, bool)>,
)
    decreases args.len() - i,
{
    if i < 0 || i >= args.len() {
        (st, None)
    } else {
        match pass2_step(args, i, st) {
            Err(e) => (st, Some(e)),
            Ok((skip, s)) => pass2_scan(args, if skip && i + 1 < args.len() {
                i + 2
            } else {
                i + 1
            }, s),
        }
    }
}

/// The options that take the next argument as their value.
fn value_option(arg: &str) -> (r: Option<ValueKind>)
    ensures
        r == value_option_of(arg@),
{
    if str_eq(arg, "-d") || str_eq(arg, "--device") {
        Some(ValueKind::Device)
    } else if str_eq(arg, "-p") || str_eq(arg, "--profile") {
        Some(ValueKind::Choice(ChoiceOption::Profile))
    } else if str_eq(arg, "--backend") {
        Some(ValueKind::Backend)
    } else if str_eq(arg, "--pointer-speed") {
        Some(ValueKind::Int(IntOption::PointerSpeed))
    } else if str_eq(arg, "--ir-speed") {
        Some(ValueKind::Int(IntOption::IrSpeed))
    } else if str_eq(arg, "--ir-deadzone") {
        Some(ValueKind::Int(IntOption::IrDeadzone))
    } else if str_eq(arg, "--ir-smoothing") {
        Some(ValueKind::Int(IntOption::IrSmoothing))
    } else if str_eq(arg, "--ir-tracking") {
        Some(ValueKind::Choice(ChoiceOption::IrTracking))
    } else if str_eq(arg, "--ir-aim-mapping") {
        Some(ValueKind::Choice(ChoiceOption::IrAimMapping))
    } else if str_eq(arg, "--aim-mode") {
        Some(ValueKind::Choice(ChoiceOption::AimMode))
    } else if str_eq(arg, "--aim-source") {
        Some(ValueKind::Choice(ChoiceOption::AimSource))
    } else if str_eq(arg, "--aim-activation") {
        Some(ValueKind::Choice(ChoiceOption::AimActivation))
    } else if str_eq(arg, "--aim-sensitivity") {
        Some(ValueKind::Int(IntOption::AimSensitivity))
    } else if str_eq(arg, "--aim-deadzone") {
        Some(ValueKind::Int(IntOption::AimDeadzone))
    } else if str_eq(arg, "--aim-smoothing") {
        Some(ValueKind::Int(IntOption::AimSmoothing))
    } else if str_eq(arg, "--aim-invert-x") {
        Some(ValueKind::Flag(FlagOption::AimInvertX))
    } else if str_eq(arg, "--aim-invert-y") {
        Some(ValueKind::Flag(FlagOption::AimInvertY))
    } else if str_eq(arg, "--aim-calibration-duration") {
        Some(ValueKind::Int(IntOption::AimCalibrationDuration))
    } else {
        None
    }
}

/// The `--option=value` forms: the kind of the value, the value, and the
/// name an error gives for the option.
fn inline_option<'a>(arg: &'a str) -> (r: Option<(ValueKind, &'a str, &'a str)>)
    ensures
        match inline_option_of(arg@) {
            Some((k, v, n)) => r matches Some((k2, v2, n2)) && k2 == k && v2@ == v && n2@ == n,
            None => r is None,
        },
{
    if let Some(v) = strip_prefix(arg, "--device=") {
        return Some((ValueKind::Device, v, arg));
    }
    if let Some(v) = strip_prefix(arg, "--profile=") {
        return Some((ValueKind::Choice(ChoiceOption::Profile), v, arg));
    }
    if let Some(v) = strip_prefix(arg, "--backend=") {
        return Some((ValueKind::Backend, v, "--backend"));
    }
    if let Some(v) = strip_prefix(arg, "--trace-events=") {
        return Some((ValueKind::Choice(ChoiceOption::TraceEvents), v, "--trace-events"));
    }
    if let Some(v) = strip_prefix(arg, "--pointer-speed=") {
        return Some((ValueKind::Int(IntOption::PointerSpeed), v, "--pointer-speed"));
    }
    if let Some(v) = strip_prefix(arg, "--ir-speed=") {
        return Some((ValueKind::Int(IntOption::IrSpeed), v, "--ir-speed"));
    }
    if let Some(v) = strip_prefix(arg, "--ir-deadzone=") {
        return Some((ValueKind::Int(IntOption::IrDeadzone), v, "--ir-deadzone"));
    }
    if let Some(v) = strip_prefix(arg, "--ir-smoothing=") {
        return Some((ValueKind::Int(IntOption::IrSmoothing), v, "--ir-smoothing"));
    }
    if let Some(v) = strip_prefix(arg, "--ir-tracking=") {
        return Some((ValueKind::Choice(ChoiceOption::IrTracking), v, arg));
    }
    if let Some(v) = strip_prefix(arg, "--ir-aim-mapping=") {
        return Some((ValueKind::Choice(ChoiceOption::IrAimMapping), v, arg));
    }
    if let Some(v) = strip_prefix(arg, "--aim-mode=") {
        return Some((ValueKind::Choice(ChoiceOption::AimMode), v, arg));
    }
    if let Some(v) = strip_prefix(arg, "--aim-source=") {
        return Some((ValueKind::Choice(ChoiceOption::AimSource), v, arg));
    }
    if let Some(v) = strip_prefix(arg, "--aim-activation=") {
        return Some((ValueKind::Choice(ChoiceOption::AimActivation), v, arg));
    }
    if let Some(v) = strip_prefix(arg, "--aim-sensitivity=") {
        return Some((ValueKind::Int(IntOption::AimSensitivity), v, arg));
    }
    if let Some(v) = strip_prefix(arg, "--aim-deadzone=") {
        return Some((ValueKind::Int(IntOption::AimDeadzone), v, arg));
    }
    if let Some(v) = strip_prefix(arg, "--aim-smoothing=") {
        return Some((ValueKind::Int(IntOption::AimSmoothing), v, arg));
    }
    if let Some(v) = strip_prefix(arg, "--aim-invert-x=") {
        return Some((ValueKind::Flag(FlagOption::AimInvertX), v, arg));
    }
    if let Some(v) = strip_prefix(arg, "--aim-invert-y=") {
        return Some((ValueKind::Flag(FlagOption::AimInvertY), v, arg));
    }
    if let Some(v) = strip_prefix(arg, "--aim-calibration-duration=") {
        return Some((ValueKind::Int(IntOption::AimCalibrationDuration), v, arg));
    }
    None
}

fn requires_value(option: &str) -> (r: CliError)
    ensures
        r.code == EINVAL,
        r.usage,
        r.message@ == requires_value_message(option@),
{
    let mut m = String::new();
    m.append("wiilandd: ");
    m.append(option);
    m.append(" requires a value");
    CliError::syntax(m)
}

fn unrecognized(option: &str) -> (r: CliError)
    ensures
        r.code == EINVAL,
        r.usage,
        r.message@ == unrecognized_message(option@),
{
    let mut m = String::new();
    m.append("wiilandd: unrecognized option '");
    m.append(option);
    m.append("'");
    CliError::syntax(m)
}

fn push_setting(out: &mut Pass2, s: Setting)
    ensures
        pass2_view(*final(out)) == with_setting(pass2_view(*old(out)), s@),
        final(out).error == old(out).error,
{
    out.settings.push(s);
    assert(final(out).settings@.map_values(|x: Setting| x@) =~= old(out).settings@.map_values(
        |x: Setting| x@,
    ).push(s@));
}

/// Applies an option's value to the pass; on an error the pass is left as
/// it was.
fn apply_value_to(k: ValueKind, value: &str, name: &str, out: &mut Pass2) -> (r: Result<(), CliError>)
    ensures
        final(out).error == old(out).error,
        match apply_value(k, value@, name@, pass2_view(*old(out))) {
            Ok(st) => r is Ok && pass2_view(*final(out)) == st,
            Err((m, u)) => r matches Err(e) && e.code == EINVAL && e.message@ == m && e.usage == u
                && pass2_view(*final(out)) == pass2_view(*old(out)),
        },
{
    match k {
        ValueKind::Device => {
            out.device = Some(String::from_str(value));
            Ok(())
        },
        ValueKind::Backend => {
            if str_eq(value, "uinput") {
                push_setting(out, Setting::BackendUinput);
                Ok(())
            } else {
                Err(invalid_value("--backend"))
            }
        },
        ValueKind::Int(o) => {
            let (lo, hi) = int_range(o);
            match int_value(value, lo, hi, name) {
                Ok(v) => {
                    push_setting(out, Setting::Int(o, v));
                    Ok(())
                },
                Err(e) => Err(e),
            }
        },
        ValueKind::Flag(o) => match bool_value(value, name) {
            Ok(b) => {
                push_setting(out, Setting::Flag(o, b));
                Ok(())
            },
            Err(e) => Err(e),
        },
        ValueKind::Choice(c) => {
            if !accepts_choice(c, value) {
                return Err(invalid_value(name));
            }
            let trace = out.trace || c == ChoiceOption::TraceEvents;
            push_setting(out, Setting::Choice(c, String::from_str(value)));
            out.trace = trace;
            Ok(())
        },
    }
}

/// One option of the second pass: whether the next argument was its
/// value, or the error; on an error the pass is left as it was.
fn pass2_option(args: &[String], i: usize, out: &mut Pass2) -> (r: Result<bool, CliError>)
    requires
        i < args.len(),
    ensures
        final(out).error == old(out).error,
        match pass2_step(arg_views(args@), i as int, pass2_view(*old(out))) {
            Ok((skip, st)) => r == Ok::<bool, CliError>(skip) && pass2_view(*final(out)) == st,
            Err((m, u)) => r matches Err(e) && e.code == EINVAL && e.message@ == m && e.usage == u
                && pass2_view(*final(out)) == pass2_view(*old(out)),
        },
{
    let arg = args[i].as_str();
    assert(arg_views(args@)[i as int] == arg@);
    match option_action(arg) {
        Some(a) => {
            let mut selected = out.action;
            match requested_action(&mut selected, a, arg) {
                Ok(()) => {
                    out.action = selected;
                    Ok(false)
                },
                Err(e) => Err(e),
            }
        },
        None => {
            if str_eq(arg, "--no-config") || starts_with(arg, "--config=") {
                Ok(false)
            } else if str_eq(arg, "--config") || str_eq(arg, "-c") {
                Ok(true)
            } else if str_eq(arg, "-v") || str_eq(arg, "--verbose") {
                out.verbose = true;
                Ok(false)
            } else if str_eq(arg, "-n") || str_eq(arg, "--dry-run") {
                out.dry_run = true;
                Ok(false)
            } else if str_eq(arg, "--trace-events") {
                push_setting(out, Setting::TraceAll);
                out.trace = true;
                Ok(false)
            } else {
                match value_option(arg) {
                    Some(k) => {
                        if i + 1 < args.len() {
                            let v = args[i + 1].as_str();
                            assert(arg_views(args@)[i + 1] == v@);
                            match apply_value_to(k, v, arg, out) {
                                Ok(()) => Ok(true),
                                Err(e) => Err(e),
                            }
                        } else {
                            Err(requires_value(arg))
                        }
                    },
                    None => match inline_option(arg) {
                        Some((k, v, name)) => {
                            if k == ValueKind::Device && v.unicode_len() == 0 {
                                Err(requires_value("--device"))
                            } else {
                                match apply_value_to(k, v, name, out) {
                                    Ok(()) => Ok(false),
                                    Err(e) => Err(e),
                                }
                            }
                        },
                        None => Err(unrecognized(arg)),
                    },
                }
            }
        },
    }
}

/// The second pass over a whole command line (without the program name).
pub open spec fn pass2_spec(args: Seq<Seq<char>>) -> (Pass2View, Option<(Seq<char>, bool)>) {
    pass2_scan(args, 0, pass2_start())
}

/// Scans every option over the loaded configuration. Actions may not
/// conflict, as in the first pass; `--config`, `-c`, `--config=` and
/// `--no-config` were handled there and are skipped with their values;
/// `-v`, `-n`, `-d` and the trace options set the run, and every other
/// option is one configuration setting. An option that takes a value reads
/// the next argument (`--option value`) or what follows `=`
/// (`--option=value`); numbers must lie in the option's range, yes/no
/// options take `yes`/`true`/`1` or `no`/`false`/`0`, choice options take
/// one of their names (`choice_accepts`), and `--backend` takes only
/// `uinput`.
pub fn parse_pass2(args: &[String]) -> (r: Pass2)
    ensures
        pass2_view(r) == pass2_spec(arg_views(args@)).0,
        match pass2_spec(arg_views(args@)).1 {
            None => r.error is None,
            Some((m, u)) => r.error matches Some(e) && e.code == EINVAL && e.message@ == m && e.usage
                == u,
        },
{
    let ghost views = arg_views(args@);
    let mut out = Pass2 {
        action: Action::Run,
        device: None,
        dry_run: false,
        verbose: false,
        trace: false,
        settings: Vec::new(),
        error: None,
    };
    assert(pass2_view(out) == pass2_start()) by {
        assert(out.settings@.map_values(|x: Setting| x@) =~= Seq::<SettingView>::empty());
    }
    let mut i: usize = 0;
    while i < args.len()
        invariant
            views == arg_views(args@),
            i <= args@.len(),
            out.error is None,
            pass2_scan(views, 0, pass2_start()) == pass2_scan(views, i as int, pass2_view(out)),
        decreases args@.len() - i,
    {
        match pass2_option(args, i, &mut out) {
            Ok(skip) => {
                i = i + 1;
                if skip && i < args.len() {
                    i = i + 1;
                }
            },
            Err(e) => {
                out.error = Some(e);
                return out;
            },
        }
    }
    out
}

/// The value the last setting of a choice option gives it, if any: later
/// values win.
pub open spec fn last_choice(settings: Seq<SettingView>, c: ChoiceOption) -> Option<Seq<char>>
    decreases settings.len(),
{
    if settings.len() == 0 {
        None
    } else {
        match settings.last() {
            SettingView::Choice(o, v) => if o == c {
                Some(v)
            } else {
                last_choice(settings.drop_last(), c)
            },
            _ => last_choice(settings.drop_last(), c),
        }
    }
}

/// The value the command line gives a choice option: its last setting.
pub fn chosen(settings: &Vec<Setting>, c: ChoiceOption) -> (r: Option<String>)
    ensures
        match last_choice(settings@.map_values(|s: Setting| s@), c) {
            Some(v) => r matches Some(s) && s@ == v,
            None => r is None,
        },
{
    let ghost sv = settings@.map_values(|s: Setting| s@);
    let mut out: Option<String> = None;
    let mut i: usize = 0;
    while i < settings.len()
        invariant
            i <= settings@.len(),
            sv == settings@.map_values(|s: Setting| s@),
            match last_choice(sv.subrange(0, i as int), c) {
                Some(v) => out matches Some(s) && s@ == v,
                None => out is None,
            },
        decreases settings@.len() - i,
    {
        assert(sv.subrange(0, i + 1).drop_last() =~= sv.subrange(0, i as int));
        assert(sv.subrange(0, i + 1).last() == settings@[i as int]@);
        match &settings[i] {
            Setting::Choice(o, v) => {
                if *o == c {
                    out = Some(v.clone());
                }
            },
            _ => {},
        }
        i = i + 1;
    }
    assert(sv.subrange(0, settings@.len() as int) =~= sv);
    out
}

/// The range the usage text documents for each numeric option:
/// `--pointer-speed`, `--ir-speed` and `--aim-sensitivity` 1-127,
/// `--ir-deadzone` 0-127, `--ir-smoothing` and `--aim-smoothing` 0-95,
/// `--aim-deadzone` 0-32767, `--aim-calibration-duration` 1-30. A numeric
/// option's value is accepted, as that number, exactly when it is an
/// integer in this range; anything else is an invalid value for the option.
pub proof fn lemma_numbers_accept_their_documented_ranges(
    o: IntOption,
    value: Seq<char>,
    name: Seq<char>,
    st: Pass2View,
)
    ensures
        ({
            let (lo, hi) = match o {
                IntOption::PointerSpeed => (1int, 127int),
                IntOption::IrSpeed => (1int, 127int),
                IntOption::IrDeadzone => (0int, 127int),
                IntOption::IrSmoothing => (0int, 95int),
                IntOption::AimSensitivity => (1int, 127int),
                IntOption::AimDeadzone => (0int, 32767int),
                IntOption::AimSmoothing => (0int, 95int),
                IntOption::AimCalibrationDuration => (1int, 30int),
            };
            let r = apply_value(ValueKind::Int(o), value, name, st);
            match parse_i64_spec(value) {
                Some(v) => if lo <= v <= hi {
                    r == Ok::<Pass2View, (Seq<char>, bool)>(
                        Pass2View { settings: st.settings.push(SettingView::Int(o, v as i32)), ..st },
                    )
                } else {
                    r == Err::<Pass2View, (Seq<char>, bool)>((invalid_value_message(name), true))
                },
                None => r == Err::<Pass2View, (Seq<char>, bool)>((invalid_value_message(name), true)),
            }
        }),
{
}

/// A choice option accepts exactly the names the usage text lists for it,
/// recorded as given; any other value is an invalid value for the option.
pub proof fn lemma_choices_accept_their_documented_names(
    c: ChoiceOption,
    value: Seq<char>,
    name: Seq<char>,
    st: Pass2View,
)
    ensures
        ({
            let names: Seq<Seq<char>> = match c {
                ChoiceOption::Profile => seq!["gamepad"@, "desktop"@, "both"@],
                ChoiceOption::IrTracking => seq!["dual"@, "centroid"@, "first"@],
                ChoiceOption::IrAimMapping => seq!["relative"@, "absolute"@],
                ChoiceOption::AimMode => seq!["off"@, "mouse"@, "right-stick"@],
                ChoiceOption::AimSource => seq!["auto"@, "ir"@, "motion-plus"@, "accelerometer"@],
                ChoiceOption::AimActivation => seq!["always"@, "b"@, "z"@, "c"@],
                ChoiceOption::TraceEvents => seq!["all"@, "keys"@, "axes"@, "ir"@, "motion-plus"@],
            };
            let r = apply_value(ValueKind::Choice(c), value, name, st);
            if names.contains(value) {
                r matches Ok(t) && t.settings == st.settings.push(SettingView::Choice(c, value))
            } else {
                r == Err::<Pass2View, (Seq<char>, bool)>((invalid_value_message(name), true))
            }
        }),
{
    let names: Seq<Seq<char>> = match c {
        ChoiceOption::Profile => seq!["gamepad"@, "desktop"@, "both"@],
        ChoiceOption::IrTracking => seq!["dual"@, "centroid"@, "first"@],
        ChoiceOption::IrAimMapping => seq!["relative"@, "absolute"@],
        ChoiceOption::AimMode => seq!["off"@, "mouse"@, "right-stick"@],
        ChoiceOption::AimSource => seq!["auto"@, "ir"@, "motion-plus"@, "accelerometer"@],
        ChoiceOption::AimActivation => seq!["always"@, "b"@, "z"@, "c"@],
        ChoiceOption::TraceEvents => seq!["all"@, "keys"@, "axes"@, "ir"@, "motion-plus"@],
    };
    if names.contains(value) {
        let k = choose|k: int| 0 <= k < names.len() && names[k] == value;
        assert(choice_accepts(c, value));
    } else {
        assert forall|k: int| 0 <= k < names.len() implies names[k] != value by {}
        assert(!choice_accepts(c, value)) by {
            if choice_accepts(c, value) {
                assert(names.contains(value)) by {
                    match c {
                        ChoiceOption::Profile => {
                            if value == "gamepad"@ { assert(names[0] == value); }
                            else if value == "desktop"@ { assert(names[1] == value); }
                            else { assert(names[2] == value); }
                        },
                        ChoiceOption::IrTracking => {
                            if value == "dual"@ { assert(names[0] == value); }
                            else if value == "centroid"@ { assert(names[1] == value); }
                            else { assert(names[2] == value); }
                        },
                        ChoiceOption::IrAimMapping => {
                            if value == "relative"@ { assert(names[0] == value); }
                            else { assert(names[1] == value); }
                        },
                        ChoiceOption::AimMode => {
                            if value == "off"@ { assert(names[0] == value); }
                            else if value == "mouse"@ { assert(names[1] == value); }
                            else { assert(names[2] == value); }
                        },
                        ChoiceOption::AimSource => {
                            if value == "auto"@ { assert(names[0] == value); }
                            else if value == "ir"@ { assert(names[1] == value); }
                            else if value == "motion-plus"@ { assert(names[2] == value); }
                            else { assert(names[3] == value); }
                        },
                        ChoiceOption::AimActivation => {
                            if value == "always"@ { assert(names[0] == value); }
                            else if value == "b"@ { assert(names[1] == value); }
                            else if value == "z"@ { assert(names[2] == value); }
                            else { assert(names[3] == value); }
                        },
                        ChoiceOption::TraceEvents => {
                            if value == "all"@ { assert(names[0] == value); }
                            else if value == "keys"@ { assert(names[1] == value); }
                            else if value == "axes"@ { assert(names[2] == value); }
                            else if value == "ir"@ { assert(names[3] == value); }
                            else { assert(names[4] == value); }
                        },
                    }
                }
            }
        }
    }
}

/// The usage text of `wiilandd`.
pub const USAGE: &'static str = "Usage:\n\twiilandd [OPTIONS]\n\twiilandd --device <number|/sys/path> [OPTIONS]\n\nOptions:\n\t-h, --help       Show this help\n\t    --version    Show version\n\t-l, --list       List connected Wii Remote devices and exit\n\t                 Combine with --verbose for devtype/extension\n\t-d, --device     Bridge one device instead of monitoring all devices\n\t-p, --profile    gamepad, desktop, or both (default: gamepad)\n\t    --backend <uinput>       Input backend (default: uinput)\n\t    --ir-speed <1-127>       IR pointer gain (default: 8)\n\t    --ir-deadzone <0-127>   IR jitter deadzone (default: 0)\n\t    --ir-smoothing <0-95>   IR smoothing percent (default: 0)\n\t    --ir-tracking <dual|centroid|first>\n\t    --ir-aim-mapping <relative|absolute>\n\t    --pointer-speed <1-127>  Desktop pointer step (default: 16)\n\t    --aim-mode <off|mouse|right-stick>\n\t    --aim-source <auto|ir|motion-plus|accelerometer>\n\t    --aim-activation <always|b|z|c>\n\t    --aim-sensitivity <1-127>\n\t    --aim-deadzone <0-32767>\n\t    --aim-smoothing <0-95>\n\t    --aim-invert-x <yes|no>\n\t    --aim-invert-y <yes|no>\n\t    --calibrate-aim\n\t    --aim-calibration-duration <1-30>\n\t-c, --config     Load key=value config file\n\t    --no-config  Do not load the default config file\n\t-n, --dry-run    Do not create /dev/uinput devices or emit input\n\t    --check-config  Validate configuration and exit\n\t    --self-test  Run deterministic self tests and exit\n\t    --trace-events[=all|keys|axes|ir|motion-plus]\n\t    --axis-map   Print virtual gamepad axis mapping and exit\n\t    --validation-checklist  Print required hardware validation matrix\n\t    --doctor    Print runtime readiness diagnostics and exit\n\t    --dump-config  Print resolved configuration and exit\n\t-v, --verbose    Print device lifecycle details\n\nwiilandd creates Linux uinput virtual input devices named\n\"WiiLand Virtual Controller\" and \"WiiLand Virtual Desktop\"\nthrough the common evdev/libinput input stack.\n";

/// The usage text of `wiilandd`.
pub fn usage() -> (r: &'static str)
    ensures
        r == USAGE,
{
    USAGE
}

} // verus!
