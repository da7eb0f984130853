//! The command line of the build task: `build`, `check`, `install`,
//! `uninstall`, `docs`, `dist` and `verify-dist`, with their options, and
//! the packages a build selects.

use vstd::prelude::*;
use crate::manifest::{
    Features, LogicalDirs, LogicalDirOverrides, OptionalDir, DirChoice, DirsView, OverridesView,
    TaskError, TaskErrorKind, optional_dir_parse_spec, resolved_dirs, validate_spec, no_overrides,
};
use crate::install::InstallOptions;
use crate::text::{str_eq, push_char};

verus! {

/// A parsed task.
#[derive(Clone, Debug)]
pub enum Command {
    Build { release: bool, features: Features },
    Check { all_features: bool },
    Install {
        options: InstallOptions,
        dirs: LogicalDirs,
        features: Features,
        udev: OptionalDir,
        systemd: OptionalDir,
        xorg: OptionalDir,
    },
    Uninstall { destdir: String, dirs: LogicalDirs },
    Docs,
    Dist { output: String },
    VerifyDist { archive: String },
}

/// The abstract form of a task.
pub enum CommandView {
    Build { release: bool, features: Features },
    Check { all_features: bool },
    Install {
        destdir: Seq<char>,
        profile: Seq<char>,
        dirs: DirsView,
        features: Features,
        udev: DirChoice,
        systemd: DirChoice,
        xorg: DirChoice,
    },
    Uninstall { destdir: Seq<char>, dirs: DirsView },
    Docs,
    Dist { output: Seq<char> },
    VerifyDist { archive: Seq<char> },
}

impl View for Command {
    type V = CommandView;

    open spec fn view(&self) -> CommandView {
        match self {
            Command::Build { release, features } => CommandView::Build {
                release: *release,
                features: *features,
            },
            Command::Check { all_features } => CommandView::Check { all_features: *all_features },
            Command::Install { options, dirs, features, udev, systemd, xorg } => CommandView::Install {
                destdir: options.destdir@,
                profile: options.profile@,
                dirs: dirs@,
                features: *features,
                udev: udev@,
                systemd: systemd@,
                xorg: xorg@,
            },
            Command::Uninstall { destdir, dirs } => CommandView::Uninstall {
                destdir: destdir@,
                dirs: dirs@,
            },
            Command::Docs => CommandView::Docs,
            Command::Dist { output } => CommandView::Dist { output: output@ },
            Command::VerifyDist { archive } => CommandView::VerifyDist { archive: archive@ },
        }
    }
}

/// The usage text of the task runner.
pub const USAGE: &'static str = "usage: cargo xtask <build|check|install|uninstall|docs|dist|verify-dist> [options]\n\nbuild options: --features gui,tui,integrations --all-features --release\ninstall options: --destdir PATH --prefix PATH --exec-prefix PATH --bindir PATH\n  --datadir PATH --sysconfdir PATH --docdir PATH --mandir PATH\n  --with-udev-rules-dir auto|no|PATH --with-systemd-user-unit-dir auto|no|PATH\n  --with-xorg-conf-dir auto|no|PATH --features gui,tui,integrations --debug\n";

/// The usage text of the task runner.
pub fn usage() -> (r: &'static str)
    ensures
        r == USAGE,
{
    USAGE
}

/// The archive that `dist` writes and `verify-dist` reads by default.
pub const DEFAULT_ARCHIVE: &'static str = "wiiland-2.tar.xz";

/// No optional part.
pub open spec fn no_features() -> Features {
    Features { gui: false, tui: false, integrations: false }
}

/// Every optional part.
pub open spec fn every_feature() -> Features {
    Features { gui: true, tui: true, integrations: true }
}

/// One entry of a `--features` list applied to `f`: `gui`, `tui` and
/// `integrations` turn theirs on, `default` and the empty entry change
/// nothing, anything else is unknown.
pub open spec fn apply_feature(f: Features, name: Seq<char>) -> Result<Features, Seq<char>> {
    if name.len() == 0 {
        Ok(f)
    } else if name == "gui"@ {
        Ok(Features { gui: true, tui: f.tui, integrations: f.integrations })
    } else if name == "tui"@ {
        Ok(Features { gui: f.gui, tui: true, integrations: f.integrations })
    } else if name == "integrations"@ {
        Ok(Features { gui: f.gui, tui: f.tui, integrations: true })
    } else if name == "default"@ {
        Ok(f)
    } else {
        Err("unknown feature: "@ + name)
    }
}

/// The comma-separated list `v[i..]`, after the pending entry `name`,
/// applied to `f`; the first unknown entry is the error.
pub open spec fn features_from(v: Seq<char>, i: int, name: Seq<char>, f: Features) -> Result<
    Features,
    Seq<char>,
>
    decreases v.len() - i,
{
    if i >= v.len() {
        apply_feature(f, name)
    } else if v[i] == ',' {
        match apply_feature(f, name) {
            Ok(g) => features_from(v, i + 1, seq![], g),
            Err(m) => Err(m),
        }
    } else {
        features_from(v, i + 1, name.push(v[i]), f)
    }
}

/// The features a `--features` value selects, from none.
pub open spec fn features_spec(v: Seq<char>) -> Result<Features, Seq<char>> {
    features_from(v, 0, seq![], no_features())
}

/// One `--features` entry turns on exactly the feature it names and keeps
/// the others: `gui`, `tui` and `integrations` each set their own flag,
/// `default` and the empty entry set none, and any other name is refused.
pub proof fn lemma_feature_entry_turns_on_what_it_names(f: Features, name: Seq<char>)
    ensures
        (name.len() == 0 || name == "default"@ || name == "gui"@ || name == "tui"@ || name
            == "integrations"@) <==> apply_feature(f, name) is Ok,
        apply_feature(f, name) matches Ok(g) ==> {
            &&& g.gui == (f.gui || name == "gui"@)
            &&& g.tui == (f.tui || name == "tui"@)
            &&& g.integrations == (f.integrations || name == "integrations"@)
        },
{
    reveal_strlit("gui");
    reveal_strlit("tui");
    reveal_strlit("integrations");
    reveal_strlit("default");
    assert("gui"@[0] != "tui"@[0]);
    assert("integrations"@.len() == 12);
    assert("gui"@.len() == 3 && "tui"@.len() == 3);
}

/// A `--features` value that is a single name (no comma) selects exactly
/// that feature, from none.
pub proof fn lemma_single_feature_list(v: Seq<char>)
    requires
        forall|k: int| 0 <= k < v.len() ==> v[k] != ',',
    ensures
        features_spec(v) == apply_feature(no_features(), v),
{
    lemma_features_from_plain(v, 0, seq![], no_features());
    assert(v.subrange(0, 0) =~= seq![]);
    assert(seq![] + v.subrange(0, v.len() as int) =~= v);
}

proof fn lemma_features_from_plain(v: Seq<char>, i: int, name: Seq<char>, f: Features)
    requires
        0 <= i <= v.len(),
        forall|k: int| 0 <= k < v.len() ==> v[k] != ',',
    ensures
        features_from(v, i, name, f) == apply_feature(f, name + v.subrange(i, v.len() as int)),
    decreases v.len() - i,
{
    if i < v.len() {
        lemma_features_from_plain(v, i + 1, name.push(v[i]), f);
        assert(name.push(v[i]) + v.subrange(i + 1, v.len() as int) =~= name + v.subrange(
            i,
            v.len() as int,
        ));
    } else {
        assert(name + v.subrange(i, v.len() as int) =~= name);
    }
}

fn apply_feature_exec(f: Features, name: &str) -> (r: Result<Features, TaskError>)
    ensures
        match apply_feature(f, name@) {
            Ok(g) => r == Ok::<Features, TaskError>(g),
            Err(m) => r matches Err(e) && e.message@ == m && e.kind == TaskErrorKind::InvalidInput,
        },
{
    if name.unicode_len() == 0 {
        Ok(f)
    } else if str_eq(name, "gui") {
        Ok(Features { gui: true, tui: f.tui, integrations: f.integrations })
    } else if str_eq(name, "tui") {
        Ok(Features { gui: f.gui, tui: true, integrations: f.integrations })
    } else if str_eq(name, "integrations") {
        Ok(Features { gui: f.gui, tui: f.tui, integrations: true })
    } else if str_eq(name, "default") {
        Ok(f)
    } else {
        let mut m = String::from_str("unknown feature: ");
        m.append(name);
        Err(TaskError::invalid(m))
    }
}

/// Reads a `--features` list.
pub fn parse_features(value: &str) -> (r: Result<Features, TaskError>)
    ensures
        match features_spec(value@) {
            Ok(g) => r == Ok::<Features, TaskError>(g),
            Err(m) => r matches Err(e) && e.message@ == m && e.kind == TaskErrorKind::InvalidInput,
        },
{
    let n = value.unicode_len();
    let mut f = Features { gui: false, tui: false, integrations: false };
    let mut name = String::new();
    let mut i: usize = 0;
    assert(name@ =~= Seq::<char>::empty());
    while i < n
        invariant
            n == value@.len(),
            i <= n,
            features_from(value@, i as int, name@, f) == features_spec(value@),
        decreases n - i,
    {
        let c = value.get_char(i);
        if c == ',' {
            match apply_feature_exec(f, name.as_str()) {
                Ok(g) => {
                    f = g;
                },
                Err(e) => {
                    return Err(e);
                },
            }
            name = String::new();
            assert(name@ =~= Seq::<char>::empty());
        } else {
            push_char(&mut name, c);
        }
        i = i + 1;
    }
    apply_feature_exec(f, name.as_str())
}

/// The initial `build` state: a debug build of no optional feature.
pub open spec fn build_start() -> BuildScan {
    BuildScan { release: false, all_features: false, features: no_features() }
}

/// The state of a `build` or `check` command line.
pub struct BuildScan {
    pub release: bool,
    pub all_features: bool,
    pub features: Features,
}

/// The options of `build` and `check` from `args[i]` on.
pub open spec fn build_scan(args: Seq<Seq<char>>, i: int, st: BuildScan) -> Result<
    BuildScan,
    Seq<char>,
>
    decreases args.len() - i,
{
    if i >= args.len() {
        Ok(st)
    } else if args[i] == "--release"@ {
        build_scan(
            args,
            i + 1,
            BuildScan { release: true, all_features: st.all_features, features: st.features },
        )
    } else if args[i] == "--all-features"@ {
        build_scan(
            args,
            i + 1,
            BuildScan { release: st.release, all_features: true, features: every_feature() },
        )
    } else if args[i] == "--features"@ {
        if i + 1 >= args.len() {
            Err("--features"@ + " requires a value"@)
        } else {
            match features_spec(args[i + 1]) {
                Ok(f) => build_scan(
                    args,
                    i + 2,
                    BuildScan { release: st.release, all_features: st.all_features, features: f },
                ),
                Err(m) => Err(m),
            }
        }
    } else {
        Err("unknown option "@ + args[i])
    }
}

/// A directory override set by option `opt` to `v`, if `opt` is one.
pub open spec fn set_override(o: OverridesView, opt: Seq<char>, v: Seq<char>) -> Option<
    OverridesView,
> {
    if opt == "--prefix"@ {
        Some(OverridesView { prefix: Some(v), ..o })
    } else if opt == "--exec-prefix"@ {
        Some(OverridesView { exec_prefix: Some(v), ..o })
    } else if opt == "--bindir"@ {
        Some(OverridesView { bindir: Some(v), ..o })
    } else if opt == "--datadir"@ {
        Some(OverridesView { datadir: Some(v), ..o })
    } else if opt == "--sysconfdir"@ {
        Some(OverridesView { sysconfdir: Some(v), ..o })
    } else if opt == "--docdir"@ {
        Some(OverridesView { docdir: Some(v), ..o })
    } else if opt == "--mandir"@ {
        Some(OverridesView { mandir: Some(v), ..o })
    } else {
        None
    }
}

/// The state of an `install` command line.
pub struct InstallScan {
    pub destdir: Seq<char>,
    pub overrides: OverridesView,
    pub udev: DirChoice,
    pub systemd: DirChoice,
    pub xorg: DirChoice,
    pub features: Features,
    pub profile: Seq<char>,
}

/// Whether an `install` option takes a value.
pub open spec fn install_value_option(opt: Seq<char>) -> bool {
    opt == "--destdir"@ || set_override(no_overrides(), opt, seq![]) is Some || opt
        == "--with-udev-rules-dir"@ || opt == "--with-systemd-user-unit-dir"@ || opt
        == "--with-xorg-conf-dir"@ || opt == "--features"@
}

/// The `install` state after the value option `opt` with value `v`.
pub open spec fn install_set(st: InstallScan, opt: Seq<char>, v: Seq<char>) -> Result<
    InstallScan,
    Seq<char>,
> {
    if opt == "--destdir"@ {
        Ok(InstallScan { destdir: v, ..st })
    } else if set_override(st.overrides, opt, v) is Some {
        Ok(InstallScan { overrides: set_override(st.overrides, opt, v).unwrap(), ..st })
    } else if opt == "--with-udev-rules-dir"@ {
        match optional_dir_parse_spec(v) {
            Ok(d) => Ok(InstallScan { udev: d, ..st }),
            Err(m) => Err(m),
        }
    } else if opt == "--with-systemd-user-unit-dir"@ {
        match optional_dir_parse_spec(v) {
            Ok(d) => Ok(InstallScan { systemd: d, ..st }),
            Err(m) => Err(m),
        }
    } else if opt == "--with-xorg-conf-dir"@ {
        match optional_dir_parse_spec(v) {
            Ok(d) => Ok(InstallScan { xorg: d, ..st }),
            Err(m) => Err(m),
        }
    } else {
        match features_spec(v) {
            Ok(f) => Ok(InstallScan { features: f, ..st }),
            Err(m) => Err(m),
        }
    }
}

/// The options of `install` from `args[i]` on.
pub open spec fn install_scan(args: Seq<Seq<char>>, i: int, st: InstallScan) -> Result<
    InstallScan,
    Seq<char>,
>
    decreases args.len() - i,
{
    if i >= args.len() {
        Ok(st)
    } else if install_value_option(args[i]) {
        if i + 1 >= args.len() {
            Err(args[i] + " requires a value"@)
        } else {
            match install_set(st, args[i], args[i + 1]) {
                Ok(next) => install_scan(args, i + 2, next),
                Err(m) => Err(m),
            }
        }
    } else if args[i] == "--debug"@ {
        install_scan(args, i + 1, InstallScan { profile: "debug"@, ..st })
    } else if args[i] == "--release"@ {
        install_scan(args, i + 1, InstallScan { profile: "release"@, ..st })
    } else {
        Err("unknown option "@ + args[i])
    }
}

/// The options of `uninstall` from `args[i]` on: the staging directory and
/// the directory overrides.
pub open spec fn uninstall_scan(args: Seq<Seq<char>>, i: int, destdir: Seq<char>, o: OverridesView) -> Result<
    (Seq<char>, OverridesView),
    Seq<char>,
>
    decreases args.len() - i,
{
    if i >= args.len() {
        Ok((destdir, o))
    } else if args[i] == "--destdir"@ || set_override(o, args[i], seq![]) is Some {
        if i + 1 >= args.len() {
            Err(args[i] + " requires a value"@)
        } else if args[i] == "--destdir"@ {
            uninstall_scan(args, i + 2, args[i + 1], o)
        } else {
            uninstall_scan(args, i + 2, destdir, set_override(o, args[i], args[i + 1]).unwrap())
        }
    } else {
        Err("unknown option "@ + args[i])
    }
}

/// The initial `install` state: no staging, the release build, integrations
/// on, and every integration directory asked of `pkg-config`.
pub open spec fn install_start() -> InstallScan {
    InstallScan {
        destdir: seq![],
        overrides: no_overrides(),
        udev: DirChoice::Auto,
        systemd: DirChoice::Auto,
        xorg: DirChoice::Auto,
        features: Features { gui: false, tui: false, integrations: true },
        profile: "release"@,
    }
}

/// The task a command line asks for, or the message it is refused with.
pub open spec fn parse_spec(args: Seq<Seq<char>>) -> Result<CommandView, Seq<char>> {
    if args.len() == 0 {
        Err(USAGE@)
    } else if args[0] == "build"@ || args[0] == "check"@ {
        match build_scan(args, 1, build_start()) {
            Ok(st) => if args[0] == "build"@ {
                Ok(CommandView::Build { release: st.release, features: st.features })
            } else {
                Ok(CommandView::Check { all_features: st.all_features })
            },
            Err(m) => Err(m),
        }
    } else if args[0] == "install"@ {
        match install_scan(args, 1, install_start()) {
            Ok(st) => {
                let dirs = resolved_dirs(st.overrides);
                match validate_spec(dirs) {
                    Some(m) => Err(m),
                    None => Ok(
                        CommandView::Install {
                            destdir: st.destdir,
                            profile: st.profile,
                            dirs,
                            features: st.features,
                            udev: st.udev,
                            systemd: st.systemd,
                            xorg: st.xorg,
                        },
                    ),
                }
            },
            Err(m) => Err(m),
        }
    } else if args[0] == "uninstall"@ {
        match uninstall_scan(args, 1, seq![], no_overrides()) {
            Ok((destdir, o)) => {
                let dirs = resolved_dirs(o);
                match validate_spec(dirs) {
                    Some(m) => Err(m),
                    None => Ok(CommandView::Uninstall { destdir, dirs }),
                }
            },
            Err(m) => Err(m),
        }
    } else if args[0] == "docs"@ {
        Ok(CommandView::Docs)
    } else if args[0] == "dist"@ {
        if args.len() > 1 {
            if args.len() != 3 || args[1] != "--output"@ {
                Err("dist accepts only --output PATH"@)
            } else {
                Ok(CommandView::Dist { output: args[2] })
            }
        } else {
            Ok(CommandView::Dist { output: DEFAULT_ARCHIVE@ })
        }
    } else if args[0] == "verify-dist"@ {
        if args.len() > 2 {
            Err("verify-dist accepts one archive path"@)
        } else if args.len() == 2 {
            Ok(CommandView::VerifyDist { archive: args[1] })
        } else {
            Ok(CommandView::VerifyDist { archive: DEFAULT_ARCHIVE@ })
        }
    } else {
        Err(USAGE@)
    }
}

/// The arguments as text.
pub open spec fn arg_views(args: Seq<String>) -> Seq<Seq<char>> {
    args.map_values(|a: String| a@)
}

fn invalid(message: &str) -> (r: TaskError)
    ensures
        r.kind == TaskErrorKind::InvalidInput,
        r.message@ == message@,
{
    TaskError::invalid(String::from_str(message))
}

/// The value after the option at `*index`, which moves to it.
fn take_value(args: &[String], index: &mut usize, option: &str) -> (r: Result<String, TaskError>)
    requires
        *old(index) < args.len(),
    ensures
        *final(index) == *old(index) + 1,
        *old(index) + 1 < args.len() ==> (r matches Ok(v) && v@ == args@[*old(index) + 1]@),
        *old(index) + 1 >= args.len() ==> (r matches Err(e) && e.kind
            == TaskErrorKind::InvalidInput && e.message@ == option@ + " requires a value"@),
{
    *index = *index + 1;
    if *index < args.len() {
        Ok(args[*index].clone())
    } else {
        let mut m = String::from_str(option);
        m.append(" requires a value");
        Err(TaskError::invalid(m))
    }
}

fn unknown_option(option: &str) -> (r: TaskError)
    ensures
        r.kind == TaskErrorKind::InvalidInput,
        r.message@ == "unknown option "@ + option@,
{
    let mut m = String::from_str("unknown option ");
    m.append(option);
    TaskError::invalid(m)
}

/// Sets the override that `option` names to `value`; false when `option`
/// names none.
fn apply_override(o: &mut LogicalDirOverrides, option: &str, value: String) -> (r: bool)
    ensures
        r == (set_override(old(o)@, option@, value@) is Some),
        r ==> final(o)@ == set_override(old(o)@, option@, value@).unwrap(),
        !r ==> final(o)@ == old(o)@,
{
    if str_eq(option, "--prefix") {
        o.prefix = Some(value);
    } else if str_eq(option, "--exec-prefix") {
        o.exec_prefix = Some(value);
    } else if str_eq(option, "--bindir") {
        o.bindir = Some(value);
    } else if str_eq(option, "--datadir") {
        o.datadir = Some(value);
    } else if str_eq(option, "--sysconfdir") {
        o.sysconfdir = Some(value);
    } else if str_eq(option, "--docdir") {
        o.docdir = Some(value);
    } else if str_eq(option, "--mandir") {
        o.mandir = Some(value);
    } else {
        return false;
    }
    true
}

/// Whether `option` names a directory override.
fn is_override_option(option: &str) -> (r: bool)
    ensures
        r == (set_override(no_overrides(), option@, seq![]) is Some),
{
    str_eq(option, "--prefix") || str_eq(option, "--exec-prefix") || str_eq(option, "--bindir")
        || str_eq(option, "--datadir") || str_eq(option, "--sysconfdir") || str_eq(
        option,
        "--docdir",
    ) || str_eq(option, "--mandir")
}

proof fn lemma_set_override_kind(a: OverridesView, b: OverridesView, opt: Seq<char>, v: Seq<char>, w: Seq<char>)
    ensures
        (set_override(a, opt, v) is Some) == (set_override(b, opt, w) is Some),
{
}

/// The exec form of an `install` command line's state.
struct InstallState {
    destdir: String,
    overrides: LogicalDirOverrides,
    udev: OptionalDir,
    systemd: OptionalDir,
    xorg: OptionalDir,
    features: Features,
    profile: String,
}

impl View for InstallState {
    type V = InstallScan;

    closed spec fn view(&self) -> InstallScan {
        InstallScan {
            destdir: self.destdir@,
            overrides: self.overrides@,
            udev: self.udev@,
            systemd: self.systemd@,
            xorg: self.xorg@,
            features: self.features,
            profile: self.profile@,
        }
    }
}

fn is_install_value_option(option: &str) -> (r: bool)
    ensures
        r == install_value_option(option@),
{
    str_eq(option, "--destdir") || is_override_option(option) || str_eq(
        option,
        "--with-udev-rules-dir",
    ) || str_eq(option, "--with-systemd-user-unit-dir") || str_eq(option, "--with-xorg-conf-dir")
        || str_eq(option, "--features")
}

fn apply_install_value(st: &mut InstallState, option: &str, value: String) -> (r: Result<(), TaskError>)
    ensures
        match install_set(old(st)@, option@, value@) {
            Ok(next) => r is Ok && final(st)@ == next,
            Err(m) => r matches Err(e) && e.message@ == m && e.kind == TaskErrorKind::InvalidInput,
        },
{
    proof {
        lemma_set_override_kind(no_overrides(), st.overrides@, option@, seq![], value@);
    }
    if str_eq(option, "--destdir") {
        st.destdir = value;
    } else if is_override_option(option) {
        apply_override(&mut st.overrides, option, value);
    } else if str_eq(option, "--with-udev-rules-dir") {
        match OptionalDir::parse(value.as_str()) {
            Ok(d) => {
                st.udev = d;
            },
            Err(e) => {
                return Err(e);
            },
        }
    } else if str_eq(option, "--with-systemd-user-unit-dir") {
        match OptionalDir::parse(value.as_str()) {
            Ok(d) => {
                st.systemd = d;
            },
            Err(e) => {
                return Err(e);
            },
        }
    } else if str_eq(option, "--with-xorg-conf-dir") {
        match OptionalDir::parse(value.as_str()) {
            Ok(d) => {
                st.xorg = d;
            },
            Err(e) => {
                return Err(e);
            },
        }
    } else {
        match parse_features(value.as_str()) {
            Ok(f) => {
                st.features = f;
            },
            Err(e) => {
                return Err(e);
            },
        }
    }
    Ok(())
}

/// The options of `build` and `check`: whether to build for release,
/// whether all features were asked for, and the features.
fn scan_build(args: &[String]) -> (r: Result<(bool, bool, Features), TaskError>)
    requires
        args.len() >= 1,
    ensures
        match build_scan(arg_views(args@), 1, build_start()) {
            Ok(st) => r matches Ok(t) && t.0 == st.release && t.1 == st.all_features && t.2
                == st.features,
            Err(m) => r matches Err(e) && e.message@ == m && e.kind == TaskErrorKind::InvalidInput,
        },
{
    let ghost av = arg_views(args@);
    let mut release = false;
    let mut all_features = false;
    let mut features = Features { gui: false, tui: false, integrations: false };
    let mut i: usize = 1;
    while i < args.len()
        invariant
            1 <= i <= args.len(),
            av == arg_views(args@),
            build_scan(av, i as int, BuildScan { release, all_features, features }) == build_scan(
                av,
                1,
                build_start(),
            ),
        decreases args.len() - i,
    {
        let a = args[i].as_str();
        assert(a@ == av[i as int]);
        if str_eq(a, "--release") {
            release = true;
        } else if str_eq(a, "--all-features") {
            all_features = true;
            features = Features { gui: true, tui: true, integrations: true };
        } else if str_eq(a, "--features") {
            let ghost at = i;
            let v = match take_value(args, &mut i, "--features") {
                Ok(v) => v,
                Err(e) => {
                    return Err(e);
                },
            };
            assert(v@ == av[at + 1]);
            features = match parse_features(v.as_str()) {
                Ok(f) => f,
                Err(e) => {
                    return Err(e);
                },
            };
        } else {
            return Err(unknown_option(a));
        }
        i = i + 1;
    }
    Ok((release, all_features, features))
}

/// The options of `install`.
fn scan_install(args: &[String]) -> (r: Result<InstallState, TaskError>)
    requires
        args.len() >= 1,
    ensures
        match install_scan(arg_views(args@), 1, install_start()) {
            Ok(st) => r matches Ok(t) && t@ == st,
            Err(m) => r matches Err(e) && e.message@ == m && e.kind == TaskErrorKind::InvalidInput,
        },
{
    let ghost av = arg_views(args@);
    let mut st = InstallState {
        destdir: String::new(),
        overrides: LogicalDirOverrides::default(),
        udev: OptionalDir::Auto,
        systemd: OptionalDir::Auto,
        xorg: OptionalDir::Auto,
        features: Features { gui: false, tui: false, integrations: true },
        profile: String::from_str("release"),
    };
    assert(st@ == install_start()) by {
        assert(st.destdir@ =~= Seq::<char>::empty());
    }
    let mut i: usize = 1;
    while i < args.len()
        invariant
            1 <= i <= args.len(),
            av == arg_views(args@),
            install_scan(av, i as int, st@) == install_scan(av, 1, install_start()),
        decreases args.len() - i,
    {
        let a = args[i].as_str();
        assert(a@ == av[i as int]);
        if is_install_value_option(a) {
            let ghost at = i;
            let v = match take_value(args, &mut i, a) {
                Ok(v) => v,
                Err(e) => {
                    return Err(e);
                },
            };
            assert(v@ == av[at + 1]);
            match apply_install_value(&mut st, a, v) {
                Ok(()) => {},
                Err(e) => {
                    return Err(e);
                },
            }
        } else if str_eq(a, "--debug") {
            st.profile = String::from_str("debug");
        } else if str_eq(a, "--release") {
            st.profile = String::from_str("release");
        } else {
            return Err(unknown_option(a));
        }
        i = i + 1;
    }
    Ok(st)
}

/// The options of `uninstall`: the staging directory and the overrides.
fn scan_uninstall(args: &[String]) -> (r: Result<(String, LogicalDirOverrides), TaskError>)
    requires
        args.len() >= 1,
    ensures
        match uninstall_scan(arg_views(args@), 1, seq![], no_overrides()) {
            Ok((d, o)) => r matches Ok(t) && t.0@ == d && t.1@ == o,
            Err(m) => r matches Err(e) && e.message@ == m && e.kind == TaskErrorKind::InvalidInput,
        },
{
    let ghost av = arg_views(args@);
    let mut destdir = String::new();
    let mut overrides = LogicalDirOverrides::default();
    assert(destdir@ =~= Seq::<char>::empty());
    assert(overrides@ == no_overrides());
    let mut i: usize = 1;
    while i < args.len()
        invariant
            1 <= i <= args.len(),
            av == arg_views(args@),
            uninstall_scan(av, i as int, destdir@, overrides@) == uninstall_scan(
                av,
                1,
                seq![],
                no_overrides(),
            ),
        decreases args.len() - i,
    {
        let a = args[i].as_str();
        assert(a@ == av[i as int]);
        proof {
            lemma_set_override_kind(no_overrides(), overrides@, a@, seq![], seq![]);
        }
        if str_eq(a, "--destdir") || is_override_option(a) {
            let ghost at = i;
            let v = match take_value(args, &mut i, a) {
                Ok(v) => v,
                Err(e) => {
                    return Err(e);
                },
            };
            assert(v@ == av[at + 1]);
            if str_eq(a, "--destdir") {
                destdir = v;
            } else {
                proof {
                    lemma_set_override_kind(no_overrides(), overrides@, a@, seq![], v@);
                }
                apply_override(&mut overrides, a, v);
            }
        } else {
            return Err(unknown_option(a));
        }
        i = i + 1;
    }
    Ok((destdir, overrides))
}

/// Reads a task's command line (without the program name).
pub fn parse(args: &[String]) -> (r: Result<Command, TaskError>)
    ensures
        match parse_spec(arg_views(args@)) {
            Ok(c) => r matches Ok(cmd) && cmd@ == c,
            Err(m) => r matches Err(e) && e.message@ == m && e.kind == TaskErrorKind::InvalidInput,
        },
{
    let ghost av = arg_views(args@);
    if args.len() == 0 {
        return Err(invalid(USAGE));
    }
    let name = args[0].as_str();
    assert(name@ == av[0]);
    if str_eq(name, "build") || str_eq(name, "check") {
        let (release, all_features, features) = match scan_build(args) {
            Ok(t) => t,
            Err(e) => {
                return Err(e);
            },
        };
        if str_eq(name, "build") {
            Ok(Command::Build { release, features })
        } else {
            Ok(Command::Check { all_features })
        }
    } else if str_eq(name, "install") {
        let st = match scan_install(args) {
            Ok(st) => st,
            Err(e) => {
                return Err(e);
            },
        };
        let dirs = st.overrides.resolve();
        match dirs.validate() {
            Ok(()) => {},
            Err(e) => {
                return Err(e);
            },
        }
        Ok(
            Command::Install {
                options: InstallOptions { destdir: st.destdir, profile: st.profile },
                dirs,
                features: st.features,
                udev: st.udev,
                systemd: st.systemd,
                xorg: st.xorg,
            },
        )
    } else if str_eq(name, "uninstall") {
        let (destdir, overrides) = match scan_uninstall(args) {
            Ok(t) => t,
            Err(e) => {
                return Err(e);
            },
        };
        let dirs = overrides.resolve();
        match dirs.validate() {
            Ok(()) => {},
            Err(e) => {
                return Err(e);
            },
        }
        Ok(Command::Uninstall { destdir, dirs })
    } else if str_eq(name, "docs") {
        Ok(Command::Docs)
    } else if str_eq(name, "dist") {
        if args.len() > 1 {
            if args.len() != 3 || !str_eq(args[1].as_str(), "--output") {
                assert(args.len() == 3 ==> av[1] == args@[1]@);
                Err(invalid("dist accepts only --output PATH"))
            } else {
                assert(av[1] == args@[1]@ && av[2] == args@[2]@);
                Ok(Command::Dist { output: args[2].clone() })
            }
        } else {
            Ok(Command::Dist { output: String::from_str(DEFAULT_ARCHIVE) })
        }
    } else if str_eq(name, "verify-dist") {
        if args.len() > 2 {
            Err(invalid("verify-dist accepts one archive path"))
        } else if args.len() == 2 {
            assert(av[1] == args@[1]@);
            Ok(Command::VerifyDist { archive: args[1].clone() })
        } else {
            Ok(Command::VerifyDist { archive: String::from_str(DEFAULT_ARCHIVE) })
        }
    } else {
        Err(invalid(USAGE))
    }
}

/// The packages every build includes.
pub const BASE_BUILD_PACKAGES: [&'static str; 4] = ["wiiland-ipc", "wiiland-hid", "wiilandd", "wiiland-dump"];

/// The packages a build selects: the base ones, then the configuration tool
/// with `gui` and the terminal viewer with `tui`.
pub open spec fn build_packages_spec(f: Features) -> Seq<Seq<char>> {
    seq!["wiiland-ipc"@, "wiiland-hid"@, "wiilandd"@, "wiiland-dump"@] + (if f.gui {
        seq!["wiiland-config"@]
    } else {
        seq![]
    }) + (if f.tui {
        seq!["wiiland-show"@]
    } else {
        seq![]
    })
}

/// The packages a build of `features` compiles.
pub fn build_packages(features: Features) -> (r: Vec<&'static str>)
    ensures
        r@.map_values(|p: &'static str| p@) == build_packages_spec(features),
{
    let mut packages: Vec<&'static str> = Vec::new();
    packages.push("wiiland-ipc");
    packages.push("wiiland-hid");
    packages.push("wiilandd");
    packages.push("wiiland-dump");
    if features.gui {
        packages.push("wiiland-config");
    }
    if features.tui {
        packages.push("wiiland-show");
    }
    assert(packages@.map_values(|p: &'static str| p@) =~= build_packages_spec(features));
    packages
}

/// The arguments of the cargo build a build task runs: every package of
/// the selected features, each after `--package`, then `--release` when
/// asked for.
pub open spec fn cargo_build_args_spec(release: bool, f: Features) -> Seq<Seq<char>> {
    seq!["build"@] + build_packages_spec(f).map_values(|p: Seq<char>| seq!["--package"@, p]).flatten()
        + (if release {
        seq!["--release"@]
    } else {
        seq![]
    })
}

/// The cargo arguments of a build task.
pub fn cargo_build_args(release: bool, features: Features) -> (r: Vec<&'static str>)
    ensures
        r@.map_values(|a: &'static str| a@) == cargo_build_args_spec(release, features),
{
    let packages = build_packages(features);
    let ghost pv = build_packages_spec(features);
    let mut args: Vec<&'static str> = Vec::new();
    args.push("build");
    let mut i: usize = 0;
    assert(pv.subrange(0, 0).map_values(|p: Seq<char>| seq!["--package"@, p]).flatten() =~= seq![]);
    while i < packages.len()
        invariant
            pv == build_packages_spec(features),
            packages@.map_values(|p: &'static str| p@) == pv,
            i <= packages@.len(),
            args@.map_values(|a: &'static str| a@) == seq!["build"@] + pv.subrange(0, i as int).map_values(
                |p: Seq<char>| seq!["--package"@, p],
            ).flatten(),
        decreases packages@.len() - i,
    {
        let ghost before = args@.map_values(|a: &'static str| a@);
        let ghost head = pv.subrange(0, i as int).map_values(|p: Seq<char>| seq!["--package"@, p]);
        assert(packages@[i as int]@ == pv[i as int]);
        args.push("--package");
        args.push(packages[i]);
        assert(pv.subrange(0, i + 1).map_values(|p: Seq<char>| seq!["--package"@, p]) =~= head.push(
            seq!["--package"@, pv[i as int]],
        ));
        proof {
            head.lemma_flatten_push(seq!["--package"@, pv[i as int]]);
        }
        assert(args@.map_values(|a: &'static str| a@) =~= before + seq!["--package"@, pv[i as int]]);
        i = i + 1;
    }
    assert(pv.subrange(0, packages@.len() as int) =~= pv);
    if release {
        args.push("--release");
    }
    assert(args@.map_values(|a: &'static str| a@) =~= cargo_build_args_spec(release, features));
    args
}

/// The cargo arguments of a check task: the whole workspace with every
/// target, and every feature when asked for.
pub fn cargo_check_args(all_features: bool) -> (r: Vec<&'static str>)
    ensures
        r@.map_values(|a: &'static str| a@) == seq!["check"@, "--workspace"@, "--all-targets"@] + (
        if all_features {
            seq!["--all-features"@]
        } else {
            seq![]
        }),
{
    let mut args: Vec<&'static str> = Vec::new();
    args.push("check");
    args.push("--workspace");
    args.push("--all-targets");
    if all_features {
        args.push("--all-features");
    }
    assert(args@.map_values(|a: &'static str| a@) =~= seq!["check"@, "--workspace"@, "--all-targets"@]
        + (if all_features {
        seq!["--all-features"@]
    } else {
        seq![]
    }));
    args
}

/// The command line `args` with the option-value pairs at `i` and `i + 2`
/// exchanged.
pub open spec fn swap_pairs(args: Seq<Seq<char>>, i: int) -> Seq<Seq<char>> {
    args.update(i, args[i + 2]).update(i + 1, args[i + 3]).update(i + 2, args[i]).update(
        i + 3,
        args[i + 1],
    )
}

/// Two different directory overrides.
pub open spec fn distinct_overrides(a: Seq<char>, b: Seq<char>) -> bool {
    set_override(no_overrides(), a, seq![]) is Some && set_override(no_overrides(), b, seq![]) is Some
        && a != b
}

/// `--destdir` names no directory override.
proof fn lemma_destdir_is_no_override(o: OverridesView, v: Seq<char>)
    ensures
        set_override(o, "--destdir"@, v) is None,
{
    reveal_strlit("--destdir");
    reveal_strlit("--prefix");
    reveal_strlit("--exec-prefix");
    reveal_strlit("--bindir");
    reveal_strlit("--datadir");
    reveal_strlit("--sysconfdir");
    reveal_strlit("--docdir");
    reveal_strlit("--mandir");
    assert("--destdir"@.len() != "--prefix"@.len());
    assert("--destdir"@.len() != "--exec-prefix"@.len());
    assert("--destdir"@.len() != "--bindir"@.len());
    assert("--destdir"@[3] != "--datadir"@[3]);
    assert("--destdir"@.len() != "--sysconfdir"@.len());
    assert("--destdir"@.len() != "--docdir"@.len());
    assert("--destdir"@.len() != "--mandir"@.len());
}

proof fn lemma_overrides_commute(o: OverridesView, a: Seq<char>, va: Seq<char>, b: Seq<char>, vb: Seq<char>)
    requires
        distinct_overrides(a, b),
    ensures
        set_override(set_override(o, a, va).unwrap(), b, vb) == set_override(
            set_override(o, b, vb).unwrap(),
            a,
            va,
        ),
        set_override(set_override(o, a, va).unwrap(), b, vb) is Some,
{
    lemma_set_override_kind(no_overrides(), o, a, seq![], va);
    lemma_set_override_kind(no_overrides(), o, b, seq![], vb);
    lemma_set_override_kind(no_overrides(), set_override(o, a, va).unwrap(), b, seq![], vb);
    lemma_set_override_kind(no_overrides(), set_override(o, b, vb).unwrap(), a, seq![], va);
}

proof fn lemma_install_scan_suffix(a: Seq<Seq<char>>, b: Seq<Seq<char>>, i: int, st: InstallScan)
    requires
        a.len() == b.len(),
        0 <= i,
        forall|j: int| i <= j < a.len() ==> a[j] == b[j],
    ensures
        install_scan(a, i, st) == install_scan(b, i, st),
    decreases a.len() - i,
{
    if i < a.len() {
        if install_value_option(a[i]) {
            if i + 1 < a.len() {
                match install_set(st, a[i], a[i + 1]) {
                    Ok(next) => lemma_install_scan_suffix(a, b, i + 2, next),
                    Err(_) => {},
                }
            }
        } else if a[i] == "--debug"@ {
            lemma_install_scan_suffix(a, b, i + 1, InstallScan { profile: "debug"@, ..st });
        } else if a[i] == "--release"@ {
            lemma_install_scan_suffix(a, b, i + 1, InstallScan { profile: "release"@, ..st });
        }
    }
}

proof fn lemma_uninstall_scan_suffix(a: Seq<Seq<char>>, b: Seq<Seq<char>>, i: int, d: Seq<char>, o: OverridesView)
    requires
        a.len() == b.len(),
        0 <= i,
        forall|j: int| i <= j < a.len() ==> a[j] == b[j],
    ensures
        uninstall_scan(a, i, d, o) == uninstall_scan(b, i, d, o),
    decreases a.len() - i,
{
    if i < a.len() && i + 1 < a.len() && (a[i] == "--destdir"@ || set_override(o, a[i], seq![]) is Some) {
        if a[i] == "--destdir"@ {
            lemma_uninstall_scan_suffix(a, b, i + 2, a[i + 1], o);
        } else {
            lemma_uninstall_scan_suffix(a, b, i + 2, d, set_override(o, a[i], a[i + 1]).unwrap());
        }
    }
}

/// Directory overrides are independent of argument order: exchanging two
/// adjacent override options (each with its value) on an `install` or
/// `uninstall` command line leaves the scanned state unchanged.
pub proof fn lemma_override_order_irrelevant(
    args: Seq<Seq<char>>,
    i: int,
    st: InstallScan,
    d: Seq<char>,
    o: OverridesView,
)
    requires
        0 <= i,
        i + 4 <= args.len(),
        distinct_overrides(args[i], args[i + 2]),
    ensures
        install_scan(args, i, st) == install_scan(swap_pairs(args, i), i, st),
        uninstall_scan(args, i, d, o) == uninstall_scan(swap_pairs(args, i), i, d, o),
{
    let b = swap_pairs(args, i);
    lemma_destdir_is_no_override(no_overrides(), seq![]);
    assert(b[i] == args[i + 2] && b[i + 1] == args[i + 3] && b[i + 2] == args[i] && b[i + 3]
        == args[i + 1]);
    lemma_overrides_commute(st.overrides, args[i], args[i + 1], args[i + 2], args[i + 3]);
    lemma_overrides_commute(o, args[i], args[i + 1], args[i + 2], args[i + 3]);
    lemma_set_override_kind(no_overrides(), st.overrides, args[i], seq![], args[i + 1]);
    lemma_set_override_kind(no_overrides(), st.overrides, args[i + 2], seq![], args[i + 3]);
    lemma_set_override_kind(no_overrides(), o, args[i], seq![], seq![]);
    lemma_set_override_kind(no_overrides(), o, args[i + 2], seq![], seq![]);
    let oa = set_override(st.overrides, args[i], args[i + 1]).unwrap();
    let ob = set_override(st.overrides, args[i + 2], args[i + 3]).unwrap();
    lemma_set_override_kind(no_overrides(), oa, args[i + 2], seq![], args[i + 3]);
    lemma_set_override_kind(no_overrides(), ob, args[i], seq![], args[i + 1]);
    let both = InstallScan {
        overrides: set_override(oa, args[i + 2], args[i + 3]).unwrap(),
        ..st
    };
    let first = InstallScan { overrides: oa, ..st };
    assert(install_value_option(args[i]));
    assert(args[i] != "--destdir"@);
    assert(install_set(st, args[i], args[i + 1]) == Ok::<InstallScan, Seq<char>>(first));
    assert(install_scan(args, i, st) == install_scan(args, i + 2, first));
    assert(install_value_option(args[i + 2]));
    assert(install_set(first, args[i + 2], args[i + 3]) == Ok::<InstallScan, Seq<char>>(both));
    assert(install_scan(args, i, st) == install_scan(args, i + 4, both));
    let second = InstallScan { overrides: ob, ..st };
    assert(b[i] != "--destdir"@ && b[i + 2] != "--destdir"@);
    assert(install_set(st, b[i], b[i + 1]) == Ok::<InstallScan, Seq<char>>(second));
    assert(install_scan(b, i, st) == install_scan(b, i + 2, second));
    assert(install_set(second, b[i + 2], b[i + 3]) == Ok::<InstallScan, Seq<char>>(both));
    assert(install_scan(b, i, st) == install_scan(b, i + 4, both));
    lemma_install_scan_suffix(args, b, i + 4, both);
    let pa = set_override(o, args[i], args[i + 1]).unwrap();
    let pb = set_override(o, args[i + 2], args[i + 3]).unwrap();
    lemma_set_override_kind(no_overrides(), pa, args[i + 2], seq![], seq![]);
    lemma_set_override_kind(no_overrides(), pb, args[i], seq![], seq![]);
    let pboth = set_override(pa, args[i + 2], args[i + 3]).unwrap();
    assert(uninstall_scan(args, i, d, o) == uninstall_scan(args, i + 2, d, pa));
    assert(uninstall_scan(args, i + 2, d, pa) == uninstall_scan(args, i + 4, d, pboth));
    assert(uninstall_scan(b, i, d, o) == uninstall_scan(b, i + 2, d, pb));
    assert(uninstall_scan(b, i + 2, d, pb) == uninstall_scan(b, i + 4, d, pboth));
    assert(uninstall_scan(b, i, d, o) == uninstall_scan(b, i + 4, d, pboth));
    lemma_uninstall_scan_suffix(args, b, i + 4, d, pboth);
}

/// On a whole command line: swapping the first two directory overrides of
/// an `install` or `uninstall` gives the same task.
pub proof fn lemma_parse_override_order_irrelevant(args: Seq<Seq<char>>)
    requires
        args.len() >= 5,
        args[0] == "install"@ || args[0] == "uninstall"@,
        distinct_overrides(args[1], args[3]),
    ensures
        parse_spec(args) == parse_spec(swap_pairs(args, 1)),
{
    lemma_override_order_irrelevant(args, 1, install_start(), seq![], no_overrides());
    assert(swap_pairs(args, 1)[0] == args[0]);
    reveal_strlit("install");
    reveal_strlit("uninstall");
    reveal_strlit("build");
    reveal_strlit("check");
    assert(args[0] != "build"@ && args[0] != "check"@);
    assert(args[0] == "uninstall"@ ==> args[0] != "install"@);
}

} // verus!
