//! The installation layout: logical directories, optional integration
//! directories and the manifest of installed items.

use vstd::prelude::*;
use crate::path::{
    is_absolute, is_absolute_spec, join, join_spec, has_parent_component,
    has_parent_component_spec, path_eq, path_eq_spec, file_name, file_name_spec,
};
use crate::text::{str_eq, is_all_digits, all_digits};
use crate::order::{sort_paths, path_sort};

verus! {

/// The class of a task error, as `std::io::ErrorKind` would report it.
#[derive(Clone, Copy, Debug, PartialEq, Eq, Structural)]
pub enum TaskErrorKind {
    InvalidInput,
    InvalidData,
    Other,
}

/// An error of the build and installation tasks.
#[derive(Clone, Debug)]
pub struct TaskError {
    pub kind: TaskErrorKind,
    pub message: String,
}

impl TaskError {
    /// A rejected input with its message.
    pub fn invalid(message: String) -> (r: Self)
        ensures
            r.kind == TaskErrorKind::InvalidInput,
            r.message == message,
    {
        TaskError { kind: TaskErrorKind::InvalidInput, message }
    }

    /// What kind of failure this is.
    pub fn kind(&self) -> (r: TaskErrorKind)
        ensures
            r == self.kind,
    {
        self.kind
    }

    /// The message the error displays.
    pub fn to_text(&self) -> (r: String)
        ensures
            r@ == self.message@,
    {
        self.message.clone()
    }
}

/// The optional parts that a build or installation includes.
#[derive(Clone, Copy, Debug, PartialEq, Eq, Structural)]
pub struct Features {
    pub gui: bool,
    pub tui: bool,
    pub integrations: bool,
}

impl Default for Features {
    fn default() -> (r: Self)
        ensures
            !r.gui && !r.tui && !r.integrations,
    {
        Features { gui: false, tui: false, integrations: false }
    }
}

/// The logical installation directories, as the installed system sees them.
#[derive(Clone, Debug, PartialEq, Eq)]
pub struct LogicalDirs {
    pub prefix: String,
    pub exec_prefix: String,
    pub bindir: String,
    pub datadir: String,
    pub sysconfdir: String,
    pub docdir: String,
    pub mandir: String,
}

/// The directories given on the command line; the others derive from them.
#[derive(Clone, Debug)]
pub struct LogicalDirOverrides {
    pub prefix: Option<String>,
    pub exec_prefix: Option<String>,
    pub bindir: Option<String>,
    pub datadir: Option<String>,
    pub sysconfdir: Option<String>,
    pub docdir: Option<String>,
    pub mandir: Option<String>,
}

impl Default for LogicalDirOverrides {
    fn default() -> (r: Self)
        ensures
            r.prefix is None && r.exec_prefix is None && r.bindir is None && r.datadir is None
                && r.sysconfdir is None && r.docdir is None && r.mandir is None,
    {
        LogicalDirOverrides {
            prefix: None,
            exec_prefix: None,
            bindir: None,
            datadir: None,
            sysconfdir: None,
            docdir: None,
            mandir: None,
        }
    }
}

/// The abstract form of a layout.
pub struct DirsView {
    pub prefix: Seq<char>,
    pub exec_prefix: Seq<char>,
    pub bindir: Seq<char>,
    pub datadir: Seq<char>,
    pub sysconfdir: Seq<char>,
    pub docdir: Seq<char>,
    pub mandir: Seq<char>,
}

impl View for LogicalDirs {
    type V = DirsView;

    open spec fn view(&self) -> DirsView {
        DirsView {
            prefix: self.prefix@,
            exec_prefix: self.exec_prefix@,
            bindir: self.bindir@,
            datadir: self.datadir@,
            sysconfdir: self.sysconfdir@,
            docdir: self.docdir@,
            mandir: self.mandir@,
        }
    }
}

/// The abstract form of the directory overrides.
pub struct OverridesView {
    pub prefix: Option<Seq<char>>,
    pub exec_prefix: Option<Seq<char>>,
    pub bindir: Option<Seq<char>>,
    pub datadir: Option<Seq<char>>,
    pub sysconfdir: Option<Seq<char>>,
    pub docdir: Option<Seq<char>>,
    pub mandir: Option<Seq<char>>,
}

impl View for LogicalDirOverrides {
    type V = OverridesView;

    open spec fn view(&self) -> OverridesView {
        OverridesView {
            prefix: opt_view(self.prefix),
            exec_prefix: opt_view(self.exec_prefix),
            bindir: opt_view(self.bindir),
            datadir: opt_view(self.datadir),
            sysconfdir: opt_view(self.sysconfdir),
            docdir: opt_view(self.docdir),
            mandir: opt_view(self.mandir),
        }
    }
}

/// No directory given.
pub open spec fn no_overrides() -> OverridesView {
    OverridesView {
        prefix: None,
        exec_prefix: None,
        bindir: None,
        datadir: None,
        sysconfdir: None,
        docdir: None,
        mandir: None,
    }
}

/// An override's text, or the default when none was given.
pub open spec fn or_default(o: Option<Seq<char>>, d: Seq<char>) -> Seq<char> {
    match o {
        Some(p) => p,
        None => d,
    }
}

/// The directories `resolve` derives: each given one as given, the others
/// from the prefix (`/usr/local` by default) and the data directory;
/// `sysconfdir` defaults to `/etc` whatever the prefix.
pub open spec fn resolved_dirs(o: OverridesView) -> DirsView {
    let prefix = or_default(o.prefix, "/usr/local"@);
    let exec_prefix = or_default(o.exec_prefix, prefix);
    let datadir = or_default(o.datadir, join_spec(prefix, "share"@));
    DirsView {
        prefix,
        exec_prefix,
        bindir: or_default(o.bindir, join_spec(exec_prefix, "bin"@)),
        datadir,
        sysconfdir: or_default(o.sysconfdir, "/etc"@),
        docdir: or_default(o.docdir, join_spec(datadir, "doc/wiiland"@)),
        mandir: or_default(o.mandir, join_spec(datadir, "man"@)),
    }
}

fn take_or(o: Option<String>, d: String) -> (r: String)
    ensures
        r@ == or_default(opt_view(o), d@),
{
    match o {
        Some(p) => p,
        None => d,
    }
}

impl LogicalDirOverrides {
    /// The complete layout.
    pub fn resolve(self) -> (r: LogicalDirs)
        ensures
            r@ == resolved_dirs(self@),
    {
        let prefix = take_or(self.prefix, String::from_str("/usr/local"));
        let exec_prefix = take_or(self.exec_prefix, prefix.clone());
        let datadir = take_or(self.datadir, join(prefix.as_str(), "share"));
        let bindir = take_or(self.bindir, join(exec_prefix.as_str(), "bin"));
        let sysconfdir = take_or(self.sysconfdir, String::from_str("/etc"));
        let docdir = take_or(self.docdir, join(datadir.as_str(), "doc/wiiland"));
        let mandir = take_or(self.mandir, join(datadir.as_str(), "man"));
        LogicalDirs { prefix, exec_prefix, bindir, datadir, sysconfdir, docdir, mandir }
    }
}

impl Default for LogicalDirs {
    /// The layout under `/usr/local`, with the configuration in `/etc`.
    fn default() -> (r: Self)
        ensures
            r@ == (DirsView {
                prefix: "/usr/local"@,
                exec_prefix: "/usr/local"@,
                bindir: join_spec("/usr/local"@, "bin"@),
                datadir: join_spec("/usr/local"@, "share"@),
                sysconfdir: "/etc"@,
                docdir: join_spec("/usr/local"@, "share/doc/wiiland"@),
                mandir: join_spec("/usr/local"@, "share/man"@),
            }),
    {
        let prefix = String::from_str("/usr/local");
        let exec_prefix = prefix.clone();
        LogicalDirs {
            bindir: join(exec_prefix.as_str(), "bin"),
            datadir: join(prefix.as_str(), "share"),
            sysconfdir: String::from_str("/etc"),
            docdir: join(prefix.as_str(), "share/doc/wiiland"),
            mandir: join(prefix.as_str(), "share/man"),
            prefix,
            exec_prefix,
        }
    }
}

/// What is wrong with one directory of a layout, if anything.
pub open spec fn dir_problem(name: Seq<char>, path: Seq<char>) -> Option<Seq<char>> {
    if !is_absolute_spec(path) {
        Some(name + " must be absolute: "@ + path)
    } else if has_parent_component_spec(path) {
        Some(name + " contains '..'"@)
    } else {
        None
    }
}

/// The first problem among named directories, in order.
pub open spec fn first_problem(entries: Seq<(Seq<char>, Seq<char>)>) -> Option<Seq<char>>
    decreases entries.len(),
{
    if entries.len() == 0 {
        None
    } else {
        match dir_problem(entries[0].0, entries[0].1) {
            Some(m) => Some(m),
            None => first_problem(entries.drop_first()),
        }
    }
}

/// The message of the layout check: each directory must be absolute and free
/// of `..`, checked in order, and the configuration directory must be
/// `/etc`.
pub open spec fn validate_spec(d: DirsView) -> Option<Seq<char>> {
    let entries = seq![
        ("prefix"@, d.prefix),
        ("exec_prefix"@, d.exec_prefix),
        ("bindir"@, d.bindir),
        ("datadir"@, d.datadir),
        ("sysconfdir"@, d.sysconfdir),
        ("docdir"@, d.docdir),
        ("mandir"@, d.mandir),
    ];
    match first_problem(entries) {
        Some(m) => Some(m),
        None => if path_eq_spec(d.sysconfdir, "/etc"@) {
            None
        } else {
            Some(
                "sysconfdir must be /etc until runtime config relocation is supported: "@
                    + d.sysconfdir,
            )
        },
    }
}

fn check_dir(name: &str, path: &str) -> (r: Option<String>)
    ensures
        r matches Some(m) ==> dir_problem(name@, path@) == Some(m@),
        r is None ==> dir_problem(name@, path@) is None,
{
    if !is_absolute(path) {
        let mut m = String::from_str(name);
        m.append(" must be absolute: ");
        m.append(path);
        Some(m)
    } else if has_parent_component(path) {
        let mut m = String::from_str(name);
        m.append(" contains '..'");
        Some(m)
    } else {
        None
    }
}

impl LogicalDirs {
    /// Checks the layout; the error's message says what is wrong.
    pub fn validate(&self) -> (r: Result<(), TaskError>)
        ensures
            r is Ok <==> validate_spec(self@) is None,
            r matches Err(e) ==> e.kind == TaskErrorKind::InvalidInput && Some(e.message@)
                == validate_spec(self@),
    {
        let ghost entries = seq![
            ("prefix"@, self.prefix@),
            ("exec_prefix"@, self.exec_prefix@),
            ("bindir"@, self.bindir@),
            ("datadir"@, self.datadir@),
            ("sysconfdir"@, self.sysconfdir@),
            ("docdir"@, self.docdir@),
            ("mandir"@, self.mandir@),
        ];
        proof {
            reveal_with_fuel(first_problem, 8);
            assert(entries.drop_first() =~= entries.subrange(1, 7));
            assert(entries.subrange(1, 7).drop_first() =~= entries.subrange(2, 7));
            assert(entries.subrange(2, 7).drop_first() =~= entries.subrange(3, 7));
            assert(entries.subrange(3, 7).drop_first() =~= entries.subrange(4, 7));
            assert(entries.subrange(4, 7).drop_first() =~= entries.subrange(5, 7));
            assert(entries.subrange(5, 7).drop_first() =~= entries.subrange(6, 7));
            assert(entries.subrange(6, 7).drop_first() =~= Seq::<(Seq<char>, Seq<char>)>::empty());
        }
        if let Some(m) = check_dir("prefix", self.prefix.as_str()) {
            return Err(TaskError::invalid(m));
        }
        if let Some(m) = check_dir("exec_prefix", self.exec_prefix.as_str()) {
            return Err(TaskError::invalid(m));
        }
        if let Some(m) = check_dir("bindir", self.bindir.as_str()) {
            return Err(TaskError::invalid(m));
        }
        if let Some(m) = check_dir("datadir", self.datadir.as_str()) {
            return Err(TaskError::invalid(m));
        }
        if let Some(m) = check_dir("sysconfdir", self.sysconfdir.as_str()) {
            return Err(TaskError::invalid(m));
        }
        if let Some(m) = check_dir("docdir", self.docdir.as_str()) {
            return Err(TaskError::invalid(m));
        }
        if let Some(m) = check_dir("mandir", self.mandir.as_str()) {
            return Err(TaskError::invalid(m));
        }
        if !path_eq(self.sysconfdir.as_str(), "/etc") {
            let mut m = String::from_str(
                "sysconfdir must be /etc until runtime config relocation is supported: ",
            );
            m.append(self.sysconfdir.as_str());
            return Err(TaskError::invalid(m));
        }
        Ok(())
    }
}

/// Where an optional integration file goes: asked of `pkg-config`, not
/// installed, or a given absolute directory.
#[derive(Clone, Debug, PartialEq, Eq)]
pub enum OptionalDir {
    Auto,
    No,
    Absolute(String),
}

/// Whether a value names an absolute directory without `..`.
pub open spec fn absolute_dir_ok(value: Seq<char>) -> bool {
    is_absolute_spec(value) && !has_parent_component_spec(value)
}

/// The directory an optional integration resolves to: none for `No`, the
/// given one, or the `pkg-config` answer (else the fallback) for `Auto`;
/// then `suffix` is appended unless it is already the last component.
pub open spec fn optional_dir_resolution(
    d: OptionalDir,
    queried: Option<String>,
    fallback: Seq<char>,
    suffix: Option<Seq<char>>,
) -> Option<Seq<char>> {
    let base = match d {
        OptionalDir::No => None,
        OptionalDir::Absolute(p) => Some(p@),
        OptionalDir::Auto => Some(or_default(opt_view(queried), fallback)),
    };
    match base {
        None => None,
        Some(p) => match suffix {
            Some(s) => if file_name_spec(p) != Some(s) {
                Some(join_spec(p, s))
            } else {
                Some(p)
            },
            None => Some(p),
        },
    }
}

/// The abstract form of an optional directory choice.
pub enum DirChoice {
    Auto,
    No,
    Absolute(Seq<char>),
}

impl View for OptionalDir {
    type V = DirChoice;

    open spec fn view(&self) -> DirChoice {
        match self {
            OptionalDir::Auto => DirChoice::Auto,
            OptionalDir::No => DirChoice::No,
            OptionalDir::Absolute(p) => DirChoice::Absolute(p@),
        }
    }
}

/// What `OptionalDir::parse` reads from a value, or its error message.
pub open spec fn optional_dir_parse_spec(value: Seq<char>) -> Result<DirChoice, Seq<char>> {
    if value == "auto"@ {
        Ok(DirChoice::Auto)
    } else if value == "no"@ {
        Ok(DirChoice::No)
    } else if absolute_dir_ok(value) {
        Ok(DirChoice::Absolute(value))
    } else {
        Err("expected auto, no, or an absolute path: "@ + value)
    }
}

impl OptionalDir {
    /// Reads `auto`, `no` or an absolute path.
    pub fn parse(value: &str) -> (r: Result<Self, TaskError>)
        ensures
            value@ == "auto"@ ==> r matches Ok(OptionalDir::Auto),
            value@ != "auto"@ && value@ == "no"@ ==> r matches Ok(OptionalDir::No),
            value@ != "auto"@ && value@ != "no"@ && absolute_dir_ok(value@) ==> (r matches Ok(
                OptionalDir::Absolute(p),
            ) && p@ == value@),
            value@ != "auto"@ && value@ != "no"@ && !absolute_dir_ok(value@) ==> (r matches Err(e)
                && e.kind == TaskErrorKind::InvalidInput && e.message@
                == "expected auto, no, or an absolute path: "@ + value@),
            match optional_dir_parse_spec(value@) {
                Ok(d) => r matches Ok(o) && o@ == d,
                Err(m) => r matches Err(e) && e.message@ == m && e.kind == TaskErrorKind::InvalidInput,
            },
    {
        if str_eq(value, "auto") {
            Ok(OptionalDir::Auto)
        } else if str_eq(value, "no") {
            Ok(OptionalDir::No)
        } else if !is_absolute(value) || has_parent_component(value) {
            let mut m = String::from_str("expected auto, no, or an absolute path: ");
            m.append(value);
            Err(TaskError::invalid(m))
        } else {
            Ok(OptionalDir::Absolute(String::from_str(value)))
        }
    }

    /// The directory this choice resolves to; `queried` is what
    /// `pkg-config` answered (trimmed, when it succeeded with a non-empty
    /// answer), asked only for `Auto`.
    pub fn resolve(&self, queried: Option<String>, fallback: String, suffix: Option<&str>) -> (r:
        Option<String>)
        ensures
            r matches Some(p) ==> optional_dir_resolution(
                *self,
                queried,
                fallback@,
                match suffix {
                    Some(s) => Some(s@),
                    None => None,
                },
            ) == Some(p@),
            r is None ==> optional_dir_resolution(
                *self,
                queried,
                fallback@,
                match suffix {
                    Some(s) => Some(s@),
                    None => None,
                },
            ) is None,
    {
        let path = match self {
            OptionalDir::No => {
                return None;
            },
            OptionalDir::Absolute(p) => p.clone(),
            OptionalDir::Auto => take_or(queried, fallback),
        };
        match suffix {
            Some(s) => {
                let keep = match file_name(path.as_str()) {
                    Some(n) => str_eq(n.as_str(), s),
                    None => false,
                };
                if keep {
                    Some(path)
                } else {
                    Some(join(path.as_str(), s))
                }
            },
            None => Some(path),
        }
    }
}

/// Where an installed file comes from.
#[derive(Clone, Debug)]
pub enum ItemSource {
    /// A file of the source tree.
    Root(String),
    /// A file the build produced.
    Built(String),
    /// The systemd user unit, generated at installation.
    GeneratedService,
}

/// The abstract source of an item.
pub enum SourceView {
    Root(Seq<char>),
    Built(Seq<char>),
    GeneratedService,
}

impl View for ItemSource {
    type V = SourceView;

    open spec fn view(&self) -> SourceView {
        match self {
            ItemSource::Root(p) => SourceView::Root(p@),
            ItemSource::Built(p) => SourceView::Built(p@),
            ItemSource::GeneratedService => SourceView::GeneratedService,
        }
    }
}

/// One installed file: its source, its logical destination and its mode.
#[derive(Clone, Debug)]
pub struct Item {
    pub source: ItemSource,
    pub destination: String,
    pub mode: u32,
}

/// The abstract form of an item.
pub struct ItemView {
    pub source: SourceView,
    pub destination: Seq<char>,
    pub mode: u32,
}

impl View for Item {
    type V = ItemView;

    open spec fn view(&self) -> ItemView {
        ItemView { source: self.source@, destination: self.destination@, mode: self.mode }
    }
}

/// What `pkg-config` answered for the three integration directories, each
/// trimmed and present only when the query succeeded with a non-empty answer.
#[derive(Clone, Debug)]
pub struct PkgConfigAnswers {
    pub udev: Option<String>,
    pub systemd: Option<String>,
    pub xorg: Option<String>,
}

/// The installation manifest: where the tree is, the layout, the features
/// and the resolved integration directories.
#[derive(Clone, Debug)]
pub struct Manifest {
    pub root: String,
    pub dirs: LogicalDirs,
    pub features: Features,
    pub udev_dir: Option<String>,
    pub systemd_dir: Option<String>,
    pub xorg_dir: Option<String>,
}

/// An optional path by its text.
pub open spec fn opt_view(o: Option<String>) -> Option<Seq<char>> {
    match o {
        Some(p) => Some(p@),
        None => None,
    }
}

impl Manifest {
    /// Checks the layout and resolves the integration directories: udev
    /// rules under `rules.d` of the udev directory (`<prefix>/lib/udev` when
    /// `pkg-config` gives none), the systemd user units
    /// (`<prefix>/lib/systemd/user`) and the X.org configuration snippets
    /// (`<datadir>/X11/xorg.conf.d`).
    pub fn new(
        root: String,
        dirs: LogicalDirs,
        features: Features,
        udev: OptionalDir,
        systemd: OptionalDir,
        xorg: OptionalDir,
        answers: PkgConfigAnswers,
    ) -> (r: Result<Self, TaskError>)
        ensures
            r is Ok <==> validate_spec(dirs@) is None,
            r matches Err(e) ==> e.kind == TaskErrorKind::InvalidInput && Some(e.message@)
                == validate_spec(dirs@),
            r matches Ok(m) ==> {
                &&& m.root == root
                &&& m.dirs == dirs
                &&& m.features == features
                &&& opt_view(m.udev_dir) == optional_dir_resolution(
                    udev,
                    answers.udev,
                    join_spec(dirs.prefix@, "lib/udev"@),
                    Some("rules.d"@),
                )
                &&& opt_view(m.systemd_dir) == optional_dir_resolution(
                    systemd,
                    answers.systemd,
                    join_spec(dirs.prefix@, "lib/systemd/user"@),
                    None,
                )
                &&& opt_view(m.xorg_dir) == optional_dir_resolution(
                    xorg,
                    answers.xorg,
                    join_spec(dirs.datadir@, "X11/xorg.conf.d"@),
                    None,
                )
            },
    {
        match dirs.validate() {
            Err(e) => {
                return Err(e);
            },
            Ok(()) => {},
        }
        let udev_dir = udev.resolve(
            answers.udev,
            join(dirs.prefix.as_str(), "lib/udev"),
            Some("rules.d"),
        );
        let systemd_dir = systemd.resolve(
            answers.systemd,
            join(dirs.prefix.as_str(), "lib/systemd/user"),
            None,
        );
        let xorg_dir = xorg.resolve(answers.xorg, join(dirs.datadir.as_str(), "X11/xorg.conf.d"), None);
        Ok(Manifest { root, dirs, features, udev_dir, systemd_dir, xorg_dir })
    }
}

/// An item's abstract form.
pub open spec fn item(source: SourceView, destination: Seq<char>, mode: u32) -> ItemView {
    ItemView { source, destination, mode }
}

/// A program the build leaves under `<root>/target/<profile>`.
pub open spec fn built_source(m: Manifest, profile: Seq<char>, name: Seq<char>) -> SourceView {
    SourceView::Built(join_spec(join_spec(join_spec(m.root@, "target"@), profile), name))
}

/// A file of the source tree under `<root>`.
pub open spec fn root_source(m: Manifest, path: Seq<char>) -> SourceView {
    SourceView::Root(join_spec(m.root@, path))
}

/// The programs: the daemon and the hardware report always, the terminal
/// viewer with `tui` and the configuration tool with `gui`.
pub open spec fn binary_items(m: Manifest, profile: Seq<char>) -> Seq<ItemView> {
    let bin = m.dirs.bindir@;
    seq![
        item(built_source(m, profile, "wiilandd"@), join_spec(bin, "wiilandd"@), 0o755),
        item(
            built_source(m, profile, "wiilandd-hardware-report"@),
            join_spec(bin, "wiilandd-hardware-report"@),
            0o755,
        ),
    ] + (if m.features.tui {
        seq![item(built_source(m, profile, "xwiishow"@), join_spec(bin, "xwiishow"@), 0o755)]
    } else {
        seq![]
    }) + (if m.features.gui {
        seq![item(built_source(m, profile, "wiiland-config"@), join_spec(bin, "wiiland-config"@), 0o755)]
    } else {
        seq![]
    })
}

/// The configuration file (installed and as an example) and the manual pages.
pub open spec fn config_and_manual_items(m: Manifest) -> Seq<ItemView> {
    let man = m.dirs.mandir@;
    seq![
        item(
            root_source(m, "res/wiilandd.conf"@),
            join_spec(m.dirs.sysconfdir@, "wiiland/wiilandd.conf"@),
            0o644,
        ),
        item(
            root_source(m, "res/wiilandd.conf"@),
            join_spec(m.dirs.docdir@, "examples/wiilandd.conf"@),
            0o644,
        ),
        item(root_source(m, "doc/wiiland.7"@), join_spec(man, "man7/wiiland.7"@), 0o644),
        item(root_source(m, "doc/wiilandd.1"@), join_spec(man, "man1/wiilandd.1"@), 0o644),
    ] + (if m.features.tui {
        seq![item(root_source(m, "doc/xwiishow.1"@), join_spec(man, "man1/xwiishow.1"@), 0o644)]
    } else {
        seq![]
    }) + (if m.features.gui {
        seq![
            item(
                root_source(m, "doc/wiiland-config.1"@),
                join_spec(man, "man1/wiiland-config.1"@),
                0o644,
            ),
        ]
    } else {
        seq![]
    })
}

/// The index of the last `.` in `s[..end]`, or -1.
pub open spec fn last_dot(s: Seq<char>, end: int) -> int
    decreases end,
{
    if end <= 0 {
        -1
    } else if s[end - 1] == '.' {
        end - 1
    } else {
        last_dot(s, end - 1)
    }
}

/// `Path::extension` of a file name: what follows its last `.`, unless the
/// name has no `.` or only a leading one.
pub open spec fn extension_spec(name: Seq<char>) -> Option<Seq<char>> {
    let k = last_dot(name, name.len() as int);
    if k <= 0 {
        None
    } else {
        Some(name.subrange(k + 1, name.len() as int))
    }
}

/// Whether a documentation file is a manual page: its extension is all
/// digits (the manual pages are installed on their own).
pub open spec fn numeric_extension(rel: Seq<char>) -> bool {
    match file_name_spec(rel) {
        Some(n) => match extension_spec(n) {
            Some(e) => all_digits(e),
            None => false,
        },
        None => false,
    }
}

/// The documentation files, in the given order, each under the
/// documentation directory; manual pages are left out.
pub open spec fn doc_items(m: Manifest, rels: Seq<Seq<char>>) -> Seq<ItemView>
    decreases rels.len(),
{
    if rels.len() == 0 {
        seq![]
    } else {
        let prev = doc_items(m, rels.drop_last());
        let rel = rels.last();
        if numeric_extension(rel) {
            prev
        } else {
            prev.push(item(SourceView::Root(join_spec("doc"@, rel)), join_spec(m.dirs.docdir@, rel), 0o644))
        }
    }
}

/// The integration files, with `integrations`, for each integration
/// directory that resolved.
pub open spec fn integration_items(m: Manifest) -> Seq<ItemView> {
    if m.features.integrations {
        (match m.udev_dir {
            Some(d) => seq![
                item(
                    root_source(m, "res/70-udev-wiiland.rules"@),
                    join_spec(d@, "70-udev-wiiland.rules"@),
                    0o644,
                ),
                item(
                    root_source(m, "res/70-wiiland-uinput.rules"@),
                    join_spec(d@, "70-wiiland-uinput.rules"@),
                    0o644,
                ),
            ],
            None => seq![],
        }) + (match m.systemd_dir {
            Some(d) => seq![item(SourceView::GeneratedService, join_spec(d@, "wiilandd.service"@), 0o644)],
            None => seq![],
        }) + (match m.xorg_dir {
            Some(d) => seq![
                item(
                    root_source(m, "res/50-xorg-fix-wiiland.conf"@),
                    join_spec(d@, "50-xorg-fix-wiiland.conf"@),
                    0o644,
                ),
            ],
            None => seq![],
        })
    } else {
        seq![]
    }
}

/// The desktop entry and icon of the configuration tool, with `gui`.
pub open spec fn desktop_items(m: Manifest) -> Seq<ItemView> {
    if m.features.gui {
        seq![
            item(
                root_source(m, "res/io.github.philosophimoonbeam.wiiland-config.desktop"@),
                join_spec(
                    m.dirs.datadir@,
                    "applications/io.github.philosophimoonbeam.wiiland-config.desktop"@,
                ),
                0o644,
            ),
            item(
                root_source(m, "res/io.github.philosophimoonbeam.wiiland.svg"@),
                join_spec(
                    m.dirs.datadir@,
                    "icons/hicolor/scalable/apps/io.github.philosophimoonbeam.wiiland.svg"@,
                ),
                0o644,
            ),
        ]
    } else {
        seq![]
    }
}

/// Everything a manifest installs, with the documentation files `docs` in
/// the order given.
pub open spec fn items_spec(m: Manifest, profile: Seq<char>, docs: Seq<Seq<char>>) -> Seq<ItemView> {
    binary_items(m, profile) + config_and_manual_items(m) + doc_items(m, docs) + integration_items(m)
        + desktop_items(m)
}

/// The abstract items of a vector.
pub open spec fn items_view(v: Seq<Item>) -> Seq<ItemView> {
    v.map_values(|i: Item| i@)
}

fn push_item(items: &mut Vec<Item>, source: ItemSource, destination: String, mode: u32)
    ensures
        items_view(final(items)@) == items_view(old(items)@).push(
            item(source@, destination@, mode),
        ),
{
    let ghost before = items@;
    items.push(Item { source, destination, mode });
    assert(items_view(items@) =~= items_view(before).push(item(source@, destination@, mode)));
}

/// Whether a file name's extension is all digits.
fn has_numeric_extension(rel: &str) -> (r: bool)
    ensures
        r == numeric_extension(rel@),
{
    let name = match file_name(rel) {
        Some(n) => n,
        None => {
            return false;
        },
    };
    let n = name.as_str().unicode_len();
    let mut i: usize = n;
    while i > 0 && name.as_str().get_char(i - 1) != '.'
        invariant
            n == name@.len(),
            i <= n,
            last_dot(name@, n as int) == last_dot(name@, i as int),
        decreases i,
    {
        i = i - 1;
    }
    if i <= 1 {
        return false;
    }
    let ext = name.as_str().substring_char(i, n);
    is_all_digits(ext)
}

impl Manifest {
    fn built(&self, profile: &str, name: &str) -> (r: ItemSource)
        ensures
            r@ == built_source(*self, profile@, name@),
    {
        ItemSource::Built(join(join(join(self.root.as_str(), "target").as_str(), profile).as_str(), name))
    }

    fn from_root(&self, path: &str) -> (r: ItemSource)
        ensures
            r@ == root_source(*self, path@),
    {
        ItemSource::Root(join(self.root.as_str(), path))
    }

    fn push_binaries(&self, items: &mut Vec<Item>, profile: &str)
        ensures
            items_view(final(items)@) == items_view(old(items)@) + binary_items(*self, profile@),
    {
        let ghost start = items_view(items@);
        let bin = self.dirs.bindir.as_str();
        push_item(items, self.built(profile, "wiilandd"), join(bin, "wiilandd"), 0o755);
        push_item(
            items,
            self.built(profile, "wiilandd-hardware-report"),
            join(bin, "wiilandd-hardware-report"),
            0o755,
        );
        let ghost mid = items_view(items@);
        if self.features.tui {
            push_item(items, self.built(profile, "xwiishow"), join(bin, "xwiishow"), 0o755);
        }
        let ghost mid2 = items_view(items@);
        if self.features.gui {
            push_item(items, self.built(profile, "wiiland-config"), join(bin, "wiiland-config"), 0o755);
        }
        assert(items_view(items@) =~= start + binary_items(*self, profile@));
    }

    fn push_config_and_manuals(&self, items: &mut Vec<Item>)
        ensures
            items_view(final(items)@) == items_view(old(items)@) + config_and_manual_items(*self),
    {
        let ghost start = items_view(items@);
        let man = self.dirs.mandir.as_str();
        push_item(
            items,
            self.from_root("res/wiilandd.conf"),
            join(self.dirs.sysconfdir.as_str(), "wiiland/wiilandd.conf"),
            0o644,
        );
        push_item(
            items,
            self.from_root("res/wiilandd.conf"),
            join(self.dirs.docdir.as_str(), "examples/wiilandd.conf"),
            0o644,
        );
        push_item(items, self.from_root("doc/wiiland.7"), join(man, "man7/wiiland.7"), 0o644);
        push_item(items, self.from_root("doc/wiilandd.1"), join(man, "man1/wiilandd.1"), 0o644);
        if self.features.tui {
            push_item(items, self.from_root("doc/xwiishow.1"), join(man, "man1/xwiishow.1"), 0o644);
        }
        if self.features.gui {
            push_item(
                items,
                self.from_root("doc/wiiland-config.1"),
                join(man, "man1/wiiland-config.1"),
                0o644,
            );
        }
        assert(items_view(items@) =~= start + config_and_manual_items(*self));
    }

    fn push_docs(&self, items: &mut Vec<Item>, docs: &Vec<String>)
        ensures
            items_view(final(items)@) == items_view(old(items)@) + doc_items(
                *self,
                docs@.map_values(|s: String| s@),
            ),
    {
        let ghost start = items_view(items@);
        let ghost dv = docs@.map_values(|s: String| s@);
        let mut k: usize = 0;
        assert(dv.subrange(0, 0) =~= Seq::<Seq<char>>::empty());
        assert(items_view(items@) =~= start + doc_items(*self, dv.subrange(0, 0)));
        while k < docs.len()
            invariant
                k <= docs.len(),
                dv == docs@.map_values(|s: String| s@),
                items_view(items@) == start + doc_items(*self, dv.subrange(0, k as int)),
            decreases docs.len() - k,
        {
            let rel = docs[k].as_str();
            assert(dv.subrange(0, k + 1).drop_last() =~= dv.subrange(0, k as int));
            assert(dv.subrange(0, k + 1).last() == rel@);
            if !has_numeric_extension(rel) {
                push_item(
                    items,
                    ItemSource::Root(join("doc", rel)),
                    join(self.dirs.docdir.as_str(), rel),
                    0o644,
                );
            }
            k = k + 1;
        }
        assert(dv.subrange(0, docs.len() as int) =~= dv);
    }

    fn push_integrations(&self, items: &mut Vec<Item>)
        ensures
            items_view(final(items)@) == items_view(old(items)@) + integration_items(*self),
    {
        let ghost start = items_view(items@);
        if self.features.integrations {
            if let Some(dir) = &self.udev_dir {
                push_item(
                    items,
                    self.from_root("res/70-udev-wiiland.rules"),
                    join(dir.as_str(), "70-udev-wiiland.rules"),
                    0o644,
                );
                push_item(
                    items,
                    self.from_root("res/70-wiiland-uinput.rules"),
                    join(dir.as_str(), "70-wiiland-uinput.rules"),
                    0o644,
                );
            }
            let ghost mid = items_view(items@);
            if let Some(dir) = &self.systemd_dir {
                push_item(
                    items,
                    ItemSource::GeneratedService,
                    join(dir.as_str(), "wiilandd.service"),
                    0o644,
                );
            }
            let ghost mid2 = items_view(items@);
            if let Some(dir) = &self.xorg_dir {
                push_item(
                    items,
                    self.from_root("res/50-xorg-fix-wiiland.conf"),
                    join(dir.as_str(), "50-xorg-fix-wiiland.conf"),
                    0o644,
                );
            }
        }
        assert(items_view(items@) =~= start + integration_items(*self));
    }

    fn push_desktop(&self, items: &mut Vec<Item>)
        ensures
            items_view(final(items)@) == items_view(old(items)@) + desktop_items(*self),
    {
        let ghost start = items_view(items@);
        if self.features.gui {
            push_item(
                items,
                self.from_root("res/io.github.philosophimoonbeam.wiiland-config.desktop"),
                join(
                    self.dirs.datadir.as_str(),
                    "applications/io.github.philosophimoonbeam.wiiland-config.desktop",
                ),
                0o644,
            );
            push_item(
                items,
                self.from_root("res/io.github.philosophimoonbeam.wiiland.svg"),
                join(
                    self.dirs.datadir.as_str(),
                    "icons/hicolor/scalable/apps/io.github.philosophimoonbeam.wiiland.svg",
                ),
                0o644,
            );
        }
        assert(items_view(items@) =~= start + desktop_items(*self));
    }

    /// The items to install for a build profile. `docs` holds the files
    /// found under `<root>/doc`, relative to it, in any order; they are
    /// installed in path order.
    pub fn items(&self, profile: &str, docs: &Vec<String>) -> (r: Vec<Item>)
        ensures
            items_view(r@) == items_spec(*self, profile@, path_sort(docs@.map_values(|s: String| s@))),
    {
        let mut items: Vec<Item> = Vec::new();
        assert(items_view(items@) =~= Seq::<ItemView>::empty());
        self.push_binaries(&mut items, profile);
        self.push_config_and_manuals(&mut items);
        let sorted = sort_paths(docs);
        self.push_docs(&mut items, &sorted);
        self.push_integrations(&mut items);
        self.push_desktop(&mut items);
        let ghost sv = sorted@.map_values(|s: String| s@);
        assert(items_view(items@) =~= items_spec(*self, profile@, sv));
        items
    }
}

/// A relative path made of plain names: not empty, no `.` at all, and not
/// starting at the root.
pub open spec fn plain_relative(lit: Seq<char>) -> bool {
    lit.len() > 0 && lit[0] != '/' && forall|k: int| 0 <= k < lit.len() ==> lit[k] != '.'
}

/// Joining plain names to an absolute directory free of `..` gives one too.
pub proof fn lemma_join_plain(a: Seq<char>, lit: Seq<char>)
    requires
        absolute_dir_ok(a),
        plain_relative(lit),
    ensures
        absolute_dir_ok(join_spec(a, lit)),
{
    let r = join_spec(a, lit);
    let ends = a.last() == '/';
    assert(r =~= if ends {
        a + lit
    } else {
        a.push('/') + lit
    });
    assert forall|k: int| 0 <= k < a.len() implies r[k] == a[k] by {}
    assert forall|k: int| a.len() <= k < r.len() implies r[k] != '.' by {
        if ends {
            assert(r[k] == lit[k - a.len()]);
        } else if k == a.len() {
            assert(r[k] == '/');
        } else {
            assert(r[k] == lit[k - a.len() - 1]);
        }
    }
    if has_parent_component_spec(r) {
        let i = choose|i: int|
            0 <= i && i + 2 <= r.len() && #[trigger] r[i] == '.' && r[i + 1] == '.' && (i == 0
                || r[i - 1] == '/') && (i + 2 == r.len() || r[i + 2] == '/');
        assert(i + 1 < a.len());
        assert(a[i] == '.' && a[i + 1] == '.');
        assert(i == 0 || a[i - 1] == '/');
        assert(i + 2 == a.len() || a[i + 2] == '/');
        assert(has_parent_component_spec(a));
    }
}

/// Whether every given directory override is absolute and free of `..`.
pub open spec fn overrides_ok(o: OverridesView) -> bool {
    &&& (o.prefix matches Some(p) ==> absolute_dir_ok(p))
    &&& (o.exec_prefix matches Some(p) ==> absolute_dir_ok(p))
    &&& (o.bindir matches Some(p) ==> absolute_dir_ok(p))
    &&& (o.datadir matches Some(p) ==> absolute_dir_ok(p))
    &&& (o.docdir matches Some(p) ==> absolute_dir_ok(p))
    &&& (o.mandir matches Some(p) ==> absolute_dir_ok(p))
}

/// Every layout resolved from absolute overrides without `..`, leaving
/// `sysconfdir` to its default, passes validation, and its configuration
/// directory is `/etc` whatever the prefix.
pub proof fn lemma_resolved_layout_is_valid(o: OverridesView)
    requires
        overrides_ok(o),
        o.sysconfdir is None,
    ensures
        resolved_dirs(o).sysconfdir == "/etc"@,
        validate_spec(resolved_dirs(o)) is None,
{
    reveal_strlit("/usr/local");
    reveal_strlit("/etc");
    reveal_strlit("share");
    reveal_strlit("bin");
    reveal_strlit("doc/wiiland");
    reveal_strlit("man");
    let d = resolved_dirs(o);
    assert(absolute_dir_ok("/usr/local"@)) by {
        if has_parent_component_spec("/usr/local"@) {
            let i = choose|i: int|
                0 <= i && i + 2 <= "/usr/local"@.len() && #[trigger] "/usr/local"@[i] == '.'
                    && "/usr/local"@[i + 1] == '.' && (i == 0 || "/usr/local"@[i - 1] == '/') && (i
                    + 2 == "/usr/local"@.len() || "/usr/local"@[i + 2] == '/');
        }
    }
    assert(absolute_dir_ok("/etc"@)) by {
        if has_parent_component_spec("/etc"@) {
            let i = choose|i: int|
                0 <= i && i + 2 <= "/etc"@.len() && #[trigger] "/etc"@[i] == '.' && "/etc"@[i + 1]
                    == '.' && (i == 0 || "/etc"@[i - 1] == '/') && (i + 2 == "/etc"@.len()
                    || "/etc"@[i + 2] == '/');
        }
    }
    assert(plain_relative("share"@));
    assert(plain_relative("bin"@));
    assert(plain_relative("doc/wiiland"@));
    assert(plain_relative("man"@));
    lemma_join_plain(d.prefix, "share"@);
    lemma_join_plain(d.exec_prefix, "bin"@);
    lemma_join_plain(d.datadir, "doc/wiiland"@);
    lemma_join_plain(d.datadir, "man"@);
    let entries = seq![
        ("prefix"@, d.prefix),
        ("exec_prefix"@, d.exec_prefix),
        ("bindir"@, d.bindir),
        ("datadir"@, d.datadir),
        ("sysconfdir"@, d.sysconfdir),
        ("docdir"@, d.docdir),
        ("mandir"@, d.mandir),
    ];
    reveal_with_fuel(first_problem, 8);
    assert(entries.drop_first() =~= entries.subrange(1, 7));
    assert(entries.subrange(1, 7).drop_first() =~= entries.subrange(2, 7));
    assert(entries.subrange(2, 7).drop_first() =~= entries.subrange(3, 7));
    assert(entries.subrange(3, 7).drop_first() =~= entries.subrange(4, 7));
    assert(entries.subrange(4, 7).drop_first() =~= entries.subrange(5, 7));
    assert(entries.subrange(5, 7).drop_first() =~= entries.subrange(6, 7));
    assert(entries.subrange(6, 7).drop_first() =~= Seq::<(Seq<char>, Seq<char>)>::empty());
    assert(first_problem(entries) is None);
}

} // verus!
