//! The source archive: which files it takes, in which order, and what an
//! archive must look like to be verified.

use vstd::prelude::*;
use crate::manifest::{TaskError, TaskErrorKind};
use crate::path::{
    is_absolute, is_absolute_spec, has_parent_component, has_parent_component_spec, components,
    components_spec, leading_cur_dir, join, join_spec, path_eq, path_eq_spec,
};
use crate::order::{sort_paths, paths_sorted, path_sort};
use crate::text::{str_eq, ends_with, seq_ends_with, has_char, seq_has_char};

verus! {

/// The single top-level directory of the archive.
pub const ROOT: &'static str = "wiiland-2";

/// The mode of every directory in the staged tree.
pub const DIRECTORY_MODE: u32 = 0o755;

/// The top-level directories the archive takes whole.
pub const SOURCE_DIRS: [&'static str; 7] = [".cargo", ".github", ".omp", "crates", "doc", "res", "xtask"];

/// The individual files the archive requires.
pub const SOURCE_FILES: [&'static str; 10] = [
    ".gitignore",
    "Cargo.lock",
    "Cargo.toml",
    "COPYING",
    "DEV",
    "LICENSE",
    "README.md",
    "lib/xwiimote.h",
    "libxwiimote.sym",
    "rust-toolchain.toml",
];

/// The script placed at the archive's root: it checks and tests the
/// extracted tree, then builds it with every feature.
pub const VERIFICATION_SCRIPT: &'static str = "#!/bin/sh\nset -eu\nroot=$(CDPATH= cd -- \"$(dirname -- \"$0\")\" && pwd)\ncd \"$root\"\nif command -v cargo >/dev/null 2>&1; then\n    cargo check --workspace --all-targets --all-features --locked\n    cargo test --workspace --all-targets --all-features --locked\n    exec cargo xtask build --release --features gui,tui,integrations\nfi\nprintf '%s\\n' 'cargo is required to verify this source archive' >&2\nexit 127\n";

/// The verification script of the archive.
pub fn verification_script() -> (r: &'static str)
    ensures
        r == VERIFICATION_SCRIPT,
{
    VERIFICATION_SCRIPT
}

/// Whether a directory entry is left out of the archive: version-control,
/// build and cache directories, archives, temporary and backup files.
pub open spec fn skipped_name_spec(name: Seq<char>) -> bool {
    name == ".git"@ || name == ".hg"@ || name == ".svn"@ || name == "target"@ || name
        == "autom4te.cache"@ || name == ".deps"@ || name == ".libs"@ || name == "__pycache__"@
        || seq_ends_with(name, ".tar"@) || seq_ends_with(name, ".tar.gz"@) || seq_ends_with(
        name,
        ".tar.xz"@,
    ) || seq_ends_with(name, ".tar.bz2"@) || seq_ends_with(name, ".tar.zst"@) || seq_ends_with(
        name,
        ".tgz"@,
    ) || seq_ends_with(name, ".tbz2"@) || seq_ends_with(name, ".txz"@) || seq_ends_with(
        name,
        ".zip"@,
    ) || seq_ends_with(name, ".crate"@) || seq_ends_with(name, ".tmp"@) || seq_ends_with(
        name,
        "~"@,
    )
}

/// Whether the walk of the source tree skips an entry of this name.
pub fn skipped_name(name: &str) -> (r: bool)
    ensures
        r == skipped_name_spec(name@),
{
    str_eq(name, ".git") || str_eq(name, ".hg") || str_eq(name, ".svn") || str_eq(name, "target")
        || str_eq(name, "autom4te.cache") || str_eq(name, ".deps") || str_eq(name, ".libs")
        || str_eq(name, "__pycache__") || ends_with(name, ".tar") || ends_with(name, ".tar.gz")
        || ends_with(name, ".tar.xz") || ends_with(name, ".tar.bz2") || ends_with(name, ".tar.zst")
        || ends_with(name, ".tgz") || ends_with(name, ".tbz2") || ends_with(name, ".txz")
        || ends_with(name, ".zip") || ends_with(name, ".crate") || ends_with(name, ".tmp")
        || ends_with(name, "~")
}

/// The required files, as text.
pub open spec fn source_files_view() -> Seq<Seq<char>> {
    seq![
        ".gitignore"@,
        "Cargo.lock"@,
        "Cargo.toml"@,
        "COPYING"@,
        "DEV"@,
        "LICENSE"@,
        "README.md"@,
        "lib/xwiimote.h"@,
        "libxwiimote.sym"@,
        "rust-toolchain.toml"@,
    ]
}

/// The first required file that the archive output would overwrite.
pub open spec fn overlapping_file(source: Seq<char>, excluded: Seq<char>, files: Seq<Seq<char>>) -> Option<
    Seq<char>,
>
    decreases files.len(),
{
    if files.len() == 0 {
        None
    } else if path_eq_spec(join_spec(source, files[0]), excluded) {
        Some(files[0])
    } else {
        overlapping_file(source, excluded, files.drop_first())
    }
}

/// The archive's file list: the files the walk of the source directories
/// found (relative to `source`) and the required files, in path order; an
/// error when the output `excluded` is one of the required files.
pub fn source_list(collected: &Vec<String>, source: &str, excluded: &str) -> (r: Result<Vec<String>, TaskError>)
    ensures
        match overlapping_file(source@, excluded@, source_files_view()) {
            Some(f) => r matches Err(e) && e.kind == TaskErrorKind::InvalidInput && e.message@
                == "archive output overlaps required source: "@ + f,
            None => r matches Ok(files) && files@.map_values(|s: String| s@) == path_sort(
                collected@.map_values(|s: String| s@) + source_files_view(),
            ) && files@.map_values(|s: String| s@).to_multiset() == (collected@.map_values(
                |s: String| s@,
            ) + source_files_view()).to_multiset() && paths_sorted(files@.map_values(|s: String| s@)),
        },
{
    let mut all: Vec<String> = collected.clone();
    let ghost cv = collected@.map_values(|s: String| s@);
    assert(all@.map_values(|s: String| s@) == cv);
    let required = SOURCE_FILES;
    let mut i: usize = 0;
    assert(source_files_view().subrange(0, 0) =~= Seq::<Seq<char>>::empty());
    assert(cv + source_files_view().subrange(0, 0) =~= cv);
    assert(required@.map_values(|f: &'static str| f@) =~= source_files_view());
    assert(source_files_view().skip(0) =~= source_files_view());
    while i < 10
        invariant
            i <= 10,
            required@.map_values(|f: &'static str| f@) == source_files_view(),
            cv == collected@.map_values(|s: String| s@),
            all@.map_values(|s: String| s@) == cv + source_files_view().subrange(0, i as int),
            overlapping_file(source@, excluded@, source_files_view()) == overlapping_file(
                source@,
                excluded@,
                source_files_view().skip(i as int),
            ),
        decreases 10 - i,
    {
        let file = required[i];
        assert(file@ == source_files_view()[i as int]);
        assert(source_files_view().skip(i as int)[0] == file@);
        if path_eq(join(source, file).as_str(), excluded) {
            let mut m = String::from_str("archive output overlaps required source: ");
            m.append(file);
            return Err(TaskError::invalid(m));
        }
        assert(source_files_view().skip(i as int).drop_first() =~= source_files_view().skip(i + 1));
        let ghost before = all@.map_values(|s: String| s@);
        all.push(String::from_str(file));
        assert(source_files_view().subrange(0, i + 1) =~= source_files_view().subrange(0, i as int).push(file@));
        assert(all@.map_values(|s: String| s@) =~= before.push(file@));
        i = i + 1;
    }
    assert(source_files_view().subrange(0, 10) =~= source_files_view());
    assert(source_files_view().skip(10) =~= Seq::<Seq<char>>::empty());
    Ok(sort_paths(&all))
}

/// Rust's `Debug` text of a string: quoted, with quotes, backslashes and
/// unprintable characters escaped.
pub uninterp spec fn debug_quoted(s: Seq<char>) -> Seq<char>;

/// `format!("{:?}", s)`: the `Debug` text of a string slice.
#[verifier::external_body]
fn debug_text(s: &str) -> (r: String)
    ensures
        r@ == debug_quoted(s@),
{
    format!("{s:?}")
}

/// Whether an archive entry name is safe to extract: not empty, relative,
/// without NUL and without `..`.
pub open spec fn safe_entry(name: Seq<char>) -> bool {
    name.len() > 0 && !is_absolute_spec(name) && !seq_has_char(name, '\0') && !has_parent_component_spec(name)
}

/// Whether an archive entry lies under the archive root: its first
/// component is `wiiland-2`.
pub open spec fn under_root(name: Seq<char>) -> bool {
    !leading_cur_dir(name) && components_spec(name).len() > 0 && components_spec(name)[0] == ROOT@
}

/// The first problem of an archive listing: an unsafe entry (shown as its
/// `Debug` text), an entry outside the root, or an empty listing.
pub open spec fn names_problem(names: Seq<Seq<char>>) -> Option<Seq<char>>
    decreases names.len(),
{
    if names.len() == 0 {
        None
    } else if !safe_entry(names[0]) {
        Some("unsafe archive entry: "@ + debug_quoted(names[0]))
    } else if !under_root(names[0]) {
        Some("archive must contain exactly one wiiland-2 root"@)
    } else {
        names_problem(names.drop_first())
    }
}

/// Checks an archive listing: every entry safe and under the one root.
pub fn validate_names(names: &Vec<String>) -> (r: Result<(), TaskError>)
    ensures
        match names_problem(names@.map_values(|s: String| s@)) {
            Some(m) => r matches Err(e) && e.kind == TaskErrorKind::InvalidData && e.message@ == m,
            None => if names@.len() == 0 {
                r matches Err(e) && e.kind == TaskErrorKind::InvalidData && e.message@
                    == "archive has more than one root"@
            } else {
                r is Ok
            },
        },
{
    let ghost nv = names@.map_values(|s: String| s@);
    let mut i: usize = 0;
    assert(nv.skip(0) =~= nv);
    while i < names.len()
        invariant
            i <= names.len(),
            nv == names@.map_values(|s: String| s@),
            names_problem(nv) == names_problem(nv.skip(i as int)),
        decreases names.len() - i,
    {
        let name = names[i].as_str();
        assert(nv.skip(i as int)[0] == name@);
        assert(nv.skip(i as int).drop_first() =~= nv.skip(i + 1));
        if name.unicode_len() == 0 || is_absolute(name) || has_char(name, '\0') || has_parent_component(name) {
            let mut m = String::from_str("unsafe archive entry: ");
            let q = debug_text(name);
            m.append(q.as_str());
            return Err(TaskError { kind: TaskErrorKind::InvalidData, message: m });
        }
        let n = name.unicode_len();
        let lead = name.get_char(0) == '.' && (n == 1 || name.get_char(1) == '/');
        let c = components(name);
        let ghost cv = c@.map_values(|s: String| s@);
        let rooted = !lead && c.len() > 0 && str_eq(c[0].as_str(), ROOT);
        if !rooted {
            return Err(
                TaskError {
                    kind: TaskErrorKind::InvalidData,
                    message: String::from_str("archive must contain exactly one wiiland-2 root"),
                },
            );
        }
        i = i + 1;
    }
    if names.len() == 0 {
        return Err(
            TaskError {
                kind: TaskErrorKind::InvalidData,
                message: String::from_str("archive has more than one root"),
            },
        );
    }
    Ok(())
}

/// The archive's verification entry point.
pub const ENTRYPOINT: &'static str = "wiiland-2/verify-dist.sh";

/// Checks an archive listing before extraction: valid names (see
/// `validate_names`), and the verification script present.
pub fn check_archive_names(names: &Vec<String>) -> (r: Result<(), TaskError>)
    ensures
        match names_problem(names@.map_values(|s: String| s@)) {
            Some(m) => r matches Err(e) && e.kind == TaskErrorKind::InvalidData && e.message@ == m,
            None => if names@.len() == 0 {
                r matches Err(e) && e.message@ == "archive has more than one root"@
            } else if names@.map_values(|s: String| s@).contains(ENTRYPOINT@) {
                r is Ok
            } else {
                r matches Err(e) && e.kind == TaskErrorKind::InvalidData && e.message@
                    == "archive lacks verification entrypoint"@
            },
        },
{
    match validate_names(names) {
        Err(e) => {
            return Err(e);
        },
        Ok(()) => {},
    }
    let ghost nv = names@.map_values(|s: String| s@);
    let mut i: usize = 0;
    while i < names.len()
        invariant
            i <= names.len(),
            nv == names@.map_values(|s: String| s@),
            names_problem(nv) is None,
            names@.len() > 0,
            forall|j: int| 0 <= j < i ==> nv[j] != ENTRYPOINT@,
        decreases names.len() - i,
    {
        if str_eq(names[i].as_str(), ENTRYPOINT) {
            assert(nv[i as int] == ENTRYPOINT@);
            return Ok(());
        }
        i = i + 1;
    }
    assert(!nv.contains(ENTRYPOINT@)) by {
        if nv.contains(ENTRYPOINT@) {
            let j = choose|j: int| 0 <= j < nv.len() && nv[j] == ENTRYPOINT@;
            assert(nv[j] != ENTRYPOINT@);
        }
    }
    Err(
        TaskError {
            kind: TaskErrorKind::InvalidData,
            message: String::from_str("archive lacks verification entrypoint"),
        },
    )
}

} // verus!
