use wiiland::dist::{
    check_archive_names, skipped_name, source_list, validate_names, verification_script,
    SOURCE_DIRS, SOURCE_FILES,
};
use wiiland::manifest::TaskErrorKind;

#[test]
fn archive_names_require_one_safe_wiiland_root() {
    let valid = [
        "wiiland-2/",
        "wiiland-2/.omp/config.json",
        "wiiland-2/lib/xwiimote.h",
    ]
    .map(str::to_owned)
    .to_vec();
    assert!(validate_names(&valid).is_ok());

    for invalid in [
        Vec::new(),
        vec!["other-root/file".to_owned()],
        vec!["wiiland-2/file".to_owned(), "other-root/file".to_owned()],
        vec!["wiiland-2/../outside".to_owned()],
        vec!["../wiiland-2/file".to_owned()],
        vec!["/wiiland-2/file".to_owned()],
        vec!["".to_owned()],
    ] {
        assert!(
            validate_names(&invalid).is_err(),
            "accepted unsafe archive names: {invalid:?}"
        );
    }
}

#[test]
fn verification_script_checks_tests_then_builds_the_extracted_tree() {
    let script = verification_script();
    let lines: Vec<_> = script.lines().collect();
    let check = "    cargo check --workspace --all-targets --all-features --locked";
    let test = "    cargo test --workspace --all-targets --all-features --locked";
    let build = "    exec cargo xtask build --release --features gui,tui,integrations";
    let check_index = lines.iter().position(|line| *line == check).unwrap();
    let test_index = lines.iter().position(|line| *line == test).unwrap();
    let build_index = lines.iter().position(|line| *line == build).unwrap();

    assert_eq!(&lines[..2], ["#!/bin/sh", "set -eu"]);
    assert!(check_index < test_index);
    assert!(test_index < build_index);
    assert!(lines.contains(&"if command -v cargo >/dev/null 2>&1; then"));
    assert!(
        lines.contains(&"printf '%s\\n' 'cargo is required to verify this source archive' >&2")
    );
    assert_eq!(lines.last(), Some(&"exit 127"));
}

#[test]
fn unsafe_entries_are_shown_quoted() {
    let e = validate_names(&vec!["a\"b/../c".to_owned()]).unwrap_err();
    assert_eq!(e.kind(), TaskErrorKind::InvalidData);
    assert_eq!(e.to_text(), "unsafe archive entry: \"a\\\"b/../c\"");
    assert_eq!(
        validate_names(&vec!["other/x".to_owned()]).unwrap_err().to_text(),
        "archive must contain exactly one wiiland-2 root"
    );
    assert_eq!(validate_names(&Vec::new()).unwrap_err().to_text(), "archive has more than one root");
}

#[test]
fn archives_need_the_verification_entrypoint() {
    let without = vec!["wiiland-2/README.md".to_owned()];
    assert_eq!(
        check_archive_names(&without).unwrap_err().to_text(),
        "archive lacks verification entrypoint"
    );
    let with = vec!["wiiland-2/README.md".to_owned(), "wiiland-2/verify-dist.sh".to_owned()];
    assert!(check_archive_names(&with).is_ok());
}

#[test]
fn collection_lists_are_sorted_and_keep_required_files() {
    let collected = vec![".omp/z-last".to_owned(), ".omp/a-first".to_owned(), "res/kept.txt".to_owned()];
    let files = source_list(&collected, "/src", "/out/archive.tar.xz").unwrap();
    let mut expected: Vec<String> = collected.clone();
    expected.extend(SOURCE_FILES.iter().map(|f| f.to_string()));
    expected.sort_by(|a, b| std::path::Path::new(a).cmp(std::path::Path::new(b)));
    assert_eq!(files, expected);
    assert!(files.contains(&"lib/xwiimote.h".to_owned()));
    let overlap = source_list(&collected, "/src", "/src/README.md").unwrap_err();
    assert_eq!(overlap.to_text(), "archive output overlaps required source: README.md");
    assert_eq!(SOURCE_DIRS.len(), 7);
}

#[test]
fn debris_and_build_output_are_skipped() {
    for name in [".git", "target", "__pycache__", "x.tar.gz", "a.crate", "notes~", "y.tmp"] {
        assert!(skipped_name(name), "{name}");
    }
    for name in ["src", "README.md", "tar", "x.tarball"] {
        assert!(!skipped_name(name), "{name}");
    }
}
