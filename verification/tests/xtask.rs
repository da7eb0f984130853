use wiiland::install::{
    entry_matches, stale_removals, uninstall_plan, EntryFacts,
    add_owned_dir, dir_record, file_record, hash_bytes, hash_text, link_expected, marker_path,
    marker_text, parse_records, safe_record_path, staged, stale_files, InstallOptions,
    OwnershipRecord, service_unit, removal_order,
};
use wiiland::manifest::{
    Features, Item, ItemSource, LogicalDirOverrides, LogicalDirs, Manifest, OptionalDir,
    PkgConfigAnswers, TaskErrorKind,
};
use wiiland::task::{
    build_packages, cargo_build_args, cargo_check_args, parse, parse_features, Command,
    BASE_BUILD_PACKAGES,
};

fn args(values: &[&str]) -> Vec<String> {
    values.iter().map(|value| (*value).to_owned()).collect()
}

fn parsed_dirs(values: &[&str]) -> LogicalDirs {
    match parse(&args(values)).unwrap() {
        Command::Install { dirs, .. } | Command::Uninstall { dirs, .. } => dirs,
        _ => panic!("expected install or uninstall command"),
    }
}

#[test]
fn install_parse_keeps_canonical_runtime_sysconfdir() {
    let command = parse(&args(&["install", "--prefix", "/opt/wiiland"])).unwrap();

    let Command::Install { dirs, .. } = command else {
        panic!("expected install command");
    };
    assert_eq!(dirs.sysconfdir, "/etc");
}

#[test]
fn install_parse_rejects_relocated_sysconfdir() {
    let error = parse(&args(&["install", "--sysconfdir", "/opt/wiiland/etc"])).unwrap_err();

    assert_eq!(error.kind(), TaskErrorKind::InvalidInput);
    assert!(error.to_text().contains("sysconfdir must be /etc"));
}

#[test]
fn logical_directory_overrides_are_independent_of_argument_order() {
    for command in ["install", "uninstall"] {
        let prefix_before_exec = parsed_dirs(&[
            command,
            "--prefix",
            "/opt/wiiland",
            "--exec-prefix",
            "/opt/wiiland/host",
        ]);
        let exec_before_prefix = parsed_dirs(&[
            command,
            "--exec-prefix",
            "/opt/wiiland/host",
            "--prefix",
            "/opt/wiiland",
        ]);
        assert_eq!(prefix_before_exec, exec_before_prefix);
        assert_eq!(prefix_before_exec.bindir, "/opt/wiiland/host/bin");
        assert_eq!(prefix_before_exec.datadir, "/opt/wiiland/share");
        assert_eq!(prefix_before_exec.sysconfdir, "/etc");
    }
}

#[test]
fn build_features_select_only_requested_optional_packages() {
    let command = parse(&args(&["build", "--features", "gui"])).unwrap();
    let Command::Build { features, .. } = command else {
        panic!("expected build command");
    };

    assert_eq!(
        build_packages(features),
        vec![
            "wiiland-ipc",
            "wiiland-hid",
            "wiilandd",
            "wiiland-dump",
            "wiiland-config"
        ]
    );
    assert_eq!(
        build_packages(Features {
            integrations: true,
            ..Features::default()
        }),
        BASE_BUILD_PACKAGES
    );
}

#[test]
fn build_all_features_selects_both_optional_surfaces() {
    let command = parse(&args(&["build", "--all-features"])).unwrap();
    let Command::Build { features, .. } = command else {
        panic!("expected build command");
    };

    assert_eq!(
        build_packages(features),
        vec![
            "wiiland-ipc",
            "wiiland-hid",
            "wiilandd",
            "wiiland-dump",
            "wiiland-config",
            "wiiland-show"
        ]
    );
}

#[test]
fn logical_dirs_keep_runtime_sysconfdir_when_prefix_changes() {
    let dirs = LogicalDirOverrides {
        prefix: Some("/opt/wiiland".to_owned()),
        ..LogicalDirOverrides::default()
    }
    .resolve();

    assert_eq!(dirs.sysconfdir, "/etc");
    dirs.validate().unwrap();
}

#[test]
fn logical_dirs_reject_relocated_sysconfdir() {
    let dirs = LogicalDirs {
        sysconfdir: "/opt/wiiland/etc".to_owned(),
        ..LogicalDirs::default()
    };

    let error = dirs.validate().unwrap_err();

    assert_eq!(error.kind(), TaskErrorKind::InvalidInput);
    assert!(error.to_text().contains("sysconfdir must be /etc"));
}

#[test]
fn safe_record_path_rejects_unstaged_and_traversing_paths() {
    assert_eq!(
        safe_record_path("/opt/wiiland/bin/wiilandd"),
        Some("/opt/wiiland/bin/wiilandd".to_owned())
    );
    assert_eq!(safe_record_path("opt/wiiland/bin/wiilandd"), None);
    assert_eq!(safe_record_path("../opt/wiiland/bin/wiilandd"), None);
    assert_eq!(safe_record_path("/opt/wiiland/../foreign"), None);
    assert_eq!(safe_record_path(""), None);
}

#[test]
fn default_layout_is_under_usr_local() {
    let d = LogicalDirs::default();
    assert_eq!(d.prefix, "/usr/local");
    assert_eq!(d.exec_prefix, "/usr/local");
    assert_eq!(d.bindir, "/usr/local/bin");
    assert_eq!(d.datadir, "/usr/local/share");
    assert_eq!(d.sysconfdir, "/etc");
    assert_eq!(d.docdir, "/usr/local/share/doc/wiiland");
    assert_eq!(d.mandir, "/usr/local/share/man");
    assert_eq!(LogicalDirOverrides::default().resolve(), d);
}

#[test]
fn relative_and_traversing_directories_are_rejected() {
    let rel = LogicalDirs { bindir: "bin".to_owned(), ..LogicalDirs::default() };
    assert_eq!(rel.validate().unwrap_err().to_text(), "bindir must be absolute: bin");
    let up = LogicalDirs { docdir: "/usr/../doc".to_owned(), ..LogicalDirs::default() };
    assert_eq!(up.validate().unwrap_err().to_text(), "docdir contains '..'");
    let same = LogicalDirs { sysconfdir: "/etc/".to_owned(), ..LogicalDirs::default() };
    assert!(same.validate().is_ok());
}

#[test]
fn optional_directories_parse_and_resolve() {
    assert_eq!(OptionalDir::parse("auto").unwrap(), OptionalDir::Auto);
    assert_eq!(OptionalDir::parse("no").unwrap(), OptionalDir::No);
    assert_eq!(OptionalDir::parse("/x/y").unwrap(), OptionalDir::Absolute("/x/y".to_owned()));
    assert_eq!(
        OptionalDir::parse("x").unwrap_err().to_text(),
        "expected auto, no, or an absolute path: x"
    );
    assert_eq!(OptionalDir::No.resolve(Some("/q".to_owned()), "/f".to_owned(), None), None);
    assert_eq!(
        OptionalDir::Auto.resolve(Some("/usr/lib/udev".to_owned()), "/f".to_owned(), Some("rules.d")).as_deref(),
        Some("/usr/lib/udev/rules.d")
    );
    assert_eq!(
        OptionalDir::Auto.resolve(None, "/f/rules.d".to_owned(), Some("rules.d")).as_deref(),
        Some("/f/rules.d")
    );
    assert_eq!(
        OptionalDir::Absolute("/a".to_owned()).resolve(None, "/f".to_owned(), None).as_deref(),
        Some("/a")
    );
}

fn test_manifest(features: Features) -> Manifest {
    let dirs = LogicalDirOverrides { prefix: Some("/opt/wiiland".to_owned()), ..LogicalDirOverrides::default() }.resolve();
    Manifest::new(
        "/src".to_owned(),
        dirs,
        features,
        OptionalDir::Auto,
        OptionalDir::No,
        OptionalDir::Absolute("/etc/X11/xorg.conf.d".to_owned()),
        PkgConfigAnswers { udev: None, systemd: Some("/ignored".to_owned()), xorg: None },
    )
    .unwrap()
}

#[test]
fn manifest_resolves_integration_directories() {
    let m = test_manifest(Features::default());
    assert_eq!(m.udev_dir.as_deref(), Some("/opt/wiiland/lib/udev/rules.d"));
    assert_eq!(m.systemd_dir, None);
    assert_eq!(m.xorg_dir.as_deref(), Some("/etc/X11/xorg.conf.d"));
}

fn destinations(items: &[Item]) -> Vec<String> {
    items.iter().map(|i| i.destination.clone()).collect()
}

#[test]
fn manifest_items_follow_the_features() {
    let m = test_manifest(Features::default());
    let docs = vec!["wiiland.7".to_owned(), "guide/b.md".to_owned(), "a.md".to_owned(), "x.".to_owned()];
    let items = m.items("release", &docs);
    assert_eq!(
        destinations(&items),
        vec![
            "/opt/wiiland/bin/wiilandd",
            "/opt/wiiland/bin/wiilandd-hardware-report",
            "/etc/wiiland/wiilandd.conf",
            "/opt/wiiland/share/doc/wiiland/examples/wiilandd.conf",
            "/opt/wiiland/share/man/man7/wiiland.7",
            "/opt/wiiland/share/man/man1/wiilandd.1",
            "/opt/wiiland/share/doc/wiiland/a.md",
            "/opt/wiiland/share/doc/wiiland/guide/b.md",
        ]
    );
    match &items[0].source {
        ItemSource::Built(p) => assert_eq!(p, "/src/target/release/wiilandd"),
        _ => panic!("expected a built program"),
    }
    match &items[6].source {
        ItemSource::Root(p) => assert_eq!(p, "doc/a.md"),
        _ => panic!("expected a tree file"),
    }
    assert_eq!((items[0].mode, items[2].mode), (0o755, 0o644));

    let all = Manifest {
        features: Features { gui: true, tui: true, integrations: true },
        ..test_manifest(Features::default())
    };
    let items = all.items("debug", &Vec::new());
    let d = destinations(&items);
    assert!(d.contains(&"/opt/wiiland/bin/xwiishow".to_owned()));
    assert!(d.contains(&"/opt/wiiland/bin/wiiland-config".to_owned()));
    assert!(d.contains(&"/opt/wiiland/lib/udev/rules.d/70-udev-wiiland.rules".to_owned()));
    assert!(d.contains(&"/etc/X11/xorg.conf.d/50-xorg-fix-wiiland.conf".to_owned()));
    assert_eq!(
        d.last().map(String::as_str),
        Some("/opt/wiiland/share/icons/hicolor/scalable/apps/io.github.philosophimoonbeam.wiiland.svg")
    );
}

#[test]
fn features_lists_and_unknown_entries() {
    let f = parse_features("gui,,default,tui").unwrap();
    assert!(f.gui && f.tui && !f.integrations);
    assert_eq!(parse_features("gui,fast").unwrap_err().to_text(), "unknown feature: fast");
    assert_eq!(parse_features("").unwrap(), Features::default());
}

#[test]
fn task_command_lines() {
    assert!(matches!(parse(&args(&["docs"])).unwrap(), Command::Docs));
    match parse(&args(&["dist"])).unwrap() {
        Command::Dist { output } => assert_eq!(output, "wiiland-2.tar.xz"),
        _ => panic!("expected dist"),
    }
    match parse(&args(&["dist", "--output", "/tmp/a.tar.xz"])).unwrap() {
        Command::Dist { output } => assert_eq!(output, "/tmp/a.tar.xz"),
        _ => panic!("expected dist"),
    }
    assert_eq!(parse(&args(&["dist", "x"])).unwrap_err().to_text(), "dist accepts only --output PATH");
    match parse(&args(&["verify-dist", "a.tar.xz"])).unwrap() {
        Command::VerifyDist { archive } => assert_eq!(archive, "a.tar.xz"),
        _ => panic!("expected verify-dist"),
    }
    assert_eq!(
        parse(&args(&["verify-dist", "a", "b"])).unwrap_err().to_text(),
        "verify-dist accepts one archive path"
    );
    assert!(parse(&args(&[])).unwrap_err().to_text().starts_with("usage: cargo xtask"));
    assert!(parse(&args(&["frobnicate"])).unwrap_err().to_text().starts_with("usage: cargo xtask"));
    assert_eq!(parse(&args(&["build", "--bogus"])).unwrap_err().to_text(), "unknown option --bogus");
    assert_eq!(parse(&args(&["build", "--features"])).unwrap_err().to_text(), "--features requires a value");
    match parse(&args(&["check", "--all-features", "--release"])).unwrap() {
        Command::Check { all_features } => assert!(all_features),
        _ => panic!("expected check"),
    }
    match parse(&args(&["install", "--destdir", "/stage", "--debug", "--with-udev-rules-dir", "no"])).unwrap() {
        Command::Install { options, features, udev, systemd, .. } => {
            assert_eq!(options.destdir, "/stage");
            assert_eq!(options.profile, "debug");
            assert!(features.integrations && !features.gui);
            assert_eq!(udev, OptionalDir::No);
            assert_eq!(systemd, OptionalDir::Auto);
        }
        _ => panic!("expected install"),
    }
    assert_eq!(
        parse(&args(&["install", "--with-xorg-conf-dir", "rel"])).unwrap_err().to_text(),
        "expected auto, no, or an absolute path: rel"
    );
    match parse(&args(&["uninstall", "--destdir", "/stage"])).unwrap() {
        Command::Uninstall { destdir, dirs } => {
            assert_eq!(destdir, "/stage");
            assert_eq!(dirs, LogicalDirs::default());
        }
        _ => panic!("expected uninstall"),
    }
    assert_eq!(parse(&args(&["uninstall", "--debug"])).unwrap_err().to_text(), "unknown option --debug");
}

#[test]
fn staging_keeps_logical_paths_under_the_destination() {
    assert_eq!(staged("", "/etc/wiiland/wiilandd.conf"), "/etc/wiiland/wiilandd.conf");
    assert_eq!(staged("/stage", "/etc/wiiland/wiilandd.conf"), "/stage/etc/wiiland/wiilandd.conf");
    assert_eq!(staged("/stage/", "//opt/./x/"), "/stage/opt/./x");
    assert_eq!(staged("/stage", "rel/x"), "/stage/rel/x");
    let m = test_manifest(Features::default());
    assert_eq!(marker_path(&m, "/stage"), "/stage/etc/wiiland/.xtask-install");
    let o = InstallOptions::default();
    assert_eq!((o.destdir.as_str(), o.profile.as_str()), ("", "release"));
}

#[test]
fn content_hashes_are_fnv1a() {
    assert_eq!(hash_bytes(b""), 0xcbf29ce484222325);
    assert_eq!(hash_bytes(b"a"), 0xaf63dc4c8601ec8c);
    assert_eq!(hash_text(hash_bytes(b"a")), "af63dc4c8601ec8c");
    assert_eq!(hash_text(0x1f), "000000000000001f");
}

#[test]
fn ownership_records_round_trip_through_the_marker() {
    let text = "dir\t/opt\nfile\t/opt/x\tabc\n/opt/y\tlink:z\r\nbogus\ndir\trelative\nfile\t/a/../b\t1\n";
    let records = parse_records(text);
    assert_eq!(
        records,
        vec![
            OwnershipRecord::Directory("/opt".to_owned()),
            OwnershipRecord::File { logical: "/opt/x".to_owned(), expected: "abc".to_owned() },
            OwnershipRecord::File { logical: "/opt/y".to_owned(), expected: "link:z".to_owned() },
        ]
    );
    let lines = vec![
        file_record("/opt/wiiland/bin/wiilandd", "0123"),
        dir_record("/opt"),
        file_record("/opt/wiiland/bin/wiiland", &link_expected("wiilandd")),
        dir_record("/"),
    ];
    assert_eq!(
        marker_text(&lines),
        "dir\t/\ndir\t/opt\nfile\t/opt/wiiland/bin/wiiland\tlink:wiilandd\nfile\t/opt/wiiland/bin/wiilandd\t0123\n"
    );
}

#[test]
fn stale_files_and_owned_directories() {
    let items = vec![Item {
        source: ItemSource::GeneratedService,
        destination: "/opt/wiiland/bin/selected".to_owned(),
        mode: 0o755,
    }];
    let prior = vec![
        ("/opt/wiiland/bin/selected/".to_owned(), "1".to_owned()),
        ("/opt/wiiland/bin/stale".to_owned(), "2".to_owned()),
    ];
    assert_eq!(stale_files(&prior, &items), vec![("/opt/wiiland/bin/stale".to_owned(), "2".to_owned())]);
    let mut dirs = Vec::new();
    assert!(add_owned_dir(&mut dirs, "/opt".to_owned()));
    assert!(!add_owned_dir(&mut dirs, "//opt/".to_owned()));
    assert!(add_owned_dir(&mut dirs, "/opt/wiiland".to_owned()));
    assert_eq!(dirs, vec!["/opt", "/opt/wiiland"]);
}

#[test]
fn generated_service_uses_only_logical_paths() {
    let dirs = LogicalDirOverrides { prefix: Some("/opt/wiiland".to_owned()), ..LogicalDirOverrides::default() }.resolve();
    let service = service_unit(&dirs.bindir);
    assert_eq!(
        service,
        "[Unit]\n\
         Description=WiiLand input bridge\n\
         Documentation=man:wiilandd(1)\n\
         \n\
         [Service]\n\
         Type=simple\n\
         NoNewPrivileges=yes\n\
         LockPersonality=yes\n\
         MemoryDenyWriteExecute=yes\n\
         RestrictRealtime=yes\n\
         RestrictSUIDSGID=yes\n\
         SystemCallArchitectures=native\n\
         UMask=0077\n\
         ExecCondition=/opt/wiiland/bin/wiilandd --check-config\n\
         ExecStart=/opt/wiiland/bin/wiilandd\n\
         Restart=on-failure\n\
         RestartSec=2s\n\
         \n\
         [Install]\n\
         WantedBy=default.target\n"
    );
    assert!(!service.contains("/stage"));
}

#[test]
fn created_directories_are_removed_deepest_first() {
    let dirs: Vec<String> = ["/", "/etc", "/opt/wiiland/bin", "/opt", "/etc/wiiland", "/etc/wiiland/", "/opt/wiiland"]
        .iter()
        .map(|d| d.to_string())
        .collect();
    assert_eq!(
        removal_order(&dirs),
        vec!["/opt/wiiland/bin", "/etc/wiiland", "/opt/wiiland", "/etc", "/opt", "/"]
    );
}

#[test]
fn cargo_invocations_of_build_and_check() {
    let features = parse_features("tui").unwrap();
    assert_eq!(
        cargo_build_args(true, features),
        vec![
            "build",
            "--package",
            "wiiland-ipc",
            "--package",
            "wiiland-hid",
            "--package",
            "wiilandd",
            "--package",
            "wiiland-dump",
            "--package",
            "wiiland-show",
            "--release",
        ]
    );
    let plain = cargo_build_args(false, parse_features("").unwrap());
    assert_eq!(plain.len(), 9);
    assert_eq!(plain.last(), Some(&"wiiland-dump"));
    assert_eq!(cargo_check_args(false), vec!["check", "--workspace", "--all-targets"]);
    assert_eq!(cargo_check_args(true), vec!["check", "--workspace", "--all-targets", "--all-features"]);
}

#[test]
fn path_sort_is_by_components_and_stable() {
    let input: Vec<String> = ["b", "a//x", "a/b/c", "a/x", "a", "a/"].iter().map(|s| (*s).to_owned()).collect();
    let sorted = wiiland::order::sort_paths(&input);
    assert_eq!(sorted, vec!["a", "a/", "a/b/c", "a//x", "a/x", "b"]);
    let words: Vec<String> = ["b", "B", "a", "ab", ""].iter().map(|s| (*s).to_owned()).collect();
    assert_eq!(wiiland::order::sort_strings(&words), vec!["", "B", "a", "ab", "b"]);
}

#[test]
fn uninstall_removes_only_unchanged_owned_files() {
    let records = vec![
        OwnershipRecord::File { logical: "/usr/bin/a".to_owned(), expected: "1".to_owned() },
        OwnershipRecord::Directory("/usr/share/w".to_owned()),
        OwnershipRecord::File { logical: "/usr/bin/b".to_owned(), expected: "2".to_owned() },
        OwnershipRecord::Directory("/usr/share/w/doc".to_owned()),
        OwnershipRecord::File { logical: "/usr/bin/c".to_owned(), expected: "link:x".to_owned() },
    ];
    let plan = uninstall_plan(&records, &vec![true, false, false, false, true]);
    assert_eq!(plan.files, vec!["/usr/bin/a".to_owned(), "/usr/bin/c".to_owned()]);
    assert_eq!(plan.dirs, vec!["/usr/share/w/doc".to_owned(), "/usr/share/w".to_owned()]);
    let stale = vec![("/a".to_owned(), "1".to_owned()), ("/b".to_owned(), "2".to_owned())];
    assert_eq!(stale_removals(&stale, &vec![false, true]), vec!["/b".to_owned()]);
}

#[test]
fn owned_entries_match_their_records() {
    assert!(entry_matches("link:/usr/lib/x", &EntryFacts::Link(Some("/usr/lib/x/".to_owned()))));
    assert!(!entry_matches("link:/usr/lib/x", &EntryFacts::Link(Some("/usr/lib/y".to_owned()))));
    assert!(!entry_matches("link:/usr/lib/x", &EntryFacts::Link(None)));
    assert!(!entry_matches("link:/usr/lib/x", &EntryFacts::File(Some(1))));
    let h = hash_bytes(b"abc");
    assert!(entry_matches(&hash_text(h), &EntryFacts::File(Some(h))));
    assert!(!entry_matches(&hash_text(h), &EntryFacts::File(Some(h ^ 1))));
    assert!(!entry_matches(&hash_text(h), &EntryFacts::File(None)));
    assert!(!entry_matches(&hash_text(h), &EntryFacts::Missing));
    assert!(!entry_matches(&hash_text(h), &EntryFacts::Other));
}
