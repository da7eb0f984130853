use wiiland::show::{
    parse_selector, show_command, terminal_refusal, view_mode, Action, Selector, ShowCommand,
    StatusLog, ViewMode, HELP, SELECTOR_FORM, SELECTOR_RANGE, STATUS_LINES,
};

#[test]
fn selectors_are_sys_paths_or_positive_ordinals() {
    assert_eq!(parse_selector("/sys/devices/x"), Ok(Selector::Path("/sys/devices/x")));
    assert_eq!(parse_selector("3"), Ok(Selector::Ordinal(3)));
    assert_eq!(parse_selector("0"), Err(SELECTOR_FORM));
    assert_eq!(parse_selector("/sys/"), Err(SELECTOR_FORM));
    assert_eq!(parse_selector(""), Err(SELECTOR_FORM));
    assert_eq!(parse_selector("+3"), Err(SELECTOR_FORM));
    assert_eq!(parse_selector("99999999999999999999999"), Err(SELECTOR_RANGE));
    assert_ne!(ViewMode::Basic, ViewMode::Extended);
    assert_ne!(Action::Continue, Action::Quit);
}

#[test]
fn terminal_size_selects_the_view() {
    assert_eq!(view_mode(79, 50), ViewMode::Error);
    assert_eq!(view_mode(200, 23), ViewMode::Error);
    assert_eq!(view_mode(80, 24), ViewMode::Basic);
    assert_eq!(view_mode(159, 100), ViewMode::Basic);
    assert_eq!(view_mode(160, 47), ViewMode::Basic);
    assert_eq!(view_mode(160, 48), ViewMode::Extended);
}

#[test]
fn status_log_keeps_the_latest_lines() {
    let mut log = StatusLog::new();
    log.info("Watch event");
    log.error("Cannot set rumble: -5");
    assert_eq!(log.lines(), &vec!["Watch event".to_owned(), "Error: Cannot set rumble: -5".to_owned()]);
    for n in 0..10 {
        log.info(&format!("line {n}"));
    }
    assert_eq!(STATUS_LINES, 8);
    let expected: Vec<String> = (2..10).map(|n| format!("line {n}")).collect();
    assert_eq!(log.lines(), &expected);
}

fn args(values: &[&str]) -> Vec<String> {
    values.iter().map(|value| (*value).to_owned()).collect()
}

#[test]
fn viewer_command_line_selects_help_list_or_device() {
    assert!(HELP.starts_with("Usage:\n  xwiishow -h|--help\n"));
    assert_eq!(show_command("xwiishow", &args(&["--help"])), Ok(ShowCommand::Help));
    assert_eq!(show_command("xwiishow", &args(&["-h"])), Ok(ShowCommand::Help));
    assert_eq!(show_command("xwiishow", &args(&["list"])), Ok(ShowCommand::List));
    let a = args(&["2"]);
    assert_eq!(show_command("xwiishow", &a), Ok(ShowCommand::Open(Selector::Ordinal(2))));
    let a = args(&["/sys/devices/x"]);
    assert_eq!(show_command("xwiishow", &a), Ok(ShowCommand::Open(Selector::Path("/sys/devices/x"))));
    assert_eq!(
        show_command("xwiishow", &args(&[])),
        Err("xwiishow: expected exactly one selector".to_owned())
    );
    assert_eq!(
        show_command("xs", &args(&["-h", "list"])),
        Err("xs: expected exactly one selector".to_owned())
    );
    assert_eq!(
        show_command("xwiishow", &args(&["0"])),
        Err("xwiishow: selector must be a positive ordinal or an absolute /sys path: 0".to_owned())
    );
    assert_eq!(
        show_command("xwiishow", &args(&["99999999999999999999999"])),
        Err("xwiishow: selector ordinal is out of range: 99999999999999999999999".to_owned())
    );
}

#[test]
fn the_interactive_view_needs_a_usable_terminal() {
    assert_eq!(
        terminal_refusal("xwiishow", false, true, "xterm"),
        Some("xwiishow: interactive UI requires a terminal on stdin; use 'xwiishow list' for pipelines".to_owned())
    );
    assert_eq!(
        terminal_refusal("xwiishow", true, false, "xterm"),
        Some("xwiishow: interactive UI requires a terminal on stdout; use 'xwiishow list' for redirected output".to_owned())
    );
    assert_eq!(
        terminal_refusal("xwiishow", true, true, "dumb"),
        Some("xwiishow: interactive UI requires a usable TERM value (for example, TERM=xterm-256color)".to_owned())
    );
    assert!(terminal_refusal("xwiishow", true, true, "").is_some());
    assert_eq!(terminal_refusal("xwiishow", true, true, "xterm-256color"), None);
}
