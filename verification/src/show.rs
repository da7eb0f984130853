//! The device viewer's choices that do not need a terminal: its view modes,
//! its loop decision and the device selector on its command line.

use vstd::prelude::*;
use crate::text::{str_eq, strip_prefix, seq_starts_with, is_all_digits, all_digits, parse_usize, parse_usize_spec};

verus! {

/// What the viewer shows.
#[derive(Clone, Copy, Debug, PartialEq, Eq, Structural)]
pub enum ViewMode {
    Error,
    Basic,
    Extended,
}

/// The view mode for a terminal of `width` columns and `height` rows: too
/// small below 80x24, basic below 160x48, else extended.
pub fn view_mode(width: u16, height: u16) -> (r: ViewMode)
    ensures
        r == (if width < 80 || height < 24 {
            ViewMode::Error
        } else if width < 160 || height < 48 {
            ViewMode::Basic
        } else {
            ViewMode::Extended
        }),
{
    if width < 80 || height < 24 {
        ViewMode::Error
    } else if width < 160 || height < 48 {
        ViewMode::Basic
    } else {
        ViewMode::Extended
    }
}

/// The most status lines the viewer keeps.
pub const STATUS_LINES: usize = 8;

/// The status line of a message: errors are marked.
pub open spec fn status_line(message: Seq<char>, is_error: bool) -> Seq<char> {
    if is_error {
        "Error: "@ + message
    } else {
        message
    }
}

/// The log after one more line: the last `STATUS_LINES` lines pushed.
pub open spec fn log_after(log: Seq<Seq<char>>, line: Seq<char>) -> Seq<Seq<char>> {
    let l = log.push(line);
    if l.len() > STATUS_LINES {
        l.subrange(l.len() - STATUS_LINES, l.len() as int)
    } else {
        l
    }
}

/// The viewer's latest status lines, oldest first.
pub struct StatusLog {
    lines: Vec<String>,
}

impl View for StatusLog {
    type V = Seq<Seq<char>>;

    closed spec fn view(&self) -> Seq<Seq<char>> {
        self.lines@.map_values(|l: String| l@)
    }
}

impl StatusLog {
    /// Whether the log holds at most `STATUS_LINES` lines.
    pub open spec fn wf(&self) -> bool {
        self@.len() <= STATUS_LINES
    }

    /// An empty log.
    pub fn new() -> (r: Self)
        ensures
            r.wf(),
            r@ == Seq::<Seq<char>>::empty(),
    {
        let r = StatusLog { lines: Vec::new() };
        assert(r@ =~= Seq::<Seq<char>>::empty());
        r
    }

    /// Records an informational message.
    pub fn info(&mut self, message: &str)
        requires
            old(self).wf(),
        ensures
            final(self).wf(),
            final(self)@ == log_after(old(self)@, status_line(message@, false)),
    {
        self.push_status(message, false)
    }

    /// Records an error message.
    pub fn error(&mut self, message: &str)
        requires
            old(self).wf(),
        ensures
            final(self).wf(),
            final(self)@ == log_after(old(self)@, status_line(message@, true)),
    {
        self.push_status(message, true)
    }

    fn push_status(&mut self, message: &str, is_error: bool)
        requires
            old(self).wf(),
        ensures
            final(self).wf(),
            final(self)@ == log_after(old(self)@, status_line(message@, is_error)),
    {
        let mut line = String::new();
        if is_error {
            line.append("Error: ");
        }
        line.append(message);
        assert(line@ =~= status_line(message@, is_error));
        let ghost before = self@;
        self.lines.push(line);
        assert(self@ =~= before.push(status_line(message@, is_error)));
        if self.lines.len() > STATUS_LINES {
            let ghost full = self@;
            self.lines.remove(0);
            assert(self@ =~= full.subrange(full.len() - STATUS_LINES, full.len() as int));
        }
    }

    /// The lines, oldest first.
    pub fn lines(&self) -> (r: &Vec<String>)
        ensures
            r@.map_values(|l: String| l@) == self@,
    {
        &self.lines
    }
}

/// Whether the viewer goes on after a key.
#[derive(Clone, Copy, Debug, PartialEq, Eq, Structural)]
pub enum Action {
    Continue,
    Quit,
}

/// The device the viewer opens: the n-th enumerated one, or a `/sys` path.
#[derive(Clone, Copy, Debug, PartialEq, Eq)]
pub enum Selector<'a> {
    Ordinal(usize),
    Path(&'a str),
}

/// The message for a selector that is neither a positive ordinal nor a path.
pub const SELECTOR_FORM: &'static str = "selector must be a positive ordinal or an absolute /sys path";

/// The message for an ordinal beyond `usize`.
pub const SELECTOR_RANGE: &'static str = "selector ordinal is out of range";

/// How a selector argument reads: a path under `/sys/` with something after
/// the prefix, else one or more digits naming a positive ordinal.
pub enum SelectorView {
    Ordinal(usize),
    Path(Seq<char>),
}

/// How a selector argument is read, or the message refusing it.
pub open spec fn parse_selector_spec(arg: Seq<char>) -> Result<SelectorView, Seq<char>> {
    if seq_starts_with(arg, "/sys/"@) && arg.len() > "/sys/"@.len() {
        Ok(SelectorView::Path(arg))
    } else if arg.len() == 0 || !all_digits(arg) {
        Err(SELECTOR_FORM@)
    } else {
        match parse_usize_spec(arg) {
            None => Err(SELECTOR_RANGE@),
            Some(n) => if n == 0 {
                Err(SELECTOR_FORM@)
            } else {
                Ok(SelectorView::Ordinal(n))
            },
        }
    }
}

/// Reads the viewer's device selector.
pub fn parse_selector<'a>(arg: &'a str) -> (r: Result<Selector<'a>, &'static str>)
    ensures
        match parse_selector_spec(arg@) {
            Ok(SelectorView::Path(p)) => r matches Ok(Selector::Path(s)) && s@ == p,
            Ok(SelectorView::Ordinal(n)) => r == Ok::<Selector<'a>, &'static str>(
                Selector::Ordinal(n),
            ),
            Err(m) => r matches Err(e) && e@ == m,
        },
{
    match strip_prefix(arg, "/sys/") {
        Some(path) => {
            if path.unicode_len() != 0 {
                return Ok(Selector::Path(arg));
            }
        },
        None => {},
    }
    if arg.unicode_len() == 0 || !is_all_digits(arg) {
        return Err(SELECTOR_FORM);
    }
    match parse_usize(arg) {
        None => Err(SELECTOR_RANGE),
        Some(value) => {
            if value == 0 {
                Err(SELECTOR_FORM)
            } else {
                Ok(Selector::Ordinal(value))
            }
        },
    }
}

/// The viewer's help text.
pub const HELP: &'static str = "Usage:\n  xwiishow -h|--help\n  xwiishow list\n  xwiishow <positive-ordinal>\n  xwiishow /sys/path/to/device\nUI commands:\n  q: Quit application\n  f: Freeze/Unfreeze screen\n  s: Refresh static values and recalibrate MotionPlus\n  k: Toggle key events\n  r: Toggle rumble motor (when writable)\n  a: Toggle accelerometer\n  i: Toggle IR camera\n  m: Toggle motion plus\n  n: Toggle normalization for motion plus\n  N: Toggle Nunchuk\n  c: Toggle Classic Controller\n  b: Toggle balance board\n  p: Toggle pro controller\n  g: Toggle guitar controller\n  d: Toggle drums controller\n  1-4: Toggle LEDs (when writable)\n";

/// What the viewer's command line asks for.
#[derive(Clone, Copy, Debug, PartialEq, Eq)]
pub enum ShowCommand<'a> {
    /// Print the help text and succeed.
    Help,
    /// List the devices.
    List,
    /// Open the selected device.
    Open(Selector<'a>),
}

/// The request of the viewer's command line; `args` follow the program
/// name.
pub fn show_command<'a>(program: &str, args: &'a [String]) -> (r: Result<ShowCommand<'a>, String>)
    ensures
        args@.len() == 1 && (args@[0]@ == "-h"@ || args@[0]@ == "--help"@) ==> r == Ok::<
            ShowCommand<'a>,
            String,
        >(ShowCommand::Help),
        args@.len() != 1 ==> (r matches Err(m) && m@ == program@ + ": expected exactly one selector"@),
        args@.len() == 1 && !(args@[0]@ == "-h"@ || args@[0]@ == "--help"@) ==> {
            let arg = args@[0]@;
            if arg == "list"@ {
                r == Ok::<ShowCommand<'a>, String>(ShowCommand::List)
            } else {
                match parse_selector_spec(arg) {
                    Ok(SelectorView::Path(p)) => r matches Ok(ShowCommand::Open(Selector::Path(q)))
                        && q@ == p,
                    Ok(SelectorView::Ordinal(n)) => r == Ok::<ShowCommand<'a>, String>(
                        ShowCommand::Open(Selector::Ordinal(n)),
                    ),
                    Err(reason) => r matches Err(m) && m@ == program@ + ": "@ + reason + ": "@ + arg,
                }
            }
        },
{
    if args.len() == 1 && (str_eq(args[0].as_str(), "-h") || str_eq(args[0].as_str(), "--help")) {
        return Ok(ShowCommand::Help);
    }
    if args.len() != 1 {
        let mut m = String::from_str(program);
        m.append(": expected exactly one selector");
        return Err(m);
    }
    let arg = args[0].as_str();
    if str_eq(arg, "list") {
        return Ok(ShowCommand::List);
    }
    match parse_selector(arg) {
        Ok(sel) => Ok(ShowCommand::Open(sel)),
        Err(reason) => {
            let mut m = String::from_str(program);
            m.append(": ");
            m.append(reason);
            m.append(": ");
            m.append(arg);
            Err(m)
        },
    }
}

/// Why the interactive view cannot start, if it cannot: it needs a terminal
/// on standard input and output and a usable `TERM` (set, and not `dumb`).
pub fn terminal_refusal(program: &str, stdin_tty: bool, stdout_tty: bool, term: &str) -> (r: Option<String>)
    ensures
        !stdin_tty ==> (r matches Some(m) && m@ == program@
            + ": interactive UI requires a terminal on stdin; use 'xwiishow list' for pipelines"@),
        stdin_tty && !stdout_tty ==> (r matches Some(m) && m@ == program@
            + ": interactive UI requires a terminal on stdout; use 'xwiishow list' for redirected output"@),
        stdin_tty && stdout_tty && (term@.len() == 0 || term@ == "dumb"@) ==> (r matches Some(m) && m@
            == program@
            + ": interactive UI requires a usable TERM value (for example, TERM=xterm-256color)"@),
        stdin_tty && stdout_tty && !(term@.len() == 0 || term@ == "dumb"@) ==> r is None,
{
    let reason = if !stdin_tty {
        ": interactive UI requires a terminal on stdin; use 'xwiishow list' for pipelines"
    } else if !stdout_tty {
        ": interactive UI requires a terminal on stdout; use 'xwiishow list' for redirected output"
    } else if term.unicode_len() == 0 || str_eq(term, "dumb") {
        ": interactive UI requires a usable TERM value (for example, TERM=xterm-256color)"
    } else {
        return None;
    };
    let mut m = String::from_str(program);
    m.append(reason);
    Some(m)
}

} // verus!
