//! The readiness report of `wiilandd --doctor`: the session, the Wayland
//! and X11 sockets, the configuration files, the uinput node and the
//! effective settings, as `key=value` lines built from what the
//! environment and the file system answered.

use vstd::prelude::*;
use crate::commands::{
    PathProbe, access_state, display_server, display_server_spec, opt_chars, path_state,
    path_state_spec, user_config_path, user_config_path_spec, wayland_path, wayland_path_spec,
    x11_path, x11_path_spec, xwayland, xwayland_spec,
};

verus! {

/// What the file system answered about one path: the path's state, and
/// whether reading and writing it are allowed (`None` when the check could
/// not be made).
#[derive(Clone, Copy, Debug, PartialEq, Eq, Structural)]
pub struct PathFacts {
    pub probe: PathProbe,
    pub readable: Option<bool>,
    pub writable: Option<bool>,
}

/// Everything the report is built from. The environment values are taken
/// as the environment holds them (`WAYLAND_DISPLAY`, `DISPLAY`,
/// `XDG_RUNTIME_DIR`, `XDG_SESSION_TYPE`, `XDG_CURRENT_DESKTOP`,
/// `HOSTNAME`, `XDG_CONFIG_HOME`, `HOME`); the path facts answer for the
/// paths the report derives from them (`doctor_paths`), for the system
/// configuration file and for the uinput node.
#[derive(Clone, Debug)]
pub struct DoctorFacts {
    pub wayland_display: Option<String>,
    pub display: Option<String>,
    pub runtime_dir: Option<String>,
    pub session_type: Option<String>,
    pub current_desktop: Option<String>,
    pub hostname: Option<String>,
    pub config_home: Option<String>,
    pub home: Option<String>,
    pub system_config: String,
    pub wayland_socket: PathFacts,
    pub x11_socket: PathFacts,
    pub system_config_file: PathFacts,
    pub user_config_file: PathFacts,
    pub uinput: PathFacts,
    pub backend: String,
    pub profile: String,
    pub aim_mode: String,
    pub aim_source: String,
    pub aim_activation: String,
}

/// The facts as plain values.
pub struct DoctorFactsView {
    pub wayland_display: Option<Seq<char>>,
    pub display: Option<Seq<char>>,
    pub runtime_dir: Option<Seq<char>>,
    pub session_type: Option<Seq<char>>,
    pub current_desktop: Option<Seq<char>>,
    pub hostname: Option<Seq<char>>,
    pub config_home: Option<Seq<char>>,
    pub home: Option<Seq<char>>,
    pub system_config: Seq<char>,
    pub wayland_socket: PathFacts,
    pub x11_socket: PathFacts,
    pub system_config_file: PathFacts,
    pub user_config_file: PathFacts,
    pub uinput: PathFacts,
    pub backend: Seq<char>,
    pub profile: Seq<char>,
    pub aim_mode: Seq<char>,
    pub aim_source: Seq<char>,
    pub aim_activation: Seq<char>,
}

/// An optional string as text.
pub open spec fn text_of(o: Option<String>) -> Option<Seq<char>> {
    match o {
        Some(s) => Some(s@),
        None => None,
    }
}

impl View for DoctorFacts {
    type V = DoctorFactsView;

    open spec fn view(&self) -> DoctorFactsView {
        DoctorFactsView {
            wayland_display: text_of(self.wayland_display),
            display: text_of(self.display),
            runtime_dir: text_of(self.runtime_dir),
            session_type: text_of(self.session_type),
            current_desktop: text_of(self.current_desktop),
            hostname: text_of(self.hostname),
            config_home: text_of(self.config_home),
            home: text_of(self.home),
            system_config: self.system_config@,
            wayland_socket: self.wayland_socket,
            x11_socket: self.x11_socket,
            system_config_file: self.system_config_file,
            user_config_file: self.user_config_file,
            uinput: self.uinput,
            backend: self.backend@,
            profile: self.profile@,
            aim_mode: self.aim_mode@,
            aim_source: self.aim_source@,
            aim_activation: self.aim_activation@,
        }
    }
}

/// An environment value, counted as unset when it is empty.
pub open spec fn nonempty(o: Option<Seq<char>>) -> Option<Seq<char>> {
    match o {
        Some(s) => if s.len() > 0 {
            Some(s)
        } else {
            None
        },
        None => None,
    }
}

/// A value, or `unknown`.
pub open spec fn or_unknown(o: Option<Seq<char>>) -> Seq<char> {
    match o {
        Some(s) => s,
        None => "unknown"@,
    }
}

/// `yes` or `no`.
pub open spec fn yes_no(b: bool) -> Seq<char> {
    if b {
        "yes"@
    } else {
        "no"@
    }
}

/// An access check as reported.
pub open spec fn access_text(a: Option<bool>) -> Seq<char> {
    match a {
        Some(true) => "yes"@,
        Some(false) => "no"@,
        None => "unknown"@,
    }
}

/// The state of a path that may be unknown: nothing is known without it.
pub open spec fn probe_at(p: Option<Seq<char>>, f: PathFacts) -> Option<PathProbe> {
    if p is Some {
        Some(f.probe)
    } else {
        None
    }
}

/// An access check of a path that may be unknown.
pub open spec fn access_at(p: Option<Seq<char>>, a: Option<bool>) -> Option<bool> {
    if p is Some {
        a
    } else {
        None
    }
}

/// The paths the report probes: the Wayland socket, the X11 socket and
/// the user configuration file, where the environment names them.
pub open spec fn doctor_paths(f: DoctorFactsView) -> (
    Option<Seq<char>>,
    Option<Seq<char>>,
    Option<Seq<char>>,
) {
    (
        wayland_path_spec(nonempty(f.wayland_display), f.runtime_dir),
        x11_path_spec(nonempty(f.display), f.hostname),
        user_config_path_spec(f.config_home, f.home),
    )
}

/// The session the report sees: the display server and the display
/// variables set (non-empty).
pub open spec fn session_of(f: DoctorFactsView) -> (Seq<char>, Option<Seq<char>>, Option<Seq<char>>) {
    let wayland = nonempty(f.wayland_display);
    let x11 = nonempty(f.display);
    (display_server_spec(nonempty(f.session_type), wayland is Some, x11 is Some), wayland, x11)
}

/// The `session.*` lines.
pub open spec fn session_pairs(f: DoctorFactsView) -> Seq<(Seq<char>, Seq<char>)> {
    let (server, wayland, x11) = session_of(f);
    let xp = doctor_paths(f).1;
    let xw = xwayland_spec(
        server,
        x11 is Some,
        xp is Some,
        f.x11_socket.probe == (PathProbe::Present { socket: true }),
    );
    seq![
        ("session.display-server"@, server),
        ("session.wayland"@, yes_no(wayland is Some)),
        ("session.x11"@, yes_no(x11 is Some)),
        ("session.xwayland.available"@, xw),
        ("session.type"@, or_unknown(nonempty(f.session_type))),
        ("session.desktop"@, or_unknown(nonempty(f.current_desktop))),
    ]
}

/// The `wayland.*` and `xdg.runtime.dir` lines.
pub open spec fn wayland_pairs(f: DoctorFactsView) -> Seq<(Seq<char>, Seq<char>)> {
    let wp = doctor_paths(f).0;
    seq![
        ("wayland.display"@, or_unknown(nonempty(f.wayland_display))),
        ("xdg.runtime.dir"@, or_unknown(f.runtime_dir)),
        ("wayland.socket.path"@, or_unknown(wp)),
        ("wayland.socket.type"@, path_state_spec(probe_at(wp, f.wayland_socket), 1)),
        ("wayland.socket.exists"@, path_state_spec(probe_at(wp, f.wayland_socket), 0)),
        ("wayland.socket.readable"@, access_text(access_at(wp, f.wayland_socket.readable))),
        ("wayland.socket.writable"@, access_text(access_at(wp, f.wayland_socket.writable))),
    ]
}

/// The `x11.*` lines.
pub open spec fn x11_pairs(f: DoctorFactsView) -> Seq<(Seq<char>, Seq<char>)> {
    let xp = doctor_paths(f).1;
    seq![
        ("x11.display"@, or_unknown(nonempty(f.display))),
        ("x11.socket.path"@, or_unknown(xp)),
        ("x11.socket.type"@, path_state_spec(probe_at(xp, f.x11_socket), 1)),
        ("x11.socket.exists"@, path_state_spec(probe_at(xp, f.x11_socket), 0)),
        ("x11.socket.readable"@, access_text(access_at(xp, f.x11_socket.readable))),
        ("x11.socket.writable"@, access_text(access_at(xp, f.x11_socket.writable))),
    ]
}

/// The `config.*` lines.
pub open spec fn config_pairs(f: DoctorFactsView) -> Seq<(Seq<char>, Seq<char>)> {
    let user = doctor_paths(f).2;
    seq![
        ("config.system.path"@, f.system_config),
        ("config.system.exists"@, path_state_spec(Some(f.system_config_file.probe), 0)),
        ("config.system.readable"@, access_text(f.system_config_file.readable)),
        ("config.user.path"@, or_unknown(user)),
        ("config.user.exists"@, path_state_spec(probe_at(user, f.user_config_file), 0)),
        ("config.user.readable"@, access_text(access_at(user, f.user_config_file.readable))),
    ]
}

/// The `dev.uinput.*` lines and the effective settings.
pub open spec fn settings_pairs(f: DoctorFactsView) -> Seq<(Seq<char>, Seq<char>)> {
    seq![
        ("dev.uinput.exists"@, path_state_spec(Some(f.uinput.probe), 0)),
        ("dev.uinput.readable"@, access_text(f.uinput.readable)),
        ("dev.uinput.writable"@, access_text(f.uinput.writable)),
        ("backend"@, f.backend),
        ("profile"@, f.profile),
        ("aim.mode"@, f.aim_mode),
        ("aim.source"@, f.aim_source),
        ("aim.activation"@, f.aim_activation),
    ]
}

/// The report's lines as key and value, in order.
pub open spec fn doctor_pairs(f: DoctorFactsView) -> Seq<(Seq<char>, Seq<char>)> {
    session_pairs(f) + wayland_pairs(f) + x11_pairs(f) + config_pairs(f) + settings_pairs(f)
}

/// `key=value` lines, each ended by a newline.
pub open spec fn lines_text(pairs: Seq<(Seq<char>, Seq<char>)>) -> Seq<char>
    decreases pairs.len(),
{
    if pairs.len() == 0 {
        seq![]
    } else {
        lines_text(pairs.drop_last()) + pairs.last().0 + "="@ + pairs.last().1 + "\n"@
    }
}

/// The report's text.
pub open spec fn doctor_text(f: DoctorFactsView) -> Seq<char> {
    lines_text(doctor_pairs(f))
}

fn nonempty_str(o: &Option<String>) -> (r: Option<&str>)
    ensures
        opt_chars(r) == nonempty(text_of(*o)),
{
    match o {
        Some(s) => if s.as_str().unicode_len() > 0 {
            Some(s.as_str())
        } else {
            None
        },
        None => None,
    }
}

fn as_opt_str(o: &Option<String>) -> (r: Option<&str>)
    ensures
        opt_chars(r) == text_of(*o),
{
    match o {
        Some(s) => Some(s.as_str()),
        None => None,
    }
}

fn unknown_or(o: Option<&str>) -> (r: String)
    ensures
        r@ == or_unknown(opt_chars(o)),
{
    match o {
        Some(s) => String::from_str(s),
        None => String::from_str("unknown"),
    }
}

fn yes_no_str(b: bool) -> (r: String)
    ensures
        r@ == yes_no(b),
{
    if b {
        String::from_str("yes")
    } else {
        String::from_str("no")
    }
}

fn probe_of(p: &Option<String>, f: PathFacts) -> (r: Option<PathProbe>)
    ensures
        r == probe_at(text_of(*p), f),
{
    if p.is_some() {
        Some(f.probe)
    } else {
        None
    }
}

fn access_of(p: &Option<String>, a: Option<bool>) -> (r: Option<bool>)
    ensures
        r == access_at(text_of(*p), a),
{
    if p.is_some() {
        a
    } else {
        None
    }
}

/// The paths the report probes, for the caller to ask the file system
/// about: the Wayland socket, the X11 socket and the user configuration
/// file, where the environment names them.
pub fn probed_paths(facts: &DoctorFacts) -> (r: (Option<String>, Option<String>, Option<String>))
    ensures
        (text_of(r.0), text_of(r.1), text_of(r.2)) == doctor_paths(facts@),
{
    let wayland = nonempty_str(&facts.wayland_display);
    let x11 = nonempty_str(&facts.display);
    let wp = wayland_path(wayland, as_opt_str(&facts.runtime_dir));
    let xp = x11_path(x11, as_opt_str(&facts.hostname));
    let user = user_config_path(as_opt_str(&facts.config_home), as_opt_str(&facts.home));
    proof {
        assert(text_of(wp) == wayland_path_spec(nonempty(facts@.wayland_display), facts@.runtime_dir));
        assert(text_of(xp) == x11_path_spec(nonempty(facts@.display), facts@.hostname));
        assert(text_of(user) == user_config_path_spec(facts@.config_home, facts@.home));
    }
    (wp, xp, user)
}

fn push_pair(pairs: &mut Vec<(&'static str, String)>, key: &'static str, value: String)
    ensures
        pair_views(final(pairs)@) == pair_views(old(pairs)@).push((key@, value@)),
{
    let ghost before = pairs@;
    pairs.push((key, value));
    assert(pair_views(pairs@) =~= pair_views(before).push((key@, value@)));
}

/// The pairs as text.
pub open spec fn pair_views(p: Seq<(&'static str, String)>) -> Seq<(Seq<char>, Seq<char>)> {
    p.map_values(|x: (&'static str, String)| (x.0@, x.1@))
}

fn render(pairs: &Vec<(&'static str, String)>) -> (r: String)
    ensures
        r@ == lines_text(pair_views(pairs@)),
{
    let ghost pv = pair_views(pairs@);
    let mut out = String::new();
    let mut i: usize = 0;
    assert(out@ =~= lines_text(pv.subrange(0, 0)));
    while i < pairs.len()
        invariant
            i <= pairs@.len(),
            pv == pair_views(pairs@),
            out@ == lines_text(pv.subrange(0, i as int)),
        decreases pairs@.len() - i,
    {
        let ghost before = out@;
        assert(pv.subrange(0, i + 1).drop_last() =~= pv.subrange(0, i as int));
        assert(pv.subrange(0, i + 1).last() == (pairs@[i as int].0@, pairs@[i as int].1@));
        out.append(pairs[i].0);
        out.append("=");
        out.append(pairs[i].1.as_str());
        out.append("\n");
        assert(out@ =~= before + pairs@[i as int].0@ + "="@ + pairs@[i as int].1@ + "\n"@);
        i = i + 1;
    }
    assert(pv.subrange(0, pairs@.len() as int) =~= pv);
    out
}

fn push_session(p: &mut Vec<(&'static str, String)>, facts: &DoctorFacts)
    ensures
        pair_views(final(p)@) == pair_views(old(p)@) + session_pairs(facts@),
{
    let ghost start = pair_views(p@);
    let wayland = nonempty_str(&facts.wayland_display);
    let x11 = nonempty_str(&facts.display);
    let session = nonempty_str(&facts.session_type);
    let server = display_server(session, wayland.is_some(), x11.is_some());
    let (_, xp, _) = probed_paths(facts);
    let x11_is_socket = match facts.x11_socket.probe {
        PathProbe::Present { socket } => socket,
        _ => false,
    };
    assert(facts@.x11_socket.probe == (PathProbe::Present { socket: true }) <==> x11_is_socket);
    let xw = xwayland(server, x11.is_some(), xp.is_some(), x11_is_socket);
    push_pair(p, "session.display-server", String::from_str(server));
    push_pair(p, "session.wayland", yes_no_str(wayland.is_some()));
    push_pair(p, "session.x11", yes_no_str(x11.is_some()));
    push_pair(p, "session.xwayland.available", String::from_str(xw));
    push_pair(p, "session.type", unknown_or(session));
    push_pair(p, "session.desktop", unknown_or(nonempty_str(&facts.current_desktop)));
    assert(pair_views(p@) =~= start + session_pairs(facts@));
}

fn push_wayland(p: &mut Vec<(&'static str, String)>, facts: &DoctorFacts)
    ensures
        pair_views(final(p)@) == pair_views(old(p)@) + wayland_pairs(facts@),
{
    let ghost start = pair_views(p@);
    let (wp, _, _) = probed_paths(facts);
    let ws = facts.wayland_socket;
    push_pair(p, "wayland.display", unknown_or(nonempty_str(&facts.wayland_display)));
    push_pair(p, "xdg.runtime.dir", unknown_or(as_opt_str(&facts.runtime_dir)));
    push_pair(p, "wayland.socket.path", unknown_or(as_opt_str(&wp)));
    push_pair(p, "wayland.socket.type", String::from_str(path_state(probe_of(&wp, ws), 1)));
    push_pair(p, "wayland.socket.exists", String::from_str(path_state(probe_of(&wp, ws), 0)));
    push_pair(p, "wayland.socket.readable", String::from_str(access_state(access_of(&wp, ws.readable))));
    push_pair(p, "wayland.socket.writable", String::from_str(access_state(access_of(&wp, ws.writable))));
    assert(pair_views(p@) =~= start + wayland_pairs(facts@));
}

fn push_x11(p: &mut Vec<(&'static str, String)>, facts: &DoctorFacts)
    ensures
        pair_views(final(p)@) == pair_views(old(p)@) + x11_pairs(facts@),
{
    let ghost start = pair_views(p@);
    let (_, xp, _) = probed_paths(facts);
    let xs = facts.x11_socket;
    push_pair(p, "x11.display", unknown_or(nonempty_str(&facts.display)));
    push_pair(p, "x11.socket.path", unknown_or(as_opt_str(&xp)));
    push_pair(p, "x11.socket.type", String::from_str(path_state(probe_of(&xp, xs), 1)));
    push_pair(p, "x11.socket.exists", String::from_str(path_state(probe_of(&xp, xs), 0)));
    push_pair(p, "x11.socket.readable", String::from_str(access_state(access_of(&xp, xs.readable))));
    push_pair(p, "x11.socket.writable", String::from_str(access_state(access_of(&xp, xs.writable))));
    assert(pair_views(p@) =~= start + x11_pairs(facts@));
}

fn push_config(p: &mut Vec<(&'static str, String)>, facts: &DoctorFacts)
    ensures
        pair_views(final(p)@) == pair_views(old(p)@) + config_pairs(facts@),
{
    let ghost start = pair_views(p@);
    let (_, _, user) = probed_paths(facts);
    let sc = facts.system_config_file;
    let uc = facts.user_config_file;
    push_pair(p, "config.system.path", facts.system_config.clone());
    push_pair(p, "config.system.exists", String::from_str(path_state(Some(sc.probe), 0)));
    push_pair(p, "config.system.readable", String::from_str(access_state(sc.readable)));
    push_pair(p, "config.user.path", unknown_or(as_opt_str(&user)));
    push_pair(p, "config.user.exists", String::from_str(path_state(probe_of(&user, uc), 0)));
    push_pair(p, "config.user.readable", String::from_str(access_state(access_of(&user, uc.readable))));
    assert(pair_views(p@) =~= start + config_pairs(facts@));
}

fn push_settings(p: &mut Vec<(&'static str, String)>, facts: &DoctorFacts)
    ensures
        pair_views(final(p)@) == pair_views(old(p)@) + settings_pairs(facts@),
{
    let ghost start = pair_views(p@);
    let ui = facts.uinput;
    push_pair(p, "dev.uinput.exists", String::from_str(path_state(Some(ui.probe), 0)));
    push_pair(p, "dev.uinput.readable", String::from_str(access_state(ui.readable)));
    push_pair(p, "dev.uinput.writable", String::from_str(access_state(ui.writable)));
    push_pair(p, "backend", facts.backend.clone());
    push_pair(p, "profile", facts.profile.clone());
    push_pair(p, "aim.mode", facts.aim_mode.clone());
    push_pair(p, "aim.source", facts.aim_source.clone());
    push_pair(p, "aim.activation", facts.aim_activation.clone());
    assert(pair_views(p@) =~= start + settings_pairs(facts@));
}

/// The report of `wiilandd --doctor`.
pub fn doctor_report(facts: &DoctorFacts) -> (r: String)
    ensures
        r@ == doctor_text(facts@),
{
    let mut p: Vec<(&'static str, String)> = Vec::new();
    assert(pair_views(p@) =~= Seq::<(Seq<char>, Seq<char>)>::empty());
    push_session(&mut p, facts);
    push_wayland(&mut p, facts);
    push_x11(&mut p, facts);
    push_config(&mut p, facts);
    push_settings(&mut p, facts);
    assert(pair_views(p@) =~= doctor_pairs(facts@));
    render(&p)
}

} // verus!
