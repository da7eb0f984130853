use wiiland::commands::PathProbe;
use wiiland::doctor::{doctor_report, probed_paths, DoctorFacts, PathFacts};

fn facts() -> DoctorFacts {
    let open = PathFacts { probe: PathProbe::Present { socket: true }, readable: Some(true), writable: Some(true) };
    DoctorFacts {
        wayland_display: Some("wayland-0".to_owned()),
        display: Some(":1".to_owned()),
        runtime_dir: Some("/run/user/1000".to_owned()),
        session_type: Some("wayland".to_owned()),
        current_desktop: Some(String::new()),
        hostname: None,
        config_home: None,
        home: Some("/home/u".to_owned()),
        system_config: "/etc/wiiland/wiilandd.conf".to_owned(),
        wayland_socket: open,
        x11_socket: PathFacts { probe: PathProbe::Present { socket: false }, readable: Some(true), writable: Some(false) },
        system_config_file: PathFacts { probe: PathProbe::Missing, readable: Some(false), writable: Some(false) },
        user_config_file: PathFacts { probe: PathProbe::Present { socket: false }, readable: Some(true), writable: None },
        uinput: PathFacts { probe: PathProbe::Present { socket: false }, readable: Some(false), writable: None },
        backend: "uinput".to_owned(),
        profile: "both".to_owned(),
        aim_mode: "mouse".to_owned(),
        aim_source: "auto".to_owned(),
        aim_activation: "always".to_owned(),
    }
}

#[test]
fn doctor_report_lists_every_readiness_fact_in_order() {
    let f = facts();
    assert_eq!(
        probed_paths(&f),
        (
            Some("/run/user/1000/wayland-0".to_owned()),
            Some("/tmp/.X11-unix/X1".to_owned()),
            Some("/home/u/.config/wiiland/wiilandd.conf".to_owned())
        )
    );
    assert_eq!(
        doctor_report(&f),
        "session.display-server=wayland\nsession.wayland=yes\nsession.x11=yes\n\
session.xwayland.available=no\nsession.type=wayland\nsession.desktop=unknown\n\
wayland.display=wayland-0\nxdg.runtime.dir=/run/user/1000\n\
wayland.socket.path=/run/user/1000/wayland-0\nwayland.socket.type=socket\n\
wayland.socket.exists=yes\nwayland.socket.readable=yes\nwayland.socket.writable=yes\n\
x11.display=:1\nx11.socket.path=/tmp/.X11-unix/X1\nx11.socket.type=other\n\
x11.socket.exists=yes\nx11.socket.readable=yes\nx11.socket.writable=no\n\
config.system.path=/etc/wiiland/wiilandd.conf\nconfig.system.exists=no\n\
config.system.readable=no\nconfig.user.path=/home/u/.config/wiiland/wiilandd.conf\n\
config.user.exists=yes\nconfig.user.readable=yes\ndev.uinput.exists=yes\n\
dev.uinput.readable=no\ndev.uinput.writable=unknown\nbackend=uinput\nprofile=both\n\
aim.mode=mouse\naim.source=auto\naim.activation=always\n"
    );
}

#[test]
fn doctor_report_without_a_display_is_headless() {
    let mut f = facts();
    f.wayland_display = Some(String::new());
    f.display = None;
    f.session_type = None;
    f.home = Some("relative".to_owned());
    let text = doctor_report(&f);
    assert!(text.starts_with("session.display-server=headless\nsession.wayland=no\nsession.x11=no\nsession.xwayland.available=not-applicable\nsession.type=unknown\n"));
    assert!(text.contains("\nwayland.socket.path=unknown\nwayland.socket.type=unknown\nwayland.socket.exists=unknown\nwayland.socket.readable=unknown\n"));
    assert!(text.contains("\nx11.display=unknown\nx11.socket.path=unknown\n"));
    assert!(text.contains("\nconfig.user.path=unknown\nconfig.user.exists=unknown\nconfig.user.readable=unknown\n"));
}
