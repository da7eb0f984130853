//! The IPC session of one client: the hello handshake that must open it,
//! the answer to each decoded request, the subscriptions that select its
//! notifications, and the bound on the bytes queued for it.

use vstd::prelude::*;

verus! {

/// The most bytes queued for one client; a client whose queue would grow
/// beyond it is closed.
pub const MAX_QUEUED_BYTES: usize = 262144;

/// What a subscription names.
#[derive(Clone, Copy, Debug, PartialEq, Eq, Structural)]
pub enum Subscription {
    All,
    Input,
    Devices,
    /// A subscription this daemon does not serve.
    Other,
}

/// A decoded request of a client.
#[derive(Clone, Debug)]
pub enum Request {
    /// The handshake, with the range of protocol major versions the client
    /// speaks.
    Hello { min_major: u32, max_major: u32 },
    Ping,
    Status,
    Devices,
    Subscribe(Vec<Subscription>),
    Unsubscribe(Vec<Subscription>),
    Unknown,
}

/// The kinds of protocol errors a request can be answered with.
#[derive(Clone, Copy, Debug, PartialEq, Eq, Structural)]
pub enum ErrorCode {
    UnsupportedVersion,
    InvalidRequest,
    UnknownCommand,
}

/// The answer to one request, correlated with it by the caller.
#[derive(Clone, Copy, Debug, PartialEq, Eq)]
pub enum Reply {
    /// The handshake succeeded: answer with the protocol and daemon version.
    Hello,
    Pong,
    /// Answer with the daemon's status.
    Status,
    /// Answer with the bridged devices.
    Devices,
    Subscribed,
    Unsubscribed,
    Error { code: ErrorCode, message: &'static str },
}

/// The state of one client's session.
#[derive(Clone, Copy, Debug, PartialEq, Eq, Structural)]
pub struct Session {
    /// Whether the hello handshake has succeeded.
    pub negotiated: bool,
    /// Whether the connection closes once its queue is written.
    pub closing: bool,
    /// Whether input notifications are sent.
    pub input: bool,
    /// Whether device notifications are sent.
    pub devices: bool,
}

/// What a notification is about.
#[derive(Clone, Copy, Debug, PartialEq, Eq, Structural)]
pub enum NotificationKind {
    Input,
    DeviceAdded,
    DeviceRemoved,
    Other,
}

/// Whether a session subscribed to notifications of a kind.
pub open spec fn wanted(s: Session, kind: NotificationKind) -> bool {
    match kind {
        NotificationKind::Input => s.input,
        NotificationKind::DeviceAdded => s.devices,
        NotificationKind::DeviceRemoved => s.devices,
        NotificationKind::Other => false,
    }
}

impl Session {
    /// A fresh session, before the handshake, with no subscription.
    pub fn new() -> (r: Self)
        ensures
            r == (Session { negotiated: false, closing: false, input: false, devices: false }),
    {
        Session { negotiated: false, closing: false, input: false, devices: false }
    }

    /// Whether the client subscribed to notifications of this kind.
    pub fn wants(&self, kind: NotificationKind) -> (r: bool)
        ensures
            r == wanted(*self, kind),
    {
        match kind {
            NotificationKind::Input => self.input,
            NotificationKind::DeviceAdded => self.devices,
            NotificationKind::DeviceRemoved => self.devices,
            NotificationKind::Other => false,
        }
    }
}

/// Whether a subscription list names input notifications.
pub open spec fn names_input(subs: Seq<Subscription>) -> bool {
    exists|k: int| 0 <= k < subs.len() && (subs[k] == Subscription::All || subs[k] == Subscription::Input)
}

/// Whether a subscription list names device notifications.
pub open spec fn names_devices(subs: Seq<Subscription>) -> bool {
    exists|k: int|
        0 <= k < subs.len() && (subs[k] == Subscription::All || subs[k] == Subscription::Devices)
}

/// The session after subscribing (`enabled`) or unsubscribing: each kind of
/// notification the list names is turned on or off, the others are kept.
pub open spec fn subscribed(s: Session, subs: Seq<Subscription>, enabled: bool) -> Session {
    Session {
        input: if names_input(subs) {
            enabled
        } else {
            s.input
        },
        devices: if names_devices(subs) {
            enabled
        } else {
            s.devices
        },
        ..s
    }
}

/// Turns the notifications a subscription list names on or off.
pub fn apply_subscriptions(session: &mut Session, subs: &Vec<Subscription>, enabled: bool)
    ensures
        *final(session) == subscribed(*old(session), subs@, enabled),
{
    let ghost start = *session;
    let mut i: usize = 0;
    while i < subs.len()
        invariant
            i <= subs@.len(),
            *session == subscribed(start, subs@.subrange(0, i as int), enabled),
        decreases subs@.len() - i,
    {
        let ghost prefix = subs@.subrange(0, i as int);
        let ghost next = subs@.subrange(0, i + 1);
        assert(next == prefix.push(subs@[i as int]));
        assert(names_input(next) == (names_input(prefix) || subs@[i as int] == Subscription::All
            || subs@[i as int] == Subscription::Input)) by {
            if names_input(next) {
                let k = choose|k: int|
                    0 <= k < next.len() && (next[k] == Subscription::All || next[k]
                        == Subscription::Input);
                if k < i {
                    assert(prefix[k] == next[k]);
                }
            }
            if names_input(prefix) {
                let k = choose|k: int|
                    0 <= k < prefix.len() && (prefix[k] == Subscription::All || prefix[k]
                        == Subscription::Input);
                assert(next[k] == prefix[k]);
            }
            if subs@[i as int] == Subscription::All || subs@[i as int] == Subscription::Input {
                assert(next[i as int] == subs@[i as int]);
            }
        }
        assert(names_devices(next) == (names_devices(prefix) || subs@[i as int]
            == Subscription::All || subs@[i as int] == Subscription::Devices)) by {
            if names_devices(next) {
                let k = choose|k: int|
                    0 <= k < next.len() && (next[k] == Subscription::All || next[k]
                        == Subscription::Devices);
                if k < i {
                    assert(prefix[k] == next[k]);
                }
            }
            if names_devices(prefix) {
                let k = choose|k: int|
                    0 <= k < prefix.len() && (prefix[k] == Subscription::All || prefix[k]
                        == Subscription::Devices);
                assert(next[k] == prefix[k]);
            }
            if subs@[i as int] == Subscription::All || subs@[i as int] == Subscription::Devices {
                assert(next[i as int] == subs@[i as int]);
            }
        }
        match subs[i] {
            Subscription::All => {
                session.input = enabled;
                session.devices = enabled;
            },
            Subscription::Input => {
                session.input = enabled;
            },
            Subscription::Devices => {
                session.devices = enabled;
            },
            Subscription::Other => {},
        }
        i = i + 1;
    }
    assert(subs@.subrange(0, subs@.len() as int) =~= subs@);
}

/// The session and the answer after one request, with `major` the protocol
/// major version this daemon speaks. Before the handshake only a hello is
/// accepted: one whose range holds `major` completes it, any other request
/// is refused and the connection closes. After it, each request is answered
/// and a second hello is refused.
pub open spec fn session_step(s: Session, req: Request, major: u32) -> (Session, Reply) {
    if !s.negotiated {
        match req {
            Request::Hello { min_major, max_major } => if min_major <= major && max_major >= major {
                (Session { negotiated: true, ..s }, Reply::Hello)
            } else {
                (
                    Session { closing: true, ..s },
                    Reply::Error {
                        code: ErrorCode::UnsupportedVersion,
                        message: "unsupported protocol version",
                    },
                )
            },
            _ => (
                Session { closing: true, ..s },
                Reply::Error { code: ErrorCode::InvalidRequest, message: "first request must be hello" },
            ),
        }
    } else {
        match req {
            Request::Hello { .. } => (
                s,
                Reply::Error { code: ErrorCode::InvalidRequest, message: "hello was already completed" },
            ),
            Request::Ping => (s, Reply::Pong),
            Request::Status => (s, Reply::Status),
            Request::Devices => (s, Reply::Devices),
            Request::Subscribe(subs) => (subscribed(s, subs@, true), Reply::Subscribed),
            Request::Unsubscribe(subs) => (subscribed(s, subs@, false), Reply::Unsubscribed),
            Request::Unknown => (
                s,
                Reply::Error { code: ErrorCode::UnknownCommand, message: "unknown command" },
            ),
        }
    }
}

/// Answers one decoded request and advances the session.
pub fn handle_request(session: &mut Session, req: &Request, major: u32) -> (r: Reply)
    ensures
        (*final(session), r) == session_step(*old(session), *req, major),
{
    if !session.negotiated {
        match req {
            Request::Hello { min_major, max_major } => {
                if *min_major <= major && *max_major >= major {
                    session.negotiated = true;
                    Reply::Hello
                } else {
                    session.closing = true;
                    Reply::Error {
                        code: ErrorCode::UnsupportedVersion,
                        message: "unsupported protocol version",
                    }
                }
            },
            _ => {
                session.closing = true;
                Reply::Error { code: ErrorCode::InvalidRequest, message: "first request must be hello" }
            },
        }
    } else {
        match req {
            Request::Hello { .. } => Reply::Error {
                code: ErrorCode::InvalidRequest,
                message: "hello was already completed",
            },
            Request::Ping => Reply::Pong,
            Request::Status => Reply::Status,
            Request::Devices => Reply::Devices,
            Request::Subscribe(subs) => {
                apply_subscriptions(session, subs, true);
                Reply::Subscribed
            },
            Request::Unsubscribe(subs) => {
                apply_subscriptions(session, subs, false);
                Reply::Unsubscribed
            },
            Request::Unknown => Reply::Error {
                code: ErrorCode::UnknownCommand,
                message: "unknown command",
            },
        }
    }
}

/// Whether a notification of `kind` goes to a client: only after its
/// handshake, while it is open, and when it subscribed to that kind.
pub fn receives(session: &Session, closed: bool, kind: NotificationKind) -> (r: bool)
    ensures
        r == (session.negotiated && !session.closing && !closed && wanted(*session, kind)),
{
    session.negotiated && !session.closing && !closed && session.wants(kind)
}

/// The bytes queued for a client after queueing `len` more, or `None` when
/// that would exceed `MAX_QUEUED_BYTES` (the client is then closed and the
/// frame dropped).
pub fn queue_after(queued: usize, len: usize) -> (r: Option<usize>)
    ensures
        queued + len <= MAX_QUEUED_BYTES ==> r == Some((queued + len) as usize),
        queued + len > MAX_QUEUED_BYTES ==> r is None,
{
    let total = queued.saturating_add(len);
    if total > MAX_QUEUED_BYTES {
        None
    } else {
        Some(total)
    }
}

/// Until the handshake succeeds, every request other than a matching hello
/// closes the connection, and no request changes the subscriptions.
pub proof fn lemma_handshake_comes_first(s: Session, req: Request, major: u32)
    requires
        !s.negotiated,
    ensures
        ({
            let (t, reply) = session_step(s, req, major);
            &&& t.input == s.input && t.devices == s.devices
            &&& (t.negotiated <==> reply == Reply::Hello)
            &&& (!t.negotiated ==> t.closing)
        }),
{
}

/// After the handshake, no request closes the connection or undoes the
/// handshake.
pub proof fn lemma_negotiated_session_stays_open(s: Session, req: Request, major: u32)
    requires
        s.negotiated,
    ensures
        session_step(s, req, major).0.negotiated,
        session_step(s, req, major).0.closing == s.closing,
{
}

/// Unsubscribing from what was just subscribed restores the earlier
/// subscriptions when they were off, and subscribing twice is subscribing
/// once.
pub proof fn lemma_subscriptions_undo(s: Session, subs: Seq<Subscription>)
    ensures
        !s.input && !s.devices ==> subscribed(subscribed(s, subs, true), subs, false) == s,
        subscribed(subscribed(s, subs, true), subs, true) == subscribed(s, subs, true),
{
}

} // verus!
