use wiiland::session::{
    apply_subscriptions, handle_request, queue_after, receives, ErrorCode, NotificationKind, Reply,
    Request, Session, Subscription, MAX_QUEUED_BYTES,
};

#[test]
fn the_first_request_must_be_a_matching_hello() {
    let mut s = Session::new();
    let r = handle_request(&mut s, &Request::Ping, 1);
    assert_eq!(r, Reply::Error { code: ErrorCode::InvalidRequest, message: "first request must be hello" });
    assert!(s.closing && !s.negotiated);

    let mut s = Session::new();
    let r = handle_request(&mut s, &Request::Hello { min_major: 2, max_major: 3 }, 1);
    assert_eq!(r, Reply::Error { code: ErrorCode::UnsupportedVersion, message: "unsupported protocol version" });
    assert!(s.closing && !s.negotiated);

    let mut s = Session::new();
    assert_eq!(handle_request(&mut s, &Request::Hello { min_major: 1, max_major: 4 }, 1), Reply::Hello);
    assert!(s.negotiated && !s.closing);
    assert_eq!(
        handle_request(&mut s, &Request::Hello { min_major: 1, max_major: 1 }, 1),
        Reply::Error { code: ErrorCode::InvalidRequest, message: "hello was already completed" }
    );
    assert_eq!(handle_request(&mut s, &Request::Ping, 1), Reply::Pong);
    assert_eq!(handle_request(&mut s, &Request::Status, 1), Reply::Status);
    assert_eq!(handle_request(&mut s, &Request::Devices, 1), Reply::Devices);
    assert_eq!(
        handle_request(&mut s, &Request::Unknown, 1),
        Reply::Error { code: ErrorCode::UnknownCommand, message: "unknown command" }
    );
    assert!(s.negotiated && !s.closing);
}

#[test]
fn subscriptions_select_notifications() {
    let mut s = Session::new();
    handle_request(&mut s, &Request::Hello { min_major: 1, max_major: 1 }, 1);
    assert!(!receives(&s, false, NotificationKind::Input));
    assert_eq!(handle_request(&mut s, &Request::Subscribe(vec![Subscription::Input]), 1), Reply::Subscribed);
    assert!(receives(&s, false, NotificationKind::Input));
    assert!(!receives(&s, false, NotificationKind::DeviceAdded));
    assert!(!receives(&s, true, NotificationKind::Input));
    assert_eq!(handle_request(&mut s, &Request::Subscribe(vec![Subscription::All]), 1), Reply::Subscribed);
    assert!(s.wants(NotificationKind::DeviceRemoved));
    assert!(!s.wants(NotificationKind::Other));
    assert_eq!(
        handle_request(&mut s, &Request::Unsubscribe(vec![Subscription::Devices, Subscription::Other]), 1),
        Reply::Unsubscribed
    );
    assert!(s.input && !s.devices);

    let mut fresh = Session::new();
    apply_subscriptions(&mut fresh, &vec![Subscription::Devices, Subscription::Input], true);
    assert!(fresh.input && fresh.devices);
    apply_subscriptions(&mut fresh, &vec![Subscription::All], false);
    assert!(!fresh.input && !fresh.devices);
    let mut before = Session::new();
    handle_request(&mut before, &Request::Subscribe(vec![Subscription::All]), 1);
    assert!(!before.input && !before.devices);
}

#[test]
fn queued_bytes_are_bounded() {
    assert_eq!(MAX_QUEUED_BYTES, 256 * 1024);
    assert_eq!(queue_after(0, 100), Some(100));
    assert_eq!(queue_after(MAX_QUEUED_BYTES - 10, 10), Some(MAX_QUEUED_BYTES));
    assert_eq!(queue_after(MAX_QUEUED_BYTES - 10, 11), None);
    assert_eq!(queue_after(usize::MAX, 1), None);
}
