use rusty_libimobiledevice::error::NpError;
use rusty_libimobiledevice::services::notification_proxy::{notification_text, NotificationProxyClient};

type Client = NotificationProxyClient<&'static str>;

fn open(handle: usize) -> Client {
    match Client::new(7, 9, |_, _| (0, handle)) {
        Ok(c) => c,
        Err(e) => panic!("could not open: {:?}", e),
    }
}

#[test]
fn new_hands_device_and_service_and_keeps_handle() {
    let mut seen = (0, 0);
    let client = Client::new(11, 22, |d, s| {
        seen = (d, s);
        (0, 33)
    });
    assert_eq!(seen, (11, 22));
    let client = client.ok().unwrap();
    assert_eq!(client.handle(), 33);
    assert!(client.notify_callback().is_none());
}

#[test]
fn new_reports_the_error_of_the_code() {
    assert_eq!(Client::new(1, 2, |_, _| (-3, 5)).err(), Some(NpError::ConnFailed));
    assert_eq!(Client::new(1, 2, |_, _| (-1, 5)).err(), Some(NpError::InvalidArg));
    assert_eq!(Client::new(1, 2, |_, _| (-77, 5)).err(), Some(NpError::UnknownError));
}

#[test]
fn start_service_hands_the_label_as_c_string() {
    let mut seen = (0, Vec::new());
    let client = Client::start_service(4, "idevicelistapps", |d, label| {
        seen = (d, label);
        (0, 8)
    });
    assert_eq!(seen, (4, b"idevicelistapps\0".to_vec()));
    assert_eq!(client.ok().unwrap().handle(), 8);
    assert_eq!(
        Client::start_service(4, "x", |_, _| (-2, 0)).err(),
        Some(NpError::PlistError)
    );
}

#[test]
fn post_notification_hands_connection_and_name() {
    let client = open(42);
    let mut seen = (0, Vec::new());
    let r = client.post_notification("com.example.ping", |h, name| {
        seen = (h, name);
        0
    });
    assert_eq!(r, Ok(()));
    assert_eq!(seen, (42, b"com.example.ping\0".to_vec()));
    assert_eq!(client.post_notification("a", |_, _| -3), Err(NpError::ConnFailed));
}

#[test]
fn observe_notification_hands_connection_and_name() {
    let client = open(5);
    let mut seen = (0, Vec::new());
    let r = client.observe_notification("com.apple.itunes-client.syncCancelRequest", |h, name| {
        seen = (h, name);
        0
    });
    assert_eq!(r, Ok(()));
    assert_eq!(seen.0, 5);
    assert_eq!(seen.1, b"com.apple.itunes-client.syncCancelRequest\0".to_vec());
    assert_eq!(client.observe_notification("a", |_, _| -1), Err(NpError::InvalidArg));
}

#[test]
fn observe_notifications_hands_all_names_in_order() {
    let client = open(6);
    let mut seen = Vec::new();
    let r = client.observe_notifications(&["one", "two", "three"], |h, names| {
        assert_eq!(h, 6);
        seen = names;
        0
    });
    assert_eq!(r, Ok(()));
    assert_eq!(seen, vec![b"one\0".to_vec(), b"two\0".to_vec(), b"three\0".to_vec()]);
    let mut empty = vec![vec![1u8]];
    assert_eq!(client.observe_notifications(&[], |_, names| {
        empty = names;
        -256
    }), Err(NpError::UnknownError));
    assert!(empty.is_empty());
}

#[test]
fn set_notify_callback_replaces_the_previous_one() {
    let mut client = open(3);
    let mut registered = Vec::new();
    assert_eq!(client.set_notify_callback("first", |h, c| {
        registered.push((h, *c));
        0
    }), Ok(()));
    assert_eq!(client.notify_callback(), Some(&"first"));
    assert_eq!(client.set_notify_callback("second", |h, c| {
        registered.push((h, *c));
        0
    }), Ok(()));
    assert_eq!(client.notify_callback(), Some(&"second"));
    assert_eq!(registered, vec![(3, "first"), (3, "second")]);
}

#[test]
fn set_notify_callback_keeps_the_callback_on_error() {
    let mut client = open(3);
    assert_eq!(client.set_notify_callback("cb", |_, _| -3), Err(NpError::ConnFailed));
    assert_eq!(client.notify_callback(), Some(&"cb"));
    assert_eq!(client.handle(), 3);
}

#[test]
fn clear_notify_callback_removes_it() {
    let mut client = open(12);
    let _ = client.set_notify_callback("cb", |_, _| 0);
    let mut cleared = 0;
    let removed = client.clear_notify_callback(|h| {
        cleared = h;
        -1
    });
    assert_eq!(cleared, 12);
    assert_eq!(removed, Some("cb"));
    assert_eq!(client.clear_notify_callback(|_| 0), None);
    assert!(client.notify_callback().is_none());
}

#[test]
fn free_releases_after_the_callback_is_cleared() {
    let mut client = open(21);
    let _ = client.set_notify_callback("cb", |_, _| 0);
    let order = std::cell::RefCell::new(Vec::new());
    let removed = client.clear_notify_callback(|h| {
        order.borrow_mut().push(("unregister", h));
        0
    });
    assert_eq!(removed, Some("cb"));
    client.free(|h| order.borrow_mut().push(("release", h)));
    assert_eq!(order.into_inner(), vec![("unregister", 21), ("release", 21)]);
}

#[test]
fn notification_text_decodes_the_name() {
    assert_eq!(notification_text(b"com.apple.springboard.lockstate"), "com.apple.springboard.lockstate");
    assert_eq!(notification_text(b"bad\xc3"), "bad\u{FFFD}");
    assert_eq!(notification_text(b"lock\xffstate"), "lock\u{FFFD}state");
}
