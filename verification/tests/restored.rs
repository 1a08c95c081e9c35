use rusty_libimobiledevice::error::RestoredError;
use rusty_libimobiledevice::services::restored::RestoredClient;

fn open(handle: usize) -> RestoredClient {
    RestoredClient::new(1, "restore", |_, _| (0, handle)).ok().unwrap()
}

#[test]
fn new_hands_device_and_label() {
    let mut seen = (0, Vec::new());
    let client = RestoredClient::new(9, "restorer", |d, l| {
        seen = (d, l);
        (0, 77)
    });
    assert_eq!(seen, (9, b"restorer\0".to_vec()));
    assert_eq!(client.ok().unwrap().handle(), 77);
    assert_eq!(
        RestoredClient::new(9, "r", |_, _| (-3, 0)).err(),
        Some(RestoredError::MuxError)
    );
}

#[test]
fn query_type_decodes_the_type() {
    let client = open(4);
    let r = client.query_type(|h| {
        assert_eq!(h, 4);
        (0, b"com.apple.mobile.restored".to_vec(), 2)
    });
    assert_eq!(r, Ok(("com.apple.mobile.restored".to_string(), 2)));
    assert_eq!(client.query_type(|_| (-5, Vec::new(), 0)), Err(RestoredError::ReceiveTimeout));
}

#[test]
fn query_value_hands_key_and_returns_value() {
    let client = open(4);
    let mut seen = Vec::new();
    let r = client.query_value("HardwareModel", |h, key| {
        assert_eq!(h, 4);
        seen = key;
        (0, "N104AP")
    });
    assert_eq!(r, Ok("N104AP"));
    assert_eq!(seen, b"HardwareModel\0".to_vec());
    assert_eq!(client.query_value("X", |_, _| (-2, "ignored")), Err(RestoredError::PlistError));
}

#[test]
fn get_value_hands_key_and_returns_value() {
    let client = open(8);
    let r = client.get_value("SavePath", |h, key| {
        assert_eq!((h, key), (8, b"SavePath\0".to_vec()));
        (0, 5u32)
    });
    assert_eq!(r, Ok(5u32));
    assert_eq!(client.get_value("SavePath", |_, _| (-4, 0u32)), Err(RestoredError::NotEnoughData));
}

#[test]
fn send_hands_the_message() {
    let client = open(2);
    let mut seen = (0, "");
    assert_eq!(client.send("message", |h, m| {
        seen = (h, m);
        0
    }), Ok(()));
    assert_eq!(seen, (2, "message"));
    assert_eq!(client.send("m", |_, _| -1), Err(RestoredError::InvalidArg));
}

#[test]
fn receive_returns_the_message() {
    let client = open(2);
    assert_eq!(client.receive(|h| (0, h * 10)), Ok(20));
    assert_eq!(client.receive(|_| (-9, 0)), Err(RestoredError::UnknownError));
}

#[test]
fn start_restore_hands_options_and_version() {
    let client = open(3);
    let mut seen = (0, None, 0);
    assert_eq!(client.start_restore(Some("opts"), 14, |h, o, v| {
        seen = (h, o, v);
        0
    }), Ok(()));
    assert_eq!(seen, (3, Some("opts"), 14));
    assert_eq!(client.start_restore::<&str, _>(None, 1, |_, o, _| {
        assert!(o.is_none());
        -3
    }), Err(RestoredError::MuxError));
}

#[test]
fn goodbye_says_goodbye_then_releases() {
    let client = open(6);
    let order = std::cell::RefCell::new(Vec::new());
    let r = client.goodbye(
        |h| {
            order.borrow_mut().push(("goodbye", h, 0));
            -5
        },
        |h, status| order.borrow_mut().push(("release", h, status)),
    );
    assert_eq!(r, Err(RestoredError::ReceiveTimeout));
    assert_eq!(order.into_inner(), vec![("goodbye", 6, 0), ("release", 6, -5)]);
}

#[test]
fn reboot_reboots_then_releases() {
    let client = open(7);
    let order = std::cell::RefCell::new(Vec::new());
    let r = client.reboot(
        |h| {
            order.borrow_mut().push(("reboot", h, 0));
            0
        },
        |h, status| order.borrow_mut().push(("release", h, status)),
    );
    assert_eq!(r, Ok(()));
    assert_eq!(order.into_inner(), vec![("reboot", 7, 0), ("release", 7, 0)]);
    let r = open(8).reboot(|_| -3, |_, _| {});
    assert_eq!(r, Err(RestoredError::MuxError));
}

#[test]
fn query_type_reads_valid_text_exactly() {
    let client = open(4);
    let r = client.query_type(|_| (0, "restoré".as_bytes().to_vec(), 0));
    assert_eq!(r, Ok(("restoré".to_string(), 0)));
}

#[test]
fn set_label_hands_the_label() {
    let client = open(5);
    let mut seen = (0, Vec::new());
    client.set_label("new label", |h, l| seen = (h, l));
    assert_eq!(seen, (5, b"new label\0".to_vec()));
}

#[test]
fn free_releases_the_connection() {
    let client = open(13);
    let mut released = 0;
    client.free(|h| released = h);
    assert_eq!(released, 13);
}
