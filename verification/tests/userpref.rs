use rusty_libimobiledevice::error::UserPrefError;
use rusty_libimobiledevice::services::userpref::read_pair_record;

#[test]
fn read_pair_record_hands_the_udid() {
    let mut seen = Vec::new();
    let r = read_pair_record("00008030-001A", |udid| {
        seen = udid;
        (0, "record")
    });
    assert_eq!(r, Ok("record"));
    assert_eq!(seen, b"00008030-001A\0".to_vec());
}

#[test]
fn read_pair_record_reports_missing_record() {
    assert_eq!(read_pair_record("abc", |_| (-2, "")), Err(UserPrefError::NoEnt));
    assert_eq!(read_pair_record("abc", |_| (-5, "")), Err(UserPrefError::ReadError));
}
