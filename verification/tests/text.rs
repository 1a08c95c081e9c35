use rusty_libimobiledevice::text::{c_string, decode_lossy};

#[test]
fn c_string_appends_nul() {
    assert_eq!(c_string("abc"), b"abc\0".to_vec());
    assert_eq!(c_string(""), vec![0u8]);
}

#[test]
fn c_string_encodes_utf8() {
    assert_eq!(c_string("é€😀"), "é€😀\0".as_bytes().to_vec());
}

#[test]
fn decode_lossy_reads_valid_utf8() {
    assert_eq!(decode_lossy("héllo".as_bytes()), "héllo");
    assert_eq!(decode_lossy(b""), "");
}

#[test]
fn decode_lossy_replaces_invalid_bytes() {
    assert_eq!(decode_lossy(b"a\xffb"), "a\u{FFFD}b");
}

#[test]
fn c_string_round_trip_through_decode() {
    let s = "com.apple.mobile.application_installed";
    let bytes = c_string(s);
    assert_eq!(decode_lossy(&bytes[..bytes.len() - 1]), s);
}

#[test]
fn decode_lossy_replaces_a_lone_ff_byte() {
    assert_eq!(decode_lossy(b"\xff"), "\u{FFFD}");
    assert_eq!(decode_lossy("é\u{ff}".as_bytes()), "é\u{ff}");
    assert_eq!(decode_lossy(b"x\xff\xffy"), "x\u{FFFD}\u{FFFD}y");
}
