use rusty_libimobiledevice::error::{
    np_result, restored_result, userpref_result, NpError, RestoredError, UserPrefError,
};

#[test]
fn np_codes_read_as_their_status() {
    assert_eq!(NpError::from(0), NpError::Success);
    assert_eq!(NpError::from(-1), NpError::InvalidArg);
    assert_eq!(NpError::from(-2), NpError::PlistError);
    assert_eq!(NpError::from(-3), NpError::ConnFailed);
    assert_eq!(NpError::from(-256), NpError::UnknownError);
    assert_eq!(NpError::from(-4), NpError::UnknownError);
    assert_eq!(NpError::from(7), NpError::UnknownError);
}

#[test]
fn np_status_round_trip() {
    for e in [
        NpError::Success,
        NpError::InvalidArg,
        NpError::PlistError,
        NpError::ConnFailed,
        NpError::UnknownError,
    ] {
        assert_eq!(NpError::from(e.code()), e);
    }
    assert_eq!(NpError::UnknownError.code(), -256);
}

#[test]
fn np_result_is_ok_only_for_zero() {
    assert_eq!(np_result(0), Ok(()));
    assert_eq!(np_result(-3), Err(NpError::ConnFailed));
    assert_eq!(np_result(1), Err(NpError::UnknownError));
}

#[test]
fn restored_codes_read_as_their_status() {
    assert_eq!(RestoredError::from(0), RestoredError::Success);
    assert_eq!(RestoredError::from(-1), RestoredError::InvalidArg);
    assert_eq!(RestoredError::from(-2), RestoredError::PlistError);
    assert_eq!(RestoredError::from(-3), RestoredError::MuxError);
    assert_eq!(RestoredError::from(-4), RestoredError::NotEnoughData);
    assert_eq!(RestoredError::from(-5), RestoredError::ReceiveTimeout);
    assert_eq!(RestoredError::from(-256), RestoredError::UnknownError);
    assert_eq!(RestoredError::from(-6), RestoredError::UnknownError);
    for e in [
        RestoredError::Success,
        RestoredError::InvalidArg,
        RestoredError::PlistError,
        RestoredError::MuxError,
        RestoredError::NotEnoughData,
        RestoredError::ReceiveTimeout,
        RestoredError::UnknownError,
    ] {
        assert_eq!(RestoredError::from(e.code()), e);
    }
}

#[test]
fn restored_result_is_ok_only_for_zero() {
    assert_eq!(restored_result(0), Ok(()));
    assert_eq!(restored_result(-5), Err(RestoredError::ReceiveTimeout));
    assert_eq!(restored_result(-100), Err(RestoredError::UnknownError));
}

#[test]
fn userpref_codes_read_as_their_status() {
    assert_eq!(UserPrefError::from(0), UserPrefError::Success);
    assert_eq!(UserPrefError::from(-1), UserPrefError::InvalidArg);
    assert_eq!(UserPrefError::from(-2), UserPrefError::NoEnt);
    assert_eq!(UserPrefError::from(-3), UserPrefError::InvalidConf);
    assert_eq!(UserPrefError::from(-4), UserPrefError::SslError);
    assert_eq!(UserPrefError::from(-5), UserPrefError::ReadError);
    assert_eq!(UserPrefError::from(-6), UserPrefError::WriteError);
    assert_eq!(UserPrefError::from(-256), UserPrefError::UnknownError);
    assert_eq!(UserPrefError::from(-7), UserPrefError::UnknownError);
    for e in [
        UserPrefError::Success,
        UserPrefError::InvalidArg,
        UserPrefError::NoEnt,
        UserPrefError::InvalidConf,
        UserPrefError::SslError,
        UserPrefError::ReadError,
        UserPrefError::WriteError,
        UserPrefError::UnknownError,
    ] {
        assert_eq!(UserPrefError::from(e.code()), e);
    }
}

#[test]
fn userpref_result_is_ok_only_for_zero() {
    assert_eq!(userpref_result(0), Ok(()));
    assert_eq!(userpref_result(-2), Err(UserPrefError::NoEnt));
}
