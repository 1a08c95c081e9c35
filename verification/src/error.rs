//! Status codes of the device services and the errors they stand for.

use vstd::prelude::*;
use vstd::std_specs::convert::FromSpecImpl;

verus! {

/// Status of a call into the notification proxy.
#[derive(Debug, Clone, Copy, PartialEq, Eq, Structural)]
pub enum NpError {
    /// The operation succeeded.
    Success,
    /// An argument was invalid.
    InvalidArg,
    /// A property list could not be built or read.
    PlistError,
    /// The connection to the service failed.
    ConnFailed,
    /// Any other failure.
    UnknownError,
}

impl NpError {
    /// The status that the notification proxy reports with `code`; codes it does not
    /// define all stand for `UnknownError`.
    pub open spec fn from_code_spec(code: i32) -> NpError {
        if code == 0 {
            NpError::Success
        } else if code == -1 {
            NpError::InvalidArg
        } else if code == -2 {
            NpError::PlistError
        } else if code == -3 {
            NpError::ConnFailed
        } else {
            NpError::UnknownError
        }
    }

    /// The code by which the service reports this status.
    pub open spec fn code_spec(self) -> i32 {
        match self {
            NpError::Success => 0i32,
            NpError::InvalidArg => -1i32,
            NpError::PlistError => -2i32,
            NpError::ConnFailed => -3i32,
            NpError::UnknownError => -256i32,
        }
    }

    /// The code by which the service reports this status.
    pub fn code(&self) -> (c: i32)
        ensures
            c == self.code_spec(),
    {
        match self {
            NpError::Success => 0,
            NpError::InvalidArg => -1,
            NpError::PlistError => -2,
            NpError::ConnFailed => -3,
            NpError::UnknownError => -256,
        }
    }
}

impl From<i32> for NpError {
    fn from(code: i32) -> (e: NpError) {
        match code {
            0 => NpError::Success,
            -1 => NpError::InvalidArg,
            -2 => NpError::PlistError,
            -3 => NpError::ConnFailed,
            _ => NpError::UnknownError,
        }
    }
}

impl FromSpecImpl<i32> for NpError {
    open spec fn obeys_from_spec() -> bool {
        true
    }

    open spec fn from_spec(v: i32) -> NpError {
        NpError::from_code_spec(v)
    }
}

/// What a call into the notification proxy that reported `code` returns: `Ok` on
/// success, else the error that the code stands for.
pub open spec fn np_outcome(code: i32) -> Result<(), NpError> {
    if code == 0 {
        Ok(())
    } else {
        Err(NpError::from_code_spec(code))
    }
}

/// Turns the status code of a call into the notification proxy into a `Result`.
pub fn np_result(code: i32) -> (r: Result<(), NpError>)
    ensures
        r == np_outcome(code),
{
    let status = NpError::from(code);
    if status != NpError::Success {
        Err(status)
    } else {
        Ok(())
    }
}

/// Each status is read back from the code that reports it.
pub proof fn lemma_np_code_round_trip(e: NpError)
    ensures
        NpError::from_code_spec(e.code_spec()) == e,
{
}

/// A code is read as success exactly when it is zero, and every code that
/// the notification proxy defines is read as the status that reports it.
pub proof fn lemma_np_code_reading(code: i32)
    ensures
        (NpError::from_code_spec(code) == NpError::Success) <==> (code == 0),
        (NpError::from_code_spec(code).code_spec() == code) <==> (code == 0 || code == -1 || code == -2 || code == -3 || code == -256),
        np_outcome(code) is Ok <==> code == 0,
{
}

/// Status of a call into the restore service.
#[derive(Debug, Clone, Copy, PartialEq, Eq, Structural)]
pub enum RestoredError {
    /// The operation succeeded.
    Success,
    /// An argument was invalid.
    InvalidArg,
    /// A property list could not be built or read.
    PlistError,
    /// The multiplexing connection failed.
    MuxError,
    /// Too little data was received.
    NotEnoughData,
    /// No reply came in time.
    ReceiveTimeout,
    /// Any other failure.
    UnknownError,
}

impl RestoredError {
    /// The status that the restore service reports with `code`; codes it does not
    /// define all stand for `UnknownError`.
    pub open spec fn from_code_spec(code: i32) -> RestoredError {
        if code == 0 {
            RestoredError::Success
        } else if code == -1 {
            RestoredError::InvalidArg
        } else if code == -2 {
            RestoredError::PlistError
        } else if code == -3 {
            RestoredError::MuxError
        } else if code == -4 {
            RestoredError::NotEnoughData
        } else if code == -5 {
            RestoredError::ReceiveTimeout
        } else {
            RestoredError::UnknownError
        }
    }

    /// The code by which the service reports this status.
    pub open spec fn code_spec(self) -> i32 {
        match self {
            RestoredError::Success => 0i32,
            RestoredError::InvalidArg => -1i32,
            RestoredError::PlistError => -2i32,
            RestoredError::MuxError => -3i32,
            RestoredError::NotEnoughData => -4i32,
            RestoredError::ReceiveTimeout => -5i32,
            RestoredError::UnknownError => -256i32,
        }
    }

    /// The code by which the service reports this status.
    pub fn code(&self) -> (c: i32)
        ensures
            c == self.code_spec(),
    {
        match self {
            RestoredError::Success => 0,
            RestoredError::InvalidArg => -1,
            RestoredError::PlistError => -2,
            RestoredError::MuxError => -3,
            RestoredError::NotEnoughData => -4,
            RestoredError::ReceiveTimeout => -5,
            RestoredError::UnknownError => -256,
        }
    }
}

impl From<i32> for RestoredError {
    fn from(code: i32) -> (e: RestoredError) {
        match code {
            0 => RestoredError::Success,
            -1 => RestoredError::InvalidArg,
            -2 => RestoredError::PlistError,
            -3 => RestoredError::MuxError,
            -4 => RestoredError::NotEnoughData,
            -5 => RestoredError::ReceiveTimeout,
            _ => RestoredError::UnknownError,
        }
    }
}

impl FromSpecImpl<i32> for RestoredError {
    open spec fn obeys_from_spec() -> bool {
        true
    }

    open spec fn from_spec(v: i32) -> RestoredError {
        RestoredError::from_code_spec(v)
    }
}

/// What a call into the restore service that reported `code` returns: `Ok` on
/// success, else the error that the code stands for.
pub open spec fn restored_outcome(code: i32) -> Result<(), RestoredError> {
    if code == 0 {
        Ok(())
    } else {
        Err(RestoredError::from_code_spec(code))
    }
}

/// Turns the status code of a call into the restore service into a `Result`.
pub fn restored_result(code: i32) -> (r: Result<(), RestoredError>)
    ensures
        r == restored_outcome(code),
{
    let status = RestoredError::from(code);
    if status != RestoredError::Success {
        Err(status)
    } else {
        Ok(())
    }
}

/// Each status is read back from the code that reports it.
pub proof fn lemma_restored_code_round_trip(e: RestoredError)
    ensures
        RestoredError::from_code_spec(e.code_spec()) == e,
{
}

/// A code is read as success exactly when it is zero, and every code that
/// the restore service defines is read as the status that reports it.
pub proof fn lemma_restored_code_reading(code: i32)
    ensures
        (RestoredError::from_code_spec(code) == RestoredError::Success) <==> (code == 0),
        (RestoredError::from_code_spec(code).code_spec() == code) <==> (code == 0 || code == -1 || code == -2 || code == -3 || code == -4 || code == -5 || code == -256),
        restored_outcome(code) is Ok <==> code == 0,
{
}

/// Status of a call into the pairing record store.
#[derive(Debug, Clone, Copy, PartialEq, Eq, Structural)]
pub enum UserPrefError {
    /// The operation succeeded.
    Success,
    /// An argument was invalid.
    InvalidArg,
    /// No record exists for the device.
    NoEnt,
    /// The stored configuration is invalid.
    InvalidConf,
    /// A certificate operation failed.
    SslError,
    /// The record could not be read.
    ReadError,
    /// The record could not be written.
    WriteError,
    /// Any other failure.
    UnknownError,
}

impl UserPrefError {
    /// The status that the pairing record store reports with `code`; codes it does not
    /// define all stand for `UnknownError`.
    pub open spec fn from_code_spec(code: i32) -> UserPrefError {
        if code == 0 {
            UserPrefError::Success
        } else if code == -1 {
            UserPrefError::InvalidArg
        } else if code == -2 {
            UserPrefError::NoEnt
        } else if code == -3 {
            UserPrefError::InvalidConf
        } else if code == -4 {
            UserPrefError::SslError
        } else if code == -5 {
            UserPrefError::ReadError
        } else if code == -6 {
            UserPrefError::WriteError
        } else {
            UserPrefError::UnknownError
        }
    }

    /// The code by which the service reports this status.
    pub open spec fn code_spec(self) -> i32 {
        match self {
            UserPrefError::Success => 0i32,
            UserPrefError::InvalidArg => -1i32,
            UserPrefError::NoEnt => -2i32,
            UserPrefError::InvalidConf => -3i32,
            UserPrefError::SslError => -4i32,
            UserPrefError::ReadError => -5i32,
            UserPrefError::WriteError => -6i32,
            UserPrefError::UnknownError => -256i32,
        }
    }

    /// The code by which the service reports this status.
    pub fn code(&self) -> (c: i32)
        ensures
            c == self.code_spec(),
    {
        match self {
            UserPrefError::Success => 0,
            UserPrefError::InvalidArg => -1,
            UserPrefError::NoEnt => -2,
            UserPrefError::InvalidConf => -3,
            UserPrefError::SslError => -4,
            UserPrefError::ReadError => -5,
            UserPrefError::WriteError => -6,
            UserPrefError::UnknownError => -256,
        }
    }
}

impl From<i32> for UserPrefError {
    fn from(code: i32) -> (e: UserPrefError) {
        match code {
            0 => UserPrefError::Success,
            -1 => UserPrefError::InvalidArg,
            -2 => UserPrefError::NoEnt,
            -3 => UserPrefError::InvalidConf,
            -4 => UserPrefError::SslError,
            -5 => UserPrefError::ReadError,
            -6 => UserPrefError::WriteError,
            _ => UserPrefError::UnknownError,
        }
    }
}

impl FromSpecImpl<i32> for UserPrefError {
    open spec fn obeys_from_spec() -> bool {
        true
    }

    open spec fn from_spec(v: i32) -> UserPrefError {
        UserPrefError::from_code_spec(v)
    }
}

/// What a call into the pairing record store that reported `code` returns: `Ok` on
/// success, else the error that the code stands for.
pub open spec fn userpref_outcome(code: i32) -> Result<(), UserPrefError> {
    if code == 0 {
        Ok(())
    } else {
        Err(UserPrefError::from_code_spec(code))
    }
}

/// Turns the status code of a call into the pairing record store into a `Result`.
pub fn userpref_result(code: i32) -> (r: Result<(), UserPrefError>)
    ensures
        r == userpref_outcome(code),
{
    let status = UserPrefError::from(code);
    if status != UserPrefError::Success {
        Err(status)
    } else {
        Ok(())
    }
}

/// Each status is read back from the code that reports it.
pub proof fn lemma_userpref_code_round_trip(e: UserPrefError)
    ensures
        UserPrefError::from_code_spec(e.code_spec()) == e,
{
}

/// A code is read as success exactly when it is zero, and every code that
/// the pairing record store defines is read as the status that reports it.
pub proof fn lemma_userpref_code_reading(code: i32)
    ensures
        (UserPrefError::from_code_spec(code) == UserPrefError::Success) <==> (code == 0),
        (UserPrefError::from_code_spec(code).code_spec() == code) <==> (code == 0 || code == -1 || code == -2 || code == -3 || code == -4 || code == -5 || code == -6 || code == -256),
        userpref_outcome(code) is Ok <==> code == 0,
{
}

} // verus!
