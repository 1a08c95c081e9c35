//! A client of the restore service, which a device runs while it is being
//! restored to a backup or to a system version.
//!
//! Each operation hands one request to a function given by the caller, which
//! performs it on the device connection and reports the status code, with
//! what the service sent back; the client decides from that what the
//! operation returns.

use vstd::prelude::*;
use vstd::utf8::{valid_utf8, decode_utf8};
use crate::error::{RestoredError, restored_outcome, restored_result};
use crate::text::{c_string, c_string_bytes, is_c_compatible, decode_lossy, utf8_lossy};

verus! {

/// A connection to the restore service of a device.
pub struct RestoredClient {
    handle: usize,
}

/// Whether `r` is what opening a client returns when the service replied
/// with status `reply.0` and connection handle `reply.1`.
pub open spec fn restored_opened(reply: (i32, usize), r: Result<RestoredClient, RestoredError>) -> bool {
    match r {
        Ok(client) => reply.0 == 0 && client.spec_handle() == reply.1,
        Err(e) => reply.0 != 0 && e == RestoredError::from_code_spec(reply.0),
    }
}

/// What an operation that fetches a value returns, when the service replied
/// with status `reply.0` and value `reply.1`.
pub open spec fn restored_fetched<V>(reply: (i32, V)) -> Result<V, RestoredError> {
    if reply.0 == 0 {
        Ok(reply.1)
    } else {
        Err(RestoredError::from_code_spec(reply.0))
    }
}

/// Whether `r` is what asking for the type of the service returns, when it
/// replied with status `reply.0`, the C string `reply.1` (without its NUL)
/// and the protocol version `reply.2`. Bytes that are valid UTF-8 give the
/// text they encode.
pub open spec fn restored_typed(reply: (i32, Vec<u8>, u64), r: Result<(String, u64), RestoredError>) -> bool {
    match r {
        Ok((kind, version)) => {
            &&& reply.0 == 0
            &&& kind@ == utf8_lossy(reply.1@)
            &&& valid_utf8(reply.1@) ==> kind@ == decode_utf8(reply.1@)
            &&& version == reply.2
        },
        Err(e) => reply.0 != 0 && e == RestoredError::from_code_spec(reply.0),
    }
}

/// A fetch succeeds exactly when the service reports success, and then
/// gives the value the service replied; otherwise it fails with the error
/// that the code stands for, as every other operation of the service does.
pub proof fn lemma_restored_fetched<V>(reply: (i32, V))
    ensures
        restored_fetched(reply) is Ok <==> reply.0 == 0,
        reply.0 == 0 ==> restored_fetched(reply) == Ok::<V, RestoredError>(reply.1),
        reply.0 != 0 ==> restored_fetched(reply) == Err::<V, RestoredError>(RestoredError::from_code_spec(reply.0)),
        restored_fetched(reply) is Ok <==> restored_outcome(reply.0) is Ok,
{
}

/// Asking for the type succeeds exactly when the service reports success,
/// with the version it replied; otherwise it fails with the error that the
/// code stands for.
pub proof fn lemma_restored_typed(reply: (i32, Vec<u8>, u64), r: Result<(String, u64), RestoredError>)
    requires
        restored_typed(reply, r),
    ensures
        r is Ok <==> reply.0 == 0,
        r matches Ok(t) ==> t.1 == reply.2 && t.0@ == utf8_lossy(reply.1@),
        r matches Err(e) ==> e == RestoredError::from_code_spec(reply.0),
        r is Ok <==> restored_outcome(reply.0) is Ok,
{
}

/// Opening a client succeeds exactly when the service reports success, and
/// the client holds the connection the service replied.
pub proof fn lemma_restored_opened(reply: (i32, usize), r: Result<RestoredClient, RestoredError>)
    requires
        restored_opened(reply, r),
    ensures
        r is Ok <==> reply.0 == 0,
        r matches Ok(c) ==> c.spec_handle() == reply.1,
        r matches Err(e) ==> e == RestoredError::from_code_spec(reply.0),
{
}

impl RestoredClient {
    /// The handle of the connection.
    pub closed spec fn spec_handle(&self) -> usize {
        self.handle
    }

    /// The handle of the connection.
    pub fn handle(&self) -> (h: usize)
        ensures
            h == self.spec_handle(),
    {
        self.handle
    }

    /// Opens a client on the restore service of `device`; `label` names the
    /// connection.
    ///
    /// `connect` is given the device and the C string of the label, opens the
    /// connection, and replies its status code and its handle.
    pub fn new<F>(device: usize, label: &str, connect: F) -> (r: Result<Self, RestoredError>)
        where
            F: FnOnce(usize, Vec<u8>) -> (i32, usize),
        requires
            is_c_compatible(label@),
            forall|b: Vec<u8>| b@ == c_string_bytes(label@) ==> #[trigger] connect.requires((device, b)),
        ensures
            exists|b: Vec<u8>, reply: (i32, usize)|
                #[trigger] connect.ensures((device, b), reply)
                && b@ == c_string_bytes(label@)
                && restored_opened(reply, r),
    {
        let label_c = c_string(label);
        let ghost b = label_c;
        let (code, handle) = connect(device, label_c);
        assert(connect.ensures((device, b), (code, handle)));
        match restored_result(code) {
            Ok(()) => Ok(RestoredClient { handle }),
            Err(e) => Err(e),
        }
    }

    /// Asks the service for its type and the version of its protocol.
    ///
    /// `query` is given the connection and replies the status code, the C
    /// string of the type (without its NUL) and the version.
    pub fn query_type<F>(&self, query: F) -> (r: Result<(String, u64), RestoredError>)
        where
            F: FnOnce(usize) -> (i32, Vec<u8>, u64),
        requires
            query.requires((self.spec_handle(),)),
        ensures
            exists|reply: (i32, Vec<u8>, u64)|
                #[trigger] query.ensures((self.spec_handle(),), reply)
                && restored_typed(reply, r)
                && (r is Ok <==> reply.0 == 0)
                && (r matches Ok(t) ==> t.1 == reply.2 && t.0@ == utf8_lossy(reply.1@))
                && (r matches Err(e) ==> e == RestoredError::from_code_spec(reply.0)),
    {
        let (code, kind, version) = query(self.handle);
        let ghost reply = (code, kind, version);
        assert(query.ensures((self.spec_handle(),), reply));
        match restored_result(code) {
            Ok(()) => {
                let text = decode_lossy(kind.as_slice());
                Ok((text, version))
            },
            Err(e) => Err(e),
        }
    }

    /// Asks the service for the value stored under `key`.
    ///
    /// `query` is given the connection and the C string of the key, and
    /// replies the status code and the value.
    pub fn query_value<V, F>(&self, key: &str, query: F) -> (r: Result<V, RestoredError>)
        where
            F: FnOnce(usize, Vec<u8>) -> (i32, V),
        requires
            is_c_compatible(key@),
            forall|b: Vec<u8>| b@ == c_string_bytes(key@) ==> #[trigger] query.requires((self.spec_handle(), b)),
        ensures
            exists|b: Vec<u8>, reply: (i32, V)|
                #[trigger] query.ensures((self.spec_handle(), b), reply)
                && b@ == c_string_bytes(key@)
                && r == restored_fetched(reply)
                && (r is Ok <==> reply.0 == 0)
                && (r matches Ok(v) ==> v == reply.1)
                && (r matches Err(e) ==> e == RestoredError::from_code_spec(reply.0)),
    {
        let key_c = c_string(key);
        let ghost b = key_c;
        let (code, value) = query(self.handle, key_c);
        assert(query.ensures((self.spec_handle(), b), (code, value)));
        match restored_result(code) {
            Ok(()) => Ok(value),
            Err(e) => Err(e),
        }
    }

    /// Gets the value stored under `key` from the service.
    ///
    /// `get` is given the connection and the C string of the key, and
    /// replies the status code and the value.
    pub fn get_value<V, F>(&self, key: &str, get: F) -> (r: Result<V, RestoredError>)
        where
            F: FnOnce(usize, Vec<u8>) -> (i32, V),
        requires
            is_c_compatible(key@),
            forall|b: Vec<u8>| b@ == c_string_bytes(key@) ==> #[trigger] get.requires((self.spec_handle(), b)),
        ensures
            exists|b: Vec<u8>, reply: (i32, V)|
                #[trigger] get.ensures((self.spec_handle(), b), reply)
                && b@ == c_string_bytes(key@)
                && r == restored_fetched(reply)
                && (r is Ok <==> reply.0 == 0)
                && (r matches Ok(v) ==> v == reply.1)
                && (r matches Err(e) ==> e == RestoredError::from_code_spec(reply.0)),
    {
        let key_c = c_string(key);
        let ghost b = key_c;
        let (code, value) = get(self.handle, key_c);
        assert(get.ensures((self.spec_handle(), b), (code, value)));
        match restored_result(code) {
            Ok(()) => Ok(value),
            Err(e) => Err(e),
        }
    }

    /// Sends the message `data` to the service.
    ///
    /// `send` is given the connection and the message, sends it, and replies
    /// the status code.
    pub fn send<P, F>(&self, data: P, send: F) -> (r: Result<(), RestoredError>)
        where
            F: FnOnce(usize, P) -> i32,
        requires
            send.requires((self.spec_handle(), data)),
        ensures
            exists|code: i32|
                #[trigger] send.ensures((self.spec_handle(), data), code) && r == restored_outcome(code),
    {
        let code = send(self.handle, data);
        assert(send.ensures((self.spec_handle(), data), code));
        restored_result(code)
    }

    /// Receives a message from the service.
    ///
    /// `receive` is given the connection and replies the status code and the
    /// message.
    pub fn receive<V, F>(&self, receive: F) -> (r: Result<V, RestoredError>)
        where
            F: FnOnce(usize) -> (i32, V),
        requires
            receive.requires((self.spec_handle(),)),
        ensures
            exists|reply: (i32, V)|
                #[trigger] receive.ensures((self.spec_handle(),), reply)
                && r == restored_fetched(reply)
                && (r is Ok <==> reply.0 == 0)
                && (r matches Ok(v) ==> v == reply.1)
                && (r matches Err(e) ==> e == RestoredError::from_code_spec(reply.0)),
    {
        let (code, value) = receive(self.handle);
        assert(receive.ensures((self.spec_handle(),), (code, value)));
        match restored_result(code) {
            Ok(()) => Ok(value),
            Err(e) => Err(e),
        }
    }

    /// Says goodbye to the service, which ends the connection, then releases
    /// the client, whatever the reply.
    ///
    /// `say_goodbye` is given the connection and replies the status code;
    /// `release` is then given the connection, with that status code, and
    /// frees it. Since it is handed the reply, it comes after the goodbye.
    pub fn goodbye<F, G>(self, say_goodbye: F, release: G) -> (r: Result<(), RestoredError>)
        where
            F: FnOnce(usize) -> i32,
            G: FnOnce(usize, i32),
        requires
            say_goodbye.requires((self.spec_handle(),)),
            forall|status: i32| #[trigger] release.requires((self.spec_handle(), status)),
        ensures
            exists|code: i32|
                #[trigger] say_goodbye.ensures((self.spec_handle(),), code)
                && release.ensures((self.spec_handle(), code), ())
                && r == restored_outcome(code),
    {
        let code = say_goodbye(self.handle);
        assert(say_goodbye.ensures((self.spec_handle(),), code));
        let r = restored_result(code);
        let handle = self.handle;
        release(handle, code);
        assert(release.ensures((self.spec_handle(), code), ()));
        r
    }

    /// Starts restoring the device, with the restore options `options` if
    /// there are any, under protocol version `version`.
    ///
    /// `start` is given the connection, the options and the version, and
    /// replies the status code.
    pub fn start_restore<P, F>(&self, options: Option<P>, version: u64, start: F) -> (r: Result<(), RestoredError>)
        where
            F: FnOnce(usize, Option<P>, u64) -> i32,
        requires
            start.requires((self.spec_handle(), options, version)),
        ensures
            exists|code: i32|
                #[trigger] start.ensures((self.spec_handle(), options, version), code)
                && r == restored_outcome(code),
    {
        let code = start(self.handle, options, version);
        assert(start.ensures((self.spec_handle(), options, version), code));
        restored_result(code)
    }

    /// Reboots the device, then releases the client, whatever the reply.
    ///
    /// `reboot` is given the connection and replies the status code;
    /// `release` is then given the connection, with that status code, and
    /// frees it. Since it is handed the reply, it comes after the reboot.
    pub fn reboot<F, G>(self, reboot: F, release: G) -> (r: Result<(), RestoredError>)
        where
            F: FnOnce(usize) -> i32,
            G: FnOnce(usize, i32),
        requires
            reboot.requires((self.spec_handle(),)),
            forall|status: i32| #[trigger] release.requires((self.spec_handle(), status)),
        ensures
            exists|code: i32|
                #[trigger] reboot.ensures((self.spec_handle(),), code)
                && release.ensures((self.spec_handle(), code), ())
                && r == restored_outcome(code),
    {
        let code = reboot(self.handle);
        assert(reboot.ensures((self.spec_handle(),), code));
        let r = restored_result(code);
        let handle = self.handle;
        release(handle, code);
        assert(release.ensures((self.spec_handle(), code), ()));
        r
    }

    /// Renames the connection to `label`.
    ///
    /// `set_label` is given the connection and the C string of the label.
    pub fn set_label<F>(&self, label: &str, set_label: F)
        where
            F: FnOnce(usize, Vec<u8>),
        requires
            is_c_compatible(label@),
            forall|b: Vec<u8>|
                b@ == c_string_bytes(label@) ==> #[trigger] set_label.requires((self.spec_handle(), b)),
        ensures
            exists|b: Vec<u8>|
                #[trigger] set_label.ensures((self.spec_handle(), b), ())
                && b@ == c_string_bytes(label@),
    {
        let label_c = c_string(label);
        let ghost b = label_c;
        set_label(self.handle, label_c);
        assert(set_label.ensures((self.spec_handle(), b), ()));
    }

    /// Releases the client.
    ///
    /// `release` is given the connection and frees it.
    pub fn free<G>(self, release: G)
        where
            G: FnOnce(usize),
        requires
            release.requires((self.spec_handle(),)),
        ensures
            release.ensures((self.spec_handle(),), ()),
    {
        release(self.handle)
    }
}

} // verus!
