//! A client of the notification proxy service, which posts notifications to
//! the device and asks it to report the notifications it observes.
//!
//! Each operation hands one request to a function given by the caller, which
//! performs it on the device connection and reports the status code; the
//! client decides from that code what the operation returns.

use vstd::prelude::*;
use vstd::utf8::{valid_utf8, decode_utf8, encode_utf8};
use crate::error::{NpError, np_outcome, np_result};
use crate::text::{c_string, c_string_bytes, is_c_compatible, decode_lossy, utf8_lossy};

verus! {

/// A connection to the notification proxy service of a device.
///
/// `C` is the callback that receives the notifications; at most one is
/// registered at a time.
pub struct NotificationProxyClient<C> {
    handle: usize,
    notify_callback: Option<C>,
}

/// Whether `r` is what opening a client returns when the service replied
/// with status `reply.0` and connection handle `reply.1`.
pub open spec fn np_opened<C>(reply: (i32, usize), r: Result<NotificationProxyClient<C>, NpError>) -> bool {
    match r {
        Ok(client) => {
            &&& reply.0 == 0
            &&& client.spec_handle() == reply.1
            &&& client.spec_notify_callback() is None
        },
        Err(e) => reply.0 != 0 && e == NpError::from_code_spec(reply.0),
    }
}

/// Opening a client succeeds exactly when the service reports success; the
/// client then holds the connection the service replied and no callback.
pub proof fn lemma_np_opened<C>(reply: (i32, usize), r: Result<NotificationProxyClient<C>, NpError>)
    requires
        np_opened(reply, r),
    ensures
        r is Ok <==> reply.0 == 0,
        r matches Ok(c) ==> c.spec_handle() == reply.1 && c.spec_notify_callback() is None,
        r matches Err(e) ==> e == NpError::from_code_spec(reply.0),
{
}

/// Whether `names` holds, in order, the C strings of `notifications`.
pub open spec fn c_string_list(names: Seq<Vec<u8>>, notifications: Seq<&str>) -> bool {
    &&& names.len() == notifications.len()
    &&& forall|i: int| 0 <= i < names.len() ==> #[trigger] names[i]@ == c_string_bytes(notifications[i]@)
}

impl<C> NotificationProxyClient<C> {
    /// The handle of the connection.
    pub closed spec fn spec_handle(&self) -> usize {
        self.handle
    }

    /// The callback that is registered, if any.
    pub closed spec fn spec_notify_callback(&self) -> Option<C> {
        self.notify_callback
    }

    /// Decides what opening a client returns, from the status code and the
    /// handle that the service replied.
    fn opened(code: i32, handle: usize) -> (r: Result<Self, NpError>)
        ensures
            np_opened((code, handle), r),
    {
        match np_result(code) {
            Ok(()) => Ok(NotificationProxyClient { handle, notify_callback: None }),
            Err(e) => Err(e),
        }
    }

    /// Opens a client on the service that `service` describes on `device`.
    ///
    /// `connect` asks the service for a connection and replies its status code
    /// and the handle of the connection.
    pub fn new<F>(device: usize, service: usize, connect: F) -> (r: Result<Self, NpError>)
        where
            F: FnOnce(usize, usize) -> (i32, usize),
        requires
            connect.requires((device, service)),
        ensures
            exists|reply: (i32, usize)|
                #[trigger] connect.ensures((device, service), reply) && np_opened(reply, r),
    {
        let (code, handle) = connect(device, service);
        Self::opened(code, handle)
    }

    /// Starts the service on `device` and opens a client on it; `label`
    /// names the connection.
    ///
    /// `start` is given the device and the C string of the label, starts the
    /// service, and replies its status code and the handle of the connection.
    pub fn start_service<F>(device: usize, label: &str, start: F) -> (r: Result<Self, NpError>)
        where
            F: FnOnce(usize, Vec<u8>) -> (i32, usize),
        requires
            is_c_compatible(label@),
            forall|b: Vec<u8>| b@ == c_string_bytes(label@) ==> #[trigger] start.requires((device, b)),
        ensures
            exists|b: Vec<u8>, reply: (i32, usize)|
                #[trigger] start.ensures((device, b), reply)
                && b@ == c_string_bytes(label@)
                && np_opened(reply, r),
    {
        let label_c = c_string(label);
        let ghost b = label_c;
        let (code, handle) = start(device, label_c);
        assert(start.ensures((device, b), (code, handle)));
        Self::opened(code, handle)
    }

    /// Posts the notification `notification` to the device.
    ///
    /// `post` is given the connection and the C string of the notification,
    /// posts it, and replies the status code.
    pub fn post_notification<F>(&self, notification: &str, post: F) -> (r: Result<(), NpError>)
        where
            F: FnOnce(usize, Vec<u8>) -> i32,
        requires
            is_c_compatible(notification@),
            forall|b: Vec<u8>|
                b@ == c_string_bytes(notification@) ==> #[trigger] post.requires((self.spec_handle(), b)),
        ensures
            exists|b: Vec<u8>, code: i32|
                #[trigger] post.ensures((self.spec_handle(), b), code)
                && b@ == c_string_bytes(notification@)
                && r == np_outcome(code),
    {
        let name = c_string(notification);
        let ghost b = name;
        let code = post(self.handle, name);
        assert(post.ensures((self.spec_handle(), b), code));
        np_result(code)
    }

    /// Asks the device to report the notification `notification` when it
    /// occurs.
    ///
    /// `observe` is given the connection and the C string of the notification,
    /// makes the request, and replies the status code.
    pub fn observe_notification<F>(&self, notification: &str, observe: F) -> (r: Result<(), NpError>)
        where
            F: FnOnce(usize, Vec<u8>) -> i32,
        requires
            is_c_compatible(notification@),
            forall|b: Vec<u8>|
                b@ == c_string_bytes(notification@) ==> #[trigger] observe.requires((self.spec_handle(), b)),
        ensures
            exists|b: Vec<u8>, code: i32|
                #[trigger] observe.ensures((self.spec_handle(), b), code)
                && b@ == c_string_bytes(notification@)
                && r == np_outcome(code),
    {
        let name = c_string(notification);
        let ghost b = name;
        let code = observe(self.handle, name);
        assert(observe.ensures((self.spec_handle(), b), code));
        np_result(code)
    }

    /// Asks the device to report each of `notifications` when it occurs.
    ///
    /// `observe` is given the connection and the C strings of the
    /// notifications, in order, makes the request, and replies the status code.
    pub fn observe_notifications<F>(&self, notifications: &[&str], observe: F) -> (r: Result<(), NpError>)
        where
            F: FnOnce(usize, Vec<Vec<u8>>) -> i32,
        requires
            forall|i: int| 0 <= i < notifications@.len() ==> is_c_compatible(#[trigger] notifications@[i]@),
            forall|b: Vec<Vec<u8>>|
                c_string_list(b@, notifications@) ==> #[trigger] observe.requires((self.spec_handle(), b)),
        ensures
            exists|names: Vec<Vec<u8>>, code: i32|
                #[trigger] observe.ensures((self.spec_handle(), names), code)
                && c_string_list(names@, notifications@)
                && r == np_outcome(code),
    {
        let mut names: Vec<Vec<u8>> = Vec::new();
        let mut i: usize = 0;
        while i < notifications.len()
            invariant
                i <= notifications@.len(),
                forall|j: int| 0 <= j < notifications@.len() ==> is_c_compatible(#[trigger] notifications@[j]@),
                c_string_list(names@, notifications@.subrange(0, i as int)),
            decreases notifications@.len() - i,
        {
            let name = c_string(notifications[i]);
            names.push(name);
            i = i + 1;
            assert(c_string_list(names@, notifications@.subrange(0, i as int))) by {
                assert forall|j: int| 0 <= j < names@.len() implies
                    #[trigger] names@[j]@ == c_string_bytes(notifications@.subrange(0, i as int)[j]@) by {
                    if j < i - 1 {
                        assert(notifications@.subrange(0, i - 1)[j] == notifications@.subrange(0, i as int)[j]);
                    }
                }
            }
        }
        assert(notifications@.subrange(0, i as int) =~= notifications@);
        let ghost list = names;
        let code = observe(self.handle, names);
        assert(observe.ensures((self.spec_handle(), list), code));
        np_result(code)
    }

    /// Registers `callback` to receive the notifications the device reports,
    /// in place of any callback registered before.
    ///
    /// `register` is given the connection and the callback as it is kept by
    /// the client, installs it with the service, and replies the status code.
    /// The callback stays with the client whatever the reply.
    pub fn set_notify_callback<F>(&mut self, callback: C, register: F) -> (r: Result<(), NpError>)
        where
            F: FnOnce(usize, &C) -> i32,
        requires
            forall|c: &C| #[trigger] register.requires((old(self).spec_handle(), c)),
        ensures
            final(self).spec_handle() == old(self).spec_handle(),
            final(self).spec_notify_callback() == Some(callback),
            exists|code: i32|
                #[trigger] register.ensures((old(self).spec_handle(), &callback), code)
                && r == np_outcome(code),
    {
        self.notify_callback = Some(callback);
        assert(self.handle == old(self).spec_handle());
        let code = match &self.notify_callback {
            Some(kept) => register(self.handle, kept),
            None => 0,
        };
        np_result(code)
    }

    /// Removes the callback, if any, after telling the service to stop
    /// delivering notifications, and hands it back, so that it lives until
    /// the service no longer calls it.
    ///
    /// `unregister` is given the connection and uninstalls the callback with
    /// the service; its status code is not used.
    pub fn clear_notify_callback<F>(&mut self, unregister: F) -> (removed: Option<C>)
        where
            F: FnOnce(usize) -> i32,
        requires
            unregister.requires((old(self).spec_handle(),)),
        ensures
            final(self).spec_handle() == old(self).spec_handle(),
            final(self).spec_notify_callback() is None,
            removed == old(self).spec_notify_callback(),
            exists|code: i32| #[trigger] unregister.ensures((old(self).spec_handle(),), code),
    {
        let code = unregister(self.handle);
        assert(unregister.ensures((old(self).spec_handle(),), code));
        self.notify_callback.take()
    }

    /// The callback that is registered, if any.
    pub fn notify_callback(&self) -> (c: Option<&C>)
        ensures
            match c {
                Some(c) => self.spec_notify_callback() == Some(*c),
                None => self.spec_notify_callback() is None,
            },
    {
        match &self.notify_callback {
            Some(c) => Some(c),
            None => None,
        }
    }

    /// The handle of the connection.
    pub fn handle(&self) -> (h: usize)
        ensures
            h == self.spec_handle(),
    {
        self.handle
    }

    /// Releases the client. The callback must have been removed with
    /// `clear_notify_callback` first, so that the service no longer calls it.
    ///
    /// `release` is given the connection and frees it.
    pub fn free<G>(self, release: G)
        where
            G: FnOnce(usize),
        requires
            self.spec_notify_callback() is None,
            release.requires((self.spec_handle(),)),
        ensures
            release.ensures((self.spec_handle(),), ()),
    {
        release(self.handle)
    }
}

/// The text of a notification the device reported, from the bytes of its C
/// string without the terminating NUL.
pub fn notification_text(raw: &[u8]) -> (s: String)
    ensures
        s@ == utf8_lossy(raw@),
        valid_utf8(raw@) ==> s@ == decode_utf8(raw@),
        forall|a: Seq<char>, b: Seq<char>|
            #![trigger encode_utf8(a), encode_utf8(b)]
            raw@ == encode_utf8(a) + seq![0xFFu8] + encode_utf8(b) ==> s@ == a + seq!['\u{FFFD}'] + b,
{
    decode_lossy(raw)
}

} // verus!
