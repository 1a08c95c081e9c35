//! The pairing records that the host keeps for the devices it trusts.

use vstd::prelude::*;
use crate::error::{UserPrefError, userpref_outcome, userpref_result};
use crate::text::{c_string, c_string_bytes, is_c_compatible, lemma_c_string_injective};

verus! {

/// What reading a pairing record returns, when the record store replied with
/// status `reply.0` and record `reply.1`.
pub open spec fn pair_record_read<V>(reply: (i32, V)) -> Result<V, UserPrefError> {
    if reply.0 == 0 {
        Ok(reply.1)
    } else {
        Err(UserPrefError::from_code_spec(reply.0))
    }
}

/// Reading a pairing record succeeds exactly when the record store reports
/// success, and then gives the record it replied; otherwise it fails with the
/// error that the code stands for.
pub proof fn lemma_pair_record_read<V>(reply: (i32, V))
    ensures
        pair_record_read(reply) is Ok <==> reply.0 == 0,
        reply.0 == 0 ==> pair_record_read(reply) == Ok::<V, UserPrefError>(reply.1),
        reply.0 != 0 ==> pair_record_read(reply) == Err::<V, UserPrefError>(UserPrefError::from_code_spec(reply.0)),
        pair_record_read(reply) is Ok <==> userpref_outcome(reply.0) is Ok,
{
}

/// Reading the pairing record is a function of the UDID and the reply: the
/// request handed to the record store is the same exactly when the UDIDs are,
/// and the same reply gives the same result.
pub proof fn lemma_read_pair_record_determined<V>(
    udid1: Seq<char>,
    udid2: Seq<char>,
    reply1: (i32, V),
    reply2: (i32, V),
)
    ensures
        (c_string_bytes(udid1) == c_string_bytes(udid2)) <==> (udid1 == udid2),
        reply1 == reply2 ==> pair_record_read(reply1) == pair_record_read(reply2),
{
    lemma_c_string_injective(udid1, udid2);
}

/// Reads the pairing record of the device whose UDID is `udid`.
///
/// `read` is given the C string of the UDID, asks the record store for the
/// record, and replies the status code and the record.
pub fn read_pair_record<V, F>(udid: &str, read: F) -> (r: Result<V, UserPrefError>)
    where
        F: FnOnce(Vec<u8>) -> (i32, V),
    requires
        is_c_compatible(udid@),
        forall|b: Vec<u8>| b@ == c_string_bytes(udid@) ==> #[trigger] read.requires((b,)),
    ensures
        exists|b: Vec<u8>, reply: (i32, V)|
            #[trigger] read.ensures((b,), reply)
            && b@ == c_string_bytes(udid@)
            && r == pair_record_read(reply)
            && (r is Ok <==> reply.0 == 0)
            && (r matches Ok(v) ==> v == reply.1)
            && (r matches Err(e) ==> e == UserPrefError::from_code_spec(reply.0)),
{
    let udid_c = c_string(udid);
    let ghost b = udid_c;
    let (code, record) = read(udid_c);
    assert(read.ensures((b,), (code, record)));
    match userpref_result(code) {
        Ok(()) => Ok(record),
        Err(e) => Err(e),
    }
}

} // verus!
