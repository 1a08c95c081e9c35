//! Conversions between Rust strings and the NUL-terminated byte strings that
//! the device services exchange.

use vstd::prelude::*;
use vstd::utf8::*;

verus! {

/// The bytes of a C string holding `s`: its UTF-8 encoding followed by the
/// terminating NUL byte.
pub open spec fn c_string_bytes(s: Seq<char>) -> Seq<u8> {
    encode_utf8(s).push(0u8)
}

/// Whether `s` can be handed to the device services as a C string, that is,
/// whether it holds no NUL character.
pub open spec fn is_c_compatible(s: Seq<char>) -> bool {
    !s.contains('\0')
}

/// What `String::from_utf8_lossy` makes of `bytes`.
pub uninterp spec fn utf8_lossy(bytes: Seq<u8>) -> Seq<char>;

proof fn lemma_byte_or_nonzero(b: u8, y: u8)
    by (bit_vector)
    requires
        b >= 0x80,
    ensures
        (b | y) != 0u8,
{
}

proof fn lemma_width_1_byte(s: u32)
    by (bit_vector)
    requires
        s <= 0x7F,
    ensures
        ((s & 0x7F) as u8 == 0u8) == (s == 0u32),
{
}

/// The encoding of a scalar holds a zero byte exactly when the scalar is zero.
proof fn lemma_encode_scalar_zero(s: u32)
    requires
        is_scalar(s),
    ensures
        encode_scalar(s).contains(0u8) <==> s == 0,
{
    let e = encode_scalar(s);
    if has_width_1_encoding(s) {
        lemma_width_1_byte(s);
        assert(e[0] == leading_byte_width_1(s));
        if s == 0 {
            assert(e[0] == 0u8);
        }
    } else {
        lemma_byte_or_nonzero(0x80u8, (s & 0x3F) as u8);
        lemma_byte_or_nonzero(0x80u8, ((s >> 6) & 0x3F) as u8);
        lemma_byte_or_nonzero(0x80u8, ((s >> 12) & 0x3F) as u8);
        lemma_byte_or_nonzero(0xC0u8, ((s >> 6) & 0x1F) as u8);
        lemma_byte_or_nonzero(0xE0u8, ((s >> 12) & 0x0F) as u8);
        lemma_byte_or_nonzero(0xF0u8, ((s >> 18) & 0x7) as u8);
        assert forall|i: int| 0 <= i < e.len() implies e[i] != 0u8 by {
        }
    }
}

/// The UTF-8 encoding of a character sequence holds a zero byte exactly when
/// the sequence holds the NUL character.
pub proof fn lemma_encode_utf8_nul(s: Seq<char>)
    ensures
        encode_utf8(s).contains(0u8) <==> s.contains('\0'),
    decreases s.len(),
{
    if s.len() == 0 {
        assert(!encode_utf8(s).contains(0u8));
    } else {
        let c = s[0];
        char_is_scalar(c);
        lemma_encode_scalar_zero(c as u32);
        lemma_encode_utf8_nul(s.drop_first());
        let head = encode_scalar(c as u32);
        let tail = encode_utf8(s.drop_first());
        assert(encode_utf8(s) == head + tail);
        assert(('\0' as u32) == 0u32);
        if c as u32 == 0 {
            char_u32_cast(c, 0u32);
            char_u32_cast('\0', 0u32);
        }
        assert((c as u32 == 0) == (c == '\0'));
        if encode_utf8(s).contains(0u8) {
            let k = choose|k: int| 0 <= k < encode_utf8(s).len() && encode_utf8(s)[k] == 0u8;
            if k < head.len() {
                assert(head[k] == 0u8);
                assert(c == '\0');
                assert(s[0] == '\0');
            } else {
                assert(tail[k - head.len()] == 0u8);
                let j = choose|j: int|
                    0 <= j < s.drop_first().len() && s.drop_first()[j] == '\0';
                assert(s[j + 1] == '\0');
            }
        }
        if s.contains('\0') {
            let j = choose|j: int| 0 <= j < s.len() && s[j] == '\0';
            if j == 0 {
                let k = choose|k: int| 0 <= k < head.len() && head[k] == 0u8;
                assert(encode_utf8(s)[k] == 0u8);
            } else {
                assert(s.drop_first()[j - 1] == '\0');
                let k = choose|k: int| 0 <= k < tail.len() && tail[k] == 0u8;
                assert(encode_utf8(s)[head.len() + k] == 0u8);
            }
        }
    }
}

/// Encodes `s` as a NUL-terminated C string.
///
/// `s` must hold no NUL character: such a string has no C representation.
pub fn c_string(s: &str) -> (r: Vec<u8>)
    requires
        is_c_compatible(s@),
    ensures
        r@ == c_string_bytes(s@),
        !r@.drop_last().contains(0u8),
{
    let bytes = s.as_bytes();
    let mut r: Vec<u8> = Vec::new();
    let mut i: usize = 0;
    while i < bytes.len()
        invariant
            i <= bytes@.len(),
            bytes@ == encode_utf8(s@),
            r@ == bytes@.subrange(0, i as int),
        decreases bytes@.len() - i,
    {
        r.push(bytes[i]);
        i = i + 1;
        assert(r@ =~= bytes@.subrange(0, i as int));
    }
    assert(r@ =~= encode_utf8(s@));
    proof {
        lemma_encode_utf8_nul(s@);
    }
    r.push(0u8);
    assert(r@.drop_last() =~= encode_utf8(s@));
    r
}

/// `String::from_utf8_lossy`, turned into an owned `String`.
///
/// Trusted: the result is named `utf8_lossy` of the bytes. Beside the name,
/// two facts are stated, as the standard library documents them: bytes that
/// are valid UTF-8 come back as the string they encode, and a byte 0xFF (which
/// is never part of valid UTF-8) between valid text is replaced by one
/// U+FFFD. How other invalid sequences are replaced is not stated.
#[verifier::external_body]
fn from_utf8_lossy(bytes: &[u8]) -> (s: String)
    ensures
        s@ == utf8_lossy(bytes@),
        valid_utf8(bytes@) ==> s@ == decode_utf8(bytes@),
        forall|a: Seq<char>, b: Seq<char>|
            #![trigger encode_utf8(a), encode_utf8(b)]
            bytes@ == encode_utf8(a) + seq![0xFFu8] + encode_utf8(b) ==> s@ == a + seq!['\u{FFFD}'] + b,
{
    String::from_utf8_lossy(bytes).into_owned()
}

/// Decodes the bytes of a C string (without its terminating NUL) as text,
/// replacing what is not valid UTF-8.
pub fn decode_lossy(bytes: &[u8]) -> (s: String)
    ensures
        s@ == utf8_lossy(bytes@),
        valid_utf8(bytes@) ==> s@ == decode_utf8(bytes@),
        forall|a: Seq<char>, b: Seq<char>|
            #![trigger encode_utf8(a), encode_utf8(b)]
            bytes@ == encode_utf8(a) + seq![0xFFu8] + encode_utf8(b) ==> s@ == a + seq!['\u{FFFD}'] + b,
{
    from_utf8_lossy(bytes)
}

/// Decoding the bytes of a C string built from `s` gives `s` back.
pub proof fn lemma_c_string_round_trip(s: Seq<char>)
    requires
        is_c_compatible(s),
    ensures
        valid_utf8(c_string_bytes(s).drop_last()),
        decode_utf8(c_string_bytes(s).drop_last()) == s,
        !c_string_bytes(s).drop_last().contains(0u8),
        c_string_bytes(s).last() == 0u8,
{
    broadcast use encode_utf8_valid_utf8, encode_utf8_decode_utf8;

    assert(c_string_bytes(s).drop_last() =~= encode_utf8(s));
    lemma_encode_utf8_nul(s);
}

/// Two texts give the same C string exactly when they are the same text.
pub proof fn lemma_c_string_injective(s1: Seq<char>, s2: Seq<char>)
    ensures
        (c_string_bytes(s1) == c_string_bytes(s2)) <==> (s1 == s2),
{
    broadcast use encode_utf8_decode_utf8;

    if c_string_bytes(s1) == c_string_bytes(s2) {
        assert(c_string_bytes(s1).drop_last() =~= encode_utf8(s1));
        assert(c_string_bytes(s2).drop_last() =~= encode_utf8(s2));
        assert(decode_utf8(encode_utf8(s1)) == decode_utf8(encode_utf8(s2)));
    }
}

} // verus!
