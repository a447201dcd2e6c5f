//! Value marshaling for text: the string object of the foreign heap, the copy
//! of host text into a fresh string object, and the validated read of a
//! foreign-owned string back into host text.
//!
//! The payload is the UTF-8 encoding of the text followed by a single NUL
//! sentinel; the recorded byte length counts the sentinel.  A read validates
//! the declared byte length against the payload, including the sentinel,
//! before decoding anything.

use vstd::prelude::*;

use crate::layout::LeanObject;
use crate::layout::fresh_header;
use crate::layout::TAG_STRING;
use vstd::slice::slice_subrange;
use vstd::string::StrSliceExecFns;
use vstd::string::StringSliceAdditionalSpecFns;
use vstd::utf8::encode_utf8;
use vstd::utf8::decode_utf8;
use vstd::utf8::valid_utf8;
use vstd::utf8::encode_utf8_valid_utf8;
use vstd::utf8::encode_utf8_decode_utf8;

verus! {

/// A string object of the foreign heap: header, byte length including the
/// NUL sentinel, capacity, text length in characters, and the payload bytes
/// themselves.
pub struct LeanString {
    pub m_header: LeanObject,
    pub m_size: usize,
    pub m_capacity: usize,
    pub m_length: usize,
    pub m_data: Vec<u8>,
}

/// The declared sizes are consistent with the payload: the byte length counts
/// every payload byte, there is at least the sentinel, and the last payload
/// byte is the sentinel.
pub open spec fn sized_ok(s: LeanString) -> bool {
    &&& s.m_size == s.m_data@.len()
    &&& s.m_size >= 1
    &&& s.m_data@.last() == 0u8
}

/// The payload with the NUL sentinel stripped: the bytes that carry the text.
pub open spec fn payload_bytes(s: LeanString) -> Seq<u8> {
    s.m_data@.take(s.m_data@.len() - 1)
}

/// A fully initialized string object holding the text `t`: every header field
/// written, the payload the UTF-8 encoding of `t` plus the sentinel, and each
/// recorded length exact.
pub open spec fn holds_text(s: LeanString, t: Seq<char>) -> bool {
    &&& fresh_header(s.m_header, TAG_STRING, 0)
    &&& s.m_data@ == encode_utf8(t) + seq![0u8]
    &&& s.m_size == encode_utf8(t).len() + 1
    &&& s.m_capacity == s.m_size
    &&& s.m_length == t.len()
}

/// Copies host text into a fresh, fully initialized string object.  The
/// host's own buffer is unaffected; the recorded byte length is the UTF-8
/// length of the text plus one for the sentinel.
pub fn mk_lean_string(text: &str) -> (s: LeanString)
    requires
        text.spec_bytes().len() < usize::MAX,
    ensures
        holds_text(s, text@),
        sized_ok(s),
{
    let mut data = text.as_bytes_vec();
    data.push(0);
    let size = data.len();
    let length = text.unicode_len();
    let s = LeanString {
        m_header: crate::layout::mk_header(TAG_STRING, 0),
        m_size: size,
        m_capacity: size,
        m_length: length,
        m_data: data,
    };
    proof {
        assert(s.m_data@ =~= encode_utf8(text@) + seq![0u8]);
    }
    s
}

/// Relies on `core::str::from_utf8`: it returns `Ok` exactly when the bytes
/// are valid UTF-8, and the resulting text views those same bytes.
#[verifier::external_body]
fn bytes_to_str(v: &[u8]) -> (r: Option<&str>)
    ensures
        r is Some <==> valid_utf8(v@),
        r matches Some(t) ==> t.spec_bytes() == v@,
{
    core::str::from_utf8(v).ok()
}

/// Reads the text out of a foreign-owned string object, copying it into a
/// host-owned string.  The declared byte length is validated against the
/// payload, including the trailing sentinel; an inconsistent object or a
/// payload that is not UTF-8 yields `None` rather than a misread.
pub fn str_from_lean(s: &LeanString) -> (r: Option<String>)
    ensures
        r is Some <==> sized_ok(*s) && valid_utf8(payload_bytes(*s)),
        r matches Some(t) ==> t@ == decode_utf8(payload_bytes(*s)),
{
    if s.m_size != s.m_data.len() || s.m_size == 0 {
        return None;
    }
    let last = s.m_data[s.m_size - 1];
    if last != 0 {
        return None;
    }
    let payload = slice_subrange(s.m_data.as_slice(), 0, s.m_size - 1);
    proof {
        assert(payload@ =~= payload_bytes(*s));
    }
    match bytes_to_str(payload) {
        Some(t) => {
            let out = t.to_owned();
            proof {
                broadcast use encode_utf8_decode_utf8;

                assert(encode_utf8(t@) == payload_bytes(*s));
            }
            Some(out)
        },
        None => None,
    }
}

/// Round trip: a string object made from host text reads back as exactly that
/// text, for every text including the empty one and text with multi-byte
/// characters, and the recorded byte length is the UTF-8 length plus one.
pub proof fn lemma_string_round_trip(t: Seq<char>, s: LeanString)
    requires
        holds_text(s, t),
    ensures
        sized_ok(s),
        valid_utf8(payload_bytes(s)),
        decode_utf8(payload_bytes(s)) == t,
        s.m_size == encode_utf8(t).len() + 1,
{
    broadcast use encode_utf8_valid_utf8;
    broadcast use encode_utf8_decode_utf8;

    assert(payload_bytes(s) =~= encode_utf8(t));
}

} // verus!
