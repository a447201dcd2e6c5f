//! Object layout model: the per-object header shared by every foreign heap
//! cell, the tag values that identify each variant, and the size/size-class
//! arithmetic the foreign allocator expects.
//!
//! Any object handed to the foreign runtime must carry a header whose size,
//! field order and byte values exactly match what the foreign allocator would
//! have produced.  Every constructor in this crate therefore writes every
//! header field explicitly; none is left at an allocator default.

use vstd::prelude::*;

verus! {

/// Tag byte of a constructor object whose constructor index is zero
/// (the success variant of a result, and scalar boxes).
pub const TAG_CTOR_ZERO: u8 = 0;

/// Tag byte identifying a closure object.
pub const TAG_CLOSURE: u8 = 245;

/// Tag byte identifying a string object.
pub const TAG_STRING: u8 = 249;

/// Tag byte identifying an external object (a wrapped host pointer).
pub const TAG_EXTERNAL: u8 = 254;

/// The per-object header of the foreign heap.
///
/// `m_rc` is the inline reference count; zero marks an object that the host
/// must never count on (immortal or externally owned), negative values are
/// managed by the foreign runtime's own slow paths.  `m_cs_sz` and `m_other`
/// are runtime-reserved bookkeeping bytes whose values must be copied verbatim
/// from a known-good template for each variant.  `m_tag` identifies the
/// variant.
pub struct LeanObject {
    pub m_rc: i32,
    pub m_cs_sz: u16,
    pub m_other: u8,
    pub m_tag: u8,
}

/// A freshly constructed header: one owning reference, no multi-threaded
/// bookkeeping, and the given template values for the reserved byte and tag.
pub open spec fn fresh_header(h: LeanObject, tag: u8, other: u8) -> bool {
    &&& h.m_rc == 1
    &&& h.m_cs_sz == 0
    &&& h.m_other == other
    &&& h.m_tag == tag
}

/// Builds a header exactly as the foreign allocator would: every field
/// written, reference count one.
pub fn mk_header(tag: u8, other: u8) -> (h: LeanObject)
    ensures
        fresh_header(h, tag, other),
{
    LeanObject { m_rc: 1, m_cs_sz: 0, m_other: other, m_tag: tag }
}

/// Byte size of a scalar box cell: header plus one 8-byte payload word.
pub const BOXED_SCALAR_SIZE: usize = 16;

/// Byte size of a result constructor cell: header plus two payload words.
pub const OK_CTOR_SIZE: usize = 24;

/// Byte size of a closure cell without a bound argument: header, function
/// pointer word, and the packed arity/fixed-count word.
pub const CLOSURE_SIZE: usize = 24;

/// Byte size of a closure cell carrying one bound argument slot.
pub const BOUND_CLOSURE_SIZE: usize = 32;

/// Byte size of an external object cell: header, class pointer, data pointer.
pub const EXTERNAL_SIZE: usize = 24;

/// Byte size of the fixed part of a string object: header plus the three
/// length words; the payload bytes follow immediately with no padding.
pub const STRING_BASE_SIZE: usize = 32;

/// The slot index of the foreign small-object allocator for a cell of `size`
/// bytes.  The allocator hands out small cells in 8-byte strata, numbered from
/// zero, so a well-formed request must be a positive multiple of eight.
pub fn small_size_class(size: usize) -> (slot: usize)
    requires
        size >= 8,
        size % 8 == 0,
    ensures
        slot == size / 8 - 1,
{
    size / 8 - 1
}

/// Total allocation size for a string object holding `payload_len` bytes of
/// text: the fixed fields, the text, and the trailing NUL sentinel.
pub fn string_alloc_size(payload_len: usize) -> (size: usize)
    requires
        payload_len <= usize::MAX - STRING_BASE_SIZE - 1,
    ensures
        size == STRING_BASE_SIZE + payload_len + 1,
{
    STRING_BASE_SIZE + payload_len + 1
}

} // verus!
