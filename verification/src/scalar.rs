//! Value marshaling for scalars: the inline odd-pointer encoding for small
//! non-negative integers, and the boxed heap cell used when a value is too
//! large for the inline form.
//!
//! The foreign runtime chooses the encoding by magnitude, not by call site, so
//! reading a scalar must always test the low bit before deciding how to
//! interpret the word.

use vstd::prelude::*;

use crate::layout::LeanObject;
use crate::layout::fresh_header;
use crate::layout::TAG_CTOR_ZERO;

verus! {

/// Largest value the inline encoding can carry in a 64-bit word: the value is
/// shifted left once, so one bit of range is lost to the tag bit.
pub const INLINE_SCALAR_MAX: u64 = 0x7fff_ffff_ffff_ffff;

/// The designated unit (void) value: the smallest inline encoding, i.e. the
/// encoding of zero.
pub const LEAN_UNIT: u64 = 1;

/// The inline encoding of a small scalar: shifted left once with the low bit
/// set, leaving an odd word that can never be mistaken for an aligned pointer.
pub open spec fn spec_box_inline(v: u64) -> u64
    recommends
        v <= INLINE_SCALAR_MAX,
{
    (2 * v + 1) as u64
}

/// True of words that carry an inline scalar rather than a heap pointer.
pub open spec fn is_inline_word(w: u64) -> bool {
    w % 2 == 1
}

/// The scalar carried by an inline word.
pub open spec fn spec_unbox_inline(w: u64) -> u64
    recommends
        is_inline_word(w),
{
    w / 2
}

/// Encodes a small non-negative scalar inline; no heap cell is involved.
pub fn box_as_inline(v: u64) -> (w: u64)
    requires
        v <= INLINE_SCALAR_MAX,
    ensures
        w == spec_box_inline(v),
        is_inline_word(w),
{
    proof {
        assert((v << 1u64) | 1 == ((2 * v + 1) as u64) && ((2 * v + 1) as u64) % 2 == 1)
            by (bit_vector)
            requires
                v <= 0x7fff_ffff_ffff_ffffu64,
        ;
    }
    (v << 1) | 1
}

/// Decodes an inline word back to the scalar it carries.
pub fn unbox_inline(w: u64) -> (v: u64)
    requires
        is_inline_word(w),
    ensures
        v == spec_unbox_inline(w),
{
    proof {
        assert((w >> 1u64) == w / 2) by (bit_vector);
    }
    w >> 1
}

/// A boxed 64-bit scalar: a heap cell holding the value that was too large
/// for the inline form.
pub struct LeanBoxedU64 {
    pub m_header: LeanObject,
    pub m_obj: u64,
}

/// A boxed double-precision float, carried as its raw bit pattern; this
/// bridge stores and forwards such payloads without any float arithmetic.
pub struct LeanBoxedFloat {
    pub m_header: LeanObject,
    pub m_obj_bits: u64,
}

/// The reserved-byte template of a scalar box: one scalar field.
pub const BOXED_OTHER: u8 = 1;

/// A well-formed boxed scalar: the tag is the boxed-scalar variant and the
/// reserved bytes match the template.
pub open spec fn boxed_u64_wf(b: LeanBoxedU64) -> bool {
    &&& b.m_header.m_tag == TAG_CTOR_ZERO
    &&& b.m_header.m_other == BOXED_OTHER
    &&& b.m_header.m_cs_sz == 0
}

/// Boxes a scalar on the heap, for values the inline form cannot carry (and
/// for call sites where the foreign side expects a cell unconditionally).
pub fn box_as_heap(v: u64) -> (b: LeanBoxedU64)
    ensures
        b.m_obj == v,
        fresh_header(b.m_header, TAG_CTOR_ZERO, BOXED_OTHER),
        boxed_u64_wf(b),
{
    LeanBoxedU64 {
        m_header: crate::layout::mk_header(TAG_CTOR_ZERO, BOXED_OTHER),
        m_obj: v,
    }
}

/// A scalar as the foreign runtime hands it over: either an inline-tagged
/// word or a boxed heap cell.
pub enum ScalarRepr {
    Inline(u64),
    Boxed(LeanBoxedU64),
}

/// A well-formed scalar representation: inline words are odd, boxed cells
/// carry the boxed-scalar header.
pub open spec fn scalar_wf(s: ScalarRepr) -> bool {
    match s {
        ScalarRepr::Inline(w) => is_inline_word(w),
        ScalarRepr::Boxed(b) => boxed_u64_wf(b),
    }
}

/// The numeric value a scalar representation denotes.
pub open spec fn scalar_value(s: ScalarRepr) -> u64 {
    match s {
        ScalarRepr::Inline(w) => spec_unbox_inline(w),
        ScalarRepr::Boxed(b) => b.m_obj,
    }
}

/// Chooses the encoding exactly as the foreign runtime does: by magnitude.
/// Small values stay inline; only values beyond the inline range allocate.
pub fn box_scalar(v: u64) -> (s: ScalarRepr)
    ensures
        scalar_wf(s),
        scalar_value(s) == v,
        v <= INLINE_SCALAR_MAX ==> s is Inline,
        v > INLINE_SCALAR_MAX ==> s is Boxed,
{
    if v <= INLINE_SCALAR_MAX {
        ScalarRepr::Inline(box_as_inline(v))
    } else {
        ScalarRepr::Boxed(box_as_heap(v))
    }
}

/// Reads a scalar back, branching on the encoding: this must never assume one
/// form without testing, because the writer chose it by value magnitude.
pub fn unbox_scalar(s: &ScalarRepr) -> (v: u64)
    requires
        scalar_wf(*s),
    ensures
        v == scalar_value(*s),
{
    match s {
        ScalarRepr::Inline(w) => unbox_inline(*w),
        ScalarRepr::Boxed(b) => b.m_obj,
    }
}

/// Every value in the inline range survives an inline round trip, and the
/// encoding involves no heap cell at all.
pub proof fn lemma_inline_round_trip(v: u64)
    requires
        v <= INLINE_SCALAR_MAX,
    ensures
        spec_unbox_inline(spec_box_inline(v)) == v,
        is_inline_word(spec_box_inline(v)),
{
}

/// Every value survives a heap-boxed round trip, and the box carries the
/// boxed-scalar header tag.
pub proof fn lemma_heap_round_trip(v: u64, b: LeanBoxedU64)
    requires
        b.m_obj == v,
        boxed_u64_wf(b),
    ensures
        scalar_value(ScalarRepr::Boxed(b)) == v,
        b.m_header.m_tag == TAG_CTOR_ZERO,
{
}

/// The unit sentinel is the inline encoding of zero.
pub proof fn lemma_unit_is_inline_zero()
    ensures
        LEAN_UNIT == spec_box_inline(0),
        is_inline_word(LEAN_UNIT),
{
}

} // verus!
