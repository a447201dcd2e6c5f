//! The success-constructor objects handed back to the foreign runtime from
//! host callbacks, and the inspection of result objects the foreign runtime
//! returns.
//!
//! The host only ever constructs the success variant: payload slot 0 carries
//! the wrapped value (inline-tagged or a heap cell) and payload slot 1 is
//! fixed to the unit sentinel.  A non-zero outer tag on a result returned by
//! the foreign runtime is a propagated failure, and its payload is a
//! diagnostic object rather than a value.

use vstd::prelude::*;

use crate::layout::LeanObject;
use crate::layout::fresh_header;
use crate::layout::TAG_CTOR_ZERO;
use crate::scalar::LeanBoxedU64;
use crate::scalar::LEAN_UNIT;
use crate::scalar::spec_box_inline;
use crate::scalar::box_as_inline;
use crate::scalar::BOXED_OTHER;
use crate::strings::LeanString;
use crate::strings::holds_text;
use crate::strings::mk_lean_string;
use vstd::string::StringSliceAdditionalSpecFns;

verus! {

/// The reserved-byte template of a two-slot constructor cell.
pub const CTOR_PAIR_OTHER: u8 = 2;

/// A success constructor whose wrapped value is an inline-tagged scalar
/// carried directly in slot 0.
pub struct LeanOKCtor {
    pub m_header: LeanObject,
    pub m_objs_0: u64,
    pub m_objs_1: u64,
}

/// A success constructor wrapping a string object.
pub struct LeanOKStringCtor {
    pub m_header: LeanObject,
    pub m_objs_0: LeanString,
    pub m_objs_1: u64,
}

/// A success constructor wrapping a boxed 64-bit scalar.
pub struct LeanOKU64Ctor {
    pub m_header: LeanObject,
    pub m_objs_0: LeanBoxedU64,
    pub m_objs_1: u64,
}

/// A result constructor whose payload the host treats as opaque: slot 0 is
/// carried as an unexamined handle word.
pub struct LeanOpaqueCtor {
    pub m_header: LeanObject,
    pub m_objs_0: u64,
    pub m_objs_1: u64,
}

/// The header of a freshly built success constructor.
pub open spec fn ok_header(h: LeanObject) -> bool {
    fresh_header(h, TAG_CTOR_ZERO, CTOR_PAIR_OTHER)
}

/// Wraps a small scalar in a success constructor: slot 0 holds its inline
/// encoding, slot 1 the unit sentinel.
pub fn lean_io_result_mk_ok(res: u8) -> (m: LeanOKCtor)
    ensures
        ok_header(m.m_header),
        m.m_objs_0 == spec_box_inline(res as u64),
        m.m_objs_1 == LEAN_UNIT,
{
    LeanOKCtor {
        m_header: crate::layout::mk_header(TAG_CTOR_ZERO, CTOR_PAIR_OTHER),
        m_objs_0: box_as_inline(res as u64),
        m_objs_1: LEAN_UNIT,
    }
}

/// Wraps host text in a success constructor: slot 0 holds a fresh string
/// object carrying a copy of the text.
pub fn lean_io_result_mk_string_ok(text: &str) -> (m: LeanOKStringCtor)
    requires
        text.spec_bytes().len() < usize::MAX,
    ensures
        ok_header(m.m_header),
        holds_text(m.m_objs_0, text@),
        m.m_objs_1 == LEAN_UNIT,
{
    LeanOKStringCtor {
        m_header: crate::layout::mk_header(TAG_CTOR_ZERO, CTOR_PAIR_OTHER),
        m_objs_0: mk_lean_string(text),
        m_objs_1: LEAN_UNIT,
    }
}

/// Wraps a full 64-bit scalar in a success constructor: slot 0 holds a boxed
/// scalar cell.  The nested cell starts with a count of two, the extra
/// reference being the one the enclosing constructor's slot hands to the
/// foreign runtime.
pub fn lean_io_result_mk_u64_ok(val: u64) -> (m: LeanOKU64Ctor)
    ensures
        ok_header(m.m_header),
        m.m_objs_0.m_obj == val,
        m.m_objs_0.m_header.m_rc == 2,
        m.m_objs_0.m_header.m_cs_sz == 0,
        m.m_objs_0.m_header.m_other == BOXED_OTHER,
        m.m_objs_0.m_header.m_tag == TAG_CTOR_ZERO,
        m.m_objs_1 == LEAN_UNIT,
{
    let bv = LeanBoxedU64 {
        m_header: LeanObject { m_rc: 2, m_cs_sz: 0, m_other: BOXED_OTHER, m_tag: TAG_CTOR_ZERO },
        m_obj: val,
    };
    LeanOKU64Ctor {
        m_header: crate::layout::mk_header(TAG_CTOR_ZERO, CTOR_PAIR_OTHER),
        m_objs_0: bv,
        m_objs_1: LEAN_UNIT,
    }
}

/// True of a result the foreign runtime reports as success.  Anything else is
/// a propagated failure whose payload is a diagnostic object.
pub fn result_is_ok(h: &LeanObject) -> (b: bool)
    ensures
        b == (h.m_tag == 0),
{
    h.m_tag == 0
}

} // verus!
