//! Closure/trampoline factory: foreign-callable closure objects wrapping host
//! functions with a fixed arity and, optionally, one bound external-object
//! argument carrying host state.
//!
//! The single most dangerous invariant of the bridge lives here: the recorded
//! arity and fixed-argument count must match the wrapped function's real
//! parameter count exactly, or the foreign runtime reads arguments at wrong
//! positions.  The invariant is enforced by construction — one factory per
//! distinct signature — rather than by any runtime check.

use vstd::prelude::*;

use crate::layout::LeanObject;
use crate::layout::fresh_header;
use crate::layout::TAG_CLOSURE;
use crate::external::LeanExternalObject;
use crate::external::external_wf;
use crate::external::mk_external_object;

verus! {

/// The host functions a closure object may wrap, each with one fixed foreign
/// signature.
pub enum CallbackId {
    /// Demonstration callback: one small scalar in, one out.
    RustCallback,
    /// Demonstration callback in the foreign runtime's effectful convention.
    RustIoCallback,
    /// Demonstration callback taking and returning a string object.
    RustIoStringCallback,
    /// Event notification bound to the host interpreter.
    OnEvent,
    /// Replaces the cached foreign application-state handle.
    SetAppState,
    /// Allocates a fresh column identifier for a new positioned column.
    FreshColumn,
    /// Appends one line of text to a column's pending lines.
    PushLine,
    /// Resets a column's pending lines to an empty replacement.
    ResetText,
    /// Sets a column's clip rectangle.
    SetClip,
    /// Removes a column's clip rectangle.
    RemoveClip,
}

/// The parameter count of each host function as the foreign runtime sees it,
/// including the bound external-object argument where there is one.
pub open spec fn arity_of(f: CallbackId) -> u16 {
    match f {
        CallbackId::RustCallback => 1,
        CallbackId::RustIoCallback => 2,
        CallbackId::RustIoStringCallback => 2,
        CallbackId::OnEvent => 3,
        CallbackId::SetAppState => 3,
        CallbackId::FreshColumn => 4,
        CallbackId::PushLine => 4,
        CallbackId::ResetText => 3,
        CallbackId::SetClip => 7,
        CallbackId::RemoveClip => 3,
    }
}

/// True of the host functions whose first parameter is a bound external
/// object carrying the host interpreter.
pub open spec fn takes_bound_arg(f: CallbackId) -> bool {
    match f {
        CallbackId::RustCallback => false,
        CallbackId::RustIoCallback => false,
        CallbackId::RustIoStringCallback => false,
        _ => true,
    }
}

/// A closure object without a bound argument.
pub struct LeanClosure {
    pub m_header: LeanObject,
    pub m_fun: CallbackId,
    pub m_arity: u16,
    pub m_num_fixed: u16,
}

/// A closure object carrying one pre-bound external-object argument.
pub struct Closure {
    pub m_header: LeanObject,
    pub m_fun: CallbackId,
    pub m_arity: u16,
    pub m_num_fixed: u16,
    pub m_arg: LeanExternalObject,
}

/// A well-formed unbound closure: fresh header, recorded arity equal to the
/// wrapped function's real parameter count, nothing pre-bound.
pub open spec fn closure_wf(c: LeanClosure, f: CallbackId) -> bool {
    &&& fresh_header(c.m_header, TAG_CLOSURE, 0)
    &&& c.m_fun == f
    &&& !takes_bound_arg(f)
    &&& c.m_arity == arity_of(f)
    &&& c.m_num_fixed == 0
}

/// A well-formed bound closure: fresh header, exact arity, exactly one fixed
/// argument, and that argument a fresh external object wrapping the host
/// state handle under the shared class descriptor.
pub open spec fn bound_closure_wf(c: Closure, f: CallbackId, cls: u64, data: u64) -> bool {
    &&& fresh_header(c.m_header, TAG_CLOSURE, 0)
    &&& c.m_fun == f
    &&& takes_bound_arg(f)
    &&& c.m_arity == arity_of(f)
    &&& c.m_num_fixed == 1
    &&& external_wf(c.m_arg, cls, data)
}

/// Builds an unbound closure; private to the per-signature factories below.
fn mk_unbound(f: CallbackId, arity: u16) -> (c: LeanClosure)
    requires
        arity == arity_of(f),
        !takes_bound_arg(f),
    ensures
        closure_wf(c, f),
{
    LeanClosure {
        m_header: crate::layout::mk_header(TAG_CLOSURE, 0),
        m_fun: f,
        m_arity: arity,
        m_num_fixed: 0,
    }
}

/// Factory for the plain demonstration callback.
pub fn mk_closure() -> (c: LeanClosure)
    ensures
        closure_wf(c, CallbackId::RustCallback),
{
    mk_unbound(CallbackId::RustCallback, 1)
}

/// Factory for the effectful demonstration callback.
pub fn mk_io_closure() -> (c: LeanClosure)
    ensures
        closure_wf(c, CallbackId::RustIoCallback),
{
    mk_unbound(CallbackId::RustIoCallback, 2)
}

/// Factory for the string demonstration callback.
pub fn mk_io_string_closure() -> (c: LeanClosure)
    ensures
        closure_wf(c, CallbackId::RustIoStringCallback),
{
    mk_unbound(CallbackId::RustIoStringCallback, 2)
}

/// Builds a closure with one bound argument: a fresh external object wrapping
/// the host state handle.  The recorded arity counts the bound argument.
pub fn mk_closure_2(f: CallbackId, cls: u64, data: u64, arity: u16) -> (c: Closure)
    requires
        arity == arity_of(f),
        takes_bound_arg(f),
    ensures
        bound_closure_wf(c, f, cls, data),
{
    Closure {
        m_header: crate::layout::mk_header(TAG_CLOSURE, 0),
        m_fun: f,
        m_arity: arity,
        m_num_fixed: 1,
        m_arg: mk_external_object(cls, data),
    }
}

/// Factory for the event-notification closure.
pub fn mk_on_event(cls: u64, data: u64) -> (c: Closure)
    ensures
        bound_closure_wf(c, CallbackId::OnEvent, cls, data),
{
    mk_closure_2(CallbackId::OnEvent, cls, data, 3)
}

/// Factory for the state-set closure.
pub fn mk_set_app_state(cls: u64, data: u64) -> (c: Closure)
    ensures
        bound_closure_wf(c, CallbackId::SetAppState, cls, data),
{
    mk_closure_2(CallbackId::SetAppState, cls, data, 3)
}

/// Factory for the column-creation closure.
pub fn mk_fresh_column(cls: u64, data: u64) -> (c: Closure)
    ensures
        bound_closure_wf(c, CallbackId::FreshColumn, cls, data),
{
    mk_closure_2(CallbackId::FreshColumn, cls, data, 4)
}

/// Factory for the line-append closure.
pub fn mk_push_line(cls: u64, data: u64) -> (c: Closure)
    ensures
        bound_closure_wf(c, CallbackId::PushLine, cls, data),
{
    mk_closure_2(CallbackId::PushLine, cls, data, 4)
}

/// Factory for the text-reset closure.
pub fn mk_reset_text(cls: u64, data: u64) -> (c: Closure)
    ensures
        bound_closure_wf(c, CallbackId::ResetText, cls, data),
{
    mk_closure_2(CallbackId::ResetText, cls, data, 3)
}

/// Factory for the clip-set closure.
pub fn mk_set_clip(cls: u64, data: u64) -> (c: Closure)
    ensures
        bound_closure_wf(c, CallbackId::SetClip, cls, data),
{
    mk_closure_2(CallbackId::SetClip, cls, data, 7)
}

/// Factory for the clip-removal closure.
pub fn mk_remove_clip(cls: u64, data: u64) -> (c: Closure)
    ensures
        bound_closure_wf(c, CallbackId::RemoveClip, cls, data),
{
    mk_closure_2(CallbackId::RemoveClip, cls, data, 3)
}

} // verus!
