//! External objects: foreign heap cells that wrap a host-owned pointer so the
//! foreign collector can track and finalize them without owning the
//! underlying host memory, and the process-wide class descriptor they all
//! share.
//!
//! Host pointers are carried through this model as opaque handle words; the
//! unsafe layer outside this crate is what turns them back into addresses.

use vstd::prelude::*;

use crate::layout::LeanObject;
use crate::layout::fresh_header;
use crate::layout::TAG_EXTERNAL;

verus! {

/// An external object: header, the shared class descriptor handle, and the
/// wrapped host data handle.  The class's finalize callback must not free the
/// host data; the host owns it independently.
pub struct LeanExternalObject {
    pub m_header: LeanObject,
    pub m_class: u64,
    pub m_data: u64,
}

/// A well-formed external object wrapping `data` under class `cls`.
pub open spec fn external_wf(o: LeanExternalObject, cls: u64, data: u64) -> bool {
    &&& fresh_header(o.m_header, TAG_EXTERNAL, 0)
    &&& o.m_class == cls
    &&& o.m_data == data
}

/// Builds a fresh external object around a host data handle.  A new wrapper
/// is constructed for every foreign-facing call; wrappers are never reused
/// across calls, because the foreign runtime may reclaim one as soon as the
/// call that received it completes.
pub fn mk_external_object(cls: u64, data: u64) -> (o: LeanExternalObject)
    ensures
        external_wf(o, cls, data),
{
    LeanExternalObject {
        m_header: crate::layout::mk_header(TAG_EXTERNAL, 0),
        m_class: cls,
        m_data: data,
    }
}

/// The cached class descriptor: registered at most once per process, then
/// reused by every external object.
pub struct ClassRegistry {
    pub cls: Option<u64>,
}

impl ClassRegistry {
    /// An empty registry: no descriptor registered yet.
    pub fn new() -> (r: ClassRegistry)
        ensures
            r.cls is None,
    {
        ClassRegistry { cls: None }
    }

    /// True while a registration call is still needed.
    pub fn needs_registration(&self) -> (b: bool)
        ensures
            b == (self.cls is None),
    {
        self.cls.is_none()
    }

    /// Records the outcome of one registration attempt.  The first recorded
    /// descriptor wins: racing attempts may each have performed the foreign
    /// registration call, but every reader observes the single cached value,
    /// whichever attempt that was.
    pub fn install(&mut self, fresh: u64) -> (r: u64)
        ensures
            old(self).cls matches Some(c) ==> *final(self) == *old(self) && r == c,
            old(self).cls is None ==> final(self).cls == Some(fresh) && r == fresh,
    {
        match self.cls {
            Some(c) => c,
            None => {
                self.cls = Some(fresh);
                fresh
            },
        }
    }

    /// The cached descriptor, once one is registered.
    pub fn descriptor(&self) -> (r: u64)
        requires
            self.cls is Some,
        ensures
            r == self.cls->0,
    {
        self.cls.unwrap()
    }
}

} // verus!
