//! Reference counting protocol: the host-side fast paths of retain and
//! release, mirroring the foreign runtime's split between an inline counter
//! update and a delegated slow path.
//!
//! A zero count marks an immortal or externally owned object the host must
//! never count on; negative counts belong to the foreign runtime's own
//! slow-path machinery; and a count at the top of the representable range is
//! out of the safe fast-path range for an increment.  In all of those cases
//! the functions here leave the object untouched and report the outcome so
//! the caller can delegate to the foreign entry points.

use vstd::prelude::*;

use crate::layout::LeanObject;

verus! {

/// What a retain or release did locally.
pub enum RcOutcome {
    /// The inline counter was adjusted; nothing else to do.
    Fast,
    /// The count is the immortal sentinel; the object is never counted.
    Immortal,
    /// Outside the fast-path range: the caller must delegate to the foreign
    /// runtime's slow-path entry point (which, for a release of the last
    /// reference, frees the object).
    Cold,
}

/// The inline count after a retain's local step.
pub open spec fn retain_result(rc: i32) -> i32 {
    if 0 < rc < i32::MAX {
        (rc + 1) as i32
    } else {
        rc
    }
}

/// The inline count after a release's local step.
pub open spec fn release_result(rc: i32) -> i32 {
    if rc > 1 {
        (rc - 1) as i32
    } else {
        rc
    }
}

/// Retains an object: increments the inline count when it is in the safe
/// fast-path range, leaves immortal objects alone, and reports `Cold` when
/// the count belongs to the foreign slow path.
pub fn lean_inc_ref(o: &mut LeanObject) -> (outcome: RcOutcome)
    ensures
        final(o).m_rc == retain_result(old(o).m_rc),
        final(o).m_cs_sz == old(o).m_cs_sz,
        final(o).m_other == old(o).m_other,
        final(o).m_tag == old(o).m_tag,
        outcome is Fast <==> 0 < old(o).m_rc < i32::MAX,
        outcome is Immortal <==> old(o).m_rc == 0,
        outcome is Cold <==> (old(o).m_rc < 0 || old(o).m_rc == i32::MAX),
{
    if o.m_rc > 0 && o.m_rc < i32::MAX {
        o.m_rc = o.m_rc + 1;
        RcOutcome::Fast
    } else if o.m_rc == 0 {
        RcOutcome::Immortal
    } else {
        RcOutcome::Cold
    }
}

/// True exactly when a release must delegate to the foreign slow path (the
/// path that may free the object).
pub open spec fn release_delegates(rc: i32) -> bool {
    rc == 1 || rc < 0
}

/// Releases an object: decrements the inline count while another reference
/// remains, leaves immortal objects alone, and reports `Cold` when the last
/// reference is dropped (the foreign slow path frees the object) or the count
/// belongs to the foreign slow path.
pub fn lean_dec_ref(o: &mut LeanObject) -> (outcome: RcOutcome)
    ensures
        final(o).m_rc == release_result(old(o).m_rc),
        final(o).m_cs_sz == old(o).m_cs_sz,
        final(o).m_other == old(o).m_other,
        final(o).m_tag == old(o).m_tag,
        outcome is Fast <==> old(o).m_rc > 1,
        outcome is Immortal <==> old(o).m_rc == 0,
        outcome is Cold <==> release_delegates(old(o).m_rc),
{
    if o.m_rc > 1 {
        o.m_rc = o.m_rc - 1;
        RcOutcome::Fast
    } else if o.m_rc == 0 {
        RcOutcome::Immortal
    } else {
        RcOutcome::Cold
    }
}

/// A retain followed by a release leaves the observable count unchanged.
/// The one count this cannot be said of locally is the top of the
/// representable range, where the retain is delegated while the release is
/// not.
pub proof fn lemma_retain_release_neutral(rc: i32)
    requires
        rc != i32::MAX,
    ensures
        release_result(retain_result(rc)) == rc,
{
}

/// A release of an immortal object does nothing, and in particular never
/// reaches the freeing slow path, so the sentinel can never cause a double
/// free however often it is released.
pub proof fn lemma_release_immortal_never_frees(rc: i32)
    requires
        rc == 0,
    ensures
        release_result(rc) == rc,
        !release_delegates(rc),
        !release_delegates(release_result(rc)),
{
}

} // verus!
