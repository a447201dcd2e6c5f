//! The effect batch: the host-owned command buffer that foreign callbacks
//! fill during one event dispatch, and the callback bodies that fill it.
//!
//! Identifier maps are kept as association vectors with unique keys, in
//! insertion order; newly created column identifiers are consecutive, ending
//! at `next_id`, which is monotonic across batches and never reused.

use vstd::prelude::*;

verus! {

/// A two-dimensional position or extent.  The coordinates are carried as the
/// raw bit patterns of the host's 32-bit floats: this core stores and
/// forwards them without arithmetic, and the renderer downstream decodes
/// them.
#[derive(Clone, Copy, PartialEq, Eq, Structural, Debug)]
pub struct Vec2 {
    pub x: u32,
    pub y: u32,
}

/// A clip rectangle: position and size.
#[derive(Clone, Copy, PartialEq, Eq, Structural, Debug)]
pub struct Clip {
    pub pos: Vec2,
    pub size: Vec2,
}

/// How pending lines combine with a column's existing lines when applied.
#[derive(Clone, Copy, PartialEq, Eq, Structural, Debug)]
pub enum AppendMode {
    Append,
    Replace,
}

/// A column's pending text: the combining mode and the lines gathered so far.
pub struct TextOp {
    pub mode: AppendMode,
    pub lines: Vec<String>,
}

/// True when `s` holds an entry for key `k`.
pub open spec fn assoc_has<V>(s: Seq<(u64, V)>, k: u64) -> bool {
    exists|i: int| 0 <= i < s.len() && (#[trigger] s[i]).0 == k
}

/// The index of the entry for key `k`, when one exists.
pub open spec fn assoc_index<V>(s: Seq<(u64, V)>, k: u64) -> int {
    choose|i: int| 0 <= i < s.len() && (#[trigger] s[i]).0 == k
}

/// The value stored for key `k`, when an entry exists.
pub open spec fn assoc_get<V>(s: Seq<(u64, V)>, k: u64) -> Option<V> {
    if assoc_has(s, k) {
        Some(s[assoc_index(s, k)].1)
    } else {
        None
    }
}

/// No two entries share a key.
pub open spec fn assoc_unique<V>(s: Seq<(u64, V)>) -> bool {
    forall|i: int, j: int|
        0 <= i < j < s.len() ==> (#[trigger] s[i]).0 != (#[trigger] s[j]).0
}

/// Finds the position of the entry for `k`, scanning in insertion order.
pub fn assoc_position<V>(v: &Vec<(u64, V)>, k: u64) -> (r: Option<usize>)
    ensures
        match r {
            Some(i) => i < v@.len() && v@[i as int].0 == k,
            None => !assoc_has(v@, k),
        },
{
    let n = v.len();
    let mut i: usize = 0;
    while i < n
        invariant
            n == v@.len(),
            i <= n,
            forall|j: int| 0 <= j < i ==> (#[trigger] v@[j]).0 != k,
        decreases n - i,
    {
        if v[i].0 == k {
            return Some(i);
        }
        i = i + 1;
    }
    None
}

/// The mutation requests accumulated during one event dispatch, applied
/// atomically by the host once control returns, plus the monotonic column
/// identifier counter and the cached foreign application-state handle.
pub struct Effects {
    pub next_id: u64,
    pub new_columns: Vec<(u64, Vec2)>,
    pub text: Vec<(u64, TextOp)>,
    pub clip: Vec<(u64, Option<Clip>)>,
    pub animate: Vec<(u64, (Vec2, u32))>,
    pub app_state: u64,
    pub should_quit: bool,
}

/// The host-side interpreter state handed (as a handle) to every bound
/// closure: the effect batch plus a toggling commit marker with no consumer
/// beyond diagnostics.
pub struct Interpreter {
    pub effects: Effects,
    pub committed: bool,
}

impl Effects {
    /// Newly created column identifiers are exactly the consecutive run
    /// ending at `next_id`, in insertion order.
    pub open spec fn new_cols_consecutive(self) -> bool {
        &&& self.new_columns@.len() <= self.next_id
        &&& forall|i: int|
            0 <= i < self.new_columns@.len() ==> (#[trigger] self.new_columns@[i]).0
                == self.next_id - self.new_columns@.len() + i
    }

    /// The batch invariant: consecutive fresh identifiers and unique keys in
    /// every map.
    pub open spec fn wf(self) -> bool {
        &&& self.new_cols_consecutive()
        &&& assoc_unique(self.text@)
        &&& assoc_unique(self.clip@)
        &&& assoc_unique(self.animate@)
    }

    /// All four maps are empty.
    pub open spec fn is_drained(self) -> bool {
        &&& self.new_columns@.len() == 0
        &&& self.text@.len() == 0
        &&& self.clip@.len() == 0
        &&& self.animate@.len() == 0
    }

    /// An empty batch.  `next_id` starts wherever the host's pre-existing
    /// column count ends, so that identifiers stay in step with the renderer.
    pub fn new(next_id: u64, app_state: u64) -> (e: Effects)
        ensures
            e.wf(),
            e.is_drained(),
            e.next_id == next_id,
            e.app_state == app_state,
            !e.should_quit,
    {
        Effects {
            next_id,
            new_columns: Vec::new(),
            text: Vec::new(),
            clip: Vec::new(),
            animate: Vec::new(),
            app_state,
            should_quit: false,
        }
    }
}

/// Every identifier already assigned in this batch lies strictly below the
/// counter, so an identifier, once handed out, is never assigned again.
pub proof fn lemma_ids_below_counter(e: Effects)
    requires
        e.wf(),
    ensures
        forall|i: int|
            0 <= i < e.new_columns@.len() ==> (#[trigger] e.new_columns@[i]).0 < e.next_id,
{
}

/// Replaces the cached foreign application-state handle.  The previous
/// handle's reference is the caller's to release.
pub fn set_app_state(e: &mut Effects, state: u64)
    ensures
        *final(e) == (Effects { app_state: state, ..*old(e) }),
{
    e.app_state = state;
}

/// Assigns the next column identifier to a new column at `pos`.  The
/// identifier was never used before — in particular it cannot already be in
/// the batch — and identifiers grow by exactly one per creation, so they are
/// never reused.
pub fn fresh_column(e: &mut Effects, pos: Vec2) -> (id: u64)
    requires
        old(e).wf(),
        old(e).next_id < u64::MAX,
    ensures
        final(e).wf(),
        id == old(e).next_id,
        !assoc_has(old(e).new_columns@, id),
        final(e).next_id == old(e).next_id + 1,
        final(e).new_columns@ == old(e).new_columns@.push((id, pos)),
        final(e).text@ == old(e).text@,
        final(e).clip@ == old(e).clip@,
        final(e).animate@ == old(e).animate@,
        final(e).app_state == old(e).app_state,
        final(e).should_quit == old(e).should_quit,
{
    let id = e.next_id;
    proof {
        assert(forall|i: int|
            0 <= i < e.new_columns@.len() ==> (#[trigger] e.new_columns@[i]).0 < e.next_id);
    }
    e.new_columns.push((id, pos));
    e.next_id = id + 1;
    id
}

/// Appends one line to a column's pending text.  A column with no pending
/// text yet starts in `Append` mode with just this line; otherwise the mode
/// is kept and the line goes at the end.
pub fn push_line(e: &mut Effects, id: u64, line: String)
    requires
        old(e).wf(),
    ensures
        final(e).wf(),
        final(e).next_id == old(e).next_id,
        final(e).new_columns@ == old(e).new_columns@,
        final(e).clip@ == old(e).clip@,
        final(e).animate@ == old(e).animate@,
        final(e).app_state == old(e).app_state,
        final(e).should_quit == old(e).should_quit,
        assoc_has(old(e).text@, id) ==> {
            let idx = assoc_index(old(e).text@, id);
            &&& final(e).text@.len() == old(e).text@.len()
            &&& forall|j: int|
                0 <= j < old(e).text@.len() && j != idx ==> final(e).text@[j] == old(
                    e,
                ).text@[j]
            &&& final(e).text@[idx].0 == id
            &&& final(e).text@[idx].1.mode == old(e).text@[idx].1.mode
            &&& final(e).text@[idx].1.lines@ == old(e).text@[idx].1.lines@.push(line)
        },
        !assoc_has(old(e).text@, id) ==> {
            &&& final(e).text@.len() == old(e).text@.len() + 1
            &&& forall|j: int|
                0 <= j < old(e).text@.len() ==> final(e).text@[j] == old(e).text@[j]
            &&& final(e).text@.last().0 == id
            &&& final(e).text@.last().1.mode is Append
            &&& final(e).text@.last().1.lines@ == seq![line]
        },
{
    match assoc_position(&e.text, id) {
        Some(i) => {
            proof {
                assert(assoc_has(e.text@, id));
                assert(assoc_index(e.text@, id) == i);
            }
            e.text[i].1.lines.push(line);
        },
        None => {
            let mut lines: Vec<String> = Vec::new();
            lines.push(line);
            e.text.push((id, TextOp { mode: AppendMode::Append, lines }));
        },
    }
}

/// Resets a column's pending text to an empty replacement: whatever was
/// gathered is discarded and the mode becomes `Replace`.
pub fn reset_text(e: &mut Effects, id: u64)
    requires
        old(e).wf(),
    ensures
        final(e).wf(),
        final(e).next_id == old(e).next_id,
        final(e).new_columns@ == old(e).new_columns@,
        final(e).clip@ == old(e).clip@,
        final(e).animate@ == old(e).animate@,
        final(e).app_state == old(e).app_state,
        final(e).should_quit == old(e).should_quit,
        assoc_has(old(e).text@, id) ==> {
            let idx = assoc_index(old(e).text@, id);
            &&& final(e).text@.len() == old(e).text@.len()
            &&& forall|j: int|
                0 <= j < old(e).text@.len() && j != idx ==> final(e).text@[j] == old(
                    e,
                ).text@[j]
            &&& final(e).text@[idx].0 == id
            &&& final(e).text@[idx].1.mode is Replace
            &&& final(e).text@[idx].1.lines@.len() == 0
        },
        !assoc_has(old(e).text@, id) ==> {
            &&& final(e).text@.len() == old(e).text@.len() + 1
            &&& forall|j: int|
                0 <= j < old(e).text@.len() ==> final(e).text@[j] == old(e).text@[j]
            &&& final(e).text@.last().0 == id
            &&& final(e).text@.last().1.mode is Replace
            &&& final(e).text@.last().1.lines@.len() == 0
        },
{
    let op = TextOp { mode: AppendMode::Replace, lines: Vec::new() };
    match assoc_position(&e.text, id) {
        Some(i) => {
            proof {
                assert(assoc_has(e.text@, id));
                assert(assoc_index(e.text@, id) == i);
            }
            e.text.set(i, (id, op));
        },
        None => {
            e.text.push((id, op));
        },
    }
}

/// Records a clip change for a column: `Some` sets the rectangle, `None`
/// removes it.  A later change for the same column overwrites an earlier one.
pub fn record_clip(e: &mut Effects, id: u64, c: Option<Clip>)
    requires
        old(e).wf(),
    ensures
        final(e).wf(),
        final(e).next_id == old(e).next_id,
        final(e).new_columns@ == old(e).new_columns@,
        final(e).text@ == old(e).text@,
        final(e).animate@ == old(e).animate@,
        final(e).app_state == old(e).app_state,
        final(e).should_quit == old(e).should_quit,
        assoc_has(final(e).clip@, id),
        assoc_get(final(e).clip@, id) == Some(c),
        forall|k: u64|
            k != id ==> #[trigger] assoc_get(final(e).clip@, k) == assoc_get(old(e).clip@, k),
{
    match assoc_position(&e.clip, id) {
        Some(i) => {
            proof {
                assert(assoc_has(e.clip@, id));
                assert(assoc_index(e.clip@, id) == i);
            }
            e.clip.set(i, (id, c));
            proof {
                lemma_assoc_update::<Option<Clip>>(old(e).clip@, e.clip@, i as int, id, c);
            }
        },
        None => {
            e.clip.push((id, c));
            proof {
                lemma_assoc_push::<Option<Clip>>(old(e).clip@, e.clip@, id, c);
            }
        },
    }
}

/// Sets a column's clip rectangle.
pub fn set_clip(e: &mut Effects, id: u64, c: Clip)
    requires
        old(e).wf(),
    ensures
        final(e).wf(),
        final(e).next_id == old(e).next_id,
        final(e).new_columns@ == old(e).new_columns@,
        final(e).text@ == old(e).text@,
        final(e).animate@ == old(e).animate@,
        final(e).app_state == old(e).app_state,
        final(e).should_quit == old(e).should_quit,
        assoc_get(final(e).clip@, id) == Some(Some(c)),
        forall|k: u64|
            k != id ==> #[trigger] assoc_get(final(e).clip@, k) == assoc_get(old(e).clip@, k),
{
    record_clip(e, id, Some(c));
}

/// Removes a column's clip rectangle.
pub fn remove_clip(e: &mut Effects, id: u64)
    requires
        old(e).wf(),
    ensures
        final(e).wf(),
        final(e).next_id == old(e).next_id,
        final(e).new_columns@ == old(e).new_columns@,
        final(e).text@ == old(e).text@,
        final(e).animate@ == old(e).animate@,
        final(e).app_state == old(e).app_state,
        final(e).should_quit == old(e).should_quit,
        assoc_get(final(e).clip@, id) == Some(Option::<Clip>::None),
        forall|k: u64|
            k != id ==> #[trigger] assoc_get(final(e).clip@, k) == assoc_get(old(e).clip@, k),
{
    record_clip(e, id, None);
}

/// Records an animation request: the column should move to `target` over
/// `duration` (carried, like coordinates, as a raw float bit pattern).
pub fn record_animation(e: &mut Effects, id: u64, target: Vec2, duration: u32)
    requires
        old(e).wf(),
    ensures
        final(e).wf(),
        final(e).next_id == old(e).next_id,
        final(e).new_columns@ == old(e).new_columns@,
        final(e).text@ == old(e).text@,
        final(e).clip@ == old(e).clip@,
        final(e).app_state == old(e).app_state,
        final(e).should_quit == old(e).should_quit,
        assoc_get(final(e).animate@, id) == Some((target, duration)),
        forall|k: u64|
            k != id ==> #[trigger] assoc_get(final(e).animate@, k) == assoc_get(
                old(e).animate@,
                k,
            ),
{
    match assoc_position(&e.animate, id) {
        Some(i) => {
            proof {
                assert(assoc_has(e.animate@, id));
                assert(assoc_index(e.animate@, id) == i);
            }
            e.animate.set(i, (id, (target, duration)));
            proof {
                lemma_assoc_update::<(Vec2, u32)>(
                    old(e).animate@,
                    e.animate@,
                    i as int,
                    id,
                    (target, duration),
                );
            }
        },
        None => {
            e.animate.push((id, (target, duration)));
            proof {
                lemma_assoc_push::<(Vec2, u32)>(old(e).animate@, e.animate@, id, (target, duration));
            }
        },
    }
}

/// After replacing the entry for `k` in place, lookups see the new value for
/// `k` and the old value for every other key, and keys stay unique.
pub proof fn lemma_assoc_update<V>(s: Seq<(u64, V)>, t: Seq<(u64, V)>, i: int, k: u64, v: V)
    requires
        assoc_unique(s),
        0 <= i < s.len(),
        s[i].0 == k,
        t == s.update(i, (k, v)),
    ensures
        assoc_unique(t),
        assoc_get(t, k) == Some(v),
        forall|k2: u64| k2 != k ==> #[trigger] assoc_get(t, k2) == assoc_get(s, k2),
{
    assert(t[i].0 == k);
    assert(assoc_has(t, k));
    assert(assoc_index(t, k) == i);
    assert forall|k2: u64| k2 != k implies #[trigger] assoc_get(t, k2) == assoc_get(s, k2) by {
        assert(forall|j: int| 0 <= j < t.len() && j != i ==> t[j] == s[j]);
        if assoc_has(s, k2) {
            let j = assoc_index(s, k2);
            assert(s[j].0 == k2);
            assert(j != i);
            assert(t[j].0 == k2);
            assert(assoc_has(t, k2));
            assert(assoc_index(t, k2) == j);
        } else {
            assert(!assoc_has(t, k2)) by {
                if assoc_has(t, k2) {
                    let j = assoc_index(t, k2);
                    assert(t[j].0 == k2);
                    assert(j != i);
                    assert(s[j].0 == k2);
                }
            }
        }
    }
}

/// After pushing an entry with a key not yet present, lookups see the new
/// value for that key and the old value for every other key, and keys stay
/// unique.
pub proof fn lemma_assoc_push<V>(s: Seq<(u64, V)>, t: Seq<(u64, V)>, k: u64, v: V)
    requires
        assoc_unique(s),
        !assoc_has(s, k),
        t == s.push((k, v)),
    ensures
        assoc_unique(t),
        assoc_get(t, k) == Some(v),
        forall|k2: u64| k2 != k ==> #[trigger] assoc_get(t, k2) == assoc_get(s, k2),
{
    assert(t[s.len() as int].0 == k);
    assert(assoc_has(t, k));
    assert(forall|j: int| 0 <= j < s.len() ==> t[j] == s[j]);
    assert(assoc_index(t, k) == s.len() as int) by {
        let j = assoc_index(t, k);
        assert(t[j].0 == k);
        if j < s.len() {
            assert(s[j].0 == k);
        }
    }
    assert forall|k2: u64| k2 != k implies #[trigger] assoc_get(t, k2) == assoc_get(s, k2) by {
        if assoc_has(s, k2) {
            let j = assoc_index(s, k2);
            assert(t[j].0 == k2);
            assert(assoc_has(t, k2));
            assert(assoc_index(t, k2) == j);
        } else {
            assert(!assoc_has(t, k2)) by {
                if assoc_has(t, k2) {
                    let j = assoc_index(t, k2);
                    assert(t[j].0 == k2);
                    assert(j < s.len());
                }
            }
        }
    }
}

} // verus!
