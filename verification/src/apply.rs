//! The host-side renderer state the applied effect batch acts on, and the
//! bookkeeping operations that apply it: inserting a new column of lines and
//! replacing a pre-existing column's lines in place.
//!
//! A column owns a contiguous range of the line store, columns partition the
//! store in order, and a dirty range (`unbound_offset`/`unbound_length`)
//! tracks which lines the downstream renderer still has to rebind.  Lines are
//! carried as their source text; shaping them into glyphs is the downstream
//! renderer's business.

use vstd::prelude::*;

use crate::effects::Vec2;
use crate::effects::Clip;
use crate::effects::Effects;
use crate::effects::AppendMode;
use crate::effects::assoc_has;
use crate::effects::assoc_get;
use crate::effects::assoc_index;
use crate::effects::assoc_unique;
use crate::effects::assoc_position;

verus! {

/// One positioned column of lines: its range in the line store, an optional
/// clip rectangle, and an optional pending animation (target position and
/// duration, both carried as raw float bit patterns).
#[derive(Clone, Copy)]
pub struct Column {
    pub pos: Vec2,
    pub clip: Option<Clip>,
    pub animation: Option<(Vec2, u32)>,
    pub offset: usize,
    pub length: usize,
}

/// The renderer-facing text state: the line store, the columns that partition
/// it, and the dirty range still to be rebound downstream.
pub struct TextData {
    pub laid_out_lines: Vec<String>,
    pub columns: Vec<Column>,
    pub unbound_offset: usize,
    pub unbound_length: usize,
}

impl TextData {
    /// One past the last line of column `i`.
    pub open spec fn col_end(self, i: int) -> int {
        self.columns@[i].offset + self.columns@[i].length
    }

    /// The columns partition the line store in order: each column starts
    /// where the previous one ends, the first starts at zero, the last ends
    /// at the store's end, and the dirty range lies within the store.
    pub open spec fn wf(self) -> bool {
        &&& forall|i: int|
            0 < i < self.columns@.len() ==> (#[trigger] self.columns@[i]).offset == self.col_end(
                i - 1,
            )
        &&& (self.columns@.len() > 0 ==> self.columns@[0].offset == 0)
        &&& forall|i: int|
            0 <= i < self.columns@.len() ==> #[trigger] self.col_end(i)
                <= self.laid_out_lines@.len()
        &&& (self.columns@.len() > 0 ==> self.col_end(self.columns@.len() - 1)
            == self.laid_out_lines@.len())
        &&& (self.columns@.len() == 0 ==> self.laid_out_lines@.len() == 0)
        &&& self.unbound_offset + self.unbound_length <= self.laid_out_lines@.len()
    }

    /// An empty renderer state.
    pub fn new() -> (td: TextData)
        ensures
            td.wf(),
            td.columns@.len() == 0,
            td.laid_out_lines@.len() == 0,
            td.unbound_offset == 0,
            td.unbound_length == 0,
    {
        TextData {
            laid_out_lines: Vec::new(),
            columns: Vec::new(),
            unbound_offset: 0,
            unbound_length: 0,
        }
    }
}

/// Distinct columns own disjoint line ranges, in column order.
pub proof fn lemma_cols_ordered(td: TextData, i: int, j: int)
    requires
        td.wf(),
        0 <= i < j < td.columns@.len(),
    ensures
        td.col_end(i) <= td.columns@[j].offset,
    decreases j - i,
{
    if j == i + 1 {
    } else {
        lemma_cols_ordered(td, i, j - 1);
    }
}

/// Appends a new column at `pos` holding a copy of `texts`, clipped by
/// `clip`, and widens the dirty range to cover the appended lines.  Returns
/// the new column's index, which is the count of columns before it.
pub fn insert_text(
    td: &mut TextData,
    pos: Vec2,
    clip: Option<Clip>,
    texts: &Vec<String>,
) -> (col_id: usize)
    requires
        old(td).wf(),
        old(td).laid_out_lines@.len() + texts@.len() <= usize::MAX,
        old(td).columns@.len() < usize::MAX,
    ensures
        final(td).wf(),
        col_id == old(td).columns@.len(),
        final(td).columns@ == old(td).columns@.push(
            Column {
                pos,
                clip,
                animation: None,
                offset: old(td).laid_out_lines.len(),
                length: texts.len(),
            },
        ),
        final(td).laid_out_lines@ == old(td).laid_out_lines@ + texts@,
        final(td).unbound_offset == old(td).unbound_offset,
        final(td).unbound_offset + final(td).unbound_length == final(td).laid_out_lines@.len(),
{
    let new_offset = td.laid_out_lines.len();
    td.columns.push(
        Column { pos, clip, animation: None, offset: new_offset, length: texts.len() },
    );
    let mut k: usize = 0;
    while k < texts.len()
        invariant
            k <= texts@.len(),
            td.laid_out_lines@.len() == new_offset + k,
            td.laid_out_lines@ == old(td).laid_out_lines@ + texts@.take(k as int),
            new_offset == old(td).laid_out_lines@.len(),
            new_offset + texts@.len() <= usize::MAX,
            td.columns@ == old(td).columns@.push(
                Column {
                    pos,
                    clip,
                    animation: None,
                    offset: new_offset,
                    length: texts.len(),
                },
            ),
            td.unbound_offset == old(td).unbound_offset,
            td.unbound_length == old(td).unbound_length,
        decreases texts@.len() - k,
    {
        td.laid_out_lines.push(texts[k].clone());
        proof {
            assert(td.laid_out_lines@ =~= old(td).laid_out_lines@ + texts@.take(k + 1));
        }
        k = k + 1;
    }
    proof {
        assert(texts@.take(texts@.len() as int) =~= texts@);
    }
    let unbound_offset = if td.unbound_offset < new_offset {
        td.unbound_offset
    } else {
        new_offset
    };
    td.unbound_offset = unbound_offset;
    td.unbound_length = td.laid_out_lines.len() - unbound_offset;
    proof {
        let a = *old(td);
        let b = *td;
        assert forall|i: int|
            0 < i < b.columns@.len() implies (#[trigger] b.columns@[i]).offset == b.col_end(
            i - 1,
        ) by {
            if i < a.columns@.len() {
                assert(a.columns@[i].offset == a.col_end(i - 1));
            } else {
                if a.columns@.len() > 0 {
                    assert(a.col_end(a.columns@.len() - 1) == a.laid_out_lines@.len());
                }
            }
        }
        assert forall|i: int|
            0 <= i < b.columns@.len() implies #[trigger] b.col_end(i)
            <= b.laid_out_lines@.len() by {
            if i < a.columns@.len() {
                assert(a.col_end(i) <= a.laid_out_lines@.len());
            }
        }
    }
    td.columns.len() - 1
}

/// Well-formedness depends only on the column geometry, the store's length
/// and the dirty range, not on what the lines hold.
proof fn lemma_wf_same_geometry(a: TextData, b: TextData)
    requires
        a.wf(),
        b.columns@ == a.columns@,
        b.laid_out_lines@.len() == a.laid_out_lines@.len(),
        b.unbound_offset + b.unbound_length <= b.laid_out_lines@.len(),
    ensures
        b.wf(),
{
    assert forall|i: int|
        0 < i < b.columns@.len() implies (#[trigger] b.columns@[i]).offset == b.col_end(
        i - 1,
    ) by {
        assert(a.columns@[i].offset == a.col_end(i - 1));
    }
    assert forall|i: int|
        0 <= i < b.columns@.len() implies #[trigger] b.col_end(i) <= b.laid_out_lines@.len() by {
        assert(a.col_end(i) <= a.laid_out_lines@.len());
    }
    if b.columns@.len() > 0 {
        assert(a.col_end(b.columns@.len() - 1) == a.laid_out_lines@.len());
    }
}

/// Writes a copy of `texts` over `lines[offset ..]`, leaving every line
/// outside that range untouched.
fn write_lines(lines: &mut Vec<String>, offset: usize, texts: &Vec<String>)
    requires
        offset + texts@.len() <= old(lines)@.len(),
    ensures
        final(lines)@.len() == old(lines)@.len(),
        forall|m: int| 0 <= m < texts@.len() ==> final(lines)@[offset + m] == texts@[m],
        forall|m: int|
            0 <= m < old(lines)@.len() && !(offset <= m < offset + texts@.len())
                ==> final(lines)@[m] == old(lines)@[m],
{
    let length = texts.len();
    let total = lines.len();
    let mut k: usize = 0;
    while k < length
        invariant
            k <= length,
            length == texts@.len(),
            offset + length <= total,
            total == lines@.len(),
            lines@.len() == old(lines)@.len(),
            forall|m: int| 0 <= m < k ==> lines@[offset + m] == texts@[m],
            forall|m: int|
                0 <= m < lines@.len() && !(offset <= m < offset + k) ==> lines@[m] == old(
                    lines,
                )@[m],
        decreases length - k,
    {
        lines.set(offset + k, texts[k].clone());
        k = k + 1;
    }
}

/// Replaces the lines of column `col_id` with a copy of `texts`, which must
/// have exactly the column's line count, and widens the dirty range to cover
/// the replaced lines.  Columns and all other lines are untouched.
pub fn replace_text(td: &mut TextData, col_id: usize, texts: &Vec<String>)
    requires
        old(td).wf(),
        col_id < old(td).columns@.len(),
        old(td).columns@[col_id as int].length == texts@.len(),
    ensures
        final(td).wf(),
        final(td).columns@ == old(td).columns@,
        final(td).laid_out_lines@.len() == old(td).laid_out_lines@.len(),
        forall|k: int|
            0 <= k < texts@.len() ==> final(td).laid_out_lines@[old(td).columns@[col_id as int].offset
                + k] == texts@[k],
        forall|k: int|
            0 <= k < old(td).laid_out_lines@.len() && !(old(td).columns@[col_id as int].offset <= k
                < old(td).col_end(col_id as int)) ==> final(td).laid_out_lines@[k] == old(
                td,
            ).laid_out_lines@[k],
        final(td).unbound_offset <= old(td).unbound_offset,
        final(td).unbound_offset <= old(td).columns@[col_id as int].offset,
        final(td).unbound_offset + final(td).unbound_length >= old(td).unbound_offset + old(
            td,
        ).unbound_length,
        final(td).unbound_offset + final(td).unbound_length >= old(td).col_end(col_id as int),
{
    proof {
        assert(old(td).col_end(col_id as int) <= old(td).laid_out_lines@.len());
    }
    let offset = td.columns[col_id].offset;
    let length = td.columns[col_id].length;
    let total = td.laid_out_lines.len();
    write_lines(&mut td.laid_out_lines, offset, texts);
    proof {
        assert(offset + length <= total);
        assert(td.unbound_offset + td.unbound_length <= total);
    }
    let unbound_offset = if td.unbound_offset < offset {
        td.unbound_offset
    } else {
        offset
    };
    let old_end = td.unbound_offset + td.unbound_length;
    let col_end = offset + length;
    let new_end = if old_end < col_end {
        col_end
    } else {
        old_end
    };
    td.unbound_offset = unbound_offset;
    td.unbound_length = new_end - unbound_offset;
    proof {
        lemma_wf_same_geometry(*old(td), *td);
    }
}

/// An effect shape this core was not designed to apply safely: a
/// programming-contract violation on the effect-producing side, reported
/// loudly instead of silently corrupting state.
#[derive(Clone, Copy, PartialEq, Eq, Structural, Debug)]
pub enum EffectError {
    /// Text in `Append` mode for a column that was not created this batch.
    AppendToExisting { id: u64 },
    /// Text for an identifier that names no column at all.
    UnknownColumn { id: u64 },
    /// Replacement text whose line count differs from the column's.
    LineCountChanged { id: u64 },
}

/// The fault, if any, of text entry `j` when applied against renderer state
/// `td`.  Entries for columns created this batch are applied at creation and
/// can never fault; an edit of a pre-existing column must be a `Replace`, of
/// an existing column, with an unchanged line count.
pub open spec fn entry_fault(e: Effects, td: TextData, j: int) -> Option<EffectError>
    recommends
        0 <= j < e.text@.len(),
{
    let id = e.text@[j].0;
    let op = e.text@[j].1;
    if assoc_has(e.new_columns@, id) {
        None
    } else if op.mode is Append {
        Some(EffectError::AppendToExisting { id })
    } else if id >= td.columns@.len() {
        Some(EffectError::UnknownColumn { id })
    } else if td.columns@[id as int].length != op.lines@.len() {
        Some(EffectError::LineCountChanged { id })
    } else {
        None
    }
}

/// The first fault among text entries at or after `j`, scanning in insertion
/// order.
pub open spec fn first_fault_from(e: Effects, td: TextData, j: int) -> Option<EffectError>
    decreases e.text@.len() - j,
{
    if j < 0 || j >= e.text@.len() {
        None
    } else if entry_fault(e, td, j) is Some {
        entry_fault(e, td, j)
    } else {
        first_fault_from(e, td, j + 1)
    }
}

/// The first fault of the whole batch, if any.
pub open spec fn first_fault(e: Effects, td: TextData) -> Option<EffectError> {
    first_fault_from(e, td, 0)
}

/// A faultless batch has no faulty entry.
proof fn lemma_no_fault_entries(e: Effects, td: TextData, i: int, j: int)
    requires
        first_fault_from(e, td, i) is None,
        0 <= i <= j < e.text@.len(),
    ensures
        entry_fault(e, td, j) is None,
    decreases j - i,
{
    if i < j {
        lemma_no_fault_entries(e, td, i + 1, j);
    }
}

/// The lines a column created this batch starts with: the batch's pending
/// text for its identifier, or none.
pub open spec fn new_lines_of(e: Effects, m: int) -> Seq<String>
    recommends
        0 <= m < e.new_columns@.len(),
{
    match assoc_get(e.text@, e.new_columns@[m].0) {
        Some(op) => op.lines@,
        None => Seq::empty(),
    }
}

/// Checks the whole batch against the renderer state and reports the first
/// unsupported effect shape, scanning text entries in insertion order.
fn validate_effects(e: &Effects, td: &TextData) -> (r: Option<EffectError>)
    ensures
        r == first_fault(*e, *td),
{
    let n = e.text.len();
    let mut j: usize = 0;
    while j < n
        invariant
            j <= n,
            n == e.text@.len(),
            first_fault(*e, *td) == first_fault_from(*e, *td, j as int),
        decreases n - j,
    {
        let id = e.text[j].0;
        let is_new = assoc_position(&e.new_columns, id).is_some();
        if !is_new {
            let is_append = matches!(e.text[j].1.mode, AppendMode::Append);
            if is_append {
                return Some(EffectError::AppendToExisting { id });
            }
            if id >= td.columns.len() as u64 {
                return Some(EffectError::UnknownColumn { id });
            }
            let cid = id as usize;
            if td.columns[cid].length != e.text[j].1.lines.len() {
                return Some(EffectError::LineCountChanged { id });
            }
        }
        proof {
            assert(entry_fault(*e, *td, j as int) is None);
        }
        j = j + 1;
    }
    None
}

/// The lines of the first `m` columns created this batch, in order.
pub open spec fn new_lines_concat(e: Effects, m: int) -> Seq<String>
    decreases m,
{
    if m <= 0 {
        Seq::empty()
    } else {
        new_lines_concat(e, m - 1) + new_lines_of(e, m - 1)
    }
}

/// Concatenation prefixes only grow: one more column appends that column's
/// lines after everything already there.
proof fn lemma_concat_prefix(e: Effects, m: int, n: int)
    requires
        0 <= m < n,
    ensures
        new_lines_concat(e, m).len() + new_lines_of(e, m).len() <= new_lines_concat(e, n).len(),
    decreases n - m,
{
    if m + 1 < n {
        lemma_concat_prefix(e, m + 1, n);
    }
}

/// Indexing into the concatenation at a column's own offset lands in that
/// column's lines.
proof fn lemma_concat_index(e: Effects, m: int, n: int, k: int)
    requires
        0 <= m < n,
        0 <= k < new_lines_of(e, m).len(),
    ensures
        new_lines_concat(e, m).len() + k < new_lines_concat(e, n).len(),
        new_lines_concat(e, n)[new_lines_concat(e, m).len() + k] == new_lines_of(e, m)[k],
    decreases n - m,
{
    if m == n - 1 {
    } else {
        lemma_concat_index(e, m, n - 1, k);
    }
}

/// Column `m` of the batch has been applied: its identifier is its column
/// index, it sits at its recorded position with its pending lines, and no
/// clip or animation yet.
pub open spec fn new_col_applied(e: Effects, t0: TextData, td: TextData, m: int) -> bool {
    let i = t0.columns@.len() + m;
    &&& e.new_columns@[m].0 == i
    &&& td.columns@[i].pos == e.new_columns@[m].1
    &&& td.columns@[i].clip is None
    &&& td.columns@[i].animation is None
    &&& td.columns@[i].length == new_lines_of(e, m).len()
    &&& td.columns@[i].offset == t0.laid_out_lines@.len() + new_lines_concat(e, m).len()
}

/// Everything the column-creation phase guarantees, relating the state
/// before (`t0`) and after (`td`).
pub open spec fn cols_phase_post(e: Effects, t0: TextData, td: TextData) -> bool {
    &&& td.wf()
    &&& td.columns@.len() == t0.columns@.len() + e.new_columns@.len()
    &&& forall|i: int| 0 <= i < t0.columns@.len() ==> td.columns@[i] == t0.columns@[i]
    &&& forall|m: int|
        0 <= m < e.new_columns@.len() ==> #[trigger] new_col_applied(e, t0, td, m)
    &&& td.laid_out_lines@ == t0.laid_out_lines@ + new_lines_concat(
        e,
        e.new_columns@.len() as int,
    )
    &&& td.unbound_offset <= t0.unbound_offset
    &&& td.unbound_offset + td.unbound_length >= t0.unbound_offset + t0.unbound_length
    &&& (e.new_columns@.len() > 0 ==> td.unbound_offset + td.unbound_length
        == td.laid_out_lines@.len())
}

/// Applies the batch's new columns in insertion order: each gets a fresh
/// column at its recorded position, holding the batch's pending lines for its
/// identifier (or none), and its assigned identifier equals its column index
/// — fresh identifiers and renderer columns stay in step.
#[verifier::rlimit(100)]
fn apply_new_columns(td: &mut TextData, e: &Effects)
    requires
        e.wf(),
        old(td).wf(),
        old(td).columns@.len() == e.next_id - e.new_columns@.len(),
        e.next_id <= usize::MAX,
        old(td).laid_out_lines@.len() + new_lines_concat(*e, e.new_columns@.len() as int).len()
            <= usize::MAX,
    ensures
        cols_phase_post(*e, *old(td), *final(td)),
{
    let n_cols = e.new_columns.len();
    let base = td.columns.len();
    let empty_lines: Vec<String> = Vec::new();
    let mut m: usize = 0;
    while m < n_cols
        invariant
            m <= n_cols,
            n_cols == e.new_columns@.len(),
            e.wf(),
            old(td).wf(),
            base == old(td).columns@.len(),
            base == e.next_id - e.new_columns@.len(),
            e.next_id <= usize::MAX,
            old(td).laid_out_lines@.len() + new_lines_concat(*e, n_cols as int).len()
                <= usize::MAX,
            empty_lines@.len() == 0,
            td.wf(),
            td.columns@.len() == base + m,
            forall|i: int| 0 <= i < base ==> td.columns@[i] == old(td).columns@[i],
            forall|mm: int|
                0 <= mm < m ==> #[trigger] new_col_applied(*e, *old(td), *td, mm),
            td.laid_out_lines@ == old(td).laid_out_lines@ + new_lines_concat(*e, m as int),
            td.unbound_offset <= old(td).unbound_offset,
            td.unbound_offset + td.unbound_length >= old(td).unbound_offset + old(
                td,
            ).unbound_length,
            m > 0 ==> td.unbound_offset + td.unbound_length == td.laid_out_lines@.len(),
        decreases n_cols - m,
    {
        proof {
            lemma_concat_prefix(*e, m as int, n_cols as int);
        }
        let id = e.new_columns[m].0;
        let pos = e.new_columns[m].1;
        let ghost td_before = *td;
        let sid = match assoc_position(&e.text, id) {
            Some(ti) => {
                proof {
                    assert(assoc_has(e.text@, id));
                    assert(assoc_index(e.text@, id) == ti);
                    assert(new_lines_of(*e, m as int) == e.text@[ti as int].1.lines@);
                }
                insert_text(td, pos, None, &e.text[ti].1.lines)
            },
            None => {
                proof {
                    assert(new_lines_of(*e, m as int) =~= empty_lines@);
                }
                insert_text(td, pos, None, &empty_lines)
            },
        };
        proof {
            assert(sid == base + m);
            assert(id == base + m);
            assert(td.laid_out_lines@ =~= old(td).laid_out_lines@ + new_lines_concat(
                *e,
                m + 1,
            ));
            assert forall|mm: int| 0 <= mm < m + 1 implies #[trigger] new_col_applied(
                *e,
                *old(td),
                *td,
                mm,
            ) by {
                let i = old(td).columns@.len() + mm;
                if mm < m {
                    assert(new_col_applied(*e, *old(td), td_before, mm));
                    assert(td.columns@[i] == td_before.columns@[i]);
                } else {
                    assert(td.columns@[i] == td.columns@.last());
                    assert(td_before.laid_out_lines@.len() == old(td).laid_out_lines@.len()
                        + new_lines_concat(*e, m as int).len());
                }
            }
        }
        m = m + 1;
    }
}

/// True when line `k` lies in the range of some pre-existing column edited by
/// one of the first `jmax` text entries.
pub open spec fn line_edited_before(e: Effects, t: TextData, jmax: int, k: int) -> bool {
    exists|j: int|
        0 <= j < jmax && !assoc_has(e.new_columns@, (#[trigger] e.text@[j]).0)
            && t.columns@[e.text@[j].0 as int].offset <= k < t.col_end(e.text@[j].0 as int)
}

/// True when line `k` lies in the range of some pre-existing column the batch
/// edits.
pub open spec fn line_edited(e: Effects, t: TextData, k: int) -> bool {
    line_edited_before(e, t, e.text@.len() as int, k)
}

/// A line edited among the first `j1` entries is still edited among any
/// longer prefix.
proof fn lemma_edited_mono(e: Effects, t: TextData, j1: int, j2: int, k: int)
    requires
        0 <= j1 <= j2,
        line_edited_before(e, t, j1, k),
    ensures
        line_edited_before(e, t, j2, k),
{
    let jj = choose|jj: int|
        0 <= jj < j1 && !assoc_has(e.new_columns@, (#[trigger] e.text@[jj]).0)
            && t.columns@[e.text@[jj].0 as int].offset <= k < t.col_end(e.text@[jj].0 as int);
    assert(0 <= jj < j2 && !assoc_has(e.new_columns@, e.text@[jj].0)
        && t.columns@[e.text@[jj].0 as int].offset <= k < t.col_end(e.text@[jj].0 as int));
}

/// Everything the text-edit phase guarantees, relating the state before
/// (`tb`) and after (`td`).
pub open spec fn edits_phase_post(e: Effects, tb: TextData, td: TextData) -> bool {
    &&& td.wf()
    &&& td.columns@ == tb.columns@
    &&& td.laid_out_lines@.len() == tb.laid_out_lines@.len()
    &&& forall|j: int|
        0 <= j < e.text@.len() && !assoc_has(e.new_columns@, (#[trigger] e.text@[j]).0)
            ==> (forall|k: int|
            0 <= k < e.text@[j].1.lines@.len()
                ==> td.laid_out_lines@[tb.columns@[e.text@[j].0 as int].offset + k]
                == e.text@[j].1.lines@[k])
    &&& forall|k: int|
        0 <= k < tb.laid_out_lines@.len() && !line_edited(e, tb, k) ==> td.laid_out_lines@[k]
            == tb.laid_out_lines@[k]
    &&& td.unbound_offset <= tb.unbound_offset
    &&& td.unbound_offset + td.unbound_length >= tb.unbound_offset + tb.unbound_length
    &&& forall|j: int|
        0 <= j < e.text@.len() && !assoc_has(e.new_columns@, (#[trigger] e.text@[j]).0) ==> {
            let id = e.text@[j].0;
            &&& td.unbound_offset <= tb.columns@[id as int].offset
            &&& td.unbound_offset + td.unbound_length >= tb.col_end(id as int)
        }
}

/// Applies the batch's edits to pre-existing columns, in insertion order:
/// every text entry whose identifier was not created this batch replaces that
/// column's lines in place.  Lines outside the edited columns are untouched.
#[verifier::rlimit(100)]
fn apply_text_edits(td: &mut TextData, e: &Effects, Ghost(base): Ghost<int>)
    requires
        old(td).wf(),
        assoc_unique(e.text@),
        0 <= base <= old(td).columns@.len(),
        forall|j: int|
            0 <= j < e.text@.len() && !assoc_has(e.new_columns@, (#[trigger] e.text@[j]).0) ==> {
                let id = e.text@[j].0;
                &&& id < base
                &&& e.text@[j].1.mode is Replace
                &&& old(td).columns@[id as int].length == e.text@[j].1.lines@.len()
            },
    ensures
        edits_phase_post(*e, *old(td), *final(td)),
{
    let n = e.text.len();
    let mut j: usize = 0;
    while j < n
        invariant
            j <= n,
            n == e.text@.len(),
            old(td).wf(),
            assoc_unique(e.text@),
            0 <= base <= old(td).columns@.len(),
            forall|jj: int|
                0 <= jj < e.text@.len() && !assoc_has(e.new_columns@, (#[trigger] e.text@[jj]).0)
                    ==> {
                    let id = e.text@[jj].0;
                    &&& id < base
                    &&& e.text@[jj].1.mode is Replace
                    &&& old(td).columns@[id as int].length == e.text@[jj].1.lines@.len()
                },
            td.wf(),
            td.columns@ == old(td).columns@,
            td.laid_out_lines@.len() == old(td).laid_out_lines@.len(),
            forall|jj: int|
                0 <= jj < j && !assoc_has(e.new_columns@, (#[trigger] e.text@[jj]).0)
                    ==> (forall|k: int|
                    0 <= k < e.text@[jj].1.lines@.len()
                        ==> td.laid_out_lines@[old(td).columns@[e.text@[jj].0 as int].offset + k]
                        == e.text@[jj].1.lines@[k]),
            forall|k: int|
                0 <= k < old(td).laid_out_lines@.len() && !line_edited_before(*e, *old(td), j as int, k)
                    ==> td.laid_out_lines@[k] == old(td).laid_out_lines@[k],
            td.unbound_offset <= old(td).unbound_offset,
            td.unbound_offset + td.unbound_length >= old(td).unbound_offset + old(
                td,
            ).unbound_length,
            forall|jj: int|
                0 <= jj < j && !assoc_has(e.new_columns@, (#[trigger] e.text@[jj]).0) ==> {
                    let id = e.text@[jj].0;
                    &&& td.unbound_offset <= old(td).columns@[id as int].offset
                    &&& td.unbound_offset + td.unbound_length >= old(td).col_end(id as int)
                },
        decreases n - j,
    {
        let id = e.text[j].0;
        let is_new = assoc_position(&e.new_columns, id).is_some();
        if !is_new {
            let ghost td_before = *td;
            proof {
                assert(!assoc_has(e.new_columns@, id));
                assert(e.text@[j as int].0 == id);
                assert(id < base && e.text@[j as int].1.mode is Replace && old(td).columns@[
                    id as int
                ].length == e.text@[j as int].1.lines@.len());
            }
            let ncols = td.columns.len();
            proof {
                assert(td.columns@.len() == ncols);
                assert(id < ncols);
            }
            let cid = id as usize;
            proof {
                assert(cid == id);
            }
            replace_text(td, cid, &e.text[j].1.lines);
            proof {
                assert forall|jj: int|
                    0 <= jj < j + 1 && !assoc_has(e.new_columns@, (#[trigger] e.text@[jj]).0)
                        implies (forall|k: int|
                        0 <= k < e.text@[jj].1.lines@.len()
                            ==> td.laid_out_lines@[old(td).columns@[e.text@[jj].0 as int].offset
                            + k] == e.text@[jj].1.lines@[k]) by {
                    if jj < j {
                        let id2 = e.text@[jj].0;
                        assert(id2 != id);
                        if id2 < id {
                            lemma_cols_ordered(*old(td), id2 as int, id as int);
                        } else {
                            lemma_cols_ordered(*old(td), id as int, id2 as int);
                        }
                        assert forall|k: int|
                            0 <= k < e.text@[jj].1.lines@.len()
                                implies td.laid_out_lines@[old(td).columns@[id2 as int].offset + k]
                                == e.text@[jj].1.lines@[k] by {
                            let pos = old(td).columns@[id2 as int].offset + k;
                            assert(td_before.laid_out_lines@[pos] == e.text@[jj].1.lines@[k]);
                            assert(!(old(td).columns@[id as int].offset <= pos < old(
                                td,
                            ).col_end(id as int)));
                        }
                    }
                }
                assert forall|k: int|
                    0 <= k < old(td).laid_out_lines@.len() && !line_edited_before(
                        *e,
                        *old(td),
                        j + 1,
                        k,
                    ) implies td.laid_out_lines@[k] == old(td).laid_out_lines@[k] by {
                    assert(!line_edited_before(*e, *old(td), j as int, k)) by {
                        if line_edited_before(*e, *old(td), j as int, k) {
                            lemma_edited_mono(*e, *old(td), j as int, j + 1, k);
                        }
                    }
                    assert(!(old(td).columns@[id as int].offset <= k < old(td).col_end(
                        id as int,
                    ))) by {
                        if old(td).columns@[id as int].offset <= k < old(td).col_end(id as int) {
                            assert(0 <= (j as int) < j + 1 && !assoc_has(
                                e.new_columns@,
                                e.text@[j as int].0,
                            ) && old(td).columns@[e.text@[j as int].0 as int].offset <= k < old(
                                td,
                            ).col_end(e.text@[j as int].0 as int));
                            assert(line_edited_before(*e, *old(td), j + 1, k));
                        }
                    }
                    assert(td_before.laid_out_lines@[k] == old(td).laid_out_lines@[k]);
                }
            }
        } else {
            proof {
                assert forall|k: int|
                    0 <= k < old(td).laid_out_lines@.len() && !line_edited_before(
                        *e,
                        *old(td),
                        j + 1,
                        k,
                    ) implies td.laid_out_lines@[k] == old(td).laid_out_lines@[k] by {
                    assert(!line_edited_before(*e, *old(td), j as int, k)) by {
                        if line_edited_before(*e, *old(td), j as int, k) {
                            lemma_edited_mono(*e, *old(td), j as int, j + 1, k);
                        }
                    }
                }
            }
        }
        j = j + 1;
    }
}

/// Well-formedness depends only on each column's range, the store's length
/// and the dirty range; the per-column decoration fields play no part.
proof fn lemma_wf_same_ranges(a: TextData, b: TextData)
    requires
        a.wf(),
        b.columns@.len() == a.columns@.len(),
        forall|i: int|
            0 <= i < a.columns@.len() ==> (#[trigger] b.columns@[i]).offset == a.columns@[i].offset
                && b.columns@[i].length == a.columns@[i].length,
        b.laid_out_lines@.len() == a.laid_out_lines@.len(),
        b.unbound_offset == a.unbound_offset,
        b.unbound_length == a.unbound_length,
    ensures
        b.wf(),
{
    assert forall|i: int|
        0 < i < b.columns@.len() implies (#[trigger] b.columns@[i]).offset == b.col_end(
        i - 1,
    ) by {
        assert(a.columns@[i].offset == a.col_end(i - 1));
        assert(b.columns@[i - 1].offset == a.columns@[i - 1].offset);
    }
    assert forall|i: int|
        0 <= i < b.columns@.len() implies #[trigger] b.col_end(i) <= b.laid_out_lines@.len() by {
        assert(a.col_end(i) <= a.laid_out_lines@.len());
    }
    if b.columns@.len() > 0 {
        assert(a.col_end(b.columns@.len() - 1) == a.laid_out_lines@.len());
        assert(b.col_end(b.columns@.len() - 1) == a.col_end(b.columns@.len() - 1));
    }
}

/// Splitting a unique-keyed association list after entry `j`: the prefix is
/// unique, the entry's key is fresh for the prefix, and lookups against the
/// longer prefix change only at that key.
proof fn lemma_assoc_take_step<V>(s: Seq<(u64, V)>, j: int)
    requires
        assoc_unique(s),
        0 <= j < s.len(),
    ensures
        assoc_unique(s.take(j)),
        !assoc_has(s.take(j), s[j].0),
        assoc_get(s.take(j + 1), s[j].0) == Some(s[j].1),
        forall|k2: u64|
            k2 != s[j].0 ==> #[trigger] assoc_get(s.take(j + 1), k2) == assoc_get(s.take(j), k2),
{
    assert forall|i1: int, i2: int|
        0 <= i1 < i2 < s.take(j).len() implies (#[trigger] s.take(j)[i1]).0 != (#[trigger] s.take(
        j,
    )[i2]).0 by {
        assert(s.take(j)[i1] == s[i1]);
        assert(s.take(j)[i2] == s[i2]);
    }
    assert(!assoc_has(s.take(j), s[j].0)) by {
        if assoc_has(s.take(j), s[j].0) {
            let i = choose|i: int| 0 <= i < s.take(j).len() && (#[trigger] s.take(j)[i]).0 == s[j].0;
            assert(s.take(j)[i] == s[i]);
            assert(s[i].0 != s[j].0);
        }
    }
    assert(s.take(j + 1) =~= s.take(j).push((s[j].0, s[j].1)));
    crate::effects::lemma_assoc_push(s.take(j), s.take(j + 1), s[j].0, s[j].1);
}

/// Everything the clip phase guarantees, relating the state before (`tc`)
/// and after (`td`).
pub open spec fn clips_phase_post(e: Effects, tc: TextData, td: TextData) -> bool {
    &&& td.wf()
    &&& td.laid_out_lines@ == tc.laid_out_lines@
    &&& td.unbound_offset == tc.unbound_offset
    &&& td.unbound_length == tc.unbound_length
    &&& td.columns@.len() == tc.columns@.len()
    &&& forall|i: int|
        0 <= i < tc.columns@.len() ==> {
            &&& (#[trigger] td.columns@[i]).pos == tc.columns@[i].pos
            &&& td.columns@[i].offset == tc.columns@[i].offset
            &&& td.columns@[i].length == tc.columns@[i].length
            &&& td.columns@[i].animation == tc.columns@[i].animation
            &&& td.columns@[i].clip == (match assoc_get(e.clip@, i as u64) {
                Some(c) => c,
                None => tc.columns@[i].clip,
            })
        }
}

/// Applies the batch's clip changes in insertion order: for each entry whose
/// identifier names an existing column, the column's clip becomes the
/// recorded value (`Some` sets, `None` removes).  Entries for unknown
/// identifiers have no effect.
#[verifier::rlimit(100)]
fn apply_clips(td: &mut TextData, e: &Effects)
    requires
        old(td).wf(),
        assoc_unique(e.clip@),
    ensures
        clips_phase_post(*e, *old(td), *final(td)),
{
    let n = e.clip.len();
    let mut j: usize = 0;
    while j < n
        invariant
            j <= n,
            n == e.clip@.len(),
            assoc_unique(e.clip@),
            old(td).wf(),
            td.wf(),
            td.laid_out_lines@ == old(td).laid_out_lines@,
            td.unbound_offset == old(td).unbound_offset,
            td.unbound_length == old(td).unbound_length,
            td.columns@.len() == old(td).columns@.len(),
            forall|i: int|
                0 <= i < old(td).columns@.len() ==> {
                    &&& (#[trigger] td.columns@[i]).pos == old(td).columns@[i].pos
                    &&& td.columns@[i].offset == old(td).columns@[i].offset
                    &&& td.columns@[i].length == old(td).columns@[i].length
                    &&& td.columns@[i].animation == old(td).columns@[i].animation
                    &&& td.columns@[i].clip == (match assoc_get(e.clip@.take(j as int), i as u64) {
                        Some(c) => c,
                        None => old(td).columns@[i].clip,
                    })
                },
        decreases n - j,
    {
        proof {
            lemma_assoc_take_step(e.clip@, j as int);
        }
        let id = e.clip[j].0;
        let c = e.clip[j].1;
        let ncols = td.columns.len();
        if id < ncols as u64 {
            let i = id as usize;
            let mut col = td.columns[i];
            col.clip = c;
            td.columns.set(i, col);
            proof {
                lemma_wf_same_ranges(*old(td), *td);
            }
        }
        j = j + 1;
    }
    proof {
        assert(e.clip@.take(n as int) =~= e.clip@);
    }
}

/// Everything the animation phase guarantees, relating the state before
/// (`ta`) and after (`td`).
pub open spec fn anims_phase_post(e: Effects, ta: TextData, td: TextData) -> bool {
    &&& td.wf()
    &&& td.laid_out_lines@ == ta.laid_out_lines@
    &&& td.unbound_offset == ta.unbound_offset
    &&& td.unbound_length == ta.unbound_length
    &&& td.columns@.len() == ta.columns@.len()
    &&& forall|i: int|
        0 <= i < ta.columns@.len() ==> {
            &&& (#[trigger] td.columns@[i]).pos == ta.columns@[i].pos
            &&& td.columns@[i].offset == ta.columns@[i].offset
            &&& td.columns@[i].length == ta.columns@[i].length
            &&& td.columns@[i].clip == ta.columns@[i].clip
            &&& td.columns@[i].animation == (match assoc_get(e.animate@, i as u64) {
                Some(ad) => Some(ad),
                None => ta.columns@[i].animation,
            })
        }
}

/// Applies the batch's animation requests in insertion order: for each entry
/// whose identifier names an existing column, the column's pending animation
/// becomes the recorded target and duration.  Entries for unknown
/// identifiers have no effect.
#[verifier::rlimit(100)]
fn apply_animations(td: &mut TextData, e: &Effects)
    requires
        old(td).wf(),
        assoc_unique(e.animate@),
    ensures
        anims_phase_post(*e, *old(td), *final(td)),
{
    let n = e.animate.len();
    let mut j: usize = 0;
    while j < n
        invariant
            j <= n,
            n == e.animate@.len(),
            assoc_unique(e.animate@),
            old(td).wf(),
            td.wf(),
            td.laid_out_lines@ == old(td).laid_out_lines@,
            td.unbound_offset == old(td).unbound_offset,
            td.unbound_length == old(td).unbound_length,
            td.columns@.len() == old(td).columns@.len(),
            forall|i: int|
                0 <= i < old(td).columns@.len() ==> {
                    &&& (#[trigger] td.columns@[i]).pos == old(td).columns@[i].pos
                    &&& td.columns@[i].offset == old(td).columns@[i].offset
                    &&& td.columns@[i].length == old(td).columns@[i].length
                    &&& td.columns@[i].clip == old(td).columns@[i].clip
                    &&& td.columns@[i].animation == (match assoc_get(
                        e.animate@.take(j as int),
                        i as u64,
                    ) {
                        Some(ad) => Some(ad),
                        None => old(td).columns@[i].animation,
                    })
                },
        decreases n - j,
    {
        proof {
            lemma_assoc_take_step(e.animate@, j as int);
        }
        let id = e.animate[j].0;
        let target_duration = e.animate[j].1;
        let ncols = td.columns.len();
        if id < ncols as u64 {
            let i = id as usize;
            let mut col = td.columns[i];
            col.animation = Some(target_duration);
            td.columns.set(i, col);
            proof {
                lemma_wf_same_ranges(*old(td), *td);
            }
        }
        j = j + 1;
    }
    proof {
        assert(e.animate@.take(n as int) =~= e.animate@);
    }
}

/// Resets the batch to empty once it has been applied: every map drained,
/// the quit flag lowered, the identifier counter and the application-state
/// handle kept (identifiers are never reused).
fn drain_effects(e: &mut Effects)
    ensures
        final(e).wf(),
        final(e).is_drained(),
        final(e).next_id == old(e).next_id,
        final(e).app_state == old(e).app_state,
        !final(e).should_quit,
{
    e.new_columns.clear();
    e.text.clear();
    e.clip.clear();
    e.animate.clear();
    e.should_quit = false;
}

/// Pre-existing column `i` after applying the batch: geometry untouched, its
/// clip and pending animation updated by the batch's entries for its
/// identifier, if any.
pub open spec fn pre_col_applied(e: Effects, t0: TextData, td: TextData, i: int) -> bool {
    &&& td.columns@[i].pos == t0.columns@[i].pos
    &&& td.columns@[i].offset == t0.columns@[i].offset
    &&& td.columns@[i].length == t0.columns@[i].length
    &&& td.columns@[i].clip == (match assoc_get(e.clip@, i as u64) {
        Some(c) => c,
        None => t0.columns@[i].clip,
    })
    &&& td.columns@[i].animation == (match assoc_get(e.animate@, i as u64) {
        Some(ad) => Some(ad),
        None => t0.columns@[i].animation,
    })
}

/// Column `m` created by the batch, after the whole batch is applied: its
/// identifier is its column index, it carries its recorded position and its
/// pending lines, and its clip and animation are whatever the batch recorded
/// for that identifier.
pub open spec fn new_col_final(e: Effects, t0: TextData, td: TextData, m: int) -> bool {
    let i = t0.columns@.len() + m;
    &&& e.new_columns@[m].0 == i
    &&& td.columns@[i].pos == e.new_columns@[m].1
    &&& td.columns@[i].length == new_lines_of(e, m).len()
    &&& td.columns@[i].offset == t0.laid_out_lines@.len() + new_lines_concat(e, m).len()
    &&& td.columns@[i].clip == (match assoc_get(e.clip@, i as u64) {
        Some(c) => c,
        None => None,
    })
    &&& td.columns@[i].animation == (match assoc_get(e.animate@, i as u64) {
        Some(ad) => Some(ad),
        None => None,
    })
}

/// Text entry `j`, an edit of a pre-existing column, has been applied: the
/// column's line range holds exactly the entry's lines.
pub open spec fn edit_applied(e: Effects, t0: TextData, td: TextData, j: int) -> bool {
    let id = e.text@[j].0;
    forall|k: int|
        0 <= k < e.text@[j].1.lines@.len() ==> td.laid_out_lines@[t0.columns@[id as int].offset
            + k] == (#[trigger] e.text@[j].1.lines@[k])
}

/// The lines of batch-created column `m` stand in the store at that column's
/// range.
pub open spec fn new_lines_applied(e: Effects, t0: TextData, td: TextData, m: int) -> bool {
    forall|k: int|
        0 <= k < new_lines_of(e, m).len() ==> td.laid_out_lines@[t0.laid_out_lines@.len()
            + new_lines_concat(e, m).len() + k] == (#[trigger] new_lines_of(e, m)[k])
}

/// The whole batch `e` has been applied to the renderer state that started
/// as `t0`: new columns appended in order with their lines, pre-existing
/// columns edited in place, clips and animations recorded, everything else
/// untouched, and the dirty range only widened.
pub open spec fn batch_applied(e: Effects, t0: TextData, td: TextData) -> bool {
    &&& td.wf()
    &&& td.columns@.len() == t0.columns@.len() + e.new_columns@.len()
    &&& forall|i: int| 0 <= i < t0.columns@.len() ==> #[trigger] pre_col_applied(e, t0, td, i)
    &&& forall|m: int|
        0 <= m < e.new_columns@.len() ==> #[trigger] new_col_final(e, t0, td, m)
    &&& td.laid_out_lines@.len() == t0.laid_out_lines@.len() + new_lines_concat(
        e,
        e.new_columns@.len() as int,
    ).len()
    &&& forall|j: int|
        0 <= j < e.text@.len() && !assoc_has(e.new_columns@, (#[trigger] e.text@[j]).0)
            ==> edit_applied(e, t0, td, j)
    &&& forall|m: int|
        0 <= m < e.new_columns@.len() ==> #[trigger] new_lines_applied(e, t0, td, m)
    &&& forall|k: int|
        0 <= k < t0.laid_out_lines@.len() && !line_edited(e, t0, k)
            ==> td.laid_out_lines@[k] == t0.laid_out_lines@[k]
    &&& td.unbound_offset <= t0.unbound_offset
    &&& td.unbound_offset + td.unbound_length >= t0.unbound_offset + t0.unbound_length
    &&& forall|j: int|
        0 <= j < e.text@.len() && !assoc_has(e.new_columns@, (#[trigger] e.text@[j]).0) ==> {
            let id = e.text@[j].0;
            &&& td.unbound_offset <= t0.columns@[id as int].offset
            &&& td.unbound_offset + td.unbound_length >= t0.col_end(id as int)
        }
    &&& (e.new_columns@.len() > 0 ==> td.unbound_offset + td.unbound_length
        == td.laid_out_lines@.len())
}

/// Chains the four phases: a faultless batch carried through column
/// creation, text edits, clips and animations yields exactly the applied
/// batch.
proof fn lemma_compose_batch(
    e: Effects,
    t0: TextData,
    tb: TextData,
    tc: TextData,
    ta: TextData,
    te: TextData,
)
    requires
        e.wf(),
        t0.wf(),
        t0.columns@.len() == e.next_id - e.new_columns@.len(),
        first_fault(e, t0) is None,
        cols_phase_post(e, t0, tb),
        edits_phase_post(e, tb, tc),
        clips_phase_post(e, tc, ta),
        anims_phase_post(e, ta, te),
    ensures
        batch_applied(e, t0, te),
{
    let n = e.new_columns@.len() as int;
    assert forall|i: int|
        0 <= i < t0.columns@.len() implies #[trigger] pre_col_applied(e, t0, te, i) by {
        assert(tb.columns@[i] == t0.columns@[i]);
        assert(tc.columns@ == tb.columns@);
    }
    assert forall|m: int|
        0 <= m < e.new_columns@.len() implies #[trigger] new_col_final(e, t0, te, m) by {
        assert(new_col_applied(e, t0, tb, m));
        assert(tc.columns@ == tb.columns@);
    }
    assert forall|j: int|
        0 <= j < e.text@.len() && !assoc_has(e.new_columns@, (#[trigger] e.text@[j]).0)
            implies edit_applied(e, t0, te, j) by {
        let id = e.text@[j].0;
        lemma_no_fault_entries(e, t0, 0, j);
        assert(tb.columns@[id as int] == t0.columns@[id as int]);
        assert(ta.laid_out_lines@ == tc.laid_out_lines@);
        assert(te.laid_out_lines@ == ta.laid_out_lines@);
        assert forall|k: int|
            0 <= k < e.text@[j].1.lines@.len() implies te.laid_out_lines@[t0.columns@[
            id as int
        ].offset + k] == (#[trigger] e.text@[j].1.lines@[k]) by {
            assert(tc.laid_out_lines@[tb.columns@[id as int].offset + k] == e.text@[
                j
            ].1.lines@[k]);
        }
    }
    assert forall|m: int|
        0 <= m < e.new_columns@.len() implies #[trigger] new_lines_applied(e, t0, te, m) by {
        assert forall|k: int|
            0 <= k < new_lines_of(e, m).len() implies te.laid_out_lines@[t0.laid_out_lines@.len()
            + new_lines_concat(e, m).len() + k] == (#[trigger] new_lines_of(e, m)[k]) by {
            lemma_concat_index(e, m, n, k);
            let pos = t0.laid_out_lines@.len() + new_lines_concat(e, m).len() + k;
            assert(tb.laid_out_lines@ == t0.laid_out_lines@ + new_lines_concat(e, n));
            assert(tb.laid_out_lines@[pos] == new_lines_of(e, m)[k]);
            assert(!line_edited(e, tb, pos)) by {
                if line_edited(e, tb, pos) {
                    let jj = choose|jj: int|
                        0 <= jj < e.text@.len() && !assoc_has(
                            e.new_columns@,
                            (#[trigger] e.text@[jj]).0,
                        ) && tb.columns@[e.text@[jj].0 as int].offset <= pos < tb.col_end(
                            e.text@[jj].0 as int,
                        );
                    let id2 = e.text@[jj].0;
                    lemma_no_fault_entries(e, t0, 0, jj);
                    assert(tb.columns@[id2 as int] == t0.columns@[id2 as int]);
                    assert(tb.col_end(id2 as int) == t0.col_end(id2 as int));
                    assert(t0.col_end(id2 as int) <= t0.laid_out_lines@.len());
                }
            }
            assert(tc.laid_out_lines@[pos] == tb.laid_out_lines@[pos]);
        }
    }
    assert forall|k: int|
        0 <= k < t0.laid_out_lines@.len() && !line_edited(e, t0, k)
            implies te.laid_out_lines@[k] == t0.laid_out_lines@[k] by {
        assert(tb.laid_out_lines@ == t0.laid_out_lines@ + new_lines_concat(e, n));
        assert(tb.laid_out_lines@[k] == t0.laid_out_lines@[k]);
        assert(!line_edited(e, tb, k)) by {
            if line_edited(e, tb, k) {
                let jj = choose|jj: int|
                    0 <= jj < e.text@.len() && !assoc_has(
                        e.new_columns@,
                        (#[trigger] e.text@[jj]).0,
                    ) && tb.columns@[e.text@[jj].0 as int].offset <= k < tb.col_end(
                        e.text@[jj].0 as int,
                    );
                let id2 = e.text@[jj].0;
                lemma_no_fault_entries(e, t0, 0, jj);
                assert(tb.columns@[id2 as int] == t0.columns@[id2 as int]);
                assert(tb.col_end(id2 as int) == t0.col_end(id2 as int));
                assert(t0.columns@[id2 as int].offset <= k < t0.col_end(id2 as int));
                assert(line_edited(e, t0, k));
            }
        }
        assert(tc.laid_out_lines@[k] == tb.laid_out_lines@[k]);
    }
    assert forall|j: int|
        0 <= j < e.text@.len() && !assoc_has(e.new_columns@, (#[trigger] e.text@[j]).0)
            implies ({
        let id = e.text@[j].0;
        &&& te.unbound_offset <= t0.columns@[id as int].offset
        &&& te.unbound_offset + te.unbound_length >= t0.col_end(id as int)
    }) by {
        let id = e.text@[j].0;
        lemma_no_fault_entries(e, t0, 0, j);
        assert(tb.columns@[id as int] == t0.columns@[id as int]);
        assert(tc.unbound_offset <= tb.columns@[id as int].offset);
        assert(tc.unbound_offset + tc.unbound_length >= tb.col_end(id as int));
        assert(tb.col_end(id as int) == t0.col_end(id as int));
    }
    if e.new_columns@.len() > 0 {
        assert(tb.unbound_offset + tb.unbound_length == tb.laid_out_lines@.len());
        assert(tc.unbound_offset + tc.unbound_length >= tb.unbound_offset + tb.unbound_length);
        assert(tc.laid_out_lines@.len() == tb.laid_out_lines@.len());
        assert(tc.unbound_offset + tc.unbound_length <= tc.laid_out_lines@.len());
        assert(te.unbound_offset + te.unbound_length == te.laid_out_lines@.len());
    }
}

/// Applies one accumulated effect batch to the renderer state, atomically:
/// either the whole batch is applied, the batch is reset to empty and the
/// quit request (if any) is returned, or the first unsupported effect shape
/// is reported and nothing at all is changed.
///
/// New columns are drained first, in insertion order, each appended with its
/// pending lines; its assigned identifier provably equals its renderer
/// column index.  Then text entries for pre-existing columns are applied as
/// in-place replacements, then clip changes, then animation requests; the
/// batch is then reset with its identifier counter and application-state
/// handle kept.
pub fn perform_effects(interp: &mut crate::effects::Interpreter, td: &mut TextData) -> (r: Result<
    bool,
    EffectError,
>)
    requires
        old(interp).effects.wf(),
        old(td).wf(),
        old(td).columns@.len() == old(interp).effects.next_id - old(
            interp,
        ).effects.new_columns@.len(),
        old(interp).effects.next_id <= usize::MAX,
        old(td).laid_out_lines@.len() + new_lines_concat(
            old(interp).effects,
            old(interp).effects.new_columns@.len() as int,
        ).len() <= usize::MAX,
    ensures
        r is Err <==> first_fault(old(interp).effects, *old(td)) is Some,
        r matches Err(f) ==> {
            &&& Some(f) == first_fault(old(interp).effects, *old(td))
            &&& final(td).columns@ == old(td).columns@
            &&& final(td).laid_out_lines@ == old(td).laid_out_lines@
            &&& final(td).unbound_offset == old(td).unbound_offset
            &&& final(td).unbound_length == old(td).unbound_length
            &&& final(interp).effects.next_id == old(interp).effects.next_id
            &&& final(interp).effects.new_columns@ == old(interp).effects.new_columns@
            &&& final(interp).effects.text@ == old(interp).effects.text@
            &&& final(interp).effects.clip@ == old(interp).effects.clip@
            &&& final(interp).effects.animate@ == old(interp).effects.animate@
            &&& final(interp).effects.app_state == old(interp).effects.app_state
            &&& final(interp).effects.should_quit == old(interp).effects.should_quit
            &&& final(interp).committed == old(interp).committed
        },
        r matches Ok(quit) ==> {
            &&& quit == old(interp).effects.should_quit
            &&& batch_applied(old(interp).effects, *old(td), *final(td))
            &&& final(interp).effects.wf()
            &&& final(interp).effects.is_drained()
            &&& final(interp).effects.next_id == old(interp).effects.next_id
            &&& final(interp).effects.app_state == old(interp).effects.app_state
            &&& !final(interp).effects.should_quit
            &&& final(interp).committed == old(interp).committed
        },
{
    let ghost e0 = old(interp).effects;
    let ghost t0 = *old(td);
    match validate_effects(&interp.effects, td) {
        Some(f) => {
            return Err(f);
        },
        None => {},
    }
    let ghost base = t0.columns@.len() as int;
    apply_new_columns(td, &interp.effects);
    let ghost td_b = *td;
    proof {
        assert forall|j: int|
            0 <= j < interp.effects.text@.len() && !assoc_has(
                interp.effects.new_columns@,
                (#[trigger] interp.effects.text@[j]).0,
            ) implies ({
            let id = interp.effects.text@[j].0;
            &&& id < base
            &&& interp.effects.text@[j].1.mode is Replace
            &&& td.columns@[id as int].length == interp.effects.text@[j].1.lines@.len()
        }) by {
            lemma_no_fault_entries(e0, t0, 0, j);
            assert(entry_fault(e0, t0, j) is None);
        }
    }
    apply_text_edits(td, &interp.effects, Ghost(base));
    let ghost td_c = *td;
    apply_clips(td, &interp.effects);
    let ghost td_d = *td;
    apply_animations(td, &interp.effects);
    let ghost td_e = *td;
    let quit = interp.effects.should_quit;
    drain_effects(&mut interp.effects);
    proof {
        lemma_compose_batch(e0, t0, td_b, td_c, td_d, *td);
    }
    Ok(quit)
}

} // verus!
