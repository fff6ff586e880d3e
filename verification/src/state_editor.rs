use vstd::prelude::*;

use crate::selection::{
    filter_below,
    first_of,
    is_normalized_selection,
    lemma_normalized_in_range,
    lemma_normalized_selection_is,
    normalize_selection,
    normalized_selection,
    retain_below,
    selection_contains,
};

use crate::state::{
    EditorSnapshot,
    EditorView,
    HistoryView,
    SnapshotView,
    State,
    StateView,
    TimelineView,
};
use crate::explorer::copy_labels;
use crate::taps::{retain_taps_below, taps_below};
use crate::types::{AppPhase, EditorMode, LevelObject, Vec3i, CELL};

verus! {

/// The most snapshots the undo stack keeps.
pub const MAX_HISTORY: usize = 256;

/// The point of the world at the minimum corner of a grid cell.
pub open spec fn cell_point(c: (i32, i32, i32)) -> Vec3i {
    Vec3i { x: (c.0 * CELL) as i64, y: (c.1 * CELL) as i64, z: (c.2 * CELL) as i64 }
}

/// The minimum corner of a grid cell.
pub fn cell_corner(c: (i32, i32, i32)) -> (r: Vec3i)
    ensures
        r == cell_point(c),
{
    Vec3i { x: c.0 as i64 * CELL, y: c.1 as i64 * CELL, z: c.2 as i64 * CELL }
}

/// `Some(i)` when `i < n`, else `None`.
pub open spec fn index_below(o: Option<usize>, n: nat) -> Option<usize> {
    match o {
        Some(i) => if i < n { Some(i) } else { None },
        None => None,
    }
}

fn index_below_exec(o: Option<usize>, n: usize) -> (r: Option<usize>)
    ensures
        r == index_below(o, n as nat),
{
    match o {
        Some(i) => if i < n { Some(i) } else { None },
        None => None,
    }
}

/// `v` clamped to `[lo, hi]`.
pub open spec fn clamp_int(v: int, lo: int, hi: int) -> int {
    if v < lo { lo } else if v > hi { hi } else { v }
}

pub(crate) fn copy_objects(v: &Vec<LevelObject>) -> (r: Vec<LevelObject>)
    ensures
        r@ == v@,
{
    let mut out: Vec<LevelObject> = Vec::new();
    let mut k: usize = 0;
    while k < v.len()
        invariant
            k <= v.len(),
            out@ == v@.subrange(0, k as int),
        decreases v.len() - k,
    {
        out.push(v[k]);
        k = k + 1;
    }
    assert(v@.subrange(0, v@.len() as int) == v@);
    out
}

fn copy_usizes(v: &Vec<usize>) -> (r: Vec<usize>)
    ensures
        r@ == v@,
{
    let mut out: Vec<usize> = Vec::new();
    let mut k: usize = 0;
    while k < v.len()
        invariant
            k <= v.len(),
            out@ == v@.subrange(0, k as int),
        decreases v.len() - k,
    {
        out.push(v[k]);
        k = k + 1;
    }
    assert(v@.subrange(0, v@.len() as int) == v@);
    out
}

pub(crate) fn copy_u32s(v: &Vec<u32>) -> (r: Vec<u32>)
    ensures
        r@ == v@,
{
    let mut out: Vec<u32> = Vec::new();
    let mut k: usize = 0;
    while k < v.len()
        invariant
            k <= v.len(),
            out@ == v@.subrange(0, k as int),
        decreases v.len() - k,
    {
        out.push(v[k]);
        k = k + 1;
    }
    assert(v@.subrange(0, v@.len() as int) == v@);
    out
}

impl StateView {
    /// The state with another editor.
    pub open spec fn with_editor(self, editor: EditorView) -> StateView {
        StateView { editor, ..self }
    }

    /// The state with another timeline.
    pub open spec fn with_timeline(self, timeline: TimelineView) -> StateView {
        StateView { timeline, ..self }
    }

    /// The editor's selection, normalized.
    pub open spec fn norm_sel(self) -> Seq<usize> {
        normalized_selection(
            self.editor.selected_block_indices,
            self.editor.selected_block_index,
            self.editor.objects.len(),
        )
    }

    /// Some block is selected.
    pub open spec fn has_block_selection(self) -> bool {
        self.norm_sel().len() > 0
    }

    /// The selection replaced by its normalized form, whose first index is
    /// the primary one.
    pub open spec fn after_sync_primary(self) -> StateView {
        let ns = self.norm_sel();
        self.with_editor(
            EditorView {
                selected_block_index: first_of(ns),
                selected_block_indices: ns,
                ..self.editor
            },
        )
    }

    /// The selection normalized and a hover on a missing block dropped.
    pub open spec fn after_sync_objects(self) -> StateView {
        let t = self.after_sync_primary();
        t.with_editor(
            EditorView {
                hovered_block_index: index_below(t.editor.hovered_block_index, t.editor.objects.len()),
                ..t.editor
            },
        )
    }

    /// Switching the editor mode ends any drag; place mode drops the
    /// selection and the hover.
    pub open spec fn after_set_mode(self, mode: EditorMode) -> StateView {
        if mode == EditorMode::Place {
            self.with_editor(
                EditorView {
                    mode,
                    drag: None,
                    selected_block_index: None,
                    selected_block_indices: Seq::empty(),
                    hovered_block_index: None,
                    ..self.editor
                },
            )
        } else {
            self.with_editor(EditorView { mode, drag: None, ..self.editor })
        }
    }

    /// What undo and redo restore of the current editor.
    pub open spec fn snapshot(self) -> SnapshotView {
        SnapshotView {
            objects: self.editor.objects,
            labels: self.editor.labels,
            selected_block_index: self.editor.selected_block_index,
            selected_block_indices: self.editor.selected_block_indices,
            cursor: self.editor.cursor,
            selected_kind: self.editor.selected_kind,
            spawn: self.editor.spawn,
            timeline_step: self.timeline.step,
            timeline_length: self.timeline.length,
            tap_steps: self.timeline.tap_steps,
        }
    }

    /// In the editor, the current snapshot pushed on the undo stack (the
    /// oldest dropped when it already holds `MAX_HISTORY`) and the redo
    /// stack emptied.
    pub open spec fn after_record(self) -> StateView {
        if self.phase != AppPhase::Editor {
            self
        } else {
            let undo = if self.history.undo.len() >= MAX_HISTORY {
                self.history.undo.drop_first()
            } else {
                self.history.undo
            };
            StateView {
                history: HistoryView { undo: undo.push(self.snapshot()), redo: Seq::empty() },
                ..self
            }
        }
    }

    /// The editor put back to a snapshot: indices that name no block are
    /// dropped, the selection normalized and hovered, the timeline made at
    /// least one step long with its step and taps inside it, no tap
    /// selected and no drag.
    pub open spec fn after_apply_snapshot(self, snap: SnapshotView) -> StateView {
        let n = snap.objects.len();
        let ns = normalized_selection(
            filter_below(snap.selected_block_indices, n),
            index_below(snap.selected_block_index, n),
            n,
        );
        let len: u32 = if snap.timeline_length < 1 { 1 } else { snap.timeline_length };
        let step: u32 = if snap.timeline_step > (len - 1) as u32 { (len - 1) as u32 } else { snap.timeline_step };
        StateView {
            editor: EditorView {
                objects: snap.objects,
                labels: snap.labels,
                selected_block_index: first_of(ns),
                selected_block_indices: ns,
                hovered_block_index: first_of(ns),
                cursor: snap.cursor,
                selected_kind: snap.selected_kind,
                spawn: snap.spawn,
                drag: None,
                ..self.editor
            },
            timeline: TimelineView {
                step,
                length: len,
                tap_steps: taps_below(snap.tap_steps, len),
                selected_tap: None,
                ..self.timeline
            },
            ..self
        }
    }

    /// In the editor with something to undo: the current snapshot goes on
    /// the redo stack and the latest undo snapshot is applied.
    #[verifier::opaque]
    pub open spec fn after_undo(self) -> StateView {
        if self.phase != AppPhase::Editor || self.history.undo.len() == 0 {
            self
        } else {
            let snap = self.history.undo.last();
            let t = StateView {
                history: HistoryView {
                    undo: self.history.undo.drop_last(),
                    redo: self.history.redo.push(self.snapshot()),
                },
                ..self
            };
            t.after_apply_snapshot(snap)
        }
    }

    /// In the editor with something to redo: the current snapshot goes on
    /// the undo stack and the latest redo snapshot is applied.
    #[verifier::opaque]
    pub open spec fn after_redo(self) -> StateView {
        if self.phase != AppPhase::Editor || self.history.redo.len() == 0 {
            self
        } else {
            let snap = self.history.redo.last();
            let t = StateView {
                history: HistoryView {
                    undo: self.history.undo.push(self.snapshot()),
                    redo: self.history.redo.drop_last(),
                },
                ..self
            };
            t.after_apply_snapshot(snap)
        }
    }
}

impl State {
    /// The selected block indices that exist, sorted and without duplicates
    /// (the primary selection alone when the list names none).
    pub fn selected_block_indices_normalized(&self) -> (r: Vec<usize>)
        ensures
            r@ == self@.norm_sel(),
            is_normalized_selection(
                r@,
                self@.editor.selected_block_indices,
                self@.editor.selected_block_index,
                self@.editor.objects.len(),
            ),
    {
        let r = normalize_selection(
            &self.editor.selected_block_indices,
            self.editor.selected_block_index,
            self.editor.objects.len(),
        );
        proof {
            lemma_normalized_selection_is(
                r@,
                self@.editor.selected_block_indices,
                self@.editor.selected_block_index,
                self@.editor.objects.len(),
            );
        }
        r
    }

    /// Replaces the selection by its normalized form; the primary selection
    /// becomes its first index.
    pub fn sync_primary_selection_from_indices(&mut self)
        ensures
            final(self)@ == old(self)@.after_sync_primary(),
    {
        let indices = self.selected_block_indices_normalized();
        self.editor.selected_block_index = if indices.len() > 0 { Some(indices[0]) } else { None };
        self.editor.selected_block_indices = indices;
    }

    /// Whether the block is in the selection list or is the primary
    /// selection.
    pub fn selection_contains(&self, index: usize) -> (r: bool)
        ensures
            r == (self@.editor.selected_block_indices.contains(index)
                || self@.editor.selected_block_index == Some(index)),
    {
        selection_contains(&self.editor.selected_block_indices, self.editor.selected_block_index, index)
    }

    /// Whether some existing block is selected.
    pub fn has_block_selection(&self) -> (r: bool)
        ensures
            r == self@.has_block_selection(),
    {
        self.selected_block_indices_normalized().len() > 0
    }

    /// The first selected block, if any.
    pub fn editor_selected_block(&self) -> (r: Option<LevelObject>)
        ensures
            r == (if self@.norm_sel().len() > 0 {
                Some(self@.editor.objects[self@.norm_sel()[0] as int])
            } else {
                None
            }),
    {
        let sel = self.selected_block_indices_normalized();
        if sel.len() > 0 {
            proof {
                lemma_normalized_in_range(
                    sel@,
                    self@.editor.selected_block_indices,
                    self@.editor.selected_block_index,
                    self@.editor.objects.len(),
                );
            }
            Some(self.editor.objects[sel[0]])
        } else {
            None
        }
    }

    /// Normalizes the selection after the block list changed and forgets a
    /// hover on a block that no longer exists.
    pub fn sync_editor_objects(&mut self)
        ensures
            final(self)@ == old(self)@.after_sync_objects(),
    {
        self.sync_primary_selection_from_indices();
        self.editor.hovered_block_index = index_below_exec(
            self.editor.hovered_block_index,
            self.editor.objects.len(),
        );
    }

    /// Switches the editor mode, ending any drag; place mode drops the
    /// selection and the hover.
    pub fn set_editor_mode(&mut self, mode: EditorMode)
        ensures
            final(self)@ == old(self)@.after_set_mode(mode),
    {
        self.editor.mode = mode;
        self.editor.drag = None;
        if mode == EditorMode::Place {
            self.editor.selected_block_index = None;
            self.editor.selected_block_indices = Vec::new();
            self.editor.hovered_block_index = None;
        }
    }

    /// Captures what undo and redo restore of the current editor.
    pub fn editor_history_snapshot(&self) -> (r: EditorSnapshot)
        ensures
            r@ == self@.snapshot(),
    {
        EditorSnapshot {
            objects: copy_objects(&self.editor.objects),
            labels: copy_labels(&self.editor.labels),
            selected_block_index: self.editor.selected_block_index,
            selected_block_indices: copy_usizes(&self.editor.selected_block_indices),
            cursor: self.editor.cursor,
            selected_kind: self.editor.selected_kind,
            spawn: self.editor.spawn,
            timeline_step: self.timeline.step,
            timeline_length: self.timeline.length,
            tap_steps: copy_u32s(&self.timeline.tap_steps),
        }
    }

    /// In the editor, pushes the current snapshot on the undo stack (the
    /// oldest is dropped at `MAX_HISTORY`) and empties the redo stack.
    pub fn record_editor_history_state(&mut self)
        ensures
            final(self)@ == old(self)@.after_record(),
    {
        if self.phase != AppPhase::Editor {
            return;
        }
        let ghost v0 = self@;
        if self.history.undo.len() >= MAX_HISTORY {
            self.history.undo.remove(0);
            assert(self@.history.undo =~= v0.history.undo.drop_first());
        }
        let ghost v1 = self@;
        let snap = self.editor_history_snapshot();
        self.history.undo.push(snap);
        assert(self@.history.undo =~= v1.history.undo.push(v0.snapshot()));
        self.history.redo = Vec::new();
        assert(self@.history.redo =~= Seq::<SnapshotView>::empty());
    }

    /// Puts the editor back to a snapshot: indices naming no block are
    /// dropped and the selection normalized and hovered; the timeline keeps
    /// at least one step, with its step and taps inside it; no tap is
    /// selected and no drag continues.
    pub fn apply_editor_history_snapshot(&mut self, snapshot: EditorSnapshot)
        ensures
            final(self)@ == old(self)@.after_apply_snapshot(snapshot@),
    {
        let ghost snap = snapshot@;
        let EditorSnapshot {
            objects,
            labels,
            selected_block_index,
            selected_block_indices,
            cursor,
            selected_kind,
            spawn,
            timeline_step,
            timeline_length,
            tap_steps,
        } = snapshot;
        let n = objects.len();
        self.editor.objects = objects;
        self.editor.labels = labels;
        self.editor.selected_block_index = index_below_exec(selected_block_index, n);
        self.editor.selected_block_indices = retain_below(&selected_block_indices, n);
        self.sync_primary_selection_from_indices();
        self.editor.hovered_block_index = self.editor.selected_block_index;
        self.editor.cursor = cursor;
        self.editor.selected_kind = selected_kind;
        self.editor.spawn = spawn;
        let len: u32 = if timeline_length < 1 { 1 } else { timeline_length };
        let mut taps = tap_steps;
        self.timeline.length = len;
        self.timeline.step = if timeline_step > len - 1 { len - 1 } else { timeline_step };
        retain_taps_below(&mut taps, len);
        self.timeline.tap_steps = taps;
        self.timeline.selected_tap = None;
        self.editor.drag = None;
    }

    /// In the editor, undoes the last recorded change: the current state
    /// goes on the redo stack and the latest undo snapshot is applied.
    pub fn editor_undo(&mut self)
        ensures
            final(self)@ == old(self)@.after_undo(),
    {
        proof {
            reveal(StateView::after_undo);
        }
        if self.phase != AppPhase::Editor {
            return;
        }
        let ghost v0 = self@;
        match self.history.undo.pop() {
            None => {},
            Some(snapshot) => {
                assert(self@.history.undo =~= v0.history.undo.drop_last());
                let current = self.editor_history_snapshot();
                let ghost v1 = self@;
                self.history.redo.push(current);
                assert(self@.history.redo =~= v1.history.redo.push(v0.snapshot()));
                self.apply_editor_history_snapshot(snapshot);
            },
        }
    }

    /// In the editor, redoes the last undone change: the current state goes
    /// on the undo stack and the latest redo snapshot is applied.
    pub fn editor_redo(&mut self)
        ensures
            final(self)@ == old(self)@.after_redo(),
    {
        proof {
            reveal(StateView::after_redo);
        }
        if self.phase != AppPhase::Editor {
            return;
        }
        let ghost v0 = self@;
        match self.history.redo.pop() {
            None => {},
            Some(snapshot) => {
                assert(self@.history.redo =~= v0.history.redo.drop_last());
                let current = self.editor_history_snapshot();
                let ghost v1 = self@;
                self.history.undo.push(current);
                assert(self@.history.undo =~= v1.history.undo.push(v0.snapshot()));
                self.apply_editor_history_snapshot(snapshot);
            },
        }
    }
}

} // verus!
