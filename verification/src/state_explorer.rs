use vstd::prelude::*;

use crate::selection::lemma_normalized_in_range;
use crate::sorted::{
    insert_sorted_unique_usize,
    lemma_increasing_usize_unique,
    strictly_increasing_usize,
};
use crate::explorer::{
    copy_labels, group_rename_changes, grouped_labels, move_changes, move_target, moved_labels,
    renamed_labels, texts, LabelView, Outline,
};
use crate::import::trimmed;
use crate::state::{EditorView, State, StateView};

use crate::types::{AppPhase, Vec3i};

verus! {

/// The blocks chosen in the explorer: the indices below `n` that were
/// clicked, together with the normalized selection when adding to it.
pub open spec fn explorer_pick(r: Seq<usize>, keep: Seq<usize>, picked: Seq<usize>, n: nat) -> bool {
    &&& strictly_increasing_usize(r)
    &&& forall|x: usize| r.contains(x) <==> (keep.contains(x) || (picked.contains(x) && x < n))
}

/// The sorted, repeat-free list of the blocks chosen in the explorer.
pub open spec fn explorer_selection(keep: Seq<usize>, picked: Seq<usize>, n: nat) -> Seq<usize> {
    choose|r: Seq<usize>| explorer_pick(r, keep, picked, n)
}

impl StateView {
    /// The corner of the primary selected block, or the cursor when there
    /// is none.
    pub open spec fn primary_cursor(self) -> Vec3i {
        match self.editor.selected_block_index {
            Some(i) => if i < self.editor.objects.len() {
                self.editor.objects[i as int].position
            } else {
                self.editor.cursor
            },
            None => self.editor.cursor,
        }
    }

    /// Choosing blocks in the explorer (in the editor): the clicked blocks
    /// that exist, added to the current selection or replacing it, become
    /// the selection (normalized, so an empty choice keeps a valid primary
    /// block), the primary one is hovered and the cursor moves to its corner;
    /// drags end.
    #[verifier::opaque]
    pub open spec fn after_explorer_select(self, picked: Seq<usize>, additive: bool) -> StateView {
        if self.phase != AppPhase::Editor {
            self
        } else {
            let keep = if additive { self.norm_sel() } else { Seq::empty() };
            let chosen = explorer_selection(keep, picked, self.editor.objects.len());
            let t = self.with_editor(EditorView { selected_block_indices: chosen, ..self.editor }).after_sync_primary();
            t.with_editor(
                EditorView {
                    hovered_block_index: t.editor.selected_block_index,
                    drag: None,
                    cursor: t.primary_cursor(),
                    ..t.editor
                },
            )
        }
    }
}

impl StateView {
    /// Renaming a block from the explorer (in the editor): when `index`
    /// names a block whose name is not already the trimmed `name`,
    /// recording, then the block gets the trimmed name.
    #[verifier::opaque]
    pub open spec fn after_rename_object(self, index: usize, name: Seq<char>) -> StateView {
        if self.phase != AppPhase::Editor || index >= self.editor.objects.len() || index
            >= self.editor.labels.len() || self.editor.labels[index as int].name == trimmed(name) {
            self
        } else {
            let t = self.after_record();
            t.with_editor(
                EditorView {
                    labels: t.editor.labels.update(
                        index as int,
                        LabelView { name: trimmed(name), ..t.editor.labels[index as int] },
                    ),
                    ..t.editor
                },
            )
        }
    }

    /// Grouping the selection (in the editor, with blocks selected):
    /// recording, then the selected blocks go into a new group (see
    /// `grouped_labels`).
    #[verifier::opaque]
    pub open spec fn after_create_group(self) -> StateView {
        if self.phase != AppPhase::Editor || self.norm_sel().len() == 0 {
            self
        } else {
            let t = self.after_record();
            t.with_editor(EditorView { labels: grouped_labels(t.editor.labels, t.norm_sel()), ..t.editor })
        }
    }

    /// Renaming a group (in the editor): when it changes something (see
    /// `group_rename_changes`), recording, then every block inside the group
    /// moves under the new name.
    #[verifier::opaque]
    pub open spec fn after_rename_group(self, path: Seq<Seq<char>>, new_name: Seq<char>) -> StateView {
        if self.phase != AppPhase::Editor || !group_rename_changes(self.editor.labels, path, new_name) {
            self
        } else {
            let t = self.after_record();
            t.with_editor(EditorView { labels: renamed_labels(t.editor.labels, path, new_name), ..t.editor })
        }
    }

    /// Moving the selection into a group (in the editor, with blocks
    /// selected and one of them elsewhere): recording, then every selected
    /// block goes into the group.
    #[verifier::opaque]
    pub open spec fn after_move_to_group(self, group_path: Option<Seq<Seq<char>>>) -> StateView {
        let target = move_target(group_path);
        if self.phase != AppPhase::Editor || self.norm_sel().len() == 0 || !move_changes(
            self.editor.labels,
            self.norm_sel(),
            target,
        ) {
            self
        } else {
            let t = self.after_record();
            t.with_editor(EditorView { labels: moved_labels(t.editor.labels, t.norm_sel(), target), ..t.editor })
        }
    }
}

/// Builds the sorted, repeat-free list of the kept indices and the picked
/// indices below `n`.
fn pick_indices(keep: &Vec<usize>, picked: &Vec<usize>, n: usize) -> (r: Vec<usize>)
    requires
        strictly_increasing_usize(keep@),
    ensures
        explorer_pick(r@, keep@, picked@, n as nat),
{
    let mut r: Vec<usize> = Vec::new();
    let mut k: usize = 0;
    while k < keep.len()
        invariant
            k <= keep.len(),
            strictly_increasing_usize(keep@),
            r@ == keep@.subrange(0, k as int),
        decreases keep.len() - k,
    {
        r.push(keep[k]);
        assert(r@ == keep@.subrange(0, k + 1));
        k = k + 1;
    }
    assert(keep@.subrange(0, keep@.len() as int) == keep@);
    let mut j: usize = 0;
    while j < picked.len()
        invariant
            j <= picked.len(),
            strictly_increasing_usize(r@),
            forall|x: usize| r@.contains(x) <==> (keep@.contains(x) || (picked@.subrange(0, j as int).contains(x) && x < n)),
        decreases picked.len() - j,
    {
        let x = picked[j];
        if x < n {
            insert_sorted_unique_usize(&mut r, x);
        }
        proof {
            let s0 = picked@.subrange(0, j as int);
            let s1 = picked@.subrange(0, j + 1);
            assert forall|y: usize| r@.contains(y) <==> (keep@.contains(y) || (s1.contains(y) && y < n)) by {
                if s1.contains(y) {
                    let i = choose|i: int| 0 <= i < s1.len() && s1[i] == y;
                    if i < j {
                        assert(s0[i] == y);
                    }
                }
                if s0.contains(y) {
                    let i = choose|i: int| 0 <= i < s0.len() && s0[i] == y;
                    assert(s1[i] == y);
                }
                if y == x {
                    assert(s1[j as int] == y);
                }
            }
        }
        j = j + 1;
    }
    assert(picked@.subrange(0, picked@.len() as int) == picked@);
    r
}

/// The chosen list is the one `explorer_selection` names.
proof fn lemma_explorer_selection_is(r: Seq<usize>, keep: Seq<usize>, picked: Seq<usize>, n: nat)
    requires
        explorer_pick(r, keep, picked, n),
    ensures
        r == explorer_selection(keep, picked, n),
{
    let c = explorer_selection(keep, picked, n);
    assert(explorer_pick(c, keep, picked, n));
    lemma_increasing_usize_unique(r, c);
}

impl State {
    fn primary_cursor(&self) -> (r: Vec3i)
        ensures
            r == self@.primary_cursor(),
    {
        match self.editor.selected_block_index {
            Some(i) => if i < self.editor.objects.len() {
                self.editor.objects[i].position
            } else {
                self.editor.cursor
            },
            None => self.editor.cursor,
        }
    }

    fn kept_selection(&self, additive: bool) -> (r: Vec<usize>)
        ensures
            r@ == (if additive { self@.norm_sel() } else { Seq::empty() }),
            strictly_increasing_usize(r@),
    {
        if additive {
            let r = self.selected_block_indices_normalized();
            r
        } else {
            let r: Vec<usize> = Vec::new();
            assert(r@ =~= Seq::<usize>::empty());
            r
        }
    }

    /// Selects the blocks chosen in the explorer (see
    /// `StateView::after_explorer_select`).
    pub fn editor_select_objects_from_explorer(&mut self, indices: Vec<usize>, additive: bool)
        ensures
            final(self)@ == old(self)@.after_explorer_select(indices@, additive),
    {
        proof {
            reveal(StateView::after_explorer_select);
        }
        if self.phase != AppPhase::Editor {
            return;
        }
        let keep = self.kept_selection(additive);
        let chosen = pick_indices(&keep, &indices, self.editor.objects.len());
        proof {
            lemma_explorer_selection_is(chosen@, keep@, indices@, self@.editor.objects.len());
        }
        self.editor.selected_block_indices = chosen;
        self.sync_primary_selection_from_indices();
        self.editor.hovered_block_index = self.editor.selected_block_index;
        self.editor.drag = None;
        self.editor.cursor = self.primary_cursor();
    }

    /// Renames a block from the explorer (see
    /// `StateView::after_rename_object`).
    pub fn editor_rename_object_from_explorer(&mut self, index: usize, name: String)
        ensures
            final(self)@ == old(self)@.after_rename_object(index, name@),
    {
        proof {
            reveal(StateView::after_rename_object);
        }
        if self.phase != AppPhase::Editor || index >= self.editor.objects.len() {
            return;
        }
        let mut trial = Outline { labels: copy_labels(&self.editor.labels) };
        if trial.rename_object(index, name.as_str()) {
            self.record_editor_history_state();
            let ghost t = self@;
            self.editor.labels = trial.labels;
            assert(self@.editor.labels =~= t.editor.labels.update(
                index as int,
                LabelView { name: trimmed(name@), ..t.editor.labels[index as int] },
            ));
        }
    }

    /// Puts the selected blocks into a new group (see
    /// `StateView::after_create_group`).
    pub fn editor_create_group_from_selection(&mut self)
        requires
            old(self)@.editor.labels.len() == old(self)@.editor.objects.len(),
            old(self)@.editor.labels.len() < usize::MAX,
        ensures
            final(self)@ == old(self)@.after_create_group(),
    {
        proof {
            reveal(StateView::after_create_group);
        }
        if self.phase != AppPhase::Editor {
            return;
        }
        let sel = self.selected_block_indices_normalized();
        if sel.len() == 0 {
            return;
        }
        proof {
            lemma_normalized_in_range(
                sel@,
                self@.editor.selected_block_indices,
                self@.editor.selected_block_index,
                self@.editor.objects.len(),
            );
        }
        let mut trial = Outline { labels: copy_labels(&self.editor.labels) };
        trial.create_group_from_selection(&sel);
        self.record_editor_history_state();
        let ghost t = self@;
        self.editor.labels = trial.labels;
        assert(self@.editor.labels =~= grouped_labels(t.editor.labels, t.norm_sel()));
    }

    /// Renames the group at `path` (see `StateView::after_rename_group`).
    pub fn editor_rename_group(&mut self, path: Vec<String>, new_name: String)
        ensures
            final(self)@ == old(self)@.after_rename_group(texts(path@), new_name@),
    {
        proof {
            reveal(StateView::after_rename_group);
        }
        if self.phase != AppPhase::Editor {
            return;
        }
        let mut trial = Outline { labels: copy_labels(&self.editor.labels) };
        if trial.rename_group(&path, new_name.as_str()) {
            self.record_editor_history_state();
            let ghost t = self@;
            self.editor.labels = trial.labels;
            assert(self@.editor.labels =~= renamed_labels(t.editor.labels, texts(path@), new_name@));
        }
    }

    /// Moves the selected blocks into the group at `group_path` (the top
    /// level when `None`; see `StateView::after_move_to_group`).
    pub fn editor_move_selected_to_group(&mut self, group_path: Option<Vec<String>>)
        requires
            old(self)@.editor.labels.len() == old(self)@.editor.objects.len(),
        ensures
            final(self)@ == old(self)@.after_move_to_group(
                match group_path {
                    Some(p) => Some(texts(p@)),
                    None => None,
                },
            ),
    {
        proof {
            reveal(StateView::after_move_to_group);
        }
        if self.phase != AppPhase::Editor {
            return;
        }
        let sel = self.selected_block_indices_normalized();
        if sel.len() == 0 {
            return;
        }
        proof {
            lemma_normalized_in_range(
                sel@,
                self@.editor.selected_block_indices,
                self@.editor.selected_block_index,
                self@.editor.objects.len(),
            );
        }
        let mut trial = Outline { labels: copy_labels(&self.editor.labels) };
        let changed = match &group_path {
            Some(p) => trial.move_selected_to_group(&sel, Some(p)),
            None => trial.move_selected_to_group(&sel, None),
        };
        if changed {
            self.record_editor_history_state();
            let ghost t = self@;
            self.editor.labels = trial.labels;
            assert(self@.editor.labels =~= moved_labels(
                t.editor.labels,
                t.norm_sel(),
                move_target(
                    match group_path {
                        Some(p) => Some(texts(p@)),
                        None => None,
                    },
                ),
            ));
        }
    }
}

} // verus!
