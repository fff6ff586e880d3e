use vstd::prelude::*;
use crate::blocks::{
    block_at_cursor_spec,
    create_block_at_cursor,
    is_topmost_at,
    lemma_topmost_is,
    remove_indices,
    topmost_at,
    topmost_block_index,
    without_indices,
    UpAxis,
};
use crate::explorer::{blank_label, blank_object_label, labels_view, remove_label_indices};
use crate::state::{Effect, EditorView, State, StateView, TimelineView};
use crate::fixed::clamp_snap_step;
use crate::state_editor::{copy_u32s, index_below};
use crate::taps::{
    add_tap_step,
    lower_bound,
    remove_tap_step,
    retain_taps_below,
    taps_below,
    taps_with,
    taps_without,
};
use crate::types::{
    toggle_spawn_direction,
    AppPhase,
    BlockKind,
    EditorMode,
    LevelObject,
    SpawnDirection,
    SpawnMetadata,
    Vec3i,
    CELL,
};

verus! {

/// `v` kept within the range of `i64`.
pub open spec fn saturated(v: int) -> i64 {
    crate::state_editor::clamp_int(v, i64::MIN as int, i64::MAX as int) as i64
}

/// `c + d * step`, saturating at the ends of `i64`.
fn saturating_move(c: i64, d: i32, step: i64) -> (r: i64)
    requires
        step > 0,
    ensures
        r == saturated(c + d * step),
{
    let dd = d as i128;
    let ss = step as i128;
    assert(-0x8000_0000 <= dd <= 0x7fff_ffff);
    assert(0 < ss <= 0x7fff_ffff_ffff_ffff);
    assert(-0x4000_0000_0000_0000_0000_0000 <= dd * ss <= 0x4000_0000_0000_0000_0000_0000) by (nonlinear_arith)
        requires
            -0x8000_0000 <= dd <= 0x7fff_ffff,
            0 < ss <= 0x7fff_ffff_ffff_ffff,
    ;
    let v: i128 = c as i128 + dd * ss;
    if v < i64::MIN as i128 {
        i64::MIN
    } else if v > i64::MAX as i128 {
        i64::MAX
    } else {
        v as i64
    }
}

impl StateView {
    /// In the editor, the timeline preview is recomputed by the shell.
    pub open spec fn after_refresh_timeline(self) -> StateView {
        if self.phase == AppPhase::Editor {
            self.with_effect(Effect::RefreshTimelinePosition)
        } else {
            self
        }
    }

    /// The editor mode in effect: while the timeline plays, the mode kept
    /// for when playback stops.
    pub open spec fn effective_mode(self) -> EditorMode {
        if self.timeline.playing {
            match self.timeline.last_mode {
                Some(m) => m,
                None => self.editor.mode,
            }
        } else {
            self.editor.mode
        }
    }

    /// Recording, then moving to `step` (kept inside the timeline).
    pub open spec fn after_set_timeline_step(self, step: u32) -> StateView {
        let t = self.after_record();
        let max_step: u32 = (t.timeline.length - 1) as u32;
        t.with_timeline(TimelineView { step: if step > max_step { max_step } else { step }, ..t.timeline })
            .after_refresh_timeline()
    }

    /// Recording, then resizing the timeline to at least one step; the step
    /// and the taps are kept inside it.
    pub open spec fn after_set_timeline_length(self, length: u32) -> StateView {
        let t = self.after_record();
        let len: u32 = if length < 1 { 1 } else { length };
        let max_step: u32 = (len - 1) as u32;
        let taps = taps_below(t.timeline.tap_steps, len);
        t.with_timeline(
            TimelineView {
                length: len,
                step: if t.timeline.step > max_step { max_step } else { t.timeline.step },
                tap_steps: taps,
                selected_tap: index_below(t.timeline.selected_tap, taps.len()),
                ..t.timeline
            },
        ).after_refresh_timeline()
    }

    /// Recording, then adding a tap at the current step and selecting it.
    #[verifier::opaque]
    pub open spec fn after_add_tap(self) -> StateView {
        let t = self.after_record();
        t.with_timeline(
            TimelineView {
                tap_steps: taps_with(t.timeline.tap_steps, t.timeline.step),
                selected_tap: Some(lower_bound(t.timeline.tap_steps, t.timeline.step) as usize),
                ..t.timeline
            },
        ).after_refresh_timeline()
    }

    /// Recording, then removing the tap at the current step.
    #[verifier::opaque]
    pub open spec fn after_remove_tap(self) -> StateView {
        let t = self.after_record();
        t.with_timeline(
            TimelineView {
                tap_steps: taps_without(t.timeline.tap_steps, t.timeline.step),
                selected_tap: None,
                ..t.timeline
            },
        ).after_refresh_timeline()
    }

    /// Recording, then removing the tap at `step`.
    #[verifier::opaque]
    pub open spec fn after_remove_tap_at(self, step: u32) -> StateView {
        let t = self.after_record();
        t.with_timeline(
            TimelineView {
                tap_steps: taps_without(t.timeline.tap_steps, step),
                selected_tap: None,
                ..t.timeline
            },
        ).after_refresh_timeline()
    }

    /// Recording, then removing every tap.
    #[verifier::opaque]
    pub open spec fn after_clear_taps(self) -> StateView {
        let t = self.after_record();
        t.with_timeline(TimelineView { tap_steps: Seq::empty(), selected_tap: None, ..t.timeline })
            .after_refresh_timeline()
    }

    /// Selecting a tap (in the editor, while tapping): an index past the
    /// taps selects none.
    pub open spec fn after_set_selected_tap(self, sel: Option<usize>) -> StateView {
        if self.phase != AppPhase::Editor || self.effective_mode() != EditorMode::Tapping {
            self
        } else {
            self.with_timeline(
                TimelineView {
                    selected_tap: index_below(sel, self.timeline.tap_steps.len()),
                    ..self.timeline
                },
            )
        }
    }

    /// How far one cursor move goes: one grid step while snapping is in
    /// effect, else one cell.
    pub open spec fn cursor_step(self) -> int {
        if self.snapping_in_effect() { self.grid_step() as int } else { CELL as int }
    }

    /// The cursor moved by `dx` steps along x and `dy` steps along z, each
    /// coordinate saturating at the machine integers' ends.
    pub open spec fn after_move_cursor(self, dx: i32, dy: i32) -> StateView {
        let c = self.editor.cursor;
        let step = self.cursor_step();
        self.with_editor(
            EditorView {
                cursor: Vec3i { x: saturated(c.x + dx * step), y: c.y, z: saturated(c.z + dy * step) },
                ..self.editor
            },
        )
    }

    /// In the editor, the cursor one step forward along z.
    pub open spec fn after_move_up(self) -> StateView {
        if self.phase == AppPhase::Editor { self.after_move_cursor(0, 1) } else { self }
    }

    /// In the editor, the cursor one step back along z.
    pub open spec fn after_move_down(self) -> StateView {
        if self.phase == AppPhase::Editor { self.after_move_cursor(0, -1i32) } else { self }
    }

    /// The topmost block under the cursor (height along y).
    pub open spec fn topmost_at_cursor(self) -> Option<usize> {
        topmost_at(self.editor.objects, self.editor.cursor, UpAxis::Y)
    }

    /// Removing blocks in the editor (not while tapping): recording, then
    /// the selected blocks, or with none selected the topmost block under
    /// the cursor.
    #[verifier::opaque]
    pub open spec fn after_remove_block(self) -> StateView {
        if self.phase != AppPhase::Editor || self.effective_mode() == EditorMode::Tapping {
            self
        } else {
            let t = self.after_record();
            let sel = t.norm_sel();
            if sel.len() > 0 {
                t.with_editor(
                    EditorView {
                        objects: without_indices(t.editor.objects, sel),
                        labels: without_indices(t.editor.labels, sel),
                        selected_block_index: None,
                        selected_block_indices: Seq::empty(),
                        hovered_block_index: None,
                        ..t.editor
                    },
                ).after_sync_objects()
            } else {
                match t.topmost_at_cursor() {
                    Some(i) => if i < t.editor.objects.len() {
                        t.with_editor(
                            EditorView {
                                objects: t.editor.objects.remove(i as int),
                                labels: if i < t.editor.labels.len() {
                                    t.editor.labels.remove(i as int)
                                } else {
                                    t.editor.labels
                                },
                                ..t.editor
                            },
                        ).after_sync_objects()
                    } else {
                        t.after_sync_objects()
                    },
                    None => t.after_sync_objects(),
                }
            }
        }
    }

    /// Copying in the editor: the primary selected block, else the topmost
    /// block under the cursor, else nothing.
    #[verifier::opaque]
    pub open spec fn after_copy_block(self) -> StateView {
        if self.phase != AppPhase::Editor {
            self
        } else {
            match index_below(self.editor.selected_block_index, self.editor.objects.len()) {
                Some(i) => self.with_editor(
                    EditorView { clipboard: Some(self.editor.objects[i as int]), ..self.editor },
                ),
                None => match self.topmost_at_cursor() {
                    Some(i) => self.with_editor(
                        EditorView { clipboard: Some(self.editor.objects[i as int]), ..self.editor },
                    ),
                    None => self,
                },
            }
        }
    }

    /// Pasting in the editor: recording, then adding the copied block at the
    /// cursor, selecting and hovering it and placing with its kind.
    #[verifier::opaque]
    pub open spec fn after_paste_block(self) -> StateView {
        if self.phase != AppPhase::Editor {
            self
        } else {
            match self.editor.clipboard {
                None => self,
                Some(b) => {
                    let t = self.after_record();
                    let n = t.editor.objects.len();
                    let placed = LevelObject { position: t.editor.cursor, size: b.size, kind: b.kind, yaw_degrees: b.yaw_degrees };
                    t.with_editor(
                        EditorView {
                            selected_kind: b.kind,
                            objects: t.editor.objects.push(placed),
                            labels: t.editor.labels.push(blank_label()),
                            selected_block_index: Some(n as usize),
                            selected_block_indices: seq![n as usize],
                            hovered_block_index: Some(n as usize),
                            ..t.editor
                        },
                    ).after_sync_objects()
                },
            }
        }
    }

    /// Placing: recording, then adding a one-cell block of the chosen kind,
    /// turned as the placement preview is, at the cursor. With Shift held
    /// (stamping) the selection and hover are dropped and the mode kept;
    /// otherwise the new block is selected and hovered and the editor
    /// switches to scaling.
    #[verifier::opaque]
    pub open spec fn after_place_block(self) -> StateView {
        let t = self.after_record();
        let n = t.editor.objects.len();
        let objects = t.editor.objects.push(
            block_at_cursor_spec(t.editor.cursor, t.editor.selected_kind, t.editor.placement_yaw),
        );
        let labels = t.editor.labels.push(blank_label());
        if t.input.shift_held {
            t.with_editor(
                EditorView {
                    objects,
                    labels,
                    selected_block_index: None,
                    selected_block_indices: Seq::empty(),
                    hovered_block_index: None,
                    ..t.editor
                },
            ).after_sync_objects()
        } else {
            t.with_editor(
                EditorView {
                    objects,
                    labels,
                    selected_block_index: Some(n as usize),
                    selected_block_indices: seq![n as usize],
                    hovered_block_index: Some(n as usize),
                    mode: EditorMode::Scale,
                    ..t.editor
                },
            ).after_sync_objects()
        }
    }

    /// In the editor: recording, then moving the spawn to the cursor.
    #[verifier::opaque]
    pub open spec fn after_set_spawn_here(self) -> StateView {
        if self.phase != AppPhase::Editor {
            self
        } else {
            let t = self.after_record();
            t.with_editor(
                EditorView {
                    spawn: SpawnMetadata { position: t.editor.cursor, ..t.editor.spawn },
                    ..t.editor
                },
            ).after_sync_objects().after_refresh_timeline()
        }
    }

    /// In the editor: recording, then flipping the spawn direction.
    #[verifier::opaque]
    pub open spec fn after_rotate_spawn(self) -> StateView {
        if self.phase != AppPhase::Editor {
            self
        } else {
            let t = self.after_record();
            let d = if t.editor.spawn.direction == SpawnDirection::Forward {
                SpawnDirection::Right
            } else {
                SpawnDirection::Forward
            };
            t.with_editor(
                EditorView { spawn: SpawnMetadata { direction: d, ..t.editor.spawn }, ..t.editor },
            ).after_refresh_timeline()
        }
    }

    /// In the editor: recording, normalizing the selection, then giving the
    /// primary selected block the kind.
    pub open spec fn after_set_selected_kind(self, kind: BlockKind) -> StateView {
        if self.phase != AppPhase::Editor {
            self
        } else {
            let t = self.after_record().after_sync_primary();
            match index_below(t.editor.selected_block_index, t.editor.objects.len()) {
                Some(i) => {
                    let o = t.editor.objects[i as int];
                    t.with_editor(
                        EditorView {
                            objects: t.editor.objects.update(
                                i as int,
                                LevelObject { position: o.position, size: o.size, kind, yaw_degrees: o.yaw_degrees },
                            ),
                            ..t.editor
                        },
                    ).after_sync_objects()
                },
                None => t,
            }
        }
    }
}

impl State {
    /// In the editor, asks the shell to recompute the timeline preview.
    pub fn refresh_editor_timeline_position(&mut self)
        ensures
            final(self)@ == old(self)@.after_refresh_timeline(),
    {
        if self.phase == AppPhase::Editor {
            self.effects.push(Effect::RefreshTimelinePosition);
        }
    }

    /// The editor mode in effect, taking timeline playback into account.
    pub fn editor_effective_mode_for_playback(&self) -> (r: EditorMode)
        ensures
            r == self@.effective_mode(),
    {
        if self.timeline.playing {
            match self.timeline.last_mode {
                Some(m) => m,
                None => self.editor.mode,
            }
        } else {
            self.editor.mode
        }
    }

    /// Records, then moves to `step`, kept inside the timeline.
    pub fn set_editor_timeline_step(&mut self, step: u32)
        requires
            old(self)@.timeline.length >= 1,
        ensures
            final(self)@ == old(self)@.after_set_timeline_step(step),
    {
        self.record_editor_history_state();
        let max_step = self.timeline.length - 1;
        self.timeline.step = if step > max_step { max_step } else { step };
        self.refresh_editor_timeline_position();
    }

    /// Records, then resizes the timeline (at least one step), keeping the
    /// step and the taps inside it.
    pub fn set_editor_timeline_length(&mut self, length: u32)
        ensures
            final(self)@ == old(self)@.after_set_timeline_length(length),
    {
        self.record_editor_history_state();
        let ghost t = self@;
        let len: u32 = if length < 1 { 1 } else { length };
        let max_step = len - 1;
        let step = if self.timeline.step > max_step { max_step } else { self.timeline.step };
        let mut taps = copy_u32s(&self.timeline.tap_steps);
        retain_taps_below(&mut taps, len);
        let selected = match self.timeline.selected_tap {
            Some(i) => if i < taps.len() { Some(i) } else { None },
            None => None,
        };
        let ghost taps_view = taps@;
        self.timeline.length = len;
        self.timeline.step = step;
        self.timeline.tap_steps = taps;
        self.timeline.selected_tap = selected;
        assert(self@.timeline == (TimelineView {
            length: len,
            step,
            tap_steps: taps_view,
            selected_tap: selected,
            ..t.timeline
        }));
        self.refresh_editor_timeline_position();
    }

    /// Records, then adds a tap at the current step and selects it.
    pub fn editor_add_tap(&mut self)
        requires
            crate::sorted::strictly_increasing_u32(old(self)@.timeline.tap_steps),
        ensures
            final(self)@ == old(self)@.after_add_tap(),
    {
        proof {
            reveal(StateView::after_add_tap);
        }
        self.record_editor_history_state();
        let step = self.timeline.step;
        let at = add_tap_step(&mut self.timeline.tap_steps, step);
        self.timeline.selected_tap = Some(at);
        self.refresh_editor_timeline_position();
    }

    /// Records, then removes the tap at the current step.
    pub fn editor_remove_tap(&mut self)
        requires
            crate::sorted::strictly_increasing_u32(old(self)@.timeline.tap_steps),
        ensures
            final(self)@ == old(self)@.after_remove_tap(),
    {
        proof {
            reveal(StateView::after_remove_tap);
        }
        self.record_editor_history_state();
        let step = self.timeline.step;
        remove_tap_step(&mut self.timeline.tap_steps, step);
        self.timeline.selected_tap = None;
        self.refresh_editor_timeline_position();
    }

    /// Records, then removes the tap at `step`.
    pub fn editor_remove_tap_at(&mut self, step: u32)
        requires
            crate::sorted::strictly_increasing_u32(old(self)@.timeline.tap_steps),
        ensures
            final(self)@ == old(self)@.after_remove_tap_at(step),
    {
        proof {
            reveal(StateView::after_remove_tap_at);
        }
        self.record_editor_history_state();
        remove_tap_step(&mut self.timeline.tap_steps, step);
        self.timeline.selected_tap = None;
        self.refresh_editor_timeline_position();
    }

    /// Records, then removes every tap.
    pub fn editor_clear_taps(&mut self)
        ensures
            final(self)@ == old(self)@.after_clear_taps(),
    {
        proof {
            reveal(StateView::after_clear_taps);
        }
        self.record_editor_history_state();
        self.timeline.tap_steps = Vec::new();
        self.timeline.selected_tap = None;
        assert(self@.timeline.tap_steps =~= Seq::<u32>::empty());
        self.refresh_editor_timeline_position();
    }

    /// Selects a tap while tapping in the editor; an index past the taps
    /// selects none. Returns whether the selection changed.
    pub fn editor_set_selected_tap_index(&mut self, selected: Option<usize>) -> (changed: bool)
        ensures
            final(self)@ == old(self)@.after_set_selected_tap(selected),
            changed == (old(self)@.phase == AppPhase::Editor && old(self)@.effective_mode()
                == EditorMode::Tapping && final(self)@.timeline.selected_tap
                != old(self)@.timeline.selected_tap),
    {
        if self.phase != AppPhase::Editor || self.editor_effective_mode_for_playback() != EditorMode::Tapping {
            return false;
        }
        let previous = self.timeline.selected_tap;
        self.timeline.selected_tap = match selected {
            Some(i) => if i < self.timeline.tap_steps.len() { Some(i) } else { None },
            None => None,
        };
        previous != self.timeline.selected_tap
    }

    /// Moves the cursor by `dx` steps along x and `dy` steps along z: a
    /// step is the grid step while snapping is in effect, else one cell.
    pub fn move_editor_cursor(&mut self, dx: i32, dy: i32)
        ensures
            final(self)@ == old(self)@.after_move_cursor(dx, dy),
    {
        let step: i64 = if self.editor.snap_to_grid && !self.input.ctrl_held {
            clamp_snap_step(self.editor.snap_step)
        } else {
            CELL
        };
        let c = self.editor.cursor;
        self.editor.cursor = Vec3i {
            x: saturating_move(c.x, dx, step),
            y: c.y,
            z: saturating_move(c.z, dy, step),
        };
    }

    /// In the editor, moves the cursor one step forward along z.
    pub fn move_editor_up(&mut self)
        ensures
            final(self)@ == old(self)@.after_move_up(),
    {
        if self.phase == AppPhase::Editor {
            self.move_editor_cursor(0, 1);
        }
    }

    /// In the editor, moves the cursor one step back along z.
    pub fn move_editor_down(&mut self)
        ensures
            final(self)@ == old(self)@.after_move_down(),
    {
        if self.phase == AppPhase::Editor {
            self.move_editor_cursor(0, -1);
        }
    }

    /// The block with the highest top (along y) whose footprint holds the
    /// centre of the cell whose corner is `cursor` (the first one on ties).
    pub fn topmost_block_index_at_cursor(&self, cursor: Vec3i) -> (r: Option<usize>)
        ensures
            r == topmost_at(self@.editor.objects, cursor, UpAxis::Y),
            is_topmost_at(self@.editor.objects, cursor, UpAxis::Y, r),
    {
        let r = topmost_block_index(&self.editor.objects, cursor, UpAxis::Y);
        proof {
            lemma_topmost_is(self@.editor.objects, cursor, UpAxis::Y, r);
        }
        r
    }

    /// In the editor (not while tapping): records, then removes the selected
    /// blocks, or with none selected the topmost block under the cursor.
    pub fn editor_remove_block(&mut self)
        ensures
            final(self)@ == old(self)@.after_remove_block(),
    {
        proof {
            reveal(StateView::after_remove_block);
        }
        if self.phase != AppPhase::Editor
            || self.editor_effective_mode_for_playback() == EditorMode::Tapping {
            return;
        }
        self.record_editor_history_state();
        let sel = self.selected_block_indices_normalized();
        if sel.len() > 0 {
            self.editor.objects = remove_indices(&self.editor.objects, &sel);
            self.editor.labels = remove_label_indices(&self.editor.labels, &sel);
            self.editor.selected_block_index = None;
            self.editor.selected_block_indices = Vec::new();
            self.editor.hovered_block_index = None;
            self.sync_editor_objects();
            return;
        }
        let cursor = self.editor.cursor;
        match self.topmost_block_index_at_cursor(cursor) {
            Some(i) => {
                self.editor.objects.remove(i);
                if i < self.editor.labels.len() {
                    let ghost before = self.editor.labels@;
                    self.editor.labels.remove(i);
                    assert(labels_view(self.editor.labels@) =~= labels_view(before).remove(i as int));
                }
            },
            None => {},
        }
        self.sync_editor_objects();
    }

    /// Adds the label of a new block.
    fn push_blank_label(&mut self)
        ensures
            final(self)@ == (StateView {
                editor: EditorView { labels: old(self)@.editor.labels.push(blank_label()), ..old(self)@.editor },
                ..old(self)@
            }),
    {
        let ghost before = self.editor.labels@;
        let l = blank_object_label();
        self.editor.labels.push(l);
        assert(labels_view(self.editor.labels@) =~= labels_view(before).push(blank_label()));
    }

    /// The block that copying takes: the primary selected block when it
    /// exists, else the topmost block under the cursor.
    fn copy_source(&self) -> (r: Option<usize>)
        ensures
            r == match index_below(self@.editor.selected_block_index, self@.editor.objects.len()) {
                Some(i) => Some(i),
                None => self@.topmost_at_cursor(),
            },
            r matches Some(i) ==> i < self@.editor.objects.len(),
    {
        match self.editor.selected_block_index {
            Some(i) => {
                if i < self.editor.objects.len() {
                    return Some(i);
                }
            },
            None => {},
        }
        let cursor = self.editor.cursor;
        self.topmost_block_index_at_cursor(cursor)
    }

    /// In the editor, copies the primary selected block, else the topmost
    /// block under the cursor.
    pub fn editor_copy_block(&mut self)
        ensures
            final(self)@ == old(self)@.after_copy_block(),
    {
        proof {
            reveal(StateView::after_copy_block);
        }
        if self.phase != AppPhase::Editor {
            return;
        }
        let source = self.copy_source();
        match source {
            Some(i) => {
                let ghost e = self@.editor;
                self.editor.clipboard = Some(self.editor.objects[i]);
                assert(self@.editor == (EditorView { clipboard: Some(e.objects[i as int]), ..e }));
            },
            None => {},
        }
    }

    /// In the editor, records and pastes the copied block at the cursor,
    /// selecting it and placing with its kind from then on.
    pub fn editor_paste_block(&mut self)
        ensures
            final(self)@ == old(self)@.after_paste_block(),
    {
        proof {
            reveal(StateView::after_paste_block);
        }
        if self.phase != AppPhase::Editor {
            return;
        }
        let b = match self.editor.clipboard {
            Some(b) => b,
            None => {
                return;
            },
        };
        self.record_editor_history_state();
        let placed = LevelObject {
            position: self.editor.cursor,
            size: b.size,
            kind: b.kind,
            yaw_degrees: b.yaw_degrees,
        };
        self.editor.selected_kind = b.kind;
        let n = self.editor.objects.len();
        self.editor.objects.push(placed);
        self.push_blank_label();
        self.editor.selected_block_index = Some(n);
        let mut indices: Vec<usize> = Vec::new();
        indices.push(n);
        self.editor.selected_block_indices = indices;
        self.editor.hovered_block_index = Some(n);
        assert(self@.editor.selected_block_indices =~= seq![n]);
        self.sync_editor_objects();
    }

    /// Records, then places a one-cell block of the chosen kind at the
    /// cursor (see `StateView::after_place_block`).
    pub fn place_editor_block(&mut self)
        ensures
            final(self)@ == old(self)@.after_place_block(),
    {
        proof {
            reveal(StateView::after_place_block);
        }
        self.record_editor_history_state();
        let block = create_block_at_cursor(self.editor.cursor, self.editor.selected_kind, self.editor.placement_yaw);
        let n = self.editor.objects.len();
        self.editor.objects.push(block);
        self.push_blank_label();
        if self.input.shift_held {
            self.editor.selected_block_index = None;
            self.editor.selected_block_indices = Vec::new();
            self.editor.hovered_block_index = None;
            assert(self@.editor.selected_block_indices =~= Seq::<usize>::empty());
        } else {
            self.editor.selected_block_index = Some(n);
            let mut indices: Vec<usize> = Vec::new();
            indices.push(n);
            self.editor.selected_block_indices = indices;
            self.editor.hovered_block_index = Some(n);
            self.editor.mode = EditorMode::Scale;
            assert(self@.editor.selected_block_indices =~= seq![n]);
        }
        self.sync_editor_objects();
    }

    /// In the editor, records and moves the spawn to the cursor.
    pub fn editor_set_spawn_here(&mut self)
        ensures
            final(self)@ == old(self)@.after_set_spawn_here(),
    {
        proof {
            reveal(StateView::after_set_spawn_here);
        }
        if self.phase != AppPhase::Editor {
            return;
        }
        self.record_editor_history_state();
        self.editor.spawn.position = self.editor.cursor;
        self.sync_editor_objects();
        self.refresh_editor_timeline_position();
    }

    /// In the editor, records and flips the spawn direction.
    pub fn editor_rotate_spawn_direction(&mut self)
        ensures
            final(self)@ == old(self)@.after_rotate_spawn(),
    {
        proof {
            reveal(StateView::after_rotate_spawn);
        }
        if self.phase != AppPhase::Editor {
            return;
        }
        self.record_editor_history_state();
        self.editor.spawn.direction = toggle_spawn_direction(self.editor.spawn.direction);
        self.refresh_editor_timeline_position();
    }

    /// In the editor, records and gives the primary selected block the kind.
    pub fn set_editor_selected_block_kind(&mut self, kind: BlockKind)
        ensures
            final(self)@ == old(self)@.after_set_selected_kind(kind),
    {
        if self.phase != AppPhase::Editor {
            return;
        }
        self.record_editor_history_state();
        self.sync_primary_selection_from_indices();
        match self.editor.selected_block_index {
            Some(i) => {
                if i < self.editor.objects.len() {
                    let o = self.editor.objects[i];
                    self.editor.objects.set(i, LevelObject { position: o.position, size: o.size, kind, yaw_degrees: o.yaw_degrees });
                    self.sync_editor_objects();
                }
            },
            None => {},
        }
    }
}

} // verus!
