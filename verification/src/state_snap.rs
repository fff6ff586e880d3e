use vstd::prelude::*;
use crate::blocks::UpAxis;
use crate::commands::EditorCommand;
use crate::editor_subsystem::{anchor_index, anchor_of};
use crate::fixed::{
    clamp_snap_step, effective_step, floor_cell, snap_component, MIN_FREE_SIZE, snap_spec, snappable,
    snappable_point, SNAP_STEP_LIMIT,
};
use crate::selection::lemma_normalized_in_range;
use crate::snapping::{
    all_snappable, any_off_grid, point_snappable, snap_blocks, snap_needed, snap_point,
    snap_point_up, snapped_all,
};
use crate::state::{Effect, EditorView, State, StateView};
use crate::state_editor::{cell_corner, cell_point, clamp_int, index_below};
use crate::types::{AppPhase, LevelObject, Vec3i};

verus! {

/// The point with its height (y) raised to zero.
pub open spec fn grounded(p: Vec3i) -> Vec3i {
    Vec3i { y: if p.y < 0 { 0 } else { p.y }, ..p }
}

/// The point with its height (y) raised to zero.
pub fn grounded_exec(p: Vec3i) -> (r: Vec3i)
    ensures
        r == grounded(p),
{
    Vec3i { y: if p.y < 0 { 0 } else { p.y }, ..p }
}

/// The point with its height (z) raised to zero.
pub open spec fn raised(p: Vec3i) -> Vec3i {
    Vec3i { z: if p.z < 0 { 0 } else { p.z }, ..p }
}

/// The cursor that follows a moved block: the cell that holds its corner,
/// across the ground kept within `bounds`, the height at least zero.
pub open spec fn follow_cursor(p: Vec3i, bounds: i32) -> Vec3i {
    let b = bounds as int;
    cell_point(
        (
            clamp_int(floor_cell(p.x as int), -b, b) as i32,
            clamp_int(floor_cell(p.y as int), -b, b) as i32,
            clamp_int(floor_cell(p.z as int), 0, i32::MAX as int) as i32,
        ),
    )
}

/// An extent: each axis snapped to the grid when snapping, then raised to
/// the smallest extent (the grid step when snapping, else a quarter cell).
pub open spec fn fitted_size(size: Vec3i, snap: bool, step: i64) -> Vec3i {
    let min = if snap { step as int } else { MIN_FREE_SIZE as int };
    let f = |c: i64| {
        let v = if snap { snap_spec(c as int, step as int) } else { c as int };
        (if v < min { min } else { v }) as i64
    };
    Vec3i { x: f(size.x), y: f(size.y), z: f(size.z) }
}

/// `c` clamped to `[lo, hi]` (`lo` when the bounds cross).
fn clamp_i64(c: i64, lo: i64, hi: i64) -> (r: i64)
    ensures
        r == clamp_int(c as int, lo as int, hi as int),
{
    if c < lo {
        lo
    } else if c > hi {
        hi
    } else {
        c
    }
}

/// The cell that holds a coordinate (rounding down).
fn floor_cell_exec(c: i64) -> (r: i64)
    ensures
        r == floor_cell(c as int),
{
    if c >= 0 {
        c / 1000
    } else {
        let n: i128 = 0 - (c as i128);
        let q: i128 = (n + 999) / 1000;
        proof {
            let rem = c + 1000 * q;
            assert(0 <= rem < 1000) by (nonlinear_arith)
                requires
                    q == (n + 999) / 1000,
                    n == -c,
                    n > 0,
                    rem == c + 1000 * q,
            ;
            vstd::arithmetic::div_mod::lemma_fundamental_div_mod_converse(c as int, 1000, -q, rem);
        }
        (0 - q) as i64
    }
}

fn follow_cursor_exec(p: Vec3i, bounds: i32) -> (r: Vec3i)
    ensures
        r == follow_cursor(p, bounds),
{
    let b = bounds as i64;
    cell_corner(
        (
            clamp_i64(floor_cell_exec(p.x), -b, b) as i32,
            clamp_i64(floor_cell_exec(p.y), -b, b) as i32,
            clamp_i64(floor_cell_exec(p.z), 0, 0x7fff_ffff) as i32,
        ),
    )
}

fn fitted_axis(c: i64, snap: bool, step: i64) -> (r: i64)
    requires
        snap ==> snappable(c) && 0 < step <= SNAP_STEP_LIMIT,
        !snap ==> step == step,
    ensures
        r == ({
            let min = if snap { step as int } else { MIN_FREE_SIZE as int };
            let v = if snap { snap_spec(c as int, step as int) } else { c as int };
            (if v < min { min } else { v }) as i64
        }),
{
    let min = if snap { step } else { MIN_FREE_SIZE };
    let v = if snap { snap_component(c, step) } else { c };
    if v < min { min } else { v }
}

impl StateView {
    /// The grid step snapping uses: the configured step, at least the
    /// smallest step.
    pub open spec fn grid_step(self) -> i64 {
        effective_step(self.editor.snap_step)
    }

    /// In the editor, some selected block is off the grid (its height, along
    /// y, counted from zero).
    pub open spec fn selection_off_grid(self) -> bool {
        &&& self.phase == AppPhase::Editor
        &&& self.norm_sel().len() > 0
        &&& snap_needed(self.editor.objects, self.norm_sel(), self.grid_step(), UpAxis::Y)
    }

    /// Snapping the selection to the grid, in the editor. With blocks
    /// selected and one of them off the grid: recording, then every selected
    /// block moved to the nearest grid point (its height, along y, first
    /// raised to zero), the cursor on the anchor block's corner and the selection
    /// normalized; with all of them on the grid nothing changes. With no
    /// block but a tap selected, moving the tap (which needs the gameplay
    /// simulation) is queued for the shell.
    #[verifier::opaque]
    pub open spec fn after_snap_selection(self) -> StateView {
        if self.phase != AppPhase::Editor {
            self
        } else if self.norm_sel().len() > 0 {
            if !self.selection_off_grid() {
                self
            } else {
                let sel = self.norm_sel();
                let t = self.after_record();
                let objs = snapped_all(t.editor.objects, sel, t.grid_step(), UpAxis::Y);
                let a = objs[anchor_index(sel, t.editor.selected_block_index) as int].position;
                t.with_editor(EditorView { objects: objs, cursor: grounded(a), ..t.editor })
                    .after_sync_objects()
            }
        } else if self.timeline.selected_tap is Some {
            self.with_effect(Effect::Editor(EditorCommand::SnapSelectionToGrid))
        } else {
            self
        }
    }

    /// Snapping can run in the library: every block within the range that
    /// snapping accepts and the configured step not too large.
    pub open spec fn snap_in_range(self) -> bool {
        all_snappable(self.editor.objects) && self.editor.snap_step <= SNAP_STEP_LIMIT
    }
}

impl StateView {
    /// Recording, unless a drag is under way (it records when it starts).
    pub open spec fn record_unless_dragging(self) -> StateView {
        if self.editor.drag is None { self.after_record() } else { self }
    }

    /// Moving the selected block (in the editor): recording unless
    /// dragging, normalizing the selection, then the primary block goes to
    /// `position`, snapped to the grid when snapping (its height raised to
    /// zero either way), and the cursor follows it.
    #[verifier::opaque]
    pub open spec fn after_set_selected_position(self, position: Vec3i) -> StateView {
        if self.phase != AppPhase::Editor {
            self
        } else {
            let u = self.record_unless_dragging().after_sync_primary();
            match index_below(u.editor.selected_block_index, u.editor.objects.len()) {
                None => u,
                Some(i) => {
                    let next = if u.editor.snap_to_grid {
                        snap_point_up(position, u.grid_step(), UpAxis::Z)
                    } else {
                        raised(position)
                    };
                    let o = u.editor.objects[i as int];
                    u.with_editor(
                        EditorView {
                            objects: u.editor.objects.update(
                                i as int,
                                LevelObject { position: next, size: o.size, kind: o.kind, yaw_degrees: o.yaw_degrees },
                            ),
                            cursor: follow_cursor(next, u.editor.bounds),
                            ..u.editor
                        },
                    ).after_sync_objects()
                },
            }
        }
    }

    /// Resizing the selected block (in the editor): recording unless
    /// dragging, normalizing the selection, then the primary block gets
    /// `size` as `fitted_size` makes it.
    #[verifier::opaque]
    pub open spec fn after_set_selected_size(self, size: Vec3i) -> StateView {
        if self.phase != AppPhase::Editor {
            self
        } else {
            let u = self.record_unless_dragging().after_sync_primary();
            match index_below(u.editor.selected_block_index, u.editor.objects.len()) {
                None => u,
                Some(i) => {
                    let o = u.editor.objects[i as int];
                    u.with_editor(
                        EditorView {
                            objects: u.editor.objects.update(
                                i as int,
                                LevelObject {
                                    position: o.position,
                                    size: fitted_size(size, u.editor.snap_to_grid, u.grid_step()),
                                    kind: o.kind,
                                    yaw_degrees: o.yaw_degrees,
                                },
                            ),
                            ..u.editor
                        },
                    ).after_sync_objects()
                },
            }
        }
    }

    /// The first selected block lies within the range that snapping
    /// accepts, and so does the step.
    pub open spec fn first_selected_in_range(self) -> bool {
        let o = self.editor.objects[self.norm_sel()[0] as int];
        &&& self.editor.snap_step <= SNAP_STEP_LIMIT
        &&& snappable_point(o.position)
        &&& snappable_point(o.size)
    }

    /// After a change of the snapping settings, with a primary selection:
    /// the first selected block is set again to its own position and size,
    /// which snaps it to the new grid (a block beyond the range that
    /// snapping accepts is left as it is).
    pub open spec fn after_resnap_selected(self) -> StateView {
        if self.editor.selected_block_index is Some && self.norm_sel().len() > 0
            && self.first_selected_in_range() {
            let o = self.editor.objects[self.norm_sel()[0] as int];
            self.after_set_selected_position(o.position).after_set_selected_size(o.size)
        } else {
            self
        }
    }

    /// Choosing the grid step (at least the smallest step), then re-snapping
    /// the selected block when snapping is on.
    pub open spec fn after_set_snap_step(self, step: i64) -> StateView {
        let t = self.with_editor(EditorView { snap_step: effective_step(step), ..self.editor });
        if t.editor.snap_to_grid {
            t.after_resnap_selected()
        } else {
            t
        }
    }

    /// Turning grid snapping on or off, then re-snapping the selected block.
    pub open spec fn after_set_snap_to_grid(self, snap: bool) -> StateView {
        self.with_editor(EditorView { snap_to_grid: snap, ..self.editor }).after_resnap_selected()
    }
}

impl State {
    /// Moves the primary selected block (see
    /// `StateView::after_set_selected_position`).
    pub fn set_editor_selected_block_position(&mut self, position: Vec3i)
        requires
            old(self)@.editor.snap_to_grid ==> snappable_point(position)
                && old(self)@.editor.snap_step <= SNAP_STEP_LIMIT,
        ensures
            final(self)@ == old(self)@.after_set_selected_position(position),
            final(self)@.editor.snap_step == old(self)@.editor.snap_step,
            final(self)@.editor.snap_to_grid == old(self)@.editor.snap_to_grid,
    {
        proof {
            reveal(StateView::after_set_selected_position);
        }
        if self.phase != AppPhase::Editor {
            return;
        }
        self.record_unless_dragging();
        self.sync_primary_selection_from_indices();
        let ghost u = self@;
        match self.editor.selected_block_index {
            Some(i) => {
                if i < self.editor.objects.len() {
                    let next = if self.editor.snap_to_grid {
                        snap_point(position, clamp_snap_step(self.editor.snap_step), UpAxis::Z)
                    } else {
                        Vec3i { z: if position.z < 0 { 0 } else { position.z }, ..position }
                    };
                    let o = self.editor.objects[i];
                    self.editor.objects.set(i, LevelObject { position: next, size: o.size, kind: o.kind, yaw_degrees: o.yaw_degrees });
                    self.editor.cursor = follow_cursor_exec(next, self.editor.bounds);
                    assert(self@ == u.with_editor(
                        EditorView {
                            objects: u.editor.objects.update(
                                i as int,
                                LevelObject { position: next, size: o.size, kind: o.kind, yaw_degrees: o.yaw_degrees },
                            ),
                            cursor: follow_cursor(next, u.editor.bounds),
                            ..u.editor
                        },
                    ));
                    self.sync_editor_objects();
                }
            },
            None => {},
        }
    }

    /// Records, unless a drag is under way.
    fn record_unless_dragging(&mut self)
        ensures
            final(self)@ == old(self)@.record_unless_dragging(),
    {
        if self.editor.drag.is_none() {
            self.record_editor_history_state();
        }
    }

    /// Resizes the primary selected block (see
    /// `StateView::after_set_selected_size`).
    pub fn set_editor_selected_block_size(&mut self, size: Vec3i)
        requires
            old(self)@.editor.snap_to_grid ==> snappable_point(size)
                && old(self)@.editor.snap_step <= SNAP_STEP_LIMIT,
        ensures
            final(self)@ == old(self)@.after_set_selected_size(size),
    {
        proof {
            reveal(StateView::after_set_selected_size);
        }
        if self.phase != AppPhase::Editor {
            return;
        }
        self.record_unless_dragging();
        self.sync_primary_selection_from_indices();
        let ghost u = self@;
        match self.editor.selected_block_index {
            Some(i) => {
                if i < self.editor.objects.len() {
                    let snap = self.editor.snap_to_grid;
                    let step = clamp_snap_step(self.editor.snap_step);
                    let fitted = Vec3i {
                        x: fitted_axis(size.x, snap, step),
                        y: fitted_axis(size.y, snap, step),
                        z: fitted_axis(size.z, snap, step),
                    };
                    let o = self.editor.objects[i];
                    self.editor.objects.set(i, LevelObject { position: o.position, size: fitted, kind: o.kind, yaw_degrees: o.yaw_degrees });
                    assert(fitted == fitted_size(size, u.editor.snap_to_grid, u.grid_step()));
                    assert(self@ == u.with_editor(
                        EditorView {
                            objects: u.editor.objects.update(
                                i as int,
                                LevelObject { position: o.position, size: fitted, kind: o.kind, yaw_degrees: o.yaw_degrees },
                            ),
                            ..u.editor
                        },
                    ));
                    self.sync_editor_objects();
                }
            },
            None => {},
        }
    }

    /// Re-snaps the first selected block after a change of the snapping
    /// settings (see `StateView::after_resnap_selected`).
    fn resnap_selected_block(&mut self)
        ensures
            final(self)@ == old(self)@.after_resnap_selected(),
    {
        if self.editor.selected_block_index.is_none() {
            return;
        }
        match self.editor_selected_block() {
            Some(o) => {
                if self.editor.snap_step <= SNAP_STEP_LIMIT && point_snappable(o.position)
                    && point_snappable(o.size) {
                    self.set_editor_selected_block_position(o.position);
                    self.set_editor_selected_block_size(o.size);
                }
            },
            None => {},
        }
    }

    /// Turns grid snapping on or off, then re-snaps the selected block.
    pub fn set_editor_snap_to_grid(&mut self, snap: bool)
        ensures
            final(self)@ == old(self)@.after_set_snap_to_grid(snap),
    {
        self.editor.snap_to_grid = snap;
        self.resnap_selected_block();
    }

    /// Sets the grid step (at least the smallest step); with snapping on,
    /// re-snaps the selected block.
    pub fn set_editor_snap_step(&mut self, step: i64)
        ensures
            final(self)@ == old(self)@.after_set_snap_step(step),
    {
        self.editor.snap_step = clamp_snap_step(step);
        if self.editor.snap_to_grid {
            self.resnap_selected_block();
        }
    }

    /// The configured grid step (fixed-point units).
    pub fn editor_snap_step(&self) -> (r: i64)
        ensures
            r == self@.editor.snap_step,
    {
        self.editor.snap_step
    }

    /// Snaps the selected blocks to the grid (see
    /// `StateView::after_snap_selection`); returns whether a block moved.
    pub fn editor_snap_selection_to_grid(&mut self) -> (moved: bool)
        requires
            old(self)@.snap_in_range(),
        ensures
            moved == old(self)@.selection_off_grid(),
            final(self)@ == old(self)@.after_snap_selection(),
    {
        proof {
            reveal(StateView::after_snap_selection);
        }
        if self.phase != AppPhase::Editor {
            return false;
        }
        let sel = self.selected_block_indices_normalized();
        if sel.len() > 0 {
            proof {
                lemma_normalized_in_range(
                    sel@,
                    self@.editor.selected_block_indices,
                    self@.editor.selected_block_index,
                    self@.editor.objects.len(),
                );
            }
            let step = clamp_snap_step(self.editor.snap_step);
            if !any_off_grid(&self.editor.objects, &sel, step, UpAxis::Y) {
                return false;
            }
            self.record_editor_history_state();
            let ghost t = self@;
            snap_blocks(&mut self.editor.objects, &sel, step, UpAxis::Y);
            let anchor = anchor_of(&sel, self.editor.selected_block_index);
            let a = self.editor.objects[anchor].position;
            self.editor.cursor = grounded_exec(a);
            proof {
                let objs = snapped_all(t.editor.objects, sel@, t.grid_step(), UpAxis::Y);
                assert(self@ == t.with_editor(
                    EditorView { objects: objs, cursor: grounded(objs[anchor_index(sel@, t.editor.selected_block_index) as int].position), ..t.editor },
                ));
            }
            self.sync_editor_objects();
            return true;
        }
        if self.timeline.selected_tap.is_some() {
            self.effects.push(Effect::Editor(EditorCommand::SnapSelectionToGrid));
        }
        false
    }
}

} // verus!
