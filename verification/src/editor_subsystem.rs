use vstd::prelude::*;
use crate::blocks::{is_topmost_at, topmost_block_index, without_indices, remove_indices, UpAxis};
use crate::fixed::{
    clamp_snap_step,
    effective_step,
    snap_cell_spec,
    snappable_point,
    SNAP_STEP_LIMIT,
};
use crate::selection::{is_normalized_selection, normalize_selection, lemma_normalized_in_range};
use crate::snapping::{snap_blocks, snap_point_up};
use crate::sorted::strictly_increasing_usize;
use crate::types::{
    toggle_spawn_direction,
    EditorDrag,
    EditorMode,
    LevelObject,
    SpawnDirection,
    SpawnMetadata,
    Vec3i,
    CELL,
};

verus! {

/// What the user currently has selected and where the editor cursor is.
pub struct EditorUi {
    pub selected_block_index: Option<usize>,
    pub selected_block_indices: Vec<usize>,
    pub hovered_block_index: Option<usize>,
    pub cursor: Vec3i,
    pub mode: EditorMode,
    pub ctrl_held: bool,
    pub marquee_start_screen: Option<(i64, i64)>,
}

/// Grid and rotation snapping preferences.
pub struct EditorConfig {
    pub snap_to_grid: bool,
    pub snap_step: i64,
    pub snap_rotation: bool,
}

/// The level being edited and the editor's interaction state, with no
/// rendering, audio or GPU attached.
pub struct EditorSubsystem {
    pub objects: Vec<LevelObject>,
    pub ui: EditorUi,
    pub config: EditorConfig,
    pub spawn: SpawnMetadata,
    pub drag: Option<EditorDrag>,
    /// Whether the cached timeline samples still describe the level.
    pub samples_valid: bool,
}

/// The block moved by `dx` along x and `dz` along z.
pub open spec fn nudged(o: LevelObject, dx: i64, dz: i64) -> LevelObject {
    LevelObject {
        position: Vec3i {
            x: (o.position.x + dx) as i64,
            y: o.position.y,
            z: (o.position.z + dz) as i64,
        },
        size: o.size,
        kind: o.kind,
        yaw_degrees: o.yaw_degrees,
    }
}

/// The block with its position snapped to the grid of `step`.
pub open spec fn snapped(o: LevelObject, step: i64) -> LevelObject {
    LevelObject { position: snap_cell_spec(o.position, step), size: o.size, kind: o.kind, yaw_degrees: o.yaw_degrees }
}

/// The index the cursor follows after a change to the selected blocks: the
/// primary selection when it is selected, else the first selected index.
pub open spec fn anchor_index(sel: Seq<usize>, primary: Option<usize>) -> usize {
    match primary {
        Some(p) => if sel.contains(p) { p } else { sel[0] },
        None => sel[0],
    }
}

/// The cursor placed on a block: its position with the height raised to zero.
pub open spec fn cursor_on(o: LevelObject) -> Vec3i {
    Vec3i {
        x: o.position.x,
        y: if o.position.y < 0 { 0 } else { o.position.y },
        z: o.position.z,
    }
}

/// Adding the nudge to every block stays within machine integers.
pub open spec fn nudge_fits(objs: Seq<LevelObject>, dx: i64, dz: i64) -> bool {
    forall|i: int|
        0 <= i < objs.len() ==> i64::MIN <= #[trigger] objs[i].position.x + dx <= i64::MAX
            && i64::MIN <= objs[i].position.z + dz <= i64::MAX
}

/// The primary selection when it is in `sel`, else the first of `sel`.
pub fn anchor_of(sel: &Vec<usize>, primary: Option<usize>) -> (r: usize)
    requires
        sel@.len() > 0,
    ensures
        r == anchor_index(sel@, primary),
{
    match primary {
        Some(p) => {
            if crate::selection::selection_contains(sel, None, p) {
                p
            } else {
                sel[0]
            }
        },
        None => sel[0],
    }
}

impl EditorSubsystem {
    /// The normalized selection of this editor.
    pub open spec fn normalized_of(&self, r: Seq<usize>) -> bool {
        is_normalized_selection(
            r,
            self.ui.selected_block_indices@,
            self.ui.selected_block_index,
            self.objects@.len(),
        )
    }

    /// An empty level with the default editor settings: place mode, grid
    /// snapping on with a one-cell step, spawn at the origin facing forward.
    pub fn new_test() -> (r: Self)
        ensures
            r.objects@.len() == 0,
            r.ui.selected_block_index is None,
            r.ui.selected_block_indices@.len() == 0,
            r.ui.hovered_block_index is None,
            r.ui.cursor == (Vec3i { x: 0, y: 0, z: 0 }),
            r.ui.mode == EditorMode::Place,
            !r.ui.ctrl_held,
            r.ui.marquee_start_screen is None,
            r.config.snap_to_grid,
            r.config.snap_step == CELL,
            !r.config.snap_rotation,
            r.spawn == (SpawnMetadata {
                position: Vec3i { x: 0, y: 0, z: 0 },
                direction: SpawnDirection::Forward,
            }),
            r.drag is None,
            r.samples_valid,
    {
        EditorSubsystem {
            objects: Vec::new(),
            ui: EditorUi {
                selected_block_index: None,
                selected_block_indices: Vec::new(),
                hovered_block_index: None,
                cursor: Vec3i { x: 0, y: 0, z: 0 },
                mode: EditorMode::Place,
                ctrl_held: false,
                marquee_start_screen: None,
            },
            config: EditorConfig { snap_to_grid: true, snap_step: CELL, snap_rotation: false },
            spawn: SpawnMetadata {
                position: Vec3i { x: 0, y: 0, z: 0 },
                direction: SpawnDirection::Forward,
            },
            drag: None,
            samples_valid: true,
        }
    }

    /// The selected block indices that exist, sorted and without duplicates
    /// (the primary selection alone when the list names none).
    pub fn selected_indices_normalized(&self) -> (r: Vec<usize>)
        ensures
            self.normalized_of(r@),
    {
        normalize_selection(
            &self.ui.selected_block_indices,
            self.ui.selected_block_index,
            self.objects.len(),
        )
    }

    /// Deselects every block.
    pub fn clear_block_selection(&mut self)
        ensures
            final(self).ui.selected_block_index is None,
            final(self).ui.selected_block_indices@.len() == 0,
            final(self).ui.hovered_block_index == old(self).ui.hovered_block_index,
            final(self).ui.cursor == old(self).ui.cursor,
            final(self).ui.mode == old(self).ui.mode,
            final(self).ui.ctrl_held == old(self).ui.ctrl_held,
            final(self).ui.marquee_start_screen == old(self).ui.marquee_start_screen,
            final(self).objects == old(self).objects,
            final(self).config == old(self).config,
            final(self).spawn == old(self).spawn,
            final(self).drag == old(self).drag,
            final(self).samples_valid == old(self).samples_valid,
    {
        self.ui.selected_block_index = None;
        self.ui.selected_block_indices = Vec::new();
    }

    /// Switches the editor mode, ending any drag or marquee; entering place
    /// mode also drops the selection and the hover.
    pub fn set_mode(&mut self, mode: EditorMode)
        ensures
            final(self).ui.mode == mode,
            final(self).drag is None,
            final(self).ui.marquee_start_screen is None,
            mode == EditorMode::Place ==> {
                &&& final(self).ui.selected_block_index is None
                &&& final(self).ui.selected_block_indices@.len() == 0
                &&& final(self).ui.hovered_block_index is None
            },
            mode != EditorMode::Place ==> {
                &&& final(self).ui.selected_block_index == old(self).ui.selected_block_index
                &&& final(self).ui.selected_block_indices == old(self).ui.selected_block_indices
                &&& final(self).ui.hovered_block_index == old(self).ui.hovered_block_index
            },
            final(self).ui.cursor == old(self).ui.cursor,
            final(self).ui.ctrl_held == old(self).ui.ctrl_held,
            final(self).objects == old(self).objects,
            final(self).config == old(self).config,
            final(self).spawn == old(self).spawn,
            final(self).samples_valid == old(self).samples_valid,
    {
        self.ui.mode = mode;
        self.drag = None;
        self.ui.marquee_start_screen = None;
        if mode == EditorMode::Place {
            self.ui.selected_block_index = None;
            self.ui.selected_block_indices = Vec::new();
            self.ui.hovered_block_index = None;
        }
    }

    /// Grid snapping applies unless Ctrl is held.
    pub fn effective_snap_to_grid(&self) -> (r: bool)
        ensures
            r == (self.config.snap_to_grid && !self.ui.ctrl_held),
    {
        self.config.snap_to_grid && !self.ui.ctrl_held
    }

    /// Rotation snapping applies unless Ctrl is held.
    pub fn effective_snap_rotation(&self) -> (r: bool)
        ensures
            r == (self.config.snap_rotation && !self.ui.ctrl_held),
    {
        self.config.snap_rotation && !self.ui.ctrl_held
    }

    /// Sets the grid step, raised to the smallest step when below it.
    pub fn set_snap_step(&mut self, step: i64)
        ensures
            final(self).config.snap_step == effective_step(step),
            final(self).config.snap_to_grid == old(self).config.snap_to_grid,
            final(self).config.snap_rotation == old(self).config.snap_rotation,
            final(self).objects == old(self).objects,
            final(self).ui == old(self).ui,
            final(self).spawn == old(self).spawn,
            final(self).drag == old(self).drag,
            final(self).samples_valid == old(self).samples_valid,
    {
        self.config.snap_step = clamp_snap_step(step);
    }

    /// The configured grid step.
    pub fn snap_step(&self) -> (r: i64)
        ensures
            r == self.config.snap_step,
    {
        self.config.snap_step
    }

    /// Moves every selected block by `world_dx` along x and `world_dz` along
    /// z and puts the cursor on the anchor block; false, with nothing
    /// changed, when no block is selected.
    pub fn nudge_selected(&mut self, world_dx: i64, world_dz: i64) -> (moved: bool)
        requires
            nudge_fits(old(self).objects@, world_dx, world_dz),
        ensures
            exists|sel: Seq<usize>| {
                &&& old(self).normalized_of(sel)
                &&& moved == (sel.len() > 0)
                &&& if sel.len() == 0 {
                    *final(self) == *old(self)
                } else {
                    &&& final(self).objects@.len() == old(self).objects@.len()
                    &&& forall|i: int|
                        0 <= i < old(self).objects@.len() ==> #[trigger] final(self).objects@[i]
                            == if sel.contains(i as usize) {
                            nudged(old(self).objects@[i], world_dx, world_dz)
                        } else {
                            old(self).objects@[i]
                        }
                    &&& final(self).ui.cursor == cursor_on(
                        final(self).objects@[anchor_index(sel, old(self).ui.selected_block_index) as int],
                    )
                    &&& !final(self).samples_valid
                    &&& final(self).ui.selected_block_index == old(self).ui.selected_block_index
                    &&& final(self).ui.selected_block_indices == old(self).ui.selected_block_indices
                    &&& final(self).ui.hovered_block_index == old(self).ui.hovered_block_index
                    &&& final(self).ui.mode == old(self).ui.mode
                    &&& final(self).ui.ctrl_held == old(self).ui.ctrl_held
                    &&& final(self).ui.marquee_start_screen == old(self).ui.marquee_start_screen
                    &&& final(self).config == old(self).config
                    &&& final(self).spawn == old(self).spawn
                    &&& final(self).drag == old(self).drag
                }
            },
    {
        let sel = self.selected_indices_normalized();
        if sel.len() == 0 {
            return false;
        }
        proof {
            lemma_normalized_in_range(
                sel@,
                self.ui.selected_block_indices@,
                self.ui.selected_block_index,
                self.objects@.len(),
            );
        }
        let ghost old_objs = self.objects@;
        let mut k: usize = 0;
        while k < sel.len()
            invariant
                k <= sel.len(),
                strictly_increasing_usize(sel@),
                forall|i: int| 0 <= i < sel@.len() ==> sel@[i] < old_objs.len(),
                nudge_fits(old_objs, world_dx, world_dz),
                self.objects@.len() == old_objs.len(),
                forall|i: int|
                    0 <= i < old_objs.len() ==> #[trigger] self.objects@[i] == if sel@.subrange(
                        0,
                        k as int,
                    ).contains(i as usize) {
                        nudged(old_objs[i], world_dx, world_dz)
                    } else {
                        old_objs[i]
                    },
                self.ui == old(self).ui,
                self.config == old(self).config,
                self.spawn == old(self).spawn,
                self.drag == old(self).drag,
                self.samples_valid == old(self).samples_valid,
            decreases sel.len() - k,
        {
            let idx = sel[k];
            let o = self.objects[idx];
            proof {
                assert(!sel@.subrange(0, k as int).contains(idx)) by {
                    if sel@.subrange(0, k as int).contains(idx) {
                        let j = choose|j: int| 0 <= j < k && sel@.subrange(0, k as int)[j] == idx;
                        assert(sel@[j] < sel@[k as int]);
                    }
                }
                assert(o == old_objs[idx as int]);
            }
            let moved_obj = LevelObject {
                position: Vec3i {
                    x: o.position.x + world_dx,
                    y: o.position.y,
                    z: o.position.z + world_dz,
                },
                size: o.size,
                kind: o.kind,
                yaw_degrees: o.yaw_degrees,
            };
            self.objects.set(idx, moved_obj);
            proof {
                let s0 = sel@.subrange(0, k as int);
                let s1 = sel@.subrange(0, k + 1);
                assert forall|i: int| 0 <= i < old_objs.len() implies #[trigger] self.objects@[i]
                    == if s1.contains(i as usize) {
                    nudged(old_objs[i], world_dx, world_dz)
                } else {
                    old_objs[i]
                } by {
                    assert(old_objs.len() == self.objects.len());
                    assert((i as usize) as int == i);
                    if i == idx {
                        assert(s1[k as int] == idx);
                    } else {
                        if s1.contains(i as usize) {
                            let j = choose|j: int| 0 <= j < s1.len() && s1[j] == i as usize;
                            assert(s1[k as int] == idx);
                            assert(j != k);
                            assert(s0[j] == i as usize);
                        }
                        if s0.contains(i as usize) {
                            let j = choose|j: int| 0 <= j < s0.len() && s0[j] == i as usize;
                            assert(s1[j] == i as usize);
                        }
                    }
                }
            }
            k = k + 1;
        }
        assert(sel@.subrange(0, sel@.len() as int) == sel@);
        let anchor = anchor_of(&sel, self.ui.selected_block_index);
        let a = self.objects[anchor];
        self.ui.cursor = Vec3i {
            x: a.position.x,
            y: if a.position.y < 0 { 0 } else { a.position.y },
            z: a.position.z,
        };
        self.samples_valid = false;
        true
    }

    /// Snaps every selected block to the grid (the configured step, at least
    /// the smallest step) and puts the cursor on the anchor block; returns
    /// whether any block moved. Nothing changes when no block is selected.
    pub fn snap_selected_blocks_to_grid(&mut self) -> (changed: bool)
        requires
            forall|i: int|
                0 <= i < old(self).objects@.len() ==> snappable_point(
                    #[trigger] old(self).objects@[i].position,
                ),
            old(self).config.snap_step <= SNAP_STEP_LIMIT,
        ensures
            exists|sel: Seq<usize>| {
                &&& old(self).normalized_of(sel)
                &&& if sel.len() == 0 {
                    &&& !changed
                    &&& *final(self) == *old(self)
                } else {
                    let step = effective_step(old(self).config.snap_step);
                    &&& changed == exists|j: int|
                        0 <= j < sel.len() && snap_cell_spec(
                            old(self).objects@[#[trigger] sel[j] as int].position,
                            step,
                        ) != old(self).objects@[sel[j] as int].position
                    &&& final(self).objects@.len() == old(self).objects@.len()
                    &&& forall|i: int|
                        0 <= i < old(self).objects@.len() ==> #[trigger] final(self).objects@[i]
                            == if sel.contains(i as usize) {
                            snapped(old(self).objects@[i], step)
                        } else {
                            old(self).objects@[i]
                        }
                    &&& final(self).ui.cursor == cursor_on(
                        final(self).objects@[anchor_index(sel, old(self).ui.selected_block_index) as int],
                    )
                    &&& final(self).samples_valid == (old(self).samples_valid && !changed)
                    &&& final(self).ui.selected_block_index == old(self).ui.selected_block_index
                    &&& final(self).ui.selected_block_indices == old(self).ui.selected_block_indices
                    &&& final(self).ui.hovered_block_index == old(self).ui.hovered_block_index
                    &&& final(self).ui.mode == old(self).ui.mode
                    &&& final(self).ui.ctrl_held == old(self).ui.ctrl_held
                    &&& final(self).ui.marquee_start_screen == old(self).ui.marquee_start_screen
                    &&& final(self).config == old(self).config
                    &&& final(self).spawn == old(self).spawn
                    &&& final(self).drag == old(self).drag
                }
            },
    {
        let sel = self.selected_indices_normalized();
        if sel.len() == 0 {
            return false;
        }
        proof {
            lemma_normalized_in_range(
                sel@,
                self.ui.selected_block_indices@,
                self.ui.selected_block_index,
                self.objects@.len(),
            );
        }
        let step = clamp_snap_step(self.config.snap_step);
        let ghost old_objs = self.objects@;
        let changed = snap_blocks(&mut self.objects, &sel, step, UpAxis::Y);
        proof {
            assert forall|i: int| 0 <= i < old_objs.len() implies #[trigger] self.objects@[i]
                == if sel@.contains(i as usize) {
                snapped(old_objs[i], step)
            } else {
                old_objs[i]
            } by {}
            if changed {
                let j = choose|j: int|
                    0 <= j < sel@.len() && snap_point_up(old_objs[#[trigger] sel@[j] as int].position, step, UpAxis::Y)
                        != old_objs[sel@[j] as int].position;
                assert(snap_cell_spec(old_objs[sel@[j] as int].position, step) != old_objs[sel@[j] as int].position);
            }
        }
        let anchor = anchor_of(&sel, self.ui.selected_block_index);
        let a = self.objects[anchor];
        self.ui.cursor = Vec3i {
            x: a.position.x,
            y: if a.position.y < 0 { 0 } else { a.position.y },
            z: a.position.z,
        };
        if changed {
            self.samples_valid = false;
        }
        changed
    }

    /// Removes the selected blocks and clears the selection; with nothing
    /// selected, removes the topmost block under the cursor cell instead.
    /// Returns whether a block was removed.
    pub fn remove_selected(&mut self) -> (removed: bool)
        ensures
            exists|sel: Seq<usize>| {
                &&& old(self).normalized_of(sel)
                &&& if sel.len() > 0 {
                    &&& removed
                    &&& final(self).objects@ == without_indices(old(self).objects@, sel)
                    &&& final(self).ui.selected_block_index is None
                    &&& final(self).ui.selected_block_indices@.len() == 0
                    &&& !final(self).samples_valid
                    &&& final(self).ui.hovered_block_index == old(self).ui.hovered_block_index
                    &&& final(self).ui.cursor == old(self).ui.cursor
                    &&& final(self).ui.mode == old(self).ui.mode
                    &&& final(self).ui.ctrl_held == old(self).ui.ctrl_held
                    &&& final(self).ui.marquee_start_screen == old(self).ui.marquee_start_screen
                    &&& final(self).config == old(self).config
                    &&& final(self).spawn == old(self).spawn
                    &&& final(self).drag == old(self).drag
                } else {
                    exists|top: Option<usize>| {
                        &&& is_topmost_at(old(self).objects@, old(self).ui.cursor, UpAxis::Y, top)
                        &&& match top {
                            Some(i) => {
                                &&& removed
                                &&& final(self).objects@ == old(self).objects@.remove(i as int)
                                &&& !final(self).samples_valid
                                &&& final(self).ui == old(self).ui
                                &&& final(self).config == old(self).config
                                &&& final(self).spawn == old(self).spawn
                                &&& final(self).drag == old(self).drag
                            },
                            None => !removed && *final(self) == *old(self),
                        }
                    }
                }
            },
    {
        let sel = self.selected_indices_normalized();
        if sel.len() > 0 {
            self.objects = remove_indices(&self.objects, &sel);
            self.clear_block_selection();
            self.samples_valid = false;
            return true;
        }
        let top = topmost_block_index(&self.objects, self.ui.cursor, UpAxis::Y);
        match top {
            Some(i) => {
                self.objects.remove(i);
                self.samples_valid = false;
                true
            },
            None => false,
        }
    }

    /// Moves the spawn point to the cursor.
    pub fn set_spawn_here(&mut self)
        ensures
            final(self).spawn.position == old(self).ui.cursor,
            final(self).spawn.direction == old(self).spawn.direction,
            !final(self).samples_valid,
            final(self).objects == old(self).objects,
            final(self).ui == old(self).ui,
            final(self).config == old(self).config,
            final(self).drag == old(self).drag,
    {
        self.spawn.position = self.ui.cursor;
        self.samples_valid = false;
    }

    /// Flips the spawn direction between forward and right.
    pub fn rotate_spawn_direction(&mut self)
        ensures
            final(self).spawn.direction == (if old(self).spawn.direction == SpawnDirection::Forward {
                SpawnDirection::Right
            } else {
                SpawnDirection::Forward
            }),
            final(self).spawn.position == old(self).spawn.position,
            !final(self).samples_valid,
            final(self).objects == old(self).objects,
            final(self).ui == old(self).ui,
            final(self).config == old(self).config,
            final(self).drag == old(self).drag,
    {
        self.spawn.direction = toggle_spawn_direction(self.spawn.direction);
        self.samples_valid = false;
    }

    /// The distance one cursor step covers: the grid step when snapping
    /// applies, else one cell.
    pub open spec fn cursor_step(&self) -> i64 {
        if self.config.snap_to_grid && !self.ui.ctrl_held {
            effective_step(self.config.snap_step)
        } else {
            CELL
        }
    }

    /// Moves the cursor by `dx` steps along x and `dy` steps along z.
    pub fn move_cursor(&mut self, dx: i32, dy: i32)
        requires
            i64::MIN <= old(self).ui.cursor.x + dx * old(self).cursor_step() <= i64::MAX,
            i64::MIN <= old(self).ui.cursor.z + dy * old(self).cursor_step() <= i64::MAX,
        ensures
            final(self).ui.cursor == (Vec3i {
                x: (old(self).ui.cursor.x + dx * old(self).cursor_step()) as i64,
                y: old(self).ui.cursor.y,
                z: (old(self).ui.cursor.z + dy * old(self).cursor_step()) as i64,
            }),
            final(self).ui.selected_block_index == old(self).ui.selected_block_index,
            final(self).ui.selected_block_indices == old(self).ui.selected_block_indices,
            final(self).ui.hovered_block_index == old(self).ui.hovered_block_index,
            final(self).ui.mode == old(self).ui.mode,
            final(self).ui.ctrl_held == old(self).ui.ctrl_held,
            final(self).ui.marquee_start_screen == old(self).ui.marquee_start_screen,
            final(self).objects == old(self).objects,
            final(self).config == old(self).config,
            final(self).spawn == old(self).spawn,
            final(self).drag == old(self).drag,
            final(self).samples_valid == old(self).samples_valid,
    {
        let step: i64 = if self.effective_snap_to_grid() {
            clamp_snap_step(self.config.snap_step)
        } else {
            CELL
        };
        let sx: i128 = dx as i128 * step as i128;
        let sy: i128 = dy as i128 * step as i128;
        proof {
            assert(-0x8000_0000 <= dx <= 0x7fff_ffff);
            assert(1 <= step);
        }
        self.ui.cursor.x = (self.ui.cursor.x as i128 + sx) as i64;
        self.ui.cursor.z = (self.ui.cursor.z as i128 + sy) as i64;
    }

}

} // verus!
