use vstd::prelude::*;
use crate::editor_subsystem::{anchor_index, anchor_of};
use crate::fixed::clamp_snap_step;
use crate::selection::lemma_normalized_in_range;
use crate::sorted::strictly_increasing_usize;
use crate::state::{EditorView, State, StateView};
use crate::state_snap::{grounded, grounded_exec};
use crate::types::{AppPhase, LevelObject, Vec3i, CELL};

verus! {

/// -1, 0 or 1 after the sign of `v`.
pub open spec fn sign_of(v: int) -> int {
    if v > 0 { 1 } else if v < 0 { -1 } else { 0 }
}

/// The magnitude of `v`.
pub open spec fn abs_int(v: int) -> int {
    if v < 0 { -v } else { v }
}

/// The grid direction of a nudge: the arrow `(dx, dy)` taken along the
/// camera's `right` and `up` ground directions (the nearest cardinal
/// directions, which the shell finds from the camera), then cut to one
/// step along the dominant axis (x on a tie).
pub open spec fn nudge_direction(dx: i32, dy: i32, right: (i32, i32), up: (i32, i32)) -> (int, int) {
    let wx = right.0 * dx + up.0 * dy;
    let wy = right.1 * dx + up.1 * dy;
    if abs_int(wx) > abs_int(wy) {
        (sign_of(wx), 0)
    } else if abs_int(wy) > abs_int(wx) {
        (0, sign_of(wy))
    } else if wx != 0 {
        (sign_of(wx), 0)
    } else {
        (0, sign_of(wy))
    }
}

/// The block moved by `ox` along x and `oy` along z across the ground
/// (its height, along y, kept).
pub open spec fn shifted(o: LevelObject, ox: int, oy: int) -> LevelObject {
    LevelObject {
        position: Vec3i { x: (o.position.x + ox) as i64, y: o.position.y, z: (o.position.z + oy) as i64 },
        ..o
    }
}

/// The blocks with those at the indices of `sel` shifted.
pub open spec fn shifted_all(objs: Seq<LevelObject>, sel: Seq<usize>, ox: int, oy: int) -> Seq<LevelObject> {
    Seq::new(objs.len(), |i: int| if sel.contains(i as usize) { shifted(objs[i], ox, oy) } else { objs[i] })
}

/// Shifting the blocks at the indices of `sel` stays within machine
/// integers.
pub open spec fn shift_fits(objs: Seq<LevelObject>, sel: Seq<usize>, ox: int, oy: int) -> bool {
    forall|j: int|
        0 <= j < sel.len() ==> i64::MIN <= #[trigger] objs[sel[j] as int].position.x + ox <= i64::MAX
            && i64::MIN <= objs[sel[j] as int].position.z + oy <= i64::MAX
}

impl StateView {
    /// The grid snapping in effect: on unless Ctrl is held.
    pub open spec fn snapping_in_effect(self) -> bool {
        self.editor.snap_to_grid && !self.input.ctrl_held
    }

    /// How far a nudge moves the selection across the ground: one grid
    /// step (one cell without snapping) in `nudge_direction`.
    pub open spec fn nudge_offset(self, dx: i32, dy: i32, right: (i32, i32), up: (i32, i32)) -> (int, int) {
        let step: int = if self.snapping_in_effect() { self.grid_step() as int } else { CELL as int };
        let (sx, sy) = nudge_direction(dx, dy, right, up);
        (sx * step, sy * step)
    }

    /// Nudging the selection by an arrow `(dx, dy)` in the editor: nothing
    /// for no arrow or when a selected block would leave the machine
    /// integers; else recording, then every selected block shifted by
    /// `nudge_offset`, the cursor on the anchor block's corner (its height
    /// raised to zero) and the
    /// selection normalized (recording happens with nothing selected too).
    #[verifier::opaque]
    pub open spec fn after_nudge(self, dx: i32, dy: i32, right: (i32, i32), up: (i32, i32)) -> StateView {
        let (ox, oy) = self.nudge_offset(dx, dy, right, up);
        if self.phase != AppPhase::Editor || (dx == 0 && dy == 0) || !shift_fits(
            self.editor.objects,
            self.norm_sel(),
            ox,
            oy,
        ) {
            self
        } else {
            let t = self.after_record();
            let sel = t.norm_sel();
            if sel.len() == 0 {
                t
            } else {
                let objs = shifted_all(t.editor.objects, sel, ox, oy);
                let a = objs[anchor_index(sel, t.editor.selected_block_index) as int].position;
                t.with_editor(EditorView { objects: objs, cursor: grounded(a), ..t.editor })
                    .after_sync_objects()
            }
        }
    }

    /// A nudge moves blocks: in the editor, with an arrow, some block
    /// selected and the shift within machine integers.
    pub open spec fn nudge_moves(self, dx: i32, dy: i32, right: (i32, i32), up: (i32, i32)) -> bool {
        let (ox, oy) = self.nudge_offset(dx, dy, right, up);
        &&& self.phase == AppPhase::Editor
        &&& !(dx == 0 && dy == 0)
        &&& shift_fits(self.editor.objects, self.norm_sel(), ox, oy)
        &&& self.norm_sel().len() > 0
    }
}

fn sign_i128(v: i128) -> (r: i64)
    ensures
        r == sign_of(v as int),
{
    if v > 0 {
        1
    } else if v < 0 {
        -1
    } else {
        0
    }
}

fn mul_i32(a: i32, b: i32) -> (r: i128)
    ensures
        r == a * b,
        -0x4000_0000_0000_0000 <= r <= 0x4000_0000_0000_0000,
{
    proof {
        assert(-0x4000_0000_0000_0000 <= a * b <= 0x4000_0000_0000_0000) by (nonlinear_arith)
            requires
                -0x8000_0000 <= a <= 0x7fff_ffff,
                -0x8000_0000 <= b <= 0x7fff_ffff,
        ;
    }
    a as i128 * b as i128
}

/// The grid direction of a nudge (see `nudge_direction`).
pub fn nudge_direction_exec(dx: i32, dy: i32, right: (i32, i32), up: (i32, i32)) -> (r: (i64, i64))
    ensures
        r.0 == nudge_direction(dx, dy, right, up).0,
        r.1 == nudge_direction(dx, dy, right, up).1,
{
    let wx: i128 = mul_i32(right.0, dx) + mul_i32(up.0, dy);
    let wy: i128 = mul_i32(right.1, dx) + mul_i32(up.1, dy);
    let ax: i128 = if wx < 0 { 0 - wx } else { wx };
    let ay: i128 = if wy < 0 { 0 - wy } else { wy };
    if ax > ay {
        (sign_i128(wx), 0)
    } else if ay > ax {
        (0, sign_i128(wy))
    } else if wx != 0 {
        (sign_i128(wx), 0)
    } else {
        (0, sign_i128(wy))
    }
}

fn shift_fits_exec(objs: &Vec<LevelObject>, sel: &Vec<usize>, ox: i64, oy: i64) -> (r: bool)
    requires
        forall|i: int| 0 <= i < sel@.len() ==> #[trigger] sel@[i] < objs@.len(),
    ensures
        r == shift_fits(objs@, sel@, ox as int, oy as int),
{
    let mut k: usize = 0;
    while k < sel.len()
        invariant
            k <= sel.len(),
            forall|i: int| 0 <= i < sel@.len() ==> #[trigger] sel@[i] < objs@.len(),
            forall|j: int|
                0 <= j < k ==> i64::MIN <= #[trigger] objs@[sel@[j] as int].position.x + ox <= i64::MAX
                    && i64::MIN <= objs@[sel@[j] as int].position.z + oy <= i64::MAX,
        decreases sel.len() - k,
    {
        let p = objs[sel[k]].position;
        let x = p.x as i128 + ox as i128;
        let y = p.z as i128 + oy as i128;
        if x < i64::MIN as i128 || x > i64::MAX as i128 || y < i64::MIN as i128 || y > i64::MAX as i128 {
            return false;
        }
        k = k + 1;
    }
    true
}

fn shift_blocks(objects: &mut Vec<LevelObject>, sel: &Vec<usize>, ox: i64, oy: i64)
    requires
        strictly_increasing_usize(sel@),
        forall|i: int| 0 <= i < sel@.len() ==> #[trigger] sel@[i] < old(objects)@.len(),
        shift_fits(old(objects)@, sel@, ox as int, oy as int),
    ensures
        final(objects)@ == shifted_all(old(objects)@, sel@, ox as int, oy as int),
{
    let ghost old_objs = objects@;
    let mut k: usize = 0;
    while k < sel.len()
        invariant
            k <= sel.len(),
            strictly_increasing_usize(sel@),
            forall|i: int| 0 <= i < sel@.len() ==> #[trigger] sel@[i] < old_objs.len(),
            shift_fits(old_objs, sel@, ox as int, oy as int),
            objects@.len() == old_objs.len(),
            old_objs.len() == objects.len(),
            forall|i: int|
                0 <= i < old_objs.len() ==> #[trigger] objects@[i] == if sel@.subrange(0, k as int).contains(
                    i as usize,
                ) {
                    shifted(old_objs[i], ox as int, oy as int)
                } else {
                    old_objs[i]
                },
        decreases sel.len() - k,
    {
        let idx = sel[k];
        let o = objects[idx];
        proof {
            assert(!sel@.subrange(0, k as int).contains(idx)) by {
                if sel@.subrange(0, k as int).contains(idx) {
                    let j = choose|j: int| 0 <= j < k && sel@.subrange(0, k as int)[j] == idx;
                    assert(sel@[j] < sel@[k as int]);
                }
            }
            assert(o == old_objs[idx as int]);
            assert(i64::MIN <= old_objs[sel@[k as int] as int].position.x + ox <= i64::MAX);
        }
        let next = LevelObject {
            position: Vec3i { x: o.position.x + ox, y: o.position.y, z: o.position.z + oy },
            ..o
        };
        objects.set(idx, next);
        proof {
            let s0 = sel@.subrange(0, k as int);
            let s1 = sel@.subrange(0, k + 1);
            assert forall|i: int| 0 <= i < old_objs.len() implies #[trigger] objects@[i] == if s1.contains(
                i as usize,
            ) {
                shifted(old_objs[i], ox as int, oy as int)
            } else {
                old_objs[i]
            } by {
                assert((i as usize) as int == i);
                if i == idx {
                    assert(s1[k as int] == idx);
                } else {
                    if s1.contains(i as usize) {
                        let j = choose|j: int| 0 <= j < s1.len() && s1[j] == i as usize;
                        assert(s1[k as int] == idx);
                        assert(j != k);
                        assert(s0[j] == i as usize);
                    }
                    if s0.contains(i as usize) {
                        let j = choose|j: int| 0 <= j < s0.len() && s0[j] == i as usize;
                        assert(s1[j] == i as usize);
                    }
                }
            }
        }
        k = k + 1;
    }
    assert(sel@.subrange(0, sel@.len() as int) == sel@);
    assert(objects@ =~= shifted_all(old_objs, sel@, ox as int, oy as int));
}

/// A block's box: its minimum and maximum corners.
pub open spec fn block_box(o: LevelObject) -> ((int, int, int), (int, int, int)) {
    let p = o.position;
    let z = o.size;
    ((p.x as int, p.y as int, p.z as int), (p.x + z.x, p.y + z.y, p.z + z.z))
}

/// The smaller and the larger of each pair of coordinates.
pub open spec fn merged_box(
    a: ((int, int, int), (int, int, int)),
    b: ((int, int, int), (int, int, int)),
) -> ((int, int, int), (int, int, int)) {
    let lo = |u: int, v: int| if u < v { u } else { v };
    let hi = |u: int, v: int| if u < v { v } else { u };
    (
        (lo(a.0.0, b.0.0), lo(a.0.1, b.0.1), lo(a.0.2, b.0.2)),
        (hi(a.1.0, b.1.0), hi(a.1.1, b.1.1), hi(a.1.2, b.1.2)),
    )
}

/// The box around the blocks at the indices of `sel` (not empty).
pub open spec fn group_box(objs: Seq<LevelObject>, sel: Seq<usize>) -> ((int, int, int), (int, int, int))
    decreases sel.len(),
{
    if sel.len() <= 1 {
        block_box(objs[sel[0] as int])
    } else {
        merged_box(group_box(objs, sel.drop_last()), block_box(objs[sel.last() as int]))
    }
}

/// Every block's corner and extent lie within the drag range.
pub open spec fn blocks_in_drag_range(objs: Seq<LevelObject>) -> bool {
    forall|i: int|
        0 <= i < objs.len() ==> crate::drag::point_in_drag_range(#[trigger] objs[i].position)
            && crate::drag::point_in_drag_range(objs[i].size)
}

impl StateView {
    /// The box around the selected blocks as its corner and extent, or
    /// `None` with nothing selected.
    pub open spec fn selected_group_bounds(self) -> Option<(Vec3i, Vec3i)> {
        let sel = self.norm_sel();
        if sel.len() == 0 {
            None
        } else {
            let (lo, hi) = group_box(self.editor.objects, sel);
            Some(
                (
                    Vec3i { x: lo.0 as i64, y: lo.1 as i64, z: lo.2 as i64 },
                    Vec3i { x: (hi.0 - lo.0) as i64, y: (hi.1 - lo.1) as i64, z: (hi.2 - lo.2) as i64 },
                ),
            )
        }
    }
}

proof fn lemma_group_box_range(objs: Seq<LevelObject>, sel: Seq<usize>)
    requires
        blocks_in_drag_range(objs),
        sel.len() > 0,
        forall|i: int| 0 <= i < sel.len() ==> #[trigger] sel[i] < objs.len(),
    ensures
        ({
            let (lo, hi) = group_box(objs, sel);
            &&& -crate::drag::DRAG_LIMIT <= lo.0 <= crate::drag::DRAG_LIMIT
            &&& -crate::drag::DRAG_LIMIT <= lo.1 <= crate::drag::DRAG_LIMIT
            &&& -crate::drag::DRAG_LIMIT <= lo.2 <= crate::drag::DRAG_LIMIT
            &&& -2 * crate::drag::DRAG_LIMIT <= hi.0 <= 2 * crate::drag::DRAG_LIMIT
            &&& -2 * crate::drag::DRAG_LIMIT <= hi.1 <= 2 * crate::drag::DRAG_LIMIT
            &&& -2 * crate::drag::DRAG_LIMIT <= hi.2 <= 2 * crate::drag::DRAG_LIMIT
        }),
    decreases sel.len(),
{
    assert(crate::drag::point_in_drag_range(objs[sel[0] as int].position));
    assert(crate::drag::point_in_drag_range(objs[sel[0] as int].size));
    if sel.len() > 1 {
        let s = sel.drop_last();
        assert forall|i: int| 0 <= i < s.len() implies #[trigger] s[i] < objs.len() by {
            assert(s[i] == sel[i]);
        }
        lemma_group_box_range(objs, s);
        assert(sel.last() == sel[sel.len() - 1]);
        assert(crate::drag::point_in_drag_range(objs[sel.last() as int].position));
        assert(crate::drag::point_in_drag_range(objs[sel.last() as int].size));
    }
}

impl State {
    /// The box around the selected blocks as its corner and extent (see
    /// `StateView::selected_group_bounds`).
    pub fn selected_group_bounds(&self) -> (r: Option<(Vec3i, Vec3i)>)
        requires
            blocks_in_drag_range(self@.editor.objects),
        ensures
            r == self@.selected_group_bounds(),
    {
        let sel = self.selected_block_indices_normalized();
        if sel.len() == 0 {
            return None;
        }
        proof {
            lemma_normalized_in_range(
                sel@,
                self@.editor.selected_block_indices,
                self@.editor.selected_block_index,
                self@.editor.objects.len(),
            );
        }
        let ghost objs = self@.editor.objects;
        let first = self.editor.objects[sel[0]];
        proof {
            assert(crate::drag::point_in_drag_range(objs[sel@[0] as int].position));
            assert(crate::drag::point_in_drag_range(objs[sel@[0] as int].size));
            assert(sel@.subrange(0, 1).len() == 1 && sel@.subrange(0, 1)[0] == sel@[0]);
        }
        let mut lo = first.position;
        let mut hi = Vec3i {
            x: first.position.x + first.size.x,
            y: first.position.y + first.size.y,
            z: first.position.z + first.size.z,
        };
        let mut k: usize = 1;
        while k < sel.len()
            invariant
                1 <= k <= sel.len(),
                objs == self@.editor.objects,
                blocks_in_drag_range(objs),
                forall|i: int| 0 <= i < sel@.len() ==> #[trigger] sel@[i] < objs.len(),
                group_box(objs, sel@.subrange(0, k as int)) == (
                    (lo.x as int, lo.y as int, lo.z as int),
                    (hi.x as int, hi.y as int, hi.z as int),
                ),
            decreases sel.len() - k,
        {
            let o = self.editor.objects[sel[k]];
            proof {
                let sub = sel@.subrange(0, k + 1);
                assert(sub.drop_last() == sel@.subrange(0, k as int));
                assert(sub.last() == sel@[k as int]);
                assert forall|i: int| 0 <= i < sel@.subrange(0, k as int).len() implies #[trigger] sel@.subrange(0, k as int)[i] < objs.len() by {}
                lemma_group_box_range(objs, sel@.subrange(0, k as int));
                assert(crate::drag::point_in_drag_range(objs[sel@[k as int] as int].position));
                assert(crate::drag::point_in_drag_range(objs[sel@[k as int] as int].size));
            }
            let ox = o.position.x + o.size.x;
            let oy = o.position.y + o.size.y;
            let oz = o.position.z + o.size.z;
            lo = Vec3i {
                x: if lo.x < o.position.x { lo.x } else { o.position.x },
                y: if lo.y < o.position.y { lo.y } else { o.position.y },
                z: if lo.z < o.position.z { lo.z } else { o.position.z },
            };
            hi = Vec3i {
                x: if hi.x < ox { ox } else { hi.x },
                y: if hi.y < oy { oy } else { hi.y },
                z: if hi.z < oz { oz } else { hi.z },
            };
            k = k + 1;
        }
        proof {
            assert(sel@.subrange(0, sel@.len() as int) == sel@);
            lemma_group_box_range(objs, sel@);
        }
        Some((lo, Vec3i { x: hi.x - lo.x, y: hi.y - lo.y, z: hi.z - lo.z }))
    }

    /// Nudges the selection by an arrow `(dx, dy)`, given the camera's
    /// nearest cardinal `right` and `up` ground directions (see
    /// `StateView::after_nudge`); returns whether blocks moved.
    pub fn editor_nudge_selected_blocks(&mut self, dx: i32, dy: i32, right: (i32, i32), up: (i32, i32)) -> (moved: bool)
        ensures
            moved == old(self)@.nudge_moves(dx, dy, right, up),
            final(self)@ == old(self)@.after_nudge(dx, dy, right, up),
    {
        proof {
            reveal(StateView::after_nudge);
        }
        if self.phase != AppPhase::Editor || (dx == 0 && dy == 0) {
            return false;
        }
        let (sx, sy) = nudge_direction_exec(dx, dy, right, up);
        let step: i64 = if self.editor.snap_to_grid && !self.input.ctrl_held {
            clamp_snap_step(self.editor.snap_step)
        } else {
            CELL
        };
        let ox: i64 = sx * step;
        let oy: i64 = sy * step;
        let sel = self.selected_block_indices_normalized();
        proof {
            lemma_normalized_in_range(
                sel@,
                self@.editor.selected_block_indices,
                self@.editor.selected_block_index,
                self@.editor.objects.len(),
            );
        }
        if !shift_fits_exec(&self.editor.objects, &sel, ox, oy) {
            return false;
        }
        self.record_editor_history_state();
        if sel.len() == 0 {
            return false;
        }
        let ghost t = self@;
        shift_blocks(&mut self.editor.objects, &sel, ox, oy);
        let anchor = anchor_of(&sel, self.editor.selected_block_index);
        let a = self.editor.objects[anchor].position;
        self.editor.cursor = grounded_exec(a);
        proof {
            let objs = shifted_all(t.editor.objects, sel@, ox as int, oy as int);
            assert(self@ == t.with_editor(
                EditorView {
                    objects: objs,
                    cursor: grounded(objs[anchor_index(sel@, t.editor.selected_block_index) as int].position),
                    ..t.editor
                },
            ));
        }
        self.sync_editor_objects();
        true
    }
}

} // verus!
