use vstd::prelude::*;
use crate::blocks::UpAxis;
use crate::editor_subsystem::anchor_index;
use crate::selection::{
    first_of, lemma_normalize_idempotent, lemma_normalized_exists, lemma_normalized_in_range,
    lemma_normalized_selection_is,
};
use crate::snapping::{lemma_snap_point_idempotent, snap_point_up, snapped_all, snapped_up};
use crate::state::{EditorView, StateView};
use crate::state_nudge::{nudge_direction, shifted, shifted_all};
use crate::state_snap::grounded;
use crate::drag::{
    dragged_corner, ground_clamped, lemma_anchor_in_range, moved_corner, in_drag_range, point_in_drag_range, starts_anchor, starts_in_range,
    DragBlockStart,
};
use crate::fixed::{lemma_snap_spec_bound, MIN_SNAP_STEP, SNAP_STEP_LIMIT};
use crate::types::{AppPhase, GizmoAxis, Vec3i};

verus! {

/// Normalizing the selection after a change of the blocks keeps the
/// normalized selection as it was.
proof fn lemma_sync_keeps_selection(u: StateView)
    ensures
        u.after_sync_objects().norm_sel() == u.norm_sel(),
        u.after_sync_objects().editor.objects == u.editor.objects,
        u.after_sync_objects().phase == u.phase,
        u.after_sync_objects().input == u.input,
        u.after_sync_objects().editor.snap_step == u.editor.snap_step,
        u.after_sync_objects().editor.snap_to_grid == u.editor.snap_to_grid,
{
    let n = u.editor.objects.len();
    let ns = u.norm_sel();
    lemma_normalized_exists(u.editor.selected_block_indices, u.editor.selected_block_index, n);
    lemma_normalize_idempotent(ns, u.editor.selected_block_indices, u.editor.selected_block_index, n);
    lemma_normalized_selection_is(ns, ns, first_of(ns), n);
}

/// Snapping the selection to the grid a second time changes nothing: every
/// selected block already lies on the grid.
pub proof fn law_snap_twice(s: StateView)
    requires
        s.snap_in_range(),
        s.norm_sel().len() > 0,
    ensures
        !s.after_snap_selection().selection_off_grid(),
        s.after_snap_selection().after_snap_selection() == s.after_snap_selection(),
{
    reveal(StateView::after_snap_selection);
    if s.phase == AppPhase::Editor && s.selection_off_grid() {
        let sel = s.norm_sel();
        let n = s.editor.objects.len();
        lemma_normalized_exists(s.editor.selected_block_indices, s.editor.selected_block_index, n);
        lemma_normalized_in_range(sel, s.editor.selected_block_indices, s.editor.selected_block_index, n);
        let r = s.after_record();
        let step = r.grid_step();
        let objs = snapped_all(r.editor.objects, sel, step, UpAxis::Y);
        let a = objs[anchor_index(sel, r.editor.selected_block_index) as int].position;
        let u = r.with_editor(EditorView { objects: objs, cursor: grounded(a), ..r.editor });
        lemma_sync_keeps_selection(u);
        let t = u.after_sync_objects();
        assert(u.norm_sel() == sel);
        assert(t == s.after_snap_selection());
        assert forall|j: int| 0 <= j < sel.len() implies snap_point_up(
            objs[#[trigger] sel[j] as int].position,
            step,
            UpAxis::Y,
        ) == objs[sel[j] as int].position by {
            let i = sel[j] as int;
            assert(sel.contains(sel[j]));
            assert(objs[i] == snapped_up(s.editor.objects[i], step, UpAxis::Y));
            lemma_snap_point_idempotent(s.editor.objects[i].position, step, UpAxis::Y);
        }
    }
}

/// Nudging the selection and then nudging it by the opposite arrow puts
/// every block back where it was (the block count of a state's view is a
/// vector length, so it fits in `usize`).
pub proof fn law_nudge_back(s: StateView, dx: i32, dy: i32, right: (i32, i32), up: (i32, i32))
    requires
        s.editor.objects.len() <= usize::MAX,
        s.nudge_moves(dx, dy, right, up),
        dx != i32::MIN,
        dy != i32::MIN,
    ensures
        s.after_nudge(dx, dy, right, up).after_nudge(-dx as i32, -dy as i32, right, up).editor.objects
            == s.editor.objects,
{
    reveal(StateView::after_nudge);
    let sel = s.norm_sel();
    let n = s.editor.objects.len();
    lemma_normalized_exists(s.editor.selected_block_indices, s.editor.selected_block_index, n);
    lemma_normalized_in_range(sel, s.editor.selected_block_indices, s.editor.selected_block_index, n);
    let (ox, oy) = s.nudge_offset(dx, dy, right, up);
    let r = s.after_record();
    let objs = shifted_all(r.editor.objects, sel, ox, oy);
    let a = objs[anchor_index(sel, r.editor.selected_block_index) as int].position;
    let u = r.with_editor(EditorView { objects: objs, cursor: grounded(a), ..r.editor });
    lemma_sync_keeps_selection(u);
    let t = u.after_sync_objects();
    assert(u.norm_sel() == sel);
    assert(t == s.after_nudge(dx, dy, right, up));
    let ndx = -dx as i32;
    let ndy = -dy as i32;
    assert(right.0 * ndx + up.0 * ndy == -(right.0 * dx + up.0 * dy)) by (nonlinear_arith)
        requires
            ndx == -dx,
            ndy == -dy,
    ;
    assert(right.1 * ndx + up.1 * ndy == -(right.1 * dx + up.1 * dy)) by (nonlinear_arith)
        requires
            ndx == -dx,
            ndy == -dy,
    ;
    let (sx, sy) = nudge_direction(dx, dy, right, up);
    assert(nudge_direction(ndx, ndy, right, up) == (-sx, -sy));
    let (px, py) = t.nudge_offset(ndx, ndy, right, up);
    assert(px == -ox && py == -oy) by (nonlinear_arith)
        requires
            px == -sx * (if t.snapping_in_effect() { t.grid_step() as int } else { crate::types::CELL as int }),
            ox == sx * (if s.snapping_in_effect() { s.grid_step() as int } else { crate::types::CELL as int }),
            py == -sy * (if t.snapping_in_effect() { t.grid_step() as int } else { crate::types::CELL as int }),
            oy == sy * (if s.snapping_in_effect() { s.grid_step() as int } else { crate::types::CELL as int }),
            t.snapping_in_effect() == s.snapping_in_effect(),
            t.grid_step() == s.grid_step(),
    ;
    assert forall|j: int| 0 <= j < sel.len() implies i64::MIN <= #[trigger] objs[sel[j] as int].position.x + px
        <= i64::MAX && i64::MIN <= objs[sel[j] as int].position.z + py <= i64::MAX by {
        assert(sel.contains(sel[j]));
    }
    assert(t.after_nudge(ndx, ndy, right, up).editor.objects == shifted_all(objs, sel, px, py));
    assert forall|i: int| 0 <= i < n implies #[trigger] shifted_all(objs, sel, px, py)[i]
        == s.editor.objects[i] by {
        if sel.contains(i as usize) {
            let j = choose|j: int| 0 <= j < sel.len() && sel[j] == i as usize;
            assert(sel[j] as int == i);
            assert(objs[i] == shifted(s.editor.objects[i], ox, oy));
        }
    }
    assert(shifted_all(objs, sel, px, py) =~= s.editor.objects);
}

/// The anchor's height is at most every dragged block's height.
proof fn lemma_anchor_lowest(starts: Seq<DragBlockStart>)
    ensures
        match starts_anchor(starts) {
            Some(a) => forall|i: int| 0 <= i < starts.len() ==> a.y <= #[trigger] starts[i].position.y,
            None => starts.len() == 0,
        },
    decreases starts.len(),
{
    if starts.len() > 0 {
        let s = starts.drop_last();
        lemma_anchor_lowest(s);
        match starts_anchor(starts) {
            Some(a) => {
                assert forall|i: int| 0 <= i < starts.len() implies a.y <= #[trigger] starts[i].position.y by {
                    if i < s.len() {
                        assert(s[i] == starts[i]);
                    }
                }
            },
            None => {},
        }
    }
}

/// Moving stacked blocks down with the gizmo without snapping keeps them
/// stacked: the lowest one stops at the ground and every height difference
/// between dragged blocks stays as it was (none is squeezed against the
/// ground on its own).
pub proof fn law_gizmo_move_keeps_stacking(starts: Seq<DragBlockStart>, d: i64, i: int, j: int)
    requires
        starts_in_range(starts),
        in_drag_range(d),
        forall|k: int| 0 <= k < starts.len() ==> #[trigger] starts[k].position.y >= 0,
        0 <= i < starts.len(),
        0 <= j < starts.len(),
    ensures
        ({
            let dd = ground_clamped(starts, d as int);
            let yi = moved_corner(starts[i].position, GizmoAxis::Y, dd, false, MIN_SNAP_STEP).y;
            let yj = moved_corner(starts[j].position, GizmoAxis::Y, dd, false, MIN_SNAP_STEP).y;
            &&& yi >= 0
            &&& yi - yj == starts[i].position.y - starts[j].position.y
        }),
{
    lemma_anchor_lowest(starts);
    lemma_anchor_in_range(starts);
    assert(point_in_drag_range(starts[i].position));
    assert(point_in_drag_range(starts[j].position));
    match starts_anchor(starts) {
        Some(a) => {
            assert(a.y <= starts[i].position.y);
            assert(a.y <= starts[j].position.y);
        },
        None => {},
    }
}

/// A block drag never leaves a dragged block below the ground: the height
/// change stops the lowest block at zero, and snapping or pinning only
/// raises heights that fall below it.
pub proof fn law_block_drag_keeps_ground(
    starts: Seq<DragBlockStart>,
    delta: Vec3i,
    surface: bool,
    snap: bool,
    step: i64,
    i: int,
)
    requires
        starts_in_range(starts),
        point_in_drag_range(delta),
        0 < step <= SNAP_STEP_LIMIT,
        0 <= i < starts.len(),
    ensures
        dragged_corner(starts[i].position, delta, ground_clamped(starts, delta.y as int), surface, snap, step).y
            >= 0,
{
    lemma_anchor_lowest(starts);
    lemma_anchor_in_range(starts);
    let p = starts[i].position;
    assert(point_in_drag_range(p));
    let dy = ground_clamped(starts, delta.y as int);
    match starts_anchor(starts) {
        Some(a) => {
            assert(a.y <= p.y);
        },
        None => {},
    }
    let y = p.y + dy;
    if !surface && snap {
        lemma_snap_spec_bound(if y < 0 { 0 } else { y }, step as int);
    }
}

} // verus!
