use vstd::prelude::*;
use crate::blocks::{is_topmost_at, lemma_topmost_is, UpAxis};
use crate::drag::{gizmo_dragged, moved_corner, DragBlockStart};
use crate::editor_subsystem::EditorSubsystem;
use crate::fixed::snap_spec;
use crate::selection::{lemma_members_below, lemma_normalized_exists, lemma_normalized_in_range, members_below, normalized_selection, is_normalized_selection, has_in_range};
use crate::sorted::strictly_increasing_u32;
use crate::state::{Effect, StateView};
use crate::state_explorer::{explorer_pick, explorer_selection};
use crate::taps::lemma_without_props;
use crate::types::{AppPhase, GizmoAxis, GizmoDragKind, Vec3i};

verus! {

/// The height of a corner kept at or above the ground.
pub open spec fn on_ground(y: i64) -> i64 {
    if y < 0 { 0 } else { y }
}

/// Moving a corner along a ground handle (x or z, either end) without
/// snapping shifts it by the distance along that axis alone: the other
/// ground coordinate keeps its start value and the height only rises to
/// the ground.
pub proof fn law_gizmo_move_along_ground_axis(p: Vec3i, axis: GizmoAxis, d: int, step: i64)
    requires
        axis != GizmoAxis::Y,
        axis != GizmoAxis::YNeg,
    ensures
        axis == GizmoAxis::X || axis == GizmoAxis::XNeg ==> moved_corner(p, axis, d, false, step)
            == (Vec3i { x: (p.x + d) as i64, y: on_ground(p.y), z: p.z }),
        axis == GizmoAxis::Z || axis == GizmoAxis::ZNeg ==> moved_corner(p, axis, d, false, step)
            == (Vec3i { x: p.x, y: on_ground(p.y), z: (p.z + d) as i64 }),
{
}

/// Whatever the snapping, the distance of a gizmo move changes only the
/// coordinate of the handle's axis: the two others come out as they would
/// for no move at all, and the moved one is the start moved by the
/// distance (then snapped when snapping).
pub proof fn law_gizmo_move_changes_only_its_axis(p: Vec3i, axis: GizmoAxis, d: int, snap: bool, step: i64)
    ensures
        ({
            let m = moved_corner(p, axis, d, snap, step);
            let z = moved_corner(p, axis, 0, snap, step);
            let snapped = |c: int| if snap { snap_spec(c, step as int) } else { c };
            &&& (axis == GizmoAxis::X || axis == GizmoAxis::XNeg) ==> m.y == z.y && m.z == z.z
                && m.x == snapped(p.x + d) as i64
            &&& (axis == GizmoAxis::Z || axis == GizmoAxis::ZNeg) ==> m.x == z.x && m.y == z.y
                && m.z == snapped(p.z + d) as i64
            &&& (axis == GizmoAxis::Y || axis == GizmoAxis::YNeg) ==> m.x == z.x && m.z == z.z
        }),
{
}

/// A gizmo move of one block along a ground handle, without snapping in
/// effect, puts the block's corner and the cursor at its start moved by the
/// distance along that axis (the height only raised to the ground), and
/// leaves every other block as it was.
pub proof fn law_gizmo_move_one_block(
    e: EditorSubsystem,
    f: EditorSubsystem,
    b: DragBlockStart,
    axis: GizmoAxis,
    delta: i64,
)
    requires
        gizmo_dragged(e, f, seq![b], GizmoDragKind::Move, axis, delta),
        b.index < e.objects@.len(),
        !e.drag_snaps(),
        axis != GizmoAxis::Y,
        axis != GizmoAxis::YNeg,
    ensures
        ({
            let p = b.position;
            let expected = if axis == GizmoAxis::X || axis == GizmoAxis::XNeg {
                Vec3i { x: (p.x + delta) as i64, y: on_ground(p.y), z: p.z }
            } else {
                Vec3i { x: p.x, y: on_ground(p.y), z: (p.z + delta) as i64 }
            };
            &&& f.objects@.len() == e.objects@.len()
            &&& f.objects@[b.index as int].position == expected
            &&& f.objects@[b.index as int].size == e.objects@[b.index as int].size
            &&& f.ui.cursor == expected
            &&& forall|j: int| 0 <= j < e.objects@.len() && j != b.index ==> f.objects@[j] == e.objects@[j]
        }),
{
    let s = seq![b];
    let step = crate::fixed::effective_step(e.config.snap_step);
    assert(s.drop_last() =~= Seq::<DragBlockStart>::empty());
    assert(s.last() == b);
    assert(!crate::drag::is_height_axis(axis));
    let objs = e.objects@;
    assert(crate::drag::after_gizmo_drag(objs, s.drop_last(), GizmoDragKind::Move, axis, delta as int, false, step) == objs);
    let moved = crate::types::LevelObject { position: moved_corner(b.position, axis, delta as int, false, step), ..objs[b.index as int] };
    assert(crate::drag::after_gizmo_drag(objs, s, GizmoDragKind::Move, axis, delta as int, false, step) == objs.update(b.index as int, moved));
    assert(crate::drag::first_dragged(s.drop_last(), objs.len()) is None);
    assert(crate::drag::first_dragged(s, objs.len()) == Some(b));
    law_gizmo_move_along_ground_axis(b.position, axis, delta as int, step);
}

/// Copying in the editor with no valid primary block takes the topmost
/// block under the cursor, whichever block that is; nothing else changes.
pub proof fn law_copy_takes_block_under_cursor(s: StateView, i: usize)
    requires
        s.phase == AppPhase::Editor,
        match s.editor.selected_block_index {
            Some(j) => j >= s.editor.objects.len(),
            None => true,
        },
        is_topmost_at(s.editor.objects, s.editor.cursor, UpAxis::Y, Some(i)),
    ensures
        s.after_copy_block().editor.clipboard == Some(s.editor.objects[i as int]),
        s.after_copy_block().editor.objects == s.editor.objects,
        s.after_copy_block().editor.selected_block_index == s.editor.selected_block_index,
        s.after_copy_block().history == s.history,
{
    reveal(StateView::after_copy_block);
    lemma_topmost_is(s.editor.objects, s.editor.cursor, UpAxis::Y, Some(i));
}

/// Copying in the editor with a valid primary block takes that block, and
/// with neither a primary block nor a block under the cursor leaves the
/// clipboard as it was.
pub proof fn law_copy_prefers_primary(s: StateView)
    requires
        s.phase == AppPhase::Editor,
    ensures
        forall|j: usize|
            s.editor.selected_block_index == Some(j) && j < s.editor.objects.len()
                ==> s.after_copy_block().editor.clipboard == Some(#[trigger] s.editor.objects[j as int]),
        (match s.editor.selected_block_index {
            Some(j) => j >= s.editor.objects.len(),
            None => true,
        }) && is_topmost_at(s.editor.objects, s.editor.cursor, UpAxis::Y, None)
            ==> s.after_copy_block() == s,
{
    reveal(StateView::after_copy_block);
    if is_topmost_at(s.editor.objects, s.editor.cursor, UpAxis::Y, None) {
        lemma_topmost_is(s.editor.objects, s.editor.cursor, UpAxis::Y, None);
    }
}

/// Removing the tap at a given step removes exactly that step from the
/// taps: every other tap stays, whatever the current timeline step is, and
/// the taps stay sorted without repeats.
pub proof fn law_remove_tap_at_removes_that_step(s: StateView, step: u32)
    requires
        strictly_increasing_u32(s.timeline.tap_steps),
    ensures
        strictly_increasing_u32(s.after_remove_tap_at(step).timeline.tap_steps),
        forall|x: u32| s.after_remove_tap_at(step).timeline.tap_steps.contains(x) <==> (
            s.timeline.tap_steps.contains(x) && x != step),
        s.after_remove_tap_at(step).timeline.step == s.timeline.step,
        s.after_remove_tap_at(step).editor.objects == s.editor.objects,
{
    reveal(StateView::after_remove_tap_at);
    lemma_without_props(s.timeline.tap_steps, step);
}

/// The explorer's choice over `n` blocks exists and is the sorted list of
/// the kept indices and the picked ones below `n`.
proof fn lemma_explorer_selection_exists(keep: Seq<usize>, picked: Seq<usize>, n: nat)
    requires
        forall|i: int| 0 <= i < keep.len() ==> keep[i] < n,
    ensures
        explorer_pick(explorer_selection(keep, picked, n), keep, picked, n),
{
    let all = keep + picked;
    lemma_members_below(all, n);
    let r = members_below(all, n);
    assert forall|x: usize| r.contains(x) <==> (keep.contains(x) || (picked.contains(x) && x < n)) by {
        if all.contains(x) {
            let j = choose|j: int| 0 <= j < all.len() && all[j] == x;
            if j < keep.len() {
                assert(keep[j] == x);
            } else {
                assert(picked[j - keep.len()] == x);
            }
        }
        if keep.contains(x) {
            let j = choose|j: int| 0 <= j < keep.len() && keep[j] == x;
            assert(all[j] == x);
        }
        if picked.contains(x) {
            let j = choose|j: int| 0 <= j < picked.len() && picked[j] == x;
            assert(all[keep.len() + j] == x);
        }
    }
    assert(explorer_pick(r, keep, picked, n));
}

/// Choosing blocks in the explorer: with `additive` the new selection is
/// the old one together with the picked blocks that exist; otherwise, when
/// some picked block exists, it is exactly the picked blocks that exist.
pub proof fn law_explorer_select_union(s: StateView, picked: Seq<usize>, additive: bool)
    requires
        s.phase == AppPhase::Editor,
        !additive ==> exists|k: int| 0 <= k < picked.len() && picked[k] < s.editor.objects.len(),
    ensures
        forall|x: usize| s.after_explorer_select(picked, additive).editor.selected_block_indices.contains(x)
            <==> ((additive && s.norm_sel().contains(x)) || (picked.contains(x) && x < s.editor.objects.len())),
{
    reveal(StateView::after_explorer_select);
    let n = s.editor.objects.len();
    let sel0 = s.norm_sel();
    lemma_normalized_exists(s.editor.selected_block_indices, s.editor.selected_block_index, n);
    lemma_normalized_in_range(sel0, s.editor.selected_block_indices, s.editor.selected_block_index, n);
    let keep = if additive { sel0 } else { Seq::<usize>::empty() };
    lemma_explorer_selection_exists(keep, picked, n);
    let chosen = explorer_selection(keep, picked, n);
    lemma_normalized_exists(chosen, s.editor.selected_block_index, n);
    let ns = normalized_selection(chosen, s.editor.selected_block_index, n);
    assert(is_normalized_selection(ns, chosen, s.editor.selected_block_index, n));
    if chosen.len() > 0 {
        assert(chosen.contains(chosen[0]));
        assert(chosen[0] < n) by {
            let x = chosen[0];
            if keep.contains(x) {
                let j = choose|j: int| 0 <= j < keep.len() && keep[j] == x;
            }
        }
        assert(has_in_range(chosen, n));
        assert forall|x: usize| chosen.contains(x) implies x < n by {
            if keep.contains(x) {
                let j = choose|j: int| 0 <= j < keep.len() && keep[j] == x;
            }
        }
    } else {
        if additive && sel0.len() > 0 {
            assert(chosen.contains(sel0[0]));
        }
        if !additive {
            let k = choose|k: int| 0 <= k < picked.len() && picked[k] < n;
            assert(picked.contains(picked[k]));
            assert(chosen.contains(picked[k]));
        }
        assert forall|x: usize| !(keep.contains(x) || (picked.contains(x) && x < n)) by {
            if keep.contains(x) || (picked.contains(x) && x < n) {
                assert(chosen.contains(x));
            }
        }
        assert(additive && sel0.len() == 0);
        let sel = s.editor.selected_block_indices;
        if has_in_range(sel, n) {
            let k = choose|k: int| 0 <= k < sel.len() && sel[k] < n;
            assert(sel.contains(sel[k]));
            assert(sel0.contains(sel[k]));
        }
        assert(ns =~= Seq::<usize>::empty());
    }
}

/// Restarting real play from the pause menu starts the level afresh: the
/// game flags are cleared, the pause ends, and the music is stopped, the
/// playing level loaded again and the playing camera reset, in that order.
pub proof fn law_restart_from_pause_restarts(s: StateView)
    requires
        s.phase == AppPhase::Playing,
        !s.session.playtesting_editor,
        s.session.playing_level_name is Some,
    ensures
        ({
            let r = s.after_restart_from_pause();
            let name = s.session.playing_level_name.unwrap();
            &&& !r.game.started && !r.game.game_over && !r.game.level_complete
            &&& !r.session.game_paused
            &&& r.phase == AppPhase::Playing
            &&& r.effects == s.effects.push(Effect::StopAudio).push(Effect::LoadPlayingLevel { level_name: name })
                .push(Effect::ResetPlayingCamera)
        }),
{
    reveal(StateView::after_restart_from_pause);
    reveal(StateView::after_restart_level);
}

} // verus!
