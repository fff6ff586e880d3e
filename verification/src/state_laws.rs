use vstd::prelude::*;
use crate::commands::{AppCommand, EditorCommand};
use crate::sorted::strictly_increasing_u32;
use crate::state::{SnapshotView, StateView};

use crate::state_editor::MAX_HISTORY;
use crate::taps::{lemma_taps_below_wf, lemma_taps_with_wf, lemma_without_props};
use crate::types::{AppPhase, EditorMode};

verus! {

/// Recording keeps the invariant.
pub proof fn lemma_record_keeps_wf(s: StateView)
    requires
        s.wf(),
    ensures
        s.after_record().wf(),
{
    if s.phase == AppPhase::Editor {
        let t = s.after_record();
        let undo = if s.history.undo.len() >= MAX_HISTORY {
            s.history.undo.drop_first()
        } else {
            s.history.undo
        };
        assert forall|i: int| 0 <= i < t.history.undo.len() implies strictly_increasing_u32(
            #[trigger] t.history.undo[i].tap_steps,
        ) by {
            if i < undo.len() {
                if s.history.undo.len() >= MAX_HISTORY {
                    assert(undo[i] == s.history.undo[i + 1]);
                }
            }
        }
    }
}

/// Putting back a snapshot with sorted distinct taps keeps the invariant.
pub proof fn lemma_apply_snapshot_keeps_wf(s: StateView, snap: SnapshotView)
    requires
        s.wf(),
        strictly_increasing_u32(snap.tap_steps),
        snap.labels.len() == snap.objects.len(),
    ensures
        s.after_apply_snapshot(snap).wf(),
{
    let len: u32 = if snap.timeline_length < 1 { 1 } else { snap.timeline_length };
    lemma_taps_below_wf(snap.tap_steps, len);
}

/// Undo keeps the invariant.
pub proof fn lemma_undo_keeps_wf(s: StateView)
    requires
        s.wf(),
    ensures
        s.after_undo().wf(),
{
    reveal(StateView::after_undo);
    if s.phase == AppPhase::Editor && s.history.undo.len() > 0 {
        let snap = s.history.undo.last();
        let t = StateView {
            history: crate::state::HistoryView {
                undo: s.history.undo.drop_last(),
                redo: s.history.redo.push(s.snapshot()),
            },
            ..s
        };
        assert(strictly_increasing_u32(s.history.undo[s.history.undo.len() - 1].tap_steps));
        assert forall|i: int| 0 <= i < t.history.undo.len() implies strictly_increasing_u32(
            #[trigger] t.history.undo[i].tap_steps,
        ) by {
            assert(t.history.undo[i] == s.history.undo[i]);
        }
        assert forall|i: int| 0 <= i < t.history.redo.len() implies strictly_increasing_u32(
            #[trigger] t.history.redo[i].tap_steps,
        ) by {
            if i < s.history.redo.len() {
                assert(t.history.redo[i] == s.history.redo[i]);
            }
        }
        assert(t.wf());
        lemma_apply_snapshot_keeps_wf(t, snap);
    }
}

/// Redo keeps the invariant.
pub proof fn lemma_redo_keeps_wf(s: StateView)
    requires
        s.wf(),
    ensures
        s.after_redo().wf(),
{
    reveal(StateView::after_redo);
    if s.phase == AppPhase::Editor && s.history.redo.len() > 0 {
        let snap = s.history.redo.last();
        let t = StateView {
            history: crate::state::HistoryView {
                undo: s.history.undo.push(s.snapshot()),
                redo: s.history.redo.drop_last(),
            },
            ..s
        };
        assert(strictly_increasing_u32(s.history.redo[s.history.redo.len() - 1].tap_steps));
        assert forall|i: int| 0 <= i < t.history.redo.len() implies strictly_increasing_u32(
            #[trigger] t.history.redo[i].tap_steps,
        ) by {
            assert(t.history.redo[i] == s.history.redo[i]);
        }
        assert forall|i: int| 0 <= i < t.history.undo.len() implies strictly_increasing_u32(
            #[trigger] t.history.undo[i].tap_steps,
        ) by {
            if i < s.history.undo.len() {
                assert(t.history.undo[i] == s.history.undo[i]);
            }
        }
        assert(t.wf());
        lemma_apply_snapshot_keeps_wf(t, snap);
    }
}

/// The timeline and tap operations keep the invariant.
pub proof fn lemma_timeline_ops_keep_wf(s: StateView, step: u32, length: u32)
    requires
        s.wf(),
    ensures
        s.after_set_timeline_step(step).wf(),
        s.after_set_timeline_length(length).wf(),
        s.after_add_tap().wf(),
        s.after_remove_tap().wf(),
        s.after_remove_tap_at(step).wf(),
        s.after_clear_taps().wf(),
{
    reveal(StateView::after_add_tap);
    reveal(StateView::after_remove_tap);
    reveal(StateView::after_remove_tap_at);
    reveal(StateView::after_clear_taps);
    lemma_record_keeps_wf(s);
    let t = s.after_record();
    let len: u32 = if length < 1 { 1 } else { length };
    lemma_taps_below_wf(t.timeline.tap_steps, len);
    lemma_taps_with_wf(t.timeline.tap_steps, t.timeline.step);
    lemma_without_props(t.timeline.tap_steps, t.timeline.step);
    lemma_without_props(t.timeline.tap_steps, step);
}

/// Removing blocks keeps the invariant.
proof fn lemma_remove_block_keeps_wf(s: StateView)
    requires
        s.wf(),
    ensures
        s.after_remove_block().wf(),
{
    reveal(StateView::after_remove_block);
    lemma_record_keeps_wf(s);
    let t = s.after_record();
    if s.phase == AppPhase::Editor && s.effective_mode() != EditorMode::Tapping {
        let sel = t.norm_sel();
        if sel.len() > 0 {
            crate::blocks::lemma_kept_prefix_len(t.editor.objects, t.editor.labels, sel, t.editor.objects.len() as int);
            let u = t.with_editor(
                crate::state::EditorView {
                    objects: crate::blocks::without_indices(t.editor.objects, sel),
                    labels: crate::blocks::without_indices(t.editor.labels, sel),
                    selected_block_index: None,
                    selected_block_indices: Seq::empty(),
                    hovered_block_index: None,
                    ..t.editor
                },
            );
            assert(u.wf());
            lemma_sync_objects_keeps_wf(u);
        } else {
            match t.topmost_at_cursor() {
                Some(i) => if i < t.editor.objects.len() {
                    let u = t.with_editor(
                        crate::state::EditorView {
                            objects: t.editor.objects.remove(i as int),
                            labels: if i < t.editor.labels.len() {
                                t.editor.labels.remove(i as int)
                            } else {
                                t.editor.labels
                            },
                            ..t.editor
                        },
                    );
                    assert(u.wf());
                    lemma_sync_objects_keeps_wf(u);
                } else {
                    lemma_sync_objects_keeps_wf(t);
                },
                None => {
                    lemma_sync_objects_keeps_wf(t);
                },
            }
        }
    }
}

/// Normalizing the selection keeps the invariant.
proof fn lemma_sync_objects_keeps_wf(s: StateView)
    requires
        s.wf(),
    ensures
        s.after_sync_objects().wf(),
{
}

/// The block and spawn operations of the editor keep the invariant.
pub proof fn lemma_block_ops_keep_wf(s: StateView, dx: i32, dy: i32, sel: Option<usize>, kind: crate::types::BlockKind)
    requires
        s.wf(),
    ensures
        s.after_remove_block().wf(),
        s.after_copy_block().wf(),
        s.after_paste_block().wf(),
        s.after_place_block().wf(),
        s.after_set_spawn_here().wf(),
        s.after_rotate_spawn().wf(),
        s.after_set_selected_kind(kind).wf(),
        s.after_set_block_kind(kind).wf(),
        s.after_move_cursor(dx, dy).wf(),
        s.after_set_selected_tap(sel).wf(),
        s.after_sync_objects().wf(),
        s.after_set_mode(EditorMode::Place).wf(),
{
    reveal(StateView::after_remove_block);
    reveal(StateView::after_copy_block);
    lemma_remove_block_keeps_wf(s);
    reveal(StateView::after_paste_block);
    reveal(StateView::after_place_block);
    reveal(StateView::after_set_spawn_here);
    reveal(StateView::after_rotate_spawn);
    lemma_record_keeps_wf(s);
}

/// Moving between menu, play and editor keeps the invariant.
pub proof fn lemma_phase_ops_keep_wf(s: StateView)
    requires
        s.wf(),
    ensures
        s.after_restart_level().wf(),
        s.after_start_level(s.menu.selected_level as int).wf(),
        s.after_start_editor(s.menu.selected_level as int).wf(),
        s.after_back_to_menu().wf(),
        s.after_playtest().wf(),
        s.after_toggle_editor().wf(),
        s.after_turn_right().wf(),
        s.after_next_level().wf(),
        s.after_prev_level().wf(),
{
    reveal(StateView::after_restart_level);
    reveal(StateView::after_start_level);
    reveal(StateView::after_start_editor);
    reveal(StateView::after_back_to_menu);
    reveal(StateView::after_playtest);
    reveal(StateView::after_toggle_editor);
    reveal(StateView::after_turn_right);
    reveal(StateView::after_next_level);
    reveal(StateView::after_prev_level);
    lemma_block_ops_keep_wf(s, 0, 0, None, crate::types::BlockKind::Standard);
    let n = s.menu.levels.len() as int;
    assert((s.menu.selected_level + 1) % n < n) by (nonlinear_arith)
        requires
            n > 0,
    ;
    assert((s.menu.selected_level + 1) % n >= 0) by (nonlinear_arith)
        requires
            n > 0,
    ;
}

/// Pausing, resuming and leaving play keep the invariant.
pub proof fn lemma_pause_ops_keep_wf(s: StateView)
    requires
        s.wf(),
    ensures
        s.after_pause().wf(),
        s.after_resume().wf(),
        s.after_toggle_pause().wf(),
        s.after_restart_from_pause().wf(),
        s.after_quit_from_pause().wf(),
{
    reveal(StateView::after_resume);
    reveal(StateView::after_restart_from_pause);
    reveal(StateView::after_quit_from_pause);
    let t = s.with_session(crate::state::SessionState { game_paused: false, ..s.session });
    lemma_phase_ops_keep_wf(t);
}

/// The practice operations keep the invariant.
pub proof fn lemma_practice_ops_keep_wf(s: StateView, enabled: bool)
    requires
        s.wf(),
    ensures
        s.after_set_practice(enabled).wf(),
        s.after_set_checkpoint().wf(),
        s.after_remove_checkpoint().wf(),
{
    reveal(StateView::after_set_practice);
    reveal(StateView::after_set_checkpoint);
    reveal(StateView::after_remove_checkpoint);
    let u = s.with_session(
        crate::state::SessionState { practice_mode_enabled: enabled, practice_checkpoints: 0, ..s.session },
    ).with_effect(crate::state::Effect::ClearPracticeCheckpoints);
    lemma_pause_ops_keep_wf(u);
    lemma_phase_ops_keep_wf(u);
    lemma_pause_ops_keep_wf(u.after_restart_level());
}

/// Timeline playback and mode changes keep the invariant.
pub proof fn lemma_playback_ops_keep_wf(s: StateView, mode: EditorMode)
    requires
        s.wf(),
    ensures
        s.after_toggle_playback().wf(),
        s.after_set_effective_mode(mode).wf(),
        s.after_set_mode(mode).wf(),
{
    reveal(StateView::after_toggle_playback);
    reveal(StateView::after_set_effective_mode);
}

/// Escape keeps the invariant.
pub proof fn lemma_escape_keeps_wf(s: StateView)
    requires
        s.wf(),
    ensures
        s.after_clear_selection_for_escape().wf(),
        s.after_escape().wf(),
{
    reveal(StateView::after_escape);
    lemma_pause_ops_keep_wf(s);
    lemma_phase_ops_keep_wf(s);
    lemma_timeline_ops_keep_wf(s, 0, 0);
}

proof fn lemma_mode_command_keeps_wf(s: StateView, cmd: EditorCommand)
    requires
        s.wf(),
    ensures
        s.after_mode_command(cmd).wf(),
{
    reveal(StateView::after_mode_command);
    match cmd {
        EditorCommand::SetMode(m) => lemma_playback_ops_keep_wf(s, m),
        EditorCommand::SetSnapToGrid(b) => lemma_snap_settings_keep_wf(s, b, 0),
        _ => {},
    }
}

/// Naming and grouping blocks from the explorer keeps the invariant.
pub proof fn lemma_explorer_edits_keep_wf(
    s: StateView,
    index: usize,
    name: Seq<char>,
    path: Seq<Seq<char>>,
    target: Option<Seq<Seq<char>>>,
)
    requires
        s.wf(),
    ensures
        s.after_rename_object(index, name).wf(),
        s.after_create_group().wf(),
        s.after_rename_group(path, name).wf(),
        s.after_move_to_group(target).wf(),
{
    reveal(StateView::after_rename_object);
    reveal(StateView::after_create_group);
    reveal(StateView::after_rename_group);
    reveal(StateView::after_move_to_group);
    lemma_record_keeps_wf(s);
}

/// Nudging the selection keeps the invariant.
pub proof fn lemma_nudge_keeps_wf(s: StateView, dx: i32, dy: i32, right: (i32, i32), up: (i32, i32))
    requires
        s.wf(),
    ensures
        s.after_nudge(dx, dy, right, up).wf(),
{
    reveal(StateView::after_nudge);
    lemma_record_keeps_wf(s);
    let t = s.after_record();
    let (ox, oy) = s.nudge_offset(dx, dy, right, up);
    let sel = t.norm_sel();
    if sel.len() > 0 {
        let objs = crate::state_nudge::shifted_all(t.editor.objects, sel, ox, oy);
        let a = objs[crate::editor_subsystem::anchor_index(sel, t.editor.selected_block_index) as int].position;
        let u = t.with_editor(crate::state::EditorView { objects: objs, cursor: crate::state_snap::grounded(a), ..t.editor });
        assert(u.wf());
        lemma_block_ops_keep_wf(u, 0, 0, None, crate::types::BlockKind::Standard);
    }
}

/// Moving or resizing the selected block keeps the invariant.
pub proof fn lemma_selected_block_edits_keep_wf(s: StateView, p: crate::types::Vec3i)
    requires
        s.wf(),
    ensures
        s.after_set_selected_position(p).wf(),
        s.after_set_selected_size(p).wf(),
{
    reveal(StateView::after_set_selected_position);
    reveal(StateView::after_set_selected_size);
    lemma_record_keeps_wf(s);
    let u = s.record_unless_dragging().after_sync_primary();
    assert(u.wf());
    if s.phase == AppPhase::Editor {
        match crate::state_editor::index_below(u.editor.selected_block_index, u.editor.objects.len()) {
            Some(i) => {
                let o = u.editor.objects[i as int];
                let next = if u.editor.snap_to_grid {
                    crate::snapping::snap_point_up(p, u.grid_step(), crate::blocks::UpAxis::Z)
                } else {
                    crate::state_snap::raised(p)
                };
                let v = u.with_editor(
                    crate::state::EditorView {
                        objects: u.editor.objects.update(
                            i as int,
                            crate::types::LevelObject { position: next, size: o.size, kind: o.kind, yaw_degrees: o.yaw_degrees },
                        ),
                        cursor: crate::state_snap::follow_cursor(next, u.editor.bounds),
                        ..u.editor
                    },
                );
                lemma_block_ops_keep_wf(v, 0, 0, None, crate::types::BlockKind::Standard);
                let w = u.with_editor(
                    crate::state::EditorView {
                        objects: u.editor.objects.update(
                            i as int,
                            crate::types::LevelObject {
                                position: o.position,
                                size: crate::state_snap::fitted_size(p, u.editor.snap_to_grid, u.grid_step()),
                                kind: o.kind,
                                yaw_degrees: o.yaw_degrees,
                            },
                        ),
                        ..u.editor
                    },
                );
                lemma_block_ops_keep_wf(w, 0, 0, None, crate::types::BlockKind::Standard);
            },
            None => {},
        }
    }
}

/// Changing the snapping settings keeps the invariant.
pub proof fn lemma_snap_settings_keep_wf(s: StateView, snap: bool, step: i64)
    requires
        s.wf(),
    ensures
        s.after_set_snap_to_grid(snap).wf(),
        s.after_set_snap_step(step).wf(),
{
    let t1 = s.with_editor(crate::state::EditorView { snap_to_grid: snap, ..s.editor });
    let t2 = s.with_editor(crate::state::EditorView { snap_step: crate::fixed::effective_step(step), ..s.editor });
    if t1.editor.selected_block_index is Some && t1.norm_sel().len() > 0 {
        let o = t1.editor.objects[t1.norm_sel()[0] as int];
        lemma_selected_block_edits_keep_wf(t1, o.position);
        lemma_selected_block_edits_keep_wf(t1.after_set_selected_position(o.position), o.size);
    }
    if t2.editor.selected_block_index is Some && t2.norm_sel().len() > 0 {
        let o = t2.editor.objects[t2.norm_sel()[0] as int];
        lemma_selected_block_edits_keep_wf(t2, o.position);
        lemma_selected_block_edits_keep_wf(t2.after_set_selected_position(o.position), o.size);
    }
}

proof fn lemma_block_command_keeps_wf(s: StateView, cmd: EditorCommand)
    requires
        s.wf(),
    ensures
        s.after_block_command(cmd).wf(),
{
    reveal(StateView::after_block_command);
    lemma_block_ops_keep_wf(s, 0, 0, None, crate::types::BlockKind::Standard);
    lemma_playback_ops_keep_wf(s, EditorMode::Place);
    lemma_snap_keeps_wf(s);
}

/// Snapping the selection to the grid keeps the invariant.
pub proof fn lemma_snap_keeps_wf(s: StateView)
    requires
        s.wf(),
    ensures
        s.after_snap_selection().wf(),
{
    reveal(StateView::after_snap_selection);
    lemma_record_keeps_wf(s);
    let t = s.after_record();
    lemma_block_ops_keep_wf(t, 0, 0, None, crate::types::BlockKind::Standard);
    if s.phase == AppPhase::Editor && s.norm_sel().len() > 0 && s.selection_off_grid() {
        let sel = s.norm_sel();
        let objs = crate::snapping::snapped_all(t.editor.objects, sel, t.grid_step(), crate::blocks::UpAxis::Y);
        let a = objs[crate::editor_subsystem::anchor_index(sel, t.editor.selected_block_index) as int].position;
        let u = t.with_editor(crate::state::EditorView { objects: objs, cursor: crate::state_snap::grounded(a), ..t.editor });
        assert(u.wf());
        lemma_block_ops_keep_wf(u, 0, 0, None, crate::types::BlockKind::Standard);
    }
}

proof fn lemma_tap_command_keeps_wf(s: StateView, cmd: EditorCommand)
    requires
        s.wf(),
    ensures
        s.after_tap_command(cmd).wf(),
{
    reveal(StateView::after_tap_command);
    match cmd {
        EditorCommand::RemoveTapAt(step) => lemma_timeline_ops_keep_wf(s, step, 0),
        _ => lemma_timeline_ops_keep_wf(s, 0, 0),
    }
}

proof fn lemma_spawn_command_keeps_wf(s: StateView, cmd: EditorCommand)
    requires
        s.wf(),
    ensures
        s.after_spawn_command(cmd).wf(),
{
    reveal(StateView::after_spawn_command);
    lemma_block_ops_keep_wf(s, 0, 0, None, crate::types::BlockKind::Standard);
    lemma_phase_ops_keep_wf(s);
    lemma_undo_keeps_wf(s);
    lemma_redo_keeps_wf(s);
}

proof fn lemma_settings_command_keeps_wf(s: StateView, cmd: EditorCommand)
    requires
        s.wf(),
    ensures
        s.after_settings_command(cmd).wf(),
{
    reveal(StateView::after_settings_command);
}

proof fn lemma_held_command_keeps_wf(s: StateView, cmd: EditorCommand)
    requires
        s.wf(),
    ensures
        s.after_held_command(cmd).wf(),
{
    reveal(StateView::after_held_command);
}

proof fn lemma_pointer_command_keeps_wf(s: StateView, cmd: EditorCommand)
    requires
        s.wf(),
    ensures
        s.after_pointer_command(cmd).wf(),
{
    reveal(StateView::after_pointer_command);
    lemma_phase_ops_keep_wf(s);
    lemma_escape_keeps_wf(s);
}

/// Every editor command keeps the invariant.
pub proof fn lemma_dispatch_editor_keeps_wf(s: StateView, cmd: EditorCommand)
    requires
        s.wf(),
    ensures
        s.after_dispatch_editor(cmd).wf(),
{
    lemma_mode_command_keeps_wf(s, cmd);
    lemma_block_command_keeps_wf(s, cmd);
    lemma_tap_command_keeps_wf(s, cmd);
    lemma_spawn_command_keeps_wf(s, cmd);
    lemma_settings_command_keeps_wf(s, cmd);
    lemma_held_command_keeps_wf(s, cmd);
    lemma_pointer_command_keeps_wf(s, cmd);
}

/// Every application command keeps the invariant.
pub proof fn lemma_dispatch_keeps_wf(s: StateView, cmd: AppCommand)
    requires
        s.wf(),
    ensures
        s.after_dispatch(cmd).wf(),
{
    reveal(StateView::after_auth_submit);
    reveal(StateView::after_auth_sign_out);
    reveal(StateView::after_auth_open_signup);
    reveal(StateView::after_resize);
    match cmd {
        AppCommand::GameSetPracticeMode(e) => lemma_practice_ops_keep_wf(s, e),
        AppCommand::Editor(c) => lemma_dispatch_editor_keeps_wf(s, c),
        _ => {
            lemma_phase_ops_keep_wf(s);
            lemma_pause_ops_keep_wf(s);
            lemma_practice_ops_keep_wf(s, false);
        },
    }
}

/// Any sequence of application commands keeps the invariant.
pub proof fn lemma_dispatch_all_keeps_wf(s: StateView, cmds: Seq<AppCommand>)
    requires
        s.wf(),
    ensures
        s.after_dispatch_all(cmds).wf(),
    decreases cmds.len(),
{
    if cmds.len() > 0 {
        lemma_dispatch_all_keeps_wf(s, cmds.drop_last());
        lemma_dispatch_keeps_wf(s.after_dispatch_all(cmds.drop_last()), cmds.last());
    }
}

} // verus!
