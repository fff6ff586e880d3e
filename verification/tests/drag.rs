use egakareta::drag::{drag_anchor, DragBlockStart};
use egakareta::editor_subsystem::EditorSubsystem;
use egakareta::types::{AppPhase, BlockKind, GizmoAxis, GizmoDragKind, LevelObject, Vec3i, CELL};

fn stone(x: i64, y: i64, z: i64) -> LevelObject {
    LevelObject { position: Vec3i { x, y, z }, size: Vec3i { x: CELL, y: CELL, z: CELL }, kind: BlockKind::Standard, yaw_degrees: 0 }
}

fn v(x: i64, y: i64, z: i64) -> Vec3i {
    Vec3i { x, y, z }
}

fn two_selected() -> EditorSubsystem {
    let mut editor = EditorSubsystem::new_test();
    editor.objects = vec![stone(1000, 0, 0), stone(3000, 2000, 0), stone(9000, 0, 0)];
    editor.ui.selected_block_index = Some(0);
    editor.ui.selected_block_indices = vec![1, 0];
    editor
}

#[test]
fn drag_starts_follow_the_normalized_selection() {
    let editor = two_selected();
    let starts = editor.drag_start_blocks();
    assert_eq!(
        starts,
        vec![
            DragBlockStart { index: 0, position: v(1000, 0, 0), size: v(CELL, CELL, CELL) },
            DragBlockStart { index: 1, position: v(3000, 2000, 0), size: v(CELL, CELL, CELL) },
        ]
    );
    assert_eq!(drag_anchor(&starts), v(1000, 0, 0));
    assert_eq!(drag_anchor(&Vec::new()), v(0, 0, 0));
}

#[test]
fn gizmo_move_snaps_each_block_from_its_start() {
    let mut editor = two_selected();
    let starts = editor.drag_start_blocks();
    editor.drag_gizmo(&starts, GizmoDragKind::Move, GizmoAxis::X, 1400);
    assert_eq!(editor.objects[0].position, v(2000, 0, 0));
    assert_eq!(editor.objects[1].position, v(4000, 2000, 0));
    assert_eq!(editor.objects[2].position, v(9000, 0, 0));
    assert_eq!(editor.ui.cursor, v(2000, 0, 0));

    editor.drag_gizmo(&starts, GizmoDragKind::Move, GizmoAxis::X, 300);
    assert_eq!(editor.objects[0].position, v(1000, 0, 0));
}

#[test]
fn gizmo_move_down_stops_the_lowest_block_at_the_ground() {
    let mut editor = EditorSubsystem::new_test();
    editor.objects = vec![stone(0, 2000, 0), stone(0, 5000, 0)];
    editor.ui.selected_block_indices = vec![0, 1];
    let starts = editor.drag_start_blocks();
    editor.drag_gizmo(&starts, GizmoDragKind::Move, GizmoAxis::Y, -7000);
    assert_eq!(editor.objects[0].position, v(0, 0, 0));
    assert_eq!(editor.objects[1].position, v(0, 3000, 0));
}

#[test]
fn gizmo_resize_grows_far_faces_and_moves_near_faces() {
    let mut editor = two_selected();
    let starts = editor.drag_start_blocks();
    editor.drag_gizmo(&starts, GizmoDragKind::Resize, GizmoAxis::X, 1600);
    assert_eq!(editor.objects[0].size, v(3000, CELL, CELL));
    assert_eq!(editor.objects[0].position, v(1000, 0, 0));

    let mut editor = two_selected();
    let starts = editor.drag_start_blocks();
    editor.drag_gizmo(&starts, GizmoDragKind::Resize, GizmoAxis::XNeg, -2200);
    assert_eq!(editor.objects[0].position, v(-1000, 0, 0));
    assert_eq!(editor.objects[0].size, v(3000, CELL, CELL));

    let mut editor = two_selected();
    let starts = editor.drag_start_blocks();
    editor.drag_gizmo(&starts, GizmoDragKind::Resize, GizmoAxis::YNeg, -4000);
    assert_eq!(editor.objects[1].position, v(3000, 0, 0));
    assert_eq!(editor.objects[1].size, v(CELL, 3000, CELL));
    assert_eq!(editor.objects[0].position, v(1000, 0, 0));
    assert_eq!(editor.objects[0].size, v(CELL, CELL, CELL));
}

#[test]
fn gizmo_resize_without_snapping_keeps_a_quarter_cell() {
    let mut editor = two_selected();
    editor.ui.ctrl_held = true;
    let starts = editor.drag_start_blocks();
    editor.drag_gizmo(&starts, GizmoDragKind::Resize, GizmoAxis::Z, -900);
    assert_eq!(editor.objects[0].size, v(CELL, CELL, 250));
    editor.drag_gizmo(&starts, GizmoDragKind::Resize, GizmoAxis::ZNeg, 300);
    assert_eq!(editor.objects[0].position, v(1000, 0, 300));
    assert_eq!(editor.objects[0].size, v(CELL, CELL, 700));
}

#[test]
fn block_drag_snaps_without_a_surface_hit() {
    let mut editor = two_selected();
    let starts = editor.drag_start_blocks();
    editor.drag_selection(&starts, v(1400, 200, -600), false);
    assert_eq!(editor.objects[0].position, v(2000, 0, -1000));
    assert_eq!(editor.objects[1].position, v(4000, 2000, -1000));
    assert_eq!(editor.ui.cursor, v(2000, 0, -1000));
}

#[test]
fn free_block_drag_pins_small_lifts_from_the_ground() {
    let mut editor = two_selected();
    editor.ui.ctrl_held = true;
    let starts = editor.drag_start_blocks();
    editor.drag_selection(&starts, v(100, 300, 0), false);
    assert_eq!(editor.objects[0].position, v(1100, 0, 0));
    assert_eq!(editor.objects[1].position, v(3100, 2300, 0));
    editor.drag_selection(&starts, v(100, 600, 0), false);
    assert_eq!(editor.objects[0].position, v(1100, 600, 0));
}

#[test]
fn surface_drag_takes_the_hit_as_it_is_but_keeps_the_ground() {
    let mut editor = two_selected();
    let starts = editor.drag_start_blocks();
    editor.drag_selection(&starts, v(550, -100, 30), true);
    assert_eq!(editor.objects[0].position, v(1550, 0, 30));
    assert_eq!(editor.objects[1].position, v(3550, 2000, 30));
}

#[test]
fn drag_range_checks_tell_which_drags_the_library_takes() {
    let mut editor = two_selected();
    let starts = editor.drag_start_blocks();
    assert!(!editor.selection_drag_in_range(&starts, v(i64::MAX, 0, 0)));
    assert!(!editor.gizmo_drag_in_range(&starts, i64::MIN));
    assert!(editor.selection_drag_in_range(&starts, v(1400, 200, -600)));
    assert!(editor.gizmo_drag_in_range(&starts, 1400));
    assert_eq!(editor.objects[0].position, v(1000, 0, 0));
}

#[test]
fn drag_gizmo_move_updates_object_position_along_axis() {
    let mut editor = EditorSubsystem::new_test();
    editor.config.snap_to_grid = false;
    editor.objects = vec![stone(0, 0, 0)];
    editor.ui.selected_block_index = Some(0);
    let starts = editor.drag_start_blocks();

    editor.drag_gizmo(&starts, GizmoDragKind::Move, GizmoAxis::X, 437);
    assert!(editor.objects[0].position.x > 0);
    assert_eq!(editor.objects[0].position.y, 0);
    assert_eq!(editor.objects[0].position.z, 0);
}

#[test]
fn drag_gizmo_resize_negative_axis_preserves_opposite_edge() {
    let mut editor = EditorSubsystem::new_test();
    editor.config.snap_to_grid = false;
    editor.objects = vec![stone(0, 0, 0)];
    editor.ui.selected_block_index = Some(0);
    let starts = editor.drag_start_blocks();

    editor.drag_gizmo(&starts, GizmoDragKind::Resize, GizmoAxis::XNeg, 218);
    let object = editor.objects[0];
    assert!(object.size.x >= 250);
    assert_eq!(object.position.x + object.size.x, 1000);

    editor.drag_gizmo(&starts, GizmoDragKind::Resize, GizmoAxis::XNeg, 5000);
    let object = editor.objects[0];
    assert_eq!(object.size.x, 250);
    assert_eq!(object.position.x + object.size.x, 1000);
}

#[test]
fn drag_gizmo_y_prevents_compression_when_moving_below_ground() {
    let mut editor = EditorSubsystem::new_test();
    editor.objects = vec![stone(0, 0, 0), stone(0, 3000, 0)];
    editor.ui.mode = egakareta::types::EditorMode::Select;
    editor.ui.selected_block_indices = vec![0, 1];
    let starts = editor.drag_start_blocks();

    editor.drag_gizmo(&starts, GizmoDragKind::Move, GizmoAxis::Y, -20_000);
    let low_y = editor.objects[0].position.y;
    let high_y = editor.objects[1].position.y;
    assert!(low_y >= 0);
    assert!(high_y - low_y >= 2900);
}

#[test]
fn drag_selection_without_snap_pins_small_ground_drift_but_allows_y_lift() {
    let mut editor = EditorSubsystem::new_test();
    editor.ui.mode = egakareta::types::EditorMode::Select;
    editor.config.snap_to_grid = false;
    editor.config.snap_step = 1000;
    editor.objects = vec![stone(0, 0, 0)];
    editor.ui.selected_block_index = Some(0);
    let starts = editor.drag_start_blocks();
    let release_height = editor.config.snap_step / 2;

    let small_drift_y = 400;
    assert!(small_drift_y > 0 && small_drift_y < release_height);
    editor.drag_selection(&starts, v(0, small_drift_y, 0), false);
    assert_eq!(editor.objects[0].position.y, 0);
    assert_eq!(editor.ui.cursor.y, 0);

    let lift_y = 700;
    editor.drag_selection(&starts, v(0, lift_y, 0), false);
    assert_eq!(editor.objects[0].position.y, lift_y);
    assert_eq!(editor.ui.cursor.y, lift_y);
}

#[test]
fn gizmo_drags_run_only_in_the_editor_phase() {
    let mut editor = two_selected();
    let starts = editor.drag_start_blocks();
    assert!(!editor.drag_gizmo_in_phase(AppPhase::Menu, &starts, GizmoDragKind::Move, GizmoAxis::X, 1400));
    assert_eq!(editor.objects[0].position, v(1000, 0, 0));
    assert!(editor.drag_gizmo_in_phase(AppPhase::Editor, &starts, GizmoDragKind::Move, GizmoAxis::X, 1400));
    assert_eq!(editor.objects[0].position, v(2000, 0, 0));
}
