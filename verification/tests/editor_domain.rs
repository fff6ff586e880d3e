use egakareta::editor_subsystem::EditorSubsystem;
use egakareta::types::{
    BlockKind, CameraTriggerMode, EditorDrag, EditorMode, GizmoAxis, GizmoDragKind, LevelObject,
    SpawnDirection, Vec3i, CELL,
};

/// A one-cell standard block whose corner is at the given cell coordinates
/// (in thousandths of a cell).
fn stone(x: i64, y: i64, z: i64) -> LevelObject {
    LevelObject {
        position: Vec3i { x, y, z },
        size: Vec3i { x: CELL, y: CELL, z: CELL },
        kind: BlockKind::Standard,
        yaw_degrees: 0,
    }
}

fn v(x: i64, y: i64, z: i64) -> Vec3i {
    Vec3i { x, y, z }
}

#[test]
fn nudge_moves_selected_blocks_by_world_delta() {
    let mut editor = EditorSubsystem::new_test();
    editor.objects.push(stone(0, 0, 0));
    editor.objects.push(stone(3000, 0, 0));
    editor.ui.selected_block_index = Some(0);
    editor.ui.selected_block_indices = vec![0];

    assert!(editor.nudge_selected(2000, -1000));
    assert_eq!(editor.objects[0].position, v(2000, 0, -1000));
    assert_eq!(editor.objects[1].position, v(3000, 0, 0));
}

#[test]
fn nudge_returns_false_when_nothing_selected() {
    let mut editor = EditorSubsystem::new_test();
    editor.objects.push(stone(0, 0, 0));

    assert!(!editor.nudge_selected(1000, 0));
    assert_eq!(editor.objects[0].position, v(0, 0, 0));
}

#[test]
fn nudge_updates_cursor_to_selected_block_position() {
    let mut editor = EditorSubsystem::new_test();
    editor.objects.push(stone(1000, 2000, 3000));
    editor.ui.selected_block_index = Some(0);

    editor.nudge_selected(5000, -2000);
    assert_eq!(editor.ui.cursor, v(6000, 2000, 1000));
}

#[test]
fn snap_moves_blocks_to_nearest_grid_cell() {
    let mut editor = EditorSubsystem::new_test();
    editor.config.snap_step = 1000;
    editor.objects.push(stone(300, 0, 700));
    editor.ui.selected_block_index = Some(0);

    assert!(editor.snap_selected_blocks_to_grid());
    assert_eq!(editor.objects[0].position, v(0, 0, 1000));
}

#[test]
fn snap_respects_custom_step_size() {
    let mut editor = EditorSubsystem::new_test();
    editor.config.snap_step = 2000;
    editor.objects.push(stone(1300, 0, 3800));
    editor.ui.selected_block_index = Some(0);

    assert!(editor.snap_selected_blocks_to_grid());
    assert_eq!(editor.objects[0].position, v(2000, 0, 4000));
}

#[test]
fn snap_returns_false_when_already_snapped() {
    let mut editor = EditorSubsystem::new_test();
    editor.config.snap_step = 1000;
    editor.objects.push(stone(3000, 0, 5000));
    editor.ui.selected_block_index = Some(0);

    assert!(!editor.snap_selected_blocks_to_grid());
}

#[test]
fn remove_selected_deletes_marked_blocks() {
    let mut editor = EditorSubsystem::new_test();
    editor.objects.push(stone(0, 0, 0));
    editor.objects.push(stone(1000, 0, 0));
    editor.objects.push(stone(2000, 0, 0));
    editor.ui.selected_block_index = Some(1);
    editor.ui.selected_block_indices = vec![1];

    assert!(editor.remove_selected());
    assert_eq!(editor.objects.len(), 2);
    assert_eq!(editor.objects[0].position, v(0, 0, 0));
    assert_eq!(editor.objects[1].position, v(2000, 0, 0));
}

#[test]
fn remove_selected_clears_selection() {
    let mut editor = EditorSubsystem::new_test();
    editor.objects.push(stone(0, 0, 0));
    editor.ui.selected_block_index = Some(0);

    editor.remove_selected();
    assert!(editor.ui.selected_block_index.is_none());
    assert!(editor.ui.selected_block_indices.is_empty());
}

#[test]
fn set_spawn_here_copies_cursor_position() {
    let mut editor = EditorSubsystem::new_test();
    editor.ui.cursor = v(5000, 3000, 7000);

    editor.set_spawn_here();
    assert_eq!(editor.spawn.position, v(5000, 3000, 7000));
}

#[test]
fn rotate_spawn_direction_toggles_between_forward_and_right() {
    let mut editor = EditorSubsystem::new_test();
    assert_eq!(editor.spawn.direction, SpawnDirection::Forward);

    editor.rotate_spawn_direction();
    assert_eq!(editor.spawn.direction, SpawnDirection::Right);

    editor.rotate_spawn_direction();
    assert_eq!(editor.spawn.direction, SpawnDirection::Forward);
}

#[test]
fn clear_block_selection_resets_all_indices() {
    let mut editor = EditorSubsystem::new_test();
    editor.objects.push(stone(0, 0, 0));
    editor.objects.push(stone(1000, 0, 0));
    editor.ui.selected_block_index = Some(0);
    editor.ui.selected_block_indices = vec![0, 1];

    editor.clear_block_selection();
    assert!(editor.ui.selected_block_index.is_none());
    assert!(editor.ui.selected_block_indices.is_empty());
}

#[test]
fn selected_indices_normalized_deduplicates() {
    let mut editor = EditorSubsystem::new_test();
    editor.objects.push(stone(0, 0, 0));
    editor.objects.push(stone(1000, 0, 0));
    editor.ui.selected_block_index = Some(0);
    editor.ui.selected_block_indices = vec![0, 0, 1];

    let indices = editor.selected_indices_normalized();
    assert_eq!(indices, vec![0, 1]);
}

#[test]
fn set_mode_clears_drags_and_marquee() {
    let mut editor = EditorSubsystem::new_test();
    editor.drag = Some(EditorDrag::Gizmo { kind: GizmoDragKind::Move, axis: GizmoAxis::X });
    editor.ui.marquee_start_screen = Some((10, 10));

    editor.set_mode(EditorMode::Select);
    assert!(editor.drag.is_none());
    assert!(editor.ui.marquee_start_screen.is_none());
}

#[test]
fn effective_snap_overridden_by_ctrl() {
    let mut editor = EditorSubsystem::new_test();
    editor.config.snap_to_grid = true;
    editor.ui.ctrl_held = false;
    assert!(editor.effective_snap_to_grid());

    editor.ui.ctrl_held = true;
    assert!(!editor.effective_snap_to_grid());
}

#[test]
fn set_snap_step_clamps_minimum() {
    let mut editor = EditorSubsystem::new_test();
    editor.set_snap_step(1);
    assert!(editor.snap_step() >= 50, "Snap step should be clamped to at least 0.05");
}

#[test]
fn nudge_moves_all_selected_blocks() {
    let mut editor = EditorSubsystem::new_test();
    editor.objects.push(stone(0, 0, 0));
    editor.objects.push(stone(1000, 0, 0));
    editor.objects.push(stone(2000, 0, 0));
    editor.ui.selected_block_index = Some(0);
    editor.ui.selected_block_indices = vec![0, 2];

    assert!(editor.nudge_selected(3000, -1000));
    assert_eq!(editor.objects[0].position, v(3000, 0, -1000));
    assert_eq!(editor.objects[1].position, v(1000, 0, 0));
    assert_eq!(editor.objects[2].position, v(5000, 0, -1000));
}

#[test]
fn snap_returns_false_when_nothing_selected() {
    let mut editor = EditorSubsystem::new_test();
    editor.config.snap_step = 1000;
    editor.objects.push(stone(300, 0, 700));

    assert!(!editor.snap_selected_blocks_to_grid());
}

#[test]
fn remove_selected_returns_false_when_nothing_selected_and_cursor_empty() {
    let mut editor = EditorSubsystem::new_test();
    editor.objects.push(stone(0, 0, 0));
    editor.ui.cursor = v(100 * CELL, 100 * CELL, 100 * CELL);

    assert!(!editor.remove_selected());
    assert_eq!(editor.objects.len(), 1);
}

#[test]
fn effective_snap_rotation_overridden_by_ctrl() {
    let mut editor = EditorSubsystem::new_test();
    editor.config.snap_rotation = true;
    editor.ui.ctrl_held = false;
    assert!(editor.effective_snap_rotation());

    editor.ui.ctrl_held = true;
    assert!(!editor.effective_snap_rotation());
}

#[test]
fn selected_indices_normalized_sorted() {
    let mut editor = EditorSubsystem::new_test();
    editor.objects.push(stone(0, 0, 0));
    editor.objects.push(stone(1000, 0, 0));
    editor.objects.push(stone(2000, 0, 0));
    editor.ui.selected_block_index = Some(2);
    editor.ui.selected_block_indices = vec![2, 0, 1];

    let indices = editor.selected_indices_normalized();
    assert_eq!(indices, vec![0, 1, 2]);
}

#[test]
fn rotate_spawn_direction_full_cycle() {
    let mut editor = EditorSubsystem::new_test();
    let initial = editor.spawn.direction;

    for _ in 0..4 {
        editor.rotate_spawn_direction();
    }
    assert_eq!(editor.spawn.direction, initial);
}

#[test]
fn set_mode_updates_mode_field() {
    let mut editor = EditorSubsystem::new_test();

    editor.set_mode(EditorMode::Move);
    assert_eq!(editor.ui.mode, EditorMode::Move);

    editor.set_mode(EditorMode::Scale);
    assert_eq!(editor.ui.mode, EditorMode::Scale);

    editor.set_mode(EditorMode::Rotate);
    assert_eq!(editor.ui.mode, EditorMode::Rotate);
}

#[test]
fn camera_trigger_modes_are_distinct() {
    let follow = CameraTriggerMode::Follow;
    let static_trigger = CameraTriggerMode::Static;

    assert_ne!(follow, static_trigger);
}

#[test]
fn remove_selected_takes_topmost_block_under_cursor() {
    let mut editor = EditorSubsystem::new_test();
    editor.objects.push(stone(0, 0, 0));
    editor.objects.push(stone(0, 1000, 0));
    editor.objects.push(stone(2000, 0, 0));
    editor.ui.cursor = v(0, 0, 0);

    assert!(editor.remove_selected());
    assert_eq!(editor.objects.len(), 2);
    assert_eq!(editor.objects[0].position, v(0, 0, 0));
    assert_eq!(editor.objects[1].position, v(2000, 0, 0));
}

#[test]
fn snap_rounds_halves_away_from_zero() {
    let mut editor = EditorSubsystem::new_test();
    editor.config.snap_step = 1000;
    editor.objects.push(stone(-1500, 0, 2500));
    editor.ui.selected_block_index = Some(0);

    assert!(editor.snap_selected_blocks_to_grid());
    assert_eq!(editor.objects[0].position, v(-2000, 0, 3000));
}
