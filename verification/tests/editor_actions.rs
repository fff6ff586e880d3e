use egakareta::commands::KeyBinding;
use egakareta::editor_subsystem::EditorSubsystem;
use egakareta::state::State;
use egakareta::types::{BlockKind, EditorMode, LevelObject, SpawnDirection, Vec3i, CELL};

fn test_block(x: i64, y: i64, z: i64) -> LevelObject {
    LevelObject { position: Vec3i { x, y, z }, size: Vec3i { x: CELL, y: CELL, z: CELL }, kind: BlockKind::Standard, yaw_degrees: 0 }
}

fn v(x: i64, y: i64, z: i64) -> Vec3i {
    Vec3i { x, y, z }
}

fn editor_state() -> State {
    let bindings: Vec<KeyBinding> = Vec::new();
    let mut state = State::new(vec!["Flowerfield".to_string()], 16, bindings);
    state.enter_editor_phase("EditorActions".to_string());
    state.effects.clear();
    state
}

#[test]
fn remove_block_undo_redo_sequence_restores_and_reapplies() {
    let mut state = editor_state();
    state.editor.objects = vec![test_block(0, 0, 0), test_block(2000, 0, 0)];
    state.editor.selected_block_index = Some(0);
    state.editor.selected_block_indices = vec![0];

    state.editor_remove_block();
    assert_eq!(state.editor.objects.len(), 1);
    assert_eq!(state.editor.objects[0].position, v(2000, 0, 0));

    state.editor_undo();
    assert_eq!(state.editor.objects.len(), 2);
    assert_eq!(state.editor.objects[0].position, v(0, 0, 0));
    assert_eq!(state.editor.objects[1].position, v(2000, 0, 0));

    state.editor_redo();
    assert_eq!(state.editor.objects.len(), 1);
    assert_eq!(state.editor.objects[0].position, v(2000, 0, 0));
}

#[test]
fn remove_block_is_ignored_in_tapping_mode() {
    let mut state = editor_state();
    state.editor.mode = EditorMode::Tapping;
    state.editor.objects = vec![test_block(0, 0, 0), test_block(2000, 0, 0)];
    state.editor.selected_block_index = Some(0);
    state.editor.selected_block_indices = vec![0];

    state.editor_remove_block();

    assert_eq!(state.editor.objects.len(), 2);
    assert_eq!(state.editor.objects[0].position, v(0, 0, 0));
    assert_eq!(state.editor.objects[1].position, v(2000, 0, 0));
}

#[test]
fn spawn_set_and_rotate_support_two_step_undo_redo() {
    let mut state = editor_state();
    state.editor.objects.clear();
    state.editor.cursor = v(4000, 1000, 3000);

    state.editor_set_spawn_here();
    assert_eq!(state.editor.spawn.position, v(4000, 1000, 3000));
    state.editor_rotate_spawn_direction();
    assert_eq!(state.editor.spawn.direction, SpawnDirection::Right);

    state.editor_undo();
    assert_eq!(state.editor.spawn.direction, SpawnDirection::Forward);
    assert_eq!(state.editor.spawn.position, v(4000, 1000, 3000));

    state.editor_undo();
    assert_eq!(state.editor.spawn.direction, SpawnDirection::Forward);
    assert_eq!(state.editor.spawn.position, v(0, 0, 0));

    state.editor_redo();
    assert_eq!(state.editor.spawn.position, v(4000, 1000, 3000));
    state.editor_redo();
    assert_eq!(state.editor.spawn.direction, SpawnDirection::Right);
}

#[test]
fn nudge_and_remove_selected_cover_selected_and_cursor_fallback_paths() {
    let mut editor = EditorSubsystem::new_test();
    editor.objects = vec![test_block(0, 0, 0), test_block(3000, 0, 3000)];
    editor.ui.selected_block_indices = vec![0, 1];
    editor.ui.selected_block_index = Some(0);

    assert!(editor.nudge_selected(2000, -1000));
    assert_eq!(editor.objects[0].position, v(2000, 0, -1000));
    assert_eq!(editor.objects[1].position, v(5000, 0, 2000));

    editor.ui.selected_block_indices.clear();
    editor.ui.selected_block_index = None;
    assert!(!editor.nudge_selected(1000, 1000));

    editor.ui.cursor = v(2000, 0, -1000);
    assert!(editor.remove_selected());
    assert_eq!(editor.objects.len(), 1);

    editor.ui.cursor = v(999_000, 0, 999_000);
    assert!(!editor.remove_selected());
}

#[test]
fn move_cursor_uses_snap_configuration() {
    let mut editor = EditorSubsystem::new_test();
    editor.ui.cursor = v(0, 0, 0);

    editor.config.snap_to_grid = true;
    editor.config.snap_step = 250;
    editor.move_cursor(2, -1);
    assert_eq!(editor.ui.cursor, v(500, 0, -250));

    editor.config.snap_to_grid = false;
    editor.move_cursor(1, 1);
    assert_eq!(editor.ui.cursor, v(1500, 0, 750));
}

#[test]
fn toggle_timeline_playback_switches_modes_and_restores_previous_mode() {
    let mut state = editor_state();
    state.set_editor_mode(EditorMode::Place);
    state.timeline.playing = false;

    state.toggle_editor_timeline_playback();
    assert!(state.timeline.playing);
    assert_eq!(state.editor.mode, EditorMode::Null);

    state.toggle_editor_timeline_playback();
    assert!(!state.timeline.playing);
    assert_eq!(state.editor.mode, EditorMode::Place);
}
