use egakareta::commands::{AppCommand, EditorCommand, InputEvent, KeyBinding, KeyChord};
use egakareta::state::{Effect, State};
use egakareta::types::{AppPhase, BlockKind, EditorDrag, EditorMode, GizmoAxis, GizmoDragKind, LevelObject, SpawnDirection, Vec3i};

fn bind(action: &str, key: &str, ctrl: bool) -> KeyBinding {
    KeyBinding { action: action.to_string(), chord: KeyChord { key: key.to_string(), ctrl, shift: false, alt: false } }
}

fn default_bindings() -> Vec<KeyBinding> {
    vec![
        bind("copy", "c", true),
        bind("paste", "v", true),
        bind("undo", "z", true),
        bind("redo", "y", true),
        bind("escape", "Escape", false),
        bind("pan_up", "w", false),
        bind("game_turn", "Space", false),
        bind("toggle_editor", "e", false),
    ]
}

fn new_state() -> State {
    State::new(vec!["Flowerfield".to_string(), "Golden Haze".to_string(), "Cliffs".to_string()], 16, default_bindings())
}

fn new_editor_state() -> State {
    let mut state = new_state();
    state.enter_editor_phase("EditorTest".to_string());
    state.effects.clear();
    state
}

#[test]
fn new_state_starts_in_the_menu_with_the_first_level() {
    let state = new_state();
    assert_eq!(state.phase, AppPhase::Menu);
    assert_eq!(state.menu.selected_level, 0);
    assert_eq!(state.editor_timeline_length(), 64);
    assert_eq!(state.editor_music_source(), "music.mp3");
    assert!(state.effects.is_empty());
}

#[test]
fn menu_level_choice_wraps_both_ways() {
    let mut state = new_state();
    state.prev_level();
    assert_eq!(state.menu.selected_level, 2);
    state.next_level();
    assert_eq!(state.menu.selected_level, 0);
    state.next_level();
    state.next_level();
    state.next_level();
    assert_eq!(state.menu.selected_level, 0);
}

#[test]
fn turning_in_the_menu_starts_the_highlighted_level() {
    let mut state = new_state();
    state.next_level();
    state.turn_right();
    assert_eq!(state.phase, AppPhase::Playing);
    assert_eq!(state.session.playing_level_name, Some("Golden Haze".to_string()));
    assert_eq!(
        state.effects,
        vec![
            Effect::ResetPlayingCamera,
            Effect::StopAudio,
            Effect::LoadPlayingLevel { level_name: "Golden Haze".to_string() }
        ]
    );
    state.effects.clear();
    state.turn_right();
    assert!(state.game.started);
    assert_eq!(state.effects, vec![Effect::StartLevelAudio { level_name: "Golden Haze".to_string() }]);
    state.effects.clear();
    state.turn_right();
    assert_eq!(state.effects, vec![Effect::TurnPlayer]);
    state.game.game_over = true;
    state.effects.clear();
    state.turn_right();
    assert!(!state.game.started);
    assert!(!state.game.game_over);
    assert_eq!(
        state.effects,
        vec![
            Effect::StopAudio,
            Effect::LoadPlayingLevel { level_name: "Golden Haze".to_string() },
            Effect::ResetPlayingCamera
        ]
    );
}

#[test]
fn escape_toggles_pause_for_real_play_without_returning_to_menu() {
    let mut state = new_state();
    state.phase = AppPhase::Playing;
    state.session.playtesting_editor = false;
    state.game.started = true;

    state.dispatch(AppCommand::Editor(EditorCommand::Escape));
    assert_eq!(state.phase, AppPhase::Playing);
    assert!(state.is_game_paused());

    state.dispatch(AppCommand::Editor(EditorCommand::Escape));
    assert_eq!(state.phase, AppPhase::Playing);
    assert!(!state.is_game_paused());
    assert_eq!(
        state.effects,
        vec![Effect::ClearPendingGameplayInputs, Effect::PauseAudio, Effect::ResumeAudio]
    );
}

#[test]
fn resume_from_pause_starts_waiting_real_gameplay() {
    let mut state = new_state();
    state.phase = AppPhase::Playing;
    state.session.playtesting_editor = false;
    state.session.game_paused = true;
    state.game.started = false;

    state.dispatch(AppCommand::GameResume);

    assert!(!state.is_game_paused());
    assert!(state.game.started);
}

#[test]
fn escape_during_playtest_still_returns_to_editor() {
    let mut state = new_state();
    state.enter_editor_phase("Playtest Escape".to_string());
    state.place_editor_block();
    state.editor_playtest();
    assert_eq!(state.phase, AppPhase::Playing);
    assert!(state.session.playtesting_editor);

    state.dispatch(AppCommand::Editor(EditorCommand::Escape));

    assert_eq!(state.phase, AppPhase::Editor);
    assert!(!state.is_game_paused());
    assert_eq!(state.editor_objects().len(), 1);
}

#[test]
fn test_command_chain_undo_redo() {
    let mut state = new_editor_state();
    assert_eq!(state.phase, AppPhase::Editor);

    let initial_count = state.editor.objects.len();
    state.dispatch(AppCommand::TurnRight);
    assert_eq!(state.editor.objects.len(), initial_count + 1);

    state.dispatch(AppCommand::Editor(EditorCommand::Undo));
    assert_eq!(state.editor.objects.len(), initial_count);

    state.dispatch(AppCommand::Editor(EditorCommand::Redo));
    assert_eq!(state.editor.objects.len(), initial_count + 1);
}

#[test]
fn test_complex_command_sequence() {
    let mut state = new_editor_state();
    let initial_count = state.editor.objects.len();

    state.dispatch(AppCommand::Editor(EditorCommand::SetBlockKind(BlockKind::Grass)));
    state.dispatch(AppCommand::NextLevel);
    state.dispatch(AppCommand::TurnRight);
    assert_eq!(state.editor.objects.len(), initial_count + 1);
    let block = *state.editor.objects.last().unwrap();
    assert_eq!(block.kind, BlockKind::Grass);
    let pos1 = block.position;
    assert_eq!(pos1, Vec3i { x: 1000, y: 0, z: 0 });

    state.dispatch(AppCommand::NextLevel);
    state.dispatch(AppCommand::TurnRight);
    assert_eq!(state.editor.objects.len(), initial_count + 2);
    let pos2 = state.editor.objects.last().unwrap().position;
    assert!(pos1 != pos2, "Blocks should be at different positions. Pos1: {:?}, Pos2: {:?}", pos1, pos2);

    state.dispatch(AppCommand::Editor(EditorCommand::Undo));
    assert_eq!(state.editor.objects.len(), initial_count + 1);
    assert_eq!(state.editor.objects.last().unwrap().position, pos1);

    state.dispatch(AppCommand::Editor(EditorCommand::Undo));
    assert_eq!(state.editor.objects.len(), initial_count);
}

#[test]
fn editor_escape_deselects_then_stops_playback_then_rewinds_then_leaves() {
    let mut state = new_editor_state();
    state.place_editor_block();
    state.editor.selected_block_indices = vec![0];
    state.editor_add_tap();
    assert_eq!(state.timeline.selected_tap, Some(0));

    state.dispatch(AppCommand::Editor(EditorCommand::Escape));
    assert!(state.editor.selected_block_indices.is_empty());
    assert!(state.editor.selected_block_index.is_none());
    assert_eq!(state.timeline.selected_tap, None);

    state.toggle_editor_timeline_playback();
    assert!(state.timeline.playing);
    assert_eq!(state.editor.mode, EditorMode::Null);
    state.dispatch(AppCommand::Editor(EditorCommand::Escape));
    assert!(!state.timeline.playing);

    state.set_editor_timeline_step(5);
    state.dispatch(AppCommand::Editor(EditorCommand::Escape));
    assert_eq!(state.editor_timeline_step(), 0);
    assert_eq!(state.phase, AppPhase::Editor);

    state.dispatch(AppCommand::Editor(EditorCommand::Escape));
    assert_eq!(state.phase, AppPhase::Menu);
}

#[test]
fn test_custom_copy_keybind_replaces_default_combo() {
    let mut state = new_editor_state();
    state.dispatch(AppCommand::TurnRight);
    state.editor.selected_block_index = Some(0);
    state.editor.selected_block_indices = vec![0];
    state.editor.clipboard = None;

    state.dispatch(AppCommand::Editor(EditorCommand::SetKeybind {
        action: "copy".to_string(),
        slot: 0,
        chord: KeyChord { key: "b".to_string(), ctrl: true, shift: false, alt: false },
    }));

    state.process_input_event(InputEvent::Key { key: "Control".to_string(), pressed: true, just_pressed: true });
    state.process_input_event(InputEvent::Key { key: "b".to_string(), pressed: true, just_pressed: true });
    assert!(state.editor.clipboard.is_some());

    state.editor.clipboard = None;
    state.process_input_event(InputEvent::Key { key: "c".to_string(), pressed: true, just_pressed: true });
    assert!(state.editor.clipboard.is_none());
}

#[test]
fn keybind_capture_binds_the_next_key_or_is_cancelled_by_escape() {
    let mut state = new_editor_state();
    state.set_editor_keybind_capture_action(Some(("undo".to_string(), 1)));
    state.process_keyboard_input("Shift", true, true);
    state.process_keyboard_input("U", true, false);
    assert!(state.editor_keybind_capture_action().is_some());
    state.process_keyboard_input("U", true, true);
    assert!(state.editor_keybind_capture_action().is_none());
    assert_eq!(
        state.keybinds.last(),
        Some(&KeyBinding {
            action: "undo".to_string(),
            chord: KeyChord { key: "u".to_string(), ctrl: false, shift: true, alt: false }
        })
    );

    let count = state.keybinds.len();
    state.set_editor_keybind_capture_action(Some(("copy".to_string(), 0)));
    state.process_keyboard_input("Escape", true, true);
    assert!(state.editor_keybind_capture_action().is_none());
    assert_eq!(state.keybinds.len(), count);
    assert_eq!(state.keybinds[0].chord.key, "c");
}

#[test]
fn escape_closes_the_settings_sidebar_first() {
    let mut state = new_editor_state();
    state.dispatch(AppCommand::Editor(EditorCommand::ToggleSettings));
    assert!(state.editor_show_settings());
    state.process_keyboard_input("Escape", true, true);
    assert!(!state.editor_show_settings());
    assert_eq!(state.phase, AppPhase::Editor);
}

#[test]
fn pan_keys_follow_bindings_and_release() {
    let mut state = new_editor_state();
    state.process_input_event(InputEvent::Key { key: "w".to_string(), pressed: true, just_pressed: true });
    assert!(state.input.pan_up_held);
    state.process_input_event(InputEvent::Key { key: "w".to_string(), pressed: false, just_pressed: false });
    assert!(!state.input.pan_up_held);
}

#[test]
fn fixed_layout_keys_switch_kinds_and_undo_with_control() {
    let mut state = new_editor_state();
    state.handle_keyboard_input("3", true, true);
    assert_eq!(state.editor_selected_block_kind(), BlockKind::Dirt);
    state.handle_keyboard_input("Space", true, true);
    assert_eq!(state.editor.objects.len(), 1);
    assert_eq!(state.editor.objects[0].kind, BlockKind::Dirt);
    state.handle_keyboard_input("z", true, true);
    assert_eq!(state.editor.objects.len(), 1);
    state.handle_keyboard_input("Control", true, true);
    state.handle_keyboard_input("z", true, true);
    assert_eq!(state.editor.objects.len(), 0);
    state.handle_keyboard_input("ArrowRight", true, true);
    assert!(state.input.pan_right_held);
    state.handle_keyboard_input("ArrowRight", false, false);
    assert!(!state.input.pan_right_held);
    state.handle_keyboard_input("+", true, true);
    assert_eq!(state.effects.last(), Some(&Effect::Editor(EditorCommand::AdjustZoom(1))));
}

#[test]
fn fixed_layout_in_the_menu_chooses_and_starts_levels() {
    let mut state = new_state();
    state.handle_keyboard_input("d", true, true);
    assert_eq!(state.menu.selected_level, 1);
    state.handle_keyboard_input("a", true, true);
    state.handle_keyboard_input("a", true, true);
    assert_eq!(state.menu.selected_level, 2);
    state.handle_keyboard_input("e", true, true);
    assert_eq!(state.phase, AppPhase::Editor);
    assert_eq!(state.editor_level_name(), Some("Cliffs".to_string()));
    assert_eq!(state.effects.last(), Some(&Effect::LoadEditorLevel { level_name: "Cliffs".to_string() }));
    state.handle_keyboard_input("Escape", true, true);
    assert_eq!(state.phase, AppPhase::Menu);
    assert_eq!(state.effects.last(), Some(&Effect::ShowMenuScene));
}

#[test]
fn mouse_buttons_drag_camera_end_drags_and_place() {
    let mut state = new_editor_state();
    state.handle_mouse_button(2, true);
    assert!(state.input.right_dragging);
    state.handle_mouse_button(2, false);
    assert!(!state.input.right_dragging);
    state.editor.drag = Some(EditorDrag::Gizmo { kind: GizmoDragKind::Resize, axis: GizmoAxis::Z });
    state.handle_mouse_button(0, false);
    assert!(state.editor.drag.is_none());
    state.handle_mouse_button(0, true);
    assert_eq!(state.editor.objects.len(), 1);
    state.dispatch_editor(EditorCommand::MouseButton { button: 0, pressed: true });
    assert_eq!(
        state.effects.last(),
        Some(&Effect::Editor(EditorCommand::MouseButton { button: 0, pressed: true }))
    );
}

#[test]
fn practice_mode_records_and_drops_checkpoints() {
    let mut state = new_state();
    state.turn_right();
    state.turn_right();
    assert!(state.game.started);
    state.set_practice_mode_enabled(true);
    assert!(state.is_practice_mode_enabled());
    state.set_practice_checkpoint();
    state.set_practice_checkpoint();
    assert_eq!(state.session.practice_checkpoints, 2);
    state.remove_practice_checkpoint();
    assert_eq!(state.session.practice_checkpoints, 1);
    state.pause_game();
    state.set_practice_checkpoint();
    assert_eq!(state.session.practice_checkpoints, 1);
    state.resume_game();
    state.set_practice_mode_enabled(false);
    assert!(!state.is_practice_mode_enabled());
    assert_eq!(state.session.practice_checkpoints, 0);
    assert!(!state.game.started);
    assert_eq!(state.effects.last(), Some(&Effect::ResetPlayingCamera));
}

#[test]
fn quitting_from_pause_returns_to_the_menu() {
    let mut state = new_state();
    state.turn_right();
    state.pause_game();
    state.quit_game_from_pause();
    assert_eq!(state.phase, AppPhase::Menu);
    assert!(!state.is_game_paused());
    assert_eq!(state.session.playing_level_name, None);
}

#[test]
fn taps_stay_sorted_and_inside_the_timeline() {
    let mut state = new_editor_state();
    state.set_editor_timeline_step(10);
    state.editor_add_tap();
    state.set_editor_timeline_step(3);
    state.editor_add_tap();
    state.editor_add_tap();
    state.set_editor_timeline_step(40);
    state.editor_add_tap();
    assert_eq!(state.editor_tap_steps(), &[3, 10, 40]);
    assert_eq!(state.timeline.selected_tap, Some(2));
    state.set_editor_timeline_length(20);
    assert_eq!(state.editor_tap_steps(), &[3, 10]);
    assert_eq!(state.editor_timeline_step(), 19);
    assert_eq!(state.timeline.selected_tap, None);
    state.set_editor_timeline_step(3);
    state.editor_remove_tap();
    assert_eq!(state.editor_tap_steps(), &[10]);
    state.editor_clear_taps();
    assert!(state.editor_tap_steps().is_empty());
    state.set_editor_timeline_length(0);
    assert_eq!(state.editor_timeline_length(), 1);
    assert_eq!(state.editor_timeline_step(), 0);
}

#[test]
fn selecting_a_tap_needs_tapping_mode() {
    let mut state = new_editor_state();
    state.editor_add_tap();
    state.timeline.selected_tap = None;
    assert!(!state.editor_set_selected_tap_index(Some(0)));
    state.set_editor_mode(EditorMode::Tapping);
    assert!(state.editor_set_selected_tap_index(Some(0)));
    assert_eq!(state.timeline.selected_tap, Some(0));
    assert!(state.editor_set_selected_tap_index(Some(7)));
    assert_eq!(state.timeline.selected_tap, None);
}

#[test]
fn spawn_follows_cursor_and_turns() {
    let mut state = new_editor_state();
    state.move_editor_cursor(2, -3);
    state.editor_set_spawn_here();
    assert_eq!(state.editor.spawn.position, Vec3i { x: 2000, y: 0, z: -3000 });
    state.editor_rotate_spawn_direction();
    assert_eq!(state.editor.spawn.direction, SpawnDirection::Right);
    state.editor_undo();
    assert_eq!(state.editor.spawn.direction, SpawnDirection::Forward);
    state.move_editor_cursor(100, 100);
    assert_eq!(state.editor.cursor, Vec3i { x: 102_000, y: 0, z: 97_000 });
}

#[test]
fn copy_and_paste_put_the_block_at_the_cursor_and_select_it() {
    let mut state = new_editor_state();
    state.set_editor_block_kind(BlockKind::Void);
    state.place_editor_block();
    state.set_editor_block_kind(BlockKind::Standard);
    state.editor_copy_block();
    assert!(state.editor.clipboard.is_some());
    state.move_editor_cursor(4, 0);
    state.editor_paste_block();
    assert_eq!(state.editor.objects.len(), 2);
    assert_eq!(state.editor.objects[1].position, Vec3i { x: 4000, y: 0, z: 0 });
    assert_eq!(state.editor.objects[1].kind, BlockKind::Void);
    assert_eq!(state.editor.selected_block_index, Some(1));
    assert_eq!(state.editor_selected_block_kind(), BlockKind::Void);
}

#[test]
fn removing_takes_the_selection_else_the_block_under_the_cursor() {
    let mut state = new_editor_state();
    state.place_editor_block();
    state.move_editor_cursor(1, 0);
    state.place_editor_block();
    state.move_editor_cursor(1, 0);
    state.place_editor_block();
    state.editor.selected_block_indices = vec![2, 0];
    state.editor_remove_block();
    assert_eq!(state.editor.objects.len(), 1);
    assert_eq!(state.editor.objects[0].position, Vec3i { x: 1000, y: 0, z: 0 });
    state.editor_remove_block();
    assert_eq!(state.editor.objects.len(), 1);
    state.move_editor_cursor(-1, 0);
    state.editor_remove_block();
    assert!(state.editor.objects.is_empty());
}

#[test]
fn playback_keeps_the_chosen_mode_until_it_stops() {
    let mut state = new_editor_state();
    state.set_editor_mode(EditorMode::Select);
    state.toggle_editor_timeline_playback();
    assert_eq!(state.editor_effective_mode_for_playback(), EditorMode::Select);
    state.dispatch_editor(EditorCommand::SetMode(EditorMode::Move));
    assert_eq!(state.editor.mode, EditorMode::Null);
    assert_eq!(state.editor_effective_mode_for_playback(), EditorMode::Move);
    state.toggle_editor_timeline_playback();
    assert_eq!(state.editor.mode, EditorMode::Move);
    assert_eq!(state.effects.last(), Some(&Effect::StopAudio));
}

#[test]
fn resize_ignores_empty_sizes() {
    let mut state = new_state();
    state.process_input_event(InputEvent::Resize { width: 0, height: 10 });
    assert!(state.effects.is_empty());
    state.dispatch(AppCommand::ResizeSurface { width: 800, height: 600 });
    assert_eq!(state.effects, vec![Effect::ResizeSurface { width: 800, height: 600 }]);
}

#[test]
fn undo_stack_keeps_at_most_its_limit() {
    let mut state = new_editor_state();
    for _ in 0..300 {
        state.place_editor_block();
    }
    assert_eq!(state.history.undo.len(), 256);
    assert!(state.history.redo.is_empty());
}

fn block_at(x: i64, y: i64, z: i64) -> LevelObject {
    LevelObject {
        position: Vec3i { x, y, z },
        size: Vec3i { x: 1000, y: 1000, z: 1000 },
        kind: BlockKind::Standard,
        yaw_degrees: 0,
    }
}

#[test]
fn snap_selection_to_grid_snaps_all_selected_blocks_to_configured_step() {
    let mut state = new_editor_state();
    state.set_editor_snap_step(500);
    state.editor.objects = vec![block_at(240, 260, -740), block_at(1760, 0, 2240), block_at(9100, 0, 9100)];
    state.editor.selected_block_index = Some(0);
    state.editor.selected_block_indices = vec![0, 1];

    assert!(state.editor_snap_selection_to_grid());

    assert_eq!(state.editor.objects[0].position, Vec3i { x: 0, y: 500, z: -500 });
    assert_eq!(state.editor.objects[1].position, Vec3i { x: 2000, y: 0, z: 2000 });
    assert_eq!(state.editor.objects[2].position, Vec3i { x: 9100, y: 0, z: 9100 });
    assert_eq!(state.editor.cursor, Vec3i { x: 0, y: 500, z: -500 });
    assert_eq!(state.history.undo.len(), 1);

    assert!(!state.editor_snap_selection_to_grid());
    assert_eq!(state.history.undo.len(), 1);

    state.editor_undo();
    assert_eq!(state.editor.objects[0].position, Vec3i { x: 240, y: 260, z: -740 });
}

#[test]
fn snapping_raises_blocks_below_the_ground_and_needs_a_selection() {
    let mut state = new_editor_state();
    state.editor.objects = vec![block_at(1400, -2600, 0)];
    assert!(!state.editor_snap_selection_to_grid());
    assert_eq!(state.editor.objects[0].position, Vec3i { x: 1400, y: -2600, z: 0 });

    state.editor.selected_block_index = Some(0);
    state.dispatch_editor(EditorCommand::SnapSelectionToGrid);
    assert_eq!(state.editor.objects[0].position, Vec3i { x: 1000, y: 0, z: 0 });
    assert_eq!(state.editor.cursor, Vec3i { x: 1000, y: 0, z: 0 });
}

#[test]
fn snapping_a_selected_tap_is_left_to_the_shell() {
    let mut state = new_editor_state();
    state.editor_add_tap();
    state.effects.clear();
    assert!(!state.editor_snap_selection_to_grid());
    assert_eq!(state.effects, vec![Effect::Editor(EditorCommand::SnapSelectionToGrid)]);
}

#[test]
fn snap_step_has_a_smallest_value() {
    let mut state = new_editor_state();
    assert_eq!(state.editor_snap_step(), 1000);
    state.set_editor_snap_step(10);
    assert_eq!(state.editor_snap_step(), 50);
    state.set_editor_snap_step(2500);
    assert_eq!(state.editor_snap_step(), 2500);
}

#[test]
fn moving_the_selected_block_snaps_it_and_the_cursor_follows() {
    let mut state = new_editor_state();
    state.editor.objects = vec![block_at(0, 0, 0)];
    state.editor.selected_block_index = Some(0);

    state.set_editor_selected_block_position(Vec3i { x: 1400, y: -300, z: -200 });
    assert_eq!(state.editor.objects[0].position, Vec3i { x: 1000, y: 0, z: 0 });
    assert_eq!(state.editor.cursor, Vec3i { x: 1000, y: 0, z: 0 });
    assert_eq!(state.history.undo.len(), 1);

    state.dispatch_editor(EditorCommand::SetSnapToGrid(false));
    state.set_editor_selected_block_position(Vec3i { x: 1400, y: -300, z: -200 });
    assert_eq!(state.editor.objects[0].position, Vec3i { x: 1400, y: -300, z: 0 });
    assert_eq!(state.editor.cursor, Vec3i { x: 1000, y: -1000, z: 0 });
}

#[test]
fn resizing_the_selected_block_keeps_a_smallest_extent() {
    let mut state = new_editor_state();
    state.editor.objects = vec![block_at(0, 0, 0)];
    state.editor.selected_block_index = Some(0);

    state.set_editor_selected_block_size(Vec3i { x: 400, y: 2600, z: 0 });
    assert_eq!(state.editor.objects[0].size, Vec3i { x: 1000, y: 3000, z: 1000 });

    state.set_editor_snap_to_grid(false);
    state.set_editor_selected_block_size(Vec3i { x: 100, y: 2600, z: 0 });
    assert_eq!(state.editor.objects[0].size, Vec3i { x: 250, y: 2600, z: 250 });
}

#[test]
fn changing_the_snap_step_resnaps_the_selected_block() {
    let mut state = new_editor_state();
    state.editor.objects = vec![block_at(1400, 0, 0)];
    state.editor.selected_block_index = Some(0);
    state.set_editor_snap_step(2000);
    assert_eq!(state.editor.objects[0].position, Vec3i { x: 2000, y: 0, z: 0 });
    assert_eq!(state.editor.objects[0].size, Vec3i { x: 2000, y: 2000, z: 2000 });
}

#[test]
fn editor_nudge_selected_blocks_honors_guards_and_moves_when_possible() {
    let mut state = new_state();
    state.editor.objects = vec![block_at(0, 0, 0)];
    state.editor.selected_block_indices = vec![0];
    state.editor.selected_block_index = Some(0);
    assert!(!state.editor_nudge_selected_blocks(1, 0, (1, 0), (0, 1)));

    state.enter_editor_phase("EditorTest".to_string());
    state.editor.objects = vec![block_at(0, 0, 0)];
    state.editor.selected_block_indices = vec![0];
    state.editor.selected_block_index = Some(0);
    assert!(!state.editor_nudge_selected_blocks(0, 0, (1, 0), (0, 1)));

    assert!(state.editor_nudge_selected_blocks(1, 0, (1, 0), (0, 1)));
    assert_eq!(state.editor.objects[0].position, Vec3i { x: 1000, y: 0, z: 0 });
    assert_eq!(state.editor.cursor, Vec3i { x: 1000, y: 0, z: 0 });
}

#[test]
fn nudges_follow_the_camera_and_the_grid_step() {
    let mut state = new_editor_state();
    state.editor.objects = vec![block_at(0, 0, 0)];
    state.editor.selected_block_index = Some(0);

    assert!(state.editor_nudge_selected_blocks(1, 0, (0, 1), (1, 0)));
    assert_eq!(state.editor.objects[0].position, Vec3i { x: 0, y: 0, z: 1000 });

    assert!(state.editor_nudge_selected_blocks(1, 1, (1, 0), (0, 1)));
    assert_eq!(state.editor.objects[0].position, Vec3i { x: 1000, y: 0, z: 1000 });

    state.set_editor_snap_step(500);
    assert!(state.editor_nudge_selected_blocks(0, 1, (1, 0), (0, 1)));
    assert_eq!(state.editor.objects[0].position, Vec3i { x: 1000, y: 0, z: 1500 });
    assert_eq!(state.editor.cursor, Vec3i { x: 1000, y: 0, z: 1500 });

    state.set_editor_ctrl_held(true);
    assert!(state.editor_nudge_selected_blocks(-1, 0, (1, 0), (0, 1)));
    assert_eq!(state.editor.objects[0].position, Vec3i { x: 0, y: 0, z: 1500 });
}

#[test]
fn nudging_nothing_still_records_history() {
    let mut state = new_editor_state();
    state.editor.objects = vec![block_at(0, 0, 0)];
    assert!(!state.editor_nudge_selected_blocks(1, 0, (1, 0), (0, 1)));
    assert_eq!(state.history.undo.len(), 1);
    assert_eq!(state.editor.objects[0].position, Vec3i { x: 0, y: 0, z: 0 });
}

#[test]
fn nudging_back_restores_the_blocks() {
    let mut state = new_editor_state();
    state.set_editor_snap_step(500);
    state.editor.objects = vec![block_at(240, 0, 1760), block_at(0, 0, 0)];
    state.editor.selected_block_indices = vec![0, 1];
    assert!(state.editor_nudge_selected_blocks(0, 1, (1, 0), (0, 1)));
    assert_eq!(state.editor.objects[0].position, Vec3i { x: 240, y: 0, z: 2260 });
    assert!(state.editor_nudge_selected_blocks(0, -1, (1, 0), (0, 1)));
    assert_eq!(state.editor.objects[0].position, Vec3i { x: 240, y: 0, z: 1760 });
    assert_eq!(state.editor.objects[1].position, Vec3i { x: 0, y: 0, z: 0 });
}

#[test]
fn group_bounds_cover_every_selected_block() {
    let mut state = new_editor_state();
    let mut wide = block_at(3000, -2000, 500);
    wide.size = Vec3i { x: 2000, y: 1000, z: 1000 };
    state.editor.objects = vec![block_at(0, 0, 0), wide, block_at(9000, 9000, 0)];
    assert_eq!(state.selected_group_bounds(), None);
    state.editor.selected_block_indices = vec![1, 0];
    assert_eq!(
        state.selected_group_bounds(),
        Some((Vec3i { x: 0, y: -2000, z: 0 }, Vec3i { x: 5000, y: 3000, z: 1500 }))
    );
}
