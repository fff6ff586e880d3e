use egakareta::commands::{AppCommand, EditorCommand, InputEvent, KeyBinding, KeyChord};
use egakareta::keymap::{is_modifier_key, map_modifier_key_to_command, map_pan_key_to_commands};
use egakareta::state::{Effect, State};
use egakareta::types::{AppPhase, BlockKind, EditorMode, LevelObject, SpawnDirection, Vec3i, CELL};

fn chord(action: &str, key: &str, ctrl: bool, shift: bool, alt: bool) -> KeyBinding {
    KeyBinding { action: action.to_string(), chord: KeyChord { key: key.to_string(), ctrl, shift, alt } }
}

/// The bindings these scenarios press.
fn bindings() -> Vec<KeyBinding> {
    vec![
        chord("mode_select", "1", false, false, false),
        chord("mode_move", "2", false, false, false),
        chord("mode_scale", "3", false, false, false),
        chord("mode_rotate", "4", false, false, false),
        chord("tab_compose", "1", true, false, false),
        chord("tab_timing", "2", true, false, false),
        chord("tab_tapping", "3", true, false, false),
        chord("pan_up", "w", false, false, false),
        chord("game_turn", "Space", false, false, false),
        chord("toggle_settings", "o", true, false, false),
        chord("toggle_perf_overlay", "F12", true, true, true),
        chord("copy", "c", true, false, false),
        chord("escape", "Escape", false, false, false),
    ]
}

fn new_state() -> State {
    State::new(vec!["__unit_test_level__".to_string()], 16, bindings())
}

fn new_editor_state() -> State {
    let mut state = new_state();
    state.enter_editor_phase("Dispatch".to_string());
    state.effects.clear();
    state
}

fn stone() -> LevelObject {
    LevelObject { position: Vec3i { x: 0, y: 0, z: 0 }, size: Vec3i { x: CELL, y: CELL, z: CELL }, kind: BlockKind::Standard, yaw_degrees: 0 }
}

fn key(state: &mut State, name: &str, pressed: bool, just_pressed: bool) {
    state.process_input_event(InputEvent::Key { key: name.to_string(), pressed, just_pressed });
}

#[test]
fn test_command_routing_navigation() {
    let mut state = new_state();
    assert_eq!(state.phase, AppPhase::Menu);
    state.dispatch(AppCommand::ToggleEditor);
    assert_eq!(state.phase, AppPhase::Editor);
}

#[test]
fn test_command_routing_editor_modes() {
    let mut state = new_editor_state();
    for mode in [
        EditorMode::Select,
        EditorMode::Move,
        EditorMode::Scale,
        EditorMode::Rotate,
        EditorMode::Timing,
        EditorMode::Place,
        EditorMode::Tapping,
    ] {
        state.dispatch(AppCommand::Editor(EditorCommand::SetMode(mode)));
        assert_eq!(state.editor.mode, mode);
    }
}

#[test]
fn editor_set_mode_during_playback_keeps_null_mode() {
    let mut state = new_editor_state();

    state.dispatch(AppCommand::Editor(EditorCommand::SetMode(EditorMode::Timing)));
    state.dispatch(AppCommand::Editor(EditorCommand::ToggleTimelinePlayback));
    assert!(state.timeline.playing);
    assert_eq!(state.editor.mode, EditorMode::Null);
    assert_eq!(state.timeline.last_mode, Some(EditorMode::Timing));

    state.dispatch(AppCommand::Editor(EditorCommand::SetMode(EditorMode::Place)));
    assert!(state.timeline.playing);
    assert_eq!(state.editor.mode, EditorMode::Null);
    assert_eq!(state.timeline.last_mode, Some(EditorMode::Place));
    assert_eq!(state.editor_effective_mode_for_playback(), EditorMode::Place);

    state.dispatch(AppCommand::Editor(EditorCommand::ToggleTimelinePlayback));
    assert!(!state.timeline.playing);
    assert_eq!(state.editor.mode, EditorMode::Place);
    assert!(state.timeline.last_mode.is_none());
}

#[test]
fn editor_escape_deselects_blocks_and_taps_before_playback_or_timeline() {
    let mut state = new_editor_state();
    state.editor.objects = vec![stone()];
    state.editor.selected_block_indices = vec![0];
    state.set_editor_timeline_step(5);
    state.editor_add_tap();
    state.set_editor_timeline_step(8);
    state.timeline.playing = true;
    assert_eq!(state.timeline.selected_tap, Some(0));

    state.dispatch(AppCommand::Editor(EditorCommand::Escape));
    assert!(state.editor.selected_block_indices.is_empty());
    assert!(state.editor.selected_block_index.is_none());
    assert_eq!(state.timeline.selected_tap, None);
    assert!(state.timeline.playing);
    assert_eq!(state.timeline.step, 8);

    state.dispatch(AppCommand::Editor(EditorCommand::Escape));
    assert!(!state.timeline.playing);
    assert_eq!(state.timeline.step, 8);
}

#[test]
fn test_resize_routing() {
    let mut state = new_state();
    state.process_input_event(InputEvent::Resize { width: 1280, height: 720 });
    assert_eq!(state.effects, vec![Effect::ResizeSurface { width: 1280, height: 720 }]);
}

#[test]
fn r_in_place_mode_rotates_preview_without_rotating_spawn() {
    let mut state = new_editor_state();
    let ctx = state.keymap_context();
    let command = egakareta::keymap::command_for_keybind_action(ctx, "spawn_rotate", true);
    assert_eq!(command, Some(AppCommand::Editor(EditorCommand::RotatePlacementPreview)));
    state.dispatch(command.unwrap());
    assert_eq!(state.editor.spawn.direction, SpawnDirection::Forward);
    assert_eq!(state.editor.placement_yaw, 90);
}

#[test]
fn placing_block_selects_it_and_enters_scale_mode_by_default() {
    let mut state = new_editor_state();
    state.dispatch(AppCommand::Editor(EditorCommand::SetMode(EditorMode::Place)));
    state.dispatch(AppCommand::Editor(EditorCommand::SetBlockKind(BlockKind::Void)));
    state.dispatch(AppCommand::Editor(EditorCommand::RotatePlacementPreview));
    state.dispatch(AppCommand::TurnRight);

    assert_eq!(state.editor.objects.len(), 1);
    assert_eq!(state.editor.mode, EditorMode::Scale);
    assert_eq!(state.editor.selected_block_index, Some(0));
    assert_eq!(state.editor.selected_block_indices, vec![0]);
    assert_eq!(state.editor.hovered_block_index, Some(0));
    assert_eq!(state.editor.objects[0].kind, BlockKind::Void);
    assert_eq!(state.editor.objects[0].yaw_degrees, 90);
}

#[test]
fn placement_turn_comes_back_after_a_full_turn() {
    let mut state = new_editor_state();
    for expected in [90, 180, 270, 0] {
        state.dispatch(AppCommand::Editor(EditorCommand::RotatePlacementPreview));
        assert_eq!(state.editor.placement_yaw, expected);
    }
}

#[test]
fn cursor_moves_along_z_by_the_grid_step_and_back() {
    let mut state = new_editor_state();
    state.set_editor_snap_step(250);
    state.move_editor_up();
    assert_eq!(state.editor.cursor, Vec3i { x: 0, y: 0, z: 250 });
    state.dispatch(AppCommand::NextLevel);
    assert_eq!(state.editor.cursor, Vec3i { x: 250, y: 0, z: 250 });
    state.set_editor_ctrl_held(true);
    state.move_editor_down();
    assert_eq!(state.editor.cursor, Vec3i { x: 250, y: 0, z: -750 });
    state.move_editor_up();
    assert_eq!(state.editor.cursor, Vec3i { x: 250, y: 0, z: 250 });
    for _ in 0..40 {
        state.move_editor_up();
    }
    assert_eq!(state.editor.cursor.z, 40_250);
}

#[test]
fn playtest_and_leaving_it_stop_the_timeline() {
    let mut state = new_editor_state();
    state.toggle_editor_timeline_playback();
    assert!(state.timeline.playing);
    state.editor_playtest();
    assert_eq!(state.phase, AppPhase::Playing);
    assert!(!state.timeline.playing);
    state.timeline.playing = true;
    state.back_to_menu();
    assert_eq!(state.phase, AppPhase::Editor);
    assert!(!state.timeline.playing);
    state.timeline.playing = true;
    state.back_to_menu();
    assert_eq!(state.phase, AppPhase::Menu);
    assert!(!state.timeline.playing);
}

#[test]
fn shift_placing_block_keeps_stamp_mode_without_selection() {
    let mut state = new_editor_state();
    state.dispatch(AppCommand::Editor(EditorCommand::SetMode(EditorMode::Place)));
    state.dispatch(AppCommand::Editor(EditorCommand::SetShiftHeld(true)));
    state.dispatch(AppCommand::TurnRight);

    assert_eq!(state.editor.objects.len(), 1);
    assert_eq!(state.editor.mode, EditorMode::Place);
    assert!(state.editor.selected_block_index.is_none());
    assert!(state.editor.selected_block_indices.is_empty());
}

#[test]
fn test_keyboard_modifier_aliases_keep_consistent_state() {
    let mut state = new_editor_state();
    key(&mut state, "Control", true, true);
    assert!(state.input.ctrl_held);
    key(&mut state, "ControlLeft", false, false);
    assert!(!state.input.ctrl_held);
    key(&mut state, "AltRight", true, true);
    assert!(state.input.alt_held);
    key(&mut state, "Alt", false, false);
    assert!(!state.input.alt_held);
}

#[test]
fn test_keyboard_space_aliases_have_matching_behavior() {
    for name in [" ", "Space"] {
        let mut state = new_state();
        assert_eq!(state.phase, AppPhase::Menu);
        key(&mut state, name, true, true);
        assert_eq!(state.phase, AppPhase::Playing);
    }
}

#[test]
fn test_keyboard_pan_keys_set_held_state_via_input_events() {
    let mut state = new_editor_state();
    key(&mut state, "w", true, true);
    assert!(state.input.pan_up_held);
    key(&mut state, "w", false, false);
    assert!(!state.input.pan_up_held);
}

#[test]
fn test_keyboard_numeric_hotkeys_switch_editor_modes() {
    let mut state = new_editor_state();
    key(&mut state, "1", true, true);
    assert_eq!(state.editor.mode, EditorMode::Select);
    key(&mut state, "2", true, true);
    assert_eq!(state.editor.mode, EditorMode::Move);
    key(&mut state, "3", true, true);
    assert_eq!(state.editor.mode, EditorMode::Scale);
    key(&mut state, "4", true, true);
    assert_eq!(state.editor.mode, EditorMode::Rotate);
    key(&mut state, "5", true, true);
    assert_eq!(state.editor.mode, EditorMode::Rotate);
}

#[test]
fn test_keyboard_tab_hotkeys_switch_editor_tabs() {
    let mut state = new_editor_state();
    key(&mut state, "Control", true, true);
    state.dispatch(AppCommand::Editor(EditorCommand::SetMode(EditorMode::Scale)));
    key(&mut state, "1", true, true);
    assert_eq!(state.editor.mode, EditorMode::Place);
    key(&mut state, "2", true, true);
    assert_eq!(state.editor.mode, EditorMode::Timing);
    key(&mut state, "3", true, true);
    assert_eq!(state.editor.mode, EditorMode::Tapping);
}

#[test]
fn test_keyboard_qe_do_not_switch_modes_in_editor() {
    let mut state = new_editor_state();
    state.dispatch(AppCommand::Editor(EditorCommand::SetMode(EditorMode::Scale)));
    key(&mut state, "q", true, true);
    assert_eq!(state.editor.mode, EditorMode::Scale);
    key(&mut state, "e", true, true);
    assert_eq!(state.editor.mode, EditorMode::Scale);
}

#[test]
fn test_ctrl_o_toggles_settings_sidebar() {
    let mut state = new_editor_state();
    assert!(!state.editor_show_settings());
    key(&mut state, "Control", true, true);
    key(&mut state, "o", true, true);
    assert!(state.editor_show_settings());
    key(&mut state, "o", true, true);
    assert!(!state.editor_show_settings());
}

#[test]
fn test_mapping_helpers_cover_editor_menu_and_selection_gates() {
    let mut state = new_editor_state();

    assert_eq!(
        map_modifier_key_to_command("ShiftLeft", true),
        Some(AppCommand::Editor(EditorCommand::SetShiftHeld(true)))
    );
    assert_eq!(
        map_modifier_key_to_command("ControlRight", false),
        Some(AppCommand::Editor(EditorCommand::SetCtrlHeld(false)))
    );
    assert_eq!(map_modifier_key_to_command("Alt", true), Some(AppCommand::Editor(EditorCommand::SetAltHeld(true))));
    assert_eq!(map_modifier_key_to_command("m", true), None);
    assert!(is_modifier_key("Control"));
    assert!(is_modifier_key("AltLeft"));
    assert!(!is_modifier_key("m"));

    assert!(!state.has_block_selection());
    state.editor.objects = vec![stone()];
    state.editor.selected_block_index = Some(0);
    assert!(state.has_block_selection());
    state.editor.selected_block_index = None;
    state.editor.selected_block_indices.clear();

    let binds = bindings();
    assert!(map_pan_key_to_commands(false, &binds, "w", true, false, false).is_empty());
    assert_eq!(
        map_pan_key_to_commands(true, &binds, "w", true, false, false),
        vec![AppCommand::Editor(EditorCommand::SetPanUpHeld(true))]
    );
    assert!(map_pan_key_to_commands(true, &binds, "w", true, true, false).is_empty());
    assert_eq!(
        map_pan_key_to_commands(true, &binds, "w", false, true, false),
        vec![AppCommand::Editor(EditorCommand::SetPanUpHeld(false))]
    );

    let action = |state: &State, name: &str, jp: bool| {
        egakareta::keymap::command_for_keybind_action(state.keymap_context(), name, jp)
    };
    assert_eq!(action(&state, "toggle_settings", true), Some(AppCommand::Editor(EditorCommand::ToggleSettings)));
    assert_eq!(action(&state, "toggle_settings", false), None);
    assert_eq!(
        action(&state, "toggle_timeline_playback", true),
        Some(AppCommand::Editor(EditorCommand::ToggleTimelinePlayback))
    );
    assert_eq!(action(&state, "playtest", true), Some(AppCommand::Editor(EditorCommand::Playtest)));
    assert_eq!(action(&state, "remove_block", true), Some(AppCommand::Editor(EditorCommand::RemoveBlock)));

    state.set_editor_mode(EditorMode::Tapping);
    state.set_editor_timeline_step(5);
    state.editor_add_tap();
    assert_eq!(action(&state, "remove_block", true), Some(AppCommand::Editor(EditorCommand::RemoveTapAt(5))));
    state.set_editor_mode(EditorMode::Place);
    assert_eq!(action(&state, "copy", true), Some(AppCommand::Editor(EditorCommand::CopyBlock)));
    assert_eq!(action(&state, "paste", true), Some(AppCommand::Editor(EditorCommand::PasteBlock)));
    assert_eq!(action(&state, "duplicate", true), Some(AppCommand::Editor(EditorCommand::DuplicateBlock)));
    assert_eq!(action(&state, "undo", true), Some(AppCommand::Editor(EditorCommand::Undo)));
    assert_eq!(action(&state, "redo", true), Some(AppCommand::Editor(EditorCommand::Redo)));

    assert_eq!(action(&state, "nudge_up", true), None);
    state.editor.selected_block_index = Some(0);
    assert_eq!(action(&state, "nudge_up", true), Some(AppCommand::Editor(EditorCommand::NudgeSelected { dx: 0, dy: 1 })));
    assert_eq!(action(&state, "nudge_down", true), Some(AppCommand::Editor(EditorCommand::NudgeSelected { dx: 0, dy: -1 })));
    assert_eq!(action(&state, "nudge_left", true), Some(AppCommand::Editor(EditorCommand::NudgeSelected { dx: -1, dy: 0 })));
    assert_eq!(action(&state, "nudge_right", true), Some(AppCommand::Editor(EditorCommand::NudgeSelected { dx: 1, dy: 0 })));
    assert_eq!(action(&state, "timeline_forward", true), None);
    state.editor.selected_block_index = None;
    assert_eq!(action(&state, "pick_selected_block", true), Some(AppCommand::Editor(EditorCommand::PickSelectedBlock)));
    assert_eq!(action(&state, "pick_selected_block", false), None);
    assert_eq!(action(&state, "focus_camera_target", true), Some(AppCommand::Editor(EditorCommand::FocusCameraTarget)));
    assert_eq!(action(&state, "focus_camera_target", false), None);

    assert_eq!(action(&state, "escape", true), Some(AppCommand::Editor(EditorCommand::Escape)));
    assert_eq!(action(&state, "escape", false), None);
    assert_eq!(action(&state, "zoom_in", true), Some(AppCommand::Editor(EditorCommand::AdjustZoom(1))));
    assert_eq!(action(&state, "zoom_out", true), Some(AppCommand::Editor(EditorCommand::AdjustZoom(-1))));

    let mut menu = new_state();
    menu.phase = AppPhase::Menu;
    assert_eq!(action(&menu, "toggle_editor", true), Some(AppCommand::ToggleEditor));
    assert_eq!(action(&menu, "game_turn", true), Some(AppCommand::TurnRight));
    assert_eq!(action(&menu, "menu_prev_level", true), Some(AppCommand::PrevLevel));
    assert_eq!(action(&menu, "menu_next_level", true), Some(AppCommand::NextLevel));

    assert_eq!(action(&state, "spawn_set", true), Some(AppCommand::Editor(EditorCommand::SetSpawnHere)));
    assert_eq!(action(&state, "spawn_rotate", true), Some(AppCommand::Editor(EditorCommand::RotatePlacementPreview)));
    state.set_editor_mode(EditorMode::Move);
    assert_eq!(action(&state, "spawn_rotate", true), Some(AppCommand::Editor(EditorCommand::RotateSpawnDirection)));

    assert_eq!(action(&state, "add_camera_trigger", true), Some(AppCommand::Editor(EditorCommand::AddCameraTrigger)));
    assert_eq!(
        action(&state, "add_camera_follow_trigger", true),
        Some(AppCommand::Editor(EditorCommand::AddCameraFollowTrigger))
    );
    assert_eq!(action(&state, "export_obj", true), Some(AppCommand::Editor(EditorCommand::ExportBlockObj)));
    assert_eq!(action(&state, "toggle_perf_overlay", true), Some(AppCommand::Editor(EditorCommand::TogglePerfOverlay)));

    assert_eq!(action(&state, "mode_select", true), Some(AppCommand::Editor(EditorCommand::SetMode(EditorMode::Select))));
    assert_eq!(action(&state, "mode_move", true), Some(AppCommand::Editor(EditorCommand::SetMode(EditorMode::Move))));
    assert_eq!(action(&state, "mode_scale", true), Some(AppCommand::Editor(EditorCommand::SetMode(EditorMode::Scale))));
    assert_eq!(action(&state, "mode_rotate", true), Some(AppCommand::Editor(EditorCommand::SetMode(EditorMode::Rotate))));
    assert_eq!(action(&state, "mode_trigger", true), None);
    assert_eq!(action(&state, "tab_compose", true), Some(AppCommand::Editor(EditorCommand::SetMode(EditorMode::Place))));
    assert_eq!(action(&state, "tab_timing", true), Some(AppCommand::Editor(EditorCommand::SetMode(EditorMode::Timing))));
    assert_eq!(action(&state, "tab_tapping", true), Some(AppCommand::Editor(EditorCommand::SetMode(EditorMode::Tapping))));
    assert_eq!(action(&state, "does_not_exist", true), None);
}

#[test]
fn test_keyboard_capture_branch_handles_non_just_pressed_and_modifier_keys() {
    let mut state = new_editor_state();
    state.dispatch(AppCommand::Editor(EditorCommand::SetKeybindCapture(Some(("copy".to_string(), 0)))));

    state.process_keyboard_input("k", true, false);
    assert!(state.editor_keybind_capture_action().is_some());

    state.process_keyboard_input("Shift", true, true);
    assert!(state.editor_keybind_capture_action().is_some());

    state.process_keyboard_input("m", true, true);
    assert!(state.editor_keybind_capture_action().is_none());
    assert!(state.keybinds.iter().any(|b| b.action == "copy" && b.chord.key == "m"));
}

#[test]
fn dispatch_editor_routes_ui_session_and_input_commands() {
    let mut state = new_editor_state();

    state.dispatch_editor(EditorCommand::SetShowSettings(true));
    state.dispatch_editor(EditorCommand::ToggleSettings);
    assert!(!state.editor_show_settings());

    state.dispatch_editor(EditorCommand::SetShiftHeld(true));
    state.dispatch_editor(EditorCommand::SetCtrlHeld(true));
    state.dispatch_editor(EditorCommand::SetAltHeld(true));
    state.dispatch_editor(EditorCommand::SetPanUpHeld(true));
    state.dispatch_editor(EditorCommand::SetPanDownHeld(true));
    state.dispatch_editor(EditorCommand::SetPanLeftHeld(true));
    state.dispatch_editor(EditorCommand::SetPanRightHeld(true));

    assert!(state.input.shift_held);
    assert!(state.input.ctrl_held);
    assert!(state.input.alt_held);
    assert!(state.input.pan_up_held);
    assert!(state.input.pan_down_held);
    assert!(state.input.pan_left_held);
    assert!(state.input.pan_right_held);

    state.dispatch_editor(EditorCommand::MouseButton { button: 0, pressed: false });
    state.dispatch_editor(EditorCommand::TogglePlaceWindow);
    assert!(state.effects.contains(&Effect::Editor(EditorCommand::TogglePlaceWindow)));
}

#[test]
fn dispatch_editor_routes_selection_timeline_and_escape_commands() {
    let mut state = new_editor_state();
    state.editor.objects = vec![stone()];
    state.editor.selected_block_index = Some(0);
    state.editor.selected_block_indices = vec![0];

    state.dispatch_editor(EditorCommand::CopyBlock);
    assert!(state.editor.clipboard.is_some());

    state.set_editor_selected_block_position(Vec3i { x: 2000, y: 3000, z: 4000 });
    state.set_editor_selected_block_size(Vec3i { x: 5000, y: 6000, z: 7000 });
    assert_eq!(state.editor.objects[0].position, Vec3i { x: 2000, y: 3000, z: 4000 });
    assert_eq!(state.editor.objects[0].size, Vec3i { x: 5000, y: 6000, z: 7000 });

    state.dispatch_editor(EditorCommand::NudgeSelected { dx: 1, dy: 0 });
    state.dispatch_editor(EditorCommand::SnapSelectionToGrid);
    state.dispatch_editor(EditorCommand::FocusCameraTarget);
    state.dispatch_editor(EditorCommand::AddTap);
    state.dispatch_editor(EditorCommand::RemoveTapAt(0));
    assert!(state.timeline.tap_steps.is_empty());

    state.editor.selected_block_indices = vec![0];
    state.dispatch_editor(EditorCommand::Escape);
    assert!(state.editor.selected_block_indices.is_empty());

    state.set_editor_timeline_step(2);
    state.dispatch_editor(EditorCommand::Escape);
    assert_eq!(state.timeline.step, 0);

    state.dispatch_editor(EditorCommand::Escape);
    assert_eq!(state.phase, AppPhase::Menu);
}

#[test]
fn dispatch_editor_routes_mode_and_pointer_pick_commands() {
    let mut state = new_editor_state();
    state.editor.objects = vec![stone()];
    state.editor.selected_block_index = Some(0);
    state.editor.selected_block_indices = vec![0];

    state.dispatch_editor(EditorCommand::SetMode(EditorMode::Tapping));
    assert_eq!(state.editor.mode, EditorMode::Tapping);
    state.dispatch_editor(EditorCommand::SetMode(EditorMode::Timing));
    assert_eq!(state.editor.mode, EditorMode::Timing);
    state.dispatch_editor(EditorCommand::SetMode(EditorMode::Select));
    state.dispatch_editor(EditorCommand::PickSelectedBlock);
    assert_eq!(state.editor.mode, EditorMode::Select);

    state.effects.clear();
    state.dispatch_editor(EditorCommand::MouseButton { button: 1, pressed: true });
    assert_eq!(state.effects, vec![Effect::Editor(EditorCommand::MouseButton { button: 1, pressed: true })]);
}
