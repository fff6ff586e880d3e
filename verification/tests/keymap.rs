use egakareta::commands::{AppCommand, EditorCommand, KeyBinding, KeyChord, TimingDivisionDirection};
use egakareta::keymap::{
    command_for_keybind_action, is_modifier_key, map_keybind_to_commands, map_modifier_key_to_command,
    map_pan_key_to_commands, normalize_binding_key, KeymapContext,
};
use egakareta::types::EditorMode;

fn editor_ctx() -> KeymapContext {
    KeymapContext {
        is_editor: true,
        is_playing: false,
        game_paused: false,
        practice_mode: false,
        has_block_selection: false,
        effective_mode: EditorMode::Place,
        selected_tap_step: None,
    }
}

fn bind(action: &str, key: &str, ctrl: bool, shift: bool, alt: bool) -> KeyBinding {
    KeyBinding {
        action: action.to_string(),
        chord: KeyChord { key: key.to_string(), ctrl, shift, alt },
    }
}

#[test]
fn modifier_keys_map_to_held_commands() {
    assert_eq!(
        map_modifier_key_to_command("ShiftLeft", true),
        Some(AppCommand::Editor(EditorCommand::SetShiftHeld(true)))
    );
    assert_eq!(
        map_modifier_key_to_command("ControlRight", false),
        Some(AppCommand::Editor(EditorCommand::SetCtrlHeld(false)))
    );
    assert_eq!(
        map_modifier_key_to_command("Alt", true),
        Some(AppCommand::Editor(EditorCommand::SetAltHeld(true)))
    );
    assert_eq!(map_modifier_key_to_command("m", true), None);

    assert!(is_modifier_key("Control"));
    assert!(is_modifier_key("AltLeft"));
    assert!(!is_modifier_key("m"));
    assert!(!is_modifier_key("ShiftLeft"));
}

#[test]
fn pan_keys_need_the_editor_and_matching_modifiers_to_press() {
    let bindings = vec![bind("pan_up", "w", false, false, false), bind("copy", "c", true, false, false)];
    assert!(map_pan_key_to_commands(false, &bindings, "w", true, false, false).is_empty());
    assert_eq!(
        map_pan_key_to_commands(true, &bindings, "w", true, false, false),
        vec![AppCommand::Editor(EditorCommand::SetPanUpHeld(true))]
    );
    assert!(map_pan_key_to_commands(true, &bindings, "w", true, true, false).is_empty());
    assert_eq!(
        map_pan_key_to_commands(true, &bindings, "W", false, true, false),
        vec![AppCommand::Editor(EditorCommand::SetPanUpHeld(false))]
    );
}

#[test]
fn keybind_actions_follow_the_editor_and_selection_gates() {
    let mut ctx = editor_ctx();
    assert_eq!(
        command_for_keybind_action(ctx, "toggle_settings", true),
        Some(AppCommand::Editor(EditorCommand::ToggleSettings))
    );
    assert_eq!(command_for_keybind_action(ctx, "toggle_settings", false), None);
    assert_eq!(
        command_for_keybind_action(ctx, "toggle_timeline_playback", true),
        Some(AppCommand::Editor(EditorCommand::ToggleTimelinePlayback))
    );
    assert_eq!(
        command_for_keybind_action(ctx, "playtest", true),
        Some(AppCommand::Editor(EditorCommand::Playtest))
    );
    assert_eq!(
        command_for_keybind_action(ctx, "remove_block", true),
        Some(AppCommand::Editor(EditorCommand::RemoveBlock))
    );
    ctx.effective_mode = EditorMode::Tapping;
    assert_eq!(command_for_keybind_action(ctx, "remove_block", true), None);
    ctx.selected_tap_step = Some(12);
    assert_eq!(
        command_for_keybind_action(ctx, "remove_block", true),
        Some(AppCommand::Editor(EditorCommand::RemoveTapAt(12)))
    );
    ctx.effective_mode = EditorMode::Place;
    ctx.selected_tap_step = None;
    assert_eq!(
        command_for_keybind_action(ctx, "copy", true),
        Some(AppCommand::Editor(EditorCommand::CopyBlock))
    );
    assert_eq!(
        command_for_keybind_action(ctx, "undo", true),
        Some(AppCommand::Editor(EditorCommand::Undo))
    );
    assert_eq!(command_for_keybind_action(ctx, "nudge_up", true), None);
    ctx.has_block_selection = true;
    assert_eq!(
        command_for_keybind_action(ctx, "nudge_up", false),
        Some(AppCommand::Editor(EditorCommand::NudgeSelected { dx: 0, dy: 1 }))
    );
    assert_eq!(command_for_keybind_action(ctx, "timeline_forward", true), None);
    ctx.has_block_selection = false;
    assert_eq!(
        command_for_keybind_action(ctx, "timeline_backward", false),
        Some(AppCommand::Editor(EditorCommand::ShiftTimelineToDivision(
            TimingDivisionDirection::Backward
        )))
    );
    assert_eq!(
        command_for_keybind_action(ctx, "spawn_rotate", true),
        Some(AppCommand::Editor(EditorCommand::RotatePlacementPreview))
    );
    ctx.effective_mode = EditorMode::Select;
    assert_eq!(
        command_for_keybind_action(ctx, "spawn_rotate", true),
        Some(AppCommand::Editor(EditorCommand::RotateSpawnDirection))
    );
    assert_eq!(
        command_for_keybind_action(ctx, "tab_tapping", true),
        Some(AppCommand::Editor(EditorCommand::SetMode(EditorMode::Tapping)))
    );
    assert_eq!(command_for_keybind_action(ctx, "game_turn", true), None);
    assert_eq!(command_for_keybind_action(ctx, "no_such_action", true), None);
}

#[test]
fn practice_checkpoint_key_only_maps_during_practice_mode() {
    let mut ctx = editor_ctx();
    ctx.is_editor = false;
    ctx.is_playing = true;
    assert_eq!(command_for_keybind_action(ctx, "practice_checkpoint", true), None);
    ctx.practice_mode = true;
    assert_eq!(
        command_for_keybind_action(ctx, "practice_checkpoint", true),
        Some(AppCommand::GameSetPracticeCheckpoint)
    );
    assert_eq!(
        command_for_keybind_action(ctx, "practice_remove_checkpoint", true),
        Some(AppCommand::GameRemovePracticeCheckpoint)
    );
    assert_eq!(command_for_keybind_action(ctx, "practice_checkpoint", false), None);
    assert_eq!(command_for_keybind_action(ctx, "practice_remove_checkpoint", false), None);
}

#[test]
fn menu_actions_only_outside_the_editor() {
    let mut ctx = editor_ctx();
    ctx.is_editor = false;
    assert_eq!(command_for_keybind_action(ctx, "game_turn", true), Some(AppCommand::TurnRight));
    assert_eq!(command_for_keybind_action(ctx, "menu_next_level", true), Some(AppCommand::NextLevel));
    assert_eq!(command_for_keybind_action(ctx, "menu_prev_level", true), Some(AppCommand::PrevLevel));
    assert_eq!(command_for_keybind_action(ctx, "toggle_editor", true), Some(AppCommand::ToggleEditor));
    assert_eq!(command_for_keybind_action(ctx, "copy", true), None);
    ctx.is_playing = true;
    assert_eq!(command_for_keybind_action(ctx, "toggle_settings", true), None);
    ctx.game_paused = true;
    assert_eq!(
        command_for_keybind_action(ctx, "toggle_settings", true),
        Some(AppCommand::Editor(EditorCommand::ToggleSettings))
    );
}

#[test]
fn bound_commands_need_exact_modifiers_and_come_in_binding_order() {
    let bindings = vec![
        bind("copy", "C", true, false, false),
        bind("undo", "z", true, false, false),
        bind("redo", "z", true, true, false),
        bind("paste", "c", true, false, false),
    ];
    let ctx = editor_ctx();
    assert_eq!(
        map_keybind_to_commands(ctx, &bindings, "c", true, true, true, false, false),
        vec![
            AppCommand::Editor(EditorCommand::CopyBlock),
            AppCommand::Editor(EditorCommand::PasteBlock)
        ]
    );
    assert!(map_keybind_to_commands(ctx, &bindings, "c", true, false, true, false, false).is_empty());
    assert_eq!(
        map_keybind_to_commands(ctx, &bindings, "Z", true, true, true, true, false),
        vec![AppCommand::Editor(EditorCommand::Redo)]
    );
    assert!(map_keybind_to_commands(ctx, &bindings, "c", true, true, true, false, true).is_empty());
}

#[test]
fn binding_keys_normalize_space_and_capitals() {
    assert_eq!(normalize_binding_key(" "), "Space");
    assert_eq!(normalize_binding_key("A"), "a");
    assert_eq!(normalize_binding_key("a"), "a");
    assert_eq!(normalize_binding_key("Enter"), "Enter");
    assert_eq!(normalize_binding_key("É"), "É");
}
