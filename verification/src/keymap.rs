use vstd::prelude::*;
use crate::commands::{bindings_view, AppCommand, EditorCommand, KeyBinding, KeyBindingView, TimingDivisionDirection};
use crate::strings::{ascii_lower, ascii_lower_spec, empty_string, str_eq, string_push, to_owned_string};
use crate::types::EditorMode;

verus! {

/// The key name under which bindings are stored: a space is "Space", a
/// single ASCII capital letter is its small letter, any other name is kept.
pub open spec fn normalized_key(key: Seq<char>) -> Seq<char> {
    if key == seq![' '] {
        "Space"@
    } else if key.len() == 1 && 'A' <= key[0] && key[0] <= 'Z' {
        seq![ascii_lower_spec(key[0])]
    } else {
        key
    }
}

/// Returns the stored form of a key name: a space becomes "Space", a single
/// ASCII capital letter becomes its small letter, other names are kept.
pub fn normalize_binding_key(key: &str) -> (r: String)
    ensures
        r@ == normalized_key(key@),
{
    if str_eq(key, " ") {
        proof {
            reveal_strlit(" ");
            assert(" "@ =~= seq![' ']);
        }
        return to_owned_string("Space");
    }
    let n = vstd::string::StrSliceExecFns::unicode_len(key);
    if n == 1 {
        let c = vstd::string::StrSliceExecFns::get_char(key, 0);
        if 'A' <= c && c <= 'Z' {
            let mut s = empty_string();
            string_push(&mut s, ascii_lower(c));
            assert(s@ =~= seq![ascii_lower_spec(key@[0])]);
            return s;
        }
    }
    proof {
        reveal_strlit(" ");
        assert(" "@ =~= seq![' ']);
        if key@ == seq![' '] {
            assert(key@ == " "@);
        }
    }
    to_owned_string(key)
}

/// What the key mapping needs to know of the application.
#[derive(Clone, Copy, Debug, PartialEq, Eq, Structural)]
pub struct KeymapContext {
    /// The editor is open.
    pub is_editor: bool,
    /// A level is being played.
    pub is_playing: bool,
    /// Play is paused.
    pub game_paused: bool,
    /// Practice mode is on in a real play session.
    pub practice_mode: bool,
    /// Some block is selected.
    pub has_block_selection: bool,
    /// The editor mode in effect (the one kept for playback while the
    /// timeline plays).
    pub effective_mode: EditorMode,
    /// The timeline step of the selected tap, if a tap is selected.
    pub selected_tap_step: Option<u32>,
}

/// The editor command `c` when the editor is open and the key was just
/// pressed.
pub open spec fn editor_jp(ctx: KeymapContext, jp: bool, c: EditorCommand) -> Option<AppCommand> {
    if ctx.is_editor && jp {
        Some(AppCommand::Editor(c))
    } else {
        None
    }
}

/// The command an action name stands for in the given context, if any.
pub open spec fn keybind_command(ctx: KeymapContext, action: Seq<char>, jp: bool) -> Option<AppCommand> {
    if action == "toggle_settings"@ {
        if jp && (!ctx.is_playing || ctx.game_paused) {
            Some(AppCommand::Editor(EditorCommand::ToggleSettings))
        } else {
            None
        }
    } else if action == "toggle_timeline_playback"@ {
        editor_jp(ctx, jp, EditorCommand::ToggleTimelinePlayback)
    } else if action == "playtest"@ {
        editor_jp(ctx, jp, EditorCommand::Playtest)
    } else if action == "remove_block"@ {
        if ctx.is_editor && jp {
            if ctx.effective_mode == EditorMode::Tapping {
                match ctx.selected_tap_step {
                    Some(t) => Some(AppCommand::Editor(EditorCommand::RemoveTapAt(t))),
                    None => None,
                }
            } else {
                Some(AppCommand::Editor(EditorCommand::RemoveBlock))
            }
        } else {
            None
        }
    } else if action == "copy"@ {
        editor_jp(ctx, jp, EditorCommand::CopyBlock)
    } else if action == "paste"@ {
        editor_jp(ctx, jp, EditorCommand::PasteBlock)
    } else if action == "duplicate"@ {
        editor_jp(ctx, jp, EditorCommand::DuplicateBlock)
    } else if action == "undo"@ {
        editor_jp(ctx, jp, EditorCommand::Undo)
    } else if action == "redo"@ {
        editor_jp(ctx, jp, EditorCommand::Redo)
    } else if action == "nudge_up"@ {
        editor_jp(ctx, ctx.has_block_selection, EditorCommand::NudgeSelected { dx: 0, dy: 1 })
    } else if action == "nudge_down"@ {
        editor_jp(ctx, ctx.has_block_selection, EditorCommand::NudgeSelected { dx: 0, dy: -1i32 })
    } else if action == "nudge_left"@ {
        editor_jp(ctx, ctx.has_block_selection, EditorCommand::NudgeSelected { dx: -1i32, dy: 0 })
    } else if action == "nudge_right"@ {
        editor_jp(ctx, ctx.has_block_selection, EditorCommand::NudgeSelected { dx: 1, dy: 0 })
    } else if action == "snap_selection_to_grid"@ {
        editor_jp(
            ctx,
            jp && (ctx.has_block_selection || ctx.selected_tap_step is Some),
            EditorCommand::SnapSelectionToGrid,
        )
    } else if action == "pick_selected_block"@ {
        editor_jp(ctx, jp, EditorCommand::PickSelectedBlock)
    } else if action == "select_recent_block_1"@ {
        editor_jp(ctx, jp, EditorCommand::SelectRecentBlock(0))
    } else if action == "select_recent_block_2"@ {
        editor_jp(ctx, jp, EditorCommand::SelectRecentBlock(1))
    } else if action == "select_recent_block_3"@ {
        editor_jp(ctx, jp, EditorCommand::SelectRecentBlock(2))
    } else if action == "select_recent_block_4"@ {
        editor_jp(ctx, jp, EditorCommand::SelectRecentBlock(3))
    } else if action == "focus_camera_target"@ {
        editor_jp(ctx, jp, EditorCommand::FocusCameraTarget)
    } else if action == "add_transform_trigger"@ {
        editor_jp(ctx, jp && ctx.has_block_selection, EditorCommand::BeginTransformTriggerCapture)
    } else if action == "timeline_forward"@ {
        editor_jp(
            ctx,
            !ctx.has_block_selection,
            EditorCommand::ShiftTimelineToDivision(TimingDivisionDirection::Forward),
        )
    } else if action == "timeline_backward"@ {
        editor_jp(
            ctx,
            !ctx.has_block_selection,
            EditorCommand::ShiftTimelineToDivision(TimingDivisionDirection::Backward),
        )
    } else if action == "escape"@ {
        if jp { Some(AppCommand::Editor(EditorCommand::Escape)) } else { None }
    } else if action == "zoom_in"@ {
        if jp { Some(AppCommand::Editor(EditorCommand::AdjustZoom(1))) } else { None }
    } else if action == "zoom_out"@ {
        if jp { Some(AppCommand::Editor(EditorCommand::AdjustZoom(-1i32))) } else { None }
    } else if action == "toggle_editor"@ {
        if !ctx.is_editor && jp { Some(AppCommand::ToggleEditor) } else { None }
    } else if action == "toggle_place_window"@ {
        editor_jp(ctx, jp, EditorCommand::TogglePlaceWindow)
    } else if action == "game_turn"@ {
        if !ctx.is_editor && jp { Some(AppCommand::TurnRight) } else { None }
    } else if action == "practice_checkpoint"@ {
        if ctx.practice_mode && jp { Some(AppCommand::GameSetPracticeCheckpoint) } else { None }
    } else if action == "practice_remove_checkpoint"@ {
        if ctx.practice_mode && jp { Some(AppCommand::GameRemovePracticeCheckpoint) } else { None }
    } else if action == "menu_prev_level"@ {
        if !ctx.is_editor && jp { Some(AppCommand::PrevLevel) } else { None }
    } else if action == "menu_next_level"@ {
        if !ctx.is_editor && jp { Some(AppCommand::NextLevel) } else { None }
    } else if action == "spawn_set"@ {
        if jp { Some(AppCommand::Editor(EditorCommand::SetSpawnHere)) } else { None }
    } else if action == "spawn_rotate"@ {
        if jp {
            if ctx.effective_mode == EditorMode::Place {
                Some(AppCommand::Editor(EditorCommand::RotatePlacementPreview))
            } else {
                Some(AppCommand::Editor(EditorCommand::RotateSpawnDirection))
            }
        } else {
            None
        }
    } else if action == "add_camera_trigger"@ {
        editor_jp(ctx, jp, EditorCommand::AddCameraTrigger)
    } else if action == "add_camera_follow_trigger"@ {
        editor_jp(ctx, jp, EditorCommand::AddCameraFollowTrigger)
    } else if action == "export_obj"@ {
        editor_jp(ctx, jp, EditorCommand::ExportBlockObj)
    } else if action == "toggle_hitbox_visualization"@ {
        editor_jp(ctx, jp, EditorCommand::ToggleHitboxVisualization)
    } else if action == "toggle_perf_overlay"@ {
        if jp { Some(AppCommand::Editor(EditorCommand::TogglePerfOverlay)) } else { None }
    } else if action == "mode_select"@ {
        editor_jp(ctx, jp, EditorCommand::SetMode(EditorMode::Select))
    } else if action == "mode_move"@ {
        editor_jp(ctx, jp, EditorCommand::SetMode(EditorMode::Move))
    } else if action == "mode_scale"@ {
        editor_jp(ctx, jp, EditorCommand::SetMode(EditorMode::Scale))
    } else if action == "mode_rotate"@ {
        editor_jp(ctx, jp, EditorCommand::SetMode(EditorMode::Rotate))
    } else if action == "tab_compose"@ {
        editor_jp(ctx, jp, EditorCommand::SetMode(EditorMode::Place))
    } else if action == "tab_timing"@ {
        editor_jp(ctx, jp, EditorCommand::SetMode(EditorMode::Timing))
    } else if action == "tab_tapping"@ {
        editor_jp(ctx, jp, EditorCommand::SetMode(EditorMode::Tapping))
    } else {
        None
    }
}

fn editor_cmd(ctx: KeymapContext, jp: bool, c: EditorCommand) -> (r: Option<AppCommand>)
    ensures
        r == editor_jp(ctx, jp, c),
{
    if ctx.is_editor && jp {
        Some(AppCommand::Editor(c))
    } else {
        None
    }
}

/// Returns the command that the named action stands for in this context, or
/// `None` when the action is unknown or does not apply now.
pub fn command_for_keybind_action(ctx: KeymapContext, action: &str, jp: bool) -> (r: Option<AppCommand>)
    ensures
        r == keybind_command(ctx, action@, jp),
{
    if str_eq(action, "toggle_settings") {
        if jp && (!ctx.is_playing || ctx.game_paused) {
            Some(AppCommand::Editor(EditorCommand::ToggleSettings))
        } else {
            None
        }
    } else if str_eq(action, "toggle_timeline_playback") {
        editor_cmd(ctx, jp, EditorCommand::ToggleTimelinePlayback)
    } else if str_eq(action, "playtest") {
        editor_cmd(ctx, jp, EditorCommand::Playtest)
    } else if str_eq(action, "remove_block") {
        if ctx.is_editor && jp {
            if ctx.effective_mode == EditorMode::Tapping {
                match ctx.selected_tap_step {
                    Some(t) => Some(AppCommand::Editor(EditorCommand::RemoveTapAt(t))),
                    None => None,
                }
            } else {
                Some(AppCommand::Editor(EditorCommand::RemoveBlock))
            }
        } else {
            None
        }
    } else if str_eq(action, "copy") {
        editor_cmd(ctx, jp, EditorCommand::CopyBlock)
    } else if str_eq(action, "paste") {
        editor_cmd(ctx, jp, EditorCommand::PasteBlock)
    } else if str_eq(action, "duplicate") {
        editor_cmd(ctx, jp, EditorCommand::DuplicateBlock)
    } else if str_eq(action, "undo") {
        editor_cmd(ctx, jp, EditorCommand::Undo)
    } else if str_eq(action, "redo") {
        editor_cmd(ctx, jp, EditorCommand::Redo)
    } else if str_eq(action, "nudge_up") {
        editor_cmd(ctx, ctx.has_block_selection, EditorCommand::NudgeSelected { dx: 0, dy: 1 })
    } else if str_eq(action, "nudge_down") {
        editor_cmd(ctx, ctx.has_block_selection, EditorCommand::NudgeSelected { dx: 0, dy: -1i32 })
    } else if str_eq(action, "nudge_left") {
        editor_cmd(ctx, ctx.has_block_selection, EditorCommand::NudgeSelected { dx: -1i32, dy: 0 })
    } else if str_eq(action, "nudge_right") {
        editor_cmd(ctx, ctx.has_block_selection, EditorCommand::NudgeSelected { dx: 1, dy: 0 })
    } else if str_eq(action, "snap_selection_to_grid") {
        editor_cmd(
            ctx,
            jp && (ctx.has_block_selection || ctx.selected_tap_step.is_some()),
            EditorCommand::SnapSelectionToGrid,
        )
    } else if str_eq(action, "pick_selected_block") {
        editor_cmd(ctx, jp, EditorCommand::PickSelectedBlock)
    } else if str_eq(action, "select_recent_block_1") {
        editor_cmd(ctx, jp, EditorCommand::SelectRecentBlock(0))
    } else if str_eq(action, "select_recent_block_2") {
        editor_cmd(ctx, jp, EditorCommand::SelectRecentBlock(1))
    } else if str_eq(action, "select_recent_block_3") {
        editor_cmd(ctx, jp, EditorCommand::SelectRecentBlock(2))
    } else if str_eq(action, "select_recent_block_4") {
        editor_cmd(ctx, jp, EditorCommand::SelectRecentBlock(3))
    } else if str_eq(action, "focus_camera_target") {
        editor_cmd(ctx, jp, EditorCommand::FocusCameraTarget)
    } else if str_eq(action, "add_transform_trigger") {
        editor_cmd(ctx, jp && ctx.has_block_selection, EditorCommand::BeginTransformTriggerCapture)
    } else if str_eq(action, "timeline_forward") {
        editor_cmd(
            ctx,
            !ctx.has_block_selection,
            EditorCommand::ShiftTimelineToDivision(TimingDivisionDirection::Forward),
        )
    } else if str_eq(action, "timeline_backward") {
        editor_cmd(
            ctx,
            !ctx.has_block_selection,
            EditorCommand::ShiftTimelineToDivision(TimingDivisionDirection::Backward),
        )
    } else if str_eq(action, "escape") {
        if jp { Some(AppCommand::Editor(EditorCommand::Escape)) } else { None }
    } else if str_eq(action, "zoom_in") {
        if jp { Some(AppCommand::Editor(EditorCommand::AdjustZoom(1))) } else { None }
    } else if str_eq(action, "zoom_out") {
        if jp { Some(AppCommand::Editor(EditorCommand::AdjustZoom(-1i32))) } else { None }
    } else if str_eq(action, "toggle_editor") {
        if !ctx.is_editor && jp { Some(AppCommand::ToggleEditor) } else { None }
    } else if str_eq(action, "toggle_place_window") {
        editor_cmd(ctx, jp, EditorCommand::TogglePlaceWindow)
    } else if str_eq(action, "game_turn") {
        if !ctx.is_editor && jp { Some(AppCommand::TurnRight) } else { None }
    } else if str_eq(action, "practice_checkpoint") {
        if ctx.practice_mode && jp { Some(AppCommand::GameSetPracticeCheckpoint) } else { None }
    } else if str_eq(action, "practice_remove_checkpoint") {
        if ctx.practice_mode && jp { Some(AppCommand::GameRemovePracticeCheckpoint) } else { None }
    } else if str_eq(action, "menu_prev_level") {
        if !ctx.is_editor && jp { Some(AppCommand::PrevLevel) } else { None }
    } else if str_eq(action, "menu_next_level") {
        if !ctx.is_editor && jp { Some(AppCommand::NextLevel) } else { None }
    } else if str_eq(action, "spawn_set") {
        if jp { Some(AppCommand::Editor(EditorCommand::SetSpawnHere)) } else { None }
    } else if str_eq(action, "spawn_rotate") {
        if jp {
            if ctx.effective_mode == EditorMode::Place {
                Some(AppCommand::Editor(EditorCommand::RotatePlacementPreview))
            } else {
                Some(AppCommand::Editor(EditorCommand::RotateSpawnDirection))
            }
        } else {
            None
        }
    } else if str_eq(action, "add_camera_trigger") {
        editor_cmd(ctx, jp, EditorCommand::AddCameraTrigger)
    } else if str_eq(action, "add_camera_follow_trigger") {
        editor_cmd(ctx, jp, EditorCommand::AddCameraFollowTrigger)
    } else if str_eq(action, "export_obj") {
        editor_cmd(ctx, jp, EditorCommand::ExportBlockObj)
    } else if str_eq(action, "toggle_hitbox_visualization") {
        editor_cmd(ctx, jp, EditorCommand::ToggleHitboxVisualization)
    } else if str_eq(action, "toggle_perf_overlay") {
        if jp { Some(AppCommand::Editor(EditorCommand::TogglePerfOverlay)) } else { None }
    } else if str_eq(action, "mode_select") {
        editor_cmd(ctx, jp, EditorCommand::SetMode(EditorMode::Select))
    } else if str_eq(action, "mode_move") {
        editor_cmd(ctx, jp, EditorCommand::SetMode(EditorMode::Move))
    } else if str_eq(action, "mode_scale") {
        editor_cmd(ctx, jp, EditorCommand::SetMode(EditorMode::Scale))
    } else if str_eq(action, "mode_rotate") {
        editor_cmd(ctx, jp, EditorCommand::SetMode(EditorMode::Rotate))
    } else if str_eq(action, "tab_compose") {
        editor_cmd(ctx, jp, EditorCommand::SetMode(EditorMode::Place))
    } else if str_eq(action, "tab_timing") {
        editor_cmd(ctx, jp, EditorCommand::SetMode(EditorMode::Timing))
    } else if str_eq(action, "tab_tapping") {
        editor_cmd(ctx, jp, EditorCommand::SetMode(EditorMode::Tapping))
    } else {
        None
    }
}

/// The modifier-state command a modifier key stands for.
pub open spec fn modifier_command(key: Seq<char>, pressed: bool) -> Option<AppCommand> {
    if key == "Shift"@ || key == "ShiftLeft"@ || key == "ShiftRight"@ {
        Some(AppCommand::Editor(EditorCommand::SetShiftHeld(pressed)))
    } else if key == "Control"@ || key == "ControlLeft"@ || key == "ControlRight"@ {
        Some(AppCommand::Editor(EditorCommand::SetCtrlHeld(pressed)))
    } else if key == "Alt"@ || key == "AltLeft"@ || key == "AltRight"@ {
        Some(AppCommand::Editor(EditorCommand::SetAltHeld(pressed)))
    } else {
        None
    }
}

/// Returns the command that records a Shift, Control or Alt key (either
/// side) going down or up; `None` for any other key.
pub fn map_modifier_key_to_command(key: &str, pressed: bool) -> (r: Option<AppCommand>)
    ensures
        r == modifier_command(key@, pressed),
{
    if str_eq(key, "Shift") || str_eq(key, "ShiftLeft") || str_eq(key, "ShiftRight") {
        Some(AppCommand::Editor(EditorCommand::SetShiftHeld(pressed)))
    } else if str_eq(key, "Control") || str_eq(key, "ControlLeft") || str_eq(key, "ControlRight") {
        Some(AppCommand::Editor(EditorCommand::SetCtrlHeld(pressed)))
    } else if str_eq(key, "Alt") || str_eq(key, "AltLeft") || str_eq(key, "AltRight") {
        Some(AppCommand::Editor(EditorCommand::SetAltHeld(pressed)))
    } else {
        None
    }
}

/// The keys that cannot be captured as a binding on their own.
pub open spec fn is_modifier_key_spec(key: Seq<char>) -> bool {
    key == "Shift"@ || key == "Control"@ || key == "ControlLeft"@ || key == "ControlRight"@
        || key == "Alt"@ || key == "AltLeft"@ || key == "AltRight"@
}

/// Whether the key is Shift, Control (either side) or Alt (either side).
pub fn is_modifier_key(key: &str) -> (r: bool)
    ensures
        r == is_modifier_key_spec(key@),
{
    str_eq(key, "Shift") || str_eq(key, "Control") || str_eq(key, "ControlLeft") || str_eq(
        key,
        "ControlRight",
    ) || str_eq(key, "Alt") || str_eq(key, "AltLeft") || str_eq(key, "AltRight")
}

/// The binding's chord is the pressed key with exactly these modifiers.
pub open spec fn chord_matches(c: KeyBindingView, nk: Seq<char>, ctrl: bool, shift: bool, alt: bool) -> bool {
    normalized_key(c.key) == nk && c.ctrl == ctrl && c.shift == shift && c.alt == alt
}

/// The commands of the first `k` bindings whose chord matches, in order.
pub open spec fn keybind_commands(
    ctx: KeymapContext,
    bs: Seq<KeyBindingView>,
    nk: Seq<char>,
    jp: bool,
    ctrl: bool,
    shift: bool,
    alt: bool,
    k: int,
) -> Seq<AppCommand>
    decreases k,
{
    if k <= 0 {
        Seq::empty()
    } else {
        let prev = keybind_commands(ctx, bs, nk, jp, ctrl, shift, alt, k - 1);
        if chord_matches(bs[k - 1], nk, ctrl, shift, alt) {
            match keybind_command(ctx, bs[k - 1].action, jp) {
                Some(c) => prev.push(c),
                None => prev,
            }
        } else {
            prev
        }
    }
}

/// Every command bound to the pressed key with exactly the held modifiers,
/// in binding order; nothing for a released key.
pub open spec fn keybind_commands_for(
    ctx: KeymapContext,
    bs: Seq<KeyBindingView>,
    key: Seq<char>,
    jp: bool,
    pressed: bool,
    ctrl: bool,
    shift: bool,
    alt: bool,
) -> Seq<AppCommand> {
    if !pressed {
        Seq::empty()
    } else {
        keybind_commands(ctx, bs, normalized_key(key), jp, ctrl, shift, alt, bs.len() as int)
    }
}

/// Returns the commands bound to the pressed key with exactly the held
/// modifiers, in binding order; nothing when the key was released.
pub fn map_keybind_to_commands(
    ctx: KeymapContext,
    bindings: &Vec<KeyBinding>,
    key: &str,
    jp: bool,
    pressed: bool,
    ctrl: bool,
    shift: bool,
    alt: bool,
) -> (r: Vec<AppCommand>)
    ensures
        r@ == keybind_commands_for(ctx, bindings_view(bindings@), key@, jp, pressed, ctrl, shift, alt),
{
    let mut out: Vec<AppCommand> = Vec::new();
    if !pressed {
        return out;
    }
    let nk = normalize_binding_key(key);
    let mut k: usize = 0;
    while k < bindings.len()
        invariant
            k <= bindings.len(),
            nk@ == normalized_key(key@),
            out@ == keybind_commands(ctx, bindings_view(bindings@), nk@, jp, ctrl, shift, alt, k as int),
        decreases bindings.len() - k,
    {
        let b = &bindings[k];
        assert(bindings_view(bindings@)[k as int] == b@);
        let ck = normalize_binding_key(b.chord.key.as_str());
        if str_eq(ck.as_str(), nk.as_str()) && b.chord.ctrl == ctrl && b.chord.shift == shift
            && b.chord.alt == alt {
            match command_for_keybind_action(ctx, b.action.as_str(), jp) {
                Some(c) => out.push(c),
                None => {},
            }
        }
        k = k + 1;
    }
    out
}

/// The pan-key command an action name stands for.
pub open spec fn pan_command(action: Seq<char>, pressed: bool) -> Option<AppCommand> {
    if action == "pan_up"@ {
        Some(AppCommand::Editor(EditorCommand::SetPanUpHeld(pressed)))
    } else if action == "pan_down"@ {
        Some(AppCommand::Editor(EditorCommand::SetPanDownHeld(pressed)))
    } else if action == "pan_left"@ {
        Some(AppCommand::Editor(EditorCommand::SetPanLeftHeld(pressed)))
    } else if action == "pan_right"@ {
        Some(AppCommand::Editor(EditorCommand::SetPanRightHeld(pressed)))
    } else {
        None
    }
}

/// The pan commands of the first `k` bindings: a binding applies when its
/// key matches and, for a press, its Control and Alt match the held ones.
pub open spec fn pan_commands(
    bs: Seq<KeyBindingView>,
    nk: Seq<char>,
    pressed: bool,
    ctrl: bool,
    alt: bool,
    k: int,
) -> Seq<AppCommand>
    decreases k,
{
    if k <= 0 {
        Seq::empty()
    } else {
        let prev = pan_commands(bs, nk, pressed, ctrl, alt, k - 1);
        let c = bs[k - 1];
        if normalized_key(c.key) == nk && (!pressed || (c.ctrl == ctrl && c.alt == alt)) {
            match pan_command(c.action, pressed) {
                Some(cmd) => prev.push(cmd),
                None => prev,
            }
        } else {
            prev
        }
    }
}

/// The pan commands for a key in the editor; none outside the editor.
pub open spec fn pan_commands_for(
    is_editor: bool,
    bs: Seq<KeyBindingView>,
    key: Seq<char>,
    pressed: bool,
    ctrl: bool,
    alt: bool,
) -> Seq<AppCommand> {
    if !is_editor {
        Seq::empty()
    } else {
        pan_commands(bs, normalized_key(key), pressed, ctrl, alt, bs.len() as int)
    }
}

fn pan_command_for(action: &str, pressed: bool) -> (r: Option<AppCommand>)
    ensures
        r == pan_command(action@, pressed),
{
    if str_eq(action, "pan_up") {
        Some(AppCommand::Editor(EditorCommand::SetPanUpHeld(pressed)))
    } else if str_eq(action, "pan_down") {
        Some(AppCommand::Editor(EditorCommand::SetPanDownHeld(pressed)))
    } else if str_eq(action, "pan_left") {
        Some(AppCommand::Editor(EditorCommand::SetPanLeftHeld(pressed)))
    } else if str_eq(action, "pan_right") {
        Some(AppCommand::Editor(EditorCommand::SetPanRightHeld(pressed)))
    } else {
        None
    }
}

/// Returns the pan-hold commands that the key triggers in the editor: a
/// press needs the binding's Control and Alt to match the held ones, a
/// release does not. Outside the editor there are none.
pub fn map_pan_key_to_commands(
    is_editor: bool,
    bindings: &Vec<KeyBinding>,
    key: &str,
    pressed: bool,
    ctrl: bool,
    alt: bool,
) -> (r: Vec<AppCommand>)
    ensures
        r@ == pan_commands_for(is_editor, bindings_view(bindings@), key@, pressed, ctrl, alt),
{
    let mut out: Vec<AppCommand> = Vec::new();
    if !is_editor {
        return out;
    }
    let nk = normalize_binding_key(key);
    let mut k: usize = 0;
    while k < bindings.len()
        invariant
            k <= bindings.len(),
            nk@ == normalized_key(key@),
            out@ == pan_commands(bindings_view(bindings@), nk@, pressed, ctrl, alt, k as int),
        decreases bindings.len() - k,
    {
        let b = &bindings[k];
        assert(bindings_view(bindings@)[k as int] == b@);
        let ck = normalize_binding_key(b.chord.key.as_str());
        if str_eq(ck.as_str(), nk.as_str()) && (!pressed || (b.chord.ctrl == ctrl && b.chord.alt
            == alt)) {
            match pan_command_for(b.action.as_str(), pressed) {
                Some(c) => out.push(c),
                None => {},
            }
        }
        k = k + 1;
    }
    out
}

} // verus!
