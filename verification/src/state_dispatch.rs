use vstd::prelude::*;
use crate::commands::{AppCommand, EditorCommand, InputEvent, KeyChord};
use crate::state_laws::{lemma_dispatch_editor_keeps_wf, lemma_dispatch_keeps_wf};
use crate::keymap::{
    is_modifier_key,
    is_modifier_key_spec,
    keybind_commands_for,
    map_keybind_to_commands,
    map_modifier_key_to_command,
    map_pan_key_to_commands,
    modifier_command,
    normalized_key,
    normalize_binding_key,
    pan_commands_for,
};
use crate::state::{Effect, InputState, State, StateView, UiState};
use crate::fixed::SNAP_STEP_LIMIT;
use crate::snapping::blocks_snappable;
use crate::strings::str_eq;
use crate::types::{AppPhase, BlockKind, EditorMode};

verus! {

/// Mode, block kind, placement turn and snapping commands.
pub open spec fn dispatch_group_mode(cmd: EditorCommand) -> bool {
    cmd is SetMode || cmd is SetBlockKind || cmd is SetSnapToGrid || cmd is RotatePlacementPreview
}

/// Block and playback commands.
pub open spec fn dispatch_group_blocks(cmd: EditorCommand) -> bool {
    cmd is RemoveBlock || cmd is CopyBlock || cmd is PasteBlock || cmd is ToggleTimelinePlayback
        || cmd is SnapSelectionToGrid
}

/// Tap commands.
pub open spec fn dispatch_group_taps(cmd: EditorCommand) -> bool {
    cmd is AddTap || cmd is RemoveTap || cmd is RemoveTapAt || cmd is ClearTaps
}

/// Playtest, spawn and history commands.
pub open spec fn dispatch_group_spawn(cmd: EditorCommand) -> bool {
    cmd is Playtest || cmd is SetSpawnHere || cmd is RotateSpawnDirection || cmd is Undo || cmd is Redo
}

/// Window, level metadata and binding commands.
pub open spec fn dispatch_group_settings(cmd: EditorCommand) -> bool {
    cmd is LoadLevel || cmd is RenameLevel || cmd is ExportLevel || cmd is SetShowMetadata
        || cmd is ToggleSettings || cmd is SetShowSettings || cmd is SetKeybindCapture
        || cmd is SetKeybind
}

/// Held-key commands.
pub open spec fn dispatch_group_held(cmd: EditorCommand) -> bool {
    cmd is SetShiftHeld || cmd is SetCtrlHeld || cmd is SetAltHeld || cmd is SetPanUpHeld
        || cmd is SetPanDownHeld || cmd is SetPanLeftHeld || cmd is SetPanRightHeld
}

fn dispatch_group_held_exec(cmd: &EditorCommand) -> (r: bool)
    ensures
        r == dispatch_group_held(*cmd),
{
    match cmd {
        EditorCommand::SetShiftHeld(_) | EditorCommand::SetCtrlHeld(_) | EditorCommand::SetAltHeld(_)
        | EditorCommand::SetPanUpHeld(_) | EditorCommand::SetPanDownHeld(_)
        | EditorCommand::SetPanLeftHeld(_) | EditorCommand::SetPanRightHeld(_) => true,
        _ => false,
    }
}

/// The input flags after a held-key command (held only in the editor).
pub open spec fn held_input(i: InputState, ed: bool, cmd: EditorCommand) -> InputState {
    match cmd {
        EditorCommand::SetShiftHeld(h) => InputState { shift_held: h && ed, ..i },
        EditorCommand::SetCtrlHeld(h) => InputState { ctrl_held: h && ed, ..i },
        EditorCommand::SetAltHeld(h) => InputState { alt_held: h && ed, ..i },
        EditorCommand::SetPanUpHeld(h) => InputState { pan_up_held: h && ed, ..i },
        EditorCommand::SetPanDownHeld(h) => InputState { pan_down_held: h && ed, ..i },
        EditorCommand::SetPanLeftHeld(h) => InputState { pan_left_held: h && ed, ..i },
        EditorCommand::SetPanRightHeld(h) => InputState { pan_right_held: h && ed, ..i },
        _ => i,
    }
}

fn held_input_exec(i: InputState, ed: bool, cmd: &EditorCommand) -> (r: InputState)
    ensures
        r == held_input(i, ed, *cmd),
{
    match cmd {
        EditorCommand::SetShiftHeld(h) => InputState { shift_held: *h && ed, ..i },
        EditorCommand::SetCtrlHeld(h) => InputState { ctrl_held: *h && ed, ..i },
        EditorCommand::SetAltHeld(h) => InputState { alt_held: *h && ed, ..i },
        EditorCommand::SetPanUpHeld(h) => InputState { pan_up_held: *h && ed, ..i },
        EditorCommand::SetPanDownHeld(h) => InputState { pan_down_held: *h && ed, ..i },
        EditorCommand::SetPanLeftHeld(h) => InputState { pan_left_held: *h && ed, ..i },
        EditorCommand::SetPanRightHeld(h) => InputState { pan_right_held: *h && ed, ..i },
        _ => i,
    }
}

impl StateView {
    /// Editor commands: each runs the editor operation of the same name;
    /// the ones that need screen geometry, floating point or outside
    /// services are queued for the shell.
    pub open spec fn after_dispatch_editor(self, cmd: EditorCommand) -> StateView {
        if dispatch_group_mode(cmd) {
            self.after_mode_command(cmd)
        } else if dispatch_group_blocks(cmd) {
            self.after_block_command(cmd)
        } else if dispatch_group_taps(cmd) {
            self.after_tap_command(cmd)
        } else if dispatch_group_spawn(cmd) {
            self.after_spawn_command(cmd)
        } else if dispatch_group_settings(cmd) {
            self.after_settings_command(cmd)
        } else if dispatch_group_held(cmd) {
            self.after_held_command(cmd)
        } else {
            self.after_pointer_command(cmd)
        }
    }

    /// Choosing a mode (entering tapping or timing also asks the shell for
    /// that mode's preview), the block kind, the placement turn, or snapping.
    #[verifier::opaque]
    pub open spec fn after_mode_command(self, cmd: EditorCommand) -> StateView {
        match cmd {
            EditorCommand::SetMode(m) => {
                let old_mode = self.effective_mode();
                let t = self.after_set_effective_mode(m);
                if (m == EditorMode::Tapping && old_mode != EditorMode::Tapping) || (m
                    == EditorMode::Timing && old_mode != EditorMode::Timing) {
                    t.with_effect(Effect::Editor(EditorCommand::SetMode(m)))
                } else {
                    t
                }
            },
            EditorCommand::SetBlockKind(k) => self.after_set_block_kind(k),
            EditorCommand::SetSnapToGrid(b) => self.after_set_snap_to_grid(b),
            EditorCommand::RotatePlacementPreview => self.after_rotate_placement_preview(),
            _ => self,
        }
    }

    /// Removing, copying and pasting blocks; starting or stopping playback;
    /// snapping the selection to the grid (left to the shell when a block
    /// or the step lies beyond the range that snapping accepts).
    #[verifier::opaque]
    pub open spec fn after_block_command(self, cmd: EditorCommand) -> StateView {
        match cmd {
            EditorCommand::RemoveBlock => self.after_remove_block(),
            EditorCommand::CopyBlock => self.after_copy_block(),
            EditorCommand::PasteBlock => self.after_paste_block(),
            EditorCommand::ToggleTimelinePlayback => self.after_toggle_playback(),
            EditorCommand::SnapSelectionToGrid => if self.snap_in_range() {
                self.after_snap_selection()
            } else {
                self.with_effect(Effect::Editor(EditorCommand::SnapSelectionToGrid))
            },
            _ => self,
        }
    }

    /// Adding and removing taps.
    #[verifier::opaque]
    pub open spec fn after_tap_command(self, cmd: EditorCommand) -> StateView {
        match cmd {
            EditorCommand::AddTap => self.after_add_tap(),
            EditorCommand::RemoveTap => self.after_remove_tap(),
            EditorCommand::RemoveTapAt(step) => self.after_remove_tap_at(step),
            EditorCommand::ClearTaps => self.after_clear_taps(),
            _ => self,
        }
    }

    /// Playtest, spawn, undo and redo.
    #[verifier::opaque]
    pub open spec fn after_spawn_command(self, cmd: EditorCommand) -> StateView {
        match cmd {
            EditorCommand::Playtest => self.after_playtest(),
            EditorCommand::SetSpawnHere => self.after_set_spawn_here(),
            EditorCommand::RotateSpawnDirection => self.after_rotate_spawn(),
            EditorCommand::Undo => self.after_undo(),
            EditorCommand::Redo => self.after_redo(),
            _ => self,
        }
    }

    /// Loading, naming and exporting the level (loading and exporting by the
    /// shell); the editor windows; key bindings.
    #[verifier::opaque]
    pub open spec fn after_settings_command(self, cmd: EditorCommand) -> StateView {
        match cmd {
            EditorCommand::LoadLevel(name) => self.with_effect(Effect::LoadEditorLevel { level_name: name }),
            EditorCommand::RenameLevel(name) => self.with_ui(UiState { level_name: Some(name), ..self.ui }),
            EditorCommand::ExportLevel => self.with_effect(Effect::ExportLevel { level_name: self.ui.level_name }),
            EditorCommand::SetShowMetadata(b) => self.with_ui(UiState { show_metadata: b, ..self.ui }),
            EditorCommand::ToggleSettings => self.with_ui(UiState { show_settings: !self.ui.show_settings, ..self.ui }),
            EditorCommand::SetShowSettings(b) => self.with_ui(UiState { show_settings: b, ..self.ui }),
            EditorCommand::SetKeybindCapture(c) => self.with_ui(UiState { keybind_capture: c, ..self.ui }),
            EditorCommand::SetKeybind { action, slot, chord } => self.after_set_keybind(
                action@,
                slot,
                chord.key@,
                chord.ctrl,
                chord.shift,
                chord.alt,
            ),
            _ => self,
        }
    }

    /// Held modifier and pan keys (held only in the editor).
    #[verifier::opaque]
    pub open spec fn after_held_command(self, cmd: EditorCommand) -> StateView {
        self.with_input(held_input(self.input, self.is_editor(), cmd))
    }

    /// Mouse buttons (a primary or middle press needs the pointer position,
    /// which the shell has), Escape, and everything else for the shell.
    #[verifier::opaque]
    pub open spec fn after_pointer_command(self, cmd: EditorCommand) -> StateView {
        match cmd {
            EditorCommand::MouseButton { button, pressed } => if (button == 0 || button == 1) && pressed {
                self.with_effect(Effect::Editor(EditorCommand::MouseButton { button, pressed }))
            } else {
                self.after_mouse_button(button, pressed)
            },
            EditorCommand::Escape => self.after_escape(),
            other => self.with_effect(Effect::Editor(other)),
        }
    }

    /// Starting a sign-in (see `AuthView::after_submit_sign_in`).
    #[verifier::opaque]
    pub open spec fn after_auth_submit(self) -> StateView {
        StateView { auth: self.auth.after_submit_sign_in(), ..self }
    }

    /// Signing out (see `AuthView::after_sign_out`).
    #[verifier::opaque]
    pub open spec fn after_auth_sign_out(self) -> StateView {
        StateView { auth: self.auth.after_sign_out(), ..self }
    }

    /// Opening the sign-up page (see `AuthView::after_open_signup`).
    #[verifier::opaque]
    pub open spec fn after_auth_open_signup(self) -> StateView {
        StateView { auth: self.auth.after_open_signup(), ..self }
    }

    /// Application commands: navigation, the pause menu, the account and the
    /// window run here; editor commands go to `after_dispatch_editor`.
    pub open spec fn after_dispatch(self, cmd: AppCommand) -> StateView {
        match cmd {
            AppCommand::TurnRight => self.after_turn_right(),
            AppCommand::NextLevel => self.after_next_level(),
            AppCommand::PrevLevel => self.after_prev_level(),
            AppCommand::ToggleEditor => self.after_toggle_editor(),
            AppCommand::GameResume => self.after_resume(),
            AppCommand::GameRestartLevel => self.after_restart_from_pause(),
            AppCommand::GameSetPracticeMode(e) => self.after_set_practice(e),
            AppCommand::GameSetPracticeCheckpoint => self.after_set_checkpoint(),
            AppCommand::GameRemovePracticeCheckpoint => self.after_remove_checkpoint(),
            AppCommand::GameQuitToMenu => self.after_quit_from_pause(),
            AppCommand::AuthSubmitSignIn => self.after_auth_submit(),
            AppCommand::AuthSignOut => self.after_auth_sign_out(),
            AppCommand::AuthOpenSignup => self.after_auth_open_signup(),
            AppCommand::ResizeSurface { width, height } => self.after_resize(width, height),
            AppCommand::Editor(c) => self.after_dispatch_editor(c),
        }
    }

    /// Running the commands in order.
    pub open spec fn after_dispatch_all(self, cmds: Seq<AppCommand>) -> StateView
        decreases cmds.len(),
    {
        if cmds.len() == 0 {
            self
        } else {
            self.after_dispatch_all(cmds.drop_last()).after_dispatch(cmds.last())
        }
    }

    /// A key through the configurable bindings: a modifier key records its
    /// state; otherwise the pan bindings run, then a press is handled by
    /// `after_key_press`.
    #[verifier::opaque]
    pub open spec fn after_process_key(self, key: Seq<char>, pressed: bool, jp: bool) -> StateView {
        match modifier_command(key, pressed) {
            Some(c) => self.after_dispatch(c),
            None => self.after_dispatch_all(
                pan_commands_for(
                    self.is_editor(),
                    self.keybinds,
                    key,
                    pressed,
                    self.input.ctrl_held,
                    self.input.alt_held,
                ),
            ).after_key_press(key, pressed, jp),
        }
    }

    /// After the pan bindings: for a press, either the key is captured for
    /// the binding being edited (Escape cancels), or Escape closes an open
    /// settings sidebar, or the commands bound to the key run.
    #[verifier::opaque]
    pub open spec fn after_key_press(self, key: Seq<char>, pressed: bool, jp: bool) -> StateView {
        if !pressed {
            self
        } else {
            match self.ui.keybind_capture {
                Some(capture) => self.after_capture_key(key, jp, capture.0@, capture.1),
                None => if key == "Escape"@ && self.ui.show_settings {
                    self.with_ui(UiState { show_settings: false, ..self.ui })
                } else {
                    self.after_dispatch_all(
                        keybind_commands_for(
                            self.keymap_context(),
                            self.keybinds,
                            key,
                            jp,
                            pressed,
                            self.input.ctrl_held,
                            self.input.shift_held,
                            self.input.alt_held,
                        ),
                    )
                },
            }
        }
    }

    /// Capturing a key for the `slot`-th binding of `action`: only a fresh
    /// press of a key that is not a modifier; Escape cancels the capture,
    /// any other key is bound with the held modifiers and ends it.
    #[verifier::opaque]
    pub open spec fn after_capture_key(self, key: Seq<char>, jp: bool, action: Seq<char>, slot: usize) -> StateView {
        if !jp || is_modifier_key_spec(key) {
            self
        } else if key == "Escape"@ {
            self.with_ui(UiState { keybind_capture: None, ..self.ui })
        } else {
            let u = self.after_set_keybind(
                action,
                slot,
                normalized_key(key),
                self.input.ctrl_held,
                self.input.shift_held,
                self.input.alt_held,
            );
            u.with_ui(UiState { keybind_capture: None, ..u.ui })
        }
    }

    /// An input event: keys through the bindings, mouse buttons as editor
    /// commands, resizes as application commands.
    pub open spec fn after_input_event(self, event: InputEvent) -> StateView {
        match event {
            InputEvent::Key { key, pressed, just_pressed } => self.after_process_key(key@, pressed, just_pressed),
            InputEvent::MouseButton { button, pressed } => self.after_dispatch_editor(
                EditorCommand::MouseButton { button, pressed },
            ),
            InputEvent::Resize { width, height } => self.after_resize(width, height),
        }
    }
}

impl State {
    /// The name shown for the account: the profile's username, else the
    /// email.
    pub fn auth_display_name(&self) -> (r: Option<String>)
        ensures
            r == crate::auth::display_name_of(self@.auth.session),
    {
        self.auth.auth_display_name()
    }

    /// Asks for a refreshed session when signed in, nothing is pending and no
    /// refresh has started.
    pub fn refresh_auth_session(&mut self)
        ensures
            final(self)@ == (StateView { auth: old(self)@.auth.after_refresh(), ..old(self)@ }),
    {
        self.auth.refresh_auth_session();
    }

    /// Applies the outcome of a sign-in.
    pub fn complete_auth_sign_in(&mut self, result: Result<crate::auth::AuthSession, String>)
        ensures
            final(self)@ == (StateView { auth: old(self)@.auth.after_sign_in_result(result), ..old(self)@ }),
    {
        self.auth.complete_auth_sign_in(result);
    }

    /// Applies the outcome of a refresh.
    pub fn complete_auth_refresh(&mut self, result: Result<crate::auth::AuthSession, String>)
        ensures
            final(self)@ == (StateView { auth: old(self)@.auth.after_refresh_result(result), ..old(self)@ }),
    {
        self.auth.complete_auth_refresh(result);
    }

    /// Applies the outcome of a sign-out.
    pub fn complete_auth_sign_out(&mut self, result: Result<(), String>)
        ensures
            final(self)@ == (StateView { auth: old(self)@.auth.after_sign_out_result(result), ..old(self)@ }),
    {
        self.auth.complete_auth_sign_out(result);
    }

    /// Refreshes a signed-in session that has not been refreshed, then
    /// applies the service's replies in order.
    pub fn update_auth_results(&mut self, messages: Vec<crate::auth::AuthServiceMessage>)
        ensures
            final(self)@ == (StateView { auth: old(self)@.auth.after_update(messages@), ..old(self)@ }),
    {
        self.auth.update_auth_results(messages);
    }

    /// The edited level's blocks.
    pub fn editor_objects(&self) -> (r: &[crate::types::LevelObject])
        ensures
            r@ == self@.editor.objects,
    {
        self.editor.objects.as_slice()
    }

    /// The selected block indices, normalized.
    pub fn editor_selected_indices(&self) -> (r: Vec<usize>)
        ensures
            r@ == self@.norm_sel(),
    {
        self.selected_block_indices_normalized()
    }

    /// Starts a browser sign-in unless a request is pending.
    pub fn submit_auth_sign_in(&mut self)
        ensures
            final(self)@ == old(self)@.after_auth_submit(),
    {
        proof {
            reveal(StateView::after_auth_submit);
        }
        self.auth.submit_auth_sign_in();
    }

    /// Signs out unless a request is pending.
    pub fn sign_out_auth_session(&mut self)
        ensures
            final(self)@ == old(self)@.after_auth_sign_out(),
    {
        proof {
            reveal(StateView::after_auth_sign_out);
        }
        self.auth.sign_out_auth_session();
    }

    /// Asks for the sign-up page to be opened.
    pub fn open_auth_signup_page(&mut self)
        ensures
            final(self)@ == old(self)@.after_auth_open_signup(),
    {
        proof {
            reveal(StateView::after_auth_open_signup);
        }
        self.auth.open_auth_signup_page();
    }

    /// Runs an editor command.
    #[verifier::spinoff_prover]
    pub fn dispatch_editor(&mut self, cmd: EditorCommand)
        requires
            old(self)@.wf(),
        ensures
            final(self)@ == old(self)@.after_dispatch_editor(cmd),
    {
        match cmd {
            EditorCommand::SetMode(m) => self.dispatch_set_mode(m),
            EditorCommand::SetBlockKind(k) => self.dispatch_set_block_kind(k),
            EditorCommand::SetSnapToGrid(b) => {
                proof {
                    reveal(StateView::after_mode_command);
                }
                self.set_editor_snap_to_grid(b);
            },
            EditorCommand::RotatePlacementPreview => {
                proof {
                    reveal(StateView::after_mode_command);
                }
                self.editor_rotate_placement_preview();
            },
            other => self.dispatch_editor_blocks(other),
        }
    }

    fn dispatch_set_mode(&mut self, m: EditorMode)
        ensures
            final(self)@ == old(self)@.after_mode_command(EditorCommand::SetMode(m)),
    {
        proof {
            reveal(StateView::after_mode_command);
        }
        let old_mode = self.editor_effective_mode_for_playback();
        self.set_editor_playback_effective_mode(m);
        if (m == EditorMode::Tapping && old_mode != EditorMode::Tapping) || (m == EditorMode::Timing
            && old_mode != EditorMode::Timing) {
            self.effects.push(Effect::Editor(EditorCommand::SetMode(m)));
        }
    }

    fn dispatch_set_block_kind(&mut self, k: BlockKind)
        ensures
            final(self)@ == old(self)@.after_mode_command(EditorCommand::SetBlockKind(k)),
    {
        proof {
            reveal(StateView::after_mode_command);
        }
        self.set_editor_block_kind(k);
    }

    #[verifier::spinoff_prover]
    fn dispatch_editor_blocks(&mut self, cmd: EditorCommand)
        requires
            old(self)@.wf(),
            !dispatch_group_mode(cmd),
        ensures
            final(self)@ == old(self)@.after_dispatch_editor(cmd),
    {
        proof {
            reveal(StateView::after_block_command);
        }
        match cmd {
            EditorCommand::RemoveBlock => self.editor_remove_block(),
            EditorCommand::CopyBlock => self.editor_copy_block(),
            EditorCommand::PasteBlock => self.editor_paste_block(),
            EditorCommand::ToggleTimelinePlayback => self.toggle_editor_timeline_playback(),
            EditorCommand::SnapSelectionToGrid => {
                if blocks_snappable(&self.editor.objects) && self.editor.snap_step <= SNAP_STEP_LIMIT {
                    self.editor_snap_selection_to_grid();
                } else {
                    self.effects.push(Effect::Editor(EditorCommand::SnapSelectionToGrid));
                }
            },
            other => self.dispatch_editor_taps(other),
        }
    }

    #[verifier::spinoff_prover]
    fn dispatch_editor_taps(&mut self, cmd: EditorCommand)
        requires
            old(self)@.wf(),
            !dispatch_group_mode(cmd),
            !dispatch_group_blocks(cmd),
        ensures
            final(self)@ == old(self)@.after_dispatch_editor(cmd),
    {
        proof {
            reveal(StateView::after_tap_command);
        }
        match cmd {
            EditorCommand::AddTap => self.editor_add_tap(),
            EditorCommand::RemoveTap => self.editor_remove_tap(),
            EditorCommand::RemoveTapAt(step) => self.editor_remove_tap_at(step),
            EditorCommand::ClearTaps => self.editor_clear_taps(),
            other => self.dispatch_editor_spawn(other),
        }
    }

    #[verifier::spinoff_prover]
    fn dispatch_editor_spawn(&mut self, cmd: EditorCommand)
        requires
            old(self)@.wf(),
            !dispatch_group_mode(cmd),
            !dispatch_group_blocks(cmd),
            !dispatch_group_taps(cmd),
        ensures
            final(self)@ == old(self)@.after_dispatch_editor(cmd),
    {
        proof {
            reveal(StateView::after_spawn_command);
        }
        match cmd {
            EditorCommand::Playtest => self.editor_playtest(),
            EditorCommand::SetSpawnHere => self.editor_set_spawn_here(),
            EditorCommand::RotateSpawnDirection => self.editor_rotate_spawn_direction(),
            EditorCommand::Undo => self.editor_undo(),
            EditorCommand::Redo => self.editor_redo(),
            other => self.dispatch_editor_settings(other),
        }
    }

    /// Runs the editor commands about windows, level metadata, bindings and
    /// input state.
    #[verifier::spinoff_prover]
    fn dispatch_editor_settings(&mut self, cmd: EditorCommand)
        requires
            old(self)@.wf(),
            !dispatch_group_mode(cmd),
            !dispatch_group_blocks(cmd),
            !dispatch_group_taps(cmd),
            !dispatch_group_spawn(cmd),
        ensures
            final(self)@ == old(self)@.after_dispatch_editor(cmd),
    {
        proof {
            reveal(StateView::after_settings_command);
        }
        match cmd {
            EditorCommand::LoadLevel(name) => {
                self.effects.push(Effect::LoadEditorLevel { level_name: name });
            },
            EditorCommand::RenameLevel(name) => self.set_editor_level_name(name),
            EditorCommand::ExportLevel => self.trigger_level_export(),
            EditorCommand::SetShowMetadata(b) => self.set_editor_show_metadata(b),
            EditorCommand::ToggleSettings => {
                let show = !self.ui.show_settings;
                self.set_editor_show_settings(show);
            },
            EditorCommand::SetShowSettings(b) => self.set_editor_show_settings(b),
            EditorCommand::SetKeybindCapture(c) => self.set_editor_keybind_capture_action(c),
            EditorCommand::SetKeybind { action, slot, chord } => self.set_keybind_for_action(
                action,
                slot,
                chord,
            ),
            other => self.dispatch_editor_held(other),
        }
    }

    fn dispatch_editor_held(&mut self, cmd: EditorCommand)
        requires
            old(self)@.wf(),
            !dispatch_group_mode(cmd),
            !dispatch_group_blocks(cmd),
            !dispatch_group_taps(cmd),
            !dispatch_group_spawn(cmd),
            !dispatch_group_settings(cmd),
        ensures
            final(self)@ == old(self)@.after_dispatch_editor(cmd),
    {
        if dispatch_group_held_exec(&cmd) {
            proof {
                reveal(StateView::after_held_command);
            }
            self.input = held_input_exec(self.input, self.phase == AppPhase::Editor, &cmd);
        } else {
            self.dispatch_editor_pointer(cmd);
        }
    }

    /// Runs mouse buttons and Escape, and queues the remaining editor
    /// commands for the shell.
    #[verifier::spinoff_prover]
    fn dispatch_editor_pointer(&mut self, cmd: EditorCommand)
        requires
            old(self)@.wf(),
            !dispatch_group_mode(cmd),
            !dispatch_group_blocks(cmd),
            !dispatch_group_taps(cmd),
            !dispatch_group_spawn(cmd),
            !dispatch_group_settings(cmd),
            !dispatch_group_held(cmd),
        ensures
            final(self)@ == old(self)@.after_dispatch_editor(cmd),
    {
        proof {
            reveal(StateView::after_pointer_command);
        }
        match cmd {
            EditorCommand::MouseButton { button, pressed } => {
                if (button == 0 || button == 1) && pressed {
                    self.effects.push(Effect::Editor(EditorCommand::MouseButton { button, pressed }));
                } else {
                    self.handle_mouse_button(button, pressed);
                }
            },
            EditorCommand::Escape => self.handle_editor_escape(),
            other => {
                self.effects.push(Effect::Editor(other));
            },
        }
    }

    /// Asks the shell to export the edited level as a file named after it.
    pub fn trigger_level_export(&mut self)
        ensures
            final(self)@ == old(self)@.with_effect(Effect::ExportLevel { level_name: old(self)@.ui.level_name }),
    {
        let level_name = match &self.ui.level_name {
            Some(n) => Some(n.clone()),
            None => None,
        };
        self.effects.push(Effect::ExportLevel { level_name });
    }

    /// Runs an application command.
    #[verifier::spinoff_prover]
    pub fn dispatch(&mut self, cmd: AppCommand)
        requires
            old(self)@.wf(),
        ensures
            final(self)@ == old(self)@.after_dispatch(cmd),
    {
        match cmd {
            AppCommand::TurnRight => self.turn_right(),
            AppCommand::NextLevel => self.next_level(),
            AppCommand::PrevLevel => self.prev_level(),
            AppCommand::ToggleEditor => self.toggle_editor(),
            AppCommand::GameResume => self.resume_game(),
            AppCommand::GameRestartLevel => self.restart_game_from_pause(),
            AppCommand::GameSetPracticeMode(e) => self.set_practice_mode_enabled(e),
            AppCommand::GameSetPracticeCheckpoint => self.set_practice_checkpoint(),
            AppCommand::GameRemovePracticeCheckpoint => self.remove_practice_checkpoint(),
            AppCommand::GameQuitToMenu => self.quit_game_from_pause(),
            AppCommand::AuthSubmitSignIn => self.submit_auth_sign_in(),
            AppCommand::AuthSignOut => self.sign_out_auth_session(),
            AppCommand::AuthOpenSignup => self.open_auth_signup_page(),
            AppCommand::ResizeSurface { width, height } => self.resize_surface(width, height),
            AppCommand::Editor(c) => self.dispatch_editor(c),
        }
    }

    /// Runs the commands in order.
    pub fn dispatch_all(&mut self, cmds: Vec<AppCommand>)
        requires
            old(self)@.wf(),
        ensures
            final(self)@ == old(self)@.after_dispatch_all(cmds@),
            final(self)@.wf(),
    {
        let ghost s0 = self@;
        let ghost all = cmds@;
        let n = cmds.len();
        let mut rest = cmds;
        let mut k: usize = 0;
        while rest.len() > 0
            invariant
                k <= all.len(),
                all.len() == n,
                rest@ == all.subrange(k as int, all.len() as int),
                self@ == s0.after_dispatch_all(all.subrange(0, k as int)),
                self@.wf(),
            decreases rest.len(),
        {
            assert(rest@.len() == all.len() - k);
            assert(k < all.len());
            let c = rest.remove(0);
            let ghost k1 = k;
            proof {
                assert(all.subrange(0, k + 1).drop_last() == all.subrange(0, k as int));
                assert(all.subrange(0, k + 1).last() == c);
                lemma_dispatch_keeps_wf(self@, c);
            }
            self.dispatch(c);
            assert(k1 < all.len());
            k = k + 1;
            assert(rest@ == all.subrange(k as int, all.len() as int));
        }
        assert(all.subrange(0, all.len() as int) == all);
    }

    /// A key through the configurable bindings (see
    /// `StateView::after_process_key`).
    pub fn process_keyboard_input(&mut self, key: &str, pressed: bool, just_pressed: bool)
        requires
            old(self)@.wf(),
        ensures
            final(self)@ == old(self)@.after_process_key(key@, pressed, just_pressed),
            final(self)@.wf(),
    {
        proof {
            reveal(StateView::after_process_key);
        }
        match map_modifier_key_to_command(key, pressed) {
            Some(c) => {
                proof {
                    lemma_dispatch_keeps_wf(self@, c);
                }
                self.dispatch(c);
                return;
            },
            None => {},
        }
        let pans = map_pan_key_to_commands(
            self.is_editor(),
            &self.keybinds,
            key,
            pressed,
            self.input.ctrl_held,
            self.input.alt_held,
        );
        self.dispatch_all(pans);
        self.handle_key_press(key, pressed, just_pressed);
    }

    fn handle_key_press(&mut self, key: &str, pressed: bool, jp: bool)
        requires
            old(self)@.wf(),
        ensures
            final(self)@ == old(self)@.after_key_press(key@, pressed, jp),
            final(self)@.wf(),
    {
        proof {
            reveal(StateView::after_key_press);
        }
        if !pressed {
            return;
        }
        let capture = match &self.ui.keybind_capture {
            Some(c) => Some((c.0.clone(), c.1)),
            None => None,
        };
        match capture {
            Some((action, slot)) => {
                self.capture_key(key, jp, action, slot);
                return;
            },
            None => {},
        }
        if str_eq(key, "Escape") && self.ui.show_settings {
            self.set_editor_show_settings(false);
            return;
        }
        let ctx = self.keymap_context();
        let cmds = map_keybind_to_commands(
            ctx,
            &self.keybinds,
            key,
            jp,
            pressed,
            self.input.ctrl_held,
            self.input.shift_held,
            self.input.alt_held,
        );
        self.dispatch_all(cmds);
    }

    fn capture_key(&mut self, key: &str, jp: bool, action: String, slot: usize)
        requires
            old(self)@.wf(),
        ensures
            final(self)@ == old(self)@.after_capture_key(key@, jp, action@, slot),
            final(self)@.wf(),
    {
        proof {
            reveal(StateView::after_capture_key);
        }
        if !jp || is_modifier_key(key) {
            return;
        }
        if str_eq(key, "Escape") {
            self.set_editor_keybind_capture_action(None);
            return;
        }
        let chord = KeyChord {
            key: normalize_binding_key(key),
            ctrl: self.input.ctrl_held,
            shift: self.input.shift_held,
            alt: self.input.alt_held,
        };
        self.set_keybind_for_action(action, slot, chord);
        self.set_editor_keybind_capture_action(None);
    }

    /// Handles an input event.
    pub fn process_input_event(&mut self, event: InputEvent)
        requires
            old(self)@.wf(),
        ensures
            final(self)@ == old(self)@.after_input_event(event),
            final(self)@.wf(),
    {
        match event {
            InputEvent::Key { key, pressed, just_pressed } => {
                self.process_keyboard_input(key.as_str(), pressed, just_pressed);
            },
            InputEvent::MouseButton { button, pressed } => {
                proof {
                    lemma_dispatch_editor_keeps_wf(self@, EditorCommand::MouseButton { button, pressed });
                }
                self.dispatch_editor(EditorCommand::MouseButton { button, pressed });
            },
            InputEvent::Resize { width, height } => {
                proof {
                    lemma_dispatch_keeps_wf(self@, AppCommand::ResizeSurface { width, height });
                }
                self.resize_surface(width, height);
            },
        }
    }
}

} // verus!
