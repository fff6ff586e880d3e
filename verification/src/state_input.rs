use vstd::prelude::*;
use crate::commands::{bindings_view, EditorCommand, KeyBinding, KeyBindingView, KeyChord};
use crate::keymap::KeymapContext;
use crate::state::{Effect, EditorView, InputState, State, StateView, UiState};
use crate::strings::str_eq;
use crate::types::{AppPhase, BlockKind};

verus! {

/// The indices of the first `k` bindings that belong to `action`, in order.
pub open spec fn action_positions(bs: Seq<KeyBindingView>, action: Seq<char>, k: int) -> Seq<int>
    decreases k,
{
    if k <= 0 {
        Seq::empty()
    } else {
        let p = action_positions(bs, action, k - 1);
        if bs[k - 1].action == action {
            p.push(k - 1)
        } else {
            p
        }
    }
}

/// The bindings with the `slot`-th binding of `action` given the chord, or
/// with a new binding of `action` appended when it has fewer bindings.
pub open spec fn with_keybind(
    bs: Seq<KeyBindingView>,
    action: Seq<char>,
    slot: usize,
    key: Seq<char>,
    ctrl: bool,
    shift: bool,
    alt: bool,
) -> Seq<KeyBindingView> {
    let pos = action_positions(bs, action, bs.len() as int);
    let b = KeyBindingView { action, key, ctrl, shift, alt };
    if slot < pos.len() {
        bs.update(pos[slot as int], b)
    } else {
        bs.push(b)
    }
}

/// Earlier positions are a prefix of later ones, and every position is a
/// binding of the action below the bound.
pub proof fn lemma_positions_prefix(bs: Seq<KeyBindingView>, action: Seq<char>, k1: int, k2: int)
    requires
        0 <= k1 <= k2 <= bs.len(),
    ensures
        action_positions(bs, action, k1).len() <= action_positions(bs, action, k2).len(),
        forall|j: int|
            0 <= j < action_positions(bs, action, k1).len() ==> action_positions(bs, action, k2)[j]
                == action_positions(bs, action, k1)[j],
        forall|j: int|
            0 <= j < action_positions(bs, action, k2).len() ==> 0 <= #[trigger] action_positions(
                bs,
                action,
                k2,
            )[j] < k2,
    decreases k2,
{
    if k2 > 0 {
        let k0 = if k1 < k2 { k1 } else { k2 - 1 };
        lemma_positions_prefix(bs, action, k0, k2 - 1);
    }
}

impl StateView {
    /// What the key mapping reads of the application.
    pub open spec fn keymap_context(self) -> KeymapContext {
        KeymapContext {
            is_editor: self.phase == AppPhase::Editor,
            is_playing: self.phase == AppPhase::Playing,
            game_paused: self.session.game_paused,
            practice_mode: self.practice_active(),
            has_block_selection: self.has_block_selection(),
            effective_mode: self.effective_mode(),
            selected_tap_step: match self.timeline.selected_tap {
                Some(i) => if i < self.timeline.tap_steps.len() {
                    Some(self.timeline.tap_steps[i as int])
                } else {
                    None
                },
                None => None,
            },
        }
    }

    /// The state with other editor windows and level metadata.
    pub open spec fn with_ui(self, ui: UiState) -> StateView {
        StateView { ui, ..self }
    }

    /// Binding a chord to the `slot`-th binding of an action.
    pub open spec fn after_set_keybind(
        self,
        action: Seq<char>,
        slot: usize,
        key: Seq<char>,
        ctrl: bool,
        shift: bool,
        alt: bool,
    ) -> StateView {
        StateView { keybinds: with_keybind(self.keybinds, action, slot, key, ctrl, shift, alt), ..self }
    }

    /// Choosing the block kind that placing uses.
    pub open spec fn after_set_block_kind(self, kind: BlockKind) -> StateView {
        self.with_editor(EditorView { selected_kind: kind, ..self.editor })
    }

    /// Turning the placement preview a quarter turn further about the
    /// vertical axis (a full turn comes back to zero).
    pub open spec fn after_rotate_placement_preview(self) -> StateView {
        self.with_editor(
            EditorView { placement_yaw: ((self.editor.placement_yaw + 90) % 360) as u32, ..self.editor },
        )
    }

    /// A mouse button: releasing the primary one ends a drag, pressing it is
    /// the main action; the secondary one drags the camera.
    pub open spec fn after_mouse_button(self, button: u32, pressed: bool) -> StateView {
        if button == 0 {
            if !pressed {
                self.with_editor(EditorView { drag: None, ..self.editor })
            } else {
                self.after_turn_right()
            }
        } else if button == 2 {
            self.with_input(InputState { right_dragging: pressed, ..self.input })
        } else {
            self
        }
    }

    /// A resize of the window: ignored when empty.
    #[verifier::opaque]
    pub open spec fn after_resize(self, width: u32, height: u32) -> StateView {
        if width == 0 || height == 0 {
            self
        } else {
            self.with_effect(Effect::ResizeSurface { width, height })
        }
    }

    /// The pan-up key held or released (held only in the editor).
    pub open spec fn with_pan_up(self, held: bool) -> StateView {
        self.with_input(InputState { pan_up_held: held && self.is_editor(), ..self.input })
    }

    /// The pan-down key held or released (held only in the editor).
    pub open spec fn with_pan_down(self, held: bool) -> StateView {
        self.with_input(InputState { pan_down_held: held && self.is_editor(), ..self.input })
    }

    /// The pan-left key held or released (held only in the editor).
    pub open spec fn with_pan_left(self, held: bool) -> StateView {
        self.with_input(InputState { pan_left_held: held && self.is_editor(), ..self.input })
    }

    /// The pan-right key held or released (held only in the editor).
    pub open spec fn with_pan_right(self, held: bool) -> StateView {
        self.with_input(InputState { pan_right_held: held && self.is_editor(), ..self.input })
    }

    /// Releasing a key of the fixed layout ends panning along it.
    pub open spec fn after_fixed_release(self, key: Seq<char>) -> StateView {
        if key == "ArrowUp"@ || key == "w"@ || key == "W"@ {
            self.with_pan_up(false)
        } else if key == "ArrowDown"@ || key == "s"@ || key == "S"@ {
            self.with_pan_down(false)
        } else if key == "ArrowLeft"@ || key == "a"@ || key == "A"@ {
            self.with_pan_left(false)
        } else if key == "ArrowRight"@ || key == "d"@ || key == "D"@ {
            self.with_pan_right(false)
        } else {
            self
        }
    }

    /// Pressing an arrow, WASD or Space key of the fixed layout: panning in
    /// the editor, else turning (up, Space) or choosing levels (left, right).
    #[verifier::opaque]
    pub open spec fn after_fixed_move(self, key: Seq<char>, jp: bool) -> StateView {
        let ed = self.is_editor();
        if key == "ArrowUp"@ || key == "w"@ || key == "W"@ {
            if ed {
                self.with_pan_up(true)
            } else if jp {
                self.after_turn_right()
            } else {
                self
            }
        } else if key == "ArrowDown"@ || key == "s"@ || key == "S"@ {
            if ed {
                self.with_pan_down(true)
            } else {
                self
            }
        } else if key == " "@ || key == "Space"@ {
            if jp { self.after_turn_right() } else { self }
        } else if key == "ArrowRight"@ || key == "d"@ || key == "D"@ {
            if ed {
                self.with_pan_right(true)
            } else if jp {
                self.after_next_level()
            } else {
                self
            }
        } else {
            if ed {
                self.with_pan_left(true)
            } else if jp {
                self.after_prev_level()
            } else {
                self
            }
        }
    }

    /// Pressing any other key of the fixed layout.
    pub open spec fn after_fixed_action(self, key: Seq<char>, jp: bool) -> StateView {
        let ed = self.is_editor();
        let ctrl = self.input.ctrl_held;
        if key == "Enter"@ {
            if jp { self.after_playtest() } else { self }
        } else if key == "Backspace"@ || key == "Delete"@ {
            if jp { self.after_remove_block() } else { self }
        } else if key == "Escape"@ {
            if jp { self.after_back_to_menu() } else { self }
        } else if key == "e"@ || key == "E"@ {
            if jp { self.after_toggle_editor() } else { self }
        } else if key == "p"@ || key == "P"@ {
            if jp { self.after_set_spawn_here() } else { self }
        } else if key == "r"@ || key == "R"@ {
            if jp { self.after_rotate_spawn() } else { self }
        } else if key == "+"@ || key == "="@ {
            if jp { self.with_effect(Effect::Editor(EditorCommand::AdjustZoom(1))) } else { self }
        } else if key == "-"@ || key == "_"@ {
            if jp { self.with_effect(Effect::Editor(EditorCommand::AdjustZoom(-1i32))) } else { self }
        } else if key == "1"@ {
            if ed && jp { self.after_set_block_kind(BlockKind::Standard) } else { self }
        } else if key == "2"@ {
            if ed && jp { self.after_set_block_kind(BlockKind::Grass) } else { self }
        } else if key == "3"@ {
            if ed && jp { self.after_set_block_kind(BlockKind::Dirt) } else { self }
        } else if key == "4"@ {
            if ed && jp { self.after_set_block_kind(BlockKind::Void) } else { self }
        } else if key == "c"@ || key == "C"@ {
            if ed && ctrl && jp { self.after_copy_block() } else { self }
        } else if key == "v"@ || key == "V"@ {
            if ed && ctrl && jp { self.after_paste_block() } else { self }
        } else if key == "z"@ || key == "Z"@ {
            if ed && ctrl && jp { self.after_undo() } else { self }
        } else if key == "y"@ || key == "Y"@ {
            if ed && ctrl && jp { self.after_redo() } else { self }
        } else {
            self
        }
    }

    /// The key is an arrow, WASD or Space key.
    pub open spec fn is_fixed_move_key(key: Seq<char>) -> bool {
        key == "ArrowUp"@ || key == "w"@ || key == "W"@ || key == "ArrowDown"@ || key == "s"@
            || key == "S"@ || key == " "@ || key == "Space"@ || key == "ArrowRight"@ || key == "d"@
            || key == "D"@ || key == "ArrowLeft"@ || key == "a"@ || key == "A"@
    }

    /// The fixed keyboard layout: Shift and Control are tracked; arrows and
    /// WASD pan in the editor and otherwise turn (up), choose levels (left,
    /// right); Space turns; Enter playtests; Backspace and Delete remove;
    /// Escape leaves; E toggles the editor; P and R set and turn the spawn;
    /// plus and minus zoom; 1 to 4 choose the block kind; Control with C, V,
    /// Z and Y copies, pastes, undoes and redoes. Releasing a key only ends
    /// panning.
    pub open spec fn after_fixed_key(self, key: Seq<char>, pressed: bool, jp: bool) -> StateView {
        if key == "Shift"@ {
            self.with_input(InputState { shift_held: pressed && self.is_editor(), ..self.input })
        } else if key == "Control"@ || key == "ControlLeft"@ || key == "ControlRight"@ {
            self.with_input(InputState { ctrl_held: pressed && self.is_editor(), ..self.input })
        } else if !pressed {
            self.after_fixed_release(key)
        } else if Self::is_fixed_move_key(key) {
            self.after_fixed_move(key, jp)
        } else {
            self.after_fixed_action(key, jp)
        }
    }
}

fn is_up_key(key: &str) -> (r: bool)
    ensures
        r == (key@ == "ArrowUp"@ || key@ == "w"@ || key@ == "W"@),
{
    str_eq(key, "ArrowUp") || str_eq(key, "w") || str_eq(key, "W")
}

fn is_down_key(key: &str) -> (r: bool)
    ensures
        r == (key@ == "ArrowDown"@ || key@ == "s"@ || key@ == "S"@),
{
    str_eq(key, "ArrowDown") || str_eq(key, "s") || str_eq(key, "S")
}

fn is_left_key(key: &str) -> (r: bool)
    ensures
        r == (key@ == "ArrowLeft"@ || key@ == "a"@ || key@ == "A"@),
{
    str_eq(key, "ArrowLeft") || str_eq(key, "a") || str_eq(key, "A")
}

fn is_right_key(key: &str) -> (r: bool)
    ensures
        r == (key@ == "ArrowRight"@ || key@ == "d"@ || key@ == "D"@),
{
    str_eq(key, "ArrowRight") || str_eq(key, "d") || str_eq(key, "D")
}

/// Binds the chord to the `slot`-th binding of `action` in the list, or
/// appends a new binding of `action` when it has fewer bindings.
pub fn set_keybind(bindings: &mut Vec<KeyBinding>, action: String, slot: usize, chord: KeyChord)
    ensures
        bindings_view(final(bindings)@) == with_keybind(
            bindings_view(old(bindings)@),
            action@,
            slot,
            chord.key@,
            chord.ctrl,
            chord.shift,
            chord.alt,
        ),
{
    let ghost bv = bindings_view(bindings@);
    let ghost n = bv.len() as int;
    let mut count: usize = 0;
    let mut found: Option<usize> = None;
    let mut k: usize = 0;
    while k < bindings.len()
        invariant_except_break
            found is None,
            k <= bindings.len(),
            count == action_positions(bv, action@, k as int).len(),
            count <= slot,
        invariant
            bv == bindings_view(bindings@),
            n == bindings.len(),
        ensures
            match found {
                Some(i) => {
                    &&& slot < action_positions(bv, action@, n).len()
                    &&& action_positions(bv, action@, n)[slot as int] == i as int
                    &&& i < n
                },
                None => action_positions(bv, action@, n).len() <= slot,
            },
        decreases bindings.len() - k,
    {
        assert(bv[k as int] == bindings@[k as int]@);
        if str_eq(bindings[k].action.as_str(), action.as_str()) {
            if count == slot {
                proof {
                    lemma_positions_prefix(bv, action@, k + 1, n);
                }
                found = Some(k);
                break;
            }
            count = count + 1;
        }
        k = k + 1;
    }
    let binding = KeyBinding { action, chord };
    match found {
        Some(i) => {
            bindings.set(i, binding);
        },
        None => {
            bindings.push(binding);
        },
    }
    assert(bindings_view(bindings@) =~= with_keybind(
        bv,
        binding@.action,
        slot,
        binding@.key,
        binding@.ctrl,
        binding@.shift,
        binding@.alt,
    ));
}

impl State {
    /// What the key mapping reads of the application.
    pub fn keymap_context(&self) -> (r: KeymapContext)
        ensures
            r == self@.keymap_context(),
    {
        let selected_tap_step = match self.timeline.selected_tap {
            Some(i) => if i < self.timeline.tap_steps.len() {
                Some(self.timeline.tap_steps[i])
            } else {
                None
            },
            None => None,
        };
        KeymapContext {
            is_editor: self.phase == AppPhase::Editor,
            is_playing: self.phase == AppPhase::Playing,
            game_paused: self.session.game_paused,
            practice_mode: self.is_practice_mode_enabled(),
            has_block_selection: self.has_block_selection(),
            effective_mode: self.editor_effective_mode_for_playback(),
            selected_tap_step,
        }
    }

    /// Starts or cancels capturing a key for the `slot`-th binding of an
    /// action.
    pub fn set_editor_keybind_capture_action(&mut self, capture: Option<(String, usize)>)
        ensures
            final(self)@ == old(self)@.with_ui(UiState { keybind_capture: capture, ..old(self)@.ui }),
    {
        self.ui.keybind_capture = capture;
    }

    /// Binds the chord to the `slot`-th binding of `action`, or appends a
    /// new binding of `action` when it has fewer bindings.
    pub fn set_keybind_for_action(&mut self, action: String, slot: usize, chord: KeyChord)
        ensures
            final(self)@ == old(self)@.after_set_keybind(
                action@,
                slot,
                chord.key@,
                chord.ctrl,
                chord.shift,
                chord.alt,
            ),
    {
        set_keybind(&mut self.keybinds, action, slot, chord);
    }

    /// Asks the shell to resize the drawing surface, unless a side is zero.
    pub fn resize_surface(&mut self, width: u32, height: u32)
        ensures
            final(self)@ == old(self)@.after_resize(width, height),
    {
        proof {
            reveal(StateView::after_resize);
        }
        if width == 0 || height == 0 {
            return;
        }
        self.effects.push(Effect::ResizeSurface { width, height });
    }

    /// A mouse button went down or up.
    pub fn handle_mouse_button(&mut self, button: u32, pressed: bool)
        requires
            old(self)@.phase == AppPhase::Menu ==> old(self)@.menu_ok(),
        ensures
            final(self)@ == old(self)@.after_mouse_button(button, pressed),
    {
        if button == 0 {
            if !pressed {
                self.editor.drag = None;
            } else {
                self.turn_right();
            }
        } else if button == 2 {
            self.set_editor_right_dragging(pressed);
        }
    }

    /// The fixed keyboard layout (see `StateView::after_fixed_key`).
    pub fn handle_keyboard_input(&mut self, key: &str, pressed: bool, just_pressed: bool)
        requires
            old(self)@.wf(),
        ensures
            final(self)@ == old(self)@.after_fixed_key(key@, pressed, just_pressed),
    {
        if str_eq(key, "Shift") {
            self.set_editor_shift_held(pressed);
            return;
        }
        if str_eq(key, "Control") || str_eq(key, "ControlLeft") || str_eq(key, "ControlRight") {
            self.set_editor_ctrl_held(pressed);
            return;
        }
        if !pressed {
            self.handle_fixed_release(key);
            return;
        }
        let mv = is_up_key(key) || is_down_key(key) || str_eq(key, " ") || str_eq(key, "Space")
            || is_right_key(key) || is_left_key(key);
        if mv {
            self.handle_fixed_move(key, just_pressed);
        } else {
            self.handle_fixed_action_key(key, just_pressed);
        }
    }

    fn handle_fixed_release(&mut self, key: &str)
        ensures
            final(self)@ == old(self)@.after_fixed_release(key@),
    {
        if is_up_key(key) {
            self.set_editor_pan_up_held(false);
        } else if is_down_key(key) {
            self.set_editor_pan_down_held(false);
        } else if is_left_key(key) {
            self.set_editor_pan_left_held(false);
        } else if is_right_key(key) {
            self.set_editor_pan_right_held(false);
        }
    }

    fn handle_fixed_move(&mut self, key: &str, jp: bool)
        requires
            old(self)@.wf(),
            StateView::is_fixed_move_key(key@),
        ensures
            final(self)@ == old(self)@.after_fixed_move(key@, jp),
    {
        if is_up_key(key) {
            self.fixed_move_up(key, jp);
        } else if is_down_key(key) {
            proof {
                reveal(StateView::after_fixed_move);
            }
            if self.is_editor() {
                self.set_editor_pan_down_held(true);
            }
        } else if str_eq(key, " ") || str_eq(key, "Space") {
            proof {
                reveal(StateView::after_fixed_move);
            }
            if jp {
                self.turn_right();
            }
        } else if is_right_key(key) {
            self.fixed_move_right(key, jp);
        } else {
            self.fixed_move_left(key, jp);
        }
    }

    fn fixed_move_up(&mut self, key: &str, jp: bool)
        requires
            old(self)@.wf(),
            key@ == "ArrowUp"@ || key@ == "w"@ || key@ == "W"@,
        ensures
            final(self)@ == old(self)@.after_fixed_move(key@, jp),
    {
        proof {
            reveal(StateView::after_fixed_move);
        }
        if self.is_editor() {
            self.set_editor_pan_up_held(true);
        } else if jp {
            self.turn_right();
        }
    }

    fn fixed_move_right(&mut self, key: &str, jp: bool)
        requires
            old(self)@.wf(),
            key@ == "ArrowRight"@ || key@ == "d"@ || key@ == "D"@,
            !(key@ == "ArrowUp"@ || key@ == "w"@ || key@ == "W"@),
            !(key@ == "ArrowDown"@ || key@ == "s"@ || key@ == "S"@),
            !(key@ == " "@ || key@ == "Space"@),
        ensures
            final(self)@ == old(self)@.after_fixed_move(key@, jp),
    {
        proof {
            reveal(StateView::after_fixed_move);
        }
        if self.is_editor() {
            self.set_editor_pan_right_held(true);
        } else if jp {
            self.next_level();
        }
    }

    fn fixed_move_left(&mut self, key: &str, jp: bool)
        requires
            old(self)@.wf(),
            !(key@ == "ArrowUp"@ || key@ == "w"@ || key@ == "W"@),
            !(key@ == "ArrowDown"@ || key@ == "s"@ || key@ == "S"@),
            !(key@ == " "@ || key@ == "Space"@),
            !(key@ == "ArrowRight"@ || key@ == "d"@ || key@ == "D"@),
        ensures
            final(self)@ == old(self)@.after_fixed_move(key@, jp),
    {
        proof {
            reveal(StateView::after_fixed_move);
        }
        if self.is_editor() {
            self.set_editor_pan_left_held(true);
        } else if jp {
            self.prev_level();
        }
    }

    fn handle_fixed_action_key(&mut self, key: &str, jp: bool)
        requires
            old(self)@.wf(),
        ensures
            final(self)@ == old(self)@.after_fixed_action(key@, jp),
    {
        let ed = self.is_editor();
        let ctrl = self.input.ctrl_held;
        if str_eq(key, "Enter") {
            if jp {
                self.editor_playtest();
            }
        } else if str_eq(key, "Backspace") || str_eq(key, "Delete") {
            if jp {
                self.editor_remove_block();
            }
        } else if str_eq(key, "Escape") {
            if jp {
                self.back_to_menu();
            }
        } else if str_eq(key, "e") || str_eq(key, "E") {
            if jp {
                self.toggle_editor();
            }
        } else if str_eq(key, "p") || str_eq(key, "P") {
            if jp {
                self.editor_set_spawn_here();
            }
        } else if str_eq(key, "r") || str_eq(key, "R") {
            if jp {
                self.editor_rotate_spawn_direction();
            }
        } else if str_eq(key, "+") || str_eq(key, "=") {
            if jp {
                self.effects.push(Effect::Editor(EditorCommand::AdjustZoom(1)));
            }
        } else if str_eq(key, "-") || str_eq(key, "_") {
            if jp {
                self.effects.push(Effect::Editor(EditorCommand::AdjustZoom(-1)));
            }
        } else {
            self.handle_fixed_edit_key(key, jp);
        }
    }

    fn handle_fixed_edit_key(&mut self, key: &str, jp: bool)
        requires
            !(key@ == "Enter"@ || key@ == "Backspace"@ || key@ == "Delete"@ || key@ == "Escape"@
                || key@ == "e"@ || key@ == "E"@ || key@ == "p"@ || key@ == "P"@ || key@ == "r"@
                || key@ == "R"@ || key@ == "+"@ || key@ == "="@ || key@ == "-"@ || key@ == "_"@),
        ensures
            final(self)@ == old(self)@.after_fixed_action(key@, jp),
    {
        let ed = self.is_editor();
        let ctrl = self.input.ctrl_held;
        if str_eq(key, "1") {
            if ed && jp {
                self.set_editor_block_kind(BlockKind::Standard);
            }
        } else if str_eq(key, "2") {
            if ed && jp {
                self.set_editor_block_kind(BlockKind::Grass);
            }
        } else if str_eq(key, "3") {
            if ed && jp {
                self.set_editor_block_kind(BlockKind::Dirt);
            }
        } else if str_eq(key, "4") {
            if ed && jp {
                self.set_editor_block_kind(BlockKind::Void);
            }
        } else if str_eq(key, "c") || str_eq(key, "C") {
            if ed && ctrl && jp {
                self.editor_copy_block();
            }
        } else if str_eq(key, "v") || str_eq(key, "V") {
            if ed && ctrl && jp {
                self.editor_paste_block();
            }
        } else if str_eq(key, "z") || str_eq(key, "Z") {
            if ed && ctrl && jp {
                self.editor_undo();
            }
        } else if str_eq(key, "y") || str_eq(key, "Y") {
            if ed && ctrl && jp {
                self.editor_redo();
            }
        }
    }
}

} // verus!
