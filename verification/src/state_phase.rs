use vstd::prelude::*;
use crate::state::{Effect, EditorView, GameFlags, HistoryView, InputState, MenuView, SessionState, State, StateView, TimelineView, UiState};
use crate::types::{AppPhase, EditorMode};

verus! {

/// The flags of a game that has not started.
pub open spec fn fresh_game() -> GameFlags {
    GameFlags { started: false, game_over: false, level_complete: false }
}

impl StateView {
    /// The state with other game flags.
    pub open spec fn with_game(self, game: GameFlags) -> StateView {
        StateView { game, ..self }
    }

    /// The state with another play session.
    pub open spec fn with_session(self, session: SessionState) -> StateView {
        StateView { session, ..self }
    }

    /// The timeline preview no longer playing (the mode kept for when it
    /// stops is left as it is).
    pub open spec fn after_stop_timeline(self) -> StateView {
        StateView { timeline: TimelineView { playing: false, ..self.timeline }, ..self }
    }

    /// The music stopped.
    pub open spec fn after_stop_audio(self) -> StateView {
        self.with_effect(Effect::StopAudio)
    }

    /// The menu offers a level and highlights one of them.
    pub open spec fn menu_ok(self) -> bool {
        0 <= self.menu.selected_level < self.menu.levels.len()
    }

    /// Entering play: the session records where the level came from, the
    /// playing camera is reset and the held keys released.
    pub open spec fn after_enter_playing(self, level_name: Option<String>, playtesting: bool) -> StateView {
        StateView {
            phase: AppPhase::Playing,
            session: SessionState {
                playtesting_editor: playtesting,
                playing_level_name: level_name,
                ..self.session
            },
            ..self
        }.with_effect(Effect::ResetPlayingCamera).after_clear_pan_keys()
    }

    /// Entering the editor on a level: place mode, nothing selected or
    /// dragged, empty history, released keys, a reset editor camera and a
    /// fresh game.
    pub open spec fn after_enter_editor(self, level_name: String) -> StateView {
        StateView {
            phase: AppPhase::Editor,
            ui: UiState { level_name: Some(level_name), ..self.ui },
            session: SessionState { playtesting_editor: false, ..self.session },
            input: InputState { right_dragging: false, ..self.input },
            editor: EditorView {
                mode: EditorMode::Place,
                selected_block_index: None,
                selected_block_indices: Seq::empty(),
                hovered_block_index: None,
                drag: None,
                ..self.editor
            },
            history: HistoryView { undo: Seq::empty(), redo: Seq::empty() },
            game: fresh_game(),
            ..self
        }.after_clear_pan_keys().with_effect(Effect::ResetEditorCamera)
    }

    /// Entering the menu: no playtest, no level names, nothing selected or
    /// dragged, released keys.
    pub open spec fn after_enter_menu(self) -> StateView {
        StateView {
            phase: AppPhase::Menu,
            session: SessionState {
                playtesting_editor: false,
                playing_level_name: None,
                ..self.session
            },
            ui: UiState { level_name: None, ..self.ui },
            input: InputState { right_dragging: false, ..self.input },
            editor: EditorView {
                selected_block_index: None,
                selected_block_indices: Seq::empty(),
                hovered_block_index: None,
                drag: None,
                ..self.editor
            },
            ..self
        }.after_clear_pan_keys()
    }

    /// Starting the builtin level at `index`: a fresh game in play, the
    /// music stopped and the level loaded by the shell.
    #[verifier::opaque]
    pub open spec fn after_start_level(self, index: int) -> StateView {
        let name = self.menu.levels[index];
        self.with_game(fresh_game()).after_enter_playing(Some(name), false).after_stop_audio()
            .with_effect(Effect::LoadPlayingLevel { level_name: name })
    }

    /// Restarting: music stopped, a fresh game rebuilt from the editor
    /// (playtest) or the named level, and the playing camera reset.
    #[verifier::opaque]
    pub open spec fn after_restart_level(self) -> StateView {
        let t = self.after_stop_audio().with_game(fresh_game());
        let t2 = if t.session.playtesting_editor {
            t.with_effect(Effect::BuildPlaytest)
        } else {
            match t.session.playing_level_name {
                Some(n) => t.with_effect(Effect::LoadPlayingLevel { level_name: n }),
                None => t,
            }
        };
        t2.with_effect(Effect::ResetPlayingCamera)
    }

    /// Opening the builtin level at `index` in the editor: music stopped,
    /// the editor entered on its name, and the level loaded by the shell.
    #[verifier::opaque]
    pub open spec fn after_start_editor(self, index: int) -> StateView {
        let name = self.menu.levels[index];
        self.after_stop_audio().after_enter_editor(name).with_effect(
            Effect::LoadEditorLevel { level_name: name },
        )
    }

    /// Leaving play or the editor: timeline playback and music stopped; a
    /// playtest goes back to the editor, anything else to the menu scene.
    #[verifier::opaque]
    pub open spec fn after_back_to_menu(self) -> StateView {
        let t = self.after_stop_timeline().after_stop_audio();
        if t.session.playtesting_editor {
            StateView {
                phase: AppPhase::Editor,
                session: SessionState { playtesting_editor: false, ..t.session },
                game: fresh_game(),
                ..t
            }.with_effect(Effect::ShowEditorObjects)
        } else {
            t.after_enter_menu().with_game(fresh_game()).with_effect(Effect::ShowMenuScene)
        }
    }

    /// Playtesting from the editor: timeline playback and music stopped,
    /// play entered on the edited level, a fresh game built from the editor,
    /// camera drag ended.
    #[verifier::opaque]
    pub open spec fn after_playtest(self) -> StateView {
        if self.phase != AppPhase::Editor {
            self
        } else {
            let t = self.after_stop_timeline().after_stop_audio().after_enter_playing(self.ui.level_name, true);
            StateView {
                game: fresh_game(),
                input: InputState { right_dragging: false, ..t.input },
                ..t
            }.with_effect(Effect::BuildPlaytest)
        }
    }

    /// Switching between menu, editor and playtest.
    #[verifier::opaque]
    pub open spec fn after_toggle_editor(self) -> StateView {
        match self.phase {
            AppPhase::Menu => self.after_start_editor(self.menu.selected_level as int),
            AppPhase::Editor => self.after_back_to_menu(),
            AppPhase::Playing => if self.session.playtesting_editor {
                StateView { phase: AppPhase::Editor, ..self }.after_stop_audio().after_sync_objects()
            } else {
                self
            },
            AppPhase::GameOver => self,
        }
    }

    /// The music of the play that starts: the edited level's when
    /// playtesting, else the named builtin level's.
    pub open spec fn after_start_play_audio(self) -> StateView {
        if self.session.playtesting_editor {
            self.with_effect(Effect::StartEditorAudio { level_name: self.ui.level_name })
        } else {
            match self.session.playing_level_name {
                Some(n) => self.with_effect(Effect::StartLevelAudio { level_name: n }),
                None => self,
            }
        }
    }

    /// The main action: start the highlighted level from the menu; in play
    /// start the game (with its music), restart after a game over or turn;
    /// place a block in the editor; leave the game-over screen.
    #[verifier::opaque]
    pub open spec fn after_turn_right(self) -> StateView {
        match self.phase {
            AppPhase::Menu => self.after_start_level(self.menu.selected_level as int),
            AppPhase::Playing => if !self.game.started {
                self.with_game(GameFlags { started: true, ..self.game }).after_start_play_audio()
            } else if self.game.game_over {
                self.after_restart_level()
            } else {
                self.with_effect(Effect::TurnPlayer)
            },
            AppPhase::Editor => self.after_place_block(),
            AppPhase::GameOver => StateView { phase: AppPhase::Menu, ..self },
        }
    }

    /// The next level in the menu (wrapping), or the cursor one cell to the
    /// right in the editor.
    #[verifier::opaque]
    pub open spec fn after_next_level(self) -> StateView {
        if self.phase == AppPhase::Menu {
            StateView {
                menu: MenuView {
                    selected_level: ((self.menu.selected_level + 1) % (self.menu.levels.len() as int)) as usize,
                    ..self.menu
                },
                ..self
            }
        } else if self.phase == AppPhase::Editor {
            self.after_move_cursor(1, 0)
        } else {
            self
        }
    }

    /// The previous level in the menu (wrapping), or the cursor one cell to
    /// the left in the editor.
    #[verifier::opaque]
    pub open spec fn after_prev_level(self) -> StateView {
        if self.phase == AppPhase::Menu {
            StateView {
                menu: MenuView {
                    selected_level: if self.menu.selected_level == 0 {
                        (self.menu.levels.len() - 1) as usize
                    } else {
                        (self.menu.selected_level - 1) as usize
                    },
                    ..self.menu
                },
                ..self
            }
        } else if self.phase == AppPhase::Editor {
            self.after_move_cursor(-1i32, 0)
        } else {
            self
        }
    }
}

impl State {
    /// Stops the music.
    pub fn stop_audio(&mut self)
        ensures
            final(self)@ == old(self)@.after_stop_audio(),
    {
        self.effects.push(Effect::StopAudio);
    }

    /// Enters play on a level: records the session, resets the playing
    /// camera and releases the held keys.
    pub fn enter_playing_phase(&mut self, level_name: Option<String>, playtesting_editor: bool)
        ensures
            final(self)@ == old(self)@.after_enter_playing(level_name, playtesting_editor),
    {
        self.phase = AppPhase::Playing;
        self.session.playtesting_editor = playtesting_editor;
        self.session.playing_level_name = level_name;
        self.effects.push(Effect::ResetPlayingCamera);
        self.clear_editor_pan_keys();
    }

    /// Enters the editor on a level: place mode, nothing selected or
    /// dragged, empty history, released keys, reset camera, fresh game.
    pub fn enter_editor_phase(&mut self, level_name: String)
        ensures
            final(self)@ == old(self)@.after_enter_editor(level_name),
    {
        self.phase = AppPhase::Editor;
        self.ui.level_name = Some(level_name);
        self.session.playtesting_editor = false;
        self.input.right_dragging = false;
        self.editor.mode = EditorMode::Place;
        self.editor.selected_block_index = None;
        self.editor.selected_block_indices = Vec::new();
        self.editor.hovered_block_index = None;
        self.editor.drag = None;
        self.history.undo = Vec::new();
        self.history.redo = Vec::new();
        self.clear_editor_pan_keys();
        self.effects.push(Effect::ResetEditorCamera);
        self.game = GameFlags { started: false, game_over: false, level_complete: false };
        assert(self@.editor.selected_block_indices =~= Seq::<usize>::empty());
        assert(self@.history.undo =~= Seq::empty());
        assert(self@.history.redo =~= Seq::empty());
    }

    /// Enters the menu: no playtest and no level names, nothing selected or
    /// dragged, released keys.
    pub fn enter_menu_phase(&mut self)
        ensures
            final(self)@ == old(self)@.after_enter_menu(),
    {
        self.session.playtesting_editor = false;
        self.ui.level_name = None;
        self.editor.selected_block_index = None;
        self.editor.selected_block_indices = Vec::new();
        self.editor.hovered_block_index = None;
        self.editor.drag = None;
        self.session.playing_level_name = None;
        self.input.right_dragging = false;
        self.clear_editor_pan_keys();
        self.phase = AppPhase::Menu;
        assert(self@.editor.selected_block_indices =~= Seq::<usize>::empty());
    }

    /// Starts the builtin level at `index` of the menu.
    pub fn start_level(&mut self, index: usize)
        requires
            index < old(self)@.menu.levels.len(),
        ensures
            final(self)@ == old(self)@.after_start_level(index as int),
    {
        proof {
            reveal(StateView::after_start_level);
        }
        let level_name = self.menu.levels[index].clone();
        self.game = GameFlags { started: false, game_over: false, level_complete: false };
        self.enter_playing_phase(Some(level_name.clone()), false);
        self.stop_audio();
        self.effects.push(Effect::LoadPlayingLevel { level_name });
    }

    /// Restarts the level being played from a fresh game.
    pub fn restart_level(&mut self)
        ensures
            final(self)@ == old(self)@.after_restart_level(),
    {
        proof {
            reveal(StateView::after_restart_level);
        }
        self.stop_audio();
        self.game = GameFlags { started: false, game_over: false, level_complete: false };
        if self.session.playtesting_editor {
            self.effects.push(Effect::BuildPlaytest);
        } else {
            match &self.session.playing_level_name {
                Some(n) => {
                    let level_name = n.clone();
                    self.effects.push(Effect::LoadPlayingLevel { level_name });
                },
                None => {},
            }
        }
        self.effects.push(Effect::ResetPlayingCamera);
    }

    /// Opens the builtin level at `index` of the menu in the editor.
    pub fn start_editor(&mut self, index: usize)
        requires
            index < old(self)@.menu.levels.len(),
        ensures
            final(self)@ == old(self)@.after_start_editor(index as int),
    {
        proof {
            reveal(StateView::after_start_editor);
        }
        let level_name = self.menu.levels[index].clone();
        self.stop_audio();
        self.enter_editor_phase(level_name.clone());
        self.effects.push(Effect::LoadEditorLevel { level_name });
    }

    /// Leaves play or the editor: a playtest returns to the editor,
    /// anything else to the menu.
    pub fn back_to_menu(&mut self)
        ensures
            final(self)@ == old(self)@.after_back_to_menu(),
    {
        proof {
            reveal(StateView::after_back_to_menu);
        }
        self.timeline.playing = false;
        self.stop_audio();
        if self.session.playtesting_editor {
            self.session.playtesting_editor = false;
            self.phase = AppPhase::Editor;
            self.game = GameFlags { started: false, game_over: false, level_complete: false };
            self.effects.push(Effect::ShowEditorObjects);
            return;
        }
        self.enter_menu_phase();
        self.game = GameFlags { started: false, game_over: false, level_complete: false };
        self.effects.push(Effect::ShowMenuScene);
    }

    /// From the editor, plays the edited level.
    pub fn editor_playtest(&mut self)
        ensures
            final(self)@ == old(self)@.after_playtest(),
    {
        proof {
            reveal(StateView::after_playtest);
        }
        if self.phase != AppPhase::Editor {
            return;
        }
        self.timeline.playing = false;
        self.stop_audio();
        let level_name = match &self.ui.level_name {
            Some(n) => Some(n.clone()),
            None => None,
        };
        self.enter_playing_phase(level_name, true);
        self.game = GameFlags { started: false, game_over: false, level_complete: false };
        self.input.right_dragging = false;
        self.effects.push(Effect::BuildPlaytest);
    }

    /// Switches between the menu, the editor and a playtest.
    pub fn toggle_editor(&mut self)
        requires
            old(self)@.phase == AppPhase::Menu ==> old(self)@.menu_ok(),
        ensures
            final(self)@ == old(self)@.after_toggle_editor(),
    {
        proof {
            reveal(StateView::after_toggle_editor);
        }
        match self.phase {
            AppPhase::Menu => {
                let index = self.menu.selected_level;
                self.start_editor(index);
            },
            AppPhase::Editor => self.back_to_menu(),
            AppPhase::Playing => {
                if self.session.playtesting_editor {
                    self.phase = AppPhase::Editor;
                    self.stop_audio();
                    self.sync_editor_objects();
                }
            },
            AppPhase::GameOver => {},
        }
    }

    /// Starts the music of the play that begins.
    pub(crate) fn start_play_audio(&mut self)
        ensures
            final(self)@ == old(self)@.after_start_play_audio(),
    {
        if self.session.playtesting_editor {
            let level_name = match &self.ui.level_name {
                Some(n) => Some(n.clone()),
                None => None,
            };
            self.effects.push(Effect::StartEditorAudio { level_name });
        } else {
            match &self.session.playing_level_name {
                Some(n) => {
                    let level_name = n.clone();
                    self.effects.push(Effect::StartLevelAudio { level_name });
                },
                None => {},
            }
        }
    }

    /// The main action of every phase.
    pub fn turn_right(&mut self)
        requires
            old(self)@.phase == AppPhase::Menu ==> old(self)@.menu_ok(),
        ensures
            final(self)@ == old(self)@.after_turn_right(),
    {
        proof {
            reveal(StateView::after_turn_right);
        }
        match self.phase {
            AppPhase::Menu => {
                let index = self.menu.selected_level;
                self.start_level(index);
            },
            AppPhase::Playing => {
                if !self.game.started {
                    self.game.started = true;
                    self.start_play_audio();
                } else if self.game.game_over {
                    self.restart_level();
                } else {
                    self.effects.push(Effect::TurnPlayer);
                }
            },
            AppPhase::Editor => self.place_editor_block(),
            AppPhase::GameOver => {
                self.phase = AppPhase::Menu;
            },
        }
    }

    /// Highlights the next level in the menu, or moves the editor cursor
    /// right.
    pub fn next_level(&mut self)
        requires
            old(self)@.phase == AppPhase::Menu ==> old(self)@.menu.levels.len() > 0,
            old(self)@.phase == AppPhase::Editor ==> old(self)@.editor.bounds >= 0,
        ensures
            final(self)@ == old(self)@.after_next_level(),
    {
        proof {
            reveal(StateView::after_next_level);
        }
        if self.phase == AppPhase::Menu {
            let n = self.menu.levels.len();
            self.menu.selected_level = ((self.menu.selected_level as u128 + 1) % n as u128) as usize;
        } else if self.phase == AppPhase::Editor {
            self.move_editor_cursor(1, 0);
        }
    }

    /// Highlights the previous level in the menu, or moves the editor
    /// cursor left.
    pub fn prev_level(&mut self)
        requires
            old(self)@.phase == AppPhase::Menu ==> old(self)@.menu.levels.len() > 0,
            old(self)@.phase == AppPhase::Editor ==> old(self)@.editor.bounds >= 0,
        ensures
            final(self)@ == old(self)@.after_prev_level(),
    {
        proof {
            reveal(StateView::after_prev_level);
        }
        if self.phase == AppPhase::Menu {
            if self.menu.selected_level == 0 {
                self.menu.selected_level = self.menu.levels.len() - 1;
            } else {
                self.menu.selected_level = self.menu.selected_level - 1;
            }
        } else if self.phase == AppPhase::Editor {
            self.move_editor_cursor(-1, 0);
        }
    }
}

} // verus!
