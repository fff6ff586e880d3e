use vstd::prelude::*;
use crate::state::{Effect, EditorView, GameFlags, SessionState, State, StateView, TimelineView};
use crate::types::{AppPhase, EditorMode};

verus! {

impl StateView {
    /// A level is being played for real (not a playtest from the editor).
    pub open spec fn real_play(self) -> bool {
        self.phase == AppPhase::Playing && !self.session.playtesting_editor
    }

    /// Practice mode is on in a real play session.
    pub open spec fn practice_active(self) -> bool {
        self.real_play() && self.session.practice_mode_enabled
    }

    /// A game waiting for its first input starts, with its music.
    pub open spec fn after_start_gameplay_if_needed(self) -> StateView {
        if !self.game.started {
            self.with_game(GameFlags { started: true, ..self.game }).after_start_play_audio()
        } else {
            self
        }
    }

    /// Pausing real play: pending inputs dropped and the music paused.
    pub open spec fn after_pause(self) -> StateView {
        if !self.real_play() {
            self
        } else {
            self.with_session(SessionState { game_paused: true, ..self.session }).with_effect(
                Effect::ClearPendingGameplayInputs,
            ).with_effect(Effect::PauseAudio)
        }
    }

    /// Resuming paused real play: a game that had not started starts, else
    /// the music resumes.
    #[verifier::opaque]
    pub open spec fn after_resume(self) -> StateView {
        if !self.real_play() || !self.session.game_paused {
            self
        } else {
            let t = self.with_session(SessionState { game_paused: false, ..self.session });
            if !t.game.started {
                t.after_start_gameplay_if_needed()
            } else {
                t.with_effect(Effect::ResumeAudio)
            }
        }
    }

    /// Pausing or resuming real play.
    pub open spec fn after_toggle_pause(self) -> StateView {
        if !self.real_play() {
            self
        } else if self.session.game_paused {
            self.after_resume()
        } else {
            self.after_pause()
        }
    }

    /// Restarting real play from the pause menu.
    #[verifier::opaque]
    pub open spec fn after_restart_from_pause(self) -> StateView {
        if !self.real_play() {
            self
        } else {
            self.with_session(SessionState { game_paused: false, ..self.session }).after_restart_level()
        }
    }

    /// Quitting real play from the pause menu.
    #[verifier::opaque]
    pub open spec fn after_quit_from_pause(self) -> StateView {
        if !self.real_play() {
            self
        } else {
            self.with_session(SessionState { game_paused: false, ..self.session }).after_back_to_menu()
        }
    }

    /// Turning practice mode on or off in real play drops every checkpoint;
    /// turning it off restarts the level; either way play resumes.
    #[verifier::opaque]
    pub open spec fn after_set_practice(self, enabled: bool) -> StateView {
        if !self.real_play() {
            self
        } else {
            let t = self.with_session(
                SessionState { practice_mode_enabled: enabled, practice_checkpoints: 0, ..self.session },
            ).with_effect(Effect::ClearPracticeCheckpoints);
            if enabled {
                t.after_resume()
            } else {
                t.after_restart_level().after_resume()
            }
        }
    }

    /// A checkpoint can be recorded: practice in unpaused play of a game
    /// that started and is neither lost nor complete.
    pub open spec fn can_checkpoint(self) -> bool {
        &&& self.practice_active()
        &&& !self.session.game_paused
        &&& self.game.started
        &&& !self.game.game_over
        &&& !self.game.level_complete
    }

    /// Recording a practice checkpoint.
    #[verifier::opaque]
    pub open spec fn after_set_checkpoint(self) -> StateView {
        if !self.can_checkpoint() {
            self
        } else {
            self.with_session(
                SessionState {
                    practice_checkpoints: if self.session.practice_checkpoints < usize::MAX {
                        (self.session.practice_checkpoints + 1) as usize
                    } else {
                        self.session.practice_checkpoints
                    },
                    ..self.session
                },
            ).with_effect(Effect::PushPracticeCheckpoint)
        }
    }

    /// Dropping the latest practice checkpoint (in unpaused practice).
    #[verifier::opaque]
    pub open spec fn after_remove_checkpoint(self) -> StateView {
        if !self.practice_active() || self.session.game_paused {
            self
        } else {
            self.with_session(
                SessionState {
                    practice_checkpoints: if self.session.practice_checkpoints == 0 {
                        0
                    } else {
                        (self.session.practice_checkpoints - 1) as usize
                    },
                    ..self.session
                },
            ).with_effect(Effect::PopPracticeCheckpoint)
        }
    }

    /// Starting or stopping the timeline preview in the editor. Starting
    /// keeps the mode for later, switches to no mode and starts the preview
    /// at the current step; stopping gives the kept mode back (place mode
    /// when none was kept) and stops the music.
    #[verifier::opaque]
    pub open spec fn after_toggle_playback(self) -> StateView {
        if self.phase != AppPhase::Editor {
            self
        } else if !self.timeline.playing {
            let t = self.with_timeline(
                TimelineView { playing: true, last_mode: Some(self.editor.mode), ..self.timeline },
            ).after_set_mode(EditorMode::Null);
            t.with_effect(
                Effect::StartTimelinePlayback { level_name: t.ui.level_name, step: t.timeline.step },
            )
        } else {
            let mode = match self.timeline.last_mode {
                Some(m) => m,
                None => EditorMode::Place,
            };
            self.with_timeline(TimelineView { playing: false, last_mode: None, ..self.timeline })
                .after_set_mode(mode).after_stop_audio()
        }
    }

    /// Choosing a mode: while the timeline plays in the editor the choice is
    /// kept for when it stops; otherwise the mode is set.
    #[verifier::opaque]
    pub open spec fn after_set_effective_mode(self, mode: EditorMode) -> StateView {
        if self.phase != AppPhase::Editor || !self.timeline.playing {
            self.after_set_mode(mode)
        } else {
            self.with_timeline(TimelineView { last_mode: Some(mode), ..self.timeline })
                .after_set_mode(EditorMode::Null)
        }
    }

    /// Escape drops the block selection and the tap selection.
    pub open spec fn after_clear_selection_for_escape(self) -> StateView {
        let t = if self.has_block_selection() {
            self.with_editor(
                EditorView {
                    selected_block_index: None,
                    selected_block_indices: Seq::empty(),
                    hovered_block_index: None,
                    ..self.editor
                },
            )
        } else {
            self
        };
        if self.timeline.selected_tap is Some {
            t.with_timeline(TimelineView { selected_tap: None, ..t.timeline })
        } else {
            t
        }
    }

    /// Escape: pauses or resumes real play; outside the editor leaves for
    /// the menu; in the editor drops a selection, else stops the timeline
    /// preview, else rewinds the timeline, else leaves for the menu.
    #[verifier::opaque]
    pub open spec fn after_escape(self) -> StateView {
        if self.real_play() {
            self.after_toggle_pause()
        } else if self.phase != AppPhase::Editor {
            self.after_back_to_menu()
        } else if self.has_block_selection() || self.timeline.selected_tap is Some {
            self.after_clear_selection_for_escape()
        } else if self.timeline.playing {
            self.with_timeline(TimelineView { playing: false, ..self.timeline }).after_stop_audio()
        } else if self.timeline.step > 0 {
            self.after_set_timeline_step(0)
        } else {
            self.after_back_to_menu()
        }
    }
}

impl State {
    /// Whether practice mode is on in a real play session.
    pub fn is_practice_mode_enabled(&self) -> (r: bool)
        ensures
            r == self@.practice_active(),
    {
        self.phase == AppPhase::Playing && !self.session.playtesting_editor
            && self.session.practice_mode_enabled
    }

    /// Starts a game that waits for its first input; returns whether it did.
    pub fn start_gameplay_if_needed(&mut self) -> (started: bool)
        ensures
            final(self)@ == old(self)@.after_start_gameplay_if_needed(),
            started == !old(self)@.game.started,
    {
        if self.game.started {
            return false;
        }
        self.game.started = true;
        self.start_play_audio();
        true
    }

    /// Pauses real play.
    pub fn pause_game(&mut self)
        ensures
            final(self)@ == old(self)@.after_pause(),
    {
        if self.phase != AppPhase::Playing || self.session.playtesting_editor {
            return;
        }
        self.session.game_paused = true;
        self.effects.push(Effect::ClearPendingGameplayInputs);
        self.effects.push(Effect::PauseAudio);
    }

    /// Resumes paused real play, starting a game that had not started.
    pub fn resume_game(&mut self)
        ensures
            final(self)@ == old(self)@.after_resume(),
    {
        proof {
            reveal(StateView::after_resume);
        }
        if self.phase != AppPhase::Playing || self.session.playtesting_editor {
            return;
        }
        if self.session.game_paused {
            self.session.game_paused = false;
            if !self.start_gameplay_if_needed() {
                self.effects.push(Effect::ResumeAudio);
            }
        }
    }

    /// Pauses or resumes real play.
    pub fn toggle_game_pause(&mut self)
        ensures
            final(self)@ == old(self)@.after_toggle_pause(),
    {
        if self.phase != AppPhase::Playing || self.session.playtesting_editor {
            return;
        }
        if self.session.game_paused {
            self.resume_game();
        } else {
            self.pause_game();
        }
    }

    /// Restarts real play from the pause menu.
    pub fn restart_game_from_pause(&mut self)
        ensures
            final(self)@ == old(self)@.after_restart_from_pause(),
    {
        proof {
            reveal(StateView::after_restart_from_pause);
        }
        if self.phase != AppPhase::Playing || self.session.playtesting_editor {
            return;
        }
        self.session.game_paused = false;
        self.restart_level();
    }

    /// Quits real play to the menu from the pause menu.
    pub fn quit_game_from_pause(&mut self)
        ensures
            final(self)@ == old(self)@.after_quit_from_pause(),
    {
        proof {
            reveal(StateView::after_quit_from_pause);
        }
        if self.phase != AppPhase::Playing || self.session.playtesting_editor {
            return;
        }
        self.session.game_paused = false;
        self.back_to_menu();
    }

    /// Turns practice mode on or off in real play.
    pub fn set_practice_mode_enabled(&mut self, enabled: bool)
        ensures
            final(self)@ == old(self)@.after_set_practice(enabled),
    {
        proof {
            reveal(StateView::after_set_practice);
        }
        if self.phase != AppPhase::Playing || self.session.playtesting_editor {
            return;
        }
        self.session.practice_mode_enabled = enabled;
        self.session.practice_checkpoints = 0;
        self.effects.push(Effect::ClearPracticeCheckpoints);
        if enabled {
            self.resume_game();
            return;
        }
        self.restart_level();
        self.resume_game();
    }

    /// Records a practice checkpoint of the running game (the count stops at
    /// the largest `usize`).
    pub fn set_practice_checkpoint(&mut self)
        ensures
            final(self)@ == old(self)@.after_set_checkpoint(),
    {
        proof {
            reveal(StateView::after_set_checkpoint);
        }
        if self.phase != AppPhase::Playing || self.session.playtesting_editor
            || !self.session.practice_mode_enabled || self.session.game_paused || !self.game.started
            || self.game.game_over || self.game.level_complete {
            return;
        }
        if self.session.practice_checkpoints < usize::MAX {
            self.session.practice_checkpoints = self.session.practice_checkpoints + 1;
        }
        self.effects.push(Effect::PushPracticeCheckpoint);
    }

    /// Drops the latest practice checkpoint.
    pub fn remove_practice_checkpoint(&mut self)
        ensures
            final(self)@ == old(self)@.after_remove_checkpoint(),
    {
        proof {
            reveal(StateView::after_remove_checkpoint);
        }
        if self.phase != AppPhase::Playing || self.session.playtesting_editor
            || !self.session.practice_mode_enabled || self.session.game_paused {
            return;
        }
        if self.session.practice_checkpoints > 0 {
            self.session.practice_checkpoints = self.session.practice_checkpoints - 1;
        }
        self.effects.push(Effect::PopPracticeCheckpoint);
    }

    /// Starts or stops the editor's timeline preview.
    pub fn toggle_editor_timeline_playback(&mut self)
        ensures
            final(self)@ == old(self)@.after_toggle_playback(),
    {
        proof {
            reveal(StateView::after_toggle_playback);
        }
        if self.phase != AppPhase::Editor {
            return;
        }
        if !self.timeline.playing {
            self.timeline.playing = true;
            self.timeline.last_mode = Some(self.editor.mode);
            self.set_editor_mode(EditorMode::Null);
            let level_name = match &self.ui.level_name {
                Some(n) => Some(n.clone()),
                None => None,
            };
            let step = self.timeline.step;
            self.effects.push(Effect::StartTimelinePlayback { level_name, step });
            return;
        }
        self.timeline.playing = false;
        let mode = match self.timeline.last_mode {
            Some(m) => m,
            None => EditorMode::Place,
        };
        self.timeline.last_mode = None;
        self.set_editor_mode(mode);
        self.stop_audio();
    }

    /// Chooses a mode; while the timeline plays in the editor the choice
    /// waits for playback to stop.
    pub fn set_editor_playback_effective_mode(&mut self, mode: EditorMode)
        ensures
            final(self)@ == old(self)@.after_set_effective_mode(mode),
    {
        proof {
            reveal(StateView::after_set_effective_mode);
        }
        if self.phase != AppPhase::Editor || !self.timeline.playing {
            self.set_editor_mode(mode);
            return;
        }
        self.timeline.last_mode = Some(mode);
        self.set_editor_mode(EditorMode::Null);
    }

    /// Drops the block and tap selections; returns whether there was one.
    pub fn clear_editor_selection_for_escape(&mut self) -> (had: bool)
        ensures
            final(self)@ == old(self)@.after_clear_selection_for_escape(),
            had == (old(self)@.has_block_selection() || old(self)@.timeline.selected_tap is Some),
    {
        let had_block = self.has_block_selection();
        let had_tap = self.timeline.selected_tap.is_some();
        if had_block {
            self.editor.selected_block_index = None;
            self.editor.selected_block_indices = Vec::new();
            self.editor.hovered_block_index = None;
            assert(self@.editor.selected_block_indices =~= Seq::<usize>::empty());
        }
        if had_tap {
            self.timeline.selected_tap = None;
        }
        had_block || had_tap
    }

    /// Escape in every phase.
    pub fn handle_editor_escape(&mut self)
        requires
            old(self)@.timeline.length >= 1,
        ensures
            final(self)@ == old(self)@.after_escape(),
    {
        proof {
            reveal(StateView::after_escape);
        }
        if self.phase == AppPhase::Playing && !self.session.playtesting_editor {
            self.toggle_game_pause();
            return;
        }
        if self.phase != AppPhase::Editor {
            self.back_to_menu();
            return;
        }
        if self.clear_editor_selection_for_escape() {
            return;
        }
        if self.timeline.playing {
            self.timeline.playing = false;
            self.stop_audio();
        } else if self.timeline.step > 0 {
            self.set_editor_timeline_step(0);
        } else {
            self.back_to_menu();
        }
    }
}

} // verus!
