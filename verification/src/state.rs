use vstd::prelude::*;
use crate::auth::{AuthState, AuthView};
use crate::commands::{bindings_view, EditorCommand, KeyBinding, KeyBindingView};
use crate::sorted::strictly_increasing_u32;
use crate::explorer::{labels_view, LabelView, ObjectLabel};
use crate::strings::to_owned_string;
use crate::types::{
    AppPhase, BlockKind, EditorDrag, EditorMode, LevelObject, SpawnDirection, SpawnMetadata, Vec3i, CELL,
};

verus! {

/// The level list of the menu and the highlighted entry.
pub struct MenuState {
    pub selected_level: usize,
    pub levels: Vec<String>,
}

/// The menu with its level list as a sequence.
pub struct MenuView {
    pub selected_level: usize,
    pub levels: Seq<String>,
}

impl View for MenuState {
    type V = MenuView;

    open spec fn view(&self) -> MenuView {
        MenuView { selected_level: self.selected_level, levels: self.levels@ }
    }
}

/// The flags of the running game that the shell's logic reads.
#[derive(Clone, Copy, Debug, PartialEq, Eq, Structural)]
pub struct GameFlags {
    pub started: bool,
    pub game_over: bool,
    pub level_complete: bool,
}

/// The play session: where it came from, pause and practice.
pub struct SessionState {
    pub playtesting_editor: bool,
    pub game_paused: bool,
    pub practice_mode_enabled: bool,
    pub practice_checkpoints: usize,
    pub playing_level_name: Option<String>,
}

/// Held keys and mouse drag.
#[derive(Clone, Copy, Debug, PartialEq, Eq, Structural)]
pub struct InputState {
    pub right_dragging: bool,
    pub pan_up_held: bool,
    pub pan_down_held: bool,
    pub pan_left_held: bool,
    pub pan_right_held: bool,
    pub shift_held: bool,
    pub ctrl_held: bool,
    pub alt_held: bool,
}

/// The edited level and the editor's selection and cursor.
pub struct EditorState {
    pub selected_kind: BlockKind,
    pub objects: Vec<LevelObject>,
    /// The explorer's name and group path of each block, in block order.
    pub labels: Vec<ObjectLabel>,
    pub spawn: SpawnMetadata,
    pub cursor: Vec3i,
    /// How far from the origin, in cells, the cursor may follow a block set
    /// to a new position across the ground (see `follow_cursor`); cursor
    /// moves themselves are not limited by it.
    pub bounds: i32,
    pub mode: EditorMode,
    pub snap_to_grid: bool,
    pub snap_step: i64,
    /// The turn, in degrees about the vertical axis, of the next block placed.
    pub placement_yaw: u32,
    pub selected_block_index: Option<usize>,
    pub selected_block_indices: Vec<usize>,
    pub hovered_block_index: Option<usize>,
    pub drag: Option<EditorDrag>,
    pub clipboard: Option<LevelObject>,
}

/// The editor with its lists as sequences.
pub struct EditorView {
    pub selected_kind: BlockKind,
    pub objects: Seq<LevelObject>,
    pub labels: Seq<LabelView>,
    pub spawn: SpawnMetadata,
    pub cursor: Vec3i,
    pub bounds: i32,
    pub mode: EditorMode,
    pub snap_to_grid: bool,
    pub snap_step: i64,
    pub placement_yaw: u32,
    pub selected_block_index: Option<usize>,
    pub selected_block_indices: Seq<usize>,
    pub hovered_block_index: Option<usize>,
    pub drag: Option<EditorDrag>,
    pub clipboard: Option<LevelObject>,
}

impl View for EditorState {
    type V = EditorView;

    open spec fn view(&self) -> EditorView {
        EditorView {
            selected_kind: self.selected_kind,
            objects: self.objects@,
            labels: labels_view(self.labels@),
            spawn: self.spawn,
            cursor: self.cursor,
            bounds: self.bounds,
            mode: self.mode,
            snap_to_grid: self.snap_to_grid,
            snap_step: self.snap_step,
            placement_yaw: self.placement_yaw,
            selected_block_index: self.selected_block_index,
            selected_block_indices: self.selected_block_indices@,
            hovered_block_index: self.hovered_block_index,
            drag: self.drag,
            clipboard: self.clipboard,
        }
    }
}

/// The step timeline: the current step, its length, the tapped steps.
pub struct TimelineState {
    pub step: u32,
    pub length: u32,
    pub tap_steps: Vec<u32>,
    pub selected_tap: Option<usize>,
    pub playing: bool,
    pub last_mode: Option<EditorMode>,
}

/// The timeline with its taps as a sequence.
pub struct TimelineView {
    pub step: u32,
    pub length: u32,
    pub tap_steps: Seq<u32>,
    pub selected_tap: Option<usize>,
    pub playing: bool,
    pub last_mode: Option<EditorMode>,
}

impl View for TimelineState {
    type V = TimelineView;

    open spec fn view(&self) -> TimelineView {
        TimelineView {
            step: self.step,
            length: self.length,
            tap_steps: self.tap_steps@,
            selected_tap: self.selected_tap,
            playing: self.playing,
            last_mode: self.last_mode,
        }
    }
}

/// The editor state that undo and redo restore.
pub struct EditorSnapshot {
    pub objects: Vec<LevelObject>,
    pub labels: Vec<ObjectLabel>,
    pub selected_block_index: Option<usize>,
    pub selected_block_indices: Vec<usize>,
    pub cursor: Vec3i,
    pub selected_kind: BlockKind,
    pub spawn: SpawnMetadata,
    pub timeline_step: u32,
    pub timeline_length: u32,
    pub tap_steps: Vec<u32>,
}

/// An editor snapshot with its lists as sequences.
pub struct SnapshotView {
    pub objects: Seq<LevelObject>,
    pub labels: Seq<LabelView>,
    pub selected_block_index: Option<usize>,
    pub selected_block_indices: Seq<usize>,
    pub cursor: Vec3i,
    pub selected_kind: BlockKind,
    pub spawn: SpawnMetadata,
    pub timeline_step: u32,
    pub timeline_length: u32,
    pub tap_steps: Seq<u32>,
}

impl View for EditorSnapshot {
    type V = SnapshotView;

    open spec fn view(&self) -> SnapshotView {
        SnapshotView {
            objects: self.objects@,
            labels: labels_view(self.labels@),
            selected_block_index: self.selected_block_index,
            selected_block_indices: self.selected_block_indices@,
            cursor: self.cursor,
            selected_kind: self.selected_kind,
            spawn: self.spawn,
            timeline_step: self.timeline_step,
            timeline_length: self.timeline_length,
            tap_steps: self.tap_steps@,
        }
    }
}

/// The undo and redo stacks of the editor.
pub struct HistoryState {
    pub undo: Vec<EditorSnapshot>,
    pub redo: Vec<EditorSnapshot>,
}

/// The history stacks as sequences of snapshot views, oldest first.
pub struct HistoryView {
    pub undo: Seq<SnapshotView>,
    pub redo: Seq<SnapshotView>,
}

impl View for HistoryState {
    type V = HistoryView;

    open spec fn view(&self) -> HistoryView {
        HistoryView {
            undo: self.undo@.map_values(|s: EditorSnapshot| s@),
            redo: self.redo@.map_values(|s: EditorSnapshot| s@),
        }
    }
}

/// Level metadata being edited and the editor's windows.
pub struct UiState {
    pub level_name: Option<String>,
    pub music_source: String,
    pub show_metadata: bool,
    pub show_import: bool,
    pub show_settings: bool,
    pub import_text: String,
    pub keybind_capture: Option<(String, usize)>,
}

/// Work that the application shell performs on the library's behalf:
/// audio, level loading, gameplay physics, cameras and rendering.
#[derive(Debug, PartialEq, Eq)]
pub enum Effect {
    /// Stop the music.
    StopAudio,
    /// Pause the music.
    PauseAudio,
    /// Resume the paused music.
    ResumeAudio,
    /// Start the named builtin level's music from its beginning.
    StartLevelAudio { level_name: String },
    /// Start the edited level's music (an untitled level when no name).
    StartEditorAudio { level_name: Option<String> },
    /// Load the named builtin level for play: its blocks and spawn.
    LoadPlayingLevel { level_name: String },
    /// Build the playtest level from the editor's blocks, spawn and taps.
    BuildPlaytest,
    /// Export the edited level to a file named after it (see
    /// `level_export_filename`).
    ExportLevel { level_name: Option<String> },
    /// Load the named builtin level into the editor.
    LoadEditorLevel { level_name: String },
    /// Show the menu's background scene.
    ShowMenuScene,
    /// Show the editor's blocks in the game view.
    ShowEditorObjects,
    /// Turn the player.
    TurnPlayer,
    /// Put the playing camera back to its default angles.
    ResetPlayingCamera,
    /// Bring the editor camera over the cursor.
    FocusEditorCameraOnCursor,
    /// Put the editor camera back to its default angles and zoom.
    ResetEditorCamera,
    /// Start the timeline preview (simulation and music) at the step.
    StartTimelinePlayback { level_name: Option<String>, step: u32 },
    /// Recompute the timeline preview position from spawn, taps and step.
    RefreshTimelinePosition,
    /// Record a practice checkpoint of the current play.
    PushPracticeCheckpoint,
    /// Drop the latest practice checkpoint.
    PopPracticeCheckpoint,
    /// Drop every practice checkpoint.
    ClearPracticeCheckpoints,
    /// Forget gameplay inputs not yet applied.
    ClearPendingGameplayInputs,
    /// Drop the cached waveform of the music file `source` of the edited
    /// level (an untitled level when no name) and load it afresh.
    ReloadWaveform { level_name: Option<String>, source: String },
    /// Resize the drawing surface.
    ResizeSurface { width: u32, height: u32 },
    /// An editor command that needs screen geometry, floating point or
    /// outside services.
    Editor(EditorCommand),
}

/// The application state: phase, menu, play session, input, editor,
/// timeline, history, key bindings, imported audio, account, and the work
/// queued for the shell.
pub struct State {
    pub phase: AppPhase,
    pub menu: MenuState,
    pub game: GameFlags,
    pub session: SessionState,
    pub input: InputState,
    pub editor: EditorState,
    pub timeline: TimelineState,
    pub history: HistoryState,
    pub ui: UiState,
    pub keybinds: Vec<KeyBinding>,
    pub audio_cache: Vec<(String, Vec<u8>)>,
    pub auth: AuthState,
    pub effects: Vec<Effect>,
}

/// The application state with its lists as sequences.
pub struct StateView {
    pub phase: AppPhase,
    pub menu: MenuView,
    pub game: GameFlags,
    pub session: SessionState,
    pub input: InputState,
    pub editor: EditorView,
    pub timeline: TimelineView,
    pub history: HistoryView,
    pub ui: UiState,
    pub keybinds: Seq<KeyBindingView>,
    pub audio_cache: Seq<(String, Seq<u8>)>,
    pub auth: AuthView,
    pub effects: Seq<Effect>,
}

impl View for State {
    type V = StateView;

    open spec fn view(&self) -> StateView {
        StateView {
            phase: self.phase,
            menu: self.menu@,
            game: self.game,
            session: self.session,
            input: self.input,
            editor: self.editor@,
            timeline: self.timeline@,
            history: self.history@,
            ui: self.ui,
            keybinds: bindings_view(self.keybinds@),
            audio_cache: self.audio_cache@.map_values(|e: (String, Vec<u8>)| (e.0, e.1@)),
            auth: self.auth@,
            effects: self.effects@,
        }
    }
}

impl StateView {
    /// The invariant every operation keeps: a non-empty level list with a
    /// valid selection, non-negative editor bounds, one label per block, a
    /// timeline of at least one step holding the current step, sorted
    /// distinct taps, a selected tap that exists, and in every history
    /// snapshot one label per block and sorted distinct taps.
    pub open spec fn wf(self) -> bool {
        &&& self.menu.levels.len() > 0
        &&& self.editor.labels.len() == self.editor.objects.len()
        &&& self.menu.selected_level < self.menu.levels.len()
        &&& self.editor.bounds >= 0
        &&& self.timeline.length >= 1
        &&& self.timeline.step < self.timeline.length
        &&& strictly_increasing_u32(self.timeline.tap_steps)
        &&& match self.timeline.selected_tap {
            Some(i) => i < self.timeline.tap_steps.len(),
            None => true,
        }
        &&& forall|i: int|
            0 <= i < self.history.undo.len() ==> strictly_increasing_u32(
                #[trigger] self.history.undo[i].tap_steps,
            )
        &&& forall|i: int|
            0 <= i < self.history.redo.len() ==> strictly_increasing_u32(
                #[trigger] self.history.redo[i].tap_steps,
            )
        &&& forall|i: int|
            0 <= i < self.history.undo.len() ==> #[trigger] self.history.undo[i].labels.len()
                == self.history.undo[i].objects.len()
        &&& forall|i: int|
            0 <= i < self.history.redo.len() ==> #[trigger] self.history.redo[i].labels.len()
                == self.history.redo[i].objects.len()
    }

    /// The state with one more effect queued.
    pub open spec fn with_effect(self, e: Effect) -> StateView {
        StateView { effects: self.effects.push(e), ..self }
    }

    /// The state with other input flags.
    pub open spec fn with_input(self, input: InputState) -> StateView {
        StateView { input, ..self }
    }

    /// The editor is the current phase.
    pub open spec fn is_editor(self) -> bool {
        self.phase == AppPhase::Editor
    }

    /// Releasing every pan and modifier key (Alt is not among them).
    pub open spec fn after_clear_pan_keys(self) -> StateView {
        self.with_input(
            InputState {
                pan_up_held: false,
                pan_down_held: false,
                pan_left_held: false,
                pan_right_held: false,
                shift_held: false,
                ctrl_held: false,
                ..self.input
            },
        )
    }
}

impl State {
    /// A fresh application at the menu, with the first level selected, an
    /// empty editor (place mode, grid snapping by one cell, blocks placed unturned, a 64-step timeline, the
    /// spawn at the origin facing forward, music file "music.mp3"), the
    /// given key bindings and no account.
    pub fn new(levels: Vec<String>, bounds: i32, keybinds: Vec<KeyBinding>) -> (r: State)
        requires
            levels@.len() > 0,
            bounds >= 0,
        ensures
            r@.wf(),
            r@.phase == AppPhase::Menu,
            r@.menu.selected_level == 0,
            r@.menu.levels == levels@,
            r@.game == (GameFlags { started: false, game_over: false, level_complete: false }),
            !r@.session.playtesting_editor && !r@.session.game_paused
                && !r@.session.practice_mode_enabled,
            r@.session.practice_checkpoints == 0,
            r@.session.playing_level_name is None,
            r@.input == (InputState {
                right_dragging: false,
                pan_up_held: false,
                pan_down_held: false,
                pan_left_held: false,
                pan_right_held: false,
                shift_held: false,
                ctrl_held: false,
                alt_held: false,
            }),
            r@.editor.selected_kind == BlockKind::Standard,
            r@.editor.objects.len() == 0,
            r@.editor.labels.len() == 0,
            r@.editor.spawn == (SpawnMetadata {
                position: Vec3i { x: 0, y: 0, z: 0 },
                direction: SpawnDirection::Forward,
            }),
            r@.editor.cursor == (Vec3i { x: 0, y: 0, z: 0 }),
            r@.editor.bounds == bounds,
            r@.editor.mode == EditorMode::Place,
            r@.editor.snap_to_grid,
            r@.editor.snap_step == CELL,
            r@.editor.placement_yaw == 0,
            r@.editor.selected_block_index is None,
            r@.editor.selected_block_indices.len() == 0,
            r@.editor.hovered_block_index is None,
            r@.editor.drag is None,
            r@.editor.clipboard is None,
            r@.timeline.step == 0,
            r@.timeline.length == 64,
            r@.timeline.tap_steps.len() == 0,
            r@.timeline.selected_tap is None,
            !r@.timeline.playing,
            r@.timeline.last_mode is None,
            r@.history.undo.len() == 0,
            r@.history.redo.len() == 0,
            r@.ui.level_name is None,
            r@.ui.music_source@ == "music.mp3"@,
            !r@.ui.show_metadata && !r@.ui.show_import && !r@.ui.show_settings,
            r@.ui.import_text@.len() == 0,
            r@.ui.keybind_capture is None,
            r@.keybinds == bindings_view(keybinds@),
            r@.audio_cache.len() == 0,
            r@.auth.session is None,
            !r@.auth.pending,
            !r@.auth.refresh_started,
            r@.auth.message is None,
            r@.auth.requests.len() == 0,
            r@.effects.len() == 0,
    {
        let r = State {
            phase: AppPhase::Menu,
            menu: MenuState { selected_level: 0, levels },
            game: GameFlags { started: false, game_over: false, level_complete: false },
            session: SessionState {
                playtesting_editor: false,
                game_paused: false,
                practice_mode_enabled: false,
                practice_checkpoints: 0,
                playing_level_name: None,
            },
            input: InputState {
                right_dragging: false,
                pan_up_held: false,
                pan_down_held: false,
                pan_left_held: false,
                pan_right_held: false,
                shift_held: false,
                ctrl_held: false,
                alt_held: false,
            },
            editor: EditorState {
                selected_kind: BlockKind::Standard,
                objects: Vec::new(),
                labels: Vec::new(),
                spawn: SpawnMetadata {
                    position: Vec3i { x: 0, y: 0, z: 0 },
                    direction: SpawnDirection::Forward,
                },
                cursor: Vec3i { x: 0, y: 0, z: 0 },
                bounds,
                mode: EditorMode::Place,
                snap_to_grid: true,
                snap_step: CELL,
                placement_yaw: 0,
                selected_block_index: None,
                selected_block_indices: Vec::new(),
                hovered_block_index: None,
                drag: None,
                clipboard: None,
            },
            timeline: TimelineState {
                step: 0,
                length: 64,
                tap_steps: Vec::new(),
                selected_tap: None,
                playing: false,
                last_mode: None,
            },
            history: HistoryState { undo: Vec::new(), redo: Vec::new() },
            ui: UiState {
                level_name: None,
                music_source: to_owned_string("music.mp3"),
                show_metadata: false,
                show_import: false,
                show_settings: false,
                import_text: String::new(),
                keybind_capture: None,
            },
            keybinds,
            audio_cache: Vec::new(),
            auth: AuthState::new(),
            effects: Vec::new(),
        };
        assert(r@.editor.labels =~= Seq::<LabelView>::empty());
        assert(r@.history.undo =~= Seq::<SnapshotView>::empty());
        assert(r@.history.redo =~= Seq::<SnapshotView>::empty());
        assert(r@.audio_cache =~= Seq::<(String, Seq<u8>)>::empty());
        r
    }

    /// Whether the editor is the current phase.
    pub fn is_editor(&self) -> (r: bool)
        ensures
            r == self@.is_editor(),
    {
        self.phase == AppPhase::Editor
    }

    /// Records whether the right mouse button drags the camera.
    pub fn set_editor_right_dragging(&mut self, dragging: bool)
        ensures
            final(self)@ == old(self)@.with_input(
                InputState { right_dragging: dragging, ..old(self)@.input },
            ),
    {
        self.input.right_dragging = dragging;
    }

    /// Holds the pan-up key; only in the editor.
    pub fn set_editor_pan_up_held(&mut self, held: bool)
        ensures
            final(self)@ == old(self)@.with_input(
                InputState { pan_up_held: held && old(self)@.is_editor(), ..old(self)@.input },
            ),
    {
        self.input.pan_up_held = held && self.phase == AppPhase::Editor;
    }

    /// Holds the pan-down key; only in the editor.
    pub fn set_editor_pan_down_held(&mut self, held: bool)
        ensures
            final(self)@ == old(self)@.with_input(
                InputState { pan_down_held: held && old(self)@.is_editor(), ..old(self)@.input },
            ),
    {
        self.input.pan_down_held = held && self.phase == AppPhase::Editor;
    }

    /// Holds the pan-left key; only in the editor.
    pub fn set_editor_pan_left_held(&mut self, held: bool)
        ensures
            final(self)@ == old(self)@.with_input(
                InputState { pan_left_held: held && old(self)@.is_editor(), ..old(self)@.input },
            ),
    {
        self.input.pan_left_held = held && self.phase == AppPhase::Editor;
    }

    /// Holds the pan-right key; only in the editor.
    pub fn set_editor_pan_right_held(&mut self, held: bool)
        ensures
            final(self)@ == old(self)@.with_input(
                InputState { pan_right_held: held && old(self)@.is_editor(), ..old(self)@.input },
            ),
    {
        self.input.pan_right_held = held && self.phase == AppPhase::Editor;
    }

    /// Holds Shift; only in the editor.
    pub fn set_editor_shift_held(&mut self, held: bool)
        ensures
            final(self)@ == old(self)@.with_input(
                InputState { shift_held: held && old(self)@.is_editor(), ..old(self)@.input },
            ),
    {
        self.input.shift_held = held && self.phase == AppPhase::Editor;
    }

    /// Holds Control; only in the editor.
    pub fn set_editor_ctrl_held(&mut self, held: bool)
        ensures
            final(self)@ == old(self)@.with_input(
                InputState { ctrl_held: held && old(self)@.is_editor(), ..old(self)@.input },
            ),
    {
        self.input.ctrl_held = held && self.phase == AppPhase::Editor;
    }

    /// Holds Alt; only in the editor.
    pub fn set_editor_alt_held(&mut self, held: bool)
        ensures
            final(self)@ == old(self)@.with_input(
                InputState { alt_held: held && old(self)@.is_editor(), ..old(self)@.input },
            ),
    {
        self.input.alt_held = held && self.phase == AppPhase::Editor;
    }

    /// Releases every pan key, Shift and Control.
    pub fn clear_editor_pan_keys(&mut self)
        ensures
            final(self)@ == old(self)@.after_clear_pan_keys(),
    {
        self.input.pan_up_held = false;
        self.input.pan_down_held = false;
        self.input.pan_left_held = false;
        self.input.pan_right_held = false;
        self.input.shift_held = false;
        self.input.ctrl_held = false;
    }

    /// Chooses the block kind that placing uses.
    pub fn set_editor_block_kind(&mut self, kind: BlockKind)
        ensures
            final(self)@ == (StateView {
                editor: EditorView { selected_kind: kind, ..old(self)@.editor },
                ..old(self)@
            }),
    {
        self.editor.selected_kind = kind;
    }

    /// Turns the placement preview a quarter turn further about the
    /// vertical axis (see `StateView::after_rotate_placement_preview`).
    pub fn editor_rotate_placement_preview(&mut self)
        ensures
            final(self)@ == old(self)@.after_rotate_placement_preview(),
    {
        self.editor.placement_yaw = ((self.editor.placement_yaw as u64 + 90) % 360) as u32;
    }

    /// The block kind that placing uses.
    pub fn editor_selected_block_kind(&self) -> (r: BlockKind)
        ensures
            r == self.editor.selected_kind,
    {
        self.editor.selected_kind
    }

    /// The current editor mode.
    pub fn editor_mode(&self) -> (r: EditorMode)
        ensures
            r == self.editor.mode,
    {
        self.editor.mode
    }

    /// Whether grid snapping is on.
    pub fn editor_snap_to_grid(&self) -> (r: bool)
        ensures
            r == self.editor.snap_to_grid,
    {
        self.editor.snap_to_grid
    }

    /// The current timeline step.
    pub fn editor_timeline_step(&self) -> (r: u32)
        ensures
            r == self.timeline.step,
    {
        self.timeline.step
    }

    /// The number of timeline steps.
    pub fn editor_timeline_length(&self) -> (r: u32)
        ensures
            r == self.timeline.length,
    {
        self.timeline.length
    }

    /// The timeline steps that hold a tap, in increasing order.
    pub fn editor_tap_steps(&self) -> (r: &[u32])
        ensures
            r@ == self.timeline.tap_steps@,
    {
        self.timeline.tap_steps.as_slice()
    }

    /// The edited level's name, if it has one.
    pub fn editor_level_name(&self) -> (r: Option<String>)
        ensures
            r == self.ui.level_name,
    {
        match &self.ui.level_name {
            Some(n) => Some(n.clone()),
            None => None,
        }
    }

    /// Names the edited level.
    pub fn set_editor_level_name(&mut self, name: String)
        ensures
            final(self)@ == (StateView {
                ui: UiState { level_name: Some(name), ..old(self)@.ui },
                ..old(self)@
            }),
    {
        self.ui.level_name = Some(name);
    }

    /// The music file of the edited level.
    pub fn editor_music_source(&self) -> (r: &str)
        ensures
            r@ == self.ui.music_source@,
    {
        self.ui.music_source.as_str()
    }

    /// Sets the music file of the edited level.
    pub fn set_editor_music_source(&mut self, source: String)
        ensures
            final(self)@ == (StateView {
                ui: UiState { music_source: source, ..old(self)@.ui },
                ..old(self)@
            }),
    {
        self.ui.music_source = source;
    }

    /// Whether the import window is open.
    pub fn editor_show_import(&self) -> (r: bool)
        ensures
            r == self.ui.show_import,
    {
        self.ui.show_import
    }

    /// Opens or closes the import window.
    pub fn set_editor_show_import(&mut self, show: bool)
        ensures
            final(self)@ == (StateView {
                ui: UiState { show_import: show, ..old(self)@.ui },
                ..old(self)@
            }),
    {
        self.ui.show_import = show;
    }

    /// The text typed into the import window.
    pub fn editor_import_text(&self) -> (r: &str)
        ensures
            r@ == self.ui.import_text@,
    {
        self.ui.import_text.as_str()
    }

    /// Replaces the text of the import window.
    pub fn set_editor_import_text(&mut self, text: String)
        ensures
            final(self)@ == (StateView {
                ui: UiState { import_text: text, ..old(self)@.ui },
                ..old(self)@
            }),
    {
        self.ui.import_text = text;
    }

    /// Whether the metadata window is open.
    pub fn editor_show_metadata(&self) -> (r: bool)
        ensures
            r == self.ui.show_metadata,
    {
        self.ui.show_metadata
    }

    /// Opens or closes the metadata window.
    pub fn set_editor_show_metadata(&mut self, show: bool)
        ensures
            final(self)@ == (StateView {
                ui: UiState { show_metadata: show, ..old(self)@.ui },
                ..old(self)@
            }),
    {
        self.ui.show_metadata = show;
    }

    /// Whether the settings sidebar is open.
    pub fn editor_show_settings(&self) -> (r: bool)
        ensures
            r == self.ui.show_settings,
    {
        self.ui.show_settings
    }

    /// Opens or closes the settings sidebar.
    pub fn set_editor_show_settings(&mut self, show: bool)
        ensures
            final(self)@ == (StateView {
                ui: UiState { show_settings: show, ..old(self)@.ui },
                ..old(self)@
            }),
    {
        self.ui.show_settings = show;
    }

    /// The builtin levels offered in the menu.
    pub fn available_levels(&self) -> (r: &[String])
        ensures
            r@ == self.menu.levels@,
    {
        self.menu.levels.as_slice()
    }

    /// Whether play is paused.
    pub fn is_game_paused(&self) -> (r: bool)
        ensures
            r == self.session.game_paused,
    {
        self.session.game_paused
    }

    /// The action whose key is being captured, with the binding slot.
    pub fn editor_keybind_capture_action(&self) -> (r: &Option<(String, usize)>)
        ensures
            *r == self.ui.keybind_capture,
    {
        &self.ui.keybind_capture
    }
}

} // verus!
