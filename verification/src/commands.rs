use vstd::prelude::*;
use crate::types::{BlockKind, EditorMode};

verus! {

/// A key together with the modifiers held with it.
#[derive(Debug, PartialEq, Eq)]
pub struct KeyChord {
    pub key: String,
    pub ctrl: bool,
    pub shift: bool,
    pub alt: bool,
}

/// An action name bound to a key chord.
#[derive(Debug, PartialEq, Eq)]
pub struct KeyBinding {
    pub action: String,
    pub chord: KeyChord,
}

/// A key binding with its names as character sequences.
pub struct KeyBindingView {
    pub action: Seq<char>,
    pub key: Seq<char>,
    pub ctrl: bool,
    pub shift: bool,
    pub alt: bool,
}

impl View for KeyBinding {
    type V = KeyBindingView;

    open spec fn view(&self) -> KeyBindingView {
        KeyBindingView {
            action: self.action@,
            key: self.chord.key@,
            ctrl: self.chord.ctrl,
            shift: self.chord.shift,
            alt: self.chord.alt,
        }
    }
}

/// The bindings as views.
pub open spec fn bindings_view(bs: Seq<KeyBinding>) -> Seq<KeyBindingView> {
    bs.map_values(|b: KeyBinding| b@)
}

/// Which way the timeline moves to the neighbouring timing division.
#[derive(Clone, Copy, Debug, PartialEq, Eq, Structural)]
pub enum TimingDivisionDirection {
    Forward,
    Backward,
}

/// Editor commands.
#[derive(Debug, PartialEq, Eq)]
pub enum EditorCommand {
    SetMode(EditorMode),
    SetBlockKind(BlockKind),
    SelectRecentBlock(usize),
    PickSelectedBlock,
    SetSnapToGrid(bool),
    RemoveBlock,
    DuplicateBlock,
    CopyBlock,
    PasteBlock,
    NudgeSelected { dx: i32, dy: i32 },
    SnapSelectionToGrid,
    FocusCameraTarget,
    BeginTransformTriggerCapture,
    ToggleTimelinePlayback,
    ShiftTimelineToDivision(TimingDivisionDirection),
    AddTap,
    RemoveTap,
    RemoveTapAt(u32),
    ClearTaps,
    Playtest,
    SetSpawnHere,
    RotateSpawnDirection,
    RotatePlacementPreview,
    Undo,
    Redo,
    AdjustZoom(i32),
    AddCameraTrigger,
    AddCameraFollowTrigger,
    ToggleHitboxVisualization,
    TogglePerfOverlay,
    ExportBlockObj,
    LoadLevel(String),
    RenameLevel(String),
    ExportLevel,
    SetShowMetadata(bool),
    ToggleSettings,
    SetShowSettings(bool),
    SetKeybindCapture(Option<(String, usize)>),
    SetKeybind { action: String, slot: usize, chord: KeyChord },
    CompleteImport,
    TriggerAudioImport,
    SetShiftHeld(bool),
    SetCtrlHeld(bool),
    SetAltHeld(bool),
    SetPanUpHeld(bool),
    SetPanDownHeld(bool),
    SetPanLeftHeld(bool),
    SetPanRightHeld(bool),
    MouseButton { button: u32, pressed: bool },
    TogglePlaceWindow,
    Escape,
}

/// Application commands.
#[derive(Debug, PartialEq, Eq)]
pub enum AppCommand {
    TurnRight,
    NextLevel,
    PrevLevel,
    ToggleEditor,
    GameResume,
    GameRestartLevel,
    GameSetPracticeMode(bool),
    GameSetPracticeCheckpoint,
    GameRemovePracticeCheckpoint,
    GameQuitToMenu,
    AuthSubmitSignIn,
    AuthSignOut,
    AuthOpenSignup,
    ResizeSurface { width: u32, height: u32 },
    Editor(EditorCommand),
}

/// Input events that carry no screen coordinates.
#[derive(Debug, PartialEq, Eq)]
pub enum InputEvent {
    Key { key: String, pressed: bool, just_pressed: bool },
    MouseButton { button: u32, pressed: bool },
    Resize { width: u32, height: u32 },
}

} // verus!
