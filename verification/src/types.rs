use vstd::prelude::*;

verus! {

/// Units per grid cell of the fixed-point world coordinates.
pub const CELL: i64 = 1000;

/// The top-level phase of the application.
#[derive(Clone, Copy, Debug, PartialEq, Eq, Structural)]
pub enum AppPhase {
    Menu,
    Playing,
    Editor,
    GameOver,
}

/// The kind of block placed by the editor.
#[derive(Clone, Copy, Debug, PartialEq, Eq, Structural)]
pub enum BlockKind {
    Standard,
    Grass,
    Dirt,
    Void,
}

/// The interaction mode of the editor.
#[derive(Clone, Copy, Debug, PartialEq, Eq, Structural)]
pub enum EditorMode {
    Place,
    Select,
    Move,
    Scale,
    Rotate,
    Timing,
    Tapping,
    Null,
}

/// The direction the player faces at the spawn point.
#[derive(Clone, Copy, Debug, PartialEq, Eq, Structural)]
pub enum SpawnDirection {
    Forward,
    Right,
}

/// Flips the spawn direction between forward and right.
pub fn toggle_spawn_direction(direction: SpawnDirection) -> (r: SpawnDirection)
    ensures
        r == (if direction == SpawnDirection::Forward {
            SpawnDirection::Right
        } else {
            SpawnDirection::Forward
        }),
{
    match direction {
        SpawnDirection::Forward => SpawnDirection::Right,
        SpawnDirection::Right => SpawnDirection::Forward,
    }
}

/// A fixed-point world point or extent (`CELL` units per grid cell).
#[derive(Clone, Copy, Debug, PartialEq, Eq, Structural)]
pub struct Vec3i {
    pub x: i64,
    pub y: i64,
    pub z: i64,
}

/// A block of the level: its minimum corner, its extent, its kind and its
/// turn about the vertical axis in degrees.
#[derive(Clone, Copy, Debug, PartialEq, Eq, Structural)]
pub struct LevelObject {
    pub position: Vec3i,
    pub size: Vec3i,
    pub kind: BlockKind,
    pub yaw_degrees: u32,
}

/// Where the player starts and which way it faces.
#[derive(Clone, Copy, Debug, PartialEq, Eq, Structural)]
pub struct SpawnMetadata {
    pub position: Vec3i,
    pub direction: SpawnDirection,
}

/// The gizmo handle: an axis, and for resizing the face it moves (the
/// negative handles move the minimum face).
#[derive(Clone, Copy, Debug, PartialEq, Eq, Structural)]
pub enum GizmoAxis {
    X,
    Y,
    Z,
    XNeg,
    YNeg,
    ZNeg,
}

/// What dragging a gizmo handle does.
#[derive(Clone, Copy, Debug, PartialEq, Eq, Structural)]
pub enum GizmoDragKind {
    Move,
    Resize,
}

/// An editor drag in progress.
#[derive(Clone, Copy, Debug, PartialEq, Eq, Structural)]
pub enum EditorDrag {
    Gizmo { kind: GizmoDragKind, axis: GizmoAxis },
    Block,
}

/// How a camera trigger drives the camera.
#[derive(Clone, Copy, Debug, PartialEq, Eq, Structural)]
pub enum CameraTriggerMode {
    Follow,
    Static,
}

} // verus!
