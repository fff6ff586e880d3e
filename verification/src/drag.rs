use vstd::prelude::*;
use crate::editor_subsystem::{EditorSubsystem, EditorUi};
use crate::fixed::{
    clamp_snap_step, effective_step, lemma_snap_spec_bound, snap_component, snap_spec, MIN_FREE_SIZE,
    SNAP_STEP_LIMIT,
};
use crate::selection::lemma_normalized_in_range;
use crate::types::{AppPhase, GizmoAxis, GizmoDragKind, LevelObject, Vec3i};

verus! {

/// Largest coordinate, extent or drag distance (in magnitude) for which a
/// drag's fixed-point arithmetic stays within `i64`.
pub const DRAG_LIMIT: i64 = 0x0800_0000_0000_0000;

/// A dragged block as it was when the drag began.
#[derive(Clone, Copy, Debug, PartialEq, Eq, Structural)]
pub struct DragBlockStart {
    pub index: usize,
    pub position: Vec3i,
    pub size: Vec3i,
}

/// The value lies within the range that a drag accepts.
pub open spec fn in_drag_range(c: i64) -> bool {
    -DRAG_LIMIT <= c <= DRAG_LIMIT
}

/// All three coordinates lie within the range that a drag accepts.
pub open spec fn point_in_drag_range(p: Vec3i) -> bool {
    in_drag_range(p.x) && in_drag_range(p.y) && in_drag_range(p.z)
}

/// Every dragged block's corner and extent lie within the drag range.
pub open spec fn starts_in_range(starts: Seq<DragBlockStart>) -> bool {
    forall|i: int|
        0 <= i < starts.len() ==> point_in_drag_range(#[trigger] starts[i].position)
            && point_in_drag_range(starts[i].size)
}

/// `c` snapped to the grid of `step` when `snap`, else `c`.
pub open spec fn snap_if(c: int, snap: bool, step: i64) -> int {
    if snap { snap_spec(c, step as int) } else { c }
}

/// The larger of two integers.
pub open spec fn max_int(a: int, b: int) -> int {
    if a < b { b } else { a }
}

/// The smaller of two integers.
pub open spec fn min_int(a: int, b: int) -> int {
    if a < b { a } else { b }
}

/// The smallest extent a resize leaves: the grid step when snapping, else a
/// quarter cell.
pub open spec fn min_extent(snap: bool, step: i64) -> int {
    if snap { step as int } else { MIN_FREE_SIZE as int }
}

/// The corner of the box around the dragged blocks (each axis its least
/// coordinate), or `None` with no block.
pub open spec fn starts_anchor(starts: Seq<DragBlockStart>) -> Option<Vec3i>
    decreases starts.len(),
{
    if starts.len() == 0 {
        None
    } else {
        let p = starts.last().position;
        match starts_anchor(starts.drop_last()) {
            None => Some(p),
            Some(a) => Some(
                Vec3i {
                    x: min_int(a.x as int, p.x as int) as i64,
                    y: min_int(a.y as int, p.y as int) as i64,
                    z: min_int(a.z as int, p.z as int) as i64,
                },
            ),
        }
    }
}

/// A height change cut so that the lowest dragged block stops at the
/// ground (y = 0) rather than each block on its own.
pub open spec fn ground_clamped(starts: Seq<DragBlockStart>, dy: int) -> int {
    match starts_anchor(starts) {
        Some(a) => if a.y + dy < 0 { -(a.y as int) } else { dy },
        None => dy,
    }
}

/// The handle acts along the height axis.
pub open spec fn is_height_axis(axis: GizmoAxis) -> bool {
    axis == GizmoAxis::Y || axis == GizmoAxis::YNeg
}

/// A corner moved by `d` along the handle's axis: the height raised to
/// zero, then every axis snapped when snapping.
pub open spec fn moved_corner(p: Vec3i, axis: GizmoAxis, d: int, snap: bool, step: i64) -> Vec3i {
    let (x, y, z) = match axis {
        GizmoAxis::X | GizmoAxis::XNeg => (p.x + d, p.y as int, p.z as int),
        GizmoAxis::Y | GizmoAxis::YNeg => (p.x as int, p.y + d, p.z as int),
        GizmoAxis::Z | GizmoAxis::ZNeg => (p.x as int, p.y as int, p.z + d),
    };
    Vec3i {
        x: snap_if(x, snap, step) as i64,
        y: snap_if(if y < 0 { 0 } else { y }, snap, step) as i64,
        z: snap_if(z, snap, step) as i64,
    }
}

/// One axis of a resize by `d`: the corner and the extent. A positive
/// handle moves the far face: the extent grows by `d` (snapped). A negative
/// handle moves the near face: the corner moves by `d` (snapped, and kept
/// at or above the ground for the height) while the far face stays. The
/// extent never falls below `min_extent`.
pub open spec fn resized_axis(pos: int, size: int, neg: bool, ground: bool, d: int, snap: bool, step: i64) -> (int, int) {
    let min = min_extent(snap, step);
    if !neg {
        (pos, max_int(snap_if(size + d, snap, step), min))
    } else {
        let edge = pos + size;
        let p0 = snap_if(pos + d, snap, step);
        let p1 = if ground && p0 < 0 { 0 } else { p0 };
        let s = max_int(edge - p1, min);
        (edge - s, s)
    }
}

/// A block resized through the handle: only the handle's axis changes.
pub open spec fn resized_block(o: LevelObject, b: DragBlockStart, axis: GizmoAxis, d: int, snap: bool, step: i64) -> LevelObject {
    match axis {
        GizmoAxis::X => LevelObject {
            size: Vec3i { x: resized_axis(b.position.x as int, b.size.x as int, false, false, d, snap, step).1 as i64, ..o.size },
            ..o
        },
        GizmoAxis::Y => LevelObject {
            size: Vec3i { y: resized_axis(b.position.y as int, b.size.y as int, false, false, d, snap, step).1 as i64, ..o.size },
            ..o
        },
        GizmoAxis::Z => LevelObject {
            size: Vec3i { z: resized_axis(b.position.z as int, b.size.z as int, false, false, d, snap, step).1 as i64, ..o.size },
            ..o
        },
        GizmoAxis::XNeg => {
            let (p, s) = resized_axis(b.position.x as int, b.size.x as int, true, false, d, snap, step);
            LevelObject { position: Vec3i { x: p as i64, ..o.position }, size: Vec3i { x: s as i64, ..o.size }, ..o }
        },
        GizmoAxis::YNeg => {
            let (p, s) = resized_axis(b.position.y as int, b.size.y as int, true, true, d, snap, step);
            LevelObject { position: Vec3i { y: p as i64, ..o.position }, size: Vec3i { y: s as i64, ..o.size }, ..o }
        },
        GizmoAxis::ZNeg => {
            let (p, s) = resized_axis(b.position.z as int, b.size.z as int, true, false, d, snap, step);
            LevelObject { position: Vec3i { z: p as i64, ..o.position }, size: Vec3i { z: s as i64, ..o.size }, ..o }
        },
    }
}

/// The blocks after a gizmo drag by `d`, the dragged blocks taken in
/// order (a start naming no block is skipped).
pub open spec fn after_gizmo_drag(
    objs: Seq<LevelObject>,
    starts: Seq<DragBlockStart>,
    kind: GizmoDragKind,
    axis: GizmoAxis,
    d: int,
    snap: bool,
    step: i64,
) -> Seq<LevelObject>
    decreases starts.len(),
{
    if starts.len() == 0 {
        objs
    } else {
        let prev = after_gizmo_drag(objs, starts.drop_last(), kind, axis, d, snap, step);
        let b = starts.last();
        if b.index < prev.len() {
            let o = prev[b.index as int];
            prev.update(
                b.index as int,
                match kind {
                    GizmoDragKind::Move => LevelObject { position: moved_corner(b.position, axis, d, snap, step), ..o },
                    GizmoDragKind::Resize => resized_block(o, b, axis, d, snap, step),
                },
            )
        } else {
            prev
        }
    }
}

/// The first dragged block that names one of `n` blocks.
pub open spec fn first_dragged(starts: Seq<DragBlockStart>, n: nat) -> Option<DragBlockStart>
    decreases starts.len(),
{
    if starts.len() == 0 {
        None
    } else {
        match first_dragged(starts.drop_last(), n) {
            Some(b) => Some(b),
            None => if starts.last().index < n { Some(starts.last()) } else { None },
        }
    }
}

/// The height of a corner after a free (unsnapped) block drag: a block that
/// started on the ground stays there until lifted by half a step; others
/// only stay at or above the ground.
pub open spec fn pinned_height(start_y: int, y: int, step: i64) -> int {
    if start_y == 0 && 2 * y < step { 0 } else if y < 0 { 0 } else { y }
}

/// A corner moved by a block drag of `delta` (its height change already
/// ground-clamped to `dy`): on a surface hit the point is taken as it is;
/// otherwise it is snapped (height raised to zero) when snapping, or its
/// height pinned as `pinned_height` says.
pub open spec fn dragged_corner(p: Vec3i, delta: Vec3i, dy: int, surface: bool, snap: bool, step: i64) -> Vec3i {
    let x = p.x + delta.x;
    let y = p.y + dy;
    let z = p.z + delta.z;
    if surface {
        Vec3i { x: x as i64, y: y as i64, z: z as i64 }
    } else if snap {
        Vec3i {
            x: snap_spec(x, step as int) as i64,
            y: snap_spec(if y < 0 { 0 } else { y }, step as int) as i64,
            z: snap_spec(z, step as int) as i64,
        }
    } else {
        Vec3i { x: x as i64, y: pinned_height(p.y as int, y, step) as i64, z: z as i64 }
    }
}

/// The blocks after a block drag, the dragged blocks taken in order.
pub open spec fn after_block_drag(
    objs: Seq<LevelObject>,
    starts: Seq<DragBlockStart>,
    delta: Vec3i,
    dy: int,
    surface: bool,
    snap: bool,
    step: i64,
) -> Seq<LevelObject>
    decreases starts.len(),
{
    if starts.len() == 0 {
        objs
    } else {
        let prev = after_block_drag(objs, starts.drop_last(), delta, dy, surface, snap, step);
        let b = starts.last();
        if b.index < prev.len() {
            prev.update(
                b.index as int,
                LevelObject { position: dragged_corner(b.position, delta, dy, surface, snap, step), ..prev[b.index as int] },
            )
        } else {
            prev
        }
    }
}

/// The cursor on a corner: its height raised to zero.
pub open spec fn raised_height(p: Vec3i) -> Vec3i {
    Vec3i { y: if p.y < 0 { 0 } else { p.y }, ..p }
}

/// The anchor of the dragged blocks: each axis the least coordinate of
/// their corners, or the origin with no block.
pub fn drag_anchor(starts: &Vec<DragBlockStart>) -> (r: Vec3i)
    ensures
        r == match starts_anchor(starts@) {
            Some(a) => a,
            None => Vec3i { x: 0, y: 0, z: 0 },
        },
{
    let mut acc: Option<Vec3i> = None;
    let mut k: usize = 0;
    while k < starts.len()
        invariant
            k <= starts.len(),
            acc == starts_anchor(starts@.subrange(0, k as int)),
        decreases starts.len() - k,
    {
        let p = starts[k].position;
        proof {
            let sub = starts@.subrange(0, k + 1);
            assert(sub.drop_last() == starts@.subrange(0, k as int));
            assert(sub.last() == starts@[k as int]);
        }
        acc = match acc {
            None => Some(p),
            Some(a) => Some(
                Vec3i {
                    x: if a.x < p.x { a.x } else { p.x },
                    y: if a.y < p.y { a.y } else { p.y },
                    z: if a.z < p.z { a.z } else { p.z },
                },
            ),
        };
        k = k + 1;
    }
    assert(starts@.subrange(0, starts@.len() as int) == starts@);
    match acc {
        Some(a) => a,
        None => Vec3i { x: 0, y: 0, z: 0 },
    }
}

/// The anchor's height stays within the drag range.
pub proof fn lemma_anchor_in_range(starts: Seq<DragBlockStart>)
    requires
        starts_in_range(starts),
    ensures
        match starts_anchor(starts) {
            Some(a) => point_in_drag_range(a),
            None => true,
        },
    decreases starts.len(),
{
    if starts.len() > 0 {
        let s = starts.drop_last();
        assert forall|i: int| 0 <= i < s.len() implies point_in_drag_range(#[trigger] s[i].position)
            && point_in_drag_range(s[i].size) by {
            assert(s[i] == starts[i]);
        }
        lemma_anchor_in_range(s);
        assert(point_in_drag_range(starts[starts.len() - 1].position));
    }
}

fn ground_clamped_exec(starts: &Vec<DragBlockStart>, dy: i64) -> (r: i64)
    requires
        starts_in_range(starts@),
        in_drag_range(dy),
    ensures
        r == ground_clamped(starts@, dy as int),
        in_drag_range(r),
{
    proof {
        lemma_anchor_in_range(starts@);
    }
    if starts.len() == 0 {
        return dy;
    }
    let a = drag_anchor(starts);
    if a.y + dy < 0 {
        0 - a.y
    } else {
        dy
    }
}

fn snap_if_exec(c: i64, snap: bool, step: i64) -> (r: i64)
    requires
        -2 * DRAG_LIMIT <= c <= 2 * DRAG_LIMIT,
        0 < step <= SNAP_STEP_LIMIT,
    ensures
        r == snap_if(c as int, snap, step),
        -2 * DRAG_LIMIT - SNAP_STEP_LIMIT <= r <= 2 * DRAG_LIMIT + SNAP_STEP_LIMIT,
{
    if snap {
        proof {
            lemma_snap_spec_bound(c as int, step as int);
        }
        snap_component(c, step)
    } else {
        c
    }
}

fn moved_corner_exec(p: Vec3i, axis: GizmoAxis, d: i64, snap: bool, step: i64) -> (r: Vec3i)
    requires
        point_in_drag_range(p),
        in_drag_range(d),
        0 < step <= SNAP_STEP_LIMIT,
    ensures
        r == moved_corner(p, axis, d as int, snap, step),
{
    let (x, y, z) = match axis {
        GizmoAxis::X | GizmoAxis::XNeg => (p.x + d, p.y, p.z),
        GizmoAxis::Y | GizmoAxis::YNeg => (p.x, p.y + d, p.z),
        GizmoAxis::Z | GizmoAxis::ZNeg => (p.x, p.y, p.z + d),
    };
    Vec3i {
        x: snap_if_exec(x, snap, step),
        y: snap_if_exec(if y < 0 { 0 } else { y }, snap, step),
        z: snap_if_exec(z, snap, step),
    }
}

fn resized_axis_exec(pos: i64, size: i64, neg: bool, ground: bool, d: i64, snap: bool, step: i64) -> (r: (i64, i64))
    requires
        in_drag_range(pos),
        in_drag_range(size),
        in_drag_range(d),
        0 < step <= SNAP_STEP_LIMIT,
    ensures
        r.0 == resized_axis(pos as int, size as int, neg, ground, d as int, snap, step).0,
        r.1 == resized_axis(pos as int, size as int, neg, ground, d as int, snap, step).1,
{
    let min: i64 = if snap { step } else { MIN_FREE_SIZE };
    if !neg {
        let s = snap_if_exec(size + d, snap, step);
        (pos, if s < min { min } else { s })
    } else {
        let edge = pos + size;
        let p0 = snap_if_exec(pos + d, snap, step);
        let p1 = if ground && p0 < 0 { 0 } else { p0 };
        let diff = edge - p1;
        let s = if diff < min { min } else { diff };
        (edge - s, s)
    }
}

fn resized_block_exec(o: LevelObject, b: DragBlockStart, axis: GizmoAxis, d: i64, snap: bool, step: i64) -> (r: LevelObject)
    requires
        point_in_drag_range(b.position),
        point_in_drag_range(b.size),
        in_drag_range(d),
        0 < step <= SNAP_STEP_LIMIT,
    ensures
        r == resized_block(o, b, axis, d as int, snap, step),
{
    match axis {
        GizmoAxis::X => {
            let (_p, s) = resized_axis_exec(b.position.x, b.size.x, false, false, d, snap, step);
            LevelObject { size: Vec3i { x: s, ..o.size }, ..o }
        },
        GizmoAxis::Y => {
            let (_p, s) = resized_axis_exec(b.position.y, b.size.y, false, false, d, snap, step);
            LevelObject { size: Vec3i { y: s, ..o.size }, ..o }
        },
        GizmoAxis::Z => {
            let (_p, s) = resized_axis_exec(b.position.z, b.size.z, false, false, d, snap, step);
            LevelObject { size: Vec3i { z: s, ..o.size }, ..o }
        },
        GizmoAxis::XNeg => {
            let (p, s) = resized_axis_exec(b.position.x, b.size.x, true, false, d, snap, step);
            LevelObject { position: Vec3i { x: p, ..o.position }, size: Vec3i { x: s, ..o.size }, ..o }
        },
        GizmoAxis::YNeg => {
            let (p, s) = resized_axis_exec(b.position.y, b.size.y, true, true, d, snap, step);
            LevelObject { position: Vec3i { y: p, ..o.position }, size: Vec3i { y: s, ..o.size }, ..o }
        },
        GizmoAxis::ZNeg => {
            let (p, s) = resized_axis_exec(b.position.z, b.size.z, true, false, d, snap, step);
            LevelObject { position: Vec3i { z: p, ..o.position }, size: Vec3i { z: s, ..o.size }, ..o }
        },
    }
}

fn starts_in_range_exec(starts: &Vec<DragBlockStart>) -> (r: bool)
    ensures
        r == starts_in_range(starts@),
{
    let lim = DRAG_LIMIT;
    let mut k: usize = 0;
    while k < starts.len()
        invariant
            k <= starts.len(),
            lim == DRAG_LIMIT,
            forall|i: int|
                0 <= i < k ==> point_in_drag_range(#[trigger] starts@[i].position)
                    && point_in_drag_range(starts@[i].size),
        decreases starts.len() - k,
    {
        let p = starts[k].position;
        let s = starts[k].size;
        if !(-lim <= p.x && p.x <= lim && -lim <= p.y && p.y <= lim && -lim <= p.z && p.z <= lim
            && -lim <= s.x && s.x <= lim && -lim <= s.y && s.y <= lim && -lim <= s.z && s.z <= lim) {
            return false;
        }
        assert(starts@[k as int].position == p && starts@[k as int].size == s);
        assert forall|i: int| 0 <= i < k + 1 implies point_in_drag_range(#[trigger] starts@[i].position)
            && point_in_drag_range(starts@[i].size) by {
            if i == k {
                assert(in_drag_range(p.x) && in_drag_range(p.y) && in_drag_range(p.z));
                assert(in_drag_range(s.x) && in_drag_range(s.y) && in_drag_range(s.z));
            }
        }
        k = k + 1;
    }
    true
}

/// `f` is what a gizmo drag of the blocks `starts` by `delta` makes of the
/// editor `e` (see `EditorSubsystem::drag_gizmo`).
pub open spec fn gizmo_dragged(
    e: EditorSubsystem,
    f: EditorSubsystem,
    starts: Seq<DragBlockStart>,
    kind: GizmoDragKind,
    axis: GizmoAxis,
    delta: i64,
) -> bool {
    let snap = e.drag_snaps();
    let step = effective_step(e.config.snap_step);
    let d = if kind == GizmoDragKind::Move && is_height_axis(axis) {
        ground_clamped(starts, delta as int)
    } else {
        delta as int
    };
    &&& f.objects@ == after_gizmo_drag(e.objects@, starts, kind, axis, d, snap, step)
    &&& f.ui == (EditorUi {
        cursor: if kind == GizmoDragKind::Move {
            match first_dragged(starts, e.objects@.len()) {
                Some(b) => moved_corner(b.position, axis, d, snap, step),
                None => e.ui.cursor,
            }
        } else {
            e.ui.cursor
        },
        ..e.ui
    })
    &&& f.config == e.config
    &&& f.spawn == e.spawn
    &&& f.drag == e.drag
    &&& !f.samples_valid
}

impl EditorSubsystem {
    /// The grid snapping in effect while dragging: on unless Ctrl is held.
    pub open spec fn drag_snaps(&self) -> bool {
        self.config.snap_to_grid && !self.ui.ctrl_held
    }

    /// The dragged blocks for a drag that begins now: each selected block
    /// (normalized selection, in order) with its corner and extent.
    pub fn drag_start_blocks(&self) -> (r: Vec<DragBlockStart>)
        ensures
            exists|sel: Seq<usize>| {
                &&& self.normalized_of(sel)
                &&& r@.len() == sel.len()
                &&& forall|i: int|
                    0 <= i < sel.len() ==> #[trigger] r@[i] == (DragBlockStart {
                        index: sel[i],
                        position: self.objects@[sel[i] as int].position,
                        size: self.objects@[sel[i] as int].size,
                    })
            },
    {
        let sel = self.selected_indices_normalized();
        proof {
            lemma_normalized_in_range(
                sel@,
                self.ui.selected_block_indices@,
                self.ui.selected_block_index,
                self.objects@.len(),
            );
        }
        let mut r: Vec<DragBlockStart> = Vec::new();
        let mut k: usize = 0;
        while k < sel.len()
            invariant
                k <= sel.len(),
                forall|i: int| 0 <= i < sel@.len() ==> #[trigger] sel@[i] < self.objects@.len(),
                r@.len() == k,
                forall|i: int|
                    0 <= i < k ==> #[trigger] r@[i] == (DragBlockStart {
                        index: sel@[i],
                        position: self.objects@[sel@[i] as int].position,
                        size: self.objects@[sel@[i] as int].size,
                    }),
            decreases sel.len() - k,
        {
            let i = sel[k];
            let o = self.objects[i];
            r.push(DragBlockStart { index: i, position: o.position, size: o.size });
            k = k + 1;
        }
        r
    }

    /// Applies a gizmo drag: the handle moved `delta` along its axis from
    /// where the drag began (the shell turns the pointer motion into this
    /// distance). Moving shifts every dragged block from its start (a height
    /// change stops the lowest one at the ground), snapping when snapping is
    /// in effect, and puts the cursor on the first one; resizing changes the
    /// handle's axis as `resized_block` says. The dragged blocks, the
    /// distance and the step lie within the range of the fixed-point world
    /// (see `gizmo_drag_in_range`).
    pub fn drag_gizmo(&mut self, starts: &Vec<DragBlockStart>, kind: GizmoDragKind, axis: GizmoAxis, delta: i64)
        requires
            starts_in_range(starts@),
            in_drag_range(delta),
            old(self).config.snap_step <= SNAP_STEP_LIMIT,
        ensures
            gizmo_dragged(*old(self), *final(self), starts@, kind, axis, delta),
    {
        let snap = self.config.snap_to_grid && !self.ui.ctrl_held;
        let step = clamp_snap_step(self.config.snap_step);
        let d = if kind == GizmoDragKind::Move && (axis == GizmoAxis::Y || axis == GizmoAxis::YNeg) {
            ground_clamped_exec(starts, delta)
        } else {
            delta
        };
        let ghost objs0 = self.objects@;
        let ghost n = objs0.len();
        let mut first: Option<Vec3i> = None;
        let mut k: usize = 0;
        while k < starts.len()
            invariant
                k <= starts.len(),
                starts_in_range(starts@),
                in_drag_range(d),
                0 < step <= SNAP_STEP_LIMIT,
                self.objects@ == after_gizmo_drag(objs0, starts@.subrange(0, k as int), kind, axis, d as int, snap, step),
                self.objects@.len() == n,
                self.ui == old(self).ui,
                self.config == old(self).config,
                self.spawn == old(self).spawn,
                self.drag == old(self).drag,
                first == match first_dragged(starts@.subrange(0, k as int), n) {
                    Some(b) => Some(moved_corner(b.position, axis, d as int, snap, step)),
                    None => None::<Vec3i>,
                },
            decreases starts.len() - k,
        {
            let b = starts[k];
            proof {
                let sub = starts@.subrange(0, k + 1);
                assert(sub.drop_last() == starts@.subrange(0, k as int));
                assert(sub.last() == starts@[k as int]);
                assert(point_in_drag_range(starts@[k as int].position));
                lemma_drag_len(objs0, starts@.subrange(0, k as int), kind, axis, d as int, snap, step);
            }
            if b.index < self.objects.len() {
                let o = self.objects[b.index];
                let next = match kind {
                    GizmoDragKind::Move => LevelObject { position: moved_corner_exec(b.position, axis, d, snap, step), ..o },
                    GizmoDragKind::Resize => resized_block_exec(o, b, axis, d, snap, step),
                };
                self.objects.set(b.index, next);
                if first.is_none() {
                    first = Some(moved_corner_exec(b.position, axis, d, snap, step));
                }
            }
            k = k + 1;
        }
        assert(starts@.subrange(0, starts@.len() as int) == starts@);
        if kind == GizmoDragKind::Move {
            match first {
                Some(c) => {
                    self.ui.cursor = c;
                },
                None => {},
            }
        }
        self.samples_valid = false;
    }

    /// Applies a gizmo drag (see `drag_gizmo`) in the editor phase; in any
    /// other phase nothing changes. Returns whether the drag ran.
    pub fn drag_gizmo_in_phase(
        &mut self,
        phase: AppPhase,
        starts: &Vec<DragBlockStart>,
        kind: GizmoDragKind,
        axis: GizmoAxis,
        delta: i64,
    ) -> (applied: bool)
        requires
            starts_in_range(starts@),
            in_drag_range(delta),
            old(self).config.snap_step <= SNAP_STEP_LIMIT,
        ensures
            applied == (phase == AppPhase::Editor),
            applied ==> gizmo_dragged(*old(self), *final(self), starts@, kind, axis, delta),
            !applied ==> *final(self) == *old(self),
    {
        if phase != AppPhase::Editor {
            return false;
        }
        self.drag_gizmo(starts, kind, axis, delta);
        true
    }

    /// Whether a gizmo drag of the blocks `starts` by `delta` lies within
    /// the range of the fixed-point world, as `drag_gizmo` requires.
    pub fn gizmo_drag_in_range(&self, starts: &Vec<DragBlockStart>, delta: i64) -> (r: bool)
        ensures
            r == (starts_in_range(starts@) && in_drag_range(delta) && self.config.snap_step <= SNAP_STEP_LIMIT),
    {
        starts_in_range_exec(starts) && -DRAG_LIMIT <= delta && delta <= DRAG_LIMIT
            && self.config.snap_step <= SNAP_STEP_LIMIT
    }

    /// Whether a block drag of `starts` by `delta` lies within the range of
    /// the fixed-point world, as `drag_selection` requires.
    pub fn selection_drag_in_range(&self, starts: &Vec<DragBlockStart>, delta: Vec3i) -> (r: bool)
        ensures
            r == (starts_in_range(starts@) && point_in_drag_range(delta) && self.config.snap_step <= SNAP_STEP_LIMIT),
    {
        let lim = DRAG_LIMIT;
        starts_in_range_exec(starts) && -lim <= delta.x && delta.x <= lim && -lim <= delta.y && delta.y <= lim
            && -lim <= delta.z && delta.z <= lim && self.config.snap_step <= SNAP_STEP_LIMIT
    }

    /// Applies a block drag: the pointer moved the selection by `delta` from
    /// where the drag began (the shell finds it from the pointer: with
    /// `surface` true, from the surface hit under the pointer, measured from
    /// `drag_anchor`'s height). Every dragged block moves from its start; a
    /// height change stops the lowest one at the ground; without a surface
    /// hit the corner is snapped when snapping is in effect, else its height
    /// is pinned (see `pinned_height`). The cursor goes onto the first
    /// dragged block. The dragged blocks, the distance and the step lie
    /// within the range of the fixed-point world (see
    /// `selection_drag_in_range`).
    pub fn drag_selection(&mut self, starts: &Vec<DragBlockStart>, delta: Vec3i, surface: bool)
        requires
            starts_in_range(starts@),
            point_in_drag_range(delta),
            old(self).config.snap_step <= SNAP_STEP_LIMIT,
        ensures
            ({
                let snap = old(self).drag_snaps();
                let step = effective_step(old(self).config.snap_step);
                let dy = ground_clamped(starts@, delta.y as int);
                &&& final(self).objects@ == after_block_drag(old(self).objects@, starts@, delta, dy, surface, snap, step)
                &&& final(self).ui == (EditorUi {
                    cursor: match first_dragged(starts@, old(self).objects@.len()) {
                        Some(b) => raised_height(dragged_corner(b.position, delta, dy, surface, snap, step)),
                        None => old(self).ui.cursor,
                    },
                    ..old(self).ui
                })
                &&& final(self).config == old(self).config
                &&& final(self).spawn == old(self).spawn
                &&& final(self).drag == old(self).drag
                &&& !final(self).samples_valid
            }),
    {
        let snap = self.config.snap_to_grid && !self.ui.ctrl_held;
        let step = clamp_snap_step(self.config.snap_step);
        let dy = ground_clamped_exec(starts, delta.y);
        let ghost objs0 = self.objects@;
        let ghost n = objs0.len();
        let mut first: Option<Vec3i> = None;
        let mut k: usize = 0;
        while k < starts.len()
            invariant
                k <= starts.len(),
                starts_in_range(starts@),
                point_in_drag_range(delta),
                in_drag_range(dy),
                0 < step <= SNAP_STEP_LIMIT,
                self.objects@ == after_block_drag(objs0, starts@.subrange(0, k as int), delta, dy as int, surface, snap, step),
                self.objects@.len() == n,
                self.ui == old(self).ui,
                self.config == old(self).config,
                self.spawn == old(self).spawn,
                self.drag == old(self).drag,
                first == match first_dragged(starts@.subrange(0, k as int), n) {
                    Some(b) => Some(dragged_corner(b.position, delta, dy as int, surface, snap, step)),
                    None => None::<Vec3i>,
                },
            decreases starts.len() - k,
        {
            let b = starts[k];
            proof {
                let sub = starts@.subrange(0, k + 1);
                assert(sub.drop_last() == starts@.subrange(0, k as int));
                assert(sub.last() == starts@[k as int]);
                assert(point_in_drag_range(starts@[k as int].position));
                lemma_block_drag_len(objs0, starts@.subrange(0, k as int), delta, dy as int, surface, snap, step);
            }
            if b.index < self.objects.len() {
                let o = self.objects[b.index];
                let next = dragged_corner_exec(b.position, delta, dy, surface, snap, step);
                self.objects.set(b.index, LevelObject { position: next, ..o });
                if first.is_none() {
                    first = Some(next);
                }
            }
            k = k + 1;
        }
        assert(starts@.subrange(0, starts@.len() as int) == starts@);
        match first {
            Some(c) => {
                self.ui.cursor = Vec3i { y: if c.y < 0 { 0 } else { c.y }, ..c };
            },
            None => {},
        }
        self.samples_valid = false;
    }
}

fn dragged_corner_exec(p: Vec3i, delta: Vec3i, dy: i64, surface: bool, snap: bool, step: i64) -> (r: Vec3i)
    requires
        point_in_drag_range(p),
        point_in_drag_range(delta),
        in_drag_range(dy),
        0 < step <= SNAP_STEP_LIMIT,
    ensures
        r == dragged_corner(p, delta, dy as int, surface, snap, step),
{
    let x = p.x + delta.x;
    let y = p.y + dy;
    let z = p.z + delta.z;
    if surface {
        Vec3i { x, y, z }
    } else if snap {
        Vec3i {
            x: snap_component(x, step),
            y: snap_component(if y < 0 { 0 } else { y }, step),
            z: snap_component(z, step),
        }
    } else {
        let py = if p.y == 0 && 2 * y < step {
            0
        } else if y < 0 {
            0
        } else {
            y
        };
        Vec3i { x, y: py, z }
    }
}

proof fn lemma_drag_len(
    objs: Seq<LevelObject>,
    starts: Seq<DragBlockStart>,
    kind: GizmoDragKind,
    axis: GizmoAxis,
    d: int,
    snap: bool,
    step: i64,
)
    ensures
        after_gizmo_drag(objs, starts, kind, axis, d, snap, step).len() == objs.len(),
    decreases starts.len(),
{
    if starts.len() > 0 {
        lemma_drag_len(objs, starts.drop_last(), kind, axis, d, snap, step);
    }
}

proof fn lemma_block_drag_len(
    objs: Seq<LevelObject>,
    starts: Seq<DragBlockStart>,
    delta: Vec3i,
    dy: int,
    surface: bool,
    snap: bool,
    step: i64,
)
    ensures
        after_block_drag(objs, starts, delta, dy, surface, snap, step).len() == objs.len(),
    decreases starts.len(),
{
    if starts.len() > 0 {
        lemma_block_drag_len(objs, starts.drop_last(), delta, dy, surface, snap, step);
    }
}

} // verus!
