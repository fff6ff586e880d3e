use vstd::prelude::*;
use crate::blocks::UpAxis;
use crate::fixed::{
    lemma_snap_idempotent, lemma_snap_spec_bound, snap_cell_spec, snap_component, snap_spec,
    snappable_point, SNAP_COORD_LIMIT, SNAP_STEP_LIMIT,
};
use crate::sorted::strictly_increasing_usize;
use crate::types::{LevelObject, Vec3i};

verus! {

/// The point snapped to the grid of `step`: every axis moved to the nearest
/// multiple of `step`, the height (along `up`) first raised to zero.
pub open spec fn snap_point_up(p: Vec3i, step: i64, up: UpAxis) -> Vec3i {
    match up {
        UpAxis::Y => snap_cell_spec(p, step),
        UpAxis::Z => Vec3i {
            x: snap_spec(p.x as int, step as int) as i64,
            y: snap_spec(p.y as int, step as int) as i64,
            z: snap_spec(if p.z < 0 { 0 } else { p.z as int }, step as int) as i64,
        },
    }
}

/// The block with its position snapped (size and kind kept).
pub open spec fn snapped_up(o: LevelObject, step: i64, up: UpAxis) -> LevelObject {
    LevelObject { position: snap_point_up(o.position, step, up), size: o.size, kind: o.kind, yaw_degrees: o.yaw_degrees }
}

/// The blocks with those at the indices of `sel` snapped.
pub open spec fn snapped_all(objs: Seq<LevelObject>, sel: Seq<usize>, step: i64, up: UpAxis) -> Seq<LevelObject> {
    Seq::new(
        objs.len(),
        |i: int| if sel.contains(i as usize) { snapped_up(objs[i], step, up) } else { objs[i] },
    )
}

/// Some block at an index of `sel` is off the grid.
pub open spec fn snap_needed(objs: Seq<LevelObject>, sel: Seq<usize>, step: i64, up: UpAxis) -> bool {
    exists|j: int|
        0 <= j < sel.len() && snap_point_up(objs[#[trigger] sel[j] as int].position, step, up)
            != objs[sel[j] as int].position
}

/// Every block lies within the range that snapping accepts.
pub open spec fn all_snappable(objs: Seq<LevelObject>) -> bool {
    forall|i: int| 0 <= i < objs.len() ==> snappable_point(#[trigger] objs[i].position)
}

/// A snapped point, snapped again, stays where it is.
pub proof fn lemma_snap_point_idempotent(p: Vec3i, step: i64, up: UpAxis)
    requires
        snappable_point(p),
        0 < step <= SNAP_STEP_LIMIT,
    ensures
        snap_point_up(snap_point_up(p, step, up), step, up) == snap_point_up(p, step, up),
{
    let s = step as int;
    let raise = |c: i64| if c < 0 { 0int } else { c as int };
    lemma_snap_spec_bound(p.x as int, s);
    lemma_snap_spec_bound(p.y as int, s);
    lemma_snap_spec_bound(p.z as int, s);
    lemma_snap_spec_bound(raise(p.x), s);
    lemma_snap_spec_bound(raise(p.y), s);
    lemma_snap_spec_bound(raise(p.z), s);
    lemma_snap_idempotent(p.x as int, s);
    lemma_snap_idempotent(p.y as int, s);
    lemma_snap_idempotent(p.z as int, s);
    lemma_snap_idempotent(raise(p.x), s);
    lemma_snap_idempotent(raise(p.y), s);
    lemma_snap_idempotent(raise(p.z), s);
}

/// Snaps a point to the grid of `step`, the height along `up` first raised
/// to zero.
pub fn snap_point(p: Vec3i, step: i64, up: UpAxis) -> (r: Vec3i)
    requires
        snappable_point(p),
        0 < step <= SNAP_STEP_LIMIT,
    ensures
        r == snap_point_up(p, step, up),
{
    match up {
        UpAxis::Y => {
            let y = if p.y < 0 { 0 } else { p.y };
            Vec3i { x: snap_component(p.x, step), y: snap_component(y, step), z: snap_component(p.z, step) }
        },
        UpAxis::Z => {
            let z = if p.z < 0 { 0 } else { p.z };
            Vec3i { x: snap_component(p.x, step), y: snap_component(p.y, step), z: snap_component(z, step) }
        },
    }
}

/// Whether all three coordinates lie within the range that snapping accepts.
pub fn point_snappable(p: Vec3i) -> (r: bool)
    ensures
        r == snappable_point(p),
{
    let lim = SNAP_COORD_LIMIT;
    -lim <= p.x && p.x <= lim && -lim <= p.y && p.y <= lim && -lim <= p.z && p.z <= lim
}

/// Whether every block lies within the range that snapping accepts.
pub fn blocks_snappable(objs: &Vec<LevelObject>) -> (r: bool)
    ensures
        r == all_snappable(objs@),
{
    let mut i: usize = 0;
    while i < objs.len()
        invariant
            i <= objs.len(),
            forall|k: int| 0 <= k < i ==> snappable_point(#[trigger] objs@[k].position),
        decreases objs.len() - i,
    {
        if !point_snappable(objs[i].position) {
            return false;
        }
        i = i + 1;
    }
    true
}

/// Whether some block at an index of `sel` is off the grid of `step`.
pub fn any_off_grid(objs: &Vec<LevelObject>, sel: &Vec<usize>, step: i64, up: UpAxis) -> (r: bool)
    requires
        forall|i: int| 0 <= i < sel@.len() ==> #[trigger] sel@[i] < objs@.len(),
        all_snappable(objs@),
        0 < step <= SNAP_STEP_LIMIT,
    ensures
        r == snap_needed(objs@, sel@, step, up),
{
    let mut k: usize = 0;
    while k < sel.len()
        invariant
            k <= sel.len(),
            forall|i: int| 0 <= i < sel@.len() ==> #[trigger] sel@[i] < objs@.len(),
            all_snappable(objs@),
            0 < step <= SNAP_STEP_LIMIT,
            forall|j: int|
                0 <= j < k ==> snap_point_up(objs@[#[trigger] sel@[j] as int].position, step, up)
                    == objs@[sel@[j] as int].position,
        decreases sel.len() - k,
    {
        let o = objs[sel[k]];
        assert(snappable_point(objs@[sel@[k as int] as int].position));
        if snap_point(o.position, step, up) != o.position {
            assert(snap_point_up(objs@[sel@[k as int] as int].position, step, up)
                != objs@[sel@[k as int] as int].position);
            return true;
        }
        k = k + 1;
    }
    false
}

/// Snaps the blocks at the indices of `sel` to the grid of `step`; returns
/// whether any of them moved.
pub fn snap_blocks(objects: &mut Vec<LevelObject>, sel: &Vec<usize>, step: i64, up: UpAxis) -> (changed: bool)
    requires
        strictly_increasing_usize(sel@),
        forall|i: int| 0 <= i < sel@.len() ==> #[trigger] sel@[i] < old(objects)@.len(),
        all_snappable(old(objects)@),
        0 < step <= SNAP_STEP_LIMIT,
    ensures
        changed == snap_needed(old(objects)@, sel@, step, up),
        final(objects)@ == snapped_all(old(objects)@, sel@, step, up),
{
    let ghost old_objs = objects@;
    let mut changed = false;
    let mut k: usize = 0;
    while k < sel.len()
        invariant
            k <= sel.len(),
            strictly_increasing_usize(sel@),
            forall|i: int| 0 <= i < sel@.len() ==> #[trigger] sel@[i] < old_objs.len(),
            all_snappable(old_objs),
            0 < step <= SNAP_STEP_LIMIT,
            objects@.len() == old_objs.len(),
            old_objs.len() == objects.len(),
            changed == exists|j: int|
                0 <= j < k && snap_point_up(old_objs[#[trigger] sel@[j] as int].position, step, up)
                    != old_objs[sel@[j] as int].position,
            forall|i: int|
                0 <= i < old_objs.len() ==> #[trigger] objects@[i] == if sel@.subrange(0, k as int).contains(
                    i as usize,
                ) {
                    snapped_up(old_objs[i], step, up)
                } else {
                    old_objs[i]
                },
        decreases sel.len() - k,
    {
        let idx = sel[k];
        let o = objects[idx];
        proof {
            assert(!sel@.subrange(0, k as int).contains(idx)) by {
                if sel@.subrange(0, k as int).contains(idx) {
                    let j = choose|j: int| 0 <= j < k && sel@.subrange(0, k as int)[j] == idx;
                    assert(sel@[j] < sel@[k as int]);
                }
            }
            assert(o == old_objs[idx as int]);
            assert(snappable_point(old_objs[idx as int].position));
        }
        let next = snap_point(o.position, step, up);
        if next != o.position {
            changed = true;
        }
        objects.set(idx, LevelObject { position: next, size: o.size, kind: o.kind, yaw_degrees: o.yaw_degrees });
        proof {
            let s0 = sel@.subrange(0, k as int);
            let s1 = sel@.subrange(0, k + 1);
            assert forall|i: int| 0 <= i < old_objs.len() implies #[trigger] objects@[i] == if s1.contains(
                i as usize,
            ) {
                snapped_up(old_objs[i], step, up)
            } else {
                old_objs[i]
            } by {
                assert((i as usize) as int == i);
                if i == idx {
                    assert(s1[k as int] == idx);
                } else {
                    if s1.contains(i as usize) {
                        let j = choose|j: int| 0 <= j < s1.len() && s1[j] == i as usize;
                        assert(s1[k as int] == idx);
                        assert(j != k);
                        assert(s0[j] == i as usize);
                    }
                    if s0.contains(i as usize) {
                        let j = choose|j: int| 0 <= j < s0.len() && s0[j] == i as usize;
                        assert(s1[j] == i as usize);
                    }
                }
            }
            if next != o.position {
                assert(snap_point_up(old_objs[sel@[k as int] as int].position, step, up)
                    != old_objs[sel@[k as int] as int].position);
            }
        }
        k = k + 1;
    }
    assert(sel@.subrange(0, sel@.len() as int) == sel@);
    assert(objects@ =~= snapped_all(old_objs, sel@, step, up));
    changed
}

} // verus!
