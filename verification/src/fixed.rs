use vstd::prelude::*;
use crate::types::{Vec3i, CELL};

verus! {

/// Largest coordinate magnitude that snapping accepts.
pub const SNAP_COORD_LIMIT: i64 = 0x2000_0000_0000_0000;

/// Largest snap step that snapping accepts.
pub const SNAP_STEP_LIMIT: i64 = 0x100_0000_0000;

/// The smallest snap step: five hundredths of a cell.
pub const MIN_SNAP_STEP: i64 = 50;

/// The smallest block extent without grid snapping: a quarter cell.
pub const MIN_FREE_SIZE: i64 = 250;

/// `c / step` rounded to the nearest integer, halves away from zero.
pub open spec fn round_div(c: int, step: int) -> int {
    if c >= 0 {
        (2 * c + step) / (2 * step)
    } else {
        -((-2 * c + step) / (2 * step))
    }
}

/// `c` moved to the nearest multiple of `step` (halves away from zero).
pub open spec fn snap_spec(c: int, step: int) -> int {
    round_div(c, step) * step
}

/// The grid step actually used: never below `MIN_SNAP_STEP`.
pub open spec fn effective_step(step: i64) -> i64 {
    if step < MIN_SNAP_STEP { MIN_SNAP_STEP } else { step }
}

/// Returns `step`, raised to `MIN_SNAP_STEP` when it is smaller.
pub fn clamp_snap_step(step: i64) -> (r: i64)
    ensures
        r == effective_step(step),
{
    if step < MIN_SNAP_STEP { MIN_SNAP_STEP } else { step }
}

/// The coordinate lies within the range that snapping accepts.
pub open spec fn snappable(c: i64) -> bool {
    -SNAP_COORD_LIMIT <= c <= SNAP_COORD_LIMIT
}

/// Moves a coordinate to the nearest multiple of `step`, halves away from
/// zero.
pub fn snap_component(c: i64, step: i64) -> (r: i64)
    requires
        snappable(c),
        0 < step <= SNAP_STEP_LIMIT,
    ensures
        r == snap_spec(c as int, step as int),
{
    let two_step: i128 = 2 * (step as i128);
    if c >= 0 {
        let q: i128 = (2 * (c as i128) + step as i128) / two_step;
        proof {
            lemma_round_bound(c as int, step as int);
        }
        (q * step as i128) as i64
    } else {
        let nc: i128 = -(c as i128);
        let q: i128 = (2 * nc + step as i128) / two_step;
        proof {
            lemma_round_bound(nc as int, step as int);
            assert((-q) * step == -(q * step)) by (nonlinear_arith);
        }
        (-(q * step as i128)) as i64
    }
}

proof fn lemma_round_bound(c: int, step: int)
    requires
        0 <= c <= SNAP_COORD_LIMIT,
        0 < step <= SNAP_STEP_LIMIT,
    ensures
        0 <= ((2 * c + step) / (2 * step)) * step <= c + step,
{
    let q = (2 * c + step) / (2 * step);
    assert(q * (2 * step) <= 2 * c + step) by (nonlinear_arith)
        requires
            q == (2 * c + step) / (2 * step),
            step > 0,
            c >= 0,
    ;
    assert(q >= 0) by (nonlinear_arith)
        requires
            q == (2 * c + step) / (2 * step),
            step > 0,
            c >= 0,
    ;
    assert(q * step >= 0) by (nonlinear_arith)
        requires
            q >= 0,
            step > 0,
    ;
    assert(q * (2 * step) == 2 * (q * step)) by (nonlinear_arith);
}

/// A snapped coordinate lies within one step of the coordinate's magnitude.
pub proof fn lemma_snap_spec_bound(c: int, step: int)
    requires
        -SNAP_COORD_LIMIT <= c <= SNAP_COORD_LIMIT,
        0 < step <= SNAP_STEP_LIMIT,
    ensures
        c >= 0 ==> 0 <= snap_spec(c, step) <= c + step,
        c < 0 ==> c - step <= snap_spec(c, step) <= 0,
{
    if c >= 0 {
        lemma_round_bound(c, step);
    } else {
        let q = (-2 * c + step) / (2 * step);
        lemma_round_bound(-c, step);
        assert((-q) * step == -(q * step)) by (nonlinear_arith);
    }
}

/// A coordinate already on the grid stays where it is.
pub proof fn lemma_snap_idempotent(c: int, step: int)
    requires
        step > 0,
    ensures
        snap_spec(snap_spec(c, step), step) == snap_spec(c, step),
{
    let q = round_div(c, step);
    let v = q * step;
    assert(snap_spec(c, step) == v);
    if c >= 0 {
        assert(q >= 0) by (nonlinear_arith)
            requires
                q == (2 * c + step) / (2 * step),
                c >= 0,
                step > 0,
        ;
        assert(v >= 0) by (nonlinear_arith)
            requires
                v == q * step,
                q >= 0,
                step > 0,
        ;
        assert(2 * v + step == q * (2 * step) + step) by (nonlinear_arith)
            requires
                v == q * step,
        ;
        vstd::arithmetic::div_mod::lemma_fundamental_div_mod_converse(2 * v + step, 2 * step, q, step);
    } else {
        let m = (-2 * c + step) / (2 * step);
        assert(q == -m);
        assert(m >= 0) by (nonlinear_arith)
            requires
                m == (-2 * c + step) / (2 * step),
                c < 0,
                step > 0,
        ;
        if m == 0 {
            assert(v == 0) by (nonlinear_arith)
                requires
                    v == q * step,
                    q == 0,
            ;
            vstd::arithmetic::div_mod::lemma_fundamental_div_mod_converse(step, 2 * step, 0, step);
        } else {
            assert(v < 0) by (nonlinear_arith)
                requires
                    v == q * step,
                    q < 0,
                    step > 0,
            ;
            assert(-2 * v + step == m * (2 * step) + step) by (nonlinear_arith)
                requires
                    v == q * step,
                    q == -m,
            ;
            vstd::arithmetic::div_mod::lemma_fundamental_div_mod_converse(-2 * v + step, 2 * step, m, step);
        }
    }
}

/// The position snapped as the editor's grid does: each axis moved to the
/// nearest multiple of `step`, the height (y) first raised to zero.
pub open spec fn snap_cell_spec(p: Vec3i, step: i64) -> Vec3i {
    Vec3i {
        x: snap_spec(p.x as int, step as int) as i64,
        y: snap_spec(if p.y < 0 { 0 } else { p.y as int }, step as int) as i64,
        z: snap_spec(p.z as int, step as int) as i64,
    }
}

/// All three coordinates lie within the range that snapping accepts.
pub open spec fn snappable_point(p: Vec3i) -> bool {
    snappable(p.x) && snappable(p.y) && snappable(p.z)
}

/// Snaps a position to the grid of `step`; the height (y) is first raised
/// to zero.
pub fn snap_cell_to_step(p: Vec3i, step: i64) -> (r: Vec3i)
    requires
        snappable_point(p),
        0 < step <= SNAP_STEP_LIMIT,
    ensures
        r == snap_cell_spec(p, step),
{
    let y = if p.y < 0 { 0 } else { p.y };
    Vec3i { x: snap_component(p.x, step), y: snap_component(y, step), z: snap_component(p.z, step) }
}

/// The grid cell that contains a fixed-point coordinate.
pub open spec fn floor_cell(c: int) -> int {
    c / (CELL as int)
}

/// The grid cell nearest to a fixed-point coordinate (halves away from zero).
pub open spec fn round_cell(c: int) -> int {
    round_div(c, CELL as int)
}

} // verus!
