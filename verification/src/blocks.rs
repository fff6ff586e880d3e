use vstd::prelude::*;
use crate::types::{BlockKind, LevelObject, Vec3i, CELL};

verus! {

/// Which world axis is "up" for a footprint test.
#[derive(Clone, Copy, Debug, PartialEq, Eq, Structural)]
pub enum UpAxis {
    /// Height along y; the footprint spans x and z.
    Y,
    /// Height along z; the footprint spans x and y.
    Z,
}

/// The two footprint coordinates and the height coordinate of a point.
pub open spec fn split_axes(p: Vec3i, up: UpAxis) -> (int, int, int) {
    match up {
        UpAxis::Y => (p.x as int, p.z as int, p.y as int),
        UpAxis::Z => (p.x as int, p.y as int, p.z as int),
    }
}

/// The block's footprint contains the centre of the cell whose minimum
/// corner is `cursor`.
pub open spec fn covers_cell(o: LevelObject, cursor: Vec3i, up: UpAxis) -> bool {
    let (pa, pb, _ph) = split_axes(o.position, up);
    let (sa, sb, _sh) = split_axes(o.size, up);
    let (ca, cb, _ch) = split_axes(cursor, up);
    &&& pa <= ca + CELL / 2 <= pa + sa
    &&& pb <= cb + CELL / 2 <= pb + sb
}

/// The height of the block's top face.
pub open spec fn top_of(o: LevelObject, up: UpAxis) -> int {
    let (_pa, _pb, ph) = split_axes(o.position, up);
    let (_sa, _sb, sh) = split_axes(o.size, up);
    ph + sh
}

/// `r` is the block that covers the cursor cell with the highest top (the
/// first such block on ties), or `None` when no block covers it.
pub open spec fn is_topmost_at(objs: Seq<LevelObject>, cursor: Vec3i, up: UpAxis, r: Option<usize>) -> bool {
    match r {
        None => forall|j: int| 0 <= j < objs.len() ==> !covers_cell(objs[j], cursor, up),
        Some(i) => {
            &&& i < objs.len()
            &&& covers_cell(objs[i as int], cursor, up)
            &&& forall|j: int|
                0 <= j < objs.len() && covers_cell(objs[j], cursor, up) ==> top_of(objs[j], up)
                    <= top_of(objs[i as int], up)
            &&& forall|j: int|
                0 <= j < i && covers_cell(objs[j], cursor, up) ==> top_of(objs[j], up) < top_of(
                    objs[i as int],
                    up,
                )
        },
    }
}

/// The topmost block under the cursor cell, as `is_topmost_at` describes it.
pub open spec fn topmost_at(objs: Seq<LevelObject>, cursor: Vec3i, up: UpAxis) -> Option<usize> {
    choose|r: Option<usize>| is_topmost_at(objs, cursor, up, r)
}

/// There is exactly one topmost answer, and `topmost_at` names it.
pub proof fn lemma_topmost_is(objs: Seq<LevelObject>, cursor: Vec3i, up: UpAxis, r: Option<usize>)
    requires
        is_topmost_at(objs, cursor, up, r),
    ensures
        r == topmost_at(objs, cursor, up),
{
    let c = topmost_at(objs, cursor, up);
    assert(is_topmost_at(objs, cursor, up, c));
    match (r, c) {
        (Some(a), Some(b)) => {
            if a < b {
                assert(top_of(objs[a as int], up) < top_of(objs[b as int], up));
            } else if b < a {
                assert(top_of(objs[b as int], up) < top_of(objs[a as int], up));
            }
        },
        (Some(a), None) => {
            assert(covers_cell(objs[a as int], cursor, up));
        },
        (None, Some(b)) => {
            assert(covers_cell(objs[b as int], cursor, up));
        },
        (None, None) => {},
    }
}

fn axes(p: Vec3i, up: UpAxis) -> (r: (i128, i128, i128))
    ensures
        r.0 == split_axes(p, up).0,
        r.1 == split_axes(p, up).1,
        r.2 == split_axes(p, up).2,
{
    match up {
        UpAxis::Y => (p.x as i128, p.z as i128, p.y as i128),
        UpAxis::Z => (p.x as i128, p.y as i128, p.z as i128),
    }
}

/// Finds the block whose footprint contains the cursor cell's centre and
/// whose top is highest; the first such block wins ties.
pub fn topmost_block_index(objs: &Vec<LevelObject>, cursor: Vec3i, up: UpAxis) -> (r: Option<usize>)
    ensures
        is_topmost_at(objs@, cursor, up, r),
{
    let mut best: Option<usize> = None;
    let mut best_top: i128 = 0;
    let (ca, cb, _ch) = axes(cursor, up);
    let half: i128 = (CELL / 2) as i128;
    let mut k: usize = 0;
    while k < objs.len()
        invariant
            k <= objs.len(),
            ca == split_axes(cursor, up).0,
            cb == split_axes(cursor, up).1,
            half == CELL / 2,
            match best {
                None => forall|j: int| 0 <= j < k ==> !covers_cell(objs@[j], cursor, up),
                Some(i) => {
                    &&& i < k
                    &&& covers_cell(objs@[i as int], cursor, up)
                    &&& best_top == top_of(objs@[i as int], up)
                    &&& forall|j: int|
                        0 <= j < k && covers_cell(objs@[j], cursor, up) ==> top_of(objs@[j], up)
                            <= best_top
                    &&& forall|j: int|
                        0 <= j < i && covers_cell(objs@[j], cursor, up) ==> top_of(objs@[j], up)
                            < best_top
                },
            },
        decreases objs.len() - k,
    {
        let o = objs[k];
        let (pa, pb, ph) = axes(o.position, up);
        let (sa, sb, sh) = axes(o.size, up);
        let covers = pa <= ca + half && ca + half <= pa + sa && pb <= cb + half && cb + half <= pb
            + sb;
        if covers {
            let top = ph + sh;
            match best {
                None => {
                    best = Some(k);
                    best_top = top;
                },
                Some(_) => {
                    if top > best_top {
                        best = Some(k);
                        best_top = top;
                    }
                },
            }
        }
        k = k + 1;
    }
    best
}

/// The elements of the first `k` entries of `s` whose index is not in
/// `removed`, in order.
pub open spec fn kept_prefix<T>(s: Seq<T>, removed: Seq<usize>, k: int) -> Seq<T>
    decreases k,
{
    if k <= 0 {
        Seq::empty()
    } else if removed.contains((k - 1) as usize) {
        kept_prefix(s, removed, k - 1)
    } else {
        kept_prefix(s, removed, k - 1).push(s[k - 1])
    }
}

/// `s` without the entries whose index is in `removed`, in order.
pub open spec fn without_indices<T>(s: Seq<T>, removed: Seq<usize>) -> Seq<T> {
    kept_prefix(s, removed, s.len() as int)
}

/// Sequences of one length keep sequences of one length when the same
/// entries are removed from both.
pub proof fn lemma_kept_prefix_len<A, B>(a: Seq<A>, b: Seq<B>, removed: Seq<usize>, k: int)
    ensures
        kept_prefix(a, removed, k).len() == kept_prefix(b, removed, k).len(),
    decreases k,
{
    if k > 0 {
        lemma_kept_prefix_len(a, b, removed, k - 1);
    }
}

pub(crate) fn contains_index(v: &Vec<usize>, x: usize) -> (r: bool)
    ensures
        r == v@.contains(x),
{
    let mut k: usize = 0;
    while k < v.len()
        invariant
            k <= v.len(),
            forall|j: int| 0 <= j < k ==> v@[j] != x,
        decreases v.len() - k,
    {
        if v[k] == x {
            assert(v@[k as int] == x);
            return true;
        }
        k = k + 1;
    }
    false
}

/// Returns the objects whose index is not listed in `removed`, in order.
pub fn remove_indices(objs: &Vec<LevelObject>, removed: &Vec<usize>) -> (r: Vec<LevelObject>)
    ensures
        r@ == without_indices(objs@, removed@),
{
    let mut out: Vec<LevelObject> = Vec::new();
    let mut k: usize = 0;
    while k < objs.len()
        invariant
            k <= objs.len(),
            out@ == kept_prefix(objs@, removed@, k as int),
        decreases objs.len() - k,
    {
        if !contains_index(removed, k) {
            out.push(objs[k]);
        }
        k = k + 1;
    }
    out
}

/// A one-cell block of `kind`, turned by `yaw_degrees`, whose minimum
/// corner is the cursor.
pub open spec fn block_at_cursor_spec(cursor: Vec3i, kind: BlockKind, yaw_degrees: u32) -> LevelObject {
    LevelObject { position: cursor, size: Vec3i { x: CELL, y: CELL, z: CELL }, kind, yaw_degrees }
}

/// Creates a one-cell block of `kind`, turned by `yaw_degrees`, at the
/// cursor.
pub fn create_block_at_cursor(cursor: Vec3i, kind: BlockKind, yaw_degrees: u32) -> (r: LevelObject)
    ensures
        r == block_at_cursor_spec(cursor, kind, yaw_degrees),
{
    LevelObject { position: cursor, size: Vec3i { x: CELL, y: CELL, z: CELL }, kind, yaw_degrees }
}

} // verus!
