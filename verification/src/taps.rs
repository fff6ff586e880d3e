use vstd::prelude::*;
use crate::sorted::strictly_increasing_u32;

verus! {

/// The number of leading elements of `s` below `x`; for a sorted `s`, the
/// place where `x` belongs.
pub open spec fn lower_bound(s: Seq<u32>, x: u32) -> int
    decreases s.len(),
{
    if s.len() == 0 {
        0
    } else if s.last() < x {
        s.len() as int
    } else {
        lower_bound(s.drop_last(), x)
    }
}

/// The taps with step `x` added in its sorted place (unchanged when `x` is
/// already there).
pub open spec fn taps_with(s: Seq<u32>, x: u32) -> Seq<u32> {
    if s.contains(x) {
        s
    } else {
        s.insert(lower_bound(s, x), x)
    }
}

/// The elements of `s` other than `x`, in order.
pub open spec fn taps_without(s: Seq<u32>, x: u32) -> Seq<u32>
    decreases s.len(),
{
    if s.len() == 0 {
        Seq::empty()
    } else {
        let p = taps_without(s.drop_last(), x);
        if s.last() != x {
            p.push(s.last())
        } else {
            p
        }
    }
}

/// The elements of `s` below `n`, in order.
pub open spec fn taps_below(s: Seq<u32>, n: u32) -> Seq<u32>
    decreases s.len(),
{
    if s.len() == 0 {
        Seq::empty()
    } else {
        let p = taps_below(s.drop_last(), n);
        if s.last() < n {
            p.push(s.last())
        } else {
            p
        }
    }
}

pub proof fn lemma_lower_bound_is(s: Seq<u32>, x: u32, p: int)
    requires
        strictly_increasing_u32(s),
        0 <= p <= s.len(),
        forall|i: int| 0 <= i < p ==> s[i] < x,
        p < s.len() ==> s[p] >= x,
    ensures
        lower_bound(s, x) == p,
    decreases s.len(),
{
    if s.len() > 0 {
        if p == s.len() {
            assert(s.last() < x);
        } else {
            assert(s.last() >= x) by {
                if p < s.len() - 1 {
                    assert(s[p] < s[s.len() - 1]);
                }
            }
            lemma_lower_bound_is(s.drop_last(), x, p);
        }
    }
}

/// Filtering a strictly increasing sequence keeps it strictly increasing,
/// and what is kept is what is at most the last of `s`.
pub proof fn lemma_without_props(s: Seq<u32>, x: u32)
    requires
        strictly_increasing_u32(s),
    ensures
        strictly_increasing_u32(taps_without(s, x)),
        forall|y: u32| taps_without(s, x).contains(y) <==> (s.contains(y) && y != x),
        taps_without(s, x).len() <= s.len(),
        s.len() > 0 ==> forall|i: int| 0 <= i < taps_without(s, x).len() ==> taps_without(s, x)[i] <= s.last(),
    decreases s.len(),
{
    if s.len() > 0 {
        let d = s.drop_last();
        lemma_without_props(d, x);
        let p = taps_without(d, x);
        assert forall|y: u32| taps_without(s, x).contains(y) <==> (s.contains(y) && y != x) by {
            if s.contains(y) && y != x {
                let k = choose|k: int| 0 <= k < s.len() && s[k] == y;
                if k < s.len() - 1 {
                    assert(d[k] == y);
                    assert(d.contains(y));
                    assert(p.contains(y));
                    if s.last() != x {
                        let j = choose|j: int| 0 <= j < p.len() && p[j] == y;
                        assert(p.push(s.last())[j] == y);
                    }
                } else {
                    assert(p.push(s.last())[p.len() as int] == y);
                }
            }
            if taps_without(s, x).contains(y) {
                let k = choose|k: int| 0 <= k < taps_without(s, x).len() && taps_without(s, x)[k] == y;
                if s.last() != x && k == p.len() {
                    assert(s[s.len() - 1] == y);
                } else {
                    assert(p[k] == y);
                    assert(p.contains(y));
                    assert(d.contains(y));
                    let j = choose|j: int| 0 <= j < d.len() && d[j] == y;
                    assert(s[j] == y);
                }
            }
        }
        if d.len() > 0 {
            assert forall|i: int| 0 <= i < p.len() implies p[i] < s.last() by {
                assert(p[i] <= d.last());
                assert(d.last() == s[s.len() - 2]);
                assert(s[s.len() - 2] < s[s.len() - 1]);
            }
        }
    }
}

pub proof fn lemma_below_props(s: Seq<u32>, n: u32)
    requires
        strictly_increasing_u32(s),
    ensures
        strictly_increasing_u32(taps_below(s, n)),
        forall|i: int| 0 <= i < taps_below(s, n).len() ==> taps_below(s, n)[i] < n,
        forall|y: u32| taps_below(s, n).contains(y) <==> (s.contains(y) && y < n),
        taps_below(s, n).len() <= s.len(),
        s.len() > 0 ==> forall|i: int| 0 <= i < taps_below(s, n).len() ==> taps_below(s, n)[i] <= s.last(),
    decreases s.len(),
{
    if s.len() > 0 {
        let d = s.drop_last();
        lemma_below_props(d, n);
        let p = taps_below(d, n);
        assert forall|y: u32| taps_below(s, n).contains(y) <==> (s.contains(y) && y < n) by {
            if s.contains(y) && y < n {
                let k = choose|k: int| 0 <= k < s.len() && s[k] == y;
                if k < s.len() - 1 {
                    assert(d[k] == y);
                    assert(d.contains(y));
                    assert(p.contains(y));
                    if s.last() < n {
                        let j = choose|j: int| 0 <= j < p.len() && p[j] == y;
                        assert(p.push(s.last())[j] == y);
                    }
                } else {
                    assert(p.push(s.last())[p.len() as int] == y);
                }
            }
            if taps_below(s, n).contains(y) {
                let k = choose|k: int| 0 <= k < taps_below(s, n).len() && taps_below(s, n)[k] == y;
                if s.last() < n && k == p.len() {
                    assert(s[s.len() - 1] == y);
                } else {
                    assert(p[k] == y);
                    assert(p.contains(y));
                    assert(d.contains(y));
                    let j = choose|j: int| 0 <= j < d.len() && d[j] == y;
                    assert(s[j] == y);
                }
            }
        }
        if d.len() > 0 {
            assert forall|i: int| 0 <= i < p.len() implies p[i] < s.last() by {
                assert(p[i] <= d.last());
                assert(d.last() == s[s.len() - 2]);
                assert(s[s.len() - 2] < s[s.len() - 1]);
            }
        }
    }
}

/// Adds a tap at `step` in its sorted place and returns where the tap is.
pub fn add_tap_step(taps: &mut Vec<u32>, step: u32) -> (at: usize)
    requires
        strictly_increasing_u32(old(taps)@),
    ensures
        final(taps)@ == taps_with(old(taps)@, step),
        strictly_increasing_u32(final(taps)@),
        forall|y: u32| final(taps)@.contains(y) <==> (old(taps)@.contains(y) || y == step),
        at < final(taps)@.len(),
        final(taps)@[at as int] == step,
        at == lower_bound(old(taps)@, step),
{
    let mut p: usize = 0;
    while p < taps.len() && taps[p] < step
        invariant
            p <= taps.len(),
            forall|i: int| 0 <= i < p ==> taps@[i] < step,
        decreases taps.len() - p,
    {
        p = p + 1;
    }
    if p < taps.len() && taps[p] == step {
        assert(taps@.contains(step));
        proof {
            lemma_lower_bound_is(taps@, step, p as int);
        }
        return p;
    }
    proof {
        lemma_lower_bound_is(taps@, step, p as int);
        if taps@.contains(step) {
            let k = choose|k: int| 0 <= k < taps@.len() && taps@[k] == step;
            if k > p {
                assert(taps@[p as int] < taps@[k]);
            }
        }
    }
    let ghost before = taps@;
    taps.insert(p, step);
    proof {
        assert forall|i: int, j: int| 0 <= i < j < taps@.len() implies taps@[i] < taps@[j] by {
            if j < p {
            } else if j == p {
                assert(taps@[i] == before[i]);
            } else if i == p {
                assert(taps@[j] == before[j - 1]);
                assert(before[j - 1] >= step);
                assert(before[j - 1] != step) by {
                    assert(before.contains(before[j - 1]));
                }
            } else if i > p {
                assert(before[i - 1] < before[j - 1]);
            } else {
                assert(before[i] < before[j - 1]);
            }
        }
        assert forall|y: u32| taps@.contains(y) <==> (before.contains(y) || y == step) by {
            if taps@.contains(y) {
                let k = choose|k: int| 0 <= k < taps@.len() && taps@[k] == y;
                if k < p {
                    assert(before[k] == y);
                } else if k > p {
                    assert(before[k - 1] == y);
                }
            }
            if before.contains(y) {
                let k = choose|k: int| 0 <= k < before.len() && before[k] == y;
                if k < p {
                    assert(taps@[k] == y);
                } else {
                    assert(taps@[k + 1] == y);
                }
            }
            if y == step {
                assert(taps@[p as int] == y);
            }
        }
    }
    p
}

/// Removes the tap at `step`, if there is one.
pub fn remove_tap_step(taps: &mut Vec<u32>, step: u32)
    requires
        strictly_increasing_u32(old(taps)@),
    ensures
        final(taps)@ == taps_without(old(taps)@, step),
        strictly_increasing_u32(final(taps)@),
        forall|y: u32| final(taps)@.contains(y) <==> (old(taps)@.contains(y) && y != step),
{
    let mut out: Vec<u32> = Vec::new();
    let mut k: usize = 0;
    while k < taps.len()
        invariant
            k <= taps.len(),
            out@ == taps_without(taps@.subrange(0, k as int), step),
        decreases taps.len() - k,
    {
        assert(taps@.subrange(0, k + 1).drop_last() == taps@.subrange(0, k as int));
        if taps[k] != step {
            out.push(taps[k]);
        }
        k = k + 1;
    }
    assert(taps@.subrange(0, taps@.len() as int) == taps@);
    proof {
        lemma_without_props(taps@, step);
    }
    *taps = out;
    assert forall|y: u32| taps@.contains(y) <==> (old(taps)@.contains(y) && y != step) by {
        assert(taps@ == taps_without(old(taps)@, step));
    }
}

/// Keeps the taps below `n`.
pub fn retain_taps_below(taps: &mut Vec<u32>, n: u32)
    ensures
        final(taps)@ == taps_below(old(taps)@, n),
        strictly_increasing_u32(old(taps)@) ==> strictly_increasing_u32(final(taps)@),
        strictly_increasing_u32(old(taps)@) ==> forall|i: int|
            0 <= i < final(taps)@.len() ==> final(taps)@[i] < n,
{
    let mut out: Vec<u32> = Vec::new();
    let mut k: usize = 0;
    while k < taps.len()
        invariant
            k <= taps.len(),
            out@ == taps_below(taps@.subrange(0, k as int), n),
        decreases taps.len() - k,
    {
        assert(taps@.subrange(0, k + 1).drop_last() == taps@.subrange(0, k as int));
        if taps[k] < n {
            out.push(taps[k]);
        }
        k = k + 1;
    }
    assert(taps@.subrange(0, taps@.len() as int) == taps@);
    proof {
        if strictly_increasing_u32(taps@) {
            lemma_below_props(taps@, n);
        }
    }
    *taps = out;
}

/// Adding a step to strictly increasing taps keeps them strictly increasing,
/// and the step then stands at its lower bound.
pub proof fn lemma_taps_with_wf(s: Seq<u32>, x: u32)
    requires
        strictly_increasing_u32(s),
    ensures
        strictly_increasing_u32(taps_with(s, x)),
        0 <= lower_bound(s, x) < taps_with(s, x).len(),
        taps_with(s, x)[lower_bound(s, x)] == x,
{
    lemma_lower_bound_props(s, x);
    let p = lower_bound(s, x);
    if s.contains(x) {
        let k = choose|k: int| 0 <= k < s.len() && s[k] == x;
        if k > p {
            assert(s[p] < s[k]);
        }
        if k < p {
            assert(s[k] < x);
        }
        assert(k == p);
    } else {
        let t = s.insert(p, x);
        assert forall|i: int, j: int| 0 <= i < j < t.len() implies t[i] < t[j] by {
            if j < p {
            } else if j == p {
                assert(t[i] == s[i]);
            } else if i == p {
                assert(t[j] == s[j - 1]);
                assert(s[j - 1] >= x) by {
                    if j - 1 > p {
                        assert(s[p] < s[j - 1]);
                    }
                }
                assert(s[j - 1] != x) by {
                    assert(s.contains(s[j - 1]));
                }
            } else if i > p {
                assert(s[i - 1] < s[j - 1]);
            } else {
                assert(s[i] < s[j - 1]);
            }
        }
    }
}

/// For strictly increasing taps, the lower bound has every element before
/// it below `x` and the element at it (if any) not below `x`.
pub proof fn lemma_lower_bound_props(s: Seq<u32>, x: u32)
    requires
        strictly_increasing_u32(s),
    ensures
        0 <= lower_bound(s, x) <= s.len(),
        forall|i: int| 0 <= i < lower_bound(s, x) ==> s[i] < x,
        lower_bound(s, x) < s.len() ==> s[lower_bound(s, x)] >= x,
    decreases s.len(),
{
    if s.len() > 0 {
        let d = s.drop_last();
        if s.last() < x {
            assert forall|i: int| 0 <= i < s.len() implies s[i] < x by {
                if i < s.len() - 1 {
                    assert(s[i] < s[s.len() - 1]);
                }
            }
        } else {
            lemma_lower_bound_props(d, x);
            assert forall|i: int| 0 <= i < lower_bound(s, x) implies s[i] < x by {
                assert(s[i] == d[i]);
            }
            if lower_bound(s, x) < d.len() {
                assert(s[lower_bound(s, x)] == d[lower_bound(s, x)]);
            }
        }
    }
}

/// Keeping the taps below `n` of a strictly increasing sequence gives a
/// strictly increasing sequence of taps below `n`.
pub proof fn lemma_taps_below_wf(s: Seq<u32>, n: u32)
    requires
        strictly_increasing_u32(s),
    ensures
        strictly_increasing_u32(taps_below(s, n)),
        forall|i: int| 0 <= i < taps_below(s, n).len() ==> taps_below(s, n)[i] < n,
{
    lemma_below_props(s, n);
}

} // verus!
