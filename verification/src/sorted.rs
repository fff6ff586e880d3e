use vstd::prelude::*;

verus! {

/// The sequence is strictly increasing (sorted, without duplicates).
pub open spec fn strictly_increasing_usize(s: Seq<usize>) -> bool {
    forall|i: int, j: int| 0 <= i < j < s.len() ==> s[i] < s[j]
}

/// The sequence is strictly increasing (sorted, without duplicates).
pub open spec fn strictly_increasing_u32(s: Seq<u32>) -> bool {
    forall|i: int, j: int| 0 <= i < j < s.len() ==> s[i] < s[j]
}

/// Two strictly increasing sequences with the same elements are equal.
pub proof fn lemma_increasing_usize_unique(a: Seq<usize>, b: Seq<usize>)
    requires
        strictly_increasing_usize(a),
        strictly_increasing_usize(b),
        forall|x: usize| a.contains(x) <==> b.contains(x),
    ensures
        a == b,
    decreases a.len(),
{
    if a.len() == 0 {
        if b.len() > 0 {
            assert(b.contains(b[0]));
        }
    } else if b.len() == 0 {
        assert(a.contains(a[0]));
    } else {
        let la = a.last();
        let lb = b.last();
        assert(a.contains(la));
        assert(b.contains(lb));
        let ia = choose|i: int| 0 <= i < a.len() && a[i] == lb;
        let ib = choose|i: int| 0 <= i < b.len() && b[i] == la;
        assert(la == lb) by {
            if la < lb {
                assert(b[ib] == la);
                assert(ib < b.len() - 1 ==> b[ib] < b[b.len() - 1]);
            } else if lb < la {
                assert(a[ia] == lb);
                assert(ia < a.len() - 1 ==> a[ia] < a[a.len() - 1]);
            }
        }
        let a2 = a.drop_last();
        let b2 = b.drop_last();
        assert forall|x: usize| a2.contains(x) <==> b2.contains(x) by {
            if a2.contains(x) {
                let i = choose|i: int| 0 <= i < a2.len() && a2[i] == x;
                assert(a[i] == x && x < la);
                assert(b.contains(x));
                let j = choose|j: int| 0 <= j < b.len() && b[j] == x;
                assert(j != b.len() - 1);
                assert(b2[j] == x);
            }
            if b2.contains(x) {
                let i = choose|i: int| 0 <= i < b2.len() && b2[i] == x;
                assert(b[i] == x && x < lb);
                assert(a.contains(x));
                let j = choose|j: int| 0 <= j < a.len() && a[j] == x;
                assert(j != a.len() - 1);
                assert(a2[j] == x);
            }
        }
        lemma_increasing_usize_unique(a2, b2);
        assert(a == a2.push(la));
        assert(b == b2.push(lb));
    }
}

/// Inserts `x` into a strictly increasing vector, keeping it strictly
/// increasing; nothing changes when `x` is already present.
pub fn insert_sorted_unique_usize(v: &mut Vec<usize>, x: usize)
    requires
        strictly_increasing_usize(old(v)@),
    ensures
        strictly_increasing_usize(final(v)@),
        forall|y: usize| final(v)@.contains(y) <==> (old(v)@.contains(y) || y == x),
        old(v)@.contains(x) ==> final(v)@ == old(v)@,
{
    let mut p: usize = 0;
    while p < v.len() && v[p] < x
        invariant
            p <= v.len(),
            forall|i: int| 0 <= i < p ==> v@[i] < x,
        decreases v.len() - p,
    {
        p = p + 1;
    }
    if p < v.len() && v[p] == x {
        return;
    }
    proof {
        if old(v)@.contains(x) {
            let k = choose|k: int| 0 <= k < v@.len() && v@[k] == x;
            if k < p {
            } else if k > p {
                assert(v@[p as int] < v@[k]);
            }
        }
    }
    let ghost before = v@;
    v.insert(p, x);
    proof {
        assert forall|y: usize| v@.contains(y) <==> (before.contains(y) || y == x) by {
            if v@.contains(y) {
                let k = choose|k: int| 0 <= k < v@.len() && v@[k] == y;
                if k < p {
                    assert(before[k] == y);
                } else if k > p {
                    assert(before[k - 1] == y);
                }
            }
            if before.contains(y) {
                let k = choose|k: int| 0 <= k < before.len() && before[k] == y;
                if k < p {
                    assert(v@[k] == y);
                } else {
                    assert(v@[k + 1] == y);
                }
            }
            if y == x {
                assert(v@[p as int] == x);
            }
        }
    }
}

} // verus!
