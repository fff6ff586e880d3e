use vstd::prelude::*;
use crate::sorted::{strictly_increasing_usize, lemma_increasing_usize_unique, insert_sorted_unique_usize};

verus! {

/// Some selected index lies below `n`.
pub open spec fn has_in_range(sel: Seq<usize>, n: nat) -> bool {
    exists|k: int| 0 <= k < sel.len() && sel[k] < n
}

/// `r` is the normalized form of a selection over `n` objects: the selected
/// indices below `n`, sorted and without duplicates; when none of them is
/// below `n`, the primary index alone if it is below `n`, else nothing.
pub open spec fn is_normalized_selection(
    r: Seq<usize>,
    sel: Seq<usize>,
    primary: Option<usize>,
    n: nat,
) -> bool {
    &&& strictly_increasing_usize(r)
    &&& if has_in_range(sel, n) {
        forall|x: usize| r.contains(x) <==> (sel.contains(x) && x < n)
    } else {
        r == (match primary {
            Some(i) => if i < n { seq![i] } else { Seq::<usize>::empty() },
            None => Seq::<usize>::empty(),
        })
    }
}

/// Normalizing a selection has exactly one result.
pub proof fn lemma_normalized_selection_unique(
    a: Seq<usize>,
    b: Seq<usize>,
    sel: Seq<usize>,
    primary: Option<usize>,
    n: nat,
)
    requires
        is_normalized_selection(a, sel, primary, n),
        is_normalized_selection(b, sel, primary, n),
    ensures
        a == b,
{
    if has_in_range(sel, n) {
        lemma_increasing_usize_unique(a, b);
    }
}

/// Every element of a normalized selection is below `n`.
pub proof fn lemma_normalized_in_range(
    r: Seq<usize>,
    sel: Seq<usize>,
    primary: Option<usize>,
    n: nat,
)
    requires
        is_normalized_selection(r, sel, primary, n),
    ensures
        forall|i: int| 0 <= i < r.len() ==> r[i] < n,
{
    assert forall|i: int| 0 <= i < r.len() implies r[i] < n by {
        if has_in_range(sel, n) {
            assert(r.contains(r[i]));
        }
    }
}

/// The first element of a selection, if any.
pub open spec fn first_of(r: Seq<usize>) -> Option<usize> {
    if r.len() > 0 { Some(r[0]) } else { None }
}

/// Normalizing an already normalized selection, whose primary index is its
/// first element, leaves it as it is.
pub proof fn lemma_normalize_idempotent(
    r: Seq<usize>,
    sel: Seq<usize>,
    primary: Option<usize>,
    n: nat,
)
    requires
        is_normalized_selection(r, sel, primary, n),
    ensures
        is_normalized_selection(r, r, first_of(r), n),
{
    lemma_normalized_in_range(r, sel, primary, n);
    if r.len() > 0 {
        assert(r[0] < n);
        assert(has_in_range(r, n));
    } else {
        assert(!has_in_range(r, n));
        if has_in_range(sel, n) {
            let k = choose|k: int| 0 <= k < sel.len() && sel[k] < n;
            assert(sel.contains(sel[k]));
            assert(r.contains(sel[k]));
        }
    }
}

/// The indices below `k` that `sel` holds, in increasing order.
pub open spec fn members_below(sel: Seq<usize>, k: nat) -> Seq<usize>
    decreases k,
{
    if k == 0 {
        Seq::empty()
    } else {
        let prev = members_below(sel, (k - 1) as nat);
        if k - 1 <= usize::MAX && sel.contains((k - 1) as usize) {
            prev.push((k - 1) as usize)
        } else {
            prev
        }
    }
}

pub(crate) proof fn lemma_members_below(sel: Seq<usize>, k: nat)
    ensures
        strictly_increasing_usize(members_below(sel, k)),
        forall|i: int| 0 <= i < members_below(sel, k).len() ==> members_below(sel, k)[i] < k,
        forall|x: usize| members_below(sel, k).contains(x) <==> (sel.contains(x) && x < k),
    decreases k,
{
    if k > 0 {
        let prev = members_below(sel, (k - 1) as nat);
        lemma_members_below(sel, (k - 1) as nat);
        if k - 1 <= usize::MAX && sel.contains((k - 1) as usize) {
            let r = prev.push((k - 1) as usize);
            assert forall|x: usize| r.contains(x) <==> (sel.contains(x) && x < k) by {
                if r.contains(x) {
                    let j = choose|j: int| 0 <= j < r.len() && r[j] == x;
                    if j < prev.len() {
                        assert(prev[j] == x);
                        assert(prev.contains(x));
                    }
                }
                if sel.contains(x) && x < k {
                    if x < k - 1 {
                        assert(prev.contains(x));
                        let j = choose|j: int| 0 <= j < prev.len() && prev[j] == x;
                        assert(r[j] == x);
                    } else {
                        assert(r[prev.len() as int] == x);
                    }
                }
            }
        } else {
            assert forall|x: usize| prev.contains(x) <==> (sel.contains(x) && x < k) by {
                if sel.contains(x) && x < k {
                    assert(x != k - 1);
                }
            }
        }
    }
}

/// Every selection has its normalized form.
pub proof fn lemma_normalized_exists(sel: Seq<usize>, primary: Option<usize>, n: nat)
    ensures
        is_normalized_selection(normalized_selection(sel, primary, n), sel, primary, n),
{
    lemma_members_below(sel, n);
    let r = if has_in_range(sel, n) {
        members_below(sel, n)
    } else {
        match primary {
            Some(i) => if i < n { seq![i] } else { Seq::<usize>::empty() },
            None => Seq::<usize>::empty(),
        }
    };
    assert(is_normalized_selection(r, sel, primary, n));
    lemma_normalized_selection_is(r, sel, primary, n);
}

/// The normalized form of a selection over `n` objects.
pub open spec fn normalized_selection(sel: Seq<usize>, primary: Option<usize>, n: nat) -> Seq<usize> {
    choose|r: Seq<usize>| is_normalized_selection(r, sel, primary, n)
}

/// A sequence that is the normalized form of a selection is the one that
/// `normalized_selection` names.
pub proof fn lemma_normalized_selection_is(
    r: Seq<usize>,
    sel: Seq<usize>,
    primary: Option<usize>,
    n: nat,
)
    requires
        is_normalized_selection(r, sel, primary, n),
    ensures
        r == normalized_selection(sel, primary, n),
        is_normalized_selection(normalized_selection(sel, primary, n), sel, primary, n),
{
    let c = normalized_selection(sel, primary, n);
    assert(is_normalized_selection(c, sel, primary, n));
    lemma_normalized_selection_unique(r, c, sel, primary, n);
}

/// The elements of `s` below `n`, in order.
pub open spec fn filter_below(s: Seq<usize>, n: nat) -> Seq<usize>
    decreases s.len(),
{
    if s.len() == 0 {
        Seq::empty()
    } else {
        let p = filter_below(s.drop_last(), n);
        if s.last() < n {
            p.push(s.last())
        } else {
            p
        }
    }
}

/// Keeps the elements of `v` below `n`, in order.
pub fn retain_below(v: &Vec<usize>, n: usize) -> (r: Vec<usize>)
    ensures
        r@ == filter_below(v@, n as nat),
{
    let mut out: Vec<usize> = Vec::new();
    let mut k: usize = 0;
    while k < v.len()
        invariant
            k <= v.len(),
            out@ == filter_below(v@.subrange(0, k as int), n as nat),
        decreases v.len() - k,
    {
        assert(v@.subrange(0, k + 1).drop_last() == v@.subrange(0, k as int));
        if v[k] < n {
            out.push(v[k]);
        }
        k = k + 1;
    }
    assert(v@.subrange(0, v@.len() as int) == v@);
    out
}

/// Returns the selected indices below `n`, sorted and without duplicates;
/// when none is below `n`, the primary index alone if it is below `n`.
pub fn normalize_selection(sel: &Vec<usize>, primary: Option<usize>, n: usize) -> (r: Vec<usize>)
    ensures
        is_normalized_selection(r@, sel@, primary, n as nat),
{
    let mut r: Vec<usize> = Vec::new();
    let mut k: usize = 0;
    while k < sel.len()
        invariant
            k <= sel.len(),
            strictly_increasing_usize(r@),
            forall|x: usize| r@.contains(x) <==> (sel@.subrange(0, k as int).contains(x) && x < n),
        decreases sel.len() - k,
    {
        let x = sel[k];
        let ghost before = r@;
        if x < n {
            insert_sorted_unique_usize(&mut r, x);
        }
        proof {
            let s0 = sel@.subrange(0, k as int);
            let s1 = sel@.subrange(0, k + 1);
            assert forall|y: usize| r@.contains(y) <==> (s1.contains(y) && y < n) by {
                if s1.contains(y) {
                    let j = choose|j: int| 0 <= j < s1.len() && s1[j] == y;
                    if j < k {
                        assert(s0[j] == y);
                    }
                }
                if s0.contains(y) {
                    let j = choose|j: int| 0 <= j < s0.len() && s0[j] == y;
                    assert(s1[j] == y);
                }
                if y == x {
                    assert(s1[k as int] == y);
                }
            }
        }
        k = k + 1;
    }
    assert(sel@.subrange(0, sel.len() as int) == sel@);
    if r.len() == 0 {
        proof {
            if has_in_range(sel@, n as nat) {
                let j = choose|j: int| 0 <= j < sel@.len() && sel@[j] < n;
                assert(sel@.contains(sel@[j]));
                assert(r@.contains(sel@[j]));
            }
        }
        match primary {
            Some(i) => {
                if i < n {
                    r.push(i);
                    assert(r@ =~= seq![i]);
                } else {
                    assert(r@ =~= Seq::<usize>::empty());
                }
            },
            None => {
                assert(r@ =~= Seq::<usize>::empty());
            },
        }
    } else {
        proof {
            assert(r@.contains(r@[0]));
            assert(sel@.contains(r@[0]) && r@[0] < n);
            let j = choose|j: int| 0 <= j < sel@.len() && sel@[j] == r@[0];
            assert(sel@[j] < n);
            assert(has_in_range(sel@, n as nat));
        }
    }
    r
}

/// The index is among the selected indices or is the primary selection.
pub fn selection_contains(sel: &Vec<usize>, primary: Option<usize>, index: usize) -> (r: bool)
    ensures
        r == (sel@.contains(index) || primary == Some(index)),
{
    let mut k: usize = 0;
    while k < sel.len()
        invariant
            k <= sel.len(),
            forall|j: int| 0 <= j < k ==> sel@[j] != index,
        decreases sel.len() - k,
    {
        if sel[k] == index {
            assert(sel@[k as int] == index);
            return true;
        }
        k = k + 1;
    }
    match primary {
        Some(p) => p == index,
        None => false,
    }
}

} // verus!
