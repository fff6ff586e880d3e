use vstd::prelude::*;
use crate::types::Vec3i;

verus! {

/// The taps of a timeline measured in time: each tap's time (in
/// milliseconds, in order) and the cell of its indicator, and the selected
/// tap.
pub struct TapTimeline {
    pub times: Vec<i64>,
    pub indicators: Vec<Vec3i>,
    pub selected: Option<usize>,
}

/// The taps with their lists as sequences.
pub struct TapTimelineView {
    pub times: Seq<i64>,
    pub indicators: Seq<Vec3i>,
    pub selected: Option<usize>,
}

impl View for TapTimeline {
    type V = TapTimelineView;

    open spec fn view(&self) -> TapTimelineView {
        TapTimelineView { times: self.times@, indicators: self.indicators@, selected: self.selected }
    }
}

/// The times never decrease.
pub open spec fn nondecreasing(s: Seq<i64>) -> bool {
    forall|i: int, j: int| 0 <= i < j < s.len() ==> s[i] <= s[j]
}

/// How many times come before `t`.
pub open spec fn count_below(s: Seq<i64>, t: i64) -> int
    decreases s.len(),
{
    if s.len() == 0 {
        0
    } else {
        count_below(s.drop_last(), t) + if s.last() < t { 1int } else { 0int }
    }
}

/// `Some(i)` when `i < n`, else `None`.
pub open spec fn below(o: Option<usize>, n: nat) -> Option<usize> {
    match o {
        Some(i) => if i < n { Some(i) } else { None },
        None => None,
    }
}

/// The distance between two times.
pub open spec fn time_distance(a: i64, b: i64) -> int {
    if a < b { b - a } else { a - b }
}

/// `r` is the tap whose indicator sits in `cell` with the time nearest to
/// `now` (the first such on ties), or `None` when no indicator sits there.
pub open spec fn is_nearest_at(v: TapTimelineView, cell: Vec3i, now: i64, r: Option<usize>) -> bool {
    match r {
        None => forall|j: int| 0 <= j < v.indicators.len() ==> v.indicators[j] != cell,
        Some(k) => {
            &&& k < v.indicators.len()
            &&& v.indicators[k as int] == cell
            &&& forall|j: int|
                0 <= j < v.indicators.len() && v.indicators[j] == cell ==> time_distance(
                    v.times[k as int],
                    now,
                ) <= time_distance(v.times[j], now)
            &&& forall|j: int|
                0 <= j < k && v.indicators[j] == cell ==> time_distance(v.times[k as int], now)
                    < time_distance(v.times[j], now)
        },
    }
}

impl TapTimelineView {
    /// One indicator per tap, times in order, the selection naming a tap.
    pub open spec fn wf(self) -> bool {
        &&& self.times.len() == self.indicators.len()
        &&& nondecreasing(self.times)
        &&& match self.selected {
            Some(i) => i < self.times.len(),
            None => true,
        }
    }

    /// The taps with a tap at `t` (indicator `cell`) inserted after every
    /// earlier time.
    pub open spec fn with_tap(self, t: i64, cell: Vec3i) -> TapTimelineView {
        let k = count_below(self.times, t);
        TapTimelineView {
            times: self.times.insert(k, t),
            indicators: self.indicators.insert(k, cell),
            ..self
        }
    }

    /// The selection after the tap at `removed` is taken out: that tap's
    /// selection is dropped and later ones move down by one.
    pub open spec fn selection_after_removal(self, removed: int) -> Option<usize> {
        match self.selected {
            Some(s) => if s == removed {
                None
            } else if s > removed {
                Some((s - 1) as usize)
            } else {
                Some(s)
            },
            None => None,
        }
    }

    /// The taps without the tap at `k`, the selection adjusted.
    pub open spec fn without_tap(self, k: int) -> TapTimelineView {
        TapTimelineView {
            times: self.times.remove(k),
            indicators: self.indicators.remove(k),
            selected: self.selection_after_removal(k),
        }
    }
}

/// The times before `t` come first, the others after.
proof fn lemma_count_below(s: Seq<i64>, t: i64)
    requires
        nondecreasing(s),
    ensures
        0 <= count_below(s, t) <= s.len(),
        forall|i: int| 0 <= i < count_below(s, t) ==> s[i] < t,
        forall|i: int| count_below(s, t) <= i < s.len() ==> s[i] >= t,
    decreases s.len(),
{
    if s.len() > 0 {
        let p = s.drop_last();
        let n = s.len() - 1;
        assert forall|i: int, j: int| 0 <= i < j < p.len() implies p[i] <= p[j] by {
            assert(p[i] == s[i] && p[j] == s[j]);
        }
        lemma_count_below(p, t);
        let c = count_below(p, t);
        if s[n] < t {
            assert forall|i: int| 0 <= i < p.len() implies p[i] < t by {
                assert(s[i] <= s[n]);
                assert(p[i] == s[i]);
            }
            if c < p.len() {
                assert(p[c] >= t);
                assert(p[c] < t);
            }
            assert(count_below(s, t) == c + 1);
            assert forall|i: int| 0 <= i < count_below(s, t) implies s[i] < t by {
                if i < n {
                    assert(p[i] == s[i]);
                }
            }
        } else {
            assert(count_below(s, t) == c);
            assert forall|i: int| 0 <= i < count_below(s, t) implies s[i] < t by {
                assert(p[i] == s[i]);
            }
            assert forall|i: int| count_below(s, t) <= i < s.len() implies s[i] >= t by {
                if i < n {
                    assert(p[i] == s[i]);
                }
            }
        }
    }
}

/// Inserting a time where `count_below` says keeps the times in order.
proof fn lemma_insert_sorted(s: Seq<i64>, t: i64)
    requires
        nondecreasing(s),
    ensures
        nondecreasing(s.insert(count_below(s, t), t)),
{
    lemma_count_below(s, t);
    let k = count_below(s, t);
    let r = s.insert(k, t);
    assert forall|i: int, j: int| 0 <= i < j < r.len() implies r[i] <= r[j] by {
        if j < k {
        } else if j == k {
        } else if i < k {
            assert(r[j] == s[j - 1]);
        } else if i == k {
            assert(r[j] == s[j - 1]);
        } else {
            assert(r[i] == s[i - 1] && r[j] == s[j - 1]);
        }
    }
}

/// Removing a time keeps the times in order.
proof fn lemma_remove_sorted(s: Seq<i64>, k: int)
    requires
        nondecreasing(s),
        0 <= k < s.len(),
    ensures
        nondecreasing(s.remove(k)),
{
    let r = s.remove(k);
    assert forall|i: int, j: int| 0 <= i < j < r.len() implies r[i] <= r[j] by {
        let a = if i < k { i } else { i + 1 };
        let b = if j < k { j } else { j + 1 };
        assert(r[i] == s[a] && r[j] == s[b]);
    }
}

fn count_below_exec(s: &Vec<i64>, t: i64) -> (r: usize)
    requires
        nondecreasing(s@),
    ensures
        r == count_below(s@, t),
{
    proof {
        lemma_count_below(s@, t);
    }
    let mut k: usize = 0;
    while k < s.len() && s[k] < t
        invariant
            k <= s.len(),
            nondecreasing(s@),
            0 <= count_below(s@, t) <= s@.len(),
            forall|i: int| 0 <= i < count_below(s@, t) ==> s@[i] < t,
            forall|i: int| count_below(s@, t) <= i < s@.len() ==> s@[i] >= t,
            forall|i: int| 0 <= i < k ==> s@[i] < t,
        decreases s.len() - k,
    {
        k = k + 1;
    }
    proof {
        let c = count_below(s@, t);
        if k < c {
            assert(s@[k as int] < t);
        }
        if c < k {
            assert(s@[c] < t);
            assert(s@[c] >= t);
        }
    }
    k
}

fn distance_exec(a: i64, b: i64) -> (r: i128)
    ensures
        r == time_distance(a, b),
{
    if a < b {
        b as i128 - a as i128
    } else {
        a as i128 - b as i128
    }
}

impl TapTimeline {
    /// No taps and no selection.
    pub fn new() -> (r: Self)
        ensures
            r@.times.len() == 0,
            r@.indicators.len() == 0,
            r@.selected is None,
            r@.wf(),
    {
        TapTimeline { times: Vec::new(), indicators: Vec::new(), selected: None }
    }

    /// The selected tap: its index, time and indicator cell.
    pub fn selected_tap(&self) -> (r: Option<(usize, i64, Vec3i)>)
        requires
            self@.wf(),
        ensures
            r == match self@.selected {
                Some(i) => Some((i, self@.times[i as int], self@.indicators[i as int])),
                None => None,
            },
    {
        match self.selected {
            Some(i) => Some((i, self.times[i], self.indicators[i])),
            None => None,
        }
    }

    /// Selects the tap at `index`; an index past the taps selects none.
    pub fn set_selected_tap_index(&mut self, index: Option<usize>)
        ensures
            final(self)@ == (TapTimelineView {
                selected: below(index, old(self)@.times.len()),
                ..old(self)@
            }),
    {
        self.selected = match index {
            Some(i) => if i < self.times.len() { Some(i) } else { None },
            None => None,
        };
    }

    /// After the tap at `removed` was taken out: its selection is dropped
    /// and a later selection moves down by one.
    pub fn adjust_selected_tap_after_removal(&mut self, removed: usize)
        ensures
            final(self)@ == (TapTimelineView {
                selected: old(self)@.selection_after_removal(removed as int),
                ..old(self)@
            }),
    {
        self.selected = match self.selected {
            Some(s) => if s == removed {
                None
            } else if s > removed {
                Some(s - 1)
            } else {
                Some(s)
            },
            None => None,
        };
    }

    /// Inserts a tap at `time` with its indicator in `cell` after every
    /// earlier time; returns where it went.
    pub fn add_tap_with_indicator(&mut self, time: i64, cell: Vec3i) -> (k: usize)
        requires
            old(self)@.wf(),
        ensures
            k == count_below(old(self)@.times, time),
            k <= old(self)@.times.len(),
            final(self)@ == old(self)@.with_tap(time, cell),
            final(self)@.indicators.len() == old(self)@.indicators.len() + 1,
            final(self)@.times.len() == old(self)@.times.len() + 1,
            nondecreasing(final(self)@.times),
    {
        let k = count_below_exec(&self.times, time);
        proof {
            lemma_count_below(self.times@, time);
            lemma_insert_sorted(self.times@, time);
        }
        self.times.insert(k, time);
        self.indicators.insert(k, cell);
        k
    }

    /// Removes the tap at `k` and adjusts the selection.
    fn remove_tap(&mut self, k: usize)
        requires
            old(self)@.wf(),
            k < old(self)@.times.len(),
        ensures
            final(self)@ == old(self)@.without_tap(k as int),
            final(self)@.wf(),
    {
        proof {
            lemma_remove_sorted(self.times@, k as int);
        }
        self.times.remove(k);
        self.indicators.remove(k);
        self.adjust_selected_tap_after_removal(k);
    }

    /// The tap whose indicator sits in `cell` with the time nearest to
    /// `now` (the first such on ties).
    pub fn nearest_tap_at(&self, cell: Vec3i, now: i64) -> (r: Option<usize>)
        requires
            self@.wf(),
        ensures
            is_nearest_at(self@, cell, now, r),
    {
        let mut best: Option<usize> = None;
        let mut k: usize = 0;
        while k < self.indicators.len()
            invariant
                k <= self.indicators.len(),
                self@.wf(),
                match best {
                    None => forall|j: int| 0 <= j < k ==> self@.indicators[j] != cell,
                    Some(b) => {
                        &&& b < k
                        &&& self@.indicators[b as int] == cell
                        &&& forall|j: int|
                            0 <= j < k && self@.indicators[j] == cell ==> time_distance(
                                self@.times[b as int],
                                now,
                            ) <= time_distance(self@.times[j], now)
                        &&& forall|j: int|
                            0 <= j < b && self@.indicators[j] == cell ==> time_distance(
                                self@.times[b as int],
                                now,
                            ) < time_distance(self@.times[j], now)
                    },
                },
            decreases self.indicators.len() - k,
        {
            if self.indicators[k] == cell {
                let d = distance_exec(self.times[k], now);
                let better = match best {
                    None => true,
                    Some(b) => d < distance_exec(self.times[b], now),
                };
                if better {
                    best = Some(k);
                }
            }
            k = k + 1;
        }
        best
    }

    /// Toggles a tap at the cursor cell: when an indicator sits there, the
    /// one nearest in time to `now` is removed (returning its time and
    /// `false`); otherwise a tap at `derived_time` (the time the level
    /// reaches the cell, which the shell finds by simulation) is added with
    /// its indicator in the cell and selected (returning that time and
    /// `true`).
    pub fn toggle_tap_at_cursor(&mut self, cell: Vec3i, now: i64, derived_time: i64) -> (r: (Option<i64>, bool))
        requires
            old(self)@.wf(),
        ensures
            final(self)@.wf(),
            exists|n: Option<usize>| {
                &&& is_nearest_at(old(self)@, cell, now, n)
                &&& match n {
                    Some(k) => {
                        &&& r == (Some(old(self)@.times[k as int]), false)
                        &&& final(self)@ == old(self)@.without_tap(k as int)
                    },
                    None => {
                        let k = count_below(old(self)@.times, derived_time);
                        &&& r == (Some(derived_time), true)
                        &&& final(self)@ == (TapTimelineView {
                            selected: Some(k as usize),
                            ..old(self)@.with_tap(derived_time, cell)
                        })
                    },
                }
            },
    {
        let n = self.nearest_tap_at(cell, now);
        match n {
            Some(k) => {
                let removed_time = self.times[k];
                self.remove_tap(k);
                (Some(removed_time), false)
            },
            None => {
                let k = self.add_tap_with_indicator(derived_time, cell);
                self.set_selected_tap_index(Some(k));
                (Some(derived_time), true)
            },
        }
    }

    /// Moves the selected tap to `time` (kept within `[0, duration]`),
    /// keeping its indicator and its selection; returns whether the time
    /// changed (nothing changes with no tap selected or the same time).
    pub fn set_selected_tap_time(&mut self, time: i64, duration: i64) -> (changed: bool)
        requires
            old(self)@.wf(),
        ensures
            final(self)@.wf(),
            ({
                let d: i64 = if duration < 0 { 0 } else { duration };
                let next: i64 = if time < 0 { 0 } else if time > d { d } else { time };
                match old(self)@.selected {
                    None => !changed && final(self)@ == old(self)@,
                    Some(s) => if old(self)@.times[s as int] == next {
                        !changed && final(self)@ == old(self)@
                    } else {
                        let rest = old(self)@.without_tap(s as int);
                        let k = count_below(rest.times, next);
                        &&& changed
                        &&& final(self)@ == (TapTimelineView {
                            selected: Some(k as usize),
                            ..rest.with_tap(next, old(self)@.indicators[s as int])
                        })
                    },
                }
            }),
    {
        let d: i64 = if duration < 0 { 0 } else { duration };
        let next: i64 = if time < 0 { 0 } else if time > d { d } else { time };
        match self.selected {
            None => false,
            Some(s) => {
                if self.times[s] == next {
                    return false;
                }
                let cell = self.indicators[s];
                self.remove_tap(s);
                let k = self.add_tap_with_indicator(next, cell);
                self.set_selected_tap_index(Some(k));
                true
            },
        }
    }
}

/// Toggling a tap at a cell with no indicator, then toggling there again:
/// the first toggle adds the tap and selects it; the tap it added is the
/// only one at the cell, so the second toggle removes exactly it, giving
/// back the times and indicators from before, with no tap selected.
pub proof fn law_toggle_tap_twice(v: TapTimelineView, cell: Vec3i, t: i64, now: i64, r: Option<usize>)
    requires
        v.wf(),
        forall|j: int| 0 <= j < v.indicators.len() ==> v.indicators[j] != cell,
        is_nearest_at(
            TapTimelineView { selected: Some(count_below(v.times, t) as usize), ..v.with_tap(t, cell) },
            cell,
            now,
            r,
        ),
    ensures
        r == Some(count_below(v.times, t) as usize),
        ({
            let w = TapTimelineView { selected: Some(count_below(v.times, t) as usize), ..v.with_tap(t, cell) };
            &&& w.without_tap(count_below(v.times, t)).times == v.times
            &&& w.without_tap(count_below(v.times, t)).indicators == v.indicators
            &&& w.without_tap(count_below(v.times, t)).selected is None
        }),
{
    lemma_count_below(v.times, t);
    let k = count_below(v.times, t);
    let w = TapTimelineView { selected: Some(k as usize), ..v.with_tap(t, cell) };
    assert(w.indicators[k] == cell);
    assert forall|j: int| 0 <= j < w.indicators.len() && j != k implies w.indicators[j] != cell by {
        if j < k {
            assert(w.indicators[j] == v.indicators[j]);
        } else {
            assert(w.indicators[j] == v.indicators[j - 1]);
        }
    }
    match r {
        Some(i) => {
            assert(i as int == k);
        },
        None => {
            assert(w.indicators[k] == cell);
        },
    }
    assert(w.times.remove(k) =~= v.times);
    assert(w.indicators.remove(k) =~= v.indicators);
}

} // verus!
