use vstd::prelude::*;
use crate::import::{trim_whitespace, trimmed};
use crate::naming::{candidate, first_free_name, least_free_number, lower, to_ascii_lower};
use crate::strings::{empty_string, str_eq, string_push, to_owned_string};

verus! {

/// The texts as character sequences.
pub open spec fn texts(v: Seq<String>) -> Seq<Seq<char>> {
    v.map_values(|s: String| s@)
}

/// The pieces of a text between its '/' separators (one empty piece for an
/// empty text).
pub open spec fn pieces(s: Seq<char>) -> Seq<Seq<char>>
    decreases s.len(),
{
    if s.len() == 0 {
        seq![Seq::<char>::empty()]
    } else {
        let p = pieces(s.drop_last());
        if s.last() == '/' {
            p.push(Seq::<char>::empty())
        } else {
            p.update(p.len() - 1, p.last().push(s.last()))
        }
    }
}

/// The pieces, trimmed, without the empty ones.
pub open spec fn kept_pieces(ps: Seq<Seq<char>>) -> Seq<Seq<char>>
    decreases ps.len(),
{
    if ps.len() == 0 {
        Seq::empty()
    } else {
        let k = kept_pieces(ps.drop_last());
        let t = trimmed(ps.last());
        if t.len() > 0 {
            k.push(t)
        } else {
            k
        }
    }
}

/// A group path written as segments that may hold '/': every segment split
/// at '/', each piece trimmed, the empty pieces dropped.
pub open spec fn normalized_path(path: Seq<Seq<char>>) -> Seq<Seq<char>>
    decreases path.len(),
{
    if path.len() == 0 {
        Seq::empty()
    } else {
        normalized_path(path.drop_last()) + kept_pieces(pieces(path.last()))
    }
}

proof fn lemma_pieces_nonempty(s: Seq<char>)
    ensures
        pieces(s).len() >= 1,
    decreases s.len(),
{
    if s.len() > 0 {
        lemma_pieces_nonempty(s.drop_last());
    }
}

fn copy_texts(v: &Vec<String>) -> (r: Vec<String>)
    ensures
        texts(r@) == texts(v@),
{
    let mut out: Vec<String> = Vec::new();
    let mut k: usize = 0;
    while k < v.len()
        invariant
            k <= v.len(),
            texts(out@) == texts(v@.subrange(0, k as int)),
        decreases v.len() - k,
    {
        let c = v[k].clone();
        let ghost before = out@;
        out.push(c);
        assert(out@ == before.push(c));
        assert(texts(out@) =~= texts(before).push(c@));
        assert(v@.subrange(0, k + 1) == v@.subrange(0, k as int).push(v@[k as int]));
        assert(texts(v@.subrange(0, k + 1)) =~= texts(v@.subrange(0, k as int)).push(v@[k as int]@));
        k = k + 1;
    }
    assert(v@.subrange(0, v@.len() as int) == v@);
    out
}

/// Splits a text at its '/' separators.
fn split_pieces(s: &str) -> (r: Vec<String>)
    ensures
        texts(r@) == pieces(s@),
{
    let n = vstd::string::StrSliceExecFns::unicode_len(s);
    let mut done: Vec<String> = Vec::new();
    let mut current = empty_string();
    let mut i: usize = 0;
    while i < n
        invariant
            n == s@.len(),
            i <= n,
            texts(done@).push(current@) == pieces(s@.subrange(0, i as int)),
        decreases n - i,
    {
        let c = vstd::string::StrSliceExecFns::get_char(s, i);
        let ghost pre = s@.subrange(0, i as int);
        assert(s@.subrange(0, i + 1).drop_last() == pre);
        assert(s@.subrange(0, i + 1).last() == c);
        proof {
            lemma_pieces_nonempty(pre);
        }
        if c == '/' {
            let finished = current;
            done.push(finished);
            current = empty_string();
            assert(texts(done@).push(current@) =~= pieces(pre).push(Seq::<char>::empty()));
        } else {
            let ghost old_current = current@;
            string_push(&mut current, c);
            assert(texts(done@).push(current@) =~= pieces(pre).update(
                pieces(pre).len() - 1,
                pieces(pre).last().push(c),
            ));
        }
        i = i + 1;
    }
    assert(s@.subrange(0, n as int) == s@);
    done.push(current);
    assert(texts(done@) =~= pieces(s@));
    done
}

/// Returns a group path with every segment split at '/', each piece
/// trimmed and the empty pieces dropped.
pub fn normalized_group_path(path: &Vec<String>) -> (r: Vec<String>)
    ensures
        texts(r@) == normalized_path(texts(path@)),
{
    let mut out: Vec<String> = Vec::new();
    let mut k: usize = 0;
    while k < path.len()
        invariant
            k <= path.len(),
            texts(out@) == normalized_path(texts(path@.subrange(0, k as int))),
        decreases path.len() - k,
    {
        let ps = split_pieces(path[k].as_str());
        let ghost base = texts(out@);
        let mut j: usize = 0;
        while j < ps.len()
            invariant
                j <= ps.len(),
                texts(out@) == base + kept_pieces(texts(ps@).subrange(0, j as int)),
            decreases ps.len() - j,
        {
            let t = trim_whitespace(ps[j].as_str());
            let ghost sub = texts(ps@).subrange(0, j + 1);
            assert(sub.drop_last() == texts(ps@).subrange(0, j as int));
            assert(sub.last() == ps@[j as int]@);
            let tl = vstd::string::StrSliceExecFns::unicode_len(t);
            if tl > 0 {
                let owned = to_owned_string(t);
                let ghost before = out@;
                out.push(owned);
                assert(out@ == before.push(owned));
                assert(texts(out@) =~= texts(before).push(owned@));
                assert(trimmed(sub.last()) == owned@);
                assert(kept_pieces(sub) == kept_pieces(sub.drop_last()).push(owned@));
                assert(texts(out@) =~= base + kept_pieces(sub));
            } else {
                assert(kept_pieces(sub) == kept_pieces(texts(ps@).subrange(0, j as int)));
            }
            j = j + 1;
        }
        assert(texts(ps@).subrange(0, ps@.len() as int) == texts(ps@));
        let ghost pk = texts(path@).subrange(0, k + 1);
        assert(pk.drop_last() == texts(path@).subrange(0, k as int));
        assert(pk.last() == path@[k as int]@);
        assert(texts(path@.subrange(0, k + 1)) == pk);
        assert(texts(path@.subrange(0, k as int)) == texts(path@).subrange(0, k as int));
        k = k + 1;
    }
    assert(path@.subrange(0, path@.len() as int) == path@);
    out
}

/// The name given to a new block of a kind: the kind's display name,
/// trimmed, else "Block".
pub open spec fn name_seed(display_name: Seq<char>) -> Seq<char> {
    if trimmed(display_name).len() > 0 {
        trimmed(display_name)
    } else {
        "Block"@
    }
}

/// Returns the name given to a new block of a kind: the kind's display
/// name, trimmed, else "Block".
pub fn object_name_seed(display_name: &str) -> (r: String)
    ensures
        r@ == name_seed(display_name@),
{
    let t = trim_whitespace(display_name);
    if vstd::string::StrSliceExecFns::unicode_len(t) == 0 {
        to_owned_string("Block")
    } else {
        to_owned_string(t)
    }
}

/// How the explorer lists a block: its name and the groups it sits in,
/// outermost first.
pub struct ObjectLabel {
    pub name: String,
    pub group_path: Vec<String>,
}

/// A block's label as character sequences.
pub struct LabelView {
    pub name: Seq<char>,
    pub group_path: Seq<Seq<char>>,
}

impl View for ObjectLabel {
    type V = LabelView;

    open spec fn view(&self) -> LabelView {
        LabelView { name: self.name@, group_path: texts(self.group_path@) }
    }
}

/// The labels as views.
pub open spec fn labels_view(v: Seq<ObjectLabel>) -> Seq<LabelView> {
    v.map_values(|l: ObjectLabel| l@)
}

/// The label of a new block: no name, outside every group.
pub open spec fn blank_label() -> LabelView {
    LabelView { name: Seq::empty(), group_path: Seq::empty() }
}

/// Returns the label of a new block: no name, outside every group.
pub fn blank_object_label() -> (r: ObjectLabel)
    ensures
        r@ == blank_label(),
{
    let r = ObjectLabel { name: String::new(), group_path: Vec::new() };
    assert(texts(r.group_path@) =~= Seq::<Seq<char>>::empty());
    r
}

/// Returns a copy of a label.
pub fn copy_label(l: &ObjectLabel) -> (r: ObjectLabel)
    ensures
        r@ == l@,
{
    ObjectLabel { name: l.name.clone(), group_path: copy_texts(&l.group_path) }
}

/// Returns the labels whose index is not listed in `removed`, in order.
pub fn remove_label_indices(v: &Vec<ObjectLabel>, removed: &Vec<usize>) -> (r: Vec<ObjectLabel>)
    ensures
        labels_view(r@) == crate::blocks::without_indices(labels_view(v@), removed@),
{
    let mut out: Vec<ObjectLabel> = Vec::new();
    let mut k: usize = 0;
    while k < v.len()
        invariant
            k <= v.len(),
            labels_view(out@) == crate::blocks::kept_prefix(labels_view(v@), removed@, k as int),
        decreases v.len() - k,
    {
        if !crate::blocks::contains_index(removed, k) {
            let c = copy_label(&v[k]);
            let ghost before = out@;
            out.push(c);
            assert(labels_view(out@) =~= labels_view(before).push(c@));
        }
        k = k + 1;
    }
    out
}

/// Returns a copy of the labels.
pub fn copy_labels(v: &Vec<ObjectLabel>) -> (r: Vec<ObjectLabel>)
    ensures
        labels_view(r@) == labels_view(v@),
{
    let mut out: Vec<ObjectLabel> = Vec::new();
    let mut k: usize = 0;
    while k < v.len()
        invariant
            k <= v.len(),
            labels_view(out@) == labels_view(v@.subrange(0, k as int)),
        decreases v.len() - k,
    {
        let c = copy_label(&v[k]);
        let ghost before = out@;
        out.push(c);
        assert(labels_view(out@) =~= labels_view(before).push(c@));
        assert(v@.subrange(0, k + 1) == v@.subrange(0, k as int).push(v@[k as int]));
        assert(labels_view(v@.subrange(0, k + 1)) =~= labels_view(v@.subrange(0, k as int)).push(v@[k as int]@));
        k = k + 1;
    }
    assert(v@.subrange(0, v@.len() as int) == v@);
    out
}

/// The names in use: every trimmed name that is not empty, in small
/// letters, in label order.
pub open spec fn names_in_use(ls: Seq<LabelView>) -> Seq<Seq<char>>
    decreases ls.len(),
{
    if ls.len() == 0 {
        Seq::empty()
    } else {
        let u = names_in_use(ls.drop_last());
        let t = trimmed(ls.last().name);
        if t.len() > 0 {
            u.push(lower(t))
        } else {
            u
        }
    }
}

/// `path` starts with `prefix`.
pub open spec fn starts_with(path: Seq<Seq<char>>, prefix: Seq<Seq<char>>) -> bool {
    prefix.len() <= path.len() && path.subrange(0, prefix.len() as int) == prefix
}

/// The names of the groups right under `parent`, in small letters, in label
/// order.
pub open spec fn groups_under(ls: Seq<LabelView>, parent: Seq<Seq<char>>) -> Seq<Seq<char>>
    decreases ls.len(),
{
    if ls.len() == 0 {
        Seq::empty()
    } else {
        let u = groups_under(ls.drop_last(), parent);
        let gp = ls.last().group_path;
        if gp.len() > parent.len() && starts_with(gp, parent) {
            u.push(lower(gp[parent.len() as int]))
        } else {
            u
        }
    }
}

/// A new block name: `base`, a space and the smallest positive number that
/// gives a name not in use (compared in small letters).
pub open spec fn unique_object_name(ls: Seq<LabelView>, base: Seq<char>) -> Seq<char> {
    candidate(base + " "@, least_free_number(names_in_use(ls), base + " "@))
}

/// A new group name under `parent`: "Group", a space and the smallest
/// positive number that gives a name not used right under `parent`
/// (compared in small letters).
pub open spec fn unique_group_name(ls: Seq<LabelView>, parent: Seq<Seq<char>>) -> Seq<char> {
    candidate("Group "@, least_free_number(groups_under(ls, parent), "Group "@))
}

/// The name a block gets when names are given: its own name trimmed, or
/// when that is empty a new unique name from its kind's display name.
pub open spec fn default_name(ls: Seq<LabelView>, i: int, display_name: Seq<char>) -> Seq<char> {
    if trimmed(ls[i].name).len() > 0 {
        trimmed(ls[i].name)
    } else {
        unique_object_name(ls, name_seed(display_name))
    }
}

/// Naming the blocks at the first `k` indices, one after the other
/// (indices past the blocks are skipped).
pub open spec fn after_default_names(ls: Seq<LabelView>, indices: Seq<usize>, displays: Seq<Seq<char>>, k: int) -> Seq<LabelView>
    decreases k,
{
    if k <= 0 {
        ls
    } else {
        let prev = after_default_names(ls, indices, displays, k - 1);
        let i = indices[k - 1] as int;
        if i < prev.len() {
            prev.update(i, LabelView { name: default_name(prev, i, displays[i]), ..prev[i] })
        } else {
            prev
        }
    }
}

/// The longest prefix of `parent` that `path` starts with.
pub open spec fn shrink_parent(parent: Seq<Seq<char>>, path: Seq<Seq<char>>) -> Seq<Seq<char>>
    decreases parent.len(),
{
    if starts_with(path, parent) || parent.len() == 0 {
        parent
    } else {
        shrink_parent(parent.drop_last(), path)
    }
}

/// The deepest group that holds every selected block (of the first `k`
/// selected ones, `k >= 1`).
pub open spec fn common_parent(ls: Seq<LabelView>, sel: Seq<usize>, k: int) -> Seq<Seq<char>>
    decreases k,
{
    if k <= 1 {
        ls[sel[0] as int].group_path
    } else {
        shrink_parent(common_parent(ls, sel, k - 1), ls[sel[k - 1] as int].group_path)
    }
}

/// A block's group path once its blocks are grouped under `parent` in the
/// new group `name`: the rest of its path below `parent` is kept.
pub open spec fn regrouped(path: Seq<Seq<char>>, parent: Seq<Seq<char>>, name: Seq<char>) -> Seq<Seq<char>> {
    if path.len() > parent.len() && starts_with(path, parent) {
        parent.push(name) + path.subrange(parent.len() as int, path.len() as int)
    } else {
        parent.push(name)
    }
}

/// A path under the renamed group, moved under its new name.
pub open spec fn renamed_path(path: Seq<Seq<char>>, target: Seq<Seq<char>>, replacement: Seq<Seq<char>>) -> Seq<Seq<char>> {
    if starts_with(path, target) {
        replacement + path.subrange(target.len() as int, path.len() as int)
    } else {
        path
    }
}

/// Whether two paths are equal, segment by segment.
fn paths_equal(a: &Vec<String>, b: &Vec<String>) -> (r: bool)
    ensures
        r == (texts(a@) == texts(b@)),
{
    if a.len() != b.len() {
        assert(texts(a@).len() != texts(b@).len());
        return false;
    }
    let r = path_starts_with(a, b);
    assert(texts(a@).subrange(0, texts(b@).len() as int) =~= texts(a@));
    r
}

/// Whether the path starts with the prefix, segment by segment.
fn path_starts_with(path: &Vec<String>, prefix: &Vec<String>) -> (r: bool)
    ensures
        r == starts_with(texts(path@), texts(prefix@)),
{
    if prefix.len() > path.len() {
        return false;
    }
    let mut k: usize = 0;
    while k < prefix.len()
        invariant
            k <= prefix.len() <= path.len(),
            forall|j: int| 0 <= j < k ==> path@[j]@ == prefix@[j]@,
        decreases prefix.len() - k,
    {
        if !str_eq(path[k].as_str(), prefix[k].as_str()) {
            assert(texts(path@).subrange(0, prefix@.len() as int)[k as int] != texts(prefix@)[k as int]);
            return false;
        }
        k = k + 1;
    }
    assert(texts(path@).subrange(0, prefix@.len() as int) =~= texts(prefix@));
    true
}

/// The labels after the blocks at `sel` are put into a new group inside
/// the deepest group that holds all of them (see
/// `Outline::create_group_from_selection`).
pub open spec fn grouped_labels(ls: Seq<LabelView>, sel: Seq<usize>) -> Seq<LabelView> {
    let parent = common_parent(ls, sel, sel.len() as int);
    let name = unique_group_name(ls, parent);
    Seq::new(
        ls.len(),
        |j: int| if sel.contains(j as usize) {
            LabelView { group_path: regrouped(ls[j].group_path, parent, name), ..ls[j] }
        } else {
            ls[j]
        },
    )
}

/// The group that renaming `path` to `new_name` targets, and what it
/// becomes.
pub open spec fn group_rename(path: Seq<Seq<char>>, new_name: Seq<char>) -> (Seq<Seq<char>>, Seq<Seq<char>>) {
    let target = normalized_path(path);
    (target, target.drop_last().push(trimmed(new_name)))
}

/// Renaming the group at `path` changes something (see
/// `Outline::rename_group`).
pub open spec fn group_rename_changes(ls: Seq<LabelView>, path: Seq<Seq<char>>, new_name: Seq<char>) -> bool {
    let (target, replacement) = group_rename(path, new_name);
    target.len() > 0 && trimmed(new_name).len() > 0 && replacement != target && exists|j: int|
        0 <= j < ls.len() && starts_with(#[trigger] ls[j].group_path, target)
}

/// The labels after the group at `path` is renamed to `new_name`.
pub open spec fn renamed_labels(ls: Seq<LabelView>, path: Seq<Seq<char>>, new_name: Seq<char>) -> Seq<LabelView> {
    let (target, replacement) = group_rename(path, new_name);
    Seq::new(
        ls.len(),
        |j: int| LabelView { group_path: renamed_path(ls[j].group_path, target, replacement), ..ls[j] },
    )
}

/// The group a move targets: the normalized path, or the top level.
pub open spec fn move_target(group_path: Option<Seq<Seq<char>>>) -> Seq<Seq<char>> {
    match group_path {
        Some(p) => normalized_path(p),
        None => Seq::empty(),
    }
}

/// Moving the blocks at `sel` to `target` changes something.
pub open spec fn move_changes(ls: Seq<LabelView>, sel: Seq<usize>, target: Seq<Seq<char>>) -> bool {
    exists|i: int| 0 <= i < sel.len() && ls[#[trigger] sel[i] as int].group_path != target
}

/// The labels after the blocks at `sel` move into `target`.
pub open spec fn moved_labels(ls: Seq<LabelView>, sel: Seq<usize>, target: Seq<Seq<char>>) -> Seq<LabelView> {
    Seq::new(
        ls.len(),
        |j: int| if sel.contains(j as usize) { LabelView { group_path: target, ..ls[j] } } else { ls[j] },
    )
}

/// The blocks as the level explorer shows them: one label per block.
pub struct Outline {
    pub labels: Vec<ObjectLabel>,
}

impl View for Outline {
    type V = Seq<LabelView>;

    open spec fn view(&self) -> Seq<LabelView> {
        labels_view(self.labels@)
    }
}

impl Outline {
    fn taken_names(&self) -> (r: Vec<String>)
        ensures
            r@.map_values(|t: String| t@) == names_in_use(self@),
            r.len() <= self.labels.len(),
    {
        let mut out: Vec<String> = Vec::new();
        let mut k: usize = 0;
        while k < self.labels.len()
            invariant
                k <= self.labels.len(),
                out@.map_values(|t: String| t@) == names_in_use(self@.subrange(0, k as int)),
                out.len() <= k,
            decreases self.labels.len() - k,
        {
            let ghost sub = self@.subrange(0, k + 1);
            assert(sub.drop_last() == self@.subrange(0, k as int));
            assert(sub.last() == self.labels@[k as int]@);
            let t = trim_whitespace(self.labels[k].name.as_str());
            if vstd::string::StrSliceExecFns::unicode_len(t) > 0 {
                out.push(to_ascii_lower(t));
                assert(out@.map_values(|t: String| t@) =~= names_in_use(sub));
            }
            k = k + 1;
        }
        assert(self@.subrange(0, self@.len() as int) == self@);
        out
    }

    /// Returns `base`, a space and the smallest positive number that gives a
    /// name no block uses (names compared trimmed and in small letters).
    pub fn next_unique_object_name(&self, base: &str) -> (r: String)
        requires
            self.labels.len() < usize::MAX,
        ensures
            r@ == unique_object_name(self@, base@),
    {
        let taken = self.taken_names();
        let mut prefix = to_owned_string(base);
        string_push(&mut prefix, ' ');
        proof {
            reveal_strlit(" ");
            assert(prefix@ =~= base@ + " "@);
        }
        first_free_name(&taken, prefix.as_str())
    }

    fn taken_groups(&self, parent: &Vec<String>) -> (r: Vec<String>)
        ensures
            r@.map_values(|t: String| t@) == groups_under(self@, texts(parent@)),
            r.len() <= self.labels.len(),
    {
        let mut out: Vec<String> = Vec::new();
        let mut k: usize = 0;
        while k < self.labels.len()
            invariant
                k <= self.labels.len(),
                out@.map_values(|t: String| t@) == groups_under(self@.subrange(0, k as int), texts(parent@)),
                out.len() <= k,
            decreases self.labels.len() - k,
        {
            let ghost sub = self@.subrange(0, k + 1);
            assert(sub.drop_last() == self@.subrange(0, k as int));
            assert(sub.last() == self.labels@[k as int]@);
            let gp = &self.labels[k].group_path;
            if gp.len() > parent.len() && path_starts_with(gp, parent) {
                let low = to_ascii_lower(gp[parent.len()].as_str());
                let ghost before = out@;
                out.push(low);
                assert(out@.map_values(|t: String| t@) =~= before.map_values(|t: String| t@).push(low@));
            }
            k = k + 1;
        }
        assert(self@.subrange(0, self@.len() as int) == self@);
        out
    }

    /// Returns "Group", a space and the smallest positive number that gives
    /// a name no group right under `parent` has (compared in small letters).
    pub fn unique_group_name_under(&self, parent: &Vec<String>) -> (r: String)
        requires
            self.labels.len() < usize::MAX,
        ensures
            r@ == unique_group_name(self@, texts(parent@)),
    {
        let taken = self.taken_groups(parent);
        first_free_name(&taken, "Group ")
    }

    /// Gives each block at `indices` a name: its own name trimmed, or a new
    /// unique name from its kind's display name in `display_names` when its
    /// name is empty. Indices past the blocks are skipped.
    pub fn assign_default_names_for_indices(&mut self, indices: &Vec<usize>, display_names: &Vec<String>)
        requires
            old(self).labels.len() < usize::MAX,
            display_names.len() == old(self).labels.len(),
        ensures
            final(self)@ == after_default_names(old(self)@, indices@, texts(display_names@), indices@.len() as int),
    {
        let mut k: usize = 0;
        while k < indices.len()
            invariant
                k <= indices.len(),
                self.labels.len() == old(self).labels.len(),
                self.labels.len() < usize::MAX,
                display_names.len() == self.labels.len(),
                self@ == after_default_names(old(self)@, indices@, texts(display_names@), k as int),
            decreases indices.len() - k,
        {
            let i = indices[k];
            if i < self.labels.len() {
                let t = trim_whitespace(self.labels[i].name.as_str());
                let name = if vstd::string::StrSliceExecFns::unicode_len(t) > 0 {
                    to_owned_string(t)
                } else {
                    let seed = object_name_seed(display_names[i].as_str());
                    self.next_unique_object_name(seed.as_str())
                };
                let path = copy_texts(&self.labels[i].group_path);
                let ghost before = self@;
                assert(texts(display_names@)[i as int] == display_names@[i as int]@);
                self.labels.set(i, ObjectLabel { name, group_path: path });
                assert(self@ =~= before.update(i as int, LabelView { name: default_name(before, i as int, display_names@[i as int]@), ..before[i as int] }));
            }
            k = k + 1;
        }
    }

    /// Renames the block at `index` to the trimmed name; returns whether the
    /// name changed (nothing changes for an index past the blocks).
    pub fn rename_object(&mut self, index: usize, name: &str) -> (changed: bool)
        ensures
            changed == (index < old(self)@.len() && old(self)@[index as int].name != trimmed(name@)),
            final(self)@ == if changed {
                old(self)@.update(index as int, LabelView { name: trimmed(name@), ..old(self)@[index as int] })
            } else {
                old(self)@
            },
    {
        if index >= self.labels.len() {
            return false;
        }
        let t = trim_whitespace(name);
        if str_eq(self.labels[index].name.as_str(), t) {
            return false;
        }
        let path = copy_texts(&self.labels[index].group_path);
        let ghost before = self@;
        self.labels.set(index, ObjectLabel { name: to_owned_string(t), group_path: path });
        assert(self@ =~= before.update(index as int, LabelView { name: trimmed(name@), ..before[index as int] }));
        true
    }

    /// Moves the selected blocks into the group at `group_path` (normalized;
    /// the top level when `None`); returns whether any block moved.
    pub fn move_selected_to_group(&mut self, selected: &Vec<usize>, group_path: Option<&Vec<String>>) -> (changed: bool)
        requires
            forall|i: int| 0 <= i < selected@.len() ==> selected@[i] < old(self)@.len(),
        ensures
            ({
                let target = match group_path {
                    Some(p) => normalized_path(texts(p@)),
                    None => Seq::<Seq<char>>::empty(),
                };
                &&& changed == exists|i: int| 0 <= i < selected@.len() && old(self)@[#[trigger] selected@[i] as int].group_path != target
                &&& final(self)@.len() == old(self)@.len()
                &&& forall|j: int| 0 <= j < old(self)@.len() ==> #[trigger] final(self)@[j] == if changed && selected@.contains(j as usize) {
                    LabelView { group_path: target, ..old(self)@[j] }
                } else {
                    old(self)@[j]
                }
            }),
    {
        let target = match group_path {
            Some(p) => normalized_group_path(p),
            None => {
                let v: Vec<String> = Vec::new();
                assert(texts(v@) =~= Seq::<Seq<char>>::empty());
                v
            },
        };
        let ghost tv = texts(target@);
        let mut k: usize = 0;
        let mut any = false;
        while k < selected.len()
            invariant
                k <= selected.len(),
                forall|i: int| 0 <= i < selected@.len() ==> selected@[i] < self@.len(),
                self@ == old(self)@,
                tv == texts(target@),
                any == exists|i: int| 0 <= i < k && self@[#[trigger] selected@[i] as int].group_path != tv,
            decreases selected.len() - k,
        {
            let idx = selected[k];
            assert(self@[idx as int].group_path == texts(self.labels@[idx as int].group_path@));
            let same = paths_equal(&self.labels[idx].group_path, &target);
            proof {
                if !same {
                    assert(self@[selected@[k as int] as int].group_path != tv);
                } else {
                    assert(self@[selected@[k as int] as int].group_path == tv);
                }
                assert((exists|i: int| 0 <= i < k + 1 && self@[#[trigger] selected@[i] as int].group_path != tv) == ((exists|i: int| 0 <= i < k && self@[#[trigger] selected@[i] as int].group_path != tv) || !same));
            }
            if !same {
                any = true;
            }
            k = k + 1;
        }
        if !any {
            return false;
        }
        let ghost old_ls = self@;
        let mut k: usize = 0;
        while k < selected.len()
            invariant
                k <= selected.len(),
                forall|i: int| 0 <= i < selected@.len() ==> selected@[i] < old_ls.len(),
                self@.len() == old_ls.len(),
                self.labels.len() == old_ls.len(),
                texts(target@) == tv,
                forall|j: int| 0 <= j < old_ls.len() ==> #[trigger] self@[j] == if selected@.subrange(0, k as int).contains(j as usize) {
                    LabelView { group_path: tv, ..old_ls[j] }
                } else {
                    old_ls[j]
                },
            decreases selected.len() - k,
        {
            let idx = selected[k];
            let name = self.labels[idx].name.clone();
            let path = copy_texts(&target);
            let ghost before = self@;
            self.labels.set(idx, ObjectLabel { name, group_path: path });
            proof {
                let s0 = selected@.subrange(0, k as int);
                let s1 = selected@.subrange(0, k + 1);
                assert forall|j: int| 0 <= j < old_ls.len() implies #[trigger] self@[j] == if s1.contains(j as usize) {
                    LabelView { group_path: tv, ..old_ls[j] }
                } else {
                    old_ls[j]
                } by {
                    if j == idx {
                        assert(s1[k as int] == idx);
                        assert(self@[j] == LabelView { group_path: tv, ..before[j] });
                    } else {
                        assert(self@[j] == before[j]);
                        if s1.contains(j as usize) {
                            let q = choose|q: int| 0 <= q < s1.len() && s1[q] == j as usize;
                            assert(q != k);
                            assert(s0[q] == j as usize);
                        }
                        if s0.contains(j as usize) {
                            let q = choose|q: int| 0 <= q < s0.len() && s0[q] == j as usize;
                            assert(s1[q] == j as usize);
                        }
                    }
                }
            }
            k = k + 1;
        }
        assert(selected@.subrange(0, selected@.len() as int) == selected@);
        true
    }

    /// Renames the group at `path` (normalized) to the trimmed name: every
    /// block inside it moves under the new name. Returns whether anything
    /// changed; nothing does for an empty path or name, an unchanged name,
    /// or a group that holds no block.
    pub fn rename_group(&mut self, path: &Vec<String>, new_name: &str) -> (changed: bool)
        ensures
            ({
                let target = normalized_path(texts(path@));
                let t = trimmed(new_name@);
                let replacement = target.drop_last().push(t);
                &&& changed == (target.len() > 0 && t.len() > 0 && replacement != target && exists|j: int|
                    0 <= j < old(self)@.len() && starts_with(#[trigger] old(self)@[j].group_path, target))
                &&& final(self)@.len() == old(self)@.len()
                &&& forall|j: int| 0 <= j < old(self)@.len() ==> #[trigger] final(self)@[j] == if changed {
                    LabelView { group_path: renamed_path(old(self)@[j].group_path, target, replacement), ..old(self)@[j] }
                } else {
                    old(self)@[j]
                }
            }),
    {
        let target = normalized_group_path(path);
        let ghost tv = texts(target@);
        if target.len() == 0 {
            return false;
        }
        let t = trim_whitespace(new_name);
        if vstd::string::StrSliceExecFns::unicode_len(t) == 0 {
            return false;
        }
        let mut replacement = copy_texts(&target);
        let ghost before_pop = replacement@;
        replacement.pop();
        replacement.push(to_owned_string(t));
        let ghost rv = texts(replacement@);
        assert(rv =~= tv.drop_last().push(t@));
        if paths_equal(&replacement, &target) {
            return false;
        }
        let mut k: usize = 0;
        let mut any = false;
        while k < self.labels.len()
            invariant
                k <= self.labels.len(),
                self@ == old(self)@,
                tv == texts(target@),
                any == exists|j: int| 0 <= j < k && starts_with(#[trigger] self@[j].group_path, tv),
            decreases self.labels.len() - k,
        {
            assert(self@[k as int].group_path == texts(self.labels@[k as int].group_path@));
            let inside = path_starts_with(&self.labels[k].group_path, &target);
            proof {
                assert((exists|j: int| 0 <= j < k + 1 && starts_with(#[trigger] self@[j].group_path, tv)) == ((exists|j: int| 0 <= j < k && starts_with(#[trigger] self@[j].group_path, tv)) || inside));
            }
            if inside {
                any = true;
            }
            k = k + 1;
        }
        if !any {
            return false;
        }
        let ghost old_ls = self@;
        let mut k: usize = 0;
        while k < self.labels.len()
            invariant
                k <= self.labels.len(),
                self.labels.len() == old_ls.len(),
                tv == texts(target@),
                rv == texts(replacement@),
                forall|j: int| 0 <= j < old_ls.len() ==> #[trigger] self@[j] == if j < k {
                    LabelView { group_path: renamed_path(old_ls[j].group_path, tv, rv), ..old_ls[j] }
                } else {
                    old_ls[j]
                },
            decreases self.labels.len() - k,
        {
            assert(self@[k as int] == old_ls[k as int]);
            assert(old_ls[k as int].group_path == texts(self.labels@[k as int].group_path@));
            if path_starts_with(&self.labels[k].group_path, &target) {
                let mut next = copy_texts(&replacement);
                let gp = &self.labels[k].group_path;
                let mut m: usize = target.len();
                while m < gp.len()
                    invariant
                        target.len() <= m <= gp.len(),
                        texts(next@) == rv + texts(gp@).subrange(target.len() as int, m as int),
                    decreases gp.len() - m,
                {
                    let seg = gp[m].clone();
                    let ghost b = next@;
                    next.push(seg);
                    assert(next@ == b.push(seg));
                    assert(texts(next@) =~= texts(b).push(seg@));
                    assert(seg@ == texts(gp@)[m as int]);
                    assert(texts(gp@).subrange(target.len() as int, m + 1) =~= texts(gp@).subrange(target.len() as int, m as int).push(texts(gp@)[m as int]));
                    assert(texts(next@) =~= rv + texts(gp@).subrange(target.len() as int, m + 1));
                    m = m + 1;
                }
                let name = self.labels[k].name.clone();
                let ghost before = self@;
                self.labels.set(k, ObjectLabel { name, group_path: next });
                assert(self@ =~= before.update(k as int, LabelView { group_path: renamed_path(old_ls[k as int].group_path, tv, rv), ..old_ls[k as int] }));
            } else {
                assert(renamed_path(old_ls[k as int].group_path, tv, rv) == old_ls[k as int].group_path);
            }
            k = k + 1;
        }
        true
    }

    fn parent_of_selection(&self, selected: &Vec<usize>) -> (r: Vec<String>)
        requires
            selected@.len() > 0,
            forall|i: int| 0 <= i < selected@.len() ==> selected@[i] < self@.len(),
        ensures
            texts(r@) == common_parent(self@, selected@, selected@.len() as int),
    {
        assert(self@[selected@[0] as int].group_path == texts(self.labels@[selected@[0] as int].group_path@));
        let mut parent = copy_texts(&self.labels[selected[0]].group_path);
        let mut k: usize = 1;
        while k < selected.len()
            invariant
                1 <= k <= selected.len(),
                forall|i: int| 0 <= i < selected@.len() ==> selected@[i] < self@.len(),
                texts(parent@) == common_parent(self@, selected@, k as int),
            decreases selected.len() - k,
        {
            let idx = selected[k];
            let gp = &self.labels[idx].group_path;
            let ghost gpv = texts(gp@);
            assert(self@[selected@[k as int] as int].group_path == gpv);
            let ghost start = texts(parent@);
            loop
                invariant
                    gpv == texts(gp@),
                    shrink_parent(texts(parent@), gpv) == shrink_parent(start, gpv),
                ensures
                    texts(parent@) == shrink_parent(start, gpv),
                decreases parent.len(),
            {
                if parent.len() == 0 || path_starts_with(gp, &parent) {
                    break;
                }
                let ghost b = parent@;
                parent.pop();
                assert(texts(parent@) =~= texts(b).drop_last());
            }
            k = k + 1;
        }
        parent
    }

    /// Puts the selected blocks into a new group, named "Group" and the
    /// smallest free number, inside the deepest group that holds all of
    /// them; each keeps the rest of its path below that group. Returns
    /// whether anything changed (only with nothing selected does nothing).
    pub fn create_group_from_selection(&mut self, selected: &Vec<usize>) -> (changed: bool)
        requires
            forall|i: int| 0 <= i < selected@.len() ==> selected@[i] < old(self)@.len(),
            crate::sorted::strictly_increasing_usize(selected@),
            old(self).labels.len() < usize::MAX,
        ensures
            changed == (selected@.len() > 0),
            final(self)@.len() == old(self)@.len(),
            changed ==> ({
                let parent = common_parent(old(self)@, selected@, selected@.len() as int);
                let name = unique_group_name(old(self)@, parent);
                forall|j: int| 0 <= j < old(self)@.len() ==> #[trigger] final(self)@[j] == if selected@.contains(j as usize) {
                    LabelView { group_path: regrouped(old(self)@[j].group_path, parent, name), ..old(self)@[j] }
                } else {
                    old(self)@[j]
                }
            }),
            !changed ==> final(self)@ == old(self)@,
    {
        if selected.len() == 0 {
            return false;
        }
        let parent = self.parent_of_selection(selected);
        let group_name = self.unique_group_name_under(&parent);
        let ghost pv = texts(parent@);
        let ghost nv = group_name@;
        let ghost old_ls = self@;
        let mut k: usize = 0;
        while k < selected.len()
            invariant
                k <= selected.len(),
                forall|i: int| 0 <= i < selected@.len() ==> selected@[i] < old_ls.len(),
                crate::sorted::strictly_increasing_usize(selected@),
                self.labels.len() == old_ls.len(),
                pv == texts(parent@),
                nv == group_name@,
                forall|j: int| 0 <= j < old_ls.len() ==> #[trigger] self@[j] == if selected@.subrange(0, k as int).contains(j as usize) {
                    LabelView { group_path: regrouped(old_ls[j].group_path, pv, nv), ..old_ls[j] }
                } else {
                    old_ls[j]
                },
            decreases selected.len() - k,
        {
            let idx = selected[k];
            proof {
                assert(!selected@.subrange(0, k as int).contains(idx)) by {
                    if selected@.subrange(0, k as int).contains(idx) {
                        let q = choose|q: int| 0 <= q < k && selected@.subrange(0, k as int)[q] == idx;
                        assert(selected@[q] < selected@[k as int]);
                    }
                }
            }
            assert(self@[idx as int] == old_ls[idx as int]);
            assert(old_ls[idx as int].group_path == texts(self.labels@[idx as int].group_path@));
            let gp = &self.labels[idx].group_path;
            let mut next = copy_texts(&parent);
            let ghost b0 = next@;
            next.push(group_name.clone());
            assert(texts(next@) =~= pv.push(nv));
            if gp.len() > parent.len() && path_starts_with(gp, &parent) {
                let mut m: usize = parent.len();
                while m < gp.len()
                    invariant
                        parent.len() <= m <= gp.len(),
                        texts(next@) == pv.push(nv) + texts(gp@).subrange(parent.len() as int, m as int),
                    decreases gp.len() - m,
                {
                    let seg = gp[m].clone();
                    let ghost b = next@;
                    next.push(seg);
                    assert(next@ == b.push(seg));
                    assert(texts(next@) =~= texts(b).push(seg@));
                    assert(seg@ == texts(gp@)[m as int]);
                    assert(texts(gp@).subrange(parent.len() as int, m + 1) =~= texts(gp@).subrange(parent.len() as int, m as int).push(texts(gp@)[m as int]));
                    assert(texts(next@) =~= pv.push(nv) + texts(gp@).subrange(parent.len() as int, m + 1));
                    m = m + 1;
                }
            } else {
                assert(texts(next@) =~= regrouped(old_ls[idx as int].group_path, pv, nv));
            }
            assert(texts(next@) == regrouped(old_ls[idx as int].group_path, pv, nv));
            let name = self.labels[idx].name.clone();
            let ghost before = self@;
            self.labels.set(idx, ObjectLabel { name, group_path: next });
            proof {
                let s0 = selected@.subrange(0, k as int);
                let s1 = selected@.subrange(0, k + 1);
                assert forall|j: int| 0 <= j < old_ls.len() implies #[trigger] self@[j] == if s1.contains(j as usize) {
                    LabelView { group_path: regrouped(old_ls[j].group_path, pv, nv), ..old_ls[j] }
                } else {
                    old_ls[j]
                } by {
                    if j == idx {
                        assert(s1[k as int] == idx);
                    } else {
                        assert(self@[j] == before[j]);
                        if s1.contains(j as usize) {
                            let q = choose|q: int| 0 <= q < s1.len() && s1[q] == j as usize;
                            assert(q != k);
                            assert(s0[q] == j as usize);
                        }
                        if s0.contains(j as usize) {
                            let q = choose|q: int| 0 <= q < s0.len() && s0[q] == j as usize;
                            assert(s1[q] == j as usize);
                        }
                    }
                }
            }
            k = k + 1;
        }
        assert(selected@.subrange(0, selected@.len() as int) == selected@);
        true
    }
}

} // verus!
