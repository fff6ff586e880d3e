use vstd::prelude::*;
use crate::fixed::round_cell;
use crate::sorted::strictly_increasing_u32;
use crate::explorer::{blank_label, blank_object_label, labels_view, ObjectLabel};
use crate::state::{Effect, EditorView, HistoryView, State, StateView, TimelineView, UiState};
use crate::state_editor::{cell_corner, cell_point, copy_objects};
use crate::strings::{string_push, to_owned_string};
use crate::taps::{add_tap_step, lemma_taps_with_wf, taps_with};
use crate::types::{LevelObject, SpawnMetadata, Vec3i, CELL};

verus! {

/// A level as saved and exchanged: its name, music file, spawn, tapped
/// steps, current step and blocks.
pub struct LevelMetadata {
    pub name: String,
    pub music_source: String,
    pub spawn: SpawnMetadata,
    pub taps: Vec<u32>,
    pub timeline_step: u32,
    pub objects: Vec<LevelObject>,
}

/// A level with its lists as sequences.
pub struct LevelMetadataView {
    pub name: Seq<char>,
    pub music_source: Seq<char>,
    pub spawn: SpawnMetadata,
    pub taps: Seq<u32>,
    pub timeline_step: u32,
    pub objects: Seq<LevelObject>,
}

impl View for LevelMetadata {
    type V = LevelMetadataView;

    open spec fn view(&self) -> LevelMetadataView {
        LevelMetadataView {
            name: self.name@,
            music_source: self.music_source@,
            spawn: self.spawn,
            taps: self.taps@,
            timeline_step: self.timeline_step,
            objects: self.objects@,
        }
    }
}

/// The steps of `s` as sorted distinct taps.
pub open spec fn tap_set(s: Seq<u32>) -> Seq<u32>
    decreases s.len(),
{
    if s.len() == 0 {
        Seq::empty()
    } else {
        taps_with(tap_set(s.drop_last()), s.last())
    }
}

/// The sorted distinct taps of any list are strictly increasing.
pub proof fn lemma_tap_set_wf(s: Seq<u32>)
    ensures
        strictly_increasing_u32(tap_set(s)),
    decreases s.len(),
{
    if s.len() > 0 {
        lemma_tap_set_wf(s.drop_last());
        lemma_taps_with_wf(tap_set(s.drop_last()), s.last());
    }
}

/// Sorts the steps and drops repeated ones.
pub fn sorted_taps(steps: &Vec<u32>) -> (r: Vec<u32>)
    ensures
        r@ == tap_set(steps@),
        strictly_increasing_u32(r@),
{
    let mut out: Vec<u32> = Vec::new();
    let mut k: usize = 0;
    while k < steps.len()
        invariant
            k <= steps.len(),
            out@ == tap_set(steps@.subrange(0, k as int)),
            strictly_increasing_u32(out@),
        decreases steps.len() - k,
    {
        assert(steps@.subrange(0, k + 1).drop_last() == steps@.subrange(0, k as int));
        add_tap_step(&mut out, steps[k]);
        k = k + 1;
    }
    assert(steps@.subrange(0, steps@.len() as int) == steps@);
    out
}

/// The nearest cell of a fixed-point coordinate, kept inside `i32`.
pub open spec fn cursor_cell(c: i64) -> i32 {
    let r = round_cell(c as int);
    if r < i32::MIN {
        i32::MIN
    } else if r > i32::MAX {
        i32::MAX
    } else {
        r as i32
    }
}

pub(crate) fn cursor_cell_exec(c: i64) -> (r: i32)
    ensures
        r == cursor_cell(c),
{
    let c2 = c as i128;
    assert(CELL == 1000);
    assert(i64::MIN <= c2 <= i64::MAX);
    let r: i128 = if c2 >= 0 {
        let num: i128 = 2 * c2 + 1000;
        num / 2000
    } else {
        let nc: i128 = 0 - c2;
        assert(0 < nc <= 0x8000_0000_0000_0000);
        let num: i128 = 2 * nc + 1000;
        let q: i128 = num / 2000;
        assert(q <= num);
        -q
    };
    if r < i32::MIN as i128 {
        i32::MIN
    } else if r > i32::MAX as i128 {
        i32::MAX
    } else {
        r as i32
    }
}

/// Returns `n` labels of new blocks.
fn blank_labels(n: usize) -> (r: Vec<ObjectLabel>)
    ensures
        labels_view(r@) == Seq::new(n as nat, |i: int| blank_label()),
{
    let mut out: Vec<ObjectLabel> = Vec::new();
    let mut k: usize = 0;
    while k < n
        invariant
            k <= n,
            labels_view(out@) == Seq::new(k as nat, |i: int| blank_label()),
        decreases n - k,
    {
        let ghost before = out@;
        let l = blank_object_label();
        out.push(l);
        assert(labels_view(out@) =~= labels_view(before).push(l@));
        assert(labels_view(out@) =~= Seq::new((k + 1) as nat, |i: int| blank_label()));
        k = k + 1;
    }
    out
}

/// The name a level is saved under: its own, else "Untitled".
pub open spec fn level_name_or_untitled(name: Option<String>) -> Seq<char> {
    match name {
        Some(n) => n@,
        None => "Untitled"@,
    }
}

/// The file an exported level is written to: its name, else "level",
/// followed by ".ldz".
pub open spec fn export_filename_spec(name: Option<Seq<char>>) -> Seq<char> {
    match name {
        Some(n) => n + ".ldz"@,
        None => "level.ldz"@,
    }
}

fn push_str(s: &mut String, t: &str)
    ensures
        final(s)@ == old(s)@ + t@,
{
    let n = vstd::string::StrSliceExecFns::unicode_len(t);
    let mut i: usize = 0;
    while i < n
        invariant
            n == t@.len(),
            i <= n,
            s@ == old(s)@ + t@.subrange(0, i as int),
        decreases n - i,
    {
        let c = vstd::string::StrSliceExecFns::get_char(t, i);
        string_push(s, c);
        assert(t@.subrange(0, i + 1) == t@.subrange(0, i as int).push(c));
        i = i + 1;
    }
    assert(t@.subrange(0, n as int) == t@);
}

/// Returns the file name an exported level is written to: its name, else
/// "level", followed by ".ldz".
pub fn level_export_filename(name: Option<&str>) -> (r: String)
    ensures
        r@ == export_filename_spec(
            match name {
                Some(n) => Some(n@),
                None => None,
            },
        ),
{
    match name {
        Some(n) => {
            let mut s = to_owned_string(n);
            push_str(&mut s, ".ldz");
            s
        },
        None => to_owned_string("level.ldz"),
    }
}

/// Picked audio files as names with byte sequences.
pub open spec fn audio_entries(s: Seq<(String, Vec<u8>)>) -> Seq<(String, Seq<u8>)> {
    s.map_values(|e: (String, Vec<u8>)| (e.0, e.1@))
}

/// The first index at or after `start` whose entry is named `name`, or the
/// length when there is none.
pub open spec fn first_named(cache: Seq<(String, Seq<u8>)>, name: Seq<char>, start: int) -> int
    decreases cache.len() - start,
{
    if start >= cache.len() {
        cache.len() as int
    } else if cache[start].0@ == name {
        start
    } else {
        first_named(cache, name, start + 1)
    }
}

/// The cache with the file's bytes stored under its name: replacing the
/// first entry of that name, else appended.
pub open spec fn cache_with(cache: Seq<(String, Seq<u8>)>, name: String, bytes: Seq<u8>) -> Seq<(String, Seq<u8>)> {
    let i = first_named(cache, name@, 0);
    if i < cache.len() {
        cache.update(i, (name, bytes))
    } else {
        cache.push((name, bytes))
    }
}

impl StateView {
    /// The edited level as metadata.
    pub open spec fn editor_metadata(self) -> LevelMetadataView {
        LevelMetadataView {
            name: level_name_or_untitled(self.ui.level_name),
            music_source: self.ui.music_source@,
            spawn: self.editor.spawn,
            taps: self.timeline.tap_steps,
            timeline_step: self.timeline.step,
            objects: self.editor.objects,
        }
    }

    /// Importing a level: its blocks (nothing selected or hovered), spawn,
    /// sorted distinct taps, name and music; the cursor on the first block's
    /// nearest cell (the origin without blocks), the camera brought to it,
    /// the history emptied, and then the level's step chosen as with
    /// `set_editor_timeline_step`.
    #[verifier::opaque]
    pub open spec fn after_import(self, m: LevelMetadata) -> StateView {
        let cursor = if m.objects@.len() > 0 {
            let p = m.objects@[0].position;
            cell_point((cursor_cell(p.x), cursor_cell(p.y), cursor_cell(p.z)))
        } else {
            Vec3i { x: 0, y: 0, z: 0 }
        };
        let t = StateView {
            editor: EditorView {
                objects: m.objects@,
                labels: Seq::new(m.objects@.len(), |i: int| blank_label()),
                selected_block_index: None,
                selected_block_indices: Seq::empty(),
                hovered_block_index: None,
                spawn: m.spawn,
                cursor,
                ..self.editor
            },
            timeline: TimelineView { tap_steps: tap_set(m.taps@), step: m.timeline_step, ..self.timeline },
            ui: UiState { level_name: Some(m.name), music_source: m.music_source, ..self.ui },
            history: HistoryView { undo: Seq::empty(), redo: Seq::empty() },
            ..self
        }.with_effect(Effect::FocusEditorCameraOnCursor);
        t.after_sync_objects().after_set_timeline_step(m.timeline_step)
    }

    /// Audio files picked by the user: each becomes the edited level's music
    /// and is kept in the cache under its name, and the shell drops the
    /// stale waveform of that file and loads it afresh.
    pub open spec fn after_audio_imports(self, imports: Seq<(String, Seq<u8>)>) -> StateView
        decreases imports.len(),
    {
        if imports.len() == 0 {
            self
        } else {
            let t = self.after_audio_imports(imports.drop_last());
            let (name, bytes) = imports.last();
            StateView {
                ui: UiState { music_source: name, ..t.ui },
                audio_cache: cache_with(t.audio_cache, name, bytes),
                ..t
            }.with_effect(Effect::ReloadWaveform { level_name: t.ui.level_name, source: name })
        }
    }
}

impl State {
    /// The edited level as metadata ("Untitled" when it has no name).
    pub fn current_editor_metadata(&self) -> (r: LevelMetadata)
        ensures
            r@ == self@.editor_metadata(),
    {
        let name = match &self.ui.level_name {
            Some(n) => n.clone(),
            None => to_owned_string("Untitled"),
        };
        let mut taps: Vec<u32> = Vec::new();
        let mut k: usize = 0;
        while k < self.timeline.tap_steps.len()
            invariant
                k <= self.timeline.tap_steps.len(),
                taps@ == self.timeline.tap_steps@.subrange(0, k as int),
            decreases self.timeline.tap_steps.len() - k,
        {
            taps.push(self.timeline.tap_steps[k]);
            k = k + 1;
        }
        assert(taps@ == self.timeline.tap_steps@);
        LevelMetadata {
            name,
            music_source: self.ui.music_source.clone(),
            spawn: self.editor.spawn,
            taps,
            timeline_step: self.timeline.step,
            objects: copy_objects(&self.editor.objects),
        }
    }

    /// Loads a level into the editor (see `StateView::after_import`).
    pub fn apply_imported_level_metadata(&mut self, metadata: LevelMetadata)
        requires
            old(self)@.timeline.length >= 1,
        ensures
            final(self)@ == old(self)@.after_import(metadata),
    {
        proof {
            reveal(StateView::after_import);
        }
        let ghost m = metadata;
        let LevelMetadata { name, music_source, spawn, taps, timeline_step, objects } = metadata;
        let cursor = if objects.len() > 0 {
            let p = objects[0].position;
            cell_corner((cursor_cell_exec(p.x), cursor_cell_exec(p.y), cursor_cell_exec(p.z)))
        } else {
            Vec3i { x: 0, y: 0, z: 0 }
        };
        self.editor.labels = blank_labels(objects.len());
        self.editor.objects = objects;
        self.editor.selected_block_index = None;
        self.editor.selected_block_indices = Vec::new();
        self.editor.hovered_block_index = None;
        self.editor.spawn = spawn;
        self.editor.cursor = cursor;
        self.timeline.tap_steps = sorted_taps(&taps);
        self.timeline.step = timeline_step;
        self.ui.level_name = Some(name);
        self.ui.music_source = music_source;
        self.history.undo = Vec::new();
        self.history.redo = Vec::new();
        self.effects.push(Effect::FocusEditorCameraOnCursor);
        assert(self@.editor.selected_block_indices =~= Seq::<usize>::empty());
        assert(self@.history.undo =~= Seq::empty());
        assert(self@.history.redo =~= Seq::empty());
        self.sync_editor_objects();
        self.set_editor_timeline_step(timeline_step);
    }

    /// Takes in audio files picked by the user, in order: each becomes the
    /// edited level's music and is cached under its name, and its waveform
    /// is to be loaded afresh by the shell.
    pub fn update_audio_imports(&mut self, imports: Vec<(String, Vec<u8>)>)
        ensures
            final(self)@ == old(self)@.after_audio_imports(audio_entries(imports@)),
    {
        let ghost s0 = self@;
        let ghost all = audio_entries(imports@);
        let n = imports.len();
        let mut rest = imports;
        let mut k: usize = 0;
        while rest.len() > 0
            invariant
                k <= n,
                all.len() == n,
                audio_entries(rest@) == all.subrange(k as int, n as int),
                self@ == s0.after_audio_imports(all.subrange(0, k as int)),
            decreases rest.len(),
        {
            let ghost r0 = rest@;
            assert(audio_entries(r0).len() == r0.len());
            assert(r0.len() == n - k);
            assert(audio_entries(r0)[0] == all[k as int]);
            let (name, bytes) = rest.remove(0);
            let ghost e = all[k as int];
            assert(e == (name, bytes@));
            assert(all.subrange(0, k + 1).drop_last() == all.subrange(0, k as int));
            assert(all.subrange(0, k + 1).last() == e);
            assert(audio_entries(rest@) =~= all.subrange(k + 1, n as int)) by {
                assert(rest@ == r0.subrange(1, r0.len() as int));
                assert forall|i: int| 0 <= i < rest@.len() implies audio_entries(rest@)[i] == all[k + 1 + i] by {
                    assert(audio_entries(r0)[i + 1] == all[k + i + 1]);
                }
            }
            self.cache_audio(name.clone(), bytes);
            let level_name = match &self.ui.level_name {
                Some(l) => Some(l.clone()),
                None => None,
            };
            self.effects.push(Effect::ReloadWaveform { level_name, source: name.clone() });
            self.ui.music_source = name;
            k = k + 1;
        }
        assert(all.subrange(0, n as int) == all);
    }

    fn cache_audio(&mut self, name: String, bytes: Vec<u8>)
        ensures
            final(self)@ == (StateView { audio_cache: cache_with(old(self)@.audio_cache, name, bytes@), ..old(self)@ }),
    {
        let ghost c0 = self@.audio_cache;
        let mut k: usize = 0;
        while k < self.audio_cache.len()
            invariant_except_break
                first_named(c0, name@, 0) == first_named(c0, name@, k as int),
            invariant
                k <= self.audio_cache.len(),
                c0 == self@.audio_cache,
            ensures
                first_named(c0, name@, 0) == k,
            decreases self.audio_cache.len() - k,
        {
            assert(c0[k as int] == (self.audio_cache@[k as int].0, self.audio_cache@[k as int].1@));
            if self.audio_cache[k].0 == name {
                assert(first_named(c0, name@, k as int) == k);
                break;
            }
            assert(first_named(c0, name@, k as int) == first_named(c0, name@, k + 1));
            k = k + 1;
        }
        if k < self.audio_cache.len() {
            self.audio_cache.set(k, (name, bytes));
            assert(self@.audio_cache =~= c0.update(k as int, (name, bytes@)));
        } else {
            self.audio_cache.push((name, bytes));
            assert(self@.audio_cache =~= c0.push((name, bytes@)));
        }
    }
}

} // verus!
