use vstd::prelude::*;
use crate::commands::KeyBindingView;
use crate::sorted::strictly_increasing_u32;
use crate::state::{Effect, StateView};
use crate::state_editor::MAX_HISTORY;
use crate::state_level::{tap_set, LevelMetadata};
use crate::state_input::with_keybind;
use crate::taps::{
    lemma_lower_bound_is,
    lemma_lower_bound_props,
    lemma_taps_with_wf,
    lemma_without_props,
    taps_below,
    taps_with,
    taps_without,
};
use crate::types::{AppPhase, EditorMode, SpawnDirection};

verus! {

/// Taps that all lie inside the timeline.
pub open spec fn taps_inside(s: StateView) -> bool {
    forall|i: int| 0 <= i < s.timeline.tap_steps.len() ==> s.timeline.tap_steps[i] < s.timeline.length
}

/// Keeping the taps below the length of a timeline that already holds them
/// all changes nothing.
proof fn lemma_taps_below_all(s: Seq<u32>, n: u32)
    requires
        forall|i: int| 0 <= i < s.len() ==> s[i] < n,
    ensures
        taps_below(s, n) == s,
    decreases s.len(),
{
    if s.len() > 0 {
        lemma_taps_below_all(s.drop_last(), n);
        assert(s.drop_last().push(s.last()) == s);
    }
}

/// Undo right after a change that recorded history: whatever the change did
/// to the editor and timeline (keeping the history it recorded), undo gives
/// back the blocks, their explorer labels, cursor, block kind, spawn, step,
/// length and taps of the state before the change, and puts the changed
/// state on the redo stack.
pub proof fn law_undo_restores_recorded(s: StateView, changed: StateView)
    requires
        s.wf(),
        s.phase == AppPhase::Editor,
        taps_inside(s),
        changed.phase == AppPhase::Editor,
        changed.history == s.after_record().history,
    ensures
        changed.after_undo().editor.objects == s.editor.objects,
        changed.after_undo().editor.labels == s.editor.labels,
        changed.after_undo().editor.cursor == s.editor.cursor,
        changed.after_undo().editor.selected_kind == s.editor.selected_kind,
        changed.after_undo().editor.spawn == s.editor.spawn,
        changed.after_undo().timeline.step == s.timeline.step,
        changed.after_undo().timeline.length == s.timeline.length,
        changed.after_undo().timeline.tap_steps == s.timeline.tap_steps,
        changed.after_undo().history.redo.last() == changed.snapshot(),
{
    reveal(StateView::after_undo);
    lemma_taps_below_all(s.timeline.tap_steps, s.timeline.length);
}

/// Placing a block and undoing gives back the blocks as they were.
pub proof fn law_undo_after_place(s: StateView)
    requires
        s.wf(),
        s.phase == AppPhase::Editor,
        taps_inside(s),
    ensures
        s.after_place_block().after_undo().editor.objects == s.editor.objects,
        s.after_place_block().editor.objects.len() == s.editor.objects.len() + 1,
{
    reveal(StateView::after_place_block);
    law_undo_restores_recorded(s, s.after_place_block());
}

/// Redo right after undo gives back the blocks, their explorer labels,
/// cursor, block kind, spawn, step, length and taps that undo replaced.
pub proof fn law_redo_after_undo(s: StateView)
    requires
        s.wf(),
        s.phase == AppPhase::Editor,
        taps_inside(s),
        s.history.undo.len() > 0,
    ensures
        s.after_undo().after_redo().editor.objects == s.editor.objects,
        s.after_undo().after_redo().editor.labels == s.editor.labels,
        s.after_undo().after_redo().editor.cursor == s.editor.cursor,
        s.after_undo().after_redo().editor.selected_kind == s.editor.selected_kind,
        s.after_undo().after_redo().editor.spawn == s.editor.spawn,
        s.after_undo().after_redo().timeline.step == s.timeline.step,
        s.after_undo().after_redo().timeline.length == s.timeline.length,
        s.after_undo().after_redo().timeline.tap_steps == s.timeline.tap_steps,
        s.after_undo().after_redo().history.undo.len() == s.history.undo.len(),
{
    reveal(StateView::after_undo);
    reveal(StateView::after_redo);
    lemma_taps_below_all(s.timeline.tap_steps, s.timeline.length);
}

/// The undo stack never holds more than `MAX_HISTORY` snapshots.
pub proof fn law_history_bounded(s: StateView)
    requires
        s.history.undo.len() <= MAX_HISTORY,
    ensures
        s.after_record().history.undo.len() <= MAX_HISTORY,
{
}

/// Turning the spawn twice gives back its direction.
pub proof fn law_rotate_spawn_twice(s: StateView)
    requires
        s.phase == AppPhase::Editor,
    ensures
        s.after_rotate_spawn().after_rotate_spawn().editor.spawn == s.editor.spawn,
{
    reveal(StateView::after_rotate_spawn);
}

/// Toggling a spawn direction twice gives it back.
pub proof fn law_toggle_direction_twice(d: SpawnDirection)
    ensures
        (if (if d == SpawnDirection::Forward { SpawnDirection::Right } else { SpawnDirection::Forward })
            == SpawnDirection::Forward {
            SpawnDirection::Right
        } else {
            SpawnDirection::Forward
        }) == d,
{
}

/// In the menu, the previous level after the next one is the level one
/// started from, and the state is otherwise unchanged.
pub proof fn law_prev_undoes_next(s: StateView)
    requires
        s.phase == AppPhase::Menu,
        s.menu_ok(),
        s.menu.levels.len() <= usize::MAX,
    ensures
        s.after_next_level().after_prev_level() == s,
{
    reveal(StateView::after_next_level);
    reveal(StateView::after_prev_level);
    let n = s.menu.levels.len() as int;
    let k = s.menu.selected_level as int;
    let j = (k + 1) % n;
    assert(j == if k + 1 == n { 0 } else { k + 1 }) by (nonlinear_arith)
        requires
            0 <= k < n,
            j == (k + 1) % n,
    ;
    assert(s.after_next_level().after_prev_level().menu =~= s.menu);
}

/// Moving the editor cursor by `(dx, dy)` steps and then by `(-dx, -dy)`
/// gives back the state, wherever the first move stays within the machine
/// integers (so down after up, and left after right, restore the cursor).
pub proof fn law_cursor_move_back(s: StateView, dx: i32, dy: i32)
    requires
        dx != i32::MIN,
        dy != i32::MIN,
        i64::MIN <= s.editor.cursor.x + dx * s.cursor_step() <= i64::MAX,
        i64::MIN <= s.editor.cursor.z + dy * s.cursor_step() <= i64::MAX,
    ensures
        s.after_move_cursor(dx, dy).after_move_cursor((-dx) as i32, (-dy) as i32) == s,
{
    let t = s.after_move_cursor(dx, dy);
    let st = s.cursor_step();
    assert(t.cursor_step() == st);
    let ndx = (-dx) as i32;
    let ndy = (-dy) as i32;
    assert(ndx == -dx && ndy == -dy);
    assert(ndx * st == -(dx * st)) by (nonlinear_arith)
        requires
            ndx == -dx,
    ;
    assert(ndy * st == -(dy * st)) by (nonlinear_arith)
        requires
            ndy == -dy,
    ;
    assert(t.after_move_cursor((-dx) as i32, (-dy) as i32).editor =~= s.editor);
}

/// In the editor, moving the cursor down right after moving it up gives
/// back the state, and so does up right after down, wherever the first move
/// stays within the machine integers.
pub proof fn law_down_after_up(s: StateView)
    requires
        s.phase == AppPhase::Editor,
    ensures
        s.editor.cursor.z + s.cursor_step() <= i64::MAX ==> s.after_move_up().after_move_down() == s,
        i64::MIN <= s.editor.cursor.z - s.cursor_step() ==> s.after_move_down().after_move_up() == s,
{
    assert(s.cursor_step() > 0);
    if s.editor.cursor.z + s.cursor_step() <= i64::MAX {
        law_cursor_move_back(s, 0, 1);
        assert(s.after_move_up().phase == AppPhase::Editor);
    }
    if i64::MIN <= s.editor.cursor.z - s.cursor_step() {
        law_cursor_move_back(s, 0, -1i32);
        assert(s.after_move_down().phase == AppPhase::Editor);
    }
}

/// Adding a tap at a step that has none and removing it again gives back
/// the taps.
pub proof fn law_tap_add_then_remove(s: StateView)
    requires
        s.wf(),
        !s.timeline.tap_steps.contains(s.timeline.step),
    ensures
        s.after_add_tap().after_remove_tap().timeline.tap_steps == s.timeline.tap_steps,
        s.after_add_tap().timeline.tap_steps.contains(s.timeline.step),
{
    reveal(StateView::after_add_tap);
    reveal(StateView::after_remove_tap);
    let taps = s.timeline.tap_steps;
    let x = s.timeline.step;
    lemma_taps_with_wf(taps, x);
    lemma_lower_bound_props(taps, x);
    let w = taps_with(taps, x);
    lemma_without_props(w, x);
    let back = taps_without(w, x);
    assert(w.contains(x)) by {
        assert(w[crate::taps::lower_bound(taps, x)] == x);
    }
    assert forall|y: u32| back.contains(y) <==> taps.contains(y) by {
        let p = crate::taps::lower_bound(taps, x);
        if taps.contains(y) {
            let k = choose|k: int| 0 <= k < taps.len() && taps[k] == y;
            if k < p {
                assert(w[k] == y);
            } else {
                assert(w[k + 1] == y);
            }
            assert(w.contains(y));
        }
        if back.contains(y) {
            assert(w.contains(y) && y != x);
            let k = choose|k: int| 0 <= k < w.len() && w[k] == y;
            if k < p {
                assert(taps[k] == y);
            } else if k > p {
                assert(taps[k - 1] == y);
            }
        }
    }
    crate::laws::lemma_increasing_u32_unique(back, taps);
}

/// Two strictly increasing sequences with the same elements are equal.
pub proof fn lemma_increasing_u32_unique(a: Seq<u32>, b: Seq<u32>)
    requires
        strictly_increasing_u32(a),
        strictly_increasing_u32(b),
        forall|x: u32| a.contains(x) <==> b.contains(x),
    ensures
        a == b,
    decreases a.len(),
{
    if a.len() == 0 {
        if b.len() > 0 {
            assert(b.contains(b[0]));
        }
    } else if b.len() == 0 {
        assert(a.contains(a[0]));
    } else {
        let la = a.last();
        let lb = b.last();
        assert(a.contains(la));
        assert(b.contains(lb));
        let ia = choose|i: int| 0 <= i < a.len() && a[i] == lb;
        let ib = choose|i: int| 0 <= i < b.len() && b[i] == la;
        assert(la == lb) by {
            if la < lb {
                assert(ib < b.len() - 1 ==> b[ib] < b[b.len() - 1]);
            } else if lb < la {
                assert(ia < a.len() - 1 ==> a[ia] < a[a.len() - 1]);
            }
        }
        let a2 = a.drop_last();
        let b2 = b.drop_last();
        assert forall|x: u32| a2.contains(x) <==> b2.contains(x) by {
            if a2.contains(x) {
                let i = choose|i: int| 0 <= i < a2.len() && a2[i] == x;
                assert(a[i] == x && x < la);
                assert(b.contains(x));
                let j = choose|j: int| 0 <= j < b.len() && b[j] == x;
                assert(j != b.len() - 1);
                assert(b2[j] == x);
            }
            if b2.contains(x) {
                let i = choose|i: int| 0 <= i < b2.len() && b2[i] == x;
                assert(b[i] == x && x < lb);
                assert(a.contains(x));
                let j = choose|j: int| 0 <= j < a.len() && a[j] == x;
                assert(j != a.len() - 1);
                assert(a2[j] == x);
            }
        }
        lemma_increasing_u32_unique(a2, b2);
        assert(a == a2.push(la));
        assert(b == b2.push(lb));
    }
}

/// Pausing a running real game and resuming it leaves it unpaused with its
/// music paused and resumed, after pending inputs were dropped.
pub proof fn law_pause_then_resume(s: StateView)
    requires
        s.real_play(),
        s.game.started,
        !s.session.game_paused,
    ensures
        s.after_pause().after_resume() == (StateView {
            effects: s.effects.push(Effect::ClearPendingGameplayInputs).push(Effect::PauseAudio).push(
                Effect::ResumeAudio,
            ),
            ..s
        }),
{
    reveal(StateView::after_resume);
    assert(s.after_pause().after_resume().session =~= s.session);
}

/// Starting and then stopping the timeline preview gives back the editor
/// mode.
pub proof fn law_playback_toggle_restores_mode(s: StateView)
    requires
        s.phase == AppPhase::Editor,
        !s.timeline.playing,
    ensures
        s.after_toggle_playback().after_toggle_playback().editor.mode == s.editor.mode,
        !s.after_toggle_playback().after_toggle_playback().timeline.playing,
        s.after_toggle_playback().editor.mode == EditorMode::Null,
{
    reveal(StateView::after_toggle_playback);
}

/// In the editor, Escape with blocks or a tap selected only drops the
/// selection: the phase and everything outside the selection stay.
pub proof fn law_escape_drops_selection_first(s: StateView)
    requires
        s.phase == AppPhase::Editor,
        s.has_block_selection() || s.timeline.selected_tap is Some,
    ensures
        s.after_escape().phase == AppPhase::Editor,
        s.after_escape().editor.selected_block_indices.len() == 0 || !s.has_block_selection(),
        s.after_escape().timeline.selected_tap is None,
        s.after_escape().editor.objects == s.editor.objects,
        s.after_escape().effects == s.effects,
{
    reveal(StateView::after_escape);
}

/// After a chord is bound to the `slot`-th binding of an action, the
/// bindings hold that action with that chord.
pub proof fn law_set_keybind_binds(
    bs: Seq<KeyBindingView>,
    action: Seq<char>,
    slot: usize,
    key: Seq<char>,
    ctrl: bool,
    shift: bool,
    alt: bool,
)
    ensures
        with_keybind(bs, action, slot, key, ctrl, shift, alt).contains(
            KeyBindingView { action, key, ctrl, shift, alt },
        ),
        with_keybind(bs, action, slot, key, ctrl, shift, alt).len() <= bs.len() + 1,
{
    let pos = crate::state_input::action_positions(bs, action, bs.len() as int);
    crate::state_input::lemma_positions_prefix(bs, action, bs.len() as int, bs.len() as int);
    let b = KeyBindingView { action, key, ctrl, shift, alt };
    if slot < pos.len() {
        let i = pos[slot as int];
        assert(bs.update(i, b)[i] == b);
    } else {
        assert(bs.push(b)[bs.len() as int] == b);
    }
}

/// The sorted distinct taps of a list that is already sorted and distinct
/// are that list.
proof fn lemma_tap_set_of_set(s: Seq<u32>)
    requires
        strictly_increasing_u32(s),
    ensures
        tap_set(s) == s,
    decreases s.len(),
{
    if s.len() > 0 {
        let d = s.drop_last();
        let x = s.last();
        assert(strictly_increasing_u32(d));
        lemma_tap_set_of_set(d);
        assert forall|i: int| 0 <= i < d.len() implies d[i] < x by {
            assert(s[i] < s[s.len() - 1]);
        }
        assert(!d.contains(x));
        lemma_lower_bound_is(d, x, d.len() as int);
        assert(d.insert(d.len() as int, x) =~= s);
    }
}

/// Importing the edited level's own metadata gives the same metadata back:
/// its name, music, spawn, taps, step and blocks.
pub proof fn law_import_own_metadata(s: StateView, m: LevelMetadata)
    requires
        s.wf(),
        m@ == s.editor_metadata(),
    ensures
        s.after_import(m).editor_metadata() == m@,
{
    reveal(StateView::after_import);
    lemma_tap_set_of_set(s.timeline.tap_steps);
    assert(s.after_import(m).editor_metadata() =~= m@);
}

} // verus!
