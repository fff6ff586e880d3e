# egakareta core

The logic of the egakareta level editor and game shell, written in Verus and
proved against its contracts: phase changes between menu, play and editor;
the editor's selection, undo and redo history, grid snapping, nudges and
drags; the level explorer's names and groups; timeline taps; the keyboard
command mapping; pause and practice sessions; the sign-in flow; and the
bookkeeping of imported audio. World coordinates are fixed-point (`CELL`
units per grid cell).

## Layout

- `src/` — the verified library.
  - `types`, `fixed`, `snapping`, `blocks`, `selection`, `sorted`, `taps`,
    `tap_times`, `naming`, `strings`: values, fixed-point grid arithmetic and
    the small algorithms the editor is built from.
  - `editor_subsystem`, `drag`, `explorer`: the editor's block operations,
    gizmo and block drags, and the explorer's labels.
  - `state*`: the application state and its operations; each public
    operation is specified by a `StateView::after_*` function.
  - `commands`, `keymap`: commands and the key-binding map.
  - `auth`, `import`: the sign-in flow and pasted level payloads.
  - `state_laws`, `laws`, `laws_grid`: proofs that every command keeps the
    state's invariant, and the properties that tie operations together
    (undo after a change, snapping twice, nudging back, and others).
- `tests/` — tests run against the compiled library.
- `app/` — the shell around the library: cameras and pointer picking, which
  work in floating point, and levels as JSON text.
