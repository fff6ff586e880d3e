use egakareta::import::decode_import_payload;
use egakareta::state::{Effect, State};
use egakareta::state_level::{level_export_filename, sorted_taps, LevelMetadata};
use egakareta::types::{BlockKind, LevelObject, SpawnDirection, SpawnMetadata, Vec3i, CELL};

fn new_editor_state() -> State {
    let mut state = State::new(vec!["Flowerfield".to_string()], 16, Vec::new());
    state.enter_editor_phase("Draft".to_string());
    state
}

fn block(x: i64, y: i64, z: i64) -> LevelObject {
    LevelObject { position: Vec3i { x, y, z }, size: Vec3i { x: CELL, y: CELL, z: CELL }, kind: BlockKind::Grass, yaw_degrees: 0 }
}

fn metadata() -> LevelMetadata {
    LevelMetadata {
        name: "Imported".to_string(),
        music_source: "song.ogg".to_string(),
        spawn: SpawnMetadata { position: Vec3i { x: 1000, y: 0, z: 0 }, direction: SpawnDirection::Right },
        taps: vec![30, 4, 30, 12],
        timeline_step: 100,
        objects: vec![block(2500, -1500, 400), block(0, 0, 0)],
    }
}

#[test]
fn import_loads_the_level_and_sorts_the_taps() {
    let mut state = new_editor_state();
    state.place_editor_block();
    state.apply_imported_level_metadata(metadata());
    assert_eq!(state.editor_level_name(), Some("Imported".to_string()));
    assert_eq!(state.editor_music_source(), "song.ogg");
    assert_eq!(state.editor_tap_steps(), &[4, 12, 30]);
    assert_eq!(state.editor.objects.len(), 2);
    assert_eq!(state.editor.cursor, Vec3i { x: 3000, y: -2000, z: 0 });
    assert_eq!(state.editor_timeline_step(), 63);
    assert_eq!(state.editor.spawn.direction, SpawnDirection::Right);
    assert!(state.effects.contains(&Effect::FocusEditorCameraOnCursor));
    assert_eq!(state.history.undo.len(), 1);
    assert!(state.editor.selected_block_indices.is_empty());
}

#[test]
fn import_without_blocks_puts_the_cursor_at_the_origin() {
    let mut state = new_editor_state();
    state.move_editor_cursor(5, 5);
    let mut m = metadata();
    m.objects.clear();
    m.timeline_step = 7;
    state.apply_imported_level_metadata(m);
    assert_eq!(state.editor.cursor, Vec3i { x: 0, y: 0, z: 0 });
    assert_eq!(state.editor_timeline_step(), 7);
}

#[test]
fn current_metadata_describes_the_edited_level() {
    let mut state = new_editor_state();
    state.place_editor_block();
    state.editor_add_tap();
    let m = state.current_editor_metadata();
    assert_eq!(m.name, "Draft");
    assert_eq!(m.music_source, "music.mp3");
    assert_eq!(m.taps, vec![0]);
    assert_eq!(m.objects.len(), 1);

    let menu = State::new(vec!["Flowerfield".to_string()], 16, Vec::new());
    assert_eq!(menu.current_editor_metadata().name, "Untitled");
}

#[test]
fn complete_import_closes_the_window_only_on_success() {
    let mut state = new_editor_state();
    state.set_editor_show_import(true);
    state.set_editor_import_text("{ broken".to_string());
    assert_eq!(state.complete_import_with(Err("bad json".to_string())), Err("bad json".to_string()));
    assert!(state.editor_show_import());
    assert_eq!(state.editor_import_text(), "{ broken");

    assert_eq!(state.complete_import_with(Ok(metadata())), Ok(()));
    assert!(!state.editor_show_import());
    assert_eq!(state.editor_import_text(), "");
    assert_eq!(state.editor_level_name(), Some("Imported".to_string()));
}

#[test]
fn import_payload_decodes_trimmed_base64() {
    assert_eq!(decode_import_payload("  aGVsbG8=\n"), Some(b"hello".to_vec()));
    assert_eq!(decode_import_payload("{\"name\":\"x\"}"), None);
    assert_eq!(decode_import_payload(""), Some(Vec::new()));
}

#[test]
fn export_file_is_named_after_the_level() {
    assert_eq!(level_export_filename(Some("Golden Haze")), "Golden Haze.ldz");
    assert_eq!(level_export_filename(None), "level.ldz");
}

#[test]
fn sorted_taps_drop_repeats() {
    assert_eq!(sorted_taps(&vec![5, 1, 5, 3, 1]), vec![1, 3, 5]);
    assert!(sorted_taps(&Vec::new()).is_empty());
}

#[test]
fn audio_imports_become_the_music_and_replace_cached_bytes() {
    let mut state = new_editor_state();
    state.update_audio_imports(vec![
        ("a.mp3".to_string(), vec![1, 2]),
        ("b.mp3".to_string(), vec![3]),
        ("a.mp3".to_string(), vec![9]),
    ]);
    assert_eq!(state.editor_music_source(), "a.mp3");
    assert_eq!(state.audio_cache, vec![("a.mp3".to_string(), vec![9]), ("b.mp3".to_string(), vec![3])]);
}

#[test]
fn export_command_queues_the_export_with_the_level_name() {
    let mut state = new_editor_state();
    state.trigger_level_export();
    assert_eq!(state.effects.last(), Some(&Effect::ExportLevel { level_name: Some("Draft".to_string()) }));
}

#[test]
fn update_audio_imports_updates_source_cache_and_invalidates_waveform_cache() {
    let bindings: Vec<egakareta::commands::KeyBinding> = Vec::new();
    let mut state = State::new(vec!["Test Level".to_string()], 16, bindings);
    state.enter_editor_phase("Test Level".to_string());
    state.set_editor_music_source("old.mp3".to_string());
    state.effects.clear();

    state.update_audio_imports(vec![("imported.mp3".to_string(), vec![1, 2, 3, 4])]);

    assert_eq!(state.editor_music_source(), "imported.mp3");
    assert_eq!(state.audio_cache, vec![("imported.mp3".to_string(), vec![1, 2, 3, 4])]);
    assert_eq!(
        state.effects,
        vec![Effect::ReloadWaveform {
            level_name: Some("Test Level".to_string()),
            source: "imported.mp3".to_string(),
        }]
    );
}

#[test]
fn importing_the_exported_metadata_gives_it_back() {
    let mut state = new_editor_state();
    state.apply_imported_level_metadata(metadata());
    let exported = state.current_editor_metadata();
    state.apply_imported_level_metadata(state.current_editor_metadata());
    let again = state.current_editor_metadata();
    assert_eq!(again.name, exported.name);
    assert_eq!(again.music_source, exported.music_source);
    assert_eq!(again.taps, vec![4, 12, 30]);
    assert_eq!(again.taps, exported.taps);
    assert_eq!(again.timeline_step, exported.timeline_step);
    assert_eq!(again.objects, exported.objects);
    assert_eq!(again.spawn, exported.spawn);
    assert!(state.editor.selected_block_indices.is_empty());
    assert!(state.history.redo.is_empty());
}
