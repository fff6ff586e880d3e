use egakareta::explorer::{normalized_group_path, object_name_seed, ObjectLabel, Outline};
use egakareta::naming::first_free_name;
use egakareta::commands::KeyBinding;
use egakareta::state::State;
use egakareta::types::Vec3i;

fn strings(v: &[&str]) -> Vec<String> {
    v.iter().map(|s| s.to_string()).collect()
}

fn label(name: &str, path: &[&str]) -> ObjectLabel {
    ObjectLabel { name: name.to_string(), group_path: strings(path) }
}

fn paths(outline: &Outline) -> Vec<Vec<String>> {
    outline.labels.iter().map(|l| l.group_path.clone()).collect()
}

#[test]
fn group_paths_split_on_slashes_and_drop_blank_segments() {
    let path = strings(&[" a / b ", "", "//c", "  "]);
    assert_eq!(normalized_group_path(&path), strings(&["a", "b", "c"]));
    assert!(normalized_group_path(&strings(&[" / ", ""])).is_empty());
}

#[test]
fn name_seed_falls_back_to_block() {
    assert_eq!(object_name_seed("  Grass "), "Grass");
    assert_eq!(object_name_seed("   "), "Block");
}

#[test]
fn first_free_name_takes_the_smallest_unused_number() {
    let taken = strings(&["block 1", "block 3"]);
    assert_eq!(first_free_name(&taken, "Block "), "Block 2");
    assert_eq!(first_free_name(&Vec::new(), "Group "), "Group 1");
}

#[test]
fn new_object_names_ignore_case_and_spaces() {
    let outline = Outline { labels: vec![label(" BLOCK 1 ", &[]), label("block 2", &[]), label("", &[])] };
    assert_eq!(outline.next_unique_object_name("Block"), "Block 3");
    assert_eq!(outline.next_unique_object_name("Grass"), "Grass 1");
}

#[test]
fn default_names_trim_or_number_each_block() {
    let mut outline = Outline { labels: vec![label("  Tower ", &[]), label("", &[]), label(" ", &[])] };
    let displays = strings(&["Standard", "Grass", ""]);
    outline.assign_default_names_for_indices(&vec![0, 1, 2, 7], &displays);
    assert_eq!(outline.labels[0].name, "Tower");
    assert_eq!(outline.labels[1].name, "Grass 1");
    assert_eq!(outline.labels[2].name, "Block 1");
}

#[test]
fn renaming_an_object_trims_and_reports_change() {
    let mut outline = Outline { labels: vec![label("Tower", &[])] };
    assert!(!outline.rename_object(0, "  Tower  "));
    assert!(outline.rename_object(0, " Gate "));
    assert_eq!(outline.labels[0].name, "Gate");
    assert!(!outline.rename_object(3, "Other"));
}

#[test]
fn creating_a_group_nests_it_in_the_common_parent() {
    let mut outline = Outline {
        labels: vec![
            label("a", &["World", "Left"]),
            label("b", &["World", "Right", "Deep"]),
            label("c", &["World", "Group 1"]),
            label("d", &[]),
        ],
    };
    assert!(outline.create_group_from_selection(&vec![0, 1]));
    assert_eq!(
        paths(&outline),
        vec![
            strings(&["World", "Group 2", "Left"]),
            strings(&["World", "Group 2", "Right", "Deep"]),
            strings(&["World", "Group 1"]),
            strings(&[]),
        ]
    );
    assert!(!outline.create_group_from_selection(&vec![]));
}

#[test]
fn renaming_a_group_moves_everything_inside_it() {
    let mut outline = Outline {
        labels: vec![label("a", &["World", "Left"]), label("b", &["World", "Left", "Deep"]), label("c", &["Other"])],
    };
    assert!(!outline.rename_group(&strings(&["World / Left"]), "  Left "));
    assert!(!outline.rename_group(&strings(&["Nowhere"]), "X"));
    assert!(outline.rename_group(&strings(&["World / Left"]), " East "));
    assert_eq!(
        paths(&outline),
        vec![strings(&["World", "East"]), strings(&["World", "East", "Deep"]), strings(&["Other"])]
    );
}

#[test]
fn moving_the_selection_to_a_group_normalizes_the_path() {
    let mut outline = Outline { labels: vec![label("a", &[]), label("b", &["X"]), label("c", &[])] };
    let target = strings(&[" Set / Piece "]);
    assert!(outline.move_selected_to_group(&vec![0, 1], Some(&target)));
    assert_eq!(paths(&outline), vec![strings(&["Set", "Piece"]), strings(&["Set", "Piece"]), strings(&[])]);
    assert!(!outline.move_selected_to_group(&vec![0, 1], Some(&target)));
    assert!(outline.move_selected_to_group(&vec![1], None));
    assert!(outline.labels[1].group_path.is_empty());
}

fn editor_with_blocks(n: usize) -> State {
    let bindings: Vec<KeyBinding> = Vec::new();
    let mut state = State::new(vec!["Explorer".to_string()], 16, bindings);
    state.enter_editor_phase("Explorer".to_string());
    for k in 0..n {
        state.editor.cursor = Vec3i { x: k as i64 * 1000, y: 0, z: 0 };
        state.place_editor_block();
    }
    state.history.undo.clear();
    state
}

#[test]
fn placing_and_removing_blocks_keeps_one_label_each() {
    let mut state = editor_with_blocks(3);
    assert_eq!(state.editor.labels.len(), 3);
    assert!(state.editor.labels.iter().all(|l| l.name.is_empty() && l.group_path.is_empty()));
    state.editor.selected_block_indices = vec![0, 2];
    state.editor_remove_block();
    assert_eq!(state.editor.objects.len(), 1);
    assert_eq!(state.editor.labels.len(), 1);
}

#[test]
fn renaming_from_the_explorer_records_and_undoes() {
    let mut state = editor_with_blocks(2);
    state.editor_rename_object_from_explorer(0, "  Tower ".to_string());
    assert_eq!(state.editor.labels[0].name, "Tower");
    assert_eq!(state.history.undo.len(), 1);
    state.editor_rename_object_from_explorer(0, "Tower".to_string());
    assert_eq!(state.history.undo.len(), 1);
    state.editor_rename_object_from_explorer(5, "Gate".to_string());
    assert_eq!(state.history.undo.len(), 1);
    state.editor_undo();
    assert_eq!(state.editor.labels[0].name, "");
}

#[test]
fn grouping_renaming_and_moving_from_the_explorer() {
    let mut state = editor_with_blocks(3);
    state.editor.selected_block_indices = vec![0, 1];
    state.editor_create_group_from_selection();
    assert_eq!(state.editor.labels[0].group_path, strings(&["Group 1"]));
    assert_eq!(state.editor.labels[1].group_path, strings(&["Group 1"]));
    assert!(state.editor.labels[2].group_path.is_empty());

    state.editor_rename_group(strings(&[" Group 1 "]), "Walls".to_string());
    assert_eq!(state.editor.labels[0].group_path, strings(&["Walls"]));

    state.editor.selected_block_indices = vec![1];
    state.editor_move_selected_to_group(None);
    assert!(state.editor.labels[1].group_path.is_empty());
    assert_eq!(state.history.undo.len(), 3);

    state.editor_undo();
    assert_eq!(state.editor.labels[1].group_path, strings(&["Walls"]));
}
