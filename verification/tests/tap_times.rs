use egakareta::tap_times::TapTimeline;
use egakareta::types::Vec3i;

fn v(x: i64, y: i64, z: i64) -> Vec3i {
    Vec3i { x, y, z }
}

#[test]
fn toggle_tap_at_cursor_adds_then_removes_indicator() {
    let mut taps = TapTimeline::new();
    let cursor = v(1000, 0, 2000);

    let (added_time, added) = taps.toggle_tap_at_cursor(cursor, 2000, 1875);
    assert!(added);
    assert_eq!(added_time, Some(1875));
    assert_eq!(taps.times.len(), 1);
    assert_eq!(taps.indicators.len(), 1);
    assert_eq!(taps.selected, Some(0));

    let (removed_time, added_again) = taps.toggle_tap_at_cursor(cursor, 2000, 9999);
    assert!(!added_again);
    assert_eq!(removed_time, Some(1875));
    assert!(taps.times.is_empty());
    assert!(taps.indicators.is_empty());
    assert_eq!(taps.selected, None);
}

#[test]
fn toggling_removes_the_tap_nearest_in_time() {
    let mut taps = TapTimeline::new();
    let cell = v(0, 0, 4000);
    taps.add_tap_with_indicator(1000, cell);
    taps.add_tap_with_indicator(3000, cell);
    taps.add_tap_with_indicator(2000, v(5000, 0, 0));
    assert_eq!(taps.times, vec![1000, 2000, 3000]);
    taps.set_selected_tap_index(Some(2));

    let (removed, added) = taps.toggle_tap_at_cursor(cell, 2600, 0);
    assert!(!added);
    assert_eq!(removed, Some(3000));
    assert_eq!(taps.times, vec![1000, 2000]);
    assert_eq!(taps.selected, None);
}

#[test]
fn selected_tap_time_input_updates_time_and_preserves_selection() {
    let mut taps = TapTimeline::new();
    taps.add_tap_with_indicator(500, v(0, 0, 4000));
    taps.add_tap_with_indicator(1500, v(8000, 0, 4000));
    taps.add_tap_with_indicator(2500, v(8000, 0, 12000));
    taps.set_selected_tap_index(Some(1));

    assert!(taps.set_selected_tap_time(250, 4000));
    assert_eq!(taps.times, vec![250, 500, 2500]);
    assert_eq!(taps.selected, Some(0));
    assert_eq!(taps.selected_tap(), Some((0, 250, v(8000, 0, 4000))));

    assert!(!taps.set_selected_tap_time(250, 4000));
    assert!(taps.set_selected_tap_time(9000, 4000));
    assert_eq!(taps.times, vec![500, 2500, 4000]);
    assert_eq!(taps.selected, Some(2));
}

#[test]
fn removal_moves_a_later_selection_down() {
    let mut taps = TapTimeline::new();
    taps.add_tap_with_indicator(100, v(0, 0, 0));
    taps.add_tap_with_indicator(200, v(1000, 0, 0));
    taps.set_selected_tap_index(Some(1));
    taps.adjust_selected_tap_after_removal(0);
    assert_eq!(taps.selected, Some(0));
    taps.set_selected_tap_index(Some(7));
    assert_eq!(taps.selected, None);
}
