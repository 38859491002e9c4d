use fsel::navigation::{
    handle_mouse_event, initial_selection, handle_submit, matches_binding, move_selection, move_to_first,
    move_to_last, next_clip_row, previous_clip_row, selected_output, selection_marker, step_clip_selection,
    visible_selection, ListCursor, ListMetrics, MouseKind, SubmitOutcome,
};

fn cursor(selected: Option<usize>, scroll_offset: usize) -> ListCursor {
    ListCursor {
        selected,
        scroll_offset,
    }
}

#[test]
fn selected_output_returns_original_line_number() {
    // The second shown row came from line 4 of the input.
    let output = selected_output(true, false, None, 1, 4, "4 Shutdown");

    assert_eq!(output, "4");
}

#[test]
fn selected_output_prefers_index_then_columns_then_line() {
    assert_eq!(selected_output(false, true, None, 1, 4, "4 Shutdown"), "1");
    assert_eq!(selected_output(false, false, Some("left"), 0, 1, "left right"), "left");
    assert_eq!(selected_output(false, false, None, 0, 1, "left right"), "left right");
}

#[test]
fn submit_returns_query_when_nothing_is_selected() {
    let mut c = cursor(None, 0);
    assert_eq!(handle_submit(&mut c, 0, "typed", false, false), SubmitOutcome::PrintQuery);
    assert_eq!(handle_submit(&mut c, 0, "typed", false, true), SubmitOutcome::Continue);
    assert_eq!(handle_submit(&mut c, 0, "", false, false), SubmitOutcome::Exit);
    let mut one = cursor(None, 0);
    assert_eq!(handle_submit(&mut one, 1, "x", true, false), SubmitOutcome::PrintRow(0));
    assert_eq!(one.selected, Some(0));
    let mut sel = cursor(Some(2), 0);
    assert_eq!(handle_submit(&mut sel, 3, "", false, false), SubmitOutcome::PrintRow(2));
}

#[test]
fn selection_wraps_unless_hard_stop() {
    let mut c = cursor(Some(2), 0);
    move_selection(&mut c, 3, 1, 0, false, 10);
    assert_eq!(c, cursor(Some(0), 0));
    move_selection(&mut c, 3, -1, 0, false, 10);
    assert_eq!(c, cursor(Some(2), 0));
    move_selection(&mut c, 3, 1, 0, true, 10);
    assert_eq!(c, cursor(Some(2), 0));
    let mut none = cursor(None, 0);
    move_selection(&mut none, 3, 1, 0, false, 10);
    assert_eq!(none, cursor(None, 0));
}

#[test]
fn rotation_reverses_direction_and_scroll_follows() {
    let mut c = cursor(Some(1), 0);
    move_selection(&mut c, 5, 1, 180, false, 2);
    assert_eq!(c, cursor(Some(0), 0));
    move_selection(&mut c, 5, 1, 180, false, 2);
    assert_eq!(c, cursor(Some(4), 3));
    let mut d = cursor(Some(1), 0);
    move_selection(&mut d, 5, 1, 0, false, 2);
    assert_eq!(d, cursor(Some(2), 1));
    move_selection(&mut d, 5, 1, 0, false, 0);
    assert_eq!(d, cursor(Some(3), 0));
}

#[test]
fn first_and_last_rows() {
    let mut c = cursor(Some(3), 2);
    move_to_first(&mut c, 5);
    assert_eq!(c, cursor(Some(0), 0));
    move_to_last(&mut c, 5, 2);
    assert_eq!(c, cursor(Some(4), 3));
    move_to_last(&mut c, 5, 10);
    assert_eq!(c, cursor(Some(4), 0));
    let mut empty = cursor(None, 1);
    move_to_last(&mut empty, 0, 3);
    move_to_first(&mut empty, 0);
    assert_eq!(empty, cursor(None, 1));
}

#[test]
fn mouse_moves_select_clicks_print_and_wheel_scrolls() {
    let mut c = cursor(Some(0), 2);
    assert_eq!(handle_mouse_event(&mut c, 10, Some(1), MouseKind::Moved, 4), None);
    assert_eq!(c, cursor(Some(3), 2));
    assert_eq!(handle_mouse_event(&mut c, 10, Some(2), MouseKind::LeftDown, 4), Some(4));
    assert_eq!(c, cursor(Some(3), 2));
    assert_eq!(handle_mouse_event(&mut c, 10, Some(0), MouseKind::ScrollUp, 4), None);
    assert_eq!(c, cursor(Some(1), 1));
    assert_eq!(handle_mouse_event(&mut c, 10, Some(0), MouseKind::ScrollDown, 4), None);
    assert_eq!(c, cursor(Some(2), 2));
    assert_eq!(handle_mouse_event(&mut c, 10, None, MouseKind::ScrollDown, 4), None);
    assert_eq!(c, cursor(Some(2), 2));
    assert_eq!(handle_mouse_event(&mut c, 3, Some(3), MouseKind::Moved, 4), None);
    assert_eq!(c, cursor(Some(2), 2));
}

#[test]
fn configured_bindings_also_match_special_keys_without_modifiers() {
    assert!(matches_binding(true, false, false));
    assert!(matches_binding(false, true, true));
    assert!(!matches_binding(false, false, true));
    assert!(!matches_binding(false, true, false));
}

#[test]
fn clipboard_rows_wrap_unless_hard_stop() {
    assert_eq!(next_clip_row(1, 3, false), 2);
    assert_eq!(next_clip_row(2, 3, false), 0);
    assert_eq!(next_clip_row(2, 3, true), 2);
    assert_eq!(next_clip_row(5, 0, false), 5);
    assert_eq!(previous_clip_row(0, 3, false), 2);
    assert_eq!(previous_clip_row(0, 3, true), 0);
    assert_eq!(previous_clip_row(0, 0, false), 0);
}

#[test]
fn list_rows_map_to_apps_by_row_height() {
    let m = ListMetrics {
        list_content_start: 5,
        max_visible: 3,
        row_height: 2,
    };
    assert!(!m.contains_row(4));
    assert!(m.contains_row(5));
    assert!(m.contains_row(10));
    assert!(!m.contains_row(11));
    assert_eq!(m.app_index_for_row(8, 1, 10), Some(2));
    assert_eq!(m.app_index_for_row(8, 9, 10), None);
    assert_eq!(m.app_index_for_row(3, 0, 10), None);
    let mut c = cursor(Some(0), 4);
    m.snap_selection_to_mouse(&mut c, 10, 7);
    assert_eq!(c, cursor(Some(5), 4));
    m.snap_selection_to_mouse(&mut c, 5, 9);
    assert_eq!(c, cursor(Some(5), 4));
}

#[test]
fn initial_selection_prefers_text_then_index_then_first() {
    let shown: Vec<String> = vec!["Alpha".into(), "Beta Max".into(), "gamma".into()];
    assert_eq!(initial_selection(&shown, Some("MAX"), Some(2)), Some(1));
    assert_eq!(initial_selection(&shown, Some("zzz"), Some(2)), Some(0));
    assert_eq!(initial_selection(&shown, None, Some(2)), Some(2));
    assert_eq!(initial_selection(&shown, None, Some(9)), Some(0));
    assert_eq!(initial_selection(&shown, None, None), Some(0));
    assert_eq!(initial_selection(&Vec::new(), Some("a"), Some(0)), None);
    assert_eq!(initial_selection(&shown, Some(""), None), Some(0));
}

#[test]
fn submit_returns_query_when_no_selection_and_only_match_is_disabled() {
    // "typed" matches none of the rows, so nothing is shown or selected.
    let mut ui = cursor(None, 0);

    let outcome = handle_submit(&mut ui, 0, "typed", false, false);

    assert_eq!(outcome, SubmitOutcome::PrintQuery);
}

#[test]
fn submit_uses_accept_nth_output_when_requested() {
    // One row "left:right"; its first whitespace-separated column is the
    // whole line.
    let mut ui = cursor(Some(0), 0);
    let outcome = handle_submit(&mut ui, 1, "", false, false);
    assert_eq!(outcome, SubmitOutcome::PrintRow(0));

    let output = selected_output(false, false, Some("left:right"), 0, 1, "left:right");
    assert_eq!(output, "left:right");
}

#[test]
fn visible_selection_is_relative_to_the_first_shown_row() {
    assert_eq!(visible_selection(Some(7), 5, 3), Some(2));
    assert_eq!(visible_selection(Some(8), 5, 3), None);
    assert_eq!(visible_selection(Some(4), 5, 3), None);
    assert_eq!(visible_selection(None, 0, 3), None);
    assert_eq!(visible_selection(Some(0), 0, 0), None);
}

#[test]
fn selection_marker_is_the_marker_and_a_space() {
    assert_eq!(selection_marker(true, ">"), "> ");
    assert_eq!(selection_marker(false, ">"), "");
    assert_eq!(selection_marker(true, ""), "");
}

#[test]
fn clipboard_steps_scroll_the_selection_into_view() {
    let mut c = cursor(Some(4), 2);
    step_clip_selection(&mut c, 10, true, false, 3);
    assert_eq!(c, cursor(Some(5), 3));
    let mut last = cursor(Some(9), 7);
    step_clip_selection(&mut last, 10, true, false, 3);
    assert_eq!(last, cursor(Some(0), 0));
    let mut stop = cursor(Some(9), 7);
    step_clip_selection(&mut stop, 10, true, true, 3);
    assert_eq!(stop, cursor(Some(9), 7));
    let mut first = cursor(Some(0), 0);
    step_clip_selection(&mut first, 10, false, false, 3);
    assert_eq!(first, cursor(Some(9), 7));
    let mut none = cursor(None, 0);
    step_clip_selection(&mut none, 10, true, false, 3);
    assert_eq!(none, cursor(None, 0));
}
