use quantum_launcher::app_state::App;
use quantum_launcher::log_view::{log_window, wrap_log_lines};

fn strings(v: &[&str]) -> Vec<String> {
    v.iter().map(|x| x.to_string()).collect()
}

#[test]
fn long_lines_wrap_into_rows_of_the_width() {
    let rows = wrap_log_lines(&strings(&["abcdefgh", "", "ab cd"]), 3);
    assert_eq!(rows, strings(&["abc", "def", "gh", "", "ab", "cd"]));
}

#[test]
fn zero_width_counts_as_one_column() {
    let rows = wrap_log_lines(&strings(&["ab"]), 0);
    assert_eq!(rows, strings(&["a", "b"]));
}

#[test]
fn window_ends_offset_rows_above_the_bottom() {
    let rows = strings(&["1", "2", "3", "4", "5"]);
    assert_eq!(log_window(&rows, 2, 0), (strings(&["4", "5"]), 0));
    assert_eq!(log_window(&rows, 2, 1), (strings(&["3", "4", "5"]), 1));
    assert_eq!(log_window(&rows, 2, 9), (rows.clone(), 3));
    assert_eq!(log_window(&rows, 9, 4), (rows.clone(), 0));
    assert_eq!(log_window(&Vec::new(), 3, 2), (Vec::new(), 0));
}

#[test]
fn game_log_view_keeps_the_offset_in_range() {
    let mut app = App::new();
    app.logs.game_logs = strings(&["1", "2", "3", "4", "5"]);
    app.logs.logs_offset = 10;
    let rows = app.logs.game_log_view(10, 2);
    assert_eq!(rows, strings(&["1", "2", "3", "4", "5"]));
    assert_eq!(app.logs.logs_offset, 3);
    assert_eq!(app.logs.logs_visible_lines, 2);
}

#[test]
fn instance_without_output_has_no_view() {
    let mut app = App::new();
    app.logs.instance_logs_offset = 4;
    assert_eq!(app.logs.instance_log_view("pack", 10, 0), None);
    assert_eq!(app.logs.instance_logs_offset, 4);
    assert_eq!(app.logs.instance_logs_visible_lines, 1);
    app.logs.instance_logs.push_line("pack", "hello world");
    let rows = app.logs.instance_log_view("pack", 5, 3);
    assert_eq!(rows, Some(strings(&["hello", "world"])));
    assert_eq!(app.logs.instance_logs_offset, 0);
}
