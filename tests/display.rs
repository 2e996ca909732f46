use workshop_fetch::display::{display_path, first_line};

#[test]
fn first_line_stops_at_line_break() {
    assert_eq!(first_line("A fine plane\nWith more text"), "A fine plane");
    assert_eq!(first_line("\nsecond"), "");
}

#[test]
fn first_line_of_single_line_is_whole() {
    assert_eq!(first_line("only line"), "only line");
    assert_eq!(first_line(""), "");
}

#[test]
fn verbatim_prefix_is_removed() {
    assert_eq!(display_path("\\\\?\\C:\\out"), "C:\\out");
}

#[test]
fn other_paths_are_kept() {
    assert_eq!(display_path("C:\\out"), "C:\\out");
    assert_eq!(display_path("/home/u/out"), "/home/u/out");
    assert_eq!(display_path("\\\\?"), "\\\\?");
}
