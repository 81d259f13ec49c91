use lsl::app::App;
use lsl::app::KeyInput;
use lsl::listing::DirectoryListing;
use lsl::listing::FocusCursor;

fn names(v: &[&str]) -> Vec<String> {
    v.iter().map(|s| s.to_string()).collect()
}

#[test]
fn rebuild_shapes_full_and_partial_pages() {
    let l = DirectoryListing::rebuild(names(&["a", "b", "c", "d", "e"]), &vec![1, 2, 3, 4, 5], 2);
    assert_eq!(l.pages.len(), 3);
    assert_eq!(l.pages[0], names(&["a", "b"]));
    assert_eq!(l.pages[1], names(&["c", "d"]));
    assert_eq!(l.pages[2], names(&["e"]));
}

#[test]
fn rebuild_empty_enumeration_yields_zero_pages() {
    let l = DirectoryListing::rebuild(Vec::new(), &Vec::new(), 4);
    assert_eq!(l.pages.len(), 0);
    assert_eq!(l.max_name_width, 0);
    assert_eq!(l.max_size_width, 0);
}

#[test]
fn rebuild_exact_multiple_has_no_short_page() {
    let l = DirectoryListing::rebuild(names(&["a", "b", "c", "d"]), &vec![0, 0, 0, 0], 2);
    assert_eq!(l.pages.len(), 2);
    assert_eq!(l.pages[0].len(), 2);
    assert_eq!(l.pages[1].len(), 2);
}

#[test]
fn rebuild_concatenation_keeps_enumeration_order() {
    let l = DirectoryListing::rebuild(
        names(&["z", "m", "a", "q", "b", "x", "c"]),
        &vec![0; 7],
        3,
    );
    let mut joined: Vec<String> = Vec::new();
    for page in &l.pages {
        for name in page {
            joined.push(name.clone());
        }
    }
    assert_eq!(joined, names(&["z", "m", "a", "q", "b", "x", "c"]));
}

#[test]
fn rebuild_computes_column_maxima() {
    let l = DirectoryListing::rebuild(names(&["a", "bbbb", "cc"]), &vec![5, 12345, 99], 2);
    assert_eq!(l.max_name_width, 4);
    assert_eq!(l.max_size_width, 5);
}

#[test]
fn cursor_moves_down_within_and_across_pages() {
    let l = DirectoryListing::rebuild(names(&["a", "b", "c"]), &vec![0, 0, 0], 2);
    let mut c = FocusCursor::new();
    c.move_down(&l);
    assert_eq!((c.page_index, c.row_index), (0, 1));
    c.move_down(&l);
    assert_eq!((c.page_index, c.row_index), (1, 0));
    c.move_down(&l);
    assert_eq!((c.page_index, c.row_index), (1, 0));
}

#[test]
fn cursor_moves_up_onto_previous_pages_last_real_row() {
    let l = DirectoryListing::rebuild(names(&["a", "b", "c"]), &vec![0, 0, 0], 2);
    let mut c = FocusCursor { page_index: 1, row_index: 0 };
    c.move_up(&l);
    assert_eq!((c.page_index, c.row_index), (0, 1));
    c.move_up(&l);
    assert_eq!((c.page_index, c.row_index), (0, 0));
    c.move_up(&l);
    assert_eq!((c.page_index, c.row_index), (0, 0));
}

#[test]
fn cursor_down_then_up_returns_to_interior_position() {
    let l = DirectoryListing::rebuild(names(&["a", "b", "c", "d", "e"]), &vec![0; 5], 2);
    let start = FocusCursor { page_index: 0, row_index: 1 };
    let mut c = start;
    c.move_down(&l);
    assert_eq!((c.page_index, c.row_index), (1, 0));
    c.move_up(&l);
    assert_eq!(c, start);
}

#[test]
fn cursor_is_inert_over_empty_listing() {
    let l = DirectoryListing::rebuild(Vec::new(), &Vec::new(), 3);
    let mut c = FocusCursor::new();
    c.move_down(&l);
    assert_eq!((c.page_index, c.row_index), (0, 0));
    c.move_up(&l);
    assert_eq!((c.page_index, c.row_index), (0, 0));
}

#[test]
fn three_entries_at_capacity_two_navigate_as_two_pages() {
    let mut app = App::new(30, 4);
    app.apply_listing(
        "/tmp/demo".to_string(),
        names(&["a.txt", "b", "c.rs"]),
        &vec![1, 2, 3],
    );
    assert_eq!(app.listing.pages.len(), 2);
    assert_eq!(app.listing.pages[0], names(&["a.txt", "b"]));
    assert_eq!(app.listing.pages[1], names(&["c.rs"]));
    assert_eq!((app.cursor.page_index, app.cursor.row_index), (0, 0));
    app.key_read(KeyInput::Char('j'));
    assert_eq!((app.cursor.page_index, app.cursor.row_index), (0, 1));
    app.key_read(KeyInput::Char('j'));
    assert_eq!((app.cursor.page_index, app.cursor.row_index), (1, 0));
    app.key_read(KeyInput::Char('j'));
    assert_eq!((app.cursor.page_index, app.cursor.row_index), (1, 0));
}

#[test]
fn rebuild_resets_cursor_and_recomputes_capacity() {
    let mut app = App::new(30, 5);
    app.apply_listing("/x".to_string(), names(&["a", "b", "c", "d"]), &vec![0; 4]);
    assert_eq!(app.listing.capacity, 3);
    app.key_read(KeyInput::Char('j'));
    app.key_read(KeyInput::Char('j'));
    assert_eq!((app.cursor.page_index, app.cursor.row_index), (0, 2));
    app.set_viewport(30, 4);
    app.apply_listing("/x".to_string(), names(&["a", "b", "c", "d"]), &vec![0; 4]);
    assert_eq!(app.listing.capacity, 2);
    assert_eq!(app.listing.pages.len(), 2);
    assert_eq!((app.cursor.page_index, app.cursor.row_index), (0, 0));
}
