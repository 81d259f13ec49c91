use lsl::app::App;
use lsl::app::KeyInput;
use lsl::textbox::Color;
use lsl::textbox::Style;
use lsl::textbox::TextBox;
use lsl::textbox::Title;
use lsl::textline::TextLine;
use lsl::ui::EntryMeta;
use lsl::ui::entry_name_color;
use lsl::window::Window;

fn names(v: &[&str]) -> Vec<String> {
    v.iter().map(|s| s.to_string()).collect()
}

fn app_with(entries: &[&str], width: u16, height: u16) -> App {
    let mut app = App::new(width, height);
    let sizes: Vec<u64> = entries.iter().map(|_| 0u64).collect();
    app.apply_listing("/d".to_string(), names(entries), &sizes);
    app
}

#[test]
fn text_box_pads_to_its_width() {
    let b = TextBox::new(Color::White, 5, 1);
    assert_eq!(b.put("ab".to_string()), "ab   ");
    assert_eq!(b.put("abcde".to_string()), "abcde");
}

#[test]
fn text_box_passes_overlong_text_through_unpadded() {
    let b = TextBox::new(Color::White, 2, 1);
    assert_eq!(b.put("abcd".to_string()), "abcd");
}

#[test]
fn text_box_blank_counts_the_missing_columns() {
    let b = TextBox::new(Color::White, 5, 1);
    assert_eq!(b.blank("ab".to_string()), "   ");
    assert_eq!(b.blank("abcdef".to_string()), "");
}

#[test]
fn bordered_box_draws_rule_pairs_instead_of_text() {
    let mut b = TextBox::new(Color::Cyan, 5, 1);
    let bordered = b.style(Style::Border);
    assert_eq!(bordered.put("xyz".to_string()), "┌───┐\n└───┘");
}

#[test]
fn title_set_draws_a_ten_column_border() {
    let mut t = Title::new(7);
    assert_eq!(t.set("x".to_string()), "┌────────┐\n└────────┘");
}

#[test]
fn text_line_blank_fills_to_the_target_width() {
    let mut line = TextLine::new(10);
    line.create_text_box(Color::White, 4, 1);
    line.put("abcd".to_string());
    line.blank();
    assert_eq!(line.out.len(), 2);
    assert_eq!(line.out[1].text, "      ");
}

#[test]
fn text_line_blank_is_a_no_op_at_the_target_width() {
    let mut line = TextLine::new(4);
    line.create_text_box(Color::White, 4, 1);
    line.put("abcd".to_string());
    line.blank();
    assert_eq!(line.out.len(), 1);
}

#[test]
fn text_line_blank_never_underflows_past_the_target() {
    let mut line = TextLine::new(2);
    line.create_text_box(Color::White, 5, 1);
    line.put("abcde".to_string());
    line.blank();
    assert_eq!(line.out.len(), 1);
    assert_eq!(line.now_width, 5);
}

#[test]
fn text_line_rule_style_fills_with_dashes() {
    let mut line = TextLine::new(6);
    line.set_beam_style(1);
    line.create_text_box(Color::White, 2, 1);
    line.put("ab".to_string());
    line.blank();
    assert_eq!(line.out[1].text, "────");
}

#[test]
fn text_line_separator_and_markers() {
    let mut line = TextLine::new(20);
    line.focus();
    line.separate();
    assert_eq!(line.out[0].text, "> ");
    assert_eq!(line.out[1].text, " │ ");
    assert_eq!(line.now_width, 5);
    let mut other = TextLine::new(20);
    other.unfocus();
    assert_eq!(other.out[0].text, "  ");
}

#[test]
fn window_top_line_carries_the_title_into_a_rule() {
    let mut win = Window::new();
    win.set_width(12);
    win.set_title("[t]".to_string());
    let row = win.top_line();
    assert_eq!(row.len(), 2);
    assert_eq!(row[0].text, "[t]");
    assert_eq!(row[0].color, Color::Blue);
    assert_eq!(row[1].text, "─────────");
    assert_eq!(win.now_cursor_y, 1);
}

#[test]
fn window_put_pads_content_to_the_content_width() {
    let mut win = Window::new();
    win.set_width(12);
    win.set_color(Color::Red);
    let row = win.put("abc".to_string());
    assert_eq!(row.len(), 2);
    assert_eq!(row[0].color, Color::Red);
    assert_eq!(row[0].text, "abc");
    assert_eq!(row[1].text, "      ");
    assert_eq!(win.now_cursor_y, 1);
    win.put("next".to_string());
    assert_eq!(win.now_cursor_y, 2);
}

#[test]
fn window_set_title_appends() {
    let mut win = Window::new();
    win.set_title("[a".to_string());
    win.set_title("b]".to_string());
    assert_eq!(win.window_title, "[ab]");
}

#[test]
fn name_colors_follow_kind_and_extension() {
    assert_eq!(entry_name_color("src", true), Color::DarkBlue);
    assert_eq!(entry_name_color("main.rs", false), Color::Rgb(255, 158, 101));
    assert_eq!(entry_name_color("a.txt", false), Color::White);
    assert_eq!(entry_name_color("noext", false), Color::White);
}

#[test]
fn frame_shows_title_entries_filler_and_border() {
    let mut app = App::new(20, 4);
    app.apply_listing("/d".to_string(), names(&["a.txt"]), &vec![10]);
    let metas = vec![
        EntryMeta {
            name: "a.txt".to_string(),
            size: 10,
            mode_bits: 0o100644,
            created: "2024/05/07 09:30".to_string(),
            is_dir: false,
        },
    ];
    let frame = app.ui(metas);
    assert_eq!(frame.len(), 4);

    assert_eq!(frame[0][0].text, "┌");
    assert_eq!(frame[0][1].text, "/d");
    assert_eq!(frame[0][1].color, Color::Cyan);
    assert_eq!(frame[0][3].text, "1");
    assert_eq!(frame[0][5].text, "1");
    assert_eq!(frame[0][8].text, "┐");

    assert_eq!(frame[1][0].text, "│ ");
    assert_eq!(frame[1][1].text, "> ");
    assert_eq!(frame[1][2].text, "rw-r--r--");
    assert_eq!(frame[1][4].text, "10");
    assert_eq!(frame[1][5].text, " B");
    assert_eq!(frame[1][7].text, "2024/05/07 09:30");
    assert_eq!(frame[1][9].text, "a.txt");
    assert_eq!(frame[1][frame[1].len() - 1].text, "│");

    assert_eq!(frame[2][0].text, "│");
    assert_eq!(frame[2][1].text, "                  ");
    assert_eq!(frame[2][2].text, "│");

    assert_eq!(frame[3].len(), 1);
    assert_eq!(frame[3][0].text, "└──────────────────┘");
}

#[test]
fn unfocused_rows_carry_the_spacer_marker() {
    let mut app = App::new(40, 5);
    app.apply_listing("/d".to_string(), names(&["a", "b"]), &vec![1, 2]);
    let metas = vec![
        EntryMeta {
            name: "a".to_string(),
            size: 1,
            mode_bits: 0o100644,
            created: "t".to_string(),
            is_dir: false,
        },
        EntryMeta {
            name: "b".to_string(),
            size: 2,
            mode_bits: 0o100644,
            created: "t".to_string(),
            is_dir: false,
        },
    ];
    let frame = app.ui(metas);
    assert_eq!(frame[1][1].text, "> ");
    assert_eq!(frame[2][1].text, "  ");
}

#[test]
fn empty_prefix_lists_the_whole_page_as_candidates() {
    let mut app = app_with(&["foo", "foobar", "bar"], 20, 6);
    app.key_read(KeyInput::Char('n'));
    let frame = app.ui(Vec::new());
    assert_eq!(frame.len(), 6);
    assert_eq!(frame[2][0].text, "foo");
    assert_eq!(frame[3][0].text, "foobar");
    assert_eq!(frame[4][0].text, "bar");
    assert_eq!(frame[1][0].text, "[add new file]");
    assert_eq!(frame[5][0].text, "└[");
    assert_eq!(frame[5][3].text, "]┘");
}

#[test]
fn matching_prefix_lists_only_its_candidates() {
    let mut app = app_with(&["foo", "foobar", "bar"], 20, 5);
    app.key_read(KeyInput::Char(' '));
    app.key_read(KeyInput::Char('f'));
    app.key_read(KeyInput::Char('f'));
    app.key_read(KeyInput::Char('o'));
    app.key_read(KeyInput::Char('o'));
    let frame = app.ui(Vec::new());
    assert_eq!(frame[1][0].text, "[file open]");
    assert_eq!(frame[2][0].text, "foo");
    assert_eq!(frame[2][0].color, Color::Blue);
    assert_eq!(frame[3][0].text, "foobar");
    assert_eq!(frame[4][1].text, "foo");
}

#[test]
fn non_matching_prefix_routes_to_the_not_found_popup() {
    let mut app = app_with(&["foo", "foobar", "bar"], 20, 5);
    app.key_read(KeyInput::Char('n'));
    app.key_read(KeyInput::Char('z'));
    app.key_read(KeyInput::Char('z'));
    let frame = app.ui(Vec::new());
    assert_eq!(frame[3][0].text, "Not found");
    assert_eq!(frame[3][0].color, Color::Red);
    assert_eq!(frame[2][0].text, "");
    assert_eq!(frame[4][1].text, "zz");
}

#[test]
fn command_mode_shows_the_input_line_over_the_bottom_border() {
    let mut app = app_with(&["a"], 20, 5);
    app.key_read(KeyInput::Char(':'));
    app.key_read(KeyInput::Char('a'));
    app.key_read(KeyInput::Char('b'));
    let frame = app.ui(Vec::new());
    assert_eq!(frame[3][0].text, "[command mode]");
    assert_eq!(frame[4][0].text, "└[");
    assert_eq!(frame[4][1].text, "ab");
    assert_eq!(frame[4][2].text, "              ");
    assert_eq!(frame[4][3].text, "]┘");
}

#[test]
fn delete_confirmation_names_the_focused_entry() {
    let mut app = app_with(&["dir1"], 24, 5);
    app.key_read(KeyInput::Char('d'));
    let frame = app.ui(Vec::new());
    assert_eq!(frame[3][0].text, "remove \"dir1\" ? [Y/N]");
    assert_eq!(frame[3][0].color, Color::Red);
    assert_eq!(frame[2][0].text, "");
}

#[test]
fn auto_correct_popup_lists_candidates_under_its_title() {
    let app = app_with(&["foo"], 20, 6);
    let rows = app.draw_auto_correct(names(&["foo", "foobar"]), "[file open]");
    assert_eq!(rows.len(), 3);
    assert_eq!(rows[0][0].text, "[file open]");
    assert_eq!(rows[1][0].text, "foo");
    assert_eq!(rows[2][0].text, "foobar");
    assert_eq!(rows[2][0].color, Color::Blue);
}

#[test]
fn auto_correct_popup_without_candidates_shows_not_found() {
    let app = app_with(&["foo"], 20, 6);
    let rows = app.draw_auto_correct(Vec::new(), "[file open]");
    assert_eq!(rows.len(), 2);
    assert_eq!(rows[0][0].text, "");
    assert_eq!(rows[1][0].text, "Not found");
    assert_eq!(rows[1][0].color, Color::Red);
}

#[test]
fn command_window_shows_rule_and_buffer() {
    let app = app_with(&["foo"], 20, 6);
    let rows = app.draw_command_window("[command mode]", &"ab".to_string());
    assert_eq!(rows.len(), 2);
    assert_eq!(rows[0][0].text, "[command mode]");
    assert_eq!(rows[1][0].text, "└[");
    assert_eq!(rows[1][1].text, "ab");
}

#[test]
fn remove_popup_names_the_focused_entry() {
    let app = app_with(&["dir1"], 24, 6);
    let rows = app.draw_remove_file();
    assert_eq!(rows.len(), 2);
    assert_eq!(rows[1][0].text, "remove \"dir1\" ? [Y/N]");
    assert_eq!(rows[1][0].color, Color::Red);
}

#[test]
fn title_counts_pages_without_stray_padding() {
    let mut app = App::new(30, 4);
    app.apply_listing("/d".to_string(), names(&["a", "b", "c"]), &vec![0, 0, 0]);
    let frame = app.ui(Vec::new());
    assert_eq!(frame[0][3].text, "1");
    assert_eq!(frame[0][4].text, "/");
    assert_eq!(frame[0][5].text, "2");
    assert_eq!(frame[0][6].text, "]");
}
