use lsl::app::Action;
use lsl::app::App;
use lsl::app::KeyInput;
use lsl::window::Mode;

fn names(v: &[&str]) -> Vec<String> {
    v.iter().map(|s| s.to_string()).collect()
}

fn app_with(entries: &[&str], width: u16, height: u16) -> App {
    let mut app = App::new(width, height);
    let sizes: Vec<u64> = entries.iter().map(|_| 0u64).collect();
    app.apply_listing("/demo".to_string(), names(entries), &sizes);
    app
}

fn type_chars(app: &mut App, text: &str) {
    for c in text.chars() {
        app.key_read(KeyInput::Char(c));
    }
}

#[test]
fn colon_ls_enter_spawns_and_rebuilds_with_cleared_buffer() {
    let mut app = app_with(&["a", "b"], 40, 6);
    app.key_read(KeyInput::Char(':'));
    assert!(matches!(app.mode, Mode::Command { .. }));
    type_chars(&mut app, "ls");
    match &app.mode {
        Mode::Command { buffer } => assert_eq!(buffer, "ls"),
        _ => panic!("expected command mode"),
    }
    let action = app.key_read(KeyInput::Enter);
    match action {
        Action::RunCommand { program, args } => {
            assert_eq!(program, "ls");
            assert_eq!(args, Vec::<String>::new());
        },
        _ => panic!("expected a spawned command"),
    }
    assert!(matches!(app.mode, Mode::Normal));
    let follow_up = app.on_command(None);
    assert!(matches!(follow_up, Action::Rebuild));
}

#[test]
fn command_line_splits_program_and_arguments() {
    let mut app = app_with(&["a"], 40, 6);
    app.key_read(KeyInput::Char(':'));
    type_chars(&mut app, " cargo build --release ");
    let action = app.key_read(KeyInput::Enter);
    match action {
        Action::RunCommand { program, args } => {
            assert_eq!(program, "cargo");
            assert_eq!(args, names(&["build", "--release"]));
        },
        _ => panic!("expected a spawned command"),
    }
}

#[test]
fn command_q_sets_the_exit_flag() {
    let mut app = app_with(&["a"], 40, 6);
    app.key_read(KeyInput::Char(':'));
    type_chars(&mut app, "q");
    let action = app.key_read(KeyInput::Enter);
    assert!(matches!(action, Action::Redraw));
    assert!(app.exit_flag);
}

#[test]
fn normal_q_sets_the_exit_flag() {
    let mut app = app_with(&["a"], 40, 6);
    assert!(!app.exit_flag);
    app.key_read(KeyInput::Char('q'));
    assert!(app.exit_flag);
}

#[test]
fn command_launch_failure_is_shown_in_the_buffer() {
    let mut app = app_with(&["a"], 40, 6);
    app.key_read(KeyInput::Char(':'));
    type_chars(&mut app, "nosuch");
    app.key_read(KeyInput::Enter);
    let follow_up = app.on_command(Some("No such file or directory".to_string()));
    assert!(matches!(follow_up, Action::Redraw));
    match &app.mode {
        Mode::Command { buffer } => assert_eq!(buffer, "No such file or directory"),
        _ => panic!("expected the error text in the command buffer"),
    }
}

#[test]
fn backspace_edits_the_buffer() {
    let mut app = app_with(&["a"], 40, 6);
    app.key_read(KeyInput::Char('n'));
    type_chars(&mut app, "ab");
    app.key_read(KeyInput::Backspace);
    let action = app.key_read(KeyInput::Enter);
    match action {
        Action::CreateFile { name } => assert_eq!(name, "a"),
        _ => panic!("expected a file creation"),
    }
}

#[test]
fn backspace_on_empty_buffer_is_a_no_op() {
    let mut app = app_with(&["a"], 40, 6);
    app.key_read(KeyInput::Char(':'));
    app.key_read(KeyInput::Backspace);
    match &app.mode {
        Mode::Command { buffer } => assert_eq!(buffer, ""),
        _ => panic!("expected command mode"),
    }
}

#[test]
fn escape_cancels_a_modal_flow() {
    let mut app = app_with(&["a"], 40, 6);
    app.key_read(KeyInput::Char('n'));
    type_chars(&mut app, "half");
    app.key_read(KeyInput::Esc);
    assert!(matches!(app.mode, Mode::Normal));
}

#[test]
fn space_then_f_enters_the_change_directory_flow() {
    let mut app = app_with(&["a"], 40, 6);
    app.key_read(KeyInput::Char(' '));
    assert!(matches!(app.mode, Mode::Normal));
    app.key_read(KeyInput::Char('f'));
    assert!(matches!(app.mode, Mode::ChangeDirectory { .. }));
}

#[test]
fn space_then_other_key_is_swallowed() {
    let mut app = app_with(&["a"], 40, 6);
    app.key_read(KeyInput::Char(' '));
    app.key_read(KeyInput::Char('j'));
    assert!(matches!(app.mode, Mode::Normal));
    assert_eq!((app.cursor.page_index, app.cursor.row_index), (0, 0));
}

#[test]
fn change_directory_commit_attempts_the_typed_path() {
    let mut app = app_with(&["a"], 40, 6);
    app.key_read(KeyInput::Char(' '));
    app.key_read(KeyInput::Char('f'));
    type_chars(&mut app, "sub");
    let action = app.key_read(KeyInput::Enter);
    match action {
        Action::ChangeDir { path } => assert_eq!(path, "sub"),
        _ => panic!("expected a directory change"),
    }
    assert!(matches!(app.mode, Mode::Normal));
    let ok = app.on_chdir(true);
    assert!(matches!(ok, Action::Rebuild));
}

#[test]
fn change_directory_failure_keeps_the_previous_listing() {
    let mut app = app_with(&["a"], 40, 6);
    app.key_read(KeyInput::Char(' '));
    app.key_read(KeyInput::Char('f'));
    type_chars(&mut app, "nosuch");
    app.key_read(KeyInput::Enter);
    let follow_up = app.on_chdir(false);
    assert!(matches!(follow_up, Action::Redraw));
    assert_eq!(app.listing.pages[0], names(&["a"]));
}

#[test]
fn enter_on_a_directory_rebuilds() {
    let mut app = app_with(&["docs"], 40, 6);
    let action = app.key_read(KeyInput::Enter);
    match action {
        Action::ChangeDir { path } => assert_eq!(path, "docs"),
        _ => panic!("expected a directory change"),
    }
    let follow_up = app.on_chdir(true);
    assert!(matches!(follow_up, Action::Rebuild));
}

#[test]
fn enter_on_a_file_routes_to_the_editor() {
    let mut app = app_with(&["notes.txt"], 40, 6);
    app.key_read(KeyInput::Enter);
    let follow_up = app.on_chdir(false);
    match follow_up {
        Action::OpenEditor { name } => assert_eq!(name, "notes.txt"),
        _ => panic!("expected the editor"),
    }
}

#[test]
fn enter_on_an_empty_listing_is_a_no_op() {
    let mut app = app_with(&[], 40, 6);
    let action = app.key_read(KeyInput::Enter);
    assert!(matches!(action, Action::Redraw));
}

#[test]
fn escape_navigates_to_the_parent_and_rebuilds() {
    let mut app = app_with(&["a"], 40, 6);
    let action = app.key_read(KeyInput::Esc);
    match action {
        Action::ChangeDir { path } => assert_eq!(path, ".."),
        _ => panic!("expected a directory change"),
    }
    let follow_up = app.on_chdir(false);
    assert!(matches!(follow_up, Action::Rebuild));
}

#[test]
fn add_entry_falls_back_to_a_directory() {
    let mut app = app_with(&["a"], 40, 6);
    app.key_read(KeyInput::Char('n'));
    type_chars(&mut app, "newdir");
    let action = app.key_read(KeyInput::Enter);
    match action {
        Action::CreateFile { name } => assert_eq!(name, "newdir"),
        _ => panic!("expected a file creation"),
    }
    let follow_up = app.on_create_file(false);
    match follow_up {
        Action::CreateDir { name } => assert_eq!(name, "newdir"),
        _ => panic!("expected a directory creation"),
    }
}

#[test]
fn add_entry_success_rebuilds() {
    let mut app = app_with(&["a"], 40, 6);
    app.key_read(KeyInput::Char('n'));
    type_chars(&mut app, "f.txt");
    app.key_read(KeyInput::Enter);
    let follow_up = app.on_create_file(true);
    assert!(matches!(follow_up, Action::Rebuild));
}

#[test]
fn add_entry_with_empty_name_only_rebuilds() {
    let mut app = app_with(&["a"], 40, 6);
    app.key_read(KeyInput::Char('n'));
    let action = app.key_read(KeyInput::Enter);
    assert!(matches!(action, Action::Rebuild));
    assert!(matches!(app.mode, Mode::Normal));
}

#[test]
fn delete_confirmed_removes_the_focused_directory_and_resets() {
    let mut app = app_with(&["dir1", "dir2"], 40, 6);
    app.key_read(KeyInput::Char('j'));
    app.key_read(KeyInput::Char('d'));
    assert!(matches!(app.mode, Mode::DeleteConfirm));
    let action = app.key_read(KeyInput::Char('y'));
    match action {
        Action::Remove { name } => assert_eq!(name, "dir2"),
        _ => panic!("expected a removal"),
    }
    assert!(matches!(app.mode, Mode::Normal));
    app.apply_listing("/demo".to_string(), names(&["dir1"]), &vec![0]);
    assert_eq!((app.cursor.page_index, app.cursor.row_index), (0, 0));
    assert_eq!(app.listing.pages.len(), 1);
}

#[test]
fn delete_declined_changes_nothing() {
    let mut app = app_with(&["dir1"], 40, 6);
    app.key_read(KeyInput::Char('d'));
    let action = app.key_read(KeyInput::Char('n'));
    assert!(matches!(action, Action::Redraw));
    assert!(matches!(app.mode, Mode::Normal));
    assert_eq!(app.listing.pages[0], names(&["dir1"]));
}

#[test]
fn autocomplete_candidates_match_by_prefix() {
    let app = app_with(&["foo", "foobar", "bar"], 40, 6);
    let page = names(&["foo", "foobar", "bar"]);
    assert_eq!(app.find_dir("foo".to_string(), page.clone()), names(&["foo", "foobar"]));
    assert_eq!(app.find_dir("".to_string(), page.clone()), page);
    assert_eq!(app.find_dir("zzz".to_string(), page), Vec::<String>::new());
}
