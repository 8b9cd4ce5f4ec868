use bolt::document::IoError;
use bolt::editor::{Action, Editor, Key, Position, StatusMessage};
use bolt::terminal::Size;

const SIZE: Size = Size { width: 10, height: 4 };
const HELP: &str = "HELP: Ctrl-S = Save | Ctrl-Q = quit";
const WARNING: &str = "Warning: File has unsaved changes. Press Ctrl + Q again to quit.";

fn editing(text: &str) -> Editor {
    Editor::new(Some(("notes.txt".to_string(), Ok(text.to_string()))), 0)
}

fn rows(editor: &Editor) -> Vec<String> {
    let document = editor.document();
    (0..document.len()).map(|i| document.row(i).unwrap().to_string()).collect()
}

fn press(editor: &mut Editor, keys: &[Key]) {
    for key in keys {
        editor.process_keypress(*key, &SIZE, 0);
    }
}

fn at(x: usize, y: usize) -> Position {
    Position { x, y }
}

#[test]
fn position_default_is_the_origin() {
    assert_eq!(Position::default(), Position { x: 0, y: 0 });
}

#[test]
fn status_message_keeps_text_and_time() {
    let status = StatusMessage::from("saved".to_string(), 17);
    assert_eq!(status.text(), "saved");
    assert_eq!(status.time(), 17);
}

#[test]
fn new_without_a_file() {
    let editor = Editor::new(None, 5);
    assert!(editor.document().is_empty());
    assert!(editor.document().filename().is_none());
    assert!(!editor.document().is_dirty());
    assert!(!editor.should_quit());
    assert_eq!(editor.cursor_position(), at(0, 0));
    assert_eq!(editor.offset(), at(0, 0));
    assert_eq!(editor.status_message().text(), HELP);
    assert_eq!(editor.status_message().time(), 5);
}

#[test]
fn new_with_a_file() {
    let editor = editing("ab\ncd");
    assert_eq!(rows(&editor), vec!["ab", "cd"]);
    assert_eq!(editor.document().filename().unwrap(), "notes.txt");
    assert_eq!(editor.status_message().text(), HELP);
    assert_eq!(editor.cursor_position(), at(0, 0));
}

#[test]
fn new_with_a_file_that_cannot_be_read() {
    let editor = Editor::new(Some(("gone.txt".to_string(), Err(IoError::NotFound))), 9);
    assert!(editor.document().is_empty());
    assert!(editor.document().filename().is_none());
    assert_eq!(editor.status_message().text(), "ERR: Could not open file: gone.txt");
    assert_eq!(editor.status_message().time(), 9);
}

#[test]
fn move_left_at_document_start_stays() {
    let mut editor = editing("ab\ncd");
    assert_eq!(editor.cursor_position(), at(0, 0));
    editor.move_cursor(Key::Left, &SIZE);
    assert_eq!(editor.cursor_position(), at(0, 0));
    let mut empty = Editor::new(None, 0);
    empty.move_cursor(Key::Left, &SIZE);
    assert_eq!(empty.cursor_position(), at(0, 0));
}

#[test]
fn move_right_at_end_of_row_goes_to_next_line() {
    let mut editor = editing("ab\ncd");
    editor.move_cursor(Key::End, &SIZE);
    assert_eq!(editor.cursor_position(), at(2, 0));
    editor.move_cursor(Key::Right, &SIZE);
    assert_eq!(editor.cursor_position(), at(0, 1));
}

#[test]
fn move_right_at_end_of_last_row() {
    let mut editor = editing("ab\ncd");
    editor.move_cursor(Key::Down, &SIZE);
    editor.move_cursor(Key::End, &SIZE);
    assert_eq!(editor.cursor_position(), at(2, 1));
    // the line below the last row is the last place the cursor can stand on
    editor.move_cursor(Key::Right, &SIZE);
    assert_eq!(editor.cursor_position(), at(0, 2));
    // and nothing follows it
    editor.move_cursor(Key::Right, &SIZE);
    assert_eq!(editor.cursor_position(), at(0, 2));
}

#[test]
fn move_right_within_a_row() {
    let mut editor = editing("ab");
    editor.move_cursor(Key::Right, &SIZE);
    assert_eq!(editor.cursor_position(), at(1, 0));
}

#[test]
fn move_left_at_start_of_row_goes_to_end_of_previous() {
    let mut editor = editing("abc\nd");
    editor.move_cursor(Key::Down, &SIZE);
    assert_eq!(editor.cursor_position(), at(0, 1));
    editor.move_cursor(Key::Left, &SIZE);
    assert_eq!(editor.cursor_position(), at(3, 0));
    editor.move_cursor(Key::Left, &SIZE);
    assert_eq!(editor.cursor_position(), at(2, 0));
}

#[test]
fn move_up_stops_at_the_first_line() {
    let mut editor = editing("a\nb");
    editor.move_cursor(Key::Up, &SIZE);
    assert_eq!(editor.cursor_position(), at(0, 0));
    editor.move_cursor(Key::Down, &SIZE);
    editor.move_cursor(Key::Up, &SIZE);
    assert_eq!(editor.cursor_position(), at(0, 0));
}

#[test]
fn move_down_stops_one_line_below_the_last() {
    let mut editor = editing("a\nb");
    editor.move_cursor(Key::Down, &SIZE);
    assert_eq!(editor.cursor_position(), at(0, 1));
    editor.move_cursor(Key::Down, &SIZE);
    assert_eq!(editor.cursor_position(), at(0, 2));
    editor.move_cursor(Key::Down, &SIZE);
    assert_eq!(editor.cursor_position(), at(0, 2));
}

#[test]
fn move_clamps_the_column_to_the_new_row() {
    let mut editor = editing("long line\nab\n\nxyz");
    editor.move_cursor(Key::End, &SIZE);
    assert_eq!(editor.cursor_position(), at(9, 0));
    editor.move_cursor(Key::Down, &SIZE);
    assert_eq!(editor.cursor_position(), at(2, 1));
    editor.move_cursor(Key::Down, &SIZE);
    assert_eq!(editor.cursor_position(), at(0, 2));
    editor.move_cursor(Key::Up, &SIZE);
    assert_eq!(editor.cursor_position(), at(0, 1));
}

#[test]
fn home_and_end() {
    let mut editor = editing("abc");
    editor.move_cursor(Key::End, &SIZE);
    assert_eq!(editor.cursor_position(), at(3, 0));
    editor.move_cursor(Key::Home, &SIZE);
    assert_eq!(editor.cursor_position(), at(0, 0));
}

#[test]
fn page_down_moves_by_the_viewport_height() {
    let mut editor = editing("0\n1\n2\n3\n4\n5\n6\n7\n8\n9");
    editor.move_cursor(Key::PageDown, &SIZE);
    assert_eq!(editor.cursor_position(), at(0, 4));
    editor.move_cursor(Key::PageDown, &SIZE);
    assert_eq!(editor.cursor_position(), at(0, 8));
}

#[test]
fn page_down_past_the_end_returns_to_the_top() {
    let mut editor = editing("0\n1\n2\n3\n4\n5\n6\n7\n8\n9");
    editor.move_cursor(Key::PageDown, &SIZE);
    editor.move_cursor(Key::PageDown, &SIZE);
    editor.move_cursor(Key::PageDown, &SIZE);
    assert_eq!(editor.cursor_position(), at(0, 0));
    let mut short = editing("0\n1\n2\n3");
    short.move_cursor(Key::PageDown, &SIZE);
    assert_eq!(short.cursor_position(), at(0, 0));
}

#[test]
fn page_up_moves_by_the_viewport_height() {
    let mut editor = editing("0\n1\n2\n3\n4\n5\n6\n7\n8\n9");
    for _ in 0..9 {
        editor.move_cursor(Key::Down, &SIZE);
    }
    editor.move_cursor(Key::PageUp, &SIZE);
    assert_eq!(editor.cursor_position(), at(0, 5));
    editor.move_cursor(Key::PageUp, &SIZE);
    assert_eq!(editor.cursor_position(), at(0, 1));
    editor.move_cursor(Key::PageUp, &SIZE);
    assert_eq!(editor.cursor_position(), at(0, 0));
}

#[test]
fn other_keys_do_not_move_the_cursor() {
    let mut editor = editing("abc");
    editor.move_cursor(Key::Right, &SIZE);
    for key in [Key::Char('x'), Key::Ctrl('q'), Key::Esc, Key::Delete, Key::Backspace, Key::Other] {
        editor.move_cursor(key, &SIZE);
        assert_eq!(editor.cursor_position(), at(1, 0));
    }
    assert_eq!(rows(&editor), vec!["abc"]);
}

#[test]
fn cursor_column_stays_within_its_row() {
    let mut editor = editing("long line\nab\n\nxyz\nlonger line still");
    let keys = [
        Key::End, Key::Down, Key::Right, Key::Down, Key::End, Key::PageDown, Key::Up, Key::End,
        Key::Down, Key::Down, Key::Left, Key::PageUp, Key::End, Key::Down, Key::Down, Key::Down,
        Key::Down, Key::Down, Key::Right, Key::Left, Key::Home, Key::Up, Key::Other,
    ];
    for key in keys {
        editor.move_cursor(key, &SIZE);
        let Position { x, y } = editor.cursor_position();
        let width = editor.document().row(y).map_or(0, |row| row.len());
        assert!(x <= width);
        assert!(y <= editor.document().len());
    }
}

#[test]
fn scroll_follows_the_cursor_down_and_up() {
    let mut editor = editing("0\n1\n2\n3\n4\n5\n6\n7\n8\n9");
    for _ in 0..3 {
        editor.move_cursor(Key::Down, &SIZE);
        editor.scroll(&SIZE);
        assert_eq!(editor.offset(), at(0, 0));
    }
    editor.move_cursor(Key::Down, &SIZE);
    editor.scroll(&SIZE);
    assert_eq!(editor.offset(), at(0, 1));
    editor.move_cursor(Key::PageDown, &SIZE);
    editor.scroll(&SIZE);
    assert_eq!(editor.cursor_position(), at(0, 8));
    assert_eq!(editor.offset(), at(0, 5));
    editor.move_cursor(Key::PageUp, &SIZE);
    editor.scroll(&SIZE);
    assert_eq!(editor.cursor_position(), at(0, 4));
    assert_eq!(editor.offset(), at(0, 4));
}

#[test]
fn scroll_follows_the_cursor_sideways() {
    let mut editor = editing("0123456789abcdefghij");
    editor.move_cursor(Key::End, &SIZE);
    editor.scroll(&SIZE);
    assert_eq!(editor.cursor_position(), at(20, 0));
    assert_eq!(editor.offset(), at(11, 0));
    editor.move_cursor(Key::Home, &SIZE);
    editor.scroll(&SIZE);
    assert_eq!(editor.offset(), at(0, 0));
}

#[test]
fn scroll_keeps_the_cursor_in_the_viewport() {
    let mut editor = editing("0123456789abcdefghij\n1\n2\n3\n4\n5\n6\n7\n8\n9");
    let size = Size { width: 3, height: 2 };
    let keys = [
        Key::End, Key::Down, Key::Down, Key::PageDown, Key::PageDown, Key::Up, Key::PageUp,
        Key::PageUp, Key::End, Key::Left, Key::Left, Key::Left, Key::Left, Key::Home, Key::Down,
    ];
    for key in keys {
        editor.move_cursor(key, &size);
        editor.scroll(&size);
        let cursor = editor.cursor_position();
        let offset = editor.offset();
        assert!(offset.x <= cursor.x && cursor.x < offset.x + 3);
        assert!(offset.y <= cursor.y && cursor.y < offset.y + 2);
    }
}

#[test]
fn typing_inserts_and_moves_right() {
    let mut editor = Editor::new(None, 0);
    press(&mut editor, &[Key::Char('h'), Key::Char('i')]);
    assert_eq!(rows(&editor), vec!["hi"]);
    assert_eq!(editor.cursor_position(), at(2, 0));
    assert!(editor.document().is_dirty());
}

#[test]
fn enter_splits_the_line_and_moves_to_the_next() {
    let mut editor = editing("hello");
    press(&mut editor, &[Key::Right, Key::Right, Key::Char('\n'), Key::Char('x')]);
    assert_eq!(rows(&editor), vec!["he", "xllo"]);
    assert_eq!(editor.cursor_position(), at(1, 1));
}

#[test]
fn delete_key_deletes_at_the_cursor() {
    let mut editor = editing("ab\ncd");
    press(&mut editor, &[Key::Delete]);
    assert_eq!(rows(&editor), vec!["b", "cd"]);
    assert_eq!(editor.cursor_position(), at(0, 0));
    press(&mut editor, &[Key::End, Key::Delete]);
    assert_eq!(rows(&editor), vec!["bcd"]);
    assert_eq!(editor.cursor_position(), at(1, 0));
}

#[test]
fn backspace_deletes_before_the_cursor() {
    let mut editor = editing("ab\ncd");
    press(&mut editor, &[Key::Backspace]);
    assert_eq!(rows(&editor), vec!["ab", "cd"]);
    assert!(!editor.document().is_dirty());
    press(&mut editor, &[Key::End, Key::Backspace]);
    assert_eq!(rows(&editor), vec!["a", "cd"]);
    assert_eq!(editor.cursor_position(), at(1, 0));
    press(&mut editor, &[Key::Down, Key::Home, Key::Backspace]);
    assert_eq!(rows(&editor), vec!["acd"]);
    assert_eq!(editor.cursor_position(), at(1, 0));
}

#[test]
fn keypress_scrolls_the_viewport() {
    let mut editor = editing("0\n1\n2\n3\n4\n5");
    press(&mut editor, &[Key::Down, Key::Down, Key::Down, Key::Down, Key::Down]);
    assert_eq!(editor.cursor_position(), at(0, 5));
    assert_eq!(editor.offset(), at(0, 2));
}

#[test]
fn quit_without_changes_ends_the_session() {
    let mut editor = editing("ab");
    assert!(matches!(editor.process_keypress(Key::Ctrl('q'), &SIZE, 3), Action::Continue));
    assert!(editor.should_quit());
    assert_eq!(editor.status_message().text(), HELP);
}

#[test]
fn quit_with_changes_asks_twice() {
    let mut editor = editing("ab");
    press(&mut editor, &[Key::Char('x')]);
    editor.process_keypress(Key::Ctrl('q'), &SIZE, 3);
    assert!(!editor.should_quit());
    assert_eq!(editor.status_message().text(), WARNING);
    assert_eq!(editor.status_message().time(), 3);
    editor.process_keypress(Key::Ctrl('q'), &SIZE, 4);
    assert!(editor.should_quit());
}

#[test]
fn another_key_withdraws_the_request_to_quit() {
    let mut editor = editing("ab");
    press(&mut editor, &[Key::Char('x'), Key::Ctrl('q'), Key::Left, Key::Ctrl('q')]);
    assert!(!editor.should_quit());
    assert_eq!(rows(&editor), vec!["xab"]);
    press(&mut editor, &[Key::Ctrl('q')]);
    assert!(editor.should_quit());
}

#[test]
fn save_of_a_named_document_asks_for_a_write() {
    let mut editor = editing("ab\ncd");
    press(&mut editor, &[Key::Char('x')]);
    match editor.process_keypress(Key::Ctrl('s'), &SIZE, 1) {
        Action::Write { filename, contents } => {
            assert_eq!(filename, "notes.txt");
            assert_eq!(contents, "xab\ncd");
        }
        Action::Continue => panic!("nothing to write"),
    }
    assert!(editor.document().is_dirty());
    editor.finish_save(Ok(()), 2);
    assert!(!editor.document().is_dirty());
    assert_eq!(editor.status_message().text(), "File saved successfully");
    assert_eq!(editor.status_message().time(), 2);
}

#[test]
fn failed_save_keeps_the_document_dirty() {
    let mut editor = editing("ab");
    press(&mut editor, &[Key::Char('x'), Key::Ctrl('s')]);
    editor.finish_save(Err(IoError::PermissionDenied), 2);
    assert!(editor.document().is_dirty());
    assert_eq!(editor.status_message().text(), "Error saving file!");
}

#[test]
fn save_of_an_unnamed_document_prompts_for_a_name() {
    let mut editor = Editor::new(None, 0);
    press(&mut editor, &[Key::Char('h'), Key::Char('i')]);
    assert!(matches!(editor.process_keypress(Key::Ctrl('s'), &SIZE, 1), Action::Continue));
    assert_eq!(editor.status_message().text(), "Save as: ");
    press(&mut editor, &[Key::Char('a'), Key::Char('b'), Key::Char('c')]);
    assert_eq!(editor.status_message().text(), "Save as: abc");
    press(&mut editor, &[Key::Backspace, Key::Up, Key::Char('\t'), Key::Char('.')]);
    assert_eq!(editor.status_message().text(), "Save as: ab.");
    assert_eq!(rows(&editor), vec!["hi"]);
    assert_eq!(editor.cursor_position(), at(2, 0));
    match editor.process_keypress(Key::Char('\n'), &SIZE, 7) {
        Action::Write { filename, contents } => {
            assert_eq!(filename, "ab.");
            assert_eq!(contents, "hi");
        }
        Action::Continue => panic!("nothing to write"),
    }
    assert_eq!(editor.document().filename().unwrap(), "ab.");
    assert_eq!(editor.status_message().text(), "");
    editor.finish_save(Ok(()), 8);
    assert!(!editor.document().is_dirty());
    press(&mut editor, &[Key::Char('!')]);
    assert_eq!(rows(&editor), vec!["hi!"]);
}

#[test]
fn prompt_backspace_on_nothing_typed() {
    let mut editor = Editor::new(None, 0);
    press(&mut editor, &[Key::Ctrl('s'), Key::Backspace, Key::Char('é'), Key::Backspace]);
    assert_eq!(editor.status_message().text(), "Save as: ");
}

#[test]
fn escape_aborts_the_save() {
    let mut editor = Editor::new(None, 0);
    press(&mut editor, &[Key::Char('x'), Key::Ctrl('s'), Key::Char('a')]);
    assert!(matches!(editor.process_keypress(Key::Esc, &SIZE, 4), Action::Continue));
    assert_eq!(editor.status_message().text(), "Save aborted");
    assert_eq!(editor.status_message().time(), 4);
    assert!(editor.document().filename().is_none());
    assert!(editor.document().is_dirty());
    press(&mut editor, &[Key::Char('y')]);
    assert_eq!(rows(&editor), vec!["xy"]);
}

#[test]
fn empty_name_aborts_the_save() {
    let mut editor = Editor::new(None, 0);
    press(&mut editor, &[Key::Ctrl('s')]);
    assert!(matches!(editor.process_keypress(Key::Char('\n'), &SIZE, 4), Action::Continue));
    assert_eq!(editor.status_message().text(), "Save aborted");
    assert!(editor.document().filename().is_none());
}

#[test]
fn handle_quit_says_whether_the_session_ends() {
    let mut editor = editing("ab");
    press(&mut editor, &[Key::Char('x')]);
    assert!(!editor.handle_quit(1));
    assert!(!editor.should_quit());
    assert_eq!(editor.status_message().text(), WARNING);
    assert!(editor.handle_quit(2));
    assert!(editor.should_quit());
}

#[test]
fn set_status_message_sets_text_and_time() {
    let mut editor = Editor::new(None, 0);
    editor.set_status_message("hello", 42);
    assert_eq!(editor.status_message().text(), "hello");
    assert_eq!(editor.status_message().time(), 42);
}

#[test]
fn handle_save_of_an_unchanged_file_writes_what_was_read() {
    for text in ["", "a", "ab\ncd", "ab\ncd\n", "\n\nx\r\n"] {
        let mut editor = editing(text);
        match editor.handle_save(3) {
            Action::Write { filename, contents } => {
                assert_eq!(filename, "notes.txt");
                assert_eq!(contents, text);
            }
            Action::Continue => panic!("nothing to write"),
        }
        assert_eq!(editor.status_message().text(), HELP);
        editor.finish_save(Ok(()), 4);
        assert!(!editor.document().is_dirty());
        assert_eq!(editor.status_message().text(), "File saved successfully");
        assert_eq!(editor.document().contents(), text);
        assert_eq!(editor.document().filename().unwrap(), "notes.txt");
        assert_eq!(editor.cursor_position(), at(0, 0));
        assert_eq!(editor.offset(), at(0, 0));
    }
}

#[test]
fn handle_save_without_a_name_asks_for_one() {
    let mut editor = Editor::new(None, 0);
    press(&mut editor, &[Key::Char('x')]);
    assert!(matches!(editor.handle_save(1), Action::Continue));
    assert_eq!(editor.status_message().text(), "Save as: ");
    assert_eq!(editor.status_message().time(), 1);
    assert!(editor.document().filename().is_none());
    assert!(editor.document().is_dirty());
    press(&mut editor, &[Key::Char('n')]);
    assert_eq!(rows(&editor), vec!["x"]);
    assert_eq!(editor.status_message().text(), "Save as: n");
}

#[test]
fn key_failure_during_the_prompt_aborts_the_save() {
    let mut editor = Editor::new(None, 0);
    press(&mut editor, &[Key::Char('x'), Key::Ctrl('s'), Key::Char('n')]);
    assert!(!editor.key_failed(&SIZE, 6));
    assert_eq!(editor.status_message().text(), "Save aborted");
    assert_eq!(editor.status_message().time(), 6);
    assert!(editor.document().filename().is_none());
    assert!(editor.document().is_dirty());
    assert_eq!(rows(&editor), vec!["x"]);
    assert!(!editor.should_quit());
    press(&mut editor, &[Key::Char('y')]);
    assert_eq!(rows(&editor), vec!["xy"]);
}

#[test]
fn key_failure_outside_the_prompt_is_fatal() {
    let mut editor = editing("ab");
    press(&mut editor, &[Key::Char('x')]);
    assert!(editor.key_failed(&SIZE, 6));
    assert_eq!(rows(&editor), vec!["xab"]);
    assert_eq!(editor.cursor_position(), at(1, 0));
    assert_eq!(editor.status_message().text(), HELP);
    assert!(!editor.should_quit());
}

#[test]
fn enter_then_backspace_restores_rows_and_cursor() {
    let text = "one\ntwo\n\nfour";
    for (y, line) in text.split('\n').enumerate() {
        for x in 0..=line.len() {
            let mut editor = editing(text);
            for _ in 0..y {
                press(&mut editor, &[Key::Down]);
            }
            for _ in 0..x {
                press(&mut editor, &[Key::Right]);
            }
            assert_eq!(editor.cursor_position(), at(x, y));
            press(&mut editor, &[Key::Char('\n')]);
            assert_eq!(editor.cursor_position(), at(0, y + 1));
            assert_eq!(editor.document().len(), 5);
            press(&mut editor, &[Key::Backspace]);
            assert_eq!(editor.document().contents(), text);
            assert_eq!(editor.cursor_position(), at(x, y));
        }
    }
}

#[test]
fn character_then_backspace_restores_rows_and_cursor() {
    let text = "one\ntwo\n\nfour";
    for (y, line) in text.split('\n').enumerate() {
        for x in 0..=line.len() {
            let mut editor = editing(text);
            for _ in 0..y {
                press(&mut editor, &[Key::Down]);
            }
            for _ in 0..x {
                press(&mut editor, &[Key::Right]);
            }
            press(&mut editor, &[Key::Char('z')]);
            assert_eq!(editor.cursor_position(), at(x + 1, y));
            assert_ne!(editor.document().contents(), text);
            press(&mut editor, &[Key::Backspace]);
            assert_eq!(editor.document().contents(), text);
            assert_eq!(editor.cursor_position(), at(x, y));
        }
    }
}

#[test]
fn enter_left_delete_restores_rows_and_cursor() {
    let text = "one\ntwo\n\nfour";
    for (y, line) in text.split('\n').enumerate() {
        for x in 0..=line.len() {
            let mut editor = editing(text);
            for _ in 0..y {
                press(&mut editor, &[Key::Down]);
            }
            for _ in 0..x {
                press(&mut editor, &[Key::Right]);
            }
            press(&mut editor, &[Key::Char('\n'), Key::Left]);
            assert_eq!(editor.cursor_position(), at(x, y));
            press(&mut editor, &[Key::Delete]);
            assert_eq!(editor.document().contents(), text);
            assert_eq!(editor.document().len(), 4);
            assert_eq!(editor.cursor_position(), at(x, y));
        }
    }
}

#[test]
fn typing_makes_the_document_dirty() {
    for c in ['a', '\n', '\t', ' '] {
        let mut editor = editing("ab");
        assert!(!editor.document().is_dirty());
        press(&mut editor, &[Key::Char(c)]);
        assert!(editor.document().is_dirty());
        let mut below = editing("ab");
        press(&mut below, &[Key::Down, Key::Char(c)]);
        assert!(below.document().is_dirty());
    }
}

#[test]
fn prompt_takes_one_key_of_the_name() {
    let mut editor = Editor::new(None, 0);
    assert!(matches!(editor.handle_save(1), Action::Continue));
    assert!(matches!(editor.prompt(Key::Char('n'), &SIZE, 2), Action::Continue));
    assert_eq!(editor.status_message().text(), "Save as: n");
    assert!(matches!(editor.prompt(Key::Char('\u{7f}'), &SIZE, 2), Action::Continue));
    assert!(matches!(editor.prompt(Key::Char('\u{1b}'), &SIZE, 2), Action::Continue));
    assert!(matches!(editor.prompt(Key::Ctrl('q'), &SIZE, 2), Action::Continue));
    assert_eq!(editor.status_message().text(), "Save as: n");
    assert!(!editor.should_quit());
    match editor.prompt(Key::Char('\n'), &SIZE, 3) {
        Action::Write { filename, contents } => {
            assert_eq!(filename, "n");
            assert_eq!(contents, "");
        }
        Action::Continue => panic!("nothing to write"),
    }
    assert_eq!(editor.document().filename().unwrap(), "n");
}
