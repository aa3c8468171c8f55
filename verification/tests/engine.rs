use cim_core::editor::{CimEditor, EditorMode};

fn editor_with(text: &str) -> CimEditor {
    let mut ed = CimEditor::new(text);
    ed.set_viewport_size(20, 80);
    ed
}

#[test]
fn line_split_on_newline_insert() {
    // line "abcXdef", cursor on the 'X' at column 3: inserting '\n'
    // yields "abc" and "Xdef" with the cursor starting the new line
    let mut ed = editor_with("abcXdef");
    ed.mode = EditorMode::Insert;
    ed.move_cursor((3, 0));
    assert_eq!(ed.cursor_position, (3, 0));
    ed.insert_char('\n');
    assert_eq!(ed.buffer.text(), "abc\nXdef");
    assert_eq!(ed.total_lines(), 2);
    assert_eq!(ed.buffer.line_chars(0), vec!['a', 'b', 'c']);
    assert_eq!(ed.buffer.line_chars(1), vec!['X', 'd', 'e', 'f']);
    assert_eq!(ed.cursor_position, (0, 1));
}

#[test]
fn backspace_joins_lines() {
    // buffer "ab\ncd", cursor at (0,1): backspace removes the newline
    let mut ed = editor_with("ab\ncd");
    ed.move_cursor((0, 1));
    assert_eq!(ed.cursor_position, (0, 1));
    ed.delete_char();
    assert_eq!(ed.buffer.text(), "abcd");
    assert_eq!(ed.cursor_position, (2, 0));
}

#[test]
fn backspace_at_origin_does_nothing() {
    let mut ed = editor_with("ab");
    ed.delete_char();
    assert_eq!(ed.buffer.text(), "ab");
    assert_eq!(ed.cursor_position, (0, 0));
}

#[test]
fn backspace_mid_line_removes_previous_char() {
    let mut ed = editor_with("abc");
    ed.mode = EditorMode::Insert;
    ed.move_cursor((2, 0));
    ed.delete_char();
    assert_eq!(ed.buffer.text(), "ac");
    assert_eq!(ed.cursor_position, (1, 0));
}

#[test]
fn insert_then_backspace_round_trip() {
    let mut ed = editor_with("hello");
    ed.mode = EditorMode::Insert;
    ed.move_cursor((2, 0));
    ed.insert_char('Z');
    assert_eq!(ed.buffer.text(), "heZllo");
    assert_eq!(ed.cursor_position, (3, 0));
    ed.delete_char();
    assert_eq!(ed.buffer.text(), "hello");
    assert_eq!(ed.cursor_position, (2, 0));
}

#[test]
fn scroll_margin_follows_cursor() {
    // 30 lines, viewport 20 high, margin 2
    let text = vec!["line"; 30].join("\n");
    let mut ed = editor_with(&text);
    assert_eq!(ed.total_lines(), 30);
    ed.move_cursor((0, 25));
    assert_eq!(ed.cursor_position.1, 25);
    assert_eq!(ed.scroll_offset, 7);
    ed.move_cursor((0, -24));
    assert_eq!(ed.cursor_position.1, 1);
    assert_eq!(ed.scroll_offset, 0);
}

#[test]
fn move_saturates_at_document_edges() {
    let mut ed = editor_with("one\ntwo\nthree");
    ed.move_cursor((100, 100));
    // last line: cursor may rest just past "three"
    assert_eq!(ed.cursor_position, (5, 2));
    ed.move_cursor((-100, -100));
    assert_eq!(ed.cursor_position, (0, 0));
}

#[test]
fn move_never_wraps_between_lines() {
    let mut ed = editor_with("abcdef\nxy");
    ed.move_cursor((4, 0));
    assert_eq!(ed.cursor_position, (4, 0));
    ed.move_cursor((100, 0));
    // a non-last line caps the motion before its newline
    assert_eq!(ed.cursor_position, (5, 0));
}

#[test]
fn normalize_is_idempotent_after_mode_change() {
    let mut ed = editor_with("abc\nde");
    ed.mode = EditorMode::Insert;
    ed.go_to_line_end();
    assert_eq!(ed.cursor_position, (3, 0));
    // leaving Insert mode pulls the cursor back onto the last character
    ed.change_mode(false);
    assert_eq!(ed.cursor_position, (2, 0));
    let before = (ed.cursor_position, ed.scroll_offset, ed.horizontal_offset);
    ed.normalize_cursor();
    assert_eq!((ed.cursor_position, ed.scroll_offset, ed.horizontal_offset), before);
    ed.normalize_cursor();
    assert_eq!((ed.cursor_position, ed.scroll_offset, ed.horizontal_offset), before);
}

#[test]
fn word_motion_on_a_line() {
    // "foo  bar_baz = 1": forward from 0 skips the word and the gap
    let mut ed = editor_with("foo  bar_baz = 1");
    ed.move_cursor_word(1);
    assert_eq!(ed.cursor_position, (5, 0));
    ed.move_cursor_word(1);
    assert_eq!(ed.cursor_position, (15, 0));
    let mut ed2 = editor_with("foo  bar_baz = 1");
    ed2.move_cursor((13, 0));
    assert_eq!(ed2.cursor_position, (13, 0));
    ed2.move_cursor_word(-1);
    assert_eq!(ed2.cursor_position, (5, 0));
}

#[test]
fn word_motion_ignores_other_lines() {
    let mut ed = editor_with("abc\ndef");
    ed.move_cursor_word(1);
    // no next word on the first line: the cursor stops at the line end
    assert_eq!(ed.cursor_position, (3, 0));
    ed.move_cursor_word(1);
    assert_eq!(ed.cursor_position, (3, 0));
}

#[test]
fn line_start_and_end() {
    let mut ed = editor_with("abcdef");
    ed.move_cursor((3, 0));
    ed.go_to_line_start();
    assert_eq!(ed.cursor_position, (0, 0));
    ed.go_to_line_end();
    assert_eq!(ed.cursor_position, (5, 0));
    ed.mode = EditorMode::Insert;
    ed.go_to_line_end();
    assert_eq!(ed.cursor_position, (6, 0));
}

#[test]
fn page_down_and_up() {
    let text = vec!["x"; 50].join("\n");
    let mut ed = editor_with(&text);
    ed.page_down();
    assert_eq!(ed.cursor_position.1, 20);
    ed.page_down();
    assert_eq!(ed.cursor_position.1, 40);
    ed.page_down();
    assert_eq!(ed.cursor_position.1, 49);
    ed.page_up();
    assert_eq!(ed.cursor_position.1, 29);
}

#[test]
fn tab_inserts_four_spaces() {
    let mut ed = editor_with("ab");
    ed.mode = EditorMode::Insert;
    ed.move_cursor((1, 0));
    ed.insert_tab();
    assert_eq!(ed.buffer.text(), "a    b");
    assert_eq!(ed.cursor_position, (5, 0));
}

#[test]
fn current_line_length_tracks_cursor_line() {
    let mut ed = editor_with("ab\nxyz");
    assert_eq!(ed.current_line_length(), 2);
    ed.move_cursor((0, 1));
    assert_eq!(ed.current_line_length(), 3);
}

#[test]
fn mark_saved_clears_both_flags() {
    let mut ed = editor_with("ab");
    ed.mode = EditorMode::Insert;
    ed.insert_char('c');
    assert!(ed.buffer.is_modified());
    assert!(ed.text_changed);
    ed.mark_saved();
    assert!(!ed.buffer.is_modified());
    assert!(!ed.text_changed);
    assert_eq!(ed.buffer.text(), "cab");
}

#[test]
fn fresh_session_state() {
    let ed = CimEditor::new("hi");
    assert_eq!(ed.mode, EditorMode::Normal);
    assert_eq!(ed.cursor_position, (0, 0));
    assert_eq!(ed.scroll_offset, 0);
    assert_eq!(ed.horizontal_offset, 0);
    assert!(ed.text_changed);
    assert!(!ed.buffer.is_modified());
    assert_eq!(ed.command_buffer, "");
}

#[test]
fn cursor_snaps_to_line_start_on_shorter_document() {
    let mut ed = editor_with("abc\ndefgh");
    // a cursor line past the document snaps to the last line's start,
    // not to the nearest column
    ed.cursor_position = (4, 9);
    ed.normalize_cursor();
    assert_eq!(ed.cursor_position, (0, 1));
}

#[test]
fn multibyte_characters_are_addressed_by_character() {
    // 'é' is two bytes; columns still count characters
    let mut ed = editor_with("h\u{e9}llo");
    ed.mode = EditorMode::Insert;
    ed.move_cursor((2, 0));
    ed.insert_char('x');
    assert_eq!(ed.buffer.text(), "h\u{e9}xllo");
    assert_eq!(ed.cursor_position, (3, 0));
    ed.delete_char();
    assert_eq!(ed.buffer.text(), "h\u{e9}llo");
    ed.delete_char();
    assert_eq!(ed.buffer.text(), "hllo");
    assert_eq!(ed.cursor_position, (1, 0));
}

#[test]
fn extreme_deltas_stop_on_the_boundaries() {
    let mut ed = editor_with("abc\ndef\nghi");
    ed.move_cursor((i16::MAX, i16::MAX));
    assert_eq!(ed.cursor_position, (3, 2));
    ed.move_cursor((i16::MIN, i16::MIN));
    assert_eq!(ed.cursor_position, (0, 0));
}

#[test]
fn horizontal_scroll_follows_long_line() {
    let long = "q".repeat(200);
    let mut ed = CimEditor::new(&long);
    ed.set_viewport_size(20, 40);
    ed.move_cursor((100, 0));
    assert_eq!(ed.cursor_position.0, 100);
    // h_margin = min(5, 40/4) = 5: cursor at 100 needs offset 100+5-40
    assert_eq!(ed.horizontal_offset, 65);
    ed.move_cursor((-99, 0));
    assert_eq!(ed.cursor_position.0, 1);
    assert_eq!(ed.horizontal_offset, 0);
}
