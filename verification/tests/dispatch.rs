use cim_core::editor::{CimEditor, EditorAction, EditorMode};
use cim_core::input::{handle_key_event, Key, KeyMods};

fn editor_with(text: &str) -> CimEditor {
    let mut ed = CimEditor::new(text);
    ed.set_viewport_size(20, 80);
    ed
}

#[test]
fn normal_mode_key_table() {
    assert_eq!(handle_key_event(Key::Char('q'), KeyMods::Plain), Some(EditorAction::Exit));
    assert_eq!(handle_key_event(Key::Char('c'), KeyMods::Control), Some(EditorAction::Exit));
    assert_eq!(handle_key_event(Key::Char('w'), KeyMods::Plain), Some(EditorAction::Save));
    assert_eq!(handle_key_event(Key::Char('w'), KeyMods::Control), Some(EditorAction::MoveWord(1)));
    assert_eq!(
        handle_key_event(Key::Char('b'), KeyMods::Control),
        Some(EditorAction::MoveWord(-1))
    );
    assert_eq!(
        handle_key_event(Key::Char('i'), KeyMods::Plain),
        Some(EditorAction::ChangeMode(true))
    );
    assert_eq!(handle_key_event(Key::Esc, KeyMods::Plain), Some(EditorAction::ChangeMode(false)));
    assert_eq!(
        handle_key_event(Key::Char(':'), KeyMods::Plain),
        Some(EditorAction::StartCommand)
    );
    assert_eq!(
        handle_key_event(Key::Char('k'), KeyMods::Plain),
        Some(EditorAction::MoveCursor((0, -1)))
    );
    assert_eq!(
        handle_key_event(Key::Down, KeyMods::Plain),
        Some(EditorAction::MoveCursor((0, 1)))
    );
    assert_eq!(
        handle_key_event(Key::Char('h'), KeyMods::Plain),
        Some(EditorAction::MoveCursor((-1, 0)))
    );
    assert_eq!(
        handle_key_event(Key::Right, KeyMods::Plain),
        Some(EditorAction::MoveCursor((1, 0)))
    );
    assert_eq!(handle_key_event(Key::Char('0'), KeyMods::Plain), Some(EditorAction::LineStart));
    assert_eq!(handle_key_event(Key::End, KeyMods::Plain), Some(EditorAction::LineEnd));
    assert_eq!(handle_key_event(Key::PageUp, KeyMods::Plain), Some(EditorAction::PageUp));
    assert_eq!(handle_key_event(Key::PageDown, KeyMods::Plain), Some(EditorAction::PageDown));
    assert_eq!(handle_key_event(Key::Tab, KeyMods::Plain), Some(EditorAction::Tab));
    assert_eq!(
        handle_key_event(Key::Enter, KeyMods::Plain),
        Some(EditorAction::InsertChar('\n'))
    );
    assert_eq!(handle_key_event(Key::Backspace, KeyMods::Plain), Some(EditorAction::DeleteChar));
    // an unmapped character falls through to InsertChar
    assert_eq!(
        handle_key_event(Key::Char('x'), KeyMods::Plain),
        Some(EditorAction::InsertChar('x'))
    );
    assert_eq!(
        handle_key_event(Key::Char('X'), KeyMods::Shift),
        Some(EditorAction::InsertChar('X'))
    );
    // unrecognized keys yield no action
    assert_eq!(handle_key_event(Key::Delete, KeyMods::Plain), None);
    assert_eq!(handle_key_event(Key::Esc, KeyMods::Control), None);
    assert_eq!(handle_key_event(Key::Char('q'), KeyMods::Other), None);
}

#[test]
fn insert_char_action_is_ignored_outside_insert_mode() {
    let mut ed = editor_with("ab");
    // 'x' in Normal mode dispatches InsertChar, which the executor drops
    let r = ed.handle_input(Key::Char('x'), KeyMods::Plain);
    assert_eq!(r, None);
    assert_eq!(ed.buffer.text(), "ab");
    assert_eq!(ed.mode, EditorMode::Normal);
}

#[test]
fn typing_in_insert_mode() {
    let mut ed = editor_with("");
    assert_eq!(ed.handle_input(Key::Char('i'), KeyMods::Plain), Some(EditorAction::ChangeMode(true)));
    assert_eq!(ed.mode, EditorMode::Insert);
    ed.handle_input(Key::Char('h'), KeyMods::Plain);
    ed.handle_input(Key::Char('i'), KeyMods::Plain);
    // Enter is not in the Insert table: like every unlisted key it is
    // ignored there
    assert_eq!(ed.handle_input(Key::Enter, KeyMods::Plain), None);
    ed.handle_input(Key::Char('o'), KeyMods::Plain);
    assert_eq!(ed.buffer.text(), "hio");
    assert_eq!(ed.cursor_position, (3, 0));
    assert_eq!(ed.handle_input(Key::Esc, KeyMods::Plain), Some(EditorAction::ChangeMode(false)));
    assert_eq!(ed.mode, EditorMode::Normal);
}

#[test]
fn insert_mode_ignores_control_characters() {
    let mut ed = editor_with("ab");
    ed.mode = EditorMode::Insert;
    assert_eq!(ed.handle_input(Key::Char('c'), KeyMods::Control), None);
    assert_eq!(ed.buffer.text(), "ab");
}

#[test]
fn insert_mode_backspace_and_tab() {
    let mut ed = editor_with("ab");
    ed.mode = EditorMode::Insert;
    ed.move_cursor((1, 0));
    assert_eq!(ed.handle_input(Key::Backspace, KeyMods::Plain), Some(EditorAction::Backspace));
    assert_eq!(ed.buffer.text(), "b");
    assert_eq!(ed.handle_input(Key::Tab, KeyMods::Plain), Some(EditorAction::Tab));
    assert_eq!(ed.buffer.text(), "    b");
}

#[test]
fn insert_mode_arrows_move() {
    let mut ed = editor_with("abc\ndef");
    ed.mode = EditorMode::Insert;
    ed.handle_input(Key::Down, KeyMods::Plain);
    assert_eq!(ed.cursor_position, (0, 1));
    ed.handle_input(Key::Right, KeyMods::Plain);
    assert_eq!(ed.cursor_position, (1, 1));
    ed.handle_input(Key::Up, KeyMods::Plain);
    assert_eq!(ed.cursor_position, (1, 0));
    ed.handle_input(Key::Left, KeyMods::Plain);
    assert_eq!(ed.cursor_position, (0, 0));
}

#[test]
fn normal_mode_navigation_keys_drive_the_cursor() {
    let mut ed = editor_with("foo  bar\nsecond line");
    assert_eq!(ed.handle_input(Key::Char('j'), KeyMods::Plain), None);
    assert_eq!(ed.cursor_position, (0, 1));
    assert_eq!(ed.handle_input(Key::Char('$'), KeyMods::Plain), None);
    assert_eq!(ed.cursor_position, (10, 1));
    assert_eq!(ed.handle_input(Key::Char('k'), KeyMods::Plain), None);
    assert_eq!(ed.cursor_position.1, 0);
    assert_eq!(ed.handle_input(Key::Home, KeyMods::Plain), None);
    assert_eq!(ed.cursor_position, (0, 0));
    assert_eq!(ed.handle_input(Key::Char('w'), KeyMods::Control), None);
    assert_eq!(ed.cursor_position, (5, 0));
}

#[test]
fn save_actions_are_echoed_to_the_host() {
    let mut ed = editor_with("ab");
    assert_eq!(ed.handle_input(Key::Char('w'), KeyMods::Plain), Some(EditorAction::Save));
    assert_eq!(ed.handle_input(Key::Char('q'), KeyMods::Plain), Some(EditorAction::Exit));
}

#[test]
fn start_command_clears_the_command_buffer() {
    let mut ed = editor_with("ab");
    ed.command_buffer = String::from("stale");
    assert_eq!(
        ed.handle_input(Key::Char(':'), KeyMods::Plain),
        Some(EditorAction::StartCommand)
    );
    assert_eq!(ed.mode, EditorMode::Command);
    assert_eq!(ed.command_buffer, "");
    // Command mode dispatches through the same table as Normal mode
    assert_eq!(ed.handle_input(Key::Esc, KeyMods::Plain), Some(EditorAction::ChangeMode(false)));
    assert_eq!(ed.mode, EditorMode::Normal);
}

#[test]
fn executor_passes_unhandled_actions_back() {
    let mut ed = editor_with("ab");
    assert_eq!(ed.handle_action(EditorAction::Exit), Some(EditorAction::Exit));
    assert_eq!(ed.handle_action(EditorAction::SaveExit), Some(EditorAction::SaveExit));
    assert_eq!(ed.handle_action(EditorAction::Tab), Some(EditorAction::Tab));
    assert_eq!(ed.buffer.text(), "ab");
    assert_eq!(ed.handle_action(EditorAction::MoveCursor((1, 0))), None);
    assert_eq!(ed.cursor_position, (1, 0));
}
