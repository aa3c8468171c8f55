//! Keyboard dispatch: a key plus the current mode maps to at most one
//! action.
//!
//! The engine models a key event as a code and a modifier, independent of
//! any terminal backend; the host converts its own events into these.
//! `key_action` is the Normal/Command table, `insert_key_action` the
//! disjoint Insert table; each executable dispatcher returns exactly what
//! its table says.

use vstd::prelude::*;
use crate::editor::EditorAction;

verus! {

/// A keyboard key the engine reacts to.
#[derive(Clone, Copy, PartialEq, Eq, Debug)]
pub enum Key {
    Char(char),
    Esc,
    Enter,
    Backspace,
    Delete,
    Tab,
    Up,
    Down,
    Left,
    Right,
    Home,
    End,
    PageUp,
    PageDown,
}

/// The modifier held with it; anything beyond a single plain modifier is
/// `Other` and matches no table entry.
#[derive(Clone, Copy, PartialEq, Eq, Structural, Debug)]
pub enum KeyMods {
    Plain,
    Shift,
    Control,
    Other,
}

/// The Normal/Command dispatch table.
pub open spec fn key_action(key: Key, mods: KeyMods) -> Option<EditorAction> {
    match (key, mods) {
        (Key::Char('c'), KeyMods::Control) => Some(EditorAction::Exit),
        (Key::Char('w'), KeyMods::Control) => Some(EditorAction::MoveWord(1i16)),
        (Key::Char('b'), KeyMods::Control) => Some(EditorAction::MoveWord(-1i16)),
        (Key::Char('q'), KeyMods::Plain) => Some(EditorAction::Exit),
        (Key::Char('w'), KeyMods::Plain) => Some(EditorAction::Save),
        (Key::Char('i'), KeyMods::Plain) => Some(EditorAction::ChangeMode(true)),
        (Key::Esc, KeyMods::Plain) => Some(EditorAction::ChangeMode(false)),
        (Key::Char(':'), KeyMods::Plain) => Some(EditorAction::StartCommand),
        (Key::Up, KeyMods::Plain) => Some(EditorAction::MoveCursor((0i16, -1i16))),
        (Key::Char('k'), KeyMods::Plain) => Some(EditorAction::MoveCursor((0i16, -1i16))),
        (Key::Down, KeyMods::Plain) => Some(EditorAction::MoveCursor((0i16, 1i16))),
        (Key::Char('j'), KeyMods::Plain) => Some(EditorAction::MoveCursor((0i16, 1i16))),
        (Key::Left, KeyMods::Plain) => Some(EditorAction::MoveCursor((-1i16, 0i16))),
        (Key::Char('h'), KeyMods::Plain) => Some(EditorAction::MoveCursor((-1i16, 0i16))),
        (Key::Right, KeyMods::Plain) => Some(EditorAction::MoveCursor((1i16, 0i16))),
        (Key::Char('l'), KeyMods::Plain) => Some(EditorAction::MoveCursor((1i16, 0i16))),
        (Key::Home, KeyMods::Plain) => Some(EditorAction::LineStart),
        (Key::Char('0'), KeyMods::Plain) => Some(EditorAction::LineStart),
        (Key::End, KeyMods::Plain) => Some(EditorAction::LineEnd),
        (Key::Char('$'), KeyMods::Plain) => Some(EditorAction::LineEnd),
        (Key::PageUp, KeyMods::Plain) => Some(EditorAction::PageUp),
        (Key::PageDown, KeyMods::Plain) => Some(EditorAction::PageDown),
        (Key::Char(c), KeyMods::Plain) => Some(EditorAction::InsertChar(c)),
        (Key::Char(c), KeyMods::Shift) => Some(EditorAction::InsertChar(c)),
        (Key::Tab, KeyMods::Plain) => Some(EditorAction::Tab),
        (Key::Enter, KeyMods::Plain) => Some(EditorAction::InsertChar('\n')),
        (Key::Backspace, KeyMods::Plain) => Some(EditorAction::DeleteChar),
        _ => None,
    }
}

/// The Insert-mode dispatch table: Esc and Backspace act under any
/// modifier, characters enter themselves under none or Shift, and Tab
/// and the arrows act unmodified.
pub open spec fn insert_key_action(key: Key, mods: KeyMods) -> Option<EditorAction> {
    match key {
        Key::Esc => Some(EditorAction::ChangeMode(false)),
        Key::Backspace => Some(EditorAction::Backspace),
        Key::Char(c) => if mods == KeyMods::Plain || mods == KeyMods::Shift {
            Some(EditorAction::InsertChar(c))
        } else {
            None
        },
        Key::Tab => if mods == KeyMods::Plain {
            Some(EditorAction::Tab)
        } else {
            None
        },
        Key::Up => if mods == KeyMods::Plain {
            Some(EditorAction::MoveCursor((0i16, -1i16)))
        } else {
            None
        },
        Key::Down => if mods == KeyMods::Plain {
            Some(EditorAction::MoveCursor((0i16, 1i16)))
        } else {
            None
        },
        Key::Left => if mods == KeyMods::Plain {
            Some(EditorAction::MoveCursor((-1i16, 0i16)))
        } else {
            None
        },
        Key::Right => if mods == KeyMods::Plain {
            Some(EditorAction::MoveCursor((1i16, 0i16)))
        } else {
            None
        },
        _ => None,
    }
}

/// Map a key in Normal or Command mode to its action, exactly as the
/// dispatch table says.
pub fn handle_key_event(key: Key, mods: KeyMods) -> (r: Option<EditorAction>)
    ensures
        r == key_action(key, mods),
{
    match (key, mods) {
        (Key::Char('c'), KeyMods::Control) => Some(EditorAction::Exit),
        (Key::Char('w'), KeyMods::Control) => Some(EditorAction::MoveWord(1i16)),
        (Key::Char('b'), KeyMods::Control) => Some(EditorAction::MoveWord(-1i16)),
        (Key::Char('q'), KeyMods::Plain) => Some(EditorAction::Exit),
        (Key::Char('w'), KeyMods::Plain) => Some(EditorAction::Save),
        (Key::Char('i'), KeyMods::Plain) => Some(EditorAction::ChangeMode(true)),
        (Key::Esc, KeyMods::Plain) => Some(EditorAction::ChangeMode(false)),
        (Key::Char(':'), KeyMods::Plain) => Some(EditorAction::StartCommand),
        (Key::Up, KeyMods::Plain) => Some(EditorAction::MoveCursor((0i16, -1i16))),
        (Key::Char('k'), KeyMods::Plain) => Some(EditorAction::MoveCursor((0i16, -1i16))),
        (Key::Down, KeyMods::Plain) => Some(EditorAction::MoveCursor((0i16, 1i16))),
        (Key::Char('j'), KeyMods::Plain) => Some(EditorAction::MoveCursor((0i16, 1i16))),
        (Key::Left, KeyMods::Plain) => Some(EditorAction::MoveCursor((-1i16, 0i16))),
        (Key::Char('h'), KeyMods::Plain) => Some(EditorAction::MoveCursor((-1i16, 0i16))),
        (Key::Right, KeyMods::Plain) => Some(EditorAction::MoveCursor((1i16, 0i16))),
        (Key::Char('l'), KeyMods::Plain) => Some(EditorAction::MoveCursor((1i16, 0i16))),
        (Key::Home, KeyMods::Plain) => Some(EditorAction::LineStart),
        (Key::Char('0'), KeyMods::Plain) => Some(EditorAction::LineStart),
        (Key::End, KeyMods::Plain) => Some(EditorAction::LineEnd),
        (Key::Char('$'), KeyMods::Plain) => Some(EditorAction::LineEnd),
        (Key::PageUp, KeyMods::Plain) => Some(EditorAction::PageUp),
        (Key::PageDown, KeyMods::Plain) => Some(EditorAction::PageDown),
        (Key::Char(c), KeyMods::Plain) => Some(EditorAction::InsertChar(c)),
        (Key::Char(c), KeyMods::Shift) => Some(EditorAction::InsertChar(c)),
        (Key::Tab, KeyMods::Plain) => Some(EditorAction::Tab),
        (Key::Enter, KeyMods::Plain) => Some(EditorAction::InsertChar('\n')),
        (Key::Backspace, KeyMods::Plain) => Some(EditorAction::DeleteChar),
        _ => None,
    }
}

} // verus!
