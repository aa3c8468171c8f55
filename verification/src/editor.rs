//! The editor session: buffer, cursor, viewport and mode, with the
//! transitions every action performs on them.
//!
//! Each mutating method's contract names a spec-level transition on the
//! session state, so the clamping rules (cursor never out of bounds, the
//! scroll margin, the modal column limit) are stated once and proved of
//! the code that implements them.

use vstd::prelude::*;
use vstd::math::{min, max};
use crate::buffer::{RopeTextBuffer, lemma_buffer_len};
use crate::lines::{line_count, line_start, line_len, line_at, lemma_line_region,
    lemma_line_start_found};
use crate::words::{word_char, is_word_char, skip_word, skip_gap, word_fwd, back_gap,
    back_word, word_bwd};

verus! {

/// What the dispatcher asks the executor to do; `Exit`, `Save` and
/// `SaveExit` are echoed back to the host, which owns all file I/O.
#[derive(Clone, Copy, PartialEq, Eq, Debug)]
pub enum EditorAction {
    Exit,
    Save,
    SaveExit,
    ChangeMode(bool),
    MoveCursor((i16, i16)),
    MoveWord(i16),
    LineStart,
    LineEnd,
    PageUp,
    PageDown,
    StartCommand,
    InsertChar(char),
    DeleteChar,
    Backspace,
    Tab,
}

#[derive(Clone, Copy, PartialEq, Eq, Structural, Debug)]
pub enum EditorMode {
    Normal,
    Insert,
    Command,
}

/// Ceiling for the scroll offsets kept by the well-formedness invariant;
/// the viewport recomputation always lands far below it.
pub const SCROLL_CAP: usize = 0x2_0000;

pub struct CimEditor {
    pub buffer: RopeTextBuffer,
    pub mode: EditorMode,
    pub command_buffer: String,
    pub cursor_position: (u16, u16),
    pub scroll_offset: usize,
    pub horizontal_offset: usize,
    pub viewport_height: usize,
    pub viewport_width: usize,
    pub text_changed: bool,
}

/// Vertical scroll margin: two lines, or a quarter of a small viewport.
pub open spec fn v_margin(vh: int) -> int {
    min(2, vh / 4)
}

/// Horizontal scroll margin: five columns, or a quarter of a narrow one.
pub open spec fn h_margin(vw: int) -> int {
    min(5, vw / 4)
}

/// The vertical scroll offset after recomputation: scroll just far enough
/// to keep the cursor `v_margin` lines from either edge, then clamp so the
/// viewport does not run past the end of the document.
pub open spec fn vscroll_after(lc: int, vh: int, so: int, y: int) -> int {
    let m = v_margin(vh);
    let s1 = if y < so + m {
        max(y - m, 0)
    } else if y >= so + vh - m {
        max(y + m - vh, 0)
    } else {
        so
    };
    min(s1, max(lc - vh, 0))
}

/// The horizontal scroll offset after recomputation: the same margin rule
/// applied to columns.
pub open spec fn hscroll_after(vw: int, ho: int, x: int) -> int {
    let m = h_margin(vw);
    if x < ho + m {
        max(x - m, 0)
    } else if x >= ho + vw - m {
        max(x + m - vw, 0)
    } else {
        ho
    }
}

/// The session after the viewport offsets are recomputed from the cursor.
pub open spec fn viewport_state(e: CimEditor) -> CimEditor {
    CimEditor {
        scroll_offset: vscroll_after(
            line_count(e.buffer@) as int,
            e.viewport_height as int,
            e.scroll_offset as int,
            e.cursor_position.1 as int,
        ) as usize,
        horizontal_offset: hscroll_after(
            e.viewport_width as int,
            e.horizontal_offset as int,
            e.cursor_position.0 as int,
        ) as usize,
        ..e
    }
}

/// The cursor line after clamping to the document.
pub open spec fn norm_y(s: Seq<char>, y: int) -> int {
    min(y, line_count(s) as int - 1)
}

/// The largest column the cursor may rest on: in Normal mode on a
/// non-empty line it sits on a character, otherwise it may sit just past
/// the last one.
pub open spec fn max_col(s: Seq<char>, mode: EditorMode, y: int) -> int {
    if mode == EditorMode::Normal && line_len(s, y) > 0 {
        line_len(s, y) - 1
    } else {
        line_len(s, y)
    }
}

/// The cursor column after clamping: snapping to a different line resets
/// the column to the line start.
pub open spec fn norm_x(s: Seq<char>, mode: EditorMode, x: int, y: int) -> int {
    if norm_y(s, y) != y {
        0
    } else {
        min(x, max_col(s, mode, y))
    }
}

/// The session after the cursor is clamped and the viewport follows it.
pub open spec fn normalize_state(e: CimEditor) -> CimEditor {
    let s = e.buffer@;
    let ny = norm_y(s, e.cursor_position.1 as int);
    let nx = norm_x(s, e.mode, e.cursor_position.0 as int, e.cursor_position.1 as int);
    viewport_state(CimEditor { cursor_position: ((nx as u16), (ny as u16)), ..e })
}

/// Signed cursor motion, saturating at 0 and at `cap`.
pub open spec fn sat_add(v: int, d: int, cap: int) -> int {
    min(max(v + d, 0), cap)
}

/// The last line index a `u16` cursor can address.
pub open spec fn move_max_y(s: Seq<char>) -> int {
    min(line_count(s) as int - 1, 0xFFFF)
}

/// The bound a plain cursor motion saturates to: the full line length on
/// the sentinel last line, one less on any earlier line.
pub open spec fn move_max_x(s: Seq<char>, y: int) -> int {
    if y == line_count(s) as int - 1 {
        line_len(s, y)
    } else {
        max(line_len(s, y) - 1, 0)
    }
}

/// The session after a relative cursor motion: both axes move by their
/// delta, saturating at the boundaries, and the viewport follows.
pub open spec fn move_cursor_state(e: CimEditor, dx: int, dy: int) -> CimEditor {
    let s = e.buffer@;
    let ny = sat_add(e.cursor_position.1 as int, dy, move_max_y(s));
    let mx = min(move_max_x(s, ny), 0xFFFF);
    let nx = sat_add(e.cursor_position.0 as int, dx, mx);
    viewport_state(CimEditor { cursor_position: ((nx as u16), (ny as u16)), ..e })
}

/// The session after jumping to the start of the cursor's line.
pub open spec fn line_start_state(e: CimEditor) -> CimEditor {
    viewport_state(CimEditor { cursor_position: (0u16, e.cursor_position.1), ..e })
}

/// The session after jumping to the end of the cursor's line: in Insert
/// mode just past the last character, otherwise onto it.
pub open spec fn line_end_state(e: CimEditor) -> CimEditor {
    let s = e.buffer@;
    let y = e.cursor_position.1 as int;
    let ll = if y < line_count(s) {
        line_len(s, y)
    } else {
        0
    };
    let nx = min(
        if e.mode == EditorMode::Insert {
            ll
        } else {
            max(ll - 1, 0)
        },
        0xFFFF,
    );
    viewport_state(CimEditor { cursor_position: ((nx as u16), e.cursor_position.1), ..e })
}

/// The session after paging up: cursor and scroll both move up by one
/// viewport height (stopping at the top), then everything re-clamps.
pub open spec fn page_up_state(e: CimEditor) -> CimEditor {
    let amt = min(e.viewport_height as int, e.cursor_position.1 as int);
    normalize_state(
        CimEditor {
            cursor_position: (e.cursor_position.0, ((e.cursor_position.1 as int - amt) as u16)),
            scroll_offset: (max(e.scroll_offset as int - amt, 0) as usize),
            ..e
        },
    )
}

/// The session after paging down: the cursor moves down by one viewport
/// height (stopping at the last line), the scroll offset follows by the
/// same amount, then everything re-clamps.
pub open spec fn page_down_state(e: CimEditor) -> CimEditor {
    let s = e.buffer@;
    let y = e.cursor_position.1 as int;
    let max_line = line_count(s) as int - 1;
    let ny = if max_line <= y {
        y
    } else {
        min(min(y + e.viewport_height as int, max_line), 0xFFFF)
    };
    let moved = ny - y;
    normalize_state(
        CimEditor {
            cursor_position: (e.cursor_position.0, (ny as u16)),
            scroll_offset: (min(e.scroll_offset as int + moved, SCROLL_CAP as int) as usize),
            ..e
        },
    )
}

/// The session after a mode change; the cursor re-clamps because the
/// valid column range depends on the mode.
pub open spec fn change_mode_state(e: CimEditor, insert_mode: bool) -> CimEditor {
    normalize_state(
        CimEditor {
            mode: if insert_mode {
                EditorMode::Insert
            } else {
                EditorMode::Normal
            },
            ..e
        },
    )
}

/// The session after a word motion on the cursor's line: forward lands on
/// the first character of the next word (or the line end), backward on the
/// first character of the word to the left.  The motion never leaves the
/// line, and does nothing from outside it.
pub open spec fn move_word_state(e: CimEditor, dir: int) -> CimEditor {
    let s = e.buffer@;
    let x = e.cursor_position.0 as int;
    let y = e.cursor_position.1 as int;
    if dir == 0 || y >= line_count(s) {
        e
    } else {
        let cs = line_at(s, y);
        if cs.len() == 0 || x >= cs.len() {
            e
        } else if dir > 0 {
            let nx = min(word_fwd(cs, x), 0xFFFF);
            viewport_state(CimEditor { cursor_position: ((nx as u16), e.cursor_position.1), ..e })
        } else if x == 0 {
            e
        } else {
            let nx = word_bwd(cs, x);
            viewport_state(CimEditor { cursor_position: ((nx as u16), e.cursor_position.1), ..e })
        }
    }
}

/// The splice offset the cursor addresses: the start of its line plus its
/// column, held within the line's content.
pub open spec fn insert_splice_pos(s: Seq<char>, x: int, y: int) -> int {
    line_start(s, y) + min(x, line_len(s, y))
}

/// The session `post` is `pre` after an edit that left the document as
/// `s2` and put the cursor at `(midx, midy)` before the re-clamp: buffer
/// dirty, highlight refresh owed, cursor and viewport re-normalized,
/// everything else untouched.
pub open spec fn edited_to(pre: CimEditor, post: CimEditor, s2: Seq<char>, midx: int, midy: int) -> bool {
    &&& post.buffer@ == s2
    &&& post.buffer.modified_flag()
    &&& post.text_changed
    &&& post.mode == pre.mode
    &&& post.command_buffer == pre.command_buffer
    &&& post.viewport_height == pre.viewport_height
    &&& post.viewport_width == pre.viewport_width
    &&& post.cursor_position.1 as int == norm_y(s2, midy)
    &&& post.cursor_position.0 as int == norm_x(s2, pre.mode, midx, midy)
    &&& post.scroll_offset as int == vscroll_after(
        line_count(s2) as int,
        pre.viewport_height as int,
        pre.scroll_offset as int,
        post.cursor_position.1 as int,
    )
    &&& post.horizontal_offset as int == hscroll_after(
        pre.viewport_width as int,
        pre.horizontal_offset as int,
        post.cursor_position.0 as int,
    )
}

/// Inserting `c`: one character is spliced at the cursor's offset; a
/// plain character advances the column, a newline splits the line and
/// the cursor starts the next one.
pub open spec fn insert_char_rel(pre: CimEditor, post: CimEditor, c: char) -> bool {
    let s1 = pre.buffer@;
    let x = pre.cursor_position.0 as int;
    let yr = pre.cursor_position.1 as int;
    let y = norm_y(s1, yr);
    let p = insert_splice_pos(s1, x, y);
    let s2 = s1.insert(p, c);
    let midx = if c == '\n' {
        0int
    } else {
        min(x + 1, 0xFFFF)
    };
    let midy = if c == '\n' {
        min(yr + 1, 0xFFFF)
    } else {
        yr
    };
    edited_to(pre, post, s2, midx, midy)
}

/// Backspace: before the line start nothing happens on the first line;
/// at column 0 of a later line the joining newline goes and the cursor
/// lands at the end of the previous line; otherwise the character before
/// the cursor goes and the column steps back.
pub open spec fn delete_char_rel(pre: CimEditor, post: CimEditor) -> bool {
    let s1 = pre.buffer@;
    let x = pre.cursor_position.0 as int;
    let yr = pre.cursor_position.1 as int;
    let y = norm_y(s1, yr);
    let ex = min(x, line_len(s1, y));
    if ex > 0 {
        edited_to(pre, post, s1.remove(line_start(s1, y) + ex - 1), ex - 1, yr)
    } else if y > 0 {
        edited_to(
            pre,
            post,
            s1.remove(line_start(s1, y) - 1),
            min(line_len(s1, y - 1), 0xFFFF),
            y - 1,
        )
    } else {
        post == pre
    }
}

/// Tab: four spaces spliced at the cursor's offset, the column advancing
/// over them.
pub open spec fn tab_rel(pre: CimEditor, post: CimEditor) -> bool {
    let s1 = pre.buffer@;
    let x = pre.cursor_position.0 as int;
    let yr = pre.cursor_position.1 as int;
    let y = norm_y(s1, yr);
    let p = insert_splice_pos(s1, x, y);
    let s2 = s1.insert(p, ' ').insert(p + 1, ' ').insert(p + 2, ' ').insert(p + 3, ' ');
    let midx = min(min(x, line_len(s1, y)) + 4, 0xFFFF);
    edited_to(pre, post, s2, midx, yr)
}

/// What the executor hands back for each action: actions it fully
/// consumes yield nothing; mode changes and everything the host must act
/// on (exit, the save requests) are echoed back.
pub open spec fn action_result(a: EditorAction) -> Option<EditorAction> {
    match a {
        EditorAction::MoveCursor(_) => None::<EditorAction>,
        EditorAction::MoveWord(_) => None,
        EditorAction::LineStart => None,
        EditorAction::LineEnd => None,
        EditorAction::PageUp => None,
        EditorAction::PageDown => None,
        EditorAction::InsertChar(_) => None,
        EditorAction::DeleteChar => None,
        _ => Some(a),
    }
}

/// How the session changes under each action.  An `InsertChar` delivered
/// outside Insert mode is ignored; `Exit`, `Save`, `SaveExit`, `Backspace`
/// and `Tab` leave the session untouched here (the host reacts to them).
pub open spec fn action_state_rel(pre: CimEditor, post: CimEditor, a: EditorAction) -> bool {
    match a {
        EditorAction::ChangeMode(b) => post == change_mode_state(pre, b),
        EditorAction::MoveCursor(d) => post == move_cursor_state(pre, d.0 as int, d.1 as int),
        EditorAction::MoveWord(d) => post == move_word_state(pre, d as int),
        EditorAction::LineStart => post == line_start_state(pre),
        EditorAction::LineEnd => post == line_end_state(pre),
        EditorAction::PageUp => post == page_up_state(pre),
        EditorAction::PageDown => post == page_down_state(pre),
        EditorAction::InsertChar(c) => if pre.mode == EditorMode::Insert {
            insert_char_rel(pre, post, c)
        } else {
            post == pre
        },
        EditorAction::DeleteChar => delete_char_rel(pre, post),
        EditorAction::StartCommand => post.command_buffer@ == Seq::<char>::empty() && post
            == (CimEditor { mode: EditorMode::Command, command_buffer: post.command_buffer, ..pre }),
        _ => post == pre,
    }
}

/// How the session changes under one Insert-mode key, given what the
/// Insert table dispatched for it.
pub open spec fn insert_state_rel(pre: CimEditor, post: CimEditor, oa: Option<EditorAction>) -> bool {
    match oa {
        Some(EditorAction::ChangeMode(b)) => post == change_mode_state(pre, b),
        Some(EditorAction::Backspace) => delete_char_rel(pre, post),
        Some(EditorAction::InsertChar(c)) => insert_char_rel(pre, post, c),
        Some(EditorAction::Tab) => tab_rel(pre, post),
        Some(EditorAction::MoveCursor(d)) => post == move_cursor_state(
            pre,
            d.0 as int,
            d.1 as int,
        ),
        _ => post == pre,
    }
}

/// Signed saturating motion on one axis, as the code computes it.
fn sat_add_u16(v: u16, d: i16, cap: u16) -> (r: u16)
    ensures
        r as int == sat_add(v as int, d as int, cap as int),
{
    let vi = v as i32 + d as i32;
    let ci = cap as i32;
    let r = if vi < 0 {
        0i32
    } else if vi > ci {
        ci
    } else {
        vi
    };
    r as u16
}

impl CimEditor {
    /// Bounds every method relies on: the buffer model is in step with
    /// its rope, the host-supplied viewport fits a terminal, and the
    /// scroll offsets are below `SCROLL_CAP`.
    pub open spec fn wf(self) -> bool {
        &&& self.buffer.wf()
        &&& self.viewport_height <= 0xFFFF
        &&& self.viewport_width <= 0xFFFF
        &&& self.scroll_offset <= SCROLL_CAP
        &&& self.horizontal_offset <= SCROLL_CAP
    }

    /// A fresh session on the given text: Normal mode, cursor at the
    /// origin, nothing scrolled, highlight refresh pending.
    pub fn new(text: &str) -> (ed: CimEditor)
        requires
            text@.len() < usize::MAX,
        ensures
            ed.wf(),
            ed.buffer@ == text@,
            !ed.buffer.modified_flag(),
            ed.mode == EditorMode::Normal,
            ed.command_buffer@ == Seq::<char>::empty(),
            ed.cursor_position == (0u16, 0u16),
            ed.scroll_offset == 0usize,
            ed.horizontal_offset == 0usize,
            ed.viewport_height == 0usize,
            ed.viewport_width == 0usize,
            ed.text_changed,
    {
        CimEditor {
            buffer: RopeTextBuffer::new(text),
            mode: EditorMode::Normal,
            command_buffer: String::new(),
            cursor_position: (0, 0),
            scroll_offset: 0,
            horizontal_offset: 0,
            viewport_height: 0,
            viewport_width: 0,
            text_changed: true,
        }
    }

    /// Record the drawable area the host has this frame.
    pub fn set_viewport_size(&mut self, height: usize, width: usize)
        requires
            old(self).wf(),
            height <= 0xFFFF,
            width <= 0xFFFF,
        ensures
            final(self).wf(),
            *final(self) == (CimEditor {
                viewport_height: height,
                viewport_width: width,
                ..*old(self)
            }),
    {
        self.viewport_height = height;
        self.viewport_width = width;
    }

    /// Number of lines in the document.
    pub fn total_lines(&self) -> (n: usize)
        requires
            self.wf(),
        ensures
            n as nat == line_count(self.buffer@),
    {
        self.buffer.line_count()
    }

    /// Length of the cursor's line, excluding its newline; 0 when the
    /// cursor line is past the document.
    pub fn current_line_length(&self) -> (n: usize)
        requires
            self.wf(),
        ensures
            n as int == ({
                let s = self.buffer@;
                let y = self.cursor_position.1 as int;
                if y < line_count(s) {
                    line_len(s, y)
                } else {
                    0
                }
            }),
    {
        let lc = self.buffer.line_count();
        let y = self.cursor_position.1 as usize;
        if y < lc {
            self.buffer.line_len(y)
        } else {
            0
        }
    }

    /// Recompute both scroll offsets from the current cursor.
    pub fn update_viewport(&mut self)
        requires
            old(self).wf(),
        ensures
            final(self).wf(),
            *final(self) == viewport_state(*old(self)),
            final(self).scroll_offset <= 0x1_0002,
            final(self).horizontal_offset <= 0x1_0005,
    {
        let x = self.cursor_position.0 as usize;
        let y = self.cursor_position.1 as usize;
        let lc = self.buffer.line_count();

        let q = self.viewport_height / 4;
        let m = if q < 2 { q } else { 2 };
        let s1 = if y < self.scroll_offset + m {
            if y > m {
                y - m
            } else {
                0
            }
        } else if y >= self.scroll_offset + (self.viewport_height - m) {
            if y + m > self.viewport_height {
                y + m - self.viewport_height
            } else {
                0
            }
        } else {
            self.scroll_offset
        };
        let cap = if lc > self.viewport_height {
            lc - self.viewport_height
        } else {
            0
        };
        self.scroll_offset = if s1 < cap {
            s1
        } else {
            cap
        };

        let hq = self.viewport_width / 4;
        let hm = if hq < 5 { hq } else { 5 };
        self.horizontal_offset = if x < self.horizontal_offset + hm {
            if x > hm {
                x - hm
            } else {
                0
            }
        } else if x >= self.horizontal_offset + (self.viewport_width - hm) {
            if x + hm > self.viewport_width {
                x + hm - self.viewport_width
            } else {
                0
            }
        } else {
            self.horizontal_offset
        };
    }

    /// Clamp the cursor to the document under the current mode's column
    /// rule, then let the viewport follow.
    pub fn normalize_cursor(&mut self)
        requires
            old(self).wf(),
        ensures
            final(self).wf(),
            *final(self) == normalize_state(*old(self)),
    {
        let (x, y) = self.cursor_position;
        let lc = self.buffer.line_count();
        let new_y: u16 = if (y as usize) < lc {
            y
        } else {
            (lc - 1) as u16
        };
        let new_x: u16 = if new_y != y {
            0
        } else {
            let ll = self.buffer.line_len(new_y as usize);
            let mc = if self.mode == EditorMode::Normal && ll > 0 {
                ll - 1
            } else {
                ll
            };
            if (x as usize) <= mc {
                x
            } else {
                mc as u16
            }
        };
        self.cursor_position = (new_x, new_y);
        self.update_viewport();
    }

    /// After an edit: flag the highlight refresh and re-clamp everything.
    pub fn update_after_edit(&mut self)
        requires
            old(self).wf(),
        ensures
            final(self).wf(),
            *final(self) == normalize_state(CimEditor { text_changed: true, ..*old(self) }),
    {
        self.text_changed = true;
        self.normalize_cursor();
    }

    /// Move the cursor by a signed delta on each axis; motion saturates
    /// at the document boundaries and never wraps to another line.
    pub fn move_cursor(&mut self, direction: (i16, i16))
        requires
            old(self).wf(),
        ensures
            final(self).wf(),
            *final(self) == move_cursor_state(
                *old(self),
                direction.0 as int,
                direction.1 as int,
            ),
    {
        let (dx, dy) = direction;
        let lc = self.buffer.line_count();
        let max_y_us = lc - 1;
        let max_y: u16 = if max_y_us > 0xFFFF {
            0xFFFF
        } else {
            max_y_us as u16
        };
        let ny = sat_add_u16(self.cursor_position.1, dy, max_y);
        let ll = self.buffer.line_len(ny as usize);
        let mxl = if (ny as usize) == max_y_us {
            ll
        } else {
            if ll > 0 {
                ll - 1
            } else {
                0
            }
        };
        let mx: u16 = if mxl > 0xFFFF {
            0xFFFF
        } else {
            mxl as u16
        };
        let nx = sat_add_u16(self.cursor_position.0, dx, mx);
        self.cursor_position = (nx, ny);
        self.update_viewport();
    }

    /// Jump to column 0 of the cursor's line.
    pub fn go_to_line_start(&mut self)
        requires
            old(self).wf(),
        ensures
            final(self).wf(),
            *final(self) == line_start_state(*old(self)),
    {
        self.cursor_position.0 = 0;
        self.update_viewport();
    }

    /// Jump to the end of the cursor's line: past the last character in
    /// Insert mode, onto it otherwise.
    pub fn go_to_line_end(&mut self)
        requires
            old(self).wf(),
        ensures
            final(self).wf(),
            *final(self) == line_end_state(*old(self)),
    {
        let lc = self.buffer.line_count();
        let y = self.cursor_position.1 as usize;
        let ll = if y < lc {
            self.buffer.line_len(y)
        } else {
            0
        };
        let target = if self.mode == EditorMode::Insert {
            ll
        } else {
            if ll > 0 {
                ll - 1
            } else {
                0
            }
        };
        self.cursor_position.0 = if target > 0xFFFF {
            0xFFFF
        } else {
            target as u16
        };
        self.update_viewport();
    }

    /// Page up: cursor and scroll move up one viewport height.
    pub fn page_up(&mut self)
        requires
            old(self).wf(),
        ensures
            final(self).wf(),
            *final(self) == page_up_state(*old(self)),
    {
        let y = self.cursor_position.1 as usize;
        let scroll_amount = if self.viewport_height < y {
            self.viewport_height
        } else {
            y
        };
        self.cursor_position.1 = (y - scroll_amount) as u16;
        if self.scroll_offset > scroll_amount {
            self.scroll_offset = self.scroll_offset - scroll_amount;
        } else {
            self.scroll_offset = 0;
        }
        self.normalize_cursor();
    }

    /// Page down: cursor moves down one viewport height, stopping at the
    /// last line, and the scroll offset follows by the same amount.
    pub fn page_down(&mut self)
        requires
            old(self).wf(),
        ensures
            final(self).wf(),
            *final(self) == page_down_state(*old(self)),
    {
        let lc = self.buffer.line_count();
        let max_line = lc - 1;
        let y = self.cursor_position.1 as usize;
        let new_y: usize = if max_line <= y {
            y
        } else {
            let stepped = if y + self.viewport_height < max_line {
                y + self.viewport_height
            } else {
                max_line
            };
            if stepped > 0xFFFF {
                0xFFFF
            } else {
                stepped
            }
        };
        let moved = new_y - y;
        self.cursor_position.1 = new_y as u16;
        self.scroll_offset = if self.scroll_offset + moved < SCROLL_CAP {
            self.scroll_offset + moved
        } else {
            SCROLL_CAP
        };
        self.normalize_cursor();
    }

    /// Switch between Insert and Normal mode; the cursor re-clamps under
    /// the new mode's column rule.
    pub fn change_mode(&mut self, insert_mode: bool)
        requires
            old(self).wf(),
        ensures
            final(self).wf(),
            *final(self) == change_mode_state(*old(self), insert_mode),
    {
        self.mode = if insert_mode {
            EditorMode::Insert
        } else {
            EditorMode::Normal
        };
        self.normalize_cursor();
    }

    /// Word motion on the cursor's line; `direction > 0` lands on the
    /// first character of the next word or the line end, `direction < 0`
    /// on the first character of the word to the left.
    pub fn move_cursor_word(&mut self, direction: i16)
        requires
            old(self).wf(),
        ensures
            final(self).wf(),
            *final(self) == move_word_state(*old(self), direction as int),
    {
        if direction == 0 {
            return ;
        }
        let (x16, y16) = self.cursor_position;
        let x = x16 as usize;
        let y = y16 as usize;
        let lc = self.buffer.line_count();
        if y >= lc {
            return ;
        }
        let line = self.buffer.line_chars(y);
        let ghost cs = line@;
        if line.len() == 0 {
            return ;
        }
        if x >= line.len() {
            return ;
        }
        if direction > 0 {
            let mut nx = x;
            if word_char(line[nx]) {
                while nx < line.len() && word_char(line[nx])
                    invariant
                        x <= nx <= cs.len(),
                        cs == line@,
                        skip_word(cs, x as int) == skip_word(cs, nx as int),
                    decreases cs.len() - nx,
                {
                    nx = nx + 1;
                }
            }
            let ghost a = if is_word_char(cs[x as int]) {
                skip_word(cs, x as int)
            } else {
                x as int
            };
            assert(nx as int == a);
            while nx < line.len() && !word_char(line[nx])
                invariant
                    0 <= a <= nx <= cs.len(),
                    cs == line@,
                    skip_gap(cs, a) == skip_gap(cs, nx as int),
                decreases cs.len() - nx,
            {
                nx = nx + 1;
            }
            assert(nx as int == word_fwd(cs, x as int));
            let nx16: u16 = if nx > 0xFFFF {
                0xFFFF
            } else {
                nx as u16
            };
            self.cursor_position = (nx16, y16);
            self.update_viewport();
        } else {
            if x == 0 {
                return ;
            }
            let mut nx = x - 1;
            while nx > 0 && !word_char(line[nx])
                invariant
                    0 <= nx <= x - 1,
                    x <= cs.len(),
                    cs == line@,
                    back_gap(cs, (x - 1) as int) == back_gap(cs, nx as int),
                decreases nx,
            {
                nx = nx - 1;
            }
            let ghost g = back_gap(cs, (x - 1) as int);
            assert(nx as int == g);
            while nx > 0 && word_char(line[nx - 1])
                invariant
                    0 <= nx <= g,
                    g <= cs.len(),
                    cs == line@,
                    back_word(cs, g) == back_word(cs, nx as int),
                decreases nx,
            {
                nx = nx - 1;
            }
            assert(nx as int == word_bwd(cs, x as int));
            self.cursor_position = ((nx as u16), y16);
            self.update_viewport();
        }
    }

    /// Insert `c` at the cursor: a plain character advances the column;
    /// `'\n'` splits the line, the remainder migrating to the new line,
    /// and the cursor starts it.
    pub fn insert_char(&mut self, c: char)
        requires
            old(self).wf(),
            old(self).buffer@.len() + 1 < usize::MAX,
        ensures
            final(self).wf(),
            insert_char_rel(*old(self), *final(self), c),
    {
        let (x16, y16) = self.cursor_position;
        let lc = self.buffer.line_count();
        let y = if (y16 as usize) < lc {
            y16 as usize
        } else {
            lc - 1
        };
        let st = self.buffer.offset_of_line(y);
        let ll = self.buffer.line_len(y);
        let xm = if (x16 as usize) < ll {
            x16 as usize
        } else {
            ll
        };
        proof {
            lemma_line_region(self.buffer@, y as int);
        }
        self.buffer.insert_char(st + xm, c);
        if c == '\n' {
            let ny: u16 = if y16 == 0xFFFF {
                0xFFFF
            } else {
                y16 + 1
            };
            self.cursor_position = (0, ny);
        } else {
            let nx: u16 = if x16 == 0xFFFF {
                0xFFFF
            } else {
                x16 + 1
            };
            self.cursor_position = (nx, y16);
        }
        self.update_after_edit();
        proof {
            let e0 = *old(self);
            let s1 = e0.buffer@;
            let yr = e0.cursor_position.1 as int;
            let p = insert_splice_pos(s1, e0.cursor_position.0 as int, norm_y(s1, yr));
            let s2 = s1.insert(p, c);
            let midy = if c == '\n' {
                min(yr + 1, 0xFFFF)
            } else {
                yr
            };
            lemma_line_region(s2, midy);
        }
    }

    /// Backspace at the cursor: removes the character before it, or at
    /// column 0 joins the line onto the previous one; at the very start
    /// of the document nothing happens.
    #[verifier::rlimit(50)]
    pub fn delete_char(&mut self)
        requires
            old(self).wf(),
        ensures
            final(self).wf(),
            delete_char_rel(*old(self), *final(self)),
    {
        let (x16, y16) = self.cursor_position;
        let lc = self.buffer.line_count();
        let y = if (y16 as usize) < lc {
            y16 as usize
        } else {
            lc - 1
        };
        let st = self.buffer.offset_of_line(y);
        let ll = self.buffer.line_len(y);
        let ex = if (x16 as usize) < ll {
            x16 as usize
        } else {
            ll
        };
        if ex > 0 {
            proof {
                lemma_buffer_len(old(self).buffer);
                lemma_line_region(self.buffer@, y as int);
            }
            self.buffer.remove_char(st + ex - 1);
            self.cursor_position = (((ex - 1) as u16), y16);
            self.update_after_edit();
            proof {
                let s1 = old(self).buffer@;
                let y2 = norm_y(s1, old(self).cursor_position.1 as int);
                lemma_line_region(
                    s1.remove(line_start(s1, y2) + min(old(self).cursor_position.0 as int,
                        line_len(s1, y2)) - 1),
                    old(self).cursor_position.1 as int,
                );
            }
        } else if y > 0 {
            proof {
                lemma_line_start_found(self.buffer@, y as int);
            }
            let pl = self.buffer.line_len(y - 1);
            self.buffer.remove_char(st - 1);
            let nx: u16 = if pl > 0xFFFF {
                0xFFFF
            } else {
                pl as u16
            };
            self.cursor_position = (nx, ((y - 1) as u16));
            self.update_after_edit();
            proof {
                let s1 = old(self).buffer@;
                let y2 = norm_y(s1, old(self).cursor_position.1 as int);
                lemma_line_region(s1.remove(line_start(s1, y2) - 1), y2 - 1);
            }
        }
    }

    /// Insert a tab as four spaces.
    pub fn insert_tab(&mut self)
        requires
            old(self).wf(),
            old(self).buffer@.len() + 4 < usize::MAX,
        ensures
            final(self).wf(),
            tab_rel(*old(self), *final(self)),
    {
        let (x16, y16) = self.cursor_position;
        let lc = self.buffer.line_count();
        let y = if (y16 as usize) < lc {
            y16 as usize
        } else {
            lc - 1
        };
        let st = self.buffer.offset_of_line(y);
        let ll = self.buffer.line_len(y);
        let xm = if (x16 as usize) < ll {
            x16 as usize
        } else {
            ll
        };
        proof {
            lemma_line_region(self.buffer@, y as int);
        }
        self.buffer.insert_char(st + xm, ' ');
        self.buffer.insert_char(st + xm + 1, ' ');
        self.buffer.insert_char(st + xm + 2, ' ');
        self.buffer.insert_char(st + xm + 3, ' ');
        let target = xm + 4;
        let nx: u16 = if target > 0xFFFF {
            0xFFFF
        } else {
            target as u16
        };
        self.cursor_position = (nx, y16);
        self.update_after_edit();
        proof {
            let e0 = *old(self);
            let s1 = e0.buffer@;
            let yr = e0.cursor_position.1 as int;
            let p = insert_splice_pos(s1, e0.cursor_position.0 as int, norm_y(s1, yr));
            let s2 = s1.insert(p, ' ').insert(p + 1, ' ').insert(p + 2, ' ').insert(p + 3, ' ');
            lemma_line_region(s2, yr);
        }
    }

    /// Apply one action to the session and return what the host must
    /// still react to.  `Save` and `SaveExit` are echoed back unchanged:
    /// the host owns the file write and calls `mark_saved` on success
    /// (and treats a successful `SaveExit` as `Exit`, as a failed save
    /// aborts the exit).
    pub fn handle_action(&mut self, action: EditorAction) -> (r: Option<EditorAction>)
        requires
            old(self).wf(),
            old(self).buffer@.len() + 1 < usize::MAX,
        ensures
            final(self).wf(),
            r == action_result(action),
            action_state_rel(*old(self), *final(self), action),
    {
        match action {
            EditorAction::ChangeMode(b) => {
                self.change_mode(b);
                Some(action)
            },
            EditorAction::MoveCursor(d) => {
                self.move_cursor(d);
                None
            },
            EditorAction::MoveWord(d) => {
                self.move_cursor_word(d);
                None
            },
            EditorAction::LineStart => {
                self.go_to_line_start();
                None
            },
            EditorAction::LineEnd => {
                self.go_to_line_end();
                None
            },
            EditorAction::PageUp => {
                self.page_up();
                None
            },
            EditorAction::PageDown => {
                self.page_down();
                None
            },
            EditorAction::InsertChar(c) => {
                if self.mode == EditorMode::Insert {
                    self.insert_char(c);
                }
                None
            },
            EditorAction::DeleteChar => {
                self.delete_char();
                None
            },
            EditorAction::StartCommand => {
                self.mode = EditorMode::Command;
                self.command_buffer = String::new();
                Some(action)
            },
            _ => Some(action),
        }
    }

    /// One keyboard event, dispatched under the current mode: Normal and
    /// Command keys go through the main table and the executor; Insert
    /// keys edit directly through the Insert table.
    pub fn handle_input(&mut self, key: crate::input::Key, mods: crate::input::KeyMods) -> (r:
        Option<EditorAction>)
        requires
            old(self).wf(),
            old(self).buffer@.len() + 4 < usize::MAX,
        ensures
            final(self).wf(),
            old(self).mode == EditorMode::Normal || old(self).mode == EditorMode::Command ==> {
                &&& r == (match crate::input::key_action(key, mods) {
                    Some(a) => action_result(a),
                    None => None,
                })
                &&& (match crate::input::key_action(key, mods) {
                    Some(a) => action_state_rel(*old(self), *final(self), a),
                    None => *final(self) == *old(self),
                })
            },
            old(self).mode == EditorMode::Insert ==> {
                &&& r == crate::input::insert_key_action(key, mods)
                &&& insert_state_rel(
                    *old(self),
                    *final(self),
                    crate::input::insert_key_action(key, mods),
                )
            },
    {
        match self.mode {
            EditorMode::Normal | EditorMode::Command => {
                match crate::input::handle_key_event(key, mods) {
                    Some(a) => self.handle_action(a),
                    None => None,
                }
            },
            EditorMode::Insert => {
                match key {
                    crate::input::Key::Esc => {
                        self.change_mode(false);
                        Some(EditorAction::ChangeMode(false))
                    },
                    crate::input::Key::Backspace => {
                        self.delete_char();
                        Some(EditorAction::Backspace)
                    },
                    crate::input::Key::Char(c) => {
                        if mods == crate::input::KeyMods::Plain || mods
                            == crate::input::KeyMods::Shift {
                            self.insert_char(c);
                            Some(EditorAction::InsertChar(c))
                        } else {
                            None
                        }
                    },
                    crate::input::Key::Tab => {
                        if mods == crate::input::KeyMods::Plain {
                            self.insert_tab();
                            Some(EditorAction::Tab)
                        } else {
                            None
                        }
                    },
                    crate::input::Key::Up => {
                        if mods == crate::input::KeyMods::Plain {
                            self.move_cursor((0, -1));
                            Some(EditorAction::MoveCursor((0, -1)))
                        } else {
                            None
                        }
                    },
                    crate::input::Key::Down => {
                        if mods == crate::input::KeyMods::Plain {
                            self.move_cursor((0, 1));
                            Some(EditorAction::MoveCursor((0, 1)))
                        } else {
                            None
                        }
                    },
                    crate::input::Key::Left => {
                        if mods == crate::input::KeyMods::Plain {
                            self.move_cursor((-1, 0));
                            Some(EditorAction::MoveCursor((-1, 0)))
                        } else {
                            None
                        }
                    },
                    crate::input::Key::Right => {
                        if mods == crate::input::KeyMods::Plain {
                            self.move_cursor((1, 0));
                            Some(EditorAction::MoveCursor((1, 0)))
                        } else {
                            None
                        }
                    },
                    _ => None,
                }
            },
        }
    }

    /// Record that the host wrote the document out successfully: the
    /// buffer is clean again and no highlight refresh is owed.
    pub fn mark_saved(&mut self)
        requires
            old(self).wf(),
        ensures
            final(self).wf(),
            final(self).buffer@ == old(self).buffer@,
            !final(self).buffer.modified_flag(),
            *final(self) == (CimEditor {
                buffer: final(self).buffer,
                text_changed: false,
                ..*old(self)
            }),
    {
        self.buffer.set_modified(false);
        self.text_changed = false;
    }
}

} // verus!
