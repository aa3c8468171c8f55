//! The engine's global guarantees, proved of the spec transitions that
//! the executable methods are verified against.

use vstd::prelude::*;
use vstd::math::min;
use crate::editor::{CimEditor, EditorMode, v_margin, h_margin, vscroll_after, hscroll_after,
    norm_y, norm_x, normalize_state, sat_add, move_max_y, move_max_x, move_cursor_state,
    insert_char_rel, delete_char_rel, insert_splice_pos};
use crate::lines::{line_count, line_start, line_len, line_at, count_newlines,
    lemma_line_region, lemma_line_start_insert, lemma_line_len_insert, lemma_nl_insert,
    lemma_insert_remove, lemma_insert_newline_split, lemma_remove_newline_join,
    lemma_line_start_found};

verus! {

/// Recomputing the vertical scroll offset a second time, with the cursor
/// and viewport unchanged, changes nothing.
pub proof fn lemma_vscroll_idempotent(lc: int, vh: int, so: int, y: int)
    requires
        0 <= so,
        0 <= y,
        0 <= vh,
        1 <= lc,
    ensures
        vscroll_after(lc, vh, vscroll_after(lc, vh, so, y), y) == vscroll_after(lc, vh, so, y),
{
    let m = v_margin(vh);
    assert(4 * (vh / 4) <= vh) by (nonlinear_arith)
        requires 0 <= vh;
    assert(0 <= m && m + m <= vh);
}

/// The same for the horizontal offset.
pub proof fn lemma_hscroll_idempotent(vw: int, ho: int, x: int)
    requires
        0 <= ho,
        0 <= x,
        0 <= vw,
    ensures
        hscroll_after(vw, hscroll_after(vw, ho, x), x) == hscroll_after(vw, ho, x),
{
    let m = h_margin(vw);
    assert(4 * (vw / 4) <= vw) by (nonlinear_arith)
        requires 0 <= vw;
    assert(0 <= m && m + m <= vw);
}

/// Clamp idempotence: normalizing a just-normalized session changes
/// nothing, whatever the buffer, cursor and mode.
pub proof fn lemma_normalize_idempotent(e: CimEditor)
    requires
        e.wf(),
    ensures
        normalize_state(normalize_state(e)) == normalize_state(e),
{
    let s = e.buffer@;
    let x = e.cursor_position.0 as int;
    let y = e.cursor_position.1 as int;
    let ny = norm_y(s, y);
    let nx = norm_x(s, e.mode, x, y);
    lemma_line_region(s, ny);
    lemma_line_region(s, y);
    let e1 = normalize_state(e);
    assert(e1.cursor_position.1 as int == ny);
    assert(e1.cursor_position.0 as int == nx);
    assert(norm_y(s, ny) == ny);
    assert(norm_x(s, e.mode, nx, ny) == nx);
    lemma_vscroll_idempotent(
        line_count(s) as int,
        e.viewport_height as int,
        e.scroll_offset as int,
        ny,
    );
    lemma_hscroll_idempotent(e.viewport_width as int, e.horizontal_offset as int, nx);
}

/// Move saturation: a relative motion lands inside the valid range on
/// both axes; a delta that overshoots stops exactly on the boundary, and
/// one that stays inside lands exactly where it points.
pub proof fn lemma_move_saturation(e: CimEditor, dx: int, dy: int)
    requires
        e.wf(),
    ensures
        ({
            let s = e.buffer@;
            let e2 = move_cursor_state(e, dx, dy);
            let x = e.cursor_position.0 as int;
            let y = e.cursor_position.1 as int;
            let x2 = e2.cursor_position.0 as int;
            let y2 = e2.cursor_position.1 as int;
            let mx = min(move_max_x(s, y2), 0xFFFF);
            &&& 0 <= y2 <= move_max_y(s)
            &&& 0 <= x2 <= mx
            &&& (dy <= -y ==> y2 == 0)
            &&& (dy >= move_max_y(s) - y ==> y2 == move_max_y(s))
            &&& (-y <= dy <= move_max_y(s) - y ==> y2 == y + dy)
            &&& (dx <= -x ==> x2 == 0)
            &&& (dx >= mx - x ==> x2 == mx)
            &&& (-x <= dx <= mx - x ==> x2 == x + dx)
        }),
{
    let s = e.buffer@;
    let y = e.cursor_position.1 as int;
    let ny = sat_add(y, dy, move_max_y(s));
    lemma_line_region(s, ny);
}

/// Round trip: inserting a character on the cursor's line and then
/// backspacing at the resulting position restores the document and the
/// cursor position.  `mid` and `post` are the sessions after the two
/// steps, as the contracts of `insert_char` and `delete_char` relate
/// them.
pub proof fn lemma_insert_delete_round_trip(e: CimEditor, mid: CimEditor, post: CimEditor, c: char)
    requires
        e.wf(),
        e.mode == EditorMode::Insert,
        c != '\n',
        (e.cursor_position.1 as nat) < line_count(e.buffer@),
        e.cursor_position.0 as int <= line_len(e.buffer@, e.cursor_position.1 as int),
        e.cursor_position.0 < 0xFFFF,
        insert_char_rel(e, mid, c),
        delete_char_rel(mid, post),
    ensures
        post.buffer@ == e.buffer@,
        post.cursor_position == e.cursor_position,
{
    let s1 = e.buffer@;
    let x = e.cursor_position.0 as int;
    let y = e.cursor_position.1 as int;
    let ll = line_len(s1, y);
    let ls = line_start(s1, y);
    lemma_line_region(s1, y);
    assert(norm_y(s1, y) == y);
    let p = insert_splice_pos(s1, x, y);
    assert(p == ls + x);
    let s2 = s1.insert(p, c);
    lemma_line_start_insert(s1, s2, p, c, y);
    lemma_line_len_insert(s1, s2, p, c, y);
    lemma_nl_insert(s1, s2, p, c, 0);
    assert(count_newlines(s2) == count_newlines(s1));
    assert(mid.buffer@ == s2);
    assert(mid.cursor_position.1 as int == y);
    assert(mid.cursor_position.0 as int == x + 1);
    assert(mid.mode == EditorMode::Insert);
    // the backspace takes the non-joining branch and removes at p
    assert(norm_y(s2, y) == y);
    assert(min(x + 1, line_len(s2, y)) == x + 1);
    lemma_insert_remove(s1, p, c);
    assert(post.buffer@ == s2.remove(ls + (x + 1) - 1));
    assert(s2.remove(ls + (x + 1) - 1) == s1);
    assert(post.cursor_position.1 as int == norm_y(s1, y));
    assert(post.cursor_position.0 as int == norm_x(s1, EditorMode::Insert, x, y));
    assert(norm_x(s1, EditorMode::Insert, x, y) == x);
}

/// Line-split correctness: inserting `'\n'` with the cursor inside a
/// line leaves the characters before the cursor on that line, moves the
/// rest to a new line below it, and starts the cursor there.
pub proof fn lemma_newline_splits_line(e: CimEditor, post: CimEditor)
    requires
        e.wf(),
        e.cursor_position.1 < 0xFFFF,
        (e.cursor_position.1 as nat) < line_count(e.buffer@),
        e.cursor_position.0 as int <= line_len(e.buffer@, e.cursor_position.1 as int),
        insert_char_rel(e, post, '\n'),
    ensures
        line_count(post.buffer@) == line_count(e.buffer@) + 1,
        line_at(post.buffer@, e.cursor_position.1 as int) == line_at(
            e.buffer@,
            e.cursor_position.1 as int,
        ).take(e.cursor_position.0 as int),
        line_at(post.buffer@, e.cursor_position.1 as int + 1) == line_at(
            e.buffer@,
            e.cursor_position.1 as int,
        ).skip(e.cursor_position.0 as int),
        post.cursor_position.0 == 0u16,
        post.cursor_position.1 as int == e.cursor_position.1 as int + 1,
{
    let s1 = e.buffer@;
    let x = e.cursor_position.0 as int;
    let y = e.cursor_position.1 as int;
    lemma_line_region(s1, y);
    assert(norm_y(s1, y) == y);
    let p = insert_splice_pos(s1, x, y);
    assert(p == line_start(s1, y) + x);
    let s2 = s1.insert(p, '\n');
    lemma_insert_newline_split(s1, s2, p, y);
    assert(post.buffer@ == s2);
    // the cursor starts the new line: y + 1 is in range, and column 0
    // needs no clamping
    assert(norm_y(s2, y + 1) == y + 1);
    lemma_line_region(s2, y + 1);
    assert(post.cursor_position.1 as int == y + 1);
    assert(post.cursor_position.0 as int == norm_x(s2, e.mode, 0, y + 1));
}

/// Backspace-join correctness: backspace at column 0 of a later line
/// removes the joining newline; the previous line absorbs the cursor
/// line's characters and the cursor lands on the join point.
pub proof fn lemma_backspace_joins_lines(e: CimEditor, post: CimEditor)
    requires
        e.wf(),
        e.cursor_position.0 == 0u16,
        1 <= e.cursor_position.1 as nat,
        (e.cursor_position.1 as nat) < line_count(e.buffer@),
        delete_char_rel(e, post),
    ensures
        line_count(post.buffer@) == line_count(e.buffer@) - 1,
        line_at(post.buffer@, e.cursor_position.1 as int - 1) == line_at(
            e.buffer@,
            e.cursor_position.1 as int - 1,
        ) + line_at(e.buffer@, e.cursor_position.1 as int),
        post.cursor_position.1 as int == e.cursor_position.1 as int - 1,
        e.mode == EditorMode::Insert ==> post.cursor_position.0 as int == min(
            line_len(e.buffer@, e.cursor_position.1 as int - 1),
            0xFFFF,
        ),
{
    let s1 = e.buffer@;
    let y = e.cursor_position.1 as int;
    lemma_line_region(s1, y);
    assert(norm_y(s1, y) == y);
    assert(min(0int, line_len(s1, y)) == 0);
    let q = line_start(s1, y) - 1;
    lemma_line_start_found(s1, y);
    let s3 = s1.remove(q);
    lemma_remove_newline_join(s1, s3, y);
    assert(post.buffer@ == s3);
    assert(norm_y(s3, y - 1) == y - 1);
    assert(post.cursor_position.1 as int == y - 1);
    let midx = min(line_len(s1, y - 1), 0xFFFF);
    assert(post.cursor_position.0 as int == norm_x(s3, e.mode, midx, y - 1));
    if e.mode == EditorMode::Insert {
        // the joined line is at least as long as the old previous line
        lemma_line_region(s1, y - 1);
        assert(norm_x(s3, e.mode, midx, y - 1) == midx);
    }
}

} // verus!
