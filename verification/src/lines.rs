//! The line structure of a document.
//!
//! A document is a sequence of characters; lines are separated by `'\n'`.
//! A trailing unterminated line still counts as one line, so an empty
//! document has one (empty) line.  These spec functions define where each
//! line begins, how long it is, and how many lines there are; the lemmas
//! relate those quantities to each other and to single-character edits.

use vstd::prelude::*;

verus! {

/// Number of `'\n'` characters at or after position `i`.
pub open spec fn nl_from(s: Seq<char>, i: int) -> nat
    decreases s.len() - i,
{
    if i < 0 || i >= s.len() {
        0
    } else {
        (if s[i] == '\n' {
            1nat
        } else {
            0nat
        }) + nl_from(s, i + 1)
    }
}

/// Number of `'\n'` characters in the whole document.
pub open spec fn count_newlines(s: Seq<char>) -> nat {
    nl_from(s, 0)
}

/// Number of lines: one more than the number of separators, so an empty
/// document still has one line and a trailing unterminated line counts.
pub open spec fn line_count(s: Seq<char>) -> nat {
    count_newlines(s) + 1
}

/// Position just after the first `'\n'` at or after `i`, or `s.len()`
/// when no further `'\n'` exists.  This is where the next line begins.
pub open spec fn next_start(s: Seq<char>, i: int) -> int
    decreases s.len() - i,
{
    if i >= s.len() {
        s.len() as int
    } else if 0 <= i && s[i] == '\n' {
        i + 1
    } else {
        next_start(s, i + 1)
    }
}

/// Character offset where line `n` begins; `s.len()` once `n` walks past
/// the last line (the sentinel end).
pub open spec fn line_start(s: Seq<char>, n: int) -> int
    decreases n,
{
    if n <= 0 {
        0
    } else {
        next_start(s, line_start(s, n - 1))
    }
}

/// Character length of line `n`, excluding its trailing `'\n'` (the last
/// line has none to exclude).
pub open spec fn line_len(s: Seq<char>, n: int) -> int {
    let st = line_start(s, n);
    let nx = next_start(s, st);
    if st < nx <= s.len() && s[nx - 1] == '\n' {
        nx - st - 1
    } else {
        nx - st
    }
}

/// The characters of line `n`, without its trailing `'\n'`.
pub open spec fn line_at(s: Seq<char>, n: int) -> Seq<char> {
    s.subrange(line_start(s, n), line_start(s, n) + line_len(s, n))
}

pub proof fn lemma_next_start_bounds(s: Seq<char>, i: int)
    requires
        0 <= i <= s.len(),
    ensures
        i <= next_start(s, i) <= s.len(),
    decreases s.len() - i,
{
    if i < s.len() && s[i] != '\n' {
        lemma_next_start_bounds(s, i + 1);
    }
}

pub proof fn lemma_line_start_bounds(s: Seq<char>, n: int)
    ensures
        0 <= line_start(s, n) <= s.len(),
    decreases n,
{
    if n > 0 {
        lemma_line_start_bounds(s, n - 1);
        lemma_next_start_bounds(s, line_start(s, n - 1));
    }
}

pub proof fn lemma_line_start_mono(s: Seq<char>, n: int)
    requires
        0 <= n,
    ensures
        line_start(s, n) <= line_start(s, n + 1),
{
    lemma_line_start_bounds(s, n);
    lemma_next_start_bounds(s, line_start(s, n));
}

/// The region of line `n` lies within the document.
pub proof fn lemma_line_region(s: Seq<char>, n: int)
    ensures
        0 <= line_start(s, n),
        0 <= line_len(s, n),
        line_start(s, n) + line_len(s, n) <= s.len(),
{
    lemma_line_start_bounds(s, n);
    lemma_next_start_bounds(s, line_start(s, n));
}

/// How the separator count evolves across one `next_start` step: a step
/// that finds a `'\n'` consumes exactly one, and a step that finds none
/// runs to the end of the document.
pub proof fn lemma_nl_next(s: Seq<char>, i: int)
    requires
        0 <= i <= s.len(),
    ensures
        nl_from(s, i) > 0 ==> i < next_start(s, i) <= s.len() && s[next_start(s, i) - 1] == '\n'
            && nl_from(s, next_start(s, i)) == nl_from(s, i) - 1,
        nl_from(s, i) == 0 ==> next_start(s, i) == s.len(),
    decreases s.len() - i,
{
    if i < s.len() && s[i] != '\n' {
        lemma_nl_next(s, i + 1);
    }
}

/// A region with no separators holds no `'\n'` character.
pub proof fn lemma_nl_zero(s: Seq<char>, i: int, m: int)
    requires
        0 <= i <= m < s.len(),
        nl_from(s, i) == 0,
    ensures
        s[m] != '\n',
    decreases m - i,
{
    if i < m {
        lemma_nl_zero(s, i + 1, m);
    }
}

/// Line `n` starts with exactly `count_newlines(s) - n` separators ahead.
pub proof fn lemma_line_start_nl(s: Seq<char>, n: int)
    requires
        0 <= n <= count_newlines(s),
    ensures
        0 <= line_start(s, n) <= s.len(),
        nl_from(s, line_start(s, n)) == count_newlines(s) - n,
    decreases n,
{
    if n == 0 {
    } else {
        lemma_line_start_nl(s, n - 1);
        lemma_nl_next(s, line_start(s, n - 1));
    }
}

/// Every line but the first begins just after a `'\n'`.
pub proof fn lemma_line_start_found(s: Seq<char>, n: int)
    requires
        1 <= n <= count_newlines(s),
    ensures
        0 < line_start(s, n) <= s.len(),
        s[line_start(s, n) - 1] == '\n',
    decreases n,
{
    lemma_line_start_nl(s, n - 1);
    lemma_nl_next(s, line_start(s, n - 1));
}

/// The start of the one-past-the-last line is the document length.
pub proof fn lemma_line_start_at_count(s: Seq<char>)
    ensures
        line_start(s, line_count(s) as int) == s.len(),
{
    let nl = count_newlines(s) as int;
    lemma_line_start_nl(s, nl);
    lemma_nl_next(s, line_start(s, nl));
}

/// A scan that has not found a `'\n'` before `k` lands where the scan
/// from `k` lands.
pub proof fn lemma_next_start_within(s: Seq<char>, i: int, k: int)
    requires
        0 <= i <= k <= s.len(),
        k < next_start(s, i) || nl_from(s, i) == 0,
    ensures
        next_start(s, k) == next_start(s, i),
    decreases k - i,
{
    lemma_nl_next(s, i);
    if i < k {
        lemma_next_start_within(s, i + 1, k);
    }
}

/// Past the insertion point, `next_start` shifts right by one.
pub proof fn lemma_next_start_shift(s1: Seq<char>, s2: Seq<char>, p: int, c: char, m: int)
    requires
        0 <= p <= s1.len(),
        s2 == s1.insert(p, c),
        p <= m <= s1.len(),
    ensures
        next_start(s2, m + 1) == next_start(s1, m) + 1,
    decreases s1.len() - m,
{
    s1.insert_ensures(p, c);
    if m < s1.len() && s1[m] != '\n' {
        lemma_next_start_shift(s1, s2, p, c, m + 1);
    }
}

/// Past the insertion point, the separator count is unchanged (shifted).
pub proof fn lemma_nl_shift(s1: Seq<char>, s2: Seq<char>, p: int, c: char, m: int)
    requires
        0 <= p <= s1.len(),
        s2 == s1.insert(p, c),
        p <= m <= s1.len(),
    ensures
        nl_from(s2, m + 1) == nl_from(s1, m),
    decreases s1.len() - m,
{
    s1.insert_ensures(p, c);
    if m < s1.len() {
        lemma_nl_shift(s1, s2, p, c, m + 1);
    }
}

/// Inserting a character other than `'\n'` leaves the separator count
/// at or before the insertion point unchanged.
pub proof fn lemma_nl_insert(s1: Seq<char>, s2: Seq<char>, p: int, c: char, i: int)
    requires
        0 <= p <= s1.len(),
        s2 == s1.insert(p, c),
        c != '\n',
        0 <= i <= p,
    ensures
        nl_from(s2, i) == nl_from(s1, i),
    decreases p - i,
{
    s1.insert_ensures(p, c);
    if i == p {
        lemma_nl_shift(s1, s2, p, c, p);
    } else {
        lemma_nl_insert(s1, s2, p, c, i + 1);
    }
}

/// A `next_start` scan that finds its `'\n'` at or before the insertion
/// point is unaffected by the insertion.
pub proof fn lemma_next_start_insert_before(s1: Seq<char>, s2: Seq<char>, p: int, c: char, i: int)
    requires
        0 <= p <= s1.len(),
        s2 == s1.insert(p, c),
        0 <= i < next_start(s1, i),
        next_start(s1, i) <= p,
        s1[next_start(s1, i) - 1] == '\n',
    ensures
        next_start(s2, i) == next_start(s1, i),
    decreases next_start(s1, i) - i,
{
    s1.insert_ensures(p, c);
    if s1[i] != '\n' {
        lemma_next_start_insert_before(s1, s2, p, c, i + 1);
    }
}

/// A `next_start` scan whose `'\n'` lies past the insertion point (or that
/// finds none) lands one further right after a non-`'\n'` insertion.
pub proof fn lemma_next_start_insert_after(s1: Seq<char>, s2: Seq<char>, p: int, c: char, i: int)
    requires
        0 <= p <= s1.len(),
        s2 == s1.insert(p, c),
        c != '\n',
        0 <= i <= p,
        p < next_start(s1, i) || nl_from(s1, i) == 0,
    ensures
        next_start(s2, i) == next_start(s1, i) + 1,
    decreases p - i,
{
    s1.insert_ensures(p, c);
    lemma_next_start_bounds(s1, i);
    lemma_nl_next(s1, i);
    if i == p {
        lemma_next_start_shift(s1, s2, p, c, p);
    } else {
        lemma_next_start_insert_after(s1, s2, p, c, i + 1);
    }
}

/// Inserting a non-`'\n'` character at or after the start of line `n`
/// does not move that start.
pub proof fn lemma_line_start_insert(s1: Seq<char>, s2: Seq<char>, p: int, c: char, n: int)
    requires
        0 <= p <= s1.len(),
        s2 == s1.insert(p, c),
        0 <= n <= count_newlines(s1),
        line_start(s1, n) <= p,
    ensures
        line_start(s2, n) == line_start(s1, n),
    decreases n,
{
    if n > 0 {
        lemma_line_start_mono(s1, n - 1);
        lemma_line_start_nl(s1, n - 1);
        lemma_line_start_insert(s1, s2, p, c, n - 1);
        lemma_nl_next(s1, line_start(s1, n - 1));
        lemma_next_start_insert_before(s1, s2, p, c, line_start(s1, n - 1));
    }
}

/// Inserting a non-`'\n'` character inside the content of line `n`
/// lengthens that line by one and moves no earlier structure.
pub proof fn lemma_line_len_insert(s1: Seq<char>, s2: Seq<char>, p: int, c: char, n: int)
    requires
        0 <= p <= s1.len(),
        s2 == s1.insert(p, c),
        c != '\n',
        0 <= n <= count_newlines(s1),
        line_start(s1, n) <= p <= line_start(s1, n) + line_len(s1, n),
    ensures
        line_start(s2, n) == line_start(s1, n),
        line_len(s2, n) == line_len(s1, n) + 1,
    decreases n,
{
    s1.insert_ensures(p, c);
    lemma_line_start_insert(s1, s2, p, c, n);
    lemma_line_start_nl(s1, n);
    let st = line_start(s1, n);
    let nx = next_start(s1, st);
    lemma_next_start_bounds(s1, st);
    lemma_nl_next(s1, st);
    if nl_from(s1, st) > 0 {
        // the line ends with a found '\n' at nx - 1, and p < nx
        assert(st < nx <= s1.len() && s1[nx - 1] == '\n');
        assert(p < nx) by {
            if nx <= p {
                // p is within the line content, so nx - 1 >= p >= nx: impossible
                assert(line_len(s1, n) == nx - st - 1);
            }
        }
        lemma_next_start_insert_after(s1, s2, p, c, st);
        assert(next_start(s2, st) == nx + 1);
        assert(s2[nx] == s1[nx - 1]);
    } else {
        assert(nx == s1.len());
        if st < nx {
            lemma_nl_zero(s1, st, nx - 1);
        }
        assert(line_len(s1, n) == nx - st);
        lemma_next_start_insert_after(s1, s2, p, c, st);
        assert(next_start(s2, st) == s1.len() + 1);
        // the new last character is c or the old last character: neither is '\n'
        if st < next_start(s2, st) && next_start(s2, st) <= s2.len() {
            let q = next_start(s2, st) - 1;
            if q == p {
                assert(s2[q] == c);
            } else {
                assert(s2[q] == s1[q - 1]);
                if st <= q - 1 < s1.len() {
                    lemma_nl_zero(s1, st, q - 1);
                }
            }
        }
    }
}

/// A scan that reached the insertion point without finding a `'\n'`
/// stops right after an inserted `'\n'`.
pub proof fn lemma_next_start_insert_nl(s1: Seq<char>, s2: Seq<char>, p: int, i: int)
    requires
        0 <= p <= s1.len(),
        s2 == s1.insert(p, '\n'),
        0 <= i <= p,
        p < next_start(s1, i) || nl_from(s1, i) == 0,
    ensures
        next_start(s2, i) == p + 1,
    decreases p - i,
{
    s1.insert_ensures(p, '\n');
    lemma_nl_next(s1, i);
    if i < p {
        lemma_next_start_insert_nl(s1, s2, p, i + 1);
    }
}

/// Inserting a `'\n'` adds one separator ahead of every position at or
/// before the insertion point.
pub proof fn lemma_nl_insert_nl(s1: Seq<char>, s2: Seq<char>, p: int, i: int)
    requires
        0 <= p <= s1.len(),
        s2 == s1.insert(p, '\n'),
        0 <= i <= p,
    ensures
        nl_from(s2, i) == nl_from(s1, i) + 1,
    decreases p - i,
{
    s1.insert_ensures(p, '\n');
    if i == p {
        lemma_nl_shift(s1, s2, p, '\n', p);
    } else {
        lemma_nl_insert_nl(s1, s2, p, i + 1);
    }
}

/// Line-split correctness: inserting a `'\n'` inside the content of line
/// `y` yields one more line; line `y` keeps the characters before the
/// split point and line `y + 1` holds the rest, with every earlier line
/// start unmoved.
pub proof fn lemma_insert_newline_split(s1: Seq<char>, s2: Seq<char>, p: int, y: int)
    requires
        s2 == s1.insert(p, '\n'),
        0 <= y <= count_newlines(s1),
        line_start(s1, y) <= p <= line_start(s1, y) + line_len(s1, y),
    ensures
        count_newlines(s2) == count_newlines(s1) + 1,
        line_start(s2, y) == line_start(s1, y),
        line_len(s2, y) == p - line_start(s1, y),
        line_start(s2, y + 1) == p + 1,
        line_len(s2, y + 1) == line_len(s1, y) - (p - line_start(s1, y)),
        line_at(s2, y) == line_at(s1, y).take(p - line_start(s1, y)),
        line_at(s2, y + 1) == line_at(s1, y).skip(p - line_start(s1, y)),
{
    let st = line_start(s1, y);
    let ll = line_len(s1, y);
    let nx = next_start(s1, st);
    lemma_line_region(s1, y);
    s1.insert_ensures(p, '\n');
    lemma_line_start_nl(s1, y);
    lemma_nl_next(s1, st);
    lemma_nl_insert_nl(s1, s2, p, 0);
    lemma_line_start_insert(s1, s2, p, '\n', y);
    // the scan from the line start finds no '\n' before p, so in s2 it
    // stops at the inserted one
    assert(p < nx || nl_from(s1, st) == 0) by {
        if nl_from(s1, st) > 0 {
            assert(line_len(s1, y) == nx - st - 1);
        }
    }
    lemma_next_start_insert_nl(s1, s2, p, st);
    assert(next_start(s2, st) == p + 1);
    assert(s2[p] == '\n');
    assert(line_len(s2, y) == p - st);
    assert(line_start(s2, y + 1) == p + 1);
    // the scan of the remainder lands where the old line's scan landed,
    // shifted by the inserted character
    lemma_next_start_within(s1, st, p);
    lemma_next_start_shift(s1, s2, p, '\n', p);
    assert(next_start(s2, p + 1) == nx + 1);
    if nl_from(s1, st) > 0 {
        assert(s2[nx] == s1[nx - 1]);
        assert(line_len(s2, y + 1) == nx - 1 - p);
    } else {
        assert(nx == s1.len());
        if p < s1.len() {
            lemma_nl_zero(s1, st, s1.len() - 1);
            assert(s2[s1.len() as int] == s1[s1.len() - 1]);
        }
        assert(line_len(s2, y + 1) == s1.len() - p);
    }
    assert(line_at(s2, y) =~= line_at(s1, y).take(p - st));
    assert(line_at(s2, y + 1) =~= line_at(s1, y).skip(p - st));
}

/// No `'\n'` stands strictly before the position a scan stops after.
pub proof fn lemma_clean_before_next(s: Seq<char>, i: int, m: int)
    requires
        0 <= i <= m < s.len(),
        m + 1 < next_start(s, i),
    ensures
        s[m] != '\n',
    decreases m - i,
{
    if i < m {
        lemma_clean_before_next(s, i + 1, m);
    }
}

/// A scan may skip over any region that holds no `'\n'`.
pub proof fn lemma_next_start_clean(s: Seq<char>, i: int, k: int)
    requires
        0 <= i <= k <= s.len(),
        forall|m: int| i <= m < k ==> s[m] != '\n',
    ensures
        next_start(s, i) == next_start(s, k),
    decreases k - i,
{
    if i < k {
        lemma_next_start_clean(s, i + 1, k);
    }
}

/// A scan that finds its `'\n'` at or before the removal point is
/// unaffected by the removal.
pub proof fn lemma_next_start_remove_before(s1: Seq<char>, s3: Seq<char>, q: int, i: int)
    requires
        0 <= q < s1.len(),
        s3 == s1.remove(q),
        0 <= i < next_start(s1, i),
        next_start(s1, i) <= q,
        s1[next_start(s1, i) - 1] == '\n',
    ensures
        next_start(s3, i) == next_start(s1, i),
    decreases next_start(s1, i) - i,
{
    s1.remove_ensures(q);
    if s1[i] != '\n' {
        lemma_next_start_remove_before(s1, s3, q, i + 1);
    }
}

/// Removing a character at or after the start of line `n` does not move
/// that start.
pub proof fn lemma_line_start_remove(s1: Seq<char>, s3: Seq<char>, q: int, n: int)
    requires
        0 <= q < s1.len(),
        s3 == s1.remove(q),
        0 <= n <= count_newlines(s1),
        line_start(s1, n) <= q,
    ensures
        line_start(s3, n) == line_start(s1, n),
    decreases n,
{
    if n > 0 {
        lemma_line_start_mono(s1, n - 1);
        lemma_line_start_nl(s1, n - 1);
        lemma_line_start_remove(s1, s3, q, n - 1);
        lemma_nl_next(s1, line_start(s1, n - 1));
        lemma_next_start_remove_before(s1, s3, q, line_start(s1, n - 1));
    }
}

/// Backspace-join correctness: removing the `'\n'` that line `y` begins
/// after leaves one line fewer; the previous line absorbs line `y`'s
/// characters, and no earlier structure moves.
pub proof fn lemma_remove_newline_join(s1: Seq<char>, s3: Seq<char>, y: int)
    requires
        1 <= y <= count_newlines(s1),
        s3 == s1.remove(line_start(s1, y) - 1),
    ensures
        count_newlines(s3) == count_newlines(s1) - 1,
        line_start(s3, y - 1) == line_start(s1, y - 1),
        line_len(s3, y - 1) == line_len(s1, y - 1) + line_len(s1, y),
        line_at(s3, y - 1) == line_at(s1, y - 1) + line_at(s1, y),
{
    let q = line_start(s1, y) - 1;
    let st = line_start(s1, y - 1);
    lemma_line_start_found(s1, y);
    s1.remove_ensures(q);
    s3.insert_ensures(q, '\n');
    assert(s1 =~= s3.insert(q, '\n'));
    lemma_nl_insert_nl(s3, s1, q, 0);
    // the previous line's start is below the removed '\n' and survives
    lemma_line_start_nl(s1, y - 1);
    lemma_nl_next(s1, st);
    assert(next_start(s1, st) == q + 1);
    assert(st <= q);
    lemma_line_start_remove(s1, s3, q, y - 1);
    assert(line_len(s1, y - 1) == q - st);
    // the joined line's scan passes the clean region and continues where
    // line y's scan went, shifted left by the removed character
    assert(forall|m: int| st <= m < q ==> s3[m] != '\n') by {
        assert forall|m: int| st <= m < q implies s3[m] != '\n' by {
            lemma_clean_before_next(s1, st, m);
        }
    }
    lemma_next_start_clean(s3, st, q);
    lemma_next_start_shift(s3, s1, q, '\n', q);
    let nxy = next_start(s1, q + 1);
    assert(next_start(s3, st) == nxy - 1);
    lemma_line_start_nl(s1, y);
    lemma_nl_next(s1, q + 1);
    lemma_next_start_bounds(s1, q + 1);
    lemma_line_region(s1, y);
    if nl_from(s1, q + 1) > 0 {
        assert(s1[nxy - 1] == '\n' && q + 1 < nxy <= s1.len());
        assert(s3[nxy - 2] == s1[nxy - 1]);
        assert(line_len(s3, y - 1) == nxy - 2 - st);
        assert(line_len(s1, y) == nxy - q - 2);
    } else {
        assert(nxy == s1.len());
        if q + 1 < s1.len() {
            lemma_nl_zero(s1, q + 1, s1.len() - 1);
        }
        assert(line_len(s1, y) == s1.len() - q - 1);
        let nx3 = nxy - 1;
        if st < nx3 {
            if nx3 - 1 >= q {
                assert(s3[nx3 - 1] == s1[nx3]);
                if q + 1 <= nx3 < s1.len() {
                    lemma_nl_zero(s1, q + 1, nx3);
                }
            } else {
                lemma_clean_before_next(s1, st, nx3 - 1);
                assert(s3[nx3 - 1] == s1[nx3 - 1]);
            }
        }
        assert(line_len(s3, y - 1) == nx3 - st);
    }
    assert(line_at(s3, y - 1) =~= line_at(s1, y - 1) + line_at(s1, y));
}

/// Removing the character that was just inserted restores the document.
pub proof fn lemma_insert_remove(s: Seq<char>, p: int, c: char)
    requires
        0 <= p <= s.len(),
    ensures
        s.insert(p, c).remove(p) == s,
{
    s.insert_ensures(p, c);
    let s2 = s.insert(p, c);
    s2.remove_ensures(p);
    assert(s2.remove(p) =~= s);
}

} // verus!
