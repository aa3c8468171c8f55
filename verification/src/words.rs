//! Word boundaries within a single line.
//!
//! A word is a maximal run of alphanumeric-or-underscore characters.
//! Word motion never crosses a line boundary; these spec functions give
//! the exact landing column of a forward or backward word motion.

use vstd::prelude::*;

verus! {

/// What `char::is_alphanumeric` returns; the Unicode classification is a
/// pure function of the character and is not restated here.
pub uninterp spec fn alphanumeric_spec(c: char) -> bool;

/// Relies on `char::is_alphanumeric` (core): a pure classification that
/// depends on the character alone.
pub assume_specification[ char::is_alphanumeric ](c: char) -> (b: bool)
    ensures
        b == alphanumeric_spec(c),
;

/// A word character: alphanumeric or underscore.
pub open spec fn is_word_char(c: char) -> bool {
    alphanumeric_spec(c) || c == '_'
}

/// Executable test for a word character.
pub fn word_char(c: char) -> (b: bool)
    ensures
        b == is_word_char(c),
{
    c.is_alphanumeric() || c == '_'
}

/// First position at or after `i` that is not inside the current word.
pub open spec fn skip_word(cs: Seq<char>, i: int) -> int
    decreases cs.len() - i,
{
    if i < 0 || i >= cs.len() {
        i
    } else if is_word_char(cs[i]) {
        skip_word(cs, i + 1)
    } else {
        i
    }
}

/// First position at or after `i` holding a word character, or the line
/// end if none follows.
pub open spec fn skip_gap(cs: Seq<char>, i: int) -> int
    decreases cs.len() - i,
{
    if i < 0 || i >= cs.len() {
        i
    } else if !is_word_char(cs[i]) {
        skip_gap(cs, i + 1)
    } else {
        i
    }
}

/// Landing column of a forward word motion from column `x`: skip the rest
/// of the current word, then any separators, stopping at the line end.
pub open spec fn word_fwd(cs: Seq<char>, x: int) -> int {
    let a = if 0 <= x < cs.len() && is_word_char(cs[x]) {
        skip_word(cs, x)
    } else {
        x
    };
    skip_gap(cs, a)
}

/// Walking left from `i`, the first position holding a word character;
/// 0 if none is found.
pub open spec fn back_gap(cs: Seq<char>, i: int) -> int
    decreases i,
{
    if i <= 0 {
        0
    } else if 0 <= i < cs.len() && !is_word_char(cs[i]) {
        back_gap(cs, i - 1)
    } else {
        i
    }
}

/// Walking left from `i`, the first position of the current word.
pub open spec fn back_word(cs: Seq<char>, i: int) -> int
    decreases i,
{
    if i <= 0 {
        0
    } else if 0 < i <= cs.len() && is_word_char(cs[i - 1]) {
        back_word(cs, i - 1)
    } else {
        i
    }
}

/// Landing column of a backward word motion from column `x`: step left,
/// skip separators leftward, then walk to the start of that word.
pub open spec fn word_bwd(cs: Seq<char>, x: int) -> int {
    back_word(cs, back_gap(cs, x - 1))
}

} // verus!
