//! The text buffer: the document held in an `xi_rope::Rope`.
//!
//! The rope is the storage; its contents are modelled as the sequence of
//! characters `rope_chars`.  The buffer keeps a character vector in step
//! with the rope (its view), so every line-oriented query is computed and
//! verified over plain characters, while every edit is applied to both.

use vstd::prelude::*;
use crate::lines::{line_count, line_start, line_len, line_at, next_start, nl_from,
    count_newlines, lemma_line_region};

verus! {

/// The document rope.  `xi_rope::Rope` is a generic tree whose type
/// parameter Verus cannot declare, so the rope lives in a private field
/// of this opaque holder instead.
#[verifier::external_body]
pub struct RopeHandle {
    rope: xi_rope::Rope,
}

/// The text the rope holds, as a sequence of characters.
pub uninterp spec fn rope_chars(r: RopeHandle) -> Seq<char>;

/// Relies on xi_rope's `impl From<&str> for Rope`: the rope holds exactly
/// the given text.
#[verifier::external_body]
fn rope_from_str(s: &str) -> (r: RopeHandle)
    ensures
        rope_chars(r) == s@,
{
    RopeHandle { rope: xi_rope::Rope::from(s) }
}

/// Relies on xi_rope's `impl From<&Rope> for String`: returns the rope's
/// full text.
#[verifier::external_body]
fn rope_to_string(r: &RopeHandle) -> (s: String)
    ensures
        s@ == rope_chars(*r),
{
    String::from(&r.rope)
}

/// Relies on `Rope::edit` with an empty interval: inserts `c` before the
/// `pos`-th character (the byte offset of that character is looked up in
/// the rope's own text, so the edit stays on a codepoint boundary).
#[verifier::external_body]
fn rope_insert_char(r: &mut RopeHandle, pos: usize, c: char)
    requires
        pos <= rope_chars(*old(r)).len(),
    ensures
        rope_chars(*final(r)) == rope_chars(*old(r)).insert(pos as int, c),
{
    let s = String::from(&r.rope);
    let b = s.char_indices().nth(pos).map_or(s.len(), |(i, _)| i);
    r.rope.edit(b..b, c.to_string().as_str());
}

/// Relies on `Rope::edit` with an empty replacement: removes the `pos`-th
/// character (one whole codepoint, found in the rope's own text).
#[verifier::external_body]
fn rope_remove_char(r: &mut RopeHandle, pos: usize)
    requires
        pos < rope_chars(*old(r)).len(),
    ensures
        rope_chars(*final(r)) == rope_chars(*old(r)).remove(pos as int),
{
    let s = String::from(&r.rope);
    let b = s.char_indices().nth(pos).map_or(s.len(), |(i, _)| i);
    let e = s.char_indices().nth(pos + 1).map_or(s.len(), |(i, _)| i);
    r.rope.edit(b..e, "");
}

/// The document: a rope plus the character vector that models it, and the
/// dirty flag set by every mutation.
pub struct RopeTextBuffer {
    rope: RopeHandle,
    chars: Vec<char>,
    modified: bool,
}

impl View for RopeTextBuffer {
    type V = Seq<char>;

    closed spec fn view(&self) -> Seq<char> {
        self.chars@
    }
}

impl RopeTextBuffer {
    /// The rope and the character model hold the same text.
    pub closed spec fn wf(self) -> bool {
        rope_chars(self.rope) == self.chars@ && self.chars@.len() < usize::MAX
    }

    pub closed spec fn modified_flag(self) -> bool {
        self.modified
    }

    /// A fresh, unmodified buffer holding the given text.
    pub fn new(text: &str) -> (b: RopeTextBuffer)
        requires
            text@.len() < usize::MAX,
        ensures
            b.wf(),
            b@ == text@,
            !b.modified_flag(),
    {
        let rope = rope_from_str(text);
        let n = text.unicode_len();
        let mut chars: Vec<char> = Vec::new();
        let mut k: usize = 0;
        while k < n
            invariant
                k <= n,
                n == text@.len(),
                chars@ == text@.subrange(0, k as int),
            decreases n - k,
        {
            chars.push(text.get_char(k));
            proof {
                assert(chars@ =~= text@.subrange(0, k + 1));
            }
            k += 1;
        }
        proof {
            assert(chars@ =~= text@);
        }
        RopeTextBuffer { rope, chars, modified: false }
    }

    /// The full document text, read back out of the rope.
    pub fn text(&self) -> (s: String)
        requires
            self.wf(),
        ensures
            s@ == self@,
    {
        rope_to_string(&self.rope)
    }

    pub fn is_modified(&self) -> (b: bool)
        ensures
            b == self.modified_flag(),
    {
        self.modified
    }

    pub fn set_modified(&mut self, modified: bool)
        ensures
            final(self).modified_flag() == modified,
            final(self)@ == old(self)@,
            old(self).wf() ==> final(self).wf(),
    {
        self.modified = modified;
    }

    /// Number of characters in the document.
    pub fn len(&self) -> (n: usize)
        ensures
            n == self@.len(),
    {
        self.chars.len()
    }

    /// Number of lines; a trailing unterminated line counts, so an empty
    /// document still reports one line.
    pub fn line_count(&self) -> (n: usize)
        requires
            self.wf(),
        ensures
            n as nat == line_count(self@),
    {
        let ghost s = self@;
        let mut cnt: usize = 0;
        let mut k: usize = 0;
        while k < self.chars.len()
            invariant
                k <= s.len(),
                cnt <= k,
                s == self@,
                cnt + nl_from(s, k as int) == count_newlines(s),
            decreases s.len() - k,
        {
            if self.chars[k] == '\n' {
                cnt = cnt + 1;
            }
            k = k + 1;
        }
        cnt + 1
    }

    /// Character offset where line `n` begins; at `n == line_count` this
    /// is the document length (the sentinel end).
    pub fn offset_of_line(&self, n: usize) -> (r: usize)
        requires
            self.wf(),
            n as nat <= line_count(self@),
        ensures
            r as int == line_start(self@, n as int),
            r <= self@.len(),
            n as nat == line_count(self@) ==> r == self@.len(),
    {
        proof {
            crate::lines::lemma_line_start_at_count(self@);
        }
        let ghost s = self@;
        let mut line: usize = 0;
        let mut i: usize = 0;
        while line < n
            invariant
                line <= n,
                s == self@,
                i <= s.len(),
                i as int == line_start(s, line as int),
            decreases n - line,
        {
            i = scan_next_start(&self.chars, i);
            line = line + 1;
        }
        i
    }

    /// Character length of line `n`, excluding its trailing newline.
    pub fn line_len(&self, n: usize) -> (r: usize)
        requires
            self.wf(),
            (n as nat) < line_count(self@),
        ensures
            r as int == line_len(self@, n as int),
    {
        let st = self.offset_of_line(n);
        let nx = scan_next_start(&self.chars, st);
        if st < nx && self.chars[nx - 1] == '\n' {
            nx - st - 1
        } else {
            nx - st
        }
    }

    /// The characters of line `n`, without its trailing newline.
    pub fn line_chars(&self, n: usize) -> (v: Vec<char>)
        requires
            self.wf(),
            (n as nat) < line_count(self@),
        ensures
            v@ == line_at(self@, n as int),
    {
        let ghost s = self@;
        let st = self.offset_of_line(n);
        let l = self.line_len(n);
        proof {
            lemma_line_region(s, n as int);
        }
        let mut v: Vec<char> = Vec::new();
        let mut k: usize = 0;
        while k < l
            invariant
                k <= l,
                s == self@,
                st as int == line_start(s, n as int),
                l as int == line_len(s, n as int),
                st + l <= s.len(),
                s.len() < usize::MAX,
                v@ == s.subrange(st as int, st as int + k),
            decreases l - k,
        {
            v.push(self.chars[st + k]);
            proof {
                assert(v@ =~= s.subrange(st as int, st as int + k + 1));
            }
            k = k + 1;
        }
        proof {
            assert(v@ =~= line_at(s, n as int));
        }
        v
    }

    /// Insert one character at a 0-based absolute character offset and
    /// mark the buffer modified.
    pub fn insert_char(&mut self, pos: usize, c: char)
        requires
            old(self).wf(),
            pos <= old(self)@.len(),
            old(self)@.len() + 1 < usize::MAX,
        ensures
            final(self).wf(),
            final(self)@ == old(self)@.insert(pos as int, c),
            final(self).modified_flag(),
    {
        rope_insert_char(&mut self.rope, pos, c);
        self.chars.insert(pos, c);
        self.modified = true;
    }

    /// Remove the character at `pos` if there is one and mark the buffer
    /// modified; past the end of the document this is a silent no-op.
    pub fn remove_char(&mut self, pos: usize)
        requires
            old(self).wf(),
        ensures
            final(self).wf(),
            pos < old(self)@.len() ==> final(self)@ == old(self)@.remove(pos as int)
                && final(self).modified_flag(),
            pos >= old(self)@.len() ==> *final(self) == *old(self),
    {
        if pos < self.chars.len() {
            rope_remove_char(&mut self.rope, pos);
            self.chars.remove(pos);
            self.modified = true;
        }
    }
}

/// A well-formed buffer's document fits in memory.
pub proof fn lemma_buffer_len(b: RopeTextBuffer)
    requires
        b.wf(),
    ensures
        b@.len() < usize::MAX,
{
}

/// Position just after the next `'\n'` at or after `i`, or the document
/// length when no further newline exists.
fn scan_next_start(v: &Vec<char>, i: usize) -> (r: usize)
    requires
        i <= v@.len(),
    ensures
        r as int == next_start(v@, i as int),
        i <= r <= v@.len(),
{
    let mut k = i;
    while k < v.len()
        invariant
            i <= k <= v@.len(),
            next_start(v@, i as int) == next_start(v@, k as int),
        decreases v@.len() - k,
    {
        if v[k] == '\n' {
            return k + 1;
        }
        k = k + 1;
    }
    v.len()
}

} // verus!
