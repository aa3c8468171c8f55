use cim_core::buffer::RopeTextBuffer;

#[test]
fn empty_buffer_has_one_line() {
    let b = RopeTextBuffer::new("");
    assert_eq!(b.line_count(), 1);
    assert_eq!(b.len(), 0);
    assert_eq!(b.line_len(0), 0);
    assert_eq!(b.offset_of_line(0), 0);
    assert_eq!(b.offset_of_line(1), 0);
    assert!(!b.is_modified());
    assert_eq!(b.text(), "");
}

#[test]
fn line_offsets_and_lengths() {
    let b = RopeTextBuffer::new("ab\ncd\nefg");
    assert_eq!(b.line_count(), 3);
    assert_eq!(b.offset_of_line(0), 0);
    assert_eq!(b.offset_of_line(1), 3);
    assert_eq!(b.offset_of_line(2), 6);
    // the sentinel one-past-the-last line start is the buffer length
    assert_eq!(b.offset_of_line(3), 9);
    assert_eq!(b.line_len(0), 2);
    assert_eq!(b.line_len(1), 2);
    assert_eq!(b.line_len(2), 3);
}

#[test]
fn trailing_newline_counts_a_line() {
    let b = RopeTextBuffer::new("ab\n");
    assert_eq!(b.line_count(), 2);
    assert_eq!(b.offset_of_line(1), 3);
    assert_eq!(b.line_len(1), 0);
}

#[test]
fn insert_goes_through_the_rope() {
    let mut b = RopeTextBuffer::new("ace");
    b.insert_char(1, 'b');
    b.insert_char(3, 'd');
    // text() reads back out of the rope, so this fails if the edit
    // wrappers did not really splice
    assert_eq!(b.text(), "abcde");
    assert!(b.is_modified());
}

#[test]
fn insert_multibyte_character() {
    let mut b = RopeTextBuffer::new("a\u{e9}z");
    b.insert_char(2, '\u{fc}');
    assert_eq!(b.text(), "a\u{e9}\u{fc}z");
    b.remove_char(1);
    assert_eq!(b.text(), "a\u{fc}z");
}

#[test]
fn remove_past_end_is_a_silent_no_op() {
    let mut b = RopeTextBuffer::new("abc");
    b.remove_char(3);
    assert_eq!(b.text(), "abc");
    assert!(!b.is_modified());
    b.remove_char(1);
    assert_eq!(b.text(), "ac");
    assert!(b.is_modified());
}

#[test]
fn set_modified_clears_the_flag() {
    let mut b = RopeTextBuffer::new("x");
    b.insert_char(0, 'y');
    assert!(b.is_modified());
    b.set_modified(false);
    assert!(!b.is_modified());
    assert_eq!(b.text(), "yx");
}

#[test]
fn line_chars_excludes_the_newline() {
    let b = RopeTextBuffer::new("ab\ncd");
    assert_eq!(b.line_chars(0), vec!['a', 'b']);
    assert_eq!(b.line_chars(1), vec!['c', 'd']);
}

#[test]
fn newline_insert_splits_line_count() {
    let mut b = RopeTextBuffer::new("abcd");
    assert_eq!(b.line_count(), 1);
    b.insert_char(2, '\n');
    assert_eq!(b.line_count(), 2);
    assert_eq!(b.text(), "ab\ncd");
}
