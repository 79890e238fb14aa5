use writeapp::buffer::TextBuffer;
use writeapp::keys::{KeyCode, KeyInput};

fn chars(s: &str) -> Vec<char> {
    s.chars().collect()
}

fn line_string(buf: &TextBuffer, i: usize) -> String {
    buf.lines()[i].iter().collect()
}

fn text_string(buf: &TextBuffer) -> String {
    buf.text().iter().collect()
}

fn type_str(buf: &mut TextBuffer, s: &str) {
    for c in s.chars() {
        buf.insert_char(c);
    }
}

#[test]
fn new_buffer_has_one_empty_line() {
    let buf = TextBuffer::new();
    assert_eq!(buf.lines().len(), 1);
    assert_eq!(buf.lines()[0].len(), 0);
    assert_eq!(buf.cursor(), (0, 0));
    assert!(buf.anchor().is_none());
}

#[test]
fn insert_chars_and_read_text() {
    let mut buf = TextBuffer::new();
    type_str(&mut buf, "hello");
    assert_eq!(text_string(&buf), "hello");
    assert_eq!(buf.cursor(), (0, 5));
}

#[test]
fn newline_splits_line_at_cursor() {
    let mut buf = TextBuffer::new();
    type_str(&mut buf, "abcd");
    buf.move_left();
    buf.move_left();
    buf.insert_newline();
    assert_eq!(buf.lines().len(), 2);
    assert_eq!(line_string(&buf, 0), "ab");
    assert_eq!(line_string(&buf, 1), "cd");
    assert_eq!(buf.cursor(), (1, 0));
    assert_eq!(text_string(&buf), "ab\ncd");
}

#[test]
fn backspace_removes_and_merges() {
    let mut buf = TextBuffer::new();
    type_str(&mut buf, "ab");
    buf.insert_newline();
    type_str(&mut buf, "cd");
    buf.backspace();
    assert_eq!(text_string(&buf), "ab\nc");
    buf.backspace();
    assert_eq!(text_string(&buf), "ab\n");
    buf.backspace();
    assert_eq!(text_string(&buf), "ab");
    assert_eq!(buf.cursor(), (0, 2));
}

#[test]
fn delete_next_char_and_line_merge() {
    let mut buf = TextBuffer::from_lines(vec![chars("ab"), chars("cd")]);
    buf.delete_next_char();
    assert_eq!(line_string(&buf, 0), "b");
    buf.move_end();
    buf.delete_next_char();
    assert_eq!(buf.lines().len(), 1);
    assert_eq!(line_string(&buf, 0), "bcd");
}

#[test]
fn arrow_movement_wraps_lines() {
    let mut buf = TextBuffer::from_lines(vec![chars("ab"), chars("xyz")]);
    buf.move_right();
    buf.move_right();
    assert_eq!(buf.cursor(), (0, 2));
    buf.move_right();
    assert_eq!(buf.cursor(), (1, 0));
    buf.move_left();
    assert_eq!(buf.cursor(), (0, 2));
    buf.move_down();
    assert_eq!(buf.cursor(), (1, 2));
    buf.move_up();
    assert_eq!(buf.cursor(), (0, 2));
}

#[test]
fn word_motions() {
    let mut buf = TextBuffer::from_lines(vec![chars("one  two three")]);
    buf.word_forward();
    assert_eq!(buf.cursor(), (0, 5));
    buf.word_forward();
    assert_eq!(buf.cursor(), (0, 9));
    buf.word_back();
    assert_eq!(buf.cursor(), (0, 5));
    buf.word_back();
    assert_eq!(buf.cursor(), (0, 0));
}

#[test]
fn selection_copy_single_line() {
    let mut buf = TextBuffer::new();
    type_str(&mut buf, "hello world");
    buf.start_selection();
    buf.word_back();
    buf.copy();
    let yanked: String = buf.yank_text().iter().collect();
    assert_eq!(yanked, "world");
    assert!(buf.anchor().is_some());
    buf.cancel_selection();
    assert!(buf.anchor().is_none());
}

#[test]
fn selection_copy_across_lines() {
    let mut buf = TextBuffer::from_lines(vec![chars("abc"), chars("def"), chars("ghi")]);
    buf.move_right();
    buf.start_selection();
    buf.move_down();
    buf.move_down();
    buf.move_right();
    buf.copy();
    let yanked: String = buf.yank_text().iter().collect();
    assert_eq!(yanked, "bc\ndef\ngh");
}

#[test]
fn empty_selection_yanks_nothing() {
    let mut buf = TextBuffer::new();
    type_str(&mut buf, "abc");
    buf.start_selection();
    buf.copy();
    assert_eq!(buf.yank_text().len(), 0);
}

#[test]
fn undo_restores_previous_lines_and_cursor() {
    let mut buf = TextBuffer::new();
    type_str(&mut buf, "ab");
    buf.insert_char('c');
    assert_eq!(text_string(&buf), "abc");
    buf.undo();
    assert_eq!(text_string(&buf), "ab");
    assert_eq!(buf.cursor(), (0, 2));
    buf.undo();
    buf.undo();
    assert_eq!(text_string(&buf), "");
    buf.undo();
    assert_eq!(text_string(&buf), "");
}

#[test]
fn input_dispatches_keys() {
    let mut buf = TextBuffer::new();
    buf.input(KeyInput::plain(KeyCode::Char('h')));
    buf.input(KeyInput::plain(KeyCode::Char('i')));
    buf.input(KeyInput::plain(KeyCode::Enter));
    buf.input(KeyInput::plain(KeyCode::Char('!')));
    assert_eq!(text_string(&buf), "hi\n!");
    buf.input(KeyInput::plain(KeyCode::Backspace));
    assert_eq!(text_string(&buf), "hi\n");
    buf.input(KeyInput::ctrl(KeyCode::Char('x')));
    assert_eq!(text_string(&buf), "hi\n");
}

#[test]
fn from_lines_of_empty_input_gives_one_line() {
    let buf = TextBuffer::from_lines(Vec::new());
    assert_eq!(buf.lines().len(), 1);
    assert_eq!(buf.lines()[0].len(), 0);
}
