use writeapp::buffer::TextBuffer;

fn chars(s: &str) -> Vec<char> {
    s.chars().collect()
}

fn line_string(buf: &TextBuffer, i: usize) -> String {
    buf.lines()[i].iter().collect()
}

#[test]
fn wrap_leaves_short_line_alone() {
    let mut buf = TextBuffer::from_lines(vec![chars(&"a".repeat(89))]);
    buf.check_wrap();
    assert_eq!(buf.lines().len(), 1);
    assert_eq!(buf.lines()[0].len(), 89);
}

#[test]
fn wrap_leaves_line_of_exactly_limit_alone() {
    let mut buf = TextBuffer::from_lines(vec![chars(&"a".repeat(90))]);
    buf.check_wrap();
    assert_eq!(buf.lines().len(), 1);
    assert_eq!(buf.lines()[0].len(), 90);
}

#[test]
fn wrap_splits_at_last_space_within_limit() {
    let mut line = "a".repeat(40);
    line.push(' ');
    line.push_str(&"b".repeat(54));
    let original = line.clone();
    assert_eq!(line.len(), 95);
    let mut buf = TextBuffer::from_lines(vec![chars(&line)]);
    buf.check_wrap();
    assert_eq!(buf.lines().len(), 2);
    assert_eq!(buf.lines()[0].len(), 40);
    assert_eq!(buf.lines()[1].len(), 54);
    let rejoined = format!("{} {}", line_string(&buf, 0), line_string(&buf, 1));
    assert_eq!(rejoined, original);
}

#[test]
fn wrap_picks_rightmost_of_consecutive_spaces() {
    let mut line = "x".repeat(20);
    line.push_str("   ");
    line.push_str(&"y".repeat(70));
    assert_eq!(line.len(), 93);
    let mut buf = TextBuffer::from_lines(vec![chars(&line)]);
    buf.check_wrap();
    assert_eq!(buf.lines().len(), 2);
    assert_eq!(line_string(&buf, 0), format!("{}  ", "x".repeat(20)));
    assert_eq!(line_string(&buf, 1), "y".repeat(70));
}

#[test]
fn wrap_leaves_unbreakable_line_whole() {
    let line = "u".repeat(95);
    let mut buf = TextBuffer::from_lines(vec![chars(&line)]);
    buf.check_wrap();
    assert_eq!(buf.lines().len(), 1);
    assert_eq!(buf.lines()[0].len(), 95);
    buf.check_wrap();
    assert_eq!(buf.lines().len(), 1);
    assert_eq!(buf.lines()[0].len(), 95);
}

#[test]
fn wrap_ignores_space_past_the_limit() {
    let mut line = "c".repeat(91);
    line.push(' ');
    line.push_str("dd");
    let mut buf = TextBuffer::from_lines(vec![chars(&line)]);
    buf.check_wrap();
    assert_eq!(buf.lines().len(), 1);
}

#[test]
fn wrap_relocates_cursor_past_split() {
    let mut line = "a".repeat(40);
    line.push(' ');
    line.push_str(&"b".repeat(52));
    let mut buf = TextBuffer::from_lines(vec![chars(&line)]);
    buf.move_end();
    buf.check_wrap();
    assert_eq!(buf.cursor(), (1, 52));
}

#[test]
fn wrap_keeps_cursor_before_split() {
    let mut line = "a".repeat(40);
    line.push(' ');
    line.push_str(&"b".repeat(52));
    let mut buf = TextBuffer::from_lines(vec![chars(&line)]);
    buf.jump(0, 10);
    buf.check_wrap();
    assert_eq!(buf.cursor(), (0, 10));
}
