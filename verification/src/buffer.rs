//! An editable sequence of text lines with a cursor, an optional selection
//! anchor, a single-slot yank register, and a snapshot-based undo stack.
//!
//! Every mutating operation keeps the cursor and the anchor addressing valid
//! positions: the row stays below the line count and the column stays at or
//! below the length of its line.

use vstd::prelude::*;
use crate::keys::{KeyCode, KeyInput};

verus! {

/// What ordinary text input does to a buffer: a character inserts, Enter
/// breaks the line, Backspace and Delete remove, the arrows move the cursor,
/// and any other key — or any key with the control modifier held — does
/// nothing.
pub open spec fn spec_input(b: BufView, key: KeyInput) -> BufView {
    if key.ctrl {
        b
    } else {
        match key.code {
            KeyCode::Char(c) => spec_insert_char(b, c),
            KeyCode::Enter => spec_insert_newline(b),
            KeyCode::Backspace => spec_backspace(b),
            KeyCode::Delete => spec_delete_next(b),
            KeyCode::Left => spec_move_left(b),
            KeyCode::Right => spec_move_right(b),
            KeyCode::Up => spec_move_up(b),
            KeyCode::Down => spec_move_down(b),
            _ => b,
        }
    }
}

/// Mathematical model of a buffer: the lines, the cursor, the anchor,
/// the yank register and the undo snapshots.
pub struct BufView {
    pub lines: Seq<Seq<char>>,
    pub row: int,
    pub col: int,
    pub anchor: Option<(int, int)>,
    pub register: Seq<char>,
    pub undo: Seq<SnapView>,
}

/// Model of one undo snapshot: the lines and the cursor as they were
/// before an edit.
pub struct SnapView {
    pub lines: Seq<Seq<char>>,
    pub row: int,
    pub col: int,
}

/// The cursor (row, col) addresses a valid position: row within the lines,
/// col at most the length of its line. A buffer always has at least one line.
pub open spec fn lines_wf(lines: Seq<Seq<char>>, row: int, col: int) -> bool {
    &&& lines.len() >= 1
    &&& 0 <= row < lines.len()
    &&& 0 <= col <= lines[row].len()
}

/// Well-formedness of the whole buffer model: cursor, anchor and every
/// undo snapshot address valid positions.
pub open spec fn buf_wf(b: BufView) -> bool {
    &&& lines_wf(b.lines, b.row, b.col)
    &&& match b.anchor {
        Some(a) => 0 <= a.0 < b.lines.len() && 0 <= a.1 <= b.lines[a.0].len(),
        None => true,
    }
    &&& forall|i: int|
        0 <= i < b.undo.len() ==> lines_wf(
            (#[trigger] b.undo[i]).lines,
            b.undo[i].row,
            b.undo[i].col,
        )
}

/// The text of a buffer: its lines joined by a newline character.
pub open spec fn join_lines(lines: Seq<Seq<char>>) -> Seq<char>
    decreases lines.len(),
{
    if lines.len() == 0 {
        Seq::empty()
    } else if lines.len() == 1 {
        lines[0]
    } else {
        lines[0] + seq!['\n'] + join_lines(lines.drop_first())
    }
}

/// The snapshot an edit pushes: lines and cursor before the edit.
pub open spec fn snap_of(b: BufView) -> SnapView {
    SnapView { lines: b.lines, row: b.row, col: b.col }
}

/// An anchor re-clamped to address a valid position of the given lines:
/// the row capped at the last line, the column at that line's length.
pub open spec fn clamp_anchor(anchor: Option<(int, int)>, lines: Seq<Seq<char>>) -> Option<
    (int, int),
> {
    match anchor {
        None => None,
        Some((r, c)) => {
            let nr = if r < lines.len() {
                r
            } else {
                lines.len() - 1
            };
            let nc = if c <= lines[nr].len() {
                c
            } else {
                lines[nr].len() as int
            };
            Some((nr, nc))
        },
    }
}

/// Inserting a character at the cursor: the character enters the cursor's
/// line at the cursor column, the cursor moves one column right, the
/// selection anchor is re-clamped, and a snapshot is pushed.
pub open spec fn spec_insert_char(b: BufView, c: char) -> BufView {
    let line = b.lines[b.row];
    let lines = b.lines.update(
        b.row,
        line.subrange(0, b.col) + seq![c] + line.subrange(b.col, line.len() as int),
    );
    BufView {
        lines: lines,
        row: b.row,
        col: b.col + 1,
        anchor: clamp_anchor(b.anchor, lines),
        register: b.register,
        undo: b.undo.push(snap_of(b)),
    }
}

/// Inserting a line break at the cursor: the cursor's line splits in two at
/// the cursor column, the cursor moves to the start of the second part, the
/// anchor is re-clamped, and a snapshot is pushed.
pub open spec fn spec_insert_newline(b: BufView) -> BufView {
    let line = b.lines[b.row];
    let first = line.subrange(0, b.col);
    let second = line.subrange(b.col, line.len() as int);
    let lines = b.lines.subrange(0, b.row) + seq![first, second] + b.lines.subrange(
        b.row + 1,
        b.lines.len() as int,
    );
    BufView {
        lines: lines,
        row: b.row + 1,
        col: 0,
        anchor: clamp_anchor(b.anchor, lines),
        register: b.register,
        undo: b.undo.push(snap_of(b)),
    }
}

/// Deleting the character before the cursor. At the start of a line the
/// line merges into the previous one; at the start of the buffer nothing
/// happens. An effective edit re-clamps the anchor and pushes a snapshot.
pub open spec fn spec_backspace(b: BufView) -> BufView {
    let line = b.lines[b.row];
    if b.col > 0 {
        let lines = b.lines.update(
            b.row,
            line.subrange(0, b.col - 1) + line.subrange(b.col, line.len() as int),
        );
        BufView {
            lines: lines,
            row: b.row,
            col: b.col - 1,
            anchor: clamp_anchor(b.anchor, lines),
            register: b.register,
            undo: b.undo.push(snap_of(b)),
        }
    } else if b.row > 0 {
        let prev = b.lines[b.row - 1];
        let lines = b.lines.update(b.row - 1, prev + line).remove(b.row);
        BufView {
            lines: lines,
            row: b.row - 1,
            col: prev.len() as int,
            anchor: clamp_anchor(b.anchor, lines),
            register: b.register,
            undo: b.undo.push(snap_of(b)),
        }
    } else {
        b
    }
}

/// Deleting the character under the cursor. At the end of a line the next
/// line merges into this one; at the end of the buffer nothing happens.
/// An effective edit re-clamps the anchor and pushes a snapshot.
pub open spec fn spec_delete_next(b: BufView) -> BufView {
    let line = b.lines[b.row];
    if b.col < line.len() {
        let lines = b.lines.update(
            b.row,
            line.subrange(0, b.col) + line.subrange(b.col + 1, line.len() as int),
        );
        BufView {
            lines: lines,
            row: b.row,
            col: b.col,
            anchor: clamp_anchor(b.anchor, lines),
            register: b.register,
            undo: b.undo.push(snap_of(b)),
        }
    } else if b.row + 1 < b.lines.len() {
        let lines = b.lines.update(b.row, line + b.lines[b.row + 1]).remove(b.row + 1);
        BufView {
            lines: lines,
            row: b.row,
            col: b.col,
            anchor: clamp_anchor(b.anchor, lines),
            register: b.register,
            undo: b.undo.push(snap_of(b)),
        }
    } else {
        b
    }
}

/// One cursor step left, wrapping to the end of the previous line.
pub open spec fn spec_move_left(b: BufView) -> BufView {
    if b.col > 0 {
        BufView { col: b.col - 1, ..b }
    } else if b.row > 0 {
        BufView { row: b.row - 1, col: b.lines[b.row - 1].len() as int, ..b }
    } else {
        b
    }
}

/// One cursor step right, wrapping to the start of the next line.
pub open spec fn spec_move_right(b: BufView) -> BufView {
    if b.col < b.lines[b.row].len() {
        BufView { col: b.col + 1, ..b }
    } else if b.row + 1 < b.lines.len() {
        BufView { row: b.row + 1, col: 0, ..b }
    } else {
        b
    }
}

/// One cursor step up, clamping the column to the new line's length.
pub open spec fn spec_move_up(b: BufView) -> BufView {
    if b.row > 0 {
        let c = if b.col <= b.lines[b.row - 1].len() {
            b.col
        } else {
            b.lines[b.row - 1].len() as int
        };
        BufView { row: b.row - 1, col: c, ..b }
    } else {
        b
    }
}

/// One cursor step down, clamping the column to the new line's length.
pub open spec fn spec_move_down(b: BufView) -> BufView {
    if b.row + 1 < b.lines.len() {
        let c = if b.col <= b.lines[b.row + 1].len() {
            b.col
        } else {
            b.lines[b.row + 1].len() as int
        };
        BufView { row: b.row + 1, col: c, ..b }
    } else {
        b
    }
}

/// First index at or after `i` that does not hold a non-space character:
/// the end of the word the index stands in.
pub open spec fn skip_nonspace(line: Seq<char>, i: int) -> int
    recommends
        0 <= i <= line.len(),
    decreases line.len() - i,
{
    if 0 <= i < line.len() && line[i] != ' ' {
        skip_nonspace(line, i + 1)
    } else {
        i
    }
}

/// First index at or after `i` that does not hold a space.
pub open spec fn skip_space(line: Seq<char>, i: int) -> int
    recommends
        0 <= i <= line.len(),
    decreases line.len() - i,
{
    if 0 <= i < line.len() && line[i] == ' ' {
        skip_space(line, i + 1)
    } else {
        i
    }
}

/// Last index at or before `i` with no space immediately before it,
/// scanning back over spaces.
pub open spec fn back_over_space(line: Seq<char>, i: int) -> int
    recommends
        0 <= i <= line.len(),
    decreases i,
{
    if 0 < i <= line.len() && line[i - 1] == ' ' {
        back_over_space(line, i - 1)
    } else {
        i
    }
}

/// Last index at or before `i` with no non-space immediately before it:
/// the start of the word the index stands in.
pub open spec fn back_over_nonspace(line: Seq<char>, i: int) -> int
    recommends
        0 <= i <= line.len(),
    decreases i,
{
    if 0 < i <= line.len() && line[i - 1] != ' ' {
        back_over_nonspace(line, i - 1)
    } else {
        i
    }
}

/// Word-forward: past the current word and the following spaces to the next
/// word's start; from the end of a line, to the start of the next line.
pub open spec fn spec_word_forward(b: BufView) -> BufView {
    let line = b.lines[b.row];
    if b.col < line.len() {
        BufView { col: skip_space(line, skip_nonspace(line, b.col)), ..b }
    } else if b.row + 1 < b.lines.len() {
        BufView { row: b.row + 1, col: 0, ..b }
    } else {
        b
    }
}

/// Word-back: over the spaces before the cursor to the start of the word
/// there; from the start of a line, to the end of the previous line.
pub open spec fn spec_word_back(b: BufView) -> BufView {
    let line = b.lines[b.row];
    if b.col > 0 {
        BufView { col: back_over_nonspace(line, back_over_space(line, b.col)), ..b }
    } else if b.row > 0 {
        BufView { row: b.row - 1, col: b.lines[b.row - 1].len() as int, ..b }
    } else {
        b
    }
}

/// To the last line, clamping the column.
pub open spec fn spec_move_bottom(b: BufView) -> BufView {
    let last = b.lines.len() - 1;
    let c = if b.col <= b.lines[last].len() {
        b.col
    } else {
        b.lines[last].len() as int
    };
    BufView { row: last, col: c, ..b }
}

/// To the end of the cursor's line.
pub open spec fn spec_move_end(b: BufView) -> BufView {
    BufView { col: b.lines[b.row].len() as int, ..b }
}

/// Jump to a requested position, clamping the row to the line count and the
/// column to the target line's length.
pub open spec fn spec_jump(b: BufView, r: int, c: int) -> BufView {
    let nr = if r < b.lines.len() {
        r
    } else {
        b.lines.len() - 1
    };
    let nc = if c <= b.lines[nr].len() {
        c
    } else {
        b.lines[nr].len() as int
    };
    BufView { row: nr, col: nc, ..b }
}

/// The position `(r1, c1)` comes at or before `(r2, c2)` in reading order.
pub open spec fn pos_le(r1: int, c1: int, r2: int, c2: int) -> bool {
    r1 < r2 || (r1 == r2 && c1 <= c2)
}

/// The text between the anchor and the cursor, in reading order, the end
/// position excluded; empty when no anchor is set or the two coincide.
pub open spec fn sel_text(b: BufView) -> Seq<char> {
    match b.anchor {
        None => Seq::empty(),
        Some((ar, ac)) => {
            let (r1, c1, r2, c2) = if pos_le(ar, ac, b.row, b.col) {
                (ar, ac, b.row, b.col)
            } else {
                (b.row, b.col, ar, ac)
            };
            if r1 == r2 {
                b.lines[r1].subrange(c1, c2)
            } else {
                let mid = b.lines.subrange(r1, r2 + 1);
                let seg = mid.update(0, b.lines[r1].subrange(c1, b.lines[r1].len() as int)).update(
                    r2 - r1,
                    b.lines[r2].subrange(0, c2),
                );
                join_lines(seg)
            }
        },
    }
}

/// Copying: the selected text enters the register; nothing else moves.
pub open spec fn spec_copy(b: BufView) -> BufView {
    BufView { register: sel_text(b), ..b }
}

/// Undo: the lines and cursor return to the latest snapshot, the anchor is
/// cancelled and the snapshot is popped; with no snapshot, nothing happens.
pub open spec fn spec_undo(b: BufView) -> BufView {
    if b.undo.len() > 0 {
        let s = b.undo.last();
        BufView {
            lines: s.lines,
            row: s.row,
            col: s.col,
            anchor: None,
            register: b.register,
            undo: b.undo.drop_last(),
        }
    } else {
        b
    }
}

/// The model of a buffer freshly built from the given lines: cursor at the
/// origin, no anchor, empty register, no history. An empty sequence of
/// lines yields one empty line.
pub open spec fn spec_from_lines(lines: Seq<Seq<char>>) -> BufView {
    BufView {
        lines: if lines.len() == 0 {
            seq![Seq::<char>::empty()]
        } else {
            lines
        },
        row: 0,
        col: 0,
        anchor: None,
        register: Seq::empty(),
        undo: Seq::empty(),
    }
}

/// One undo snapshot: the lines and the cursor before an edit.
pub struct Snap {
    lines: Vec<Vec<char>>,
    row: usize,
    col: usize,
}

/// An editable buffer of lines with a cursor, an optional selection anchor,
/// a single-slot yank register and an undo stack of snapshots.
pub struct TextBuffer {
    lines: Vec<Vec<char>>,
    row: usize,
    col: usize,
    anchor: Option<(usize, usize)>,
    register: Vec<char>,
    undo: Vec<Snap>,
}

impl View for Snap {
    type V = SnapView;

    closed spec fn view(&self) -> SnapView {
        SnapView { lines: self.lines.deep_view(), row: self.row as int, col: self.col as int }
    }
}

impl View for TextBuffer {
    type V = BufView;

    closed spec fn view(&self) -> BufView {
        BufView {
            lines: self.lines.deep_view(),
            row: self.row as int,
            col: self.col as int,
            anchor: match self.anchor {
                Some(a) => Some((a.0 as int, a.1 as int)),
                None => None,
            },
            register: self.register@,
            undo: self.undo.deep_view(),
        }
    }
}

impl DeepView for Snap {
    type V = SnapView;

    open spec fn deep_view(&self) -> SnapView {
        self.view()
    }
}

impl TextBuffer {
    /// The buffer model is well-formed.
    pub open spec fn wf(&self) -> bool {
        buf_wf(self@)
    }

    /// A fresh buffer holding one empty line.
    pub fn new() -> (r: TextBuffer)
        ensures
            r@ == spec_from_lines(Seq::<Seq<char>>::empty()),
            r.wf(),
    {
        let mut lines: Vec<Vec<char>> = Vec::new();
        lines.push(Vec::new());
        let r = TextBuffer { lines, row: 0, col: 0, anchor: None, register: Vec::new(), undo: Vec::new() };
        proof {
            assert(r@.lines =~~= seq![Seq::<char>::empty()]);
            assert(r@.undo =~= Seq::<SnapView>::empty());
            assert(r@ == spec_from_lines(Seq::<Seq<char>>::empty()));
        }
        r
    }

    /// A fresh buffer holding the given lines (one empty line if none),
    /// cursor at the origin.
    pub fn from_lines(lines: Vec<Vec<char>>) -> (r: TextBuffer)
        ensures
            r@ == spec_from_lines(lines.deep_view()),
            r.wf(),
    {
        if lines.len() == 0 {
            let r = Self::new();
            proof {
                assert(lines.deep_view() =~= Seq::<Seq<char>>::empty());
            }
            r
        } else {
            let r = TextBuffer {
                lines,
                row: 0,
                col: 0,
                anchor: None,
                register: Vec::new(),
                undo: Vec::new(),
            };
            proof {
                assert(r@.undo =~= Seq::<SnapView>::empty());
                assert(r@.register =~= Seq::<char>::empty());
                assert(r@ == spec_from_lines(r.lines.deep_view()));
            }
            r
        }
    }

    /// The lines of the buffer.
    pub fn lines(&self) -> (r: &Vec<Vec<char>>)
        ensures
            r.deep_view() == self@.lines,
    {
        &self.lines
    }

    /// The cursor as (row, column).
    pub fn cursor(&self) -> (r: (usize, usize))
        ensures
            r.0 as int == self@.row,
            r.1 as int == self@.col,
    {
        (self.row, self.col)
    }

    /// The selection anchor, if one is set.
    pub fn anchor(&self) -> (r: Option<(usize, usize)>)
        ensures
            self@.anchor is Some <==> r is Some,
            r matches Some(a) ==> self@.anchor == Some((a.0 as int, a.1 as int)),
    {
        self.anchor
    }

    /// Re-clamp the anchor to the current lines, as `clamp_anchor` says.
    fn reclamp_anchor(&mut self)
        requires
            old(self)@.lines.len() >= 1,
        ensures
            final(self)@ == (BufView {
                anchor: clamp_anchor(old(self)@.anchor, old(self)@.lines),
                ..old(self)@
            }),
    {
        match self.anchor {
            Some((r, c)) => {
                let n = self.lines.len();
                let nr = if r < n {
                    r
                } else {
                    n - 1
                };
                let len = line_len(&self.lines, nr);
                let nc = if c <= len {
                    c
                } else {
                    len
                };
                self.anchor = Some((nr, nc));
            },
            None => {},
        }
    }

    /// The snapshot of the current lines and cursor, for the undo stack.
    fn take_snap(&self) -> (r: Snap)
        ensures
            r@ == snap_of(self@),
    {
        let lines = clone_lines(&self.lines);
        Snap { lines, row: self.row, col: self.col }
    }

    /// Insert a character at the cursor.
    pub fn insert_char(&mut self, c: char)
        requires
            old(self).wf(),
        ensures
            final(self)@ == spec_insert_char(old(self)@, c),
            final(self).wf(),
    {
        let snap = self.take_snap();
        self.undo.push(snap);
        let mut line = self.lines.remove(self.row);
        line.insert(self.col, c);
        let n = line.len();
        self.lines.insert(self.row, line);
        assert(self.col < n);
        self.col = self.col + 1;
        self.reclamp_anchor();
        proof {
            let o = old(self)@;
            let oline = o.lines[o.row];
            assert(line@ =~= oline.subrange(0, o.col) + seq![c] + oline.subrange(
                o.col,
                oline.len() as int,
            ));
            assert(self@.lines =~~= spec_insert_char(o, c).lines);
            assert(self@.undo =~~= spec_insert_char(o, c).undo);
            assert(self@ == spec_insert_char(o, c));
        }
    }

    /// Insert a line break at the cursor, splitting the line in two.
    pub fn insert_newline(&mut self)
        requires
            old(self).wf(),
        ensures
            final(self)@ == spec_insert_newline(old(self)@),
            final(self).wf(),
    {
        let snap = self.take_snap();
        self.undo.push(snap);
        let line = self.lines.remove(self.row);
        let mut first: Vec<char> = Vec::new();
        let mut second: Vec<char> = Vec::new();
        let mut i: usize = 0;
        while i < self.col
            invariant
                i <= self.col,
                self.col <= line@.len(),
                first@ =~= line@.subrange(0, i as int),
            decreases self.col - i,
        {
            first.push(line[i]);
            proof {
                assert(first@ =~= line@.subrange(0, i + 1));
            }
            i += 1;
        }
        while i < line.len()
            invariant
                self.col <= i <= line@.len(),
                second@ =~= line@.subrange(self.col as int, i as int),
            decreases line@.len() - i,
        {
            second.push(line[i]);
            proof {
                assert(second@ =~= line@.subrange(self.col as int, i + 1));
            }
            i += 1;
        }
        self.lines.insert(self.row, second);
        self.lines.insert(self.row, first);
        let n = self.lines.len();
        assert(self.row + 1 < n);
        self.row = self.row + 1;
        self.col = 0;
        self.reclamp_anchor();
        proof {
            let o = old(self)@;
            assert(self@.lines =~~= spec_insert_newline(o).lines);
            assert(self@.undo =~~= spec_insert_newline(o).undo);
            assert(self@ == spec_insert_newline(o));
        }
    }

    /// Delete the character before the cursor, merging lines at a line start.
    pub fn backspace(&mut self)
        requires
            old(self).wf(),
        ensures
            final(self)@ == spec_backspace(old(self)@),
            final(self).wf(),
    {
        if self.col > 0 {
            let snap = self.take_snap();
            self.undo.push(snap);
            let mut line = self.lines.remove(self.row);
            line.remove(self.col - 1);
            self.lines.insert(self.row, line);
            self.col = self.col - 1;
            self.reclamp_anchor();
            proof {
                let o = old(self)@;
                let oline = o.lines[o.row];
                assert(line@ =~= oline.subrange(0, o.col - 1) + oline.subrange(
                    o.col,
                    oline.len() as int,
                ));
                assert(self@.lines =~~= spec_backspace(o).lines);
                assert(self@.undo =~~= spec_backspace(o).undo);
                assert(self@ == spec_backspace(o));
            }
        } else if self.row > 0 {
            let snap = self.take_snap();
            self.undo.push(snap);
            let mut line = self.lines.remove(self.row);
            let mut prev = self.lines.remove(self.row - 1);
            let new_col = prev.len();
            prev.append(&mut line);
            self.lines.insert(self.row - 1, prev);
            self.row = self.row - 1;
            self.col = new_col;
            self.reclamp_anchor();
            proof {
                let o = old(self)@;
                assert(self@.lines =~~= spec_backspace(o).lines);
                assert(self@.undo =~~= spec_backspace(o).undo);
                assert(self@ == spec_backspace(o));
            }
        } else {
        }
    }

    /// Delete the character under the cursor, merging the next line in at a
    /// line end.
    pub fn delete_next_char(&mut self)
        requires
            old(self).wf(),
        ensures
            final(self)@ == spec_delete_next(old(self)@),
            final(self).wf(),
    {
        if self.col < line_len(&self.lines, self.row) {
            let snap = self.take_snap();
            self.undo.push(snap);
            let mut line = self.lines.remove(self.row);
            line.remove(self.col);
            self.lines.insert(self.row, line);
            self.reclamp_anchor();
            proof {
                let o = old(self)@;
                let oline = o.lines[o.row];
                assert(line@ =~= oline.subrange(0, o.col) + oline.subrange(
                    o.col + 1,
                    oline.len() as int,
                ));
                assert(self@.lines =~~= spec_delete_next(o).lines);
                assert(self@.undo =~~= spec_delete_next(o).undo);
                assert(self@ == spec_delete_next(o));
            }
        } else if self.row < self.lines.len() - 1 {
            let snap = self.take_snap();
            self.undo.push(snap);
            let mut next = self.lines.remove(self.row + 1);
            let mut line = self.lines.remove(self.row);
            line.append(&mut next);
            self.lines.insert(self.row, line);
            self.reclamp_anchor();
            proof {
                let o = old(self)@;
                assert(self@.lines =~~= spec_delete_next(o).lines);
                assert(self@.undo =~~= spec_delete_next(o).undo);
                assert(self@ == spec_delete_next(o));
            }
        } else {
        }
    }
}

impl TextBuffer {
    /// One cursor step left, wrapping to the end of the previous line.
    pub fn move_left(&mut self)
        requires
            old(self).wf(),
        ensures
            final(self)@ == spec_move_left(old(self)@),
            final(self).wf(),
    {
        if self.col > 0 {
            self.col = self.col - 1;
        } else if self.row > 0 {
            self.row = self.row - 1;
            self.col = line_len(&self.lines, self.row);
        }
    }

    /// One cursor step right, wrapping to the start of the next line.
    pub fn move_right(&mut self)
        requires
            old(self).wf(),
        ensures
            final(self)@ == spec_move_right(old(self)@),
            final(self).wf(),
    {
        let n = self.lines.len();
        if self.col < line_len(&self.lines, self.row) {
            self.col = self.col + 1;
        } else if self.row + 1 < n {
            self.row = self.row + 1;
            self.col = 0;
        }
    }

    /// One cursor step up, clamping the column.
    pub fn move_up(&mut self)
        requires
            old(self).wf(),
        ensures
            final(self)@ == spec_move_up(old(self)@),
            final(self).wf(),
    {
        if self.row > 0 {
            self.row = self.row - 1;
            let len = line_len(&self.lines, self.row);
            if self.col > len {
                self.col = len;
            }
        }
    }

    /// One cursor step down, clamping the column.
    pub fn move_down(&mut self)
        requires
            old(self).wf(),
        ensures
            final(self)@ == spec_move_down(old(self)@),
            final(self).wf(),
    {
        let n = self.lines.len();
        if self.row + 1 < n {
            self.row = self.row + 1;
            let len = line_len(&self.lines, self.row);
            if self.col > len {
                self.col = len;
            }
        }
    }

    /// Word-forward: to the next word's start, or to the next line from a
    /// line end.
    pub fn word_forward(&mut self)
        requires
            old(self).wf(),
        ensures
            final(self)@ == spec_word_forward(old(self)@),
            final(self).wf(),
    {
        let n = self.lines.len();
        let len = line_len(&self.lines, self.row);
        if self.col < len {
            let line = &self.lines[self.row];
            proof {
                assert(line@ =~~= self@.lines[self@.row]);
            }
            let mut j = self.col;
            while j < line.len() && line[j] != ' '
                invariant
                    self.col <= j <= line@.len(),
                    skip_nonspace(line.deep_view(), self.col as int) == skip_nonspace(
                        line.deep_view(),
                        j as int,
                    ),
                decreases line@.len() - j,
            {
                j += 1;
            }
            while j < line.len() && line[j] == ' '
                invariant
                    j <= line@.len(),
                    skip_space(line.deep_view(), skip_nonspace(line.deep_view(), self.col as int))
                        == skip_space(line.deep_view(), j as int),
                decreases line@.len() - j,
            {
                j += 1;
            }
            self.col = j;
        } else if self.row + 1 < n {
            self.row = self.row + 1;
            self.col = 0;
        }
    }

    /// Word-back: to the start of the word before the cursor, or to the end
    /// of the previous line from a line start.
    pub fn word_back(&mut self)
        requires
            old(self).wf(),
        ensures
            final(self)@ == spec_word_back(old(self)@),
            final(self).wf(),
    {
        if self.col > 0 {
            let line = &self.lines[self.row];
            proof {
                assert(line@ =~~= self@.lines[self@.row]);
            }
            let mut j = self.col;
            while j > 0 && line[j - 1] == ' '
                invariant
                    j <= line@.len(),
                    back_over_space(line.deep_view(), self.col as int) == back_over_space(
                        line.deep_view(),
                        j as int,
                    ),
                decreases j,
            {
                j -= 1;
            }
            while j > 0 && line[j - 1] != ' '
                invariant
                    j <= line@.len(),
                    back_over_nonspace(
                        line.deep_view(),
                        back_over_space(line.deep_view(), self.col as int),
                    ) == back_over_nonspace(line.deep_view(), j as int),
                decreases j,
            {
                j -= 1;
            }
            self.col = j;
        } else if self.row > 0 {
            self.row = self.row - 1;
            self.col = line_len(&self.lines, self.row);
        }
    }

    /// To the last line, clamping the column.
    pub fn move_bottom(&mut self)
        requires
            old(self).wf(),
        ensures
            final(self)@ == spec_move_bottom(old(self)@),
            final(self).wf(),
    {
        self.row = self.lines.len() - 1;
        let len = line_len(&self.lines, self.row);
        if self.col > len {
            self.col = len;
        }
    }

    /// To the end of the cursor's line.
    pub fn move_end(&mut self)
        requires
            old(self).wf(),
        ensures
            final(self)@ == spec_move_end(old(self)@),
            final(self).wf(),
    {
        self.col = line_len(&self.lines, self.row);
    }

    /// Jump to a position, clamping row and column to valid bounds.
    pub fn jump(&mut self, r: usize, c: usize)
        requires
            old(self).wf(),
        ensures
            final(self)@ == spec_jump(old(self)@, r as int, c as int),
            final(self).wf(),
    {
        let n = self.lines.len();
        self.row = if r < n {
            r
        } else {
            n - 1
        };
        let len = line_len(&self.lines, self.row);
        self.col = if c <= len {
            c
        } else {
            len
        };
    }

    /// Start a selection: the anchor is set to the cursor.
    pub fn start_selection(&mut self)
        requires
            old(self).wf(),
        ensures
            final(self)@ == (BufView {
                anchor: Some((old(self)@.row, old(self)@.col)),
                ..old(self)@
            }),
            final(self).wf(),
    {
        self.anchor = Some((self.row, self.col));
    }

    /// Cancel the selection: the anchor is cleared.
    pub fn cancel_selection(&mut self)
        requires
            old(self).wf(),
        ensures
            final(self)@ == (BufView { anchor: None, ..old(self)@ }),
            final(self).wf(),
    {
        self.anchor = None;
    }

    /// Copy the selected text into the yank register. With no anchor set the
    /// register is emptied; the anchor itself stays as it was.
    pub fn copy(&mut self)
        requires
            old(self).wf(),
        ensures
            final(self)@ == spec_copy(old(self)@),
            final(self).wf(),
    {
        match self.anchor {
            None => {
                self.register = Vec::new();
                proof {
                    assert(self@.register =~~= sel_text(old(self)@));
                    assert(self@ == spec_copy(old(self)@));
                }
            },
            Some((ar, ac)) => {
                let (r1, c1, r2, c2) = if ar < self.row || (ar == self.row && ac <= self.col) {
                    (ar, ac, self.row, self.col)
                } else {
                    (self.row, self.col, ar, ac)
                };
                if r1 == r2 {
                    let line = &self.lines[r1];
                    proof {
                        assert(line@ =~~= self@.lines[r1 as int]);
                    }
                    let mut reg: Vec<char> = Vec::new();
                    let mut k = c1;
                    while k < c2
                        invariant
                            c1 <= k <= c2,
                            c2 <= line@.len(),
                            reg@ =~= line.deep_view().subrange(c1 as int, k as int),
                        decreases c2 - k,
                    {
                        reg.push(line[k]);
                        proof {
                            assert(reg@ =~= line.deep_view().subrange(c1 as int, k + 1));
                        }
                        k += 1;
                    }
                    self.register = reg;
                    proof {
                        assert(self@.register =~~= sel_text(old(self)@));
                        assert(self@ == spec_copy(old(self)@));
                    }
                } else {
                    let mut seg: Vec<Vec<char>> = Vec::new();
                    let first_line = &self.lines[r1];
                    proof {
                        assert(first_line.deep_view() =~= self@.lines[r1 as int]);
                    }
                    let first_len = first_line.len();
                    let mut firstv: Vec<char> = Vec::new();
                    let mut k = c1;
                    while k < first_len
                        invariant
                            c1 <= k <= first_len,
                            first_len == first_line@.len(),
                            firstv@ =~= first_line.deep_view().subrange(c1 as int, k as int),
                        decreases first_len - k,
                    {
                        firstv.push(first_line[k]);
                        proof {
                            assert(firstv@ =~= first_line.deep_view().subrange(c1 as int, k + 1));
                        }
                        k += 1;
                    }
                    seg.push(firstv);
                    proof {
                        assert(seg.deep_view() =~~= seq![firstv.deep_view()]);
                        assert(firstv.deep_view() =~= self@.lines[r1 as int].subrange(
                            c1 as int,
                            self@.lines[r1 as int].len() as int,
                        ));
                    }
                    let mut t = r1 + 1;
                    while t < r2
                        invariant
                            r1 < t <= r2,
                            r2 < self.lines@.len(),
                            self == old(self),
                            seg@.len() == t - r1,
                            seg.deep_view()[0] == self@.lines[r1 as int].subrange(
                                c1 as int,
                                self@.lines[r1 as int].len() as int,
                            ),
                            forall|j: int|
                                1 <= j < t - r1 ==> seg.deep_view()[j] == self@.lines[r1 + j],
                        decreases r2 - t,
                    {
                        let mid_line = clone_line(&self.lines[t]);
                        proof {
                            assert(mid_line.deep_view() =~= self@.lines[t as int]);
                        }
                        let ghost pre = seg.deep_view();
                        seg.push(mid_line);
                        proof {
                            assert(seg.deep_view() =~~= pre.push(mid_line.deep_view()));
                            assert forall|j: int| 1 <= j < (t + 1) - r1 implies seg.deep_view()[j]
                                == self@.lines[r1 + j] by {
                                if j < t - r1 {
                                    assert(seg.deep_view()[j] == pre[j]);
                                }
                            }
                        }
                        t += 1;
                    }
                    let last_line = &self.lines[r2];
                    proof {
                        assert(last_line.deep_view() =~= self@.lines[r2 as int]);
                    }
                    let mut lastv: Vec<char> = Vec::new();
                    let mut k2: usize = 0;
                    while k2 < c2
                        invariant
                            k2 <= c2,
                            c2 <= last_line@.len(),
                            lastv@ =~= last_line.deep_view().subrange(0, k2 as int),
                        decreases c2 - k2,
                    {
                        lastv.push(last_line[k2]);
                        proof {
                            assert(lastv@ =~= last_line.deep_view().subrange(0, k2 + 1));
                        }
                        k2 += 1;
                    }
                    let ghost pre2 = seg.deep_view();
                    seg.push(lastv);
                    proof {
                        assert(seg.deep_view() =~~= pre2.push(lastv.deep_view()));
                    }
                    let reg = join(&seg);
                    self.register = reg;
                    proof {
                        let o = old(self)@;
                        let mid = o.lines.subrange(r1 as int, r2 + 1);
                        let sspec = mid.update(
                            0,
                            o.lines[r1 as int].subrange(c1 as int, o.lines[r1 as int].len() as int),
                        ).update(r2 - r1, o.lines[r2 as int].subrange(0, c2 as int));
                        assert(seg.deep_view().len() == sspec.len());
                        assert forall|j: int| 0 <= j < sspec.len() implies seg.deep_view()[j]
                            == sspec[j] by {
                            if j == 0 {
                            } else if j < r2 - r1 {
                                assert(seg.deep_view()[j] == pre2[j]);
                                assert(pre2[j] == o.lines[r1 + j]);
                                assert(sspec[j] == mid[j]);
                            } else {
                                assert(seg.deep_view()[j] == lastv.deep_view());
                                assert(lastv.deep_view() =~= o.lines[r2 as int].subrange(
                                    0,
                                    c2 as int,
                                ));
                            }
                        }
                        assert(seg.deep_view() =~~= sspec);
                        assert(self@.register == sel_text(o));
                        assert(self@ == spec_copy(o));
                    }
                }
            },
        }
    }

    /// The contents of the yank register.
    pub fn yank_text(&self) -> (r: Vec<char>)
        ensures
            r@ == self@.register,
    {
        clone_line(&self.register)
    }

    /// Undo the latest edit: lines and cursor return to the snapshot taken
    /// before it; with no snapshot recorded, nothing happens.
    pub fn undo(&mut self)
        requires
            old(self).wf(),
        ensures
            final(self)@ == spec_undo(old(self)@),
            final(self).wf(),
    {
        match self.undo.pop() {
            Some(s) => {
                self.lines = s.lines;
                self.row = s.row;
                self.col = s.col;
                self.anchor = None;
                proof {
                    let o = old(self)@;
                    assert(o.undo.last() == o.undo[o.undo.len() - 1]);
                    assert(self@.undo =~~= spec_undo(o).undo);
                    assert(self@ == spec_undo(o));
                }
            },
            None => {
                proof {
                    assert(self@ == spec_undo(old(self)@));
                }
            },
        }
    }

    /// The buffer's text: its lines joined by a newline character.
    pub fn text(&self) -> (r: Vec<char>)
        ensures
            r@ == join_lines(self@.lines),
    {
        join(&self.lines)
    }

    /// Ordinary text input: dispatches the key to the matching edit or
    /// cursor motion; see `spec_input`.
    pub fn input(&mut self, key: KeyInput)
        requires
            old(self).wf(),
        ensures
            final(self)@ == spec_input(old(self)@, key),
            final(self).wf(),
    {
        if key.ctrl {
            return ;
        }
        match key.code {
            KeyCode::Char(c) => self.insert_char(c),
            KeyCode::Enter => self.insert_newline(),
            KeyCode::Backspace => self.backspace(),
            KeyCode::Delete => self.delete_next_char(),
            KeyCode::Left => self.move_left(),
            KeyCode::Right => self.move_right(),
            KeyCode::Up => self.move_up(),
            KeyCode::Down => self.move_down(),
            _ => {},
        }
    }

    /// The soft-wrap step on the cursor's line: when it exceeds
    /// `HARD_WRAP_LIMIT` and a space stands within the first
    /// `HARD_WRAP_LIMIT` columns, the rightmost such space becomes a line
    /// break and the cursor and anchor are relocated past the split.
    pub fn check_wrap(&mut self)
        requires
            old(self).wf(),
        ensures
            final(self)@ == crate::wrap::spec_check_wrap(old(self)@),
            final(self).wf(),
    {
        let len = line_len(&self.lines, self.row);
        if len > crate::wrap::HARD_WRAP_LIMIT {
            let line = &self.lines[self.row];
            proof {
                assert(line.deep_view() =~= self@.lines[self@.row]);
            }
            let mut k: usize = crate::wrap::HARD_WRAP_LIMIT;
            let mut found: Option<usize> = None;
            while k > 0 && found.is_none()
                invariant
                    k <= crate::wrap::HARD_WRAP_LIMIT < line@.len(),
                    found is None ==> crate::wrap::last_space_before(
                        line.deep_view(),
                        crate::wrap::HARD_WRAP_LIMIT as int,
                    ) == crate::wrap::last_space_before(line.deep_view(), k as int),
                    found matches Some(s) ==> crate::wrap::last_space_before(
                        line.deep_view(),
                        crate::wrap::HARD_WRAP_LIMIT as int,
                    ) == Some(s as int),
                decreases k,
            {
                if line[k - 1] == ' ' {
                    found = Some(k - 1);
                }
                k -= 1;
            }
            proof {
                match found {
                    Some(s) => {
                        assert(crate::wrap::last_space_before(
                            line.deep_view(),
                            crate::wrap::HARD_WRAP_LIMIT as int,
                        ) == Some(s as int));
                    },
                    None => {
                        assert(crate::wrap::last_space_before(
                            line.deep_view(),
                            crate::wrap::HARD_WRAP_LIMIT as int,
                        ) is None);
                    },
                }
            }
            match found {
                Some(s) => {
                    let line = self.lines.remove(self.row);
                    proof {
                        let o = old(self)@;
                        assert(line@ =~= o.lines[o.row]);
                        crate::wrap::lemma_last_space_props(
                            o.lines[o.row],
                            crate::wrap::HARD_WRAP_LIMIT as int,
                        );
                        assert(s < crate::wrap::HARD_WRAP_LIMIT);
                    }
                    let mut first: Vec<char> = Vec::new();
                    let mut second: Vec<char> = Vec::new();
                    let mut i: usize = 0;
                    while i < s
                        invariant
                            i <= s,
                            s < line@.len(),
                            first@ =~= line@.subrange(0, i as int),
                        decreases s - i,
                    {
                        first.push(line[i]);
                        proof {
                            assert(first@ =~= line@.subrange(0, i + 1));
                        }
                        i += 1;
                    }
                    i = s + 1;
                    while i < line.len()
                        invariant
                            s + 1 <= i <= line@.len(),
                            second@ =~= line@.subrange(s + 1, i as int),
                        decreases line@.len() - i,
                    {
                        second.push(line[i]);
                        proof {
                            assert(second@ =~= line@.subrange(s + 1, i + 1));
                        }
                        i += 1;
                    }
                    self.lines.insert(self.row, second);
                    self.lines.insert(self.row, first);
                    let n = self.lines.len();
                    let row = self.row;
                    assert(row + 1 < n);
                    if self.col > s {
                        self.row = row + 1;
                        self.col = self.col - s - 1;
                    }
                    match self.anchor {
                        Some((ar, ac)) => {
                            if ar == row {
                                if ac > s {
                                    self.anchor = Some((row + 1, ac - s - 1));
                                }
                            } else if ar > row {
                                self.anchor = Some((ar + 1, ac));
                            }
                        },
                        None => {},
                    }
                    proof {
                        let o = old(self)@;
                        let w = crate::wrap::spec_check_wrap(o);
                        assert(self@.lines =~~= w.lines);
                        assert(self@ == w);
                        crate::wrap::lemma_wrap_wf(o);
                    }
                },
                None => {
                    proof {
                        assert(self@ == crate::wrap::spec_check_wrap(old(self)@));
                    }
                },
            }
        } else {
            proof {
                assert(self@ == crate::wrap::spec_check_wrap(old(self)@));
            }
        }
    }
}

/// Joining a sequence of lines extended by one more line appends a newline
/// and the new line (the new line alone when there was nothing yet).
pub proof fn lemma_join_push(lines: Seq<Seq<char>>, l: Seq<char>)
    ensures
        lines.len() == 0 ==> join_lines(lines.push(l)) == l,
        lines.len() > 0 ==> join_lines(lines.push(l)) == join_lines(lines) + seq!['\n'] + l,
    decreases lines.len(),
{
    if lines.len() == 0 {
        assert(lines.push(l).len() == 1);
        assert(join_lines(lines.push(l)) == lines.push(l)[0]);
    } else if lines.len() == 1 {
        let p = lines.push(l);
        assert(p.len() == 2);
        assert(p.drop_first() =~~= seq![l]);
        assert(join_lines(p) == p[0] + seq!['\n'] + join_lines(p.drop_first()));
        assert(join_lines(lines) == lines[0]);
    } else {
        let p = lines.push(l);
        assert(p.drop_first() =~~= lines.drop_first().push(l));
        lemma_join_push(lines.drop_first(), l);
        assert(join_lines(p) == p[0] + seq!['\n'] + join_lines(p.drop_first()));
        assert(join_lines(lines) + seq!['\n'] + l =~~= join_lines(p));
    }
}

/// The lines joined by a newline character.
fn join(lines: &Vec<Vec<char>>) -> (r: Vec<char>)
    ensures
        r@ == join_lines(lines.deep_view()),
{
    let mut r: Vec<char> = Vec::new();
    let mut i: usize = 0;
    proof {
        assert(lines.deep_view().subrange(0, 0) =~~= Seq::<Seq<char>>::empty());
    }
    while i < lines.len()
        invariant
            i <= lines@.len(),
            r@ == join_lines(lines.deep_view().subrange(0, i as int)),
        decreases lines@.len() - i,
    {
        if i > 0 {
            r.push('\n');
        }
        let line = &lines[i];
        let mut k: usize = 0;
        while k < line.len()
            invariant
                k <= line@.len(),
                i < lines@.len(),
                line@ == lines@[i as int]@,
                i > 0 ==> r@ == join_lines(lines.deep_view().subrange(0, i as int)) + seq!['\n']
                    + line.deep_view().subrange(0, k as int),
                i == 0 ==> r@ == line.deep_view().subrange(0, k as int),
            decreases line@.len() - k,
        {
            r.push(line[k]);
            proof {
                assert(line.deep_view().subrange(0, k + 1) =~= line.deep_view().subrange(
                    0,
                    k as int,
                ).push(line.deep_view()[k as int]));
                if i > 0 {
                    assert(r@ =~= join_lines(lines.deep_view().subrange(0, i as int)) + seq!['\n']
                        + line.deep_view().subrange(0, k + 1));
                } else {
                    assert(r@ =~= line.deep_view().subrange(0, k + 1));
                }
            }
            k += 1;
        }
        proof {
            let pre = lines.deep_view().subrange(0, i as int);
            lemma_join_push(pre, line.deep_view());
            assert(line.deep_view().subrange(0, line@.len() as int) =~~= line.deep_view());
            assert(pre.push(line.deep_view()) =~~= lines.deep_view().subrange(0, i + 1));
        }
        i += 1;
    }
    proof {
        assert(lines.deep_view().subrange(0, lines@.len() as int) =~~= lines.deep_view());
    }
    r
}

/// The length of the given line of the buffer.
fn line_len(lines: &Vec<Vec<char>>, row: usize) -> (r: usize)
    requires
        row < lines@.len(),
    ensures
        r == lines.deep_view()[row as int].len(),
{
    let r = lines[row].len();
    proof {
        assert(lines.deep_view()[row as int] == lines@[row as int].deep_view());
    }
    r
}

/// A copy of a line whose view is the same sequence of characters.
fn clone_line(v: &Vec<char>) -> (r: Vec<char>)
    ensures
        r@ == v@,
{
    let r = v.clone();
    proof {
        assert forall|j: int| 0 <= j < v@.len() implies r@[j] == v@[j] by {
            assert(cloned::<char>(v@[j], r@[j]));
        }
        assert(r@ =~= v@);
    }
    r
}

/// A copy of a sequence of lines with the same deep view.
fn clone_lines(v: &Vec<Vec<char>>) -> (r: Vec<Vec<char>>)
    ensures
        r.deep_view() == v.deep_view(),
{
    let mut r: Vec<Vec<char>> = Vec::new();
    let mut i: usize = 0;
    while i < v.len()
        invariant
            i <= v.len(),
            r@.len() == i,
            forall|j: int| 0 <= j < i ==> r.deep_view()[j] == v.deep_view()[j],
        decreases v.len() - i,
    {
        let line = clone_line(&v[i]);
        proof {
            assert(line.deep_view() =~= v@[i as int].deep_view());
        }
        r.push(line);
        i += 1;
    }
    proof {
        assert(r.deep_view() =~= v.deep_view());
    }
    r
}

} // verus!

