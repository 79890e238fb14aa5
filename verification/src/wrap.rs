//! The soft-wrap engine: after an edit, the cursor's line is split at the
//! last space within the column limit when it has grown past that limit.
//! A line with no space within the limit is left whole, and a line at or
//! under the limit is left untouched.

use vstd::prelude::*;
use crate::buffer::{BufView, buf_wf};

verus! {

/// Column limit past which a line is soft-wrapped at its last space.
pub const HARD_WRAP_LIMIT: usize = 90;

/// The last index below `limit` holding a space, if any.
pub open spec fn last_space_before(line: Seq<char>, limit: int) -> Option<int>
    recommends
        limit <= line.len(),
    decreases limit,
{
    if limit <= 0 {
        None
    } else if line[limit - 1] == ' ' {
        Some(limit - 1)
    } else {
        last_space_before(line, limit - 1)
    }
}

/// Where a position lands when the line `row` splits at column `s`: positions
/// past the removed space move to the new line, positions on later rows move
/// one row down, everything else stays.
pub open spec fn relocate_pos(r: int, c: int, row: int, s: int) -> (int, int) {
    if r == row {
        if c > s {
            (row + 1, c - s - 1)
        } else {
            (r, c)
        }
    } else if r > row {
        (r + 1, c)
    } else {
        (r, c)
    }
}

/// The soft-wrap step. When the cursor's line exceeds the limit and holds a
/// space within the first `HARD_WRAP_LIMIT` columns, that space is replaced
/// by a line break: the line splits in two, and the cursor and the anchor
/// are relocated. Otherwise nothing changes. No undo snapshot is pushed:
/// the wrap rides on the edit that provoked it.
pub open spec fn spec_check_wrap(b: BufView) -> BufView {
    let line = b.lines[b.row];
    if line.len() > HARD_WRAP_LIMIT {
        match last_space_before(line, HARD_WRAP_LIMIT as int) {
            Some(s) => {
                let first = line.subrange(0, s);
                let second = line.subrange(s + 1, line.len() as int);
                let cursor = relocate_pos(b.row, b.col, b.row, s);
                BufView {
                    lines: b.lines.subrange(0, b.row) + seq![first, second] + b.lines.subrange(
                        b.row + 1,
                        b.lines.len() as int,
                    ),
                    row: cursor.0,
                    col: cursor.1,
                    anchor: match b.anchor {
                        Some(a) => Some(relocate_pos(a.0, a.1, b.row, s)),
                        None => None,
                    },
                    register: b.register,
                    undo: b.undo,
                }
            },
            None => b,
        }
    } else {
        b
    }
}

/// When no index below `limit` holds a space, the search finds nothing.
pub proof fn lemma_last_space_none(line: Seq<char>, limit: int)
    requires
        forall|i: int| 0 <= i < limit ==> line[i] != ' ',
    ensures
        last_space_before(line, limit) is None,
    decreases limit,
{
    if limit > 0 {
        lemma_last_space_none(line, limit - 1);
    }
}

/// Whatever the search returns lies below `limit` and holds a space.
pub proof fn lemma_last_space_props(line: Seq<char>, limit: int)
    ensures
        last_space_before(line, limit) matches Some(s) ==> 0 <= s < limit && line[s] == ' ',
    decreases limit,
{
    if limit > 0 && line[limit - 1] != ' ' {
        lemma_last_space_props(line, limit - 1);
    }
}

/// When some index below `limit` holds a space, the search finds the
/// rightmost one.
pub proof fn lemma_last_space_some(line: Seq<char>, limit: int)
    requires
        exists|i: int| 0 <= i < limit && line[i] == ' ',
    ensures
        last_space_before(line, limit) matches Some(s) && 0 <= s < limit && line[s] == ' '
            && (forall|j: int| s < j < limit ==> line[j] != ' '),
    decreases limit,
{
    if limit > 0 {
        if line[limit - 1] == ' ' {
        } else {
            assert(exists|i: int| 0 <= i < limit - 1 && line[i] == ' ');
            lemma_last_space_some(line, limit - 1);
        }
    }
}

/// A line at or under the wrap limit is left untouched by the wrap step.
pub proof fn lemma_wrap_short_line_noop(b: BufView)
    requires
        buf_wf(b),
        b.lines[b.row].len() <= HARD_WRAP_LIMIT,
    ensures
        spec_check_wrap(b) == b,
{
}

/// A long line with no space within the first `HARD_WRAP_LIMIT` columns is
/// left whole, however often the wrap step runs.
pub proof fn lemma_wrap_no_space_noop(b: BufView)
    requires
        buf_wf(b),
        forall|i: int| 0 <= i < HARD_WRAP_LIMIT ==> b.lines[b.row][i] != ' ',
    ensures
        spec_check_wrap(b) == b,
        spec_check_wrap(spec_check_wrap(b)) == b,
{
    if b.lines[b.row].len() > HARD_WRAP_LIMIT {
        lemma_last_space_none(b.lines[b.row], HARD_WRAP_LIMIT as int);
    }
}

/// Wrapping a long line that has a space within the limit splits it at the
/// rightmost such space: the first part stays under the limit, exactly the
/// one space is gone, and joining the two parts with a single space gives
/// back the original line.
pub proof fn lemma_wrap_rejoin(b: BufView)
    requires
        buf_wf(b),
        b.lines[b.row].len() > HARD_WRAP_LIMIT,
        exists|i: int| 0 <= i < HARD_WRAP_LIMIT && b.lines[b.row][i] == ' ',
    ensures
        ({
            let line = b.lines[b.row];
            let r = spec_check_wrap(b);
            let first = r.lines[b.row];
            let second = r.lines[b.row + 1];
            &&& r.lines.len() == b.lines.len() + 1
            &&& first.len() < HARD_WRAP_LIMIT
            &&& first.len() + second.len() + 1 == line.len()
            &&& first + seq![' '] + second =~= line
            &&& line[first.len() as int] == ' '
            &&& forall|j: int| first.len() < j < HARD_WRAP_LIMIT ==> line[j] != ' '
        }),
{
    let line = b.lines[b.row];
    lemma_last_space_some(line, HARD_WRAP_LIMIT as int);
    let s = last_space_before(line, HARD_WRAP_LIMIT as int)->0;
    let r = spec_check_wrap(b);
    assert(r.lines[b.row] == line.subrange(0, s));
    assert(r.lines[b.row + 1] == line.subrange(s + 1, line.len() as int));
    assert(line.subrange(0, s) + seq![' '] + line.subrange(s + 1, line.len() as int) =~= line);
}

/// When the line has grown exactly one column past the limit — the only way
/// a line grows under character-at-a-time editing — both halves of the split
/// stay within the limit.
pub proof fn lemma_wrap_bounds(b: BufView)
    requires
        buf_wf(b),
        b.lines[b.row].len() == HARD_WRAP_LIMIT + 1,
        exists|i: int| 0 <= i < HARD_WRAP_LIMIT && b.lines[b.row][i] == ' ',
    ensures
        ({
            let r = spec_check_wrap(b);
            &&& r.lines[b.row].len() <= HARD_WRAP_LIMIT
            &&& r.lines[b.row + 1].len() <= HARD_WRAP_LIMIT
        }),
{
    lemma_wrap_rejoin(b);
}

/// The wrap step keeps the buffer well-formed: the cursor and the anchor
/// still address valid positions after the split.
pub proof fn lemma_wrap_wf(b: BufView)
    requires
        buf_wf(b),
    ensures
        buf_wf(spec_check_wrap(b)),
{
    let line = b.lines[b.row];
    if line.len() > HARD_WRAP_LIMIT {
        match last_space_before(line, HARD_WRAP_LIMIT as int) {
            Some(s) => {
                lemma_last_space_props(line, HARD_WRAP_LIMIT as int);
                let r = spec_check_wrap(b);
                assert(r.lines.len() == b.lines.len() + 1);
                assert(r.lines[b.row] == line.subrange(0, s));
                assert(r.lines[b.row + 1] == line.subrange(s + 1, line.len() as int));
                assert(forall|k: int|
                    0 <= k < b.row ==> r.lines[k] == b.lines[k]);
                assert(forall|k: int|
                    b.row + 1 < k < r.lines.len() ==> r.lines[k] == b.lines[k - 1]);
            },
            None => {},
        }
    }
}

} // verus!
