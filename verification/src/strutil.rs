//! Characters, lines and strings: conversions between the buffer's
//! character lines and `String`, whitespace trimming, and line splitting.

use vstd::prelude::*;
use vstd::string::StringExecFns;
use vstd::string::StrSliceExecFns;
use crate::buffer::join_lines;

verus! {

/// Relies on std's `String::push`: appends the given character to the end
/// of the string.
pub assume_specification[ String::push ](s: &mut String, c: char)
    ensures
        final(s)@ == old(s)@.push(c),
;

/// The string holding exactly the given characters.
pub fn chars_to_string(v: &Vec<char>) -> (r: String)
    ensures
        r@ == v@,
{
    let mut r = String::new();
    let mut i: usize = 0;
    while i < v.len()
        invariant
            i <= v@.len(),
            r@ =~= v@.subrange(0, i as int),
        decreases v@.len() - i,
    {
        r.push(v[i]);
        proof {
            assert(r@ =~= v@.subrange(0, i + 1));
        }
        i += 1;
    }
    proof {
        assert(r@ =~= v@);
    }
    r
}

/// The characters of the given string slice.
pub fn str_to_chars(s: &str) -> (r: Vec<char>)
    ensures
        r@ == s@,
{
    let n = s.unicode_len();
    let mut r: Vec<char> = Vec::new();
    let mut i: usize = 0;
    while i < n
        invariant
            i <= n == s@.len(),
            r@ =~= s@.subrange(0, i as int),
        decreases n - i,
    {
        r.push(s.get_char(i));
        proof {
            assert(r@ =~= s@.subrange(0, i + 1));
        }
        i += 1;
    }
    proof {
        assert(r@ =~= s@);
    }
    r
}

/// The whitespace characters that trimming removes.
pub open spec fn is_space_char(c: char) -> bool {
    c == ' ' || c == '\t' || c == '\n' || c == '\r'
}

/// Every character of the sequence is whitespace.
pub open spec fn all_space(s: Seq<char>) -> bool {
    forall|i: int| 0 <= i < s.len() ==> is_space_char(s[i])
}

/// First index at or after `i` holding a non-whitespace character.
pub open spec fn trim_start_idx(s: Seq<char>, i: int) -> int
    recommends
        0 <= i <= s.len(),
    decreases s.len() - i,
{
    if 0 <= i < s.len() && is_space_char(s[i]) {
        trim_start_idx(s, i + 1)
    } else {
        i
    }
}

/// Last index at or before `i` with no whitespace immediately before it.
pub open spec fn trim_end_idx(s: Seq<char>, i: int) -> int
    recommends
        0 <= i <= s.len(),
    decreases i,
{
    if 0 < i <= s.len() && is_space_char(s[i - 1]) {
        trim_end_idx(s, i - 1)
    } else {
        i
    }
}

/// The sequence with leading and trailing whitespace removed.
pub open spec fn spec_trim(s: Seq<char>) -> Seq<char> {
    let a = trim_start_idx(s, 0);
    let b = trim_end_idx(s, s.len() as int);
    if a < b {
        s.subrange(a, b)
    } else {
        Seq::empty()
    }
}

/// Whether a character is whitespace, as `is_space_char` says.
fn is_space(c: char) -> (r: bool)
    ensures
        r == is_space_char(c),
{
    c == ' ' || c == '\t' || c == '\n' || c == '\r'
}

/// The characters with leading and trailing whitespace removed.
pub fn trim_chars(v: &Vec<char>) -> (r: Vec<char>)
    ensures
        r@ == spec_trim(v@),
{
    let n = v.len();
    let mut a: usize = 0;
    while a < n && is_space(v[a])
        invariant
            a <= n == v@.len(),
            trim_start_idx(v@, 0) == trim_start_idx(v@, a as int),
        decreases n - a,
    {
        a += 1;
    }
    let mut b: usize = n;
    while b > 0 && is_space(v[b - 1])
        invariant
            b <= n == v@.len(),
            trim_end_idx(v@, n as int) == trim_end_idx(v@, b as int),
        decreases b,
    {
        b -= 1;
    }
    let mut r: Vec<char> = Vec::new();
    let mut i: usize = a;
    if a < b {
        while i < b
            invariant
                a <= i <= b <= v@.len(),
                r@ =~= v@.subrange(a as int, i as int),
            decreases b - i,
        {
            r.push(v[i]);
            proof {
                assert(r@ =~= v@.subrange(a as int, i + 1));
            }
            i += 1;
        }
    }
    proof {
        assert(r@ =~= spec_trim(v@));
    }
    r
}

/// Every character of the given characters is whitespace: the trimmed text
/// is empty.
pub fn is_blank(v: &Vec<char>) -> (r: bool)
    ensures
        r == all_space(v@),
{
    let mut i: usize = 0;
    while i < v.len()
        invariant
            i <= v@.len(),
            forall|j: int| 0 <= j < i ==> is_space_char(v@[j]),
        decreases v@.len() - i,
    {
        if !is_space(v[i]) {
            return false;
        }
        i += 1;
    }
    true
}

/// Some character of the given characters equals `c`.
pub fn contains_char(v: &Vec<char>, c: char) -> (r: bool)
    ensures
        r == (exists|j: int| 0 <= j < v@.len() && v@[j] == c),
{
    let mut i: usize = 0;
    while i < v.len()
        invariant
            i <= v@.len(),
            forall|j: int| 0 <= j < i ==> v@[j] != c,
        decreases v@.len() - i,
    {
        if v[i] == c {
            return true;
        }
        i += 1;
    }
    false
}

/// The character of one decimal digit.
pub open spec fn dec_digit(d: int) -> char {
    if d == 0 {
        '0'
    } else if d == 1 {
        '1'
    } else if d == 2 {
        '2'
    } else if d == 3 {
        '3'
    } else if d == 4 {
        '4'
    } else if d == 5 {
        '5'
    } else if d == 6 {
        '6'
    } else if d == 7 {
        '7'
    } else if d == 8 {
        '8'
    } else {
        '9'
    }
}

/// The decimal digits of a number, most significant first.
pub open spec fn spec_dec(n: int) -> Seq<char>
    recommends
        n >= 0,
    decreases n,
{
    if n < 10 {
        seq![dec_digit(n)]
    } else {
        spec_dec(n / 10).push(dec_digit(n % 10))
    }
}

/// The character of one decimal digit below ten.
fn dec_digit_char(d: u64) -> (r: char)
    requires
        d < 10,
    ensures
        r == dec_digit(d as int),
{
    if d == 0 {
        '0'
    } else if d == 1 {
        '1'
    } else if d == 2 {
        '2'
    } else if d == 3 {
        '3'
    } else if d == 4 {
        '4'
    } else if d == 5 {
        '5'
    } else if d == 6 {
        '6'
    } else if d == 7 {
        '7'
    } else if d == 8 {
        '8'
    } else {
        '9'
    }
}

/// The decimal digits of a number, most significant first.
pub fn u64_to_dec(n: u64) -> (r: Vec<char>)
    ensures
        r@ == spec_dec(n as int),
    decreases n,
{
    if n < 10 {
        let mut r: Vec<char> = Vec::new();
        r.push(dec_digit_char(n));
        proof {
            assert(r@ =~= seq![dec_digit(n as int)]);
        }
        r
    } else {
        let mut r = u64_to_dec(n / 10);
        r.push(dec_digit_char(n % 10));
        r
    }
}

/// The decimal notation of a number.
pub fn u64_to_dec_string(n: u64) -> (r: String)
    ensures
        r@ == spec_dec(n as int),
{
    let v = u64_to_dec(n);
    chars_to_string(&v)
}

/// A text split at newline characters. Splitting never yields an empty
/// result: empty text gives one empty line.
pub open spec fn split_lines(s: Seq<char>) -> Seq<Seq<char>>
    decreases s.len(),
{
    if s.len() == 0 {
        seq![Seq::<char>::empty()]
    } else if s[0] == '\n' {
        seq![Seq::<char>::empty()] + split_lines(s.drop_first())
    } else {
        let rest = split_lines(s.drop_first());
        rest.update(0, seq![s[0]] + rest[0])
    }
}

/// Splitting yields at least one line.
pub proof fn lemma_split_nonempty(s: Seq<char>)
    ensures
        split_lines(s).len() >= 1,
    decreases s.len(),
{
    if s.len() > 0 {
        lemma_split_nonempty(s.drop_first());
    }
}

/// What one more character does to a split: a newline opens a new empty
/// line, any other character extends the last line.
pub proof fn lemma_split_snoc(s: Seq<char>, c: char)
    ensures
        c == '\n' ==> split_lines(s.push(c)) == split_lines(s).push(Seq::<char>::empty()),
        c != '\n' ==> split_lines(s.push(c)) == split_lines(s).update(
            split_lines(s).len() - 1,
            split_lines(s).last().push(c),
        ),
    decreases s.len(),
{
    lemma_split_nonempty(s);
    if s.len() == 0 {
        let p = s.push(c);
        assert(p.len() == 1);
        assert(p.drop_first() =~= Seq::<char>::empty());
        assert(p.drop_first().len() == 0);
        assert(split_lines(p.drop_first()) == seq![Seq::<char>::empty()]);
        assert(split_lines(s) == seq![Seq::<char>::empty()]);
        if c == '\n' {
            assert(p[0] == '\n');
            assert(split_lines(p) == seq![Seq::<char>::empty()] + split_lines(p.drop_first()));
            assert(split_lines(p) =~~= split_lines(s).push(Seq::<char>::empty()));
        } else {
            assert(p[0] == c);
            assert(split_lines(p) == split_lines(p.drop_first()).update(
                0,
                seq![c] + split_lines(p.drop_first())[0],
            ));
            assert(seq![c] + Seq::<char>::empty() =~= seq![c]);
            assert(split_lines(s).last().push(c) =~= seq![c]);
            assert(split_lines(p) =~~= split_lines(s).update(
                split_lines(s).len() - 1,
                split_lines(s).last().push(c),
            ));
        }
    } else {
        let t = s.drop_first();
        lemma_split_nonempty(t);
        lemma_split_snoc(t, c);
        assert(s.push(c)[0] == s[0]);
        assert(s.push(c).drop_first() =~= t.push(c));
        if s[0] == '\n' {
            if c == '\n' {
                assert(split_lines(s.push(c)) =~~= split_lines(s).push(Seq::<char>::empty()));
            } else {
                assert(split_lines(s.push(c)) =~~= split_lines(s).update(
                    split_lines(s).len() - 1,
                    split_lines(s).last().push(c),
                ));
            }
        } else {
            let rest = split_lines(t);
            let restc = split_lines(t.push(c));
            if c == '\n' {
                assert(restc == rest.push(Seq::<char>::empty()));
                assert(restc[0] == rest[0]);
                assert(split_lines(s.push(c)) == restc.update(0, seq![s[0]] + restc[0]));
                assert(split_lines(s.push(c)) =~= split_lines(s).push(Seq::<char>::empty()));
            } else {
                assert(restc == rest.update(rest.len() - 1, rest.last().push(c)));
                if rest.len() == 1 {
                    assert(restc[0] == rest[0].push(c));
                    assert(seq![s[0]] + rest[0].push(c) =~= (seq![s[0]] + rest[0]).push(c));
                    assert(split_lines(s.push(c)) =~~= split_lines(s).update(
                        split_lines(s).len() - 1,
                        split_lines(s).last().push(c),
                    ));
                } else {
                    assert(restc[0] == rest[0]);
                    assert(split_lines(s.push(c)) =~~= split_lines(s).update(
                        split_lines(s).len() - 1,
                        split_lines(s).last().push(c),
                    ));
                }
            }
        }
    }
}

/// Joining the lines of a split gives back the text: loading a stored text
/// into a buffer and reading it out again changes nothing.
pub proof fn lemma_join_split(s: Seq<char>)
    ensures
        join_lines(split_lines(s)) == s,
    decreases s.len(),
{
    if s.len() == 0 {
        assert(join_lines(split_lines(s)) =~= s);
    } else if s[0] == '\n' {
        lemma_join_split(s.drop_first());
        let parts = split_lines(s);
        lemma_split_nonempty(s.drop_first());
        assert(parts.drop_first() =~= split_lines(s.drop_first()));
        assert(join_lines(parts) == parts[0] + seq!['\n'] + join_lines(parts.drop_first()));
        assert(join_lines(parts) =~= s);
    } else {
        lemma_join_split(s.drop_first());
        let rest = split_lines(s.drop_first());
        lemma_split_nonempty(s.drop_first());
        let parts = split_lines(s);
        assert(parts == rest.update(0, seq![s[0]] + rest[0]));
        if rest.len() == 1 {
            assert(join_lines(parts) == parts[0]);
            assert(join_lines(rest) == rest[0]);
            assert(parts[0] == seq![s[0]] + rest[0]);
            assert(rest[0] == s.drop_first());
            assert(seq![s[0]] + s.drop_first() =~= s);
            assert(join_lines(parts) =~= s);
        } else {
            assert(parts.drop_first() =~= rest.drop_first());
            assert(join_lines(parts) == parts[0] + seq!['\n'] + join_lines(parts.drop_first()));
            assert(join_lines(rest) == rest[0] + seq!['\n'] + join_lines(rest.drop_first()));
            assert(parts[0] == seq![s[0]] + rest[0]);
            assert(join_lines(parts) =~= seq![s[0]] + (rest[0] + seq!['\n'] + join_lines(
                rest.drop_first(),
            )));
            assert(seq![s[0]] + s.drop_first() =~= s);
            assert(join_lines(parts) =~= s);
        }
    }
}

/// The lines run together with no separator, as a single-line input field
/// reads its contents.
pub open spec fn concat_lines(lines: Seq<Seq<char>>) -> Seq<char>
    decreases lines.len(),
{
    if lines.len() == 0 {
        Seq::empty()
    } else {
        lines[0] + concat_lines(lines.drop_first())
    }
}

/// Concatenating one more line appends its characters.
pub proof fn lemma_concat_push(lines: Seq<Seq<char>>, l: Seq<char>)
    ensures
        concat_lines(lines.push(l)) == concat_lines(lines) + l,
    decreases lines.len(),
{
    if lines.len() == 0 {
        let p = lines.push(l);
        assert(p[0] == l);
        assert(p.drop_first() =~~= Seq::<Seq<char>>::empty());
        assert(concat_lines(p.drop_first()) == Seq::<char>::empty());
        assert(concat_lines(p) == p[0] + concat_lines(p.drop_first()));
        assert(concat_lines(lines) == Seq::<char>::empty());
        assert(concat_lines(p) =~= concat_lines(lines) + l);
    } else {
        lemma_concat_push(lines.drop_first(), l);
        let p = lines.push(l);
        assert(p[0] == lines[0]);
        assert(p.drop_first() =~~= lines.drop_first().push(l));
        assert(concat_lines(p) == p[0] + concat_lines(p.drop_first()));
        assert(concat_lines(p.drop_first()) == concat_lines(lines.drop_first()) + l);
        assert(concat_lines(lines) == lines[0] + concat_lines(lines.drop_first()));
        assert(concat_lines(p) =~= concat_lines(lines) + l);
    }
}

/// The characters of all the lines run together, no separator between them.
pub fn concat_all(lines: &Vec<Vec<char>>) -> (r: Vec<char>)
    ensures
        r@ == concat_lines(lines.deep_view()),
{
    let mut r: Vec<char> = Vec::new();
    let mut i: usize = 0;
    proof {
        assert(lines.deep_view().subrange(0, 0) =~~= Seq::<Seq<char>>::empty());
    }
    while i < lines.len()
        invariant
            i <= lines@.len(),
            r@ == concat_lines(lines.deep_view().subrange(0, i as int)),
        decreases lines@.len() - i,
    {
        let line = &lines[i];
        proof {
            assert(line.deep_view() =~= lines.deep_view()[i as int]);
            assert(r@ =~= concat_lines(lines.deep_view().subrange(0, i as int))
                + line.deep_view().subrange(0, 0));
        }
        let mut k: usize = 0;
        while k < line.len()
            invariant
                k <= line@.len(),
                i < lines@.len(),
                line@ == lines@[i as int]@,
                r@ == concat_lines(lines.deep_view().subrange(0, i as int))
                    + line.deep_view().subrange(0, k as int),
            decreases line@.len() - k,
        {
            r.push(line[k]);
            proof {
                assert(line.deep_view().subrange(0, k + 1) =~= line.deep_view().subrange(
                    0,
                    k as int,
                ).push(line.deep_view()[k as int]));
                assert(r@ =~= concat_lines(lines.deep_view().subrange(0, i as int))
                    + line.deep_view().subrange(0, k + 1));
            }
            k += 1;
        }
        proof {
            let pre = lines.deep_view().subrange(0, i as int);
            lemma_concat_push(pre, line.deep_view());
            assert(line.deep_view().subrange(0, line@.len() as int) =~~= line.deep_view());
            assert(pre.push(line.deep_view()) =~~= lines.deep_view().subrange(0, i + 1));
            assert(r@ =~= concat_lines(lines.deep_view().subrange(0, i + 1)));
        }
        i += 1;
    }
    proof {
        assert(lines.deep_view().subrange(0, lines@.len() as int) =~~= lines.deep_view());
    }
    r
}

/// The lines of the given string, split at newline characters.
pub fn string_to_lines(s: &str) -> (r: Vec<Vec<char>>)
    ensures
        r.deep_view() == split_lines(s@),
{
    let n = s.unicode_len();
    let mut lines: Vec<Vec<char>> = Vec::new();
    let mut cur: Vec<char> = Vec::new();
    let mut i: usize = 0;
    proof {
        assert(s@.subrange(0, 0) =~= Seq::<char>::empty());
        assert(lines.deep_view().push(cur.deep_view()) =~~= split_lines(s@.subrange(0, 0)));
    }
    while i < n
        invariant
            i <= n == s@.len(),
            lines.deep_view().push(cur.deep_view()) =~~= split_lines(s@.subrange(0, i as int)),
        decreases n - i,
    {
        let c = s.get_char(i);
        proof {
            lemma_split_snoc(s@.subrange(0, i as int), c);
            assert(s@.subrange(0, i + 1) =~= s@.subrange(0, i as int).push(c));
            lemma_split_nonempty(s@.subrange(0, i as int));
        }
        if c == '\n' {
            lines.push(cur);
            cur = Vec::new();
            proof {
                assert(lines.deep_view().push(cur.deep_view()) =~~= split_lines(
                    s@.subrange(0, i + 1),
                ));
            }
        } else {
            cur.push(c);
            proof {
                assert(lines.deep_view().push(cur.deep_view()) =~~= split_lines(
                    s@.subrange(0, i + 1),
                ));
            }
        }
        i += 1;
    }
    lines.push(cur);
    proof {
        assert(s@.subrange(0, n as int) =~= s@);
        assert(lines.deep_view() =~~= split_lines(s@));
    }
    lines
}

} // verus!
