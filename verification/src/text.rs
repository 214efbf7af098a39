//! Splitting text into lines.

use vstd::prelude::*;
use vstd::string::*;

verus! {

/// The number of characters before the first line feed of `text`, or the
/// length of `text` where it holds none.
pub open spec fn line_break(text: Seq<char>) -> int
    decreases text.len(),
{
    if text.len() == 0 || text[0] == '\n' {
        0
    } else {
        1 + line_break(text.drop_first())
    }
}

/// `line` without the carriage return that ends it, if one does.
pub open spec fn without_cr(line: Seq<char>) -> Seq<char> {
    if line.len() > 0 && line.last() == '\r' {
        line.drop_last()
    } else {
        line
    }
}

/// The lines of `text`. A line ends at a line feed, or at a carriage return
/// directly followed by one; neither is part of the line. Text after the
/// last line feed is a line of its own unless it is empty.
pub open spec fn lines(text: Seq<char>) -> Seq<Seq<char>>
    decreases text.len(),
{
    let n = line_break(text);
    if text.len() == 0 {
        Seq::empty()
    } else if 0 <= n < text.len() {
        seq![without_cr(text.take(n))] + lines(text.skip(n + 1))
    } else {
        seq![text]
    }
}

/// The views of a vector of string slices.
pub open spec fn views(parts: Seq<&str>) -> Seq<Seq<char>> {
    Seq::new(parts.len(), |i: int| parts[i]@)
}

/// Where the first `n` characters hold no line feed and the text ends or
/// breaks right after them, the first line is `n` characters long.
proof fn lemma_line_break(text: Seq<char>, n: int)
    requires
        0 <= n <= text.len(),
        forall|j: int| 0 <= j < n ==> text[j] != '\n',
        n == text.len() || text[n] == '\n',
    ensures
        line_break(text) == n,
    decreases n,
{
    if n > 0 {
        let rest = text.drop_first();
        assert forall|j: int| 0 <= j < n - 1 implies rest[j] != '\n' by {
            assert(rest[j] == text[j + 1]);
        }
        lemma_line_break(rest, n - 1);
    }
}

/// No character before the first line break is a line feed, and the break
/// lies within the text.
proof fn lemma_before_line_break(text: Seq<char>)
    ensures
        0 <= line_break(text) <= text.len(),
        forall|j: int| 0 <= j < line_break(text) ==> text[j] != '\n',
        line_break(text) < text.len() ==> text[line_break(text)] == '\n',
    decreases text.len(),
{
    if !(text.len() == 0 || text[0] == '\n') {
        let rest = text.drop_first();
        lemma_before_line_break(rest);
        assert forall|j: int| 0 <= j < line_break(text) implies text[j] != '\n' by {
            if j > 0 {
                assert(text[j] == rest[j - 1]);
            }
        }
        if line_break(text) < text.len() {
            assert(text[line_break(text)] == rest[line_break(rest)]);
        }
    }
}

/// No line holds a line feed, and text without one is a single line unless
/// it is empty.
pub proof fn lemma_lines_hold_no_line_feed(text: Seq<char>)
    ensures
        forall|i: int, j: int|
            0 <= i < lines(text).len() && 0 <= j < lines(text)[i].len() ==> lines(text)[i][j]
                != '\n',
        text.len() > 0 && !text.contains('\n') ==> lines(text) == seq![text],
    decreases text.len(),
{
    lemma_before_line_break(text);
    let n = line_break(text);
    if text.len() > 0 && 0 <= n < text.len() {
        let first = without_cr(text.take(n));
        let rest = lines(text.skip(n + 1));
        lemma_lines_hold_no_line_feed(text.skip(n + 1));
        assert forall|i: int, j: int|
            0 <= i < lines(text).len() && 0 <= j < lines(text)[i].len() implies lines(text)[i][j]
            != '\n' by {
            if i == 0 {
                assert(lines(text)[0] == first);
                assert(first[j] == text[j]);
            } else {
                assert(lines(text)[i] == rest[i - 1]);
            }
        }
        assert(text.contains('\n'));
    }
}

/// Splits `text` into its lines, in order.
pub fn split_lines(text: &str) -> (parts: Vec<&str>)
    ensures
        views(parts@) == lines(text@),
{
    let total: usize = text.unicode_len();
    let mut parts: Vec<&str> = Vec::new();
    let mut begin: usize = 0;
    let mut at: usize = 0;
    let mut after_cr: bool = false;
    proof {
        assert(text@.skip(0) == text@);
        assert(views(parts@) + lines(text@) == lines(text@));
    }
    for c in it: text.chars()
        invariant
            it.seq() == text@,
            total == text@.len(),
            at == it.index(),
            begin <= at <= total,
            forall|j: int| begin <= j < at ==> text@[j] != '\n',
            after_cr == (at > begin && text@[at - 1] == '\r'),
            views(parts@) + lines(text@.skip(begin as int)) == lines(text@),
    {
        if c == '\n' {
            let end: usize = if after_cr {
                (at - 1) as usize
            } else {
                at
            };
            let line: &str = text.substring_char(begin, end);
            proof {
                let rest = text@.skip(begin as int);
                lemma_line_break(rest, at - begin);
                assert(rest.take(at - begin) == text@.subrange(begin as int, at as int));
                assert(rest.skip(at - begin + 1) == text@.skip(at + 1));
                assert(line@ == without_cr(rest.take(at - begin)));
                assert(views(parts@.push(line)) == views(parts@) + seq![line@]);
            }
            parts.push(line);
            begin = at + 1;
            after_cr = false;
        } else {
            after_cr = c == '\r';
        }
        at = at + 1;
    }
    if begin < total {
        let line: &str = text.substring_char(begin, total);
        proof {
            let rest = text@.skip(begin as int);
            lemma_line_break(rest, total - begin);
            assert(line@ == rest);
            assert(views(parts@.push(line)) == views(parts@) + seq![line@]);
        }
        parts.push(line);
    } else {
        assert(lines(text@.skip(begin as int)) == Seq::<Seq<char>>::empty());
    }
    parts
}

} // verus!
