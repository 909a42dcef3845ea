//! Splitting captured command output into lines.

use vstd::prelude::*;
use vstd::string::*;

verus! {

/// Number of characters before the first line feed of `text`; the whole
/// length when `text` holds no line feed.
pub open spec fn line_end(text: Seq<char>) -> int
    decreases text.len(),
{
    if text.len() == 0 || text[0] == '\n' {
        0
    } else {
        1 + line_end(text.drop_first())
    }
}

/// A line without the carriage return that stood before its line feed.
pub open spec fn strip_cr(line: Seq<char>) -> Seq<char> {
    if line.len() > 0 && line.last() == '\r' {
        line.drop_last()
    } else {
        line
    }
}

/// The lines of `text`. A line ends at a line feed, or at a carriage return
/// directly followed by one; neither belongs to the line. The last line needs
/// no ending, and a last line without one is kept as it stands.
pub open spec fn lines_of(text: Seq<char>) -> Seq<Seq<char>>
    decreases text.len(),
{
    if text.len() == 0 {
        Seq::empty()
    } else {
        let end = line_end(text);
        if 0 <= end < text.len() {
            seq![strip_cr(text.take(end))] + lines_of(text.skip(end + 1))
        } else {
            seq![text]
        }
    }
}

/// `line_end` is the one position that is a line feed, or the end, with no
/// line feed before it.
pub proof fn lemma_line_end(text: Seq<char>, end: int)
    requires
        0 <= end <= text.len(),
        forall|j: int| 0 <= j < end ==> text[j] != '\n',
        end < text.len() ==> text[end] == '\n',
    ensures
        line_end(text) == end,
    decreases end,
{
    if end > 0 {
        let rest = text.drop_first();
        assert forall|j: int| 0 <= j < end - 1 implies rest[j] != '\n' by {
            assert(rest[j] == text[j + 1]);
        }
        lemma_line_end(rest, end - 1);
    }
}

/// Splits `text` into its lines.
pub fn split_lines(text: &str) -> (lines: Vec<String>)
    ensures
        lines.deep_view() == lines_of(text@),
{
    let total = text.unicode_len();
    let mut lines: Vec<String> = Vec::new();
    let mut start: usize = 0;
    let mut at: usize = 0;
    let mut after_cr = false;
    proof {
        assert(text@.skip(0) == text@);
        assert(lines.deep_view() == Seq::<Seq<char>>::empty());
    }
    for c in it: text.chars()
        invariant
            it.seq() == text@,
            at == it.index(),
            total == text@.len(),
            start <= at <= total,
            forall|j: int| start <= j < at ==> text@[j] != '\n',
            after_cr <==> (at > start && text@[at - 1] == '\r'),
            lines.deep_view() + lines_of(text@.skip(start as int)) == lines_of(text@),
    {
        if c == '\n' {
            let stop = if after_cr { at - 1 } else { at };
            let line = text.substring_char(start, stop).to_owned();
            proof {
                let rest = text@.skip(start as int);
                let end = at - start;
                assert forall|j: int| 0 <= j < end implies rest[j] != '\n' by {
                    assert(rest[j] == text@[start + j]);
                }
                lemma_line_end(rest, end);
                assert(rest.take(end) == text@.subrange(start as int, at as int));
                assert(line@ == strip_cr(rest.take(end)));
                assert(rest.skip(end + 1) == text@.skip(at + 1));
                let before = lines.deep_view();
                assert(before.push(line@) + lines_of(text@.skip(at + 1)) == before + lines_of(
                    rest,
                ));
            }
            let ghost before = lines.deep_view();
            lines.push(line);
            assert(lines.deep_view() == before.push(line@));
            start = at + 1;
            after_cr = false;
        } else {
            after_cr = c == '\r';
        }
        at = at + 1;
    }
    if start < at {
        let line = text.substring_char(start, at).to_owned();
        proof {
            let rest = text@.skip(start as int);
            assert forall|j: int| 0 <= j < rest.len() implies rest[j] != '\n' by {
                assert(rest[j] == text@[start + j]);
            }
            lemma_line_end(rest, rest.len() as int);
            assert(line@ == rest);
            assert(lines_of(rest) == seq![rest]);
        }
        let ghost before = lines.deep_view();
        lines.push(line);
        assert(lines.deep_view() == before.push(line@));
    } else {
        assert(text@.skip(start as int).len() == 0);
    }
    lines
}

} // verus!
