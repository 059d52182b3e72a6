//! The document: the lines of a text, in order.

use vstd::prelude::*;

verus! {

/// The number of characters of `s` before its first line feed; the length of
/// `s` where it holds none.
pub open spec fn line_end(s: Seq<char>) -> int
    decreases s.len(),
{
    if s.len() == 0 || s[0] == '\n' {
        0
    } else {
        1 + line_end(s.drop_first())
    }
}

/// `line` without the carriage return that ends it, if one does.
pub open spec fn without_carriage_return(line: Seq<char>) -> Seq<char> {
    if line.len() > 0 && line.last() == '\r' {
        line.drop_last()
    } else {
        line
    }
}

/// The lines of a text. A line ends with a line feed, or with a carriage
/// return directly followed by a line feed, and holds neither. What follows
/// the last line feed is a line as it stands, unless it is empty.
pub open spec fn split_lines(text: Seq<char>) -> Seq<Seq<char>>
    decreases text.len(),
{
    if text.len() == 0 {
        Seq::empty()
    } else {
        let end = line_end(text);
        if 0 <= end < text.len() {
            seq![without_carriage_return(text.take(end))] + split_lines(text.skip(end + 1))
        } else {
            seq![text]
        }
    }
}

/// No character of `s` is a line feed.
pub open spec fn no_line_feed(s: Seq<char>) -> bool {
    forall|i: int| 0 <= i < s.len() ==> s[i] != '\n'
}

/// The first line feed of a text is not before the place that `line_end`
/// gives, which lies in the text or at its end.
pub proof fn lemma_line_end_bounds(s: Seq<char>)
    ensures
        0 <= line_end(s) <= s.len(),
        no_line_feed(s.take(line_end(s))),
        line_end(s) < s.len() ==> s[line_end(s)] == '\n',
    decreases s.len(),
{
    if s.len() > 0 && s[0] != '\n' {
        let tail = s.drop_first();
        lemma_line_end_bounds(tail);
        assert forall|i: int| 0 <= i < line_end(s) implies s.take(line_end(s))[i] != '\n' by {
            if i > 0 {
                assert(tail.take(line_end(tail))[i - 1] == s[i]);
            }
        }
    }
}

/// No line of a text holds a line feed.
pub proof fn lemma_split_lines_hold_no_line_feed(text: Seq<char>)
    ensures
        forall|k: int|
            0 <= k < split_lines(text).len() ==> no_line_feed(#[trigger] split_lines(text)[k]),
    decreases text.len(),
{
    if text.len() > 0 {
        let end = line_end(text);
        lemma_line_end_bounds(text);
        if end < text.len() {
            let rest = split_lines(text.skip(end + 1));
            lemma_split_lines_hold_no_line_feed(text.skip(end + 1));
            assert forall|k: int| 0 <= k < split_lines(text).len() implies no_line_feed(
                #[trigger] split_lines(text)[k],
            ) by {
                if k > 0 {
                    assert(split_lines(text)[k] == rest[k - 1]);
                }
            }
        } else {
            assert(text.take(end) =~= text);
        }
    }
}

/// A stretch without a line feed puts off the end of the first line by its
/// own length.
pub proof fn lemma_line_end_after_prefix(head: Seq<char>, tail: Seq<char>)
    requires
        no_line_feed(head),
    ensures
        line_end(head + tail) == head.len() + line_end(tail),
    decreases head.len(),
{
    if head.len() == 0 {
        assert(head + tail =~= tail);
    } else {
        assert((head + tail).drop_first() =~= head.drop_first() + tail);
        lemma_line_end_after_prefix(head.drop_first(), tail);
    }
}

/// The first line of a text ends at its first line feed, and the other lines
/// are the lines of what follows that line feed.
pub proof fn lemma_split_lines_at_line_feed(head: Seq<char>, tail: Seq<char>)
    requires
        no_line_feed(head),
    ensures
        split_lines(head + seq!['\n'] + tail) == seq![without_carriage_return(head)] + split_lines(
            tail,
        ),
{
    let text = head + seq!['\n'] + tail;
    assert(text =~= head + (seq!['\n'] + tail));
    lemma_line_end_after_prefix(head, seq!['\n'] + tail);
    assert(text.take(head.len() as int) =~= head);
    assert(text.skip(head.len() as int + 1) =~= tail);
}

/// A text without a line feed is one line, or no line where it is empty.
pub proof fn lemma_split_lines_without_line_feed(text: Seq<char>)
    requires
        no_line_feed(text),
    ensures
        split_lines(text) == if text.len() == 0 {
            Seq::<Seq<char>>::empty()
        } else {
            seq![text]
        },
{
    lemma_line_end_after_prefix(text, Seq::empty());
    assert(text + Seq::<char>::empty() =~= text);
}

/// The line that is being read: the characters gathered in `line`, and the
/// carriage return that follows them where one is held back.
spec fn open_line(line: Seq<char>, held: bool) -> Seq<char> {
    if held {
        line.push('\r')
    } else {
        line
    }
}

/// The lines of a document, in order. No line holds a line feed.
pub struct EditorRows {
    row_contents: Vec<String>,
}

impl View for EditorRows {
    type V = Seq<Seq<char>>;

    closed spec fn view(&self) -> Seq<Seq<char>> {
        Seq::new(self.row_contents@.len(), |i: int| self.row_contents@[i]@)
    }
}

impl EditorRows {
    #[verifier::type_invariant]
    spec fn inv(self) -> bool {
        forall|i: int|
            0 <= i < self.row_contents@.len() ==> no_line_feed(#[trigger] self.row_contents@[i]@)
    }

    /// The document without lines.
    pub fn new() -> (rows: EditorRows)
        ensures
            rows@ == Seq::<Seq<char>>::empty(),
    {
        let rows = EditorRows { row_contents: Vec::new() };
        assert(rows@ =~= Seq::<Seq<char>>::empty());
        rows
    }

    /// The document whose lines are the lines of `text`.
    pub fn from_text(text: &str) -> (rows: EditorRows)
        ensures
            rows@ == split_lines(text@),
    {
        let mut row_contents: Vec<String> = Vec::new();
        let mut line = String::new();
        // A carriage return is held back until the next character shows
        // whether it belongs to the line or to the line's ending.
        let mut held: bool = false;
        let ghost mut seen: int = 0;
        let ghost mut done: Seq<Seq<char>> = Seq::empty();
        proof {
            assert(open_line(line@, held) + text@.skip(0) =~= text@);
            assert(done + split_lines(text@) =~= split_lines(text@));
        }
        for c in it: text.chars()
            invariant
                it.seq() == text@,
                seen == it.index(),
                done.len() == row_contents@.len(),
                forall|k: int| 0 <= k < done.len() ==> done[k] == (#[trigger] row_contents@[k])@,
                forall|k: int| 0 <= k < done.len() ==> no_line_feed(#[trigger] done[k]),
                no_line_feed(line@),
                !held ==> line@.len() == 0 || line@.last() != '\r',
                split_lines(text@) == done + split_lines(open_line(line@, held) + text@.skip(seen)),
        {
            let ghost before = open_line(line@, held);
            let ghost rest = text@.skip(seen + 1);
            assert(before + text@.skip(seen) =~= before + seq![c] + rest);
            if c == '\n' {
                proof {
                    lemma_split_lines_at_line_feed(before, rest);
                    assert(without_carriage_return(before) =~= line@);
                    assert(done + (seq![line@] + split_lines(rest)) =~= done.push(line@)
                        + split_lines(rest));
                    done = done.push(line@);
                }
                row_contents.push(line);
                line = String::new();
                held = false;
                assert(open_line(line@, held) + rest =~= rest);
            } else {
                if held {
                    line.push('\r');
                }
                held = c == '\r';
                if !held {
                    line.push(c);
                }
                assert(open_line(line@, held) + rest =~= before + seq![c] + rest);
            }
            proof {
                seen = seen + 1;
            }
        }
        let ghost last = open_line(line@, held);
        if held {
            line.push('\r');
        }
        proof {
            assert(last + text@.skip(seen) =~= line@);
            lemma_split_lines_without_line_feed(line@);
        }
        if !line.as_str().is_empty() {
            proof {
                done = done.push(line@);
            }
            row_contents.push(line);
        }
        let rows = EditorRows { row_contents };
        assert(rows@ =~= split_lines(text@));
        rows
    }

    /// The number of lines.
    pub fn number_of_rows(&self) -> (n: usize)
        ensures
            n == self@.len(),
    {
        self.row_contents.len()
    }

    /// The line at index `at`.
    pub fn get_row(&self, at: usize) -> (row: &str)
        requires
            at < self@.len(),
        ensures
            row@ == self@[at as int],
            no_line_feed(row@),
    {
        proof {
            use_type_invariant(self);
        }
        self.row_contents[at].as_str()
    }
}

} // verus!
