//! Text of several lines.

use crate::layout::strings::push_char;
use crate::width::{char_layout_columns, layout_width, str_columns, unicode_str_width};
use vstd::prelude::*;

verus! {

/// The lines of a text: what stands between its line feeds. A text without
/// a line feed is one line, and so is the empty text.
pub open spec fn split_lines(s: Seq<char>) -> Seq<Seq<char>>
    decreases s.len(),
{
    if s.len() == 0 {
        seq![Seq::empty()]
    } else {
        let before = split_lines(s.drop_last());
        if s.last() == '\n' {
            before.push(Seq::empty())
        } else {
            before.drop_last().push(before.last().push(s.last()))
        }
    }
}

/// The characters of a line that take at least one column.
pub open spec fn visible(line: Seq<char>) -> Seq<char>
    decreases line.len(),
{
    if line.len() == 0 {
        Seq::empty()
    } else if layout_width(line.last()) > 0 {
        visible(line.drop_last()).push(line.last())
    } else {
        visible(line.drop_last())
    }
}

/// The lines of a text, each without the characters that take no column.
pub open spec fn visible_lines(s: Seq<char>) -> Seq<Seq<char>> {
    Seq::new(split_lines(s).len(), |i: int| visible(split_lines(s)[i]))
}

/// The greatest width among the first `count` lines, and 0 for no line.
pub open spec fn widest(lines: Seq<Seq<char>>, count: nat) -> u32
    decreases count,
{
    if count == 0 {
        0
    } else {
        let before = widest(lines, (count - 1) as nat);
        let width = unicode_str_width(lines[count - 1]) as u32;
        if width > before {
            width
        } else {
            before
        }
    }
}

/// A text of several lines with the width of its widest line.
pub struct Multiline {
    /// The lines, each without the characters that take no column.
    pub lines: Vec<String>,
    /// The width of the widest line.
    pub width: u32,
}

impl Multiline {
    /// The lines of the text, as a sequence of sequences of characters.
    pub open spec fn spec_lines(&self) -> Seq<Seq<char>> {
        Seq::new(self.lines@.len(), |i: int| self.lines@[i]@)
    }

    /// Splits `s` at its line feeds, drops from each line the characters
    /// that take no column, and measures the widest line.
    pub fn new(s: &str) -> (text: Self)
        ensures
            text.spec_lines() == visible_lines(s@),
            text.width == widest(visible_lines(s@), visible_lines(s@).len()),
    {
        let mut lines: Vec<String> = Vec::new();
        let mut current = String::new();
        for c in it: s.chars()
            invariant
                it.seq() == s@,
                split_lines(s@.take(it.index())).len() == lines@.len() + 1,
                forall|j: int|
                    0 <= j < lines@.len() ==> (#[trigger] lines@[j])@ == visible(
                        split_lines(s@.take(it.index()))[j],
                    ),
                current@ == visible(split_lines(s@.take(it.index())).last()),
        {
            let ghost done = s@.take(it.index());
            let ghost next = s@.take(it.index() + 1);
            proof {
                assert(next.drop_last() =~= done);
            }
            if c == '\n' {
                lines.push(current);
                current = String::new();
            } else if char_layout_columns(c) > 0 {
                push_char(&mut current, c);
                assert(split_lines(next).last().drop_last() =~= split_lines(done).last());
            }
        }
        lines.push(current);
        proof {
            assert(s@.take(s@.len() as int) =~= s@);
        }
        let mut width: u32 = 0;
        let mut i: usize = 0;
        let ghost all = Seq::new(lines@.len(), |i: int| lines@[i]@);
        while i < lines.len()
            invariant
                0 <= i <= lines@.len(),
                all.len() == lines@.len(),
                forall|j: int| 0 <= j < lines@.len() ==> (#[trigger] lines@[j])@ == all[j],
                width == widest(all, i as nat),
            decreases lines@.len() - i,
        {
            let line_width: u32 = str_columns(lines[i].as_str()) as u32;
            if line_width > width {
                width = line_width;
            }
            i = i + 1;
        }
        Multiline { lines, width }
    }
}

} // verus!
