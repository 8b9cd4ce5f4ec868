//! One editable line of text, addressed by character column.

use vstd::prelude::*;

use crate::text::{to_chars, to_string};

verus! {

/// The character that separates the lines of a text.
pub const LINE_BREAK: char = '\n';

/// No character of `line` is a line break.
pub open spec fn no_line_break(line: Seq<char>) -> bool {
    forall|i: int| 0 <= i < line.len() ==> line[i] != LINE_BREAK
}

/// `line` with `c` put before column `at`, or at the end where `at` lies
/// at or beyond the end of the line.
pub open spec fn inserted(line: Seq<char>, at: int, c: char) -> Seq<char> {
    if at >= line.len() {
        line.push(c)
    } else {
        line.insert(at, c)
    }
}

/// `line` without the character at column `at`; `line` itself where there is
/// no such column.
pub open spec fn deleted(line: Seq<char>, at: int) -> Seq<char> {
    if at < line.len() {
        line.remove(at)
    } else {
        line
    }
}

/// What stays in a line that is split at column `at`: the columns before `at`.
pub open spec fn head(line: Seq<char>, at: int) -> Seq<char> {
    if at < line.len() {
        line.take(at)
    } else {
        line
    }
}

/// What leaves a line that is split at column `at`: the columns from `at` on.
pub open spec fn tail(line: Seq<char>, at: int) -> Seq<char> {
    if at < line.len() {
        line.skip(at)
    } else {
        Seq::empty()
    }
}

/// The characters of `line` whose column lies in `[start, end)`. The window
/// is cut to the line; one that starts beyond the line or ends before it
/// starts is empty.
pub open spec fn window(line: Seq<char>, start: int, end: int) -> Seq<char> {
    let to = if end < line.len() {
        end
    } else {
        line.len() as int
    };
    if start < to {
        line.subrange(start, to)
    } else {
        Seq::empty()
    }
}

/// A line of text. Its view is the sequence of its characters.
#[derive(Debug)]
pub struct Row {
    chars: Vec<char>,
}

impl View for Row {
    type V = Seq<char>;

    closed spec fn view(&self) -> Seq<char> {
        self.chars@
    }
}

impl Default for Row {
    /// The empty line.
    fn default() -> (row: Row)
        ensures
            row@ == Seq::<char>::empty(),
            row.wf(),
    {
        Row { chars: Vec::new() }
    }
}

impl Row {
    /// A row is well formed when it holds no line break.
    pub open spec fn wf(&self) -> bool {
        no_line_break(self@)
    }

    /// The row that holds the characters of `s`.
    pub fn from(s: &str) -> (row: Row)
        requires
            no_line_break(s@),
        ensures
            row@ == s@,
            row.wf(),
    {
        Row { chars: to_chars(s) }
    }

    /// The number of characters in the row.
    pub fn len(&self) -> (n: usize)
        ensures
            n == self@.len(),
    {
        self.chars.len()
    }

    /// Whether the row holds no character.
    pub fn is_empty(&self) -> (b: bool)
        ensures
            b == (self@.len() == 0),
    {
        self.chars.len() == 0
    }

    /// The whole row as a string.
    pub fn to_string(&self) -> (s: String)
        ensures
            s@ == self@,
    {
        to_string(&self.chars)
    }

    /// The text of the columns `[start, end)`, cut to the row.
    pub fn render(&self, start: usize, end: usize) -> (s: String)
        ensures
            s@ == window(self@, start as int, end as int),
    {
        let len = self.chars.len();
        let to = if end < len {
            end
        } else {
            len
        };
        let mut s = String::new();
        let mut i: usize = start;
        while i < to
            invariant
                to <= self.chars.len(),
                start <= i,
                start < to ==> i <= to,
                start < to ==> s@ == self.chars@.subrange(start as int, i as int),
                start >= to ==> s@ == Seq::<char>::empty(),
            decreases to - i,
        {
            s.push(self.chars[i]);
            i += 1;
        }
        s
    }

    /// Puts `c` before column `at`, or at the end of the row where `at` is
    /// not a column of it.
    pub fn insert(&mut self, at: usize, c: char)
        requires
            old(self).wf(),
            c != LINE_BREAK,
        ensures
            final(self)@ == inserted(old(self)@, at as int, c),
            final(self).wf(),
    {
        if at >= self.chars.len() {
            self.chars.push(c);
        } else {
            self.chars.insert(at, c);
        }
    }

    /// Removes the character at column `at`; does nothing where the row has
    /// no such column.
    pub fn delete(&mut self, at: usize)
        requires
            old(self).wf(),
        ensures
            final(self)@ == deleted(old(self)@, at as int),
            final(self).wf(),
    {
        if at < self.chars.len() {
            self.chars.remove(at);
        }
    }

    /// Cuts the row at column `at`: the columns before `at` stay, the others
    /// are returned as a row of their own. Beyond the end nothing is cut and
    /// the returned row is empty.
    pub fn split(&mut self, at: usize) -> (rest: Row)
        requires
            old(self).wf(),
        ensures
            final(self)@ == head(old(self)@, at as int),
            rest@ == tail(old(self)@, at as int),
            final(self).wf(),
            rest.wf(),
    {
        if at < self.chars.len() {
            let rest = self.chars.split_off(at);
            Row { chars: rest }
        } else {
            Row::default()
        }
    }

    /// Moves the characters of `other` to the end of the row.
    pub fn append(&mut self, other: Row)
        requires
            old(self).wf(),
            other.wf(),
        ensures
            final(self)@ == old(self)@ + other@,
            final(self).wf(),
    {
        let mut other = other;
        self.chars.append(&mut other.chars);
    }
}

/// Splitting a line and joining the two parts again gives the line back,
/// whatever the column.
pub proof fn lemma_split_then_append(line: Seq<char>, at: int)
    requires
        0 <= at,
    ensures
        head(line, at) + tail(line, at) == line,
{
    if at < line.len() {
        assert(line.take(at) + line.skip(at) =~= line);
    } else {
        assert(line + Seq::<char>::empty() =~= line);
    }
}

} // verus!
