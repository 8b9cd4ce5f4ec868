//! The document: an ordered sequence of rows, the name of the file it
//! belongs to, and whether it was changed since it was last read or written.

use vstd::prelude::*;

use crate::editor::Position;
use crate::row::{deleted, head, inserted, no_line_break, tail, Row, LINE_BREAK};

verus! {

/// Why the storage could not read or write a file.
#[derive(Debug, Clone, Copy, PartialEq, Eq, Structural)]
pub enum IoError {
    /// There is no such file.
    NotFound,
    /// The file may not be read, or not be written.
    PermissionDenied,
    /// The file does not hold text.
    InvalidData,
    /// Any other failure.
    Other,
}

/// The lines of a text that is not empty: what stands between its line
/// breaks, before the first and after the last. A text with `n` line breaks
/// has `n + 1` lines.
pub open spec fn lines_of(text: Seq<char>) -> Seq<Seq<char>>
    decreases text.len(),
{
    if text.len() == 0 {
        seq![Seq::<char>::empty()]
    } else {
        let before = lines_of(text.drop_last());
        if text.last() == LINE_BREAK {
            before.push(Seq::<char>::empty())
        } else {
            before.drop_last().push(before.last().push(text.last()))
        }
    }
}

/// The lines of a file's text. The empty text has no line.
pub open spec fn split_lines(text: Seq<char>) -> Seq<Seq<char>> {
    if text.len() == 0 {
        Seq::<Seq<char>>::empty()
    } else {
        lines_of(text)
    }
}

/// The text of a file that holds `lines`: the lines in order, with a line
/// break between each two.
pub open spec fn join_lines(lines: Seq<Seq<char>>) -> Seq<char>
    decreases lines.len(),
{
    if lines.len() == 0 {
        Seq::<char>::empty()
    } else if lines.len() == 1 {
        lines[0]
    } else {
        join_lines(lines.drop_last()) + seq![LINE_BREAK] + lines.last()
    }
}

/// None of `lines` holds a line break.
pub open spec fn no_line_breaks(lines: Seq<Seq<char>>) -> bool {
    forall|i: int| 0 <= i < lines.len() ==> no_line_break(#[trigger] lines[i])
}

/// `lines` after typing `c` at `at`.
///
/// A line break cuts line `at.y` at column `at.x` and puts what follows the
/// cut on a new line below. Any other character goes into line `at.y` before
/// column `at.x`, or at its end. On the line just below the last one, which
/// is empty, the same happens: a line break leaves two empty lines there,
/// another character a line that holds it. Further down nothing is typed.
pub open spec fn inserted_at(lines: Seq<Seq<char>>, at: Position, c: char) -> Seq<Seq<char>> {
    let y = at.y as int;
    let x = at.x as int;
    if y > lines.len() {
        lines
    } else if y == lines.len() {
        if c == LINE_BREAK {
            lines.push(Seq::<char>::empty()).push(Seq::<char>::empty())
        } else {
            lines.push(seq![c])
        }
    } else {
        if c == LINE_BREAK {
            lines.update(y, head(lines[y], x)).insert(y + 1, tail(lines[y], x))
        } else {
            lines.update(y, inserted(lines[y], x, c))
        }
    }
}

/// Whether deleting at `at` changes `lines`: there is a character at `at`,
/// or `at` lies at or beyond the end of a line that has a line below it.
pub open spec fn deletes_at(lines: Seq<Seq<char>>, at: Position) -> bool {
    at.y < lines.len() && (at.x < lines[at.y as int].len() || at.y + 1 < lines.len())
}

/// `lines` after deleting at `at`: without the character at `at`, or, at the
/// end of a line, with the line below joined to it.
pub open spec fn deleted_at(lines: Seq<Seq<char>>, at: Position) -> Seq<Seq<char>> {
    let y = at.y as int;
    let x = at.x as int;
    if !deletes_at(lines, at) {
        lines
    } else if x < lines[y].len() {
        lines.update(y, deleted(lines[y], x))
    } else {
        lines.update(y, lines[y] + lines[y + 1]).remove(y + 1)
    }
}

/// The view of each row, in order.
pub open spec fn views(rows: Seq<Row>) -> Seq<Seq<char>> {
    Seq::new(rows.len(), |i: int| rows[i]@)
}

/// What a document is, apart from how it is stored.
pub struct DocumentView {
    /// The lines, in document order.
    pub lines: Seq<Seq<char>>,
    /// The name of the file that the document is read from and written to;
    /// `None` for a document without a name.
    pub filename: Option<Seq<char>>,
    /// Whether the lines differ from what was last read or written.
    pub dirty: bool,
}

/// The text being edited.
#[derive(Debug)]
pub struct Document {
    rows: Vec<Row>,
    filename: Option<String>,
    dirty: bool,
}

impl View for Document {
    type V = DocumentView;

    closed spec fn view(&self) -> DocumentView {
        DocumentView {
            lines: views(self.rows@),
            filename: match self.filename {
                Some(name) => Some(name@),
                None => None,
            },
            dirty: self.dirty,
        }
    }
}

impl Default for Document {
    /// The empty document without a name.
    fn default() -> (document: Document)
        ensures
            document@ == (DocumentView {
                lines: Seq::<Seq<char>>::empty(),
                filename: None,
                dirty: false,
            }),
            document.wf(),
    {
        let document = Document { rows: Vec::new(), filename: None, dirty: false };
        assert(views(document.rows@) =~= Seq::<Seq<char>>::empty());
        document
    }
}

impl Document {
    /// A document is well formed when none of its lines holds a line break.
    pub open spec fn wf(&self) -> bool {
        no_line_breaks(self@.lines)
    }

    /// The document of a file, from the file's name and what reading it gave.
    ///
    /// Where the file was read, its text is split at each line break and the
    /// document is not dirty. Where it was not, the failure is passed on.
    pub fn open(filename: &str, read: Result<String, IoError>) -> (opened: Result<
        Document,
        IoError,
    >)
        ensures
            match read {
                Ok(text) => opened matches Ok(document) && document@ == (DocumentView {
                    lines: split_lines(text@),
                    filename: Some(filename@),
                    dirty: false,
                }) && document.wf() && join_lines(document@.lines) == text@,
                Err(e) => opened == Err::<Document, IoError>(e),
            },
    {
        match read {
            Err(e) => Err(e),
            Ok(text) => {
                let mut rows: Vec<Row> = Vec::new();
                let mut current = Row::default();
                let mut any = false;
                for c in it: text.as_str().chars()
                    invariant
                        it.seq() == text@,
                        any == (it.index() > 0),
                        current.wf(),
                        no_line_breaks(views(rows@)),
                        views(rows@).push(current@) == lines_of(text@.take(it.index())),
                {
                    proof {
                        let i = it.index();
                        assert(text@.take(i + 1).drop_last() =~= text@.take(i));
                        assert(text@.take(i + 1).last() == c);
                    }
                    if c == LINE_BREAK {
                        proof {
                            assert(views(rows@.push(current)) =~= views(rows@).push(current@));
                        }
                        rows.push(current);
                        current = Row::default();
                    } else {
                        proof {
                            assert(views(rows@).push(current@).drop_last() =~= views(rows@));
                        }
                        let end = current.len();
                        current.insert(end, c);
                    }
                    any = true;
                }
                proof {
                    assert(text@.take(text@.len() as int) =~= text@);
                    lemma_join_lines_of(text@);
                }
                if any {
                    proof {
                        assert(views(rows@.push(current)) =~= views(rows@).push(current@));
                    }
                    rows.push(current);
                } else {
                    assert(views(rows@) =~= Seq::<Seq<char>>::empty());
                }
                Ok(Document { rows, filename: Some(filename.to_owned()), dirty: false })
            },
        }
    }

    /// The row at `index`, if the document has that many rows.
    pub fn row(&self, index: usize) -> (row: Option<&Row>)
        ensures
            match row {
                Some(r) => index < self@.lines.len() && r@ == self@.lines[index as int],
                None => index >= self@.lines.len(),
            },
    {
        if index < self.rows.len() {
            Some(&self.rows[index])
        } else {
            None
        }
    }

    /// The number of rows.
    pub fn len(&self) -> (n: usize)
        ensures
            n == self@.lines.len(),
    {
        self.rows.len()
    }

    /// Whether the document has no row.
    pub fn is_empty(&self) -> (b: bool)
        ensures
            b == (self@.lines.len() == 0),
    {
        self.rows.len() == 0
    }

    /// Whether the document was changed since it was last read or written.
    pub fn is_dirty(&self) -> (b: bool)
        ensures
            b == self@.dirty,
    {
        self.dirty
    }

    /// The name of the document's file, if it has one.
    pub fn filename(&self) -> (name: Option<&String>)
        ensures
            match name {
                Some(n) => self@.filename == Some(n@),
                None => self@.filename is None,
            },
    {
        self.filename.as_ref()
    }

    /// Names the file that the document is written to from now on.
    pub fn set_filename(&mut self, name: String)
        ensures
            final(self)@ == (DocumentView { filename: Some(name@), ..old(self)@ }),
    {
        self.filename = Some(name);
    }

    /// Types `c` at `at`; see [`inserted_at`]. The document is dirty
    /// afterwards, unless `at` lies too far down for anything to be typed.
    pub fn insert(&mut self, at: &Position, c: char)
        requires
            old(self).wf(),
        ensures
            final(self)@ == (DocumentView {
                lines: inserted_at(old(self)@.lines, *at, c),
                dirty: old(self)@.dirty || at.y <= old(self)@.lines.len(),
                ..old(self)@
            }),
            final(self).wf(),
    {
        let len = self.rows.len();
        if at.y > len {
            return ;
        }
        self.dirty = true;
        if at.y == len {
            if c == LINE_BREAK {
                self.rows.push(Row::default());
                self.rows.push(Row::default());
            } else {
                let mut row = Row::default();
                row.insert(0, c);
                assert(row@ =~= seq![c]);
                self.rows.push(row);
            }
        } else if c == LINE_BREAK {
            let rest = self.rows[at.y].split(at.x);
            self.rows.insert(at.y + 1, rest);
        } else {
            self.rows[at.y].insert(at.x, c);
        }
        assert(views(self.rows@) =~= inserted_at(views(old(self).rows@), *at, c));
    }

    /// Deletes at `at`; see [`deleted_at`]. The document is dirty afterwards
    /// if anything was deleted.
    pub fn delete(&mut self, at: &Position)
        requires
            old(self).wf(),
        ensures
            final(self)@ == (DocumentView {
                lines: deleted_at(old(self)@.lines, *at),
                dirty: old(self)@.dirty || deletes_at(old(self)@.lines, *at),
                ..old(self)@
            }),
            final(self).wf(),
            old(self)@.lines.len() > 0 ==> final(self)@.lines.len() > 0,
    {
        let len = self.rows.len();
        if at.y >= len {
            return ;
        }
        let width = self.rows[at.y].len();
        if at.x < width {
            self.rows[at.y].delete(at.x);
            self.dirty = true;
        } else if at.y + 1 < len {
            let next = self.rows.remove(at.y + 1);
            self.rows[at.y].append(next);
            self.dirty = true;
        }
        assert(views(self.rows@) =~= deleted_at(views(old(self).rows@), *at));
    }

    /// The text of the document's file: its lines, with a line break between
    /// each two.
    pub fn contents(&self) -> (text: String)
        ensures
            text@ == join_lines(self@.lines),
    {
        let mut text = String::new();
        let mut i: usize = 0;
        while i < self.rows.len()
            invariant
                i <= self.rows.len(),
                text@ == join_lines(views(self.rows@).take(i as int)),
            decreases self.rows.len() - i,
        {
            let ghost lines = views(self.rows@);
            proof {
                assert(lines.take(i + 1).drop_last() =~= lines.take(i as int));
                assert(lines.take(i + 1).last() == lines[i as int]);
            }
            if i > 0 {
                text.push(LINE_BREAK);
            }
            let line = self.rows[i].to_string();
            text.append(line.as_str());
            assert(text@ =~= join_lines(lines.take(i + 1)));
            i += 1;
        }
        assert(views(self.rows@).take(i as int) =~= views(self.rows@));
        text
    }

    /// Takes note of how writing [`Document::contents`] to the document's
    /// file ended, and passes the outcome on. After a write that succeeded
    /// the document is not dirty; a failure leaves it as it was.
    pub fn save(&mut self, written: Result<(), IoError>) -> (saved: Result<(), IoError>)
        requires
            old(self)@.filename is Some,
        ensures
            saved == written,
            final(self)@ == (DocumentView {
                dirty: old(self)@.dirty && written is Err,
                ..old(self)@
            }),
    {
        if written.is_ok() {
            self.dirty = false;
        }
        written
    }
}

/// Typing a character that is no line break at a place inside the document
/// and then deleting at the same place gives the lines back.
pub proof fn lemma_insert_then_delete(lines: Seq<Seq<char>>, at: Position, c: char)
    requires
        at.y < lines.len(),
        at.x <= lines[at.y as int].len(),
        c != LINE_BREAK,
    ensures
        deleted_at(inserted_at(lines, at, c), at) == lines,
{
    let y = at.y as int;
    let x = at.x as int;
    let typed = inserted_at(lines, at, c);
    assert(typed[y] == inserted(lines[y], x, c));
    assert(deleted(inserted(lines[y], x, c), x) =~= lines[y]);
    assert(deleted_at(typed, at) =~= lines);
}

/// Typing a line break at a place inside the document and then deleting at
/// the same place gives the lines back: the one deletion joins what the line
/// break had cut.
pub proof fn lemma_break_then_delete(lines: Seq<Seq<char>>, at: Position)
    requires
        at.y < lines.len(),
        at.x <= lines[at.y as int].len(),
    ensures
        deleted_at(inserted_at(lines, at, LINE_BREAK), at) == lines,
{
    let y = at.y as int;
    let x = at.x as int;
    let cut = inserted_at(lines, at, LINE_BREAK);
    assert(cut[y] == head(lines[y], x));
    assert(cut[y + 1] == tail(lines[y], x));
    crate::row::lemma_split_then_append(lines[y], x);
    assert(deleted_at(cut, at) =~= lines);
}

/// Reading a file and writing the document back, with nothing typed in
/// between, writes the text that was read, character for character.
pub proof fn lemma_open_then_save(text: Seq<char>)
    ensures
        join_lines(split_lines(text)) == text,
{
    if text.len() == 0 {
        assert(join_lines(split_lines(text)) =~= text);
    } else {
        lemma_join_lines_of(text);
    }
}

/// Writing a document and reading the file again gives the same lines.
/// The one document of which this does not hold is a single empty line: its
/// text is empty, and the empty text has no line.
pub proof fn lemma_save_then_open(lines: Seq<Seq<char>>)
    requires
        no_line_breaks(lines),
        lines != seq![Seq::<char>::empty()],
    ensures
        split_lines(join_lines(lines)) == lines,
{
    if lines.len() == 0 {
        assert(split_lines(join_lines(lines)) =~= lines);
    } else {
        lemma_lines_of_join(lines);
        if lines.len() == 1 {
            if lines[0].len() == 0 {
                assert(lines =~= seq![Seq::<char>::empty()]);
            }
        }
    }
}

/// No line of a text holds a line break.
pub proof fn lemma_lines_of_no_line_breaks(text: Seq<char>)
    ensures
        no_line_breaks(lines_of(text)),
    decreases text.len(),
{
    if text.len() > 0 {
        lemma_lines_of_no_line_breaks(text.drop_last());
        lemma_lines_of_len(text.drop_last());
    }
}

/// The lines of a text that was joined from lines without line breaks are
/// those lines.
pub proof fn lemma_lines_of_join(lines: Seq<Seq<char>>)
    requires
        lines.len() >= 1,
        no_line_breaks(lines),
    ensures
        lines_of(join_lines(lines)) == lines,
    decreases lines.len(), lines.last().len(),
{
    let text = join_lines(lines);
    let last = lines.last();
    if last.len() > 0 {
        let shorter = lines.drop_last().push(last.drop_last());
        assert(shorter.drop_last() =~= lines.drop_last());
        assert(no_line_break(last));
        assert(no_line_breaks(shorter)) by {
            assert forall|i: int| 0 <= i < shorter.len() implies no_line_break(
                #[trigger] shorter[i],
            ) by {
                if i < shorter.len() - 1 {
                    assert(shorter[i] == lines[i]);
                }
            }
        }
        assert(join_lines(shorter) =~= text.drop_last());
        assert(text.len() > 0);
        assert(text.last() == last[last.len() - 1]);
        assert(text.last() != LINE_BREAK);
        lemma_lines_of_join(shorter);
        let before = lines_of(text.drop_last());
        assert(before == shorter);
        assert(before.last() == last.drop_last());
        assert(before.drop_last() =~= lines.drop_last());
        assert(last.drop_last().push(last.last()) =~= last);
        assert(lines_of(text) == before.drop_last().push(before.last().push(text.last())));
        assert(lines.drop_last().push(last) =~= lines);
    } else if lines.len() == 1 {
        assert(last =~= Seq::<char>::empty());
        assert(text =~= Seq::<char>::empty());
        assert(lines =~= seq![Seq::<char>::empty()]);
    } else {
        assert(last =~= Seq::<char>::empty());
        assert(text =~= join_lines(lines.drop_last()).push(LINE_BREAK));
        assert(text.drop_last() =~= join_lines(lines.drop_last()));
        assert(text.last() == LINE_BREAK);
        lemma_lines_of_join(lines.drop_last());
        assert(lines_of(text) == lines_of(text.drop_last()).push(Seq::<char>::empty()));
        assert(lines.drop_last().push(last) =~= lines);
    }
}

/// The lines of a text are at least one.
pub proof fn lemma_lines_of_len(text: Seq<char>)
    ensures
        lines_of(text).len() >= 1,
    decreases text.len(),
{
    if text.len() > 0 {
        lemma_lines_of_len(text.drop_last());
    }
}

/// Joining the lines of a text gives the text back, character for character.
pub proof fn lemma_join_lines_of(text: Seq<char>)
    ensures
        join_lines(lines_of(text)) == text,
    decreases text.len(),
{
    if text.len() == 0 {
        assert(join_lines(lines_of(text)) =~= text);
    } else {
        let shorter = text.drop_last();
        let before = lines_of(shorter);
        lemma_join_lines_of(shorter);
        lemma_lines_of_len(shorter);
        assert(shorter.push(text.last()) =~= text);
        if text.last() == LINE_BREAK {
            let lines = before.push(Seq::<char>::empty());
            assert(lines.drop_last() =~= before);
            assert(join_lines(lines) =~= shorter.push(LINE_BREAK));
        } else {
            let lines = before.drop_last().push(before.last().push(text.last()));
            if before.len() == 1 {
                assert(join_lines(before) == before[0]);
                assert(join_lines(lines) =~= before[0].push(text.last()));
            } else {
                assert(lines.drop_last() =~= before.drop_last());
                assert(join_lines(lines) =~= join_lines(before).push(text.last()));
            }
        }
    }
}

} // verus!
