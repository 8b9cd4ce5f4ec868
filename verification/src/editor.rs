//! The editing session: cursor, viewport and the reaction to each key.

use vstd::prelude::*;

use crate::document::{
    deleted_at, deletes_at, inserted_at, join_lines, no_line_breaks, split_lines, Document,
    DocumentView, IoError,
};
use crate::row::LINE_BREAK;
use crate::terminal::Size;

verus! {

/// A place in the document, or in the viewport: column `x` of line `y`, both
/// counted from zero.
#[derive(Debug, Clone, Copy, PartialEq, Eq, Structural)]
pub struct Position {
    pub x: usize,
    pub y: usize,
}

impl Default for Position {
    /// The origin: column 0 of line 0.
    fn default() -> (position: Position)
        ensures
            position == (Position { x: 0, y: 0 }),
    {
        Position { x: 0, y: 0 }
    }
}

/// A key, as the terminal reports it.
#[derive(Debug, Clone, Copy, PartialEq, Eq, Structural)]
pub enum Key {
    /// A character; Enter is the line break.
    Char(char),
    /// A character typed with Ctrl held down.
    Ctrl(char),
    Up,
    Down,
    Left,
    Right,
    PageUp,
    PageDown,
    Home,
    End,
    Backspace,
    Delete,
    Esc,
    /// Any key that the editor does not react to.
    Other,
}

/// The length of line `y`; 0 where the document has no such line.
pub open spec fn row_len(lines: Seq<Seq<char>>, y: int) -> int {
    if 0 <= y < lines.len() {
        lines[y].len() as int
    } else {
        0
    }
}

/// Where `key` takes the cursor, before the column is cut to the line.
///
/// Up and Down go one line, PageUp and PageDown `height` lines. Up and
/// PageUp stop at line 0; Down stops on the line below the last one;
/// PageDown returns to line 0 unless it ends on a line of the document.
/// Left and Right go one column and, at the start or end of a line, to the
/// end of the line above or the start of the line below. Home and End go
/// to the start and end of the line. Any other key leaves the cursor.
pub open spec fn stepped(cursor: Position, key: Key, lines: Seq<Seq<char>>, height: int) -> Position {
    let x = cursor.x as int;
    let y = cursor.y as int;
    match key {
        Key::Up => Position {
            x: cursor.x,
            y: if y > 0 {
                (y - 1) as usize
            } else {
                0
            },
        },
        Key::Down => Position {
            x: cursor.x,
            y: if y < lines.len() {
                (y + 1) as usize
            } else {
                cursor.y
            },
        },
        Key::Left => if x > 0 {
            Position { x: (x - 1) as usize, y: cursor.y }
        } else if y > 0 {
            Position { x: row_len(lines, y - 1) as usize, y: (y - 1) as usize }
        } else {
            cursor
        },
        Key::Right => if x < row_len(lines, y) {
            Position { x: (x + 1) as usize, y: cursor.y }
        } else if y < lines.len() {
            Position { x: 0, y: (y + 1) as usize }
        } else {
            cursor
        },
        Key::PageUp => Position {
            x: cursor.x,
            y: if y > height {
                (y - height) as usize
            } else {
                0
            },
        },
        Key::PageDown => Position {
            x: cursor.x,
            y: if y + height < lines.len() {
                (y + height) as usize
            } else {
                0
            },
        },
        Key::Home => Position { x: 0, y: cursor.y },
        Key::End => Position { x: row_len(lines, y) as usize, y: cursor.y },
        _ => cursor,
    }
}

/// `cursor` with its column cut to the length of its line.
pub open spec fn clamped(cursor: Position, lines: Seq<Seq<char>>) -> Position {
    if cursor.x > row_len(lines, cursor.y as int) {
        Position { x: row_len(lines, cursor.y as int) as usize, y: cursor.y }
    } else {
        cursor
    }
}

/// Where `key` takes the cursor in a document of `lines`, shown in a
/// viewport of `height` lines.
pub open spec fn moved(cursor: Position, key: Key, lines: Seq<Seq<char>>, height: int) -> Position {
    clamped(stepped(cursor, key, lines, height), lines)
}

/// Whether `cursor` is a place of the document: on one of its lines or on
/// the line below the last, and not beyond the end of that line.
pub open spec fn in_document(cursor: Position, lines: Seq<Seq<char>>) -> bool {
    cursor.y <= lines.len() && cursor.x <= row_len(lines, cursor.y as int)
}

/// Where the first visible line or column lies after the viewport has
/// followed the cursor along one axis. `offset` is where it lay before,
/// `extent` is how many lines or columns the viewport shows. A cursor
/// before the viewport becomes its first line; one behind it becomes its
/// last.
pub open spec fn scrolled_axis(offset: usize, cursor: usize, extent: u16) -> usize {
    if cursor < offset {
        cursor
    } else if cursor >= offset + extent {
        if cursor - extent + 1 <= usize::MAX {
            (cursor - extent + 1) as usize
        } else {
            usize::MAX
        }
    } else {
        offset
    }
}

/// The viewport's offset after it has followed the cursor.
pub open spec fn scrolled(offset: Position, cursor: Position, size: Size) -> Position {
    Position {
        x: scrolled_axis(offset.x, cursor.x, size.width),
        y: scrolled_axis(offset.y, cursor.y, size.height),
    }
}

/// After any key the cursor's column lies within its line.
pub proof fn lemma_moved_within_line(cursor: Position, key: Key, lines: Seq<Seq<char>>, height: int)
    ensures
        moved(cursor, key, lines, height).x <= row_len(
            lines,
            moved(cursor, key, lines, height).y as int,
        ),
{
}

/// A cursor that is in the document is still in it after any key.
pub proof fn lemma_moved_in_document(cursor: Position, key: Key, lines: Seq<Seq<char>>, height: int)
    requires
        lines.len() <= usize::MAX,
        0 <= height,
        cursor.y <= lines.len(),
    ensures
        in_document(moved(cursor, key, lines, height), lines),
{
}

/// After the viewport has followed the cursor, the cursor lies inside it:
/// at or behind its first line and column, before the line and column where
/// it ends. This holds of a viewport that shows at least one line and one
/// column.
pub proof fn lemma_scrolled_shows_cursor(offset: Position, cursor: Position, size: Size)
    requires
        size.width > 0,
        size.height > 0,
    ensures
        scrolled(offset, cursor, size).x <= cursor.x < scrolled(offset, cursor, size).x
            + size.width,
        scrolled(offset, cursor, size).y <= cursor.y < scrolled(offset, cursor, size).y
            + size.height,
{
}

/// A message for the user, with the time at which it was set.
#[derive(Debug)]
pub struct StatusMessage {
    text: String,
    time: u64,
}

/// What a status message is: its text, and when it was set, in nanoseconds
/// of the session's clock.
pub struct StatusMessageView {
    pub text: Seq<char>,
    pub time: u64,
}

impl View for StatusMessage {
    type V = StatusMessageView;

    closed spec fn view(&self) -> StatusMessageView {
        StatusMessageView { text: self.text@, time: self.time }
    }
}

impl StatusMessage {
    /// The message `message`, set at `time`.
    pub fn from(message: String, time: u64) -> (status: StatusMessage)
        ensures
            status@ == (StatusMessageView { text: message@, time }),
    {
        StatusMessage { text: message, time }
    }

    /// The text of the message.
    pub fn text(&self) -> (text: &str)
        ensures
            text@ == self@.text,
    {
        self.text.as_str()
    }

    /// When the message was set.
    pub fn time(&self) -> (time: u64)
        ensures
            time == self@.time,
    {
        self.time
    }
}

/// What an editing session is, apart from how it is stored.
pub struct EditorView {
    /// The session is over.
    pub should_quit: bool,
    /// The user was warned of unsaved changes and has not pressed another
    /// key since.
    pub confirm_quit: bool,
    /// Where the next character is typed.
    pub cursor_position: Position,
    /// The place of the document shown in the viewport's top left cell.
    pub offset: Position,
    pub document: DocumentView,
    pub status_message: StatusMessageView,
    /// While the user is asked for a file name: what was typed of it so far.
    pub prompt: Option<Seq<char>>,
}

/// The state of an editing session.
#[derive(Debug)]
pub struct Editor {
    should_quit: bool,
    confirm_quit: bool,
    cursor_position: Position,
    offset: Position,
    document: Document,
    status_message: StatusMessage,
    prompt: Option<String>,
}

impl View for Editor {
    type V = EditorView;

    closed spec fn view(&self) -> EditorView {
        EditorView {
            should_quit: self.should_quit,
            confirm_quit: self.confirm_quit,
            cursor_position: self.cursor_position,
            offset: self.offset,
            document: self.document@,
            status_message: self.status_message@,
            prompt: match self.prompt {
                Some(typed) => Some(typed@),
                None => None,
            },
        }
    }
}

/// The document without a name and without lines.
pub open spec fn empty_document() -> DocumentView {
    DocumentView { lines: Seq::<Seq<char>>::empty(), filename: None, dirty: false }
}

/// What the editor asks of its caller after a key.
#[derive(Debug)]
pub enum Action {
    /// Nothing but to draw and to read the next key.
    Continue,
    /// To write `contents` to the file `filename`, and to report how that
    /// ended with [`Editor::finish_save`].
    Write { filename: String, contents: String },
}

/// Whether `c` is a control character: one of the code points up to U+001F
/// or from U+007F to U+009F.
pub open spec fn is_control(c: char) -> bool {
    c as u32 <= 0x1f || 0x7f <= c as u32 <= 0x9f
}

/// `state` with the status line set to `text` at `now`.
pub open spec fn with_status(state: EditorView, text: Seq<char>, now: u64) -> EditorView {
    EditorView { status_message: StatusMessageView { text, time: now }, ..state }
}

/// `state` after the cursor has moved as `key` says.
pub open spec fn after_move(state: EditorView, key: Key, size: Size) -> EditorView {
    EditorView {
        cursor_position: moved(
            state.cursor_position,
            key,
            state.document.lines,
            size.height as int,
        ),
        ..state
    }
}

/// `state` after the viewport has followed the cursor.
pub open spec fn after_scroll(state: EditorView, size: Size) -> EditorView {
    EditorView { offset: scrolled(state.offset, state.cursor_position, size), ..state }
}

/// `state` after `c` was typed into the document at the cursor.
pub open spec fn after_insert(state: EditorView, c: char) -> EditorView {
    EditorView {
        document: DocumentView {
            lines: inserted_at(state.document.lines, state.cursor_position, c),
            dirty: state.document.dirty || state.cursor_position.y <= state.document.lines.len(),
            ..state.document
        },
        ..state
    }
}

/// `state` after a deletion in the document at the cursor.
pub open spec fn after_delete(state: EditorView) -> EditorView {
    EditorView {
        document: DocumentView {
            lines: deleted_at(state.document.lines, state.cursor_position),
            dirty: state.document.dirty || deletes_at(
                state.document.lines,
                state.cursor_position,
            ),
            ..state.document
        },
        ..state
    }
}

/// What a key does to the document and the cursor.
///
/// A character is typed at the cursor, which then moves right. Delete
/// deletes at the cursor. Backspace moves left and deletes there, unless the
/// cursor is at the very start of the document. The keys that move the
/// cursor move it. Any other key does nothing.
pub open spec fn edited(state: EditorView, key: Key, size: Size) -> EditorView {
    match key {
        Key::Char(c) => after_move(after_insert(state, c), Key::Right, size),
        Key::Delete => after_delete(state),
        Key::Backspace => if state.cursor_position.x > 0 || state.cursor_position.y > 0 {
            after_delete(after_move(state, Key::Left, size))
        } else {
            state
        },
        Key::Up | Key::Down | Key::Left | Key::Right | Key::PageUp | Key::PageDown | Key::Home
        | Key::End => after_move(state, key, size),
        _ => state,
    }
}

/// `state` after a request to quit. With unsaved changes the first request
/// only warns; the next one, or one without unsaved changes, ends the
/// session.
pub open spec fn after_quit(state: EditorView, now: u64) -> EditorView {
    if state.document.dirty && !state.confirm_quit {
        with_status(
            EditorView { confirm_quit: true, ..state },
            "Warning: File has unsaved changes. Press Ctrl + Q again to quit."@,
            now,
        )
    } else {
        EditorView { should_quit: true, ..state }
    }
}

/// `state` while the user is asked for a file name and has typed `typed`.
pub open spec fn asking(state: EditorView, typed: Seq<char>, now: u64) -> EditorView {
    with_status(EditorView { prompt: Some(typed), ..state }, "Save as: "@ + typed, now)
}

/// `state` after a request to save: a document without a name has the user
/// asked for one.
pub open spec fn after_save_request(state: EditorView, now: u64) -> EditorView {
    if state.document.filename is None {
        asking(state, Seq::<char>::empty(), now)
    } else {
        state
    }
}

/// `state` after the user has ended the prompt with `typed` as the file
/// name. An empty name aborts the save; any other becomes the document's.
pub open spec fn answered(state: EditorView, typed: Seq<char>, now: u64) -> EditorView {
    if typed.len() == 0 {
        with_status(EditorView { prompt: None, ..state }, "Save aborted"@, now)
    } else {
        with_status(
            EditorView {
                prompt: None,
                document: DocumentView { filename: Some(typed), ..state.document },
                ..state
            },
            Seq::<char>::empty(),
            now,
        )
    }
}

/// `state` after a key that arrives while the user is asked for a file name
/// and has typed `typed` of it.
///
/// Enter ends the prompt with what was typed, Esc with nothing. Backspace
/// takes the last character back. A character that is no control character
/// is added. Other keys change nothing.
pub open spec fn prompted(state: EditorView, typed: Seq<char>, key: Key, size: Size, now: u64) -> EditorView {
    match key {
        Key::Backspace => asking(
            state,
            if typed.len() > 0 {
                typed.drop_last()
            } else {
                typed
            },
            now,
        ),
        Key::Char(c) => if c == LINE_BREAK {
            after_scroll(answered(state, typed, now), size)
        } else if !is_control(c) {
            asking(state, typed.push(c), now)
        } else {
            asking(state, typed, now)
        },
        Key::Esc => after_scroll(answered(state, Seq::<char>::empty(), now), size),
        _ => asking(state, typed, now),
    }
}

/// `state` after `key`, in a viewport of `size`, at time `now`.
///
/// While the user is asked for a file name the key goes to the prompt.
/// Otherwise Ctrl-Q asks to quit and Ctrl-S to save; any other key is no
/// request to quit, and edits the document or moves the cursor. The
/// viewport then follows the cursor, except after a warning of unsaved
/// changes.
pub open spec fn pressed(state: EditorView, key: Key, size: Size, now: u64) -> EditorView {
    let calm = EditorView { confirm_quit: false, ..state };
    match state.prompt {
        Some(typed) => prompted(state, typed, key, size, now),
        None => if key == Key::Ctrl('q') {
            if state.document.dirty && !state.confirm_quit {
                after_quit(state, now)
            } else {
                after_scroll(after_quit(state, now), size)
            }
        } else if key == Key::Ctrl('s') {
            after_scroll(after_save_request(calm, now), size)
        } else {
            after_scroll(edited(calm, key, size), size)
        },
    }
}

/// What the user has typed of the file name asked for; nothing in a session
/// that is not asking.
pub open spec fn typed_so_far(state: EditorView) -> Seq<char> {
    match state.prompt {
        Some(typed) => typed,
        None => Seq::<char>::empty(),
    }
}

/// What a key that goes to the prompt asks to write: after Enter, with at
/// least one character typed, the document's text under the name typed;
/// otherwise nothing.
pub open spec fn written_on_answer(state: EditorView, key: Key) -> Option<(Seq<char>, Seq<char>)> {
    if key == Key::Char(LINE_BREAK) && typed_so_far(state).len() > 0 {
        Some((typed_so_far(state), join_lines(state.document.lines)))
    } else {
        None
    }
}

/// What a request to save asks to write: the name of the document's file
/// and the document's text, or `None` for a document without a name.
pub open spec fn written_on_save(state: EditorView) -> Option<(Seq<char>, Seq<char>)> {
    match state.document.filename {
        Some(name) => Some((name, join_lines(state.document.lines))),
        None => None,
    }
}

/// What is to be written after `key` arrives in `state`: the file's name
/// and its text, or `None` where nothing is to be written. Something is
/// written after Ctrl-S in a document that has a name, and after Enter
/// ends the prompt for a name with a name that is not empty.
pub open spec fn to_write(state: EditorView, key: Key) -> Option<(Seq<char>, Seq<char>)> {
    match state.prompt {
        Some(_) => written_on_answer(state, key),
        None => if key == Key::Ctrl('s') {
            written_on_save(state)
        } else {
            None
        },
    }
}

/// Whether `action` asks to write `write`, or for nothing where that is
/// `None`.
pub open spec fn asks_for(action: Action, write: Option<(Seq<char>, Seq<char>)>) -> bool {
    match action {
        Action::Continue => write is None,
        Action::Write { filename, contents } => write == Some((filename@, contents@)),
    }
}

/// Enter and then Backspace give the lines and the cursor back: Backspace
/// joins what Enter has cut. This holds of a session that is not asking for
/// a file name and whose cursor stands on a line of the document.
pub proof fn lemma_enter_then_backspace(state: EditorView, size: Size, now: u64, later: u64)
    requires
        state.prompt is None,
        state.document.lines.len() <= usize::MAX,
        state.cursor_position.y < state.document.lines.len(),
        state.cursor_position.x <= state.document.lines[state.cursor_position.y as int].len(),
    ensures
        pressed(
            pressed(state, Key::Char(LINE_BREAK), size, now),
            Key::Backspace,
            size,
            later,
        ).document.lines == state.document.lines,
        pressed(
            pressed(state, Key::Char(LINE_BREAK), size, now),
            Key::Backspace,
            size,
            later,
        ).cursor_position == state.cursor_position,
{
    let at = state.cursor_position;
    let lines = state.document.lines;
    let cut = inserted_at(lines, at, LINE_BREAK);
    let entered = pressed(state, Key::Char(LINE_BREAK), size, now);
    assert(entered.document.lines == cut);
    assert(cut[at.y as int].len() == at.x);
    assert(entered.cursor_position == (Position { x: 0, y: (at.y + 1) as usize }));
    let back = moved(entered.cursor_position, Key::Left, cut, size.height as int);
    assert(back == at);
    crate::document::lemma_break_then_delete(lines, at);
}

/// A character that is no line break and then Backspace give the lines and
/// the cursor back. This holds of a session that is not asking for a file
/// name and whose cursor stands on a line of the document.
pub proof fn lemma_character_then_backspace(
    state: EditorView,
    c: char,
    size: Size,
    now: u64,
    later: u64,
)
    requires
        state.prompt is None,
        c != LINE_BREAK,
        state.cursor_position.y < state.document.lines.len(),
        state.cursor_position.x <= state.document.lines[state.cursor_position.y as int].len(),
        state.cursor_position.x < usize::MAX,
    ensures
        pressed(
            pressed(state, Key::Char(c), size, now),
            Key::Backspace,
            size,
            later,
        ).document.lines == state.document.lines,
        pressed(
            pressed(state, Key::Char(c), size, now),
            Key::Backspace,
            size,
            later,
        ).cursor_position == state.cursor_position,
{
    let at = state.cursor_position;
    let lines = state.document.lines;
    let typed = inserted_at(lines, at, c);
    let after = pressed(state, Key::Char(c), size, now);
    assert(after.document.lines == typed);
    assert(typed[at.y as int].len() == lines[at.y as int].len() + 1);
    assert(after.cursor_position == (Position { x: (at.x + 1) as usize, y: at.y }));
    let back = moved(after.cursor_position, Key::Left, typed, size.height as int);
    assert(back == at);
    crate::document::lemma_insert_then_delete(lines, at, c);
}

/// Enter, Left and then Delete give the lines and the cursor back: the one
/// deletion joins what Enter has cut. This holds of a session that is not
/// asking for a file name and whose cursor stands on a line of the document.
pub proof fn lemma_enter_left_delete(
    state: EditorView,
    size: Size,
    now: u64,
    later: u64,
    last: u64,
)
    requires
        state.prompt is None,
        state.document.lines.len() <= usize::MAX,
        state.cursor_position.y < state.document.lines.len(),
        state.cursor_position.x <= state.document.lines[state.cursor_position.y as int].len(),
    ensures
        pressed(
            pressed(pressed(state, Key::Char(LINE_BREAK), size, now), Key::Left, size, later),
            Key::Delete,
            size,
            last,
        ).document.lines == state.document.lines,
        pressed(
            pressed(pressed(state, Key::Char(LINE_BREAK), size, now), Key::Left, size, later),
            Key::Delete,
            size,
            last,
        ).cursor_position == state.cursor_position,
{
    let at = state.cursor_position;
    let lines = state.document.lines;
    let cut = inserted_at(lines, at, LINE_BREAK);
    let entered = pressed(state, Key::Char(LINE_BREAK), size, now);
    assert(entered.document.lines == cut);
    assert(cut[at.y as int].len() == at.x);
    assert(entered.cursor_position == (Position { x: 0, y: (at.y + 1) as usize }));
    let left = pressed(entered, Key::Left, size, later);
    assert(left.document.lines == cut);
    assert(left.cursor_position == at);
    crate::document::lemma_break_then_delete(lines, at);
}

/// Any character typed at a cursor that is in the document leaves the
/// document dirty, in a session that is not asking for a file name.
pub proof fn lemma_typing_makes_dirty(state: EditorView, c: char, size: Size, now: u64)
    requires
        state.prompt is None,
        state.cursor_position.y <= state.document.lines.len(),
    ensures
        pressed(state, Key::Char(c), size, now).document.dirty,
{
}

/// A request to save a document that was read from a file and not changed
/// since asks, without asking for a name, to write the text that was read
/// to the file it was read from, and leaves the document as it is.
pub proof fn lemma_save_writes_what_was_read(
    state: EditorView,
    name: Seq<char>,
    text: Seq<char>,
    size: Size,
    now: u64,
)
    requires
        state.prompt is None,
        state.document.filename == Some(name),
        state.document.lines == split_lines(text),
    ensures
        to_write(state, Key::Ctrl('s')) == Some((name, text)),
        pressed(state, Key::Ctrl('s'), size, now).prompt is None,
        pressed(state, Key::Ctrl('s'), size, now).document == state.document,
        pressed(state, Key::Ctrl('s'), size, now).status_message == state.status_message,
{
    crate::document::lemma_open_then_save(text);
}

/// A request to save a document without a name writes nothing before the
/// user has given one: no key but Enter after at least one character of
/// the name asks for a write, and Esc, or Enter with nothing typed, leaves
/// the document as it was, without a name, under the message that the save
/// was aborted.
pub proof fn lemma_save_aborted_without_name(state: EditorView, size: Size, now: u64)
    requires
        state.prompt is Some,
    ensures
        to_write(state, Key::Esc) is None,
        pressed(state, Key::Esc, size, now).document == state.document,
        pressed(state, Key::Esc, size, now).prompt is None,
        pressed(state, Key::Esc, size, now).status_message.text == "Save aborted"@,
        state.prompt->0.len() == 0 ==> to_write(state, Key::Char(LINE_BREAK)) is None && pressed(
            state,
            Key::Char(LINE_BREAK),
            size,
            now,
        ).document == state.document && pressed(
            state,
            Key::Char(LINE_BREAK),
            size,
            now,
        ).status_message.text == "Save aborted"@,
{
}

impl Editor {
    /// A session is well formed when none of its document's lines holds a
    /// line break and its cursor is a place of the document.
    pub open spec fn wf(&self) -> bool {
        no_line_breaks(self@.document.lines) && in_document(
            self@.cursor_position,
            self@.document.lines,
        )
    }

    /// A session that starts at `now`. `file` is the name of the file to
    /// edit together with what reading it gave, or `None` where no file was
    /// named.
    ///
    /// The session starts at the top left of the file's document and shows
    /// the help line. Where no file was named, or the file could not be
    /// read, the document is empty and has no name; in the second case the
    /// status line says so.
    pub fn new(file: Option<(String, Result<String, IoError>)>, now: u64) -> (editor: Editor)
        ensures
            editor.wf(),
            !editor@.should_quit,
            !editor@.confirm_quit,
            editor@.cursor_position == (Position { x: 0, y: 0 }),
            editor@.offset == (Position { x: 0, y: 0 }),
            editor@.prompt is None,
            editor@.status_message.time == now,
            match file {
                None => editor@.document == empty_document() && editor@.status_message.text
                    == "HELP: Ctrl-S = Save | Ctrl-Q = quit"@,
                Some((name, Ok(text))) => editor@.document == (DocumentView {
                    lines: split_lines(text@),
                    filename: Some(name@),
                    dirty: false,
                }) && editor@.status_message.text == "HELP: Ctrl-S = Save | Ctrl-Q = quit"@,
                Some((name, Err(_))) => editor@.document == empty_document()
                    && editor@.status_message.text == "ERR: Could not open file: "@ + name@,
            },
    {
        let mut initial_status = String::from_str("HELP: Ctrl-S = Save | Ctrl-Q = quit");
        let document = match file {
            Some((name, read)) => {
                match Document::open(name.as_str(), read) {
                    Ok(document) => document,
                    Err(_) => {
                        initial_status = String::from_str("ERR: Could not open file: ");
                        initial_status.append(name.as_str());
                        Document::default()
                    },
                }
            },
            None => Document::default(),
        };
        Editor {
            should_quit: false,
            confirm_quit: false,
            cursor_position: Position::default(),
            offset: Position::default(),
            document,
            status_message: StatusMessage::from(initial_status, now),
            prompt: None,
        }
    }

    /// Whether the session is over.
    pub fn should_quit(&self) -> (b: bool)
        ensures
            b == self@.should_quit,
    {
        self.should_quit
    }

    /// Where the cursor is in the document.
    pub fn cursor_position(&self) -> (position: Position)
        ensures
            position == self@.cursor_position,
    {
        self.cursor_position
    }

    /// The place of the document shown in the viewport's top left cell.
    pub fn offset(&self) -> (position: Position)
        ensures
            position == self@.offset,
    {
        self.offset
    }

    /// The document being edited.
    pub fn document(&self) -> (document: &Document)
        ensures
            document@ == self@.document,
            self.wf() ==> document.wf(),
    {
        &self.document
    }

    /// The message for the user.
    pub fn status_message(&self) -> (status: &StatusMessage)
        ensures
            status@ == self@.status_message,
    {
        &self.status_message
    }

    /// Moves the cursor as `key` says, in a viewport of `size`; see
    /// [`moved`]. Nothing but the cursor changes. Afterwards the cursor's
    /// column lies within its line, and a cursor that was in the document
    /// still is.
    pub fn move_cursor(&mut self, key: Key, size: &Size)
        ensures
            final(self)@ == (EditorView {
                cursor_position: moved(
                    old(self)@.cursor_position,
                    key,
                    old(self)@.document.lines,
                    size.height as int,
                ),
                ..old(self)@
            }),
            final(self)@.cursor_position.x <= row_len(
                final(self)@.document.lines,
                final(self)@.cursor_position.y as int,
            ),
            old(self).wf() ==> final(self).wf(),
    {
        let Position { mut x, mut y } = self.cursor_position;
        let terminal_height = size.height as usize;
        let document_height = self.document.len();
        let mut row_width = row_width(&self.document, y);
        match key {
            Key::Up => {
                y = y.saturating_sub(1);
            },
            Key::Down => {
                if y < document_height {
                    y = y + 1;
                }
            },
            Key::Left => {
                if x > 0 {
                    x -= 1;
                } else if y > 0 {
                    y -= 1;
                    x = self::row_width(&self.document, y);
                }
            },
            Key::Right => {
                if x < row_width {
                    x += 1;
                } else if y < document_height {
                    y += 1;
                    x = 0;
                }
            },
            Key::PageDown => {
                y = if y.saturating_add(terminal_height) < document_height {
                    y + terminal_height
                } else {
                    0
                };
            },
            Key::PageUp => {
                y = if y > terminal_height {
                    y - terminal_height
                } else {
                    0
                };
            },
            Key::Home => {
                x = 0;
            },
            Key::End => {
                x = row_width;
            },
            _ => {},
        }
        row_width = self::row_width(&self.document, y);
        if x > row_width {
            x = row_width;
        }
        self.cursor_position = Position { x, y };
    }

    /// Lets the viewport follow the cursor; see [`scrolled`]. Nothing but
    /// the offset changes. In a viewport that shows at least one line and
    /// one column the cursor is visible afterwards.
    pub fn scroll(&mut self, size: &Size)
        ensures
            final(self)@ == (EditorView {
                offset: scrolled(old(self)@.offset, old(self)@.cursor_position, *size),
                ..old(self)@
            }),
            size.width > 0 ==> final(self)@.offset.x <= final(self)@.cursor_position.x
                < final(self)@.offset.x + size.width,
            size.height > 0 ==> final(self)@.offset.y <= final(self)@.cursor_position.y
                < final(self)@.offset.y + size.height,
    {
        let Position { x, y } = self.cursor_position;
        self.offset = Position {
            x: scroll_axis(self.offset.x, x, size.width),
            y: scroll_axis(self.offset.y, y, size.height),
        };
    }

    /// Sets the status line to `msg`, at `now`.
    pub fn set_status_message(&mut self, msg: &str, now: u64)
        ensures
            final(self)@ == with_status(old(self)@, msg@, now),
    {
        self.status_message = StatusMessage::from(String::from_str(msg), now);
    }

    /// Reacts to a request to quit; see [`after_quit`]. Returns whether the
    /// request ends the session, which it does unless it only warned.
    pub fn handle_quit(&mut self, now: u64) -> (quitting: bool)
        ensures
            final(self)@ == after_quit(old(self)@, now),
            quitting == !(old(self)@.document.dirty && !old(self)@.confirm_quit),
            final(self).wf() == old(self).wf(),
    {
        if self.document.is_dirty() && !self.confirm_quit {
            self.set_status_message(
                "Warning: File has unsaved changes. Press Ctrl + Q again to quit.",
                now,
            );
            self.confirm_quit = true;
            return false;
        }
        self.should_quit = true;
        true
    }

    /// The request to write the document to its file.
    fn write_request(&self) -> (action: Action)
        requires
            self@.document.filename is Some,
        ensures
            action matches Action::Write { filename, contents } && filename@
                == self@.document.filename->0 && contents@ == join_lines(self@.document.lines),
    {
        let filename = match self.document.filename() {
            Some(name) => name.clone(),
            None => String::new(),
        };
        Action::Write { filename, contents: self.document.contents() }
    }

    /// Reacts to a request to save; see [`after_save_request`] and
    /// [`written_on_save`]. A document that has a name is to be written, and
    /// nothing else changes; for one without, the user is asked for a name
    /// first and nothing is written yet.
    pub fn handle_save(&mut self, now: u64) -> (action: Action)
        ensures
            final(self)@ == after_save_request(old(self)@, now),
            asks_for(action, written_on_save(old(self)@)),
            final(self).wf() == old(self).wf(),
    {
        if self.document.filename().is_none() {
            self.prompt = Some(String::new());
            self.set_status_message("Save as: ", now);
            assert("Save as: "@ + Seq::<char>::empty() =~= "Save as: "@);
            Action::Continue
        } else {
            self.write_request()
        }
    }

    /// Takes note that the terminal failed, in drawing or in reading a key.
    /// While the user is asked for a file name this ends the prompt as Esc
    /// does: the save is aborted and the session goes on. At any other time
    /// the failure is fatal, and the session is left as it is.
    pub fn key_failed(&mut self, size: &Size, now: u64) -> (fatal: bool)
        ensures
            final(self).wf() == old(self).wf(),
            old(self)@.prompt is Some ==> !fatal && final(self)@ == pressed(
                old(self)@,
                Key::Esc,
                *size,
                now,
            ),
            old(self)@.prompt is None ==> fatal && final(self)@ == old(self)@,
    {
        if self.prompt.is_some() {
            let _ = self.prompt(Key::Esc, size, now);
            false
        } else {
            true
        }
    }

    /// Takes note of how the write that [`Action::Write`] asked for ended:
    /// the document is told, and the status line says whether the file was
    /// saved.
    pub fn finish_save(&mut self, written: Result<(), IoError>, now: u64)
        requires
            old(self)@.document.filename is Some,
        ensures
            final(self)@ == with_status(
                EditorView {
                    document: DocumentView {
                        dirty: old(self)@.document.dirty && written is Err,
                        ..old(self)@.document
                    },
                    ..old(self)@
                },
                if written is Ok {
                    "File saved successfully"@
                } else {
                    "Error saving file!"@
                },
                now,
            ),
            final(self).wf() == old(self).wf(),
    {
        match self.document.save(written) {
            Ok(_) => self.set_status_message("File saved successfully", now),
            Err(_) => self.set_status_message("Error saving file!", now),
        }
    }

    /// Reacts to a key that goes to the prompt for a file name; see
    /// [`prompted`] and [`written_on_answer`]. A session that is not asking
    /// is taken to ask, with nothing typed yet.
    pub fn prompt(&mut self, key: Key, size: &Size, now: u64) -> (action: Action)
        ensures
            final(self)@ == prompted(old(self)@, typed_so_far(old(self)@), key, *size, now),
            asks_for(action, written_on_answer(old(self)@, key)),
            final(self).wf() == old(self).wf(),
    {
        let mut typed = match self.prompt.take() {
            Some(typed) => typed,
            None => String::new(),
        };
        let mut done = false;
        match key {
            Key::Backspace => {
                let len = typed.as_str().unicode_len();
                if len > 0 {
                    typed = String::from_str(typed.as_str().substring_char(0, len - 1));
                }
            },
            Key::Char(c) => {
                if c == LINE_BREAK {
                    done = true;
                } else if !is_control_char(c) {
                    typed.push(c);
                }
            },
            Key::Esc => {
                typed = String::new();
                done = true;
            },
            _ => {},
        }
        if !done {
            let mut text = String::from_str("Save as: ");
            text.append(typed.as_str());
            self.status_message = StatusMessage::from(text, now);
            self.prompt = Some(typed);
            Action::Continue
        } else if typed.as_str().unicode_len() == 0 {
            self.set_status_message("Save aborted", now);
            self.scroll(size);
            Action::Continue
        } else {
            self.document.set_filename(typed);
            self.set_status_message("", now);
            proof {
                reveal_strlit("");
                assert(""@ =~= Seq::<char>::empty());
            }
            self.scroll(size);
            self.write_request()
        }
    }

    /// Reacts to a key; see [`pressed`] for what becomes of the session and
    /// [`to_write`] for what the caller is asked to do.
    pub fn process_keypress(&mut self, key: Key, size: &Size, now: u64) -> (action: Action)
        requires
            old(self).wf(),
        ensures
            final(self).wf(),
            final(self)@ == pressed(old(self)@, key, *size, now),
            asks_for(action, to_write(old(self)@, key)),
    {
        if self.prompt.is_some() {
            return self.prompt(key, size, now);
        }
        let mut action = Action::Continue;
        match key {
            Key::Ctrl(c) => {
                if c == 'q' {
                    if !self.handle_quit(now) {
                        return Action::Continue;
                    }
                } else {
                    self.confirm_quit = false;
                    if c == 's' {
                        action = self.handle_save(now);
                    }
                }
            },
            Key::Char(c) => {
                self.confirm_quit = false;
                let at = self.cursor_position;
                self.document.insert(&at, c);
                self.move_cursor(Key::Right, size);
            },
            Key::Delete => {
                self.confirm_quit = false;
                let at = self.cursor_position;
                self.document.delete(&at);
            },
            Key::Backspace => {
                self.confirm_quit = false;
                if self.cursor_position.x > 0 || self.cursor_position.y > 0 {
                    self.move_cursor(Key::Left, size);
                    let at = self.cursor_position;
                    self.document.delete(&at);
                }
            },
            Key::Up | Key::Down | Key::Left | Key::Right | Key::PageDown | Key::PageUp | Key::Home
            | Key::End => {
                self.confirm_quit = false;
                self.move_cursor(key, size);
            },
            _ => {
                self.confirm_quit = false;
            },
        }
        self.scroll(size);
        action
    }
}

/// Whether `c` is a control character.
fn is_control_char(c: char) -> (b: bool)
    ensures
        b == is_control(c),
{
    let code = c as u32;
    code <= 0x1f || (0x7f <= code && code <= 0x9f)
}

/// The length of row `y` of the document; 0 where it has no such row.
fn row_width(document: &Document, y: usize) -> (width: usize)
    ensures
        width == row_len(document@.lines, y as int),
{
    match document.row(y) {
        Some(row) => row.len(),
        None => 0,
    }
}

/// [`scrolled_axis`], computed.
fn scroll_axis(offset: usize, cursor: usize, extent: u16) -> (scrolled: usize)
    ensures
        scrolled == scrolled_axis(offset, cursor, extent),
{
    let extent = extent as usize;
    if cursor < offset {
        cursor
    } else if cursor - offset >= extent {
        (cursor - extent).saturating_add(1)
    } else {
        offset
    }
}

} // verus!
