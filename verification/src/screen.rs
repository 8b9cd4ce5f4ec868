//! What the editor shows: the visible part of the document, the status bar
//! and the message bar, as text for the caller to put on the terminal.

use vstd::prelude::*;

use crate::editor::{Editor, EditorView, Position};
use crate::row::{window, Row};
use crate::terminal::Size;
use crate::text::{blanks, cut, decimal, digits, spaces, texts, truncated};

verus! {

/// The editor's version.
pub const VERSION: &'static str = "0.1.0";

/// For how long a status message is shown, in nanoseconds.
pub const MESSAGE_TIME: u64 = 5_000_000_000;

/// How many characters of a file's name the status bar shows.
pub const NAME_WIDTH: usize = 20;

/// The line that greets the user of an empty document, in a viewport
/// `width` columns wide: a tilde, then the editor's name and version, moved
/// towards the middle by blanks, and cut to the viewport.
pub open spec fn welcome_message(width: nat) -> Seq<char> {
    let message = "Bolt editor -- version "@ + VERSION@;
    let padding = if width > message.len() {
        (width - message.len()) / 2
    } else {
        0
    };
    let indent = if padding > 1 {
        (padding - 1) as nat
    } else {
        0
    };
    cut(seq!['~'] + blanks(indent) + message, width)
}

/// What the viewport shows of `line` when its first column is column
/// `offset` of the document.
pub open spec fn rendered_row(line: Seq<char>, offset: Position, size: Size) -> Seq<char> {
    window(line, offset.x as int, offset.x + size.width)
}

/// Line `index` of the viewport: the part of the document's line that falls
/// into it; below the document a tilde, or the greeting on the line a third
/// down the viewport of an empty document.
pub open spec fn screen_row(state: EditorView, size: Size, index: int) -> Seq<char> {
    let lines = state.document.lines;
    if index + state.offset.y < lines.len() {
        rendered_row(lines[index + state.offset.y], state.offset, size)
    } else if lines.len() == 0 && index == size.height / 3 {
        welcome_message(size.width as nat)
    } else {
        seq!['~']
    }
}

/// The lines of the viewport, from the top: as many as the viewport is
/// high, line `index` being [`screen_row`] of `index`.
pub open spec fn screen_rows(state: EditorView, size: Size) -> Seq<Seq<char>> {
    Seq::new(size.height as nat, |index: int| screen_row(state, size, index))
}

/// In a viewport that has followed the cursor, the line of the document
/// that the cursor is on is among the lines shown: it is the line of the
/// viewport on which [`screen_cursor`] stands.
pub proof fn lemma_cursor_row_is_shown(state: EditorView, size: Size)
    requires
        state.offset.y <= state.cursor_position.y < state.offset.y + size.height,
        state.cursor_position.y < state.document.lines.len(),
    ensures
        screen_cursor(state).y < screen_rows(state, size).len(),
        screen_rows(state, size)[screen_cursor(state).y as int] == rendered_row(
            state.document.lines[state.cursor_position.y as int],
            state.offset,
            size,
        ),
{
}

/// The status bar: on the left the file's name, cut to `NAME_WIDTH`
/// characters, the number of lines and whether the document was changed;
/// on the right the cursor's line, counted from one, and the number of
/// lines. Blanks fill the bar to the width of the viewport, and what is
/// longer is cut off.
pub open spec fn status_bar(state: EditorView, size: Size) -> Seq<char> {
    let name = match state.document.filename {
        Some(name) => cut(name, NAME_WIDTH as nat),
        None => "[No Name]"@,
    };
    let modified = if state.document.dirty {
        "(modified)"@
    } else {
        Seq::<char>::empty()
    };
    let count = digits(state.document.lines.len());
    let line = if state.cursor_position.y < usize::MAX {
        (state.cursor_position.y + 1) as nat
    } else {
        usize::MAX as nat
    };
    let status = name + " - "@ + count + " lines "@ + modified;
    let indicator = digits(line) + "/"@ + count;
    let len = status.len() + indicator.len();
    let padded = if size.width > len {
        status + blanks((size.width - len) as nat)
    } else {
        status
    };
    cut(padded + indicator, size.width as nat)
}

/// The message bar at time `now`: the status message, cut to the viewport,
/// while it is younger than `MESSAGE_TIME`; nothing afterwards.
pub open spec fn message_bar(state: EditorView, size: Size, now: u64) -> Seq<char> {
    if now - state.status_message.time < MESSAGE_TIME {
        cut(state.status_message.text, size.width as nat)
    } else {
        Seq::<char>::empty()
    }
}

/// Where the cursor stands in the viewport: as far right of the offset and
/// below it as it is in the document, and in the top left cell where it
/// lies before the offset.
pub open spec fn screen_cursor(state: EditorView) -> Position {
    Position {
        x: if state.cursor_position.x > state.offset.x {
            (state.cursor_position.x - state.offset.x) as usize
        } else {
            0
        },
        y: if state.cursor_position.y > state.offset.y {
            (state.cursor_position.y - state.offset.y) as usize
        } else {
            0
        },
    }
}

/// What the terminal is to show.
#[derive(Debug)]
pub enum Screen {
    /// The session is over: a farewell on an empty screen.
    Goodbye,
    /// The editor at work.
    Frame {
        /// The lines of the viewport, from the top.
        rows: Vec<String>,
        /// The line below them.
        status_bar: String,
        /// The last line.
        message_bar: String,
        /// Where the cursor stands in the viewport.
        cursor: Position,
    },
}

/// Whether `screen` is what a session in `state` shows at `now`.
pub open spec fn shows(screen: Screen, state: EditorView, size: Size, now: u64) -> bool {
    match screen {
        Screen::Goodbye => state.should_quit,
        Screen::Frame { rows, status_bar, message_bar, cursor } => {
            &&& !state.should_quit
            &&& texts(rows@) == screen_rows(state, size)
            &&& status_bar@ == self::status_bar(state, size)
            &&& message_bar@ == self::message_bar(state, size, now)
            &&& cursor == screen_cursor(state)
        },
    }
}

impl Editor {
    /// What the terminal is to show at `now`; see [`shows`].
    pub fn refresh_screen(&self, size: &Size, now: u64) -> (screen: Screen)
        ensures
            shows(screen, self@, *size, now),
    {
        if self.should_quit() {
            Screen::Goodbye
        } else {
            let cursor = self.cursor_position();
            let offset = self.offset();
            Screen::Frame {
                rows: self.draw_rows(size),
                status_bar: self.draw_status_bar(size),
                message_bar: self.draw_message_bar(size, now),
                cursor: Position {
                    x: cursor.x.saturating_sub(offset.x),
                    y: cursor.y.saturating_sub(offset.y),
                },
            }
        }
    }

    /// The lines of the viewport, from the top; see [`screen_rows`].
    pub fn draw_rows(&self, size: &Size) -> (rows: Vec<String>)
        ensures
            texts(rows@) == screen_rows(self@, *size),
    {
        let height = size.height;
        let offset = self.offset();
        let total = self.document().len();
        let mut rows: Vec<String> = Vec::new();
        let mut row_index: u16 = 0;
        while row_index < height
            invariant
                row_index <= height,
                total == self@.document.lines.len(),
                height == size.height,
                offset == self@.offset,
                rows@.len() == row_index,
                forall|i: int|
                    0 <= i < row_index ==> (#[trigger] rows@[i])@ == screen_row(self@, *size, i),
            decreases height - row_index,
        {
            let found = match (row_index as usize).checked_add(offset.y) {
                Some(index) => self.document().row(index),
                None => None,
            };
            let text = match found {
                Some(row) => self.render_row(row, size),
                None => {
                    if self.document().is_empty() && row_index == height / 3 {
                        Editor::draw_welcome_message(size)
                    } else {
                        let tilde = String::from_str("~");
                        proof {
                            reveal_strlit("~");
                            assert("~"@ =~= seq!['~']);
                        }
                        tilde
                    }
                },
            };
            rows.push(text);
            row_index += 1;
        }
        assert(texts(rows@) =~= screen_rows(self@, *size));
        rows
    }

    /// What the viewport shows of `row`; see [`rendered_row`].
    pub fn render_row(&self, row: &Row, size: &Size) -> (text: String)
        ensures
            text@ == rendered_row(row@, self@.offset, *size),
    {
        let start = self.offset().x;
        let end = match start.checked_add(size.width as usize) {
            Some(end) => end,
            None => row.len(),
        };
        row.render(start, end)
    }

    /// The status bar; see [`status_bar`].
    pub fn draw_status_bar(&self, size: &Size) -> (status: String)
        ensures
            status@ == status_bar(self@, *size),
    {
        let width = size.width as usize;
        let document = self.document();
        let mut status = match document.filename() {
            Some(name) => truncated(name.as_str(), NAME_WIDTH),
            None => String::from_str("[No Name]"),
        };
        let count = decimal(document.len());
        status.append(" - ");
        status.append(count.as_str());
        status.append(" lines ");
        if document.is_dirty() {
            status.append("(modified)");
        }
        let mut line_indicator = decimal(self.cursor_position().y.saturating_add(1));
        line_indicator.append("/");
        line_indicator.append(count.as_str());
        let status_len = status.as_str().unicode_len();
        let indicator_len = line_indicator.as_str().unicode_len();
        let len = status_len.saturating_add(indicator_len);
        if width > len {
            let padding = spaces(width - len);
            status.append(padding.as_str());
        }
        status.append(line_indicator.as_str());
        truncated(status.as_str(), width)
    }

    /// The message bar at `now`; see [`message_bar`].
    pub fn draw_message_bar(&self, size: &Size, now: u64) -> (text: String)
        ensures
            text@ == message_bar(self@, *size, now),
    {
        let message = self.status_message();
        if now < message.time() || now - message.time() < MESSAGE_TIME {
            truncated(message.text(), size.width as usize)
        } else {
            String::new()
        }
    }

    /// The line that greets the user of an empty document; see
    /// [`welcome_message`].
    pub fn draw_welcome_message(size: &Size) -> (text: String)
        ensures
            text@ == welcome_message(size.width as nat),
    {
        let mut welcome_message = String::from_str("Bolt editor -- version ");
        welcome_message.append(VERSION);
        let width = size.width as usize;
        let len = welcome_message.as_str().unicode_len();
        let padding = width.saturating_sub(len) / 2;
        let blank = spaces(padding.saturating_sub(1));
        let mut text = String::from_str("~");
        proof {
            reveal_strlit("~");
            assert("~"@ =~= seq!['~']);
        }
        text.append(blank.as_str());
        text.append(welcome_message.as_str());
        truncated(text.as_str(), width)
    }
}

} // verus!
