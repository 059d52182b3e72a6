//! The screen composer: the document and the cursor, and the frame that one
//! refresh writes.

use crate::ansi::{
    clear, clear_sequence, hide_cursor, hide_sequence, move_cursor_to, move_to_sequence,
    show_cursor, show_sequence, ClearType,
};
use crate::contents::EditorContents;
use crate::cursor::{CursorController, CursorState, Direction};
use crate::keys::{intent_of_key, key_intent, plain_key, Intent, KeyCode, KeyEvent};
use crate::rows::EditorRows;
use vstd::prelude::*;

verus! {

/// The character that marks a window row below the document's end.
pub open spec fn filler() -> char {
    '~'
}

/// The banner that an empty document shows.
pub open spec fn welcome_banner() -> Seq<char> {
    seq!['R', 'u', 's', 't', ' ', 'T', 'e', 'x', 't', ' ', 'E', 'd', 'i', 't', 'o', 'r']
}

/// The first `columns` characters of `line`; all of `line` where it has no more.
pub open spec fn clipped(line: Seq<char>, columns: nat) -> Seq<char> {
    if line.len() <= columns {
        line
    } else {
        line.take(columns as int)
    }
}

/// The banner row of a window of `columns` columns. The padding is half of
/// the columns that the banner, clipped to the window, leaves free. Without
/// padding the row is the banner alone; else it is the filler mark, then as
/// many spaces as the padding counts, then the banner.
pub open spec fn welcome_row(columns: nat) -> Seq<char> {
    let banner = clipped(welcome_banner(), columns);
    let padding = (columns - banner.len()) / 2;
    if padding == 0 {
        banner
    } else {
        seq![filler()] + Seq::new(padding as nat, |i: int| ' ') + banner
    }
}

/// What window row `i` shows of the document `lines`: the line at
/// `i + row_offset`, clipped to the window; below the document's end the
/// filler mark, but for the banner row of an empty document.
pub open spec fn row_content(lines: Seq<Seq<char>>, cursor: CursorState, i: nat) -> Seq<char> {
    if i + cursor.row_offset >= lines.len() {
        if lines.len() == 0 && i == cursor.rows / 3 {
            welcome_row(cursor.columns)
        } else {
            seq![filler()]
        }
    } else {
        clipped(lines[(i + cursor.row_offset) as int], cursor.columns)
    }
}

/// The text of window row `i` in a frame: what the row shows, the sequence
/// that erases the rest of the line, and a line break after every row but the
/// last.
pub open spec fn row_text(lines: Seq<Seq<char>>, cursor: CursorState, i: nat) -> Seq<char> {
    let line_break = if i + 1 < cursor.rows {
        seq!['\r', '\n']
    } else {
        Seq::<char>::empty()
    };
    row_content(lines, cursor, i) + clear_sequence(ClearType::UntilNewLine) + line_break
}

/// The text of the first `count` window rows.
pub open spec fn rows_text(lines: Seq<Seq<char>>, cursor: CursorState, count: nat) -> Seq<char>
    decreases count,
{
    if count == 0 {
        Seq::<char>::empty()
    } else {
        rows_text(lines, cursor, (count - 1) as nat) + row_text(lines, cursor, (count - 1) as nat)
    }
}

/// A coordinate as the terminal is told it: in 16 bits.
pub open spec fn wire_coordinate(v: nat) -> u16 {
    (v % 0x1_0000) as u16
}

/// The frame for the document `lines` seen through `cursor`: the cursor is
/// hidden and sent to the top left corner, every window row is drawn, and the
/// cursor is sent to its place and shown.
pub open spec fn frame_text(lines: Seq<Seq<char>>, cursor: CursorState) -> Seq<char> {
    hide_sequence() + move_to_sequence(0, 0) + rows_text(lines, cursor, cursor.rows)
        + move_to_sequence(wire_coordinate(cursor.x), wire_coordinate(cursor.y)) + show_sequence()
}

/// A row that shows a line longer than the window holds exactly as many
/// characters as the window has columns, and no row of the document holds more.
pub proof fn lemma_row_content_clipped(lines: Seq<Seq<char>>, cursor: CursorState, i: nat)
    requires
        i + cursor.row_offset < lines.len(),
    ensures
        ({
            let line = lines[(i + cursor.row_offset) as int];
            let row = row_content(lines, cursor, i);
            &&& row.len() <= cursor.columns
            &&& line.len() > cursor.columns ==> row.len() == cursor.columns
            &&& line.len() <= cursor.columns ==> row == line
            &&& row.is_prefix_of(line)
        }),
{
}

/// The banner row is never wider than the window. Where the window is at
/// least two columns wider than the banner, the row starts with the filler
/// mark, then come as many spaces as half of the free columns, and behind
/// them the whole banner stands: the columns that stay free to its right are
/// as many as those spaces, or one fewer.
pub proof fn lemma_welcome_row_centred(columns: nat)
    ensures
        welcome_row(columns).len() <= columns,
        columns >= welcome_banner().len() + 2 ==> ({
            let padding = (columns - welcome_banner().len()) / 2;
            let row = welcome_row(columns);
            &&& row.len() == 1 + padding + welcome_banner().len()
            &&& row[0] == filler()
            &&& forall|i: int| 1 <= i <= padding ==> row[i] == ' '
            &&& row.skip(1 + padding) == welcome_banner()
            &&& padding - 1 <= columns - row.len() <= padding
        }),
{
    if columns >= welcome_banner().len() + 2 {
        let padding = (columns - welcome_banner().len()) / 2;
        assert(welcome_row(columns).skip(1 + padding) =~= welcome_banner());
    }
}

/// The first `columns` characters of `line`.
pub fn clip(line: &str, columns: usize) -> (shown: &str)
    ensures
        shown@ == clipped(line@, columns as nat),
        shown@.len() <= columns,
        line@.len() > columns ==> shown@.len() == columns,
{
    if line.unicode_len() <= columns {
        line
    } else {
        line.substring_char(0, columns)
    }
}

/// Appends the banner row of a window of `columns` columns.
fn push_welcome(contents: &mut EditorContents, columns: usize)
    ensures
        final(contents)@ == old(contents)@ + welcome_row(columns as nat),
{
    let welcome = "Rust Text Editor";
    proof {
        reveal_strlit("Rust Text Editor");
        assert(welcome@ =~= welcome_banner());
    }
    let banner = clip(welcome, columns);
    let padding = (columns - banner.unicode_len()) / 2;
    if padding != 0 {
        contents.push('~');
        for done in 0..padding
            invariant
                contents@ == old(contents)@ + seq![filler()] + Seq::new(done as nat, |i: int| ' '),
        {
            contents.push(' ');
            assert(Seq::new(done as nat, |i: int| ' ').push(' ') =~= Seq::new(
                (done + 1) as nat,
                |i: int| ' ',
            ));
        }
    }
    contents.push_str(banner);
    assert(contents@ =~= old(contents)@ + welcome_row(columns as nat));
}

/// The mathematical state of the screen composer: the document's lines, and
/// the cursor and window.
pub struct OutputState {
    pub lines: Seq<Seq<char>>,
    pub cursor: CursorState,
}

impl OutputState {
    /// The cursor's column lies inside the window, and its row at or above the
    /// row that follows the document's last line.
    pub open spec fn wf(self) -> bool {
        self.cursor.wf() && self.cursor.y <= self.lines.len()
    }

    /// A frame can be composed: the scroll offset that brings the cursor back
    /// into the window fits the machine's numbers, and neither coordinate of
    /// the cursor is, in 16 bits, the largest 16-bit number, to which the
    /// terminal's protocol cannot add 1.
    pub open spec fn can_refresh(self) -> bool {
        &&& self.cursor.rows >= 1 || self.cursor.y < usize::MAX
        &&& wire_coordinate(self.cursor.x) < u16::MAX
        &&& wire_coordinate(self.cursor.y) < u16::MAX
    }

    /// The state after the cursor has made one step over the document.
    pub open spec fn moved(self, direction: Direction) -> OutputState {
        OutputState { cursor: self.cursor.step(direction, self.lines.len()), ..self }
    }

    /// The state after `intent` has been carried out. Ending the session
    /// changes nothing.
    pub open spec fn applied(self, intent: Intent) -> OutputState {
        match intent {
            Intent::Quit => self,
            Intent::Noop => self,
            Intent::Move(direction) => self.moved(direction),
            Intent::MoveRepeated(direction, count) => OutputState {
                cursor: self.cursor.repeat(direction, count as nat, self.lines.len()),
                ..self
            },
        }
    }

    /// What the key press `event` asks for in this window.
    pub open spec fn intent(self, event: KeyEvent) -> Intent {
        key_intent(event, self.cursor.rows as usize)
    }

    /// The state after the key press `event` has been dealt with.
    pub open spec fn pressed(self, event: KeyEvent) -> OutputState {
        self.applied(self.intent(event))
    }

    /// The state after the key presses of `events`, dealt with in order.
    pub open spec fn pressed_all(self, events: Seq<KeyEvent>) -> OutputState
        decreases events.len(),
    {
        if events.len() == 0 {
            self
        } else {
            self.pressed_all(events.drop_last()).pressed(events.last())
        }
    }

    /// Whatever a key press asks for, the cursor's column stays inside the
    /// window and its row at or above the row that follows the last line, and
    /// neither the document, the window's size nor the scroll offset changes.
    pub proof fn lemma_applied_wf(self, intent: Intent)
        ensures
            self.cursor.wf() ==> self.applied(intent).cursor.wf(),
            self.wf() ==> self.applied(intent).wf(),
            self.applied(intent).lines == self.lines,
            self.applied(intent).cursor.columns == self.cursor.columns,
            self.applied(intent).cursor.rows == self.cursor.rows,
            self.applied(intent).cursor.row_offset == self.cursor.row_offset,
    {
        match intent {
            Intent::MoveRepeated(direction, count) => {
                let moves = Seq::new(count as nat, |i: int| direction);
                self.cursor.lemma_repeat_is_steps(direction, count as nat, self.lines.len());
                self.cursor.lemma_steps_keep_window(moves, self.lines.len());
                if self.cursor.wf() {
                    self.cursor.lemma_steps_keep_column(moves, self.lines.len());
                }
                if self.cursor.y <= self.lines.len() {
                    self.cursor.lemma_steps_keep_row(moves, self.lines.len());
                }
            },
            _ => {},
        }
    }

    /// Whatever keys are pressed, the cursor's column stays inside the window
    /// and its row at or above the row that follows the last line, and
    /// neither the document, the window's size nor the scroll offset changes.
    pub proof fn lemma_pressed_all_wf(self, events: Seq<KeyEvent>)
        ensures
            self.cursor.wf() ==> self.pressed_all(events).cursor.wf(),
            self.wf() ==> self.pressed_all(events).wf(),
            self.pressed_all(events).lines == self.lines,
            self.pressed_all(events).cursor.columns == self.cursor.columns,
            self.pressed_all(events).cursor.rows == self.cursor.rows,
            self.pressed_all(events).cursor.row_offset == self.cursor.row_offset,
        decreases events.len(),
    {
        if events.len() > 0 {
            let before = self.pressed_all(events.drop_last());
            self.lemma_pressed_all_wf(events.drop_last());
            before.lemma_applied_wf(before.intent(events.last()));
        }
    }

    /// Pressing a key that moves the cursor one step, `count` times, moves
    /// the cursor `count` steps.
    pub proof fn lemma_pressed_all_steps(self, event: KeyEvent, direction: Direction, count: nat)
        requires
            self.intent(event) == Intent::Move(direction),
        ensures
            self.pressed_all(Seq::new(count, |i: int| event)) == (OutputState {
                cursor: self.cursor.repeat(direction, count, self.lines.len()),
                ..self
            }),
        decreases count,
    {
        if count > 0 {
            let shorter = Seq::new((count - 1) as nat, |i: int| event);
            assert(Seq::new(count, |i: int| event).drop_last() =~= shorter);
            self.lemma_pressed_all_steps(event, direction, (count - 1) as nat);
        }
    }

    /// PageDown is Down pressed as many times as the window has rows, and
    /// PageUp is Up pressed as many times.
    pub proof fn lemma_page_is_repeated_step(self)
        requires
            self.cursor.rows <= usize::MAX,
        ensures
            self.pressed(plain_key(KeyCode::PageDown)) == self.pressed_all(
                Seq::new(self.cursor.rows, |i: int| plain_key(KeyCode::Down)),
            ),
            self.pressed(plain_key(KeyCode::PageUp)) == self.pressed_all(
                Seq::new(self.cursor.rows, |i: int| plain_key(KeyCode::Up)),
            ),
    {
        self.lemma_pressed_all_steps(plain_key(KeyCode::Down), Direction::Down, self.cursor.rows);
        self.lemma_pressed_all_steps(plain_key(KeyCode::Up), Direction::Up, self.cursor.rows);
    }
}

/// The screen composer: it owns the document and the cursor. The frame
/// buffer lives for one refresh.
pub struct Output {
    cursor_controller: CursorController,
    editor_rows: EditorRows,
}

impl View for Output {
    type V = OutputState;

    closed spec fn view(&self) -> OutputState {
        OutputState { lines: self.editor_rows@, cursor: self.cursor_controller@ }
    }
}

impl Output {
    /// A composer for `editor_rows` in a window of `win_size.0` columns and
    /// `win_size.1` rows, with the cursor in the top left corner and the
    /// document shown from its first line.
    pub fn new(win_size: (usize, usize), editor_rows: EditorRows) -> (output: Output)
        requires
            win_size.0 >= 1,
        ensures
            output@ == (OutputState {
                lines: editor_rows@,
                cursor: CursorState {
                    x: 0,
                    y: 0,
                    columns: win_size.0 as nat,
                    rows: win_size.1 as nat,
                    row_offset: 0,
                },
            }),
            output@.wf(),
    {
        Output { cursor_controller: CursorController::new(win_size), editor_rows }
    }

    /// The text that leaves the screen empty with the cursor in its top left
    /// corner, for the end of a session.
    pub fn clear_screen() -> (text: String)
        ensures
            text@ == clear_sequence(ClearType::All) + move_to_sequence(0, 0),
    {
        let mut text = clear(ClearType::All);
        text.append(move_cursor_to(0, 0).as_str());
        text
    }

    /// The window's size: columns, then rows.
    pub fn win_size(&self) -> (size: (usize, usize))
        ensures
            size.0 == self@.cursor.columns,
            size.1 == self@.cursor.rows,
            size.0 >= 1,
            self@.cursor.wf(),
    {
        (self.cursor_controller.screen_column(), self.cursor_controller.screen_row())
    }

    /// The cursor's column and its row, the row counted in lines of the
    /// document.
    pub fn cursor_position(&self) -> (position: (usize, usize))
        ensures
            position.0 == self@.cursor.x,
            position.1 == self@.cursor.y,
            self@.cursor.wf(),
    {
        (self.cursor_controller.cursor_x(), self.cursor_controller.cursor_y())
    }

    /// The index of the document line that the window's first row shows.
    pub fn row_offset(&self) -> (offset: usize)
        ensures
            offset == self@.cursor.row_offset,
    {
        self.cursor_controller.row_offset()
    }

    /// The document.
    pub fn editor_rows(&self) -> (rows: &EditorRows)
        ensures
            rows@ == self@.lines,
    {
        &self.editor_rows
    }

    /// Moves the cursor one step over the document.
    pub fn move_cursor(&mut self, direction: Direction)
        ensures
            final(self)@ == old(self)@.moved(direction),
            final(self)@.cursor.wf(),
            old(self)@.wf() ==> final(self)@.wf(),
    {
        let number_of_rows = self.editor_rows.number_of_rows();
        self.cursor_controller.move_cursor(direction, number_of_rows);
    }

    /// Appends the text of every window row to `contents`.
    pub fn draw_rows(&self, contents: &mut EditorContents)
        ensures
            final(contents)@ == old(contents)@ + rows_text(
                self@.lines,
                self@.cursor,
                self@.cursor.rows,
            ),
    {
        let screen_row = self.cursor_controller.screen_row();
        let screen_column = self.cursor_controller.screen_column();
        let number_of_rows = self.editor_rows.number_of_rows();
        let row_offset = self.cursor_controller.row_offset();
        let erase = clear(ClearType::UntilNewLine);
        for i in 0..screen_row
            invariant
                screen_row == self@.cursor.rows,
                screen_column == self@.cursor.columns,
                row_offset == self@.cursor.row_offset,
                number_of_rows == self@.lines.len(),
                erase@ == clear_sequence(ClearType::UntilNewLine),
                contents@ == old(contents)@ + rows_text(self@.lines, self@.cursor, i as nat),
        {
            let ghost before = contents@;
            if row_offset >= number_of_rows || i >= number_of_rows - row_offset {
                if number_of_rows == 0 && i == screen_row / 3 {
                    push_welcome(contents, screen_column);
                } else {
                    contents.push('~');
                }
            } else {
                let row = self.editor_rows.get_row(i + row_offset);
                contents.push_str(clip(row, screen_column));
            }
            assert(contents@ == before + row_content(self@.lines, self@.cursor, i as nat));
            contents.push_str(erase.as_str());
            if i < screen_row - 1 {
                proof {
                    reveal_strlit("\r\n");
                }
                contents.push_str("\r\n");
                assert("\r\n"@ =~= seq!['\r', '\n']);
            }
            assert(contents@ =~= before + row_text(self@.lines, self@.cursor, i as nat));
        }
    }

    /// Whether a frame can be composed for the cursor as it stands.
    pub fn can_refresh(&self) -> (ok: bool)
        ensures
            ok == self@.can_refresh(),
    {
        let x = self.cursor_controller.cursor_x();
        let y = self.cursor_controller.cursor_y();
        let scrolls = self.cursor_controller.screen_row() >= 1 || y < usize::MAX;
        scrolls && x % 0x1_0000 != 0xffff && y % 0x1_0000 != 0xffff
    }

    /// Composes one frame for a single write: the scroll offset is brought
    /// back to the cursor, and the frame for the document and the cursor is
    /// gathered in a buffer of its own, which is handed out whole.
    ///
    /// The terminal is told the cursor's place in 16 bits, and crossterm adds 1
    /// to each coordinate in 16 bits: neither may be the largest 16-bit number.
    pub fn refresh_screen(&mut self) -> (frame: String)
        requires
            old(self)@.can_refresh(),
        ensures
            final(self)@ == (OutputState { cursor: old(self)@.cursor.scrolled(), ..old(self)@ }),
            frame@ == frame_text(final(self)@.lines, final(self)@.cursor),
            final(self)@.cursor.rows >= 1 ==> final(self)@.cursor.in_band(),
            old(self)@.wf() ==> final(self)@.wf(),
    {
        self.cursor_controller.scroll();
        let mut editor_contents = EditorContents::new();
        editor_contents.push_str(hide_cursor().as_str());
        editor_contents.push_str(move_cursor_to(0, 0).as_str());
        self.draw_rows(&mut editor_contents);
        let cursor_x = self.cursor_controller.cursor_x();
        let cursor_y = self.cursor_controller.cursor_y();
        let x = (cursor_x % 0x1_0000) as u16;
        let y = (cursor_y % 0x1_0000) as u16;
        editor_contents.push_str(move_cursor_to(x, y).as_str());
        editor_contents.push_str(show_cursor().as_str());
        let frame = editor_contents.flush();
        assert(frame@ =~= frame_text(self@.lines, self@.cursor));
        frame
    }

    /// Carries out what a key press asks for, and tells whether the session
    /// goes on: it ends with control and `q`, which changes nothing.
    pub fn process_keypress(&mut self, event: KeyEvent) -> (keep_going: bool)
        ensures
            keep_going == !(old(self)@.intent(event) is Quit),
            final(self)@ == old(self)@.pressed(event),
            final(self)@.cursor.wf(),
            old(self)@.wf() ==> final(self)@.wf(),
    {
        let ghost start = self@;
        let rows = self.win_size().1;
        proof {
            start.lemma_applied_wf(key_intent(event, rows));
        }
        match intent_of_key(event, rows) {
            Intent::Quit => false,
            Intent::Noop => true,
            Intent::Move(direction) => {
                self.move_cursor(direction);
                true
            },
            Intent::MoveRepeated(direction, count) => {
                for done in 0..count
                    invariant
                        self@ == (OutputState {
                            cursor: start.cursor.repeat(direction, done as nat, start.lines.len()),
                            ..start
                        }),
                {
                    self.move_cursor(direction);
                }
                true
            },
        }
    }
}

} // verus!
