//! The cursor and the vertical scroll offset of the window.

use vstd::prelude::*;

verus! {

/// A single step of the cursor.
#[derive(Clone, Copy, Debug, PartialEq, Eq, Structural)]
pub enum Direction {
    Up,
    Down,
    Left,
    Right,
    Home,
    End,
}

/// The mathematical state of a cursor in a window: the cursor's column `x`,
/// its row `y` counted in lines of the document, the window's size, and the
/// index `row_offset` of the document line shown in the window's first row.
pub struct CursorState {
    pub x: nat,
    pub y: nat,
    pub columns: nat,
    pub rows: nat,
    pub row_offset: nat,
}

impl CursorState {
    /// The cursor's column lies inside the window.
    pub open spec fn wf(self) -> bool {
        self.x < self.columns
    }

    /// The state after one step in `direction`, over a document of `lines` lines.
    pub open spec fn step(self, direction: Direction, lines: nat) -> CursorState {
        match direction {
            Direction::Up => CursorState {
                y: if self.y == 0 {
                    0
                } else {
                    (self.y - 1) as nat
                },
                ..self
            },
            Direction::Down => CursorState {
                y: if self.y < lines {
                    self.y + 1
                } else {
                    self.y
                },
                ..self
            },
            Direction::Left => CursorState {
                x: if self.x == 0 {
                    0
                } else {
                    (self.x - 1) as nat
                },
                ..self
            },
            Direction::Right => CursorState {
                x: if self.x + 1 < self.columns {
                    self.x + 1
                } else {
                    self.x
                },
                ..self
            },
            Direction::Home => CursorState { x: 0, ..self },
            Direction::End => CursorState { x: (self.columns - 1) as nat, ..self },
        }
    }

    /// The state after `count` steps in `direction`.
    pub open spec fn repeat(self, direction: Direction, count: nat, lines: nat) -> CursorState
        decreases count,
    {
        if count == 0 {
            self
        } else {
            self.repeat(direction, (count - 1) as nat, lines).step(direction, lines)
        }
    }

    /// The state after the steps of `moves`, taken in order.
    pub open spec fn steps(self, moves: Seq<Direction>, lines: nat) -> CursorState
        decreases moves.len(),
    {
        if moves.len() == 0 {
            self
        } else {
            self.steps(moves.drop_last(), lines).step(moves.last(), lines)
        }
    }

    /// The state with the scroll offset brought back to the cursor: first
    /// lowered to the cursor's row if it lies below it, then raised so that the
    /// cursor's row is the window's last row if the cursor lies under the window.
    pub open spec fn scrolled(self) -> CursorState {
        let lowered = if self.row_offset <= self.y {
            self.row_offset
        } else {
            self.y
        };
        CursorState {
            row_offset: if self.y >= lowered + self.rows {
                (self.y - self.rows + 1) as nat
            } else {
                lowered
            },
            ..self
        }
    }

    /// The cursor's row is one of the rows that the window shows.
    pub open spec fn in_band(self) -> bool {
        self.row_offset <= self.y <= self.row_offset + self.rows - 1
    }

    /// However the cursor is moved, its column stays inside the window.
    pub proof fn lemma_steps_keep_column(self, moves: Seq<Direction>, lines: nat)
        requires
            self.wf(),
        ensures
            self.steps(moves, lines).wf(),
            0 <= self.steps(moves, lines).x < self.columns,
            self.steps(moves, lines).columns == self.columns,
        decreases moves.len(),
    {
        if moves.len() > 0 {
            self.lemma_steps_keep_column(moves.drop_last(), lines);
        }
    }

    /// However the cursor is moved over a document of `lines` lines, its row
    /// stays at or above the row that follows the last line.
    pub proof fn lemma_steps_keep_row(self, moves: Seq<Direction>, lines: nat)
        requires
            self.y <= lines,
        ensures
            0 <= self.steps(moves, lines).y <= lines,
        decreases moves.len(),
    {
        if moves.len() > 0 {
            self.lemma_steps_keep_row(moves.drop_last(), lines);
        }
    }

    /// Steps change neither the window's size nor the scroll offset.
    pub proof fn lemma_steps_keep_window(self, moves: Seq<Direction>, lines: nat)
        ensures
            self.steps(moves, lines).columns == self.columns,
            self.steps(moves, lines).rows == self.rows,
            self.steps(moves, lines).row_offset == self.row_offset,
        decreases moves.len(),
    {
        if moves.len() > 0 {
            self.lemma_steps_keep_window(moves.drop_last(), lines);
        }
    }

    /// `count` steps in one direction are the steps of a sequence that holds
    /// that direction `count` times.
    pub proof fn lemma_repeat_is_steps(self, direction: Direction, count: nat, lines: nat)
        ensures
            self.repeat(direction, count, lines) == self.steps(
                Seq::new(count, |i: int| direction),
                lines,
            ),
        decreases count,
    {
        if count > 0 {
            let shorter = Seq::new((count - 1) as nat, |i: int| direction);
            assert(Seq::new(count, |i: int| direction).drop_last() =~= shorter);
            self.lemma_repeat_is_steps(direction, (count - 1) as nat, lines);
        }
    }

    /// `count` steps up lower the row by `count`, and stop at the first row.
    pub proof fn lemma_repeat_up(self, count: nat, lines: nat)
        ensures
            self.repeat(Direction::Up, count, lines) == (CursorState {
                y: if self.y >= count {
                    (self.y - count) as nat
                } else {
                    0
                },
                ..self
            }),
        decreases count,
    {
        if count > 0 {
            self.lemma_repeat_up((count - 1) as nat, lines);
        }
    }

    /// `count` steps down raise the row by `count`, and stop at the row that
    /// follows the last line; a cursor at or beyond that row stays.
    pub proof fn lemma_repeat_down(self, count: nat, lines: nat)
        ensures
            self.repeat(Direction::Down, count, lines) == (CursorState {
                y: if self.y >= lines {
                    self.y
                } else if self.y + count <= lines {
                    self.y + count
                } else {
                    lines
                },
                ..self
            }),
        decreases count,
    {
        if count > 0 {
            self.lemma_repeat_down((count - 1) as nat, lines);
        }
    }

    /// After scrolling, a window of at least one row shows the cursor's row.
    pub proof fn lemma_scrolled_in_band(self)
        requires
            self.rows >= 1,
        ensures
            self.scrolled().in_band(),
    {
    }

    /// Scrolling twice is scrolling once.
    pub proof fn lemma_scrolled_idempotent(self)
        ensures
            self.scrolled().scrolled() == self.scrolled(),
    {
    }

    /// Scrolling changes nothing where the window shows the cursor's row.
    pub proof fn lemma_scrolled_fixes_band(self)
        requires
            self.in_band(),
        ensures
            self.scrolled() == self,
    {
    }
}

/// The cursor of a window and the window's scroll offset.
pub struct CursorController {
    cursor_x: usize,
    cursor_y: usize,
    screen_column: usize,
    screen_row: usize,
    row_offset: usize,
}

impl View for CursorController {
    type V = CursorState;

    closed spec fn view(&self) -> CursorState {
        CursorState {
            x: self.cursor_x as nat,
            y: self.cursor_y as nat,
            columns: self.screen_column as nat,
            rows: self.screen_row as nat,
            row_offset: self.row_offset as nat,
        }
    }
}

impl CursorController {
    #[verifier::type_invariant]
    spec fn inv(self) -> bool {
        self.cursor_x < self.screen_column
    }

    /// A cursor in the top left corner of a window of `win_size.0` columns and
    /// `win_size.1` rows that shows the document from its first line. A window
    /// has a column for the cursor to stand in.
    pub fn new(win_size: (usize, usize)) -> (c: CursorController)
        requires
            win_size.0 >= 1,
        ensures
            c@ == (CursorState {
                x: 0,
                y: 0,
                columns: win_size.0 as nat,
                rows: win_size.1 as nat,
                row_offset: 0,
            }),
            c@.wf(),
    {
        CursorController {
            cursor_x: 0,
            cursor_y: 0,
            screen_column: win_size.0,
            screen_row: win_size.1,
            row_offset: 0,
        }
    }

    /// The cursor's column.
    pub fn cursor_x(&self) -> (x: usize)
        ensures
            x == self@.x,
            self@.wf(),
    {
        proof {
            use_type_invariant(self);
        }
        self.cursor_x
    }

    /// The cursor's row, counted in lines of the document.
    pub fn cursor_y(&self) -> (y: usize)
        ensures
            y == self@.y,
    {
        self.cursor_y
    }

    /// The number of columns of the window, which is at least one.
    pub fn screen_column(&self) -> (columns: usize)
        ensures
            columns == self@.columns,
            columns >= 1,
            self@.wf(),
    {
        proof {
            use_type_invariant(self);
        }
        self.screen_column
    }

    /// The number of rows of the window.
    pub fn screen_row(&self) -> (rows: usize)
        ensures
            rows == self@.rows,
    {
        self.screen_row
    }

    /// The index of the document line that the window's first row shows.
    pub fn row_offset(&self) -> (offset: usize)
        ensures
            offset == self@.row_offset,
    {
        self.row_offset
    }

    /// Moves the cursor one step over a document of `number_of_rows` lines.
    pub fn move_cursor(&mut self, direction: Direction, number_of_rows: usize)
        ensures
            final(self)@ == old(self)@.step(direction, number_of_rows as nat),
            final(self)@.wf(),
            old(self)@.y <= number_of_rows ==> final(self)@.y <= number_of_rows,
    {
        proof {
            use_type_invariant(&*self);
        }
        match direction {
            Direction::Up => {
                if self.cursor_y != 0 {
                    self.cursor_y -= 1;
                }
            },
            Direction::Left => {
                if self.cursor_x != 0 {
                    self.cursor_x -= 1;
                }
            },
            Direction::Down => {
                if self.cursor_y < number_of_rows {
                    self.cursor_y += 1;
                }
            },
            Direction::Right => {
                if self.cursor_x != self.screen_column - 1 {
                    self.cursor_x += 1;
                }
            },
            Direction::End => {
                self.cursor_x = self.screen_column - 1;
            },
            Direction::Home => {
                self.cursor_x = 0;
            },
        }
    }

    /// Brings the scroll offset back to the cursor, so that a window of at
    /// least one row shows the cursor's row.
    pub fn scroll(&mut self)
        requires
            old(self)@.rows >= 1 || old(self)@.y < usize::MAX,
        ensures
            final(self)@ == old(self)@.scrolled(),
            final(self)@.wf(),
            final(self)@.rows >= 1 ==> final(self)@.in_band(),
    {
        proof {
            use_type_invariant(&*self);
        }
        if self.cursor_y < self.row_offset {
            self.row_offset = self.cursor_y;
        }
        if self.cursor_y - self.row_offset >= self.screen_row {
            self.row_offset = self.cursor_y - self.screen_row + 1;
        }
    }
}

} // verus!
