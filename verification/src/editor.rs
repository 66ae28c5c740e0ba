//! The editor: its buffers, its viewport, its mode, and the handlers that
//! turn one input event into the next state.
//!
//! Every handler is a step of a state machine. It takes what the terminal
//! reported (a key, the position of the terminal cursor, a new size),
//! changes the editor, and answers with what the caller has to show or to
//! save. What a step does is written down once, as a function from the state
//! before to the state after, and each handler is proved to compute it.

use crate::buffer::{
    empty_buffer, last_column, lemma_insert_advances, lemma_inserted_advances,
    lemma_inserted_keeps_place, lemma_remove_keeps_earlier_places,
    lemma_valid_positions_are_places, occupied_positions, rows_text, Buffer, BufferError,
    BufferType, BufferView, Mark,
};
use crate::input::{
    command_for, command_of, no_update, says_no, says_yes, Action, ActionView, Command,
    InputEvent, KeyCode, PromptStep, PromptStepView, SaveStep, SaveStepView, ScreenUpdate,
    ScreenUpdateView, TAB_SIZE,
};
use crate::movement::{
    is_valid, lemma_resolved_is_valid, lemma_resolved_stays_close, overshoots, position_valid,
    resolve, resolved,
};
use crate::text::{addresses, lemma_has_position_iff_in_rows, lemma_offset_unique};
use crate::viewport::{scroll_target, Viewport};
use vstd::prelude::*;

verus! {

/// The direction of a cursor move.
#[derive(Clone, Copy, Debug, PartialEq, Eq, Structural)]
pub enum CursorMovement {
    Up,
    Down,
    Left,
    Right,
}

/// What the keys currently mean: ordinary editing, or typing the name of
/// the file to save to.
#[derive(Clone, Copy, Debug, PartialEq, Eq, Structural)]
pub enum EditorMode {
    Normal,
    SaveMode,
}

/// How an attempt to take a file into the current buffer ended.
#[derive(Clone, Copy, Debug, PartialEq, Eq, Structural)]
pub enum LoadOutcome {
    /// No file was named; nothing changed.
    NoFile,
    /// The current buffer holds the file's text and remembers its name.
    Loaded,
    /// The editor has no current buffer; nothing changed.
    InvalidBuffer,
}

/// The state of the editor.
///
/// Buffer 0 is reserved: it is of type `OPTION`, is never saved, and is
/// the buffer in which the name of a file is typed.
#[derive(Clone, Debug, PartialEq, Eq)]
pub struct Editor {
    pub display: Viewport,
    pub exit: bool,
    pub current_buffer: usize,
    pub previous_buffer: usize,
    pub buffer_list: Vec<Buffer>,
    pub mode: EditorMode,
}

/// The state of the editor as a plain value.
pub struct EditorView {
    pub display: Viewport,
    pub exit: bool,
    pub current_buffer: usize,
    pub previous_buffer: usize,
    pub buffer_list: Seq<BufferView>,
    pub mode: EditorMode,
}

/// The buffers of a list as plain values.
pub open spec fn buffer_views(buffers: Seq<Buffer>) -> Seq<BufferView> {
    Seq::new(buffers.len(), |i: int| buffers[i]@)
}

impl View for Editor {
    type V = EditorView;

    open spec fn view(&self) -> EditorView {
        EditorView {
            display: self.display,
            exit: self.exit,
            current_buffer: self.current_buffer,
            previous_buffer: self.previous_buffer,
            buffer_list: buffer_views(self.buffer_list@),
            mode: self.mode,
        }
    }
}

/// The editor as it is when the program starts: the reserved buffer, one
/// empty buffer for the user's text, which is the current one, a viewport
/// without extent, and normal mode.
pub open spec fn initial_editor() -> EditorView {
    EditorView {
        display: Viewport { width: 0, height: 0, first_line_visible: 0 },
        exit: false,
        current_buffer: 1,
        previous_buffer: 0,
        buffer_list: seq![empty_buffer(BufferType::OPTION), empty_buffer(BufferType::NORMAL)],
        mode: EditorMode::Normal,
    }
}

/// `after` has the mode, the exit flag and the choice of buffers of
/// `before`, and every buffer but the current one is as it was.
pub open spec fn keeps_other_buffers(before: EditorView, after: EditorView) -> bool {
    &&& after.exit == before.exit
    &&& after.mode == before.mode
    &&& after.current_buffer == before.current_buffer
    &&& after.previous_buffer == before.previous_buffer
    &&& after.buffer_list.len() == before.buffer_list.len()
    &&& forall|i: int|
        0 <= i < before.buffer_list.len() && i != before.current_buffer ==> after.buffer_list[i]
            == before.buffer_list[i]
}

/// `after` differs from `before` by at most one row in what the viewport
/// shows first.
pub open spec fn scrolled_one_row_at_most(before: EditorView, after: EditorView) -> bool {
    ||| after.display.first_line_visible == before.display.first_line_visible
    ||| after.display.first_line_visible == before.display.first_line_visible + 1
    ||| after.display.first_line_visible == before.display.first_line_visible - 1
}

impl EditorView {
    /// The editor has its reserved buffer, and its current and its previous
    /// buffer exist.
    pub open spec fn has_buffers(self) -> bool {
        &&& self.buffer_list.len() >= 1
        &&& self.buffer_list[0].buffer_type == BufferType::OPTION
        &&& self.current_buffer < self.buffer_list.len()
        &&& self.previous_buffer < self.buffer_list.len()
    }

    /// The editor is in order: it has its buffers, and while the name of a
    /// file is typed the reserved buffer is the current one and the buffer
    /// to be saved is another.
    pub open spec fn wf(self) -> bool {
        &&& self.has_buffers()
        &&& self.mode == EditorMode::SaveMode ==> self.current_buffer == 0 && self.previous_buffer
            != 0
    }

    /// The buffer that the keys work on.
    pub open spec fn current(self) -> BufferView {
        self.buffer_list[self.current_buffer as int]
    }

    /// The text that the viewport shows of the current buffer.
    pub open spec fn visible_text(self) -> Seq<char> {
        rows_text(
            self.current().content,
            self.display.first_line_visible as int,
            self.display.first_line_visible + self.display.height,
        )
    }

    /// What the cursor engine sees of the current buffer.
    pub open spec fn occupied(self) -> Seq<Option<u16>> {
        occupied_positions(self.current().content)
    }

    /// The row of the buffer that row `row` of the screen shows.
    pub open spec fn buffer_row(self, row: u16) -> int {
        row + self.display.first_line_visible
    }

    /// The terminal cursor, at column `col` and row `row` of the screen,
    /// shows where the point is.
    pub open spec fn cursor_at_point(self, col: u16, row: u16) -> bool {
        self.current().point.row == self.buffer_row(row) && self.current().point.column == col
    }

    /// The editor with `buffer` in place of the current buffer.
    pub open spec fn with_current(self, buffer: BufferView) -> EditorView {
        EditorView {
            buffer_list: self.buffer_list.update(self.current_buffer as int, buffer),
            ..self
        }
    }

    /// The editor after the cursor went to row `row` and column `col` of
    /// the current buffer: the point is there, and the viewport has
    /// scrolled one row towards it where the row was out of sight.
    pub open spec fn with_cursor_at(self, row: u16, col: u16) -> EditorView {
        EditorView {
            display: Viewport {
                first_line_visible: scroll_target(
                    self.display.first_line_visible,
                    self.display.height,
                    row,
                ),
                ..self.display
            },
            ..self.with_current(self.current().with_point_at(row, col))
        }
    }

    /// The screen update that prints the visible text and puts the
    /// terminal cursor at column `col` and row `row` of the screen.
    pub open spec fn shown_with_cursor(self, col: u16, row: u16) -> ScreenUpdateView {
        ScreenUpdateView { text: Some(self.visible_text()), cursor: Some((col, row)) }
    }

    /// The screen update that prints the visible text and puts the
    /// terminal cursor where the point is: in the point's column, and in
    /// the row of the screen that shows the point's row.
    pub open spec fn shown_with_cursor_at_point(self) -> ScreenUpdateView {
        self.shown_with_cursor(
            self.current().point.column,
            (self.current().point.row - self.display.first_line_visible) as u16,
        )
    }

    /// The cursor, at column `col` and row `row` of the screen, can move
    /// in direction `movement` without leaving the rows and columns that 16
    /// bits can name.
    pub open spec fn move_in_range(self, col: u16, row: u16, movement: CursorMovement) -> bool {
        match movement {
            CursorMovement::Right => self.buffer_row(row) <= u16::MAX && col < u16::MAX,
            CursorMovement::Down => self.buffer_row(row) < u16::MAX,
            CursorMovement::Left | CursorMovement::Up => self.buffer_row(row) <= u16::MAX,
        }
    }

    /// The position that a move in direction `movement` asks for, with the
    /// cursor at column `col` and row `row` of the screen: the neighbouring
    /// column or row. Left of column 0 lies the last column that 16 bits
    /// can name, which overshoots every row that the engine clamps. Above
    /// the first row of the buffer lies nothing, and no position is asked
    /// for.
    pub open spec fn requested(self, col: u16, row: u16, movement: CursorMovement) -> Option<
        (u16, u16),
    > {
        match movement {
            CursorMovement::Right => Some((self.buffer_row(row) as u16, (col + 1) as u16)),
            CursorMovement::Left => Some(
                (
                    self.buffer_row(row) as u16,
                    if col == 0 {
                        u16::MAX
                    } else {
                        (col - 1) as u16
                    },
                ),
            ),
            CursorMovement::Down => Some(((self.buffer_row(row) + 1) as u16, col)),
            CursorMovement::Up => if self.buffer_row(row) > 0 {
                Some(((self.buffer_row(row) - 1) as u16, col))
            } else {
                None
            },
        }
    }

    /// The position to which a move in direction `movement` takes the
    /// cursor, or `None` where the cursor stays.
    pub open spec fn destination(self, col: u16, row: u16, movement: CursorMovement) -> Option<
        (u16, u16),
    > {
        match self.requested(col, row, movement) {
            Some(wanted) => resolved(self.occupied(), wanted.0, wanted.1, movement),
            None => None,
        }
    }

    /// The step of an arrow key: where the engine finds a destination, the
    /// cursor goes there and the screen shows it; else nothing changes.
    pub open spec fn after_move(self, col: u16, row: u16, movement: CursorMovement) -> (
        EditorView,
        ScreenUpdateView,
    ) {
        match self.destination(col, row, movement) {
            Some(target) => {
                let state = self.with_cursor_at(target.0, target.1);
                (state, state.shown_with_cursor_at_point())
            },
            None => (self, no_update()),
        }
    }

    /// The step of a character key: `c` is written at the point, and point
    /// and terminal cursor go one column to the right of where the terminal
    /// cursor was. Fails where the point names no place of the text.
    pub open spec fn after_char(self, c: char, col: u16, row: u16) -> Result<
        (EditorView, ScreenUpdateView),
        BufferError,
    > {
        if self.current().point_in_content() {
            let state = self.with_current(
                self.current().with_char_written(c).with_point_at(
                    self.buffer_row(row) as u16,
                    (col + 1) as u16,
                ),
            );
            Ok((state, state.shown_with_cursor((col + 1) as u16, row)))
        } else {
            Err(BufferError::PointOutsideContent)
        }
    }

    /// The step of the tab key: spaces up to the width of a tab stop are
    /// written at the point, and point and terminal cursor go that many
    /// columns to the right. Fails where the point names no place of the
    /// text.
    pub open spec fn after_tab(self, col: u16, row: u16) -> Result<
        (EditorView, ScreenUpdateView),
        BufferError,
    > {
        if self.current().point_in_content() {
            let state = self.with_current(
                self.current().with_chars_written(' ', TAB_SIZE as nat).with_point_at(
                    self.buffer_row(row) as u16,
                    (col + TAB_SIZE) as u16,
                ),
            );
            Ok((state, state.shown_with_cursor((col + TAB_SIZE) as u16, row)))
        } else {
            Err(BufferError::PointOutsideContent)
        }
    }

    /// The step of the backspace key, with the terminal cursor at column
    /// `col` and row `row` of the screen.
    ///
    /// Behind column 0 the character in front of the cursor goes, and point
    /// and cursor go one column to the left. In column 0 of a row that is
    /// not the first one the line break in front of the cursor goes, which
    /// joins the row to the one above, and the cursor goes to the column in
    /// which that row ended. At the very start nothing happens. Fails where
    /// the text has no place at the cursor.
    pub open spec fn after_backspace(self, col: u16, row: u16) -> Result<
        (EditorView, ScreenUpdateView),
        BufferError,
    > {
        let at_cursor = self.current().with_point_at(self.buffer_row(row) as u16, col);
        if col == 0 && self.buffer_row(row) == 0 {
            Ok((self, no_update()))
        } else if !at_cursor.point_in_content() {
            Err(BufferError::PointOutsideContent)
        } else if col > 0 {
            let state = self.with_current(
                at_cursor.with_char_removed().with_point_at(
                    self.buffer_row(row) as u16,
                    (col - 1) as u16,
                ),
            );
            Ok((state, state.shown_with_cursor((col - 1) as u16, row)))
        } else {
            let state = self.with_current(at_cursor.with_char_removed()).with_cursor_at(
                (self.buffer_row(row) - 1) as u16,
                last_column(self.current().content, self.buffer_row(row) - 1),
            );
            Ok((state, state.shown_with_cursor_at_point()))
        }
    }

    /// The step of the save procedure. The reserved buffer is not saved.
    /// A buffer with a file is written to it, and the editor is in normal
    /// mode. For a buffer without a file the editor remembers the buffer,
    /// turns to the reserved buffer and waits for the name of a file.
    pub open spec fn after_save(self) -> (EditorView, SaveStepView) {
        if self.current_buffer == 0 {
            (self, SaveStepView::Cleared)
        } else {
            match self.current().file_name {
                Some(name) => (
                    EditorView { mode: EditorMode::Normal, ..self },
                    SaveStepView::Write {
                        path: name,
                        content: self.current().content,
                        text: self.visible_text(),
                    },
                ),
                None => (
                    EditorView {
                        previous_buffer: self.current_buffer,
                        current_buffer: 0,
                        mode: EditorMode::SaveMode,
                        ..self
                    },
                    SaveStepView::AskFileName,
                ),
            }
        }
    }

    /// The editor after the text of the reserved buffer became the name of
    /// the file of the buffer that waits to be saved, and that buffer the
    /// current one again.
    pub open spec fn with_file_name_committed(self) -> EditorView {
        EditorView {
            buffer_list: self.buffer_list.update(
                self.previous_buffer as int,
                BufferView {
                    file_name: Some(self.buffer_list[0].content),
                    ..self.buffer_list[self.previous_buffer as int]
                },
            ),
            current_buffer: self.previous_buffer,
            previous_buffer: 0,
            ..self
        }
    }

    /// The step of the enter key, with the terminal cursor in row `row` of
    /// the screen.
    ///
    /// In normal mode a line break is written at the point, and the cursor
    /// goes to the start of the next row, the viewport following. This
    /// fails where the point names no place of the text. While the name of
    /// a file is typed, the name is committed and the save procedure takes
    /// its step.
    pub open spec fn after_enter(self, row: u16) -> Result<(EditorView, ActionView), BufferError> {
        if self.mode == EditorMode::Normal {
            if self.current().point_in_content() {
                let state = self.with_current(self.current().with_char_written('\n')).with_cursor_at(
                    (self.buffer_row(row) + 1) as u16,
                    0,
                );
                Ok((state, ActionView::Draw(state.shown_with_cursor_at_point())))
            } else {
                Err(BufferError::PointOutsideContent)
            }
        } else {
            let saved = self.with_file_name_committed().after_save();
            Ok((saved.0, ActionView::Save(saved.1)))
        }
    }

    /// The step of a new screen size: the viewport has the new size and
    /// shows the same first row. The screen is drawn again where the point
    /// names a place of the text, and the terminal cursor goes to the point
    /// where the viewport shows the point's row.
    pub open spec fn after_resize(self, width: u16, height: u16) -> (EditorView, ScreenUpdateView) {
        let state = EditorView { display: Viewport { width, height, ..self.display }, ..self };
        if state.current().point_in_content() {
            (
                state,
                ScreenUpdateView {
                    text: Some(state.visible_text()),
                    cursor: if state.display.shows(state.current().point.row) {
                        Some(
                            (
                                state.current().point.column,
                                (state.current().point.row - state.display.first_line_visible) as u16,
                            ),
                        )
                    } else {
                        None
                    },
                },
            )
        } else {
            (state, no_update())
        }
    }

    /// The step of a key while the editor asks whether to save: `Y` and `y`
    /// start the save procedure, `N` and `n` call it off and have the
    /// screen drawn again, and every other key changes nothing and leaves
    /// the question standing.
    pub open spec fn after_answer(self, code: KeyCode) -> (EditorView, PromptStepView) {
        if says_yes(code) {
            (self.after_save().0, PromptStepView::Confirmed(self.after_save().1))
        } else if says_no(code) {
            (self, PromptStepView::Cancelled { text: self.visible_text() })
        } else {
            (self, PromptStepView::Ignored)
        }
    }

    /// The cursor, at column `col` and row `row` of the screen, is where
    /// `command` can be carried out without leaving the rows and columns
    /// that 16 bits can name.
    pub open spec fn command_in_range(self, command: Command, col: u16, row: u16) -> bool {
        match command {
            Command::Insert(_) => self.buffer_row(row) <= u16::MAX && col < u16::MAX,
            Command::Move(movement) => self.move_in_range(col, row, movement),
            Command::Backspace => self.buffer_row(row) <= u16::MAX,
            Command::Enter => self.mode == EditorMode::Normal ==> self.buffer_row(row) < u16::MAX,
            Command::Tab => self.buffer_row(row) <= u16::MAX && col + TAB_SIZE <= u16::MAX,
            Command::Quit | Command::Save | Command::Ignore => true,
        }
    }

    /// The same for the command that `event` stands for.
    pub open spec fn event_in_range(self, event: InputEvent, col: u16, row: u16) -> bool {
        match event {
            InputEvent::Key { code, modifiers } => self.command_in_range(
                command_of(self.mode, code, modifiers),
                col,
                row,
            ),
            _ => true,
        }
    }

    /// The step of a command, with the terminal cursor at column `col` and
    /// row `row` of the screen.
    pub open spec fn after_command(self, command: Command, col: u16, row: u16) -> Result<
        (EditorView, ActionView),
        BufferError,
    > {
        match command {
            Command::Quit => Ok((EditorView { exit: true, ..self }, ActionView::Nothing)),
            Command::Save => Ok((self, ActionView::ConfirmSave)),
            Command::Insert(c) => match self.after_char(c, col, row) {
                Ok(step) => Ok((step.0, ActionView::Draw(step.1))),
                Err(e) => Err(e),
            },
            Command::Move(movement) => Ok(
                (
                    self.after_move(col, row, movement).0,
                    ActionView::Draw(self.after_move(col, row, movement).1),
                ),
            ),
            Command::Backspace => match self.after_backspace(col, row) {
                Ok(step) => Ok((step.0, ActionView::Draw(step.1))),
                Err(e) => Err(e),
            },
            Command::Enter => self.after_enter(row),
            Command::Tab => match self.after_tab(col, row) {
                Ok(step) => Ok((step.0, ActionView::Draw(step.1))),
                Err(e) => Err(e),
            },
            Command::Ignore => Ok((self, ActionView::Nothing)),
        }
    }

    /// The step of an event, with the terminal cursor at column `col` and
    /// row `row` of the screen.
    pub open spec fn after_event(self, event: InputEvent, col: u16, row: u16) -> Result<
        (EditorView, ActionView),
        BufferError,
    > {
        match event {
            InputEvent::Resize { width, height } => Ok(
                (
                    self.after_resize(width, height).0,
                    ActionView::Draw(self.after_resize(width, height).1),
                ),
            ),
            InputEvent::Key { code, modifiers } => self.after_command(
                command_of(self.mode, code, modifiers),
                col,
                row,
            ),
            InputEvent::Other => Ok((self, ActionView::Nothing)),
        }
    }
}

/// No step scrolls the viewport by more than one row: after any event the
/// first visible row is the one before, its neighbour above or its
/// neighbour below.
pub proof fn lemma_event_scrolls_one_row_at_most(
    state: EditorView,
    event: InputEvent,
    col: u16,
    row: u16,
)
    requires
        state.wf(),
        state.event_in_range(event, col, row),
    ensures
        state.after_event(event, col, row) matches Ok(step) ==> scrolled_one_row_at_most(
            state,
            step.0,
        ),
{
}

/// While the name of a file is typed, character keys and arrow keys work
/// on the reserved buffer alone: the editor stays in that mode with the
/// same choice of buffers, and every other buffer, the one that waits to
/// be saved among them, is as it was.
pub proof fn lemma_typing_a_file_name_spares_other_buffers(
    state: EditorView,
    command: Command,
    col: u16,
    row: u16,
)
    requires
        state.wf(),
        state.mode == EditorMode::SaveMode,
        command is Insert || command is Move,
    ensures
        state.after_command(command, col, row) matches Ok(step) ==> {
            &&& step.0.mode == EditorMode::SaveMode
            &&& step.0.current_buffer == 0
            &&& step.0.previous_buffer == state.previous_buffer
            &&& step.0.exit == state.exit
            &&& step.0.buffer_list.len() == state.buffer_list.len()
            &&& forall|i: int|
                1 <= i < state.buffer_list.len() ==> step.0.buffer_list[i] == state.buffer_list[i]
        },
        state.after_command(command, col, row) is Err ==> command is Insert,
{
}

/// The question whether to save stands until it is answered: a key that
/// is none of `Y`, `y`, `N` and `n` is ignored and changes nothing, and
/// each of those four is an answer.
pub proof fn lemma_only_answers_end_the_question(state: EditorView, code: KeyCode)
    ensures
        state.after_answer(code).1 is Ignored <==> !(code == KeyCode::Char('Y') || code
            == KeyCode::Char('y') || code == KeyCode::Char('N') || code == KeyCode::Char('n')),
        state.after_answer(code).1 is Ignored ==> state.after_answer(code).0 == state,
{
}

/// In a text that has characters an arrow key takes the point to a place
/// of the text, so that what is typed next can be written there.
pub proof fn lemma_move_lands_in_text(
    state: EditorView,
    col: u16,
    row: u16,
    movement: CursorMovement,
)
    requires
        state.wf(),
        state.current().content.len() > 0,
        state.destination(col, row, movement) is Some,
    ensures
        state.after_move(col, row, movement).0.current().point_in_content(),
{
    let wanted = state.requested(col, row, movement)->0;
    let target = state.destination(col, row, movement)->0;
    lemma_resolved_is_valid(state.occupied(), wanted.0, wanted.1, movement);
    lemma_valid_positions_are_places(state.current().content, target.0, target.1);
}

/// Editing keeps the cursor on the text. Where the point names a place of
/// the text and the terminal cursor shows it, a key that writes, removes or
/// moves is carried out, and afterwards the point again names a place of
/// the text and the terminal cursor is sent to where the point is.
///
/// An arrow key promises this on a text that has characters only: on a
/// text without any the engine takes every request as it is.
pub proof fn lemma_cursor_stays_on_the_text(
    state: EditorView,
    command: Command,
    col: u16,
    row: u16,
)
    requires
        state.wf(),
        state.command_in_range(command, col, row),
        state.current().point_in_content(),
        state.cursor_at_point(col, row),
        command is Move ==> state.current().content.len() > 0,
        command != Command::Insert('\n'),
        command is Enter ==> state.mode == EditorMode::Normal,
    ensures
        state.after_command(command, col, row) matches Ok(step) && {
            &&& step.0.current().point_in_content()
            &&& step.1 matches ActionView::Draw(update) ==> match update.cursor {
                Some(cursor) => step.0.cursor_at_point(cursor.0, cursor.1),
                None => step.0 == state,
            }
        },
{
    let buffer = state.current();
    let text = buffer.content;
    let point_row = buffer.point.row as int;
    let point_column = buffer.point.column as int;
    let place = buffer.point_place();
    assert(addresses(text, point_row, point_column, place));
    assert(state.current().with_point_at(buffer.point.row, buffer.point.column) == buffer);
    match command {
        Command::Insert(c) => {
            lemma_insert_advances(text, point_row, point_column, place, c);
            assert(state.after_command(command, col, row) matches Ok(step)
                && step.0.current().point_in_content());
        },
        Command::Tab => {
            lemma_inserted_advances(text, point_row, point_column, place, ' ', TAB_SIZE as nat);
            assert(state.after_command(command, col, row) matches Ok(step)
                && step.0.current().point_in_content());
        },
        Command::Enter => {
            lemma_insert_advances(text, point_row, point_column, place, '\n');
            assert(state.after_command(command, col, row) matches Ok(step)
                && step.0.current().point_in_content());
        },
        Command::Move(movement) => {
            if state.destination(col, row, movement) is Some {
                lemma_move_lands_in_text(state, col, row, movement);
                let wanted = state.requested(col, row, movement)->0;
                lemma_resolved_stays_close(state.occupied(), wanted.0, wanted.1, movement);
            }
        },
        Command::Backspace => {
            if !(col == 0 && point_row == 0) {
                assert(text.take(0) =~= Seq::<char>::empty());
                assert(place > 0);
                lemma_has_position_iff_in_rows(text, point_row, point_column);
                if col > 0 {
                    lemma_has_position_iff_in_rows(text, point_row, point_column - 1);
                    lemma_remove_keeps_earlier_places(text, place, point_row, point_column - 1);
                } else {
                    let landing = last_column(text, point_row - 1) as int;
                    lemma_has_position_iff_in_rows(text, point_row - 1, landing);
                    lemma_remove_keeps_earlier_places(text, place, point_row - 1, landing);
                }
                assert(state.after_command(command, col, row) matches Ok(step)
                    && step.0.current().point_in_content());
            }
        },
        _ => {},
    }
}

/// Saving a buffer whose file is not known takes two steps that end where
/// they began: the first turns to the reserved buffer, and once the name
/// is typed the enter key gives the buffer its file, has it written, and
/// makes it the current buffer again, in normal mode and with no buffer
/// remembered.
pub proof fn lemma_save_returns_to_buffer(state: EditorView, typed: EditorView, row: u16)
    requires
        state.wf(),
        state.mode == EditorMode::Normal,
        state.current_buffer != 0,
        state.current().file_name is None,
        typed.wf(),
        typed.mode == EditorMode::SaveMode,
        typed.previous_buffer == state.current_buffer,
        typed.buffer_list.len() == state.buffer_list.len(),
        typed.buffer_list[typed.previous_buffer as int] == state.current(),
    ensures
        state.after_save().0.wf(),
        state.after_save().0.mode == EditorMode::SaveMode,
        state.after_save().0.current_buffer == 0,
        state.after_save().0.previous_buffer == state.current_buffer,
        state.after_save().1 == SaveStepView::AskFileName,
        typed.after_enter(row) matches Ok(step) && {
            &&& step.0.wf()
            &&& step.0.mode == EditorMode::Normal
            &&& step.0.current_buffer == state.current_buffer
            &&& step.0.previous_buffer == 0
            &&& step.0.current().file_name == Some(typed.buffer_list[0].content)
            &&& step.0.current().content == state.current().content
            &&& step.1 == ActionView::Save(
                SaveStepView::Write {
                    path: typed.buffer_list[0].content,
                    content: state.current().content,
                    text: step.0.visible_text(),
                },
            )
        },
{
}

/// The buffers as plain values after one buffer of the list was replaced.
proof fn lemma_views_after_update(before: Seq<Buffer>, after: Seq<Buffer>, i: int)
    requires
        0 <= i < before.len(),
        after == before.update(i, after[i]),
    ensures
        buffer_views(after) == buffer_views(before).update(i, after[i]@),
{
    assert(buffer_views(after) =~= buffer_views(before).update(i, after[i]@));
}

/// A copy of a text.
fn copy_text(text: &Vec<char>) -> (copy: Vec<char>)
    ensures
        copy@ == text@,
{
    let mut copy: Vec<char> = Vec::new();
    let mut i: usize = 0;
    while i < text.len()
        invariant
            i <= text@.len(),
            copy@ == text@.take(i as int),
        decreases text@.len() - i,
    {
        copy.push(text[i]);
        assert(text@.take(i + 1) =~= text@.take(i as int).push(text@[i as int]));
        i = i + 1;
    }
    assert(text@.take(i as int) =~= text@);
    copy
}

impl Editor {
    /// The editor is in order.
    pub open spec fn wf(&self) -> bool {
        self@.wf()
    }

    /// Tells whether the editor is in order.
    pub fn is_well_formed(&self) -> (well_formed: bool)
        ensures
            well_formed == self.wf(),
    {
        self.buffer_list.len() >= 1 && matches!(self.buffer_list[0].buffer_type, BufferType::OPTION)
            && self.current_buffer < self.buffer_list.len() && self.previous_buffer
            < self.buffer_list.len() && match self.mode {
            EditorMode::Normal => true,
            EditorMode::SaveMode => self.current_buffer == 0 && self.previous_buffer != 0,
        }
    }

    /// An editor as it is when the program starts.
    pub fn default() -> (editor: Editor)
        ensures
            editor@ == initial_editor(),
            editor.wf(),
    {
        let mut buffer_list: Vec<Buffer> = Vec::new();
        buffer_list.push(Self::init_option_buffer());
        buffer_list.push(Buffer::default());
        let editor = Editor {
            display: Viewport::default(),
            exit: false,
            current_buffer: 1,
            previous_buffer: 0,
            buffer_list,
            mode: EditorMode::Normal,
        };
        proof {
            assert(editor@.buffer_list =~= initial_editor().buffer_list);
        }
        editor
    }

    /// The reserved buffer as it is when the program starts: empty, without
    /// a file, the point at the start.
    pub fn init_option_buffer() -> (buffer: Buffer)
        ensures
            buffer@ == empty_buffer(BufferType::OPTION),
    {
        let buffer = Buffer {
            content: Vec::new(),
            point: Mark::new("Point".to_owned(), 0, 0),
            mark_list: Vec::new(),
            file_name: None,
            buffer_type: BufferType::OPTION,
        };
        proof {
            assert(buffer@.mark_list =~= Seq::empty());
        }
        buffer
    }

    /// Takes the text `content` of the file named `file_path` into the
    /// current buffer, which from then on remembers the file's name.
    ///
    /// Without a file name nothing happens. Where the editor has no current
    /// buffer nothing happens either, and the outcome says so.
    pub fn init(&mut self, file_path: Option<Vec<char>>, content: Vec<char>) -> (outcome:
        LoadOutcome)
        ensures
            outcome == match file_path {
                None => LoadOutcome::NoFile,
                Some(_) => if old(self)@.current_buffer < old(self)@.buffer_list.len() {
                    LoadOutcome::Loaded
                } else {
                    LoadOutcome::InvalidBuffer
                },
            },
            outcome != LoadOutcome::Loaded ==> final(self)@ == old(self)@,
            outcome == LoadOutcome::Loaded ==> final(self)@ == old(self)@.with_current(
                (BufferView {
                    content: content@,
                    file_name: Some(file_path->0@),
                    ..old(self)@.current()
                }),
            ),
            old(self).wf() ==> final(self).wf(),
    {
        match file_path {
            Some(path) => {
                if self.current_buffer < self.buffer_list.len() {
                    let ghost before = self.buffer_list@;
                    let buffer = &mut self.buffer_list[self.current_buffer];
                    buffer.content = content;
                    buffer.file_name = Some(path);
                    proof {
                        lemma_views_after_update(
                            before,
                            self.buffer_list@,
                            self.current_buffer as int,
                        );
                    }
                    LoadOutcome::Loaded
                } else {
                    LoadOutcome::InvalidBuffer
                }
            },
            None => LoadOutcome::NoFile,
        }
    }

    /// Resolves a move of the cursor in direction `movement` to row `row`
    /// and column `col` of the current buffer.
    pub fn get_cursor_valid_position(&self, row: u16, col: u16, movement: CursorMovement) -> (target:
        Option<(u16, u16)>)
        requires
            self.wf(),
        ensures
            target == resolved(self@.occupied(), row, col, movement),
            target matches Some(place) ==> position_valid(self@.occupied(), place.0, place.1)
                && !overshoots(self@.occupied(), place.0, place.1),
    {
        let occupied = self.buffer_list[self.current_buffer].get_last_visible_char_position();
        resolve(&occupied, row, col, movement)
    }

    /// Tells whether the cursor may rest at row `row` and column `col` of
    /// the current buffer.
    pub fn is_cursor_position_valid(&self, row: u16, col: u16) -> (valid: bool)
        requires
            self.wf(),
        ensures
            valid == position_valid(self@.occupied(), row, col),
    {
        let occupied = self.buffer_list[self.current_buffer].get_last_visible_char_position();
        is_valid(&occupied, row, col)
    }

    /// The row of the buffer that is shown in row `cursor_row` of the
    /// screen while `visible_row` is the first row shown.
    pub fn get_buffer_row(cursor_row: u16, visible_row: u16) -> (row: u16)
        requires
            cursor_row + visible_row <= u16::MAX,
        ensures
            row == cursor_row + visible_row,
    {
        cursor_row + visible_row
    }

    /// The text that the screen has to show: the rows of the current buffer
    /// that lie in the viewport.
    pub fn display_current_buffer(&self) -> (text: Vec<char>)
        requires
            self@.has_buffers(),
        ensures
            text@ == self@.visible_text(),
    {
        let (start, end) = self.display.get_displayable_lines();
        self.buffer_list[self.current_buffer].get_buffer_part(start, end)
    }

    /// The text that the screen has to show again after the question
    /// whether to save was answered with no.
    pub fn handle_cancel_save(&self) -> (text: Vec<char>)
        requires
            self.wf(),
        ensures
            text@ == self@.visible_text(),
    {
        self.display_current_buffer()
    }

    /// Puts the cursor at row `row` and column `col` of the current buffer,
    /// lets the viewport follow, and says what the screen has to show.
    fn place_cursor(&mut self, row: u16, col: u16) -> (update: ScreenUpdate)
        requires
            old(self).wf(),
            row + 1 >= old(self).display.first_line_visible,
        ensures
            final(self).wf(),
            final(self)@ == old(self)@.with_cursor_at(row, col),
            update@ == final(self)@.shown_with_cursor_at_point(),
    {
        let ghost before = self.buffer_list@;
        self.display.follow(row);
        self.buffer_list[self.current_buffer].move_point_to(row, col);
        proof {
            lemma_views_after_update(before, self.buffer_list@, self.current_buffer as int);
        }
        let text = self.display_current_buffer();
        ScreenUpdate { text: Some(text), cursor: Some((col, row - self.display.first_line_visible)) }
    }

    /// Moves the cursor in direction `movement`. The terminal cursor is at
    /// column `col` and row `row` of the screen.
    ///
    /// The viewport scrolls by one row at most, and nothing changes but the
    /// viewport and the point of the current buffer.
    pub fn handle_cursor_movement(&mut self, col: u16, row: u16, movement: CursorMovement) -> (update:
        ScreenUpdate)
        requires
            old(self).wf(),
            old(self)@.move_in_range(col, row, movement),
        ensures
            final(self).wf(),
            (final(self)@, update@) == old(self)@.after_move(col, row, movement),
            scrolled_one_row_at_most(old(self)@, final(self)@),
            keeps_other_buffers(old(self)@, final(self)@),
            final(self)@.current().content == old(self)@.current().content,
    {
        let first = self.display.first_line_visible;
        let wanted = match movement {
            CursorMovement::Right => Some((row + first, col + 1)),
            CursorMovement::Left => Some(
                (
                    row + first,
                    if col == 0 {
                        u16::MAX
                    } else {
                        col - 1
                    },
                ),
            ),
            CursorMovement::Down => Some((row + first + 1, col)),
            CursorMovement::Up => if row > 0 || first > 0 {
                Some((row + first - 1, col))
            } else {
                None
            },
        };
        let target = match wanted {
            Some((wanted_row, wanted_col)) => {
                proof {
                    lemma_resolved_stays_close(
                        self@.occupied(),
                        wanted_row,
                        wanted_col,
                        movement,
                    );
                }
                self.get_cursor_valid_position(wanted_row, wanted_col, movement)
            },
            None => None,
        };
        match target {
            Some((new_row, new_col)) => self.place_cursor(new_row, new_col),
            None => ScreenUpdate::nothing(),
        }
    }

    /// Writes `c` at the point. The terminal cursor is at column `col` and
    /// row `row` of the screen; it and the point go one column to the
    /// right.
    pub fn handle_char_input(&mut self, c: char, col: u16, row: u16) -> (done: Result<
        ScreenUpdate,
        BufferError,
    >)
        requires
            old(self).wf(),
            old(self)@.command_in_range(Command::Insert(c), col, row),
        ensures
            final(self).wf(),
            match old(self)@.after_char(c, col, row) {
                Ok(step) => done matches Ok(update) && final(self)@ == step.0 && update@ == step.1,
                Err(e) => done == Err::<ScreenUpdate, BufferError>(e) && final(self)@ == old(
                    self,
                )@,
            },
            final(self).display == old(self).display,
            keeps_other_buffers(old(self)@, final(self)@),
    {
        let ghost before = self.buffer_list@;
        let first = self.display.first_line_visible;
        if self.buffer_list[self.current_buffer].point_offset().is_none() {
            return Err(BufferError::PointOutsideContent);
        }
        let buffer = &mut self.buffer_list[self.current_buffer];
        match buffer.write_char(c) {
            Ok(()) => {},
            Err(e) => {
                return Err(e);
            },
        }
        buffer.move_point_to(row + first, col + 1);
        proof {
            lemma_views_after_update(before, self.buffer_list@, self.current_buffer as int);
        }
        let text = self.display_current_buffer();
        Ok(ScreenUpdate { text: Some(text), cursor: Some((col + 1, row)) })
    }

    /// Writes the spaces of a tab stop at the point. The terminal cursor is
    /// at column `col` and row `row` of the screen; it and the point go to
    /// the right by the width of the tab stop.
    pub fn handle_tab_input(&mut self, col: u16, row: u16) -> (done: Result<
        ScreenUpdate,
        BufferError,
    >)
        requires
            old(self).wf(),
            old(self)@.command_in_range(Command::Tab, col, row),
        ensures
            final(self).wf(),
            match old(self)@.after_tab(col, row) {
                Ok(step) => done matches Ok(update) && final(self)@ == step.0 && update@ == step.1,
                Err(e) => done == Err::<ScreenUpdate, BufferError>(e) && final(self)@ == old(
                    self,
                )@,
            },
            final(self).display == old(self).display,
            keeps_other_buffers(old(self)@, final(self)@),
    {
        let ghost before = self.buffer_list@;
        let ghost start = self@.current();
        let first = self.display.first_line_visible;
        if self.buffer_list[self.current_buffer].point_offset().is_none() {
            return Err(BufferError::PointOutsideContent);
        }
        let buffer = &mut self.buffer_list[self.current_buffer];
        let mut written: u16 = 0;
        while written < TAB_SIZE
            invariant
                written <= TAB_SIZE,
                start.point_in_content(),
                buffer@ == start.with_chars_written(' ', written as nat),
            decreases TAB_SIZE - written,
        {
            proof {
                lemma_inserted_keeps_place(
                    start.content,
                    start.point.row as int,
                    start.point.column as int,
                    start.point_place(),
                    ' ',
                    written as nat,
                );
                lemma_offset_unique(
                    buffer@.content,
                    start.point.row as int,
                    start.point.column as int,
                    start.point_place(),
                );
            }
            match buffer.write_char(' ') {
                Ok(()) => {},
                Err(e) => {
                    return Err(e);
                },
            }
            written = written + 1;
        }
        buffer.move_point_to(row + first, col + TAB_SIZE);
        proof {
            lemma_views_after_update(before, self.buffer_list@, self.current_buffer as int);
        }
        let text = self.display_current_buffer();
        Ok(ScreenUpdate { text: Some(text), cursor: Some((col + TAB_SIZE, row)) })
    }

    /// Removes the character in front of the terminal cursor, which is at
    /// column `col` and row `row` of the screen. In column 0 this joins
    /// the row to the one above.
    pub fn handle_backspace_input(&mut self, col: u16, row: u16) -> (done: Result<
        ScreenUpdate,
        BufferError,
    >)
        requires
            old(self).wf(),
            old(self)@.command_in_range(Command::Backspace, col, row),
        ensures
            final(self).wf(),
            match old(self)@.after_backspace(col, row) {
                Ok(step) => done matches Ok(update) && final(self)@ == step.0 && update@ == step.1,
                Err(e) => done == Err::<ScreenUpdate, BufferError>(e) && final(self)@ == old(
                    self,
                )@,
            },
            scrolled_one_row_at_most(old(self)@, final(self)@),
            keeps_other_buffers(old(self)@, final(self)@),
    {
        let ghost before = self.buffer_list@;
        let buffer_row = row + self.display.first_line_visible;
        if col == 0 && buffer_row == 0 {
            return Ok(ScreenUpdate::nothing());
        }
        let landing = if buffer_row > 0 {
            self.buffer_list[self.current_buffer].get_last_column(buffer_row - 1)
        } else {
            0
        };
        if self.buffer_list[self.current_buffer].offset_at(buffer_row, col).is_none() {
            return Err(BufferError::PointOutsideContent);
        }
        let buffer = &mut self.buffer_list[self.current_buffer];
        buffer.move_point_to(buffer_row, col);
        match buffer.remove_char() {
            Ok(()) => {},
            Err(e) => {
                return Err(e);
            },
        }
        if col > 0 {
            buffer.move_point_to(buffer_row, col - 1);
            proof {
                lemma_views_after_update(before, self.buffer_list@, self.current_buffer as int);
            }
            let text = self.display_current_buffer();
            Ok(ScreenUpdate { text: Some(text), cursor: Some((col - 1, row)) })
        } else {
            proof {
                lemma_views_after_update(before, self.buffer_list@, self.current_buffer as int);
            }
            Ok(self.place_cursor(buffer_row - 1, landing))
        }
    }

    /// Takes a step of the save procedure.
    pub fn handle_save_file(&mut self) -> (step: SaveStep)
        requires
            old(self)@.has_buffers(),
        ensures
            final(self)@.has_buffers(),
            old(self).wf() || old(self).current_buffer != 0 ==> final(self).wf(),
            (final(self)@, step@) == old(self)@.after_save(),
    {
        if self.current_buffer == 0 {
            return SaveStep::Cleared;
        }
        let path = match &self.buffer_list[self.current_buffer].file_name {
            Some(name) => Some(copy_text(name)),
            None => None,
        };
        match path {
            Some(path) => {
                let content = copy_text(&self.buffer_list[self.current_buffer].content);
                self.mode = EditorMode::Normal;
                let text = self.display_current_buffer();
                SaveStep::Write { path, content, text }
            },
            None => {
                self.previous_buffer = self.current_buffer;
                self.current_buffer = 0;
                self.mode = EditorMode::SaveMode;
                SaveStep::AskFileName
            },
        }
    }

    /// Handles the enter key. The terminal cursor is in row `row` of the
    /// screen.
    pub fn handle_enter_input(&mut self, row: u16) -> (done: Result<Action, BufferError>)
        requires
            old(self).wf(),
            old(self)@.command_in_range(Command::Enter, 0, row),
        ensures
            final(self).wf(),
            match old(self)@.after_enter(row) {
                Ok(step) => done matches Ok(action) && final(self)@ == step.0 && action@ == step.1,
                Err(e) => done == Err::<Action, BufferError>(e) && final(self)@ == old(self)@,
            },
            scrolled_one_row_at_most(old(self)@, final(self)@),
            old(self).mode == EditorMode::SaveMode ==> done is Ok && final(self).mode
                == EditorMode::Normal && final(self).current_buffer == old(self).previous_buffer
                && final(self).previous_buffer == 0,
    {
        let ghost before = self.buffer_list@;
        match self.mode {
            EditorMode::Normal => {
                let buffer_row = row + self.display.first_line_visible;
                if self.buffer_list[self.current_buffer].point_offset().is_none() {
                    return Err(BufferError::PointOutsideContent);
                }
                let buffer = &mut self.buffer_list[self.current_buffer];
                match buffer.write_char('\n') {
                    Ok(()) => {},
                    Err(e) => {
                        return Err(e);
                    },
                }
                proof {
                    lemma_views_after_update(before, self.buffer_list@, self.current_buffer as int);
                }
                Ok(Action::Draw(self.place_cursor(buffer_row + 1, 0)))
            },
            EditorMode::SaveMode => {
                let name = copy_text(&self.buffer_list[0].content);
                let target = self.previous_buffer;
                self.buffer_list[target].file_name = Some(name);
                self.current_buffer = target;
                self.previous_buffer = 0;
                proof {
                    lemma_views_after_update(before, self.buffer_list@, target as int);
                }
                Ok(Action::Save(self.handle_save_file()))
            },
        }
    }

    /// Takes a new size of the screen.
    pub fn handle_resizing(&mut self, width: u16, height: u16) -> (update: ScreenUpdate)
        requires
            old(self).wf(),
        ensures
            final(self).wf(),
            (final(self)@, update@) == old(self)@.after_resize(width, height),
    {
        self.display.height = height;
        self.display.width = width;
        match self.buffer_list[self.current_buffer].get_point_line_and_column() {
            Some((row, col)) => {
                let text = self.display_current_buffer();
                let cursor = if self.display.is_row_visible(row) {
                    Some((col, row - self.display.first_line_visible))
                } else {
                    None
                };
                ScreenUpdate { text: Some(text), cursor }
            },
            None => ScreenUpdate::nothing(),
        }
    }

    /// Handles a key while the editor asks whether to save. Only `Y`, `y`,
    /// `N` and `n` are answers; with every other key nothing changes and
    /// the question stands.
    pub fn handle_save_mode_input(&mut self, code: KeyCode) -> (step: PromptStep)
        requires
            old(self).wf(),
        ensures
            final(self).wf(),
            (final(self)@, step@) == old(self)@.after_answer(code),
            step is Ignored <==> !says_yes(code) && !says_no(code),
            step is Ignored ==> final(self)@ == old(self)@,
    {
        match code {
            KeyCode::Char(c) => {
                if c == 'Y' || c == 'y' {
                    PromptStep::Confirmed(self.handle_save_file())
                } else if c == 'N' || c == 'n' {
                    PromptStep::Cancelled { text: self.handle_cancel_save() }
                } else {
                    PromptStep::Ignored
                }
            },
            _ => PromptStep::Ignored,
        }
    }

    /// Tells whether the terminal cursor, at column `col` and row `row` of
    /// the screen, is where `event` can be handled.
    pub fn can_handle(&self, event: InputEvent, col: u16, row: u16) -> (fits: bool)
        ensures
            fits == self@.event_in_range(event, col, row),
    {
        match event {
            InputEvent::Key { code, modifiers } => {
                let first = self.display.first_line_visible;
                let row_fits = row <= u16::MAX - first;
                match command_for(self.mode, code, modifiers) {
                    Command::Insert(_) => row_fits && col < u16::MAX,
                    Command::Move(movement) => match movement {
                        CursorMovement::Right => row_fits && col < u16::MAX,
                        CursorMovement::Down => row < u16::MAX - first,
                        CursorMovement::Left => row_fits,
                        CursorMovement::Up => row_fits,
                    },
                    Command::Backspace => row_fits,
                    Command::Enter => match self.mode {
                        EditorMode::Normal => row < u16::MAX - first,
                        EditorMode::SaveMode => true,
                    },
                    Command::Tab => row_fits && col <= u16::MAX - TAB_SIZE,
                    Command::Quit => true,
                    Command::Save => true,
                    Command::Ignore => true,
                }
            },
            _ => true,
        }
    }

    /// Handles one event from the terminal. The terminal cursor is at
    /// column `col` and row `row` of the screen.
    pub fn handle_key_events(&mut self, event: InputEvent, col: u16, row: u16) -> (done: Result<
        Action,
        BufferError,
    >)
        requires
            old(self).wf(),
            old(self)@.event_in_range(event, col, row),
        ensures
            final(self).wf(),
            match old(self)@.after_event(event, col, row) {
                Ok(step) => done matches Ok(action) && final(self)@ == step.0 && action@ == step.1,
                Err(e) => done == Err::<Action, BufferError>(e) && final(self)@ == old(self)@,
            },
            scrolled_one_row_at_most(old(self)@, final(self)@),
    {
        match event {
            InputEvent::Resize { width, height } => Ok(
                Action::Draw(self.handle_resizing(width, height)),
            ),
            InputEvent::Key { code, modifiers } => {
                match command_for(self.mode, code, modifiers) {
                    Command::Quit => {
                        self.exit = true;
                        Ok(Action::Nothing)
                    },
                    Command::Save => Ok(Action::ConfirmSave),
                    Command::Insert(c) => match self.handle_char_input(c, col, row) {
                        Ok(update) => Ok(Action::Draw(update)),
                        Err(e) => Err(e),
                    },
                    Command::Move(movement) => Ok(
                        Action::Draw(self.handle_cursor_movement(col, row, movement)),
                    ),
                    Command::Backspace => match self.handle_backspace_input(col, row) {
                        Ok(update) => Ok(Action::Draw(update)),
                        Err(e) => Err(e),
                    },
                    Command::Enter => self.handle_enter_input(row),
                    Command::Tab => match self.handle_tab_input(col, row) {
                        Ok(update) => Ok(Action::Draw(update)),
                        Err(e) => Err(e),
                    },
                    Command::Ignore => Ok(Action::Nothing),
                }
            },
            InputEvent::Other => Ok(Action::Nothing),
        }
    }
}

} // verus!
