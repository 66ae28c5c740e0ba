//! What goes into the editor and what comes out of it: input events as
//! plain values, and descriptions of what has to be shown or saved.

use crate::editor::{CursorMovement, EditorMode};
use vstd::prelude::*;

verus! {

/// The width of a tab stop: the number of spaces that the tab key writes.
pub const TAB_SIZE: u16 = 4;

/// The modifier keys held down with a key.
#[derive(Clone, Copy, Debug, PartialEq, Eq, Structural)]
pub struct KeyModifiers {
    pub shift: bool,
    pub control: bool,
    pub alt: bool,
    pub super_key: bool,
    pub hyper: bool,
    pub meta: bool,
}

/// The key that was pressed, as far as the editor tells keys apart.
#[derive(Clone, Copy, Debug, PartialEq, Eq, Structural)]
pub enum KeyCode {
    Char(char),
    Left,
    Right,
    Up,
    Down,
    Backspace,
    Enter,
    Tab,
    Other,
}

/// One event from the terminal.
#[derive(Clone, Copy, Debug, PartialEq, Eq, Structural)]
pub enum InputEvent {
    Key { code: KeyCode, modifiers: KeyModifiers },
    Resize { width: u16, height: u16 },
    Other,
}

/// What a key asks the editor to do.
#[derive(Clone, Copy, Debug, PartialEq, Eq, Structural)]
pub enum Command {
    Quit,
    Save,
    Insert(char),
    Move(CursorMovement),
    Backspace,
    Enter,
    Tab,
    Ignore,
}

/// What the screen has to show after a step.
#[derive(Debug, PartialEq, Eq)]
pub struct ScreenUpdate {
    /// With `Some`, the screen is cleared and this text is printed.
    pub text: Option<Vec<char>>,
    /// With `Some`, the terminal cursor goes to this column and row of the
    /// screen.
    pub cursor: Option<(u16, u16)>,
}

/// What is left to do after a step of the save procedure. In every case
/// the screen is cleared first.
#[derive(Debug, PartialEq, Eq)]
pub enum SaveStep {
    /// Nothing more: the reserved buffer is not saved.
    Cleared,
    /// `content` is to be written to the file `path`, then `text` is
    /// printed and the terminal cursor goes back to where it was when the
    /// save began.
    Write { path: Vec<char>, content: Vec<char>, text: Vec<char> },
    /// The prompt for a file name is to be shown, with the terminal cursor
    /// at the start of its line.
    AskFileName,
}

/// What a key does to the question whether to save.
#[derive(Debug, PartialEq, Eq)]
pub enum PromptStep {
    /// The key is no answer; the question stands.
    Ignored,
    /// The answer is no: `text` is printed and the terminal cursor goes
    /// back to where it was.
    Cancelled { text: Vec<char> },
    /// The answer is yes, and the save procedure took a step.
    Confirmed(SaveStep),
}

/// What the caller has to do after an event.
#[derive(Debug, PartialEq, Eq)]
pub enum Action {
    /// Nothing.
    Nothing,
    /// Update the screen.
    Draw(ScreenUpdate),
    /// Ask whether to save, and hand the keys that follow to
    /// `handle_save_mode_input` until one of them is an answer.
    ConfirmSave,
    /// Carry out a step of the save procedure.
    Save(SaveStep),
}

/// A screen update as a plain value.
pub struct ScreenUpdateView {
    pub text: Option<Seq<char>>,
    pub cursor: Option<(u16, u16)>,
}

/// A step of the save procedure as a plain value.
pub enum SaveStepView {
    Cleared,
    Write { path: Seq<char>, content: Seq<char>, text: Seq<char> },
    AskFileName,
}

/// A step of the question whether to save as a plain value.
pub enum PromptStepView {
    Ignored,
    Cancelled { text: Seq<char> },
    Confirmed(SaveStepView),
}

/// An action as a plain value.
pub enum ActionView {
    Nothing,
    Draw(ScreenUpdateView),
    ConfirmSave,
    Save(SaveStepView),
}

impl View for ScreenUpdate {
    type V = ScreenUpdateView;

    open spec fn view(&self) -> ScreenUpdateView {
        ScreenUpdateView {
            text: match self.text {
                Some(text) => Some(text@),
                None => None,
            },
            cursor: self.cursor,
        }
    }
}

impl View for SaveStep {
    type V = SaveStepView;

    open spec fn view(&self) -> SaveStepView {
        match self {
            SaveStep::Cleared => SaveStepView::Cleared,
            SaveStep::Write { path, content, text } => SaveStepView::Write {
                path: path@,
                content: content@,
                text: text@,
            },
            SaveStep::AskFileName => SaveStepView::AskFileName,
        }
    }
}

impl View for PromptStep {
    type V = PromptStepView;

    open spec fn view(&self) -> PromptStepView {
        match self {
            PromptStep::Ignored => PromptStepView::Ignored,
            PromptStep::Cancelled { text } => PromptStepView::Cancelled { text: text@ },
            PromptStep::Confirmed(step) => PromptStepView::Confirmed(step@),
        }
    }
}

impl View for Action {
    type V = ActionView;

    open spec fn view(&self) -> ActionView {
        match self {
            Action::Nothing => ActionView::Nothing,
            Action::Draw(update) => ActionView::Draw(update@),
            Action::ConfirmSave => ActionView::ConfirmSave,
            Action::Save(step) => ActionView::Save(step@),
        }
    }
}

/// The screen update that changes nothing.
pub open spec fn no_update() -> ScreenUpdateView {
    ScreenUpdateView { text: None, cursor: None }
}

impl ScreenUpdate {
    /// A screen update that changes nothing.
    pub fn nothing() -> (update: ScreenUpdate)
        ensures
            update@ == no_update(),
    {
        ScreenUpdate { text: None, cursor: None }
    }
}

impl KeyModifiers {
    /// No modifier key at all.
    pub open spec fn no_modifier(&self) -> bool {
        !self.shift && !self.control && !self.alt && !self.super_key && !self.hyper && !self.meta
    }

    /// The shift key and no other modifier key.
    pub open spec fn only_shift(&self) -> bool {
        self.shift && !self.control && !self.alt && !self.super_key && !self.hyper && !self.meta
    }

    /// Tells whether no modifier key is held down.
    pub fn is_empty(&self) -> (empty: bool)
        ensures
            empty == self.no_modifier(),
    {
        !self.shift && !self.control && !self.alt && !self.super_key && !self.hyper && !self.meta
    }

    /// Tells whether shift is the one modifier key held down.
    pub fn is_shift(&self) -> (shift: bool)
        ensures
            shift == self.only_shift(),
    {
        self.shift && !self.control && !self.alt && !self.super_key && !self.hyper && !self.meta
    }
}

/// What a key means in mode `mode`.
///
/// Control and `q` quits. Control and `x` starts a save, in normal mode
/// only. A character with no modifier, or with shift alone, is written.
/// The arrows move, and backspace, enter and tab do their work, whatever
/// modifiers are held. Every other key is ignored.
pub open spec fn command_of(mode: EditorMode, code: KeyCode, modifiers: KeyModifiers) -> Command {
    match code {
        KeyCode::Char(c) => if c == 'q' && modifiers.control {
            Command::Quit
        } else if c == 'x' && modifiers.control && mode == EditorMode::Normal {
            Command::Save
        } else if modifiers.no_modifier() || modifiers.only_shift() {
            Command::Insert(c)
        } else {
            Command::Ignore
        },
        KeyCode::Right => Command::Move(CursorMovement::Right),
        KeyCode::Left => Command::Move(CursorMovement::Left),
        KeyCode::Up => Command::Move(CursorMovement::Up),
        KeyCode::Down => Command::Move(CursorMovement::Down),
        KeyCode::Backspace => Command::Backspace,
        KeyCode::Enter => Command::Enter,
        KeyCode::Tab => Command::Tab,
        KeyCode::Other => Command::Ignore,
    }
}

/// A key answers yes to the question whether to save.
pub open spec fn says_yes(code: KeyCode) -> bool {
    code == KeyCode::Char('Y') || code == KeyCode::Char('y')
}

/// A key answers no to the question whether to save.
pub open spec fn says_no(code: KeyCode) -> bool {
    code == KeyCode::Char('N') || code == KeyCode::Char('n')
}

/// Decides what a key asks for in mode `mode`.
pub fn command_for(mode: EditorMode, code: KeyCode, modifiers: KeyModifiers) -> (command: Command)
    ensures
        command == command_of(mode, code, modifiers),
{
    match code {
        KeyCode::Char(c) => {
            if c == 'q' && modifiers.control {
                Command::Quit
            } else if c == 'x' && modifiers.control && matches!(mode, EditorMode::Normal) {
                Command::Save
            } else if modifiers.is_empty() || modifiers.is_shift() {
                Command::Insert(c)
            } else {
                Command::Ignore
            }
        },
        KeyCode::Right => Command::Move(CursorMovement::Right),
        KeyCode::Left => Command::Move(CursorMovement::Left),
        KeyCode::Up => Command::Move(CursorMovement::Up),
        KeyCode::Down => Command::Move(CursorMovement::Down),
        KeyCode::Backspace => Command::Backspace,
        KeyCode::Enter => Command::Enter,
        KeyCode::Tab => Command::Tab,
        KeyCode::Other => Command::Ignore,
    }
}

} // verus!
