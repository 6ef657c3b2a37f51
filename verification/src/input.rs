//! What reaches the editor from outside: key presses and other terminal
//! events, and the commands that they stand for.

use vstd::prelude::*;

verus! {

/// The key of a key press, as far as the editor tells keys apart.
#[derive(Clone, Copy, PartialEq, Eq, Structural, Debug)]
pub enum KeyCode {
    Backspace,
    Enter,
    Left,
    Right,
    Up,
    Down,
    Home,
    End,
    Delete,
    Esc,
    Char(char),
    /// Any key that the editor has no use for.
    Other,
}

/// The modifier keys held down during a key press.
#[derive(Clone, Copy, PartialEq, Eq, Structural, Debug)]
pub struct KeyModifiers {
    pub shift: bool,
    pub control: bool,
    pub alt: bool,
    pub logo: bool,
    pub hyper: bool,
    pub meta: bool,
}

impl KeyModifiers {
    /// Control is held down and no other modifier is.
    pub open spec fn spec_only_control(&self) -> bool {
        self.control && !self.shift && !self.alt && !self.logo && !self.hyper && !self.meta
    }

    /// Control is held down and no other modifier is.
    #[verifier::when_used_as_spec(spec_only_control)]
    pub fn only_control(&self) -> (b: bool)
        ensures
            b == self.spec_only_control(),
    {
        self.control && !self.shift && !self.alt && !self.logo && !self.hyper && !self.meta
    }
}

/// One key press.
#[derive(Clone, Copy, PartialEq, Eq, Structural, Debug)]
pub struct KeyEvent {
    pub code: KeyCode,
    pub modifiers: KeyModifiers,
}

/// One event from the terminal.
#[derive(Clone, Copy, PartialEq, Eq, Structural, Debug)]
pub enum Event {
    Key(KeyEvent),
    /// The terminal has a new size, in columns and rows.
    Resize(u16, u16),
    /// Any event that the editor has no use for.
    Other,
}

/// A request to the editor, whatever key or event it came from.
#[derive(Clone, Copy, PartialEq, Eq, Structural, Debug)]
pub enum Command {
    MoveUp(usize),
    MoveDown(usize),
    MoveLeft(usize),
    MoveRight(usize),
    Home,
    End,
    InsertChar(char),
    Newline,
    DeleteForward,
    DeleteBackward,
    Undo,
    Redo,
    OpenGoToLineDialog,
    ConfirmDialog,
    CancelDialog,
    Exit,
    /// The terminal was resized: nothing changes but the whole screen has
    /// to be drawn again.
    Resize,
}

impl Command {
    /// The command asks for the screen to be cleared and drawn afresh.
    pub open spec fn spec_requests_full_redraw(&self) -> bool {
        *self == Command::Resize
    }

    /// The command asks for the screen to be cleared and drawn afresh.
    #[verifier::when_used_as_spec(spec_requests_full_redraw)]
    pub fn requests_full_redraw(&self) -> (b: bool)
        ensures
            b == self.spec_requests_full_redraw(),
    {
        matches!(self, Command::Resize)
    }
}

/// The command that `event` stands for while a buffer is being edited, if
/// any.
///
/// With control alone held down, `g` opens the go-to-line dialog, `z`
/// undoes and `y` redoes, and no other key does anything. Otherwise the
/// modifiers are not looked at: the keys move, edit or leave, and a
/// character key types its character.
pub open spec fn editing_binding(event: Event) -> Option<Command> {
    match event {
        Event::Key(key) => if key.modifiers.only_control() {
            match key.code {
                KeyCode::Char('g') => Some(Command::OpenGoToLineDialog),
                KeyCode::Char('z') => Some(Command::Undo),
                KeyCode::Char('y') => Some(Command::Redo),
                _ => None,
            }
        } else {
            match key.code {
                KeyCode::Esc => Some(Command::Exit),
                KeyCode::Enter => Some(Command::Newline),
                KeyCode::Up => Some(Command::MoveUp(1)),
                KeyCode::Down => Some(Command::MoveDown(1)),
                KeyCode::Left => Some(Command::MoveLeft(1)),
                KeyCode::Right => Some(Command::MoveRight(1)),
                KeyCode::Delete => Some(Command::DeleteForward),
                KeyCode::Backspace => Some(Command::DeleteBackward),
                KeyCode::Home => Some(Command::Home),
                KeyCode::End => Some(Command::End),
                KeyCode::Char(ch) => Some(Command::InsertChar(ch)),
                _ => None,
            }
        },
        Event::Resize(_, _) => Some(Command::Resize),
        Event::Other => None,
    }
}

/// The command that `event` stands for while a dialog is open, if any.
/// The modifiers are not looked at.
pub open spec fn dialog_binding(event: Event) -> Option<Command> {
    match event {
        Event::Key(key) => match key.code {
            KeyCode::Esc => Some(Command::CancelDialog),
            KeyCode::Enter => Some(Command::ConfirmDialog),
            KeyCode::Left => Some(Command::MoveLeft(1)),
            KeyCode::Right => Some(Command::MoveRight(1)),
            KeyCode::Delete => Some(Command::DeleteForward),
            KeyCode::Backspace => Some(Command::DeleteBackward),
            KeyCode::Home => Some(Command::Home),
            KeyCode::End => Some(Command::End),
            KeyCode::Char(ch) => Some(Command::InsertChar(ch)),
            _ => None,
        },
        Event::Resize(_, _) => Some(Command::Resize),
        Event::Other => None,
    }
}

/// Finds the command that `event` stands for while a buffer is being
/// edited.
pub fn editing_command(event: Event) -> (command: Option<Command>)
    ensures
        command == editing_binding(event),
{
    match event {
        Event::Key(key) => if key.modifiers.only_control() {
            match key.code {
                KeyCode::Char('g') => Some(Command::OpenGoToLineDialog),
                KeyCode::Char('z') => Some(Command::Undo),
                KeyCode::Char('y') => Some(Command::Redo),
                _ => None,
            }
        } else {
            match key.code {
                KeyCode::Esc => Some(Command::Exit),
                KeyCode::Enter => Some(Command::Newline),
                KeyCode::Up => Some(Command::MoveUp(1)),
                KeyCode::Down => Some(Command::MoveDown(1)),
                KeyCode::Left => Some(Command::MoveLeft(1)),
                KeyCode::Right => Some(Command::MoveRight(1)),
                KeyCode::Delete => Some(Command::DeleteForward),
                KeyCode::Backspace => Some(Command::DeleteBackward),
                KeyCode::Home => Some(Command::Home),
                KeyCode::End => Some(Command::End),
                KeyCode::Char(ch) => Some(Command::InsertChar(ch)),
                _ => None,
            }
        },
        Event::Resize(_, _) => Some(Command::Resize),
        Event::Other => None,
    }
}

/// Finds the command that `event` stands for while a dialog is open.
pub fn dialog_command(event: Event) -> (command: Option<Command>)
    ensures
        command == dialog_binding(event),
{
    match event {
        Event::Key(key) => match key.code {
            KeyCode::Esc => Some(Command::CancelDialog),
            KeyCode::Enter => Some(Command::ConfirmDialog),
            KeyCode::Left => Some(Command::MoveLeft(1)),
            KeyCode::Right => Some(Command::MoveRight(1)),
            KeyCode::Delete => Some(Command::DeleteForward),
            KeyCode::Backspace => Some(Command::DeleteBackward),
            KeyCode::Home => Some(Command::Home),
            KeyCode::End => Some(Command::End),
            KeyCode::Char(ch) => Some(Command::InsertChar(ch)),
            _ => None,
        },
        Event::Resize(_, _) => Some(Command::Resize),
        Event::Other => None,
    }
}

} // verus!
