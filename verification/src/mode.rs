//! The editor's modes and the transitions between them: a buffer being
//! edited, or a dialog open over it. Exactly one buffer is alive at any
//! time, and it moves from mode to mode.

use crate::buffer::Buffer;
use crate::document::Document;
use crate::error::EditError;
use crate::input::{dialog_binding, dialog_command, editing_binding, editing_command, Command, Event};
use crate::modal::{LineEditor, Modal};
use crate::numeral::{is_numeral, numeral_value, parse_line_number};
use vstd::prelude::*;
use vstd::std_specs::convert::FromSpecImpl;

verus! {

impl Document {
    /// The document after a command given while it is being edited.
    /// Commands that are about something else leave it as it is.
    pub open spec fn execute(self, command: Command) -> Document {
        match command {
            Command::MoveUp(n) => self.move_up(n as nat),
            Command::MoveDown(n) => self.move_down(n as nat),
            Command::MoveLeft(n) => self.move_left(n as nat),
            Command::MoveRight(n) => self.move_right(n as nat),
            Command::Home => self.move_start_of_line(),
            Command::End => self.move_end_of_line(),
            Command::InsertChar(ch) => self.insert_char(ch),
            Command::Newline => self.newline(),
            Command::DeleteForward => self.remove_at(),
            Command::DeleteBackward => self.remove_before(),
            Command::Undo => self.undo(),
            Command::Redo => self.redo(),
            _ => self,
        }
    }

    /// The document after the dialog was confirmed with `text` in it: the
    /// cursor goes to the line that `text` numbers, if it is a number and
    /// the document has such a line, and else nothing changes.
    pub open spec fn confirm_go_to_line(self, text: Seq<char>) -> Document {
        if is_numeral(text) && self.has_line_number(numeral_value(text)) {
            self.go_to_line(numeral_value(text))
        } else {
            self
        }
    }
}

impl LineEditor {
    /// The line editor after a command given while its dialog is open.
    /// Commands that are about something else leave it as it is.
    pub open spec fn execute(self, command: Command) -> LineEditor {
        match command {
            Command::MoveLeft(n) => self.move_left(n as nat),
            Command::MoveRight(n) => self.move_right(n as nat),
            Command::Home => self.move_start_of_line(),
            Command::End => self.move_end_of_line(),
            Command::InsertChar(ch) => self.insert_char(ch),
            Command::DeleteForward => self.remove_at(),
            Command::DeleteBackward => self.remove_before(),
            _ => self,
        }
    }

    /// The line editor that the go-to-line dialog opens with.
    pub open spec fn go_to_line() -> LineEditor {
        LineEditor { name: "Go to line"@, line: Seq::empty(), col: 0 }
    }
}

/// The mathematical model of a running editor. An editor that has ended
/// has no mode: where a mode may be missing, `None` stands for it.
pub enum Mode {
    /// The buffer takes the input.
    Editing(Document),
    /// A dialog is open over the buffer and takes the input.
    Dialog(Document, LineEditor),
}

impl Mode {
    pub open spec fn well_formed(self) -> bool {
        match self {
            Mode::Editing(doc) => doc.well_formed(),
            Mode::Dialog(doc, prompt) => doc.well_formed() && prompt.well_formed(),
        }
    }

    /// The document of the mode: there is one in every mode.
    pub open spec fn document(self) -> Document {
        match self {
            Mode::Editing(doc) => doc,
            Mode::Dialog(doc, _) => doc,
        }
    }

    /// The command that `event` stands for in this mode, if any.
    pub open spec fn binding(self, event: Event) -> Option<Command> {
        match self {
            Mode::Editing(_) => editing_binding(event),
            Mode::Dialog(_, _) => dialog_binding(event),
        }
    }

    /// The mode after `command`; `None` when the editor ends.
    ///
    /// While editing, the command to open the dialog moves the document
    /// under a fresh go-to-line dialog, the command to leave ends the
    /// editor, and every other command goes to the document. While the
    /// dialog is open, leaving or cancelling gives the document back
    /// unchanged, confirming gives it back with the cursor on the line
    /// asked for, if there is one, and every other command goes to the
    /// dialog's line.
    pub open spec fn execute(self, command: Command) -> Option<Mode> {
        match self {
            Mode::Editing(doc) => match command {
                Command::OpenGoToLineDialog => Some(Mode::Dialog(doc, LineEditor::go_to_line())),
                Command::Exit => None,
                _ => Some(Mode::Editing(doc.execute(command))),
            },
            Mode::Dialog(doc, prompt) => match command {
                Command::CancelDialog | Command::Exit => Some(Mode::Editing(doc)),
                Command::ConfirmDialog => Some(Mode::Editing(doc.confirm_go_to_line(prompt.line))),
                _ => Some(Mode::Dialog(doc, prompt.execute(command))),
            },
        }
    }

    /// The mode after `event`; `None` when the editor ends. An event that
    /// stands for no command changes nothing.
    pub open spec fn step(self, event: Event) -> Option<Mode> {
        match self.binding(event) {
            Some(command) => self.execute(command),
            None => Some(self),
        }
    }
}

/// The mode in which the buffer takes the input.
#[derive(PartialEq, Eq, Debug)]
pub struct Editor {
    pub buf: Buffer,
}

/// The mode in which the go-to-line dialog takes the input.
#[derive(PartialEq, Eq, Debug)]
pub struct GoToLineModal {
    pub buf: Buffer,
    pub modal: Modal,
}

/// The editor in mode `S`.
#[derive(PartialEq, Eq, Debug)]
pub struct App<S> {
    pub mode: S,
}

/// The editor in whichever mode it is.
#[derive(PartialEq, Eq, Debug)]
pub enum AppState {
    Editor(App<Editor>),
    GoToLineModal(App<GoToLineModal>),
}

impl View for AppState {
    type V = Mode;

    open spec fn view(&self) -> Mode {
        match self {
            AppState::Editor(app) => Mode::Editing(app.mode.buf@),
            AppState::GoToLineModal(app) => Mode::Dialog(app.mode.buf@, app.mode.modal@),
        }
    }
}

impl AppState {
    pub open spec fn well_formed(&self) -> bool {
        self@.well_formed()
    }
}

/// What `next` is in the model: the mode of a running editor, or `None`
/// for one that has ended.
pub open spec fn mode_of(next: Option<AppState>) -> Option<Mode> {
    match next {
        Some(state) => Some(state@),
        None => None,
    }
}

impl FromSpecImpl<App<GoToLineModal>> for App<Editor> {
    open spec fn obeys_from_spec() -> bool {
        true
    }

    open spec fn from_spec(val: App<GoToLineModal>) -> App<Editor> {
        App { mode: Editor { buf: val.mode.buf } }
    }
}

impl From<App<GoToLineModal>> for App<Editor> {
    /// Closes the dialog: the buffer moves back, the dialog's input is
    /// dropped.
    fn from(val: App<GoToLineModal>) -> (app: App<Editor>) {
        App { mode: Editor { buf: val.mode.buf } }
    }
}

impl FromSpecImpl<App<Editor>> for App<GoToLineModal> {
    /// The dialog's input is new each time, so the result is stated in
    /// the contract of `from` and not as a function of the argument.
    open spec fn obeys_from_spec() -> bool {
        false
    }

    open spec fn from_spec(val: App<Editor>) -> App<GoToLineModal> {
        arbitrary()
    }
}

impl From<App<Editor>> for App<GoToLineModal> {
    /// Opens the go-to-line dialog: the buffer moves under a dialog with
    /// an empty input named "Go to line".
    fn from(val: App<Editor>) -> (app: App<GoToLineModal>)
        ensures
            app.mode.buf == val.mode.buf,
            app.mode.modal@ == LineEditor::go_to_line(),
    {
        App { mode: GoToLineModal { buf: val.mode.buf, modal: Modal::new("Go to line".to_owned()) } }
    }
}

impl App<Editor> {
    pub open spec fn well_formed(&self) -> bool {
        self.mode.buf.well_formed()
    }

    /// Carries out `command` on the buffer being edited, and gives the
    /// editor in its next mode, or `None` when the command ends it.
    pub fn execute(self, command: Command) -> (next: Option<AppState>)
        requires
            self.well_formed(),
        ensures
            mode_of(next) == Mode::Editing(self.mode.buf@).execute(command),
            next matches Some(state) ==> state.well_formed(),
    {
        let mut app = self;
        match command {
            Command::OpenGoToLineDialog => {
                return Some(AppState::GoToLineModal(app.into()));
            },
            Command::Exit => {
                return None;
            },
            Command::MoveUp(n) => app.mode.buf.move_cursor_up(n),
            Command::MoveDown(n) => app.mode.buf.move_cursor_down(n),
            Command::MoveLeft(n) => app.mode.buf.move_cursor_left(n),
            Command::MoveRight(n) => app.mode.buf.move_cursor_right(n),
            Command::Home => app.mode.buf.move_start_of_line(),
            Command::End => app.mode.buf.move_end_of_line(),
            Command::InsertChar(ch) => app.mode.buf.insert_char(ch),
            Command::Newline => app.mode.buf.newline(),
            Command::DeleteForward => app.mode.buf.remove_at(),
            Command::DeleteBackward => app.mode.buf.remove_before(),
            Command::Undo => app.mode.buf.undo(),
            Command::Redo => app.mode.buf.redo(),
            _ => (),
        }
        Some(AppState::Editor(app))
    }

    /// Takes one event while the buffer is being edited, and gives the
    /// editor in its next mode, or `None` when the event ends it.
    pub fn handle_input(self, event: Event) -> (next: Option<AppState>)
        requires
            self.well_formed(),
        ensures
            mode_of(next) == Mode::Editing(self.mode.buf@).step(event),
            next matches Some(state) ==> state.well_formed(),
    {
        match editing_command(event) {
            Some(command) => self.execute(command),
            None => Some(AppState::Editor(self)),
        }
    }
}

/// Carries out `command` on the input of an open dialog. A command that
/// the input has no use for changes nothing.
pub fn execute_modal_command(modal: &mut Modal, command: Command)
    requires
        old(modal).well_formed(),
    ensures
        final(modal).well_formed(),
        final(modal)@ == old(modal)@.execute(command),
{
    match command {
        Command::MoveLeft(n) => modal.move_cursor_left(n),
        Command::MoveRight(n) => modal.move_cursor_right(n),
        Command::Home => modal.move_start_of_line(),
        Command::End => modal.move_end_of_line(),
        Command::InsertChar(ch) => modal.insert_char(ch),
        Command::DeleteForward => modal.remove_at(),
        Command::DeleteBackward => modal.remove_before(),
        _ => (),
    }
}

/// Takes one event for the input of an open dialog. An event that stands
/// for no command, or for one that the input has no use for, changes
/// nothing.
pub fn handle_modal_input(modal: &mut Modal, event: Event)
    requires
        old(modal).well_formed(),
    ensures
        final(modal).well_formed(),
        final(modal)@ == match dialog_binding(event) {
            Some(command) => old(modal)@.execute(command),
            None => old(modal)@,
        },
{
    match dialog_command(event) {
        Some(command) => execute_modal_command(modal, command),
        None => (),
    }
}

impl App<GoToLineModal> {
    pub open spec fn well_formed(&self) -> bool {
        self.mode.buf.well_formed() && self.mode.modal.well_formed()
    }

    /// Closes the dialog and moves the cursor to the line whose number the
    /// dialog's input holds. The editor is back in editing mode whatever
    /// the input holds; the second part of the result says whether the
    /// cursor went to the line, and why not if it did not. The buffer is
    /// unchanged then.
    pub fn confirm(self) -> (out: (App<Editor>, Result<(), EditError>))
        requires
            self.well_formed(),
        ensures
            out.0.well_formed(),
            out.0.mode.buf@ == self.mode.buf@.confirm_go_to_line(self.mode.modal@.line),
            match out.1 {
                Ok(()) => is_numeral(self.mode.modal@.line) && self.mode.buf@.has_line_number(
                    numeral_value(self.mode.modal@.line),
                ),
                Err(EditError::MalformedLineNumber) => !(is_numeral(self.mode.modal@.line)
                    && numeral_value(self.mode.modal@.line) <= usize::MAX),
                Err(EditError::OutOfRangeLine(n)) => is_numeral(self.mode.modal@.line) && n
                    == numeral_value(self.mode.modal@.line) && !self.mode.buf@.has_line_number(
                    n as nat,
                ),
            },
    {
        let parsed = parse_line_number(&self.mode.modal.line);
        let mut app: App<Editor> = self.into();
        proof {
            app.mode.buf.lemma_line_count_bounded();
        }
        match parsed {
            Ok(line) => {
                let moved = app.mode.buf.go_to_line(line);
                (app, moved)
            },
            Err(e) => (app, Err(e)),
        }
    }

    /// Carries out `command` while the dialog is open, and gives the
    /// editor in its next mode.
    pub fn execute(self, command: Command) -> (next: Option<AppState>)
        requires
            self.well_formed(),
        ensures
            mode_of(next) == Mode::Dialog(self.mode.buf@, self.mode.modal@).execute(command),
            next matches Some(state) ==> state.well_formed(),
    {
        let mut app = self;
        match command {
            Command::CancelDialog | Command::Exit => {
                return Some(AppState::Editor(app.into()));
            },
            Command::ConfirmDialog => {
                let (editor, _) = app.confirm();
                return Some(AppState::Editor(editor));
            },
            _ => {
                execute_modal_command(&mut app.mode.modal, command);
            },
        }
        Some(AppState::GoToLineModal(app))
    }

    /// Takes one event while the dialog is open, and gives the editor in
    /// its next mode.
    pub fn handle_input(self, event: Event) -> (next: Option<AppState>)
        requires
            self.well_formed(),
        ensures
            mode_of(next) == Mode::Dialog(self.mode.buf@, self.mode.modal@).step(event),
            next matches Some(state) ==> state.well_formed(),
    {
        match dialog_command(event) {
            Some(command) => self.execute(command),
            None => Some(AppState::GoToLineModal(self)),
        }
    }
}

/// Takes one event in whichever mode the editor is, and gives the editor in
/// its next mode, or `None` when the event ends it.
pub fn handle_input(state: AppState, event: Event) -> (next: Option<AppState>)
    requires
        state.well_formed(),
    ensures
        mode_of(next) == state@.step(event),
        next matches Some(after) ==> after.well_formed(),
{
    match state {
        AppState::Editor(app) => app.handle_input(event),
        AppState::GoToLineModal(app) => app.handle_input(event),
    }
}

} // verus!
