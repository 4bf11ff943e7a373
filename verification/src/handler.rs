//! The modal state machine: what a key means, and what a command does,
//! depending on whether a deletion waits to be confirmed or a rename is
//! being typed.

use vstd::prelude::*;

use crate::app::{App, Deletion};
use crate::model::{AppModel, DeletionModel};
use crate::entry::EntryKind;
use crate::input::InputModel;

verus! {

/// The keys that the browser tells apart.
#[derive(Clone, Copy, Debug, PartialEq, Eq, Structural)]
pub enum KeyCode {
    Backspace,
    Enter,
    Left,
    Right,
    Up,
    Down,
    Esc,
    Char(char),
    /// Any other key.
    Other,
}

/// The modifier keys held with a key.
#[derive(Clone, Copy, Debug, PartialEq, Eq, Structural)]
pub struct KeyModifiers {
    pub shift: bool,
    pub control: bool,
    pub alt: bool,
    pub logo: bool,
    pub hyper: bool,
    pub meta: bool,
}

impl KeyModifiers {
    /// Whether Control is held and no other modifier.
    pub open spec fn is_control(self) -> bool {
        self.control && !self.shift && !self.alt && !self.logo && !self.hyper && !self.meta
    }

    /// No modifier.
    pub fn none() -> (r: Self)
        ensures
            r == (KeyModifiers {
                shift: false,
                control: false,
                alt: false,
                logo: false,
                hyper: false,
                meta: false,
            }),
    {
        KeyModifiers {
            shift: false,
            control: false,
            alt: false,
            logo: false,
            hyper: false,
            meta: false,
        }
    }

    /// Whether Control is held and no other modifier.
    pub fn control_only(&self) -> (r: bool)
        ensures
            r == self.is_control(),
    {
        self.control && !self.shift && !self.alt && !self.logo && !self.hyper && !self.meta
    }
}

/// A key press.
#[derive(Clone, Copy, Debug, PartialEq, Eq, Structural)]
pub struct KeyEvent {
    pub code: KeyCode,
    pub modifiers: KeyModifiers,
}

/// What the user can ask of the browser.
#[derive(Clone, Copy, Debug, PartialEq, Eq, Structural)]
pub enum Command {
    Quit,
    MoveUp,
    MoveDown,
    MoveInto,
    MoveBack,
    ToggleMark,
    RequestDelete,
    ConfirmYes,
    RequestRename,
    Cancel,
    Commit,
    InsertChar(char),
    Backspace,
    Resize(u16, u16),
}

/// What the next command is read against.
#[derive(Clone, Copy, Debug, PartialEq, Eq, Structural)]
pub enum PendingAction {
    /// Nothing is pending: commands navigate.
    Normal,
    /// A deletion waits to be confirmed.
    AwaitingDeleteConfirmation,
    /// A rename is being typed.
    EditingRename,
}

/// What the event loop is to do once a command has been handled. The state
/// machine decides; reading and changing the filesystem, running the viewer
/// and laying out the screen are the event loop's part.
#[derive(Debug, PartialEq, Eq)]
pub enum Effect {
    /// Nothing.
    Nothing,
    /// Show the regular file at this path in the external viewer.
    Open(String),
    /// Read the directory at this path and hand the outcome to [`App::move_into`].
    Enter(String),
    /// Read the directory at this path, and its parent, and hand the
    /// outcomes to [`App::move_back`].
    Leave(String),
    /// Delete these entries and report to [`App::deletion_done`].
    Delete(Deletion),
    /// Rename the entry at the first path to the second. The machine does
    /// not wait for the outcome: a rename that fails is lost.
    Rename(String, String),
    /// Lay the screen out anew for this width and height.
    Resize(u16, u16),
}

/// The mathematical value of an [`Effect`].
pub enum EffectModel {
    Nothing,
    Open(Seq<char>),
    Enter(Seq<char>),
    Leave(Seq<char>),
    Delete(DeletionModel),
    Rename(Seq<char>, Seq<char>),
    Resize(u16, u16),
}

impl View for Effect {
    type V = EffectModel;

    open spec fn view(&self) -> EffectModel {
        match self {
            Effect::Nothing => EffectModel::Nothing,
            Effect::Open(path) => EffectModel::Open(path@),
            Effect::Enter(path) => EffectModel::Enter(path@),
            Effect::Leave(path) => EffectModel::Leave(path@),
            Effect::Delete(deletion) => EffectModel::Delete(deletion@),
            Effect::Rename(from, to) => EffectModel::Rename(from@, to@),
            Effect::Resize(width, height) => EffectModel::Resize(*width, *height),
        }
    }
}

/// The command that a key stands for while nothing is pending.
pub open spec fn normal_command(key: KeyEvent) -> Option<Command> {
    match key.code {
        KeyCode::Esc => Some(Command::Quit),
        KeyCode::Right => Some(Command::MoveInto),
        KeyCode::Left => Some(Command::MoveBack),
        KeyCode::Up => Some(Command::MoveUp),
        KeyCode::Down => Some(Command::MoveDown),
        KeyCode::Char(c) => if c == 'q' {
            Some(Command::Quit)
        } else if c == 'c' || c == 'C' {
            if key.modifiers.is_control() {
                Some(Command::Quit)
            } else {
                None
            }
        } else if c == 'l' {
            Some(Command::MoveInto)
        } else if c == 'h' {
            Some(Command::MoveBack)
        } else if c == 'k' {
            Some(Command::MoveUp)
        } else if c == 'j' {
            Some(Command::MoveDown)
        } else if c == ' ' {
            Some(Command::ToggleMark)
        } else if c == 'd' {
            Some(Command::RequestDelete)
        } else if c == 'r' {
            Some(Command::RequestRename)
        } else {
            None
        },
        _ => None,
    }
}

/// The command that a key stands for while a deletion waits to be
/// confirmed: `y` confirms, every other key cancels.
pub open spec fn confirm_command(key: KeyEvent) -> Option<Command> {
    match key.code {
        KeyCode::Char(c) => if c == 'y' || c == 'Y' {
            Some(Command::ConfirmYes)
        } else {
            Some(Command::Cancel)
        },
        _ => Some(Command::Cancel),
    }
}

/// The command that a key stands for while a rename is being typed.
pub open spec fn rename_command(key: KeyEvent) -> Option<Command> {
    match key.code {
        KeyCode::Esc => Some(Command::Cancel),
        KeyCode::Char(c) => Some(Command::InsertChar(c)),
        KeyCode::Right => Some(Command::MoveInto),
        KeyCode::Left => Some(Command::MoveBack),
        KeyCode::Backspace => Some(Command::Backspace),
        KeyCode::Enter => Some(Command::Commit),
        _ => None,
    }
}

/// The command that a key stands for, if it stands for one.
pub open spec fn key_command(pending: PendingAction, key: KeyEvent) -> Option<Command> {
    match pending {
        PendingAction::Normal => normal_command(key),
        PendingAction::AwaitingDeleteConfirmation => confirm_command(key),
        PendingAction::EditingRename => rename_command(key),
    }
}

/// The outcome of a step of the state machine.
pub struct Step {
    pub pending: PendingAction,
    pub app: AppModel,
    pub effect: EffectModel,
}

/// The step that a command takes while nothing is pending: it navigates,
/// marks, or asks for a deletion or a rename. A descent and a step back
/// need a directory read first, so they leave the state and say what to read.
pub open spec fn normal_step(app: AppModel, cmd: Command) -> Step {
    let stay = Step { pending: PendingAction::Normal, app, effect: EffectModel::Nothing };
    match cmd {
        Command::Quit => Step { app: AppModel { running: false, ..app }, ..stay },
        Command::MoveUp => Step { app: app.move_up(), ..stay },
        Command::MoveDown => Step { app: app.move_down(), ..stay },
        Command::MoveInto => match app.current() {
            Some(c) => if c.entry.kind == EntryKind::File {
                Step { effect: EffectModel::Open(c.entry.path), ..stay }
            } else {
                Step { effect: EffectModel::Enter(c.entry.path), ..stay }
            },
            None => stay,
        },
        Command::MoveBack => if app.path_stack.len() > 0 {
            Step { effect: EffectModel::Leave(app.path_stack.last().path), ..stay }
        } else {
            stay
        },
        Command::ToggleMark => Step { app: app.toggle_selection_on_cursor().move_down(), ..stay },
        Command::RequestDelete => Step {
            pending: PendingAction::AwaitingDeleteConfirmation,
            app: app.show_deletion_msg(),
            ..stay
        },
        Command::RequestRename => Step {
            pending: PendingAction::EditingRename,
            app: app.show_rename_msg(),
            ..stay
        },
        Command::Resize(width, height) => Step {
            effect: EffectModel::Resize(width, height),
            ..stay
        },
        _ => stay,
    }
}

/// The step that a command takes while a deletion waits to be confirmed:
/// the confirmation has the deletion done, every other command drops it;
/// either way the message goes and nothing is pending any more.
pub open spec fn confirm_step(app: AppModel, cmd: Command) -> Step {
    Step {
        pending: PendingAction::Normal,
        app: AppModel { message: None, ..app },
        effect: match cmd {
            Command::ConfirmYes => match app.deletion() {
                DeletionModel::Nothing => EffectModel::Nothing,
                deletion => EffectModel::Delete(deletion),
            },
            _ => EffectModel::Nothing,
        },
    }
}

/// The step that a command takes while a rename is being typed: it edits
/// the buffer, or ends the typing with or without the rename.
pub open spec fn rename_step(app: AppModel, cmd: Command) -> Step {
    let stay = Step { pending: PendingAction::EditingRename, app, effect: EffectModel::Nothing };
    let done = Step {
        pending: PendingAction::Normal,
        app: AppModel { message: None, ..app.without_input() },
        effect: EffectModel::Nothing,
    };
    match cmd {
        Command::InsertChar(c) => Step { app: app.insert_char(c), ..stay },
        Command::Backspace => Step { app: app.delete_char(), ..stay },
        Command::MoveInto => Step { app: app.move_input_cursor(true), ..stay },
        Command::MoveBack => Step { app: app.move_input_cursor(false), ..stay },
        Command::Cancel => done,
        Command::Commit => match app.rename_request() {
            Some((from, to)) => Step { effect: EffectModel::Rename(from, to), ..done },
            None => done,
        },
        Command::Resize(width, height) => Step {
            effect: EffectModel::Resize(width, height),
            ..stay
        },
        _ => stay,
    }
}

/// The step that a command takes.
pub open spec fn step(pending: PendingAction, app: AppModel, cmd: Command) -> Step {
    match pending {
        PendingAction::Normal => normal_step(app, cmd),
        PendingAction::AwaitingDeleteConfirmation => confirm_step(app, cmd),
        PendingAction::EditingRename => rename_step(app, cmd),
    }
}

/// The step that a key takes: that of its command, and none where it
/// stands for no command.
pub open spec fn key_step(pending: PendingAction, app: AppModel, key: KeyEvent) -> Step {
    match key_command(pending, key) {
        Some(cmd) => step(pending, app, cmd),
        None => Step { pending, app, effect: EffectModel::Nothing },
    }
}

/// A buffer is there only while a rename is being typed: where that holds
/// before a step, it holds after it.
pub proof fn lemma_buffer_only_while_renaming(pending: PendingAction, app: AppModel, cmd: Command)
    requires
        app.input is Some ==> pending == PendingAction::EditingRename,
    ensures
        step(pending, app, cmd).app.input is Some ==> step(pending, app, cmd).pending
            == PendingAction::EditingRename,
{
}

/// Asking for a rename with the cursor on an entry starts the typing with
/// an empty buffer and keeps the path of that entry.
pub proof fn lemma_rename_is_for_cursor_entry(app: AppModel)
    requires
        app.current() is Some,
    ensures
        step(PendingAction::Normal, app, Command::RequestRename).pending
            == PendingAction::EditingRename,
        step(PendingAction::Normal, app, Command::RequestRename).app.input == Some(
            InputModel::empty(),
        ),
        step(PendingAction::Normal, app, Command::RequestRename).app.rename_target == Some(
            app.current()->Some_0.entry.path,
        ),
{
}

/// While a rename is being typed no command changes the path that the
/// rename is for, nor takes the buffer away.
pub proof fn lemma_rename_target_is_kept(app: AppModel, cmd: Command)
    requires
        step(PendingAction::EditingRename, app, cmd).pending == PendingAction::EditingRename,
    ensures
        step(PendingAction::EditingRename, app, cmd).app.rename_target == app.rename_target,
        step(PendingAction::EditingRename, app, cmd).app.input is Some <==> app.input is Some,
{
}

/// A commit ends the typing of a rename: nothing is pending, no buffer is
/// left, the message is gone, and the rename asked for is that of the path
/// kept to the text typed.
pub proof fn lemma_commit_ends_rename(app: AppModel)
    ensures
        step(PendingAction::EditingRename, app, Command::Commit).pending == PendingAction::Normal,
        step(PendingAction::EditingRename, app, Command::Commit).app.input is None,
        step(PendingAction::EditingRename, app, Command::Commit).app.message is None,
        app.rename_target is Some && app.input is Some ==> step(
            PendingAction::EditingRename,
            app,
            Command::Commit,
        ).effect == EffectModel::Rename(app.rename_target->Some_0, app.input->Some_0.content),
{
}

/// Whatever is answered to the question whether to delete, the question is
/// over: nothing is pending, the message is gone, and only the answer yes
/// has anything deleted.
pub proof fn lemma_confirmation_ends(app: AppModel, cmd: Command)
    ensures
        step(PendingAction::AwaitingDeleteConfirmation, app, cmd).pending == PendingAction::Normal,
        step(PendingAction::AwaitingDeleteConfirmation, app, cmd).app.message is None,
        cmd != Command::ConfirmYes ==> step(
            PendingAction::AwaitingDeleteConfirmation,
            app,
            cmd,
        ).effect == EffectModel::Nothing,
        step(PendingAction::AwaitingDeleteConfirmation, app, cmd).app.selections == app.selections,
{
}

/// The modal state machine.
#[derive(Debug)]
pub struct KeyHandler {
    pending: PendingAction,
}

impl View for KeyHandler {
    type V = PendingAction;

    closed spec fn view(&self) -> PendingAction {
        self.pending
    }
}

impl Default for KeyHandler {
    fn default() -> (r: Self)
        ensures
            r@ == PendingAction::Normal,
    {
        KeyHandler { pending: PendingAction::Normal }
    }
}

impl KeyHandler {
    /// A machine with nothing pending.
    pub fn new() -> (r: Self)
        ensures
            r@ == PendingAction::Normal,
    {
        KeyHandler { pending: PendingAction::Normal }
    }

    /// What the next command is read against.
    pub fn pending(&self) -> (r: PendingAction)
        ensures
            r == self@,
    {
        self.pending
    }

    /// The command that `key` stands for now, if it stands for one.
    pub fn command_for(&self, key: &KeyEvent) -> (r: Option<Command>)
        ensures
            r == key_command(self@, *key),
    {
        match self.pending {
            PendingAction::Normal => match key.code {
                KeyCode::Esc => Some(Command::Quit),
                KeyCode::Right => Some(Command::MoveInto),
                KeyCode::Left => Some(Command::MoveBack),
                KeyCode::Up => Some(Command::MoveUp),
                KeyCode::Down => Some(Command::MoveDown),
                KeyCode::Char(c) => if c == 'q' {
                    Some(Command::Quit)
                } else if c == 'c' || c == 'C' {
                    if key.modifiers.control_only() {
                        Some(Command::Quit)
                    } else {
                        None
                    }
                } else if c == 'l' {
                    Some(Command::MoveInto)
                } else if c == 'h' {
                    Some(Command::MoveBack)
                } else if c == 'k' {
                    Some(Command::MoveUp)
                } else if c == 'j' {
                    Some(Command::MoveDown)
                } else if c == ' ' {
                    Some(Command::ToggleMark)
                } else if c == 'd' {
                    Some(Command::RequestDelete)
                } else if c == 'r' {
                    Some(Command::RequestRename)
                } else {
                    None
                },
                _ => None,
            },
            PendingAction::AwaitingDeleteConfirmation => match key.code {
                KeyCode::Char(c) => if c == 'y' || c == 'Y' {
                    Some(Command::ConfirmYes)
                } else {
                    Some(Command::Cancel)
                },
                _ => Some(Command::Cancel),
            },
            PendingAction::EditingRename => match key.code {
                KeyCode::Esc => Some(Command::Cancel),
                KeyCode::Char(c) => Some(Command::InsertChar(c)),
                KeyCode::Right => Some(Command::MoveInto),
                KeyCode::Left => Some(Command::MoveBack),
                KeyCode::Backspace => Some(Command::Backspace),
                KeyCode::Enter => Some(Command::Commit),
                _ => None,
            },
        }
    }

    /// Handles a key: finds the command it stands for and takes its step;
    /// see [`key_step`].
    pub fn handle_key_events(&mut self, key_event: KeyEvent, app: &mut App) -> (r: Effect)
        ensures
            (Step { pending: final(self)@, app: final(app)@, effect: r@ }) == key_step(
                old(self)@,
                old(app)@,
                key_event,
            ),
            r matches Effect::Delete(Deletion::Marked(paths)) ==> paths.deep_view().no_duplicates(),
    {
        match self.command_for(&key_event) {
            Some(cmd) => self.handle_command(cmd, app),
            None => Effect::Nothing,
        }
    }

    /// Handles a command: takes its step; see [`step`].
    pub fn handle_command(&mut self, cmd: Command, app: &mut App) -> (r: Effect)
        ensures
            (Step { pending: final(self)@, app: final(app)@, effect: r@ }) == step(
                old(self)@,
                old(app)@,
                cmd,
            ),
            r matches Effect::Delete(Deletion::Marked(paths)) ==> paths.deep_view().no_duplicates(),
    {
        match self.pending {
            PendingAction::Normal => self.handle_normal_mode(cmd, app),
            PendingAction::AwaitingDeleteConfirmation => self.handle_action(cmd, app),
            PendingAction::EditingRename => self.handle_input(cmd, app),
        }
    }

    /// Takes the step of a command while nothing is pending.
    fn handle_normal_mode(&mut self, cmd: Command, app: &mut App) -> (r: Effect)
        requires
            old(self)@ == PendingAction::Normal,
        ensures
            (Step { pending: final(self)@, app: final(app)@, effect: r@ }) == normal_step(
                old(app)@,
                cmd,
            ),
            !(r is Delete),
    {
        match cmd {
            Command::Quit => {
                app.quit();
                Effect::Nothing
            },
            Command::MoveUp => {
                app.move_up();
                Effect::Nothing
            },
            Command::MoveDown => {
                app.move_down();
                Effect::Nothing
            },
            Command::MoveInto => match app.current() {
                Some(c) => if c.entry.is_file() {
                    Effect::Open(c.entry.path)
                } else {
                    Effect::Enter(c.entry.path)
                },
                None => Effect::Nothing,
            },
            Command::MoveBack => {
                let n = app.path_stack.len();
                if n > 0 {
                    Effect::Leave(app.path_stack[n - 1].path.clone())
                } else {
                    Effect::Nothing
                }
            },
            Command::ToggleMark => {
                app.toggle_selection_on_cursor();
                app.move_down();
                Effect::Nothing
            },
            Command::RequestDelete => {
                self.pending = PendingAction::AwaitingDeleteConfirmation;
                app.show_deletion_msg();
                Effect::Nothing
            },
            Command::RequestRename => {
                self.pending = PendingAction::EditingRename;
                app.show_rename_msg();
                Effect::Nothing
            },
            Command::Resize(width, height) => Effect::Resize(width, height),
            _ => Effect::Nothing,
        }
    }

    /// Takes the step of a command while a deletion waits to be confirmed.
    fn handle_action(&mut self, cmd: Command, app: &mut App) -> (r: Effect)
        requires
            old(self)@ == PendingAction::AwaitingDeleteConfirmation,
        ensures
            (Step { pending: final(self)@, app: final(app)@, effect: r@ }) == confirm_step(
                old(app)@,
                cmd,
            ),
            r matches Effect::Delete(Deletion::Marked(paths)) ==> paths.deep_view().no_duplicates(),
    {
        self.pending = PendingAction::Normal;
        let effect = match cmd {
            Command::ConfirmYes => match app.delete_selection_or_cursor() {
                Deletion::Nothing => Effect::Nothing,
                deletion => Effect::Delete(deletion),
            },
            _ => Effect::Nothing,
        };
        app.clear_msg();
        effect
    }

    /// Takes the step of a command while a rename is being typed.
    fn handle_input(&mut self, cmd: Command, app: &mut App) -> (r: Effect)
        requires
            old(self)@ == PendingAction::EditingRename,
        ensures
            (Step { pending: final(self)@, app: final(app)@, effect: r@ }) == rename_step(
                old(app)@,
                cmd,
            ),
            !(r is Delete),
    {
        match cmd {
            Command::InsertChar(c) => {
                app.insert_char(c);
                Effect::Nothing
            },
            Command::Backspace => {
                app.delete_char();
                Effect::Nothing
            },
            Command::MoveInto => {
                app.move_input_cursor(true);
                Effect::Nothing
            },
            Command::MoveBack => {
                app.move_input_cursor(false);
                Effect::Nothing
            },
            Command::Cancel => {
                self.pending = PendingAction::Normal;
                app.cancel_input();
                app.clear_msg();
                Effect::Nothing
            },
            Command::Commit => {
                self.pending = PendingAction::Normal;
                let request = app.terminate_input();
                app.clear_msg();
                match request {
                    Some((from, to)) => Effect::Rename(from, to),
                    None => Effect::Nothing,
                }
            },
            Command::Resize(width, height) => Effect::Resize(width, height),
            _ => Effect::Nothing,
        }
    }
}

} // verus!
