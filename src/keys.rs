//! Key events as the engine reads them, and the bindings that turn them into
//! editing actions.

use vstd::prelude::*;

verus! {

/// The key that was pressed.
#[derive(Clone, Copy, Debug, PartialEq, Eq, Structural)]
pub enum KeyCode {
    Char(char),
    Backspace,
    Enter,
    Left,
    Right,
    Up,
    Tab,
    /// Any key that the shell does not bind.
    Other,
}

/// The modifier keys held during a key event, as one exact combination.
#[derive(Clone, Copy, Debug, PartialEq, Eq, Structural)]
pub enum Modifiers {
    /// No modifier.
    Plain,
    /// Shift alone.
    Shift,
    /// Control alone.
    Control,
    /// Any other combination.
    Other,
}

/// Whether a key went down, repeated, or came up.
#[derive(Clone, Copy, Debug, PartialEq, Eq, Structural)]
pub enum KeyKind {
    Press,
    Repeat,
    Release,
}

/// One key event from the terminal.
#[derive(Clone, Copy, Debug, PartialEq, Eq, Structural)]
pub struct KeyEvent {
    pub code: KeyCode,
    pub modifiers: Modifiers,
    pub kind: KeyKind,
}

/// What a key event asks the shell to do.
#[derive(Clone, Copy, Debug, PartialEq, Eq, Structural)]
pub enum Action {
    /// Nothing: a release, or a key that is not bound.
    Ignore,
    /// Ctrl+L: clear the history.
    ClearHistory,
    /// Ctrl+C or Ctrl+D: leave the session, or finish the input of a
    /// running command.
    Interrupt,
    /// Left: move the cursor back.
    Left,
    /// Right: move the cursor forward.
    Right,
    /// Tab: ask for completions.
    Complete,
    /// A printable character, with or without Shift.
    Insert(char),
    /// Backspace: delete a character.
    Backspace,
    /// Enter: submit the command, or start a new input line.
    Submit,
    /// Up: recall the last command of the history.
    Recall,
}

/// The binding of each key event.
pub open spec fn action_of(k: KeyEvent) -> Action {
    if k.kind == KeyKind::Release {
        Action::Ignore
    } else {
        match (k.code, k.modifiers) {
            (KeyCode::Char('l'), Modifiers::Control) => Action::ClearHistory,
            (KeyCode::Char('d'), Modifiers::Control) => Action::Interrupt,
            (KeyCode::Char('c'), Modifiers::Control) => Action::Interrupt,
            (KeyCode::Left, Modifiers::Plain) => Action::Left,
            (KeyCode::Right, Modifiers::Plain) => Action::Right,
            (KeyCode::Tab, Modifiers::Plain) => Action::Complete,
            (KeyCode::Char(c), Modifiers::Plain) => Action::Insert(c),
            (KeyCode::Char(c), Modifiers::Shift) => Action::Insert(c),
            (KeyCode::Backspace, Modifiers::Plain) => Action::Backspace,
            (KeyCode::Enter, Modifiers::Plain) => Action::Submit,
            (KeyCode::Up, Modifiers::Plain) => Action::Recall,
            _ => Action::Ignore,
        }
    }
}

impl KeyEvent {
    /// A key pressed with the given modifiers.
    pub fn new(code: KeyCode, modifiers: Modifiers) -> (r: KeyEvent)
        ensures
            r == (KeyEvent { code, modifiers, kind: KeyKind::Press }),
    {
        KeyEvent { code, modifiers, kind: KeyKind::Press }
    }

    /// What this event asks the shell to do.
    pub fn action(&self) -> (r: Action)
        ensures
            r == action_of(*self),
    {
        if let KeyKind::Release = self.kind {
            return Action::Ignore;
        }
        match (self.code, self.modifiers) {
            (KeyCode::Char('l'), Modifiers::Control) => Action::ClearHistory,
            (KeyCode::Char('d'), Modifiers::Control) => Action::Interrupt,
            (KeyCode::Char('c'), Modifiers::Control) => Action::Interrupt,
            (KeyCode::Left, Modifiers::Plain) => Action::Left,
            (KeyCode::Right, Modifiers::Plain) => Action::Right,
            (KeyCode::Tab, Modifiers::Plain) => Action::Complete,
            (KeyCode::Char(c), Modifiers::Plain) => Action::Insert(c),
            (KeyCode::Char(c), Modifiers::Shift) => Action::Insert(c),
            (KeyCode::Backspace, Modifiers::Plain) => Action::Backspace,
            (KeyCode::Enter, Modifiers::Plain) => Action::Submit,
            (KeyCode::Up, Modifiers::Plain) => Action::Recall,
            _ => Action::Ignore,
        }
    }
}

} // verus!
