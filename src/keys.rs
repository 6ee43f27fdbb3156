//! Key events as the trainer sees them, and the rule that maps each to an action.

use vstd::prelude::*;

verus! {

/// No modifier key held.
pub const MOD_NONE: u8 = 0;

/// Shift held.
pub const MOD_SHIFT: u8 = 1;

/// Control held.
pub const MOD_CONTROL: u8 = 2;

/// Alt held.
pub const MOD_ALT: u8 = 4;

/// The key of an event.
#[derive(Clone, Copy, Debug, PartialEq, Eq, Structural)]
pub enum KeyCode {
    Esc,
    Backspace,
    Tab,
    Enter,
    Char(char),
    Other,
}

/// Whether the key went down, auto-repeated, or came up.
#[derive(Clone, Copy, Debug, PartialEq, Eq, Structural)]
pub enum KeyEventKind {
    Press,
    Repeat,
    Release,
}

/// One key event: the key, the set of modifier bits held, and the transition.
#[derive(Clone, Copy, Debug, PartialEq, Eq, Structural)]
pub struct KeyInput {
    pub code: KeyCode,
    pub modifiers: u8,
    pub kind: KeyEventKind,
}

/// What a key event asks of the typed text.
#[derive(Clone, Copy, Debug, PartialEq, Eq, Structural)]
pub enum Action {
    Quit,
    DeleteWord,
    Clear,
    DeleteChar,
    InsertSpace,
    Insert(char),
    Ignore,
}

/// The action of a key event; the first rule that matches wins.
pub open spec fn action_of(k: KeyInput) -> Action {
    if k.kind != KeyEventKind::Press {
        Action::Ignore
    } else if k.code == KeyCode::Esc || (k.modifiers == MOD_CONTROL && k.code == KeyCode::Char(
        'c',
    )) {
        Action::Quit
    } else if (k.modifiers == MOD_ALT && k.code == KeyCode::Backspace) || (k.modifiers
        == MOD_CONTROL && k.code == KeyCode::Char('h')) {
        Action::DeleteWord
    } else {
        match k.code {
            KeyCode::Tab => Action::Clear,
            KeyCode::Backspace => Action::DeleteChar,
            KeyCode::Enter => Action::InsertSpace,
            KeyCode::Char(c) => Action::Insert(c),
            _ => Action::Ignore,
        }
    }
}

/// The action of a key event.
pub fn classify(k: &KeyInput) -> (a: Action)
    ensures
        a == action_of(*k),
{
    if k.kind != KeyEventKind::Press {
        return Action::Ignore;
    }
    let ctrl = k.modifiers == MOD_CONTROL;
    let alt = k.modifiers == MOD_ALT;
    match k.code {
        KeyCode::Esc => Action::Quit,
        KeyCode::Char(c) => {
            if ctrl && c == 'c' {
                Action::Quit
            } else if ctrl && c == 'h' {
                Action::DeleteWord
            } else {
                Action::Insert(c)
            }
        },
        KeyCode::Backspace => {
            if alt {
                Action::DeleteWord
            } else {
                Action::DeleteChar
            }
        },
        KeyCode::Tab => Action::Clear,
        KeyCode::Enter => Action::InsertSpace,
        KeyCode::Other => Action::Ignore,
    }
}

} // verus!
