use vstd::prelude::*;

verus! {

/// The key of a key event, as far as the client tells keys apart.
#[derive(Debug, Clone, Copy, PartialEq, Eq, Structural)]
pub enum KeyCode {
    Char(char),
    Backspace,
    Enter,
    Esc,
    /// Any other key; no component acts on it.
    Other,
}

/// Whether a key event is a press, a repeat of a held key, or a release.
#[derive(Debug, Clone, Copy, PartialEq, Eq, Structural)]
pub enum KeyEventKind {
    Press,
    Repeat,
    Release,
}

/// A key event: the key, whether Control was held, and the kind of event.
#[derive(Debug, Clone, Copy, PartialEq, Eq, Structural)]
pub struct KeyEvent {
    pub code: KeyCode,
    pub ctrl: bool,
    pub kind: KeyEventKind,
}

impl KeyEvent {
    /// A key pressed without Control.
    pub fn plain(code: KeyCode) -> (r: KeyEvent)
        ensures
            r == (KeyEvent { code, ctrl: false, kind: KeyEventKind::Press }),
    {
        KeyEvent { code, ctrl: false, kind: KeyEventKind::Press }
    }

    /// A key pressed with Control held.
    pub fn with_ctrl(code: KeyCode) -> (r: KeyEvent)
        ensures
            r == (KeyEvent { code, ctrl: true, kind: KeyEventKind::Press }),
    {
        KeyEvent { code, ctrl: true, kind: KeyEventKind::Press }
    }

    /// Whether this event is Control held with the char `c`.
    pub fn is_ctrl_char(&self, c: char) -> (r: bool)
        ensures
            r == (self.ctrl && self.code == KeyCode::Char(c)),
    {
        self.ctrl && match self.code {
            KeyCode::Char(d) => d == c,
            _ => false,
        }
    }

    /// Whether this event is the plain char `c`, Control held or not.
    pub fn is_char(&self, c: char) -> (r: bool)
        ensures
            r == (self.code == KeyCode::Char(c)),
    {
        match self.code {
            KeyCode::Char(d) => d == c,
            _ => false,
        }
    }
}

} // verus!
