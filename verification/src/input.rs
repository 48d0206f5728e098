//! Key presses and pointer events as the dialogs read them.

use vstd::prelude::*;

verus! {

/// The keys that a dialog tells apart.
#[derive(Clone, Copy, Debug, PartialEq, Eq, Structural)]
pub enum KeyCode {
    Char(char),
    Enter,
    Esc,
    Tab,
    BackTab,
    Up,
    Down,
    Left,
    Right,
    Home,
    End,
    PageUp,
    PageDown,
    Backspace,
    Delete,
    Function(u8),
    Other,
}

/// What a terminal reports of a key.
#[derive(Clone, Copy, Debug, PartialEq, Eq, Structural)]
pub enum KeyEventKind {
    Press,
    Repeat,
    Release,
}

/// The modifiers held with a key. `other` stands for all but the three named.
#[derive(Clone, Copy, Debug, PartialEq, Eq, Structural)]
pub struct Modifiers {
    pub shift: bool,
    pub control: bool,
    pub alt: bool,
    pub other: bool,
}

/// A key event.
#[derive(Clone, Copy, Debug, PartialEq, Eq, Structural)]
pub struct KeyEvent {
    pub code: KeyCode,
    pub modifiers: Modifiers,
    pub kind: KeyEventKind,
}

/// What the pointer did.
#[derive(Clone, Copy, Debug, PartialEq, Eq, Structural)]
pub enum MouseEventKind {
    LeftDown,
    ScrollUp,
    ScrollDown,
    Other,
}

impl Modifiers {
    /// No modifier but Shift is held.
    pub open spec fn plain(self) -> bool {
        !self.control && !self.alt && !self.other
    }

    /// No modifier is held.
    pub open spec fn spec_is_empty(self) -> bool {
        !self.shift && !self.control && !self.alt && !self.other
    }

    pub fn is_empty(&self) -> (r: bool)
        ensures
            r == self.spec_is_empty(),
    {
        !self.shift && !self.control && !self.alt && !self.other
    }
}

impl KeyEvent {
    /// The event stands for a key going down, first or by repetition.
    pub open spec fn spec_is_active(self) -> bool {
        self.kind == KeyEventKind::Press || self.kind == KeyEventKind::Repeat
    }

    pub fn is_active(&self) -> (r: bool)
        ensures
            r == self.spec_is_active(),
    {
        match self.kind {
            KeyEventKind::Press | KeyEventKind::Repeat => true,
            KeyEventKind::Release => false,
        }
    }
}

/// Whether a key event types its character: no modifier but Shift is held.
pub fn is_typed_char(key: &KeyEvent) -> (r: bool)
    ensures
        r == (key.code is Char && key.modifiers.plain()),
{
    match key.code {
        KeyCode::Char(_) => !key.modifiers.control && !key.modifiers.alt && !key.modifiers.other,
        _ => false,
    }
}

} // verus!
