//! The input surface: key, mouse-scroll, paste, resize and synthetic focus
//! events, funneled through a single event type consumed by focus traversal.

use vstd::prelude::*;

verus! {

#[derive(Clone, Copy, Debug, PartialEq, Eq, Structural)]
pub enum KeyCode {
    Enter,
    Tab,
    BackTab,
    Backspace,
    Delete,
    Left,
    Right,
    Up,
    Down,
    Esc,
    Char(char),
    F(u8),
}

/// Modifier keys held during a key event.
#[derive(Clone, Copy, Debug, PartialEq, Eq, Structural)]
pub struct KeyModifiers {
    pub shift: bool,
    pub control: bool,
    pub alt: bool,
}

impl KeyModifiers {
    pub open spec fn spec_none() -> KeyModifiers {
        KeyModifiers { shift: false, control: false, alt: false }
    }

    pub fn none() -> (r: KeyModifiers)
        ensures
            r == KeyModifiers::spec_none(),
    {
        KeyModifiers { shift: false, control: false, alt: false }
    }

    pub open spec fn is_none(self) -> bool {
        self == KeyModifiers::spec_none()
    }
}

#[derive(Clone, Copy, Debug, PartialEq, Eq, Structural)]
pub enum KeyEventKind {
    Press,
    Repeat,
    Release,
}

#[derive(Clone, Copy, Debug, PartialEq, Eq, Structural)]
pub struct KeyEvent {
    pub code: KeyCode,
    pub modifiers: KeyModifiers,
    pub kind: KeyEventKind,
}

/// Mouse scroll directions; the only mouse input the tree consumes.
#[derive(Clone, Copy, Debug, PartialEq, Eq, Structural)]
pub enum MouseScroll {
    Up,
    Down,
    Left,
    Right,
}

/// The single event type consumed by focus traversal and event dispatch.
#[derive(Clone, Debug, PartialEq)]
pub enum Event {
    Quit,
    Tick,
    Render,
    FocusGained,
    FocusLost,
    Key(KeyEvent),
    Mouse(MouseScroll),
    Paste(Vec<char>),
    Resize(u16, u16),
}

} // verus!
