//! Keyboard and mouse input, and where things are on the screen.

use vstd::prelude::*;

verus! {

/// A key, as far as any screen tells keys apart.
#[derive(Debug, Clone, Copy, PartialEq, Eq, Structural)]
pub enum KeyCode {
    Char(char),
    Up,
    Down,
    Left,
    Right,
    Enter,
    Esc,
    Backspace,
    PageUp,
    PageDown,
    Other,
}

/// A key that was pressed, and whether with the control key.
#[derive(Debug, Clone, Copy, PartialEq, Eq, Structural)]
pub struct KeyEvent {
    pub code: KeyCode,
    pub ctrl: bool,
}

#[derive(Debug, Clone, Copy, PartialEq, Eq, Structural)]
pub enum MouseButton {
    Left,
    Other,
}

#[derive(Debug, Clone, Copy, PartialEq, Eq, Structural)]
pub enum MouseEventKind {
    Down(MouseButton),
    Drag(MouseButton),
    ScrollUp,
    ScrollDown,
    Other,
}

/// What the mouse did, and where on the terminal.
#[derive(Debug, Clone, Copy, PartialEq, Eq, Structural)]
pub struct MouseEvent {
    pub kind: MouseEventKind,
    pub column: u16,
    pub row: u16,
}

/// A part of the terminal.
#[derive(Debug, Clone, Copy, PartialEq, Eq, Structural)]
pub struct Rect {
    pub x: u16,
    pub y: u16,
    pub width: u16,
    pub height: u16,
}

impl Default for Rect {
    fn default() -> (r: Self)
        ensures
            r == (Rect { x: 0, y: 0, width: 0, height: 0 }),
    {
        Rect { x: 0, y: 0, width: 0, height: 0 }
    }
}

/// How far a table is scrolled, and which of its rows is selected.
#[derive(Debug, Clone, Copy, PartialEq, Eq, Structural)]
pub struct TableState {
    pub offset: usize,
    pub selected: Option<usize>,
}

impl Default for TableState {
    fn default() -> (r: Self)
        ensures
            r == (TableState { offset: 0, selected: None }),
    {
        TableState { offset: 0, selected: None }
    }
}

} // verus!
