//! The input events of the log viewer, as far as it tells them apart, and
//! what each of them asks for.

use vstd::prelude::*;

verus! {

/// The key of a key event, as far as the viewer tells keys apart.
#[derive(Debug, Clone, Copy, PartialEq, Eq, Structural)]
pub enum KeyCode {
    /// A character key.
    Char(char),
    /// The left arrow.
    Left,
    /// The right arrow.
    Right,
    /// Any other key.
    Other,
}

/// What happened to the key.
#[derive(Debug, Clone, Copy, PartialEq, Eq, Structural)]
pub enum KeyKind {
    Press,
    Repeat,
    Release,
}

/// The modifier keys held down with a key.
#[derive(Debug, Clone, Copy, PartialEq, Eq, Structural)]
pub struct Modifiers {
    pub shift: bool,
    pub control: bool,
    pub alt: bool,
    pub super_key: bool,
    pub hyper: bool,
    pub meta: bool,
}

/// One key event.
#[derive(Debug, Clone, Copy, PartialEq, Eq, Structural)]
pub struct Key {
    pub code: KeyCode,
    pub modifiers: Modifiers,
    pub kind: KeyKind,
}

/// One input event.
#[derive(Debug, Clone, Copy, PartialEq, Eq, Structural)]
pub enum Event {
    /// A key event.
    Key(Key),
    /// Anything else: the mouse, the focus, a new size, pasted text.
    Other,
}

/// What an event asks of the viewer.
#[derive(Debug, Clone, Copy, PartialEq, Eq, Structural)]
pub enum Command {
    /// Leave the viewer.
    Stop,
    /// Show the next format.
    NextFormat,
    /// Show the format before.
    PreviousFormat,
    /// Change nothing, only repaint.
    Refresh,
}

/// Tells whether the control key alone is held down.
pub open spec fn only_control(modifiers: Modifiers) -> bool {
    &&& modifiers.control
    &&& !modifiers.shift
    &&& !modifiers.alt
    &&& !modifiers.super_key
    &&& !modifiers.hyper
    &&& !modifiers.meta
}

/// What `event` asks for: `c` with the control key alone interrupts,
/// whatever happened to the key; a press of the right or the left arrow
/// switches the format, whatever modifiers are held; everything else only
/// repaints.
pub open spec fn command_of(event: Event) -> Command {
    match event {
        Event::Key(key) => if key.code == KeyCode::Char('c') && only_control(key.modifiers) {
            Command::Stop
        } else if key.code == KeyCode::Right && key.kind == KeyKind::Press {
            Command::NextFormat
        } else if key.code == KeyCode::Left && key.kind == KeyKind::Press {
            Command::PreviousFormat
        } else {
            Command::Refresh
        },
        Event::Other => Command::Refresh,
    }
}

/// What `event` asks of the viewer.
pub fn classify(event: Event) -> (r: Command)
    ensures
        r == command_of(event),
{
    match event {
        Event::Key(key) => {
            let m = key.modifiers;
            let control_alone = m.control && !m.shift && !m.alt && !m.super_key && !m.hyper
                && !m.meta;
            match (key.code, key.kind) {
                (KeyCode::Char(c), _) => if c == 'c' && control_alone {
                    Command::Stop
                } else {
                    Command::Refresh
                },
                (KeyCode::Right, KeyKind::Press) => Command::NextFormat,
                (KeyCode::Left, KeyKind::Press) => Command::PreviousFormat,
                _ => Command::Refresh,
            }
        },
        Event::Other => Command::Refresh,
    }
}

} // verus!
