//! What the user, or another process on the user's behalf, asks of a
//! running timer.

use vstd::prelude::*;

verus! {

/// A request to the control loop.
#[derive(Clone, Copy, Debug, PartialEq, Eq, Hash, Structural)]
pub enum InputEvent {
    /// Nothing was asked.
    Idle,
    /// End the run.
    Quit,
    /// Pause a running timer, resume a paused one.
    TogglePause,
    /// Pause the timer, if it runs.
    Pause,
    /// Resume the timer, if it is paused.
    Resume,
}

/// A key of the keyboard, as far as the timer tells keys apart.
#[derive(Clone, Copy, Debug, PartialEq, Eq, Hash, Structural)]
pub enum Key {
    /// A key that stands for a character.
    Char(char),
    /// The escape key.
    Esc,
    /// Any other key.
    Other,
}

/// What the keyboard reported of one key.
#[derive(Clone, Copy, Debug, PartialEq, Eq, Hash, Structural)]
pub struct KeyPress {
    /// The key.
    pub key: Key,
    /// Whether the control key was held down with it.
    pub ctrl: bool,
    /// Whether the key went down. A key that is held or let go is reported
    /// too, and means nothing to the timer.
    pub pressed: bool,
}

/// What a report from the keyboard asks for. `q`, the escape key and `c`
/// with the control key end the run; `p` and the space bar toggle the
/// pause. No report, a key that did not go down, and every other key ask
/// for nothing.
pub open spec fn key_event(report: Option<KeyPress>) -> InputEvent {
    match report {
        Some(press) if press.pressed => match press.key {
            Key::Esc => InputEvent::Quit,
            Key::Char(c) => if c == 'q' {
                InputEvent::Quit
            } else if c == 'c' && press.ctrl {
                InputEvent::Quit
            } else if c == 'p' || c == ' ' {
                InputEvent::TogglePause
            } else {
                InputEvent::Idle
            },
            Key::Other => InputEvent::Idle,
        },
        _ => InputEvent::Idle,
    }
}

/// Reads a request out of what the keyboard reported within the time
/// allowed, if it reported anything: see [`key_event`].
pub fn read_input(report: Option<KeyPress>) -> (event: InputEvent)
    ensures
        event == key_event(report),
{
    match report {
        Some(press) => {
            if !press.pressed {
                return InputEvent::Idle;
            }
            match press.key {
                Key::Esc => InputEvent::Quit,
                Key::Char(c) => {
                    if c == 'q' {
                        InputEvent::Quit
                    } else if c == 'c' && press.ctrl {
                        InputEvent::Quit
                    } else if c == 'p' || c == ' ' {
                        InputEvent::TogglePause
                    } else {
                        InputEvent::Idle
                    }
                },
                Key::Other => InputEvent::Idle,
            }
        },
        None => InputEvent::Idle,
    }
}

} // verus!
