//! Control from outside: the words another process may send to a named
//! timer, and the place where the timer listens for them.

use vstd::prelude::*;
use crate::input::InputEvent;
use crate::text::same_text;

verus! {

/// A word that the control client sends.
#[derive(Clone, Copy, Debug, PartialEq, Eq, PartialOrd, Ord, Hash, Structural)]
pub enum Command {
    Pause,
    Resume,
    Toggle,
    Quit,
}

impl Command {
    /// The word as it goes over the wire.
    pub open spec fn text(self) -> Seq<char> {
        match self {
            Command::Pause => "pause"@,
            Command::Resume => "resume"@,
            Command::Toggle => "toggle"@,
            Command::Quit => "quit"@,
        }
    }

    /// What the word asks of the timer.
    pub open spec fn event(self) -> InputEvent {
        match self {
            Command::Pause => InputEvent::Pause,
            Command::Resume => InputEvent::Resume,
            Command::Toggle => InputEvent::TogglePause,
            Command::Quit => InputEvent::Quit,
        }
    }

    /// The word as it goes over the wire.
    pub fn as_str(&self) -> (word: &'static str)
        ensures
            word@ == self.text(),
    {
        match self {
            Command::Pause => "pause",
            Command::Resume => "resume",
            Command::Toggle => "toggle",
            Command::Quit => "quit",
        }
    }
}

/// What a message asks of the timer: one of the four words, whole and
/// exact, or nothing that the timer knows.
pub open spec fn command_event(payload: Seq<char>) -> Option<InputEvent> {
    if payload == "pause"@ {
        Some(InputEvent::Pause)
    } else if payload == "resume"@ {
        Some(InputEvent::Resume)
    } else if payload == "toggle"@ {
        Some(InputEvent::TogglePause)
    } else if payload == "quit"@ {
        Some(InputEvent::Quit)
    } else {
        None
    }
}

/// Where a timer called `name` listens.
pub open spec fn socket_path_text(name: Seq<char>) -> Seq<char> {
    "/tmp/timerrs_"@ + name + ".sock"@
}

/// Every word of the client is understood as what it asks for. The four
/// words differ in their first letter.
pub proof fn lemma_command_understood(command: Command)
    ensures
        command_event(command.text()) == Some(command.event()),
{
    reveal_strlit("pause");
    reveal_strlit("resume");
    reveal_strlit("toggle");
    reveal_strlit("quit");
    assert("pause"@[0] == 'p');
    assert("resume"@[0] == 'r');
    assert("toggle"@[0] == 't');
    assert("quit"@[0] == 'q');
}

/// Reads a request out of a message that came in whole: see
/// [`command_event`]. A message that is none of the four words is passed
/// over.
pub fn parse_command(payload: &str) -> (event: Option<InputEvent>)
    ensures
        event == command_event(payload@),
{
    if same_text(payload, "pause") {
        Some(InputEvent::Pause)
    } else if same_text(payload, "resume") {
        Some(InputEvent::Resume)
    } else if same_text(payload, "toggle") {
        Some(InputEvent::TogglePause)
    } else if same_text(payload, "quit") {
        Some(InputEvent::Quit)
    } else {
        None
    }
}

/// The path of the socket where a timer called `name` listens.
pub fn socket_path(name: &str) -> (path: String)
    ensures
        path@ == socket_path_text(name@),
{
    let mut path = String::from_str("/tmp/timerrs_");
    path.append(name);
    path.append(".sock");
    path
}

} // verus!
