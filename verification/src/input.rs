//! What the keys do.

use vstd::prelude::*;
use crate::app::App;
use crate::session::{Operation, SessionModel};

verus! {

/// A key press, as far as the quiz tells keys apart.
#[derive(Clone, Copy, Debug, PartialEq, Eq)]
pub enum Key {
    Char(char),
    Up,
    Down,
    Enter,
    /// Any other key.
    Other,
}

/// What a key press asks for.
#[derive(Clone, Copy, Debug, PartialEq, Eq)]
pub enum Command {
    /// Leave the quiz.
    Quit,
    /// Change the session by this operation.
    Apply(Operation),
    /// Nothing: the key has no meaning here.
    Ignore,
}

/// `q` leaves; the down and up arrows move the highlight; Enter scores the
/// highlighted option; every other key is ignored.
pub open spec fn command_of(key: Key) -> Command {
    match key {
        Key::Char(c) => if c == 'q' {
            Command::Quit
        } else {
            Command::Ignore
        },
        Key::Down => Command::Apply(Operation::NextOption),
        Key::Up => Command::Apply(Operation::PreviousOption),
        Key::Enter => Command::Apply(Operation::CheckAnswer),
        Key::Other => Command::Ignore,
    }
}

/// The session after a command: only `Apply` changes it.
pub open spec fn after_command(s: SessionModel, command: Command) -> SessionModel {
    match command {
        Command::Apply(op) => s.apply(op),
        _ => s,
    }
}

/// What `key` asks for.
pub fn command_for(key: Key) -> (command: Command)
    ensures
        command == command_of(key),
{
    match key {
        Key::Char(c) => {
            if c == 'q' {
                Command::Quit
            } else {
                Command::Ignore
            }
        },
        Key::Down => Command::Apply(Operation::NextOption),
        Key::Up => Command::Apply(Operation::PreviousOption),
        Key::Enter => Command::Apply(Operation::CheckAnswer),
        Key::Other => Command::Ignore,
    }
}

/// Handles one key press: changes the session as the key asks and says
/// whether the quiz is to end.
pub fn handle_key(app: &mut App, key: Key) -> (quit: bool)
    requires
        old(app).wf(),
        key == Key::Enter ==> old(app).can_count(),
    ensures
        quit <==> command_of(key) == Command::Quit,
        final(app)@ == after_command(old(app)@, command_of(key)),
        final(app).questions == old(app).questions,
        final(app).wf(),
        old(app).score <= old(app).total_attempted ==> final(app).score
            <= final(app).total_attempted,
{
    match command_for(key) {
        Command::Quit => true,
        Command::Apply(op) => {
            app.apply(op);
            false
        },
        Command::Ignore => false,
    }
}

} // verus!
