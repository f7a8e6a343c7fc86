//! The keys of the stopwatch board and what each of them asks for.

use vstd::prelude::*;

verus! {

/// The modifier keys held down with a key.
#[derive(Clone, Copy, Debug, PartialEq, Eq, Structural)]
pub enum Modifiers {
    /// No modifier key.
    Plain,
    /// Shift alone.
    Shift,
    /// Control alone.
    Control,
    /// Any other modifier key, or several at once.
    Other,
}

/// What a key press can ask for.
#[derive(Clone, Copy, Debug, PartialEq, Eq, Structural)]
pub enum Command {
    /// Leave the program.
    Quit,
    /// Start the stopwatch in use if it stands, stop it if it runs.
    Toggle,
    /// Set the stopwatch in use back to zero.
    Reset,
    /// Take back the last change to the stopwatch in use.
    Undo,
    /// Make the change again that was taken back last.
    Redo,
    /// Bring back the stack that was deleted last.
    RestoreStack,
    /// Put a new stack below the one in use and go to it.
    NewStackBelow,
    /// Put a new stack in the place of the one in use, which moves down.
    NewStackAbove,
    /// Go to the next stack, from the last to the first.
    NextStack,
    /// Go to the stack before, from the first to the last.
    PreviousStack,
    /// Delete the stack in use, unless it is the only one.
    DeleteStack,
}

/// What became of a command.
#[derive(Clone, Copy, Debug, PartialEq, Eq, Structural)]
pub enum Effect {
    /// The program is to end.
    Quit,
    /// The board is to be written down again.
    Changed,
    /// Nothing to write down.
    Unchanged,
}

/// The key bindings.
pub open spec fn binding(key: char, modifiers: Modifiers) -> Option<Command> {
    match modifiers {
        Modifiers::Plain => {
            if key == 'q' {
                Some(Command::Quit)
            } else if key == ' ' {
                Some(Command::Toggle)
            } else if key == 'r' {
                Some(Command::Reset)
            } else if key == 'u' {
                Some(Command::Undo)
            } else if key == 'o' {
                Some(Command::NewStackBelow)
            } else if key == 'j' {
                Some(Command::NextStack)
            } else if key == 'k' {
                Some(Command::PreviousStack)
            } else if key == 'd' {
                Some(Command::DeleteStack)
            } else {
                None
            }
        },
        Modifiers::Control => {
            if key == 'c' {
                Some(Command::Quit)
            } else if key == 'r' {
                Some(Command::Redo)
            } else {
                None
            }
        },
        Modifiers::Shift => {
            if key == 'U' {
                Some(Command::RestoreStack)
            } else if key == 'O' {
                Some(Command::NewStackAbove)
            } else {
                None
            }
        },
        Modifiers::Other => None,
    }
}

/// The command that the character key `key` asks for when pressed with
/// `modifiers`, if it is bound to one.
pub fn command_for(key: char, modifiers: Modifiers) -> (command: Option<Command>)
    ensures
        command == binding(key, modifiers),
{
    match modifiers {
        Modifiers::Plain => match key {
            'q' => Some(Command::Quit),
            ' ' => Some(Command::Toggle),
            'r' => Some(Command::Reset),
            'u' => Some(Command::Undo),
            'o' => Some(Command::NewStackBelow),
            'j' => Some(Command::NextStack),
            'k' => Some(Command::PreviousStack),
            'd' => Some(Command::DeleteStack),
            _ => None,
        },
        Modifiers::Control => match key {
            'c' => Some(Command::Quit),
            'r' => Some(Command::Redo),
            _ => None,
        },
        Modifiers::Shift => match key {
            'U' => Some(Command::RestoreStack),
            'O' => Some(Command::NewStackAbove),
            _ => None,
        },
        Modifiers::Other => None,
    }
}

} // verus!
