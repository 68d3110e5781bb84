//! Key presses and the commands that they stand for.

use vstd::prelude::*;
use crate::grid::SymbolDirection;
use crate::pattern::CellEdit;
use crate::viewport::Resize;

verus! {

/// Which of the two patterns the cell edits work on.
#[derive(Clone, Copy, Debug, PartialEq, Eq, Structural)]
pub enum Mode {
    /// The edits go to the edit buffer.
    Editing,
    /// The edits go to the selected entry of the gallery.
    Viewing,
}

/// A key press, as far as the editor tells keys apart.
#[derive(Clone, Copy, Debug, PartialEq, Eq, Structural)]
pub enum Key {
    Esc,
    Left,
    Right,
    Up,
    Down,
    Backspace,
    Enter,
    Char(char),
    /// Any other key.
    Other,
}

/// What the editor can be told to do.
#[derive(Clone, Copy, Debug, PartialEq, Eq, Structural)]
pub enum Command {
    /// Stop the editor.
    Quit,
    /// Move the cursor one cell over the grid.
    MoveCursor(SymbolDirection),
    /// Edit the cell under the cursor in the active pattern.
    Edit(CellEdit),
    /// Append the edit buffer to the gallery and empty it.
    Commit,
    /// Move the window one entry towards the start of the gallery.
    StepLeft,
    /// Move the window one entry towards the end of the gallery.
    StepRight,
    /// Overwrite the remembered gallery entry with the edit buffer.
    Modify,
    /// Copy the remembered gallery entry into the edit buffer.
    Load,
    /// Choose the pattern that cell edits work on.
    SetMode(Mode),
    /// Change the shape of the grid that shows the gallery.
    Resize(Resize),
    /// Flip the tag of the active entry.
    ToggleValid,
    /// Move the selection over the gallery.
    Select(SymbolDirection),
}

/// The command that a key stands for. Keys without a command are ignored.
pub open spec fn command_of(key: Key) -> Option<Command> {
    match key {
        Key::Esc => Some(Command::Quit),
        Key::Char('q') => Some(Command::Quit),
        Key::Right => Some(Command::MoveCursor(SymbolDirection::Right)),
        Key::Left => Some(Command::MoveCursor(SymbolDirection::Left)),
        Key::Down => Some(Command::MoveCursor(SymbolDirection::Down)),
        Key::Up => Some(Command::MoveCursor(SymbolDirection::Up)),
        Key::Char('r') => Some(Command::Edit(CellEdit::CycleType)),
        Key::Char('c') => Some(Command::Edit(CellEdit::CycleColor)),
        Key::Char('s') => Some(Command::Edit(CellEdit::CycleSize)),
        Key::Backspace => Some(Command::Edit(CellEdit::Clear)),
        Key::Enter => Some(Command::Commit),
        Key::Char('a') => Some(Command::StepLeft),
        Key::Char('d') => Some(Command::StepRight),
        Key::Char('m') => Some(Command::Modify),
        Key::Char('e') => Some(Command::SetMode(Mode::Editing)),
        Key::Char('v') => Some(Command::SetMode(Mode::Viewing)),
        Key::Char('>') => Some(Command::Resize(Resize::FewerRows)),
        Key::Char('<') => Some(Command::Resize(Resize::FewerColumns)),
        Key::Char('.') => Some(Command::Resize(Resize::MoreRows)),
        Key::Char(',') => Some(Command::Resize(Resize::MoreColumns)),
        Key::Char('i') => Some(Command::ToggleValid),
        Key::Char('A') => Some(Command::Select(SymbolDirection::Left)),
        Key::Char('D') => Some(Command::Select(SymbolDirection::Right)),
        Key::Char('W') => Some(Command::Select(SymbolDirection::Up)),
        Key::Char('S') => Some(Command::Select(SymbolDirection::Down)),
        _ => None,
    }
}

/// The command that a key stands for, if it stands for one.
pub fn decode(key: Key) -> (r: Option<Command>)
    ensures
        r == command_of(key),
{
    match key {
        Key::Esc => Some(Command::Quit),
        Key::Char('q') => Some(Command::Quit),
        Key::Right => Some(Command::MoveCursor(SymbolDirection::Right)),
        Key::Left => Some(Command::MoveCursor(SymbolDirection::Left)),
        Key::Down => Some(Command::MoveCursor(SymbolDirection::Down)),
        Key::Up => Some(Command::MoveCursor(SymbolDirection::Up)),
        Key::Char('r') => Some(Command::Edit(CellEdit::CycleType)),
        Key::Char('c') => Some(Command::Edit(CellEdit::CycleColor)),
        Key::Char('s') => Some(Command::Edit(CellEdit::CycleSize)),
        Key::Backspace => Some(Command::Edit(CellEdit::Clear)),
        Key::Enter => Some(Command::Commit),
        Key::Char('a') => Some(Command::StepLeft),
        Key::Char('d') => Some(Command::StepRight),
        Key::Char('m') => Some(Command::Modify),
        Key::Char('e') => Some(Command::SetMode(Mode::Editing)),
        Key::Char('v') => Some(Command::SetMode(Mode::Viewing)),
        Key::Char('>') => Some(Command::Resize(Resize::FewerRows)),
        Key::Char('<') => Some(Command::Resize(Resize::FewerColumns)),
        Key::Char('.') => Some(Command::Resize(Resize::MoreRows)),
        Key::Char(',') => Some(Command::Resize(Resize::MoreColumns)),
        Key::Char('i') => Some(Command::ToggleValid),
        Key::Char('A') => Some(Command::Select(SymbolDirection::Left)),
        Key::Char('D') => Some(Command::Select(SymbolDirection::Right)),
        Key::Char('W') => Some(Command::Select(SymbolDirection::Up)),
        Key::Char('S') => Some(Command::Select(SymbolDirection::Down)),
        _ => None,
    }
}

} // verus!
