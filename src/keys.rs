use vstd::prelude::*;

verus! {

/// The key of a key press, as far as the picker tells keys apart.
#[derive(Clone, Copy, PartialEq, Eq, Structural, Debug)]
pub enum Key {
    Up,
    Down,
    Enter,
    Esc,
    Char(char),
    Other,
}

/// A key press; `shift` holds when Shift is the only modifier held.
#[derive(Clone, Copy, PartialEq, Eq, Structural, Debug)]
pub struct KeyPress {
    pub key: Key,
    pub shift: bool,
}

/// What a key press asks of the session.
#[derive(Clone, Copy, PartialEq, Eq, Structural, Debug)]
pub enum Command {
    MoveUp,
    MoveDown,
    ToggleCurrent,
    SelectAll,
    SelectNone,
    /// Select only the entry at this index, clamped to the last one.
    SelectOnly(usize),
    SelectLast,
    TogglePreview,
    Confirm,
    Cancel,
    Nothing,
}

/// The index that a shifted digit key selects: `1` to `9` give 0 to 8.
pub open spec fn digit_index(c: char) -> Option<usize> {
    if '1' <= c && c <= '9' {
        Some((c as u32 - '1' as u32) as usize)
    } else {
        None
    }
}

/// The command bound to a character key.
pub open spec fn char_command(c: char, shift: bool) -> Command {
    if c == 'k' {
        Command::MoveUp
    } else if c == 'j' {
        Command::MoveDown
    } else if c == ' ' {
        Command::ToggleCurrent
    } else if c == 'a' || c == 'A' {
        Command::SelectAll
    } else if c == 'n' {
        Command::SelectNone
    } else if c == 'q' {
        Command::Cancel
    } else if shift && digit_index(c) is Some {
        Command::SelectOnly(digit_index(c)->0)
    } else if shift && c == '0' {
        Command::SelectLast
    } else if c == 'p' {
        Command::TogglePreview
    } else {
        Command::Nothing
    }
}

/// The command bound to a key press.
pub open spec fn command_of(k: KeyPress) -> Command {
    match k.key {
        Key::Up => Command::MoveUp,
        Key::Down => Command::MoveDown,
        Key::Enter => Command::Confirm,
        Key::Esc => Command::Cancel,
        Key::Char(c) => char_command(c, k.shift),
        Key::Other => Command::Nothing,
    }
}

/// Maps a key press to the command bound to it.
pub fn command_for(k: KeyPress) -> (r: Command)
    ensures
        r == command_of(k),
{
    match k.key {
        Key::Up => Command::MoveUp,
        Key::Down => Command::MoveDown,
        Key::Enter => Command::Confirm,
        Key::Esc => Command::Cancel,
        Key::Other => Command::Nothing,
        Key::Char(c) => {
            if c == 'k' {
                Command::MoveUp
            } else if c == 'j' {
                Command::MoveDown
            } else if c == ' ' {
                Command::ToggleCurrent
            } else if c == 'a' || c == 'A' {
                Command::SelectAll
            } else if c == 'n' {
                Command::SelectNone
            } else if c == 'q' {
                Command::Cancel
            } else if k.shift && '1' <= c && c <= '9' {
                Command::SelectOnly((c as u32 - '1' as u32) as usize)
            } else if k.shift && c == '0' {
                Command::SelectLast
            } else if c == 'p' {
                Command::TogglePreview
            } else {
                Command::Nothing
            }
        },
    }
}

} // verus!
