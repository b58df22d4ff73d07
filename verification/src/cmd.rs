//! The six user commands and their one-character codes.

use vstd::prelude::*;

verus! {

/// A command of the user.
#[derive(Debug, Clone, Copy, PartialEq, Eq, Structural)]
pub enum Cmd {
    Okay,
    Exit,
    Previous,
    Next,
    Plus,
    Minus,
}

/// The command that a character on the serial line stands for: the code
/// that `serial_char` sends for it, or one of the keys of the console.
pub open spec fn spec_from_serial_char(code: char) -> Option<Cmd> {
    if code == 'K' || code == 'Z' || code == 'z' {
        Some(Cmd::Okay)
    } else if code == 'X' || code == 'x' || code == ' ' {
        Some(Cmd::Exit)
    } else if code == 'U' || code == 'S' || code == 's' {
        Some(Cmd::Previous)
    } else if code == 'D' || code == 'A' || code == 'a' {
        Some(Cmd::Next)
    } else if code == 'P' || code == 'p' || code == 'W' || code == 'w' || code == '+' {
        Some(Cmd::Plus)
    } else if code == 'M' || code == 'm' || code == 'Q' || code == 'q' || code == '-' {
        Some(Cmd::Minus)
    } else {
        None
    }
}

impl Cmd {
    /// The character that announces the command on the serial line.
    pub open spec fn spec_serial_char(self) -> char {
        match self {
            Cmd::Okay => 'K',
            Cmd::Exit => 'X',
            Cmd::Previous => 'U',
            Cmd::Next => 'D',
            Cmd::Plus => 'P',
            Cmd::Minus => 'M',
        }
    }

    /// The display name of the command.
    pub open spec fn spec_name(self) -> Seq<char> {
        match self {
            Cmd::Okay => "OK"@,
            Cmd::Exit => "EXIT"@,
            Cmd::Previous => "PREVIOUS"@,
            Cmd::Next => "NEXT"@,
            Cmd::Plus => "PLUS"@,
            Cmd::Minus => "MINUS"@,
        }
    }

    /// The command that a character typed on the serial console stands for.
    pub fn from_serial_char(code: char) -> (cmd: Option<Cmd>)
        ensures
            cmd == spec_from_serial_char(code),
    {
        if code == 'K' || code == 'Z' || code == 'z' {
            Some(Cmd::Okay)
        } else if code == 'X' || code == 'x' || code == ' ' {
            Some(Cmd::Exit)
        } else if code == 'U' || code == 'S' || code == 's' {
            Some(Cmd::Previous)
        } else if code == 'D' || code == 'A' || code == 'a' {
            Some(Cmd::Next)
        } else if code == 'P' || code == 'p' || code == 'W' || code == 'w' || code == '+' {
            Some(Cmd::Plus)
        } else if code == 'M' || code == 'm' || code == 'Q' || code == 'q' || code == '-' {
            Some(Cmd::Minus)
        } else {
            None
        }
    }

    /// The character that announces the command on the serial line.
    pub fn serial_char(&self) -> (code: char)
        ensures
            code == self.spec_serial_char(),
    {
        match self {
            Cmd::Okay => 'K',
            Cmd::Exit => 'X',
            Cmd::Previous => 'U',
            Cmd::Next => 'D',
            Cmd::Plus => 'P',
            Cmd::Minus => 'M',
        }
    }

    /// The display name of the command.
    pub fn name(&self) -> (name: &'static str)
        ensures
            name@ == self.spec_name(),
    {
        match self {
            Cmd::Okay => "OK",
            Cmd::Exit => "EXIT",
            Cmd::Previous => "PREVIOUS",
            Cmd::Next => "NEXT",
            Cmd::Plus => "PLUS",
            Cmd::Minus => "MINUS",
        }
    }
}

/// The serial codes of two different commands differ, and the code sent
/// for a command is read back as that command.
pub proof fn lemma_serial_codes(a: Cmd, b: Cmd)
    ensures
        a.spec_serial_char() == b.spec_serial_char() ==> a == b,
        spec_from_serial_char(a.spec_serial_char()) == Some(a),
{
}

} // verus!
