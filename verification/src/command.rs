//! The command byte of a SOCKS5 request.

use vstd::prelude::*;

verus! {

/// Command requested by the client: Connect (0x01), Bind (0x02) or
/// Associate (0x03).
#[derive(Clone, Copy, Debug, PartialEq, Eq, Hash, Structural)]
pub enum Command {
    Connect,
    Bind,
    Associate,
}

/// The command a byte stands for, if any.
pub open spec fn command_from_u8(code: u8) -> Option<Command> {
    if code == 0x01 {
        Some(Command::Connect)
    } else if code == 0x02 {
        Some(Command::Bind)
    } else if code == 0x03 {
        Some(Command::Associate)
    } else {
        None
    }
}

impl Command {
    /// The wire byte of the command.
    pub open spec fn spec_to_u8(self) -> u8 {
        match self {
            Command::Connect => 0x01,
            Command::Bind => 0x02,
            Command::Associate => 0x03,
        }
    }

    /// The wire byte of the command.
    pub fn to_u8(self) -> (r: u8)
        ensures
            r == self.spec_to_u8(),
    {
        match self {
            Command::Connect => 0x01,
            Command::Bind => 0x02,
            Command::Associate => 0x03,
        }
    }

    /// Reads a command byte; an unassigned byte comes back unchanged as the
    /// error.
    pub fn try_from(code: u8) -> (r: Result<Command, u8>)
        ensures
            (match command_from_u8(code) {
                Some(c) => r == Ok::<Command, u8>(c),
                None => r == Err::<Command, u8>(code),
            }),
    {
        if code == 0x01 {
            Ok(Command::Connect)
        } else if code == 0x02 {
            Ok(Command::Bind)
        } else if code == 0x03 {
            Ok(Command::Associate)
        } else {
            Err(code)
        }
    }
}

/// Law: the command byte and its reading are mutually inverse.
pub proof fn lemma_command_byte_roundtrip(c: Command)
    ensures
        command_from_u8(c.spec_to_u8()) == Some(c),
{
}

} // verus!
