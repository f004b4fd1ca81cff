//! The reply byte of a SOCKS5 response.

use vstd::prelude::*;

verus! {

/// Reply code sent by the server, one of the nine assigned values
/// 0x00..=0x08; any other byte is a decode error.
#[derive(Clone, Copy, Debug, PartialEq, Eq, Hash, Structural)]
pub enum Reply {
    Succeeded,
    GeneralFailure,
    ConnectionNotAllowed,
    NetworkUnreachable,
    HostUnreachable,
    ConnectionRefused,
    TtlExpired,
    CommandNotSupported,
    AddressTypeNotSupported,
}

/// The reply a byte stands for, if any.
pub open spec fn reply_from_u8(code: u8) -> Option<Reply> {
    if code == 0x00 {
        Some(Reply::Succeeded)
    } else if code == 0x01 {
        Some(Reply::GeneralFailure)
    } else if code == 0x02 {
        Some(Reply::ConnectionNotAllowed)
    } else if code == 0x03 {
        Some(Reply::NetworkUnreachable)
    } else if code == 0x04 {
        Some(Reply::HostUnreachable)
    } else if code == 0x05 {
        Some(Reply::ConnectionRefused)
    } else if code == 0x06 {
        Some(Reply::TtlExpired)
    } else if code == 0x07 {
        Some(Reply::CommandNotSupported)
    } else if code == 0x08 {
        Some(Reply::AddressTypeNotSupported)
    } else {
        None
    }
}

impl Reply {
    /// The wire byte of the reply.
    pub open spec fn spec_to_u8(self) -> u8 {
        match self {
            Reply::Succeeded => 0x00,
            Reply::GeneralFailure => 0x01,
            Reply::ConnectionNotAllowed => 0x02,
            Reply::NetworkUnreachable => 0x03,
            Reply::HostUnreachable => 0x04,
            Reply::ConnectionRefused => 0x05,
            Reply::TtlExpired => 0x06,
            Reply::CommandNotSupported => 0x07,
            Reply::AddressTypeNotSupported => 0x08,
        }
    }

    /// The wire byte of the reply.
    pub fn to_u8(self) -> (r: u8)
        ensures
            r == self.spec_to_u8(),
    {
        match self {
            Reply::Succeeded => 0x00,
            Reply::GeneralFailure => 0x01,
            Reply::ConnectionNotAllowed => 0x02,
            Reply::NetworkUnreachable => 0x03,
            Reply::HostUnreachable => 0x04,
            Reply::ConnectionRefused => 0x05,
            Reply::TtlExpired => 0x06,
            Reply::CommandNotSupported => 0x07,
            Reply::AddressTypeNotSupported => 0x08,
        }
    }

    /// Reads a reply byte; an unassigned byte comes back unchanged as the
    /// error.
    pub fn try_from(code: u8) -> (r: Result<Reply, u8>)
        ensures
            (match reply_from_u8(code) {
                Some(rep) => r == Ok::<Reply, u8>(rep),
                None => r == Err::<Reply, u8>(code),
            }),
    {
        if code == 0x00 {
            Ok(Reply::Succeeded)
        } else if code == 0x01 {
            Ok(Reply::GeneralFailure)
        } else if code == 0x02 {
            Ok(Reply::ConnectionNotAllowed)
        } else if code == 0x03 {
            Ok(Reply::NetworkUnreachable)
        } else if code == 0x04 {
            Ok(Reply::HostUnreachable)
        } else if code == 0x05 {
            Ok(Reply::ConnectionRefused)
        } else if code == 0x06 {
            Ok(Reply::TtlExpired)
        } else if code == 0x07 {
            Ok(Reply::CommandNotSupported)
        } else if code == 0x08 {
            Ok(Reply::AddressTypeNotSupported)
        } else {
            Err(code)
        }
    }
}

/// Law: the reply byte and its reading are mutually inverse.
pub proof fn lemma_reply_byte_roundtrip(rep: Reply)
    ensures
        reply_from_u8(rep.spec_to_u8()) == Some(rep),
{
}

} // verus!
