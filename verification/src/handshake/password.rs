//! The username/password sub-negotiation that follows selection of the
//! password authentication method.

use crate::codec::{push_bytes, DecodeError, ParseOutcome};
use vstd::prelude::*;
use vstd::slice::{slice_subrange, slice_to_vec};

verus! {

/// The version byte of the sub-negotiation, distinct from the protocol
/// version.
pub const SUBNEGOTIATION_VERSION: u8 = 0x01;

/// Errors of the password sub-negotiation.
#[derive(Debug)]
pub enum Error {
    Io(std::io::Error),
    SubNegotiationVersion { version: u8 },
}

impl Error {
    /// Lossy conversion into a generic I/O error: a transport fault is
    /// handed back as it is. Relies on `std::io::Error::new` to wrap the
    /// debug form of a version fault.
    #[verifier::external_body]
    pub fn into_io_error(self) -> std::io::Error {
        match self {
            Error::Io(e) => e,
            Error::SubNegotiationVersion { version } => std::io::Error::new(
                std::io::ErrorKind::Other,
                format!("unsupported sub-negotiation version {version:#04x}"),
            ),
        }
    }
}

/// Password sub-negotiation request: a length-prefixed username and a
/// length-prefixed password, each of at most 255 opaque bytes.
pub struct Request {
    pub username: Vec<u8>,
    pub password: Vec<u8>,
}

/// Mathematical model of a password [`Request`] value.
#[verifier::ext_equal]
pub struct PasswordRequestSpec {
    pub username: Seq<u8>,
    pub password: Seq<u8>,
}

impl View for Request {
    type V = PasswordRequestSpec;

    open spec fn view(&self) -> PasswordRequestSpec {
        PasswordRequestSpec { username: self.username@, password: self.password@ }
    }
}

/// The exact bytes of a password request.
pub open spec fn wire_password_request(r: PasswordRequestSpec) -> Seq<u8> {
    seq![0x01u8, r.username.len() as u8] + r.username + seq![r.password.len() as u8] + r.password
}

/// Parses a password request out of a byte-sequence prefix.
pub open spec fn parse_password_request(s: Seq<u8>) -> ParseOutcome<PasswordRequestSpec, u8> {
    if s.len() < 1 {
        ParseOutcome::Incomplete { needed: 1 }
    } else if s[0] != 0x01 {
        ParseOutcome::Bad { err: s[0] }
    } else if s.len() < 2 {
        ParseOutcome::Incomplete { needed: 1 }
    } else {
        let ul = s[1] as int;
        if s.len() < 2 + ul {
            ParseOutcome::Incomplete { needed: 2 + ul - s.len() }
        } else if s.len() < 3 + ul {
            ParseOutcome::Incomplete { needed: 1 }
        } else {
            let pl = s[2 + ul] as int;
            if s.len() < 3 + ul + pl {
                ParseOutcome::Incomplete { needed: 3 + ul + pl - s.len() }
            } else {
                ParseOutcome::Done {
                    frame: PasswordRequestSpec {
                        username: s.subrange(2, 2 + ul),
                        password: s.subrange(3 + ul, 3 + ul + pl),
                    },
                    used: 3 + ul + pl,
                }
            }
        }
    }
}

impl Request {
    /// A request carrying `username` and `password`.
    pub fn new(username: Vec<u8>, password: Vec<u8>) -> (r: Request)
        ensures
            r@ == (PasswordRequestSpec { username: username@, password: password@ }),
    {
        Request { username, password }
    }

    /// Both fields fit their one-byte length prefixes.
    pub open spec fn wf(&self) -> bool {
        self.username@.len() <= 255 && self.password@.len() <= 255
    }

    /// The exact number of bytes [`Request::write_to_buf`] appends.
    pub fn serialized_len(&self) -> (r: usize)
        requires
            self.wf(),
        ensures
            r == wire_password_request(self@).len(),
    {
        3 + self.username.len() + self.password.len()
    }

    /// Appends the wire encoding of the frame to `buf`.
    pub fn write_to_buf(&self, buf: &mut Vec<u8>)
        requires
            self.wf(),
        ensures
            final(buf)@ == old(buf)@ + wire_password_request(self@),
    {
        buf.push(0x01);
        buf.push(self.username.len() as u8);
        push_bytes(buf, self.username.as_slice());
        buf.push(self.password.len() as u8);
        push_bytes(buf, self.password.as_slice());
        assert(buf@ =~= old(buf)@ + wire_password_request(self@));
    }

    /// The wire encoding of the frame as a fresh buffer.
    pub fn encode(&self) -> (r: Vec<u8>)
        requires
            self.wf(),
        ensures
            r@ == wire_password_request(self@),
    {
        let mut buf: Vec<u8> = Vec::new();
        self.write_to_buf(&mut buf);
        buf
    }

    /// Decodes a password request from the front of `buf`, mirroring
    /// [`parse_password_request`] exactly.
    pub fn decode(buf: &[u8]) -> (r: Result<(Request, usize), DecodeError<Error>>)
        ensures
            (match parse_password_request(buf@) {
                ParseOutcome::Done { frame, used } => r matches Ok(p) && p.0@ == frame && p.1
                    == used,
                ParseOutcome::Incomplete { needed } => r matches Err(DecodeError::Incomplete {
                    needed: n,
                }) && n == needed,
                ParseOutcome::Bad { err } => r matches Err(DecodeError::Invalid {
                    err: Error::SubNegotiationVersion { version },
                }) && version == err,
            }),
            r matches Ok(p) ==> p.0.wf() && p.1 <= buf@.len(),
    {
        if buf.len() < 1 {
            return Err(DecodeError::Incomplete { needed: 1 });
        }
        if buf[0] != 0x01 {
            return Err(DecodeError::Invalid {
                err: Error::SubNegotiationVersion { version: buf[0] },
            });
        }
        if buf.len() < 2 {
            return Err(DecodeError::Incomplete { needed: 1 });
        }
        let ul = buf[1] as usize;
        if buf.len() < 2 + ul {
            return Err(DecodeError::Incomplete { needed: 2 + ul - buf.len() });
        }
        if buf.len() < 3 + ul {
            return Err(DecodeError::Incomplete { needed: 1 });
        }
        let username = slice_to_vec(slice_subrange(buf, 2, 2 + ul));
        let pl = buf[2 + ul] as usize;
        if buf.len() < 3 + ul + pl {
            return Err(DecodeError::Incomplete { needed: 3 + ul + pl - buf.len() });
        }
        let password = slice_to_vec(slice_subrange(buf, 3 + ul, 3 + ul + pl));
        Ok((Request { username, password }, 3 + ul + pl))
    }
}

/// Law: every well-formed password request decodes back from its own
/// encoding, whatever bytes follow it.
pub proof fn lemma_password_request_roundtrip(r: PasswordRequestSpec, rest: Seq<u8>)
    requires
        r.username.len() <= 255,
        r.password.len() <= 255,
    ensures
        parse_password_request(wire_password_request(r) + rest) == (ParseOutcome::Done::<
            PasswordRequestSpec,
            u8,
        > { frame: r, used: wire_password_request(r).len() as int }),
{
    let s = wire_password_request(r) + rest;
    let ul = r.username.len() as int;
    let pl = r.password.len() as int;
    assert(s[0] == 0x01);
    assert(s[1] == ul as u8);
    assert(s[2 + ul] == pl as u8);
    assert(s.subrange(2, 2 + ul) =~= r.username);
    assert(s.subrange(3 + ul, 3 + ul + pl) =~= r.password);
}

/// Law: whatever the password-request decoder recognises is well formed
/// and encodes back to exactly the bytes it consumed.
pub proof fn lemma_password_request_parse_sound(s: Seq<u8>)
    ensures
        parse_password_request(s) matches ParseOutcome::Done { frame, used } ==> frame.username.len()
            <= 255 && frame.password.len() <= 255 && 0 <= used <= s.len() && wire_password_request(
            frame,
        ) == s.subrange(0, used),
{
    if s.len() >= 2 && s[0] == 0x01 {
        let ul = s[1] as int;
        if s.len() >= 3 + ul {
            let pl = s[2 + ul] as int;
            if s.len() >= 3 + ul + pl {
                let frame = PasswordRequestSpec {
                    username: s.subrange(2, 2 + ul),
                    password: s.subrange(3 + ul, 3 + ul + pl),
                };
                assert(wire_password_request(frame) =~= s.subrange(0, 3 + ul + pl));
            }
        }
    }
}

/// Law: a password request whose first byte is not the sub-negotiation
/// version is rejected after that byte alone.
pub proof fn lemma_version_rejected_password_request(s: Seq<u8>)
    requires
        s.len() >= 1,
        s[0] != 0x01,
    ensures
        parse_password_request(s) == (ParseOutcome::Bad::<PasswordRequestSpec, u8> { err: s[0] }),
{
}

/// Password sub-negotiation response: whether authentication succeeded.
pub struct Response {
    pub status: bool,
}

/// The exact bytes of a password response: the sub-negotiation version and
/// 0x00 for success or 0xFF for failure.
pub open spec fn wire_password_response(r: Response) -> Seq<u8> {
    seq![0x01u8, if r.status { 0x00u8 } else { 0xffu8 }]
}

/// Parses a password response out of a byte-sequence prefix. The status
/// byte is read liberally: 0x00 is success, any other byte is failure.
pub open spec fn parse_password_response(s: Seq<u8>) -> ParseOutcome<Response, u8> {
    if s.len() < 1 {
        ParseOutcome::Incomplete { needed: 1 }
    } else if s[0] != 0x01 {
        ParseOutcome::Bad { err: s[0] }
    } else if s.len() < 2 {
        ParseOutcome::Incomplete { needed: 1 }
    } else {
        ParseOutcome::Done { frame: Response { status: s[1] == 0x00 }, used: 2 }
    }
}

impl Response {
    /// A response reporting `status`.
    pub fn new(status: bool) -> (r: Response)
        ensures
            r.status == status,
    {
        Response { status }
    }

    /// The exact number of bytes [`Response::write_to_buf`] appends.
    pub fn serialized_len(&self) -> (r: usize)
        ensures
            r == wire_password_response(*self).len(),
    {
        2
    }

    /// Appends the wire encoding of the frame to `buf`.
    pub fn write_to_buf(&self, buf: &mut Vec<u8>)
        ensures
            final(buf)@ == old(buf)@ + wire_password_response(*self),
    {
        buf.push(0x01);
        if self.status {
            buf.push(0x00);
        } else {
            buf.push(0xff);
        }
        assert(buf@ =~= old(buf)@ + wire_password_response(*self));
    }

    /// The wire encoding of the frame as a fresh buffer.
    pub fn encode(&self) -> (r: Vec<u8>)
        ensures
            r@ == wire_password_response(*self),
    {
        let mut buf: Vec<u8> = Vec::new();
        self.write_to_buf(&mut buf);
        buf
    }

    /// Decodes a password response from the front of `buf`, mirroring
    /// [`parse_password_response`] exactly.
    pub fn decode(buf: &[u8]) -> (r: Result<(Response, usize), DecodeError<Error>>)
        ensures
            (match parse_password_response(buf@) {
                ParseOutcome::Done { frame, used } => r matches Ok(p) && p.0 == frame && p.1
                    == used,
                ParseOutcome::Incomplete { needed } => r matches Err(DecodeError::Incomplete {
                    needed: n,
                }) && n == needed,
                ParseOutcome::Bad { err } => r matches Err(DecodeError::Invalid {
                    err: Error::SubNegotiationVersion { version },
                }) && version == err,
            }),
            r matches Ok(p) ==> p.1 <= buf@.len(),
    {
        if buf.len() < 1 {
            return Err(DecodeError::Incomplete { needed: 1 });
        }
        if buf[0] != 0x01 {
            return Err(DecodeError::Invalid {
                err: Error::SubNegotiationVersion { version: buf[0] },
            });
        }
        if buf.len() < 2 {
            return Err(DecodeError::Incomplete { needed: 1 });
        }
        Ok((Response { status: buf[1] == 0x00 }, 2))
    }
}

/// Law: a password response whose first byte is not the sub-negotiation
/// version is rejected after that byte alone.
pub proof fn lemma_version_rejected_password_response(s: Seq<u8>)
    requires
        s.len() >= 1,
        s[0] != 0x01,
    ensures
        parse_password_response(s) == (ParseOutcome::Bad::<Response, u8> { err: s[0] }),
{
}

/// Law: a password response decodes back from its own encoding, whatever
/// bytes follow it.
pub proof fn lemma_password_response_roundtrip(r: Response, rest: Seq<u8>)
    ensures
        parse_password_response(wire_password_response(r) + rest) == (ParseOutcome::Done::<
            Response,
            u8,
        > { frame: r, used: 2 }),
{
    let s = wire_password_response(r) + rest;
    assert(s[0] == 0x01);
    if r.status {
        assert(s[1] == 0x00);
    } else {
        assert(s[1] == 0xff);
    }
}

} // verus!
