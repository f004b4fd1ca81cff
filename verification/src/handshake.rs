//! SOCKS5 handshake frames: the client's method list and the server's
//! method selection.

pub mod method;
pub mod password;

use crate::codec::{DecodeError, ParseOutcome};
use crate::error::{ProtocolError, ProtocolErrorSpec};
use method::Method;
use vstd::prelude::*;

verus! {

/// SOCKS5 handshake request: the version byte, a one-byte count, and that
/// many method bytes in client order.
pub struct Request {
    pub methods: Vec<Method>,
}

impl View for Request {
    type V = Seq<Method>;

    open spec fn view(&self) -> Seq<Method> {
        self.methods@
    }
}

/// The exact bytes of a handshake request carrying `methods`.
pub open spec fn wire_method_request(methods: Seq<Method>) -> Seq<u8> {
    seq![0x05u8, methods.len() as u8] + methods.map_values(|m: Method| m.0)
}

/// Parses a handshake request out of a byte-sequence prefix.
pub open spec fn parse_method_request(s: Seq<u8>) -> ParseOutcome<Seq<Method>, ProtocolErrorSpec> {
    if s.len() < 1 {
        ParseOutcome::Incomplete { needed: 1 }
    } else if s[0] != 0x05 {
        ParseOutcome::Bad { err: ProtocolErrorSpec::ProtocolVersion { version: s[0] } }
    } else if s.len() < 2 {
        ParseOutcome::Incomplete { needed: 1 }
    } else {
        let n = s[1] as int;
        if s.len() < 2 + n {
            ParseOutcome::Incomplete { needed: 2 + n - s.len() }
        } else {
            ParseOutcome::Done {
                frame: s.subrange(2, 2 + n).map_values(|b: u8| Method(b)),
                used: 2 + n,
            }
        }
    }
}

impl Request {
    /// A handshake request offering exactly `methods`.
    pub fn new(methods: Vec<Method>) -> (r: Request)
        ensures
            r@ == methods@,
    {
        Request { methods }
    }

    /// At most 255 methods, so the count fits its one-byte prefix.
    pub open spec fn wf(&self) -> bool {
        self@.len() <= 255
    }

    /// The exact number of bytes [`Request::write_to_buf`] appends.
    pub fn serialized_len(&self) -> (r: usize)
        requires
            self.wf(),
        ensures
            r == wire_method_request(self@).len(),
    {
        2 + self.methods.len()
    }

    /// Appends the wire encoding of the frame to `buf`.
    pub fn write_to_buf(&self, buf: &mut Vec<u8>)
        requires
            self.wf(),
        ensures
            final(buf)@ == old(buf)@ + wire_method_request(self@),
    {
        buf.push(0x05);
        buf.push(self.methods.len() as u8);
        let n = self.methods.len();
        let mut i: usize = 0;
        while i < n
            invariant
                i <= n,
                n == self.methods@.len() <= 255,
                buf@ == old(buf)@ + seq![0x05u8, n as u8] + self.methods@.subrange(
                    0,
                    i as int,
                ).map_values(|m: Method| m.0),
            decreases n - i,
        {
            buf.push(self.methods[i].0);
            assert(buf@ =~= old(buf)@ + seq![0x05u8, n as u8] + self.methods@.subrange(
                0,
                i + 1,
            ).map_values(|m: Method| m.0));
            i += 1;
        }
        assert(self.methods@.subrange(0, n as int) =~= self.methods@);
        assert(buf@ =~= old(buf)@ + wire_method_request(self@));
    }

    /// The wire encoding of the frame as a fresh buffer.
    pub fn encode(&self) -> (r: Vec<u8>)
        requires
            self.wf(),
        ensures
            r@ == wire_method_request(self@),
    {
        let mut buf: Vec<u8> = Vec::new();
        self.write_to_buf(&mut buf);
        buf
    }

    /// Decodes a handshake request from the front of `buf`, mirroring
    /// [`parse_method_request`] exactly.
    pub fn decode(buf: &[u8]) -> (r: Result<(Request, usize), DecodeError<ProtocolError>>)
        ensures
            (match parse_method_request(buf@) {
                ParseOutcome::Done { frame, used } => r matches Ok(p) && p.0@ == frame && p.1
                    == used,
                ParseOutcome::Incomplete { needed } => r matches Err(DecodeError::Incomplete {
                    needed: n,
                }) && n == needed,
                ParseOutcome::Bad { err } => r matches Err(DecodeError::Invalid { err: e }) && e@
                    == err,
            }),
            r matches Ok(p) ==> p.0.wf() && p.1 <= buf@.len(),
    {
        if buf.len() < 1 {
            return Err(DecodeError::Incomplete { needed: 1 });
        }
        if buf[0] != 0x05 {
            return Err(DecodeError::Invalid {
                err: ProtocolError::ProtocolVersion { version: buf[0] },
            });
        }
        if buf.len() < 2 {
            return Err(DecodeError::Incomplete { needed: 1 });
        }
        let n = buf[1] as usize;
        if buf.len() < 2 + n {
            return Err(DecodeError::Incomplete { needed: 2 + n - buf.len() });
        }
        let mut methods: Vec<Method> = Vec::new();
        let mut i: usize = 0;
        while i < n
            invariant
                i <= n,
                n <= 255,
                buf@.len() >= 2 + n,
                methods@.len() == i,
                forall|j: int| 0 <= j < i ==> methods@[j] == Method(buf@[2 + j]),
            decreases n - i,
        {
            methods.push(Method(buf[2 + i]));
            i += 1;
        }
        proof {
            assert(methods@ =~= buf@.subrange(2, 2 + n as int).map_values(|b: u8| Method(b)));
        }
        Ok((Request { methods }, 2 + n))
    }
}

/// Law: every handshake request of at most 255 methods decodes back from
/// its own encoding, whatever bytes follow it.
pub proof fn lemma_method_request_roundtrip(methods: Seq<Method>, rest: Seq<u8>)
    requires
        methods.len() <= 255,
    ensures
        parse_method_request(wire_method_request(methods) + rest) == (ParseOutcome::Done::<
            Seq<Method>,
            ProtocolErrorSpec,
        > { frame: methods, used: wire_method_request(methods).len() as int }),
{
    let s = wire_method_request(methods) + rest;
    let n = methods.len() as int;
    assert(s[0] == 0x05);
    assert(s[1] == n as u8);
    assert(s.subrange(2, 2 + n) =~= methods.map_values(|m: Method| m.0));
    assert(s.subrange(2, 2 + n).map_values(|b: u8| Method(b)) =~= methods);
}

/// Law: whatever the handshake-request decoder recognises encodes back to
/// exactly the bytes it consumed.
pub proof fn lemma_method_request_parse_sound(s: Seq<u8>)
    ensures
        parse_method_request(s) matches ParseOutcome::Done { frame, used } ==> frame.len() <= 255
            && 0 <= used <= s.len() && wire_method_request(frame) == s.subrange(0, used),
{
    if s.len() >= 2 && s[0] == 0x05 {
        let n = s[1] as int;
        if s.len() >= 2 + n {
            let frame = s.subrange(2, 2 + n).map_values(|b: u8| Method(b));
            assert(frame.map_values(|m: Method| m.0) =~= s.subrange(2, 2 + n));
            assert(wire_method_request(frame) =~= s.subrange(0, 2 + n));
        }
    }
}

/// Law: a handshake request whose first byte is not the protocol version is
/// rejected after that byte alone.
pub proof fn lemma_version_rejected_method_request(s: Seq<u8>)
    requires
        s.len() >= 1,
        s[0] != 0x05,
    ensures
        parse_method_request(s) == (ParseOutcome::Bad::<Seq<Method>, ProtocolErrorSpec> {
            err: ProtocolErrorSpec::ProtocolVersion { version: s[0] },
        }),
{
}

/// SOCKS5 handshake response: the version byte and the selected method.
pub struct Response {
    pub method: Method,
}

/// The exact bytes of a handshake response selecting `method`.
pub open spec fn wire_method_response(r: Response) -> Seq<u8> {
    seq![0x05u8, r.method.0]
}

/// Parses a handshake response out of a byte-sequence prefix. The version
/// byte is read but deliberately not validated.
pub open spec fn parse_method_response(s: Seq<u8>) -> ParseOutcome<Response, ProtocolErrorSpec> {
    if s.len() < 1 {
        ParseOutcome::Incomplete { needed: 1 }
    } else if s.len() < 2 {
        ParseOutcome::Incomplete { needed: 1 }
    } else {
        ParseOutcome::Done { frame: Response { method: Method(s[1]) }, used: 2 }
    }
}

impl Response {
    /// A handshake response selecting `method`.
    pub fn new(method: Method) -> (r: Response)
        ensures
            r.method == method,
    {
        Response { method }
    }

    /// The exact number of bytes [`Response::write_to_buf`] appends.
    pub fn serialized_len(&self) -> (r: usize)
        ensures
            r == wire_method_response(*self).len(),
    {
        2
    }

    /// Appends the wire encoding of the frame to `buf`.
    pub fn write_to_buf(&self, buf: &mut Vec<u8>)
        ensures
            final(buf)@ == old(buf)@ + wire_method_response(*self),
    {
        buf.push(0x05);
        buf.push(self.method.0);
        assert(buf@ =~= old(buf)@ + wire_method_response(*self));
    }

    /// The wire encoding of the frame as a fresh buffer.
    pub fn encode(&self) -> (r: Vec<u8>)
        ensures
            r@ == wire_method_response(*self),
    {
        let mut buf: Vec<u8> = Vec::new();
        self.write_to_buf(&mut buf);
        buf
    }

    /// Decodes a handshake response from the front of `buf`, mirroring
    /// [`parse_method_response`] exactly.
    pub fn decode(buf: &[u8]) -> (r: Result<(Response, usize), DecodeError<ProtocolError>>)
        ensures
            (match parse_method_response(buf@) {
                ParseOutcome::Done { frame, used } => r matches Ok(p) && p.0 == frame && p.1
                    == used,
                ParseOutcome::Incomplete { needed } => r matches Err(DecodeError::Incomplete {
                    needed: n,
                }) && n == needed,
                ParseOutcome::Bad { err } => r matches Err(DecodeError::Invalid { err: e }) && e@
                    == err,
            }),
            r matches Ok(p) ==> p.1 <= buf@.len(),
    {
        if buf.len() < 1 {
            return Err(DecodeError::Incomplete { needed: 1 });
        }
        if buf.len() < 2 {
            return Err(DecodeError::Incomplete { needed: 1 });
        }
        Ok((Response { method: Method(buf[1]) }, 2))
    }
}

/// Law: a handshake response decodes back from its own encoding, whatever
/// bytes follow it.
pub proof fn lemma_method_response_roundtrip(r: Response, rest: Seq<u8>)
    ensures
        parse_method_response(wire_method_response(r) + rest) == (ParseOutcome::Done::<
            Response,
            ProtocolErrorSpec,
        > { frame: r, used: 2 }),
{
    let s = wire_method_response(r) + rest;
    assert(s[1] == r.method.0);
}

} // verus!
