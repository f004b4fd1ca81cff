//! The typestate negotiation driver. A connection handle owns its transport
//! exclusively and is parameterised by a stage marker; every transition
//! consumes the old handle, so an out-of-order operation does not compile.
//!
//! The handle is generic over the transport, which it never touches: each
//! transition takes the frame the host read and returns the frame the host
//! must write, so the decisions are checked here while the I/O stays with
//! the host.

pub mod associate;
pub mod bind;
pub mod connect;

use crate::address::Address;
use crate::command::Command as ProtocolCommand;
use crate::error::{ProtocolError, ProtocolErrorSpec};
use crate::handshake::method::Method;
use crate::handshake::{Request as HandshakeRequest, Response as HandshakeResponse};
use crate::request::Request;
use core::marker::PhantomData;
use vstd::prelude::*;

verus! {

/// Marker: the connection has yet to run the authentication handshake.
pub struct NeedAuthenticate;

/// Marker: authentication is settled; the command request is next.
pub struct NeedCommand;

/// An incoming SOCKS5 connection at stage `S`, exclusively owning the
/// transport `T`.
pub struct IncomingConnection<T, S> {
    stream: T,
    _state: PhantomData<S>,
}

/// What the method-selection round came to: either the handshake proceeds
/// with the chosen method, or the transport is surrendered with the error.
/// Either way the caller owes the peer the returned response frame.
pub enum AuthDecision<T> {
    Proceed { response: HandshakeResponse, next: IncomingConnection<T, NeedCommand> },
    Reject { response: HandshakeResponse, error: ProtocolError, stream: T },
}

/// A command sent by the SOCKS5 client, paired with the requested
/// destination address and the handle for the stage that answers it.
pub enum Command<T> {
    Associate(associate::Associate<T, associate::NeedReply>, Address),
    Bind(bind::Bind<T, bind::NeedFirstReply>, Address),
    Connect(connect::Connect<T, connect::NeedReply>, Address),
}

/// Says whether `methods` offers `m`.
fn contains_method(methods: &Vec<Method>, m: Method) -> (r: bool)
    ensures
        r == methods@.contains(m),
{
    let mut i: usize = 0;
    while i < methods.len()
        invariant
            i <= methods@.len(),
            forall|j: int| 0 <= j < i ==> methods@[j] != m,
        decreases methods@.len() - i,
    {
        if methods[i].0 == m.0 {
            assert(methods@.contains(m)) by {
                assert(methods@[i as int] == m);
            }
            return true;
        }
        i += 1;
    }
    false
}

impl<T, S> IncomingConnection<T, S> {
    /// The transport the handle owns.
    pub closed spec fn transport(&self) -> T {
        self.stream
    }

    /// Wraps a freshly accepted transport as a connection that still has
    /// its whole negotiation ahead of it.
    pub fn new(stream: T) -> (r: Self)
        ensures
            r.transport() == stream,
    {
        IncomingConnection { stream, _state: PhantomData }
    }

    /// A shared reference to the underlying transport.
    pub fn get_ref(&self) -> (r: &T)
        ensures
            *r == self.transport(),
    {
        &self.stream
    }

    /// A mutable reference to the underlying transport.
    pub fn get_mut(&mut self) -> (r: &mut T)
        ensures
            *r == old(self).transport(),
            final(self).transport() == *final(r),
    {
        &mut self.stream
    }

    /// Consumes the handle, abandoning the protocol, and surrenders the
    /// raw transport.
    pub fn into_inner(self) -> (r: T)
        ensures
            r == self.transport(),
    {
        self.stream
    }
}

impl<T> IncomingConnection<T, NeedAuthenticate> {
    /// Decides the method-selection round against the method list the
    /// client sent. If the client offered the chosen method, the returned
    /// response advertises it and the handle advances; otherwise the
    /// response is the 0xFF refusal and the transport is surrendered with
    /// a `NoAcceptableHandshakeMethod` error carrying the whole offer.
    /// Either way the caller must write the response before going on.
    pub fn authenticate(self, req: HandshakeRequest, chosen_method: Method) -> (r: AuthDecision<T>)
        ensures
            req@.contains(chosen_method) ==> (r matches AuthDecision::Proceed { response, next }
                && response.method == chosen_method && next.transport() == self.transport()),
            !req@.contains(chosen_method) ==> (r matches AuthDecision::Reject {
                response,
                error,
                stream,
            } && response.method == Method(0xff) && stream == self.transport() && error@
                == (ProtocolErrorSpec::NoAcceptableHandshakeMethod {
                version: 0x05,
                chosen_method,
                offered_methods: req@,
            })),
    {
        if contains_method(&req.methods, chosen_method) {
            AuthDecision::Proceed {
                response: HandshakeResponse::new(chosen_method),
                next: IncomingConnection { stream: self.stream, _state: PhantomData },
            }
        } else {
            AuthDecision::Reject {
                response: HandshakeResponse::new(Method(0xff)),
                error: ProtocolError::NoAcceptableHandshakeMethod {
                    version: 0x05,
                    chosen_method,
                    offered_methods: req.methods,
                },
                stream: self.stream,
            }
        }
    }
}

impl<T> IncomingConnection<T, NeedCommand> {
    /// Dispatches the request the client sent: the handle for the stage
    /// that answers the requested command, paired with the destination
    /// address, over the same transport.
    pub fn wait(self, req: Request) -> (r: Command<T>)
        ensures
            req.command is Connect ==> (r matches Command::Connect(c, a) && c.transport()
                == self.transport() && a@ == req.address@),
            req.command is Bind ==> (r matches Command::Bind(b, a) && b.transport()
                == self.transport() && a@ == req.address@),
            req.command is Associate ==> (r matches Command::Associate(s, a) && s.transport()
                == self.transport() && a@ == req.address@),
    {
        match req.command {
            ProtocolCommand::Associate => Command::Associate(
                associate::Associate::new(self.stream),
                req.address,
            ),
            ProtocolCommand::Bind => Command::Bind(bind::Bind::new(self.stream), req.address),
            ProtocolCommand::Connect => Command::Connect(
                connect::Connect::new(self.stream),
                req.address,
            ),
        }
    }
}

} // verus!
