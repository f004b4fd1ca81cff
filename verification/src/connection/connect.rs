//! The Connect command: one reply, then the connection is the relay byte
//! stream.

use crate::address::Address;
use crate::reply::Reply;
use crate::response::Response;
use core::marker::PhantomData;
use vstd::prelude::*;

verus! {

/// Marker: the command still awaits its reply.
pub struct NeedReply;

/// Marker: the reply is out; the handle stands for the raw byte stream.
pub struct Ready;

/// A connection answering a Connect command, at stage `S`.
pub struct Connect<T, S> {
    stream: T,
    _state: PhantomData<S>,
}

impl<T, S> Connect<T, S> {
    /// The transport the handle owns.
    pub closed spec fn transport(&self) -> T {
        self.stream
    }

    pub(crate) fn new(stream: T) -> (r: Self)
        ensures
            r.transport() == stream,
    {
        Connect { stream, _state: PhantomData }
    }

    /// A shared reference to the underlying transport.
    pub fn get_ref(&self) -> (r: &T)
        ensures
            *r == self.transport(),
    {
        &self.stream
    }

    /// A mutable reference to the underlying transport.
    pub fn get_mut(&mut self) -> (r: &mut T)
        ensures
            *r == old(self).transport(),
            final(self).transport() == *final(r),
    {
        &mut self.stream
    }

    /// Consumes the handle and surrenders the raw transport.
    pub fn into_inner(self) -> (r: T)
        ensures
            r == self.transport(),
    {
        self.stream
    }
}

impl<T> Connect<T, NeedReply> {
    /// Builds the response frame that answers the command and advances to
    /// the relay stage. The caller must write the frame before using the
    /// new handle; on a write fault it surrenders the transport instead.
    pub fn reply(self, reply: Reply, addr: Address) -> (r: (Response, Connect<T, Ready>))
        ensures
            r.0.reply == reply,
            r.0.address@ == addr@,
            r.1.transport() == self.transport(),
    {
        (Response::new(reply, addr), Connect { stream: self.stream, _state: PhantomData })
    }
}

} // verus!
