//! The Associate command: one reply naming the relay's UDP endpoint, after
//! which the TCP connection only signals, by closing, that the association
//! ends.

use crate::address::Address;
use crate::reply::Reply;
use crate::response::Response;
use core::marker::PhantomData;
use vstd::prelude::*;

verus! {

/// Marker: the command still awaits its reply.
pub struct NeedReply;

/// Marker: the reply is out; the association lives until the peer closes.
pub struct Ready;

/// A connection answering an Associate command, at stage `S`.
pub struct Associate<T, S> {
    stream: T,
    _state: PhantomData<S>,
}

impl<T, S> Associate<T, S> {
    /// The transport the handle owns.
    pub closed spec fn transport(&self) -> T {
        self.stream
    }

    pub(crate) fn new(stream: T) -> (r: Self)
        ensures
            r.transport() == stream,
    {
        Associate { stream, _state: PhantomData }
    }

    /// A shared reference to the underlying transport.
    pub fn get_ref(&self) -> (r: &T)
        ensures
            *r == self.transport(),
    {
        &self.stream
    }

    /// A mutable reference to the underlying transport.
    pub fn get_mut(&mut self) -> (r: &mut T)
        ensures
            *r == old(self).transport(),
            final(self).transport() == *final(r),
    {
        &mut self.stream
    }

    /// Consumes the handle and surrenders the raw transport.
    pub fn into_inner(self) -> (r: T)
        ensures
            r == self.transport(),
    {
        self.stream
    }
}

impl<T> Associate<T, NeedReply> {
    /// Builds the response frame that names the relay's UDP endpoint and
    /// advances to the association stage. The caller must write the frame
    /// before using the new handle.
    pub fn reply(self, reply: Reply, addr: Address) -> (r: (Response, Associate<T, Ready>))
        ensures
            r.0.reply == reply,
            r.0.address@ == addr@,
            r.1.transport() == self.transport(),
    {
        (Response::new(reply, addr), Associate { stream: self.stream, _state: PhantomData })
    }
}

} // verus!
