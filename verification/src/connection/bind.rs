//! The Bind command: two replies in order — the bound listen address, then
//! the connected remote peer — before the connection is the relay stream.

use crate::address::Address;
use crate::reply::Reply;
use crate::response::Response;
use core::marker::PhantomData;
use vstd::prelude::*;

verus! {

/// Marker: the command still awaits its first reply.
pub struct NeedFirstReply;

/// Marker: the first reply is out; the second is owed.
pub struct NeedSecondReply;

/// Marker: both replies are out; the handle stands for the raw byte stream.
pub struct Ready;

/// A connection answering a Bind command, at stage `S`.
pub struct Bind<T, S> {
    stream: T,
    _state: PhantomData<S>,
}

impl<T, S> Bind<T, S> {
    /// The transport the handle owns.
    pub closed spec fn transport(&self) -> T {
        self.stream
    }

    pub(crate) fn new(stream: T) -> (r: Self)
        ensures
            r.transport() == stream,
    {
        Bind { stream, _state: PhantomData }
    }

    /// A shared reference to the underlying transport.
    pub fn get_ref(&self) -> (r: &T)
        ensures
            *r == self.transport(),
    {
        &self.stream
    }

    /// A mutable reference to the underlying transport.
    pub fn get_mut(&mut self) -> (r: &mut T)
        ensures
            *r == old(self).transport(),
            final(self).transport() == *final(r),
    {
        &mut self.stream
    }

    /// Consumes the handle and surrenders the raw transport.
    pub fn into_inner(self) -> (r: T)
        ensures
            r == self.transport(),
    {
        self.stream
    }
}

impl<T> Bind<T, NeedFirstReply> {
    /// Builds the first response frame — the address the server is
    /// listening on — and advances to the stage that owes the second. The
    /// caller must write the frame before going on.
    pub fn reply(self, reply: Reply, addr: Address) -> (r: (Response, Bind<T, NeedSecondReply>))
        ensures
            r.0.reply == reply,
            r.0.address@ == addr@,
            r.1.transport() == self.transport(),
    {
        (Response::new(reply, addr), Bind { stream: self.stream, _state: PhantomData })
    }
}

impl<T> Bind<T, NeedSecondReply> {
    /// Builds the second response frame — the address of the peer that
    /// connected in — and advances to the relay stage. The caller must
    /// write the frame before using the new handle.
    pub fn reply(self, reply: Reply, addr: Address) -> (r: (Response, Bind<T, Ready>))
        ensures
            r.0.reply == reply,
            r.0.address@ == addr@,
            r.1.transport() == self.transport(),
    {
        (Response::new(reply, addr), Bind { stream: self.stream, _state: PhantomData })
    }
}

} // verus!
