//! Built-in authentication adaptors: the method byte each one advertises,
//! and the decision a password sub-negotiation comes down to. Running the
//! sub-negotiation on a live stream is the host's part; the verdict on a
//! parsed request is decided here.

use crate::codec::bytes_eq;
use crate::handshake::method::Method;
use crate::handshake::password::{Request as PasswordRequest, Response as PasswordResponse};
use vstd::prelude::*;

verus! {

/// Not authenticate at all: advertises method 0x00 and accepts every peer.
pub struct NoAuth;

impl NoAuth {
    pub fn new() -> NoAuth {
        NoAuth
    }

    /// The single method byte this adaptor is willing to advertise.
    pub fn as_handshake_method(&self) -> (m: Method)
        ensures
            m == Method(0x00),
    {
        Method(0x00)
    }
}

/// Username/password authentication: advertises method 0x02 and accepts a
/// peer exactly when both fields match bytewise.
pub struct Password {
    pub username: Vec<u8>,
    pub password: Vec<u8>,
}

impl Password {
    /// A password adaptor accepting exactly this username and password.
    pub fn new(username: Vec<u8>, password: Vec<u8>) -> (r: Password)
        ensures
            r.username@ == username@,
            r.password@ == password@,
    {
        Password { username, password }
    }

    /// The single method byte this adaptor is willing to advertise.
    pub fn as_handshake_method(&self) -> (m: Method)
        ensures
            m == Method(0x02),
    {
        Method(0x02)
    }

    /// Decides one password sub-negotiation: the verdict is true exactly
    /// when both the username and the password of the request match this
    /// adaptor's bytewise, and the response to send reports that verdict.
    pub fn evaluate(&self, req: &PasswordRequest) -> (r: (PasswordResponse, bool))
        ensures
            r.1 == (req.username@ == self.username@ && req.password@ == self.password@),
            r.0.status == r.1,
    {
        let user_ok = bytes_eq(req.username.as_slice(), self.username.as_slice());
        let pass_ok = bytes_eq(req.password.as_slice(), self.password.as_slice());
        let ok = user_ok && pass_ok;
        (PasswordResponse::new(ok), ok)
    }
}

} // verus!
