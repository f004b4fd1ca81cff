//! The one-byte identifier of an authentication method.

use vstd::prelude::*;

verus! {

/// Handshake method byte. Well-known values: 0x00 no authentication,
/// 0x01 GSSAPI, 0x02 username/password, 0xFF no acceptable method; any
/// other value is a caller-defined method.
#[derive(Clone, Copy, Debug, PartialEq, Eq, Hash, Structural)]
pub struct Method(pub u8);

} // verus!
