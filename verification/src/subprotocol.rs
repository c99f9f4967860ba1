//! Protocols of a port-forward session.
use vstd::prelude::*;

verus! {

/// Protocol negotiated for a port-forward session.
///
/// Both variants speak the SPDY/3.1 frame format on the wire. They only
/// differ in how frames reach the apiserver.
#[derive(Clone, Copy, Debug, PartialEq, Eq, Structural)]
#[non_exhaustive]
pub enum Subprotocol {
    /// SPDY frames tunnelled inside WebSocket binary messages.
    Spdy31Tunnel,
    /// SPDY frames straight over a raw HTTP upgrade.
    LegacySpdy,
}

impl Subprotocol {
    /// The short name.
    pub fn text(self) -> (r: &'static str)
        ensures
            r@ == (match self {
                Subprotocol::Spdy31Tunnel => "SPDY/3.1+ws"@,
                Subprotocol::LegacySpdy => "SPDY/3.1"@,
            }),
    {
        match self {
            Subprotocol::Spdy31Tunnel => "SPDY/3.1+ws",
            Subprotocol::LegacySpdy => "SPDY/3.1",
        }
    }
}

} // verus!
