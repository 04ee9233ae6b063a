//! The inbound-request callback.
//!
//! Every inbound packet that is not itself a reply is handed to exactly
//! one handler, which produces the body of the answer. The dispatch
//! layer above this crate implements [`Handler`]; what it computes is
//! its own business, so the trait carries no contract and any ordinary
//! implementation will do.

use vstd::prelude::*;
use crate::addr::Addr;
use crate::proto::Packet;

verus! {

/// The dispatch hook: produces the reply body for one request packet.
/// Implemented by the stub/dispatch layer outside this crate.
pub trait Handler {
    /// Handles the request in `pack`, which arrived from `from`, and
    /// returns the serialized reply body.
    fn handle(&mut self, pack: &Packet, from: &Addr) -> Vec<u8>;
}

/// The placeholder handler: echoes the request body back unchanged.
pub struct EchoHandler {}

impl Handler for EchoHandler {
    fn handle(&mut self, pack: &Packet, from: &Addr) -> Vec<u8> {
        crate::utils::clone_bytes(&pack.data)
    }
}

/// The slot a [`Handler`] travels in.
pub struct ServerCallback<H> {
    pub closure: H,
}

impl<H: Handler> ServerCallback<H> {
    pub fn new(closure: H) -> (r: ServerCallback<H>)
        ensures
            r.closure == closure,
    {
        ServerCallback { closure }
    }
}

impl ServerCallback<EchoHandler> {
    /// A callback that echoes every request; the default until the
    /// dispatch layer installs its own.
    pub fn new_empty() -> (r: ServerCallback<EchoHandler>) {
        ServerCallback { closure: EchoHandler {  } }
    }
}

} // verus!
