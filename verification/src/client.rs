//! The client-side handle: a running endpoint and the server address it
//! talks to.

use vstd::prelude::*;
use crate::addr::Addr;
use crate::network::{NetState, Network};
use crate::plugins::Wrapper;
use crate::server_callback::Handler;
use futures::channel::oneshot::Sender;

verus! {

/// A client endpoint: where the server is, and the network that talks
/// to it.
pub struct Client<H, W: Wrapper> {
    pub serv_addr: Addr,
    pub network: Network<H, W>,
}

impl<H: Handler, W: Wrapper> Client<H, W> {
    /// Wraps an endpoint talking to `serv_addr`.
    pub fn new(serv_addr: Addr, network: Network<H, W>) -> (r: Client<H, W>)
        ensures
            r.serv_addr == serv_addr,
            r.network == network,
    {
        Client { serv_addr, network }
    }

    /// Shuts the endpoint down; every call still waiting on a reply is
    /// woken rather than left hanging.
    pub fn close(&mut self)
        requires
            old(self).network.wf(),
        ensures
            final(self).network.wf(),
            final(self).network.state == NetState::Closed,
            final(self).network.matcher@ == Map::<Seq<char>, Sender<Vec<u8>>>::empty(),
    {
        self.network.close();
    }
}

} // verus!
