//! The server-side handle: a running endpoint plus one settable
//! interceptor for packets.

use vstd::prelude::*;
use crate::interceptor::{Interceptor, Transform};
use crate::network::{NetState, Network};
use crate::plugins::Wrapper;
use crate::proto::Packet;
use crate::server_callback::Handler;
use futures::channel::oneshot::Sender;

verus! {

/// A server endpoint: its network and a packet interceptor slot.
pub struct Server<H, W: Wrapper, F: Transform<Item = Packet>> {
    pub network: Network<H, W>,
    pub interceptor: Interceptor<F>,
}

impl<H: Handler, W: Wrapper, F: Transform<Item = Packet>> Server<H, W, F> {
    /// Wraps an endpoint; no interceptor installed yet.
    pub fn new(net: Network<H, W>) -> (r: Server<H, W, F>)
        ensures
            r.network == net,
            r.interceptor.transform is None,
    {
        Server { network: net, interceptor: Interceptor::new() }
    }

    /// Shuts the endpoint down; every caller still waiting on a reply
    /// is woken.
    pub fn close(&mut self)
        requires
            old(self).network.wf(),
        ensures
            final(self).network.wf(),
            final(self).network.state == NetState::Closed,
            final(self).network.matcher@ == Map::<Seq<char>, Sender<Vec<u8>>>::empty(),
    {
        self.network.close();
    }

    /// Installs the packet interceptor.
    pub fn set_interceptor(&mut self, cb: F)
        ensures
            final(self).interceptor.transform == Some(cb),
            final(self).network == old(self).network,
    {
        self.interceptor.set(cb);
    }
}

} // verus!
