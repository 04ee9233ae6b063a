//! The interceptor chain.
//!
//! Plugins are pure packet transformations registered by the surrounding
//! application for cross-cutting concerns. On send they run in
//! registration order; on receive, in reverse order, so that a pair of
//! inverse transformations (compress/decompress, encrypt/decrypt)
//! composes correctly around the wire.

use vstd::prelude::*;
use crate::proto::{Packet, PacketV};

verus! {

/// One link of the chain. `spec_on_send` and `spec_on_recv` say what the
/// wrapper computes; the executable hooks are bound to them and must
/// keep a well-formed packet well formed.
pub trait Wrapper {
    /// The packet an outgoing packet is rewritten to.
    spec fn spec_on_send(&self, p: PacketV) -> PacketV;

    /// The packet an incoming packet is rewritten to.
    spec fn spec_on_recv(&self, p: PacketV) -> PacketV;

    /// Rewrites an outgoing packet.
    fn on_send(&self, pack: Packet) -> (r: Packet)
        ensures
            r@ == self.spec_on_send(pack@),
            pack@.wf() ==> r@.wf(),
    ;

    /// Rewrites an incoming packet.
    fn on_recv(&self, pack: Packet) -> (r: Packet)
        ensures
            r@ == self.spec_on_recv(pack@),
            pack@.wf() ==> r@.wf(),
    ;
}

/// A wrapper that leaves every packet as it is.
pub struct PassWrapper {}

impl Wrapper for PassWrapper {
    open spec fn spec_on_send(&self, p: PacketV) -> PacketV {
        p
    }

    open spec fn spec_on_recv(&self, p: PacketV) -> PacketV {
        p
    }

    fn on_send(&self, pack: Packet) -> (r: Packet) {
        pack
    }

    fn on_recv(&self, pack: Packet) -> (r: Packet) {
        pack
    }
}

/// The whole chain applied to an outgoing packet: wrapper `0` first,
/// then each later one on the result of the one before it.
pub open spec fn spec_chain_send<W: Wrapper>(ws: Seq<W>, p: PacketV) -> PacketV
    decreases ws.len(),
{
    if ws.len() == 0 {
        p
    } else {
        spec_chain_send(ws.drop_first(), ws.first().spec_on_send(p))
    }
}

/// The whole chain applied to an incoming packet: the last registered
/// wrapper first, back to wrapper `0`.
pub open spec fn spec_chain_recv<W: Wrapper>(ws: Seq<W>, p: PacketV) -> PacketV
    decreases ws.len(),
{
    if ws.len() == 0 {
        p
    } else {
        spec_chain_recv(ws.drop_last(), ws.last().spec_on_recv(p))
    }
}

/// The registered wrappers, in registration order.
pub struct Plugins<W: Wrapper> {
    pub wrappers: Vec<W>,
}

impl<W: Wrapper> Plugins<W> {
    /// An empty chain.
    pub fn new() -> (r: Plugins<W>)
        ensures
            r.wrappers@ == Seq::<W>::empty(),
    {
        Plugins { wrappers: Vec::new() }
    }

    /// Registers `wrapper` after all earlier ones.
    pub fn add(&mut self, wrapper: W)
        ensures
            final(self).wrappers@ == old(self).wrappers@.push(wrapper),
    {
        self.wrappers.push(wrapper);
    }

    /// Runs the chain over an outgoing packet, in registration order.
    pub fn run_on_send(&self, data: Packet) -> (r: Packet)
        ensures
            r@ == spec_chain_send(self.wrappers@, data@),
            data@.wf() ==> r@.wf(),
    {
        let ghost p0: PacketV = data@;
        let ghost ws: Seq<W> = self.wrappers@;
        let n = self.wrappers.len();
        let mut cur = data;
        let mut i: usize = 0;
        proof {
            assert(ws.skip(0) =~= ws);
        }
        while i < n
            invariant
                i <= n,
                n == ws.len(),
                ws == self.wrappers@,
                spec_chain_send(ws, p0) == spec_chain_send(ws.skip(i as int), cur@),
                p0.wf() ==> cur@.wf(),
            decreases n - i,
        {
            proof {
                assert(ws.skip(i as int).first() == ws[i as int]);
                assert(ws.skip(i as int).drop_first() =~= ws.skip(i as int + 1));
            }
            cur = self.wrappers[i].on_send(cur);
            i = i + 1;
        }
        proof {
            assert(ws.skip(n as int) =~= Seq::<W>::empty());
        }
        cur
    }

    /// Runs the chain over an incoming packet, in reverse registration
    /// order.
    pub fn run_on_recv(&self, data: Packet) -> (r: Packet)
        ensures
            r@ == spec_chain_recv(self.wrappers@, data@),
            data@.wf() ==> r@.wf(),
    {
        let ghost p0: PacketV = data@;
        let ghost ws: Seq<W> = self.wrappers@;
        let n = self.wrappers.len();
        let mut cur = data;
        let mut i: usize = n;
        proof {
            assert(ws.subrange(0, n as int) =~= ws);
        }
        while i > 0
            invariant
                i <= n,
                n == ws.len(),
                ws == self.wrappers@,
                spec_chain_recv(ws, p0) == spec_chain_recv(ws.subrange(0, i as int), cur@),
                p0.wf() ==> cur@.wf(),
            decreases i,
        {
            proof {
                assert(ws.subrange(0, i as int).last() == ws[i as int - 1]);
                assert(ws.subrange(0, i as int).drop_last() =~= ws.subrange(0, i as int - 1));
            }
            cur = self.wrappers[i - 1].on_recv(cur);
            i = i - 1;
        }
        proof {
            assert(ws.subrange(0, 0) =~= Seq::<W>::empty());
        }
        cur
    }
}

} // verus!
