//! The orchestration layer of one endpoint.
//!
//! A [`Network`] owns the correlation state of one logical endpoint: its
//! local address, the interceptor chain, the swappable inbound callback
//! and the pending-reply table. The unverified shell around it owns the
//! sockets and threads; it feeds every received frame to
//! [`Network::handle_frame`] and transmits whatever bytes the library
//! hands back.
//!
//! An endpoint moves `Created → Running → Closed` and never leaves
//! `Closed`. Sending splits into [`Network::prepare_send`] (build the
//! request, register the waiter, serialize), the shell's race between
//! the reply channel and a timer, and — if the timer wins —
//! [`Network::cancel_send`], which unregisters the waiter so a late
//! reply finds nothing and the entry does not leak.

use vstd::prelude::*;
use futures::channel::oneshot::Sender;
use crate::addr::Addr;
use crate::async_response_matcher::AsyncResponseMatcher;
use crate::plugins::{Plugins, Wrapper, spec_chain_recv, spec_chain_send};
use crate::proto::{Packet, PacketHeaderV, PacketV, spec_content_hash};
use crate::server_callback::{EchoHandler, Handler, ServerCallback};
use crate::utils::Mutexed;
use crate::wire::{decode_packet, encode_packet, spec_decode, spec_encode};
use vstd::utf8::is_ascii_chars;

verus! {

/// Where an endpoint stands in its life; there is no way back from
/// `Closed`.
#[derive(Clone, Copy, PartialEq, Eq, Structural, Debug)]
pub enum NetState {
    Created,
    Running,
    Closed,
}

/// The packet a fresh send or answer builds: the given fields, with the
/// content hash stamped over them.
pub open spec fn spec_new_packet(
    sender: Addr,
    data: Seq<u8>,
    response_to: Seq<char>,
    now: u64,
) -> PacketV {
    let base = PacketV {
        header: PacketHeaderV { sender, date: now, msg_hash: Seq::empty(), response_to },
        data,
    };
    PacketV {
        header: PacketHeaderV {
            sender,
            date: now,
            msg_hash: spec_content_hash(base),
            response_to,
        },
        data,
    }
}

/// What became of one inbound frame.
pub enum FrameOutcome {
    /// The frame did not decode; it is dropped and nothing else changes.
    Malformed,
    /// The frame was a reply and was routed to the pending-reply table;
    /// the flag says whether a waiter was found and woken.
    Resolved(bool),
    /// The frame was a request: the caller hands it to the callback via
    /// [`Network::dispatch`].
    Request(Packet),
}

/// One endpoint's correlation engine.
pub struct Network<H, W: Wrapper> {
    /// The local address packets are stamped with.
    pub addr: Addr,
    /// The interceptor chain.
    pub plugins: Plugins<W>,
    /// The inbound-request callback, swappable at runtime.
    pub callback: Mutexed<ServerCallback<H>>,
    /// The pending-reply table.
    pub matcher: AsyncResponseMatcher,
    /// Where the endpoint stands in its life.
    pub state: NetState,
}

impl<H: Handler, W: Wrapper> Network<H, W> {
    pub open spec fn wf(self) -> bool {
        self.matcher.inv()
    }

    /// A new endpoint around `callback`, not yet started.
    pub fn new(addr: Addr, callback: ServerCallback<H>) -> (r: Network<H, W>)
        ensures
            r.wf(),
            r.addr == addr,
            r.state == NetState::Created,
            r.matcher@ == Map::<Seq<char>, Sender<Vec<u8>>>::empty(),
            r.plugins.wrappers@ == Seq::<W>::empty(),
            r.callback.value == callback,
    {
        Network {
            addr,
            plugins: Plugins::new(),
            callback: Mutexed::new(callback),
            matcher: AsyncResponseMatcher::new(),
            state: NetState::Created,
        }
    }

    /// Starts serving: the shell binds its socket and begins feeding
    /// frames in.
    pub fn listen(&mut self)
        requires
            old(self).wf(),
            old(self).state == NetState::Created,
        ensures
            final(self).wf(),
            final(self).state == NetState::Running,
            final(self).addr == old(self).addr,
            final(self).matcher@ == old(self).matcher@,
            final(self).plugins == old(self).plugins,
            final(self).callback == old(self).callback,
    {
        self.state = NetState::Running;
    }

    /// Starts as a client: the shell establishes its connection and
    /// begins feeding frames in. Whether the connection could be made is
    /// the shell's to report; the endpoint state machine is the same as
    /// for [`Network::listen`].
    pub fn connect(&mut self)
        requires
            old(self).wf(),
            old(self).state == NetState::Created,
        ensures
            final(self).wf(),
            final(self).state == NetState::Running,
            final(self).addr == old(self).addr,
            final(self).matcher@ == old(self).matcher@,
            final(self).plugins == old(self).plugins,
            final(self).callback == old(self).callback,
    {
        self.state = NetState::Running;
    }

    /// Installs a new inbound callback, replacing the current one.
    pub fn set_callback(&mut self, callback: ServerCallback<H>)
        ensures
            final(self).wf() == old(self).wf(),
            final(self).callback.value == callback,
            final(self).addr == old(self).addr,
            final(self).state == old(self).state,
            final(self).matcher == old(self).matcher,
            final(self).plugins == old(self).plugins,
    {
        self.callback.set(callback);
    }

    /// One step of the read loop: decode a received frame, run it
    /// through the interceptor chain in reverse order, and route it. A
    /// reply goes to the pending-reply table, where it wakes its waiter
    /// if — and only if — one is still registered; a request is handed
    /// back for dispatch; a malformed frame is dropped and the endpoint
    /// carries on unchanged.
    pub fn handle_frame(&mut self, bytes: &Vec<u8>) -> (r: FrameOutcome)
        requires
            old(self).wf(),
            old(self).state == NetState::Running,
        ensures
            final(self).wf(),
            final(self).addr == old(self).addr,
            final(self).state == old(self).state,
            final(self).plugins == old(self).plugins,
            final(self).callback == old(self).callback,
            match spec_decode(bytes@) {
                None => r is Malformed && final(self).matcher@ == old(self).matcher@,
                Some(pv) => {
                    let q = spec_chain_recv(old(self).plugins.wrappers@, pv);
                    if q.is_reply() {
                        &&& r == FrameOutcome::Resolved(
                            old(self).matcher@.contains_key(q.header.response_to),
                        )
                        &&& final(self).matcher@ == old(self).matcher@.remove(
                            q.header.response_to,
                        )
                    } else {
                        &&& r matches FrameOutcome::Request(p) && p@ == q
                        &&& final(self).matcher@ == old(self).matcher@
                    }
                },
            },
    {
        let decoded = decode_packet(bytes);
        match decoded {
            None => FrameOutcome::Malformed,
            Some(p) => {
                let q = self.plugins.run_on_recv(p);
                if q.header.response_to.as_str().is_empty() {
                    FrameOutcome::Request(q)
                } else {
                    let Packet { header, data } = q;
                    let delivered = AsyncResponseMatcher::resolve(
                        &mut self.matcher,
                        header.response_to,
                        data,
                    );
                    FrameOutcome::Resolved(delivered)
                }
            },
        }
    }

    /// The compute half of a send: builds the request packet over
    /// `buff`, registers `tx` — the sending half of the caller's reply
    /// channel — under the packet's content hash, runs the interceptor
    /// chain, and serializes. The shell transmits the returned bytes and
    /// then waits for the reply channel or a timer, whichever fires
    /// first; the returned hash is what [`Network::cancel_send`] takes
    /// if the timer wins.
    pub fn prepare_send(&mut self, buff: Vec<u8>, tx: Sender<Vec<u8>>, now: u64) -> (r: (
        String,
        Vec<u8>,
    ))
        requires
            old(self).wf(),
            old(self).state == NetState::Running,
        ensures
            final(self).wf(),
            final(self).addr == old(self).addr,
            final(self).state == old(self).state,
            final(self).plugins == old(self).plugins,
            final(self).callback == old(self).callback,
            ({
                let p = spec_new_packet(old(self).addr, buff@, Seq::<char>::empty(), now);
                &&& r.0@ == p.header.msg_hash
                &&& r.1@ == spec_encode(spec_chain_send(old(self).plugins.wrappers@, p))
                &&& final(self).matcher@ == old(self).matcher@.insert(p.header.msg_hash, tx)
            }),
    {
        let pack = Packet::new(buff, self.addr, String::new(), now);
        proof {
            let p = spec_new_packet(old(self).addr, buff@, Seq::<char>::empty(), now);
            assert(pack@.cleared() == p.cleared());
            assert(pack@ == p);
        }
        let hash_ret = pack.header.msg_hash.clone();
        let hash_key = pack.header.msg_hash.clone();
        self.matcher.add(hash_key, tx);
        let chained = self.plugins.run_on_send(pack);
        let wire = encode_packet(&chained);
        (hash_ret, wire)
    }

    /// The timeout path of a send: unregisters the waiter on `hash` so
    /// that a reply arriving later finds nothing to wake and the entry
    /// does not leak. A no-op if the reply won the race first.
    pub fn cancel_send(&mut self, hash: String)
        requires
            old(self).wf(),
        ensures
            final(self).wf(),
            final(self).addr == old(self).addr,
            final(self).state == old(self).state,
            final(self).plugins == old(self).plugins,
            final(self).callback == old(self).callback,
            final(self).matcher@ == old(self).matcher@.remove(hash@),
    {
        AsyncResponseMatcher::remove(&mut self.matcher, hash);
    }

    /// Dispatches one request packet: hands it to the inbound callback
    /// exactly once, and wraps whatever body the callback produced into
    /// a reply addressed by hash — sender this endpoint, `response_to`
    /// the request's content hash — serialized through the interceptor
    /// chain. Returns the reply packet and its wire frame; the shell
    /// transmits the frame back to the peer the request came from.
    pub fn dispatch(&mut self, pack: Packet, from: Addr, now: u64) -> (r: (Packet, Vec<u8>))
        requires
            old(self).wf(),
            old(self).state == NetState::Running,
            pack@.wf(),
        ensures
            final(self).wf(),
            final(self).addr == old(self).addr,
            final(self).state == old(self).state,
            final(self).plugins == old(self).plugins,
            final(self).matcher@ == old(self).matcher@,
            r.0@.header.sender == old(self).addr,
            r.0@.header.date == now,
            r.0@.header.response_to == pack@.header.msg_hash,
            r.0@.header.msg_hash == spec_content_hash(r.0@),
            r.0@.wf(),
            r.1@ == spec_encode(spec_chain_send(old(self).plugins.wrappers@, r.0@)),
    {
        let body = self.callback.value.closure.handle(&pack, &from);
        let Packet { header, data } = pack;
        let reply = Packet::new(body, self.addr, header.msg_hash, now);
        let chained = self.plugins.run_on_send(reply.duplicate());
        let wire = encode_packet(&chained);
        (reply, wire)
    }

    /// Builds and serializes a reply by hand: the fire-and-forget path a
    /// dispatch layer uses when it answers on its own schedule rather
    /// than through [`Network::dispatch`]'s return value.
    pub fn send_answer(net: &Network<H, W>, buff: Vec<u8>, response_to: String, now: u64) -> (wire:
        Vec<u8>)
        requires
            net.wf(),
            net.state == NetState::Running,
            is_ascii_chars(response_to@),
        ensures
            wire@ == spec_encode(
                spec_chain_send(
                    net.plugins.wrappers@,
                    spec_new_packet(net.addr, buff@, response_to@, now),
                ),
            ),
    {
        let pack = Packet::new(buff, net.addr, response_to, now);
        let chained = net.plugins.run_on_send(pack);
        encode_packet(&chained)
    }

    /// Shuts the endpoint down: no transition leads back out of
    /// `Closed`, and every pending waiter is dropped. Dropping the
    /// sending half of a one-shot channel wakes its receiver with a
    /// cancellation, so all blocked senders return promptly; none hangs.
    pub fn close(&mut self)
        requires
            old(self).wf(),
        ensures
            final(self).wf(),
            final(self).addr == old(self).addr,
            final(self).state == NetState::Closed,
            final(self).matcher@ == Map::<Seq<char>, Sender<Vec<u8>>>::empty(),
    {
        self.state = NetState::Closed;
        self.matcher.close();
    }
}

impl<W: Wrapper> Network<EchoHandler, W> {
    /// A new endpoint with the placeholder echo callback.
    pub fn new_default(addr: Addr) -> (r: Network<EchoHandler, W>)
        ensures
            r.wf(),
            r.addr == addr,
            r.state == NetState::Created,
            r.matcher@ == Map::<Seq<char>, Sender<Vec<u8>>>::empty(),
            r.plugins.wrappers@ == Seq::<W>::empty(),
    {
        Self::new(addr, ServerCallback::new_empty())
    }
}

} // verus!
