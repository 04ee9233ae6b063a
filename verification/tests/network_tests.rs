use futures::channel::oneshot;
use rpc_core::addr::{to_socket_addr, Addr};
use rpc_core::interceptor::{Interceptor, PassTransform};
use rpc_core::network::{FrameOutcome, NetState, Network};
use rpc_core::plugins::{PassWrapper, Plugins};
use rpc_core::proto::Packet;
use rpc_core::server::Server;
use rpc_core::client::Client;
use rpc_core::server_callback::{EchoHandler, Handler, ServerCallback};

/// A dispatch handler that answers `ping` with `pong`.
struct PingPong;

impl Handler for PingPong {
    fn handle(&mut self, pack: &Packet, _from: &Addr) -> Vec<u8> {
        if pack.data == b"ping".to_vec() {
            b"pong".to_vec()
        } else {
            b"unexpected".to_vec()
        }
    }
}

fn server_addr() -> Addr {
    to_socket_addr("127.0.0.1:0").unwrap()
}

fn client_addr(port: u16) -> Addr {
    Addr { a: 127, b: 0, c: 0, d: 1, port }
}

/// Carries one frame from a sender to a receiver endpoint and, when the
/// receiver sees a request, dispatches it and carries the reply back.
fn serve_one<H: Handler>(
    server: &mut Network<H, PassWrapper>,
    from: Addr,
    wire: &Vec<u8>,
    now: u64,
) -> Option<Vec<u8>> {
    match server.handle_frame(wire) {
        FrameOutcome::Request(p) => {
            let (_reply, reply_wire) = server.dispatch(p, from, now);
            Some(reply_wire)
        },
        _ => None,
    }
}

#[test]
fn ping_pong_echo() {
    let mut server: Network<PingPong, PassWrapper> =
        Network::new(server_addr(), ServerCallback::new(PingPong));
    server.listen();
    let mut client: Network<EchoHandler, PassWrapper> = Network::new_default(client_addr(40001));
    client.connect();

    let (tx, mut rx) = oneshot::channel::<Vec<u8>>();
    let (_hash, wire) = client.prepare_send(b"ping".to_vec(), tx, 1);

    let reply_wire = serve_one(&mut server, client_addr(40001), &wire, 2).unwrap();
    match client.handle_frame(&reply_wire) {
        FrameOutcome::Resolved(delivered) => assert!(delivered),
        _ => panic!("reply was not routed to the matcher"),
    }
    assert_eq!(rx.try_recv().unwrap(), Some(b"pong".to_vec()));
}

#[test]
fn out_of_order_replies_reach_their_own_callers() {
    let mut server: Network<EchoHandler, PassWrapper> =
        Network::new(server_addr(), ServerCallback::new_empty());
    server.listen();
    let mut client: Network<EchoHandler, PassWrapper> = Network::new_default(client_addr(40002));
    client.connect();

    let (tx_a, mut rx_a) = oneshot::channel::<Vec<u8>>();
    let (tx_b, mut rx_b) = oneshot::channel::<Vec<u8>>();
    let (_ha, wire_a) = client.prepare_send(b"first".to_vec(), tx_a, 10);
    let (_hb, wire_b) = client.prepare_send(b"second".to_vec(), tx_b, 11);

    let reply_a = serve_one(&mut server, client_addr(40002), &wire_a, 12).unwrap();
    let reply_b = serve_one(&mut server, client_addr(40002), &wire_b, 13).unwrap();

    // The reply to the second request arrives first.
    match client.handle_frame(&reply_b) {
        FrameOutcome::Resolved(delivered) => assert!(delivered),
        _ => panic!("reply was not routed to the matcher"),
    }
    match client.handle_frame(&reply_a) {
        FrameOutcome::Resolved(delivered) => assert!(delivered),
        _ => panic!("reply was not routed to the matcher"),
    }
    assert_eq!(rx_a.try_recv().unwrap(), Some(b"first".to_vec()));
    assert_eq!(rx_b.try_recv().unwrap(), Some(b"second".to_vec()));
}

#[test]
fn two_clients_get_their_own_replies() {
    let mut server: Network<EchoHandler, PassWrapper> =
        Network::new(server_addr(), ServerCallback::new_empty());
    server.listen();
    let mut c1: Network<EchoHandler, PassWrapper> = Network::new_default(client_addr(40003));
    let mut c2: Network<EchoHandler, PassWrapper> = Network::new_default(client_addr(40004));
    c1.connect();
    c2.connect();

    let (tx1, mut rx1) = oneshot::channel::<Vec<u8>>();
    let (tx2, mut rx2) = oneshot::channel::<Vec<u8>>();
    let (_h1, wire1) = c1.prepare_send(b"from one".to_vec(), tx1, 20);
    let (_h2, wire2) = c2.prepare_send(b"from two".to_vec(), tx2, 21);

    let reply1 = serve_one(&mut server, client_addr(40003), &wire1, 22).unwrap();
    let reply2 = serve_one(&mut server, client_addr(40004), &wire2, 23).unwrap();

    // Each reply is correlated by hash, not by arrival order or client:
    // delivering client two's reply to client one matches nothing.
    match c1.handle_frame(&reply2) {
        FrameOutcome::Resolved(delivered) => assert!(!delivered),
        _ => panic!("reply was not routed to the matcher"),
    }
    match c1.handle_frame(&reply1) {
        FrameOutcome::Resolved(delivered) => assert!(delivered),
        _ => panic!("reply was not routed to the matcher"),
    }
    match c2.handle_frame(&reply2) {
        FrameOutcome::Resolved(delivered) => assert!(delivered),
        _ => panic!("reply was not routed to the matcher"),
    }
    assert_eq!(rx1.try_recv().unwrap(), Some(b"from one".to_vec()));
    assert_eq!(rx2.try_recv().unwrap(), Some(b"from two".to_vec()));
}

#[test]
fn timeout_cancels_and_late_reply_is_discarded() {
    let mut server: Network<EchoHandler, PassWrapper> =
        Network::new(server_addr(), ServerCallback::new_empty());
    server.listen();
    let mut client: Network<EchoHandler, PassWrapper> = Network::new_default(client_addr(40005));
    client.connect();

    let (tx, mut rx) = oneshot::channel::<Vec<u8>>();
    let (hash, wire) = client.prepare_send(b"slow call".to_vec(), tx, 30);

    // The timer fires before any reply: the waiter is unregistered and
    // the caller observes cancellation instead of hanging.
    client.cancel_send(hash);
    assert!(rx.try_recv().is_err());

    // The reply arrives late and matches nothing.
    let late = serve_one(&mut server, client_addr(40005), &wire, 31).unwrap();
    match client.handle_frame(&late) {
        FrameOutcome::Resolved(delivered) => assert!(!delivered),
        _ => panic!("reply was not routed to the matcher"),
    }
}

#[test]
fn close_wakes_all_pending_sends() {
    let mut client: Network<EchoHandler, PassWrapper> = Network::new_default(client_addr(40006));
    client.connect();

    let (tx1, mut rx1) = oneshot::channel::<Vec<u8>>();
    let (tx2, mut rx2) = oneshot::channel::<Vec<u8>>();
    let (tx3, mut rx3) = oneshot::channel::<Vec<u8>>();
    let (_h1, _w1) = client.prepare_send(b"one".to_vec(), tx1, 40);
    let (_h2, _w2) = client.prepare_send(b"two".to_vec(), tx2, 41);
    let (_h3, _w3) = client.prepare_send(b"three".to_vec(), tx3, 42);

    client.close();
    assert!(client.state == NetState::Closed);
    assert!(rx1.try_recv().is_err());
    assert!(rx2.try_recv().is_err());
    assert!(rx3.try_recv().is_err());
}

#[test]
fn malformed_frame_leaves_the_endpoint_alive() {
    let mut server: Network<PingPong, PassWrapper> =
        Network::new(server_addr(), ServerCallback::new(PingPong));
    server.listen();
    let mut client: Network<EchoHandler, PassWrapper> = Network::new_default(client_addr(40007));
    client.connect();

    // Garbage first: dropped, no panic, nothing changes.
    match server.handle_frame(&vec![0xde, 0xad, 0xbe, 0xef]) {
        FrameOutcome::Malformed => {},
        _ => panic!("garbage should not decode"),
    }

    // A well-formed frame right after still gets its reply.
    let (tx, mut rx) = oneshot::channel::<Vec<u8>>();
    let (_hash, wire) = client.prepare_send(b"ping".to_vec(), tx, 50);
    let reply = serve_one(&mut server, client_addr(40007), &wire, 51).unwrap();
    match client.handle_frame(&reply) {
        FrameOutcome::Resolved(delivered) => assert!(delivered),
        _ => panic!("reply was not routed to the matcher"),
    }
    assert_eq!(rx.try_recv().unwrap(), Some(b"pong".to_vec()));
}

#[test]
fn send_answer_builds_a_matching_reply() {
    let server: Network<EchoHandler, PassWrapper> = {
        let mut n: Network<EchoHandler, PassWrapper> = Network::new_default(server_addr());
        n.listen();
        n
    };
    let req = Packet::new(b"ping".to_vec(), client_addr(40008), String::new(), 60);
    let wire = Network::send_answer(
        &server,
        b"pong".to_vec(),
        req.header.msg_hash.clone(),
        61,
    );
    let mut client: Network<EchoHandler, PassWrapper> = Network::new_default(client_addr(40008));
    client.connect();
    let (tx, mut rx) = oneshot::channel::<Vec<u8>>();
    let (_h, _w) = client.prepare_send(b"ping".to_vec(), tx, 60);
    match client.handle_frame(&wire) {
        FrameOutcome::Resolved(delivered) => assert!(delivered),
        _ => panic!("reply was not routed to the matcher"),
    }
    assert_eq!(rx.try_recv().unwrap(), Some(b"pong".to_vec()));
}

#[test]
fn pass_plugins_leave_packets_unchanged() {
    let mut plugins: Plugins<PassWrapper> = Plugins::new();
    plugins.add(PassWrapper {});
    plugins.add(PassWrapper {});
    let p = Packet::new(b"data".to_vec(), client_addr(40009), String::new(), 70);
    let hash = p.header.msg_hash.clone();
    let q = plugins.run_on_send(p);
    assert_eq!(q.data, b"data".to_vec());
    assert_eq!(q.header.msg_hash, hash);
    let r = plugins.run_on_recv(q);
    assert_eq!(r.data, b"data".to_vec());
    assert_eq!(r.header.msg_hash, hash);
}

#[test]
fn interceptor_runs_installed_transform() {
    let mut it: Interceptor<PassTransform> = Interceptor::new();
    let p = Packet::new(b"x".to_vec(), client_addr(40010), String::new(), 80);
    let hash = p.header.msg_hash.clone();
    let q = it.run(p);
    assert_eq!(q.header.msg_hash, hash);
    it.set(PassTransform {});
    let r = it.run(q);
    assert_eq!(r.header.msg_hash, hash);
}

#[test]
fn server_and_client_close_their_networks() {
    let mut snet: Network<EchoHandler, PassWrapper> = Network::new_default(server_addr());
    snet.listen();
    let mut server: Server<EchoHandler, PassWrapper, PassTransform> = Server::new(snet);
    server.set_interceptor(PassTransform {});
    server.close();
    assert!(server.network.state == NetState::Closed);

    let mut cnet: Network<EchoHandler, PassWrapper> = Network::new_default(client_addr(40011));
    cnet.connect();
    let mut client = Client::new(server_addr(), cnet);
    client.close();
    assert!(client.network.state == NetState::Closed);
}

#[test]
fn echo_handler_duplicates_the_request_body() {
    let mut server: Network<EchoHandler, PassWrapper> =
        Network::new(server_addr(), ServerCallback::new_empty());
    server.listen();
    let req = Packet::new(b"echo me".to_vec(), client_addr(40012), String::new(), 90);
    let (reply, _wire) = server.dispatch(req, client_addr(40012), 91);
    assert_eq!(reply.data, b"echo me".to_vec());
}
