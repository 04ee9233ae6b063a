use rpc_core::addr::{to_socket_addr, Addr};

#[test]
fn parses_plain_address() {
    let a = to_socket_addr("127.0.0.1:3000").unwrap();
    assert_eq!(
        a,
        Addr { a: 127, b: 0, c: 0, d: 1, port: 3000 }
    );
}

#[test]
fn parses_extremes() {
    assert_eq!(
        to_socket_addr("0.0.0.0:0").unwrap(),
        Addr { a: 0, b: 0, c: 0, d: 0, port: 0 }
    );
    assert_eq!(
        to_socket_addr("255.255.255.255:65535").unwrap(),
        Addr { a: 255, b: 255, c: 255, d: 255, port: 65535 }
    );
}

#[test]
fn rejects_malformed_addresses() {
    // Out-of-range parts.
    assert!(to_socket_addr("256.0.0.1:80").is_none());
    assert!(to_socket_addr("1.2.3.4:65536").is_none());
    // Wrong shape.
    assert!(to_socket_addr("1.2.3:80").is_none());
    assert!(to_socket_addr("1.2.3.4.5:80").is_none());
    assert!(to_socket_addr("1.2.3.4").is_none());
    assert!(to_socket_addr("1.2.3.4:").is_none());
    assert!(to_socket_addr(":80").is_none());
    assert!(to_socket_addr("").is_none());
    // Not digits.
    assert!(to_socket_addr("a.b.c.d:e").is_none());
    assert!(to_socket_addr("1.2.3.4:80x").is_none());
    // Leading zeros.
    assert!(to_socket_addr("01.2.3.4:80").is_none());
    assert!(to_socket_addr("1.2.3.4:080").is_none());
}
