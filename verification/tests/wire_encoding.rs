use socks5_core::wire::{
    Ipv4Octets, decode_port, encode_connect_reply, encode_method_reply, encode_port,
};

#[test]
fn decode_port_http() {
    assert_eq!(decode_port(0x00, 0x50), 80);
}

#[test]
fn decode_port_extremes() {
    assert_eq!(decode_port(0x00, 0x00), 0);
    assert_eq!(decode_port(0xFF, 0xFF), 65535);
    assert_eq!(decode_port(0x1F, 0x90), 8080);
}

#[test]
fn encode_port_http() {
    assert_eq!(encode_port(80), (0x00, 0x50));
    assert_eq!(encode_port(8080), (0x1F, 0x90));
    assert_eq!(encode_port(65535), (0xFF, 0xFF));
}

#[test]
fn port_round_trip() {
    let (hi, lo) = encode_port(33000);
    assert_eq!(decode_port(hi, lo), 33000);
}

#[test]
fn method_reply_accept() {
    assert_eq!(encode_method_reply(0x00), vec![0x05, 0x00]);
}

#[test]
fn method_reply_reject() {
    assert_eq!(encode_method_reply(0xFF), vec![0x05, 0xFF]);
}

#[test]
fn connect_reply_loopback() {
    let ip = Ipv4Octets { a: 127, b: 0, c: 0, d: 1 };
    assert_eq!(
        encode_connect_reply(ip, 80),
        vec![0x05, 0x00, 0x00, 0x01, 127, 0, 0, 1, 0x00, 0x50]
    );
}

#[test]
fn connect_reply_high_port() {
    let ip = Ipv4Octets { a: 192, b: 168, c: 1, d: 5 };
    assert_eq!(
        encode_connect_reply(ip, 33000),
        vec![0x05, 0x00, 0x00, 0x01, 192, 168, 1, 5, 0x80, 0xE8]
    );
}
