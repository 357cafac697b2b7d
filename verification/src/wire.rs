//! Byte-level vocabulary of the SOCKS5 wire protocol: the protocol constants,
//! big-endian port encoding, and the two reply messages the server writes
//! (the method-selection reply and the CONNECT reply).

use vstd::prelude::*;

verus! {

/// Protocol version carried by every SOCKS5 message.
pub const SOCKS_VERSION: u8 = 0x05;

/// Authentication method "no authentication required".
pub const METHOD_NO_AUTH: u8 = 0x00;

/// Method-selection reply meaning "no acceptable methods".
pub const METHOD_NO_ACCEPTABLE: u8 = 0xFF;

/// Request command: CONNECT.
pub const CMD_CONNECT: u8 = 0x01;

/// Request command: BIND (recognized, not supported).
pub const CMD_BIND: u8 = 0x02;

/// Request command: UDP ASSOCIATE (recognized, not supported).
pub const CMD_UDP_ASSOCIATE: u8 = 0x03;

/// Address type: IPv4, a 4-byte address.
pub const ATYP_IPV4: u8 = 0x01;

/// Address type: domain name, a 1-byte length followed by that many bytes.
pub const ATYP_DOMAIN: u8 = 0x03;

/// Address type: IPv6 (recognized, not supported).
pub const ATYP_IPV6: u8 = 0x04;

/// Reply code: succeeded.
pub const REPLY_SUCCESS: u8 = 0x00;

/// Cap on the number of authentication methods a client may offer. This is a
/// local policy choice of this implementation, not part of SOCKS5, which
/// allows up to 255.
pub const MAX_METHODS: u8 = 5;

/// An IPv4 address as its four octets, most significant first.
#[derive(PartialEq, Eq, Structural, Clone, Copy, Debug)]
pub struct Ipv4Octets {
    pub a: u8,
    pub b: u8,
    pub c: u8,
    pub d: u8,
}

/// High byte of a port in network (big-endian) order.
pub open spec fn port_hi(port: u16) -> u8 {
    (port / 256) as u8
}

/// Low byte of a port in network (big-endian) order.
pub open spec fn port_lo(port: u16) -> u8 {
    (port % 256) as u8
}

/// The port denoted by two bytes in network (big-endian) order.
pub open spec fn port_value(hi: u8, lo: u8) -> u16 {
    (hi as int * 256 + lo as int) as u16
}

/// The 2-byte method-selection reply `[VER, METHOD]`.
pub open spec fn method_reply_bytes(m: u8) -> Seq<u8> {
    seq![SOCKS_VERSION, m]
}

/// The 10-byte successful CONNECT reply
/// `[VER, REP=0, RSV=0, ATYP=IPv4, BND.ADDR(4), BND.PORT(2, big-endian)]`.
pub open spec fn connect_reply_bytes(ip: Ipv4Octets, port: u16) -> Seq<u8> {
    seq![
        SOCKS_VERSION,
        REPLY_SUCCESS,
        0x00u8,
        ATYP_IPV4,
        ip.a,
        ip.b,
        ip.c,
        ip.d,
        port_hi(port),
        port_lo(port),
    ]
}

/// Reads a port from its two network-order bytes.
pub fn decode_port(hi: u8, lo: u8) -> (port: u16)
    ensures
        port == port_value(hi, lo),
        port == hi as int * 256 + lo as int,
{
    (hi as u16) * 256 + (lo as u16)
}

/// Writes a port as its two network-order bytes.
pub fn encode_port(port: u16) -> (r: (u8, u8))
    ensures
        r.0 == port_hi(port),
        r.1 == port_lo(port),
        port_value(r.0, r.1) == port,
{
    ((port / 256) as u8, (port % 256) as u8)
}

/// Builds the method-selection reply `[VER, m]`.
pub fn encode_method_reply(m: u8) -> (v: Vec<u8>)
    ensures
        v@ == method_reply_bytes(m),
{
    let mut v: Vec<u8> = Vec::new();
    v.push(SOCKS_VERSION);
    v.push(m);
    proof {
        assert(v@ =~= method_reply_bytes(m));
    }
    v
}

/// Builds the successful CONNECT reply carrying the bound address and port of
/// the local end of the outbound connection.
pub fn encode_connect_reply(ip: Ipv4Octets, port: u16) -> (v: Vec<u8>)
    ensures
        v@ == connect_reply_bytes(ip, port),
        v@.len() == 10,
{
    let mut v: Vec<u8> = Vec::new();
    v.push(SOCKS_VERSION);
    v.push(REPLY_SUCCESS);
    v.push(0x00);
    v.push(ATYP_IPV4);
    v.push(ip.a);
    v.push(ip.b);
    v.push(ip.c);
    v.push(ip.d);
    let (hi, lo) = encode_port(port);
    v.push(hi);
    v.push(lo);
    proof {
        assert(v@ =~= connect_reply_bytes(ip, port));
    }
    v
}

} // verus!
