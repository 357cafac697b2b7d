//! The per-connection SOCKS5 negotiation state machine.
//!
//! The machine holds no connection: it is driven from outside. The driver
//! reads exactly [`needed`] bytes from the client, hands them to [`step`], and
//! performs the [`Action`] that comes back; when the action asks for the
//! outbound connection, the driver attempts it and reports the
//! [`ConnectOutcome`] to [`on_connect`]. Every protocol decision — which
//! bytes are valid, which reply is written, when the connection aborts — is
//! made here and stated in the contracts; the driver only moves bytes.

use vstd::pervasive::unreached;
use vstd::prelude::*;
use vstd::utf8::valid_utf8;

use crate::wire::{
    ATYP_DOMAIN, ATYP_IPV4, ATYP_IPV6, CMD_BIND, CMD_CONNECT, CMD_UDP_ASSOCIATE, Ipv4Octets,
    MAX_METHODS, METHOD_NO_ACCEPTABLE, METHOD_NO_AUTH, SOCKS_VERSION, connect_reply_bytes,
    decode_port, encode_connect_reply, encode_method_reply, method_reply_bytes, port_value,
};

verus! {

/// Why a negotiation aborted. Every error is scoped to one connection.
#[derive(PartialEq, Eq, Structural, Clone, Copy, Debug)]
pub enum SocksError {
    /// A message carried a version byte other than 0x05.
    ProtocolVersion { version: u8 },
    /// The client offered more methods than `MAX_METHODS` allows.
    TooManyMethods { count: u8 },
    /// The offered method list does not contain `METHOD_NO_AUTH`.
    NoAcceptableAuthMethod,
    /// BIND or UDP ASSOCIATE: recognized by SOCKS5 but not supported here.
    UnsupportedCommand { command: u8 },
    /// A command byte outside the three SOCKS5 commands.
    UnknownCommand { command: u8 },
    /// An IPv6 target address: recognized by SOCKS5 but not supported here.
    UnsupportedAddressType,
    /// An address-type byte outside the three SOCKS5 address types.
    UnknownAddressType { atyp: u8 },
    /// A domain name whose bytes are not valid UTF-8.
    InvalidDomainEncoding,
    /// The outbound connection to the target could not be established.
    TargetConnect,
    /// The outbound connection's local end is not an IPv4 address, so it
    /// cannot be encoded in the reply.
    UnexpectedAddressFamily,
}

/// The destination a CONNECT request names.
#[derive(PartialEq, Eq, Debug)]
pub enum Target {
    /// A literal IPv4 address and port.
    Ipv4 { ip: Ipv4Octets, port: u16 },
    /// A domain name (valid UTF-8 bytes) and port; name resolution is left to
    /// the outbound connect.
    Domain { name: Vec<u8>, port: u16 },
}

/// A well-formed target: a domain name holds valid UTF-8 bytes.
pub open spec fn target_wf(t: Target) -> bool {
    t matches Target::Domain { name, .. } ==> valid_utf8(name@)
}

/// What the driver observed when it attempted the outbound connection.
#[derive(PartialEq, Eq, Structural, Clone, Copy, Debug)]
pub enum ConnectOutcome {
    /// Connected; the local end of the outbound connection is this IPv4
    /// address and port.
    ConnectedV4 { local_ip: Ipv4Octets, local_port: u16 },
    /// Connected, but the local end is not an IPv4 address.
    ConnectedOther,
    /// The connection attempt failed.
    ConnectFailed,
}

/// Where the negotiation stands. Each reading variant names the datum the
/// machine expects next; the three non-reading variants end the byte-reading
/// part of the handshake.
#[derive(Debug)]
pub enum Phase {
    /// Expecting the version byte of the method-selection message.
    MethodVersion,
    /// Expecting the method count.
    MethodCount,
    /// Expecting `count` method identifiers.
    MethodList { count: u8 },
    /// Expecting the version byte of the request.
    RequestVersion,
    /// Expecting the command byte.
    RequestCommand,
    /// Expecting the reserved byte, which is read and discarded.
    RequestReserved,
    /// Expecting the address-type byte.
    RequestAddrType,
    /// Expecting a 4-byte IPv4 address.
    RequestIpv4,
    /// Expecting the 2-byte port that follows an IPv4 address.
    RequestIpv4Port { ip: Ipv4Octets },
    /// Expecting the 1-byte domain length.
    RequestDomainLen,
    /// Expecting `len` domain bytes.
    RequestDomain { len: u8 },
    /// Expecting the 2-byte port that follows a domain name.
    RequestDomainPort { name: Vec<u8> },
    /// The driver is attempting the outbound connection.
    Connecting,
    /// Negotiation succeeded; the relay owns the connection now.
    Relaying,
    /// Negotiation aborted.
    Failed,
}

/// What the driver must do after a step.
#[derive(Debug)]
pub enum Action {
    /// Read the next `needed` bytes and step again.
    Continue,
    /// Write these bytes to the client, then read on.
    Reply { bytes: Vec<u8> },
    /// Write these bytes to the client, then close the connection.
    ReplyThenFail { bytes: Vec<u8>, error: SocksError },
    /// Attempt the outbound connection to `target` and report the outcome to
    /// `on_connect`.
    Connect { target: Target },
    /// Write these bytes to the client, flush, and begin relaying.
    ReplyThenRelay { bytes: Vec<u8> },
    /// Close the connection without writing a reply.
    Fail { error: SocksError },
}

/// How many bytes the machine needs before its next step; 0 once it no
/// longer reads.
pub open spec fn spec_needed(p: Phase) -> nat {
    match p {
        Phase::MethodVersion => 1,
        Phase::MethodCount => 1,
        Phase::MethodList { count } => count as nat,
        Phase::RequestVersion => 1,
        Phase::RequestCommand => 1,
        Phase::RequestReserved => 1,
        Phase::RequestAddrType => 1,
        Phase::RequestIpv4 => 4,
        Phase::RequestIpv4Port { .. } => 2,
        Phase::RequestDomainLen => 1,
        Phase::RequestDomain { len } => len as nat,
        Phase::RequestDomainPort { .. } => 2,
        Phase::Connecting => 0,
        Phase::Relaying => 0,
        Phase::Failed => 0,
    }
}

/// The machine reads client bytes exactly in the phases before `Connecting`,
/// `Relaying` and `Failed`.
pub open spec fn awaits_bytes(p: Phase) -> bool {
    !(p is Connecting || p is Relaying || p is Failed)
}

/// A rank that every transition strictly decreases: a negotiation performs
/// at most `phase_rank(p)` further steps from phase `p`, so no byte stream
/// can keep the handshake going forever.
pub open spec fn phase_rank(p: Phase) -> nat {
    match p {
        Phase::MethodVersion => 13,
        Phase::MethodCount => 12,
        Phase::MethodList { .. } => 11,
        Phase::RequestVersion => 10,
        Phase::RequestCommand => 9,
        Phase::RequestReserved => 8,
        Phase::RequestAddrType => 7,
        Phase::RequestIpv4 => 6,
        Phase::RequestDomainLen => 6,
        Phase::RequestIpv4Port { .. } => 5,
        Phase::RequestDomain { .. } => 5,
        Phase::RequestDomainPort { .. } => 4,
        Phase::Connecting => 2,
        Phase::Relaying => 1,
        Phase::Failed => 0,
    }
}

/// Internal well-formedness: each datum a phase carries satisfies the bound
/// checked by the step that parsed it.
pub open spec fn phase_wf(p: Phase) -> bool {
    &&& (p matches Phase::MethodList { count } ==> count <= MAX_METHODS)
    &&& (p matches Phase::RequestDomainPort { name } ==> valid_utf8(name@))
}

/// The transition relation of one negotiation step: from phase `p`, on input
/// bytes `input` (exactly `spec_needed(p)` of them), the machine moves to
/// phase `q` and asks the driver to perform `act`. Each arm restates one step
/// of the handshake.
pub open spec fn step_post(p: Phase, input: Seq<u8>, q: Phase, act: Action) -> bool {
    match p {
        Phase::MethodVersion => if input[0] == SOCKS_VERSION {
            q is MethodCount && act is Continue
        } else {
            &&& q is Failed
            &&& act matches Action::Fail { error } && error == (
            SocksError::ProtocolVersion { version: input[0] })
        },
        Phase::MethodCount => if input[0] <= MAX_METHODS {
            q matches Phase::MethodList { count } && count == input[0] && act is Continue
        } else {
            &&& q is Failed
            &&& act matches Action::Fail { error } && error == (
            SocksError::TooManyMethods { count: input[0] })
        },
        Phase::MethodList { .. } => if input.contains(METHOD_NO_AUTH) {
            &&& q is RequestVersion
            &&& act matches Action::Reply { bytes } && bytes@ == method_reply_bytes(
                METHOD_NO_AUTH,
            )
        } else {
            &&& q is Failed
            &&& act matches Action::ReplyThenFail { bytes, error } && bytes@ == method_reply_bytes(
                METHOD_NO_ACCEPTABLE,
            ) && error is NoAcceptableAuthMethod
        },
        Phase::RequestVersion => if input[0] == SOCKS_VERSION {
            q is RequestCommand && act is Continue
        } else {
            &&& q is Failed
            &&& act matches Action::Fail { error } && error == (
            SocksError::ProtocolVersion { version: input[0] })
        },
        Phase::RequestCommand => if input[0] == CMD_CONNECT {
            q is RequestReserved && act is Continue
        } else if input[0] == CMD_BIND || input[0] == CMD_UDP_ASSOCIATE {
            &&& q is Failed
            &&& act matches Action::Fail { error } && error == (
            SocksError::UnsupportedCommand { command: input[0] })
        } else {
            &&& q is Failed
            &&& act matches Action::Fail { error } && error == (
            SocksError::UnknownCommand { command: input[0] })
        },
        Phase::RequestReserved => q is RequestAddrType && act is Continue,
        Phase::RequestAddrType => if input[0] == ATYP_IPV4 {
            q is RequestIpv4 && act is Continue
        } else if input[0] == ATYP_DOMAIN {
            q is RequestDomainLen && act is Continue
        } else if input[0] == ATYP_IPV6 {
            &&& q is Failed
            &&& act matches Action::Fail { error } && error is UnsupportedAddressType
        } else {
            &&& q is Failed
            &&& act matches Action::Fail { error } && error == (
            SocksError::UnknownAddressType { atyp: input[0] })
        },
        Phase::RequestIpv4 => {
            &&& q matches Phase::RequestIpv4Port { ip } && ip == (Ipv4Octets {
                a: input[0],
                b: input[1],
                c: input[2],
                d: input[3],
            })
            &&& act is Continue
        },
        Phase::RequestIpv4Port { ip } => {
            &&& q is Connecting
            &&& act matches Action::Connect { target } && target == (Target::Ipv4 {
                ip,
                port: port_value(input[0], input[1]),
            })
        },
        Phase::RequestDomainLen => {
            &&& q matches Phase::RequestDomain { len } && len == input[0]
            &&& act is Continue
        },
        Phase::RequestDomain { .. } => if valid_utf8(input) {
            &&& q matches Phase::RequestDomainPort { name } && name@ == input
            &&& act is Continue
        } else {
            &&& q is Failed
            &&& act matches Action::Fail { error } && error is InvalidDomainEncoding
        },
        Phase::RequestDomainPort { name } => {
            &&& q is Connecting
            &&& act matches Action::Connect { target } && target matches Target::Domain {
                name: dn,
                port,
            } && dn@ == name@ && port == port_value(input[0], input[1])
        },
        Phase::Connecting => false,
        Phase::Relaying => false,
        Phase::Failed => false,
    }
}

/// The transition on the outbound-connect outcome: the single success reply
/// carrying the connection's local IPv4 endpoint, or the abort the outcome
/// forces.
pub open spec fn connect_post(outcome: ConnectOutcome, q: Phase, act: Action) -> bool {
    match outcome {
        ConnectOutcome::ConnectedV4 { local_ip, local_port } => {
            &&& q is Relaying
            &&& act matches Action::ReplyThenRelay { bytes } && bytes@ == connect_reply_bytes(
                local_ip,
                local_port,
            )
        },
        ConnectOutcome::ConnectedOther => {
            &&& q is Failed
            &&& act matches Action::Fail { error } && error is UnexpectedAddressFamily
        },
        ConnectOutcome::ConnectFailed => {
            &&& q is Failed
            &&& act matches Action::Fail { error } && error is TargetConnect
        },
    }
}

/// The phase a fresh connection starts in.
pub fn initial_phase() -> (p: Phase)
    ensures
        p is MethodVersion,
        phase_wf(p),
        spec_needed(p) == 1,
{
    Phase::MethodVersion
}

/// How many bytes the driver must read before the next [`step`].
pub fn needed(p: &Phase) -> (n: usize)
    ensures
        n == spec_needed(*p),
{
    match p {
        Phase::MethodVersion => 1,
        Phase::MethodCount => 1,
        Phase::MethodList { count } => *count as usize,
        Phase::RequestVersion => 1,
        Phase::RequestCommand => 1,
        Phase::RequestReserved => 1,
        Phase::RequestAddrType => 1,
        Phase::RequestIpv4 => 4,
        Phase::RequestIpv4Port { .. } => 2,
        Phase::RequestDomainLen => 1,
        Phase::RequestDomain { len } => *len as usize,
        Phase::RequestDomainPort { .. } => 2,
        Phase::Connecting => 0,
        Phase::Relaying => 0,
        Phase::Failed => 0,
    }
}

/// Whether the machine still reads bytes from the client.
pub fn is_awaiting_bytes(p: &Phase) -> (r: bool)
    ensures
        r == awaits_bytes(*p),
{
    match p {
        Phase::Connecting => false,
        Phase::Relaying => false,
        Phase::Failed => false,
        _ => true,
    }
}

/// Scans an offered method list for `METHOD_NO_AUTH`.
pub fn contains_no_auth(methods: &Vec<u8>) -> (r: bool)
    ensures
        r == methods@.contains(METHOD_NO_AUTH),
{
    let mut i: usize = 0;
    while i < methods.len()
        invariant
            i <= methods@.len(),
            forall|j: int| 0 <= j < i ==> methods@[j] != METHOD_NO_AUTH,
        decreases methods@.len() - i,
    {
        if methods[i] == METHOD_NO_AUTH {
            return true;
        }
        i += 1;
    }
    false
}

/// Relies on `core::str::from_utf8`: it returns `Ok` exactly when the bytes
/// are a valid UTF-8 encoding, which is what vstd's `valid_utf8` defines.
#[verifier::external_body]
fn utf8_check(bytes: &Vec<u8>) -> (r: bool)
    ensures
        r == valid_utf8(bytes@),
{
    core::str::from_utf8(bytes.as_slice()).is_ok()
}

/// One negotiation step: consumes the `spec_needed(p)` bytes the phase asked
/// for and returns the next phase with the driver's action. The whole
/// handshake of the negotiator is this function iterated, as `step_post`
/// states arm by arm.
pub fn step(p: Phase, input: Vec<u8>) -> (r: (Phase, Action))
    requires
        awaits_bytes(p),
        phase_wf(p),
        input@.len() == spec_needed(p),
    ensures
        step_post(p, input@, r.0, r.1),
        phase_wf(r.0),
        phase_rank(r.0) < phase_rank(p),
        r.1 matches Action::Connect { target } ==> target_wf(target),
        (r.1 is Fail || r.1 is ReplyThenFail) <==> r.0 is Failed,
        awaits_bytes(r.0) <==> (r.1 is Continue || r.1 is Reply),
        !(r.1 is ReplyThenRelay),
{
    match p {
        Phase::MethodVersion => {
            if input[0] == SOCKS_VERSION {
                (Phase::MethodCount, Action::Continue)
            } else {
                (
                    Phase::Failed,
                    Action::Fail { error: SocksError::ProtocolVersion { version: input[0] } },
                )
            }
        },
        Phase::MethodCount => {
            if input[0] <= MAX_METHODS {
                (Phase::MethodList { count: input[0] }, Action::Continue)
            } else {
                (
                    Phase::Failed,
                    Action::Fail { error: SocksError::TooManyMethods { count: input[0] } },
                )
            }
        },
        Phase::MethodList { .. } => {
            if contains_no_auth(&input) {
                (Phase::RequestVersion, Action::Reply { bytes: encode_method_reply(METHOD_NO_AUTH) })
            } else {
                (
                    Phase::Failed,
                    Action::ReplyThenFail {
                        bytes: encode_method_reply(METHOD_NO_ACCEPTABLE),
                        error: SocksError::NoAcceptableAuthMethod,
                    },
                )
            }
        },
        Phase::RequestVersion => {
            if input[0] == SOCKS_VERSION {
                (Phase::RequestCommand, Action::Continue)
            } else {
                (
                    Phase::Failed,
                    Action::Fail { error: SocksError::ProtocolVersion { version: input[0] } },
                )
            }
        },
        Phase::RequestCommand => {
            if input[0] == CMD_CONNECT {
                (Phase::RequestReserved, Action::Continue)
            } else if input[0] == CMD_BIND || input[0] == CMD_UDP_ASSOCIATE {
                (
                    Phase::Failed,
                    Action::Fail { error: SocksError::UnsupportedCommand { command: input[0] } },
                )
            } else {
                (
                    Phase::Failed,
                    Action::Fail { error: SocksError::UnknownCommand { command: input[0] } },
                )
            }
        },
        Phase::RequestReserved => (Phase::RequestAddrType, Action::Continue),
        Phase::RequestAddrType => {
            if input[0] == ATYP_IPV4 {
                (Phase::RequestIpv4, Action::Continue)
            } else if input[0] == ATYP_DOMAIN {
                (Phase::RequestDomainLen, Action::Continue)
            } else if input[0] == ATYP_IPV6 {
                (Phase::Failed, Action::Fail { error: SocksError::UnsupportedAddressType })
            } else {
                (
                    Phase::Failed,
                    Action::Fail { error: SocksError::UnknownAddressType { atyp: input[0] } },
                )
            }
        },
        Phase::RequestIpv4 => {
            let ip = Ipv4Octets { a: input[0], b: input[1], c: input[2], d: input[3] };
            (Phase::RequestIpv4Port { ip }, Action::Continue)
        },
        Phase::RequestIpv4Port { ip } => {
            let port = decode_port(input[0], input[1]);
            (Phase::Connecting, Action::Connect { target: Target::Ipv4 { ip, port } })
        },
        Phase::RequestDomainLen => {
            (Phase::RequestDomain { len: input[0] }, Action::Continue)
        },
        Phase::RequestDomain { .. } => {
            if utf8_check(&input) {
                (Phase::RequestDomainPort { name: input }, Action::Continue)
            } else {
                (Phase::Failed, Action::Fail { error: SocksError::InvalidDomainEncoding })
            }
        },
        Phase::RequestDomainPort { name } => {
            let port = decode_port(input[0], input[1]);
            (Phase::Connecting, Action::Connect { target: Target::Domain { name, port } })
        },
        Phase::Connecting => unreached(),
        Phase::Relaying => unreached(),
        Phase::Failed => unreached(),
    }
}

/// The step after the driver attempted the outbound connection: writes the
/// one success reply (carrying the local endpoint of that connection) and
/// hands over to the relay, or aborts.
#[allow(unused_variables)]
pub fn on_connect(p: Phase, outcome: ConnectOutcome) -> (r: (Phase, Action))
    requires
        p is Connecting,
    ensures
        connect_post(outcome, r.0, r.1),
        phase_wf(r.0),
        phase_rank(r.0) < phase_rank(p),
        !awaits_bytes(r.0),
        (r.1 is Fail) <==> r.0 is Failed,
{
    match outcome {
        ConnectOutcome::ConnectedV4 { local_ip, local_port } => {
            let bytes = encode_connect_reply(local_ip, local_port);
            (Phase::Relaying, Action::ReplyThenRelay { bytes })
        },
        ConnectOutcome::ConnectedOther => {
            (Phase::Failed, Action::Fail { error: SocksError::UnexpectedAddressFamily })
        },
        ConnectOutcome::ConnectFailed => {
            (Phase::Failed, Action::Fail { error: SocksError::TargetConnect })
        },
    }
}

} // verus!
