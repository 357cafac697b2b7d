//! The protocol laws of the negotiator, each proved from the transition
//! relation that [`crate::negotiate::step`] and [`crate::negotiate::on_connect`]
//! guarantee.

use vstd::prelude::*;
use vstd::utf8::valid_utf8;

use crate::negotiate::{
    Action, ConnectOutcome, Phase, SocksError, awaits_bytes, connect_post, spec_needed, step_post,
};
use crate::wire::{
    ATYP_IPV4, CMD_BIND, CMD_UDP_ASSOCIATE, Ipv4Octets, METHOD_NO_ACCEPTABLE, METHOD_NO_AUTH,
    REPLY_SUCCESS, SOCKS_VERSION, port_hi, port_lo, port_value,
};

verus! {

/// For every offered method list: if it contains the no-auth method, the
/// negotiator replies `[0x05, 0x00]` and goes on to read the request; if it
/// does not, the negotiator replies `[0x05, 0xFF]`, fails with
/// `NoAcceptableAuthMethod`, and reads nothing further.
pub proof fn lemma_method_selection(count: u8, methods: Seq<u8>, q: Phase, act: Action)
    requires
        step_post(Phase::MethodList { count }, methods, q, act),
    ensures
        methods.contains(METHOD_NO_AUTH) ==> {
            &&& q is RequestVersion
            &&& act matches Action::Reply { bytes } && bytes@ == seq![
                SOCKS_VERSION,
                METHOD_NO_AUTH,
            ]
        },
        !methods.contains(METHOD_NO_AUTH) ==> {
            &&& q is Failed
            &&& !awaits_bytes(q)
            &&& spec_needed(q) == 0
            &&& act matches Action::ReplyThenFail { bytes, error } && bytes@ == seq![
                SOCKS_VERSION,
                METHOD_NO_ACCEPTABLE,
            ] && error is NoAcceptableAuthMethod
        },
{
}

/// A BIND or UDP-ASSOCIATE request aborts the negotiation at the command
/// byte: the machine fails with `UnsupportedCommand`, asks for no outbound
/// connection, writes no bytes, and reads nothing further.
pub proof fn lemma_unsupported_command_aborts(input: Seq<u8>, q: Phase, act: Action)
    requires
        input.len() == 1,
        input[0] == CMD_BIND || input[0] == CMD_UDP_ASSOCIATE,
        step_post(Phase::RequestCommand, input, q, act),
    ensures
        q is Failed,
        act matches Action::Fail { error } && error == (SocksError::UnsupportedCommand {
            command: input[0],
        }),
        !(act is Connect),
        !(act is Reply) && !(act is ReplyThenRelay) && !(act is ReplyThenFail),
        spec_needed(q) == 0,
{
}

/// A domain name whose bytes are not valid UTF-8 aborts the negotiation: the
/// machine fails with `InvalidDomainEncoding`, writes no reply, asks for no
/// outbound connection, and reads nothing further.
pub proof fn lemma_invalid_domain_aborts(len: u8, name: Seq<u8>, q: Phase, act: Action)
    requires
        name.len() == len as nat,
        !valid_utf8(name),
        step_post(Phase::RequestDomain { len }, name, q, act),
    ensures
        q is Failed,
        act matches Action::Fail { error } && error is InvalidDomainEncoding,
        !(act is Connect) && !(act is Reply) && !(act is ReplyThenRelay) && !(act
            is ReplyThenFail),
        spec_needed(q) == 0,
{
}

/// After a successful outbound connection whose local end is the IPv4
/// endpoint `ip:port`, the reply handed to the relay handover is exactly
/// `[0x05, 0x00, 0x00, 0x01]` followed by the four octets of `ip` and the two
/// network-order bytes of `port`: the bound endpoint the client learns is the
/// one the driver observed.
pub proof fn lemma_success_reply_reflects_local_endpoint(
    ip: Ipv4Octets,
    port: u16,
    q: Phase,
    act: Action,
)
    requires
        connect_post(ConnectOutcome::ConnectedV4 { local_ip: ip, local_port: port }, q, act),
    ensures
        q is Relaying,
        act matches Action::ReplyThenRelay { bytes } && bytes@ == seq![
            SOCKS_VERSION,
            REPLY_SUCCESS,
            0x00u8,
            ATYP_IPV4,
            ip.a,
            ip.b,
            ip.c,
            ip.d,
            port_hi(port),
            port_lo(port),
        ],
        port_value(port_hi(port), port_lo(port)) == port,
{
}

} // verus!
