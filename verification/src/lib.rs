//! A minimal SOCKS5 proxy core: the per-connection negotiation state machine
//! (method selection, CONNECT request parsing, reply encoding), kept free of
//! I/O so that every protocol decision is verified. A thin driver performs the
//! reads, writes, outbound connect and byte relay that the machine asks for.

pub mod laws;
pub mod negotiate;
pub mod relay;
pub mod wire;
