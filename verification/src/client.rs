//! The client identity resolver: decides the address written to the access
//! log.  A peer on a private IPv4 range that presents an `x-real-ip` header
//! is taken to be a trusted reverse proxy, and the header value is logged
//! with the peer's port; every other peer is logged literally.  The choice
//! never affects routing.

use vstd::prelude::*;

use crate::headers::HeaderMap;
use crate::text::{ascii_seq, copy_range, lit_bytes};

verus! {

/// The socket peer's address, as far as the engine reads it.
#[derive(Clone, Copy, Debug, PartialEq, Eq, Structural)]
pub enum PeerIp {
    V4 { a: u8, b: u8, c: u8, d: u8 },
    V6,
}

/// The socket peer of a connection.
#[derive(Clone, Copy, Debug, PartialEq, Eq, Structural)]
pub struct Peer {
    pub ip: PeerIp,
    pub port: u16,
}

/// Whether the IPv4 address `a.b.c.d` lies in a private range: `10/8`,
/// `172.16/12` or `192.168/16`.  Only the first two octets decide.
pub open spec fn spec_is_private_v4(a: u8, b: u8) -> bool {
    a == 10 || (a == 172 && 16 <= b && b < 32) || (a == 192 && b == 168)
}

/// Whether the peer is an IPv4 address in a private range.
pub open spec fn spec_peer_is_private(p: Peer) -> bool {
    match p.ip {
        PeerIp::V4 { a, b, c: _, d: _ } => spec_is_private_v4(a, b),
        PeerIp::V6 => false,
    }
}

/// Whether the peer is an IPv4 address in a private range.
pub fn peer_is_private(p: &Peer) -> (r: bool)
    ensures
        r == spec_peer_is_private(*p),
{
    match p.ip {
        PeerIp::V4 { a, b, c: _, d: _ } => a == 10 || (a == 172 && 16 <= b && b < 32) || (a == 192
            && b == 168),
        PeerIp::V6 => false,
    }
}

/// The loggable identity of the client.
pub enum ClientIdentity {
    /// The peer is a trusted reverse proxy: log the `x-real-ip` header
    /// value together with the peer's port.
    Proxied { real_ip: Vec<u8>, port: u16 },
    /// Log the literal peer address and port.
    Direct,
}

/// The header name that a trusted reverse proxy sets.
pub open spec fn real_ip_key() -> Seq<u8> {
    ascii_seq("x-real-ip"@)
}

/// Decides the loggable identity from the peer address and the parsed
/// headers.
pub fn client_identity(peer: &Peer, headers: &HeaderMap) -> (r: ClientIdentity)
    ensures
        match r {
            ClientIdentity::Proxied { real_ip, port } => spec_peer_is_private(*peer)
                && headers@.contains_key(real_ip_key()) && real_ip@ == headers@[real_ip_key()]
                && port == peer.port,
            ClientIdentity::Direct => !(spec_peer_is_private(*peer) && headers@.contains_key(
                real_ip_key(),
            )),
        },
{
    proof {
        reveal_strlit("x-real-ip");
    }
    if !peer_is_private(peer) {
        return ClientIdentity::Direct;
    }
    let key = lit_bytes("x-real-ip");
    match headers.get(&key) {
        Some(v) => {
            let real_ip = copy_range(v, 0, v.len());
            proof {
                assert(real_ip@ =~= v@);
            }
            ClientIdentity::Proxied { real_ip, port: peer.port }
        },
        None => ClientIdentity::Direct,
    }
}

} // verus!
