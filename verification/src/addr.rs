//! Socket addresses.

use vstd::prelude::*;

verus! {

/// The address of a peer's socket, as plain numbers.
///
/// The IP address stands in network order: the first octet is the most significant one.
#[derive(Clone, Copy, Debug, PartialEq, Eq, Hash, Structural)]
pub enum SocketAddr {
    V4 { ipv4: u32, port: u16 },
    V6 { ipv6: u128, port: u16, flowinfo: u32, scope_id: u32 },
}

} // verus!
