use vstd::prelude::*;

verus! {

/// A row of the user store, as the handshake loads it.
pub struct User {
    pub id: u32,
    pub username: String,
    /// The user's intra-tunnel IPv4 address, as a big-endian `u32`.
    pub local_tunnel_address: u32,
    /// The same address in dotted-quad text.
    pub local_tunnel_address_str: String,
}

} // verus!
