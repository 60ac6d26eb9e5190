use vstd::prelude::*;

verus! {

/// A network endpoint as the protocol carries it: an IP address and a port.
#[derive(Clone, Copy, Debug, PartialEq, Eq)]
pub enum SocketAddress {
    V4 { octets: [u8; 4], port: u16 },
    V6 { segments: [u16; 8], port: u16, flowinfo: u32, scope_id: u32 },
}

/// The placeholder address `0.0.0.0:0`.
pub open spec fn unspecified_address() -> SocketAddress {
    SocketAddress::V4 { octets: [0u8, 0u8, 0u8, 0u8], port: 0 }
}

impl SocketAddress {
    /// The placeholder address `0.0.0.0:0` that a client puts in a message
    /// before the message is bound to a connection.
    pub fn unspecified() -> (r: SocketAddress)
        ensures
            r == unspecified_address(),
    {
        SocketAddress::V4 { octets: [0u8, 0u8, 0u8, 0u8], port: 0 }
    }
}

} // verus!
