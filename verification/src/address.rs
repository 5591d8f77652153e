//! Socket addresses as plain data.

use vstd::prelude::*;

verus! {

/// An IP address, written as the numbers of its textual form: four
/// octets for version 4, eight 16-bit groups for version 6.
#[derive(Clone, Copy, Debug, PartialEq, Eq, Hash, Structural)]
pub enum IpAddress {
    V4(u8, u8, u8, u8),
    V6(u16, u16, u16, u16, u16, u16, u16, u16),
}

impl IpAddress {
    /// The IPv4 loopback address, `127.0.0.1`.
    pub open spec fn spec_localhost() -> IpAddress {
        IpAddress::V4(127, 0, 0, 1)
    }

    /// The IPv4 loopback address, `127.0.0.1`.
    #[verifier::when_used_as_spec(spec_localhost)]
    pub fn localhost() -> (ip: IpAddress)
        ensures
            ip == IpAddress::V4(127, 0, 0, 1),
    {
        IpAddress::V4(127, 0, 0, 1)
    }
}

/// An IP address together with a port. Port 0 asks the operating system
/// to pick a free port when the address is bound.
#[derive(Clone, Copy, Debug, PartialEq, Eq, Hash, Structural)]
pub struct SocketAddress {
    pub ip: IpAddress,
    pub port: u16,
}

impl SocketAddress {
    /// Pairs `ip` with `port`.
    pub fn new(ip: IpAddress, port: u16) -> (addr: SocketAddress)
        ensures
            addr.ip == ip,
            addr.port == port,
    {
        SocketAddress { ip, port }
    }
}

} // verus!
