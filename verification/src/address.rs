//! Addresses and nameserver endpoints, as plain octets.

use vstd::prelude::*;

verus! {

/// An IP address, held as its octets in network order.
#[derive(Clone, Copy, Debug, PartialEq, Eq, Hash)]
pub enum IpAddress {
    V4([u8; 4]),
    V6([u8; 16]),
}

/// A nameserver endpoint: the address to connect to and the port.
#[derive(Clone, Copy, Debug, PartialEq, Eq, Hash)]
pub struct Endpoint {
    pub address: IpAddress,
    pub port: u16,
}

/// One unit of work: an address and the nameserver that will be asked about it.
#[derive(Clone, Copy, Debug, PartialEq, Eq, Hash)]
pub struct IpToResolve {
    pub address: IpAddress,
    pub server: Endpoint,
}

} // verus!
