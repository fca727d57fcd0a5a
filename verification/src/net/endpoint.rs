//! IPv4 addresses and endpoints.

use vstd::prelude::*;

verus! {

/// An IPv4 address.
#[derive(Clone, Copy, Debug, PartialEq, Eq, Structural)]
pub struct IpAddrV4 {
    a: u8,
    b: u8,
    c: u8,
    d: u8,
}

impl IpAddrV4 {
    /// The four bytes of the address, most significant first.
    pub closed spec fn bytes(self) -> Seq<u8> {
        seq![self.a, self.b, self.c, self.d]
    }

    /// The address `a.b.c.d`.
    pub fn new(a: u8, b: u8, c: u8, d: u8) -> (r: IpAddrV4)
        ensures
            r.bytes() == seq![a, b, c, d],
    {
        IpAddrV4 { a, b, c, d }
    }

    /// The four bytes of the address, most significant first.
    pub fn octets(&self) -> (r: [u8; 4])
        ensures
            r@ == self.bytes(),
    {
        let r = [self.a, self.b, self.c, self.d];
        assert(r@ =~= self.bytes());
        r
    }
}

/// An IPv4 address and a port.
#[derive(Clone, Copy, Debug, PartialEq, Eq, Structural)]
pub struct EndpointV4 {
    address: IpAddrV4,
    port: u16,
}

impl EndpointV4 {
    pub closed spec fn spec_address(self) -> IpAddrV4 {
        self.address
    }

    pub closed spec fn spec_port(self) -> u16 {
        self.port
    }

    /// The endpoint at `address` and `port`.
    pub fn new(address: IpAddrV4, port: u16) -> (r: EndpointV4)
        ensures
            r.spec_address() == address,
            r.spec_port() == port,
    {
        EndpointV4 { address, port }
    }

    pub fn address(&self) -> (r: &IpAddrV4)
        ensures
            *r == self.spec_address(),
    {
        &self.address
    }

    pub fn port(&self) -> (r: u16)
        ensures
            r == self.spec_port(),
    {
        self.port
    }
}

/// A network endpoint.
#[derive(Clone, Copy, Debug, PartialEq, Eq, Structural)]
pub enum Endpoint {
    V4(EndpointV4),
}

} // verus!
