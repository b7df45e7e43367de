//! The listen endpoint, modelled as plain values.
//!
//! A listen address is an IP (version 4 or 6) together with a port. The
//! provisioner only ever reads one thing from it: the IP family, which decides
//! the domain every socket for that endpoint is created in.

use vstd::prelude::*;

verus! {

/// The IP family a socket is created in.
#[derive(Clone, Copy, Debug, PartialEq, Eq, Structural)]
pub enum IpDomain {
    V4,
    V6,
}

/// An IP address as plain bytes: four octets for version 4, sixteen for
/// version 6.
#[derive(Clone, Copy, Debug, PartialEq, Eq)]
pub enum IpAddress {
    V4([u8; 4]),
    V6([u8; 16]),
}

/// A transport-layer listen endpoint: one concrete IP and a port.
#[derive(Clone, Copy, Debug, PartialEq, Eq)]
pub struct Endpoint {
    pub ip: IpAddress,
    pub port: u16,
}

/// The IP family of an endpoint.
pub open spec fn spec_domain(e: Endpoint) -> IpDomain {
    match e.ip {
        IpAddress::V4(..) => IpDomain::V4,
        IpAddress::V6(..) => IpDomain::V6,
    }
}

/// The domain every socket bound to `listen_addr` must be created in: the
/// family of the endpoint's IP.
pub fn domain(listen_addr: &Endpoint) -> (d: IpDomain)
    ensures
        d == spec_domain(*listen_addr),
{
    match listen_addr.ip {
        IpAddress::V4(..) => IpDomain::V4,
        IpAddress::V6(..) => IpDomain::V6,
    }
}

} // verus!
