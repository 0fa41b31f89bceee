//! Socket addresses as plain values.
use vstd::prelude::*;

verus! {

/// An IP address family.
#[derive(Clone, Copy, Debug, PartialEq, Eq, Structural)]
pub enum Family {
    V4,
    V6,
}

/// A socket address: an IPv4 address as its 32 bits, or an IPv6 address as
/// its 128 bits, with a port.
#[derive(Clone, Copy, Debug, PartialEq, Eq, Structural)]
pub enum SockAddr {
    V4 { v4: u32, port: u16 },
    V6 { v6: u128, port: u16 },
}

impl SockAddr {
    pub open spec fn family_of(&self) -> Family {
        match self {
            SockAddr::V4 { .. } => Family::V4,
            SockAddr::V6 { .. } => Family::V6,
        }
    }

    pub fn family(&self) -> (f: Family)
        ensures
            f == self.family_of(),
    {
        match self {
            SockAddr::V4 { .. } => Family::V4,
            SockAddr::V6 { .. } => Family::V6,
        }
    }

    pub open spec fn port_of(&self) -> u16 {
        match self {
            SockAddr::V4 { port, .. } => *port,
            SockAddr::V6 { port, .. } => *port,
        }
    }

    pub fn port(&self) -> (p: u16)
        ensures
            p == self.port_of(),
    {
        match self {
            SockAddr::V4 { port, .. } => *port,
            SockAddr::V6 { port, .. } => *port,
        }
    }
}

} // verus!
