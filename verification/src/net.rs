//! Network addresses.

use vstd::prelude::*;

verus! {

/// An IP address: its family and its bits, the lowest thirty-two for version 4.
#[derive(Clone, Copy, Debug, PartialEq, Eq, Structural)]
pub struct IpAddress {
    pub v6: bool,
    pub bits: u128,
}

/// An address that media is sent to.
#[derive(Clone, Copy, Debug, PartialEq, Eq, Structural)]
pub struct MediaAddr {
    pub ip: IpAddress,
    pub port: u16,
}

} // verus!
