use vstd::prelude::*;

verus! {

/// A network address without a port.
///
/// An IPv4 address is held as its 32-bit big-endian value, an IPv6 address
/// as its 128-bit big-endian value, the numbering that `Ipv4Addr` and
/// `Ipv6Addr` use for their conversions to and from integers.
#[derive(Clone, Copy, Debug, PartialEq, Eq, Structural)]
pub enum IpAddress {
    V4(u32),
    V6(u128),
}

/// A network address with a port.
#[derive(Clone, Copy, Debug, PartialEq, Eq, Structural)]
pub struct SocketAddress {
    pub ip: IpAddress,
    pub port: u16,
}

/// `127.0.0.1` as a 32-bit value.
pub const LOOPBACK_V4: u32 = 0x7f00_0001;

/// What a request carried in its forwarded-address header.
#[derive(Clone, Copy, Debug, PartialEq, Eq, Structural)]
pub enum ForwardedHeader {
    /// The header was not sent.
    Absent,
    /// The header was sent but does not read as an IP address.
    Unparseable,
    /// The header was sent and reads as this address.
    Address(IpAddress),
}

/// The address that a request is attributed to, given its transport peer
/// and its forwarded-address header.
pub open spec fn spec_caller_address(header: ForwardedHeader, peer: IpAddress) -> IpAddress {
    match header {
        ForwardedHeader::Absent => peer,
        ForwardedHeader::Unparseable => IpAddress::V4(LOOPBACK_V4),
        ForwardedHeader::Address(a) => a,
    }
}

/// The IPv4 loopback address `127.0.0.1`.
pub fn loopback() -> (r: IpAddress)
    ensures
        r == IpAddress::V4(LOOPBACK_V4),
{
    IpAddress::V4(LOOPBACK_V4)
}

/// Attributes a request to an address: a readable forwarded-address header
/// wins over the transport peer; an unreadable one gives the loopback address.
pub fn caller_address(header: ForwardedHeader, peer: IpAddress) -> (r: IpAddress)
    ensures
        r == spec_caller_address(header, peer),
{
    match header {
        ForwardedHeader::Absent => peer,
        ForwardedHeader::Unparseable => loopback(),
        ForwardedHeader::Address(a) => a,
    }
}

} // verus!
