//! Packets as coalescing sees them: the header fields it compares and the
//! payload it carries.
use vstd::prelude::*;

verus! {

/// The IPv4 header fields that decide whether two packets coalesce.
#[derive(Clone, Copy, Debug, PartialEq, Eq, Structural)]
pub struct Ipv4Header {
    pub dscp: u8,
    pub ecn: u8,
    pub dont_fragment: bool,
    pub time_to_live: u8,
}

/// The IPv6 header fields that decide whether two packets coalesce.
#[derive(Clone, Copy, Debug, PartialEq, Eq, Structural)]
pub struct Ipv6Header {
    pub traffic_class: u8,
    pub hop_limit: u8,
}

/// The IP header of a packet.
#[derive(Clone, Copy, Debug, PartialEq, Eq, Structural)]
pub enum IpHeaders {
    Ipv4(Ipv4Header),
    Ipv6(Ipv6Header),
}

/// An IP packet with its transport part.
#[derive(Clone, Debug)]
pub struct IpPacket<T> {
    pub header: IpHeaders,
    pub transport: T,
}

/// The TCP header fields that coalescing reads.
#[derive(Clone, Copy, Debug, PartialEq, Eq, Structural)]
pub struct TcpHeader {
    pub sequence_number: u32,
    pub psh: bool,
}

/// A TCP segment: its header and its payload.
#[derive(Clone, Debug)]
pub struct TcpPacket {
    pub header: TcpHeader,
    pub data: Vec<u8>,
}

/// The UDP header fields that coalescing reads.
#[derive(Clone, Copy, Debug, PartialEq, Eq, Structural)]
pub struct UdpHeader {
    pub length: u16,
}

/// A UDP datagram: its header and its payload.
#[derive(Clone, Debug)]
pub struct UdpPacket {
    pub header: UdpHeader,
    pub data: Vec<u8>,
}

} // verus!
