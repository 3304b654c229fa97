//! The UDP item that later datagrams of a flow coalesce into.
use crate::platform::linux::offload::packet::{IpHeaders, UdpHeader};
use vstd::prelude::*;

verus! {

/// A UDP datagram held back in a flow, with the datagrams merged into it.
#[derive(Clone, Debug)]
pub struct UdpGroItem {
    /// The IP header of the held datagram.
    pub ip_header: IpHeaders,
    /// The UDP header of the held datagram.
    pub udp_header: UdpHeader,
    /// The payload buffer of the held datagram.
    pub data: Vec<u8>,
    /// How many datagrams have been merged into it.
    pub num_merged: u32,
    /// Whether the held datagram's checksum is known to be wrong.
    pub checksum_known_invalid: bool,
}

} // verus!
