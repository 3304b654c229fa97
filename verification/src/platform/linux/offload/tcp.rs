//! The TCP item that later segments of a flow coalesce into.
use crate::platform::linux::offload::packet::IpHeaders;
use vstd::prelude::*;

verus! {

/// A TCP segment held back in a flow, with the segments merged into it.
#[derive(Clone, Debug)]
pub struct TcpGroItem {
    /// The IP header of the held segment.
    pub ip_header: IpHeaders,
    /// The payload buffer of the held segment.
    pub data: Vec<u8>,
    /// How many segments have been merged into it.
    pub num_merged: u32,
    /// The sequence number of its first byte.
    pub seq_num: u32,
}

} // verus!
