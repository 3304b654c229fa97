//! Whether a packet may be coalesced into an item held back in its flow,
//! and the coalescing itself.
use crate::buffers::vec_remaining_mut;
use crate::error::{Error, Result};
use crate::platform::linux::offload::packet::{
    IpHeaders, IpPacket, Ipv4Header, Ipv6Header, TcpPacket, UdpPacket,
};
use crate::platform::linux::offload::tcp::TcpGroItem;
use crate::platform::linux::offload::udp::UdpGroItem;
use vstd::prelude::*;

verus! {

/// How an attempt to coalesce ends.
#[derive(Clone, Copy, Debug, PartialEq, Eq, Structural)]
pub enum CoalesceResult {
    InsufficientCapacity,
    PSHEnding,
    ItemInvalidChecksum,
    PacketInvalidChecksum,
    Success,
}

/// Two IPv4 headers coalesce when their DSCP, ECN, don't-fragment flag and
/// time to live agree.
pub open spec fn ipv4_can_coalesce(a: Ipv4Header, b: Ipv4Header) -> bool {
    &&& a.dscp == b.dscp
    &&& a.ecn == b.ecn
    &&& a.dont_fragment == b.dont_fragment
    &&& a.time_to_live == b.time_to_live
}

/// Two IPv6 headers coalesce when their traffic class and hop limit agree.
pub open spec fn ipv6_can_coalesce(a: Ipv6Header, b: Ipv6Header) -> bool {
    &&& a.traffic_class == b.traffic_class
    &&& a.hop_limit == b.hop_limit
}

/// Two IP headers coalesce when they are of one version and their fields
/// coalesce.
pub open spec fn ip_can_coalesce(a: IpHeaders, b: IpHeaders) -> bool {
    match (a, b) {
        (IpHeaders::Ipv4(x), IpHeaders::Ipv4(y)) => ipv4_can_coalesce(x, y),
        (IpHeaders::Ipv6(x), IpHeaders::Ipv6(y)) => ipv6_can_coalesce(x, y),
        _ => false,
    }
}

impl Ipv4Header {
    /// Whether a packet with this header may coalesce with one with `other`.
    #[inline]
    pub fn can_coalesce(&self, other: &Self) -> (r: bool)
        ensures
            r == ipv4_can_coalesce(*self, *other),
    {
        if self.dscp != other.dscp {
            return false;
        }
        if self.ecn != other.ecn {
            return false;
        }
        if self.dont_fragment != other.dont_fragment {
            return false;
        }
        if self.time_to_live != other.time_to_live {
            return false;
        }
        true
    }
}

impl Ipv6Header {
    /// Whether a packet with this header may coalesce with one with `other`.
    #[inline]
    pub fn can_coalesce(&self, other: &Self) -> (r: bool)
        ensures
            r == ipv6_can_coalesce(*self, *other),
    {
        if self.traffic_class != other.traffic_class {
            return false;
        }
        if self.hop_limit != other.hop_limit {
            return false;
        }
        true
    }
}

impl IpHeaders {
    /// Whether a packet with this header may coalesce with one with `other`.
    #[inline]
    pub fn can_coalesce(&self, other: &Self) -> (r: bool)
        ensures
            r == ip_can_coalesce(*self, *other),
    {
        match (self, other) {
            (IpHeaders::Ipv4(a), IpHeaders::Ipv4(b)) => a.can_coalesce(b),
            (IpHeaders::Ipv6(a), IpHeaders::Ipv6(b)) => a.can_coalesce(b),
            _ => false,
        }
    }
}

/// The length of an item's payload buffer, taken modulo `2^32`.
pub open spec fn item_len32(data: Seq<u8>) -> u32 {
    data.len() as u32
}

/// The sequence space an item covers: its payload length once for itself
/// and once for each segment merged into it.
pub open spec fn tcp_item_span(item: TcpGroItem) -> int {
    item_len32(item.data@) + item.num_merged * item_len32(item.data@)
}

/// The inputs on which the sequence arithmetic of `can_coalesce` stays
/// within 32 bits (it is unchecked addition and multiplication).
pub open spec fn tcp_sequence_fits(p: IpPacket<TcpPacket>, item: TcpGroItem) -> bool {
    ip_can_coalesce(p.header, item.ip_header) ==> {
        &&& item.num_merged * item_len32(item.data@) <= u32::MAX
        &&& tcp_item_span(item) <= u32::MAX
        &&& item.seq_num + tcp_item_span(item) <= u32::MAX
        &&& p.transport.header.sequence_number != item.seq_num + tcp_item_span(item)
            ==> p.transport.header.sequence_number + item_len32(p.transport.data@) <= u32::MAX
    }
}

/// A TCP segment coalesces with an item when their IP headers coalesce,
/// neither sets PSH, and the segment either directly follows the item's
/// sequence space, being no longer than the item's payload, or directly
/// precedes it, being at least as long as the item's payload and, where
/// it is longer, the item having nothing merged yet.
pub open spec fn tcp_can_coalesce(p: IpPacket<TcpPacket>, item: TcpGroItem) -> bool {
    let seq = p.transport.header.sequence_number;
    let psh = p.transport.header.psh;
    let n = p.transport.data@.len();
    let m = item.data@.len();
    &&& ip_can_coalesce(p.header, item.ip_header)
    &&& if seq == item.seq_num + tcp_item_span(item) {
        !psh && n <= m
    } else if seq + item_len32(p.transport.data@) == item.seq_num {
        !psh && n >= m && !(n > m && item.num_merged > 0)
    } else {
        false
    }
}

/// What coalescing a TCP segment into an item returns.
pub open spec fn tcp_coalesce_result(p: IpPacket<TcpPacket>, item: TcpGroItem) -> Result<()> {
    if isize::MAX - item.data@.len() < p.transport.data@.len() {
        Err(Error::BufferTooSmall)
    } else if p.transport.header.psh {
        Err(Error::OffloadTcpPshFlagSet)
    } else {
        Ok(())
    }
}

impl IpPacket<TcpPacket> {
    /// Whether this segment may be coalesced into `gro_item`.
    #[inline]
    pub fn can_coalesce(&self, gro_item: &TcpGroItem) -> (r: bool)
        requires
            tcp_sequence_fits(*self, *gro_item),
        ensures
            r == tcp_can_coalesce(*self, *gro_item),
    {
        if !self.header.can_coalesce(&gro_item.ip_header) {
            return false;
        }
        let tcp_header = &self.transport.header;
        let data = &self.transport.data;

        let mut len = gro_item.data.len() as u32;
        len += gro_item.num_merged * gro_item.data.len() as u32;

        if tcp_header.sequence_number == gro_item.seq_num + len {
            if tcp_header.psh {
                return false;
            }
            if data.len() > gro_item.data.len() {
                return false;
            }
            return true;
        } else if tcp_header.sequence_number + data.len() as u32 == gro_item.seq_num {
            if tcp_header.psh {
                return false;
            }
            if data.len() < gro_item.data.len() {
                return false;
            }
            if data.len() > gro_item.data.len() && gro_item.num_merged > 0 {
                return false;
            }
            return true;
        }
        false
    }

    /// Coalesces this segment into `gro_item`: fails with `BufferTooSmall`
    /// where the item's buffer cannot take the payload and with
    /// `OffloadTcpPshFlagSet` where the segment sets PSH, leaving the item
    /// as it was; otherwise the item takes the segment's sequence number.
    /// The segment's payload is not merged into the item: the item's
    /// payload buffer is left as it is.
    #[inline]
    pub fn coalesce(&mut self, gro_item: &mut TcpGroItem) -> (r: Result<()>)
        ensures
            *final(self) == *old(self),
            r == tcp_coalesce_result(*old(self), *old(gro_item)),
            r is Err ==> *final(gro_item) == *old(gro_item),
            r is Ok ==> *final(gro_item) == (TcpGroItem {
                seq_num: old(self).transport.header.sequence_number,
                ..*old(gro_item)
            }),
    {
        if vec_remaining_mut(&gro_item.data) < self.transport.data.len() {
            return Err(Error::BufferTooSmall);
        }
        if self.transport.header.psh {
            return Err(Error::OffloadTcpPshFlagSet);
        }
        gro_item.seq_num = self.transport.header.sequence_number;
        Ok(())
    }
}

/// A UDP datagram coalesces with an item when their IP headers coalesce
/// and the datagram is no longer than the item's.
pub open spec fn udp_can_coalesce(p: IpPacket<UdpPacket>, item: UdpGroItem) -> bool {
    &&& ip_can_coalesce(p.header, item.ip_header)
    &&& p.transport.header.length <= item.udp_header.length
}

/// What coalescing a UDP datagram into an item returns.
pub open spec fn udp_coalesce_result(p: IpPacket<UdpPacket>, item: UdpGroItem) -> Result<()> {
    if isize::MAX - item.data@.len() < p.transport.data@.len() {
        Err(Error::BufferTooSmall)
    } else if item.num_merged == 0 && item.checksum_known_invalid {
        Err(Error::OffloadItemInvalidChecksum)
    } else {
        Ok(())
    }
}

impl IpPacket<UdpPacket> {
    /// Whether this datagram may be coalesced into `gro_item`.
    #[inline]
    pub fn can_coalesce(&self, gro_item: &UdpGroItem) -> (r: bool)
        ensures
            r == udp_can_coalesce(*self, *gro_item),
    {
        if !self.header.can_coalesce(&gro_item.ip_header) {
            return false;
        }
        if self.transport.header.length > gro_item.udp_header.length {
            return false;
        }
        true
    }

    /// Coalesces this datagram into `gro_item`: fails with `BufferTooSmall`
    /// where the item's buffer cannot take the payload and with
    /// `OffloadItemInvalidChecksum` where nothing is merged into the item
    /// yet and its checksum is known to be wrong, leaving the item as it
    /// was; otherwise the item counts one more merged datagram. The
    /// datagram's payload is not merged into the item: the item's payload
    /// buffer is left as it is.
    #[inline]
    pub fn coalesce(&mut self, gro_item: &mut UdpGroItem) -> (r: Result<()>)
        requires
            udp_coalesce_result(*old(self), *old(gro_item)) is Ok ==> old(gro_item).num_merged
                < u32::MAX,
        ensures
            *final(self) == *old(self),
            r == udp_coalesce_result(*old(self), *old(gro_item)),
            r is Err ==> *final(gro_item) == *old(gro_item),
            r is Ok ==> *final(gro_item) == (UdpGroItem {
                num_merged: (old(gro_item).num_merged + 1) as u32,
                ..*old(gro_item)
            }),
    {
        if vec_remaining_mut(&gro_item.data) < self.transport.data.len() {
            return Err(Error::BufferTooSmall);
        }
        if gro_item.num_merged == 0 && gro_item.checksum_known_invalid {
            return Err(Error::OffloadItemInvalidChecksum);
        }
        gro_item.num_merged += 1;
        Ok(())
    }
}

/// Whether two IP headers coalesce does not depend on their order, and a
/// header always coalesces with itself.
pub proof fn law_ip_coalesce_symmetric_reflexive(a: IpHeaders, b: IpHeaders)
    ensures
        ip_can_coalesce(a, b) == ip_can_coalesce(b, a),
        ip_can_coalesce(a, a),
{
}

/// A TCP segment that sets PSH neither coalesces with an item nor is
/// coalesced into one.
pub proof fn law_psh_never_coalesces(p: IpPacket<TcpPacket>, item: TcpGroItem)
    requires
        p.transport.header.psh,
    ensures
        !tcp_can_coalesce(p, item),
        tcp_coalesce_result(p, item) is Err,
{
}

/// A TCP segment that coalesces with an item lies right next to the
/// item's sequence space: it starts where the item's ends, or ends where
/// the item's starts.
pub proof fn law_tcp_coalesce_adjacent(p: IpPacket<TcpPacket>, item: TcpGroItem)
    requires
        tcp_can_coalesce(p, item),
    ensures
        p.transport.header.sequence_number == item.seq_num + tcp_item_span(item)
            || p.transport.header.sequence_number + item_len32(p.transport.data@) == item.seq_num,
{
}

/// A segment that starts right where an item's sequence space ends (the
/// item's payload length times one more than its merged segments past its
/// sequence number), whose IP header coalesces with the item's, without PSH
/// and no longer than the item's payload, coalesces with it, whatever the
/// number of segments already merged.
pub proof fn law_tcp_following_segment_coalesces(p: IpPacket<TcpPacket>, item: TcpGroItem)
    requires
        ip_can_coalesce(p.header, item.ip_header),
        !p.transport.header.psh,
        p.transport.header.sequence_number == item.seq_num + (item.data@.len() as u32) * (1
            + item.num_merged),
        p.transport.data@.len() <= item.data@.len(),
    ensures
        tcp_can_coalesce(p, item),
{
    let d = item.data@.len() as u32;
    assert(d * (1 + item.num_merged) == d + item.num_merged * d) by (nonlinear_arith);
}

/// A segment that ends right where an item's sequence space starts, whose
/// IP header coalesces with the item's, without PSH, and exactly as long as
/// the item's payload, coalesces with it, whatever the number of segments
/// already merged; where it is longer, it coalesces only with an item that
/// has nothing merged yet.
pub proof fn law_tcp_preceding_segment_coalesces(p: IpPacket<TcpPacket>, item: TcpGroItem)
    requires
        ip_can_coalesce(p.header, item.ip_header),
        !p.transport.header.psh,
        p.transport.header.sequence_number + (p.transport.data@.len() as u32) == item.seq_num,
        p.transport.header.sequence_number != item.seq_num + (item.data@.len() as u32) * (1
            + item.num_merged),
        p.transport.data@.len() >= item.data@.len(),
    ensures
        p.transport.data@.len() == item.data@.len() ==> tcp_can_coalesce(p, item),
        p.transport.data@.len() > item.data@.len() ==> (tcp_can_coalesce(p, item) <==> item.num_merged
            == 0),
{
    let d = item.data@.len() as u32;
    assert(d * (1 + item.num_merged) == d + item.num_merged * d) by (nonlinear_arith);
}

/// Segments whose IP headers do not coalesce never coalesce.
pub proof fn law_tcp_needs_coalescing_headers(p: IpPacket<TcpPacket>, item: TcpGroItem)
    requires
        !ip_can_coalesce(p.header, item.ip_header),
    ensures
        !tcp_can_coalesce(p, item),
{
}

} // verus!
