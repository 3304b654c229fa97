//! Framing of TUN packets: the IP version of a packet, the packet
//! information header, and a codec that hands out whole packets.
use crate::buffers::{
    bytes_as_slice, bytes_contents, bytes_copy_from_slice, bytes_into_vec, bytes_mut_contents,
    bytes_mut_freeze, bytes_mut_is_empty, bytes_mut_len, bytes_mut_put, bytes_mut_reserve,
    bytes_mut_split_to,
};
use crate::error::{Error, Result};
use crate::sys::{eth_p_ip, eth_p_ipv6};
use crate::PACKET_INFORMATION_LENGTH;
use bytes::{Bytes, BytesMut};
use vstd::prelude::*;

verus! {

/// The IP version a packet announces in the high nibble of its first byte.
pub open spec fn ip_version(first: u8) -> u8 {
    first / 16
}

/// What `is_ipv6` answers for a packet.
pub open spec fn spec_is_ipv6(buf: Seq<u8>) -> Result<bool> {
    if buf.len() == 0 {
        Err(Error::ZeroLengthData)
    } else if ip_version(buf[0]) == 4 {
        Ok(false)
    } else if ip_version(buf[0]) == 6 {
        Ok(true)
    } else {
        Err(Error::InvalidIpVersion(ip_version(buf[0])))
    }
}

/// Infers the protocol of a packet from the first nibble of its buffer:
/// `Ok(false)` for IPv4, `Ok(true)` for IPv6.
pub fn is_ipv6(buf: &[u8]) -> (r: Result<bool>)
    ensures
        r == spec_is_ipv6(buf@),
{
    if buf.len() == 0 {
        return Err(Error::ZeroLengthData);
    }
    let first = buf[0];
    let p = first >> 4;
    assert(first >> 4 == first / 16) by (bit_vector);
    if p == 4 {
        Ok(false)
    } else if p == 6 {
        Ok(true)
    } else {
        Err(Error::InvalidIpVersion(p))
    }
}

/// The answer of `is_ipv6` depends only on the high nibble of a packet's
/// first byte: 6 means IPv6, 4 means IPv4, whatever the low nibble, and any
/// other nibble is refused with that nibble; an empty packet is refused.
pub proof fn law_is_ipv6_reads_high_nibble(buf: Seq<u8>)
    ensures
        buf.len() == 0 ==> spec_is_ipv6(buf) == Err::<bool, Error>(Error::ZeroLengthData),
        buf.len() > 0 && buf[0] / 16 == 6 ==> spec_is_ipv6(buf) == Ok::<bool, Error>(true),
        buf.len() > 0 && buf[0] / 16 == 4 ==> spec_is_ipv6(buf) == Ok::<bool, Error>(false),
        buf.len() > 0 && buf[0] / 16 != 4 && buf[0] / 16 != 6 ==> spec_is_ipv6(buf) == Err::<
            bool,
            Error,
        >(Error::InvalidIpVersion((buf[0] / 16) as u8)),
        forall|low: u8|
            #![trigger buf.update(0, low)]
            buf.len() > 0 && low / 16 == buf[0] / 16 ==> spec_is_ipv6(buf.update(0, low))
                == spec_is_ipv6(buf),
{
}

/// The packet information header of a frame: two zero flag bytes, then the
/// EtherType of the packet's protocol in network byte order.
pub open spec fn packet_information_header(ipv6: bool) -> Seq<u8> {
    if ipv6 {
        seq![0u8, 0u8, 0x86u8, 0xDDu8]
    } else {
        seq![0u8, 0u8, 0x08u8, 0x00u8]
    }
}

/// The big-endian bytes of a protocol number.
fn proto_bytes(proto: i32) -> (b: [u8; PACKET_INFORMATION_LENGTH])
    requires
        0 <= proto < 0x10000,
    ensures
        b@ == seq![0u8, 0u8, (proto / 0x100) as u8, (proto % 0x100) as u8],
{
    let hi = (proto / 0x100) as u8;
    let lo = (proto % 0x100) as u8;
    let b = [0u8, 0u8, hi, lo];
    assert(b@ =~= seq![0u8, 0u8, hi, lo]);
    b
}

/// The packet information header for a packet, when the device carries
/// one: `Some` holding the header exactly when `packet_information` is set.
pub fn generate_packet_information(packet_information: bool, ipv6: bool) -> (r: Option<Bytes>)
    ensures
        packet_information <==> r is Some,
        r matches Some(b) ==> bytes_contents(b) == packet_information_header(ipv6),
{
    if packet_information {
        let proto = if ipv6 {
            eth_p_ipv6()
        } else {
            eth_p_ip()
        };
        let header = proto_bytes(proto);
        assert(header@ =~= packet_information_header(ipv6));
        return Some(bytes_copy_from_slice(&header));
    }
    None
}

/// What decoding a buffer gives: everything buffered as one packet, when
/// anything is buffered, and the buffer left behind.
pub open spec fn spec_decode(buf: Seq<u8>) -> (Option<Seq<u8>>, Seq<u8>) {
    if buf.len() == 0 {
        (None, buf)
    } else {
        (Some(buf), Seq::empty())
    }
}

/// What encoding a packet into a buffer leaves there: the packet after
/// what was buffered.
pub open spec fn spec_encode(buf: Seq<u8>, item: Seq<u8>) -> Seq<u8> {
    buf + item
}

/// A non-empty packet encoded into an empty buffer decodes as that packet,
/// leaving the buffer empty.
pub proof fn law_codec_roundtrip(item: Seq<u8>)
    requires
        item.len() > 0,
    ensures
        spec_decode(spec_encode(Seq::empty(), item)) == (Some(item), Seq::<u8>::empty()),
{
    assert(spec_encode(Seq::empty(), item) =~= item);
}

/// The number of bytes buffered in `buf`, which bounds what `encode` can
/// append to it.
pub fn buffered_len(buf: &BytesMut) -> (n: usize)
    ensures
        n == bytes_mut_contents(*buf).len(),
{
    bytes_mut_len(buf)
}

/// A TUN packet encoder and decoder: each read hands out everything
/// buffered as one packet, and each packet is written out as it is.
#[derive(Debug, Default)]
pub struct TunPacketCodec;

impl TunPacketCodec {
    /// Creates a new `TunPacketCodec`.
    pub fn new() -> (c: TunPacketCodec)
        ensures
            c == TunPacketCodec,
    {
        TunPacketCodec
    }

    /// Takes everything buffered in `buf` as one packet; `None` when nothing
    /// is buffered.
    pub fn decode(&mut self, buf: &mut BytesMut) -> (packet: Option<Vec<u8>>)
        ensures
            packet is None <==> spec_decode(bytes_mut_contents(*old(buf))).0 is None,
            packet matches Some(p) ==> spec_decode(bytes_mut_contents(*old(buf))).0 == Some(p@),
            bytes_mut_contents(*final(buf)) == spec_decode(bytes_mut_contents(*old(buf))).1,
    {
        if bytes_mut_is_empty(buf) {
            return None;
        }
        let len = bytes_mut_len(buf);
        let pkt = bytes_mut_split_to(buf, len);
        let bytes = bytes_mut_freeze(pkt);
        proof {
            assert(bytes_mut_contents(*old(buf)).take(len as int) =~= bytes_mut_contents(
                *old(buf),
            ));
            assert(bytes_mut_contents(*buf) =~= Seq::<u8>::empty());
        }
        Some(bytes_into_vec(bytes))
    }

    /// Appends the packet `item` to `dst`.
    pub fn encode(&mut self, item: Vec<u8>, dst: &mut BytesMut)
        requires
            bytes_mut_contents(*old(dst)).len() + item@.len() <= isize::MAX,
        ensures
            bytes_mut_contents(*final(dst)) == spec_encode(bytes_mut_contents(*old(dst)), item@),
    {
        let bytes = item.as_slice();
        bytes_mut_reserve(dst, bytes.len());
        bytes_mut_put(dst, bytes);
    }
}

} // verus!
