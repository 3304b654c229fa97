//! The virtio-net header that precedes each packet on a TUN device with
//! offloads, read and written in the machine's byte order, as the C layout
//! of the header holds it.
use crate::error::{Error, Result};
use vstd::endian::{endianness, Endian};
use vstd::prelude::*;

verus! {

/// Size in bytes of a virtio-net header.
pub const VIRTIO_NET_HEADER_SIZE: usize = 10;

/// A virtio-net header.
#[derive(Debug, Clone, Copy, PartialEq, Eq, Structural)]
pub struct VirtioNetHeader {
    pub flags: u8,
    pub gso_type: u8,
    pub header_len: u16,
    pub gso_size: u16,
    pub checksum_start: u16,
    pub checksum_offset: u16,
}

/// The low byte of a 16-bit value.
pub open spec fn low_byte(x: u16) -> u8 {
    (x % 0x100) as u8
}

/// The high byte of a 16-bit value.
pub open spec fn high_byte(x: u16) -> u8 {
    (x / 0x100) as u8
}

/// The 16-bit value of two bytes in the machine's byte order.
pub open spec fn ne_u16(a: u8, b: u8) -> u16 {
    match endianness() {
        Endian::Little => (a + b * 0x100) as u16,
        Endian::Big => (a * 0x100 + b) as u16,
    }
}

/// The first byte in memory of a 16-bit value in the machine's byte order.
pub open spec fn ne_first(x: u16) -> u8 {
    match endianness() {
        Endian::Little => low_byte(x),
        Endian::Big => high_byte(x),
    }
}

/// The second byte in memory of a 16-bit value in the machine's byte order.
pub open spec fn ne_second(x: u16) -> u8 {
    match endianness() {
        Endian::Little => high_byte(x),
        Endian::Big => low_byte(x),
    }
}

/// The bytes of a header as its C layout holds them: fields in order, each
/// 16-bit one in the machine's byte order.
pub open spec fn header_bytes(h: VirtioNetHeader) -> Seq<u8> {
    seq![
        h.flags,
        h.gso_type,
        ne_first(h.header_len),
        ne_second(h.header_len),
        ne_first(h.gso_size),
        ne_second(h.gso_size),
        ne_first(h.checksum_start),
        ne_second(h.checksum_start),
        ne_first(h.checksum_offset),
        ne_second(h.checksum_offset),
    ]
}

/// The header that the first ten bytes of `s` hold.
pub open spec fn parse_header(s: Seq<u8>) -> VirtioNetHeader {
    VirtioNetHeader {
        flags: s[0],
        gso_type: s[1],
        header_len: ne_u16(s[2], s[3]),
        gso_size: ne_u16(s[4], s[5]),
        checksum_start: ne_u16(s[6], s[7]),
        checksum_offset: ne_u16(s[8], s[9]),
    }
}

/// `u16::from_ne_bytes`: the value of two bytes in the machine's byte
/// order, as vstd's `endianness()` stands for it.
#[verifier::external_body]
fn u16_from_ne_bytes(b: [u8; 2]) -> (x: u16)
    ensures
        x == ne_u16(b[0], b[1]),
{
    u16::from_ne_bytes(b)
}

/// `u16::to_ne_bytes`: the bytes of a value in the machine's byte order, as
/// vstd's `endianness()` stands for it.
#[verifier::external_body]
fn u16_to_ne_bytes(x: u16) -> (b: [u8; 2])
    ensures
        b[0] == ne_first(x),
        b[1] == ne_second(x),
{
    x.to_ne_bytes()
}

impl VirtioNetHeader {
    /// Reads a header from the start of `data`; fails with `BufferTooSmall`
    /// where `data` is shorter than a header.
    pub fn decode(data: &[u8]) -> (r: Result<Self>)
        ensures
            data@.len() < VIRTIO_NET_HEADER_SIZE ==> r == Err::<Self, Error>(Error::BufferTooSmall),
            data@.len() >= VIRTIO_NET_HEADER_SIZE ==> r == Ok::<Self, Error>(parse_header(data@)),
    {
        if data.len() < VIRTIO_NET_HEADER_SIZE {
            return Err(Error::BufferTooSmall);
        }
        Ok(VirtioNetHeader {
            flags: data[0],
            gso_type: data[1],
            header_len: u16_from_ne_bytes([data[2], data[3]]),
            gso_size: u16_from_ne_bytes([data[4], data[5]]),
            checksum_start: u16_from_ne_bytes([data[6], data[7]]),
            checksum_offset: u16_from_ne_bytes([data[8], data[9]]),
        })
    }

    /// Writes the header over the start of `data`, leaving the rest as it
    /// was; fails with `BufferTooSmall`, writing nothing, where `data` is
    /// shorter than a header.
    pub fn encode(&self, data: &mut [u8]) -> (r: Result<()>)
        ensures
            old(data)@.len() < VIRTIO_NET_HEADER_SIZE ==> r == Err::<(), Error>(Error::BufferTooSmall)
                && final(data)@ == old(data)@,
            old(data)@.len() >= VIRTIO_NET_HEADER_SIZE ==> r == Ok::<(), Error>(()) && final(data)@
                == header_bytes(*self) + old(data)@.skip(VIRTIO_NET_HEADER_SIZE as int),
    {
        if data.len() < VIRTIO_NET_HEADER_SIZE {
            return Err(Error::BufferTooSmall);
        }
        let hl = u16_to_ne_bytes(self.header_len);
        let gs = u16_to_ne_bytes(self.gso_size);
        let cs = u16_to_ne_bytes(self.checksum_start);
        let co = u16_to_ne_bytes(self.checksum_offset);
        let (a, b) = (hl[0], hl[1]);
        let (c, d) = (gs[0], gs[1]);
        let (e, f) = (cs[0], cs[1]);
        let (g, h) = (co[0], co[1]);
        data[0] = self.flags;
        data[1] = self.gso_type;
        data[2] = a;
        data[3] = b;
        data[4] = c;
        data[5] = d;
        data[6] = e;
        data[7] = f;
        data[8] = g;
        data[9] = h;
        assert(data@ =~= header_bytes(*self) + old(data)@.skip(VIRTIO_NET_HEADER_SIZE as int));
        Ok(())
    }
}

/// A 16-bit value written in the machine's byte order reads back as itself.
proof fn lemma_ne_roundtrip(x: u16)
    ensures
        ne_u16(ne_first(x), ne_second(x)) == x,
{
}

/// Two bytes read in the machine's byte order write back as themselves.
proof fn lemma_ne_bytes_roundtrip(a: u8, b: u8)
    ensures
        ne_first(ne_u16(a, b)) == a,
        ne_second(ne_u16(a, b)) == b,
{
}

/// Reading back what `encode` wrote gives the header that was written.
pub proof fn law_decode_encode(h: VirtioNetHeader, rest: Seq<u8>)
    ensures
        parse_header(header_bytes(h) + rest) == h,
{
    lemma_ne_roundtrip(h.header_len);
    lemma_ne_roundtrip(h.gso_size);
    lemma_ne_roundtrip(h.checksum_start);
    lemma_ne_roundtrip(h.checksum_offset);
    let s = header_bytes(h) + rest;
    assert(s[2] == ne_first(h.header_len) && s[3] == ne_second(h.header_len));
    assert(s[4] == ne_first(h.gso_size) && s[5] == ne_second(h.gso_size));
    assert(s[6] == ne_first(h.checksum_start) && s[7] == ne_second(h.checksum_start));
    assert(s[8] == ne_first(h.checksum_offset) && s[9] == ne_second(h.checksum_offset));
}

/// Writing back a header that `decode` read reproduces the bytes it was
/// read from.
pub proof fn law_encode_decode(s: Seq<u8>)
    requires
        s.len() >= VIRTIO_NET_HEADER_SIZE,
    ensures
        header_bytes(parse_header(s)) == s.take(VIRTIO_NET_HEADER_SIZE as int),
{
    lemma_ne_bytes_roundtrip(s[2], s[3]);
    lemma_ne_bytes_roundtrip(s[4], s[5]);
    lemma_ne_bytes_roundtrip(s[6], s[7]);
    lemma_ne_bytes_roundtrip(s[8], s[9]);
    assert(header_bytes(parse_header(s)) =~= s.take(VIRTIO_NET_HEADER_SIZE as int));
}

} // verus!
