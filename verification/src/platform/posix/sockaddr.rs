//! Socket addresses in the layouts the C library uses, and conversions
//! from and to plain IP socket addresses. Each layout is kept as the bytes
//! it holds in memory, so that it reads the same on every byte order.
use crate::error::{Error, Result};
use crate::sys::{af_inet, af_inet6};
use vstd::prelude::*;

verus! {

/// An IP socket address: an address and a port.
#[derive(Clone, Copy, Debug, PartialEq, Eq)]
pub enum SocketAddress {
    V4 { ip: [u8; 4], port: u16 },
    V6 { ip: [u8; 16], port: u16 },
}

/// The parts of a `sockaddr_union` that the conversions read and write:
/// the address family, the port (which both variants keep at the same
/// place), and the address of each variant, each as its bytes in memory.
#[derive(Clone, Copy, Debug, PartialEq, Eq)]
pub struct SockaddrUnion {
    pub family: u16,
    pub port: [u8; 2],
    pub addr4: [u8; 4],
    pub addr6: [u8; 16],
}

/// A generic `sockaddr`: its family and the 14 bytes of its data.
#[derive(Clone, Copy, Debug, PartialEq, Eq)]
pub struct Sockaddr {
    pub family: u16,
    pub data: [u8; 14],
}

/// A `sockaddr_in`: the family, the port and the IPv4 address as their
/// bytes in memory, and the zero padding.
#[derive(Clone, Copy, Debug, PartialEq, Eq)]
pub struct SockAddr {
    pub family: u16,
    pub port: [u8; 2],
    pub addr: [u8; 4],
    pub zero: [u8; 8],
}

/// The IPv4 address family, as `libc` gives it.
pub open spec fn spec_af_inet() -> u16 {
    2
}

/// The IPv6 address family, as `libc` gives it.
pub open spec fn spec_af_inet6() -> u16 {
    10
}

/// The bytes in memory of a port in network byte order.
pub open spec fn port_bytes(port: u16) -> [u8; 2] {
    [(port / 0x100) as u8, (port % 0x100) as u8]
}

/// The port that two bytes in network byte order hold.
pub open spec fn port_of(b: [u8; 2]) -> u16 {
    (b[0] * 0x100 + b[1]) as u16
}

/// The socket layout of a socket address: its family, its port and its
/// address, everything else zero.
pub open spec fn spec_rs_addr_to_sockaddr(addr: SocketAddress) -> SockaddrUnion {
    match addr {
        SocketAddress::V4 { ip, port } => SockaddrUnion {
            family: spec_af_inet(),
            port: port_bytes(port),
            addr4: ip,
            addr6: [0u8, 0, 0, 0, 0, 0, 0, 0, 0, 0, 0, 0, 0, 0, 0, 0],
        },
        SocketAddress::V6 { ip, port } => SockaddrUnion {
            family: spec_af_inet6(),
            port: port_bytes(port),
            addr4: [0u8, 0, 0, 0],
            addr6: ip,
        },
    }
}

/// The socket address a socket layout holds, where its family is an IP one.
pub open spec fn spec_sockaddr_to_rs_addr(sa: SockaddrUnion) -> Option<SocketAddress> {
    if sa.family == spec_af_inet() {
        Some(SocketAddress::V4 { ip: sa.addr4, port: port_of(sa.port) })
    } else if sa.family == spec_af_inet6() {
        Some(SocketAddress::V6 { ip: sa.addr6, port: port_of(sa.port) })
    } else {
        None
    }
}

fn ip_family() -> (f: u16)
    ensures
        f == spec_af_inet(),
{
    af_inet() as u16
}

fn ip6_family() -> (f: u16)
    ensures
        f == spec_af_inet6(),
{
    af_inet6() as u16
}

fn to_port_bytes(port: u16) -> (b: [u8; 2])
    ensures
        b == port_bytes(port),
{
    let b = [(port >> 8u16) as u8, (port & 0xff) as u8];
    assert((port >> 8u16) as u8 == (port / 0x100) as u8) by (bit_vector);
    assert((port & 0xff) as u8 == (port % 0x100) as u8) by (bit_vector);
    assert(b =~= port_bytes(port));
    b
}

fn from_port_bytes(b: [u8; 2]) -> (port: u16)
    ensures
        port == port_of(b),
{
    let (hi, lo) = (b[0], b[1]);
    assert((((hi as u16) << 8u16) | (lo as u16)) == hi * 0x100 + lo) by (bit_vector);
    ((hi as u16) << 8u16) | (lo as u16)
}

/// The socket address a socket layout holds; `None` where its family is
/// neither IPv4 nor IPv6.
pub fn sockaddr_to_rs_addr(sa: &SockaddrUnion) -> (r: Option<SocketAddress>)
    ensures
        r == spec_sockaddr_to_rs_addr(*sa),
{
    if sa.family == ip_family() {
        Some(SocketAddress::V4 { ip: sa.addr4, port: from_port_bytes(sa.port) })
    } else if sa.family == ip6_family() {
        Some(SocketAddress::V6 { ip: sa.addr6, port: from_port_bytes(sa.port) })
    } else {
        None
    }
}

/// The socket layout of a socket address.
pub fn rs_addr_to_sockaddr(addr: SocketAddress) -> (sa: SockaddrUnion)
    ensures
        sa == spec_rs_addr_to_sockaddr(addr),
{
    match addr {
        SocketAddress::V4 { ip, port } => {
            let sa = SockaddrUnion {
                family: ip_family(),
                port: to_port_bytes(port),
                addr4: ip,
                addr6: [0u8; 16],
            };
            assert(sa.addr6 =~= spec_rs_addr_to_sockaddr(addr).addr6);
            sa
        },
        SocketAddress::V6 { ip, port } => {
            let sa = SockaddrUnion {
                family: ip6_family(),
                port: to_port_bytes(port),
                addr4: [0u8; 4],
                addr6: ip,
            };
            assert(sa.addr4 =~= spec_rs_addr_to_sockaddr(addr).addr4);
            sa
        },
    }
}

/// The `sockaddr_in` that the data of a generic `sockaddr` holds.
pub open spec fn spec_reinterpret(value: Sockaddr) -> SockAddr {
    SockAddr {
        family: value.family,
        port: [value.data[0], value.data[1]],
        addr: [value.data[2], value.data[3], value.data[4], value.data[5]],
        zero: [
            value.data[6],
            value.data[7],
            value.data[8],
            value.data[9],
            value.data[10],
            value.data[11],
            value.data[12],
            value.data[13],
        ],
    }
}

/// The generic `sockaddr` that a `sockaddr_in` is.
pub open spec fn spec_generic(addr: SockAddr) -> Sockaddr {
    Sockaddr {
        family: addr.family,
        data: [
            addr.port[0],
            addr.port[1],
            addr.addr[0],
            addr.addr[1],
            addr.addr[2],
            addr.addr[3],
            addr.zero[0],
            addr.zero[1],
            addr.zero[2],
            addr.zero[3],
            addr.zero[4],
            addr.zero[5],
            addr.zero[6],
            addr.zero[7],
        ],
    }
}

/// The `sockaddr_in` of an IPv4 address with port zero.
pub open spec fn spec_from_ipv4(ip: [u8; 4]) -> SockAddr {
    SockAddr { family: spec_af_inet(), port: [0u8, 0u8], addr: ip, zero: [0u8, 0, 0, 0, 0, 0, 0, 0] }
}

impl SockAddr {
    /// Reads a `sockaddr_in` from a generic `sockaddr`; fails with
    /// `InvalidAddress` where its family is not IPv4.
    pub fn new(value: &Sockaddr) -> (r: Result<Self>)
        ensures
            value.family != spec_af_inet() ==> r == Err::<Self, Error>(Error::InvalidAddress),
            value.family == spec_af_inet() ==> r == Ok::<Self, Error>(spec_reinterpret(*value)),
    {
        if value.family != ip_family() {
            return Err(Error::InvalidAddress);
        }
        Self::unchecked(value)
    }

    /// Reads a `sockaddr_in` from a generic `sockaddr` whatever its family.
    pub fn unchecked(value: &Sockaddr) -> (r: Result<Self>)
        ensures
            r == Ok::<Self, Error>(spec_reinterpret(*value)),
    {
        let d = value.data;
        let a = SockAddr {
            family: value.family,
            port: [d[0], d[1]],
            addr: [d[2], d[3], d[4], d[5]],
            zero: [d[6], d[7], d[8], d[9], d[10], d[11], d[12], d[13]],
        };
        assert(a.port =~= spec_reinterpret(*value).port);
        assert(a.addr =~= spec_reinterpret(*value).addr);
        assert(a.zero =~= spec_reinterpret(*value).zero);
        Ok(a)
    }

    /// The `sockaddr_in` of an IPv4 address, with port zero.
    pub fn from_ipv4(ip: [u8; 4]) -> (a: Self)
        ensures
            a == spec_from_ipv4(ip),
    {
        let a = SockAddr { family: ip_family(), port: [0u8, 0u8], addr: ip, zero: [0u8; 8] };
        assert(a.port =~= spec_from_ipv4(ip).port);
        assert(a.zero =~= spec_from_ipv4(ip).zero);
        a
    }

    /// The IPv4 address held.
    pub fn to_ipv4(self) -> (ip: [u8; 4])
        ensures
            ip == self.addr,
    {
        self.addr
    }

    /// The generic `sockaddr` this is.
    pub fn to_sockaddr(self) -> (s: Sockaddr)
        ensures
            s == spec_generic(self),
    {
        let p = self.port;
        let a = self.addr;
        let z = self.zero;
        let s = Sockaddr {
            family: self.family,
            data: [p[0], p[1], a[0], a[1], a[2], a[3], z[0], z[1], z[2], z[3], z[4], z[5], z[6], z[7]],
        };
        assert(s.data =~= spec_generic(self).data);
        s
    }
}

/// Converting a socket address to its socket layout and back gives the
/// address.
pub proof fn law_sockaddr_roundtrip(addr: SocketAddress)
    ensures
        spec_sockaddr_to_rs_addr(spec_rs_addr_to_sockaddr(addr)) == Some(addr),
{
    match addr {
        SocketAddress::V4 { ip, port } => {
            assert(port_of(port_bytes(port)) == port);
        },
        SocketAddress::V6 { ip, port } => {
            assert(port_of(port_bytes(port)) == port);
        },
    }
}

/// The IPv4 address put into a `sockaddr_in` is the one read out of it.
pub proof fn law_ipv4_roundtrip(ip: [u8; 4])
    ensures
        spec_from_ipv4(ip).addr == ip,
{
}

/// A `sockaddr_in` passed as a generic `sockaddr` reads back as itself.
pub proof fn law_generic_roundtrip(addr: SockAddr)
    ensures
        spec_reinterpret(spec_generic(addr)) == addr,
{
    let r = spec_reinterpret(spec_generic(addr));
    assert(r.port =~= addr.port);
    assert(r.addr =~= addr.addr);
    assert(r.zero =~= addr.zero);
}

} // verus!
