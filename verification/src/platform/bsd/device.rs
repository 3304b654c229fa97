//! A TUN device on BSD: its name, its descriptor halves and its control
//! socket, and the decisions around each interface request. The requests
//! themselves are the caller's.
use crate::configuration::Configuration;
use crate::error::{Error, Result};
use crate::platform::posix::sockaddr::{spec_af_inet, spec_from_ipv4, spec_generic};
use crate::platform::posix::{Reader, SockAddr, Sockaddr, Tun, Writer};
use crate::sys::{iff_running, iff_up, ifnamsiz};
use crate::DEFAULT_MTU;
use vstd::prelude::*;
use vstd::utf8::encode_utf8;

verus! {

/// The interface name a device is created with when its configuration
/// names none.
pub open spec fn default_tun_name() -> Seq<char> {
    seq!['t', 'u', 'n', '0']
}

/// The interface name of a configuration, as a device is created with it.
pub open spec fn configured_name(config: Configuration) -> Seq<char> {
    match config.tun_name {
        Some(name) => name@,
        None => default_tun_name(),
    }
}

/// What creating a device decides before it touches the system: the
/// interface name, which must have no NUL and fit the kernel's 16-byte name
/// buffer with its terminating NUL, a single queue, and the MTU.
pub open spec fn spec_settings(config: Configuration) -> Result<(Seq<char>, u16)> {
    let bytes = encode_utf8(configured_name(config));
    if config.tun_name is Some && bytes.contains(0u8) {
        Err(Error::NulInName)
    } else if config.tun_name is Some && bytes.len() + 1 > 16 {
        Err(Error::NameTooLong)
    } else if (match config.queues {
        Some(q) => q,
        None => 1,
    }) != 1 {
        Err(Error::InvalidQueuesNumber)
    } else {
        Ok(
            (
                configured_name(config),
                match config.mtu {
                    Some(m) => m,
                    None => DEFAULT_MTU,
                },
            ),
        )
    }
}

/// A device is created with the MTU its configuration names, and with the
/// default MTU only where it names none; and with the interface name its
/// configuration names, or `tun0` where it names none.
pub proof fn law_settings_keep_configured_values(config: Configuration)
    ensures
        spec_settings(config) matches Ok((name, mtu)) ==> {
            &&& config.mtu matches Some(m) ==> mtu == m
            &&& config.mtu is None ==> mtu == DEFAULT_MTU
            &&& config.tun_name matches Some(n) ==> name == n@
            &&& config.tun_name is None ==> name == seq!['t', 'u', 'n', '0']
        },
        (match config.queues {
            Some(q) => q,
            None => 1,
        }) != 1 ==> spec_settings(config) is Err,
{
}

/// Whether `bytes` holds a NUL byte.
fn has_nul(bytes: &[u8]) -> (r: bool)
    ensures
        r == bytes@.contains(0u8),
{
    let mut i: usize = 0;
    while i < bytes.len()
        invariant
            i <= bytes@.len(),
            forall|j: int| 0 <= j < i ==> bytes@[j] != 0u8,
        decreases bytes@.len() - i,
    {
        if bytes[i] == 0 {
            assert(bytes@[i as int] == 0u8);
            return true;
        }
        i += 1;
    }
    false
}

/// The interface flags after switching a device on or off: on sets the
/// up and running flags, off clears the up flag.
pub open spec fn spec_enabled_flags(flags: i16, value: bool) -> i16 {
    if value {
        flags | 0x41i16
    } else {
        flags & !0x1i16
    }
}

/// Switching on sets the up and running flags and keeps every other flag;
/// switching off clears the up flag and keeps every other flag; and doing
/// either twice is the same as doing it once.
pub proof fn law_enabled_flags_bits(flags: i16, value: bool)
    ensures
        spec_enabled_flags(flags, true) & 0x41i16 == 0x41i16,
        spec_enabled_flags(flags, true) & !0x41i16 == flags & !0x41i16,
        spec_enabled_flags(flags, false) & 0x1i16 == 0,
        spec_enabled_flags(flags, false) & !0x1i16 == flags & !0x1i16,
        spec_enabled_flags(spec_enabled_flags(flags, value), value) == spec_enabled_flags(flags, value),
{
    assert((flags | 0x41i16) & 0x41i16 == 0x41i16) by (bit_vector);
    assert((flags | 0x41i16) & !0x41i16 == flags & !0x41i16) by (bit_vector);
    assert((flags & !0x1i16) & 0x1i16 == 0) by (bit_vector);
    assert((flags & !0x1i16) & !0x1i16 == flags & !0x1i16) by (bit_vector);
    assert((flags | 0x41i16) | 0x41i16 == flags | 0x41i16) by (bit_vector);
}

/// The interface flags to request when switching a device on or off.
pub fn enabled_flags(flags: i16, value: bool) -> (r: i16)
    ensures
        r == spec_enabled_flags(flags, value),
{
    let up = iff_up() as i16;
    let running = iff_running() as i16;
    assert(up == 1 && running == 0x40);
    assert(1i16 | 0x40i16 == 0x41i16) by (bit_vector);
    if value {
        flags | (up | running)
    } else {
        flags & !up
    }
}

/// The MTU that an interface request reports; fails with
/// `TryFromIntError` where it does not fit 16 bits.
pub fn mtu_from_request(raw: i32) -> (r: Result<u16>)
    ensures
        0 <= raw <= u16::MAX ==> r == Ok::<u16, Error>(raw as u16),
        !(0 <= raw <= u16::MAX) ==> r == Err::<u16, Error>(Error::TryFromIntError),
{
    if 0 <= raw && raw <= 0xFFFF {
        Ok(raw as u16)
    } else {
        Err(Error::TryFromIntError)
    }
}

/// The IPv4 address that an interface request reports; fails with
/// `InvalidAddress` where the address is not an IPv4 one.
pub fn address_from_request(addr: &Sockaddr) -> (r: Result<[u8; 4]>)
    ensures
        addr.family != spec_af_inet() ==> r == Err::<[u8; 4], Error>(Error::InvalidAddress),
        addr.family == spec_af_inet() ==> r == Ok::<[u8; 4], Error>(
            [addr.data[2], addr.data[3], addr.data[4], addr.data[5]],
        ),
{
    match SockAddr::new(addr) {
        Ok(a) => Ok(a.to_ipv4()),
        Err(e) => Err(e),
    }
}

/// The generic socket address to request for an IPv4 address.
pub fn address_to_request(ip: [u8; 4]) -> (s: Sockaddr)
    ensures
        s == spec_generic(spec_from_ipv4(ip)),
{
    SockAddr::from_ipv4(ip).to_sockaddr()
}

/// A TUN device.
pub struct Device {
    tun_name: String,
    tun: Tun,
    ctl: i32,
    packet_information: bool,
}

impl Device {
    /// The interface name.
    pub closed spec fn spec_tun_name(&self) -> Seq<char> {
        self.tun_name@
    }

    /// The descriptor halves.
    pub closed spec fn spec_tun(&self) -> Tun {
        self.tun
    }

    /// The control socket.
    pub closed spec fn spec_ctl(&self) -> i32 {
        self.ctl
    }

    /// Whether frames carry a packet information header.
    pub closed spec fn spec_packet_information(&self) -> bool {
        self.packet_information
    }

    /// Decides what a device for `config` is created with: its interface
    /// name and its MTU.
    pub fn settings(config: &Configuration) -> (r: Result<(String, u16)>)
        ensures
            r matches Ok((name, mtu)) ==> spec_settings(*config) == Ok::<(Seq<char>, u16), Error>(
                (name@, mtu),
            ),
            r matches Err(e) ==> spec_settings(*config) == Err::<(Seq<char>, u16), Error>(e),
    {
        let name = match &config.tun_name {
            Some(tun_name) => {
                let bytes = tun_name.as_str().as_bytes();
                if has_nul(bytes) {
                    return Err(Error::NulInName);
                }
                if bytes.len() >= ifnamsiz() {
                    return Err(Error::NameTooLong);
                }
                tun_name.clone()
            },
            None => {
                let name = "tun0".to_string();
                proof {
                    reveal_strlit("tun0");
                    assert(name@ =~= default_tun_name());
                }
                name
            },
        };
        let queues = match config.queues {
            Some(q) => q,
            None => 1,
        };
        if queues != 1 {
            return Err(Error::InvalidQueuesNumber);
        }
        let mtu = match config.mtu {
            Some(m) => m,
            None => DEFAULT_MTU,
        };
        Ok((name, mtu))
    }

    /// Puts a device together from its interface name, its descriptor
    /// halves and its control socket; it carries no packet information.
    pub fn from_parts(tun_name: String, tun: Tun, ctl: i32) -> (d: Self)
        ensures
            d.spec_tun_name() == tun_name@,
            d.spec_tun() == tun,
            d.spec_ctl() == ctl,
            !d.spec_packet_information(),
    {
        Device { tun_name, tun, ctl, packet_information: false }
    }

    /// Splits the interface into a `Reader` and a `Writer`.
    pub fn split(self) -> (rw: (Reader, Writer))
        ensures
            rw.0 == self.spec_tun().spec_reader(),
            rw.1 == self.spec_tun().spec_writer(),
    {
        self.tun.into_parts()
    }

    /// The interface name.
    pub fn tun_name(&self) -> (r: Result<String>)
        ensures
            r matches Ok(name) && name@ == self.spec_tun_name(),
    {
        Ok(self.tun_name.clone())
    }

    /// A device cannot be renamed: fails with `InvalidName`.
    pub fn set_tun_name(&mut self, _value: &str) -> (r: Result<()>)
        ensures
            r == Err::<(), Error>(Error::InvalidName),
            *final(self) == *old(self),
    {
        Err(Error::InvalidName)
    }

    /// Whether frames carry a packet information header.
    pub fn packet_information(&self) -> (b: bool)
        ensures
            b == self.spec_packet_information(),
    {
        self.packet_information
    }

    /// The control socket that interface requests go through.
    pub fn ctl(&self) -> (fd: i32)
        ensures
            fd == self.spec_ctl(),
    {
        self.ctl
    }

    /// The descriptor halves, to read and write frames with.
    pub fn tun_mut(&mut self) -> (t: &mut Tun)
        ensures
            *t == old(self).spec_tun(),
            final(self).spec_tun() == *final(t),
            final(self).spec_tun_name() == old(self).spec_tun_name(),
            final(self).spec_ctl() == old(self).spec_ctl(),
            final(self).spec_packet_information() == old(self).spec_packet_information(),
    {
        &mut self.tun
    }
}

} // verus!
