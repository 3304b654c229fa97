//! Constants of the platform's C library, as `libc` defines them.
use vstd::prelude::*;

verus! {

/// `libc::ETH_P_IP`, the EtherType of IPv4: `0x0800` in libc's Linux module.
#[verifier::external_body]
pub(crate) fn eth_p_ip() -> (v: i32)
    ensures
        v == 0x0800,
{
    libc::ETH_P_IP
}

/// `libc::ETH_P_IPV6`, the EtherType of IPv6: `0x86DD` in libc's Linux module.
#[verifier::external_body]
pub(crate) fn eth_p_ipv6() -> (v: i32)
    ensures
        v == 0x86DD,
{
    libc::ETH_P_IPV6
}

/// `libc::AF_INET`, the IPv4 address family: `2` in libc's Linux module.
#[verifier::external_body]
pub(crate) fn af_inet() -> (v: i32)
    ensures
        v == 2,
{
    libc::AF_INET
}

/// `libc::AF_INET6`, the IPv6 address family: `10` in libc's Linux module.
#[verifier::external_body]
pub(crate) fn af_inet6() -> (v: i32)
    ensures
        v == 10,
{
    libc::AF_INET6
}

/// `libc::IFF_UP`, the interface-up flag: `0x1` in libc's Linux module.
#[verifier::external_body]
pub(crate) fn iff_up() -> (v: i32)
    ensures
        v == 0x1,
{
    libc::IFF_UP
}

/// `libc::IFF_RUNNING`, the interface-running flag: `0x40` in libc's Linux module.
#[verifier::external_body]
pub(crate) fn iff_running() -> (v: i32)
    ensures
        v == 0x40,
{
    libc::IFF_RUNNING
}

/// `libc::IFNAMSIZ`, the size of an interface name buffer with its NUL:
/// `16` in libc's unix module.
#[verifier::external_body]
pub(crate) fn ifnamsiz() -> (v: usize)
    ensures
        v == 16,
{
    libc::IFNAMSIZ
}

} // verus!
