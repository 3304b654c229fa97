//! A TUN device library: packet framing, offload bookkeeping and address
//! arithmetic, verified with Verus.
use vstd::prelude::*;

pub mod buffers;
pub mod codec;
pub mod configuration;
pub mod error;
pub mod platform;
mod sys;

pub use crate::configuration::{Configuration, Layer};
pub use crate::error::{Error, Result};
use vstd::arithmetic::power::pow;
use vstd::arithmetic::div_mod::lemma_fundamental_div_mod_converse;
use vstd::arithmetic::power2::{
    lemma2_to64, lemma_pow2, lemma_pow2_adds, lemma_pow2_pos, lemma_pow2_unfold, pow2,
};
use vstd::bits::lemma_u32_shr_is_div;

verus! {

/// The MTU a device gets when its configuration names none.
pub const DEFAULT_MTU: u16 = 1500;

/// Length of the packet information header that precedes each frame
/// when a device runs with packet information enabled.
pub const PACKET_INFORMATION_LENGTH: usize = 4;

/// A configuration with every setting left to its default.
pub fn configure() -> (c: Configuration)
    ensures
        c.tun_name is None,
        c.mtu is None,
        c.queues is None,
        c.layer is None,
{
    Configuration::default()
}

/// The big-endian value of four address octets.
pub open spec fn be_u32(b: [u8; 4]) -> int {
    b[0] * 0x1000000 + b[1] * 0x10000 + b[2] * 0x100 + b[3]
}

/// The four big-endian octets of a 32-bit value.
pub open spec fn be_octets(n: u32) -> [u8; 4] {
    [
        (n / 0x1000000) as u8,
        ((n / 0x10000) % 0x100) as u8,
        ((n / 0x100) % 0x100) as u8,
        (n % 0x100) as u8,
    ]
}

/// Number of one bits in `n`.
pub open spec fn count_ones(n: nat) -> nat
    decreases n,
{
    if n == 0 {
        0
    } else {
        (n % 2) + count_ones(n / 2)
    }
}

/// A value below `2^k` has at most `k` one bits.
proof fn lemma_count_ones_bound(n: nat, k: nat)
    requires
        n < pow2(k),
    ensures
        count_ones(n) <= k,
    decreases k,
{
    if k > 0 && n > 0 {
        lemma_pow2_unfold(k);
        lemma_count_ones_bound(n / 2, (k - 1) as nat);
    } else if n > 0 {
        assert(pow2(0) == 1) by {
            lemma_pow2(0);
            reveal(pow);
        }
    }
}

/// Number of one bits in a netmask given by its octets.
pub fn netmask2prefix(netmask: [u8; 4]) -> (prefix: u32)
    ensures
        prefix == count_ones(be_u32(netmask) as nat),
        prefix <= 32,
{
    let mut n: u32 = octets_to_u32(netmask);
    let ghost n0: nat = n as nat;
    proof {
        lemma2_to64();
        lemma_count_ones_bound(n0, 32);
    }
    let mut i: u32 = 0;
    while n > 0
        invariant
            i + count_ones(n as nat) == count_ones(n0),
            count_ones(n0) <= 32,
        decreases n,
    {
        assert(n & 1 == n % 2) by (bit_vector);
        assert(n >> 1 == n / 2) by (bit_vector);
        if n & 0x1 != 0 {
            i += 1;
        }
        n >>= 1;
    }
    i
}

/// The netmask of a prefix length: its `prefix` most significant bits set.
pub open spec fn prefix_mask(prefix: u32) -> u32 {
    !(0xFFFF_FFFFu32 >> prefix)
}

/// The first address of the network of `ip` with a prefix of `prefix` bits.
pub open spec fn network_start(ip: [u8; 4], prefix: u32) -> [u8; 4] {
    be_octets((be_u32(ip) as u32) & prefix_mask(prefix))
}

/// Reading octets back from a value gives the value.
proof fn lemma_be_roundtrip(n: u32)
    ensures
        be_u32(be_octets(n)) == n,
{
    let o = be_octets(n);
    assert(o[0] == n / 0x1000000);
    assert(o[1] == (n / 0x10000) % 0x100);
    assert(o[2] == (n / 0x100) % 0x100);
    assert(o[3] == n % 0x100);
}

/// Packs four octets into their big-endian value.
fn octets_to_u32(b: [u8; 4]) -> (n: u32)
    ensures
        n == be_u32(b),
{
    let (a, c, d, e) = (b[0], b[1], b[2], b[3]);
    let n = ((a as u32) << 24) | ((c as u32) << 16) | ((d as u32) << 8) | (e as u32);
    assert(((a as u32) << 24) | ((c as u32) << 16) | ((d as u32) << 8) | (e as u32)
        == a * 0x1000000 + c * 0x10000 + d * 0x100 + e) by (bit_vector);
    n
}

/// Splits a value into its big-endian octets.
fn u32_to_octets(n: u32) -> (b: [u8; 4])
    ensures
        b == be_octets(n),
{
    let b = [(n >> 24) as u8, ((n >> 16) & 0xff) as u8, ((n >> 8) & 0xff) as u8, (n & 0xff) as u8];
    assert((n >> 24) as u8 == (n / 0x1000000) as u8) by (bit_vector);
    assert(((n >> 16) & 0xff) as u8 == ((n / 0x10000) % 0x100) as u8) by (bit_vector);
    assert(((n >> 8) & 0xff) as u8 == ((n / 0x100) % 0x100) as u8) by (bit_vector);
    assert((n & 0xff) as u8 == (n % 0x100) as u8) by (bit_vector);
    assert(b =~= be_octets(n));
    b
}

/// The first address of the network that `ip` belongs to, for a prefix
/// length below 32.
pub fn startip_from_cidr(ip: [u8; 4], prefix: u32) -> (start: [u8; 4])
    requires
        prefix < 32,
    ensures
        start == network_start(ip, prefix),
{
    let mask = !(0xFFFF_FFFFu32 >> prefix);
    let n = octets_to_u32(ip);
    u32_to_octets(n & mask)
}

/// Doubling a value keeps its number of one bits.
proof fn lemma_count_ones_double(x: nat, m: nat)
    ensures
        count_ones(x * pow2(m)) == count_ones(x),
    decreases m,
{
    if m > 0 {
        lemma_pow2_unfold(m);
        lemma_count_ones_double(x, (m - 1) as nat);
        let y = x * pow2((m - 1) as nat);
        assert(x * pow2(m) == 2 * y) by (nonlinear_arith)
            requires
                pow2(m) == 2 * pow2((m - 1) as nat),
                y == x * pow2((m - 1) as nat),
        ;
        if y > 0 {
            assert((2 * y) % 2 == 0 && (2 * y) / 2 == y);
            assert(count_ones(2 * y) == count_ones(y));
        }
    } else {
        lemma_pow2(0);
        reveal(pow);
        assert(pow2(0) == 1);
        assert(x * pow2(m) == x);
    }
}

/// `2^p - 1` has exactly `p` one bits.
proof fn lemma_count_ones_low(p: nat)
    ensures
        count_ones((pow2(p) - 1) as nat) == p,
    decreases p,
{
    lemma_pow2_pos(p);
    if p > 0 {
        lemma_pow2_unfold(p);
        lemma_pow2_pos((p - 1) as nat);
        lemma_count_ones_low((p - 1) as nat);
        let y = (pow2((p - 1) as nat) - 1) as nat;
        assert((pow2(p) - 1) as nat == 2 * y + 1);
        assert((2 * y + 1) % 2 == 1 && (2 * y + 1) / 2 == y);
    } else {
        lemma_pow2(0);
        reveal(pow);
    }
}

/// The netmask of a prefix length, as a number: `2^32 - 2^(32 - p)`.
proof fn lemma_prefix_mask_value(p: u32)
    requires
        p < 32,
    ensures
        prefix_mask(p) as int == (pow2(p as nat) - 1) * pow2((32 - p) as nat),
{
    let q = (32 - p) as nat;
    lemma_u32_shr_is_div(0xFFFF_FFFFu32, p);
    lemma_pow2_adds(p as nat, q);
    lemma2_to64();
    lemma_pow2_pos(p as nat);
    lemma_pow2_pos(q);
    let a = pow2(p as nat) as int;
    let b = pow2(q) as int;
    assert(a * b == 0x1_0000_0000);
    assert(0xFFFF_FFFFint == (b - 1) * a + (a - 1)) by (nonlinear_arith)
        requires
            a * b == 0x1_0000_0000,
    ;
    lemma_fundamental_div_mod_converse(0xFFFF_FFFFint, a, b - 1, a - 1);
    let s = 0xFFFF_FFFFu32 >> p;
    assert(s == b - 1);
    assert(!s == 0xFFFF_FFFFu32 - s) by (bit_vector);
    assert(0xFFFF_FFFF - (b - 1) == (a - 1) * b) by (nonlinear_arith)
        requires
            a * b == 0x1_0000_0000,
    ;
}

/// The first address of a network, as octets, read back as a value.
proof fn lemma_network_start_value(ip: [u8; 4], prefix: u32)
    ensures
        be_u32(network_start(ip, prefix)) == (be_u32(ip) as u32) & prefix_mask(prefix),
{
    lemma_be_roundtrip((be_u32(ip) as u32) & prefix_mask(prefix));
}

/// The netmask built from a prefix length below 32 counts back to that
/// prefix length: `netmask2prefix` undoes `startip_from_cidr` applied to
/// the all-ones address.
pub proof fn law_netmask_prefix_roundtrip(prefix: u32)
    requires
        prefix < 32,
    ensures
        count_ones(be_u32(network_start([255u8, 255, 255, 255], prefix)) as nat) == prefix,
{
    let ones: [u8; 4] = [255u8, 255, 255, 255];
    assert(be_u32(ones) == 0xFFFF_FFFF);
    lemma_network_start_value(ones, prefix);
    let m = prefix_mask(prefix);
    assert(0xFFFF_FFFFu32 & m == m) by (bit_vector);
    lemma_prefix_mask_value(prefix);
    lemma_pow2_pos(prefix as nat);
    lemma_count_ones_double((pow2(prefix as nat) - 1) as nat, (32 - prefix) as nat);
    lemma_count_ones_low(prefix as nat);
}

/// The first address of a network is the first address of its own
/// network: `startip_from_cidr` is idempotent.
pub proof fn law_startip_idempotent(ip: [u8; 4], prefix: u32)
    requires
        prefix < 32,
    ensures
        network_start(network_start(ip, prefix), prefix) == network_start(ip, prefix),
{
    lemma_network_start_value(ip, prefix);
    let x = be_u32(ip) as u32;
    let m = prefix_mask(prefix);
    assert((x & m) & m == x & m) by (bit_vector);
}

/// An address lies in the network it starts: masking it with its own
/// prefix leaves the start of the network unchanged, and every address
/// bit outside the prefix is zero in the start.
pub proof fn law_startip_host_bits_clear(ip: [u8; 4], prefix: u32)
    requires
        prefix < 32,
    ensures
        be_u32(network_start(ip, prefix)) as u32 & !prefix_mask(prefix) == 0,
        be_u32(network_start(ip, prefix)) <= be_u32(ip),
{
    lemma_network_start_value(ip, prefix);
    let x = be_u32(ip) as u32;
    let m = prefix_mask(prefix);
    assert((x & m) & !m == 0) by (bit_vector);
    assert(x & m <= x) by (bit_vector);
}

} // verus!
