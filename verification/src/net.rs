//! IP addresses and networks as plain numbers, and the test of whether a
//! configured network admits a client address.
use vstd::prelude::*;

verus! {

/// An IP address: an IPv4 address as its 32 bits, an IPv6 address as its 128 bits
/// (the first octet in the most significant position).
#[derive(PartialEq, Eq, Structural, Clone, Copy)]
pub enum IpAddress {
    V4(u32),
    V6(u128),
}

/// A network in CIDR form: an address and the number of leading bits that fix the network.
#[allow(inconsistent_fields)]
#[derive(PartialEq, Eq, Structural, Clone, Copy)]
pub enum IpNet {
    V4 { addr: u32, prefix: u8 },
    V6 { addr: u128, prefix: u8 },
}

impl IpNet {
    /// The prefix fits the address width.
    pub open spec fn wf(self) -> bool {
        match self {
            IpNet::V4 { prefix, .. } => prefix <= 32,
            IpNet::V6 { prefix, .. } => prefix <= 128,
        }
    }
}

/// What `ipnetwork::IpNetwork::from_str` makes of a text: the network it denotes,
/// or `None` where the text is no IPv4 or IPv6 network.
pub uninterp spec fn ip_network_parse(text: Seq<char>) -> Option<IpNet>;

/// Calls `ipnetwork::IpNetwork::from_str`, which reads an address with an optional
/// `/prefix` (or `/netmask`) as an IPv4 network, else as an IPv6 network. The
/// contract claims that the result is a function of the text, and, as the crate's
/// constructors check, that the prefix fits the address width.
#[verifier::external_body]
pub(crate) fn parse_ip_network(text: &str) -> (r: Option<IpNet>)
    ensures
        r == ip_network_parse(text@),
        r matches Some(net) ==> net.wf(),
{
    match <ipnetwork::IpNetwork as std::str::FromStr>::from_str(text) {
        Ok(ipnetwork::IpNetwork::V4(n)) => Some(IpNet::V4 { addr: u32::from(n.ip()), prefix: n.prefix() }),
        Ok(ipnetwork::IpNetwork::V6(n)) => Some(IpNet::V6 { addr: u128::from(n.ip()), prefix: n.prefix() }),
        Err(_) => None,
    }
}

/// The IPv4 mask of a prefix: its `prefix` leading bits set.
pub open spec fn v4_mask(prefix: u8) -> u32 {
    !((0xffff_ffffu64 >> prefix) as u32)
}

/// The IPv6 mask of a prefix: its `prefix` leading bits set.
pub open spec fn v6_mask(prefix: u8) -> u128 {
    if prefix == 0 {
        0u128
    } else {
        (!0u128) << ((128 - prefix) as u32)
    }
}

/// The network address: the lowest address of the network.
pub open spec fn network_address(net: IpNet) -> IpAddress {
    match net {
        IpNet::V4 { addr, prefix } => IpAddress::V4(addr & v4_mask(prefix)),
        IpNet::V6 { addr, prefix } => IpAddress::V6(addr & v6_mask(prefix)),
    }
}

/// `ip` lies in `net`; an address never lies in a network of the other family.
pub open spec fn net_contains(net: IpNet, ip: IpAddress) -> bool {
    match (net, ip) {
        (IpNet::V4 { addr, prefix }, IpAddress::V4(a)) => a & v4_mask(prefix) == addr & v4_mask(
            prefix,
        ),
        (IpNet::V6 { addr, prefix }, IpAddress::V6(a)) => a & v6_mask(prefix) == addr & v6_mask(
            prefix,
        ),
        _ => false,
    }
}

/// The address is unspecified: 0.0.0.0 or ::.
pub open spec fn is_unspecified(ip: IpAddress) -> bool {
    match ip {
        IpAddress::V4(a) => a == 0,
        IpAddress::V6(a) => a == 0,
    }
}

/// The address is a loopback address: 127.0.0.0/8 or ::1.
pub open spec fn is_loopback(ip: IpAddress) -> bool {
    match ip {
        IpAddress::V4(a) => a >> 24u32 == 127,
        IpAddress::V6(a) => a == 1,
    }
}

/// `net` and `ip` are of the same family.
pub open spec fn same_family(net: IpNet, ip: IpAddress) -> bool {
    match (net, ip) {
        (IpNet::V4 { .. }, IpAddress::V4(_)) => true,
        (IpNet::V6 { .. }, IpAddress::V6(_)) => true,
        _ => false,
    }
}

/// A configured network admits a client address when it is the unspecified
/// network of the client's family, contains the address, or is a loopback
/// network of the client's family.
pub open spec fn net_admits(net: IpNet, ip: IpAddress) -> bool {
    ||| same_family(net, ip) && is_unspecified(network_address(net))
    ||| net_contains(net, ip)
    ||| same_family(net, ip) && is_loopback(network_address(net))
}

/// The IPv4 mask of a prefix `p` sets exactly its `p` leading bits: counted from
/// the most significant end, bit `i` is set exactly when `i < p`.
pub proof fn lemma_v4_mask_bits(p: u8, i: u32)
    requires
        p <= 32,
        i < 32,
    ensures
        (v4_mask(p) >> ((31 - i) as u32)) & 1u32 == 1u32 <==> i < p as u32,
{
    let s: u32 = (31 - i) as u32;
    assert((!((0xffff_ffffu64 >> p) as u32) >> s) & 1u32 == 1u32 <==> i < p as u32) by (bit_vector)
        requires
            p <= 32,
            i < 32,
            s == 31 - i,
    ;
}

/// An IPv4 address lies in a network of prefix `p` exactly when it agrees with the
/// network's address on the first `p` bits; every IPv4 address lies in a network
/// of prefix 0.
pub proof fn lemma_v4_contains_prefix(addr: u32, p: u8, a: u32)
    requires
        p <= 32,
    ensures
        p == 0 ==> net_contains(IpNet::V4 { addr, prefix: p }, IpAddress::V4(a)),
        p > 0 ==> (net_contains(IpNet::V4 { addr, prefix: p }, IpAddress::V4(a)) <==> a >> ((32
            - p) as u32) == addr >> ((32 - p) as u32)),
{
    let s: u32 = (32 - p) as u32;
    let m: u32 = !((0xffff_ffffu64 >> p) as u32);
    assert(p == 0 ==> a & m == addr & m) by (bit_vector)
        requires
            m == !((0xffff_ffffu64 >> p) as u32),
    ;
    assert(p > 0 ==> (a & m == addr & m <==> a >> s == addr >> s)) by (bit_vector)
        requires
            p <= 32,
            s == 32 - p,
            m == !((0xffff_ffffu64 >> p) as u32),
    ;
}

/// The IPv6 mask of a prefix `p` sets exactly its `p` leading bits: counted from
/// the most significant end, bit `i` is set exactly when `i < p`.
pub proof fn lemma_v6_mask_bits(p: u8, i: u32)
    requires
        p <= 128,
        i < 128,
    ensures
        (v6_mask(p) >> ((127 - i) as u32)) & 1u128 == 1u128 <==> i < p as u32,
{
    let s: u32 = (127 - i) as u32;
    if p == 0 {
        assert((0u128 >> s) & 1u128 == 0u128) by (bit_vector);
    } else {
        let t: u32 = (128 - p) as u32;
        assert(((!0u128) << t >> s) & 1u128 == 1u128 <==> i < p as u32) by (bit_vector)
            requires
                0 < p <= 128,
                i < 128,
                s == 127 - i,
                t == 128 - p,
        ;
    }
}

/// An IPv6 address lies in a network of prefix `p` exactly when it agrees with the
/// network's address on the first `p` bits; every IPv6 address lies in a network
/// of prefix 0.
#[verifier::rlimit(100)]
pub proof fn lemma_v6_contains_prefix(addr: u128, p: u8, a: u128)
    requires
        p <= 128,
    ensures
        p == 0 ==> net_contains(IpNet::V6 { addr, prefix: p }, IpAddress::V6(a)),
        p > 0 ==> (net_contains(IpNet::V6 { addr, prefix: p }, IpAddress::V6(a)) <==> a >> ((128
            - p) as u32) == addr >> ((128 - p) as u32)),
{
    if p == 0 {
        assert(a & 0u128 == addr & 0u128) by (bit_vector);
    } else {
        let t: u32 = (128 - p) as u32;
        let m: u128 = (!0u128) << t;
        let x: u128 = a ^ addr;
        assert(a & m == addr & m <==> x & m == 0u128) by (bit_vector)
            requires
                x == a ^ addr,
        ;
        let y: u128 = a >> t;
        let z: u128 = addr >> t;
        assert(x >> t == y ^ z) by (bit_vector)
            requires
                x == a ^ addr,
                y == a >> t,
                z == addr >> t,
        ;
        assert(y == z <==> y ^ z == 0u128) by (bit_vector);
        assert(x & m == 0u128 <==> x >> t == 0u128) by (bit_vector)
            requires
                t < 128,
                m == (!0u128) << t,
        ;
    }
}

fn v4_mask_exec(prefix: u8) -> (r: u32)
    requires
        prefix <= 32,
    ensures
        r == v4_mask(prefix),
{
    let m: u64 = 0xffff_ffffu64 >> prefix;
    !(m as u32)
}

fn v6_mask_exec(prefix: u8) -> (r: u128)
    requires
        prefix <= 128,
    ensures
        r == v6_mask(prefix),
{
    if prefix == 0 {
        0u128
    } else {
        let shift: u32 = (128 - prefix) as u32;
        (!0u128) << shift
    }
}

/// The network address of `net`.
pub fn network_of(net: &IpNet) -> (r: IpAddress)
    requires
        net.wf(),
    ensures
        r == network_address(*net),
{
    match *net {
        IpNet::V4 { addr, prefix } => IpAddress::V4(addr & v4_mask_exec(prefix)),
        IpNet::V6 { addr, prefix } => IpAddress::V6(addr & v6_mask_exec(prefix)),
    }
}

/// Whether `ip` lies in `net`.
pub fn contains(net: &IpNet, ip: &IpAddress) -> (r: bool)
    requires
        net.wf(),
    ensures
        r == net_contains(*net, *ip),
{
    match (*net, *ip) {
        (IpNet::V4 { addr, prefix }, IpAddress::V4(a)) => {
            let m = v4_mask_exec(prefix);
            a & m == addr & m
        },
        (IpNet::V6 { addr, prefix }, IpAddress::V6(a)) => {
            let m = v6_mask_exec(prefix);
            a & m == addr & m
        },
        _ => false,
    }
}

/// Whether a configured network admits the client address `ip`.
pub fn network_admits(net: &IpNet, ip: &IpAddress) -> (r: bool)
    requires
        net.wf(),
    ensures
        r == net_admits(*net, *ip),
{
    let family = match (*net, *ip) {
        (IpNet::V4 { .. }, IpAddress::V4(_)) => true,
        (IpNet::V6 { .. }, IpAddress::V6(_)) => true,
        _ => false,
    };
    let network = network_of(net);
    let unspecified = match network {
        IpAddress::V4(a) => a == 0,
        IpAddress::V6(a) => a == 0,
    };
    let loopback = match network {
        IpAddress::V4(a) => a >> 24u32 == 127,
        IpAddress::V6(a) => a == 1,
    };
    (family && unspecified) || contains(net, ip) || (family && loopback)
}

} // verus!
