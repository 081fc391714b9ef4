//! IP addresses and address blocks, as plain integers.

use vstd::arithmetic::power2::pow2;
use vstd::prelude::*;

verus! {

/// The number that bytes stand for in network byte order: the first byte
/// counts most.
pub open spec fn be_value(b: Seq<u8>) -> nat
    decreases b.len(),
{
    if b.len() == 0 {
        0
    } else {
        be_value(b.drop_last()) * 256 + b.last() as nat
    }
}

/// The `n` bytes of a number in network byte order; of a number that does
/// not fit the bytes that count most are lost.
pub open spec fn be_bytes(v: nat, n: nat) -> Seq<u8>
    decreases n,
{
    if n == 0 {
        Seq::empty()
    } else {
        be_bytes(v / 256, (n - 1) as nat).push((v % 256) as u8)
    }
}

/// 256 to the power of `n`.
pub open spec fn pow256(n: nat) -> nat
    decreases n,
{
    if n == 0 {
        1
    } else {
        256 * pow256((n - 1) as nat)
    }
}

/// Bytes stand for a number below 256 to the power of their count.
pub proof fn lemma_be_value_bound(b: Seq<u8>)
    ensures
        be_value(b) < pow256(b.len()),
    decreases b.len(),
{
    if b.len() > 0 {
        lemma_be_value_bound(b.drop_last());
    }
}

/// The bytes of a number stand for the number, if it fits them.
pub proof fn lemma_be_round_trip(v: nat, n: nat)
    requires
        v < pow256(n),
    ensures
        be_bytes(v, n).len() == n,
        be_value(be_bytes(v, n)) == v,
    decreases n,
{
    if n > 0 {
        lemma_be_round_trip(v / 256, (n - 1) as nat);
        assert(be_bytes(v, n).drop_last() =~= be_bytes(v / 256, (n - 1) as nat));
    }
}

proof fn lemma_pow256_values()
    ensures
        pow256(4) == 0x1_0000_0000,
        pow256(16) == 0x1_0000_0000_0000_0000_0000_0000_0000_0000,
        forall|i: nat, j: nat| i <= j ==> pow256(i) <= pow256(j),
{
    reveal_with_fuel(pow256, 5);
    assert(pow256(4) == 0x1_0000_0000);
    assert(pow256(8) == 0x1_0000_0000 * pow256(4)) by {
        reveal_with_fuel(pow256, 5);
    }
    assert(pow256(12) == 0x1_0000_0000 * pow256(8)) by {
        reveal_with_fuel(pow256, 5);
    }
    assert(pow256(16) == 0x1_0000_0000 * pow256(12)) by {
        reveal_with_fuel(pow256, 5);
    }
    assert forall|i: nat, j: nat| i <= j implies pow256(i) <= pow256(j) by {
        lemma_pow256_grows(i, j);
    }
}

proof fn lemma_pow256_grows(i: nat, j: nat)
    requires
        i <= j,
    ensures
        pow256(i) <= pow256(j),
        pow256(i) >= 1,
    decreases j,
{
    if i < j {
        lemma_pow256_grows(i, (j - 1) as nat);
    } else if i > 0 {
        lemma_pow256_grows((i - 1) as nat, (i - 1) as nat);
    }
}

fn value_of(b: &Vec<u8>) -> (r: u128)
    requires
        b@.len() <= 16,
    ensures
        r as nat == be_value(b@),
{
    let mut acc: u128 = 0;
    let mut i: usize = 0;
    assert(b@.take(0) =~= Seq::<u8>::empty());
    while i < b.len()
        invariant
            i <= b.len(),
            b@.len() <= 16,
            acc as nat == be_value(b@.take(i as int)),
        decreases b.len() - i,
    {
        proof {
            lemma_be_value_bound(b@.take(i as int));
            lemma_pow256_values();
            assert(pow256(i as nat) <= pow256(15));
            assert(pow256(16) == 256 * pow256(15));
            assert(b@.take(i + 1).drop_last() =~= b@.take(i as int));
        }
        acc = acc * 256 + b[i] as u128;
        i = i + 1;
    }
    assert(b@.take(b@.len() as int) =~= b@);
    acc
}

fn bytes_of(v: u128, n: usize) -> (r: Vec<u8>)
    ensures
        r@ == be_bytes(v as nat, n as nat),
    decreases n,
{
    if n == 0 {
        Vec::new()
    } else {
        let mut out = bytes_of(v / 256, n - 1);
        out.push((v % 256) as u8);
        out
    }
}

/// An IPv4 or IPv6 address. The integer is the address read as one
/// big-endian number: `1.2.3.4` is `0x0102_0304`.
#[derive(Debug, Clone, Copy, PartialEq, Eq, Structural)]
pub enum IpAddress {
    V4(u32),
    V6(u128),
}

impl IpAddress {
    /// The number of bits of an address of this family.
    pub open spec fn width(&self) -> nat {
        match self {
            IpAddress::V4(_) => 32,
            IpAddress::V6(_) => 128,
        }
    }

    /// The address as a number.
    pub open spec fn value(&self) -> nat {
        match self {
            IpAddress::V4(a) => *a as nat,
            IpAddress::V6(a) => *a as nat,
        }
    }

    pub open spec fn spec_is_ipv4(&self) -> bool {
        self is V4
    }

    pub open spec fn spec_is_ipv6(&self) -> bool {
        self is V6
    }

    #[verifier::when_used_as_spec(spec_is_ipv4)]
    pub fn is_ipv4(&self) -> (r: bool)
        ensures
            r == (self is V4),
    {
        match self {
            IpAddress::V4(_) => true,
            IpAddress::V6(_) => false,
        }
    }

    #[verifier::when_used_as_spec(spec_is_ipv6)]
    pub fn is_ipv6(&self) -> (r: bool)
        ensures
            r == (self is V6),
    {
        match self {
            IpAddress::V4(_) => false,
            IpAddress::V6(_) => true,
        }
    }

    /// The address that bytes in network byte order stand for: four bytes
    /// are an IPv4 address, sixteen an IPv6 address, and any other count is
    /// no address.
    pub open spec fn of_octets(b: Seq<u8>) -> Option<IpAddress> {
        if b.len() == 4 {
            Some(IpAddress::V4(be_value(b) as u32))
        } else if b.len() == 16 {
            Some(IpAddress::V6(be_value(b) as u128))
        } else {
            None
        }
    }

    /// The bytes of the address in network byte order.
    pub open spec fn spec_octets(&self) -> Seq<u8> {
        match self {
            IpAddress::V4(a) => be_bytes(*a as nat, 4),
            IpAddress::V6(a) => be_bytes(*a as nat, 16),
        }
    }

    /// The address that bytes in network byte order stand for; the family
    /// follows from their count.
    pub fn from_octets(b: &Vec<u8>) -> (r: Option<IpAddress>)
        ensures
            r == IpAddress::of_octets(b@),
    {
        if b.len() == 4 {
            proof {
                lemma_be_value_bound(b@);
                lemma_pow256_values();
            }
            Some(IpAddress::V4(value_of(b) as u32))
        } else if b.len() == 16 {
            Some(IpAddress::V6(value_of(b)))
        } else {
            None
        }
    }

    /// The bytes of the address in network byte order: four or sixteen.
    pub fn octets(&self) -> (r: Vec<u8>)
        ensures
            r@ == self.spec_octets(),
            r@.len() == 4 || r@.len() == 16,
            IpAddress::of_octets(r@) == Some(*self),
    {
        proof {
            law_octets_round_trip(*self);
        }
        match self {
            IpAddress::V4(a) => bytes_of(*a as u128, 4),
            IpAddress::V6(a) => bytes_of(*a, 16),
        }
    }

    /// The address in the notation of its family.
    pub fn to_text(&self) -> (r: String)
        ensures
            r@ == address_notation(*self),
    {
        address_text(*self)
    }

    /// The longest prefix that a block of this family can have.
    pub fn max_prefix_len(&self) -> (r: u8)
        ensures
            r as nat == self.width(),
    {
        match self {
            IpAddress::V4(_) => 32,
            IpAddress::V6(_) => 128,
        }
    }
}

/// Whether two addresses of `width` bits agree on their leading `prefix_len`
/// bits.
pub open spec fn same_block(width: nat, prefix_len: nat, a: nat, b: nat) -> bool
    recommends
        prefix_len <= width,
{
    a / pow2((width - prefix_len) as nat) == b / pow2((width - prefix_len) as nat)
}

/// An address block in CIDR notation: an address and the number of leading
/// bits that every member of the block shares with it.
#[derive(Debug, Clone, Copy, PartialEq, Eq, Structural)]
pub struct Cidr {
    addr: IpAddress,
    prefix_len: u8,
}

impl Cidr {
    #[verifier::type_invariant]
    spec fn prefix_fits(self) -> bool {
        self.prefix_len as nat <= self.addr.width()
    }

    /// The address the block was written with.
    pub closed spec fn spec_addr(&self) -> IpAddress {
        self.addr
    }

    /// The number of leading bits that fix the block.
    pub closed spec fn spec_prefix_len(&self) -> u8 {
        self.prefix_len
    }

    /// The block of `addr` with `prefix_len` leading bits.
    pub closed spec fn spec_new(addr: IpAddress, prefix_len: u8) -> Cidr {
        Cidr { addr, prefix_len }
    }

    /// The block that a text in CIDR notation stands for, if it stands for
    /// one.
    pub open spec fn parsed(s: Seq<char>) -> Option<Cidr> {
        match parsed_block(s) {
            Some((addr, prefix_len)) => if prefix_len as nat <= addr.width() {
                Some(Cidr::spec_new(addr, prefix_len))
            } else {
                None
            },
            None => None,
        }
    }

    /// The block that a text stands for: the one that it is in CIDR
    /// notation; else, where the text is a bare address, which the caller
    /// has read from it, the block of this address alone.
    pub open spec fn of_text(s: Seq<char>, bare: Option<IpAddress>) -> Option<Cidr> {
        match Cidr::parsed(s) {
            Some(c) => Some(c),
            None => match bare {
                Some(a) => Some(Cidr::spec_host(a)),
                None => None,
            },
        }
    }

    /// The block that a text in CIDR notation stands for.
    pub fn parse(s: &str) -> (r: Option<Cidr>)
        ensures
            r == Cidr::parsed(s@),
            r matches Some(c) ==> c.wf(),
    {
        match parse_block(s) {
            Some((addr, prefix_len)) => {
                if prefix_len <= addr.max_prefix_len() {
                    Some(Cidr { addr, prefix_len })
                } else {
                    None
                }
            },
            None => None,
        }
    }

    /// The block that a text stands for, in CIDR notation or as a bare
    /// address. `bare` is the address that the text is, if it is one. Where
    /// the text is neither, it is handed back.
    pub fn parse_addr_or_cidr(s: &str, bare: Option<IpAddress>) -> (r: Result<Cidr, String>)
        ensures
            match r {
                Ok(c) => Cidr::of_text(s@, bare) == Some(c) && c.wf(),
                Err(t) => Cidr::of_text(s@, bare) is None && t@ == s@,
            },
    {
        match Cidr::parse(s) {
            Some(c) => Ok(c),
            None => match bare {
                Some(a) => Ok(Cidr::host(a)),
                None => Err(s.to_owned()),
            },
        }
    }

    /// The block that holds `addr` alone.
    pub closed spec fn spec_host(addr: IpAddress) -> Cidr {
        Cidr {
            addr,
            prefix_len: match addr {
                IpAddress::V4(_) => 32u8,
                IpAddress::V6(_) => 128u8,
            },
        }
    }

    /// Whether the prefix length is one that the address family allows.
    /// Every block that the library hands out is well formed.
    pub open spec fn wf(&self) -> bool {
        self.spec_prefix_len() as nat <= self.spec_addr().width()
    }

    /// Whether `addr` lies in the block: it is of the block's family and
    /// agrees with the block's address on the prefix.
    pub open spec fn spec_contains(&self, addr: IpAddress) -> bool {
        match (self.spec_addr(), addr) {
            (IpAddress::V4(n), IpAddress::V4(a)) => same_block(
                32,
                self.spec_prefix_len() as nat,
                n as nat,
                a as nat,
            ),
            (IpAddress::V6(n), IpAddress::V6(a)) => same_block(
                128,
                self.spec_prefix_len() as nat,
                n as nat,
                a as nat,
            ),
            _ => false,
        }
    }

    /// The block of `addr` with `prefix_len` leading bits, or `None` where
    /// the family has no such prefix length.
    pub fn new(addr: IpAddress, prefix_len: u8) -> (r: Option<Cidr>)
        ensures
            r is Some <==> prefix_len as nat <= addr.width(),
            r matches Some(c) ==> c == Cidr::spec_new(addr, prefix_len) && c.spec_addr() == addr
                && c.spec_prefix_len() == prefix_len && c.wf(),
    {
        if prefix_len <= addr.max_prefix_len() {
            Some(Cidr { addr, prefix_len })
        } else {
            None
        }
    }

    /// The block that holds `addr` alone: `/32` for IPv4, `/128` for IPv6.
    pub fn host(addr: IpAddress) -> (c: Cidr)
        ensures
            c == Cidr::spec_host(addr),
            c.spec_addr() == addr,
            c.spec_prefix_len() as nat == addr.width(),
            c.wf(),
    {
        Cidr { addr, prefix_len: addr.max_prefix_len() }
    }

    pub fn addr(&self) -> (r: IpAddress)
        ensures
            r == self.spec_addr(),
    {
        self.addr
    }

    pub fn prefix_len(&self) -> (r: u8)
        ensures
            r == self.spec_prefix_len(),
            self.wf(),
    {
        proof {
            use_type_invariant(self);
        }
        self.prefix_len
    }

    /// Whether `addr` lies in the block.
    pub fn contains(&self, addr: &IpAddress) -> (r: bool)
        ensures
            r == self.spec_contains(*addr),
    {
        proof {
            use_type_invariant(self);
        }
        match (self.addr, *addr) {
            (IpAddress::V4(n), IpAddress::V4(a)) => block_holds_v4(n, self.prefix_len, a),
            (IpAddress::V6(n), IpAddress::V6(a)) => block_holds_v6(n, self.prefix_len, a),
            _ => false,
        }
    }
}

/// The text that stands for an address in the notation of its family: what
/// the standard library shows an address as.
pub uninterp spec fn address_notation(a: IpAddress) -> Seq<char>;

/// `ToString::to_string` of the address that `ipnet::IpNet::addr` gives
/// for a block made of the address: the address in the notation of its
/// family. Nothing is claimed of the text but that it depends on the address
/// alone.
#[verifier::external_body]
fn address_text(a: IpAddress) -> (r: String)
    ensures
        r@ == address_notation(a),
{
    let block = match a {
        IpAddress::V4(v) => ipnet::IpNet::new(v.to_be_bytes().into(), 32),
        IpAddress::V6(v) => ipnet::IpNet::new(v.to_be_bytes().into(), 128),
    };
    block.unwrap().addr().to_string()
}

/// What `ipnet::IpNet::from_str` makes of a text: the address and the
/// prefix length of the block, or nothing.
pub uninterp spec fn parsed_block(s: Seq<char>) -> Option<(IpAddress, u8)>;

/// `ipnet::IpNet::from_str`: the block that a text in CIDR notation stands
/// for, as its address (`IpNet::addr`, as a number) and its prefix length
/// (`IpNet::prefix_len`). The result depends on the text alone.
#[verifier::external_body]
fn parse_block(s: &str) -> (r: Option<(IpAddress, u8)>)
    ensures
        r == parsed_block(s@),
{
    match s.parse::<ipnet::IpNet>() {
        Ok(ipnet::IpNet::V4(n)) => Some((IpAddress::V4(n.addr().into()), n.prefix_len())),
        Ok(ipnet::IpNet::V6(n)) => Some((IpAddress::V6(n.addr().into()), n.prefix_len())),
        Err(_) => None,
    }
}

/// `ipnet::IpNet::contains` for an IPv4 block and an IPv4 address. The block
/// spans from its address with the host bits cleared to its address with the
/// host bits set, so it holds exactly the addresses that agree with it on the
/// leading `prefix_len` bits.
#[verifier::external_body]
fn block_holds_v4(net: u32, prefix_len: u8, addr: u32) -> (r: bool)
    requires
        prefix_len <= 32,
    ensures
        r == same_block(32, prefix_len as nat, net as nat, addr as nat),
{
    let block = ipnet::IpNet::new(net.to_be_bytes().into(), prefix_len).unwrap();
    let host = ipnet::IpNet::new(addr.to_be_bytes().into(), 32).unwrap();
    block.contains(&host.addr())
}

/// `ipnet::IpNet::contains` for an IPv6 block and an IPv6 address: as for
/// IPv4, with 128 bits.
#[verifier::external_body]
fn block_holds_v6(net: u128, prefix_len: u8, addr: u128) -> (r: bool)
    requires
        prefix_len <= 128,
    ensures
        r == same_block(128, prefix_len as nat, net as nat, addr as nat),
{
    let block = ipnet::IpNet::new(net.to_be_bytes().into(), prefix_len).unwrap();
    let host = ipnet::IpNet::new(addr.to_be_bytes().into(), 128).unwrap();
    block.contains(&host.addr())
}

/// The bytes of an address stand for the address.
pub proof fn law_octets_round_trip(a: IpAddress)
    ensures
        a.spec_octets().len() == (if a is V4 {
            4nat
        } else {
            16nat
        }),
        IpAddress::of_octets(a.spec_octets()) == Some(a),
{
    lemma_pow256_values();
    match a {
        IpAddress::V4(v) => {
            lemma_be_round_trip(v as nat, 4);
        },
        IpAddress::V6(v) => {
            lemma_be_round_trip(v as nat, 16);
        },
    }
}

/// The block of one address holds that address and no other.
pub proof fn law_host_block(addr: IpAddress, other: IpAddress)
    ensures
        Cidr::spec_host(addr).spec_addr() == addr,
        Cidr::spec_host(addr).spec_prefix_len() as nat == addr.width(),
        Cidr::spec_host(addr).wf(),
        Cidr::spec_host(addr).spec_contains(addr),
        Cidr::spec_host(addr).spec_contains(other) <==> other == addr,
{
    vstd::arithmetic::power2::lemma2_to64();
    assert(pow2(0) == 1);
    assert(pow2((32 - 32) as nat) == 1);
    assert(pow2((128 - 128) as nat) == 1);
}

} // verus!
