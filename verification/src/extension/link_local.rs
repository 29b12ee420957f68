//! Sequential address management for IPv4 subnets in the link-local range (169.254.0.0/16): a
//! subnet is identified by its network length and its index among the link-local subnets of that
//! length, and its addresses are computed rather than stored.

use vstd::prelude::*;

use crate::net::{Ipv4Addr, Ipv4Inet};

verus! {

/// 2 to the power of `e`.
pub open spec fn two_pow(e: nat) -> nat
    decreases e,
{
    if e == 0 {
        1
    } else {
        2 * two_pow((e - 1) as nat)
    }
}

/// The number of addresses in a network of the given length (at most 32).
pub open spec fn spec_ip_amount(network_length: u8) -> nat {
    two_pow((32 - network_length) as nat)
}

/// The number of addresses of the link-local range.
pub open spec fn link_local_ip_amount() -> nat {
    65536
}

/// An error that can be returned by operations with a LinkLocalSubnet.
#[derive(Debug, Clone, Copy, PartialEq, Eq)]
pub enum LinkLocalSubnetError {
    /// The given subnet is not link-local (fits into 169.254.0.0/16).
    NotLinkLocal,
    /// The given network length is thinner than /30 or wider than /17.
    NetworkLengthDoesNotFit,
    /// The given subnet index does not fit into the link-local range (169.254.0.0/16).
    SubnetIndexDoesNotFit,
    /// The given IP index does not fit into the subnet.
    IpIndexDoesNotFit,
    /// An unexpected unsigned integer overflow occurred.
    UnexpectedOverflow,
}

/// The verdict on a network length and subnet index: the length must lie between /17 and /30,
/// and the subnet must lie within the link-local range.
pub open spec fn subnet_verdict(network_length: u8, subnet_index: u16) -> Result<(), LinkLocalSubnetError> {
    if network_length > 30 || network_length < 17 {
        Err(LinkLocalSubnetError::NetworkLengthDoesNotFit)
    } else if link_local_ip_amount() / spec_ip_amount(network_length) <= subnet_index {
        Err(LinkLocalSubnetError::SubnetIndexDoesNotFit)
    } else {
        Ok(())
    }
}

/// The link-local address whose last two octets hold `offset`.
pub open spec fn link_local_address(offset: nat) -> Ipv4Addr {
    Ipv4Addr { a: 169, b: 254, c: (offset / 256) as u8, d: (offset % 256) as u8 }
}

/// A link-local IPv4 subnet. Internally this type is incredibly lean, not storing any
/// actual IPv4 addresses but rather only a u16, a u8 and a u32.
#[derive(Debug, Clone, Copy, PartialEq, Eq, PartialOrd, Ord, Hash)]
pub struct LinkLocalSubnet {
    subnet_index: u16,
    network_length: u8,
    ip_amount: u32,
}

/// `2^(32 - network_length)` for a length between /17 and /30.
pub(crate) fn get_ip_amount(network_length: u8) -> (r: u32)
    requires
        17 <= network_length <= 30,
    ensures
        r == spec_ip_amount(network_length),
        4 <= r <= 32768,
{
    let e: u8 = 32 - network_length;
    let mut r: u32 = 1;
    let mut k: u8 = 0;
    while k < e
        invariant
            k <= e,
            e <= 15,
            r == two_pow(k as nat),
            r <= 32768,
        decreases e - k,
    {
        proof {
            lemma_two_pow_le(k as nat + 1, 15);
        }
        r = r * 2;
        k = k + 1;
    }
    proof {
        lemma_two_pow_le(2, e as nat);
    }
    r
}

/// `2^a <= 2^b` when `a <= b`.
pub proof fn lemma_two_pow_le(a: nat, b: nat)
    requires
        a <= b,
    ensures
        two_pow(a) <= two_pow(b),
        two_pow(15) == 32768,
        two_pow(2) == 4,
    decreases b,
{
    reveal_with_fuel(two_pow, 16);
    if a < b {
        lemma_two_pow_le(a, (b - 1) as nat);
    }
}

/// The validity of a network length and subnet index, as in [subnet_verdict].
fn validate_network_length_and_subnet_index(network_length: u8, subnet_index: u16) -> (r: Result<(), LinkLocalSubnetError>)
    ensures
        r == subnet_verdict(network_length, subnet_index),
{
    if network_length > 30 || network_length < 17 {
        Err(LinkLocalSubnetError::NetworkLengthDoesNotFit)
    } else if 65536 / get_ip_amount(network_length) <= subnet_index as u32 {
        Err(LinkLocalSubnetError::SubnetIndexDoesNotFit)
    } else {
        Ok(())
    }
}

/// The offset, within the link-local range, of a link-local address with the last two octets
/// `c` and `d`.
pub open spec fn inet_offset(c: u8, d: u8) -> nat {
    (256 * (c as int) + (d as int)) as nat
}

/// The index of the subnet of the given network length that holds the link-local address with
/// the last two octets `c` and `d`: its offset divided by the size of such a subnet.
pub open spec fn inet_subnet_index(c: u8, d: u8, network_length: u8) -> nat {
    inet_offset(c, d) / spec_ip_amount(network_length)
}

/// `2^(a + b) == 2^a * 2^b`.
proof fn lemma_two_pow_add(a: nat, b: nat)
    ensures
        two_pow(a + b) == two_pow(a) * two_pow(b),
    decreases a,
{
    if a > 0 {
        lemma_two_pow_add((a - 1) as nat, b);
        assert(two_pow(a + b) == 2 * two_pow((a - 1 + b) as nat));
        assert(two_pow(a) == 2 * two_pow((a - 1) as nat));
        assert(2 * (two_pow((a - 1) as nat) * two_pow(b)) == (2 * two_pow((a - 1) as nat)) * two_pow(b)) by (nonlinear_arith);
    } else {
        assert(two_pow(0) == 1);
        assert(a + b == b);
    }
}

/// An offset within the link-local range, divided by a power of two up to `2^16`, stays below
/// the number of blocks of that size in the range.
pub(crate) proof fn lemma_offset_index_fits(x: nat, e: nat)
    requires
        x < 65536,
        e <= 16,
    ensures
        two_pow(e) > 0,
        x / two_pow(e) < 65536nat / two_pow(e),
        (x / two_pow(e)) * two_pow(e) <= x,
{
    reveal_with_fuel(two_pow, 17);
    assert(two_pow(16) == 65536);
    lemma_two_pow_add(e, (16 - e) as nat);
    lemma_two_pow_le(0, e);
    let p = two_pow(e);
    let q = two_pow((16 - e) as nat);
    assert(p * q == 65536);
    assert(65536nat / p == q) by (nonlinear_arith)
        requires
            p * q == 65536,
            p > 0,
    ;
    assert(x / p < q) by (nonlinear_arith)
        requires
            x < p * q,
            p > 0,
    ;
    assert((x / p) * p <= x) by (nonlinear_arith)
        requires
            p > 0,
    ;
}

/// The offset of the link-local address `link_local_address(x)`, for `x` in the range, is `x`.
pub(crate) proof fn lemma_offset_of_address(x: nat)
    requires
        x < 65536,
    ensures
        link_local_address(x).spec_is_link_local(),
        inet_offset(link_local_address(x).c, link_local_address(x).d) == x,
{
    assert(x / 256 < 256) by (nonlinear_arith)
        requires
            x < 65536,
    ;
    assert(256 * (x / 256) + x % 256 == x) by (nonlinear_arith);
}

/// Dividing `amount * index + i` by `amount` gives `index`, for `i` below `amount`.
pub(crate) proof fn lemma_div_of_block(amount: nat, index: nat, i: nat)
    requires
        i < amount,
    ensures
        (amount * index + i) / amount == index,
{
    assert((amount * index + i) / amount == index) by (nonlinear_arith)
        requires
            i < amount,
    ;
}

impl LinkLocalSubnet {
    #[verifier::type_invariant]
    spec fn fits_link_local(self) -> bool {
        &&& 17 <= self.network_length <= 30
        &&& self.ip_amount == spec_ip_amount(self.network_length)
        &&& (self.subnet_index as nat) < link_local_ip_amount() / spec_ip_amount(self.network_length)
    }

    /// The index of the subnet among the link-local subnets of its length.
    pub closed spec fn spec_subnet_index(self) -> u16 {
        self.subnet_index
    }

    /// The network length of the subnet.
    pub closed spec fn spec_network_length(self) -> u8 {
        self.network_length
    }

    /// The offset, within the link-local range, of the address at index `ip_index` of this subnet.
    pub open spec fn spec_offset(self, ip_index: nat) -> nat {
        (spec_ip_amount(self.spec_network_length()) * (self.spec_subnet_index() as nat) + ip_index) as nat
    }

    /// The address at index `ip_index` of this subnet.
    pub open spec fn spec_ip(self, ip_index: nat) -> Ipv4Addr {
        link_local_address(self.spec_offset(ip_index))
    }

    /// Try to create a new link-local subnet with the given network length (mask-short) and "subnet index", i.e. its offset relative
    /// to the beginning of all allocatable link-local subnets with this network length. Sanity checks to the integer values are
    /// always applied.
    pub fn new(subnet_index: u16, network_length: u8) -> (r: Result<Self, LinkLocalSubnetError>)
        ensures
            match subnet_verdict(network_length, subnet_index) {
                Ok(_) => r matches Ok(s) && s.spec_subnet_index() == subnet_index && s.spec_network_length() == network_length,
                Err(e) => r == Err::<Self, LinkLocalSubnetError>(e),
            },
    {
        if let Err(err) = validate_network_length_and_subnet_index(network_length, subnet_index) {
            return Err(err);
        }
        Ok(Self { subnet_index, network_length, ip_amount: get_ip_amount(network_length) })
    }

    /// Try to convert an Ipv4Inet into a link-local subnet: the subnet of the inet's network length
    /// that holds its address. The address must be link-local and the network length between /17
    /// and /30; the subnet index is then `(256c + d) / 2^(32 - n)`, for the last two octets `c`, `d`
    /// of the address and the network length `n`.
    pub fn from_inet(inet: &Ipv4Inet) -> (r: Result<Self, LinkLocalSubnetError>)
        ensures
            !inet.spec_address().spec_is_link_local() ==> r == Err::<Self, LinkLocalSubnetError>(LinkLocalSubnetError::NotLinkLocal),
            inet.spec_address().spec_is_link_local() && !(17 <= inet.spec_network_length() <= 30)
                ==> r == Err::<Self, LinkLocalSubnetError>(LinkLocalSubnetError::NetworkLengthDoesNotFit),
            inet.spec_address().spec_is_link_local() && 17 <= inet.spec_network_length() <= 30 ==> (r matches Ok(s)
                && s.spec_subnet_index() == inet_subnet_index(inet.spec_address().c, inet.spec_address().d, inet.spec_network_length())
                && s.spec_network_length() == inet.spec_network_length()),
    {
        let address = inet.address();
        if !address.is_link_local() {
            return Err(LinkLocalSubnetError::NotLinkLocal);
        }
        let network_length = inet.network_length();
        if network_length > 30 || network_length < 17 {
            return Err(LinkLocalSubnetError::NetworkLengthDoesNotFit);
        }
        let ip_amount = get_ip_amount(network_length);
        let offset: u32 = 256 * (address.c as u32) + address.d as u32;
        proof {
            lemma_offset_index_fits(offset as nat, (32 - network_length) as nat);
        }
        let subnet_index = (offset / ip_amount) as u16;
        Ok(Self { subnet_index, network_length, ip_amount })
    }

    pub fn subnet_index(&self) -> (r: u16)
        ensures
            r == self.spec_subnet_index(),
    {
        self.subnet_index
    }

    pub fn network_length(&self) -> (r: u8)
        ensures
            r == self.spec_network_length(),
            17 <= r <= 30,
    {
        proof {
            use_type_invariant(self);
        }
        self.network_length
    }

    /// Return the amount of "theoretical" IPs in this subnet, which includes 2 IPv4 addresses that can't
    /// be used by Internet hosts.
    pub fn ip_amount(&self) -> (r: u32)
        ensures
            r == spec_ip_amount(self.spec_network_length()),
            4 <= r <= 32768,
    {
        proof {
            use_type_invariant(self);
            lemma_two_pow_le(2, (32 - self.network_length) as nat);
            lemma_two_pow_le((32 - self.network_length) as nat, 15);
        }
        self.ip_amount
    }

    /// Return the amount of IPs in this subnet that can be used by Internet hosts.
    pub fn host_ip_amount(&self) -> (r: u32)
        ensures
            r == spec_ip_amount(self.spec_network_length()) - 2,
    {
        self.ip_amount() - 2
    }

    /// The subnet lies within the link-local range: its last address is below 65536.
    proof fn lemma_offsets_fit(self)
        requires
            self.fits_link_local(),
        ensures
            self.spec_offset((spec_ip_amount(self.network_length) - 1) as nat) < link_local_ip_amount(),
    {
        let amount = spec_ip_amount(self.network_length);
        lemma_two_pow_le(2, (32 - self.network_length) as nat);
        let q = link_local_ip_amount() / amount;
        assert(amount * q <= link_local_ip_amount()) by (nonlinear_arith)
            requires
                q == link_local_ip_amount() / amount,
                amount > 0,
        ;
        assert(amount * (self.subnet_index + 1) <= amount * q) by (nonlinear_arith)
            requires
                self.subnet_index + 1 <= q,
                amount > 0,
        ;
        assert(amount * (self.subnet_index + 1) == amount * self.subnet_index + amount) by (nonlinear_arith);
    }

    fn get_ip_imp(&self, x: u32) -> (r: Result<Ipv4Inet, LinkLocalSubnetError>)
        requires
            x < 65536,
        ensures
            r matches Ok(inet) && inet.spec_address() == link_local_address(x as nat)
                && inet.spec_network_length() == self.spec_network_length(),
    {
        let network_length = self.network_length();
        let address = Ipv4Addr::new(169, 254, (x / 256) as u8, (x % 256) as u8);
        match Ipv4Inet::new(address, network_length) {
            Ok(inet) => Ok(inet),
            Err(_) => Err(LinkLocalSubnetError::UnexpectedOverflow),
        }
    }

    /// Get a "theoretical" IPv4 address within this subnet that is offset by the given IP index.
    pub fn get_ip(&self, ip_index: u32) -> (r: Result<Ipv4Inet, LinkLocalSubnetError>)
        ensures
            ip_index >= spec_ip_amount(self.spec_network_length()) ==> r == Err::<Ipv4Inet, LinkLocalSubnetError>(LinkLocalSubnetError::IpIndexDoesNotFit),
            ip_index < spec_ip_amount(self.spec_network_length()) ==> (r matches Ok(inet)
                && inet.spec_address() == self.spec_ip(ip_index as nat)
                && inet.spec_network_length() == self.spec_network_length()),
    {
        let ip_amount = self.ip_amount();
        if ip_index >= ip_amount {
            return Err(LinkLocalSubnetError::IpIndexDoesNotFit);
        }
        proof {
            use_type_invariant(self);
            self.lemma_offsets_fit();
        }
        self.get_ip_imp(ip_amount * self.subnet_index as u32 + ip_index)
    }

    /// Get a host IPv4 address within this subnet that is offset by the given IP index.
    pub fn get_host_ip(&self, ip_index: u32) -> (r: Result<Ipv4Inet, LinkLocalSubnetError>)
        ensures
            ip_index >= spec_ip_amount(self.spec_network_length()) - 2 ==> r == Err::<Ipv4Inet, LinkLocalSubnetError>(LinkLocalSubnetError::IpIndexDoesNotFit),
            ip_index < spec_ip_amount(self.spec_network_length()) - 2 ==> (r matches Ok(inet)
                && inet.spec_address() == self.spec_ip(ip_index as nat + 1)
                && inet.spec_network_length() == self.spec_network_length()),
    {
        let ip_amount = self.ip_amount();
        if ip_index >= self.host_ip_amount() {
            return Err(LinkLocalSubnetError::IpIndexDoesNotFit);
        }
        proof {
            use_type_invariant(self);
            self.lemma_offsets_fit();
        }
        self.get_ip_imp(ip_amount * self.subnet_index as u32 + ip_index + 1)
    }

    /// Get all "theoretical" IP addresses (sequentially) within this subnet.
    pub fn get_ips(&self) -> (r: Result<Vec<Ipv4Inet>, LinkLocalSubnetError>)
        ensures
            r matches Ok(ips) && ips.len() == spec_ip_amount(self.spec_network_length())
                && forall|i: int| 0 <= i < ips.len() ==> (#[trigger] ips[i]).spec_address() == self.spec_ip(i as nat)
                    && ips[i].spec_network_length() == self.spec_network_length(),
    {
        let ip_amount = self.ip_amount();
        let mut ips: Vec<Ipv4Inet> = Vec::with_capacity(ip_amount as usize);
        let mut i: u32 = 0;
        while i < ip_amount
            invariant
                i <= ip_amount,
                ip_amount == spec_ip_amount(self.spec_network_length()),
                ips.len() == i,
                forall|j: int| 0 <= j < ips.len() ==> (#[trigger] ips[j]).spec_address() == self.spec_ip(j as nat)
                    && ips[j].spec_network_length() == self.spec_network_length(),
            decreases ip_amount - i,
        {
            let ip = self.get_ip(i)?;
            ips.push(ip);
            i += 1;
        }
        Ok(ips)
    }

    /// Get the host IP addresses (sequentially) within this subnet.
    pub fn get_host_ips(&self) -> (r: Result<Vec<Ipv4Inet>, LinkLocalSubnetError>)
        ensures
            r matches Ok(ips) && ips.len() == spec_ip_amount(self.spec_network_length()) - 2
                && forall|i: int| 0 <= i < ips.len() ==> (#[trigger] ips[i]).spec_address() == self.spec_ip(i as nat + 1)
                    && ips[i].spec_network_length() == self.spec_network_length(),
    {
        let host_ip_amount = self.host_ip_amount();
        let mut ips: Vec<Ipv4Inet> = Vec::with_capacity(host_ip_amount as usize);
        let mut i: u32 = 0;
        while i < host_ip_amount
            invariant
                i <= host_ip_amount,
                host_ip_amount == spec_ip_amount(self.spec_network_length()) - 2,
                ips.len() == i,
                forall|j: int| 0 <= j < ips.len() ==> (#[trigger] ips[j]).spec_address() == self.spec_ip(j as nat + 1)
                    && ips[j].spec_network_length() == self.spec_network_length(),
            decreases host_ip_amount - i,
        {
            let ip = self.get_host_ip(i)?;
            ips.push(ip);
            i += 1;
        }
        Ok(ips)
    }
}


/// Every address of a valid link-local subnet lies in the link-local range 169.254.0.0/16.
pub proof fn lemma_subnet_addresses_link_local(subnet: LinkLocalSubnet, ip_index: nat)
    ensures
        subnet.spec_ip(ip_index).spec_is_link_local(),
{
}

/// The offset of an address of a valid subnet lies within the link-local range.
proof fn lemma_offset_in_range(amount: nat, index: nat, ip_index: nat)
    requires
        amount > 0,
        index < 65536nat / amount,
        ip_index < amount,
    ensures
        amount * index + ip_index < 65536nat,
{
    let q = 65536nat / amount;
    assert(amount * q <= 65536) by (nonlinear_arith)
        requires
            q == 65536nat / amount,
            amount > 0,
    ;
    assert(amount * (index + 1) <= amount * q) by (nonlinear_arith)
        requires
            index + 1 <= q,
            amount > 0,
    ;
    assert(amount * (index + 1) == amount * index + amount) by (nonlinear_arith);
}

/// Valid link-local subnets of one network length never share an address: two subnets with
/// different indices are disjoint, and within one subnet different IP indices give different
/// addresses.
pub proof fn lemma_subnet_addresses_distinct(first: LinkLocalSubnet, second: LinkLocalSubnet, i: nat, j: nat)
    requires
        subnet_verdict(first.spec_network_length(), first.spec_subnet_index()) is Ok,
        subnet_verdict(second.spec_network_length(), second.spec_subnet_index()) is Ok,
        first.spec_network_length() == second.spec_network_length(),
        i < spec_ip_amount(first.spec_network_length()),
        j < spec_ip_amount(second.spec_network_length()),
        first.spec_subnet_index() != second.spec_subnet_index() || i != j,
    ensures
        first.spec_ip(i) != second.spec_ip(j),
{
    let amount = spec_ip_amount(first.spec_network_length());
    lemma_two_pow_le(0, (32 - first.spec_network_length()) as nat);
    assert(two_pow(0) == 1);
    let k1 = first.spec_subnet_index() as nat;
    let k2 = second.spec_subnet_index() as nat;
    let o1 = first.spec_offset(i);
    let o2 = second.spec_offset(j);
    lemma_offset_in_range(amount, k1, i);
    lemma_offset_in_range(amount, k2, j);
    assert(o1 == amount * k1 + i);
    assert(o2 == amount * k2 + j);
    if k1 < k2 {
        assert(amount * k1 + amount <= amount * k2) by (nonlinear_arith)
            requires
                k1 + 1 <= k2,
                amount > 0,
        ;
    } else if k2 < k1 {
        assert(amount * k2 + amount <= amount * k1) by (nonlinear_arith)
            requires
                k2 + 1 <= k1,
                amount > 0,
        ;
    }
    assert(o1 != o2);
    // The last two octets determine the offset.
    assert(o1 == 256 * (o1 / 256) + o1 % 256);
    assert(o2 == 256 * (o2 / 256) + o2 % 256);
    assert(o1 / 256 < 256);
    assert(o2 / 256 < 256);
    if first.spec_ip(i) == second.spec_ip(j) {
        assert((o1 / 256) as u8 == (o2 / 256) as u8);
        assert((o1 % 256) as u8 == (o2 % 256) as u8);
        assert(o1 / 256 == o2 / 256);
        assert(o1 % 256 == o2 % 256);
    }
}

/// The host addresses of a valid subnet are neither its first address (the network address) nor
/// its last one (the broadcast address): host address `i` is address `i + 1`, for `i` below the
/// number of addresses minus two.
pub proof fn lemma_host_ips_exclude_network_and_broadcast(subnet: LinkLocalSubnet, i: nat)
    requires
        subnet_verdict(subnet.spec_network_length(), subnet.spec_subnet_index()) is Ok,
        i + 2 < spec_ip_amount(subnet.spec_network_length()),
    ensures
        subnet.spec_ip(i + 1) != subnet.spec_ip(0),
        subnet.spec_ip(i + 1) != subnet.spec_ip((spec_ip_amount(subnet.spec_network_length()) - 1) as nat),
{
    let last = (spec_ip_amount(subnet.spec_network_length()) - 1) as nat;
    lemma_subnet_addresses_distinct(subnet, subnet, i + 1, 0);
    lemma_subnet_addresses_distinct(subnet, subnet, i + 1, last);
}


/// Converting an address of a subnet back into a subnet of the same network length gives that
/// subnet: every address of a subnet is link-local, and its subnet index is the subnet's own.
pub proof fn lemma_from_inet_of_own_address(subnet: LinkLocalSubnet, ip_index: nat)
    requires
        17 <= subnet.spec_network_length() <= 30,
        (subnet.spec_subnet_index() as nat) < link_local_ip_amount() / spec_ip_amount(subnet.spec_network_length()),
        ip_index < spec_ip_amount(subnet.spec_network_length()),
    ensures
        subnet.spec_ip(ip_index).spec_is_link_local(),
        inet_subnet_index(subnet.spec_ip(ip_index).c, subnet.spec_ip(ip_index).d, subnet.spec_network_length())
            == subnet.spec_subnet_index(),
{
    let n = subnet.spec_network_length();
    let amount = spec_ip_amount(n);
    let index = subnet.spec_subnet_index() as nat;
    lemma_two_pow_le(2, (32 - n) as nat);
    let q = link_local_ip_amount() / amount;
    assert(amount * q <= link_local_ip_amount()) by (nonlinear_arith)
        requires
            q == link_local_ip_amount() / amount,
            amount > 0,
    ;
    assert(amount * (index + 1) <= amount * q) by (nonlinear_arith)
        requires
            index + 1 <= q,
            amount > 0,
    ;
    assert(amount * (index + 1) == amount * index + amount) by (nonlinear_arith);
    let x = subnet.spec_offset(ip_index);
    assert(x < 65536);
    lemma_offset_of_address(x);
    lemma_div_of_block(amount, index, ip_index);
}

} // verus!
