//! The earlier form of the link-local subnet arithmetic, which checks the network length of an
//! address before deriving its subnet index and reports failures of its own. It admits network
//! lengths from /17 down to /31, and gives every subnet at least the four addresses of a /30
//! block: the subnets of a /31 length are laid out as /30 blocks whose inets carry /31.

use vstd::prelude::*;

use crate::extension::link_local::{
    get_ip_amount, inet_offset, lemma_div_of_block, lemma_offset_index_fits, lemma_offset_of_address, lemma_two_pow_le,
    link_local_address, link_local_ip_amount, spec_ip_amount,
};
use crate::net::{Ipv4Addr, Ipv4Inet};

verus! {

/// An error that can be returned by operations with a LinkLocalSubnet.
#[derive(Debug, Clone, PartialEq, Eq)]
pub enum LinkLocalSubnetError {
    NotLinkLocal,
    NetworkLengthDoesNotFit,
    SubnetIndexDoesNotFit,
    IpIndexDoesNotFit,
    Overflow,
    Other,
}

/// The number of addresses of the block that a subnet of the given network length occupies:
/// `2^(32 - n)`, and four (a /30 block) for a /31 length.
pub open spec fn block_ip_amount(network_length: u8) -> nat {
    if network_length > 30 {
        spec_ip_amount(30)
    } else {
        spec_ip_amount(network_length)
    }
}

/// The index of the subnet of the given network length that holds the link-local address with
/// the last two octets `c` and `d`: its offset divided by the size of such a subnet's block.
pub open spec fn block_subnet_index(c: u8, d: u8, network_length: u8) -> nat {
    inet_offset(c, d) / block_ip_amount(network_length)
}

/// Whether a subnet of the given network length and index fits the link-local range: the
/// length must lie between /17 and /31, and the index below the number of blocks of that
/// length in the range.
pub open spec fn verdict(network_length: u8, subnet_index: u16) -> Result<(), LinkLocalSubnetError> {
    if network_length > 31 || network_length < 17 {
        Err(LinkLocalSubnetError::NetworkLengthDoesNotFit)
    } else if link_local_ip_amount() / block_ip_amount(network_length) <= subnet_index {
        Err(LinkLocalSubnetError::SubnetIndexDoesNotFit)
    } else {
        Ok(())
    }
}

/// A link-local IPv4 subnet of a network length between /17 and /31, identified by its index
/// among the link-local subnets of that length.
pub struct LinkLocalSubnet {
    subnet_index: u16,
    network_length: u8,
    ip_amount: u32,
}

/// The size of the block of a subnet of a length between /17 and /31.
fn block_amount(network_length: u8) -> (r: u32)
    requires
        17 <= network_length <= 31,
    ensures
        r == block_ip_amount(network_length),
        4 <= r <= 32768,
{
    if network_length > 30 {
        get_ip_amount(30)
    } else {
        get_ip_amount(network_length)
    }
}

fn check(network_length: u8, subnet_index: u16) -> (r: Result<(), LinkLocalSubnetError>)
    ensures
        r == verdict(network_length, subnet_index),
{
    if network_length > 31 || network_length < 17 {
        return Err(LinkLocalSubnetError::NetworkLengthDoesNotFit);
    }
    if 65536 / block_amount(network_length) <= subnet_index as u32 {
        return Err(LinkLocalSubnetError::SubnetIndexDoesNotFit);
    }
    Ok(())
}

impl LinkLocalSubnet {
    #[verifier::type_invariant]
    spec fn fits_link_local(self) -> bool {
        &&& 17 <= self.network_length <= 31
        &&& self.ip_amount == block_ip_amount(self.network_length)
        &&& (self.subnet_index as nat) < link_local_ip_amount() / block_ip_amount(self.network_length)
    }

    pub closed spec fn spec_subnet_index(self) -> u16 {
        self.subnet_index
    }

    pub closed spec fn spec_network_length(self) -> u8 {
        self.network_length
    }

    /// The address at index `ip_index` of this subnet.
    pub open spec fn spec_ip(self, ip_index: nat) -> Ipv4Addr {
        link_local_address((block_ip_amount(self.spec_network_length()) * (self.spec_subnet_index() as nat) + ip_index) as nat)
    }

    /// The subnet of the given index and network length, if both fit the link-local range.
    pub fn new(subnet_index: u16, network_length: u8) -> (r: Result<Self, LinkLocalSubnetError>)
        ensures
            match verdict(network_length, subnet_index) {
                Ok(_) => r matches Ok(s) && s.spec_subnet_index() == subnet_index && s.spec_network_length() == network_length,
                Err(e) => r == Err::<Self, LinkLocalSubnetError>(e),
            },
    {
        match check(network_length, subnet_index) {
            Ok(_) => Ok(Self { subnet_index, network_length, ip_amount: block_amount(network_length) }),
            Err(e) => Err(e),
        }
    }

    /// The subnet that the given link-local address with its network length falls in: the
    /// address must be link-local and the length between /17 and /31; the subnet index is then
    /// the offset `256c + d` of the address divided by the size of the subnet's block.
    pub fn of_inet(inet: &Ipv4Inet) -> (r: Result<Self, LinkLocalSubnetError>)
        ensures
            !inet.spec_address().spec_is_link_local() ==> r == Err::<Self, LinkLocalSubnetError>(LinkLocalSubnetError::NotLinkLocal),
            inet.spec_address().spec_is_link_local() && !(17 <= inet.spec_network_length() <= 31)
                ==> r == Err::<Self, LinkLocalSubnetError>(LinkLocalSubnetError::NetworkLengthDoesNotFit),
            inet.spec_address().spec_is_link_local() && 17 <= inet.spec_network_length() <= 31 ==> (r matches Ok(s)
                && s.spec_subnet_index() == block_subnet_index(inet.spec_address().c, inet.spec_address().d, inet.spec_network_length())
                && s.spec_network_length() == inet.spec_network_length()),
    {
        let address = inet.address();
        if !address.is_link_local() {
            return Err(LinkLocalSubnetError::NotLinkLocal);
        }
        let length = inet.network_length();
        if length > 31 || length < 17 {
            return Err(LinkLocalSubnetError::NetworkLengthDoesNotFit);
        }
        let ip_amount = block_amount(length);
        let offset: u32 = 256 * (address.c as u32) + address.d as u32;
        proof {
            lemma_offset_index_fits(offset as nat, if length > 30 { 2 } else { (32 - length) as nat });
        }
        let index = (offset / ip_amount) as u16;
        Ok(Self { subnet_index: index, network_length: length, ip_amount })
    }

    pub fn subnet_index(&self) -> (r: u16)
        ensures
            r == self.spec_subnet_index(),
    {
        self.subnet_index
    }

    pub fn network_length(&self) -> (r: u8)
        ensures
            r == self.spec_network_length(),
    {
        self.network_length
    }

    /// The number of addresses of the subnet's block.
    pub fn ip_amount(&self) -> (r: u32)
        ensures
            r == block_ip_amount(self.spec_network_length()),
            4 <= r <= 32768,
    {
        proof {
            use_type_invariant(self);
            let e: nat = if self.network_length > 30 { 2 } else { (32 - self.network_length) as nat };
            lemma_two_pow_le(2, e);
            lemma_two_pow_le(e, 15);
        }
        self.ip_amount
    }

    /// The number of addresses of the subnet that hosts can use.
    pub fn host_ip_amount(&self) -> (r: u32)
        ensures
            r == block_ip_amount(self.spec_network_length()) - 2,
    {
        self.ip_amount() - 2
    }

    /// The address at the given index of the subnet.
    pub fn get_ip(&self, ip_index: u32) -> (r: Result<Ipv4Inet, LinkLocalSubnetError>)
        ensures
            ip_index >= block_ip_amount(self.spec_network_length()) ==> r == Err::<Ipv4Inet, LinkLocalSubnetError>(LinkLocalSubnetError::IpIndexDoesNotFit),
            ip_index < block_ip_amount(self.spec_network_length()) ==> (r matches Ok(inet)
                && inet.spec_address() == self.spec_ip(ip_index as nat)
                && inet.spec_network_length() == self.spec_network_length()),
    {
        let ip_amount = self.ip_amount();
        if ip_index >= ip_amount {
            return Err(LinkLocalSubnetError::IpIndexDoesNotFit);
        }
        proof {
            use_type_invariant(self);
            let amount = block_ip_amount(self.network_length);
            let q = link_local_ip_amount() / amount;
            assert(amount * q <= link_local_ip_amount()) by (nonlinear_arith)
                requires
                    q == link_local_ip_amount() / amount,
                    amount > 0,
            ;
            assert(amount * (self.subnet_index + 1) <= amount * q) by (nonlinear_arith)
                requires
                    self.subnet_index + 1 <= q,
                    amount > 0,
            ;
            assert(amount * (self.subnet_index + 1) == amount * self.subnet_index + amount) by (nonlinear_arith);
        }
        let x = ip_amount * self.subnet_index as u32 + ip_index;
        let address = Ipv4Addr::new(169, 254, (x / 256) as u8, (x % 256) as u8);
        match Ipv4Inet::new(address, self.network_length) {
            Ok(inet) => Ok(inet),
            Err(_) => Err(LinkLocalSubnetError::Other),
        }
    }

    /// All addresses of the subnet, in order.
    pub fn get_ips(&self) -> (r: Result<Vec<Ipv4Inet>, LinkLocalSubnetError>)
        ensures
            r matches Ok(ips) && ips.len() == block_ip_amount(self.spec_network_length())
                && forall|i: int| 0 <= i < ips.len() ==> (#[trigger] ips[i]).spec_address() == self.spec_ip(i as nat)
                    && ips[i].spec_network_length() == self.spec_network_length(),
    {
        let ip_amount = self.ip_amount();
        let mut ips: Vec<Ipv4Inet> = Vec::with_capacity(ip_amount as usize);
        let mut i: u32 = 0;
        while i < ip_amount
            invariant
                i <= ip_amount,
                ip_amount == block_ip_amount(self.spec_network_length()),
                ips.len() == i,
                forall|j: int| 0 <= j < ips.len() ==> (#[trigger] ips[j]).spec_address() == self.spec_ip(j as nat)
                    && ips[j].spec_network_length() == self.spec_network_length(),
            decreases ip_amount - i,
        {
            let ip = self.get_ip(i)?;
            ips.push(ip);
            i += 1;
        }
        Ok(ips)
    }
}


/// Converting an address of a subnet back into a subnet of the same network length gives that
/// subnet: every address of a subnet is link-local, and its subnet index is the subnet's own.
pub proof fn lemma_of_inet_of_own_address(subnet: LinkLocalSubnet, ip_index: nat)
    requires
        17 <= subnet.spec_network_length() <= 31,
        (subnet.spec_subnet_index() as nat) < link_local_ip_amount() / block_ip_amount(subnet.spec_network_length()),
        ip_index < block_ip_amount(subnet.spec_network_length()),
    ensures
        subnet.spec_ip(ip_index).spec_is_link_local(),
        block_subnet_index(subnet.spec_ip(ip_index).c, subnet.spec_ip(ip_index).d, subnet.spec_network_length())
            == subnet.spec_subnet_index(),
{
    let n = subnet.spec_network_length();
    let amount = block_ip_amount(n);
    let index = subnet.spec_subnet_index() as nat;
    lemma_two_pow_le(2, if n > 30 { 2 } else { (32 - n) as nat });
    let q = link_local_ip_amount() / amount;
    assert(amount * q <= link_local_ip_amount()) by (nonlinear_arith)
        requires
            q == link_local_ip_amount() / amount,
            amount > 0,
    ;
    assert(amount * (index + 1) <= amount * q) by (nonlinear_arith)
        requires
            index + 1 <= q,
            amount > 0,
    ;
    assert(amount * (index + 1) == amount * index + amount) by (nonlinear_arith);
    let x = (amount * index + ip_index) as nat;
    assert(x < 65536);
    lemma_offset_of_address(x);
    lemma_div_of_block(amount, index, ip_index);
}

} // verus!
