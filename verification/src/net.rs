//! Plain-value IPv4 addresses and host-within-network values, with the network length checked by
//! the cidr crate.

use vstd::prelude::*;

use crate::text::{decimal, push_decimal};

verus! {

#[verifier::external_type_specification]
#[verifier::external_body]
pub struct ExNetworkLengthTooLongError(cidr::errors::NetworkLengthTooLongError);

/// `cidr::Ipv4Inet::new`: creates a host within a network from an address and a network length,
/// keeping both as given, and fails exactly when the length exceeds the 32 bits of an IPv4
/// address.
#[verifier::external_body]
fn cidr_ipv4_inet_new(octets: (u8, u8, u8, u8), network_length: u8) -> (r: Result<((u8, u8, u8, u8), u8), cidr::errors::NetworkLengthTooLongError>)
    ensures
        r is Ok <==> network_length <= 32,
        r matches Ok(v) ==> v.0 == octets && v.1 == network_length,
{
    match cidr::Ipv4Inet::new([octets.0, octets.1, octets.2, octets.3].into(), network_length) {
        Ok(inet) => {
            let [a, b, c, d] = inet.address().octets();
            Ok(((a, b, c, d), inet.network_length()))
        },
        Err(error) => Err(error),
    }
}

/// An IPv4 address as its four octets.
#[derive(Debug, Clone, Copy, PartialEq, Eq, PartialOrd, Ord, Hash)]
pub struct Ipv4Addr {
    pub a: u8,
    pub b: u8,
    pub c: u8,
    pub d: u8,
}

impl Ipv4Addr {
    /// The address a.b.c.d.
    pub fn new(a: u8, b: u8, c: u8, d: u8) -> (r: Self)
        ensures
            r == (Ipv4Addr { a, b, c, d }),
    {
        Ipv4Addr { a, b, c, d }
    }

    /// The four octets, most significant first.
    pub fn octets(&self) -> (r: [u8; 4])
        ensures
            r@ == seq![self.a, self.b, self.c, self.d],
    {
        let r = [self.a, self.b, self.c, self.d];
        assert(r@ =~= seq![self.a, self.b, self.c, self.d]);
        r
    }

    /// Whether the address lies in 169.254.0.0/16, as `std::net::Ipv4Addr::is_link_local` decides.
    pub open spec fn spec_is_link_local(self) -> bool {
        self.a == 169 && self.b == 254
    }

    /// Whether the address lies in 169.254.0.0/16.
    pub fn is_link_local(&self) -> (r: bool)
        ensures
            r == self.spec_is_link_local(),
    {
        self.a == 169 && self.b == 254
    }

    /// The dotted-decimal text of the address, as `Display` renders it.
    pub open spec fn spec_text(self) -> Seq<char> {
        decimal(self.a as nat) + seq!['.'] + decimal(self.b as nat) + seq!['.'] + decimal(self.c as nat)
            + seq!['.'] + decimal(self.d as nat)
    }

    /// The address whose 32 bits read as the number `v`, most significant octet first.
    pub open spec fn from_bits(v: nat) -> Ipv4Addr {
        Ipv4Addr {
            a: ((v / 16777216) % 256) as u8,
            b: ((v / 65536) % 256) as u8,
            c: ((v / 256) % 256) as u8,
            d: (v % 256) as u8,
        }
    }

    /// Append the dotted-decimal text of the address to `out`.
    pub fn push_text(&self, out: &mut String)
        ensures
            final(out)@ == old(out)@ + self.spec_text(),
    {
        proof {
            reveal_strlit(".");
        }
        push_decimal(out, self.a as u64);
        out.append(".");
        push_decimal(out, self.b as u64);
        out.append(".");
        push_decimal(out, self.c as u64);
        out.append(".");
        push_decimal(out, self.d as u64);
        assert(out@ =~= old(out)@ + self.spec_text());
    }

    /// The dotted-decimal text of the address.
    pub fn to_string(&self) -> (r: String)
        ensures
            r@ == self.spec_text(),
    {
        let mut r = String::new();
        self.push_text(&mut r);
        assert(r@ =~= self.spec_text());
        r
    }
}

/// 2 to the power of `e`.
pub open spec fn pow2(e: nat) -> nat
    decreases e,
{
    if e == 0 { 1 } else { 2 * pow2((e - 1) as nat) }
}

/// 2 to the power of `e`, for exponents up to 32.
fn pow2_u64(e: u8) -> (r: u64)
    requires
        e <= 32,
    ensures
        r == pow2(e as nat),
        r <= 4294967296u64,
{
    let mut r: u64 = 1;
    let mut i: u8 = 0;
    while i < e
        invariant
            i <= e <= 32,
            r == pow2(i as nat),
        decreases e - i,
    {
        proof {
            lemma_pow2_le_32((i + 1) as nat);
        }
        r = r * 2;
        i = i + 1;
    }
    proof {
        lemma_pow2_le_32(e as nat);
    }
    r
}

/// Powers of two up to 2^32 fit within 2^32.
proof fn lemma_pow2_le_32(e: nat)
    requires
        e <= 32,
    ensures
        pow2(e) <= 4294967296nat,
        pow2(32) == 4294967296nat,
{
    assert(pow2(32) == 4294967296nat) by {
        reveal_with_fuel(pow2, 33);
    }
    lemma_pow2_mono(e, 32);
}

proof fn lemma_pow2_mono(a: nat, b: nat)
    requires
        a <= b,
    ensures
        pow2(a) <= pow2(b),
    decreases b - a,
{
    if a < b {
        lemma_pow2_mono(a, (b - 1) as nat);
        lemma_pow2_positive((b - 1) as nat);
    }
}

proof fn lemma_pow2_positive(e: nat)
    ensures
        pow2(e) > 0,
    decreases e,
{
    if e > 0 {
        lemma_pow2_positive((e - 1) as nat);
    }
}

/// The network mask of a given length: the first `network_length` bits set and the others clear.
pub open spec fn spec_mask(network_length: u8) -> Ipv4Addr {
    Ipv4Addr::from_bits((pow2(32) - pow2((32 - network_length) as nat)) as nat)
}

/// The network length exceeded the 32 bits of an IPv4 address.
#[derive(Debug, Clone, Copy, PartialEq, Eq)]
pub struct NetworkLengthTooLong;

/// A host address within an IPv4 network of the given length.
#[derive(Debug, Clone, Copy, PartialEq, Eq, PartialOrd, Ord, Hash)]
pub struct Ipv4Inet {
    address: Ipv4Addr,
    network_length: u8,
}

impl Ipv4Inet {
    #[verifier::type_invariant]
    spec fn length_fits(self) -> bool {
        self.network_length <= 32
    }

    /// The host address.
    pub closed spec fn spec_address(self) -> Ipv4Addr {
        self.address
    }

    /// The length of the network.
    pub closed spec fn spec_network_length(self) -> u8 {
        self.network_length
    }

    /// The host `address` within a network of `network_length` bits; refused exactly when the
    /// length exceeds 32 bits.
    pub fn new(address: Ipv4Addr, network_length: u8) -> (r: Result<Ipv4Inet, NetworkLengthTooLong>)
        ensures
            r is Ok <==> network_length <= 32,
            r matches Ok(inet) ==> inet.spec_address() == address && inet.spec_network_length() == network_length,
    {
        match cidr_ipv4_inet_new((address.a, address.b, address.c, address.d), network_length) {
            Ok((octets, length)) => Ok(Ipv4Inet {
                address: Ipv4Addr { a: octets.0, b: octets.1, c: octets.2, d: octets.3 },
                network_length: length,
            }),
            Err(_) => Err(NetworkLengthTooLong),
        }
    }

    /// The host address.
    pub fn address(&self) -> (r: Ipv4Addr)
        ensures
            r == self.spec_address(),
    {
        self.address
    }

    /// The text of the host within its network, as `Display` renders it: the address followed by
    /// `/` and the network length, or the bare address for a host address (a length of 32).
    pub open spec fn spec_text(self) -> Seq<char> {
        if self.spec_network_length() == 32 {
            self.spec_address().spec_text()
        } else {
            self.spec_address().spec_text() + seq!['/'] + decimal(self.spec_network_length() as nat)
        }
    }

    /// The text of the host within its network.
    pub fn to_string(&self) -> (r: String)
        ensures
            r@ == self.spec_text(),
    {
        let mut r = self.address.to_string();
        if self.network_length != 32 {
            proof {
                reveal_strlit("/");
            }
            r.append("/");
            push_decimal(&mut r, self.network_length as u64);
        }
        r
    }

    /// The network mask: the first `network_length` bits set and the others clear.
    pub fn mask(&self) -> (r: Ipv4Addr)
        ensures
            r == spec_mask(self.spec_network_length()),
    {
        proof {
            use_type_invariant(self);
            lemma_pow2_le_32(32);
            lemma_pow2_mono((32 - self.network_length) as nat, 32);
        }
        let full: u64 = pow2_u64(32);
        let host: u64 = pow2_u64(32 - self.network_length);
        let v: u64 = full - host;
        Ipv4Addr {
            a: ((v / 16777216) % 256) as u8,
            b: ((v / 65536) % 256) as u8,
            c: ((v / 256) % 256) as u8,
            d: (v % 256) as u8,
        }
    }

    /// The length of the network.
    pub fn network_length(&self) -> (r: u8)
        ensures
            r == self.spec_network_length(),
            r <= 32,
    {
        proof {
            use_type_invariant(self);
        }
        self.network_length
    }
}

} // verus!
