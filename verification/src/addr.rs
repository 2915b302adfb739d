//! The tagged address union: IPv4, IPv6 or hardware (MAC) address, with
//! total conversions into the union and fallible extraction back out.

use vstd::prelude::*;

use crate::error::Error;

verus! {

/// A MAC address, as used for example with Ethernet.
#[derive(Debug, Clone, Copy, PartialEq, Eq, PartialOrd, Ord, Hash)]
pub struct MacAddr(pub [u8; 6]);

/// The lower-case hexadecimal digit for a value below sixteen.
pub open spec fn spec_hex_char(n: u8) -> char {
    if n == 0 {
        '0'
    } else if n == 1 {
        '1'
    } else if n == 2 {
        '2'
    } else if n == 3 {
        '3'
    } else if n == 4 {
        '4'
    } else if n == 5 {
        '5'
    } else if n == 6 {
        '6'
    } else if n == 7 {
        '7'
    } else if n == 8 {
        '8'
    } else if n == 9 {
        '9'
    } else if n == 10 {
        'a'
    } else if n == 11 {
        'b'
    } else if n == 12 {
        'c'
    } else if n == 13 {
        'd'
    } else if n == 14 {
        'e'
    } else {
        'f'
    }
}

/// The two hexadecimal digits of one byte.
pub open spec fn spec_byte_hex(b: u8) -> Seq<char> {
    seq![spec_hex_char(b / 16), spec_hex_char(b % 16)]
}

/// The text of a byte sequence: two hexadecimal digits per byte, with a
/// colon between consecutive bytes.
pub open spec fn spec_mac_text(s: Seq<u8>) -> Seq<char>
    decreases s.len(),
{
    if s.len() == 0 {
        Seq::empty()
    } else if s.len() == 1 {
        spec_byte_hex(s[0])
    } else {
        spec_mac_text(s.drop_last()) + seq![':'] + spec_byte_hex(s.last())
    }
}

/// The lower-case hexadecimal digit of a value below sixteen, as text.
fn hex_digit_str(n: u8) -> (r: &'static str)
    requires
        n < 16,
    ensures
        r@ == seq![spec_hex_char(n)],
{
    proof {
        reveal_strlit("0");
        reveal_strlit("1");
        reveal_strlit("2");
        reveal_strlit("3");
        reveal_strlit("4");
        reveal_strlit("5");
        reveal_strlit("6");
        reveal_strlit("7");
        reveal_strlit("8");
        reveal_strlit("9");
        reveal_strlit("a");
        reveal_strlit("b");
        reveal_strlit("c");
        reveal_strlit("d");
        reveal_strlit("e");
        reveal_strlit("f");
    }
    let r = match n {
        0 => "0",
        1 => "1",
        2 => "2",
        3 => "3",
        4 => "4",
        5 => "5",
        6 => "6",
        7 => "7",
        8 => "8",
        9 => "9",
        10 => "a",
        11 => "b",
        12 => "c",
        13 => "d",
        14 => "e",
        _ => "f",
    };
    proof {
        assert(r@ =~= seq![spec_hex_char(n)]);
    }
    r
}

impl MacAddr {
    /// The six octets of the address.
    pub fn octets(&self) -> (r: [u8; 6])
        ensures
            r == self.0,
    {
        self.0
    }

    /// The address as text: six lower-case hexadecimal byte values
    /// separated by colons.
    pub fn to_hex_string(&self) -> (r: String)
        ensures
            r@ == spec_mac_text(self.0@),
    {
        broadcast use vstd::array::group_array_axioms;

        let mut out = String::new();
        let mut i: usize = 0;
        while i < 6
            invariant
                0 <= i <= 6,
                out@ == spec_mac_text(self.0@.take(i as int)),
            decreases 6 - i,
        {
            broadcast use vstd::array::group_array_axioms;

            let ghost prefix = self.0@.take(i as int);
            let b = self.0[i];
            if i > 0 {
                proof {
                    reveal_strlit(":");
                }
                vstd::string::StringExecFns::append(&mut out, ":");
                proof {
                    reveal_strlit(":");
                    assert(":"@ =~= seq![':']);
                }
            }
            proof {
                assert(b >> 4 == b / 16 && b >> 4 < 16) by (bit_vector);
                assert(b & 0xf == b % 16 && b & 0xf < 16) by (bit_vector);
            }
            vstd::string::StringExecFns::append(&mut out, hex_digit_str(b >> 4));
            vstd::string::StringExecFns::append(&mut out, hex_digit_str(b & 0xf));
            proof {
                let grown = self.0@.take(i + 1);
                assert(grown.drop_last() =~= prefix);
                assert(grown.last() == b);
                assert(out@ =~= spec_mac_text(grown));
            }
            i += 1;
        }
        proof {
            assert(self.0@.take(6) =~= self.0@);
        }
        out
    }
}

impl From<[u8; 6]> for MacAddr {
    fn from(val: [u8; 6]) -> (r: Self) {
        MacAddr(val)
    }
}

impl vstd::std_specs::convert::FromSpecImpl<[u8; 6]> for MacAddr {
    open spec fn obeys_from_spec() -> bool {
        true
    }

    open spec fn from_spec(val: [u8; 6]) -> Self {
        MacAddr(val)
    }
}

/// An IP address: four octets for IPv4, sixteen for IPv6.
#[derive(Debug, Clone, Copy, PartialEq, Eq, PartialOrd, Ord, Hash)]
pub enum IpAddr {
    /// An IPv4 address.
    V4([u8; 4]),
    /// An IPv6 address.
    V6([u8; 16]),
}

/// Address of some sort: IPv4, IPv6 or MAC.
#[derive(Debug, Clone, Copy, PartialEq, Eq, PartialOrd, Ord, Hash)]
pub enum Address {
    /// IPv4 address
    Ipv4([u8; 4]),
    /// IPv6 address
    Ipv6([u8; 16]),
    /// MAC address
    Mac(MacAddr),
}

/// What `Address::as_ip` extracts: the IP part of the union, if any.
pub open spec fn spec_as_ip(a: Address) -> Option<IpAddr> {
    match a {
        Address::Ipv4(ip) => Some(IpAddr::V4(ip)),
        Address::Ipv6(ip) => Some(IpAddr::V6(ip)),
        Address::Mac(_) => None,
    }
}

impl Address {
    /// True if IPv4 address.
    pub fn is_ipv4(&self) -> (r: bool)
        ensures
            r == (self is Ipv4),
    {
        matches!(self, Address::Ipv4(_))
    }

    /// True if IPv6 address.
    pub fn is_ipv6(&self) -> (r: bool)
        ensures
            r == (self is Ipv6),
    {
        matches!(self, Address::Ipv6(_))
    }

    /// True if either IPv4 or IPv6 address.
    pub fn is_ip(&self) -> (r: bool)
        ensures
            r == (self is Ipv4 || self is Ipv6),
    {
        self.is_ipv4() || self.is_ipv6()
    }

    /// True if MAC address.
    pub fn is_mac(&self) -> (r: bool)
        ensures
            r == (self is Mac),
    {
        matches!(self, Address::Mac(_))
    }

    /// The IPv4 octets, or `None` for any other variant.
    pub fn as_ipv4(&self) -> (r: Option<[u8; 4]>)
        ensures
            r is Some <==> self is Ipv4,
            (*self) matches Address::Ipv4(ip) ==> r == Some(ip),
    {
        match self {
            Address::Ipv4(ip) => Some(*ip),
            _ => None,
        }
    }

    /// The IPv6 octets, or `None` for any other variant.
    pub fn as_ipv6(&self) -> (r: Option<[u8; 16]>)
        ensures
            r is Some <==> self is Ipv6,
            (*self) matches Address::Ipv6(ip) ==> r == Some(ip),
    {
        match self {
            Address::Ipv6(ip) => Some(*ip),
            _ => None,
        }
    }

    /// The IP address, or `None` for a MAC address.
    pub fn as_ip(&self) -> (r: Option<IpAddr>)
        ensures
            r == spec_as_ip(*self),
            r is Some <==> (self is Ipv4 || self is Ipv6),
    {
        match self {
            Address::Ipv4(ip) => Some(IpAddr::V4(*ip)),
            Address::Ipv6(ip) => Some(IpAddr::V6(*ip)),
            Address::Mac(_) => None,
        }
    }

    /// The MAC address, or `None` for any other variant.
    pub fn as_mac(&self) -> (r: Option<MacAddr>)
        ensures
            r is Some <==> self is Mac,
            (*self) matches Address::Mac(mac) ==> r == Some(mac),
    {
        match self {
            Address::Mac(mac) => Some(*mac),
            _ => None,
        }
    }

    /// Extract the IPv4 octets; the wrong variant is the caller's logic
    /// error and is reported as `Error::InvalidAddress`.
    pub fn try_into_ipv4(self) -> (r: Result<[u8; 4], Error>)
        ensures
            r is Ok <==> self is Ipv4,
            self matches Address::Ipv4(ip) ==> r == Ok::<[u8; 4], Error>(ip),
            r is Err ==> r == Err::<[u8; 4], Error>(Error::InvalidAddress),
    {
        match self {
            Address::Ipv4(ip) => Ok(ip),
            _ => Err(Error::InvalidAddress),
        }
    }

    /// Extract the IPv6 octets, or report `Error::InvalidAddress`.
    pub fn try_into_ipv6(self) -> (r: Result<[u8; 16], Error>)
        ensures
            r is Ok <==> self is Ipv6,
            self matches Address::Ipv6(ip) ==> r == Ok::<[u8; 16], Error>(ip),
            r is Err ==> r == Err::<[u8; 16], Error>(Error::InvalidAddress),
    {
        match self {
            Address::Ipv6(ip) => Ok(ip),
            _ => Err(Error::InvalidAddress),
        }
    }

    /// Extract the IP address, or report `Error::InvalidAddress`.
    pub fn try_into_ip(self) -> (r: Result<IpAddr, Error>)
        ensures
            r is Ok <==> (self is Ipv4 || self is Ipv6),
            r is Ok ==> r == Ok::<IpAddr, Error>(spec_as_ip(self)->0),
            r is Err ==> r == Err::<IpAddr, Error>(Error::InvalidAddress),
    {
        match self {
            Address::Ipv4(ip) => Ok(IpAddr::V4(ip)),
            Address::Ipv6(ip) => Ok(IpAddr::V6(ip)),
            Address::Mac(_) => Err(Error::InvalidAddress),
        }
    }

    /// Extract the MAC address, or report `Error::InvalidAddress`.
    pub fn try_into_mac(self) -> (r: Result<MacAddr, Error>)
        ensures
            r is Ok <==> self is Mac,
            self matches Address::Mac(mac) ==> r == Ok::<MacAddr, Error>(mac),
            r is Err ==> r == Err::<MacAddr, Error>(Error::InvalidAddress),
    {
        match self {
            Address::Mac(mac) => Ok(mac),
            _ => Err(Error::InvalidAddress),
        }
    }
}

/// Law: extraction succeeds exactly on the matching variant. For every
/// address `a`, `as_ipv4` is `Some` iff `a` is the IPv4 variant, and
/// symmetrically for IPv6, IP and MAC, as the extraction contracts state
/// over `spec_as_ip` and the variant tags.
pub proof fn lemma_address_tagging(a: Address)
    ensures
        spec_as_ip(a) is Some <==> (a is Ipv4 || a is Ipv6),
        a is Ipv4 ==> spec_as_ip(a) == Some(IpAddr::V4(a->Ipv4_0)),
        a is Ipv6 ==> spec_as_ip(a) == Some(IpAddr::V6(a->Ipv6_0)),
        a is Mac ==> spec_as_ip(a) is None,
{
}

impl From<IpAddr> for Address {
    fn from(ip: IpAddr) -> (r: Self) {
        match ip {
            IpAddr::V4(ip) => Address::Ipv4(ip),
            IpAddr::V6(ip) => Address::Ipv6(ip),
        }
    }
}

impl vstd::std_specs::convert::FromSpecImpl<IpAddr> for Address {
    open spec fn obeys_from_spec() -> bool {
        true
    }

    open spec fn from_spec(ip: IpAddr) -> Self {
        match ip {
            IpAddr::V4(ip) => Address::Ipv4(ip),
            IpAddr::V6(ip) => Address::Ipv6(ip),
        }
    }
}

impl From<[u8; 4]> for Address {
    fn from(ip: [u8; 4]) -> (r: Self) {
        Address::Ipv4(ip)
    }
}

impl vstd::std_specs::convert::FromSpecImpl<[u8; 4]> for Address {
    open spec fn obeys_from_spec() -> bool {
        true
    }

    open spec fn from_spec(ip: [u8; 4]) -> Self {
        Address::Ipv4(ip)
    }
}

impl From<[u8; 16]> for Address {
    fn from(ip: [u8; 16]) -> (r: Self) {
        Address::Ipv6(ip)
    }
}

impl vstd::std_specs::convert::FromSpecImpl<[u8; 16]> for Address {
    open spec fn obeys_from_spec() -> bool {
        true
    }

    open spec fn from_spec(ip: [u8; 16]) -> Self {
        Address::Ipv6(ip)
    }
}

impl From<[u8; 6]> for Address {
    fn from(mac: [u8; 6]) -> (r: Self) {
        Address::Mac(MacAddr(mac))
    }
}

impl vstd::std_specs::convert::FromSpecImpl<[u8; 6]> for Address {
    open spec fn obeys_from_spec() -> bool {
        true
    }

    open spec fn from_spec(mac: [u8; 6]) -> Self {
        Address::Mac(MacAddr(mac))
    }
}

impl From<MacAddr> for Address {
    fn from(mac: MacAddr) -> (r: Self) {
        Address::Mac(mac)
    }
}

impl vstd::std_specs::convert::FromSpecImpl<MacAddr> for Address {
    open spec fn obeys_from_spec() -> bool {
        true
    }

    open spec fn from_spec(mac: MacAddr) -> Self {
        Address::Mac(mac)
    }
}

} // verus!
