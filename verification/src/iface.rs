//! Network interfaces: a name, an optional description, a deduplicated set
//! of addresses and a deduplicated set of status flags, all owned and fully
//! decoupled from the engine's native device list.

use vstd::prelude::*;

use crate::addr::Address;
use crate::addr::IpAddr;
use crate::addr::MacAddr;
use crate::addr::spec_as_ip;

verus! {

/// Various flags which can be set on a network interface.
#[derive(Clone, Copy, Debug, PartialEq, Eq, Structural, PartialOrd, Ord, Hash)]
pub enum InterfaceFlag {
    /// Set if the interface is a loopback interface.
    Loopback,
    /// Set if the interface is up.
    Up,
    /// Set if the interface is running.
    Running,
}

/// Collection of addresses of one interface address entry.
#[derive(Clone, Copy, Debug, PartialEq, Eq, PartialOrd, Ord, Hash)]
pub struct InterfaceAddress {
    /// The interface's address.
    pub addr: Address,
    /// The netmask corresponding to `addr`.
    pub netmask: Option<Address>,
    /// The broadcast address corresponding to `addr`; `None` if the device
    /// does not support broadcasts.
    pub broadaddr: Option<Address>,
    /// The destination address corresponding to `addr`; `None` if the
    /// device is not a point-to-point interface.
    pub dstaddr: Option<Address>,
}

impl InterfaceAddress {
    /// Assemble an address entry.
    pub fn new(
        addr: Address,
        netmask: Option<Address>,
        broadaddr: Option<Address>,
        dstaddr: Option<Address>,
    ) -> (r: InterfaceAddress)
        ensures
            r == (InterfaceAddress { addr, netmask, broadaddr, dstaddr }),
    {
        InterfaceAddress { addr, netmask, broadaddr, dstaddr }
    }
}

/// No two elements of the sequence are equal: the vector stands for a set.
pub open spec fn all_distinct<T>(s: Seq<T>) -> bool {
    forall|a: int, b: int| 0 <= a < b < s.len() ==> s[a] != s[b]
}

/// A network device, as produced by device enumeration. Self-contained: no
/// field refers back to the engine's native list.
#[derive(Debug)]
pub struct Interface {
    /// Device's name.
    pub name: String,
    /// Device's description.
    pub description: Option<String>,
    /// All addresses found on the device, in enumeration order, without
    /// duplicates.
    pub addresses: Vec<InterfaceAddress>,
    /// Flags set on the device, without duplicates.
    pub flags: Vec<InterfaceFlag>,
}

/// Compare two byte arrays.
fn bytes_eq<const N: usize>(a: &[u8; N], b: &[u8; N]) -> (r: bool)
    ensures
        r == (a == b),
{
    broadcast use vstd::array::group_array_axioms;

    let mut i: usize = 0;
    while i < N
        invariant
            0 <= i <= N,
            forall|j: int| 0 <= j < i ==> (*a)[j] == (*b)[j],
        decreases N - i,
    {
        if a[i] != b[i] {
            proof {
                if a == b {
                    assert((*a)[i as int] == (*b)[i as int]);
                }
            }
            return false;
        }
        i += 1;
    }
    proof {
        assert((*a) =~= (*b));
    }
    true
}

/// Compare two addresses; equal exactly when variant and octets agree.
pub fn address_eq(a: &Address, b: &Address) -> (r: bool)
    ensures
        r == (a == b),
{
    match (a, b) {
        (Address::Ipv4(x), Address::Ipv4(y)) => bytes_eq(x, y),
        (Address::Ipv6(x), Address::Ipv6(y)) => bytes_eq(x, y),
        (Address::Mac(x), Address::Mac(y)) => bytes_eq(&x.0, &y.0),
        _ => false,
    }
}

/// Compare two IP addresses.
pub fn ip_eq(a: &IpAddr, b: &IpAddr) -> (r: bool)
    ensures
        r == (a == b),
{
    match (a, b) {
        (IpAddr::V4(x), IpAddr::V4(y)) => bytes_eq(x, y),
        (IpAddr::V6(x), IpAddr::V6(y)) => bytes_eq(x, y),
        _ => false,
    }
}

/// Compare two optional addresses.
fn option_address_eq(a: &Option<Address>, b: &Option<Address>) -> (r: bool)
    ensures
        r == (a == b),
{
    match (a, b) {
        (Some(x), Some(y)) => address_eq(x, y),
        (None, None) => true,
        _ => false,
    }
}

/// Compare two interface address entries.
pub fn interface_address_eq(a: &InterfaceAddress, b: &InterfaceAddress) -> (r: bool)
    ensures
        r == (a == b),
{
    address_eq(&a.addr, &b.addr) && option_address_eq(&a.netmask, &b.netmask)
        && option_address_eq(&a.broadaddr, &b.broadaddr)
        && option_address_eq(&a.dstaddr, &b.dstaddr)
}

/// Relies on str's `PartialEq`: two string slices are equal exactly when
/// their character sequences are equal.
#[verifier::external_body]
fn str_eq(a: &str, b: &str) -> (r: bool)
    ensures
        r == (a@ == b@),
{
    a == b
}

/// The first MAC address at or after position `i`, if any.
pub open spec fn first_mac_from(s: Seq<InterfaceAddress>, i: int) -> Option<MacAddr>
    decreases s.len() - i,
{
    if i < 0 || i >= s.len() {
        None
    } else {
        match s[i].addr {
            Address::Mac(m) => Some(m),
            _ => first_mac_from(s, i + 1),
        }
    }
}

impl Interface {
    /// The interface's vectors hold no duplicate entries: they stand for
    /// the sets the enumeration produced.
    pub open spec fn wf(&self) -> bool {
        all_distinct(self.addresses@) && all_distinct(self.flags@)
    }

    /// True if the interface is up.
    pub fn is_up(&self) -> (r: bool)
        ensures
            r == self.flags@.contains(InterfaceFlag::Up),
    {
        flag_set_contains(&self.flags, InterfaceFlag::Up)
    }

    /// True if the interface is running.
    pub fn is_running(&self) -> (r: bool)
        ensures
            r == self.flags@.contains(InterfaceFlag::Running),
    {
        flag_set_contains(&self.flags, InterfaceFlag::Running)
    }

    /// True if the interface is a loopback interface.
    pub fn is_loopback(&self) -> (r: bool)
        ensures
            r == self.flags@.contains(InterfaceFlag::Loopback),
    {
        flag_set_contains(&self.flags, InterfaceFlag::Loopback)
    }

    /// True if the interface has name `name`.
    pub fn has_name(&self, name: &str) -> (r: bool)
        ensures
            r == (self.name@ == name@),
    {
        str_eq(self.name.as_str(), name)
    }

    /// The MAC (Ethernet) address of the interface: the first MAC entry of
    /// its address set, or `None` when no entry holds a MAC address.
    pub fn get_ether_address(&self) -> (r: Option<MacAddr>)
        ensures
            r == first_mac_from(self.addresses@, 0),
            r is Some <==> exists|j: int|
                0 <= j < self.addresses@.len() && self.addresses@[j].addr is Mac,
    {
        let n = self.addresses.len();
        let mut i: usize = 0;
        while i < n
            invariant
                0 <= i <= n,
                n == self.addresses@.len(),
                first_mac_from(self.addresses@, 0) == first_mac_from(self.addresses@, i as int),
                forall|j: int| 0 <= j < i ==> !(self.addresses@[j].addr is Mac),
            decreases n - i,
        {
            if let Address::Mac(m) = self.addresses[i].addr {
                return Some(m);
            }
            i += 1;
        }
        None
    }

    /// The IP addresses of the interface, deduplicated: the result contains
    /// an address exactly when some entry of the address set carries it.
    pub fn get_ip_addresses(&self) -> (r: Vec<IpAddr>)
        ensures
            forall|ip: IpAddr| #[trigger]
                r@.contains(ip) <==> exists|j: int|
                    0 <= j < self.addresses@.len() && spec_as_ip(#[trigger] self.addresses@[j].addr)
                        == Some(ip),
            all_distinct(r@),
    {
        broadcast use vstd::seq_lib::lemma_seq_contains_after_push;

        let n = self.addresses.len();
        let mut out: Vec<IpAddr> = Vec::new();
        let mut i: usize = 0;
        while i < n
            invariant
                0 <= i <= n,
                n == self.addresses@.len(),
                forall|ip: IpAddr| #[trigger]
                    out@.contains(ip) <==> exists|j: int|
                        0 <= j < i && spec_as_ip(#[trigger] self.addresses@[j].addr) == Some(ip),
                all_distinct(out@),
            decreases n - i,
        {
            if let Some(ip) = self.addresses[i].as_ip_entry() {
                if !ip_vec_contains(&out, &ip) {
                    let ghost prev = out@;
                    out.push(ip);
                    proof {
                        assert(out@ == prev.push(ip));
                        assert forall|x: IpAddr| #[trigger] out@.contains(x) <==> (prev.contains(x)
                            || x == ip) by {
                            vstd::seq_lib::lemma_seq_contains_after_push(prev, ip, x);
                        }
                    }
                }
            }
            i += 1;
        }
        out
    }

    /// True if the interface has the IP address `ip`.
    pub fn has_address(&self, ip: &IpAddr) -> (r: bool)
        ensures
            r == exists|j: int|
                0 <= j < self.addresses@.len() && spec_as_ip(#[trigger] self.addresses@[j].addr)
                    == Some(*ip),
    {
        let n = self.addresses.len();
        let mut i: usize = 0;
        while i < n
            invariant
                0 <= i <= n,
                n == self.addresses@.len(),
                forall|j: int| 0 <= j < i ==> spec_as_ip(#[trigger] self.addresses@[j].addr)
                    != Some(*ip),
            decreases n - i,
        {
            if let Some(entry_ip) = self.addresses[i].as_ip_entry() {
                if ip_eq(&entry_ip, ip) {
                    return true;
                }
            }
            i += 1;
        }
        false
    }
}

impl InterfaceAddress {
    /// The IP address of the entry's primary address, if it has one.
    pub fn as_ip_entry(&self) -> (r: Option<IpAddr>)
        ensures
            r == spec_as_ip(self.addr),
    {
        self.addr.as_ip()
    }
}

/// Membership in a flag vector.
fn flag_set_contains(flags: &Vec<InterfaceFlag>, f: InterfaceFlag) -> (r: bool)
    ensures
        r == flags@.contains(f),
{
    let n = flags.len();
    let mut i: usize = 0;
    while i < n
        invariant
            0 <= i <= n,
            n == flags@.len(),
            forall|j: int| 0 <= j < i ==> flags@[j] != f,
        decreases n - i,
    {
        if flags[i] == f {
            return true;
        }
        i += 1;
    }
    false
}

/// Membership in an IP address vector.
pub fn ip_vec_contains(v: &Vec<IpAddr>, ip: &IpAddr) -> (r: bool)
    ensures
        r == v@.contains(*ip),
{
    let n = v.len();
    let mut i: usize = 0;
    while i < n
        invariant
            0 <= i <= n,
            n == v@.len(),
            forall|j: int| 0 <= j < i ==> v@[j] != *ip,
        decreases n - i,
    {
        if ip_eq(&v[i], ip) {
            return true;
        }
        i += 1;
    }
    false
}

} // verus!
