//! Device enumeration: converting the capture engine's native device list
//! (a singly-linked chain of nodes, each with its own chain of address
//! records) into safe, self-contained `Interface` values.
//!
//! The unsafe walk of the native chains happens outside the verified
//! library; it hands over one `DeviceNode` per native node, holding every
//! field as plain values. Everything from there on — decoding socket
//! addresses, translating flag bits, deduplicating address sets, skipping
//! unrecognized records — is verified here.

use vstd::prelude::*;

use crate::addr::Address;
use crate::addr::IpAddr;
use crate::addr::MacAddr;
use crate::addr::spec_as_ip;
use crate::iface::Interface;
use crate::iface::InterfaceAddress;
use crate::iface::InterfaceFlag;
use crate::iface::all_distinct;
use crate::iface::interface_address_eq;

verus! {

/// Address family tag of an IPv4 socket address.
pub const AF_INET: u16 = 2;

/// Address family tag of an IPv6 socket address.
pub const AF_INET6: u16 = 10;

/// Address family tag of a link-layer (hardware) socket address.
pub const AF_PACKET: u16 = 17;

/// Flag bit: the device is a loopback interface.
pub const DEVICE_FLAG_LOOPBACK: u32 = 0x1;

/// Flag bit: the device is up.
pub const DEVICE_FLAG_UP: u32 = 0x2;

/// Flag bit: the device is running.
pub const DEVICE_FLAG_RUNNING: u32 = 0x4;

/// One socket address of a native address record, as plain values: the
/// address family tag and the address octets in network order.
#[derive(Debug, Clone, PartialEq, Eq)]
pub struct RawSockAddr {
    /// The address family tag.
    pub family: u16,
    /// The address octets.
    pub data: Vec<u8>,
}

/// One node of a native address list: up to four socket addresses.
#[derive(Debug, Clone, PartialEq, Eq)]
pub struct RawAddressNode {
    /// The primary address; absent when the native record carried none.
    pub addr: Option<RawSockAddr>,
    /// The netmask corresponding to the primary address.
    pub netmask: Option<RawSockAddr>,
    /// The broadcast address corresponding to the primary address.
    pub broadaddr: Option<RawSockAddr>,
    /// The destination address corresponding to the primary address.
    pub dstaddr: Option<RawSockAddr>,
}

/// One node of the native device list, fully copied out of native memory.
#[derive(Debug, Clone, PartialEq, Eq)]
pub struct DeviceNode {
    /// The device's name; `None` when the native name was missing or not
    /// decodable, which makes the node unconvertible.
    pub name: Option<String>,
    /// The device's description, if the engine supplied one.
    pub description: Option<String>,
    /// The device's address records, in native list order.
    pub addresses: Vec<RawAddressNode>,
    /// The device's flag bits, as reported by the engine.
    pub flags: u32,
}

/// A socket address of this family and length decodes into the tagged
/// address union; everything else is skipped during conversion.
pub open spec fn sockaddr_recognized(family: u16, len: nat) -> bool {
    ||| family == AF_INET && len >= 4
    ||| family == AF_INET6 && len >= 16
    ||| family == AF_PACKET && len >= 6
}

/// The decoding relation between a raw socket address and an address of the
/// union: the variant matches the family and the octets are the prefix of
/// the raw data. For a recognized raw address exactly one `Address`
/// satisfies it.
pub open spec fn parses_to(sa: RawSockAddr, a: Address) -> bool {
    match a {
        Address::Ipv4(oct) => sa.family == AF_INET && sa.data@.len() >= 4 && oct@ == sa.data@.take(
            4,
        ),
        Address::Ipv6(oct) => sa.family == AF_INET6 && sa.data@.len() >= 16 && oct@
            == sa.data@.take(16),
        Address::Mac(m) => sa.family == AF_PACKET && sa.data@.len() >= 6 && m.0@ == sa.data@.take(
            6,
        ),
    }
}

/// The decoding relation for an optional socket address: absent stays
/// absent, unrecognized is dropped, recognized decodes.
pub open spec fn opt_parses_to(o: Option<RawSockAddr>, r: Option<Address>) -> bool {
    match o {
        None => r is None,
        Some(sa) => match r {
            Some(a) => parses_to(sa, a),
            None => !sockaddr_recognized(sa.family, sa.data@.len()),
        },
    }
}

/// An address record converts when its primary address is present and
/// recognized.
pub open spec fn convertible(n: RawAddressNode) -> bool {
    n.addr matches Some(sa) && sockaddr_recognized(sa.family, sa.data@.len())
}

/// The conversion relation between a native address record and an owned
/// interface address entry.
pub open spec fn node_converts(n: RawAddressNode, ia: InterfaceAddress) -> bool {
    &&& n.addr matches Some(sa) && parses_to(sa, ia.addr)
    &&& opt_parses_to(n.netmask, ia.netmask)
    &&& opt_parses_to(n.broadaddr, ia.broadaddr)
    &&& opt_parses_to(n.dstaddr, ia.dstaddr)
}

/// Decode one socket address into the tagged union. Unrecognized families
/// and too-short data yield `None`.
pub fn address_from_sockaddr(sa: &RawSockAddr) -> (r: Option<Address>)
    ensures
        r is Some <==> sockaddr_recognized(sa.family, sa.data@.len()),
        r matches Some(a) ==> parses_to(*sa, a),
{
    broadcast use vstd::array::group_array_axioms;

    let d = &sa.data;
    if sa.family == AF_INET && d.len() >= 4 {
        let oct: [u8; 4] = [d[0], d[1], d[2], d[3]];
        proof {
            assert(oct@ =~= sa.data@.take(4));
        }
        Some(Address::Ipv4(oct))
    } else if sa.family == AF_INET6 && d.len() >= 16 {
        let oct: [u8; 16] = [
            d[0],
            d[1],
            d[2],
            d[3],
            d[4],
            d[5],
            d[6],
            d[7],
            d[8],
            d[9],
            d[10],
            d[11],
            d[12],
            d[13],
            d[14],
            d[15],
        ];
        proof {
            assert(oct@ =~= sa.data@.take(16));
        }
        Some(Address::Ipv6(oct))
    } else if sa.family == AF_PACKET && d.len() >= 6 {
        let oct: [u8; 6] = [d[0], d[1], d[2], d[3], d[4], d[5]];
        proof {
            assert(oct@ =~= sa.data@.take(6));
        }
        Some(Address::Mac(MacAddr(oct)))
    } else {
        None
    }
}

/// Decode an optional socket address, dropping unrecognized ones.
fn parse_optional_sockaddr(o: &Option<RawSockAddr>) -> (r: Option<Address>)
    ensures
        opt_parses_to(*o, r),
{
    match o {
        None => None,
        Some(sa) => address_from_sockaddr(sa),
    }
}

/// Convert one native address record. A record whose primary address is
/// missing or unrecognized is skipped (`None`), mirroring the engine's
/// lists, which may carry address kinds this layer does not know.
pub fn try_address_from(n: &RawAddressNode) -> (r: Option<InterfaceAddress>)
    ensures
        r is Some <==> convertible(*n),
        r matches Some(ia) ==> node_converts(*n, ia),
{
    match &n.addr {
        None => None,
        Some(sa) => match address_from_sockaddr(sa) {
            None => None,
            Some(addr) => {
                let netmask = parse_optional_sockaddr(&n.netmask);
                let broadaddr = parse_optional_sockaddr(&n.broadaddr);
                let dstaddr = parse_optional_sockaddr(&n.dstaddr);
                Some(InterfaceAddress { addr, netmask, broadaddr, dstaddr })
            },
        },
    }
}

/// The interface flags encoded by the engine's flag bits, in a fixed order.
pub open spec fn spec_flags_of(bits: u32) -> Seq<InterfaceFlag> {
    (if bits & DEVICE_FLAG_LOOPBACK != 0 {
        seq![InterfaceFlag::Loopback]
    } else {
        Seq::empty()
    }) + (if bits & DEVICE_FLAG_UP != 0 {
        seq![InterfaceFlag::Up]
    } else {
        Seq::empty()
    }) + (if bits & DEVICE_FLAG_RUNNING != 0 {
        seq![InterfaceFlag::Running]
    } else {
        Seq::empty()
    })
}

/// Translate the engine's flag bits into the flag set.
pub fn flags_from_bits(bits: u32) -> (r: Vec<InterfaceFlag>)
    ensures
        r@ == spec_flags_of(bits),
        all_distinct(r@),
{
    let mut v: Vec<InterfaceFlag> = Vec::new();
    if bits & DEVICE_FLAG_LOOPBACK != 0 {
        v.push(InterfaceFlag::Loopback);
    }
    if bits & DEVICE_FLAG_UP != 0 {
        v.push(InterfaceFlag::Up);
    }
    if bits & DEVICE_FLAG_RUNNING != 0 {
        v.push(InterfaceFlag::Running);
    }
    proof {
        assert(v@ =~= spec_flags_of(bits));
        assert(all_distinct(v@));
    }
    v
}

/// A socket address that decodes at all is recognized.
proof fn lemma_parses_to_recognized(sa: RawSockAddr, a: Address)
    requires
        parses_to(sa, a),
    ensures
        sockaddr_recognized(sa.family, sa.data@.len()),
{
}

/// Decoding is a function of the raw bytes: one socket address decodes to
/// at most one address value.
proof fn lemma_parses_deterministic(sa: RawSockAddr, a: Address, b: Address)
    requires
        parses_to(sa, a),
        parses_to(sa, b),
    ensures
        a == b,
{
    broadcast use vstd::array::group_array_axioms;

    match (a, b) {
        (Address::Ipv4(x), Address::Ipv4(y)) => {
            assert(x =~= y);
        },
        (Address::Ipv6(x), Address::Ipv6(y)) => {
            assert(x =~= y);
        },
        (Address::Mac(x), Address::Mac(y)) => {
            assert(x.0 =~= y.0);
        },
        _ => {},
    }
}

/// Decoding an optional socket address is deterministic as well.
proof fn lemma_opt_parses_deterministic(o: Option<RawSockAddr>, x: Option<Address>, y: Option<
    Address,
>)
    requires
        opt_parses_to(o, x),
        opt_parses_to(o, y),
    ensures
        x == y,
{
    match o {
        Some(sa) => match (x, y) {
            (Some(ax), Some(ay)) => lemma_parses_deterministic(sa, ax, ay),
            (Some(ax), None) => lemma_parses_to_recognized(sa, ax),
            (None, Some(ay)) => lemma_parses_to_recognized(sa, ay),
            (None, None) => {},
        },
        None => {},
    }
}

/// One address record converts to at most one interface address entry.
proof fn lemma_node_converts_deterministic(
    n: RawAddressNode,
    x: InterfaceAddress,
    y: InterfaceAddress,
)
    requires
        node_converts(n, x),
        node_converts(n, y),
    ensures
        x == y,
{
    let sa = n.addr->0;
    lemma_parses_deterministic(sa, x.addr, y.addr);
    lemma_opt_parses_deterministic(n.netmask, x.netmask, y.netmask);
    lemma_opt_parses_deterministic(n.broadaddr, x.broadaddr, y.broadaddr);
    lemma_opt_parses_deterministic(n.dstaddr, x.dstaddr, y.dstaddr);
}

/// A record that does not convert converts to nothing.
proof fn lemma_unconvertible_converts_to_nothing(n: RawAddressNode)
    requires
        !convertible(n),
    ensures
        forall|x: InterfaceAddress| !(#[trigger] node_converts(n, x)),
{
    assert forall|x: InterfaceAddress| !(#[trigger] node_converts(n, x)) by {
        if node_converts(n, x) {
            lemma_parses_to_recognized(n.addr->0, x.addr);
        }
    }
}

/// Membership in an interface address vector.
fn address_set_contains(v: &Vec<InterfaceAddress>, ia: &InterfaceAddress) -> (r: bool)
    ensures
        r == v@.contains(*ia),
{
    let n = v.len();
    let mut i: usize = 0;
    while i < n
        invariant
            0 <= i <= n,
            n == v@.len(),
            forall|j: int| 0 <= j < i ==> v@[j] != *ia,
        decreases n - i,
    {
        if interface_address_eq(&v[i], ia) {
            return true;
        }
        i += 1;
    }
    false
}

/// Convert a whole native address list into the deduplicated address set of
/// one interface: the result contains an entry exactly when some record of
/// the list converts to it, and every convertible record is represented.
pub fn collect_addresses(nodes: &Vec<RawAddressNode>) -> (r: Vec<InterfaceAddress>)
    ensures
        all_distinct(r@),
        forall|ia: InterfaceAddress| #[trigger]
            r@.contains(ia) <==> exists|j: int|
                0 <= j < nodes@.len() && node_converts(#[trigger] nodes@[j], ia),
        forall|j: int|
            0 <= j < nodes@.len() && convertible(#[trigger] nodes@[j]) ==> exists|
                ia: InterfaceAddress,
            |
                #[trigger] r@.contains(ia) && node_converts(nodes@[j], ia),
{
    let n = nodes.len();
    let mut out: Vec<InterfaceAddress> = Vec::new();
    let mut i: usize = 0;
    while i < n
        invariant
            0 <= i <= n,
            n == nodes@.len(),
            all_distinct(out@),
            forall|ia: InterfaceAddress| #[trigger]
                out@.contains(ia) <==> exists|j: int|
                    0 <= j < i && node_converts(#[trigger] nodes@[j], ia),
            forall|j: int|
                0 <= j < i && convertible(#[trigger] nodes@[j]) ==> exists|ia: InterfaceAddress|
                    #[trigger] out@.contains(ia) && node_converts(nodes@[j], ia),
        decreases n - i,
    {
        let ghost s = nodes@;
        let ghost prev = out@;
        match try_address_from(&nodes[i]) {
            Some(ia) => {
                if !address_set_contains(&out, &ia) {
                    out.push(ia);
                    proof {
                        assert(out@ == prev.push(ia));
                        assert forall|x: InterfaceAddress| #[trigger] out@.contains(x) <==> (
                        prev.contains(x) || x == ia) by {
                            vstd::seq_lib::lemma_seq_contains_after_push(prev, ia, x);
                        }
                    }
                }
                proof {
                    assert forall|x: InterfaceAddress| #[trigger] out@.contains(x) implies exists|
                        j: int,
                    | 0 <= j < i + 1 && node_converts(#[trigger] s[j], x) by {
                        if prev.contains(x) {
                            let j = choose|j: int| 0 <= j < i && node_converts(#[trigger] s[j], x);
                            assert(node_converts(s[j], x));
                        } else {
                            assert(x == ia);
                            assert(node_converts(s[i as int], x));
                        }
                    }
                    assert forall|x: InterfaceAddress|
                        (exists|j: int|
                            0 <= j < i + 1 && node_converts(
                                #[trigger] s[j],
                                x,
                            )) implies #[trigger] out@.contains(x) by {
                        let j = choose|j: int| 0 <= j < i + 1 && node_converts(#[trigger] s[j], x);
                        if j < i {
                            assert(prev.contains(x));
                        } else {
                            lemma_node_converts_deterministic(s[i as int], x, ia);
                            assert(out@.contains(ia));
                        }
                    }
                    assert forall|j: int|
                        0 <= j < i + 1 && convertible(#[trigger] s[j]) implies exists|
                        w: InterfaceAddress,
                    | #[trigger] out@.contains(w) && node_converts(s[j], w) by {
                        if j < i {
                            let w = choose|w: InterfaceAddress|
                                #[trigger] prev.contains(w) && node_converts(s[j], w);
                            assert(out@.contains(w));
                        } else {
                            assert(out@.contains(ia) && node_converts(s[j], ia));
                        }
                    }
                }
            },
            None => {
                proof {
                    lemma_unconvertible_converts_to_nothing(s[i as int]);
                }
            },
        }
        i += 1;
    }
    out
}

/// Iterator over the address records of one native address list, yielding
/// one converted entry per recognized record and silently advancing past
/// records of unrecognized kinds.
pub struct AddressIter<'a> {
    /// The address records being walked.
    pub nodes: &'a Vec<RawAddressNode>,
    /// Position of the next record to look at.
    pub idx: usize,
}

impl<'a> AddressIter<'a> {
    /// Start walking an address list from its head.
    pub fn new(nodes: &'a Vec<RawAddressNode>) -> (it: AddressIter<'a>)
        ensures
            it.nodes@ == nodes@,
            it.idx == 0,
    {
        AddressIter { nodes, idx: 0 }
    }

    /// The next convertible record at or after the current position, with
    /// every unrecognized record before it skipped.
    pub fn next(&mut self) -> (r: Option<InterfaceAddress>)
        requires
            old(self).idx <= old(self).nodes@.len(),
        ensures
            final(self).nodes == old(self).nodes,
            old(self).idx <= final(self).idx <= old(self).nodes@.len(),
            r is Some <==> exists|k: int|
                old(self).idx <= k < old(self).nodes@.len() && convertible(
                    #[trigger] old(self).nodes@[k],
                ),
            r matches Some(ia) ==> final(self).idx > old(self).idx && node_converts(
                old(self).nodes@[final(self).idx - 1],
                ia,
            ) && (forall|k: int|
                old(self).idx <= k < final(self).idx - 1 ==> !convertible(
                    #[trigger] old(self).nodes@[k],
                )),
            r is None ==> final(self).idx == old(self).nodes@.len() && (forall|k: int|
                old(self).idx <= k < old(self).nodes@.len() ==> !convertible(
                    #[trigger] old(self).nodes@[k],
                )),
    {
        let n = self.nodes.len();
        while self.idx < n
            invariant
                n == self.nodes@.len(),
                self.nodes == old(self).nodes,
                old(self).idx <= self.idx <= n,
                forall|k: int|
                    old(self).idx <= k < self.idx ==> !convertible(#[trigger] self.nodes@[k]),
            decreases n - self.idx,
        {
            let i = self.idx;
            self.idx = i + 1;
            if let Some(ia) = try_address_from(&self.nodes[i]) {
                return Some(ia);
            }
        }
        None
    }
}

/// The conversion relation between a native device node and an owned
/// interface: same name and description, the flag set encoded by the flag
/// bits, and the deduplicated address set of the node's address records.
pub open spec fn interface_of(node: DeviceNode, itf: Interface) -> bool {
    &&& node.name matches Some(nm) && itf.name@ == nm@
    &&& match node.description {
        None => itf.description is None,
        Some(d) => itf.description matches Some(d2) && d2@ == d@,
    }
    &&& itf.flags@ == spec_flags_of(node.flags)
    &&& itf.wf()
    &&& forall|ia: InterfaceAddress| #[trigger]
        itf.addresses@.contains(ia) <==> exists|j: int|
            0 <= j < node.addresses@.len() && node_converts(#[trigger] node.addresses@[j], ia)
    &&& forall|j: int|
        0 <= j < node.addresses@.len() && convertible(#[trigger] node.addresses@[j]) ==> exists|
            ia: InterfaceAddress,
        |
            #[trigger] itf.addresses@.contains(ia) && node_converts(node.addresses@[j], ia)
}

/// Convert one device node. A node without a decodable name cannot be
/// converted and yields `None`.
pub fn interface_from_node(node: &DeviceNode) -> (r: Option<Interface>)
    ensures
        r is Some <==> node.name is Some,
        r matches Some(itf) ==> interface_of(*node, itf),
{
    match &node.name {
        None => None,
        Some(name) => {
            let name = name.clone();
            let description = match &node.description {
                Some(d) => Some(d.clone()),
                None => None,
            };
            let addresses = collect_addresses(&node.addresses);
            let flags = flags_from_bits(node.flags);
            Some(Interface { name, description, addresses, flags })
        },
    }
}

/// Index of the first device node that fails conversion, searching from
/// position `i`; the list length when every node from `i` on converts.
/// Conversion of the device list stops at this index: the converted
/// interfaces are exactly the longest convertible prefix.
pub open spec fn first_bad_from(s: Seq<DeviceNode>, i: int) -> int
    decreases s.len() - i,
{
    if i >= s.len() {
        s.len() as int
    } else if s[i].name is None {
        i
    } else {
        first_bad_from(s, i + 1)
    }
}

proof fn lemma_first_bad_all_good(s: Seq<DeviceNode>, i: int)
    requires
        0 <= i <= s.len(),
        forall|k: int| i <= k < s.len() ==> (#[trigger] s[k]).name is Some,
    ensures
        first_bad_from(s, i) == s.len(),
    decreases s.len() - i,
{
    if i < s.len() {
        lemma_first_bad_all_good(s, i + 1);
    }
}

/// Law: enumeration completeness. When every node of the device list has a
/// decodable name, conversion covers the whole list — one interface per
/// node — since it only stops early at a node that fails conversion.
pub proof fn lemma_enumeration_completeness(s: Seq<DeviceNode>)
    requires
        forall|k: int| 0 <= k < s.len() ==> (#[trigger] s[k]).name is Some,
    ensures
        first_bad_from(s, 0) == s.len(),
{
    lemma_first_bad_all_good(s, 0);
}

/// Keeper of one enumerated device list, fully copied out of the engine's
/// native chain: once constructed it has no residual dependency on native
/// memory.
#[derive(Debug, Clone, PartialEq, Eq)]
pub struct PcapIfT {
    /// The device nodes, in native list order.
    pub nodes: Vec<DeviceNode>,
}

/// Iterator over the device nodes of a `PcapIfT`, yielding one converted
/// `Interface` per step. A step on a node that fails conversion yields
/// `None`, which ends collection, mirroring the engine's list walk.
pub struct InterfaceIter<'a> {
    /// The device nodes being walked.
    pub nodes: &'a Vec<DeviceNode>,
    /// Position of the next node to convert.
    pub idx: usize,
}

impl<'a> InterfaceIter<'a> {
    /// Convert the node at the current position and advance past it.
    pub fn next(&mut self) -> (r: Option<Interface>)
        ensures
            final(self).nodes == old(self).nodes,
            old(self).idx >= old(self).nodes@.len() ==> r is None && final(self).idx == old(
                self,
            ).idx,
            old(self).idx < old(self).nodes@.len() ==> {
                &&& final(self).idx == old(self).idx + 1
                &&& (r is Some <==> old(self).nodes@[old(self).idx as int].name is Some)
                &&& (r matches Some(itf) ==> interface_of(
                    old(self).nodes@[old(self).idx as int],
                    itf,
                ))
            },
    {
        if self.idx >= self.nodes.len() {
            return None;
        }
        let i = self.idx;
        self.idx = i + 1;
        interface_from_node(&self.nodes[i])
    }
}

impl PcapIfT {
    /// Wrap the nodes copied out of one native device-list query.
    pub fn from_nodes(nodes: Vec<DeviceNode>) -> (r: PcapIfT)
        ensures
            r.nodes == nodes,
    {
        PcapIfT { nodes }
    }

    /// An iterator over the list's devices.
    pub fn iter(&self) -> (it: InterfaceIter<'_>)
        ensures
            it.nodes@ == self.nodes@,
            it.idx == 0,
    {
        InterfaceIter { nodes: &self.nodes, idx: 0 }
    }

    /// All devices of the list: one interface per node of the longest
    /// convertible prefix, in list order.
    pub fn get_interfaces(&self) -> (r: Vec<Interface>)
        ensures
            r@.len() == first_bad_from(self.nodes@, 0),
            forall|k: int| 0 <= k < r@.len() ==> interface_of(self.nodes@[k], #[trigger] r@[k]),
    {
        let mut it = self.iter();
        let n = self.nodes.len();
        let mut out: Vec<Interface> = Vec::new();
        while it.idx < n
            invariant
                n == self.nodes@.len(),
                it.nodes@ == self.nodes@,
                0 <= it.idx <= n,
                out@.len() == it.idx,
                forall|k: int| 0 <= k < it.idx ==> (#[trigger] self.nodes@[k]).name is Some,
                forall|k: int|
                    0 <= k < it.idx ==> interface_of(self.nodes@[k], #[trigger] out@[k]),
                first_bad_from(self.nodes@, 0) == first_bad_from(self.nodes@, it.idx as int),
            decreases n - it.idx,
        {
            let ghost i = it.idx as int;
            match it.next() {
                Some(itf) => {
                    out.push(itf);
                    proof {
                        assert(first_bad_from(self.nodes@, i) == first_bad_from(
                            self.nodes@,
                            i + 1,
                        ));
                    }
                },
                None => {
                    proof {
                        assert(first_bad_from(self.nodes@, i) == i);
                    }
                    return out;
                },
            }
        }
        proof {
            assert(first_bad_from(self.nodes@, n as int) == n);
        }
        out
    }

    /// Find the capture device with the interface name `name`: a converted
    /// interface named so, when the convertible prefix holds one.
    pub fn find_interface_with_name(&self, name: &str) -> (r: Option<Interface>)
        ensures
            r is Some <==> exists|k: int|
                0 <= k < first_bad_from(self.nodes@, 0) && ((#[trigger] self.nodes@[k]).name
                    matches Some(nm) && nm@ == name@),
            r matches Some(itf) ==> itf.name@ == name@ && exists|k: int|
                0 <= k < first_bad_from(self.nodes@, 0) && interface_of(
                    #[trigger] self.nodes@[k],
                    itf,
                ),
    {
        let mut interfaces = self.get_interfaces();
        let n = interfaces.len();
        let mut i: usize = 0;
        while i < n
            invariant
                n == interfaces@.len(),
                n == first_bad_from(self.nodes@, 0),
                0 <= i <= n,
                forall|k: int|
                    0 <= k < n ==> interface_of(self.nodes@[k], #[trigger] interfaces@[k]),
                forall|k: int| 0 <= k < i ==> (#[trigger] interfaces@[k]).name@ != name@,
            decreases n - i,
        {
            if interfaces[i].has_name(name) {
                let itf = interfaces.remove(i);
                return Some(itf);
            }
            i += 1;
        }
        proof {
            assert forall|k: int|
                0 <= k < first_bad_from(self.nodes@, 0) implies !((#[trigger] self.nodes@[k]).name
                matches Some(nm) && nm@ == name@) by {
                assert(interfaces@[k].name@ != name@);
                assert(interface_of(self.nodes@[k], interfaces@[k]));
            }
        }
        None
    }

    /// Find the name of a capture device that carries the IP address `ip`,
    /// when the convertible prefix holds one.
    pub fn find_interface_with_ip(&self, ip: &IpAddr) -> (r: Option<String>)
        ensures
            r is Some <==> exists|k: int|
                0 <= k < first_bad_from(self.nodes@, 0) && device_has_ip(
                    #[trigger] self.nodes@[k],
                    *ip,
                ),
            r matches Some(nm) ==> exists|k: int|
                0 <= k < first_bad_from(self.nodes@, 0) && device_has_ip(
                    #[trigger] self.nodes@[k],
                    *ip,
                ) && (self.nodes@[k].name matches Some(nm2) && nm@ == nm2@),
    {
        let mut interfaces = self.get_interfaces();
        let n = interfaces.len();
        let mut i: usize = 0;
        while i < n
            invariant
                n == interfaces@.len(),
                n == first_bad_from(self.nodes@, 0),
                0 <= i <= n,
                forall|k: int|
                    0 <= k < n ==> interface_of(self.nodes@[k], #[trigger] interfaces@[k]),
                forall|k: int| 0 <= k < i ==> !device_has_ip(#[trigger] self.nodes@[k], *ip),
            decreases n - i,
        {
            if interfaces[i].has_address(ip) {
                proof {
                    lemma_interface_ip_matches_device(self.nodes@[i as int], interfaces@[i as int], *ip);
                }
                let itf = interfaces.remove(i);
                return Some(itf.name);
            }
            proof {
                lemma_interface_ip_matches_device(self.nodes@[i as int], interfaces@[i as int], *ip);
            }
            i += 1;
        }
        None
    }
}

/// Some address record of the device node decodes to the IP address `ip`.
pub open spec fn device_has_ip(node: DeviceNode, ip: IpAddr) -> bool {
    exists|j: int|
        0 <= j < node.addresses@.len() && raw_has_ip(#[trigger] node.addresses@[j], ip)
}

/// The socket address decodes to the IP address `ip`.
pub open spec fn sockaddr_has_ip(sa: RawSockAddr, ip: IpAddr) -> bool {
    exists|a: Address| #[trigger] parses_to(sa, a) && spec_as_ip(a) == Some(ip)
}

/// The record's primary address decodes to the IP address `ip`.
pub open spec fn raw_has_ip(n: RawAddressNode, ip: IpAddr) -> bool {
    n.addr matches Some(sa) && sockaddr_has_ip(sa, ip)
}

/// A converted interface carries the IP address `ip` exactly when its
/// source device node does.
proof fn lemma_interface_ip_matches_device(node: DeviceNode, itf: Interface, ip: IpAddr)
    requires
        interface_of(node, itf),
    ensures
        (exists|j: int|
            0 <= j < itf.addresses@.len() && spec_as_ip(#[trigger] itf.addresses@[j].addr) == Some(
                ip,
            )) <==> device_has_ip(node, ip),
{
    broadcast use vstd::array::group_array_axioms;

    if exists|j: int|
        0 <= j < itf.addresses@.len() && spec_as_ip(#[trigger] itf.addresses@[j].addr) == Some(
            ip,
        ) {
        let j = choose|j: int|
            0 <= j < itf.addresses@.len() && spec_as_ip(#[trigger] itf.addresses@[j].addr) == Some(
                ip,
            );
        let ia = itf.addresses@[j];
        assert(itf.addresses@.contains(ia));
        let k = choose|k: int|
            0 <= k < node.addresses@.len() && node_converts(#[trigger] node.addresses@[k], ia);
        assert(raw_has_ip(node.addresses@[k], ip)) by {
            let sa = node.addresses@[k].addr->0;
            assert(parses_to(sa, ia.addr) && spec_as_ip(ia.addr) == Some(ip));
        }
    }
    if device_has_ip(node, ip) {
        let k = choose|k: int|
            0 <= k < node.addresses@.len() && raw_has_ip(#[trigger] node.addresses@[k], ip);
        let sa0 = node.addresses@[k].addr->0;
        let a = choose|a: Address| #[trigger] parses_to(sa0, a) && spec_as_ip(a) == Some(ip);
        assert(convertible(node.addresses@[k]));
        let ia = choose|ia: InterfaceAddress|
            #[trigger] itf.addresses@.contains(ia) && node_converts(node.addresses@[k], ia);
        // The primary address of the contained entry decodes from the same
        // raw bytes as `a`, so it is the same address.
        let sa = node.addresses@[k].addr->0;
        assert(parses_to(sa, ia.addr) && parses_to(sa, a));
        assert(ia.addr == a) by {
            match a {
                Address::Ipv4(oct) => {
                    assert(ia.addr matches Address::Ipv4(oct2) && oct2@ == oct@);
                    match ia.addr {
                        Address::Ipv4(oct2) => assert(oct2 =~= oct),
                        _ => (),
                    }
                },
                Address::Ipv6(oct) => {
                    assert(ia.addr matches Address::Ipv6(oct2) && oct2@ == oct@);
                    match ia.addr {
                        Address::Ipv6(oct2) => assert(oct2 =~= oct),
                        _ => (),
                    }
                },
                Address::Mac(m) => {
                    assert(ia.addr matches Address::Mac(m2) && m2.0@ == m.0@);
                    match ia.addr {
                        Address::Mac(m2) => assert(m2.0 =~= m.0),
                        _ => (),
                    }
                },
            }
        }
        let idx = choose|idx: int|
            0 <= idx < itf.addresses@.len() && itf.addresses@[idx] == ia;
        assert(spec_as_ip(itf.addresses@[idx].addr) == Some(ip));
    }
}

} // verus!
