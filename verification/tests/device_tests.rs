use luomu_libpcap::Address;
use luomu_libpcap::IpAddr;
use luomu_libpcap::Interface;
use luomu_libpcap::InterfaceFlag;
use luomu_libpcap::MacAddr;
use luomu_libpcap::PcapIfT;
use luomu_libpcap::devices::DeviceNode;
use luomu_libpcap::devices::RawAddressNode;
use luomu_libpcap::devices::RawSockAddr;
use luomu_libpcap::devices::address_from_sockaddr;
use luomu_libpcap::devices::flags_from_bits;
use luomu_libpcap::devices::try_address_from;
use luomu_libpcap::iface::InterfaceAddress;

fn sockaddr(family: u16, data: &[u8]) -> RawSockAddr {
    RawSockAddr { family, data: data.to_vec() }
}

fn addr_node(family: u16, data: &[u8]) -> RawAddressNode {
    RawAddressNode {
        addr: Some(sockaddr(family, data)),
        netmask: None,
        broadaddr: None,
        dstaddr: None,
    }
}

fn device(name: &str, addresses: Vec<RawAddressNode>, flags: u32) -> DeviceNode {
    DeviceNode {
        name: Some(name.to_string()),
        description: None,
        addresses,
        flags,
    }
}

#[test]
fn sockaddr_decoding() {
    assert_eq!(
        address_from_sockaddr(&sockaddr(2, &[10, 0, 0, 1])),
        Some(Address::Ipv4([10, 0, 0, 1]))
    );
    let v6: Vec<u8> = (1..=16).collect();
    let mut v6_oct = [0u8; 16];
    v6_oct.copy_from_slice(&v6);
    assert_eq!(address_from_sockaddr(&sockaddr(10, &v6)), Some(Address::Ipv6(v6_oct)));
    assert_eq!(
        address_from_sockaddr(&sockaddr(17, &[1, 2, 3, 4, 5, 6])),
        Some(Address::Mac(MacAddr([1, 2, 3, 4, 5, 6])))
    );
    // too short for its family
    assert_eq!(address_from_sockaddr(&sockaddr(2, &[10, 0])), None);
    // unrecognized family
    assert_eq!(address_from_sockaddr(&sockaddr(99, &[1, 2, 3, 4])), None);
}

#[test]
fn address_record_skip_and_convert() {
    let unknown = addr_node(99, &[0, 1, 2, 3]);
    assert_eq!(try_address_from(&unknown), None);

    let mut known = addr_node(2, &[192, 168, 1, 7]);
    known.netmask = Some(sockaddr(2, &[255, 255, 255, 0]));
    known.broadaddr = Some(sockaddr(99, &[0]));
    let converted = try_address_from(&known).expect("recognized record converts");
    assert_eq!(converted.addr, Address::Ipv4([192, 168, 1, 7]));
    assert_eq!(converted.netmask, Some(Address::Ipv4([255, 255, 255, 0])));
    // an unrecognized secondary address is dropped, not an error
    assert_eq!(converted.broadaddr, None);
    assert_eq!(converted.dstaddr, None);
}

#[test]
fn flag_bits_decode() {
    assert_eq!(flags_from_bits(0x0), Vec::<InterfaceFlag>::new());
    assert_eq!(flags_from_bits(0x1), vec![InterfaceFlag::Loopback]);
    assert_eq!(flags_from_bits(0x2), vec![InterfaceFlag::Up]);
    assert_eq!(flags_from_bits(0x4), vec![InterfaceFlag::Running]);
    assert_eq!(
        flags_from_bits(0x7),
        vec![InterfaceFlag::Loopback, InterfaceFlag::Up, InterfaceFlag::Running]
    );
}

#[test]
fn enumeration_one_interface_per_node() {
    let nodes = vec![
        device("lo", vec![addr_node(2, &[127, 0, 0, 1])], 0x7),
        device("eth0", vec![addr_node(2, &[10, 0, 0, 1])], 0x6),
    ];
    let list = PcapIfT::from_nodes(nodes);
    let interfaces = list.get_interfaces();
    assert_eq!(interfaces.len(), 2);
    assert_eq!(interfaces[0].name, "lo");
    assert_eq!(interfaces[1].name, "eth0");
    assert!(interfaces[0].is_loopback());
    assert!(interfaces[0].is_up());
    assert!(interfaces[0].is_running());
    assert!(!interfaces[1].is_loopback());
    assert!(interfaces[1].is_up());
    assert!(interfaces[1].has_address(&IpAddr::V4([10, 0, 0, 1])));
    assert!(!interfaces[1].has_address(&IpAddr::V4([127, 0, 0, 1])));
}

#[test]
fn enumeration_stops_at_unconvertible_node() {
    let bad = DeviceNode { name: None, description: None, addresses: vec![], flags: 0 };
    let nodes = vec![device("lo", vec![], 0x1), bad, device("eth0", vec![], 0x2)];
    let list = PcapIfT::from_nodes(nodes);
    let interfaces = list.get_interfaces();
    assert_eq!(interfaces.len(), 1);
    assert_eq!(interfaces[0].name, "lo");
}

#[test]
fn interface_iterator_steps() {
    let nodes = vec![device("lo", vec![], 0x1)];
    let list = PcapIfT::from_nodes(nodes);
    let mut it = list.iter();
    let first = it.next().expect("one device");
    assert_eq!(first.name, "lo");
    assert!(it.next().is_none());
    assert!(it.next().is_none());
}

#[test]
fn address_sets_are_deduplicated() {
    let node = device(
        "eth0",
        vec![addr_node(2, &[10, 0, 0, 1]), addr_node(2, &[10, 0, 0, 1])],
        0x2,
    );
    let list = PcapIfT::from_nodes(vec![node]);
    let interfaces = list.get_interfaces();
    assert_eq!(interfaces[0].addresses.len(), 1);
}

#[test]
fn address_iterator_skips_unrecognized_records() {
    let records = vec![
        addr_node(99, &[1]),
        addr_node(2, &[10, 0, 0, 1]),
        addr_node(99, &[2]),
        addr_node(17, &[1, 2, 3, 4, 5, 6]),
    ];
    let mut it = luomu_libpcap::devices::AddressIter::new(&records);
    let first = it.next().expect("first recognized record");
    assert_eq!(first.addr, Address::Ipv4([10, 0, 0, 1]));
    let second = it.next().expect("second recognized record");
    assert_eq!(second.addr, Address::Mac(MacAddr([1, 2, 3, 4, 5, 6])));
    assert!(it.next().is_none());
    assert!(it.next().is_none());
}

#[test]
fn find_interface_with_name_nonexistent() {
    let nodes = vec![
        device("lo", vec![addr_node(2, &[127, 0, 0, 1])], 0x7),
        device("eth0", vec![], 0x2),
    ];
    let list = PcapIfT::from_nodes(nodes);
    assert!(list.find_interface_with_name("nonexistent0").is_none());
}

#[test]
fn find_interface_with_name_present() {
    let nodes = vec![device("lo", vec![], 0x1), device("eth0", vec![], 0x2)];
    let list = PcapIfT::from_nodes(nodes);
    let found = list.find_interface_with_name("eth0").expect("eth0 enumerated");
    assert_eq!(found.name, "eth0");
}

#[test]
fn find_interface_with_ip() {
    let nodes = vec![
        device("lo", vec![addr_node(2, &[127, 0, 0, 1])], 0x7),
        device("eth0", vec![addr_node(2, &[10, 0, 0, 1])], 0x2),
    ];
    let list = PcapIfT::from_nodes(nodes);
    assert_eq!(
        list.find_interface_with_ip(&IpAddr::V4([10, 0, 0, 1])),
        Some("eth0".to_string())
    );
    assert_eq!(list.find_interface_with_ip(&IpAddr::V4([8, 8, 8, 8])), None);
}

#[test]
fn ether_address_and_ip_addresses() {
    let itf = Interface {
        name: "eth0".to_string(),
        description: Some("wired".to_string()),
        addresses: vec![
            InterfaceAddress::new(Address::Ipv4([10, 0, 0, 1]), None, None, None),
            InterfaceAddress::new(Address::Mac(MacAddr([1, 2, 3, 4, 5, 6])), None, None, None),
            InterfaceAddress::new(Address::Ipv4([10, 0, 0, 1]), Some(Address::Ipv4([255, 0, 0, 0])), None, None),
        ],
        flags: vec![InterfaceFlag::Up],
    };
    assert_eq!(itf.get_ether_address(), Some(MacAddr([1, 2, 3, 4, 5, 6])));
    assert!(itf.has_name("eth0"));
    assert!(!itf.has_name("eth1"));
    // the two entries carry the same IP: the IP set holds it once
    let ips = itf.get_ip_addresses();
    assert_eq!(ips, vec![IpAddr::V4([10, 0, 0, 1])]);
    let no_mac = Interface {
        name: "x".to_string(),
        description: None,
        addresses: vec![InterfaceAddress::new(Address::Ipv4([1, 1, 1, 1]), None, None, None)],
        flags: vec![],
    };
    assert_eq!(no_mac.get_ether_address(), None);
}
