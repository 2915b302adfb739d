use luomu_libpcap::Address;
use luomu_libpcap::Error;
use luomu_libpcap::IpAddr;
use luomu_libpcap::MacAddr;

#[test]
fn ipv4_tagging() {
    let a = Address::Ipv4([10, 0, 0, 1]);
    assert!(a.is_ipv4());
    assert!(!a.is_ipv6());
    assert!(a.is_ip());
    assert!(!a.is_mac());
    assert_eq!(a.as_ipv4(), Some([10, 0, 0, 1]));
    assert_eq!(a.as_ipv6(), None);
    assert_eq!(a.as_mac(), None);
    assert_eq!(a.as_ip(), Some(IpAddr::V4([10, 0, 0, 1])));
    assert_eq!(a.as_ipv4().is_some(), a.is_ipv4());
    assert_eq!(a.as_ipv6().is_some(), a.is_ipv6());
    assert_eq!(a.as_mac().is_some(), a.is_mac());
}

#[test]
fn ipv6_tagging() {
    let oct = [0u8, 0, 0, 0, 0, 0, 0, 0, 0, 0, 0, 0, 0, 0, 0, 1];
    let a = Address::Ipv6(oct);
    assert!(a.is_ipv6());
    assert!(a.is_ip());
    assert!(!a.is_ipv4());
    assert!(!a.is_mac());
    assert_eq!(a.as_ipv6(), Some(oct));
    assert_eq!(a.as_ipv4(), None);
    assert_eq!(a.as_ip(), Some(IpAddr::V6(oct)));
    assert_eq!(a.as_ipv4().is_some(), a.is_ipv4());
    assert_eq!(a.as_ipv6().is_some(), a.is_ipv6());
    assert_eq!(a.as_mac().is_some(), a.is_mac());
}

#[test]
fn mac_tagging() {
    let a = Address::Mac(MacAddr([1, 2, 3, 4, 5, 6]));
    assert!(a.is_mac());
    assert!(!a.is_ip());
    assert!(!a.is_ipv4());
    assert!(!a.is_ipv6());
    assert_eq!(a.as_mac(), Some(MacAddr([1, 2, 3, 4, 5, 6])));
    assert_eq!(a.as_ip(), None);
    assert_eq!(a.as_ipv4(), None);
    assert_eq!(a.as_ipv6(), None);
    assert_eq!(a.as_ipv4().is_some(), a.is_ipv4());
    assert_eq!(a.as_ipv6().is_some(), a.is_ipv6());
    assert_eq!(a.as_mac().is_some(), a.is_mac());
}

#[test]
fn extraction_on_wrong_variant_is_invalid_address() {
    let a = Address::Mac(MacAddr([1, 2, 3, 4, 5, 6]));
    assert_eq!(a.try_into_ipv4(), Err(Error::InvalidAddress));
    assert_eq!(a.try_into_ipv6(), Err(Error::InvalidAddress));
    assert_eq!(a.try_into_ip(), Err(Error::InvalidAddress));
    let b = Address::Ipv4([1, 2, 3, 4]);
    assert_eq!(b.try_into_mac(), Err(Error::InvalidAddress));
    assert_eq!(b.try_into_ipv4(), Ok([1, 2, 3, 4]));
    assert_eq!(b.try_into_ip(), Ok(IpAddr::V4([1, 2, 3, 4])));
}

#[test]
fn conversions_into_the_union() {
    assert_eq!(Address::from([1u8, 2, 3, 4]), Address::Ipv4([1, 2, 3, 4]));
    let v6 = [9u8; 16];
    assert_eq!(Address::from(v6), Address::Ipv6(v6));
    assert_eq!(
        Address::from(MacAddr([6, 5, 4, 3, 2, 1])),
        Address::Mac(MacAddr([6, 5, 4, 3, 2, 1]))
    );
    assert_eq!(
        Address::from(IpAddr::V4([127, 0, 0, 1])),
        Address::Ipv4([127, 0, 0, 1])
    );
    assert_eq!(MacAddr::from([1u8, 1, 2, 2, 3, 3]).octets(), [1, 1, 2, 2, 3, 3]);
}

#[test]
fn mac_hex_text() {
    let mac = MacAddr([0xde, 0xad, 0xbe, 0xef, 0x00, 0x1a]);
    assert_eq!(mac.to_hex_string(), "de:ad:be:ef:00:1a");
    assert_eq!(MacAddr([0; 6]).to_hex_string(), "00:00:00:00:00:00");
}

#[test]
fn mac_array_into_address() {
    assert_eq!(
        Address::from([0u8, 1, 2, 3, 4, 5]),
        Address::Mac(MacAddr([0, 1, 2, 3, 4, 5]))
    );
}

#[test]
fn timeout_error_kind() {
    assert!(Error::Timeout.is_timeout());
    assert!(!Error::InvalidAddress.is_timeout());
}
