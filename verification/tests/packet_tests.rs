use luomu_libpcap::Packet;

#[test]
fn test_packet_to_owned() {
    let buf = vec![1, 2, 3, 4];
    let packet = Packet::from_slice(&buf);
    let owned = packet.to_owned();
    if let Packet::Owned(p) = owned {
        assert_eq!(p, buf);
    } else {
        panic!("Packet was not owned");
    }
}

#[test]
fn owned_round_trip_from_borrowed() {
    let buf = vec![9u8, 8, 7];
    let packet = Packet::from_slice(&buf);
    assert_eq!(packet.to_owned().to_vec(), packet.to_vec());
}

#[test]
fn owned_round_trip_from_owned() {
    let packet = Packet::Owned(vec![5u8, 6]);
    assert_eq!(packet.to_owned().to_vec(), packet.to_vec());
    assert_eq!(packet.to_vec(), vec![5u8, 6]);
}

#[test]
fn borrowed_packet_bytes_equal_buffer() {
    let buf = vec![0u8, 255, 3];
    let packet = Packet::from_slice(&buf);
    assert!(matches!(packet, Packet::Borrowed(_)));
    assert_eq!(packet.to_vec(), buf);
}

#[test]
fn empty_packet_round_trip() {
    let buf: Vec<u8> = Vec::new();
    let packet = Packet::from_slice(&buf);
    assert_eq!(packet.to_vec(), Vec::<u8>::new());
    assert_eq!(packet.to_owned().to_vec(), Vec::<u8>::new());
}
