use luomu_libpcap::Error;
use luomu_libpcap::Packet;
use luomu_libpcap::PcapBuilder;
use luomu_libpcap::PcapFilter;
use luomu_libpcap::PcapStat;
use luomu_libpcap::session::EngineOutcome;
use luomu_libpcap::session::PollOutcome;
use luomu_libpcap::session::ResourceEvent;
use luomu_libpcap::session::ResourceState;
use luomu_libpcap::session::capture_step;
use luomu_libpcap::session::error_from_engine_text;
use luomu_libpcap::session::capture_from_polls;
use luomu_libpcap::session::next_from_polls;
use luomu_libpcap::session::release_step;
use luomu_libpcap::session::CaptureStep;

fn rejected(op: &str, msg: &str) -> EngineOutcome {
    EngineOutcome::Rejected(Error::PcapError {
        operation: op.to_string(),
        message: msg.to_string(),
    })
}

#[test]
fn builder_records_options() {
    let b = PcapBuilder::new()
        .set_buffer_size(1 << 20)
        .set_promiscuous(true)
        .set_immediate(false)
        .set_snaplen(262144);
    assert_eq!(b.config.buffer_size, Some(1 << 20));
    assert_eq!(b.config.promiscuous, Some(true));
    assert_eq!(b.config.immediate, Some(false));
    assert_eq!(b.config.snaplen, Some(262144));
}

#[test]
fn activation_rejection_consumes_the_builder() {
    let b = PcapBuilder::new().set_snaplen(100);
    let err = b.activate(rejected("pcap_activate", "permission denied")).unwrap_err();
    assert!(matches!(err, Error::PcapError { .. }));
}

#[test]
fn scenario_loopback_capture_setup() {
    // open source "lo", snapshot length 65535, immediate mode, activate,
    // filter "icmp", inject a 42-byte buffer, read the statistics
    let builder = PcapBuilder::new().set_snaplen(65535).set_immediate(true);
    assert_eq!(builder.config.snaplen, Some(65535));
    assert_eq!(builder.config.immediate, Some(true));
    let pcap = builder.activate(EngineOutcome::Accepted).expect("activation accepted");
    pcap.set_filter("icmp", EngineOutcome::Accepted, EngineOutcome::Accepted)
        .expect("filter accepted");
    let sent = pcap.inject(Ok(42)).expect("inject accepted");
    assert_eq!(sent, 42);
    let stats = pcap.stats(Ok((3, 0, 0))).expect("stats retrieved");
    assert!(u64::from(stats.packets_received()) >= 0u64);
    assert_eq!(stats.packets_received(), 3);
}

#[test]
fn filter_compile_error_is_reported_first() {
    let pcap = PcapBuilder::new().activate(EngineOutcome::Accepted).unwrap();
    let err = pcap
        .set_filter("not a filter", rejected("pcap_compile", "syntax error"), EngineOutcome::Accepted)
        .unwrap_err();
    match err {
        Error::PcapError { operation, message } => {
            assert_eq!(operation, "pcap_compile");
            assert_eq!(message, "syntax error");
        }
        other => panic!("unexpected error: {other:?}"),
    }
}

#[test]
fn filter_compiles_and_reinstalls() {
    let mut filter = PcapFilter::compile("tcp port 80", EngineOutcome::Accepted).unwrap();
    assert_eq!(filter.expression, "tcp port 80");
    assert!(filter.install(EngineOutcome::Accepted).is_ok());
    // reinstalling replaces the active filter
    assert!(filter.install(EngineOutcome::Accepted).is_ok());
    let err = filter.install(rejected("pcap_setfilter", "boom")).unwrap_err();
    assert!(matches!(err, Error::PcapError { .. }));
}

#[test]
fn stats_snapshot_and_default() {
    let zero = PcapStat::default();
    assert_eq!(zero.packets_received(), 0);
    assert_eq!(zero.packets_dropped(), 0);
    assert_eq!(zero.packets_dropped_interface(), 0);
    let st = PcapStat { ps_recv: 7, ps_drop: 2, ps_ifdrop: 1 };
    assert_eq!(st.packets_received(), 7);
    assert_eq!(st.packets_dropped(), 2);
    assert_eq!(st.packets_dropped_interface(), 1);
}

#[test]
fn error_text_retrieval() {
    let ok = error_from_engine_text("pcap_stats", Some("engine says no".to_string()));
    match ok {
        Ok(Error::PcapError { operation, message }) => {
            assert_eq!(operation, "pcap_stats");
            assert_eq!(message, "engine says no");
        }
        other => panic!("unexpected: {other:?}"),
    }
    let failed = error_from_engine_text("pcap_stats", None);
    assert_eq!(failed, Err(Error::ErrorTextUnavailable));
}

#[test]
fn timeout_transparency_yields_one_packet() {
    let bytes = vec![0xdeu8, 0xad, 0xbe, 0xef];
    let polls = vec![
        PollOutcome::TimedOut,
        PollOutcome::TimedOut,
        PollOutcome::TimedOut,
        PollOutcome::Delivered(&bytes),
        PollOutcome::Failed(Error::Timeout),
    ];
    let packet = next_from_polls(&polls).expect("one packet after timeouts");
    assert!(matches!(packet, Packet::Borrowed(_)));
    assert_eq!(packet.to_vec(), bytes);
}

#[test]
fn terminal_error_ends_the_sequence_silently() {
    let polls = vec![
        PollOutcome::TimedOut,
        PollOutcome::Failed(Error::PcapError {
            operation: "pcap_next_ex".to_string(),
            message: "the interface went away".to_string(),
        }),
    ];
    assert!(next_from_polls(&polls).is_none());
    assert!(next_from_polls(&Vec::new()).is_none());
}

#[test]
fn packets_come_out_in_delivery_order() {
    let first = vec![1u8];
    let second = vec![2u8, 2];
    let third = vec![3u8, 3, 3];
    let polls = vec![
        PollOutcome::TimedOut,
        PollOutcome::Delivered(&first),
        PollOutcome::Delivered(&second),
        PollOutcome::TimedOut,
        PollOutcome::Delivered(&third),
        PollOutcome::Failed(Error::Timeout),
        PollOutcome::Delivered(&first),
    ];
    let packets = capture_from_polls(&polls);
    // three deliveries before the terminal failure, in order; the delivery
    // after the failure is unreachable
    assert_eq!(packets.len(), 3);
    assert_eq!(packets[0].to_vec(), first);
    assert_eq!(packets[1].to_vec(), second);
    assert_eq!(packets[2].to_vec(), third);
}

#[test]
fn capture_step_decisions() {
    let bytes = vec![1u8, 2];
    match capture_step(&PollOutcome::Delivered(&bytes)) {
        CaptureStep::Yield(p) => assert_eq!(p.to_vec(), bytes),
        _ => panic!("a delivery must be yielded"),
    }
    assert!(matches!(capture_step(&PollOutcome::TimedOut), CaptureStep::Retry));
    assert!(matches!(
        capture_step(&PollOutcome::Failed(Error::Timeout)),
        CaptureStep::Stop
    ));
}

#[test]
fn borrowed_packet_copied_before_next_poll() {
    // the copy-before-next-poll discipline: take the borrowed packet's
    // bytes as an owned copy before polling again
    let first = vec![1u8, 2, 3];
    let polls = vec![PollOutcome::Delivered(&first)];
    let borrowed = next_from_polls(&polls).unwrap();
    let kept = borrowed.to_owned();
    drop(borrowed);
    let second = vec![4u8, 5];
    let polls2 = vec![PollOutcome::Delivered(&second)];
    let next = next_from_polls(&polls2).unwrap();
    assert_eq!(kept.to_vec(), first);
    assert_eq!(next.to_vec(), second);
}

#[test]
fn release_happens_exactly_once() {
    let (s1, released1) = release_step(ResourceState::Live, ResourceEvent::Access);
    assert_eq!(s1, ResourceState::Live);
    assert!(!released1);
    let (s2, released2) = release_step(s1, ResourceEvent::Finalize);
    assert_eq!(s2, ResourceState::Released);
    assert!(released2);
    let (s3, released3) = release_step(s2, ResourceEvent::Finalize);
    assert_eq!(s3, ResourceState::Released);
    assert!(!released3);
    let (_, released4) = release_step(s3, ResourceEvent::Access);
    assert!(!released4);
}
