use portify::addr::{IpAddress, Ipv4};
use portify::config::ScanConfig;
use portify::coordinator::{
    Coordinator, ScanAction, ScanEvent, ScanState, CHANNEL_BUFFER_SIZE, GRACE_PERIOD_MS,
};
use portify::error::ScanError;
use portify::header::{TcpHeader, FLAG_ACK, FLAG_SYN};
use portify::iface::{get_default_interface, InterfaceInfo};
use portify::packet::build_syn;
use portify::ports::OpenPortSet;
use portify::receiver::{Inbound, Receiver};
use portify::scanner::{run_scan, run_scan_with_port, ScanEnvironment};
use portify::session::{random_source_port, ScanSession, EPHEMERAL_PORT_END, EPHEMERAL_PORT_MIN};
use portify::transmitter::{transmit_range, TransmitStep, Transmitter, TARGET_PPS};

const TARGET: Ipv4 = Ipv4 { a: 10, b: 0, c: 0, d: 5 };
const SOURCE: Ipv4 = Ipv4 { a: 10, b: 0, c: 0, d: 1 };
const STRANGER: Ipv4 = Ipv4 { a: 10, b: 0, c: 0, d: 99 };

fn session(source_port: u16, start: u16, end: u16) -> ScanSession {
    ScanSession::with_source_port(TARGET, SOURCE, source_port, start, end)
}

fn reply(from: Ipv4, source_port: u16, destination_port: u16, flags: u8) -> Inbound {
    Inbound {
        from: IpAddress::V4(from),
        header: TcpHeader {
            source_port,
            destination_port,
            sequence: 7,
            acknowledgement: 1,
            data_offset: 5,
            reserved: 0,
            flags,
            window: 1024,
            checksum: 0,
            urgent_pointer: 0,
        },
    }
}

fn interface(name: &str, is_up: bool, is_loopback: bool, ips: Vec<IpAddress>) -> InterfaceInfo {
    InterfaceInfo { name: name.to_string(), is_up, is_loopback, ips }
}

fn usual_interfaces() -> Vec<InterfaceInfo> {
    vec![
        interface("lo", true, true, vec![IpAddress::V4(Ipv4::new(127, 0, 0, 1)), IpAddress::V6(1)]),
        interface("eth0", true, false, vec![IpAddress::V6(0xfe80), IpAddress::V4(SOURCE)]),
    ]
}

// Session

#[test]
fn session_keeps_what_it_is_given() {
    let s = session(12345, 20, 22);
    assert_eq!(s.target, TARGET);
    assert_eq!(s.source, SOURCE);
    assert_eq!(s.source_port, 12345);
    assert_eq!(s.start_port, 20);
    assert_eq!(s.end_port, 22);
}

#[test]
fn session_draws_an_ephemeral_source_port() {
    assert_eq!(EPHEMERAL_PORT_MIN, 10000);
    assert_eq!(EPHEMERAL_PORT_END, 60000);
    let mut seen = OpenPortSet::new();
    for _ in 0..200 {
        let s = ScanSession::new(TARGET, SOURCE, 1, 1000);
        assert!(s.source_port >= 10000 && s.source_port < 60000);
        assert_eq!(s.target, TARGET);
        assert_eq!(s.source, SOURCE);
        assert_eq!(s.start_port, 1);
        assert_eq!(s.end_port, 1000);
        seen.record(s.source_port);
    }
    // Two hundred draws out of fifty thousand ports do not all fall on the
    // lower bound, nor on any one port.
    assert!(seen.len() > 1);
}

#[test]
fn source_port_draws_stay_in_range() {
    let mut low = u16::MAX;
    let mut high = 0u16;
    for _ in 0..2000 {
        let port = random_source_port();
        assert!(port >= 10000 && port < 60000);
        low = low.min(port);
        high = high.max(port);
    }
    assert!(high - low > 1000);
}

// Open port set

#[test]
fn port_set_holds_each_port_once() {
    let mut set = OpenPortSet::new();
    assert!(set.is_empty());
    assert_eq!(set.len(), 0);
    assert!(set.record(443));
    assert!(set.record(22));
    assert!(!set.record(443));
    assert!(set.record(80));
    assert!(!set.record(22));
    assert_eq!(set.len(), 3);
    assert!(!set.is_empty());
    assert!(set.contains(22) && set.contains(80) && set.contains(443));
    assert!(!set.contains(23));
}

#[test]
fn port_set_comes_out_ascending() {
    let mut set = OpenPortSet::new();
    for port in [8080u16, 22, 65535, 0, 443, 22, 80, 8080, 1] {
        set.record(port);
    }
    assert_eq!(set.sorted(), vec![0, 1, 22, 80, 443, 8080, 65535]);
    assert_eq!(OpenPortSet::new().sorted(), Vec::<u16>::new());
}

// Receiver

#[test]
fn receiver_records_a_syn_ack_from_the_target() {
    let receiver = Receiver::new(session(12345, 20, 22));
    let mut found = OpenPortSet::new();
    let packet = reply(TARGET, 22, 12345, FLAG_SYN | FLAG_ACK);
    assert!(receiver.accepts(&packet));
    assert_eq!(receiver.open_port(&packet), Some(22));
    assert!(found.is_empty());
    assert_eq!(receiver.observe(&mut found, &packet), Some(22));
    assert_eq!(found.sorted(), vec![22]);
}

#[test]
fn receiver_accepts_other_flags_beside_syn_and_ack() {
    let receiver = Receiver::new(session(12345, 20, 22));
    let mut found = OpenPortSet::new();
    assert_eq!(receiver.observe(&mut found, &reply(TARGET, 21, 12345, 0xff)), Some(21));
    let with_ece = reply(TARGET, 20, 12345, FLAG_SYN | FLAG_ACK | 0x40);
    assert_eq!(receiver.observe(&mut found, &with_ece), Some(20));
    assert_eq!(found.sorted(), vec![20, 21]);
}

#[test]
fn receiver_discards_what_fails_one_condition() {
    let receiver = Receiver::new(session(12345, 20, 22));
    let mut found = OpenPortSet::new();
    let mut discarded = vec![
        // Another host.
        reply(STRANGER, 22, 12345, FLAG_SYN | FLAG_ACK),
        // Another destination port.
        reply(TARGET, 22, 12346, FLAG_SYN | FLAG_ACK),
        // SYN without ACK, ACK without SYN, RST and ACK, nothing.
        reply(TARGET, 22, 12345, FLAG_SYN),
        reply(TARGET, 22, 12345, FLAG_ACK),
        reply(TARGET, 22, 12345, 0x04 | FLAG_ACK),
        reply(TARGET, 22, 12345, 0),
    ];
    // An IPv6 peer.
    let mut from_v6 = reply(TARGET, 22, 12345, FLAG_SYN | FLAG_ACK);
    from_v6.from = IpAddress::V6(0x0a00_0005);
    discarded.push(from_v6);
    for packet in discarded {
        assert!(!receiver.accepts(&packet));
        assert_eq!(receiver.open_port(&packet), None);
        assert_eq!(receiver.observe(&mut found, &packet), None);
    }
    assert!(found.is_empty());
}

#[test]
fn receiver_records_a_port_once_however_often_it_answers() {
    let receiver = Receiver::new(session(12345, 1, 100));
    let mut found = OpenPortSet::new();
    for _ in 0..5 {
        receiver.observe(&mut found, &reply(TARGET, 80, 12345, FLAG_SYN | FLAG_ACK));
        receiver.observe(&mut found, &reply(TARGET, 22, 12345, FLAG_SYN | FLAG_ACK));
    }
    assert_eq!(found.len(), 2);
    assert_eq!(found.sorted(), vec![22, 80]);
}

#[test]
fn receiver_records_ports_outside_the_probed_range() {
    // The filter asks for the target, the source port and the flags only.
    let receiver = Receiver::new(session(12345, 20, 22));
    let mut found = OpenPortSet::new();
    let packet = reply(TARGET, 9999, 12345, FLAG_SYN | FLAG_ACK);
    assert_eq!(receiver.observe(&mut found, &packet), Some(9999));
}

#[test]
fn receiver_reads_segments_from_their_bytes() {
    let receiver = Receiver::new(session(12345, 20, 22));
    let answer = reply(TARGET, 22, 12345, FLAG_SYN | FLAG_ACK);
    let mut bytes = answer.header.to_bytes().to_vec();
    assert_eq!(receiver.open_port_of_segment(IpAddress::V4(TARGET), &bytes), Some(22));
    bytes.extend_from_slice(&[1, 2, 3]);
    bytes[1] = 21;
    assert_eq!(receiver.open_port_of_segment(IpAddress::V4(TARGET), &bytes), Some(21));
    assert_eq!(receiver.open_port_of_segment(IpAddress::V4(TARGET), &bytes[..19]), None);
    assert_eq!(receiver.open_port_of_segment(IpAddress::V4(STRANGER), &bytes), None);
    assert_eq!(receiver.open_port_of_segment(IpAddress::V6(5), &bytes), None);
}

#[test]
fn receiver_does_not_take_its_own_probe_for_an_answer() {
    let s = session(12345, 12345, 12345);
    let receiver = Receiver::new(s);
    let probe = build_syn(&s, 12345);
    assert_eq!(receiver.open_port_of_segment(IpAddress::V4(TARGET), &probe.bytes), None);
}

#[test]
fn receiver_takes_a_batch_in_order() {
    let receiver = Receiver::new(session(12345, 1, 100));
    let mut found = OpenPortSet::new();
    receiver.observe(&mut found, &reply(TARGET, 5, 12345, FLAG_SYN | FLAG_ACK));
    let batch = vec![
        reply(TARGET, 80, 12345, FLAG_SYN | FLAG_ACK),
        reply(STRANGER, 81, 12345, FLAG_SYN | FLAG_ACK),
        reply(TARGET, 22, 12345, FLAG_SYN | FLAG_ACK),
        reply(TARGET, 80, 12345, FLAG_SYN | FLAG_ACK),
        reply(TARGET, 82, 1, FLAG_SYN | FLAG_ACK),
    ];
    receiver.observe_all(&mut found, &batch);
    assert_eq!(found.sorted(), vec![5, 22, 80]);
}

// Transmitter

#[test]
fn transmitter_walks_the_range_upwards() {
    let s = session(12345, 20, 22);
    let mut transmitter = Transmitter::new(s);
    assert_eq!(transmitter.total(), 3);
    let mut ports = Vec::new();
    loop {
        match transmitter.next() {
            TransmitStep::Send { probe, dest_port, pause_micros } => {
                assert_eq!(probe.bytes, build_syn(&s, dest_port).bytes);
                assert_eq!(pause_micros, 333);
                ports.push(dest_port);
                assert_eq!(transmitter.sent as usize, ports.len());
            }
            TransmitStep::Finished => break,
        }
    }
    assert_eq!(ports, vec![20, 21, 22]);
    assert!(matches!(transmitter.next(), TransmitStep::Finished));
    assert_eq!(transmitter.sent, 3);
}

#[test]
fn transmitter_sends_one_probe_for_a_single_port() {
    let probes = transmit_range(&session(12345, 443, 443));
    assert_eq!(probes.len(), 1);
    assert_eq!(TcpHeader::parse(&probes[0].bytes).unwrap().destination_port, 443);
}

#[test]
fn transmitter_sends_nothing_for_a_range_that_starts_above_its_end() {
    assert_eq!(transmit_range(&session(12345, 23, 22)).len(), 0);
    let mut transmitter = Transmitter::new(session(12345, 23, 22));
    assert_eq!(transmitter.total(), 0);
    assert!(matches!(transmitter.next(), TransmitStep::Finished));
    assert_eq!(transmitter.sent, 0);
}

#[test]
fn transmitter_covers_every_port_of_the_whole_range() {
    let s = session(40000, 0, 65535);
    let probes = transmit_range(&s);
    assert_eq!(probes.len(), 65536);
    for (i, probe) in probes.iter().enumerate() {
        let header = TcpHeader::parse(&probe.bytes).unwrap();
        assert_eq!(header.destination_port as usize, i);
        assert_eq!(header.source_port, 40000);
    }
    assert_eq!(Transmitter::new(s).total(), 65536);
}

#[test]
fn transmitter_probes_ascend_without_gaps() {
    for (start, end) in [(1u16, 1000u16), (65000, 65535), (0, 0), (65535, 65535), (79, 81)] {
        let probes = transmit_range(&session(12345, start, end));
        assert_eq!(probes.len(), (end - start) as usize + 1);
        for (i, probe) in probes.iter().enumerate() {
            let header = TcpHeader::parse(&probe.bytes).unwrap();
            assert_eq!(header.destination_port as usize, start as usize + i);
        }
    }
}

#[test]
fn transmitter_pause_follows_the_rate() {
    assert_eq!(TARGET_PPS, 3000);
    let s = session(12345, 1, 2);
    assert_eq!(Transmitter::new(s).pause_micros, 333);
    assert_eq!(Transmitter::with_rate(s, 3000).unwrap().pause_micros, 333);
    assert_eq!(Transmitter::with_rate(s, 1).unwrap().pause_micros, 1_000_000);
    assert_eq!(Transmitter::with_rate(s, 1000).unwrap().pause_micros, 1000);
    assert_eq!(Transmitter::with_rate(s, 999_999).unwrap().pause_micros, 1);
    assert_eq!(Transmitter::with_rate(s, 1_000_000).unwrap().pause_micros, 1);
    assert_eq!(Transmitter::with_rate(s, 1_000_001).unwrap().pause_micros, 0);
    assert_eq!(Transmitter::with_rate(s, u64::MAX).unwrap().pause_micros, 0);
    assert!(Transmitter::with_rate(s, 0).is_none());
}

#[test]
fn transmitter_pauses_add_up_to_the_bound_where_rounding_allows() {
    // At 3000 probes a second 1000 microseconds are lost to rounding for
    // every 3000 probes: 1000 probes still keep the bound, 1001 do not.
    let pause = Transmitter::with_rate(session(1, 1, 1), 3000).unwrap().pause_micros;
    assert!(3000 * (1000 * pause) >= 999 * 1_000_000);
    assert!(3000 * (1001 * pause) < 1000 * 1_000_000);
    // At a rate that divides a million nothing is lost.
    let even = Transmitter::with_rate(session(1, 1, 1), 2000).unwrap().pause_micros;
    assert!(2000 * (65536 * even) >= 65535 * 1_000_000);
}

#[test]
fn transmitter_goes_on_after_a_probe_that_could_not_be_sent() {
    let s = session(12345, 20, 22);
    let mut transmitter = Transmitter::new(s);
    let mut ports = Vec::new();
    while let TransmitStep::Send { dest_port, .. } = transmitter.next() {
        ports.push(dest_port);
        let delivered = dest_port != 21;
        let error = transmitter.record_send(delivered);
        assert_eq!(error, if delivered { None } else { Some(ScanError::TransmitError) });
    }
    assert_eq!(ports, vec![20, 21, 22]);
    assert_eq!(transmitter.sent, 3);
    assert_eq!(transmitter.failed, 1);
    transmitter.failed = u32::MAX;
    assert_eq!(transmitter.record_send(false), Some(ScanError::TransmitError));
    assert_eq!(transmitter.failed, u32::MAX);
}

// Interface choice

#[test]
fn interface_choice_skips_loopback_for_the_first_other() {
    assert_eq!(get_default_interface(&usual_interfaces()), Some((1, SOURCE)));
}

#[test]
fn interface_choice_takes_the_first_ipv4_address() {
    let list = vec![interface(
        "eth0",
        true,
        false,
        vec![
            IpAddress::V6(1),
            IpAddress::V4(Ipv4::new(192, 168, 1, 7)),
            IpAddress::V4(Ipv4::new(192, 168, 1, 8)),
        ],
    )];
    assert_eq!(get_default_interface(&list), Some((0, Ipv4::new(192, 168, 1, 7))));
    assert_eq!(list[0].ipv4(), Some(Ipv4::new(192, 168, 1, 7)));
}

#[test]
fn interface_choice_takes_the_first_eligible_of_several() {
    let list = vec![
        interface("down0", false, false, vec![IpAddress::V4(Ipv4::new(10, 1, 1, 1))]),
        interface("six0", true, false, vec![IpAddress::V6(6)]),
        interface("bare0", true, false, vec![]),
        interface("wlan0", true, false, vec![IpAddress::V4(Ipv4::new(10, 2, 2, 2))]),
        interface("eth1", true, false, vec![IpAddress::V4(Ipv4::new(10, 3, 3, 3))]),
    ];
    assert_eq!(get_default_interface(&list), Some((3, Ipv4::new(10, 2, 2, 2))));
}

#[test]
fn interface_choice_finds_none_among_the_unfit() {
    assert_eq!(get_default_interface(&vec![]), None);
    let only_loopback = vec![interface("lo", true, true, vec![IpAddress::V4(Ipv4::new(127, 0, 0, 1))])];
    assert_eq!(get_default_interface(&only_loopback), None);
    let only_v6 = vec![interface("eth0", true, false, vec![IpAddress::V6(1), IpAddress::V6(2)])];
    assert_eq!(get_default_interface(&only_v6), None);
    assert_eq!(only_v6[0].ipv4(), None);
    let only_down = vec![interface("eth0", false, false, vec![IpAddress::V4(SOURCE)])];
    assert_eq!(get_default_interface(&only_down), None);
}

// Coordinator

fn config() -> ScanConfig {
    ScanConfig { target_ip: TARGET, start_port: 20, end_port: 22 }
}

#[test]
fn coordinator_goes_through_a_whole_scan() {
    assert_eq!(GRACE_PERIOD_MS, 2000);
    assert_eq!(CHANNEL_BUFFER_SIZE, 4096);
    let mut coordinator = Coordinator::new(config());
    assert_eq!(coordinator.state, ScanState::Idle);
    assert_eq!(coordinator.action(), ScanAction::ResolveInterface);
    assert!(coordinator.outcome(&OpenPortSet::new()).is_none());

    let action = coordinator.step_with_port(ScanEvent::InterfaceLookup { source: Some(SOURCE) }, 12345);
    assert_eq!(action, ScanAction::OpenChannel { buffer_size: 4096 });
    assert_eq!(coordinator.state, ScanState::InterfaceResolved { source: SOURCE });

    let expected = session(12345, 20, 22);
    let action = coordinator.step_with_port(ScanEvent::ChannelOpened, 12345);
    assert_eq!(action, ScanAction::StartReceiver { session: expected });
    assert_eq!(coordinator.state, ScanState::ChannelOpen { session: expected });

    let action = coordinator.step_with_port(ScanEvent::ReceiverStarted, 1);
    assert_eq!(action, ScanAction::Transmit { session: expected });
    assert_eq!(coordinator.state, ScanState::Scanning { session: expected });

    let action = coordinator.step_with_port(ScanEvent::TransmitFinished, 2);
    assert_eq!(action, ScanAction::Wait { millis: 2000 });
    assert_eq!(coordinator.state, ScanState::Draining { session: expected });
    assert!(coordinator.outcome(&OpenPortSet::new()).is_none());

    let action = coordinator.step_with_port(ScanEvent::GraceElapsed, 3);
    assert_eq!(action, ScanAction::Finish);
    assert_eq!(coordinator.state, ScanState::Stopped);

    let mut found = OpenPortSet::new();
    found.record(22);
    found.record(20);
    assert_eq!(coordinator.outcome(&found), Some(Ok(vec![20, 22])));
}

#[test]
fn coordinator_fails_without_an_interface_and_stays_failed() {
    let mut coordinator = Coordinator::new(config());
    let action = coordinator.step(ScanEvent::InterfaceLookup { source: None });
    assert_eq!(action, ScanAction::Abort { error: ScanError::NoInterfaceAvailable });
    let events = [
        ScanEvent::InterfaceLookup { source: Some(SOURCE) },
        ScanEvent::ChannelOpened,
        ScanEvent::ReceiverStarted,
        ScanEvent::TransmitFinished,
        ScanEvent::GraceElapsed,
        ScanEvent::ChannelRefused,
    ];
    for event in events {
        let action = coordinator.step(event);
        assert_eq!(action, ScanAction::Abort { error: ScanError::NoInterfaceAvailable });
        assert_eq!(coordinator.state, ScanState::Failed { error: ScanError::NoInterfaceAvailable });
    }
    let mut found = OpenPortSet::new();
    found.record(22);
    assert_eq!(coordinator.outcome(&found), Some(Err(ScanError::NoInterfaceAvailable)));
}

#[test]
fn coordinator_fails_where_the_channel_is_refused() {
    let mut coordinator = Coordinator::new(config());
    coordinator.step(ScanEvent::InterfaceLookup { source: Some(SOURCE) });
    let action = coordinator.step(ScanEvent::ChannelRefused);
    assert_eq!(action, ScanAction::Abort { error: ScanError::SocketError });
    assert_eq!(coordinator.step(ScanEvent::ChannelOpened), action);
    assert_eq!(coordinator.outcome(&OpenPortSet::new()), Some(Err(ScanError::SocketError)));
}

#[test]
fn coordinator_leaves_alone_what_it_does_not_wait_for() {
    let mut coordinator = Coordinator::new(config());
    for event in [
        ScanEvent::ChannelOpened,
        ScanEvent::ChannelRefused,
        ScanEvent::ReceiverStarted,
        ScanEvent::TransmitFinished,
        ScanEvent::GraceElapsed,
    ] {
        assert_eq!(coordinator.step(event), ScanAction::ResolveInterface);
        assert_eq!(coordinator.state, ScanState::Idle);
    }
    coordinator.step(ScanEvent::InterfaceLookup { source: Some(SOURCE) });
    assert_eq!(
        coordinator.step(ScanEvent::InterfaceLookup { source: None }),
        ScanAction::OpenChannel { buffer_size: 4096 }
    );
    coordinator.step_with_port(ScanEvent::ChannelOpened, 12345);
    assert_eq!(
        coordinator.step(ScanEvent::TransmitFinished),
        ScanAction::StartReceiver { session: session(12345, 20, 22) }
    );
    coordinator.step(ScanEvent::ReceiverStarted);
    assert_eq!(
        coordinator.step(ScanEvent::GraceElapsed),
        ScanAction::Transmit { session: session(12345, 20, 22) }
    );
    coordinator.step(ScanEvent::TransmitFinished);
    coordinator.step(ScanEvent::GraceElapsed);
    for event in [ScanEvent::GraceElapsed, ScanEvent::ChannelOpened, ScanEvent::TransmitFinished] {
        assert_eq!(coordinator.step(event), ScanAction::Finish);
    }
}

#[test]
fn coordinator_draws_the_source_port_when_the_channel_opens() {
    let mut ports = OpenPortSet::new();
    for _ in 0..50 {
        let mut coordinator = Coordinator::new(config());
        coordinator.step(ScanEvent::InterfaceLookup { source: Some(SOURCE) });
        match coordinator.step(ScanEvent::ChannelOpened) {
            ScanAction::StartReceiver { session } => {
                assert!(session.source_port >= 10000 && session.source_port < 60000);
                assert_eq!(session, ScanSession { source_port: session.source_port, ..self::session(0, 20, 22) });
                ports.record(session.source_port);
            }
            other => panic!("unexpected action {:?}", other),
        }
    }
    assert!(ports.len() > 1);
}

// Whole scans

#[test]
fn scan_reports_the_port_that_answers() {
    // Target 10.0.0.5, ports 20 to 22; only port 22 answers with SYN and ACK
    // to the source port of the scan. An answer from another host and one to
    // another port are not counted.
    let environment = ScanEnvironment {
        interfaces: usual_interfaces(),
        channel_available: true,
        inbound: vec![
            reply(STRANGER, 21, 12345, FLAG_SYN | FLAG_ACK),
            reply(TARGET, 22, 12345, FLAG_SYN | FLAG_ACK),
            reply(TARGET, 20, 54321, FLAG_SYN | FLAG_ACK),
            reply(TARGET, 21, 12345, 0x04 | FLAG_ACK),
        ],
    };
    let report = run_scan_with_port(config(), &environment, 12345);
    assert_eq!(report.result, Ok(vec![22]));
    assert_eq!(report.probes.len(), 3);
    let s = session(12345, 20, 22);
    for (i, probe) in report.probes.iter().enumerate() {
        assert_eq!(probe.bytes, build_syn(&s, 20 + i as u16).bytes);
    }
}

#[test]
fn scan_with_a_responder_that_answers_the_probes() {
    // The answers are made from the probes: the responder has port 22 open
    // and sends SYN and ACK back to where the probe came from.
    let s = session(23456, 20, 22);
    let mut inbound = Vec::new();
    for probe in transmit_range(&s) {
        let seen = TcpHeader::parse(&probe.bytes).unwrap();
        assert_eq!(seen.flags, FLAG_SYN);
        let flags = if seen.destination_port == 22 { FLAG_SYN | FLAG_ACK } else { 0x04 | FLAG_ACK };
        inbound.push(reply(TARGET, seen.destination_port, seen.source_port, flags));
    }
    inbound.push(reply(STRANGER, 20, 23456, FLAG_SYN | FLAG_ACK));
    inbound.push(reply(TARGET, 21, 23457, FLAG_SYN | FLAG_ACK));
    let environment =
        ScanEnvironment { interfaces: usual_interfaces(), channel_available: true, inbound };
    assert_eq!(run_scan_with_port(config(), &environment, 23456).result, Ok(vec![22]));
}

#[test]
fn scan_result_is_ascending_and_holds_no_port_twice() {
    let mut inbound = Vec::new();
    for port in [443u16, 22, 80, 22, 8080, 443, 21, 80, 80] {
        inbound.push(reply(TARGET, port, 30000, FLAG_SYN | FLAG_ACK));
    }
    let environment =
        ScanEnvironment { interfaces: usual_interfaces(), channel_available: true, inbound };
    let wide = ScanConfig { target_ip: TARGET, start_port: 1, end_port: 10000 };
    let report = run_scan_with_port(wide, &environment, 30000);
    assert_eq!(report.result, Ok(vec![21, 22, 80, 443, 8080]));
    assert_eq!(report.probes.len(), 10000);
}

#[test]
fn scan_without_answers_finds_nothing() {
    let environment = ScanEnvironment {
        interfaces: usual_interfaces(),
        channel_available: true,
        inbound: vec![],
    };
    let report = run_scan_with_port(config(), &environment, 12345);
    assert_eq!(report.result, Ok(vec![]));
    assert_eq!(report.probes.len(), 3);
}

#[test]
fn scan_without_an_interface_sends_nothing() {
    let lists = vec![
        vec![],
        vec![interface("lo", true, true, vec![IpAddress::V4(Ipv4::new(127, 0, 0, 1))])],
        vec![interface("eth0", true, false, vec![IpAddress::V6(9)])],
        vec![interface("eth0", false, false, vec![IpAddress::V4(SOURCE)])],
    ];
    for interfaces in lists {
        let environment = ScanEnvironment {
            interfaces,
            channel_available: true,
            inbound: vec![reply(TARGET, 22, 12345, FLAG_SYN | FLAG_ACK)],
        };
        let report = run_scan_with_port(config(), &environment, 12345);
        assert_eq!(report.result, Err(ScanError::NoInterfaceAvailable));
        assert!(report.probes.is_empty());
        let report = run_scan(TARGET, 20, 22, &environment);
        assert_eq!(report.result, Err(ScanError::NoInterfaceAvailable));
        assert!(report.probes.is_empty());
    }
}

#[test]
fn scan_without_a_channel_sends_nothing() {
    let environment = ScanEnvironment {
        interfaces: usual_interfaces(),
        channel_available: false,
        inbound: vec![reply(TARGET, 22, 12345, FLAG_SYN | FLAG_ACK)],
    };
    let report = run_scan_with_port(config(), &environment, 12345);
    assert_eq!(report.result, Err(ScanError::SocketError));
    assert!(report.probes.is_empty());
}

#[test]
fn scan_with_a_drawn_source_port_tags_its_probes_with_it() {
    let environment = ScanEnvironment {
        interfaces: usual_interfaces(),
        channel_available: true,
        inbound: vec![],
    };
    let report = run_scan(TARGET, 20, 22, &environment);
    assert_eq!(report.result, Ok(vec![]));
    assert_eq!(report.probes.len(), 3);
    let first = TcpHeader::parse(&report.probes[0].bytes).unwrap();
    assert!(first.source_port >= 10000 && first.source_port < 60000);
    let s = session(first.source_port, 20, 22);
    for (i, probe) in report.probes.iter().enumerate() {
        assert_eq!(probe.bytes, build_syn(&s, 20 + i as u16).bytes);
    }
}
