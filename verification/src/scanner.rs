//! A whole scan as a function of what the host and the network answer.

use vstd::prelude::*;
use crate::addr::Ipv4;
use crate::config::ScanConfig;
use crate::coordinator::{Coordinator, ScanAction, ScanEvent, ScanState};
use crate::error::ScanError;
use crate::iface::{default_interface, get_default_interface, InterfaceInfo};
use crate::packet::{syn_probe, ProbePacket};
use crate::ports::OpenPortSet;
use crate::receiver::{found_in, Inbound, Receiver};
use crate::session::{random_source_port, ScanSession};
use crate::sort::is_ascending;
use crate::transmitter::{probe_ports, transmit_range};

verus! {

/// What a scan meets: the interfaces of the host in the order the host
/// lists them, whether the host lets a raw channel be opened, and the
/// segments that come in before the receiver is stopped.
#[derive(Clone, Debug)]
pub struct ScanEnvironment {
    pub interfaces: Vec<InterfaceInfo>,
    pub channel_available: bool,
    pub inbound: Vec<Inbound>,
}

/// What a scan did: the probes it sent, in their order, and the ports it
/// found open or the reason for which it was given up.
#[derive(Debug)]
pub struct ScanReport {
    pub probes: Vec<ProbePacket>,
    pub result: Result<Vec<u16>, ScanError>,
}

/// The session of the scan of `config` from the address `source` with the
/// source port `source_port`.
pub open spec fn session_of(config: ScanConfig, source: Ipv4, source_port: u16)
    -> ScanSession {
    ScanSession {
        target: config.target_ip,
        source,
        source_port,
        start_port: config.start_port,
        end_port: config.end_port,
    }
}

/// Whether `report` is what the scan of `config` with the source port
/// `source_port` does in an environment with the given interfaces, channel
/// and inbound segments.
///
/// Without an eligible interface the scan fails with
/// `NoInterfaceAvailable`, and without a channel with `SocketError`; in both
/// cases it sends nothing. Otherwise it sends one probe to each port of the
/// range in ascending order, and its result holds, in ascending order and
/// each once, the ports that some inbound segment names as open.
pub open spec fn is_scan_report(
    config: ScanConfig,
    interfaces: Seq<InterfaceInfo>,
    channel_available: bool,
    inbound: Seq<Inbound>,
    source_port: u16,
    report: ScanReport,
) -> bool {
    match default_interface(interfaces) {
        None => report.result == Err::<Vec<u16>, ScanError>(ScanError::NoInterfaceAvailable)
            && report.probes@.len() == 0,
        Some((_, source)) => if !channel_available {
            report.result == Err::<Vec<u16>, ScanError>(ScanError::SocketError)
                && report.probes@.len() == 0
        } else {
            let session = session_of(config, source, source_port);
            &&& report.probes@.len() == session.port_count()
            &&& forall|i: int|
                0 <= i < report.probes@.len() ==> (#[trigger] report.probes@[i])@ == syn_probe(
                    session,
                    probe_ports(session)[i],
                )
            &&& report.result matches Ok(ports)
            &&& is_ascending(ports@)
            &&& ports@.to_set() == found_in(session, inbound)
        },
    }
}

/// How many steps a scan in `state` is away from its end, at most.
spec fn steps_left(state: ScanState) -> nat {
    match state {
        ScanState::Idle => 6,
        ScanState::InterfaceResolved { source } => 5,
        ScanState::ChannelOpen { session } => 4,
        ScanState::Scanning { session } => 3,
        ScanState::Draining { session } => 2,
        ScanState::Stopped => 1,
        ScanState::Failed { error } => 1,
    }
}

/// Whether the probes sent and the ports found so far are what a scan in
/// `state` has sent and found.
spec fn on_course(
    config: ScanConfig,
    interfaces: Seq<InterfaceInfo>,
    channel_available: bool,
    inbound: Seq<Inbound>,
    source_port: u16,
    state: ScanState,
    probes: Seq<ProbePacket>,
    receiver: Option<Receiver>,
    found: Set<u16>,
) -> bool {
    let all_sent = |session: ScanSession|
        probes.len() == session.port_count() && forall|i: int|
            0 <= i < probes.len() ==> (#[trigger] probes[i])@ == syn_probe(
                session,
                probe_ports(session)[i],
            );
    match state {
        ScanState::Idle => probes.len() == 0 && found == Set::<u16>::empty(),
        ScanState::Failed { error } => probes.len() == 0 && match default_interface(interfaces) {
            None => error == ScanError::NoInterfaceAvailable,
            Some(_) => error == ScanError::SocketError && !channel_available,
        },
        _ => default_interface(interfaces) matches Some((_, source)) && {
            let planned = session_of(config, source, source_port);
            match state {
                ScanState::InterfaceResolved { source: chosen } => chosen == source && probes.len()
                    == 0 && found == Set::<u16>::empty(),
                ScanState::ChannelOpen { session } => session == planned && channel_available
                    && probes.len() == 0 && found == Set::<u16>::empty(),
                ScanState::Scanning { session } => session == planned && channel_available
                    && probes.len() == 0 && found == Set::<u16>::empty() && receiver == Some(
                    Receiver { session: planned },
                ),
                ScanState::Draining { session } => session == planned && channel_available
                    && all_sent(planned) && found == Set::<u16>::empty() && receiver == Some(
                    Receiver { session: planned },
                ),
                _ => channel_available && all_sent(planned) && found == found_in(planned, inbound),
            }
        },
    }
}

/// Runs the scan of `config` against `environment` with the given source
/// port: the coordinator is taken through its states, and each thing it
/// asks for is answered from `environment`. The inbound segments are all
/// seen by the receiver during the grace period.
pub fn run_scan_with_port(config: ScanConfig, environment: &ScanEnvironment, source_port: u16)
    -> (report: ScanReport)
    ensures
        is_scan_report(
            config,
            environment.interfaces@,
            environment.channel_available,
            environment.inbound@,
            source_port,
            report,
        ),
{
    let mut coordinator = Coordinator::new(config);
    let mut probes: Vec<ProbePacket> = Vec::new();
    let mut receiver: Option<Receiver> = None;
    let mut found = OpenPortSet::new();
    loop
        invariant
            coordinator.config == config,
            on_course(
                config,
                environment.interfaces@,
                environment.channel_available,
                environment.inbound@,
                source_port,
                coordinator.state,
                probes@,
                receiver,
                found@,
            ),
        decreases steps_left(coordinator.state),
    {
        match coordinator.action() {
            ScanAction::ResolveInterface => {
                let source = match get_default_interface(&environment.interfaces) {
                    Some((_, source)) => Some(source),
                    None => None,
                };
                coordinator.step_with_port(ScanEvent::InterfaceLookup { source }, source_port);
            },
            ScanAction::OpenChannel { .. } => {
                let event = if environment.channel_available {
                    ScanEvent::ChannelOpened
                } else {
                    ScanEvent::ChannelRefused
                };
                coordinator.step_with_port(event, source_port);
            },
            ScanAction::StartReceiver { session } => {
                receiver = Some(Receiver::new(session));
                coordinator.step_with_port(ScanEvent::ReceiverStarted, source_port);
            },
            ScanAction::Transmit { session } => {
                probes = transmit_range(&session);
                coordinator.step_with_port(ScanEvent::TransmitFinished, source_port);
            },
            ScanAction::Wait { millis } => {
                if let Some(listening) = receiver {
                    listening.observe_all(&mut found, &environment.inbound);
                    assert(found@ =~= found_in(listening.session, environment.inbound@));
                }
                coordinator.step_with_port(ScanEvent::GraceElapsed, source_port);
            },
            ScanAction::Finish => {
                return ScanReport { probes, result: Ok(found.sorted()) };
            },
            ScanAction::Abort { error } => {
                return ScanReport { probes, result: Err(error) };
            },
        }
    }
}

/// Runs the scan of the ports `start` to `end` of `target_ip` against
/// `environment`, with a source port drawn at random from the ephemeral
/// range.
pub fn run_scan(target_ip: Ipv4, start: u16, end: u16, environment: &ScanEnvironment)
    -> (report: ScanReport)
    ensures
        exists|source_port: u16|
            ScanSession::is_ephemeral(source_port) && #[trigger] is_scan_report(
                ScanConfig { target_ip, start_port: start, end_port: end },
                environment.interfaces@,
                environment.channel_available,
                environment.inbound@,
                source_port,
                report,
            ),
{
    let source_port: u16 = random_source_port();
    run_scan_with_port(
        ScanConfig { target_ip, start_port: start, end_port: end },
        environment,
        source_port,
    )
}

} // verus!
