//! The sending side of a scan: which probe goes out next, and how long to
//! pause after it.

use vstd::prelude::*;
use crate::error::ScanError;
use crate::header::TcpHeader;
use crate::packet::{build_syn, syn_checksum, syn_header, syn_probe, ProbePacket};
use crate::session::ScanSession;

verus! {

/// The ceiling on probes per second that a scan keeps to by default.
pub const TARGET_PPS: u64 = 3000;

/// Microseconds in a second.
pub const MICROS_PER_SECOND: u64 = 1_000_000;

/// The pause after each probe that goes with a ceiling of `pps` probes per
/// second: the whole microseconds of one second shared out among `pps`.
pub open spec fn packet_delay(pps: u64) -> u64
    recommends
        pps > 0,
{
    MICROS_PER_SECOND / pps
}

/// What the sender does next.
#[derive(Clone, Copy, Debug)]
pub enum TransmitStep {
    /// Send `probe`, which is addressed to `dest_port`; count it as sent
    /// whether or not the send succeeded; pause for `pause_micros`.
    Send { probe: ProbePacket, dest_port: u16, pause_micros: u64 },
    /// Every port of the range has had its probe.
    Finished,
}

/// The sending side of one scan. It walks the session's destination ports
/// from the first to the last.
#[derive(Clone, Copy, Debug)]
pub struct Transmitter {
    pub session: ScanSession,
    /// How many probes have been handed out.
    pub sent: u32,
    /// How many of them could not be written to the channel.
    pub failed: u32,
    /// The pause after each probe, in microseconds.
    pub pause_micros: u64,
}

impl Transmitter {
    /// How many probes are still to be handed out.
    pub open spec fn remaining(self) -> nat {
        if self.sent < self.session.port_count() {
            (self.session.port_count() - self.sent) as nat
        } else {
            0
        }
    }

    /// A sender for `session` that has sent nothing and keeps to `TARGET_PPS`.
    pub fn new(session: ScanSession) -> (transmitter: Transmitter)
        ensures
            transmitter == (Transmitter {
                session,
                sent: 0,
                failed: 0,
                pause_micros: packet_delay(TARGET_PPS),
            }),
    {
        Transmitter { session, sent: 0, failed: 0, pause_micros: MICROS_PER_SECOND / TARGET_PPS }
    }

    /// A sender for `session` that has sent nothing and keeps to `pps` probes
    /// per second. There is none for a ceiling of zero.
    pub fn with_rate(session: ScanSession, pps: u64) -> (transmitter: Option<Transmitter>)
        ensures
            pps == 0 ==> transmitter is None,
            pps > 0 ==> transmitter == Some(
                Transmitter { session, sent: 0, failed: 0, pause_micros: packet_delay(pps) },
            ),
    {
        if pps == 0 {
            None
        } else {
            Some(Transmitter { session, sent: 0, failed: 0, pause_micros: MICROS_PER_SECOND / pps })
        }
    }

    /// How many probes the whole scan sends.
    pub fn total(&self) -> (total: u32)
        ensures
            total == self.session.port_count(),
    {
        if self.session.start_port <= self.session.end_port {
            (self.session.end_port - self.session.start_port) as u32 + 1
        } else {
            0
        }
    }

    /// Hands out the next step. While ports are left it is the probe for the
    /// lowest port that has had none, and that probe counts as sent from here
    /// on. After the last port it is `Finished`, and nothing changes.
    pub fn next(&mut self) -> (step: TransmitStep)
        ensures
            final(self).session == old(self).session,
            final(self).pause_micros == old(self).pause_micros,
            final(self).failed == old(self).failed,
            match step {
                TransmitStep::Send { probe, dest_port, pause_micros } => {
                    &&& old(self).remaining() > 0
                    &&& final(self).sent == old(self).sent + 1
                    &&& dest_port == old(self).session.port_at(old(self).sent as int)
                    &&& probe@ == syn_probe(old(self).session, dest_port)
                    &&& pause_micros == old(self).pause_micros
                },
                TransmitStep::Finished => {
                    &&& old(self).remaining() == 0
                    &&& final(self).sent == old(self).sent
                },
            },
    {
        if self.sent < self.total() {
            let dest_port: u16 = (self.session.start_port as u32 + self.sent) as u16;
            let probe = build_syn(&self.session, dest_port);
            self.sent = self.sent + 1;
            TransmitStep::Send { probe, dest_port, pause_micros: self.pause_micros }
        } else {
            TransmitStep::Finished
        }
    }

    /// Takes note of how the send of a probe went. A probe that could not be
    /// written to the channel is counted, up to `u32::MAX`, and its error is
    /// handed back for the log; the scan goes on as if it had been sent.
    pub fn record_send(&mut self, delivered: bool) -> (error: Option<ScanError>)
        ensures
            final(self).session == old(self).session,
            final(self).sent == old(self).sent,
            final(self).pause_micros == old(self).pause_micros,
            final(self).failed == if delivered || old(self).failed == u32::MAX {
                old(self).failed
            } else {
                (old(self).failed + 1) as u32
            },
            error == if delivered {
                None
            } else {
                Some(ScanError::TransmitError)
            },
    {
        if delivered {
            None
        } else {
            if self.failed < u32::MAX {
                self.failed = self.failed + 1;
            }
            Some(ScanError::TransmitError)
        }
    }
}

/// The destination ports of a scan in the order in which they are probed.
pub open spec fn probe_ports(session: ScanSession) -> Seq<u16> {
    Seq::new(session.port_count(), |i: int| session.port_at(i))
}

/// All the probes of a scan in the order in which they go out: one for each
/// port from `start_port` to `end_port`, the lowest port first. A range whose
/// start lies above its end has none.
pub fn transmit_range(session: &ScanSession) -> (probes: Vec<ProbePacket>)
    ensures
        probes@.len() == session.port_count(),
        forall|i: int|
            0 <= i < probes@.len() ==> (#[trigger] probes@[i])@ == syn_probe(
                *session,
                probe_ports(*session)[i],
            ),
{
    let mut transmitter = Transmitter::new(*session);
    let mut probes: Vec<ProbePacket> = Vec::new();
    loop
        invariant
            transmitter.sent <= session.port_count(),
            transmitter.session == *session,
            probes@.len() == transmitter.sent,
            forall|i: int|
                0 <= i < probes@.len() ==> (#[trigger] probes@[i])@ == syn_probe(
                    *session,
                    probe_ports(*session)[i],
                ),
        ensures
            transmitter.sent == session.port_count(),
            probes@.len() == transmitter.sent,
            forall|i: int|
                0 <= i < probes@.len() ==> (#[trigger] probes@[i])@ == syn_probe(
                    *session,
                    probe_ports(*session)[i],
                ),
        decreases transmitter.remaining(),
    {
        match transmitter.next() {
            TransmitStep::Send { probe, dest_port, pause_micros } => {
                probes.push(probe);
            },
            TransmitStep::Finished => {
                break ;
            },
        }
    }
    probes
}

/// The ports of a scan are probed in ascending order without gaps: the
/// `i`-th probe goes to the port `i` above the start, there are as many
/// probes as ports from start to end, and each probe carries the port it
/// goes to.
pub proof fn lemma_probe_order(session: ScanSession)
    ensures
        session.start_port <= session.end_port ==> probe_ports(session).len() == session.end_port
            - session.start_port + 1,
        session.start_port > session.end_port ==> probe_ports(session).len() == 0,
        forall|i: int|
            0 <= i < probe_ports(session).len() ==> #[trigger] probe_ports(session)[i]
                == session.start_port + i,
        forall|i: int|
            0 <= i < probe_ports(session).len() ==> session.start_port <= #[trigger] probe_ports(
                session,
            )[i] <= session.end_port,
        forall|i: int, j: int|
            0 <= i < j < probe_ports(session).len() ==> probe_ports(session)[i] < probe_ports(
                session,
            )[j],
        forall|port: u16|
            session.start_port <= port <= session.end_port ==> #[trigger] probe_ports(
                session,
            ).contains(port),
        forall|i: int|
            0 <= i < probe_ports(session).len() ==> TcpHeader::decode(
                syn_probe(session, #[trigger] probe_ports(session)[i]),
            ).destination_port == probe_ports(session)[i],
{
    assert forall|port: u16|
        session.start_port <= port <= session.end_port implies #[trigger] probe_ports(
        session,
    ).contains(port) by {
        assert(probe_ports(session)[port - session.start_port] == port);
    }
    assert forall|i: int| 0 <= i < probe_ports(session).len() implies TcpHeader::decode(
        syn_probe(session, #[trigger] probe_ports(session)[i]),
    ).destination_port == probe_ports(session)[i] by {
        let port = probe_ports(session)[i];
        syn_header(session, port, syn_checksum(session, port)).lemma_decode_encode();
    }
}

/// The time spent in pauses while `count` probes go out at a ceiling of `pps`
/// probes per second, in microseconds.
pub open spec fn total_pause(count: nat, pps: u64) -> nat
    recommends
        pps > 0,
{
    count * (packet_delay(pps) as nat)
}

/// The pauses of a scan of `count` probes take at least the time that
/// `count - 1` probes take at exactly `pps` probes per second, if and only
/// if the microseconds lost to rounding, `count` times the remainder of one
/// second divided by `pps`, come to no more than one second.
pub proof fn lemma_pause_bound(count: nat, pps: u64)
    requires
        pps > 0,
        count >= 1,
    ensures
        (pps * total_pause(count, pps) >= (count - 1) * MICROS_PER_SECOND) <==> (count * (
        MICROS_PER_SECOND % pps) <= MICROS_PER_SECOND),
{
    let delay = (MICROS_PER_SECOND / pps) as int;
    let lost = (MICROS_PER_SECOND % pps) as int;
    let rate = pps as int;
    let n = count as int;
    assert(MICROS_PER_SECOND == rate * delay + lost) by {
        vstd::arithmetic::div_mod::lemma_fundamental_div_mod(MICROS_PER_SECOND as int, rate);
    }
    assert(rate * (n * delay) == n * (rate * delay)) by (nonlinear_arith);
    assert((n - 1) * (rate * delay + lost) == n * (rate * delay) - rate * delay + n * lost - lost)
        by (nonlinear_arith);
}

} // verus!
