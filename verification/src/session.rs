//! What stays fixed for the length of one scan.

use vstd::prelude::*;
use crate::addr::Ipv4;

verus! {

/// The lowest source port that a scan tags its probes with.
pub const EPHEMERAL_PORT_MIN: u16 = 10000;

/// The end of the source ports that a scan may choose: one above the highest.
pub const EPHEMERAL_PORT_END: u16 = 60000;

/// One scan: whom it probes, from where, and over which destination ports
/// (`start_port` to `end_port`, both included).
#[derive(Clone, Copy, Debug, PartialEq, Eq, Structural)]
pub struct ScanSession {
    pub target: Ipv4,
    pub source: Ipv4,
    pub source_port: u16,
    pub start_port: u16,
    pub end_port: u16,
}

/// `rand::Rng::gen_range` on the generator of `rand::thread_rng`, asked for a
/// `u16` in the half-open range `low..high`. The range must not be empty,
/// since `gen_range` panics on an empty one; what comes back lies in it.
#[verifier::external_body]
fn random_in_range(low: u16, high: u16) -> (port: u16)
    requires
        low < high,
    ensures
        low <= port < high,
{
    rand::Rng::gen_range(&mut rand::thread_rng(), low..high)
}

/// A source port for a scan, drawn at random from
/// `EPHEMERAL_PORT_MIN..EPHEMERAL_PORT_END`.
pub fn random_source_port() -> (port: u16)
    ensures
        ScanSession::is_ephemeral(port),
{
    random_in_range(EPHEMERAL_PORT_MIN, EPHEMERAL_PORT_END)
}

impl ScanSession {
    /// Whether `port` is one that a scan may choose as its source port.
    pub open spec fn is_ephemeral(port: u16) -> bool {
        EPHEMERAL_PORT_MIN <= port < EPHEMERAL_PORT_END
    }

    /// How many destination ports the session covers.
    pub open spec fn port_count(self) -> nat {
        if self.start_port <= self.end_port {
            (self.end_port - self.start_port + 1) as nat
        } else {
            0
        }
    }

    /// The `index`-th destination port of the session, counting from zero.
    pub open spec fn port_at(self, index: int) -> u16
        recommends
            0 <= index < self.port_count(),
    {
        (self.start_port + index) as u16
    }

    /// The session that probes `target` from `source` with the given source
    /// port.
    pub fn with_source_port(
        target: Ipv4,
        source: Ipv4,
        source_port: u16,
        start_port: u16,
        end_port: u16,
    ) -> (session: ScanSession)
        ensures
            session == (ScanSession { target, source, source_port, start_port, end_port }),
    {
        ScanSession { target, source, source_port, start_port, end_port }
    }

    /// A session that probes `target` from `source`, with a source port drawn
    /// at random from `EPHEMERAL_PORT_MIN..EPHEMERAL_PORT_END`.
    pub fn new(target: Ipv4, source: Ipv4, start_port: u16, end_port: u16) -> (session:
        ScanSession)
        ensures
            ScanSession::is_ephemeral(session.source_port),
            session == (ScanSession {
                target,
                source,
                source_port: session.source_port,
                start_port,
                end_port,
            }),
    {
        let source_port: u16 = random_source_port();
        ScanSession::with_source_port(target, source, source_port, start_port, end_port)
    }
}

} // verus!
