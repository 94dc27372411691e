//! The receiving side of a scan: which inbound segments name an open port.

use vstd::prelude::*;
use crate::addr::IpAddress;
use crate::header::{TcpHeader, FLAG_ACK, FLAG_SYN, HEADER_LEN};
use crate::ports::OpenPortSet;
use crate::session::ScanSession;

verus! {

/// A TCP segment as it came in: the address it came from and its header.
#[derive(Clone, Copy, Debug, PartialEq, Eq, Structural)]
pub struct Inbound {
    pub from: IpAddress,
    pub header: TcpHeader,
}

/// Whether both SYN and ACK are set in `flags`.
pub open spec fn is_syn_ack(flags: u8) -> bool {
    (flags & FLAG_SYN) != 0 && (flags & FLAG_ACK) != 0
}

/// Whether `packet` answers a probe of `session`: it comes from the target,
/// it is addressed to the session's source port, and it has both SYN and ACK
/// set.
pub open spec fn is_open_reply(session: ScanSession, packet: Inbound) -> bool {
    &&& packet.from == IpAddress::V4(session.target)
    &&& packet.header.destination_port == session.source_port
    &&& is_syn_ack(packet.header.flags)
}

/// The ports found after `packet` has been seen, given those found before:
/// the packet's source port joins them if the packet answers a probe, and
/// nothing changes if it does not.
pub open spec fn found_after(session: ScanSession, found: Set<u16>, packet: Inbound) -> Set<u16> {
    if is_open_reply(session, packet) {
        found.insert(packet.header.source_port)
    } else {
        found
    }
}

/// The ports found once all of `packets` have been seen, in their order,
/// starting from none.
pub open spec fn found_in(session: ScanSession, packets: Seq<Inbound>) -> Set<u16>
    decreases packets.len(),
{
    if packets.len() == 0 {
        Set::empty()
    } else {
        found_after(session, found_in(session, packets.drop_last()), packets.last())
    }
}

/// A port is found if and only if some packet that was seen answers a probe
/// and has that port as its source port.
pub proof fn lemma_found_iff_replied(session: ScanSession, packets: Seq<Inbound>, port: u16)
    ensures
        found_in(session, packets).contains(port) <==> exists|i: int|
            0 <= i < packets.len() && is_open_reply(session, #[trigger] packets[i])
                && packets[i].header.source_port == port,
    decreases packets.len(),
{
    if packets.len() > 0 {
        let earlier = packets.drop_last();
        lemma_found_iff_replied(session, earlier, port);
        if found_in(session, packets).contains(port) {
            if found_in(session, earlier).contains(port) {
                let i = choose|i: int|
                    0 <= i < earlier.len() && is_open_reply(session, #[trigger] earlier[i])
                        && earlier[i].header.source_port == port;
                assert(packets[i] == earlier[i]);
            } else {
                assert(packets[packets.len() - 1] == packets.last());
            }
        }
        if exists|i: int|
            0 <= i < packets.len() && is_open_reply(session, #[trigger] packets[i])
                && packets[i].header.source_port == port {
            let i = choose|i: int|
                0 <= i < packets.len() && is_open_reply(session, #[trigger] packets[i])
                    && packets[i].header.source_port == port;
            if i < earlier.len() {
                assert(earlier[i] == packets[i]);
            }
        }
    }
}

/// The ports found are finitely many.
pub proof fn lemma_found_finite(session: ScanSession, packets: Seq<Inbound>)
    ensures
        found_in(session, packets).finite(),
    decreases packets.len(),
{
    if packets.len() > 0 {
        lemma_found_finite(session, packets.drop_last());
    }
}

/// The port that `packet` names as open, if it answers a probe of `session`.
pub open spec fn open_port_of(session: ScanSession, packet: Inbound) -> Option<u16> {
    if is_open_reply(session, packet) {
        Some(packet.header.source_port)
    } else {
        None
    }
}

/// The receiving side of one scan: it knows the session and tells the
/// answers to its probes from everything else that comes in. The ports found
/// are kept in a set that the receiver shares with whoever reads the result,
/// and which is handed to it for each packet.
#[derive(Clone, Copy, Debug, PartialEq, Eq, Structural)]
pub struct Receiver {
    pub session: ScanSession,
}

impl Receiver {
    /// A receiver for `session`.
    pub fn new(session: ScanSession) -> (receiver: Receiver)
        ensures
            receiver.session == session,
    {
        Receiver { session }
    }

    /// Whether `packet` answers a probe of this receiver's session.
    pub fn accepts(&self, packet: &Inbound) -> (accepted: bool)
        ensures
            accepted == is_open_reply(self.session, *packet),
    {
        let from_target = match packet.from {
            IpAddress::V4(from) => from == self.session.target,
            IpAddress::V6(_) => false,
        };
        from_target && packet.header.destination_port == self.session.source_port && (
        packet.header.flags & FLAG_SYN) != 0 && (packet.header.flags & FLAG_ACK) != 0
    }

    /// The port that `packet` names as open, if it answers a probe.
    pub fn open_port(&self, packet: &Inbound) -> (open: Option<u16>)
        ensures
            open == open_port_of(self.session, *packet),
    {
        if self.accepts(packet) {
            Some(packet.header.source_port)
        } else {
            None
        }
    }

    /// The port that a segment from `from` names as open, if it answers a
    /// probe. A segment too short to hold a TCP header answers none.
    pub fn open_port_of_segment(&self, from: IpAddress, segment: &[u8]) -> (open: Option<u16>)
        ensures
            open == if segment@.len() >= HEADER_LEN {
                open_port_of(self.session, Inbound { from, header: TcpHeader::decode(segment@) })
            } else {
                None
            },
    {
        match TcpHeader::parse(segment) {
            Some(header) => self.open_port(&Inbound { from, header }),
            None => None,
        }
    }

    /// Takes note of one inbound packet: records its source port in `found`
    /// if the packet answers a probe, and discards it if not. Returns the
    /// port where the packet was an answer.
    pub fn observe(&self, found: &mut OpenPortSet, packet: &Inbound) -> (open: Option<u16>)
        ensures
            final(found)@ == found_after(self.session, old(found)@, *packet),
            open == open_port_of(self.session, *packet),
    {
        let open = self.open_port(packet);
        if let Some(port) = open {
            found.record(port);
        }
        open
    }

    /// Takes note of `packets` in their order.
    pub fn observe_all(&self, found: &mut OpenPortSet, packets: &Vec<Inbound>)
        ensures
            final(found)@ == old(found)@.union(found_in(self.session, packets@)),
    {
        let mut i: usize = 0;
        assert(packets@.take(0) =~= Seq::<Inbound>::empty());
        assert(found@ =~= found@.union(Set::empty()));
        while i < packets.len()
            invariant
                i <= packets@.len(),
                found@ == old(found)@.union(found_in(self.session, packets@.take(i as int))),
            decreases packets@.len() - i,
        {
            self.observe(found, &packets[i]);
            proof {
                let seen = packets@.take(i as int);
                let next = packets@.take(i + 1);
                assert(next.drop_last() =~= seen);
                assert(next.last() == packets@[i as int]);
                assert(found@ =~= old(found)@.union(found_in(self.session, next)));
            }
            i = i + 1;
        }
        assert(packets@.take(i as int) =~= packets@);
    }
}

} // verus!
