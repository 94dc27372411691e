//! The SYN probe: one 20-byte TCP header per destination port.

use vstd::prelude::*;
use crate::checksum::{
    internet_checksum, ipv4_checksum_bounded, lemma_tcp_checksum_verifies, pseudo_header,
    tcp_checksum, zero_checksum_field,
};
use crate::header::{TcpHeader, CHECKSUM_OFFSET, FLAG_SYN, HEADER_LEN};
use crate::session::ScanSession;

verus! {

/// The receive window that every probe advertises.
pub const PROBE_WINDOW: u16 = 64240;

/// The data offset of a probe: five 32-bit words, a header without options.
pub const PROBE_DATA_OFFSET: u8 = 5;

/// A SYN segment ready to be sent: 20 bytes of TCP header, no options and no
/// payload.
#[derive(Clone, Copy, Debug)]
pub struct ProbePacket {
    pub bytes: [u8; 20],
}

impl View for ProbePacket {
    type V = Seq<u8>;

    open spec fn view(&self) -> Seq<u8> {
        self.bytes@
    }
}

/// The header of the probe that `session` sends to `dest_port`, carrying
/// `checksum`: the session's source port, sequence number zero, SYN as the
/// only flag, the fixed window and a data offset of five.
pub open spec fn syn_header(session: ScanSession, dest_port: u16, checksum: u16) -> TcpHeader {
    TcpHeader {
        source_port: session.source_port,
        destination_port: dest_port,
        sequence: 0,
        acknowledgement: 0,
        data_offset: PROBE_DATA_OFFSET,
        reserved: 0,
        flags: FLAG_SYN,
        window: PROBE_WINDOW,
        checksum,
        urgent_pointer: 0,
    }
}

/// The checksum of the probe that `session` sends to `dest_port`: the TCP
/// checksum, from the session's source address to its target, of the probe's
/// header.
pub open spec fn syn_checksum(session: ScanSession, dest_port: u16) -> u16 {
    tcp_checksum(session.source, session.target, syn_header(session, dest_port, 0).encode())
}

/// The bytes of the probe that `session` sends to `dest_port`.
pub open spec fn syn_probe(session: ScanSession, dest_port: u16) -> Seq<u8> {
    syn_header(session, dest_port, syn_checksum(session, dest_port)).encode()
}

/// Builds the probe that `session` sends to `dest_port`.
pub fn build_syn(session: &ScanSession, dest_port: u16) -> (probe: ProbePacket)
    ensures
        probe@ == syn_probe(*session, dest_port),
{
    let header = TcpHeader {
        source_port: session.source_port,
        destination_port: dest_port,
        sequence: 0,
        acknowledgement: 0,
        data_offset: PROBE_DATA_OFFSET,
        reserved: 0,
        flags: FLAG_SYN,
        window: PROBE_WINDOW,
        checksum: 0,
        urgent_pointer: 0,
    };
    let mut bytes: [u8; 20] = header.to_bytes();
    let checksum: u16 = ipv4_checksum_bounded(bytes.as_slice(), &session.source, &session.target);
    bytes[CHECKSUM_OFFSET] = (checksum / 256) as u8;
    bytes[CHECKSUM_OFFSET + 1] = (checksum % 256) as u8;
    assert(bytes@ =~= syn_probe(*session, dest_port));
    ProbePacket { bytes }
}

/// Every probe is a header of 20 bytes that reads back as the SYN it was
/// built as, and passes the checksum test of the one who receives it.
pub proof fn lemma_probe_well_formed(session: ScanSession, dest_port: u16)
    ensures
        syn_probe(session, dest_port).len() == HEADER_LEN,
        TcpHeader::decode(syn_probe(session, dest_port)) == syn_header(
            session,
            dest_port,
            syn_checksum(session, dest_port),
        ),
        internet_checksum(
            pseudo_header(session.source, session.target, HEADER_LEN as nat) + syn_probe(
                session,
                dest_port,
            ),
        ) == 0,
{
    let checksum = syn_checksum(session, dest_port);
    let probe = syn_probe(session, dest_port);
    let blank = syn_header(session, dest_port, 0).encode();
    syn_header(session, dest_port, checksum).lemma_decode_encode();
    assert(zero_checksum_field(probe) =~= zero_checksum_field(blank));
    assert(256 * probe[16] + probe[17] == checksum);
    lemma_tcp_checksum_verifies(session.source, session.target, probe);
}

} // verus!
