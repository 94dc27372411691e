//! The fixed 20-byte TCP header and its wire format.

use vstd::prelude::*;
use vstd::arithmetic::div_mod::lemma_fundamental_div_mod_converse;

verus! {

/// The length in bytes of a TCP header without options.
pub const HEADER_LEN: usize = 20;

/// The offset of the checksum field in a TCP header.
pub const CHECKSUM_OFFSET: usize = 16;

/// The SYN flag.
pub const FLAG_SYN: u8 = 0x02;

/// The ACK flag.
pub const FLAG_ACK: u8 = 0x10;

/// The high byte of a 16-bit value written in big-endian.
pub open spec fn high_byte(value: u16) -> u8 {
    (value / 256) as u8
}

/// The low byte of a 16-bit value written in big-endian.
pub open spec fn low_byte(value: u16) -> u8 {
    (value % 256) as u8
}

/// The 16-bit value whose big-endian bytes are `high`, `low`.
pub open spec fn word_of(high: u8, low: u8) -> u16 {
    (256 * high + low) as u16
}

/// The 32-bit value whose big-endian bytes are `b0`, `b1`, `b2`, `b3`.
pub open spec fn long_of(b0: u8, b1: u8, b2: u8, b3: u8) -> u32 {
    (0x100_0000 * b0 + 0x1_0000 * b1 + 0x100 * b2 + b3) as u32
}

/// The fields of a TCP header, options left out.
#[derive(Clone, Copy, Debug, PartialEq, Eq, Structural)]
pub struct TcpHeader {
    pub source_port: u16,
    pub destination_port: u16,
    pub sequence: u32,
    pub acknowledgement: u32,
    /// Header length in 32-bit words; four bits on the wire.
    pub data_offset: u8,
    /// Four bits on the wire.
    pub reserved: u8,
    pub flags: u8,
    pub window: u16,
    pub checksum: u16,
    pub urgent_pointer: u16,
}

impl TcpHeader {
    /// Whether the two four-bit fields fit their four bits.
    pub open spec fn fits(self) -> bool {
        self.data_offset < 16 && self.reserved < 16
    }

    /// The 20 bytes of the header on the wire: every field in big-endian, the
    /// data offset in the high four bits of byte 12 and the reserved bits in
    /// its low four. Of a four-bit field only its low four bits are written.
    pub open spec fn encode(self) -> Seq<u8> {
        seq![
            high_byte(self.source_port),
            low_byte(self.source_port),
            high_byte(self.destination_port),
            low_byte(self.destination_port),
            (self.sequence / 0x100_0000) as u8,
            (self.sequence / 0x1_0000 % 256) as u8,
            (self.sequence / 0x100 % 256) as u8,
            (self.sequence % 256) as u8,
            (self.acknowledgement / 0x100_0000) as u8,
            (self.acknowledgement / 0x1_0000 % 256) as u8,
            (self.acknowledgement / 0x100 % 256) as u8,
            (self.acknowledgement % 256) as u8,
            (self.data_offset % 16 * 16 + self.reserved % 16) as u8,
            self.flags,
            high_byte(self.window),
            low_byte(self.window),
            high_byte(self.checksum),
            low_byte(self.checksum),
            high_byte(self.urgent_pointer),
            low_byte(self.urgent_pointer),
        ]
    }

    /// The header that the first 20 bytes of `bytes` spell.
    pub open spec fn decode(bytes: Seq<u8>) -> TcpHeader
        recommends
            bytes.len() >= HEADER_LEN,
    {
        TcpHeader {
            source_port: word_of(bytes[0], bytes[1]),
            destination_port: word_of(bytes[2], bytes[3]),
            sequence: long_of(bytes[4], bytes[5], bytes[6], bytes[7]),
            acknowledgement: long_of(bytes[8], bytes[9], bytes[10], bytes[11]),
            data_offset: bytes[12] / 16,
            reserved: bytes[12] % 16,
            flags: bytes[13],
            window: word_of(bytes[14], bytes[15]),
            checksum: word_of(bytes[16], bytes[17]),
            urgent_pointer: word_of(bytes[18], bytes[19]),
        }
    }

    /// Writes the header in its wire format.
    pub fn to_bytes(&self) -> (bytes: [u8; 20])
        ensures
            bytes@ == self.encode(),
    {
        let bytes: [u8; 20] = [
            (self.source_port / 256) as u8,
            (self.source_port % 256) as u8,
            (self.destination_port / 256) as u8,
            (self.destination_port % 256) as u8,
            (self.sequence / 0x100_0000) as u8,
            (self.sequence / 0x1_0000 % 256) as u8,
            (self.sequence / 0x100 % 256) as u8,
            (self.sequence % 256) as u8,
            (self.acknowledgement / 0x100_0000) as u8,
            (self.acknowledgement / 0x1_0000 % 256) as u8,
            (self.acknowledgement / 0x100 % 256) as u8,
            (self.acknowledgement % 256) as u8,
            self.data_offset % 16 * 16 + self.reserved % 16,
            self.flags,
            (self.window / 256) as u8,
            (self.window % 256) as u8,
            (self.checksum / 256) as u8,
            (self.checksum % 256) as u8,
            (self.urgent_pointer / 256) as u8,
            (self.urgent_pointer % 256) as u8,
        ];
        assert(bytes@ =~= self.encode());
        bytes
    }

    /// Reads the header at the start of a segment. There is none in fewer
    /// than 20 bytes; what follows the first 20 is not looked at.
    pub fn parse(bytes: &[u8]) -> (header: Option<TcpHeader>)
        ensures
            bytes@.len() < HEADER_LEN ==> header is None,
            bytes@.len() >= HEADER_LEN ==> header == Some(TcpHeader::decode(bytes@)),
    {
        if bytes.len() < HEADER_LEN {
            return None;
        }
        Some(
            TcpHeader {
                source_port: 256 * (bytes[0] as u16) + bytes[1] as u16,
                destination_port: 256 * (bytes[2] as u16) + bytes[3] as u16,
                sequence: 0x100_0000 * (bytes[4] as u32) + 0x1_0000 * (bytes[5] as u32) + 0x100 * (
                bytes[6] as u32) + bytes[7] as u32,
                acknowledgement: 0x100_0000 * (bytes[8] as u32) + 0x1_0000 * (bytes[9] as u32)
                    + 0x100 * (bytes[10] as u32) + bytes[11] as u32,
                data_offset: bytes[12] / 16,
                reserved: bytes[12] % 16,
                flags: bytes[13],
                window: 256 * (bytes[14] as u16) + bytes[15] as u16,
                checksum: 256 * (bytes[16] as u16) + bytes[17] as u16,
                urgent_pointer: 256 * (bytes[18] as u16) + bytes[19] as u16,
            },
        )
    }

    /// Reading back what was written gives the header that was written.
    pub proof fn lemma_decode_encode(self)
        requires
            self.fits(),
        ensures
            TcpHeader::decode(self.encode()) == self,
    {
        let bytes = self.encode();
        let read = TcpHeader::decode(bytes);
        lemma_bytes_word(self.source_port);
        lemma_bytes_word(self.destination_port);
        lemma_bytes_long(self.sequence);
        lemma_bytes_long(self.acknowledgement);
        lemma_bytes_word(self.window);
        lemma_bytes_word(self.checksum);
        lemma_bytes_word(self.urgent_pointer);
        assert(read.source_port == self.source_port);
        assert(read.destination_port == self.destination_port);
        assert(read.sequence == self.sequence);
        assert(read.acknowledgement == self.acknowledgement);
        assert(bytes[12] == self.data_offset * 16 + self.reserved);
        assert(read.data_offset == self.data_offset);
        assert(read.reserved == self.reserved);
        assert(read.flags == self.flags);
        assert(read.window == self.window);
        assert(read.checksum == self.checksum);
        assert(read.urgent_pointer == self.urgent_pointer);
    }

    /// Writing what was read gives back the first 20 bytes.
    pub proof fn lemma_encode_decode(bytes: Seq<u8>)
        requires
            bytes.len() >= HEADER_LEN,
        ensures
            TcpHeader::decode(bytes).fits(),
            TcpHeader::decode(bytes).encode() == bytes.take(HEADER_LEN as int),
    {
        let header = TcpHeader::decode(bytes);
        let written = header.encode();
        lemma_word_bytes(bytes[0], bytes[1]);
        lemma_word_bytes(bytes[2], bytes[3]);
        lemma_long_bytes(bytes[4], bytes[5], bytes[6], bytes[7]);
        lemma_long_bytes(bytes[8], bytes[9], bytes[10], bytes[11]);
        lemma_word_bytes(bytes[14], bytes[15]);
        lemma_word_bytes(bytes[16], bytes[17]);
        lemma_word_bytes(bytes[18], bytes[19]);
        assert forall|i: int| 0 <= i < HEADER_LEN implies written[i] == bytes[i] by {
            if i == 12 {
                assert(written[12] == (bytes[12] / 16 % 16 * 16 + bytes[12] % 16 % 16) as u8);
            }
        }
        assert(written =~= bytes.take(HEADER_LEN as int));
    }
}

/// The word made of the big-endian bytes of a 16-bit value is that value.
proof fn lemma_bytes_word(value: u16)
    ensures
        word_of(high_byte(value), low_byte(value)) == value,
{
}

/// The value made of the big-endian bytes of a 32-bit value is that value.
proof fn lemma_bytes_long(value: u32)
    ensures
        long_of(
            (value / 0x100_0000) as u8,
            (value / 0x1_0000 % 256) as u8,
            (value / 0x100 % 256) as u8,
            (value % 256) as u8,
        ) == value,
{
    let b0 = value as int / 0x100_0000;
    let b1 = value as int / 0x1_0000 % 256;
    let b2 = value as int / 0x100 % 256;
    let b3 = value as int % 256;
    let upper = value as int / 0x1_0000;
    let middle = value as int / 0x100;
    assert(middle == 256 * (middle / 256) + b2);
    assert(middle / 256 == upper) by {
        lemma_fundamental_div_mod_converse(
            value as int,
            0x1_0000,
            middle / 256,
            256 * (middle % 256) + value as int % 256,
        );
    }
    assert(upper == 256 * (upper / 256) + b1);
    assert(upper / 256 == b0) by {
        lemma_fundamental_div_mod_converse(
            value as int,
            0x100_0000,
            upper / 256,
            0x1_0000 * (upper % 256) + value as int % 0x1_0000,
        );
    }
    assert(value == 0x100_0000 * b0 + 0x1_0000 * b1 + 0x100 * b2 + b3);
}

/// The big-endian bytes of the word made of two bytes are those two bytes.
proof fn lemma_word_bytes(high: u8, low: u8)
    ensures
        high_byte(word_of(high, low)) == high,
        low_byte(word_of(high, low)) == low,
{
}

/// The big-endian bytes of the value made of four bytes are those four bytes.
proof fn lemma_long_bytes(b0: u8, b1: u8, b2: u8, b3: u8)
    ensures
        (long_of(b0, b1, b2, b3) / 0x100_0000) as u8 == b0,
        (long_of(b0, b1, b2, b3) / 0x1_0000 % 256) as u8 == b1,
        (long_of(b0, b1, b2, b3) / 0x100 % 256) as u8 == b2,
        (long_of(b0, b1, b2, b3) % 256) as u8 == b3,
{
    let value: int = 0x100_0000 * b0 + 0x1_0000 * b1 + 0x100 * b2 + b3;
    assert(long_of(b0, b1, b2, b3) == value);
    lemma_fundamental_div_mod_converse(
        value,
        0x100_0000,
        b0 as int,
        0x1_0000 * b1 + 0x100 * b2 + b3,
    );
    lemma_fundamental_div_mod_converse(value, 0x1_0000, 0x100 * b0 + b1, 0x100 * b2 + b3);
    lemma_fundamental_div_mod_converse(
        value,
        0x100,
        0x1_0000 * b0 + 0x100 * b1 + b2,
        b3 as int,
    );
}

} // verus!
