//! The Internet checksum (the 16-bit one's-complement sum of RFC 1071) and
//! its use by TCP over IPv4.

use vstd::prelude::*;
use crate::addr::Ipv4;

verus! {

/// The protocol number of TCP in an IPv4 header and pseudo-header.
pub const PROTOCOL_TCP: u8 = 6;

/// The longest TCP segment whose length the pseudo-header can express.
pub const MAX_SEGMENT_LEN: usize = 0xFFFF;

/// The sum of `bytes` read as big-endian 16-bit words: a byte at an even
/// offset is the high half of its word, a byte at an odd offset the low half.
/// A last byte at an even offset is thereby a word padded with a zero byte.
pub open spec fn word_sum(bytes: Seq<u8>) -> nat
    decreases bytes.len(),
{
    if bytes.len() == 0 {
        0
    } else {
        let last = bytes.len() - 1;
        let value = bytes[last] as nat;
        word_sum(bytes.drop_last()) + if last % 2 == 0 {
            256 * value
        } else {
            value
        }
    }
}

/// A sum of 16-bit words reduced to 16 bits with end-around carry: zero stays
/// zero, and any other sum becomes the number in `1..=0xFFFF` that it is
/// congruent to modulo `0xFFFF`.
pub open spec fn end_around_carry(sum: nat) -> nat {
    if sum == 0 {
        0
    } else {
        ((sum - 1) % 0xFFFF + 1) as nat
    }
}

/// The checksum that goes with a given sum of words: the one's complement of
/// the sum after end-around carry.
pub open spec fn checksum_of_sum(sum: nat) -> u16 {
    (0xFFFF - end_around_carry(sum)) as u16
}

/// The Internet checksum of `bytes`.
pub open spec fn internet_checksum(bytes: Seq<u8>) -> u16 {
    checksum_of_sum(word_sum(bytes))
}

/// A TCP segment with its checksum field, the two bytes at offsets 16 and 17,
/// read as zero.
pub open spec fn zero_checksum_field(segment: Seq<u8>) -> Seq<u8> {
    Seq::new(segment.len(), |i: int| if i == 16 || i == 17 { 0u8 } else { segment[i] })
}

/// The twelve bytes that TCP over IPv4 puts before a segment of `length`
/// bytes when it computes the checksum: source address, destination address,
/// a zero byte, the protocol number, and the segment length in big-endian.
pub open spec fn pseudo_header(source: Ipv4, destination: Ipv4, length: nat) -> Seq<u8> {
    seq![
        source.a,
        source.b,
        source.c,
        source.d,
        destination.a,
        destination.b,
        destination.c,
        destination.d,
        0u8,
        PROTOCOL_TCP,
        (length / 256) as u8,
        (length % 256) as u8,
    ]
}

/// The checksum of a TCP segment sent from `source` to `destination`: the
/// Internet checksum of the pseudo-header followed by the segment, whose own
/// checksum field counts as zero.
pub open spec fn tcp_checksum(source: Ipv4, destination: Ipv4, segment: Seq<u8>) -> u16 {
    internet_checksum(
        pseudo_header(source, destination, segment.len()) + zero_checksum_field(segment),
    )
}

/// The words of a sequence that follows an even number of bytes add up as
/// they do on their own.
pub proof fn lemma_word_sum_concat(head: Seq<u8>, tail: Seq<u8>)
    requires
        head.len() % 2 == 0,
    ensures
        word_sum(head + tail) == word_sum(head) + word_sum(tail),
    decreases tail.len(),
{
    if tail.len() == 0 {
        assert(head + tail =~= head);
    } else {
        assert((head + tail).drop_last() =~= head + tail.drop_last());
        lemma_word_sum_concat(head, tail.drop_last());
    }
}

/// A segment's words add up to those of the segment with its checksum field
/// read as zero, and the word in the field.
pub proof fn lemma_word_sum_with_field(segment: Seq<u8>)
    requires
        segment.len() >= 18,
    ensures
        word_sum(segment) == word_sum(zero_checksum_field(segment)) + 256 * segment[16]
            + segment[17],
{
    let front = segment.take(16);
    let field = seq![segment[16], segment[17]];
    let blank = seq![0u8, 0u8];
    let back = segment.skip(18);
    assert(segment =~= (front + field) + back);
    assert(zero_checksum_field(segment) =~= (front + blank) + back);
    lemma_word_sum_concat(front + field, back);
    lemma_word_sum_concat(front + blank, back);
    lemma_word_sum_concat(front, field);
    lemma_word_sum_concat(front, blank);
    assert(word_sum(field) == 256 * segment[16] + segment[17]) by {
        reveal_with_fuel(word_sum, 3);
    }
    assert(word_sum(blank) == 0) by {
        reveal_with_fuel(word_sum, 3);
    }
}

/// A segment that carries its checksum passes the test of the one who
/// receives it: summed over pseudo-header and segment, checksum field
/// included, the words come to all ones, so that the checksum over all of it
/// is zero.
pub proof fn lemma_tcp_checksum_verifies(source: Ipv4, destination: Ipv4, segment: Seq<u8>)
    requires
        segment.len() >= 18,
        256 * segment[16] + segment[17] == tcp_checksum(source, destination, segment),
    ensures
        end_around_carry(word_sum(pseudo_header(source, destination, segment.len()) + segment))
            == 0xFFFF,
        internet_checksum(pseudo_header(source, destination, segment.len()) + segment) == 0,
{
    let head = pseudo_header(source, destination, segment.len());
    lemma_word_sum_concat(head, segment);
    lemma_word_sum_concat(head, zero_checksum_field(segment));
    lemma_word_sum_with_field(segment);
    let partial = word_sum(head) + word_sum(zero_checksum_field(segment));
    let total = word_sum(head + segment);
    assert(total == partial + (0xFFFF - end_around_carry(partial)));
    if partial > 0 {
        let turns = (partial - 1) / 0xFFFF;
        assert(partial - 1 == 0xFFFF * turns + (partial - 1) % 0xFFFF);
        assert(total - 1 == 0xFFFF * (turns + 1) - 1);
        vstd::arithmetic::div_mod::lemma_fundamental_div_mod_converse(
            total - 1,
            0xFFFF,
            turns,
            0xFFFE,
        );
    }
}

/// Folding the carries of a sum once does not change what it reduces to.
proof fn lemma_fold_once(sum: nat)
    requires
        sum >= 0x1_0000,
    ensures
        sum / 0x1_0000 + sum % 0x1_0000 < sum,
        end_around_carry(sum / 0x1_0000 + sum % 0x1_0000) == end_around_carry(sum),
{
    let q = sum / 0x1_0000;
    let r = sum % 0x1_0000;
    assert(sum == 0x1_0000 * q + r);
    assert(q >= 1);
    assert((sum - 1) == (q + r - 1) + 0xFFFF * q);
    vstd::arithmetic::div_mod::lemma_mod_multiples_vanish(q as int, (q + r - 1) as int, 0xFFFF);
}

/// The pseudo-header's words add up to the words of the two addresses, the
/// protocol number and the length.
proof fn lemma_pseudo_header_sum(source: Ipv4, destination: Ipv4, length: nat)
    requires
        length <= 0xFFFF,
    ensures
        word_sum(pseudo_header(source, destination, length)) == (256 * source.a + source.b) + (256
            * source.c + source.d) + (256 * destination.a + destination.b) + (256 * destination.c
            + destination.d) + PROTOCOL_TCP + length,
{
    reveal_with_fuel(word_sum, 13);
}

/// Reduces a sum of words to its checksum.
fn fold_to_checksum(sum: u128) -> (r: u16)
    ensures
        r == checksum_of_sum(sum as nat),
{
    let mut s: u128 = sum;
    while s > 0xFFFF
        invariant
            end_around_carry(s as nat) == end_around_carry(sum as nat),
        decreases s,
    {
        proof {
            lemma_fold_once(s as nat);
        }
        s = s / 0x1_0000 + s % 0x1_0000;
    }
    (0xFFFF - s) as u16
}

/// The sum of the words of `bytes`, where `masked` makes the bytes at offsets
/// 16 and 17 count as zero.
fn sum_words(bytes: &[u8], masked: bool) -> (sum: u128)
    ensures
        sum == word_sum(
            if masked {
                zero_checksum_field(bytes@)
            } else {
                bytes@
            },
        ),
        sum <= 0x1_0000 * bytes@.len(),
{
    let ghost view = if masked {
        zero_checksum_field(bytes@)
    } else {
        bytes@
    };
    let mut sum: u128 = 0;
    let mut i: usize = 0;
    while i < bytes.len()
        invariant
            i <= bytes.len(),
            view.len() == bytes@.len(),
            forall|k: int|
                0 <= k < view.len() ==> view[k] == (if masked && (k == 16 || k == 17) {
                    0u8
                } else {
                    bytes@[k]
                }),
            sum == word_sum(view.take(i as int)),
            sum <= 0x1_0000 * i,
        decreases bytes.len() - i,
    {
        let value: u8 = if masked && (i == 16 || i == 17) {
            0
        } else {
            bytes[i]
        };
        proof {
            assert(view.take(i + 1).drop_last() =~= view.take(i as int));
            assert(view.take(i + 1)[i as int] == value);
        }
        if i % 2 == 0 {
            sum = sum + 256 * (value as u128);
        } else {
            sum = sum + value as u128;
        }
        i = i + 1;
    }
    proof {
        assert(view.take(i as int) =~= view);
    }
    sum
}

/// Computes the Internet checksum of `bytes`.
pub fn compute_checksum(bytes: &[u8]) -> (r: u16)
    ensures
        r == internet_checksum(bytes@),
{
    fold_to_checksum(sum_words(bytes, false))
}

/// Computes the checksum of a TCP segment of at most `MAX_SEGMENT_LEN` bytes.
pub(crate) fn ipv4_checksum_bounded(segment: &[u8], source: &Ipv4, destination: &Ipv4) -> (r: u16)
    requires
        segment@.len() <= MAX_SEGMENT_LEN,
    ensures
        r == tcp_checksum(*source, *destination, segment@),
{
    let length: usize = segment.len();
    let addresses: u128 = (256 * (source.a as u128) + source.b as u128) + (256 * (source.c as u128)
        + source.d as u128) + (256 * (destination.a as u128) + destination.b as u128) + (256 * (
    destination.c as u128) + destination.d as u128);
    let head: u128 = addresses + PROTOCOL_TCP as u128 + length as u128;
    let body: u128 = sum_words(segment, true);
    proof {
        lemma_pseudo_header_sum(*source, *destination, length as nat);
        lemma_word_sum_concat(
            pseudo_header(*source, *destination, length as nat),
            zero_checksum_field(segment@),
        );
    }
    fold_to_checksum(head + body)
}

/// Computes the checksum of a TCP segment sent from `source` to
/// `destination`, reading the segment's own checksum field as zero. There is
/// none for a segment too long for the pseudo-header's 16-bit length.
pub fn ipv4_checksum(segment: &[u8], source: &Ipv4, destination: &Ipv4) -> (r: Option<u16>)
    ensures
        segment@.len() <= MAX_SEGMENT_LEN ==> r == Some(
            tcp_checksum(*source, *destination, segment@),
        ),
        segment@.len() > MAX_SEGMENT_LEN ==> r is None,
{
    if segment.len() <= MAX_SEGMENT_LEN {
        Some(ipv4_checksum_bounded(segment, source, destination))
    } else {
        None
    }
}

} // verus!
