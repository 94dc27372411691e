use pnet::packet::ip::IpNextHeaderProtocols;
use portify::addr::Ipv4;
use portify::checksum::{compute_checksum, ipv4_checksum, MAX_SEGMENT_LEN, PROTOCOL_TCP};

fn pnet_checksum(segment: &[u8], source: [u8; 4], destination: [u8; 4]) -> u16 {
    pnet::packet::util::ipv4_checksum(
        segment,
        8,
        &[],
        &source.into(),
        &destination.into(),
        IpNextHeaderProtocols::Tcp,
    )
}

fn sample(len: usize, seed: u32) -> Vec<u8> {
    let mut state: u32 = seed;
    let mut bytes = Vec::with_capacity(len);
    for _ in 0..len {
        state = state.wrapping_mul(1664525).wrapping_add(1013904223);
        bytes.push((state >> 24) as u8);
    }
    bytes
}

#[test]
fn checksum_of_nothing_is_all_ones() {
    assert_eq!(compute_checksum(&[]), 0xFFFF);
}

#[test]
fn checksum_of_known_words() {
    // 0x0001 + 0xf203 + 0xf4f5 + 0xf6f7 = 0x2ddf0, folded 0xddf2.
    let bytes = [0x00, 0x01, 0xf2, 0x03, 0xf4, 0xf5, 0xf6, 0xf7];
    assert_eq!(compute_checksum(&bytes), 0x220d);
}

#[test]
fn checksum_pads_an_odd_last_byte_with_zero() {
    assert_eq!(compute_checksum(&[0x01]), 0xFEFF);
    assert_eq!(compute_checksum(&[0x01]), compute_checksum(&[0x01, 0x00]));
    assert_eq!(compute_checksum(&[0x12, 0x34, 0x56]), compute_checksum(&[0x12, 0x34, 0x56, 0x00]));
    assert_eq!(compute_checksum(&[0x12, 0x34, 0x56]), !(0x1234u16 + 0x5600));
}

#[test]
fn checksum_carries_around() {
    // 0xffff + 0x0001 = 0x10000, folded 0x0001.
    assert_eq!(compute_checksum(&[0xff, 0xff, 0x00, 0x01]), 0xFFFE);
    // 0xffff + 0xffff = 0x1fffe, folded 0xffff.
    assert_eq!(compute_checksum(&[0xff, 0xff, 0xff, 0xff]), 0x0000);
    // A sum of all ones stays as it is.
    assert_eq!(compute_checksum(&[0xff, 0xff]), 0x0000);
}

#[test]
fn checksum_of_a_long_run_folds_more_than_once() {
    let bytes = vec![0xffu8; 200_000];
    // 100000 words of 0xffff are congruent to 0 modulo 0xffff and not zero.
    assert_eq!(compute_checksum(&bytes), 0x0000);
    let mut more = bytes.clone();
    more.push(0x01);
    assert_eq!(compute_checksum(&more), !0x0100u16);
}

#[test]
fn protocol_number_is_six() {
    assert_eq!(PROTOCOL_TCP, 6);
    assert_eq!(MAX_SEGMENT_LEN, 65535);
}

#[test]
fn tcp_checksum_of_a_bare_header() {
    // Pseudo-header 10.0.0.1 -> 10.0.0.5, protocol 6, length 20, and a header
    // with source port 0x3039, destination port 80, offset 5, SYN, window 0xfaf0.
    let segment = [
        0x30, 0x39, 0x00, 0x50, 0, 0, 0, 0, 0, 0, 0, 0, 0x50, 0x02, 0xfa, 0xf0, 0, 0, 0, 0,
    ];
    let sum: u32 = 0x0a00 + 0x0001 + 0x0a00 + 0x0005 + 6 + 20 + 0x3039 + 0x0050 + 0x5002 + 0xfaf0;
    let folded = (sum & 0xffff) + (sum >> 16);
    assert!(folded <= 0xffff);
    let expected = !(folded as u16);
    let got = ipv4_checksum(&segment, &Ipv4::new(10, 0, 0, 1), &Ipv4::new(10, 0, 0, 5));
    assert_eq!(got, Some(expected));
}

#[test]
fn tcp_checksum_reads_its_own_field_as_zero() {
    let mut segment = sample(40, 7);
    let source = Ipv4::new(192, 168, 2, 1);
    let destination = Ipv4::new(192, 168, 111, 51);
    let before = ipv4_checksum(&segment, &source, &destination);
    segment[16] = 0xAB;
    segment[17] = 0xCD;
    assert_eq!(ipv4_checksum(&segment, &source, &destination), before);
    segment[15] ^= 0x01;
    assert_ne!(ipv4_checksum(&segment, &source, &destination), before);
}

#[test]
fn tcp_checksum_matches_pnet_on_even_and_odd_lengths() {
    let source = [192, 168, 2, 1];
    let destination = [192, 168, 111, 51];
    for len in 0..200usize {
        let segment = sample(len, len as u32 + 1);
        let got = ipv4_checksum(
            &segment,
            &Ipv4::from_octets(source),
            &Ipv4::from_octets(destination),
        );
        assert_eq!(got, Some(pnet_checksum(&segment, source, destination)), "length {}", len);
    }
}

#[test]
fn tcp_checksum_matches_pnet_on_long_segments() {
    let source = [255, 255, 255, 255];
    let destination = [255, 255, 255, 254];
    for len in [1499usize, 1500, 9001, 65534, 65535] {
        let segment = vec![0xffu8; len];
        let got = ipv4_checksum(
            &segment,
            &Ipv4::from_octets(source),
            &Ipv4::from_octets(destination),
        );
        assert_eq!(got, Some(pnet_checksum(&segment, source, destination)), "length {}", len);
    }
}

#[test]
fn tcp_checksum_of_a_segment_that_verifies() {
    // With the checksum written into its field, the sum over pseudo-header
    // and segment comes to all ones, so the checksum over all of it is zero.
    let source = Ipv4::new(10, 1, 2, 3);
    let destination = Ipv4::new(172, 16, 254, 9);
    for len in [20usize, 21, 33, 64] {
        let mut segment = sample(len, 99);
        let checksum = ipv4_checksum(&segment, &source, &destination).unwrap();
        segment[16] = (checksum >> 8) as u8;
        segment[17] = (checksum & 0xff) as u8;
        let mut all = vec![10, 1, 2, 3, 172, 16, 254, 9, 0, 6, (len >> 8) as u8, (len & 0xff) as u8];
        all.extend_from_slice(&segment);
        assert_eq!(compute_checksum(&all), 0);
    }
}

#[test]
fn tcp_checksum_refuses_a_segment_too_long_for_the_length_field() {
    let segment = vec![0u8; 65536];
    assert_eq!(ipv4_checksum(&segment, &Ipv4::new(1, 2, 3, 4), &Ipv4::new(5, 6, 7, 8)), None);
}
