use alloy_rlp::Encodable;
use interop_proof::rlp::{encode_bytes, encode_header, encode_list, encode_u64, push_be_fixed};

fn rlp_of_u64(n: u64) -> Vec<u8> {
    let mut out = Vec::new();
    encode_u64(n, &mut out);
    out
}

fn rlp_of_bytes(data: &[u8]) -> Vec<u8> {
    let mut out = Vec::new();
    encode_bytes(data, &mut out);
    out
}

fn header_of(list: bool, payload_length: usize) -> Vec<u8> {
    let mut out = Vec::new();
    encode_header(list, payload_length, &mut out);
    out
}

#[test]
fn u64_zero_is_the_empty_string() {
    assert_eq!(rlp_of_u64(0), vec![0x80]);
}

#[test]
fn u64_below_128_is_one_byte() {
    assert_eq!(rlp_of_u64(1), vec![0x01]);
    assert_eq!(rlp_of_u64(0x7f), vec![0x7f]);
}

#[test]
fn u64_from_128_has_a_length_prefix() {
    assert_eq!(rlp_of_u64(0x80), vec![0x81, 0x80]);
    assert_eq!(rlp_of_u64(0xff), vec![0x81, 0xff]);
    assert_eq!(rlp_of_u64(0x0100), vec![0x82, 0x01, 0x00]);
    assert_eq!(rlp_of_u64(0x0400), vec![0x82, 0x04, 0x00]);
    assert_eq!(
        rlp_of_u64(u64::MAX),
        vec![0x88, 0xff, 0xff, 0xff, 0xff, 0xff, 0xff, 0xff, 0xff]
    );
}

#[test]
fn u64_agrees_with_the_rlp_crate() {
    let samples: Vec<u64> = vec![
        0,
        1,
        0x7f,
        0x80,
        0xff,
        0x100,
        0xffff,
        0x10000,
        0x00ab_cdef,
        0x0100_0000,
        0xffff_ffff,
        0x1_0000_0000,
        0x00ff_ffff_ffff_ffff,
        0x0100_0000_0000_0000,
        u64::MAX - 1,
        u64::MAX,
    ];
    for n in samples {
        assert_eq!(rlp_of_u64(n), alloy_rlp::encode(n), "{n}");
    }
}

#[test]
fn bytes_single_low_byte_is_itself() {
    assert_eq!(rlp_of_bytes(&[0x00]), vec![0x00]);
    assert_eq!(rlp_of_bytes(&[0x7f]), vec![0x7f]);
}

#[test]
fn bytes_single_high_byte_has_a_prefix() {
    assert_eq!(rlp_of_bytes(&[0x80]), vec![0x81, 0x80]);
}

#[test]
fn bytes_empty_string() {
    assert_eq!(rlp_of_bytes(&[]), vec![0x80]);
}

#[test]
fn bytes_short_and_long_strings() {
    let short = [0x11u8; 55];
    let mut expected = vec![0x80 + 55];
    expected.extend_from_slice(&short);
    assert_eq!(rlp_of_bytes(&short), expected);

    let long = [0x22u8; 56];
    let mut expected = vec![0xb8, 56];
    expected.extend_from_slice(&long);
    assert_eq!(rlp_of_bytes(&long), expected);
}

#[test]
fn bytes_agree_with_the_rlp_crate() {
    for len in [0usize, 1, 2, 31, 32, 33, 55, 56, 57, 73, 255, 256, 257, 70000] {
        let data: Vec<u8> = (0..len).map(|i| (i % 251) as u8).collect();
        assert_eq!(rlp_of_bytes(&data), alloy_rlp::encode(&data[..]), "{len}");
    }
    for byte in [0x00u8, 0x01, 0x7f, 0x80, 0x81, 0xff] {
        assert_eq!(rlp_of_bytes(&[byte]), alloy_rlp::encode(&[byte][..]), "{byte}");
    }
}

#[test]
fn header_exact_values() {
    assert_eq!(header_of(true, 0), vec![0xc0]);
    assert_eq!(header_of(true, 55), vec![0xf7]);
    assert_eq!(header_of(true, 56), vec![0xf8, 56]);
    assert_eq!(header_of(true, 66), vec![0xf8, 0x42]);
    assert_eq!(header_of(false, 32), vec![0xa0]);
    assert_eq!(header_of(false, 73), vec![0xb8, 0x49]);
    assert_eq!(header_of(false, 0x0102), vec![0xb9, 0x01, 0x02]);
    assert_eq!(header_of(true, 0x01_0000), vec![0xfa, 0x01, 0x00, 0x00]);
}

#[test]
fn header_agrees_with_the_rlp_crate() {
    for list in [false, true] {
        for payload_length in [0usize, 1, 54, 55, 56, 255, 256, 65535, 65536, 1 << 24, 1 << 32] {
            let mut expected = Vec::new();
            alloy_rlp::Header { list, payload_length }.encode(&mut expected);
            assert_eq!(header_of(list, payload_length), expected, "{list} {payload_length}");
        }
    }
}

#[test]
fn list_wraps_its_payload() {
    let mut out = vec![0xee];
    encode_list(&[0x01, 0x02, 0x03], &mut out);
    assert_eq!(out, vec![0xee, 0xc3, 0x01, 0x02, 0x03]);
    let items: Vec<u64> = vec![1, 2, 3];
    assert_eq!(out[1..].to_vec(), alloy_rlp::encode(&items));
}

#[test]
fn encoders_append_to_what_is_there() {
    let mut out = vec![0xaa, 0xbb];
    encode_u64(0x0400, &mut out);
    encode_bytes(&[0x80], &mut out);
    encode_header(false, 2, &mut out);
    assert_eq!(out, vec![0xaa, 0xbb, 0x82, 0x04, 0x00, 0x81, 0x80, 0x82]);
}

#[test]
fn fixed_width_big_endian() {
    let mut out = Vec::new();
    push_be_fixed(0x0102, 8, &mut out);
    assert_eq!(out, vec![0, 0, 0, 0, 0, 0, 0x01, 0x02]);

    let mut out = Vec::new();
    push_be_fixed(u64::MAX, 8, &mut out);
    assert_eq!(out, u64::MAX.to_be_bytes().to_vec());

    let mut out = vec![0x99];
    push_be_fixed(10, 32, &mut out);
    let mut expected = vec![0x99];
    expected.extend_from_slice(&[0u8; 31]);
    expected.push(10);
    assert_eq!(out, expected);

    let mut out = Vec::new();
    push_be_fixed(0x0102_0304, 2, &mut out);
    assert_eq!(out, vec![0x03, 0x04]);

    let mut out = Vec::new();
    push_be_fixed(7, 0, &mut out);
    assert_eq!(out, Vec::<u8>::new());
}
