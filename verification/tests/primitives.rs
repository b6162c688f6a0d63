use interop_proof::primitives::{hash_bytes, Hash256};

fn hex_word(hex: &str) -> Hash256 {
    let mut bytes = [0u8; 32];
    for i in 0..32 {
        bytes[i] = u8::from_str_radix(&hex[2 * i..2 * i + 2], 16).unwrap();
    }
    Hash256::new(bytes)
}

#[test]
fn hash_of_the_empty_string() {
    assert_eq!(
        hash_bytes(&[]),
        hex_word("c5d2460186f7233c927e7db2dcc703c0e500b653ca82273b7bfad8045d85a470")
    );
}

#[test]
fn hash_agrees_with_the_hashing_crate() {
    for len in [0usize, 1, 32, 73, 135, 136, 137, 149, 1000] {
        let data: Vec<u8> = (0..len).map(|i| (i * 7 % 256) as u8).collect();
        assert_eq!(hash_bytes(&data).bytes, alloy_primitives::keccak256(&data).0, "{len}");
    }
}

#[test]
fn hash_does_not_hand_its_input_back() {
    let data = [0x11u8; 32];
    assert_ne!(hash_bytes(&data).bytes, data);
    assert_ne!(hash_bytes(&data), hash_bytes(&[0x12u8; 32]));
}

#[test]
fn words_compare_by_their_bytes() {
    let a = Hash256::new([7u8; 32]);
    let b = Hash256::new([7u8; 32]);
    let mut other = [7u8; 32];
    other[31] = 8;
    let c = Hash256::new(other);
    let mut first = [7u8; 32];
    first[0] = 0;
    let d = Hash256::new(first);
    assert!(a == b);
    assert!(a != c);
    assert!(a != d);
    assert_eq!(a.bytes, [7u8; 32]);
}
