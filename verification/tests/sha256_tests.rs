use sha256::add;
use sha256::pad_message;
use sha256::sha256;
use sha256::H256;
use sha256::K32;

#[test]
fn it_works() {
    let hash = sha256(&[0x61, 0x62, 0x63]).unwrap();
    println!("{hash:?}");
}

#[test]
fn empty_digest_matches_standard() {
    let digest = sha256(b"").unwrap();
    let expected: Vec<u8> = vec![
        0xe3, 0xb0, 0xc4, 0x42, 0x98, 0xfc, 0x1c, 0x14, 0x9a, 0xfb, 0xf4, 0xc8, 0x99, 0x6f, 0xb9,
        0x24, 0x27, 0xae, 0x41, 0xe4, 0x64, 0x9b, 0x93, 0x4c, 0xa4, 0x95, 0x99, 0x1b, 0x78, 0x52,
        0xb8, 0x55,
    ];
    assert_eq!(digest, expected);
}

#[test]
fn abc_digest_matches_standard() {
    let digest = sha256(b"abc").unwrap();
    let expected: Vec<u8> = vec![
        0xba, 0x78, 0x16, 0xbf, 0x8f, 0x01, 0xcf, 0xea, 0x41, 0x41, 0x40, 0xde, 0x5d, 0xae, 0x22,
        0x23, 0xb0, 0x03, 0x61, 0xa3, 0x96, 0x17, 0x7a, 0x9c, 0xb4, 0x10, 0xff, 0x61, 0xf2, 0x00,
        0x15, 0xad,
    ];
    assert_eq!(digest, expected);
}

#[test]
fn padded_length_multiple_of_64_for_all_lengths_to_200() {
    for len in 0..=200usize {
        let message = vec![0xabu8; len];
        let padded = pad_message(&message);
        assert_eq!(padded.len() % 64, 0);
        assert!(padded.len() > len);
    }
}

#[test]
fn padding_of_abc_is_one_exact_block() {
    let padded = pad_message(b"abc");
    let mut expected = vec![0x61u8, 0x62, 0x63, 0x80];
    expected.resize(63, 0x00);
    expected.push(0x18); // 3 bytes is 24 bits
    assert_eq!(padded, expected);
}

#[test]
fn repeated_calls_are_byte_identical() {
    let message = b"determinism check input";
    let first = sha256(message).unwrap();
    let second = sha256(message).unwrap();
    assert_eq!(first, second);
}

#[test]
fn single_bit_flip_changes_roughly_half_the_output_bits() {
    let digest_a = sha256(&[0x61, 0x62, 0x63]).unwrap();
    let digest_b = sha256(&[0x60, 0x62, 0x63]).unwrap();
    let mut differing_bits = 0u32;
    for (x, y) in digest_a.iter().zip(digest_b.iter()) {
        differing_bits += (x ^ y).count_ones();
    }
    // A loose sanity band around half of the 256 output bits.
    assert!(differing_bits >= 64, "only {differing_bits} bits changed");
    assert!(differing_bits <= 192, "{differing_bits} bits changed");
}

#[test]
fn boundary_length_55_matches_standard() {
    let digest = sha256(&vec![0x61u8; 55]).unwrap();
    let expected: Vec<u8> = vec![
        0x9f, 0x43, 0x90, 0xf8, 0xd3, 0x0c, 0x2d, 0xd9, 0x2e, 0xc9, 0xf0, 0x95, 0xb6, 0x5e, 0x2b,
        0x9a, 0xe9, 0xb0, 0xa9, 0x25, 0xa5, 0x25, 0x8e, 0x24, 0x1c, 0x9f, 0x1e, 0x91, 0x0f, 0x73,
        0x43, 0x18,
    ];
    assert_eq!(digest, expected);
}

#[test]
fn boundary_length_56_matches_standard() {
    let digest = sha256(&vec![0x61u8; 56]).unwrap();
    let expected: Vec<u8> = vec![
        0xb3, 0x54, 0x39, 0xa4, 0xac, 0x6f, 0x09, 0x48, 0xb6, 0xd6, 0xf9, 0xe3, 0xc6, 0xaf, 0x0f,
        0x5f, 0x59, 0x0c, 0xe2, 0x0f, 0x1b, 0xde, 0x70, 0x90, 0xef, 0x79, 0x70, 0x68, 0x6e, 0xc6,
        0x73, 0x8a,
    ];
    assert_eq!(digest, expected);
}

#[test]
fn boundary_length_57_matches_standard() {
    let digest = sha256(&vec![0x61u8; 57]).unwrap();
    let expected: Vec<u8> = vec![
        0xf1, 0x3b, 0x2d, 0x72, 0x46, 0x59, 0xeb, 0x3b, 0xf4, 0x7f, 0x2d, 0xd6, 0xaf, 0x1a, 0xcc,
        0xc8, 0x7b, 0x81, 0xf0, 0x9f, 0x59, 0xf2, 0xb7, 0x5e, 0x5c, 0x0b, 0xed, 0x65, 0x89, 0xdf,
        0xe8, 0xc6,
    ];
    assert_eq!(digest, expected);
}

#[test]
fn long_multiblock_input_matches_reference() {
    let mut message = Vec::with_capacity(1000);
    for i in 0..1000usize {
        message.push((i % 256) as u8);
    }
    let digest = sha256(&message).unwrap();
    let expected: Vec<u8> = vec![
        0xa8, 0xaf, 0x09, 0x9b, 0xf2, 0xe8, 0x78, 0x60, 0x95, 0x58, 0xdb, 0xf6, 0x9d, 0x8f, 0x88,
        0xf4, 0xa3, 0x10, 0x40, 0xa8, 0xcf, 0x84, 0xb5, 0x49, 0xa0, 0xcf, 0xa9, 0x12, 0xf1, 0x2f,
        0xfc, 0x3f,
    ];
    assert_eq!(digest, expected);
}

#[test]
fn digest_is_always_32_bytes() {
    for len in [0usize, 1, 63, 64, 65, 128, 200] {
        let message = vec![0x5au8; len];
        assert_eq!(sha256(&message).unwrap().len(), 32);
    }
}

#[test]
fn standard_tables_keep_their_values() {
    assert_eq!(H256[0], 0x6a09e667);
    assert_eq!(H256[7], 0x5be0cd19);
    assert_eq!(K32[0], 0x428a2f98);
    assert_eq!(K32[31], 0x14292967);
    assert_eq!(K32[63], 0xc67178f2);
    assert_eq!(K32.len(), 64);
    assert_eq!(H256.len(), 8);
}

#[test]
fn add_sums_its_arguments() {
    assert_eq!(add(2, 3), 5);
    assert_eq!(add(0, 0), 0);
}
