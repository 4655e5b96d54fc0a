use channel_consumption::utils::hashing::append_bytes;
use channel_consumption::utils::primitives::{all_zero, same_bytes, Address, U256};

#[test]
fn word_of_a_small_number() {
    let mut expected = [0u8; 32];
    expected[31] = 7;
    assert_eq!(U256::from_u64(7), U256(expected));
    assert_eq!(U256::from_u64(0), U256([0u8; 32]));
    assert_eq!(U256::zero(), U256([0u8; 32]));
}

#[test]
fn word_of_a_large_number() {
    let mut expected = [0u8; 32];
    expected[24] = 0x01;
    expected[25] = 0x23;
    expected[26] = 0x45;
    expected[27] = 0x67;
    expected[28] = 0x89;
    expected[29] = 0xab;
    expected[30] = 0xcd;
    expected[31] = 0xef;
    assert_eq!(U256::from_u64(0x0123_4567_89ab_cdef), U256(expected));

    let mut top = [0u8; 32];
    for byte in top.iter_mut().skip(24) {
        *byte = 0xff;
    }
    assert_eq!(U256::from_u64(u64::MAX), U256(top));
}

#[test]
fn word_agrees_with_the_integer_crate() {
    let samples: [u64; 5] = [0, 1, 255, 256, 1_700_000_000];
    for x in samples {
        let expected: [u8; 32] = alloy_primitives::U256::from(x).to_be_bytes();
        assert_eq!(U256::from_u64(x).0, expected);
    }
}

#[test]
fn zero_address() {
    assert!(Address::zero().is_zero());
    assert_eq!(Address::zero(), Address([0u8; 20]));
    let mut bytes = [0u8; 20];
    bytes[0] = 1;
    assert!(!Address(bytes).is_zero());
    let mut bytes = [0u8; 20];
    bytes[19] = 1;
    assert!(!Address(bytes).is_zero());
}

#[test]
fn addresses_compare_by_bytes() {
    let a = Address([3u8; 20]);
    let mut other = [3u8; 20];
    assert!(a.same_as(&Address(other)));
    other[19] = 4;
    assert!(!a.same_as(&Address(other)));
    other[19] = 3;
    other[0] = 4;
    assert!(!a.same_as(&Address(other)));
}

#[test]
fn byte_strings_compare() {
    assert!(same_bytes(&[], &[]));
    assert!(same_bytes(&[1, 2, 3], &[1, 2, 3]));
    assert!(!same_bytes(&[1, 2, 3], &[1, 2]));
    assert!(!same_bytes(&[1, 2, 3], &[1, 2, 4]));
    assert!(!same_bytes(&[0, 2, 3], &[1, 2, 3]));
}

#[test]
fn zero_strings() {
    assert!(all_zero(&[]));
    assert!(all_zero(&[0, 0, 0]));
    assert!(!all_zero(&[0, 0, 1]));
    assert!(!all_zero(&[1, 0, 0]));
}

#[test]
fn bytes_are_appended_in_order() {
    let mut out: Vec<u8> = vec![9];
    append_bytes(&mut out, &[1, 2, 3]);
    append_bytes(&mut out, &[]);
    append_bytes(&mut out, &[4]);
    assert_eq!(out, vec![9, 1, 2, 3, 4]);
}
