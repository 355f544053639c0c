use silius_cli::{
    parse_address, parse_address_list, parse_send_bundle_mode, parse_u256, parse_uopool_mode,
    ConfigError, Field, SendBundleMode, UoPoolMode,
};

#[test]
fn address_with_prefix_is_accepted() {
    let a = parse_address("0xaabbccddeeff00112233445566778899aabbccdd").unwrap();
    assert_eq!(
        a.bytes,
        vec![
            0xaa, 0xbb, 0xcc, 0xdd, 0xee, 0xff, 0x00, 0x11, 0x22, 0x33, 0x44, 0x55, 0x66, 0x77,
            0x88, 0x99, 0xaa, 0xbb, 0xcc, 0xdd
        ]
    );
}

#[test]
fn address_without_prefix_is_accepted() {
    let a = parse_address("0000000000000000000000000000000000000001").unwrap();
    let mut expected = vec![0u8; 20];
    expected[19] = 1;
    assert_eq!(a.bytes, expected);
}

#[test]
fn address_mixed_case_is_accepted() {
    let a = parse_address("0x5FF137D4b0FDCD49DcA30c7CF57E578a026d2789").unwrap();
    assert_eq!(a.bytes[0], 0x5f);
    assert_eq!(a.bytes[19], 0x89);
}

#[test]
fn address_wrong_length_is_rejected() {
    assert!(parse_address("0xaabb").is_err());
    assert!(parse_address("").is_err());
    assert!(parse_address("0x").is_err());
    // 39 digits
    assert!(parse_address("0xaabbccddeeff00112233445566778899aabbccd").is_err());
    // 41 digits
    assert!(parse_address("0xaabbccddeeff00112233445566778899aabbccdd0").is_err());
}

#[test]
fn address_bad_digit_is_rejected() {
    assert!(parse_address("0xgabbccddeeff00112233445566778899aabbccdd").is_err());
    assert!(parse_address("0x aabbccddeeff00112233445566778899aabbccd").is_err());
}

#[test]
fn address_list_splits_on_commas() {
    let l = parse_address_list(
        "0x0000000000000000000000000000000000000001,0x0000000000000000000000000000000000000002",
    )
    .unwrap();
    assert_eq!(l.len(), 2);
    assert_eq!(l[0].bytes[19], 1);
    assert_eq!(l[1].bytes[19], 2);
}

#[test]
fn address_list_rejects_bad_segment() {
    assert!(parse_address_list("0x0000000000000000000000000000000000000001,").is_err());
    assert!(parse_address_list("").is_err());
    assert!(parse_address_list("0x0000000000000000000000000000000000000001,xyz").is_err());
}

#[test]
fn u256_small_values() {
    assert_eq!(parse_u256("0").unwrap().limbs, [0, 0, 0, 0]);
    assert_eq!(parse_u256("1").unwrap().limbs, [1, 0, 0, 0]);
    assert_eq!(parse_u256("1337").unwrap().limbs, [1337, 0, 0, 0]);
}

#[test]
fn u256_crosses_limb_boundary() {
    // 2^64 occupies exactly the second limb
    assert_eq!(parse_u256("18446744073709551616").unwrap().limbs, [0, 1, 0, 0]);
    // 2^64 - 1 fills the first limb
    assert_eq!(
        parse_u256("18446744073709551615").unwrap().limbs,
        [u64::MAX, 0, 0, 0]
    );
}

#[test]
fn u256_accepts_maximum_value() {
    let max =
        "115792089237316195423570985008687907853269984665640564039457584007913129639935";
    assert_eq!(parse_u256(max).unwrap().limbs, [u64::MAX; 4]);
}

#[test]
fn u256_rejects_value_above_maximum() {
    let above =
        "115792089237316195423570985008687907853269984665640564039457584007913129639936";
    assert_eq!(parse_u256(above), Err(ConfigError::InvalidValue(Field::Chain)));
}

#[test]
fn u256_leading_zeros_are_digits() {
    assert_eq!(parse_u256("007").unwrap().limbs, [7, 0, 0, 0]);
}

#[test]
fn u256_rejects_non_digit_strings() {
    assert!(parse_u256("").is_err());
    assert!(parse_u256("+1").is_err());
    assert!(parse_u256("-1").is_err());
    assert!(parse_u256("1_000").is_err());
    assert!(parse_u256("0x10").is_err());
    assert!(parse_u256(" 1").is_err());
    assert!(parse_u256("1e5").is_err());
}

#[test]
fn send_bundle_mode_exact_match_only() {
    assert_eq!(parse_send_bundle_mode("eth-client"), Ok(SendBundleMode::EthClient));
    assert_eq!(parse_send_bundle_mode("flashbots"), Ok(SendBundleMode::Flashbots));
    assert!(parse_send_bundle_mode("ETH-CLIENT").is_err());
    assert!(parse_send_bundle_mode("eth_client").is_err());
    assert!(parse_send_bundle_mode("").is_err());
}

#[test]
fn uopool_mode_exact_match_only() {
    assert_eq!(parse_uopool_mode("standard"), Ok(UoPoolMode::Standard));
    assert_eq!(parse_uopool_mode("unsafe"), Ok(UoPoolMode::Unsafe));
    assert!(parse_uopool_mode("Standard").is_err());
    assert!(parse_uopool_mode("UNSAFE").is_err());
}
