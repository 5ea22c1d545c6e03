use tenda_escrow::utils::calculate_platform_fee;

#[test]
fn test_calculate_platform_fee() {
    // 2% of 1 SOL (1_000_000_000 lamports)
    let fee = calculate_platform_fee(1_000_000_000, 200).unwrap();
    assert_eq!(fee, 20_000_000); // 0.02 SOL

    // 5% of 0.5 SOL (500_000_000 lamports)
    let fee = calculate_platform_fee(500_000_000, 500).unwrap();
    assert_eq!(fee, 25_000_000); // 0.025 SOL
}

#[test]
fn platform_fee_rounds_down() {
    assert_eq!(calculate_platform_fee(9_999, 1).unwrap(), 0);
    assert_eq!(calculate_platform_fee(10_001, 3).unwrap(), 3);
    assert_eq!(calculate_platform_fee(0, 1_000).unwrap(), 0);
}

#[test]
fn platform_fee_never_overflows_in_128_bits() {
    // u64::MAX * 10_000 / 10_000 == u64::MAX
    assert_eq!(calculate_platform_fee(u64::MAX, 10_000).unwrap(), u64::MAX);
    // above 100% the 64-bit result wraps: (u64::MAX * 20_000 / 10_000) mod 2^64
    let expected = ((u64::MAX as u128 * 20_000 / 10_000) as u64) as u64;
    assert_eq!(calculate_platform_fee(u64::MAX, 20_000).unwrap(), expected);
}
