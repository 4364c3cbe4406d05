use escrow_contract::amount::parse_amount;
use escrow_contract::contract::EscrowContract;
use escrow_contract::types::{Address, Env};

fn contract() -> EscrowContract {
    let alice = Address::from([0x01; 20]);
    let env = Env { caller: alice, block_timestamp: 0, block_number: 0 };
    EscrowContract::new(env, Address::from([0x01; 20]), Address::from([0x02; 20]))
}

#[test]
fn test_parse_amount_edge_cases() {
    let contract = contract();

    let zero = contract.parse_amount_to_base_units("0");
    assert_eq!(zero, Ok(0));

    let small = contract.parse_amount_to_base_units("0.000001");
    assert_eq!(small, Ok(1));

    let large = contract.parse_amount_to_base_units("1000000");
    assert_eq!(large, Ok(1_000_000_000_000));
}

#[test]
fn test_parse_amount_empty_string() {
    let contract = contract();

    let result = contract.parse_amount_to_base_units("");
    assert!(result.is_err());

    let result = contract.parse_amount_to_base_units("   ");
    assert!(result.is_err());
}

#[test]
fn test_parse_amount_invalid_format() {
    let contract = contract();

    let result = contract.parse_amount_to_base_units("100.50.25");
    assert!(result.is_err());

    let result = contract.parse_amount_to_base_units("abc.50");
    assert!(result.is_err());

    let result = contract.parse_amount_to_base_units("100.xyz");
    assert!(result.is_err());
}

#[test]
fn test_parse_amount_fractional_truncation() {
    let contract = contract();

    let result = contract.parse_amount_to_base_units("100.123456789");
    assert!(result.is_ok());
    assert_eq!(result, Ok(100_123_456));
}

#[test]
fn test_excess_digits_are_dropped_not_rounded() {
    assert_eq!(parse_amount("1.1234567", 6), Ok(1_123_456));
    assert_eq!(parse_amount("1.1234567", 6), parse_amount("1.123456", 6));
    assert_eq!(parse_amount("0.9999999", 6), Ok(999_999));
    assert_eq!(parse_amount("1.99", 0), Ok(1));
    assert_eq!(parse_amount("1.5", 0), parse_amount("1", 0));
}

#[test]
fn test_amounts_within_the_decimals_are_exact() {
    assert_eq!(parse_amount("123", 6), Ok(123_000_000));
    assert_eq!(parse_amount("123.45", 6), Ok(123_450_000));
    assert_eq!(parse_amount("100.50", 6), Ok(100_500_000));
    assert_eq!(parse_amount("0.000001", 6), Ok(1));
    assert_eq!(parse_amount("123.456789", 6), Ok(123_456_789));
    assert_eq!(parse_amount("7", 0), Ok(7));
    assert_eq!(parse_amount("1", 18), Ok(1_000_000_000_000_000_000));
    assert_eq!(parse_amount("0.5", 1), Ok(5));
}

#[test]
fn test_leading_zeros_and_bare_dots() {
    assert_eq!(parse_amount("000123", 6), Ok(123_000_000));
    assert_eq!(parse_amount("00.50", 2), Ok(50));
    assert_eq!(parse_amount(".5", 6), Ok(500_000));
    assert_eq!(parse_amount("5.", 6), Ok(5_000_000));
    assert_eq!(parse_amount(".", 6), Ok(0));
    assert_eq!(parse_amount(".", 0), Ok(0));
    assert_eq!(parse_amount("0", 255), Ok(0));
}

#[test]
fn test_whitespace_around_an_amount_is_ignored() {
    assert_eq!(parse_amount("  12.5 ", 2), Ok(1250));
    assert_eq!(parse_amount("\t12.5\n", 2), Ok(1250));
    assert_eq!(parse_amount("\u{a0}12.5\u{3000}", 2), Ok(1250));
    assert_eq!(parse_amount("12 .5", 2), Err(()));
    assert_eq!(parse_amount("1 2", 2), Err(()));
}

#[test]
fn test_malformed_amounts_are_refused() {
    assert_eq!(parse_amount("", 6), Err(()));
    assert_eq!(parse_amount("-1", 6), Err(()));
    assert_eq!(parse_amount("+1", 6), Err(()));
    assert_eq!(parse_amount("1,5", 6), Err(()));
    assert_eq!(parse_amount("1e3", 6), Err(()));
    assert_eq!(parse_amount("1..5", 6), Err(()));
    assert_eq!(parse_amount("..", 6), Err(()));
    assert_eq!(parse_amount("1.5.", 6), Err(()));
    assert_eq!(parse_amount("١٢٣", 6), Err(()));
    assert_eq!(parse_amount("12é", 6), Err(()));
    assert_eq!(parse_amount("1.2x", 6), Err(()));
}

#[test]
fn test_amounts_beyond_128_bits_are_refused() {
    let max = "340282366920938463463374607431768211455";
    assert_eq!(parse_amount(max, 0), Ok(u128::MAX));
    assert_eq!(parse_amount("340282366920938463463374607431768211456", 0), Err(()));
    assert_eq!(parse_amount("3402823669209384634633746074317682114550", 0), Err(()));
    assert_eq!(parse_amount(max, 1), Err(()));
    assert_eq!(parse_amount("34028236692093846346337460743176821145.5", 1), Ok(u128::MAX));
    assert_eq!(parse_amount("34028236692093846346337460743176821145.6", 1), Err(()));
    assert_eq!(parse_amount("1", 39), Err(()));
    assert_eq!(parse_amount("1", 38), Ok(100_000_000_000_000_000_000_000_000_000_000_000_000));
    assert_eq!(parse_amount("0.1", 255), Err(()));
}

#[test]
fn test_amounts_follow_the_decimals_of_the_token() {
    let mut contract = contract();
    assert_eq!(contract.parse_amount_to_base_units("1.5"), Ok(1_500_000));
    contract.token_decimals = 2;
    assert_eq!(contract.parse_amount_to_base_units("1.5"), Ok(150));
    contract.token_decimals = 0;
    assert_eq!(contract.parse_amount_to_base_units("1.5"), Ok(1));
}
