use ore_hq_client::decimal::{format_amount, scale};

#[test]
fn quarter_token() {
    assert_eq!(format_amount(false, 250_000, 6), "0.25");
}

#[test]
fn whole_tokens_have_no_point() {
    assert_eq!(format_amount(false, 0, 6), "0");
    assert_eq!(format_amount(false, 1_000_000, 6), "1");
    assert_eq!(format_amount(false, 42_000_000, 6), "42");
    assert_eq!(format_amount(false, 123, 0), "123");
}

#[test]
fn fraction_keeps_leading_zeros_and_drops_trailing_ones() {
    assert_eq!(format_amount(false, 5, 6), "0.000005");
    assert_eq!(format_amount(false, 1_500_000, 6), "1.5");
    assert_eq!(format_amount(false, 1_000_001, 6), "1.000001");
    assert_eq!(format_amount(false, 120_030, 4), "12.003");
    assert_eq!(format_amount(false, 10, 1), "1");
    assert_eq!(format_amount(false, 11, 1), "1.1");
}

#[test]
fn negative_amounts() {
    assert_eq!(format_amount(true, 250_000, 6), "-0.25");
    assert_eq!(format_amount(true, 3_000_000, 6), "-3");
    assert_eq!(format_amount(true, 0, 6), "0");
}

#[test]
fn extreme_amounts() {
    assert_eq!(format_amount(false, u64::MAX, 0), "18446744073709551615");
    assert_eq!(format_amount(false, u64::MAX, 19), "1.8446744073709551615");
    assert_eq!(format_amount(false, u64::MAX, 20), "0.18446744073709551615");
    assert_eq!(format_amount(false, 1, 25), "0.0000000000000000000000001");
    assert_eq!(format_amount(false, 10_000_000_000_000_000_000, 19), "1");
    assert_eq!(format_amount(false, 100, 255).len(), 2 + 253);
}

#[test]
fn scale_is_a_power_of_ten_while_it_fits() {
    assert_eq!(scale(0), Some(1));
    assert_eq!(scale(1), Some(10));
    assert_eq!(scale(6), Some(1_000_000));
    assert_eq!(scale(19), Some(10_000_000_000_000_000_000));
    assert_eq!(scale(20), None);
    assert_eq!(scale(255), None);
}
