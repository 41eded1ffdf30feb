use blink_engine::convert::lamports_from_usd_cents;
use blink_engine::parse::parse_lamports;
use blink_engine::parse::parse_sol_to_lamports;
use blink_engine::convert::sol_display_hundredths;
use blink_engine::convert::usd_cents_from_lamports;
use blink_engine::get_blockchain_id;
use blink_engine::nft::buy_print_total;
use blink_engine::nft::resolved_minimum_bid;
use blink_engine::split::calculate_payment_shares;
use blink_engine::strutil::format_2dp;
use blink_engine::strutil::i64_to_string;
use blink_engine::strutil::str_eq;
use blink_engine::strutil::str_starts_with;
use blink_engine::strutil::u64_to_string;
use blink_engine::DEVNET_BLOCKCHAIN_ID;
use blink_engine::MAINNET_BLOCKCHAIN_ID;

#[test]
fn blockchain_id_by_network() {
    assert_eq!(get_blockchain_id("mainnet"), MAINNET_BLOCKCHAIN_ID);
    assert_eq!(get_blockchain_id("devnet"), DEVNET_BLOCKCHAIN_ID);
    assert_eq!(get_blockchain_id("localnet"), DEVNET_BLOCKCHAIN_ID);
}

#[test]
fn string_helpers() {
    assert!(str_eq("abc", "abc"));
    assert!(!str_eq("abc", "abd"));
    assert!(!str_eq("abc", "ab"));
    assert!(str_starts_with("video/mp4", "video"));
    assert!(!str_starts_with("vid", "video"));
    assert_eq!(u64_to_string(0), "0");
    assert_eq!(u64_to_string(1234567890), "1234567890");
    assert_eq!(i64_to_string(-42), "-42");
    assert_eq!(i64_to_string(7), "7");
    assert_eq!(format_2dp(5), "0.05");
    assert_eq!(format_2dp(3500), "35.00");
    assert_eq!(format_2dp(36), "0.36");
}

// Splitting beneficiaries preserves the total exactly: no rounding
// loss or gain, and repeated recipients are merged.
#[test]
fn split_preserves_total() {
    let input = vec![
        ("alice".to_string(), 100i64),
        ("bob".to_string(), 250i64),
        ("alice".to_string(), 50i64),
    ];
    let split = calculate_payment_shares(&input).unwrap();
    let total: u64 = split.entries.iter().map(|e| e.1).sum();
    assert_eq!(total, 400);
    assert_eq!(split.entries.len(), 2);
    assert_eq!(split.entries[0], ("alice".to_string(), 150));
    assert_eq!(split.entries[1], ("bob".to_string(), 250));
}

#[test]
fn split_rejects_negative_amount() {
    let input = vec![("alice".to_string(), 100i64), ("bob".to_string(), -1i64)];
    assert!(calculate_payment_shares(&input).is_err());
}

#[test]
fn split_of_empty_list_is_empty() {
    let input: Vec<(String, i64)> = vec![];
    let split = calculate_payment_shares(&input).unwrap();
    assert!(split.entries.is_empty());
}

// Scenario: selling price 2000 cents, shipping surcharge 1500 cents,
// rate 100 fiat units per token: total = 3500 cents * 1.02e9 / 10000
// cents-per-token = 0.357 token = 357_000_000 base units.
#[test]
fn conversion_applies_slippage_buffer() {
    assert_eq!(lamports_from_usd_cents(3500, 10_000), 357_000_000);
}

#[test]
fn conversion_degrades_to_zero_on_zero_rate() {
    assert_eq!(lamports_from_usd_cents(3500, 0), 0);
}

#[test]
fn display_conversions() {
    assert_eq!(sol_display_hundredths(357_000_000), 36);
    assert_eq!(sol_display_hundredths(500_000_000), 50);
    assert_eq!(usd_cents_from_lamports(500_000_000, 10_000), 5_000);
}

// Scenario: auction with no bids and a zero reserve price resolves the
// minimum bid to exactly 0.1 token.
#[test]
fn minimum_bid_floor() {
    assert_eq!(resolved_minimum_bid(None, 0), 100_000_000);
}

#[test]
fn minimum_bid_from_reserve_and_highest() {
    assert_eq!(resolved_minimum_bid(None, 250_000_000), 250_000_000);
    assert_eq!(resolved_minimum_bid(Some(300_000_000), 0), 310_000_000);
}

// Scenario: master edition priced 500000000 base units with a tied
// merch product whose platform share is 300 cents, at rate 100:
// total = 500000000 + 300 * 1e7 * 1.02 / 100 = 530_600_000.
#[test]
fn buy_print_total_with_merch_product() {
    assert_eq!(buy_print_total(500_000_000, Some(300), 10_000), 530_600_000);
}

#[test]
fn buy_print_total_without_merch_product() {
    assert_eq!(buy_print_total(500_000_000, None, 10_000), 500_000_000);
}

#[test]
fn parse_base_unit_amounts() {
    assert_eq!(parse_lamports("500000000"), 500_000_000);
    assert_eq!(parse_lamports("0"), 0);
    assert_eq!(parse_lamports("18446744073709551615"), u64::MAX);
    assert_eq!(parse_lamports(""), 0);
    assert_eq!(parse_lamports("12x"), 0);
    assert_eq!(parse_lamports("-5"), 0);
    assert_eq!(parse_lamports("99999999999999999999999"), 0);
}

#[test]
fn parse_decimal_token_amounts() {
    assert_eq!(parse_sol_to_lamports("0.1"), 100_000_000);
    assert_eq!(parse_sol_to_lamports("0"), 0);
    assert_eq!(parse_sol_to_lamports("2"), 2_000_000_000);
    assert_eq!(parse_sol_to_lamports("1.5"), 1_500_000_000);
    assert_eq!(parse_sol_to_lamports("1."), 1_000_000_000);
    assert_eq!(parse_sol_to_lamports("0.123456789123"), 123_456_789);
    assert_eq!(parse_sol_to_lamports("1.2.3"), 0);
    assert_eq!(parse_sol_to_lamports(".5"), 0);
    assert_eq!(parse_sol_to_lamports("abc"), 0);
    assert_eq!(parse_sol_to_lamports(""), 0);
}
