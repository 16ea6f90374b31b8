use hub_mm::pricing::{buy_quote, sell_quote};
use hub_mm::types::HubError;

#[test]
fn scenario_buy_million() {
    let q = buy_quote(1_000_000, 1_000_000, 1000, 30, 5000, 0).unwrap();
    // total fee 3, base effective 997, so the curve sees 1_000_997 base.
    assert_eq!(q.protocol_fee, 1);
    assert_eq!(q.to_treasury, 999);
    assert_eq!(q.v_base_new, 1_000_997);
    assert_eq!(q.v_token_new, 999_003);
    assert_eq!(q.token_out, 997);
}

#[test]
fn scenario_sell_million() {
    let q = sell_quote(1_000_000, 1_000_000, 1000, 30, 5000, 0).unwrap();
    // gross base out 1000, total fee 3, protocol fee 1.
    assert_eq!(q.v_token_new, 1_001_000);
    assert_eq!(q.v_base_new, 999_000);
    assert_eq!(q.protocol_fee, 1);
    assert_eq!(q.user_base_out, 997);
}

#[test]
fn buy_moves_reserves_strictly() {
    let q = buy_quote(1_000_000, 1_000_000, 1000, 30, 5000, 0).unwrap();
    assert!(q.v_token_new < 1_000_000);
    assert!(q.v_base_new > 1_000_000);
    assert_eq!(q.token_out, 1_000_000 - q.v_token_new);
}

#[test]
fn sell_moves_reserves_strictly() {
    let q = sell_quote(1_000_000, 1_000_000, 1000, 30, 5000, 0).unwrap();
    assert!(q.v_token_new > 1_000_000);
    assert!(q.v_base_new < 1_000_000);
    assert_eq!(q.user_base_out + 3, 1_000_000 - q.v_base_new);
}

#[test]
fn buy_fee_conservation() {
    let q = buy_quote(1_000_000, 1_000_000, 1000, 30, 5000, 0).unwrap();
    assert_eq!(q.protocol_fee + q.to_treasury, 1000);
    let q = buy_quote(123_456_789, 987_654, 54_321, 250, 1234, 0).unwrap();
    assert_eq!(q.protocol_fee + q.to_treasury, 54_321);
}

#[test]
fn sell_fee_conservation() {
    let q = sell_quote(1_000_000, 1_000_000, 1000, 30, 5000, 0).unwrap();
    let gross = 1_000_000 - q.v_base_new;
    let total_fee = gross * 30 / 10_000;
    assert!(q.protocol_fee <= total_fee);
    assert_eq!(q.protocol_fee + q.user_base_out + (total_fee - q.protocol_fee), gross);
}

#[test]
fn full_fee_buy_rejected_zero_output() {
    assert_eq!(buy_quote(1_000_000, 1_000_000, 1000, 10_000, 5000, 0), Err(HubError::ZeroOut));
    assert_eq!(buy_quote(5, 5, 1, 10_000, 0, 0), Err(HubError::ZeroOut));
}

#[test]
fn buy_slippage_guard() {
    assert_eq!(
        buy_quote(1_000_000, 1_000_000, 1000, 30, 5000, 998),
        Err(HubError::SlippageExceeded)
    );
    assert!(buy_quote(1_000_000, 1_000_000, 1000, 30, 5000, 997).is_ok());
}

#[test]
fn sell_slippage_guard() {
    assert_eq!(
        sell_quote(1_000_000, 1_000_000, 1000, 30, 5000, 998),
        Err(HubError::SlippageExceeded)
    );
    assert!(sell_quote(1_000_000, 1_000_000, 1000, 30, 5000, 997).is_ok());
}

#[test]
fn buy_overflow_on_curve_constant() {
    assert_eq!(buy_quote(u128::MAX, 2, 1000, 30, 5000, 0), Err(HubError::MathOverflow));
}

#[test]
fn sell_overflow_on_token_reserve() {
    assert_eq!(sell_quote(1, u128::MAX, 1, 30, 5000, 0), Err(HubError::MathOverflow));
}

#[test]
fn round_trip_with_fee_loses_base() {
    // Buy 1000 base, then sell back every token received.
    let q1 = buy_quote(1_000_000, 1_000_000, 1000, 30, 5000, 0).unwrap();
    let q2 = sell_quote(
        q1.v_base_new,
        q1.v_token_new,
        q1.token_out as u64,
        30,
        5000,
        0,
    )
    .unwrap();
    assert!(q2.user_base_out < 1000);
}

#[test]
fn round_trip_without_fee_dust_free_is_even() {
    // 1000 * 1000 / (1000 + 1000) divides exactly, so a fee-free round trip
    // returns both the reserves and the trader's base in full.
    let q1 = buy_quote(1000, 1000, 1000, 0, 0, 0).unwrap();
    assert_eq!(q1.v_base_new, 2000);
    assert_eq!(q1.v_token_new, 500);
    assert_eq!(q1.token_out, 500);
    let q2 = sell_quote(q1.v_base_new, q1.v_token_new, 500, 0, 0, 0).unwrap();
    assert_eq!(q2.v_base_new, 1000);
    assert_eq!(q2.v_token_new, 1000);
    assert_eq!(q2.user_base_out, 1000);
}

#[test]
fn extreme_buy_that_would_empty_token_reserve_rejected() {
    // The curve constant (5) no longer covers the grown base reserve (10), so
    // the floored new token reserve would be 0; the quote is rejected before
    // any state mutation and the reserves stay positive.
    assert_eq!(buy_quote(1, 5, 9, 0, 0, 0), Err(HubError::ZeroOut));
    // One unit less and the token reserve survives with exactly one unit.
    let q = buy_quote(1, 5, 4, 0, 0, 0).unwrap();
    assert_eq!(q.v_base_new, 5);
    assert_eq!(q.v_token_new, 1);
    assert_eq!(q.token_out, 4);
}

#[test]
fn extreme_sell_that_would_empty_base_reserve_rejected() {
    // Symmetrically, a sell whose floored new base reserve would be 0 is
    // rejected before any state mutation.
    assert_eq!(sell_quote(5, 1, 9, 0, 0, 0), Err(HubError::ZeroOut));
    let q = sell_quote(5, 1, 4, 0, 0, 0).unwrap();
    assert_eq!(q.v_token_new, 5);
    assert_eq!(q.v_base_new, 1);
    assert_eq!(q.user_base_out, 4);
}

#[test]
fn round_trip_with_dust_can_favor_trader() {
    // The buy's floor division rounds the token reserve down, handing the
    // rounding dust to the trader; on a tiny curve the round trip then comes
    // out ahead even with a positive fee rate, which is why the monotonic
    // loss law is proved only for dust-free buys.
    let q1 = buy_quote(10, 10, 3, 1, 0, 0).unwrap();
    assert_eq!(q1.token_out, 3);
    let q2 = sell_quote(q1.v_base_new, q1.v_token_new, 3, 1, 0, 0).unwrap();
    assert_eq!(q2.user_base_out, 4);
}

#[test]
fn zero_fee_buy_charges_nothing_to_protocol() {
    let q = buy_quote(1_000_000, 1_000_000, 1000, 0, 10_000, 0).unwrap();
    assert_eq!(q.protocol_fee, 0);
    assert_eq!(q.to_treasury, 1000);
    assert_eq!(q.v_base_new, 1_001_000);
}
