use vstd::prelude::*;
use vstd::arithmetic::div_mod::{
    lemma_basic_div, lemma_div_is_ordered_by_denominator, lemma_div_multiples_vanish,
    lemma_div_pos_is_pos, lemma_fundamental_div_mod,
};
use vstd::arithmetic::mul::{lemma_mul_is_commutative, lemma_mul_upper_bound};
use crate::pricing::{
    buy_quote_spec, fee_part, lemma_fee_part_bounds, lemma_product_div_factor, sell_quote_spec,
    BuyQuote, BPS_DENOMINATOR,
};
use crate::types::HubError;

verus! {

/// Every successful buy moves the reserves strictly and by exactly the floor
/// formulas: base enters the curve net of the fee, tokens leave it, and what
/// leaves is precisely the drop of the token reserve.
pub proof fn lemma_buy_moves_reserves(
    v_base: int,
    v_token: int,
    base_in: int,
    fee_bps: int,
    share_bps: int,
    min_token_out: int,
)
    requires
        1 <= v_base,
        1 <= v_token,
        1 <= base_in <= u64::MAX as int,
        0 <= fee_bps <= BPS_DENOMINATOR as int,
        0 <= share_bps <= BPS_DENOMINATOR as int,
    ensures
        ({
            let r = buy_quote_spec(v_base, v_token, base_in, fee_bps, share_bps, min_token_out);
            r matches Ok(q) ==> {
                let base_effective = base_in - fee_part(base_in, fee_bps);
                &&& q.v_base_new == v_base + base_effective
                &&& q.v_base_new > v_base
                &&& q.v_token_new == (v_base * v_token) / (v_base + base_effective)
                &&& q.v_token_new < v_token
                &&& q.token_out == v_token - q.v_token_new
            }
        }),
{
    lemma_fee_part_bounds(base_in, fee_bps);
    let base_effective = base_in - fee_part(base_in, fee_bps);
    let k = v_base * v_token;
    let v_base_new = v_base + base_effective;
    if k <= u128::MAX as int && v_base_new <= u128::MAX as int {
        lemma_div_is_ordered_by_denominator(k, v_base, v_base_new);
        lemma_product_div_factor(v_base, v_token);
        lemma_div_pos_is_pos(k, v_base_new);
        if base_effective == 0 {
            assert(k / v_base_new == v_token);
        }
    }
}

/// Every successful sell moves the reserves strictly and by exactly the floor
/// formulas: the token reserve absorbs the whole gross trade and the base
/// reserve drops by the gross payout.
pub proof fn lemma_sell_moves_reserves(
    v_base: int,
    v_token: int,
    token_in: int,
    fee_bps: int,
    share_bps: int,
    min_base_out: int,
)
    requires
        1 <= v_base,
        1 <= v_token,
        1 <= token_in <= u64::MAX as int,
        0 <= fee_bps <= BPS_DENOMINATOR as int,
        0 <= share_bps <= BPS_DENOMINATOR as int,
    ensures
        ({
            let r = sell_quote_spec(v_base, v_token, token_in, fee_bps, share_bps, min_base_out);
            r matches Ok(q) ==> {
                &&& q.v_token_new == v_token + token_in
                &&& q.v_token_new > v_token
                &&& q.v_base_new == (v_base * v_token) / (v_token + token_in)
                &&& q.v_base_new < v_base
            }
        }),
{
    let k = v_base * v_token;
    let v_token_new = v_token + token_in;
    if k <= u128::MAX as int && v_token_new <= u128::MAX as int {
        lemma_div_is_ordered_by_denominator(k, v_token, v_token_new);
        lemma_product_div_factor(v_token, v_base);
        assert(v_base * v_token == v_token * v_base);
        lemma_div_pos_is_pos(k, v_token_new);
    }
}

/// Fee conservation on a buy: the protocol's cut and the treasury's share
/// partition the trader's input exactly; nothing is created or lost by the
/// split, the treasury simply absorbs the non-protocol portion of the fee.
pub proof fn lemma_buy_fee_conservation(
    v_base: int,
    v_token: int,
    base_in: int,
    fee_bps: int,
    share_bps: int,
    min_token_out: int,
)
    requires
        1 <= v_base,
        1 <= v_token,
        1 <= base_in <= u64::MAX as int,
        0 <= fee_bps <= BPS_DENOMINATOR as int,
        0 <= share_bps <= BPS_DENOMINATOR as int,
    ensures
        ({
            let r = buy_quote_spec(v_base, v_token, base_in, fee_bps, share_bps, min_token_out);
            r matches Ok(q) ==> q.protocol_fee + q.to_treasury == base_in
        }),
{
    lemma_fee_part_bounds(base_in, fee_bps);
    lemma_fee_part_bounds(fee_part(base_in, fee_bps), share_bps);
}

/// Fee conservation on a sell: the protocol's cut, the trader's payout and
/// the residual (non-protocol) fee portion partition the gross base the curve
/// released. The residual is never transferred separately: it stays with the
/// treasury, which pays out only the other two parts.
pub proof fn lemma_sell_fee_conservation(
    v_base: int,
    v_token: int,
    token_in: int,
    fee_bps: int,
    share_bps: int,
    min_base_out: int,
)
    requires
        1 <= v_base,
        1 <= v_token,
        1 <= token_in <= u64::MAX as int,
        0 <= fee_bps <= BPS_DENOMINATOR as int,
        0 <= share_bps <= BPS_DENOMINATOR as int,
    ensures
        ({
            let r = sell_quote_spec(v_base, v_token, token_in, fee_bps, share_bps, min_base_out);
            r matches Ok(q) ==> {
                let gross_base_out = v_base - q.v_base_new;
                let total_fee = fee_part(gross_base_out, fee_bps);
                &&& q.protocol_fee <= total_fee
                &&& q.protocol_fee + q.user_base_out + (total_fee - q.protocol_fee)
                    == gross_base_out
            }
        }),
{
    let k = v_base * v_token;
    let v_token_new = v_token + token_in;
    if k <= u128::MAX as int && v_token_new <= u128::MAX as int {
        lemma_div_is_ordered_by_denominator(k, v_token, v_token_new);
        lemma_product_div_factor(v_token, v_base);
        assert(v_base * v_token == v_token * v_base);
        lemma_div_pos_is_pos(k, v_token_new);
        let gross_base_out = v_base - k / v_token_new;
        lemma_fee_part_bounds(gross_base_out, fee_bps);
        lemma_fee_part_bounds(fee_part(gross_base_out, fee_bps), share_bps);
    }
}

/// The boundary fee rate: a buy at the full basis-point denominator leaves
/// nothing to enter the curve, so the quote is zero and the trade is rejected
/// before any state mutation.
pub proof fn lemma_full_fee_buy_rejected(
    v_base: int,
    v_token: int,
    base_in: int,
    share_bps: int,
    min_token_out: int,
)
    requires
        1 <= v_base <= u128::MAX as int,
        1 <= v_token,
        1 <= base_in,
        0 <= share_bps <= BPS_DENOMINATOR as int,
        v_base * v_token <= u128::MAX as int,
    ensures
        buy_quote_spec(v_base, v_token, base_in, BPS_DENOMINATOR as int, share_bps, min_token_out)
            == Err::<BuyQuote, HubError>(HubError::ZeroOut),
{
    let d = BPS_DENOMINATOR as int;
    lemma_div_multiples_vanish(base_in, d);
    assert(base_in * d == d * base_in);
    assert(fee_part(base_in, d) == base_in);
    lemma_product_div_factor(v_base, v_token);
}

/// Both reserves stay positive across every successful buy: a quote whose
/// floored new token reserve would be empty is rejected with the zero-output
/// error before any state mutation, so the reserves can never become
/// non-positive. A trade is accepted exactly when it also leaves the curve
/// something to quote: the pre-trade curve constant must still cover the
/// grown base reserve.
pub proof fn lemma_buy_reserve_positivity(
    v_base: int,
    v_token: int,
    base_in: int,
    fee_bps: int,
    share_bps: int,
    min_token_out: int,
)
    requires
        1 <= v_base,
        1 <= v_token,
        1 <= base_in <= u64::MAX as int,
        0 <= fee_bps <= BPS_DENOMINATOR as int,
        0 <= share_bps <= BPS_DENOMINATOR as int,
    ensures
        ({
            let r = buy_quote_spec(v_base, v_token, base_in, fee_bps, share_bps, min_token_out);
            let v_base_new = v_base + (base_in - fee_part(base_in, fee_bps));
            r matches Ok(q) ==> {
                &&& q.v_base_new >= 1
                &&& q.v_token_new >= 1
                &&& v_base * v_token >= v_base_new
            }
        }),
{
    lemma_fee_part_bounds(base_in, fee_bps);
    let k = v_base * v_token;
    let v_base_new = v_base + (base_in - fee_part(base_in, fee_bps));
    if k <= u128::MAX as int && v_base_new <= u128::MAX as int {
        lemma_div_pos_is_pos(k, v_base_new);
        if k < v_base_new {
            lemma_basic_div(k, v_base_new);
        }
    }
}

/// Both reserves stay positive across every successful sell: a quote whose
/// floored new base reserve would be empty is rejected with the zero-output
/// error before any state mutation, so the reserves can never become
/// non-positive. A trade is accepted exactly when the pre-trade curve
/// constant still covers the grown token reserve.
pub proof fn lemma_sell_reserve_positivity(
    v_base: int,
    v_token: int,
    token_in: int,
    fee_bps: int,
    share_bps: int,
    min_base_out: int,
)
    requires
        1 <= v_base,
        1 <= v_token,
        1 <= token_in <= u64::MAX as int,
        0 <= fee_bps <= BPS_DENOMINATOR as int,
        0 <= share_bps <= BPS_DENOMINATOR as int,
    ensures
        ({
            let r = sell_quote_spec(v_base, v_token, token_in, fee_bps, share_bps, min_base_out);
            r matches Ok(q) ==> {
                &&& q.v_token_new >= 1
                &&& q.v_base_new >= 1
                &&& v_base * v_token >= v_token + token_in
            }
        }),
{
    let k = v_base * v_token;
    let v_token_new = v_token + token_in;
    if k <= u128::MAX as int && v_token_new <= u128::MAX as int {
        lemma_div_pos_is_pos(k, v_token_new);
        if k < v_token_new {
            lemma_basic_div(k, v_token_new);
        }
    }
}

/// Monotonic loss over a buy-then-sell round trip, on the fee-free or
/// dust-free curve: when the buy's division leaves no remainder, selling back
/// exactly the tokens bought restores both reserves, the trader's token
/// balance is unchanged by construction, and the base the trader recovers
/// never exceeds what was paid in — with equality when the fee rate is zero.
/// (With rounding dust on the buy leg the trader can come out ahead, so the
/// claim is proved only for the dust-free case.)
pub proof fn lemma_buy_then_sell_no_gain(
    v_base: int,
    v_token: int,
    base_in: int,
    fee_bps: int,
    share_bps: int,
)
    requires
        1 <= v_base,
        1 <= v_token <= u128::MAX as int,
        1 <= base_in <= u64::MAX as int,
        0 <= fee_bps <= BPS_DENOMINATOR as int,
        0 <= share_bps <= BPS_DENOMINATOR as int,
        buy_quote_spec(v_base, v_token, base_in, fee_bps, share_bps, 0) is Ok,
        (v_base * v_token) % (v_base + (base_in - fee_part(base_in, fee_bps))) == 0,
    ensures
        ({
            let q1 = buy_quote_spec(v_base, v_token, base_in, fee_bps, share_bps, 0)->Ok_0;
            let r2 = sell_quote_spec(
                q1.v_base_new as int,
                q1.v_token_new as int,
                q1.token_out as int,
                fee_bps,
                share_bps,
                0,
            );
            let base_effective = base_in - fee_part(base_in, fee_bps);
            &&& r2 is Ok
            &&& r2->Ok_0.v_base_new == v_base
            &&& r2->Ok_0.v_token_new == v_token
            &&& r2->Ok_0.user_base_out == base_effective - fee_part(base_effective, fee_bps)
            &&& r2->Ok_0.user_base_out <= base_in
            &&& (fee_bps == 0 ==> r2->Ok_0.user_base_out == base_in)
        }),
{
    let d = BPS_DENOMINATOR as int;
    lemma_fee_part_bounds(base_in, fee_bps);
    let total_fee = fee_part(base_in, fee_bps);
    let base_effective = base_in - total_fee;
    let k = v_base * v_token;
    let vb1 = v_base + base_effective;
    let vt1 = k / vb1;
    lemma_div_is_ordered_by_denominator(k, v_base, vb1);
    lemma_product_div_factor(v_base, v_token);
    lemma_div_pos_is_pos(k, vb1);
    if base_effective == 0 {
        assert(vt1 == v_token);
        assert(false);
    }
    lemma_fundamental_div_mod(k, vb1);
    assert(vb1 * vt1 == k);
    if vt1 == 0 {
        assert(vb1 * 0 == 0);
        assert(false);
    }
    // The sell leg: its curve constant is the buy's exactly, so adding the
    // bought tokens back restores the token reserve and the base reserve.
    let out = v_token - vt1;
    assert(vt1 + out == v_token);
    lemma_product_div_factor(v_token, v_base);
    lemma_mul_is_commutative(v_base, v_token);
    assert(k / v_token == v_base);
    lemma_mul_upper_bound(base_effective, u64::MAX as int, fee_bps, d);
    lemma_fee_part_bounds(base_effective, fee_bps);
    lemma_mul_upper_bound(fee_part(base_effective, fee_bps), u64::MAX as int, share_bps, d);
    if fee_bps == 0 {
        assert(base_in * 0 == 0);
        assert(base_effective * 0 == 0);
    }
}

} // verus!
