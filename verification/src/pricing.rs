use vstd::prelude::*;
use vstd::arithmetic::div_mod::{
    lemma_div_is_ordered, lemma_div_is_ordered_by_denominator, lemma_div_multiples_vanish,
    lemma_div_pos_is_pos, lemma_fundamental_div_mod, lemma_mod_division_less_than_divisor,
};
use vstd::arithmetic::mul::{
    lemma_mul_inequality, lemma_mul_is_commutative, lemma_mul_nonnegative, lemma_mul_upper_bound,
};
use crate::types::HubError;

verus! {

/// Basis-point denominator: fee rates are fractions of this.
pub const BPS_DENOMINATOR: u16 = 10_000;

/// The floor share of `amount` cut by a basis-point rate: the direction of
/// rounding always favours the side that keeps the divided quantity, never
/// the side the share is carved out for.
pub open spec fn fee_part(amount: int, bps: int) -> int {
    amount * bps / (BPS_DENOMINATOR as int)
}

/// A rate of at most the full denominator never carves out more than the
/// whole amount.
pub proof fn lemma_fee_part_bounds(amount: int, bps: int)
    requires
        0 <= amount,
        0 <= bps <= BPS_DENOMINATOR as int,
    ensures
        0 <= fee_part(amount, bps) <= amount,
{
    let d = BPS_DENOMINATOR as int;
    lemma_mul_nonnegative(amount, bps);
    lemma_div_pos_is_pos(amount * bps, d);
    lemma_mul_inequality(bps, d, amount);
    assert(amount * bps <= amount * d);
    lemma_div_is_ordered(amount * bps, amount * d, d);
    lemma_div_multiples_vanish(amount, d);
    assert(amount * d == d * amount);
}

/// A product divided by one of its factors gives back the other exactly.
pub proof fn lemma_product_div_factor(factor: int, other: int)
    requires
        1 <= factor,
        0 <= other,
    ensures
        (factor * other) / factor == other,
{
    lemma_div_multiples_vanish(other, factor);
}

/// Everything a successful buy settles: the two base-currency movements the
/// host owes (protocol fee to the fee account, the rest to the treasury), the
/// synthetic tokens to mint for the trader, and the reserves to commit.
#[derive(Clone, Copy, Debug, PartialEq, Eq, Structural)]
pub struct BuyQuote {
    pub protocol_fee: u128,
    pub to_treasury: u128,
    pub token_out: u128,
    pub v_base_new: u128,
    pub v_token_new: u128,
}

/// Everything a successful sell settles: the protocol fee and the trader
/// payout, both paid from the treasury's existing balance, and the reserves
/// to commit. The reserves absorb the gross trade; fee bookkeeping never
/// touches the curve a second time.
#[derive(Clone, Copy, Debug, PartialEq, Eq, Structural)]
pub struct SellQuote {
    pub protocol_fee: u128,
    pub user_base_out: u128,
    pub v_base_new: u128,
    pub v_token_new: u128,
}

/// The buy quote, step by step over unbounded integers. The fee is charged on
/// the input: only `base_in` less the total fee enters the curve, while the
/// treasury absorbs everything the protocol-fee account does not take. A
/// quote that yields nothing, or whose floored new token reserve would be
/// empty, is rejected before any state mutation: the reserves must stay
/// positive across every successful trade.
pub open spec fn buy_quote_spec(
    v_base: int,
    v_token: int,
    base_in: int,
    fee_bps: int,
    share_bps: int,
    min_token_out: int,
) -> Result<BuyQuote, HubError> {
    let total_fee = fee_part(base_in, fee_bps);
    let base_effective = base_in - total_fee;
    let protocol_fee = fee_part(total_fee, share_bps);
    let to_treasury = base_in - protocol_fee;
    let k = v_base * v_token;
    let v_base_new = v_base + base_effective;
    if k > u128::MAX as int {
        Err(HubError::MathOverflow)
    } else if v_base_new > u128::MAX as int {
        Err(HubError::MathOverflow)
    } else {
        let v_token_new = k / v_base_new;
        let token_out = v_token - v_token_new;
        if token_out == 0 || v_token_new == 0 {
            Err(HubError::ZeroOut)
        } else if token_out < min_token_out {
            Err(HubError::SlippageExceeded)
        } else {
            Ok(BuyQuote {
                protocol_fee: protocol_fee as u128,
                to_treasury: to_treasury as u128,
                token_out: token_out as u128,
                v_base_new: v_base_new as u128,
                v_token_new: v_token_new as u128,
            })
        }
    }
}

/// The sell quote, step by step over unbounded integers. The fee is charged
/// on the output: the reserves absorb the gross trade, and the fee is carved
/// out of the gross base payout afterwards. A quote that releases nothing, or
/// whose floored new base reserve would be empty, is rejected before any
/// state mutation: the reserves must stay positive across every successful
/// trade.
pub open spec fn sell_quote_spec(
    v_base: int,
    v_token: int,
    token_in: int,
    fee_bps: int,
    share_bps: int,
    min_base_out: int,
) -> Result<SellQuote, HubError> {
    let k = v_base * v_token;
    let v_token_new = v_token + token_in;
    if k > u128::MAX as int {
        Err(HubError::MathOverflow)
    } else if v_token_new > u128::MAX as int {
        Err(HubError::MathOverflow)
    } else {
        let v_base_new = k / v_token_new;
        let gross_base_out = v_base - v_base_new;
        if gross_base_out == 0 || v_base_new == 0 {
            Err(HubError::ZeroOut)
        } else if gross_base_out * fee_bps > u128::MAX as int {
            Err(HubError::MathOverflow)
        } else {
            let total_fee = fee_part(gross_base_out, fee_bps);
            if total_fee * share_bps > u128::MAX as int {
                Err(HubError::MathOverflow)
            } else {
                let protocol_fee = fee_part(total_fee, share_bps);
                let user_base_out = gross_base_out - total_fee;
                if user_base_out < min_base_out {
                    Err(HubError::SlippageExceeded)
                } else {
                    Ok(SellQuote {
                        protocol_fee: protocol_fee as u128,
                        user_base_out: user_base_out as u128,
                        v_base_new: v_base_new as u128,
                        v_token_new: v_token_new as u128,
                    })
                }
            }
        }
    }
}

/// Buy quote against the current reserves. On success the trader's reserves
/// move strictly: tokens leave the curve, base enters it, and the fee split
/// conserves the input exactly.
pub fn buy_quote(
    v_base: u128,
    v_token: u128,
    base_in: u64,
    fee_bps: u16,
    protocol_fee_share_bps: u16,
    min_token_out: u64,
) -> (r: Result<BuyQuote, HubError>)
    requires
        1 <= v_base,
        1 <= v_token,
        fee_bps <= BPS_DENOMINATOR,
        protocol_fee_share_bps <= BPS_DENOMINATOR,
        1 <= base_in,
    ensures
        r == buy_quote_spec(
            v_base as int,
            v_token as int,
            base_in as int,
            fee_bps as int,
            protocol_fee_share_bps as int,
            min_token_out as int,
        ),
        r matches Ok(q) ==> q.v_token_new < v_token && q.v_base_new > v_base
            && q.token_out == v_token - q.v_token_new,
        r matches Ok(q) ==> q.protocol_fee + q.to_treasury == base_in,
        r matches Ok(q) ==> q.token_out >= min_token_out,
        r matches Ok(q) ==> 1 <= q.v_base_new && 1 <= q.v_token_new,
        r matches Ok(q) ==> q.v_base_new * q.v_token_new <= v_base * v_token,
{
    let base_in_wide = base_in as u128;
    let fee_wide = fee_bps as u128;
    let share_wide = protocol_fee_share_bps as u128;
    let denom = BPS_DENOMINATOR as u128;

    proof {
        lemma_mul_upper_bound(base_in as int, u64::MAX as int, fee_bps as int, BPS_DENOMINATOR as int);
        lemma_fee_part_bounds(base_in as int, fee_bps as int);
    }
    let total_fee = base_in_wide * fee_wide / denom;
    let base_effective = base_in_wide - total_fee;
    proof {
        lemma_mul_upper_bound(total_fee as int, u64::MAX as int, protocol_fee_share_bps as int, BPS_DENOMINATOR as int);
        lemma_fee_part_bounds(total_fee as int, protocol_fee_share_bps as int);
    }
    let protocol_fee = total_fee * share_wide / denom;
    let to_treasury = base_in_wide - protocol_fee;

    let k = match v_base.checked_mul(v_token) {
        Some(k) => k,
        None => {
            return Err(HubError::MathOverflow);
        },
    };
    let v_base_new = match v_base.checked_add(base_effective) {
        Some(v) => v,
        None => {
            return Err(HubError::MathOverflow);
        },
    };
    let v_token_new = k / v_base_new;
    proof {
        lemma_div_is_ordered_by_denominator(k as int, v_base as int, v_base_new as int);
        lemma_product_div_factor(v_base as int, v_token as int);
        lemma_fundamental_div_mod(k as int, v_base_new as int);
        lemma_mod_division_less_than_divisor(k as int, v_base_new as int);
    }
    let token_out = v_token - v_token_new;
    if token_out == 0 || v_token_new == 0 {
        return Err(HubError::ZeroOut);
    }
    if token_out < min_token_out as u128 {
        return Err(HubError::SlippageExceeded);
    }
    proof {
        if base_effective == 0 {
            assert(v_base_new == v_base);
            assert(v_token_new == v_token);
            assert(false);
        }
    }
    Ok(BuyQuote { protocol_fee, to_treasury, token_out, v_base_new, v_token_new })
}

/// Sell quote against the current reserves. On success base leaves the curve
/// and tokens enter it; the payout plus the total fee account for the gross
/// base the curve released, so the treasury implicitly retains the fee's
/// non-protocol portion.
pub fn sell_quote(
    v_base: u128,
    v_token: u128,
    token_in: u64,
    fee_bps: u16,
    protocol_fee_share_bps: u16,
    min_base_out: u64,
) -> (r: Result<SellQuote, HubError>)
    requires
        1 <= v_base,
        1 <= v_token,
        fee_bps <= BPS_DENOMINATOR,
        protocol_fee_share_bps <= BPS_DENOMINATOR,
        1 <= token_in,
    ensures
        r == sell_quote_spec(
            v_base as int,
            v_token as int,
            token_in as int,
            fee_bps as int,
            protocol_fee_share_bps as int,
            min_base_out as int,
        ),
        r matches Ok(q) ==> q.v_token_new > v_token && q.v_base_new < v_base
            && q.v_token_new == v_token + token_in,
        r matches Ok(q) ==> q.user_base_out
            + fee_part((v_base - q.v_base_new) as int, fee_bps as int) == v_base - q.v_base_new,
        r matches Ok(q) ==> q.protocol_fee
            <= fee_part((v_base - q.v_base_new) as int, fee_bps as int),
        r matches Ok(q) ==> q.protocol_fee + q.user_base_out <= v_base - q.v_base_new,
        r matches Ok(q) ==> q.user_base_out >= min_base_out,
        r matches Ok(q) ==> 1 <= q.v_base_new && 1 <= q.v_token_new,
        r matches Ok(q) ==> q.v_base_new * q.v_token_new <= v_base * v_token,
{
    let fee_wide = fee_bps as u128;
    let share_wide = protocol_fee_share_bps as u128;
    let denom = BPS_DENOMINATOR as u128;

    let k = match v_base.checked_mul(v_token) {
        Some(k) => k,
        None => {
            return Err(HubError::MathOverflow);
        },
    };
    let v_token_new = match v_token.checked_add(token_in as u128) {
        Some(v) => v,
        None => {
            return Err(HubError::MathOverflow);
        },
    };
    let v_base_new = k / v_token_new;
    proof {
        lemma_div_is_ordered_by_denominator(k as int, v_token as int, v_token_new as int);
        lemma_mul_is_commutative(v_base as int, v_token as int);
        lemma_product_div_factor(v_token as int, v_base as int);
        lemma_fundamental_div_mod(k as int, v_token_new as int);
        lemma_mod_division_less_than_divisor(k as int, v_token_new as int);
        assert(v_token_new as int * (k as int / v_token_new as int) <= k as int);
        lemma_mul_is_commutative(v_base_new as int, v_token_new as int);
    }
    let gross_base_out = v_base - v_base_new;
    if gross_base_out == 0 || v_base_new == 0 {
        return Err(HubError::ZeroOut);
    }

    let total_fee_scaled = match gross_base_out.checked_mul(fee_wide) {
        Some(v) => v,
        None => {
            return Err(HubError::MathOverflow);
        },
    };
    let total_fee = total_fee_scaled / denom;
    let protocol_fee_scaled = match total_fee.checked_mul(share_wide) {
        Some(v) => v,
        None => {
            return Err(HubError::MathOverflow);
        },
    };
    let protocol_fee = protocol_fee_scaled / denom;
    proof {
        lemma_fee_part_bounds(gross_base_out as int, fee_bps as int);
        lemma_fee_part_bounds(total_fee as int, protocol_fee_share_bps as int);
    }
    let user_base_out = gross_base_out - total_fee;
    if user_base_out < min_base_out as u128 {
        return Err(HubError::SlippageExceeded);
    }
    Ok(SellQuote { protocol_fee, user_base_out, v_base_new, v_token_new })
}

} // verus!
