use vstd::prelude::*;
use crate::types::HubError;

verus! {

/// The solvency precondition of every sell payout: the treasury's actual
/// balance is an independent external quantity (accumulated from prior buys)
/// that can diverge from what the virtual-reserve model assumes, so before
/// any transfer is authorised it must cover the protocol fee plus the
/// trader's payout in full.
pub fn check_solvency(treasury_balance: u64, protocol_fee: u128, user_base_out: u128) -> (r:
    Result<(), HubError>)
    ensures
        protocol_fee + user_base_out > u128::MAX ==> r == Err::<(), HubError>(
            HubError::MathOverflow,
        ),
        protocol_fee + user_base_out <= u128::MAX ==> (r == Ok::<(), HubError>(()) <==>
            treasury_balance >= protocol_fee + user_base_out),
        protocol_fee + user_base_out <= u128::MAX && treasury_balance < protocol_fee
            + user_base_out ==> r == Err::<(), HubError>(HubError::InsufficientTreasury),
{
    let needed = match protocol_fee.checked_add(user_base_out) {
        Some(v) => v,
        None => {
            return Err(HubError::MathOverflow);
        },
    };
    if (treasury_balance as u128) < needed {
        return Err(HubError::InsufficientTreasury);
    }
    Ok(())
}

} // verus!
