use vstd::prelude::*;

verus! {

/// Opaque reference to an account, mint or signing authority. The core never
/// looks inside one; it only compares them, so a plain numeric handle chosen
/// by the host stands for whatever address scheme the host uses.
#[derive(Clone, Copy, Debug, PartialEq, Eq, Structural)]
pub struct AccountId {
    pub id: u64,
}

/// Why a market operation was rejected. Every rejection is a hard abort of
/// the enclosing trade: no reserves, balances, or fee accounts are altered.
#[derive(Clone, Copy, Debug, PartialEq, Eq, Structural)]
pub enum HubError {
    /// A market cannot be created with an empty virtual reserve.
    InvalidReserves,
    /// The trade size is zero.
    InvalidAmount,
    /// A checked arithmetic step exceeded the 128-bit range.
    MathOverflow,
    /// The quote fell short of the caller's slippage bound.
    SlippageExceeded,
    /// The quote yields nothing for the trader.
    ZeroOut,
    /// The market is paused; all trades are rejected.
    MarketPaused,
    /// A supplied token or base identifier does not match the market's.
    InvalidMint,
    /// A fee rate above the basis-point denominator.
    InvalidBps,
    /// The treasury cannot cover the payout a sell would owe.
    InsufficientTreasury,
}

} // verus!
