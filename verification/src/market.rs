use vstd::prelude::*;
use crate::pricing::{buy_quote, buy_quote_spec, sell_quote, sell_quote_spec, BuyQuote, SellQuote,
    BPS_DENOMINATOR};
use crate::solvency::check_solvency;
use crate::types::{AccountId, HubError};

verus! {

/// One market per token pair: the virtual reserves the curve prices against,
/// the fee configuration, the pause flag, and the identities of the accounts
/// the host moves value between. Created once, mutated only by successful
/// trades, never deleted.
#[derive(Clone, Copy, Debug, PartialEq, Eq, Structural)]
pub struct HubMarket {
    pub admin: AccountId,
    pub mint: AccountId,
    pub base_mint: AccountId,
    pub treasury_base_ata: AccountId,
    pub admin_fee_ata: AccountId,
    pub v_base: u128,
    pub v_token: u128,
    pub fee_bps: u16,
    pub protocol_fee_share_bps: u16,
    pub is_paused: bool,
    pub bump: u8,
    pub treasury_bump: u8,
}

impl HubMarket {
    /// Well-formedness every trade relies on: both virtual reserves are
    /// populated and both fee rates stay within the basis-point denominator.
    /// Market creation establishes it, and every successful trade preserves
    /// it: a quote that would empty a reserve is rejected before mutation.
    pub open spec fn wf(self) -> bool {
        &&& 1 <= self.v_base
        &&& 1 <= self.v_token
        &&& self.fee_bps <= BPS_DENOMINATOR
        &&& self.protocol_fee_share_bps <= BPS_DENOMINATOR
    }
}

/// The identities a market is created over: its administrator, the synthetic
/// token and base currency mints, the two value sinks, and the two
/// signing-authority derivation tags the host uses to authorise movement on
/// the market's behalf.
#[derive(Clone, Copy, Debug)]
pub struct InitMarket {
    pub admin: AccountId,
    pub mint: AccountId,
    pub base_mint: AccountId,
    pub treasury_base_ata: AccountId,
    pub admin_fee_ata: AccountId,
    pub bump: u8,
    pub treasury_bump: u8,
}

/// The accounts a buy touches: the trader pays base currency from
/// `user_base_ata` into the fee account and treasury, and receives freshly
/// minted tokens in `user_token_ata`.
#[derive(Clone, Copy, Debug)]
pub struct SwapBuy {
    pub user: AccountId,
    pub mint: AccountId,
    pub base_mint: AccountId,
    pub user_base_ata: AccountId,
    pub treasury_base_ata: AccountId,
    pub admin_fee_ata: AccountId,
    pub user_token_ata: AccountId,
}

/// The accounts a sell touches: the trader burns tokens from
/// `user_token_ata` and is paid base currency from the treasury into
/// `user_base_ata`, with the protocol fee routed to the fee account.
#[derive(Clone, Copy, Debug)]
pub struct SwapSell {
    pub user: AccountId,
    pub mint: AccountId,
    pub base_mint: AccountId,
    pub user_token_ata: AccountId,
    pub user_base_ata: AccountId,
    pub treasury_base_ata: AccountId,
    pub admin_fee_ata: AccountId,
}

/// Market creation: reserves must be populated and both rates must fit the
/// basis-point denominator; the market starts unpaused.
pub open spec fn init_market_spec(
    accounts: InitMarket,
    v_base: u128,
    v_token: u128,
    fee_bps: u16,
    protocol_fee_share_bps: u16,
) -> Result<HubMarket, HubError> {
    if !(v_base > 0 && v_token > 0) {
        Err(HubError::InvalidReserves)
    } else if fee_bps > BPS_DENOMINATOR {
        Err(HubError::InvalidBps)
    } else if protocol_fee_share_bps > BPS_DENOMINATOR {
        Err(HubError::InvalidBps)
    } else {
        Ok(HubMarket {
            admin: accounts.admin,
            mint: accounts.mint,
            base_mint: accounts.base_mint,
            treasury_base_ata: accounts.treasury_base_ata,
            admin_fee_ata: accounts.admin_fee_ata,
            v_base,
            v_token,
            fee_bps,
            protocol_fee_share_bps,
            is_paused: false,
            bump: accounts.bump,
            treasury_bump: accounts.treasury_bump,
        })
    }
}

/// Validates and assembles a new market record. The host is responsible for
/// provisioning the accounts themselves and for storing the record.
pub fn init_market(
    accounts: &InitMarket,
    v_base: u128,
    v_token: u128,
    fee_bps: u16,
    protocol_fee_share_bps: u16,
) -> (r: Result<HubMarket, HubError>)
    ensures
        r == init_market_spec(*accounts, v_base, v_token, fee_bps, protocol_fee_share_bps),
        r matches Ok(m) ==> m.wf() && !m.is_paused,
{
    if !(v_base > 0 && v_token > 0) {
        return Err(HubError::InvalidReserves);
    }
    if fee_bps > BPS_DENOMINATOR {
        return Err(HubError::InvalidBps);
    }
    if protocol_fee_share_bps > BPS_DENOMINATOR {
        return Err(HubError::InvalidBps);
    }
    Ok(HubMarket {
        admin: accounts.admin,
        mint: accounts.mint,
        base_mint: accounts.base_mint,
        treasury_base_ata: accounts.treasury_base_ata,
        admin_fee_ata: accounts.admin_fee_ata,
        v_base,
        v_token,
        fee_bps,
        protocol_fee_share_bps,
        is_paused: false,
        bump: accounts.bump,
        treasury_bump: accounts.treasury_bump,
    })
}

/// The reserves a successful trade commits; every other field is untouched.
pub open spec fn market_with_reserves(m: HubMarket, v_base: u128, v_token: u128) -> HubMarket {
    HubMarket { v_base, v_token, ..m }
}

/// A whole buy as a state transition: the entry guards in their documented
/// order (pause, size, identifiers), then the quote, then the reserve update.
pub open spec fn swap_buy_spec(
    m: HubMarket,
    base_mint: AccountId,
    mint: AccountId,
    base_in: u64,
    min_token_out: u64,
) -> Result<(HubMarket, BuyQuote), HubError> {
    if m.is_paused {
        Err(HubError::MarketPaused)
    } else if base_in == 0 {
        Err(HubError::InvalidAmount)
    } else if base_mint != m.base_mint {
        Err(HubError::InvalidMint)
    } else if mint != m.mint {
        Err(HubError::InvalidMint)
    } else {
        match buy_quote_spec(
            m.v_base as int,
            m.v_token as int,
            base_in as int,
            m.fee_bps as int,
            m.protocol_fee_share_bps as int,
            min_token_out as int,
        ) {
            Ok(q) => Ok((market_with_reserves(m, q.v_base_new, q.v_token_new), q)),
            Err(e) => Err(e),
        }
    }
}

/// A whole sell as a state transition: the same entry guards, the quote, the
/// solvency precondition against the treasury's actual balance, then the
/// reserve update. The reserves absorb the gross trade; both payouts are owed
/// from the treasury's existing balance.
pub open spec fn swap_sell_spec(
    m: HubMarket,
    base_mint: AccountId,
    mint: AccountId,
    token_in: u64,
    min_base_out: u64,
    treasury_balance: u64,
) -> Result<(HubMarket, SellQuote), HubError> {
    if m.is_paused {
        Err(HubError::MarketPaused)
    } else if token_in == 0 {
        Err(HubError::InvalidAmount)
    } else if base_mint != m.base_mint {
        Err(HubError::InvalidMint)
    } else if mint != m.mint {
        Err(HubError::InvalidMint)
    } else {
        match sell_quote_spec(
            m.v_base as int,
            m.v_token as int,
            token_in as int,
            m.fee_bps as int,
            m.protocol_fee_share_bps as int,
            min_base_out as int,
        ) {
            Ok(q) => {
                if treasury_balance < q.protocol_fee + q.user_base_out {
                    Err(HubError::InsufficientTreasury)
                } else {
                    Ok((market_with_reserves(m, q.v_base_new, q.v_token_new), q))
                }
            },
            Err(e) => Err(e),
        }
    }
}

/// Executes a buy against the market: on success the reserves are committed
/// and the quote tells the host what to move; on any rejection the market is
/// untouched and the error says which guard failed first.
pub fn swap_buy(
    market: &mut HubMarket,
    accounts: &SwapBuy,
    base_in: u64,
    min_token_out: u64,
) -> (r: Result<BuyQuote, HubError>)
    requires
        old(market).wf(),
    ensures
        match swap_buy_spec(*old(market), accounts.base_mint, accounts.mint, base_in, min_token_out) {
            Ok(p) => r == Ok::<BuyQuote, HubError>(p.1) && *final(market) == p.0,
            Err(e) => r == Err::<BuyQuote, HubError>(e) && *final(market) == *old(market),
        },
        r is Ok ==> final(market).wf(),
        r is Ok ==> final(market).v_base * final(market).v_token <= old(market).v_base * old(
            market,
        ).v_token,
{
    if market.is_paused {
        return Err(HubError::MarketPaused);
    }
    if base_in == 0 {
        return Err(HubError::InvalidAmount);
    }
    if accounts.base_mint != market.base_mint {
        return Err(HubError::InvalidMint);
    }
    if accounts.mint != market.mint {
        return Err(HubError::InvalidMint);
    }
    match buy_quote(
        market.v_base,
        market.v_token,
        base_in,
        market.fee_bps,
        market.protocol_fee_share_bps,
        min_token_out,
    ) {
        Ok(q) => {
            market.v_base = q.v_base_new;
            market.v_token = q.v_token_new;
            Ok(q)
        },
        Err(e) => Err(e),
    }
}

/// Executes a sell against the market: the quote is computed first, then the
/// solvency guard checks the treasury's actual balance against the full
/// obligation, and only then are the reserves committed. On any rejection the
/// market is untouched.
pub fn swap_sell(
    market: &mut HubMarket,
    accounts: &SwapSell,
    token_in: u64,
    min_base_out: u64,
    treasury_balance: u64,
) -> (r: Result<SellQuote, HubError>)
    requires
        old(market).wf(),
    ensures
        match swap_sell_spec(
            *old(market),
            accounts.base_mint,
            accounts.mint,
            token_in,
            min_base_out,
            treasury_balance,
        ) {
            Ok(p) => r == Ok::<SellQuote, HubError>(p.1) && *final(market) == p.0,
            Err(e) => r == Err::<SellQuote, HubError>(e) && *final(market) == *old(market),
        },
        r is Ok ==> final(market).wf(),
        r is Ok ==> final(market).v_base * final(market).v_token <= old(market).v_base * old(
            market,
        ).v_token,
{
    if market.is_paused {
        return Err(HubError::MarketPaused);
    }
    if token_in == 0 {
        return Err(HubError::InvalidAmount);
    }
    if accounts.base_mint != market.base_mint {
        return Err(HubError::InvalidMint);
    }
    if accounts.mint != market.mint {
        return Err(HubError::InvalidMint);
    }
    match sell_quote(
        market.v_base,
        market.v_token,
        token_in,
        market.fee_bps,
        market.protocol_fee_share_bps,
        min_base_out,
    ) {
        Ok(q) => {
            match check_solvency(treasury_balance, q.protocol_fee, q.user_base_out) {
                Ok(()) => {
                    market.v_base = q.v_base_new;
                    market.v_token = q.v_token_new;
                    Ok(q)
                },
                Err(e) => Err(e),
            }
        },
        Err(e) => Err(e),
    }
}

} // verus!
