//! Pricing and settlement core of a two-sided automated market maker over
//! *virtual* reserves: a constant-product curve whose liquidity is configured
//! at market creation, used to mint and burn a synthetic token against a base
//! currency held in a treasury.
//!
//! The crate covers the pricing engine (buy and sell quotes with fee
//! extraction and splitting), the solvency precondition that guards every
//! sell payout, market creation and the state transitions a successful trade
//! commits. Value movement itself (transfer, mint, burn) and account storage
//! are the host's business: the host asks this crate for a quote, moves value
//! accordingly, and commits the returned reserves atomically.

pub mod laws;
pub mod market;
pub mod pricing;
pub mod registry;
pub mod solvency;
pub mod types;
