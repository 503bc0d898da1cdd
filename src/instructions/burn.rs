use crate::errors::ErrorCode;
use crate::math::{checked_collateral_amount, collateral_amount, collateral_amount_computable};
use crate::oracle::PriceQuote;
use crate::state::OptionMarket;
use vstd::prelude::*;

verus! {

/// Matched notes were burned and collateral released.
#[derive(Clone, Copy, Debug)]
pub struct BurnEvent {
    pub market: [u8; 32],
    pub depositor: [u8; 32],
    pub short_note_account: [u8; 32],
    pub long_note_account: [u8; 32],
    /// Collateral moved from the vault to the depositor.
    pub collateral: u64,
    /// Short notes and long notes burned, each.
    pub options: u64,
}

/// The accounts of a burn, as far as the decision reads them.
#[derive(Clone, Copy, Debug)]
pub struct BurnOptions {
    pub market: [u8; 32],
    pub depositor: [u8; 32],
    pub short_note_account: [u8; 32],
    pub long_note_account: [u8; 32],
    /// Decimals of the collateral mint.
    pub collateral_decimals: u8,
    /// Decimals of the base mint.
    pub base_decimals: u8,
}

/// Outcome of burning `options` matched notes with the oracle quote `quote`:
/// the quote's own error, or the collateral that backs the options at the
/// quote's exponent. Burning is not limited in time.
pub open spec fn burn_outcome(
    market: OptionMarket,
    accounts: BurnOptions,
    quote: Result<PriceQuote, ErrorCode>,
    options: u64,
) -> Result<BurnEvent, ErrorCode> {
    match quote {
        Err(e) => Err(e),
        Ok(q) => {
            let o = options as int;
            let k = market.strike_price as int;
            let (cd, bd) = (accounts.collateral_decimals, accounts.base_decimals);
            if !collateral_amount_computable(o, k, market.is_put, cd, bd, q.expo) {
                Err(ErrorCode::MathError)
            } else {
                Ok(
                    BurnEvent {
                        market: accounts.market,
                        depositor: accounts.depositor,
                        short_note_account: accounts.short_note_account,
                        long_note_account: accounts.long_note_account,
                        collateral: collateral_amount(o, k, market.is_put, cd, bd, q.expo) as u64,
                        options,
                    },
                )
            }
        },
    }
}

/// Decides a burn of `options` matched notes: on success, `collateral` moves
/// from the vault to the depositor and `options` short and long notes are
/// burned.
pub fn handler(
    market: &OptionMarket,
    accounts: &BurnOptions,
    quote: Result<PriceQuote, ErrorCode>,
    options: u64,
) -> (r: Result<BurnEvent, ErrorCode>)
    ensures
        r == burn_outcome(*market, *accounts, quote, options),
{
    let quote = match quote {
        Err(e) => {
            return Err(e);
        },
        Ok(q) => q,
    };
    let collateral = match checked_collateral_amount(
        options,
        market.strike_price,
        market.is_put,
        accounts.collateral_decimals,
        accounts.base_decimals,
        quote.expo,
    ) {
        None => {
            return Err(ErrorCode::MathError);
        },
        Some(c) => c,
    };
    Ok(
        BurnEvent {
            market: accounts.market,
            depositor: accounts.depositor,
            short_note_account: accounts.short_note_account,
            long_note_account: accounts.long_note_account,
            collateral,
            options,
        },
    )
}

} // verus!
