use crate::errors::ErrorCode;
use crate::math::{checked_option_amount, option_amount, option_amount_computable};
use crate::oracle::PriceQuote;
use crate::state::OptionMarket;
use vstd::prelude::*;

verus! {

/// Collateral was deposited and notes were minted.
#[derive(Clone, Copy, Debug)]
pub struct MintEvent {
    pub market: [u8; 32],
    pub depositor: [u8; 32],
    pub deposit_account: [u8; 32],
    pub short_note_account: [u8; 32],
    pub long_note_account: [u8; 32],
    /// Collateral moved from the deposit account to the vault.
    pub collateral: u64,
    /// Short notes and long notes minted, each.
    pub options: u64,
}

/// The accounts of a mint, as far as the decision reads them.
#[derive(Clone, Copy, Debug)]
pub struct MintOptions {
    pub market: [u8; 32],
    pub depositor: [u8; 32],
    pub deposit_account: [u8; 32],
    pub short_note_account: [u8; 32],
    pub long_note_account: [u8; 32],
    /// Decimals of the collateral mint.
    pub collateral_decimals: u8,
    /// Decimals of the base mint.
    pub base_decimals: u8,
}

/// Outcome of depositing `collateral` at time `now` with the oracle quote
/// `quote`: refused once the market has expired; otherwise the quote's own
/// error, or the options that the collateral backs at the quote's exponent.
pub open spec fn mint_outcome(
    market: OptionMarket,
    accounts: MintOptions,
    now: i64,
    quote: Result<PriceQuote, ErrorCode>,
    collateral: u64,
) -> Result<MintEvent, ErrorCode> {
    if market.expiry_timestamp <= now {
        Err(ErrorCode::OptionExpired)
    } else {
        match quote {
            Err(e) => Err(e),
            Ok(q) => {
                let c = collateral as int;
                let k = market.strike_price as int;
                let (cd, bd) = (accounts.collateral_decimals, accounts.base_decimals);
                if !option_amount_computable(c, k, market.is_put, cd, bd, q.expo) {
                    Err(ErrorCode::MathError)
                } else {
                    Ok(
                        MintEvent {
                            market: accounts.market,
                            depositor: accounts.depositor,
                            deposit_account: accounts.deposit_account,
                            short_note_account: accounts.short_note_account,
                            long_note_account: accounts.long_note_account,
                            collateral,
                            options: option_amount(c, k, market.is_put, cd, bd, q.expo) as u64,
                        },
                    )
                }
            },
        }
    }
}

/// Decides a deposit of `collateral`: on success, `collateral` moves from the
/// deposit account to the vault and `options` short and long notes are minted.
pub fn handler(
    market: &OptionMarket,
    accounts: &MintOptions,
    now: i64,
    quote: Result<PriceQuote, ErrorCode>,
    collateral: u64,
) -> (r: Result<MintEvent, ErrorCode>)
    ensures
        r == mint_outcome(*market, *accounts, now, quote, collateral),
{
    if market.expiry_timestamp <= now {
        return Err(ErrorCode::OptionExpired);
    }
    let quote = match quote {
        Err(e) => {
            return Err(e);
        },
        Ok(q) => q,
    };
    let options = match checked_option_amount(
        collateral,
        market.strike_price,
        market.is_put,
        accounts.collateral_decimals,
        accounts.base_decimals,
        quote.expo,
    ) {
        None => {
            return Err(ErrorCode::MathError);
        },
        Some(o) => o,
    };
    Ok(
        MintEvent {
            market: accounts.market,
            depositor: accounts.depositor,
            deposit_account: accounts.deposit_account,
            short_note_account: accounts.short_note_account,
            long_note_account: accounts.long_note_account,
            collateral,
            options,
        },
    )
}

} // verus!
