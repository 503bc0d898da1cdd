use crate::errors::ErrorCode;
use crate::instructions::settle::SettleEvent;
use crate::math::{
    checked_collateral, checked_expired_value, expired_value, expired_value_computable,
    lemma_payout_nonnegative, lemma_pro_rata_nonnegative, pro_rata, pro_rata_computable,
};
use crate::oracle::PriceQuote;
use crate::state::{expiry_price_after, settled_expiry_price, OptionMarket};
use vstd::prelude::*;

verus! {

/// Short notes were burned for their share of the vault.
#[derive(Clone, Copy, Debug)]
pub struct WithdrawEvent {
    pub market: [u8; 32],
    pub holder: [u8; 32],
    pub withdraw_account: [u8; 32],
    pub short_note_account: [u8; 32],
    /// Collateral moved from the vault to the withdraw account.
    pub collateral: u64,
    /// Short notes burned.
    pub options: u64,
}

/// The accounts of a withdrawal, as far as the decision reads them.
#[derive(Clone, Copy, Debug)]
pub struct WithdrawCollateral {
    pub market: [u8; 32],
    pub holder: [u8; 32],
    pub withdraw_account: [u8; 32],
    pub short_note_account: [u8; 32],
    /// Decimals of the collateral mint.
    pub collateral_decimals: u8,
    /// Decimals of the base mint.
    pub base_decimals: u8,
    /// Collateral in the vault.
    pub vault_amount: u64,
    /// Short notes in circulation.
    pub short_note_supply: u64,
}

/// A short holder's collateral: their share of the vault net of what the
/// same number of long notes are owed, and nothing when the payout exceeds
/// the share.
pub open spec fn net_of_payout(share: int, payout: int) -> int {
    if share >= payout {
        share - payout
    } else {
        0
    }
}

/// Outcome of withdrawing against `options` short notes at time `now` with
/// the oracle quote `quote`, as the market afterwards and the result.
/// Refused before expiry. The quote settles the market if that has not
/// happened yet. The collateral returned is the notes' pro-rata share of the
/// vault net of the payout owed on as many long notes. A refusal changes
/// nothing.
pub open spec fn withdraw_outcome(
    market: OptionMarket,
    accounts: WithdrawCollateral,
    now: i64,
    quote: Result<PriceQuote, ErrorCode>,
    options: u64,
) -> (OptionMarket, Result<(Option<SettleEvent>, WithdrawEvent), ErrorCode>) {
    if market.expiry_timestamp > now {
        (market, Err(ErrorCode::OptionNotExpired))
    } else {
        match quote {
            Err(e) => (market, Err(e)),
            Ok(q) => match expiry_price_after(market, q) {
                Err(e) => (market, Err(e)),
                Ok(p) => {
                    let o = options as int;
                    let k = market.strike_price as int;
                    let (cd, bd) = (accounts.collateral_decimals, accounts.base_decimals);
                    let (total, supply) = (
                        accounts.vault_amount as int,
                        accounts.short_note_supply as int,
                    );
                    if !expired_value_computable(o, k, p as int, market.is_put, cd, bd, q.expo)
                        || !pro_rata_computable(o, total, supply) {
                        (market, Err(ErrorCode::MathError))
                    } else {
                        let settled = if market.expiry_price == 0 {
                            Some(SettleEvent { market: accounts.market, expiry_price: p })
                        } else {
                            None
                        };
                        let payout = expired_value(o, k, p as int, market.is_put, cd, bd, q.expo);
                        let event = WithdrawEvent {
                            market: accounts.market,
                            holder: accounts.holder,
                            withdraw_account: accounts.withdraw_account,
                            short_note_account: accounts.short_note_account,
                            collateral: net_of_payout(pro_rata(o, total, supply), payout) as u64,
                            options,
                        };
                        (market.with_expiry_price(p), Ok((settled, event)))
                    }
                },
            },
        }
    }
}

/// Decides a withdrawal against `options` short notes after expiry: on
/// success, the collateral moves from the vault to the withdraw account and
/// the short notes are burned.
pub fn handler(
    market: &mut OptionMarket,
    accounts: &WithdrawCollateral,
    now: i64,
    quote: Result<PriceQuote, ErrorCode>,
    options: u64,
) -> (r: Result<(Option<SettleEvent>, WithdrawEvent), ErrorCode>)
    ensures
        (*final(market), r) == withdraw_outcome(*old(market), *accounts, now, quote, options),
{
    if market.expiry_timestamp > now {
        return Err(ErrorCode::OptionNotExpired);
    }
    let quote = match quote {
        Err(e) => {
            return Err(e);
        },
        Ok(q) => q,
    };
    let expiry_price = match settled_expiry_price(market, &quote) {
        Err(e) => {
            return Err(e);
        },
        Ok(p) => p,
    };
    let payout = match checked_expired_value(
        options,
        market.strike_price,
        expiry_price,
        market.is_put,
        accounts.collateral_decimals,
        accounts.base_decimals,
        quote.expo,
    ) {
        None => {
            return Err(ErrorCode::MathError);
        },
        Some(v) => v,
    };
    let share = match checked_collateral(options, accounts.vault_amount, accounts.short_note_supply) {
        None => {
            return Err(ErrorCode::MathError);
        },
        Some(s) => s,
    };
    proof {
        lemma_payout_nonnegative(
            options,
            market.strike_price,
            expiry_price,
            market.is_put,
            accounts.collateral_decimals,
            accounts.base_decimals,
            quote.expo,
        );
        lemma_pro_rata_nonnegative(options, accounts.vault_amount, accounts.short_note_supply);
    }
    let collateral = if share >= payout {
        share - payout
    } else {
        0
    };
    let settled = if market.expiry_price == 0 {
        Some(SettleEvent { market: accounts.market, expiry_price })
    } else {
        None
    };
    market.expiry_price = expiry_price;
    let event = WithdrawEvent {
        market: accounts.market,
        holder: accounts.holder,
        withdraw_account: accounts.withdraw_account,
        short_note_account: accounts.short_note_account,
        collateral,
        options,
    };
    Ok((settled, event))
}

} // verus!
