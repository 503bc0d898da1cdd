use crate::errors::ErrorCode;
use crate::instructions::settle::SettleEvent;
use crate::math::{checked_expired_value, expired_value, expired_value_computable};
use crate::oracle::PriceQuote;
use crate::state::{expiry_price_after, settled_expiry_price, OptionMarket};
use vstd::prelude::*;

verus! {

/// Long notes were redeemed for their payout.
#[derive(Clone, Copy, Debug)]
pub struct RedeemEvent {
    pub market: [u8; 32],
    pub holder: [u8; 32],
    pub redeem_account: [u8; 32],
    pub long_note_account: [u8; 32],
    /// Collateral moved from the vault to the redeem account.
    pub payout: u64,
    /// Long notes burned.
    pub options: u64,
}

/// The accounts of a redemption, as far as the decision reads them.
#[derive(Clone, Copy, Debug)]
pub struct RedeemOptions {
    pub market: [u8; 32],
    pub holder: [u8; 32],
    pub redeem_account: [u8; 32],
    pub long_note_account: [u8; 32],
    /// Decimals of the collateral mint.
    pub collateral_decimals: u8,
    /// Decimals of the base mint.
    pub base_decimals: u8,
}

/// Outcome of redeeming `options` long notes at time `now` with the oracle
/// quote `quote`, as the market afterwards and the result. Refused before
/// expiry. The quote is needed for its exponent; it also settles the market
/// if that has not happened yet. The payout is what the options are owed at
/// the expiry price. A refusal changes nothing.
pub open spec fn redeem_outcome(
    market: OptionMarket,
    accounts: RedeemOptions,
    now: i64,
    quote: Result<PriceQuote, ErrorCode>,
    options: u64,
) -> (OptionMarket, Result<(Option<SettleEvent>, RedeemEvent), ErrorCode>) {
    if market.expiry_timestamp > now {
        (market, Err(ErrorCode::OptionNotExpired))
    } else {
        match quote {
            Err(e) => (market, Err(e)),
            Ok(q) => match expiry_price_after(market, q) {
                Err(e) => (market, Err(e)),
                Ok(p) => {
                    let o = options as int;
                    let k = market.strike_price as int;
                    let (cd, bd) = (accounts.collateral_decimals, accounts.base_decimals);
                    if !expired_value_computable(o, k, p as int, market.is_put, cd, bd, q.expo) {
                        (market, Err(ErrorCode::MathError))
                    } else {
                        let settled = if market.expiry_price == 0 {
                            Some(SettleEvent { market: accounts.market, expiry_price: p })
                        } else {
                            None
                        };
                        let event = RedeemEvent {
                            market: accounts.market,
                            holder: accounts.holder,
                            redeem_account: accounts.redeem_account,
                            long_note_account: accounts.long_note_account,
                            payout: expired_value(o, k, p as int, market.is_put, cd, bd, q.expo) as u64,
                            options,
                        };
                        (market.with_expiry_price(p), Ok((settled, event)))
                    }
                },
            },
        }
    }
}

/// Decides a redemption of `options` long notes after expiry: on success, the
/// payout moves from the vault to the redeem account when it is not zero, and
/// the long notes are burned.
pub fn handler(
    market: &mut OptionMarket,
    accounts: &RedeemOptions,
    now: i64,
    quote: Result<PriceQuote, ErrorCode>,
    options: u64,
) -> (r: Result<(Option<SettleEvent>, RedeemEvent), ErrorCode>)
    ensures
        (*final(market), r) == redeem_outcome(*old(market), *accounts, now, quote, options),
{
    if market.expiry_timestamp > now {
        return Err(ErrorCode::OptionNotExpired);
    }
    let quote = match quote {
        Err(e) => {
            return Err(e);
        },
        Ok(q) => q,
    };
    let expiry_price = match settled_expiry_price(market, &quote) {
        Err(e) => {
            return Err(e);
        },
        Ok(p) => p,
    };
    let payout = match checked_expired_value(
        options,
        market.strike_price,
        expiry_price,
        market.is_put,
        accounts.collateral_decimals,
        accounts.base_decimals,
        quote.expo,
    ) {
        None => {
            return Err(ErrorCode::MathError);
        },
        Some(v) => v,
    };
    let settled = if market.expiry_price == 0 {
        Some(SettleEvent { market: accounts.market, expiry_price })
    } else {
        None
    };
    market.expiry_price = expiry_price;
    let event = RedeemEvent {
        market: accounts.market,
        holder: accounts.holder,
        redeem_account: accounts.redeem_account,
        long_note_account: accounts.long_note_account,
        payout,
        options,
    };
    Ok((settled, event))
}

} // verus!
