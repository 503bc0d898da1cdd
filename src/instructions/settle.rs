use crate::errors::ErrorCode;
use crate::oracle::PriceQuote;
use crate::state::{expiry_price_after, settled_expiry_price, OptionMarket};
use vstd::prelude::*;

verus! {

/// The expiry price was captured.
#[derive(Clone, Copy, Debug)]
pub struct SettleEvent {
    pub market: [u8; 32],
    pub expiry_price: u64,
}

/// The accounts of a settlement, as far as the decision reads them.
#[derive(Clone, Copy, Debug)]
pub struct SettleOption {
    pub market: [u8; 32],
}

/// Outcome of settling at time `now` with the oracle quote `quote`, as the
/// market afterwards and the result. Refused before expiry; a market already
/// settled is left as it is, with no event; otherwise the quoted price, which
/// must not be negative, becomes the expiry price. A refusal changes nothing.
pub open spec fn settle_outcome(
    market: OptionMarket,
    accounts: SettleOption,
    now: i64,
    quote: Result<PriceQuote, ErrorCode>,
) -> (OptionMarket, Result<Option<SettleEvent>, ErrorCode>) {
    if market.expiry_timestamp > now {
        (market, Err(ErrorCode::OptionNotExpired))
    } else if market.expiry_price != 0 {
        (market, Ok(None))
    } else {
        match quote {
            Err(e) => (market, Err(e)),
            Ok(q) => match expiry_price_after(market, q) {
                Err(e) => (market, Err(e)),
                Ok(p) => (
                    market.with_expiry_price(p),
                    Ok(Some(SettleEvent { market: accounts.market, expiry_price: p })),
                ),
            },
        }
    }
}

/// Captures the expiry price once the market has expired.
pub fn handler(
    market: &mut OptionMarket,
    accounts: &SettleOption,
    now: i64,
    quote: Result<PriceQuote, ErrorCode>,
) -> (r: Result<Option<SettleEvent>, ErrorCode>)
    ensures
        (*final(market), r) == settle_outcome(*old(market), *accounts, now, quote),
{
    if market.expiry_timestamp > now {
        return Err(ErrorCode::OptionNotExpired);
    }
    if market.expiry_price != 0 {
        return Ok(None);
    }
    let quote = match quote {
        Err(e) => {
            return Err(e);
        },
        Ok(q) => q,
    };
    let expiry_price = match settled_expiry_price(market, &quote) {
        Err(e) => {
            return Err(e);
        },
        Ok(p) => p,
    };
    market.expiry_price = expiry_price;
    Ok(Some(SettleEvent { market: accounts.market, expiry_price }))
}

/// Settling twice in a row gives the same expiry price, and only the first
/// call emits an event, whatever the oracle says at the second. This needs
/// the captured price to be non-zero: a zero price leaves the market
/// unsettled.
pub proof fn lemma_settle_idempotent(
    market: OptionMarket,
    accounts: SettleOption,
    now: i64,
    first: Result<PriceQuote, ErrorCode>,
    second: Result<PriceQuote, ErrorCode>,
)
    requires
        settle_outcome(market, accounts, now, first).1 is Ok,
        first matches Ok(q) ==> q.price != 0,
    ensures
        ({
            let (once, r1) = settle_outcome(market, accounts, now, first);
            let (twice, r2) = settle_outcome(once, accounts, now, second);
            &&& twice == once
            &&& once.expiry_price != 0
            &&& r2 == Ok::<Option<SettleEvent>, ErrorCode>(None)
            &&& (market.expiry_price == 0 ==> (r1 matches Ok(Some(ev)) && ev.expiry_price
                == once.expiry_price))
        }),
{
}

} // verus!
