use crate::errors::ErrorCode;
use crate::oracle::PriceQuote;
use vstd::prelude::*;

verus! {

/// Bump seeds of the market's derived addresses.
#[derive(Clone, Copy, Debug, PartialEq, Eq, Structural)]
pub struct OptionBumps {
    pub market_authority: u8,
    pub short_note_mint: u8,
    pub long_note_mint: u8,
    pub vault: u8,
}

/// One option market.
#[derive(Clone, Copy, Debug)]
pub struct OptionMarket {
    /// Derived address with authority over all assets of the market.
    pub market_authority: [u8; 32],
    /// Mint of the base token.
    pub base_mint: [u8; 32],
    /// Mint of the token used as collateral.
    pub collateral_mint: [u8; 32],
    /// Mint of the notes that stand for a short option.
    pub short_note_mint: [u8; 32],
    /// Mint of the notes that stand for a long option.
    pub long_note_mint: [u8; 32],
    /// Account with custody over the collateral.
    pub vault: [u8; 32],
    /// Bump seeds of the derived addresses.
    pub bumps: OptionBumps,
    /// Oracle price account that the market reads.
    pub pyth_oracle_price: [u8; 32],
    /// Strike price, at the oracle's precision.
    pub strike_price: u64,
    /// Price captured at expiry, at the oracle's precision; zero until then.
    pub expiry_price: u64,
    /// Expiry, in seconds.
    pub expiry_timestamp: i64,
    /// Whether the option is a put rather than a call.
    pub is_put: bool,
}

impl OptionMarket {
    /// A call market's collateral is its base asset.
    pub open spec fn wf(&self) -> bool {
        !self.is_put ==> self.base_mint@ == self.collateral_mint@
    }

    /// The expiry price has been captured.
    pub open spec fn is_settled(&self) -> bool {
        self.expiry_price != 0
    }

    /// The market with `expiry_price` recorded and nothing else changed.
    pub open spec fn with_expiry_price(self, expiry_price: u64) -> OptionMarket {
        OptionMarket { expiry_price, ..self }
    }
}

/// The expiry price that an operation after expiry works with: the one
/// already captured, or else the quoted price, which must not be negative.
pub open spec fn expiry_price_after(market: OptionMarket, quote: PriceQuote) -> Result<u64, ErrorCode> {
    if market.expiry_price != 0 {
        Ok(market.expiry_price)
    } else if quote.price < 0 {
        Err(ErrorCode::PriceError)
    } else {
        Ok(quote.price as u64)
    }
}

pub fn settled_expiry_price(market: &OptionMarket, quote: &PriceQuote) -> (r: Result<u64, ErrorCode>)
    ensures
        r == expiry_price_after(*market, *quote),
{
    if market.expiry_price != 0 {
        Ok(market.expiry_price)
    } else if quote.price < 0 {
        Err(ErrorCode::PriceError)
    } else {
        Ok(quote.price as u64)
    }
}

} // verus!
