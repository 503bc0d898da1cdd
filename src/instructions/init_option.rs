use crate::errors::ErrorCode;
use crate::oracle::{product_check, validate_product};
use crate::state::{OptionBumps, OptionMarket};
use crate::utils::bytes_equal;
use vstd::prelude::*;

verus! {

/// A market was created.
#[derive(Clone, Copy, Debug)]
pub struct OptionEvent {
    pub market: [u8; 32],
    pub base_mint: [u8; 32],
    pub collateral_mint: [u8; 32],
    pub short_note_mint: [u8; 32],
    pub long_note_mint: [u8; 32],
    pub pyth_oracle_price: [u8; 32],
    pub strike_price: u64,
    pub expiry_timestamp: i64,
    pub is_put: bool,
}

/// The accounts of a new market, as far as the decision reads them.
#[derive(Clone, Copy, Debug)]
pub struct InitializeOption {
    pub market: [u8; 32],
    pub market_authority: [u8; 32],
    pub base_mint: [u8; 32],
    pub collateral_mint: [u8; 32],
    pub short_note_mint: [u8; 32],
    pub long_note_mint: [u8; 32],
    pub vault: [u8; 32],
    pub pyth_oracle_price: [u8; 32],
    /// Bump seeds that derived the market's addresses.
    pub bumps: OptionBumps,
}

/// The market that a successful initialization records: every identity
/// and parameter, and no expiry price yet.
pub open spec fn new_market(
    accounts: InitializeOption,
    strike_price: u64,
    expiry_timestamp: i64,
    is_put: bool,
) -> OptionMarket {
    OptionMarket {
        market_authority: accounts.market_authority,
        base_mint: accounts.base_mint,
        collateral_mint: accounts.collateral_mint,
        short_note_mint: accounts.short_note_mint,
        long_note_mint: accounts.long_note_mint,
        vault: accounts.vault,
        bumps: accounts.bumps,
        pyth_oracle_price: accounts.pyth_oracle_price,
        strike_price,
        expiry_price: 0,
        expiry_timestamp,
        is_put,
    }
}

pub open spec fn new_market_event(
    accounts: InitializeOption,
    strike_price: u64,
    expiry_timestamp: i64,
    is_put: bool,
) -> OptionEvent {
    OptionEvent {
        market: accounts.market,
        base_mint: accounts.base_mint,
        collateral_mint: accounts.collateral_mint,
        short_note_mint: accounts.short_note_mint,
        long_note_mint: accounts.long_note_mint,
        pyth_oracle_price: accounts.pyth_oracle_price,
        strike_price,
        expiry_timestamp,
        is_put,
    }
}

/// Outcome of creating a market at time `now`: a call must take its base
/// asset as collateral, the expiry must be in the future, and the oracle
/// product must be well formed, have a quote currency and name the market's
/// price account.
pub open spec fn init_outcome(
    accounts: InitializeOption,
    product_data: Seq<u8>,
    now: i64,
    strike_price: u64,
    expiry_timestamp: i64,
    is_put: bool,
) -> Result<(OptionMarket, OptionEvent), ErrorCode> {
    if !is_put && accounts.base_mint@ != accounts.collateral_mint@ {
        Err(ErrorCode::CollateralMismatch)
    } else if expiry_timestamp <= now {
        Err(ErrorCode::OptionExpired)
    } else {
        match product_check(product_data, accounts.pyth_oracle_price@) {
            Err(e) => Err(e),
            Ok(_) => Ok(
                (
                    new_market(accounts, strike_price, expiry_timestamp, is_put),
                    new_market_event(accounts, strike_price, expiry_timestamp, is_put),
                ),
            ),
        }
    }
}

/// Creates a market, checking its parameters and its oracle product account.
pub fn handler(
    accounts: &InitializeOption,
    product_data: &[u8],
    now: i64,
    strike_price: u64,
    expiry_timestamp: i64,
    is_put: bool,
) -> (r: Result<(OptionMarket, OptionEvent), ErrorCode>)
    ensures
        r == init_outcome(*accounts, product_data@, now, strike_price, expiry_timestamp, is_put),
        r matches Ok((market, _)) ==> market.wf() && !market.is_settled(),
{
    if !is_put && !bytes_equal(accounts.base_mint.as_slice(), accounts.collateral_mint.as_slice()) {
        return Err(ErrorCode::CollateralMismatch);
    }
    if expiry_timestamp <= now {
        return Err(ErrorCode::OptionExpired);
    }
    if let Err(e) = validate_product(product_data, &accounts.pyth_oracle_price) {
        return Err(e);
    }
    let market = OptionMarket {
        market_authority: accounts.market_authority,
        base_mint: accounts.base_mint,
        collateral_mint: accounts.collateral_mint,
        short_note_mint: accounts.short_note_mint,
        long_note_mint: accounts.long_note_mint,
        vault: accounts.vault,
        bumps: accounts.bumps,
        pyth_oracle_price: accounts.pyth_oracle_price,
        strike_price,
        expiry_price: 0,
        expiry_timestamp,
        is_put,
    };
    let event = OptionEvent {
        market: accounts.market,
        base_mint: accounts.base_mint,
        collateral_mint: accounts.collateral_mint,
        short_note_mint: accounts.short_note_mint,
        long_note_mint: accounts.long_note_mint,
        pyth_oracle_price: accounts.pyth_oracle_price,
        strike_price,
        expiry_timestamp,
        is_put,
    };
    Ok((market, event))
}

} // verus!
