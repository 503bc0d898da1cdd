//! The market's operations. Each handler decides one atomic step: it checks
//! the market, the time and the oracle quote, and returns the amounts to move
//! and the event to emit, or the error that aborts the step.

use crate::errors::ErrorCode;
use crate::oracle::PriceQuote;
use crate::state::OptionMarket;
use redeem::{redeem_outcome, RedeemOptions};
use settle::{settle_outcome, SettleOption};
use vstd::prelude::*;
use withdraw::{withdraw_outcome, WithdrawCollateral};

pub mod burn;
pub mod init_option;
pub mod mint;
pub mod redeem;
pub mod settle;
pub mod withdraw;

verus! {

/// Once the expiry price is captured it never changes: settling, redeeming
/// and withdrawing leave a settled market exactly as it is, whoever calls
/// them, in any order, whatever the oracle says.
pub proof fn lemma_settled_market_unchanged(
    market: OptionMarket,
    settle_accounts: SettleOption,
    redeem_accounts: RedeemOptions,
    withdraw_accounts: WithdrawCollateral,
    now: i64,
    quote: Result<PriceQuote, ErrorCode>,
    options: u64,
)
    requires
        market.is_settled(),
    ensures
        settle_outcome(market, settle_accounts, now, quote).0 == market,
        redeem_outcome(market, redeem_accounts, now, quote, options).0 == market,
        withdraw_outcome(market, withdraw_accounts, now, quote, options).0 == market,
{
}

} // verus!
