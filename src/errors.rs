use vstd::prelude::*;

verus! {

/// Every way in which an operation on a market can be refused.
#[derive(Clone, Copy, Debug, PartialEq, Eq, Structural)]
pub enum ErrorCode {
    /// The operation needs an open market, or a new market was given an
    /// expiry that is not in the future.
    OptionExpired,
    /// The oracle account could not be decoded.
    PythError,
    /// The oracle product has no quote currency.
    InvalidProduct,
    /// The oracle product names another price account.
    InvalidOracle,
    /// The oracle has no usable price, or a negative one where a price is kept.
    PriceError,
    /// The operation needs an expired market.
    OptionNotExpired,
    /// A call market was given a collateral asset other than its base asset.
    CollateralMismatch,
    /// An amount cannot be computed in 64-bit integers: the oracle exponent is
    /// out of range, a result overflows, or a pool has no notes to share by.
    MathError,
}

} // verus!
