//! A collateralized options market: matched short/long note pairs minted
//! against collateral, settled once at expiry from an oracle price.

pub mod errors;
pub mod instructions;
pub mod math;
pub mod oracle;
pub mod state;
pub mod utils;
