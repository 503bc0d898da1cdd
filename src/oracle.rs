use crate::errors::ErrorCode;
use crate::utils::{attribute_value, bytes_equal, read_pyth_product_attribute};
use vstd::prelude::*;

verus! {

/// Size of a price account's layout.
pub const PRICE_ACCOUNT_SIZE: usize = 3312;

/// Size of a product account's layout.
pub const PRODUCT_ACCOUNT_SIZE: usize = 512;

/// Where a product account's price account key starts and ends.
pub const PRODUCT_PRICE_KEY_START: usize = 16;

pub const PRODUCT_PRICE_KEY_END: usize = 48;

/// Number that opens every oracle account.
pub const ORACLE_MAGIC: u32 = 0xa1b2c3d4;

/// Layout version of the oracle accounts that are read.
pub const ORACLE_VERSION: u32 = 2;

/// Account type tags.
pub const PRODUCT_ACCOUNT_TYPE: u32 = 2;

pub const PRICE_ACCOUNT_TYPE: u32 = 3;

#[verifier::external_type_specification]
#[verifier::external_body]
pub struct ExPythError(pyth_client::PythError);

/// The little-endian `u32` at `at`.
pub open spec fn u32_le(data: Seq<u8>, at: int) -> int {
    data[at] + 0x100 * data[at + 1] + 0x1_0000 * data[at + 2] + 0x100_0000 * data[at + 3]
}

/// The little-endian two's-complement `i32` at `at`.
pub open spec fn i32_le(data: Seq<u8>, at: int) -> int {
    let v = u32_le(data, at);
    if v >= 0x8000_0000 {
        v - 0x1_0000_0000
    } else {
        v
    }
}

/// The little-endian two's-complement `i64` at `at`.
pub open spec fn i64_le(data: Seq<u8>, at: int) -> int {
    let v = u32_le(data, at) + 0x1_0000_0000 * u32_le(data, at + 4);
    if v >= 0x8000_0000_0000_0000 {
        v - 0x1_0000_0000_0000_0000
    } else {
        v
    }
}

/// Offsets, in the `repr(C)` price account layout, of the exponent, the
/// aggregate price and the aggregate price's status.
pub const PRICE_EXPONENT_OFFSET: usize = 20;

pub const AGGREGATE_PRICE_OFFSET: usize = 208;

pub const AGGREGATE_STATUS_OFFSET: usize = 224;

/// Status tag of a feed that is trading.
pub const STATUS_TRADING: u32 = 1;

/// `data` is long enough for an account of `size` bytes and its header holds
/// the magic number, the layout version and `account_type`.
pub open spec fn oracle_header_valid(data: Seq<u8>, size: int, account_type: u32) -> bool {
    &&& data.len() >= size
    &&& u32_le(data, 0) == ORACLE_MAGIC
    &&& u32_le(data, 4) == ORACLE_VERSION
    &&& u32_le(data, 8) == account_type
}

pub open spec fn price_account_valid(data: Seq<u8>) -> bool {
    oracle_header_valid(data, PRICE_ACCOUNT_SIZE as int, PRICE_ACCOUNT_TYPE)
}

pub open spec fn product_account_valid(data: Seq<u8>) -> bool {
    oracle_header_valid(data, PRODUCT_ACCOUNT_SIZE as int, PRODUCT_ACCOUNT_TYPE)
}

/// Key of the price account that a product account names.
pub open spec fn product_price_key(data: Seq<u8>) -> Seq<u8> {
    data.subrange(PRODUCT_PRICE_KEY_START as int, PRODUCT_PRICE_KEY_END as int)
}

/// The key/value attribute records of a product account.
pub open spec fn product_attributes(data: Seq<u8>) -> Seq<u8> {
    data.subrange(PRODUCT_PRICE_KEY_END as int, PRODUCT_ACCOUNT_SIZE as int)
}

/// What a product account holds that market initialization reads.
pub struct ProductAccount {
    /// Key of the product's price account.
    pub price_account: [u8; 32],
    /// Key/value attribute records.
    pub attributes: Vec<u8>,
}

/// A price and its decimal exponent: the price is `price * 10^expo`.
#[derive(Clone, Copy, Debug, PartialEq, Eq, Structural)]
pub struct PriceQuote {
    pub price: i64,
    pub expo: i32,
}

/// Relies on `pyth_client::load_price` and `Price::get_current_price`.
/// `load_price` accepts exactly the data that is at least a price account
/// long and whose header has the magic number, version 2 and the price
/// account type. `get_current_price` gives the aggregate price and the
/// exponent while the aggregate status is `Trading`, and `None` otherwise;
/// these are the fields at bytes 208, 20 and 224 of the `repr(C)` layout.
/// `load_price` panics on data that is not aligned for the account layout,
/// so it is handed an aligned copy made by `bytemuck::pod_collect_to_vec`.
#[verifier::external_body]
fn load_current_price(data: &[u8]) -> (r: Result<Option<PriceQuote>, pyth_client::PythError>)
    ensures
        r is Ok <==> price_account_valid(data@),
        r matches Ok(o) ==> (o is Some <==> u32_le(data@, AGGREGATE_STATUS_OFFSET as int)
            == STATUS_TRADING),
        r matches Ok(Some(q)) ==> q.price == i64_le(data@, AGGREGATE_PRICE_OFFSET as int) && q.expo
            == i32_le(data@, PRICE_EXPONENT_OFFSET as int),
{
    let aligned: Vec<u64> = bytemuck::pod_collect_to_vec(data);
    let bytes: &[u8] = &bytemuck::cast_slice::<u64, u8>(&aligned)[..data.len()];
    pyth_client::load_price(bytes).map(
        |price| price.get_current_price().map(|c| PriceQuote { price: c.price, expo: c.expo }),
    )
}

/// Relies on `pyth_client::load_product`: it accepts exactly the data that is
/// at least a product account long and whose header has the magic number,
/// version 2 and the product account type; the price account key and the
/// attributes are the bytes of the `repr(C)` layout after the 16-byte header.
/// `load_product` panics on data that is not aligned for the account layout,
/// so it is handed an aligned copy made by `bytemuck::pod_collect_to_vec`.
#[verifier::external_body]
fn load_product_account(data: &[u8]) -> (r: Result<ProductAccount, pyth_client::PythError>)
    ensures
        r is Ok <==> product_account_valid(data@),
        r matches Ok(p) ==> p.price_account@ == product_price_key(data@) && p.attributes@
            == product_attributes(data@),
{
    let aligned: Vec<u64> = bytemuck::pod_collect_to_vec(data);
    let bytes: &[u8] = &bytemuck::cast_slice::<u64, u8>(&aligned)[..data.len()];
    pyth_client::load_product(bytes).map(
        |product| ProductAccount { price_account: product.px_acc.val, attributes: product.attr.to_vec() },
    )
}

/// What a price account quotes now: data that is not a price account is a
/// `PythError`, a feed that is not trading is a `PriceError`, and otherwise
/// the aggregate price with the account's exponent.
pub open spec fn price_account_quote(data: Seq<u8>) -> Result<PriceQuote, ErrorCode> {
    if !price_account_valid(data) {
        Err(ErrorCode::PythError)
    } else if u32_le(data, AGGREGATE_STATUS_OFFSET as int) != STATUS_TRADING {
        Err(ErrorCode::PriceError)
    } else {
        Ok(
            PriceQuote {
                price: i64_le(data, AGGREGATE_PRICE_OFFSET as int) as i64,
                expo: i32_le(data, PRICE_EXPONENT_OFFSET as int) as i32,
            },
        )
    }
}

/// Reads the current price and exponent of a price account.
pub fn current_price(price_account_data: &[u8]) -> (r: Result<PriceQuote, ErrorCode>)
    ensures
        r == price_account_quote(price_account_data@),
{
    match load_current_price(price_account_data) {
        Err(_) => Err(ErrorCode::PythError),
        Ok(None) => Err(ErrorCode::PriceError),
        Ok(Some(q)) => Ok(q),
    }
}

/// Attribute key that every usable product has.
pub open spec fn quote_currency_key() -> Seq<u8> {
    seq![113u8, 117, 111, 116, 101, 95, 99, 117, 114, 114, 101, 110, 99, 121]
}

/// Outcome of checking a product account against the price account that a
/// market is to be wired to.
pub open spec fn product_check(product_data: Seq<u8>, price_account: Seq<u8>) -> Result<(), ErrorCode> {
    if !product_account_valid(product_data) {
        Err(ErrorCode::PythError)
    } else if attribute_value(product_attributes(product_data), quote_currency_key()) is None {
        Err(ErrorCode::InvalidProduct)
    } else if product_price_key(product_data) != price_account {
        Err(ErrorCode::InvalidOracle)
    } else {
        Ok(())
    }
}

/// Checks that a product account is well formed, has a quote currency, and
/// names `price_account` as its price account.
pub fn validate_product(product_data: &[u8], price_account: &[u8; 32]) -> (r: Result<(), ErrorCode>)
    ensures
        r == product_check(product_data@, price_account@),
{
    let product = match load_product_account(product_data) {
        Err(_) => {
            return Err(ErrorCode::PythError);
        },
        Ok(p) => p,
    };
    let key: [u8; 14] = [113, 117, 111, 116, 101, 95, 99, 117, 114, 114, 101, 110, 99, 121];
    assert(key@ =~= quote_currency_key());
    if read_pyth_product_attribute(product.attributes.as_slice(), key.as_slice()).is_none() {
        return Err(ErrorCode::InvalidProduct);
    }
    if !bytes_equal(product.price_account.as_slice(), price_account.as_slice()) {
        return Err(ErrorCode::InvalidOracle);
    }
    Ok(())
}

} // verus!
