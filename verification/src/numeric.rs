use vstd::prelude::*;

use num_traits::cast::FromPrimitive;

verus! {

// Storage rows carry block heights and gas prices as arbitrary-precision
// decimals of the bigdecimal crate. The decimal type is opaque here; the
// number it holds is named by `decimal_int`, and the two conversions the
// rows need are trusted against the crate's source.

/// Relies on bigdecimal::BigDecimal, declared opaque; `decimal_int` names
/// the integer a decimal built by the conversions below holds.
#[verifier::external_type_specification]
#[verifier::external_body]
pub struct ExBigDecimal(bigdecimal::BigDecimal);

pub uninterp spec fn decimal_int(d: bigdecimal::BigDecimal) -> int;

/// Relies on `Clone for BigDecimal`, a derived fieldwise clone: the copy
/// holds the same number.
pub assume_specification[ <bigdecimal::BigDecimal as Clone>::clone ](
    d: &bigdecimal::BigDecimal,
) -> (r: bigdecimal::BigDecimal)
    ensures
        decimal_int(r) == decimal_int(*d),
;

pub uninterp spec fn u128_conversion_succeeds(v: u128) -> bool;

/// Relies on `From<u64> for BigDecimal`: it builds the decimal with that
/// integer value and scale zero, from the argument alone.
#[verifier::external_body]
pub(crate) fn decimal_from_u64(v: u64) -> (r: bigdecimal::BigDecimal)
    ensures
        decimal_int(r) == v as int,
{
    bigdecimal::BigDecimal::from(v)
}

/// Relies on `num_traits::FromPrimitive::from_u128` for BigDecimal: whether
/// a value comes back depends on the argument alone, and a value that comes
/// back is the decimal holding that integer.
#[verifier::external_body]
pub(crate) fn decimal_from_u128_checked(v: u128) -> (r: Option<bigdecimal::BigDecimal>)
    ensures
        r is Some == u128_conversion_succeeds(v),
        r matches Some(d) ==> decimal_int(d) == v as int,
{
    bigdecimal::BigDecimal::from_u128(v)
}

/// The integer a stored gas price holds for a source value: the value
/// itself when the conversion to the decimal representation succeeds, and
/// the documented fallback of zero when it does not.
pub open spec fn stored_gas_price(v: u128) -> int {
    if u128_conversion_succeeds(v) {
        v as int
    } else {
        0
    }
}

/// Converts a gas price for storage, substituting zero when the decimal
/// conversion yields nothing. The fallback silently produces a zero gas
/// price rather than surfacing the shortfall; the contract states it so a
/// caller can see the substitution.
pub fn gas_price_decimal(v: u128) -> (r: bigdecimal::BigDecimal)
    ensures
        decimal_int(r) == stored_gas_price(v),
{
    match decimal_from_u128_checked(v) {
        Option::Some(d) => d,
        Option::None => decimal_from_u64(0),
    }
}

/// Converts a block height for storage.
pub fn block_height_decimal(v: u64) -> (r: bigdecimal::BigDecimal)
    ensures
        decimal_int(r) == v as int,
{
    decimal_from_u64(v)
}

} // verus!
