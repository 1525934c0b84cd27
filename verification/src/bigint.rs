//! The trusted boundary to big-integer arithmetic and integer rendering,
//! with exact contracts. The compressed-float pipeline needs values up to
//! 2^65583 (a 48-bit mantissa shifted by up to 65535 bits), held here as
//! canonical decimal digit texts and computed through ruint's `Uint` of
//! 65792 bits (enough for such a value times a 128-bit liquidity).
use vstd::prelude::*;
use vstd::arithmetic::power2::pow2;

use crate::DecodeError;
use crate::text::dec_digits_text;
use crate::text::digits_val;
use crate::text::is_digit_text;
use crate::text::units_text;

verus! {

/// Relies on `u128`'s `Display` implementation: the canonical decimal
/// digits of the value.
#[verifier::external_body]
pub(crate) fn u128_text(v: u128) -> (s: String)
    ensures
        s@ == dec_digits_text(v as nat),
{
    v.to_string()
}

/// Relies on ruint's `Uint` (via alloy): conversion from `u64`, left
/// shift, and decimal `Display`. With the exponent at most 65535 the
/// shifted value stays far below 2^65792, so the shift cannot wrap.
#[verifier::external_body]
pub(crate) fn big_float_text(mantissa: u64, exponent: u64) -> (s: String)
    requires
        exponent <= 65535,
    ensures
        s@ == dec_digits_text(((mantissa as nat) * pow2(exponent as nat)) as nat),
{
    let v = alloy::primitives::Uint::<65792, 1028>::from(mantissa) << (exponent as usize);
    v.to_string()
}

/// Relies on ruint's `Uint`: decimal `FromStr`, addition, and decimal
/// `Display`. The bounds keep the sum below 2^65585, far within 65792
/// bits, so the addition cannot wrap.
#[verifier::external_body]
pub(crate) fn big_add_text(a: &str, b: &str) -> (s: String)
    requires
        is_digit_text(a@),
        is_digit_text(b@),
        digits_val(a@) < pow2(65584),
        digits_val(b@) < pow2(65584),
    ensures
        s@ == dec_digits_text((digits_val(a@) + digits_val(b@)) as nat),
{
    let x = a.parse::<alloy::primitives::Uint<65792, 1028>>().unwrap();
    let y = b.parse::<alloy::primitives::Uint<65792, 1028>>().unwrap();
    (x + y).to_string()
}

/// Relies on ruint's `Uint`: decimal `FromStr`, multiplication, truncating
/// division (which panics only on a zero divisor, excluded here), and
/// decimal `Display`. The product stays below 2^65712, within 65792 bits.
#[verifier::external_body]
pub(crate) fn big_mul_div_text(a: &str, y: u128, z: u128) -> (s: String)
    requires
        is_digit_text(a@),
        digits_val(a@) < pow2(65584),
        z > 0,
    ensures
        s@ == dec_digits_text(((digits_val(a@) * y as nat) / z as nat) as nat),
{
    let x = a.parse::<alloy::primitives::Uint<65792, 1028>>().unwrap();
    let p = x * alloy::primitives::Uint::<65792, 1028>::from(y);
    let q = p / alloy::primitives::Uint::<65792, 1028>::from(z);
    q.to_string()
}

/// Relies on alloy's `format_units`: for a unit count of at most 77 it
/// renders the integer part, a period, and the remainder left-padded with
/// zeros to the unit count; a larger count is rejected as an invalid unit.
#[verifier::external_body]
pub(crate) fn format_units_u128(y: u128, d: u8) -> (r: Result<String, DecodeError>)
    ensures
        r is Ok ==> (r->Ok_0)@ == units_text(y as nat, d as nat),
        r is Ok <==> d <= 77,
        r is Err ==> r->Err_0 == DecodeError::ConversionError,
{
    alloy::primitives::utils::format_units(y, d).map_err(|_| DecodeError::ConversionError)
}

} // verus!
