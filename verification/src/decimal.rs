//! The trusted boundary to rust_decimal's 96-bit fixed-point arithmetic.
//!
//! Every operation takes and returns decimal text. What an operation
//! returns is a function of its argument texts alone, but restating
//! rust_decimal's 28-digit rounding would amount to rewriting it, so each
//! result is only given a name; the verified pipeline composes the names
//! exactly. A malformed argument text maps to `ParseError`, a value or
//! result outside the representable range to `ConversionError`.
use vstd::prelude::*;

use crate::DecodeError;

verus! {

/// The rendered quotient of two decimal texts, at rust_decimal's working
/// precision.
pub uninterp spec fn quotient_text(a: Seq<char>, b: Seq<char>) -> Seq<char>;

/// Whether the quotient of two decimal texts can be computed: both texts
/// parse and the quotient is representable (the divisor nonzero).
pub uninterp spec fn quotient_ok(a: Seq<char>, b: Seq<char>) -> bool;

/// The rendered product of two decimal texts, at rust_decimal's working
/// precision.
pub uninterp spec fn product_text(a: Seq<char>, b: Seq<char>) -> Seq<char>;

/// Whether the product of two decimal texts can be computed: both texts
/// parse and the product is representable.
pub uninterp spec fn product_ok(a: Seq<char>, b: Seq<char>) -> bool;

/// The rendered difference of two decimal texts.
pub uninterp spec fn difference_text(a: Seq<char>, b: Seq<char>) -> Seq<char>;

/// Whether the difference of two decimal texts can be computed.
pub uninterp spec fn difference_ok(a: Seq<char>, b: Seq<char>) -> bool;

/// A decimal text rescaled to two fractional digits, rounding half away
/// from zero.
pub uninterp spec fn rescaled2_text(s: Seq<char>) -> Seq<char>;

/// Whether a decimal text can be rescaled: it parses.
pub uninterp spec fn rescaled2_ok(s: Seq<char>) -> bool;

/// Whether the value of the first decimal text is at least that of the
/// second.
pub uninterp spec fn text_ge(a: Seq<char>, b: Seq<char>) -> bool;

/// Whether two decimal texts can be compared: both parse.
pub uninterp spec fn cmp_ok(a: Seq<char>, b: Seq<char>) -> bool;

/// Relies on rust_decimal's `Decimal`: `FromStr`, `checked_div` and
/// `Display`. Division rounds the exact quotient to the 96-bit mantissa;
/// a zero divisor or an unrepresentable quotient yields `None` from
/// `checked_div` and is reported as `ConversionError`.
#[verifier::external_body]
pub(crate) fn dec_div(a: &str, b: &str) -> (r: Result<String, DecodeError>)
    ensures
        r is Ok <==> quotient_ok(a@, b@),
        r matches Ok(s) ==> s@ == quotient_text(a@, b@),
        r matches Err(f) ==> f == DecodeError::ParseError || f == DecodeError::ConversionError,
{
    let fault = |e| if matches!(e, rust_decimal::Error::ErrorString(_)) {
        DecodeError::ParseError
    } else {
        DecodeError::ConversionError
    };
    let x = a.parse::<rust_decimal::Decimal>().map_err(fault)?;
    let y = b.parse::<rust_decimal::Decimal>().map_err(fault)?;
    x.checked_div(y).map(|q| q.to_string()).ok_or(DecodeError::ConversionError)
}

/// Relies on rust_decimal's `Decimal`: `FromStr`, `checked_mul` and
/// `Display`. An unrepresentable product yields `None` from `checked_mul`
/// and is reported as `ConversionError`.
#[verifier::external_body]
pub(crate) fn dec_mul(a: &str, b: &str) -> (r: Result<String, DecodeError>)
    ensures
        r is Ok <==> product_ok(a@, b@),
        r matches Ok(s) ==> s@ == product_text(a@, b@),
        r matches Err(f) ==> f == DecodeError::ParseError || f == DecodeError::ConversionError,
{
    let fault = |e| if matches!(e, rust_decimal::Error::ErrorString(_)) {
        DecodeError::ParseError
    } else {
        DecodeError::ConversionError
    };
    let x = a.parse::<rust_decimal::Decimal>().map_err(fault)?;
    let y = b.parse::<rust_decimal::Decimal>().map_err(fault)?;
    x.checked_mul(y).map(|p| p.to_string()).ok_or(DecodeError::ConversionError)
}

/// Relies on rust_decimal's `Decimal`: `FromStr`, `checked_sub` and
/// `Display`.
#[verifier::external_body]
pub(crate) fn dec_sub(a: &str, b: &str) -> (r: Result<String, DecodeError>)
    ensures
        r is Ok <==> difference_ok(a@, b@),
        r matches Ok(s) ==> s@ == difference_text(a@, b@),
        r matches Err(f) ==> f == DecodeError::ParseError || f == DecodeError::ConversionError,
{
    let fault = |e| if matches!(e, rust_decimal::Error::ErrorString(_)) {
        DecodeError::ParseError
    } else {
        DecodeError::ConversionError
    };
    let x = a.parse::<rust_decimal::Decimal>().map_err(fault)?;
    let y = b.parse::<rust_decimal::Decimal>().map_err(fault)?;
    x.checked_sub(y).map(|d| d.to_string()).ok_or(DecodeError::ConversionError)
}

/// Relies on rust_decimal's `Decimal`: `FromStr`, `rescale` and `Display`.
/// `rescale(2)` pads a shorter fraction with zeros and rounds a longer one
/// half away from zero, so the result shows two fractional digits (for
/// values above about 7.9e26 the 96-bit mantissa cannot take the padding
/// and fewer digits remain).
#[verifier::external_body]
pub(crate) fn dec_rescale2(a: &str) -> (r: Result<String, DecodeError>)
    ensures
        r is Ok <==> rescaled2_ok(a@),
        r matches Ok(s) ==> s@ == rescaled2_text(a@),
        r matches Err(f) ==> f == DecodeError::ParseError || f == DecodeError::ConversionError,
{
    let fault = |e| if matches!(e, rust_decimal::Error::ErrorString(_)) {
        DecodeError::ParseError
    } else {
        DecodeError::ConversionError
    };
    let mut x = a.parse::<rust_decimal::Decimal>().map_err(fault)?;
    x.rescale(2);
    Ok(x.to_string())
}

/// Relies on rust_decimal's `Decimal`: `FromStr` and `PartialOrd`, an
/// exact comparison of the two parsed values.
#[verifier::external_body]
pub(crate) fn dec_ge(a: &str, b: &str) -> (r: Result<bool, DecodeError>)
    ensures
        r is Ok <==> cmp_ok(a@, b@),
        r matches Ok(v) ==> v == text_ge(a@, b@),
        r matches Err(f) ==> f == DecodeError::ParseError || f == DecodeError::ConversionError,
{
    let fault = |e| if matches!(e, rust_decimal::Error::ErrorString(_)) {
        DecodeError::ParseError
    } else {
        DecodeError::ConversionError
    };
    let x = a.parse::<rust_decimal::Decimal>().map_err(fault)?;
    let y = b.parse::<rust_decimal::Decimal>().map_err(fault)?;
    Ok(x >= y)
}

} // verus!
