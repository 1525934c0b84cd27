//! Normalization and classification: scaling the decoded rates and
//! budgets by the token decimal counts, the spread percentage, and the
//! overlap check.
use vstd::prelude::*;

use crate::DecodeError;
use crate::model::Strategy;
use crate::model::ParsedStrategy;
use crate::text::pow10_text;
use crate::text::spec_zero_text;
use crate::text::text_is_zero;
use crate::text::ten_pow_text;
use crate::text::units_text;
use crate::decimal::product_text;
use crate::decimal::product_ok;
use crate::decimal::quotient_text;
use crate::decimal::quotient_ok;
use crate::decimal::difference_text;
use crate::decimal::difference_ok;
use crate::decimal::rescaled2_text;
use crate::decimal::rescaled2_ok;
use crate::decimal::text_ge;
use crate::decimal::cmp_ok;
use crate::decimal::dec_mul;
use crate::decimal::dec_div;
use crate::decimal::dec_sub;
use crate::decimal::dec_rescale2;
use crate::decimal::dec_ge;
use crate::bigint::format_units_u128;
use crate::decode::decode_strategy;
use crate::decode::rate_text;
use crate::decode::order_rates_ok;
use crate::decode::float_val;
use crate::decode::order_marginal;
use crate::decode::snapshot_text;

verus! {

/// The widest signed power of ten that rust_decimal can represent: its
/// 96-bit mantissa holds 10^28, and its scale at most 28 fractional
/// digits.
pub const MAX_POW10: i32 = 28;

/// The result of scaling a decimal text by ten to the signed power `e`.
pub open spec fn norm_text(s: Seq<char>, e: int) -> Seq<char> {
    product_text(s, pow10_text(e))
}

/// Whether the direct scaling can be computed: the power of ten is in
/// rust_decimal's range and the product representable.
pub open spec fn norm_ok(s: Seq<char>, e: int) -> bool {
    &&& -MAX_POW10 <= e <= MAX_POW10
    &&& product_ok(s, pow10_text(e))
}

/// The result of inverting a nonzero decimal text and scaling the inverse
/// by ten to the signed power `e`; a zero text short-circuits to "0".
pub open spec fn inv_text(s: Seq<char>, e: int) -> Seq<char> {
    if spec_zero_text(s) {
        "0"@
    } else {
        product_text(quotient_text("1"@, s), pow10_text(e))
    }
}

/// Whether the inverted scaling can be computed: a zero text always can,
/// any other needs the power of ten in range and the inverse and product
/// representable.
pub open spec fn inv_ok(s: Seq<char>, e: int) -> bool {
    ||| spec_zero_text(s)
    ||| {
        &&& -MAX_POW10 <= e <= MAX_POW10
        &&& quotient_ok("1"@, s)
        &&& product_ok(quotient_text("1"@, s), pow10_text(e))
    }
}

/// Scales a rate text by ten to the power of the difference of the two
/// decimal counts. A difference outside rust_decimal's representable
/// range is a conversion error.
pub fn normalize_rate(amount: String, amount_token_decimals: u8, other_token_decimals: u8) -> (r:
    Result<String, DecodeError>)
    ensures
        r is Ok <==> norm_ok(amount@, amount_token_decimals - other_token_decimals),
        r matches Ok(s) ==> s@ == norm_text(
            amount@,
            amount_token_decimals - other_token_decimals,
        ),
        r matches Err(f) ==> f == DecodeError::ParseError || f == DecodeError::ConversionError,
        amount_token_decimals - other_token_decimals > MAX_POW10 ==> r == Err::<
            String,
            DecodeError,
        >(DecodeError::ConversionError),
        amount_token_decimals - other_token_decimals < -MAX_POW10 ==> r == Err::<
            String,
            DecodeError,
        >(DecodeError::ConversionError),
{
    let e: i32 = amount_token_decimals as i32 - other_token_decimals as i32;
    if e > MAX_POW10 || e < -MAX_POW10 {
        return Err(DecodeError::ConversionError);
    }
    let tp = ten_pow_text(e);
    dec_mul(amount.as_str(), tp.as_str())
}

/// Inverts a rate text (the sell side runs opposite to the base/quote
/// convention) and scales the inverse by ten to the power of the
/// difference of the two decimal counts. A zero rate is preserved as "0"
/// rather than inverted.
pub fn normalize_inverted_rate(
    amount: String,
    amount_token_decimals: u8,
    other_token_decimals: u8,
) -> (r: Result<String, DecodeError>)
    ensures
        r is Ok <==> inv_ok(amount@, other_token_decimals - amount_token_decimals),
        r matches Ok(s) ==> s@ == inv_text(
            amount@,
            other_token_decimals - amount_token_decimals,
        ),
        r matches Err(f) ==> f == DecodeError::ParseError || f == DecodeError::ConversionError,
        spec_zero_text(amount@) ==> (r matches Ok(s) && s@ == "0"@),
        !spec_zero_text(amount@) && other_token_decimals - amount_token_decimals > MAX_POW10
            ==> r == Err::<String, DecodeError>(DecodeError::ConversionError),
        !spec_zero_text(amount@) && other_token_decimals - amount_token_decimals < -MAX_POW10
            ==> r == Err::<String, DecodeError>(DecodeError::ConversionError),
{
    if text_is_zero(amount.as_str()) {
        return Ok("0".to_owned());
    }
    let e: i32 = other_token_decimals as i32 - amount_token_decimals as i32;
    if e > MAX_POW10 || e < -MAX_POW10 {
        return Err(DecodeError::ConversionError);
    }
    let inv = match dec_div("1", amount.as_str()) {
        Ok(v) => v,
        Err(f) => {
            return Err(f);
        },
    };
    let tp = ten_pow_text(e);
    dec_mul(inv.as_str(), tp.as_str())
}

/// The spread percentage text: the sell top price over the buy top price,
/// minus one, times one hundred, shown with exactly two fractional digits
/// (rounded half away from zero).
pub open spec fn spread_text(buy_high: Seq<char>, sell_high: Seq<char>) -> Seq<char> {
    rescaled2_text(product_text(difference_text(quotient_text(sell_high, buy_high), "1"@), "100"@))
}

/// Whether the spread can be computed: each of the four decimal steps is
/// representable.
pub open spec fn spread_ok(buy_high: Seq<char>, sell_high: Seq<char>) -> bool {
    let q = quotient_text(sell_high, buy_high);
    let d = difference_text(q, "1"@);
    let p = product_text(d, "100"@);
    &&& quotient_ok(sell_high, buy_high)
    &&& difference_ok(q, "1"@)
    &&& product_ok(d, "100"@)
    &&& rescaled2_ok(p)
}

/// Computes the percentage spread between the top-of-book sell and buy
/// prices.
pub fn spread_percent(buy_price_high: &str, sell_price_high: &str) -> (r: Result<
    String,
    DecodeError,
>)
    ensures
        r is Ok <==> spread_ok(buy_price_high@, sell_price_high@),
        r matches Ok(s) ==> s@ == spread_text(buy_price_high@, sell_price_high@),
        r matches Err(f) ==> f == DecodeError::ParseError || f == DecodeError::ConversionError,
{
    let q = match dec_div(sell_price_high, buy_price_high) {
        Ok(v) => v,
        Err(f) => {
            return Err(f);
        },
    };
    let d = match dec_sub(q.as_str(), "1") {
        Ok(v) => v,
        Err(f) => {
            return Err(f);
        },
    };
    let p = match dec_mul(d.as_str(), "100") {
        Ok(v) => v,
        Err(f) => {
            return Err(f);
        },
    };
    dec_rescale2(p.as_str())
}

/// Every field a parsed strategy holds for a raw strategy and the two
/// token decimal counts: buy prices are order 1's rates scaled directly,
/// sell prices are order 0's rates inverted (which flips lowest and
/// highest), budgets are the liquidities scaled by the token decimals,
/// and the snapshot is the canonical rendering of the raw structure.
pub open spec fn parsed_strategy_ok(s: Strategy, d0: u8, d1: u8, p: ParsedStrategy) -> bool {
    &&& p.id@ == s.id@
    &&& p.base_token@ == s.token0@
    &&& p.quote_token@ == s.token1@
    &&& p.buy_price_low@ == norm_text(rate_text(float_val(s.order1.b)), d0 - d1)
    &&& p.buy_price_marginal@ == norm_text(rate_text(order_marginal(s.order1) as nat), d0 - d1)
    &&& p.buy_price_high@ == norm_text(
        rate_text((float_val(s.order1.b) + float_val(s.order1.a)) as nat),
        d0 - d1,
    )
    &&& p.sell_price_low@ == inv_text(
        rate_text((float_val(s.order0.b) + float_val(s.order0.a)) as nat),
        d0 - d1,
    )
    &&& p.sell_price_marginal@ == inv_text(rate_text(order_marginal(s.order0) as nat), d0 - d1)
    &&& p.sell_price_high@ == inv_text(rate_text(float_val(s.order0.b)), d0 - d1)
    &&& p.sell_budget@ == units_text(s.order0.y as nat, d0 as nat)
    &&& p.buy_budget@ == units_text(s.order1.y as nat, d1 as nat)
    &&& p.spread_ppm@ == spread_text(p.buy_price_high@, p.sell_price_high@)
    &&& p.encoded@ == snapshot_text(s)
}

/// Whether the whole decode-and-normalize pipeline succeeds on a raw
/// strategy and two decimal counts: both orders' rates render, all six
/// scalings and the spread are representable, and both decimal counts
/// are small enough to render a budget.
pub open spec fn parse_ok(s: Strategy, d0: u8, d1: u8) -> bool {
    let e = d0 - d1;
    let low1 = rate_text(float_val(s.order1.b));
    let marg1 = rate_text(order_marginal(s.order1) as nat);
    let high1 = rate_text((float_val(s.order1.b) + float_val(s.order1.a)) as nat);
    let low0 = rate_text(float_val(s.order0.b));
    let marg0 = rate_text(order_marginal(s.order0) as nat);
    let high0 = rate_text((float_val(s.order0.b) + float_val(s.order0.a)) as nat);
    &&& order_rates_ok(s.order0)
    &&& order_rates_ok(s.order1)
    &&& norm_ok(low1, e)
    &&& norm_ok(marg1, e)
    &&& norm_ok(high1, e)
    &&& inv_ok(high0, e)
    &&& inv_ok(marg0, e)
    &&& inv_ok(low0, e)
    &&& d0 <= 77
    &&& d1 <= 77
    &&& spread_ok(norm_text(high1, e), inv_text(low0, e))
}

/// Decodes and normalizes a raw strategy into decimal prices, budgets and
/// the spread, given the two tokens' decimal counts.
pub fn parse_strategy(strategy: Strategy, strategy_token_decimals: [u8; 2]) -> (r: Result<
    ParsedStrategy,
    DecodeError,
>)
    requires
        strategy.order0.y <= strategy.order0.z,
        strategy.order1.y <= strategy.order1.z,
    ensures
        r is Ok <==> parse_ok(strategy, strategy_token_decimals[0], strategy_token_decimals[1]),
        r matches Ok(p) ==> parsed_strategy_ok(
            strategy,
            strategy_token_decimals[0],
            strategy_token_decimals[1],
            p,
        ),
        r matches Err(f) ==> f == DecodeError::ParseError || f == DecodeError::ConversionError,
{
    let decoded = match decode_strategy(&strategy) {
        Ok(v) => v,
        Err(f) => {
            return Err(f);
        },
    };
    let decimals0 = strategy_token_decimals[0];
    let decimals1 = strategy_token_decimals[1];
    let buy_price_low = match normalize_rate(decoded.order1.lowest_rate, decimals0, decimals1) {
        Ok(v) => v,
        Err(f) => {
            return Err(f);
        },
    };
    let buy_price_marginal = match normalize_rate(
        decoded.order1.marginal_rate,
        decimals0,
        decimals1,
    ) {
        Ok(v) => v,
        Err(f) => {
            return Err(f);
        },
    };
    let buy_price_high = match normalize_rate(decoded.order1.highest_rate, decimals0, decimals1) {
        Ok(v) => v,
        Err(f) => {
            return Err(f);
        },
    };
    let sell_price_low = match normalize_inverted_rate(
        decoded.order0.highest_rate,
        decimals1,
        decimals0,
    ) {
        Ok(v) => v,
        Err(f) => {
            return Err(f);
        },
    };
    let sell_price_marginal = match normalize_inverted_rate(
        decoded.order0.marginal_rate,
        decimals1,
        decimals0,
    ) {
        Ok(v) => v,
        Err(f) => {
            return Err(f);
        },
    };
    let sell_price_high = match normalize_inverted_rate(
        decoded.order0.lowest_rate,
        decimals1,
        decimals0,
    ) {
        Ok(v) => v,
        Err(f) => {
            return Err(f);
        },
    };
    let sell_budget = match format_units_u128(strategy.order0.y, decimals0) {
        Ok(v) => v,
        Err(f) => {
            return Err(f);
        },
    };
    let buy_budget = match format_units_u128(strategy.order1.y, decimals1) {
        Ok(v) => v,
        Err(f) => {
            return Err(f);
        },
    };
    let spread_ppm = match spread_percent(buy_price_high.as_str(), sell_price_high.as_str()) {
        Ok(v) => v,
        Err(f) => {
            return Err(f);
        },
    };
    Ok(ParsedStrategy {
        id: decoded.id,
        base_token: decoded.token0,
        quote_token: decoded.token1,
        buy_price_low,
        buy_price_marginal,
        buy_price_high,
        buy_budget,
        sell_price_low,
        sell_price_marginal,
        sell_price_high,
        sell_budget,
        spread_ppm,
        encoded: decoded.encoded,
    })
}

/// Decides whether a parsed strategy's price ranges overlap: a zero
/// bound on either side means "no bound set" and never overlaps;
/// otherwise the buy top price must reach the sell bottom price.
pub fn is_overlapping_strategy(strategy: &ParsedStrategy) -> (r: Result<bool, DecodeError>)
    ensures
        r is Ok <==> spec_zero_text(strategy.sell_price_low@) || spec_zero_text(
            strategy.buy_price_high@,
        ) || cmp_ok(strategy.buy_price_high@, strategy.sell_price_low@),
        spec_zero_text(strategy.sell_price_low@) || spec_zero_text(strategy.buy_price_high@)
            ==> (r matches Ok(b) && b == false),
        r matches Err(f) ==> f == DecodeError::ParseError || f == DecodeError::ConversionError,
        !spec_zero_text(strategy.sell_price_low@) && !spec_zero_text(strategy.buy_price_high@)
            ==> (r matches Ok(b) ==> b == text_ge(
            strategy.buy_price_high@,
            strategy.sell_price_low@,
        )),
{
    if text_is_zero(strategy.sell_price_low.as_str()) {
        return Ok(false);
    }
    if text_is_zero(strategy.buy_price_high.as_str()) {
        return Ok(false);
    }
    dec_ge(strategy.buy_price_high.as_str(), strategy.sell_price_low.as_str())
}

} // verus!
