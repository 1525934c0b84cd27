//! Decoding: the compressed-float fields, the per-order rate bounds, and
//! the canonical snapshot of a raw strategy.
use vstd::prelude::*;
use vstd::arithmetic::power2::pow2;
use vstd::arithmetic::power2::lemma_pow2_adds;
use vstd::arithmetic::power2::lemma_pow2_pos;
use vstd::arithmetic::power2::lemma_pow2_strictly_increases;
use vstd::arithmetic::power2::lemma_pow2_unfold;
use vstd::arithmetic::power2::lemma2_to64;
use vstd::arithmetic::power2::lemma2_to64_rest;
use vstd::arithmetic::div_mod::lemma_div_is_ordered;
use vstd::arithmetic::div_mod::lemma_div_multiples_vanish;
use vstd::string::StringExecFns;

use crate::DecodeError;
use crate::model::Order;
use crate::model::Strategy;
use crate::model::DecodedOrder;
use crate::model::DecodedStrategy;
use crate::text::dec_digits_text;
use crate::text::lemma_dec_digits_text_canonical;
use crate::decimal::quotient_text;
use crate::decimal::quotient_ok;
use crate::decimal::product_text;
use crate::decimal::product_ok;
use crate::decimal::dec_div;
use crate::decimal::dec_mul;
use crate::bigint::u128_text;
use crate::bigint::big_float_text;
use crate::bigint::big_add_text;
use crate::bigint::big_mul_div_text;

verus! {

/// 2^48, the fixed-point unit of the compressed rate encoding.
pub const ONE: u64 = 281474976710656;

/// The value packed into a compressed-float field: the low 48 bits are
/// the mantissa, the high bits the left-shift exponent.
pub open spec fn float_val(v: u64) -> nat {
    ((v % ONE) as nat) * pow2((v / ONE) as nat)
}

/// Every compressed float decodes below 2^65583: the mantissa is under
/// 2^48 and the exponent at most 65535.
pub proof fn lemma_float_val_bound(v: u64)
    ensures
        float_val(v) < pow2(65583),
{
    let m = (v % ONE) as nat;
    let e = (v / ONE) as nat;
    lemma2_to64_rest();
    assert(m < pow2(48));
    assert(e <= 65535);
    lemma_pow2_pos(e);
    lemma_pow2_adds(48, e);
    assert(m * pow2(e) < pow2(48) * pow2(e)) by (nonlinear_arith)
        requires
            m < pow2(48),
            pow2(e) > 0,
    ;
    if 48 + e < 65583 {
        lemma_pow2_strictly_increases((48 + e) as nat, 65583);
    }
}

/// Decodes a compressed-float field into the decimal digit text of the
/// value it denotes — the mantissa shifted left by the exponent, in
/// unbounded precision, with no fixed-width truncation. The decode is
/// total; the `Result` keeps the stage's error surface.
pub fn decode_float(value: u64) -> (r: Result<String, DecodeError>)
    ensures
        r is Ok,
        r matches Ok(s) ==> s@ == dec_digits_text(float_val(value)),
{
    let mantissa: u64 = value % ONE;
    let exponent: u64 = value / ONE;
    if mantissa == 0 {
        assert(float_val(value) == 0);
        return Ok(u128_text(0));
    }
    let mut acc: u128 = mantissa as u128;
    let mut i: u64 = 0;
    proof {
        lemma2_to64();
    }
    while i < exponent
        invariant
            mantissa == value % ONE,
            exponent == value / ONE,
            mantissa > 0,
            i <= exponent,
            acc as nat == (mantissa as nat) * pow2(i as nat),
            acc > 0,
        decreases exponent - i,
    {
        if acc > u128::MAX / 2 {
            // The value outgrows 128 bits: hand the shift to the big
            // integer and render its digits there.
            return Ok(big_float_text(mantissa, exponent));
        }
        acc = acc * 2;
        proof {
            lemma_pow2_unfold((i + 1) as nat);
            assert((mantissa as nat) * pow2((i + 1) as nat) == ((mantissa as nat) * pow2(
                i as nat,
            )) * 2) by (nonlinear_arith)
                requires
                    pow2((i + 1) as nat) == 2 * pow2(i as nat),
            ;
        }
        i += 1;
    }
    Ok(u128_text(acc))
}

/// The decimal text of a raw rate value: the value divided by the digits
/// of `ONE` (2^48), squared, both steps at rust_decimal's working
/// precision (the protocol stores the square root of the true rate in
/// fixed point).
pub open spec fn rate_text(v: nat) -> Seq<char> {
    let q = quotient_text(dec_digits_text(v), "281474976710656"@);
    product_text(q, q)
}

/// Whether rust_decimal can compute the rate text of a raw rate value:
/// the quotient and its square are representable.
pub open spec fn rate_ok(v: nat) -> bool {
    let q = quotient_text(dec_digits_text(v), "281474976710656"@);
    &&& quotient_ok(dec_digits_text(v), "281474976710656"@)
    &&& product_ok(q, q)
}

/// Renders a raw rate value, given as its digit text, as its squared
/// decimal text.
fn decode_rate(text: &str, Ghost(v): Ghost<nat>) -> (r: Result<String, DecodeError>)
    requires
        text@ == dec_digits_text(v),
    ensures
        r is Ok <==> rate_ok(v),
        r matches Ok(s) ==> s@ == rate_text(v),
        r matches Err(f) ==> f == DecodeError::ParseError || f == DecodeError::ConversionError,
{
    let q = match dec_div(text, "281474976710656") {
        Ok(w) => w,
        Err(e) => {
            return Err(e);
        },
    };
    match dec_mul(q.as_str(), q.as_str()) {
        Ok(s) => Ok(s),
        Err(e) => Err(e),
    }
}

/// The marginal (current-liquidity) raw rate value of an order: the
/// highest rate when the order is untouched, otherwise the lowest rate
/// plus the span interpolated by the fraction `y / z`.
pub open spec fn order_marginal(o: Order) -> int {
    let a = float_val(o.a) as int;
    let b = float_val(o.b) as int;
    if o.y == o.z {
        b + a
    } else {
        b + (a * o.y) / (o.z as int)
    }
}

/// Whether rust_decimal can render all three rate texts of an order.
pub open spec fn order_rates_ok(o: Order) -> bool {
    &&& rate_ok(float_val(o.b))
    &&& rate_ok((float_val(o.b) + float_val(o.a)) as nat)
    &&& rate_ok(order_marginal(o) as nat)
}

/// What a decoded order holds for a raw order: the liquidity digits and
/// the three rate texts.
pub open spec fn decoded_order_ok(o: Order, d: DecodedOrder) -> bool {
    &&& d.liquidity@ == dec_digits_text(o.y as nat)
    &&& d.lowest_rate@ == rate_text(float_val(o.b))
    &&& d.highest_rate@ == rate_text((float_val(o.b) + float_val(o.a)) as nat)
    &&& d.marginal_rate@ == rate_text(order_marginal(o) as nat)
}

/// Decodes one order's four raw fields into its liquidity and three rate
/// bounds, in unbounded-precision arithmetic. An untouched order
/// (`y == z`) takes the highest rate as its marginal rate; an order with
/// no liquidity takes the lowest. It fails exactly where rust_decimal
/// cannot represent a rate.
pub fn decode_order(order: &Order) -> (r: Result<DecodedOrder, DecodeError>)
    requires
        order.y <= order.z,
    ensures
        r is Ok <==> order_rates_ok(*order),
        r matches Ok(d) ==> decoded_order_ok(*order, d),
        r matches Ok(d) ==> (order.y == order.z ==> d.marginal_rate@ == d.highest_rate@),
        r matches Ok(d) ==> (order.y == 0 && order.z > 0 ==> d.marginal_rate@
            == d.lowest_rate@),
        r matches Err(f) ==> f == DecodeError::ParseError || f == DecodeError::ConversionError,
{
    let ghost va = float_val(order.a);
    let ghost vb = float_val(order.b);
    proof {
        lemma_float_val_bound(order.a);
        lemma_float_val_bound(order.b);
        lemma_dec_digits_text_canonical(va);
        lemma_dec_digits_text_canonical(vb);
        lemma_dec_digits_text_canonical((vb + va) as nat);
        lemma_pow2_strictly_increases(65583, 65584);
    }
    let a_txt = match decode_float(order.a) {
        Ok(v) => v,
        Err(e) => {
            return Err(e);
        },
    };
    let b_txt = match decode_float(order.b) {
        Ok(v) => v,
        Err(e) => {
            return Err(e);
        },
    };
    let liquidity = u128_text(order.y);
    let lowest_rate = match decode_rate(b_txt.as_str(), Ghost(vb)) {
        Ok(v) => v,
        Err(e) => {
            return Err(e);
        },
    };
    let sum_txt = big_add_text(b_txt.as_str(), a_txt.as_str());
    let highest_rate = match decode_rate(sum_txt.as_str(), Ghost((vb + va) as nat)) {
        Ok(v) => v,
        Err(e) => {
            return Err(e);
        },
    };
    let marginal_rate = if order.y == order.z {
        highest_rate.clone()
    } else {
        let t = big_mul_div_text(a_txt.as_str(), order.y, order.z);
        let ghost vi = (va * order.y as nat) / (order.z as nat);
        proof {
            assert(va * order.y as nat <= va * order.z as nat) by (nonlinear_arith)
                requires
                    order.y <= order.z,
            ;
            lemma_div_is_ordered(
                (va * order.y as nat) as int,
                (va * order.z as nat) as int,
                order.z as int,
            );
            lemma_div_multiples_vanish(va as int, order.z as int);
            assert(va * order.z as nat == order.z as nat * va) by (nonlinear_arith);
            assert(vi <= va);
            lemma_dec_digits_text_canonical(vi);
            lemma_dec_digits_text_canonical((vb + vi) as nat);
        }
        let m_txt = big_add_text(b_txt.as_str(), t.as_str());
        assert(order.y == 0 ==> vb + vi == vb) by {
            if order.y == 0 {
                assert(va * 0nat == 0nat);
            }
        };
        assert(vb + vi == order_marginal(*order));
        match decode_rate(m_txt.as_str(), Ghost((vb + vi) as nat)) {
            Ok(v) => v,
            Err(e) => {
                return Err(e);
            },
        }
    };
    Ok(DecodedOrder { liquidity, lowest_rate, highest_rate, marginal_rate })
}

/// The canonical snapshot of one order: its four raw fields in stable
/// order.
pub open spec fn order_snapshot_text(o: Order) -> Seq<char> {
    "{\"y\":"@ + dec_digits_text(o.y as nat) + ",\"z\":"@ + dec_digits_text(o.z as nat)
        + ",\"A\":"@ + dec_digits_text(o.a as nat) + ",\"B\":"@ + dec_digits_text(o.b as nat)
        + "}"@
}

/// The canonical snapshot of a raw strategy: id, owner, tokens and orders
/// in stable field order.
pub open spec fn snapshot_text(s: Strategy) -> Seq<char> {
    "{\"id\":\""@ + s.id@ + "\",\"owner\":\""@ + s.owner@ + "\",\"tokens\":[\""@ + s.token0@
        + "\",\""@ + s.token1@ + "\"],\"orders\":["@ + order_snapshot_text(s.order0) + ","@
        + order_snapshot_text(s.order1) + "]}"@
}

/// Appends the canonical snapshot of one order.
fn append_order_snapshot(out: &mut String, o: &Order)
    ensures
        final(out)@ == old(out)@ + order_snapshot_text(*o),
{
    out.append("{\"y\":");
    let t = u128_text(o.y);
    out.append(t.as_str());
    out.append(",\"z\":");
    let t = u128_text(o.z);
    out.append(t.as_str());
    out.append(",\"A\":");
    let t = u128_text(o.a as u128);
    out.append(t.as_str());
    out.append(",\"B\":");
    let t = u128_text(o.b as u128);
    out.append(t.as_str());
    out.append("}");
    assert(out@ =~= old(out)@ + order_snapshot_text(*o));
}

/// Builds the canonical textual snapshot of a raw strategy. Building it
/// is total: no input makes it fail.
pub fn build_snapshot(strategy: &Strategy) -> (s: String)
    ensures
        s@ == snapshot_text(*strategy),
{
    let mut out = String::new();
    out.append("{\"id\":\"");
    out.append(strategy.id.as_str());
    out.append("\",\"owner\":\"");
    out.append(strategy.owner.as_str());
    out.append("\",\"tokens\":[\"");
    out.append(strategy.token0.as_str());
    out.append("\",\"");
    out.append(strategy.token1.as_str());
    out.append("\"],\"orders\":[");
    append_order_snapshot(&mut out, &strategy.order0);
    out.append(",");
    append_order_snapshot(&mut out, &strategy.order1);
    out.append("]}");
    assert(out@ =~= snapshot_text(*strategy));
    out
}

/// Decodes both orders of a strategy and retains the canonical snapshot
/// of the raw structure. The snapshot build is verified total, so the
/// `SerializationError` the taxonomy reserves for it never surfaces:
/// every failure here is an order's rate rendering.
pub fn decode_strategy(strategy: &Strategy) -> (r: Result<DecodedStrategy, DecodeError>)
    requires
        strategy.order0.y <= strategy.order0.z,
        strategy.order1.y <= strategy.order1.z,
    ensures
        r is Ok <==> order_rates_ok(strategy.order0) && order_rates_ok(strategy.order1),
        r matches Ok(d) ==> ({
            &&& d.id@ == strategy.id@
            &&& d.token0@ == strategy.token0@
            &&& d.token1@ == strategy.token1@
            &&& d.encoded@ == snapshot_text(*strategy)
            &&& decoded_order_ok(strategy.order0, d.order0)
            &&& decoded_order_ok(strategy.order1, d.order1)
        }),
        r matches Err(f) ==> f == DecodeError::ParseError || f == DecodeError::ConversionError,
{
    let encoded = build_snapshot(strategy);
    let order0 = match decode_order(&strategy.order0) {
        Ok(v) => v,
        Err(e) => {
            return Err(e);
        },
    };
    let order1 = match decode_order(&strategy.order1) {
        Ok(v) => v,
        Err(e) => {
            return Err(e);
        },
    };
    Ok(DecodedStrategy {
        id: strategy.id.clone(),
        token0: strategy.token0.clone(),
        token1: strategy.token1.clone(),
        order0,
        order1,
        encoded,
    })
}

} // verus!
