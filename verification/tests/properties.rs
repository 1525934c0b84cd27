use graphene_decode::DecodeError;
use graphene_decode::decode::decode_float;
use graphene_decode::decode::decode_order;
use graphene_decode::decode::build_snapshot;
use graphene_decode::model::Order;
use graphene_decode::model::ParsedStrategy;
use graphene_decode::model::Strategy;
use graphene_decode::parse::is_overlapping_strategy;
use graphene_decode::parse::normalize_inverted_rate;
use graphene_decode::parse::normalize_rate;
use graphene_decode::parse::parse_strategy;
use graphene_decode::parse::spread_percent;

fn parsed_with_prices(sell_price_low: &str, buy_price_high: &str) -> ParsedStrategy {
    ParsedStrategy {
        id: String::from("1"),
        base_token: String::from("0x00"),
        quote_token: String::from("0x01"),
        buy_price_low: String::from("1"),
        buy_price_marginal: String::from("1"),
        buy_price_high: String::from(buy_price_high),
        buy_budget: String::from("0"),
        sell_price_low: String::from(sell_price_low),
        sell_price_marginal: String::from("1"),
        sell_price_high: String::from("1"),
        sell_budget: String::from("0"),
        spread_ppm: String::from("0.00"),
        encoded: String::new(),
    }
}

#[test]
fn marginal_rate_equals_highest_for_untouched_order() {
    let order = Order {
        y: 5272165526976235778,
        z: 5272165526976235778,
        a: 137699263369260,
        b: 785475461108442,
    };
    let decoded = decode_order(&order).unwrap();
    assert_eq!(decoded.marginal_rate, decoded.highest_rate);
    assert_ne!(decoded.marginal_rate, decoded.lowest_rate);
}

#[test]
fn marginal_rate_equals_lowest_for_empty_order() {
    let order = Order { y: 0, z: 20000000000000000, a: 15495486182908, b: 68947006830288 };
    let decoded = decode_order(&order).unwrap();
    assert_eq!(decoded.marginal_rate, decoded.lowest_rate);
    assert_ne!(decoded.marginal_rate, decoded.highest_rate);
    assert_eq!(decoded.liquidity, "0");
}

fn canon(s: &str) -> String {
    if s.contains('.') {
        s.trim_end_matches('0').trim_end_matches('.').to_string()
    } else {
        s.to_string()
    }
}

#[test]
fn inverted_rate_round_trips() {
    let inverted = normalize_inverted_rate(String::from("2"), 6, 6).unwrap();
    assert_eq!(canon(&inverted), "0.5");
    let back = normalize_inverted_rate(inverted, 6, 6).unwrap();
    assert_eq!(canon(&back), "2");
}

#[test]
fn inverted_rate_round_trips_with_decimals() {
    // Scaling by ten to the power 2 - 4 and inverting, twice, recovers the
    // value: 1/8 * 10^-2 = 0.00125, and 1/0.00125 * 10^-2 = 8.
    let inverted = normalize_inverted_rate(String::from("8"), 4, 2).unwrap();
    assert_eq!(canon(&inverted), "0.00125");
    let back = normalize_inverted_rate(inverted, 4, 2).unwrap();
    assert_eq!(canon(&back), "8");
}

#[test]
fn zero_rate_short_circuits() {
    assert_eq!(normalize_inverted_rate(String::from("0"), 18, 6).unwrap(), "0");
    assert_eq!(normalize_inverted_rate(String::from("0"), 6, 18).unwrap(), "0");
    assert_eq!(normalize_inverted_rate(String::from("0"), 0, 0).unwrap(), "0");
    assert_eq!(normalize_inverted_rate(String::from("0.00"), 18, 6).unwrap(), "0");
    assert_eq!(normalize_inverted_rate(String::from("-0"), 3, 7).unwrap(), "0");
}

#[test]
fn overlap_is_false_on_zero_bounds() {
    let parsed = parsed_with_prices("0", "1000000");
    assert_eq!(is_overlapping_strategy(&parsed).unwrap(), false);
    let parsed = parsed_with_prices("1000000", "0");
    assert_eq!(is_overlapping_strategy(&parsed).unwrap(), false);
    let parsed = parsed_with_prices("0.000", "0");
    assert_eq!(is_overlapping_strategy(&parsed).unwrap(), false);
}

#[test]
fn overlap_compares_exactly() {
    let parsed = parsed_with_prices("3", "2.9999999999999999999999999999");
    assert_eq!(is_overlapping_strategy(&parsed).unwrap(), false);
    let parsed = parsed_with_prices("3", "3");
    assert_eq!(is_overlapping_strategy(&parsed).unwrap(), true);
    let parsed = parsed_with_prices("3", "3.0000000000000000000000000001");
    assert_eq!(is_overlapping_strategy(&parsed).unwrap(), true);
}

#[test]
fn normalize_rate_scales_by_decimal_difference() {
    assert_eq!(normalize_rate(String::from("2"), 7, 6).unwrap(), "20");
    assert_eq!(normalize_rate(String::from("2"), 6, 7).unwrap(), "0.2");
    assert_eq!(normalize_rate(String::from("2.5"), 6, 6).unwrap(), "2.5");
    assert_eq!(
        normalize_rate(String::from("1"), 34, 6).unwrap(),
        "10000000000000000000000000000"
    );
}

#[test]
fn normalize_rate_rejects_bad_input() {
    assert_eq!(normalize_rate(String::from("abc"), 6, 6), Err(DecodeError::ParseError));
    assert_eq!(normalize_rate(String::from("1"), 35, 6), Err(DecodeError::ConversionError));
    assert_eq!(normalize_rate(String::from("1"), 6, 35), Err(DecodeError::ConversionError));
    assert_eq!(
        normalize_inverted_rate(String::from("x1"), 6, 6),
        Err(DecodeError::ParseError)
    );
}

#[test]
fn decode_float_is_total_beyond_128_bits() {
    // Mantissa 1 with a left shift of 200 bits: the full value, no
    // fixed-width truncation.
    let value: u64 = 200 * 281474976710656 + 1;
    assert_eq!(
        decode_float(value).unwrap(),
        "1606938044258990275541962092341162602522202993782792835301376"
    );
    // A zero mantissa decodes to zero whatever the exponent says.
    let value: u64 = 200 * 281474976710656;
    assert_eq!(decode_float(value).unwrap(), "0");
    // Mantissa 1, exponent 127: the largest shift the narrow path takes.
    let value: u64 = 127 * 281474976710656 + 1;
    assert_eq!(decode_float(value).unwrap(), "170141183460469231731687303715884105728");
}

#[test]
fn oversized_rates_fail_at_price_rendering() {
    // The rate decodes in full precision, but a value of 2^200 is beyond
    // what rust_decimal can render as a price; its parser reports the
    // excess digits through its string error, which maps to ParseError.
    let order = Order { y: 1, z: 2, a: 200 * 281474976710656 + 1, b: 50 };
    assert!(matches!(decode_order(&order), Err(DecodeError::ParseError)));
}

#[test]
fn marginal_rate_interpolates_by_liquidity_fraction() {
    // b + floor(a * y / z) = 0 + floor(100 * 1 / 2) = 50, so the marginal
    // rate of the half-filled order equals the lowest rate of an order
    // whose encoded lowest rate is 50.
    let partial = decode_order(&Order { y: 1, z: 2, a: 100, b: 0 }).unwrap();
    let reference = decode_order(&Order { y: 3, z: 3, a: 0, b: 50 }).unwrap();
    assert_eq!(partial.marginal_rate, reference.lowest_rate);
    // The interpolation truncates: floor(100 * 1 / 3) = 33.
    let partial = decode_order(&Order { y: 1, z: 3, a: 100, b: 0 }).unwrap();
    let reference = decode_order(&Order { y: 3, z: 3, a: 0, b: 33 }).unwrap();
    assert_eq!(partial.marginal_rate, reference.lowest_rate);
}

#[test]
fn spread_rounds_half_away_from_zero() {
    // (2.0005 / 2 - 1) * 100 = 0.025 exactly: the tie rounds away from
    // zero, up to "0.03" (not to the even digit "0.02").
    assert_eq!(spread_percent("2", "2.0005").unwrap(), "0.03");
    assert_eq!(spread_percent("2", "2.0009").unwrap(), "0.05");
    assert_eq!(spread_percent("2", "1.9995").unwrap(), "-0.03");
}

#[test]
fn spread_has_two_fraction_digits() {
    assert_eq!(spread_percent("2", "3").unwrap(), "50.00");
    assert_eq!(spread_percent("2", "2").unwrap(), "0.00");
    assert_eq!(spread_percent("3", "2").unwrap(), "-33.33");
}

#[test]
fn spread_fails_on_malformed_prices() {
    assert_eq!(spread_percent("two", "3"), Err(DecodeError::ParseError));
    assert_eq!(spread_percent("0", "3"), Err(DecodeError::ConversionError));
}

#[test]
fn snapshot_has_stable_field_order() {
    let strategy = Strategy {
        id: String::from("7"),
        owner: String::from("0xaa"),
        token0: String::from("0xb0"),
        token1: String::from("0xb1"),
        order0: Order { y: 1, z: 2, a: 3, b: 4 },
        order1: Order { y: 5, z: 6, a: 7, b: 8 },
    };
    let encoded = build_snapshot(&strategy);
    assert_eq!(
        encoded,
        "{\"id\":\"7\",\"owner\":\"0xaa\",\"tokens\":[\"0xb0\",\"0xb1\"],\"orders\":[{\"y\":1,\"z\":2,\"A\":3,\"B\":4},{\"y\":5,\"z\":6,\"A\":7,\"B\":8}]}"
    );
}

#[test]
fn budgets_scale_by_token_decimals() {
    let strategy = Strategy {
        id: String::from("1"),
        owner: String::from("0xaa"),
        token0: String::from("0xb0"),
        token1: String::from("0xb1"),
        order0: Order {
            y: 443317550496385,
            z: 870293078344329,
            a: 3544951559321984,
            b: 4381635731557859,
        },
        order1: Order { y: 1020804, z: 2218082, a: 1751224833, b: 13361396492 },
    };
    let parsed = parse_strategy(strategy, [18, 6]).unwrap();
    assert_eq!(parsed.sell_budget, "0.000443317550496385");
    assert_eq!(parsed.buy_budget, "1.020804");
    assert_eq!(parsed.id, "1");
    assert_eq!(parsed.base_token, "0xb0");
    assert_eq!(parsed.quote_token, "0xb1");
}

#[test]
fn budgets_reject_oversized_decimal_counts() {
    let strategy = Strategy {
        id: String::from("1"),
        owner: String::from("0xaa"),
        token0: String::from("0xb0"),
        token1: String::from("0xb1"),
        order0: Order { y: 1, z: 2, a: 100, b: 50 },
        order1: Order { y: 1, z: 2, a: 100, b: 50 },
    };
    // Equal decimal counts keep the rate scaling in range, but a token
    // cannot have more decimal places than a 256-bit amount has digits.
    assert!(matches!(parse_strategy(strategy, [80, 80]), Err(DecodeError::ConversionError)));
}
