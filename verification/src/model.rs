//! The data model: the raw on-chain structure and its decoded forms.
use vstd::prelude::*;

verus! {

/// One resting order of a strategy, as stored on chain: current liquidity
/// `y`, total capacity `z` (invariant: `z >= y`), and the two
/// compressed-float-encoded rate fields `a` (the span between the lowest
/// and highest rate) and `b` (the lowest rate).
#[derive(Clone, Debug)]
pub struct Order {
    pub y: u128,
    pub z: u128,
    pub a: u64,
    pub b: u64,
}

/// A raw strategy: an identifier rendered as a decimal string, the owner
/// address, the two token addresses, and the two fixed order slots.
/// Order 0 sells token0 for token1; order 1 sells token1 for token0.
#[derive(Clone, Debug)]
pub struct Strategy {
    pub id: String,
    pub owner: String,
    pub token0: String,
    pub token1: String,
    pub order0: Order,
    pub order1: Order,
}

/// One order after decoding: the liquidity and the three rate bounds, each
/// as a decimal string still in the encoded (pre-normalization) unit.
#[derive(Clone, Debug)]
pub struct DecodedOrder {
    pub liquidity: String,
    pub lowest_rate: String,
    pub highest_rate: String,
    pub marginal_rate: String,
}

/// A strategy after decoding both orders, together with the canonical
/// textual snapshot of the raw structure.
#[derive(Clone, Debug)]
pub struct DecodedStrategy {
    pub id: String,
    pub token0: String,
    pub token1: String,
    pub order0: DecodedOrder,
    pub order1: DecodedOrder,
    pub encoded: String,
}

/// A fully normalized strategy: directional prices and budgets scaled by
/// the token decimal counts, the spread percentage, and the canonical
/// snapshot of the raw structure.
#[derive(Clone, Debug)]
pub struct ParsedStrategy {
    pub id: String,
    pub base_token: String,
    pub quote_token: String,
    pub buy_price_low: String,
    pub buy_price_marginal: String,
    pub buy_price_high: String,
    pub buy_budget: String,
    pub sell_price_low: String,
    pub sell_price_marginal: String,
    pub sell_price_high: String,
    pub sell_budget: String,
    pub spread_ppm: String,
    pub encoded: String,
}

} // verus!
