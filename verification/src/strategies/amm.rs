//! The concentrated-liquidity quoter: a ladder of prices on each side of an
//! index price, with sizes that follow a constant-product curve between the
//! ends of the range.

use crate::errors::ConfigError;
use crate::math::{
    isqrt, lemma_ratio_grows_downwards, lemma_root_between, lemma_root_bounds,
    lemma_root_monotonic, lemma_share_grows, root,
};
use crate::order::{lemma_total_size_push, total_size, Order, Side};
use crate::token::{Balances, Token, TokenPrices};
use vstd::arithmetic::div_mod::lemma_fundamental_div_mod_converse;
use vstd::prelude::*;

verus! {

/// The smaller of two integers.
pub open spec fn lower_of(a: int, b: int) -> int {
    if a <= b {
        a
    } else {
        b
    }
}

/// The larger of two integers.
pub open spec fn higher_of(a: int, b: int) -> int {
    if a >= b {
        a
    } else {
        b
    }
}

/// Parameters of the curve. Prices and distances between prices are in
/// hundredths of the unit price, `max_collateral` in hundredths of a unit of
/// collateral.
#[derive(Debug, Clone, Copy, PartialEq, Eq, Structural)]
pub struct AMMConfig {
    pub p_min: i64,
    pub p_max: i64,
    pub spread: u64,
    pub delta: u64,
    pub depth: u64,
    pub max_collateral: u64,
}

impl AMMConfig {
    /// The depth exceeds the spread.
    pub open spec fn wf(self) -> bool {
        self.spread < self.depth
    }

    /// The ladders have a positive step, so they end.
    pub open spec fn has_step(self) -> bool {
        self.delta > 0
    }

    /// Upper end of the range at index price `p_i`.
    pub open spec fn upper(self, p_i: int) -> int {
        lower_of(p_i + self.depth, self.p_max as int)
    }

    /// Lower end of the range at index price `p_i`.
    pub open spec fn lower(self, p_i: int) -> int {
        higher_of(p_i - self.depth, self.p_min as int)
    }

    /// Number of sell levels: prices from `p_i + spread` upwards in steps of
    /// `delta`, as long as they do not exceed the upper end.
    pub open spec fn sell_levels(self, p_i: int) -> nat {
        if p_i + self.spread > self.upper(p_i) {
            0
        } else {
            ((self.upper(p_i) - (p_i + self.spread)) / (self.delta as int) + 1) as nat
        }
    }

    /// Number of buy levels: prices from `p_i - spread` downwards in steps
    /// of `delta`, as long as they do not fall below the lower end.
    pub open spec fn buy_levels(self, p_i: int) -> nat {
        if p_i - self.spread < self.lower(p_i) {
            0
        } else {
            (((p_i - self.spread) - self.lower(p_i)) / (self.delta as int) + 1) as nat
        }
    }

    /// Price of sell level `k`.
    pub open spec fn sell_price_at(self, p_i: int, k: int) -> int {
        p_i + self.spread + k * self.delta
    }

    /// Price of buy level `k`.
    pub open spec fn buy_price_at(self, p_i: int, k: int) -> int {
        p_i - self.spread - k * self.delta
    }

    /// The sell ladder at index price `p_i`, nearest level first.
    pub open spec fn sell_prices(self, p_i: int) -> Seq<i64> {
        Seq::new(self.sell_levels(p_i), |k: int| self.sell_price_at(p_i, k) as i64)
    }

    /// The buy ladder at index price `p_i`, nearest level first.
    pub open spec fn buy_prices(self, p_i: int) -> Seq<i64> {
        Seq::new(self.buy_levels(p_i), |k: int| self.buy_price_at(p_i, k) as i64)
    }

    /// Decides whether a curve can be built: the depth must exceed the
    /// spread.
    pub fn check(&self) -> (r: Result<(), ConfigError>)
        ensures
            r is Ok <==> self.wf(),
            r is Err ==> r->Err_0 == ConfigError::DepthNotAboveSpread,
    {
        if self.spread >= self.depth {
            Err(ConfigError::DepthNotAboveSpread)
        } else {
            Ok(())
        }
    }

    /// Decides whether the ladders have a positive step.
    pub fn step_is_positive(&self) -> (r: bool)
        ensures
            r == self.has_step(),
    {
        self.delta > 0
    }
}

/// Every level of a ladder lies between the index price and the end of the
/// range, so it fits the type of a price.
pub proof fn lemma_sell_level_in_range(cfg: AMMConfig, p_i: i64, k: int)
    requires
        cfg.has_step(),
        0 <= k < cfg.sell_levels(p_i as int),
    ensures
        p_i <= cfg.sell_price_at(p_i as int, k) <= cfg.upper(p_i as int) <= cfg.p_max,
{
    let first = p_i + cfg.spread;
    let span = cfg.upper(p_i as int) - first;
    let d = cfg.delta as int;
    assert(k * d <= (span / d) * d) by (nonlinear_arith)
        requires
            0 <= k <= span / d,
            0 < d,
    ;
    assert((span / d) * d <= span) by (nonlinear_arith)
        requires
            0 <= span,
            0 < d,
    ;
    assert(0 <= k * d) by (nonlinear_arith)
        requires
            0 <= k,
            0 < d,
    ;
}

/// Every buy level lies between the lower end of the range and the index
/// price.
pub proof fn lemma_buy_level_in_range(cfg: AMMConfig, p_i: i64, k: int)
    requires
        cfg.has_step(),
        0 <= k < cfg.buy_levels(p_i as int),
    ensures
        cfg.p_min <= cfg.lower(p_i as int) <= cfg.buy_price_at(p_i as int, k) <= p_i,
{
    let first = p_i - cfg.spread;
    let span = first - cfg.lower(p_i as int);
    let d = cfg.delta as int;
    assert(k * d <= (span / d) * d) by (nonlinear_arith)
        requires
            0 <= k <= span / d,
            0 < d,
    ;
    assert((span / d) * d <= span) by (nonlinear_arith)
        requires
            0 <= span,
            0 < d,
    ;
    assert(0 <= k * d) by (nonlinear_arith)
        requires
            0 <= k,
            0 < d,
    ;
}

/// Builds the sell ladder: from `p_i + spread` upwards while the price does
/// not exceed `p_u`.
fn climb(cfg: &AMMConfig, p_i: i64, p_u: i64) -> (r: Vec<i64>)
    requires
        cfg.has_step(),
        p_u == cfg.upper(p_i as int),
    ensures
        r@ == cfg.sell_prices(p_i as int),
{
    let first: i128 = p_i as i128 + cfg.spread as i128;
    let delta: i128 = cfg.delta as i128;
    let mut price: i128 = first;
    let mut prices: Vec<i64> = Vec::new();
    assert(0 * (delta as int) == 0) by (nonlinear_arith);
    while price <= p_u as i128
        invariant
            cfg.has_step(),
            p_u == cfg.upper(p_i as int),
            first == p_i + cfg.spread,
            delta == cfg.delta,
            delta > 0,
            price == first + (prices@.len() as int) * (delta as int),
            prices@.len() > 0 ==> price - delta <= p_u,
            forall|k: int|
                0 <= k < prices@.len() ==> #[trigger] prices@[k] == (cfg.sell_price_at(
                    p_i as int,
                    k,
                ) as i64),
        decreases p_u + delta - price,
    {
        let ghost n = prices@.len() as int;
        proof {
            assert((n + 1) * delta == n * delta + delta) by (nonlinear_arith);
            assert(0 <= n * delta) by (nonlinear_arith)
                requires
                    0 <= n,
                    0 < delta,
            ;
        }
        prices.push(price as i64);
        price = price + delta;
    }
    proof {
        let n = prices@.len() as int;
        let span = p_u - first;
        if n > 0 {
            assert((n - 1) * delta == n * delta - delta) by (nonlinear_arith);
            lemma_fundamental_div_mod_converse(span, delta as int, n - 1, span - (n - 1) * delta);
        }
        assert(prices@ =~= cfg.sell_prices(p_i as int));
    }
    prices
}

/// Builds the buy ladder: from `p_i - spread` downwards while the price does
/// not fall below `p_l`.
fn descend(cfg: &AMMConfig, p_i: i64, p_l: i64) -> (r: Vec<i64>)
    requires
        cfg.has_step(),
        p_l == cfg.lower(p_i as int),
    ensures
        r@ == cfg.buy_prices(p_i as int),
{
    let first: i128 = p_i as i128 - cfg.spread as i128;
    let delta: i128 = cfg.delta as i128;
    let mut price: i128 = first;
    let mut prices: Vec<i64> = Vec::new();
    assert(0 * (delta as int) == 0) by (nonlinear_arith);
    while price >= p_l as i128
        invariant
            cfg.has_step(),
            p_l == cfg.lower(p_i as int),
            first == p_i - cfg.spread,
            delta == cfg.delta,
            delta > 0,
            price == first - (prices@.len() as int) * (delta as int),
            prices@.len() > 0 ==> price + delta >= p_l,
            forall|k: int|
                0 <= k < prices@.len() ==> #[trigger] prices@[k] == (cfg.buy_price_at(
                    p_i as int,
                    k,
                ) as i64),
        decreases price + delta - p_l,
    {
        let ghost n = prices@.len() as int;
        proof {
            assert((n + 1) * delta == n * delta + delta) by (nonlinear_arith);
            assert(0 <= n * delta) by (nonlinear_arith)
                requires
                    0 <= n,
                    0 < delta,
            ;
        }
        prices.push(price as i64);
        price = price - delta;
    }
    proof {
        let n = prices@.len() as int;
        let span = first - p_l;
        if n > 0 {
            assert((n - 1) * delta == n * delta - delta) by (nonlinear_arith);
            lemma_fundamental_div_mod_converse(span, delta as int, n - 1, span - (n - 1) * delta);
        }
        assert(prices@ =~= cfg.buy_prices(p_i as int));
    }
    prices
}

/// The curve is defined for prices above zero and up to the unit price.
pub open spec fn on_curve(p: int) -> bool {
    0 < p <= 100
}

/// The square root of a price, in millionths of the root of the unit price:
/// the integer square root of the price in hundredths times ten to the
/// tenth.
pub open spec fn price_root(p: int) -> nat {
    root((p * 10_000_000_000) as nat)
}

/// The roots of the prices on the curve lie between a tenth and one.
pub proof fn lemma_price_root_range(p: int)
    requires
        on_curve(p),
    ensures
        100_000 <= price_root(p) <= 1_000_000,
{
    lemma_root_between((p * 10_000_000_000) as nat, 100_000, 1_000_000);
}

/// A higher price on the curve has a strictly larger root.
pub proof fn lemma_price_root_strict(a: int, b: int)
    requires
        on_curve(a),
        on_curve(b),
        a < b,
    ensures
        price_root(a) < price_root(b),
{
    lemma_price_root_range(a);
    let r = price_root(a);
    lemma_root_bounds((a * 10_000_000_000) as nat);
    assert((r + 1) * (r + 1) == r * r + 2 * r + 1) by (nonlinear_arith);
    lemma_root_between((b * 10_000_000_000) as nat, r + 1, 1_000_000);
}

/// Total size, in hundredths of a token, that is sold from an inventory `x`
/// when the price has moved from the index price `p_i` up to `p_t`, on the
/// curve that sells all of `x` at `p_u`:
/// `x * (1/sqrt(p_i) - 1/sqrt(p_t)) / (1/sqrt(p_i) - 1/sqrt(p_u))`, rounded
/// down, with the roots taken by `price_root`. It is zero where the curve is
/// not defined, and never more than the largest `u64`.
pub open spec fn curve_sell_size(x: nat, p_i: int, p_t: int, p_u: int) -> nat {
    if on_curve(p_i) && on_curve(p_t) && on_curve(p_u) && p_i < p_u && p_i <= p_t {
        lower_of(
            (x * price_root(p_u) * (price_root(p_t) - price_root(p_i))) as int / (((price_root(p_u)
                - price_root(p_i)) * price_root(p_t)) as int),
            u64::MAX as int,
        ) as nat
    } else {
        0
    }
}

/// Total size, in hundredths of a token, that a collateral `y` buys when the
/// price has moved from the index price `p_i` down to `p_t`, on the curve
/// that spends all of `y` at `p_l`:
/// `y * (1/sqrt(p_t) - 1/sqrt(p_i)) / (sqrt(p_i) - sqrt(p_l))`, rounded
/// down, with the roots taken by `price_root`. It is zero where the curve is
/// not defined, and never more than the largest `u64`.
pub open spec fn curve_buy_size(y: nat, p_i: int, p_t: int, p_l: int) -> nat {
    if on_curve(p_i) && on_curve(p_t) && on_curve(p_l) && p_l < p_i && p_t <= p_i {
        lower_of(
            (y * (price_root(p_i) - price_root(p_t)) * 1_000_000_000_000) as int / (((price_root(
                p_i,
            ) - price_root(p_l)) * price_root(p_t) * price_root(p_i)) as int),
            u64::MAX as int,
        ) as nat
    } else {
        0
    }
}

/// What is left of `later` when `earlier` is taken away, and nothing when
/// `earlier` is the larger.
pub open spec fn step(earlier: nat, later: nat) -> nat {
    if later >= earlier {
        (later - earlier) as nat
    } else {
        0
    }
}

/// Computes the root of a price on the curve.
fn root_of_price(p: i64) -> (r: u64)
    requires
        on_curve(p as int),
    ensures
        r == price_root(p as int),
        100_000 <= r <= 1_000_000,
{
    proof {
        lemma_price_root_range(p as int);
    }
    isqrt((p as u64) * 10_000_000_000)
}

/// Decides whether a price lies on the curve.
fn is_on_curve(p: i64) -> (r: bool)
    ensures
        r == on_curve(p as int),
{
    0 < p && p <= 100
}

/// Computes `curve_sell_size`.
pub fn sell_size_on_curve(x: u64, p_i: i64, p_t: i64, p_u: i64) -> (r: u64)
    ensures
        r == curve_sell_size(x as nat, p_i as int, p_t as int, p_u as int),
{
    if !(is_on_curve(p_i) && is_on_curve(p_t) && is_on_curve(p_u) && p_i < p_u && p_i <= p_t) {
        return 0;
    }
    let s_i = root_of_price(p_i) as u128;
    let s_t = root_of_price(p_t) as u128;
    let s_u = root_of_price(p_u) as u128;
    proof {
        lemma_price_root_strict(p_i as int, p_u as int);
        if p_i < p_t {
            lemma_price_root_strict(p_i as int, p_t as int);
        }
    }
    let rise = s_t - s_i;
    let range = s_u - s_i;
    assert(x * s_u <= 0xffff_ffff_ffff_ffff * 1_000_000) by (nonlinear_arith)
        requires
            0 <= x <= 0xffff_ffff_ffff_ffff,
            0 <= s_u <= 1_000_000,
    ;
    assert(x * s_u * rise <= 0xffff_ffff_ffff_ffff * 1_000_000 * 1_000_000) by (nonlinear_arith)
        requires
            0 <= x * s_u <= 0xffff_ffff_ffff_ffff * 1_000_000,
            0 <= rise <= 1_000_000,
    ;
    assert(0 < range * s_t <= 1_000_000 * 1_000_000) by (nonlinear_arith)
        requires
            0 < range <= 1_000_000,
            0 < s_t <= 1_000_000,
    ;
    let total = (x as u128) * s_u * rise / (range * s_t);
    if total > u64::MAX as u128 {
        u64::MAX
    } else {
        total as u64
    }
}

/// Computes `curve_buy_size`.
pub fn buy_size_on_curve(y: u64, p_i: i64, p_t: i64, p_l: i64) -> (r: u64)
    ensures
        r == curve_buy_size(y as nat, p_i as int, p_t as int, p_l as int),
{
    if !(is_on_curve(p_i) && is_on_curve(p_t) && is_on_curve(p_l) && p_l < p_i && p_t <= p_i) {
        return 0;
    }
    let s_i = root_of_price(p_i) as u128;
    let s_t = root_of_price(p_t) as u128;
    let s_l = root_of_price(p_l) as u128;
    proof {
        lemma_price_root_strict(p_l as int, p_i as int);
        if p_t < p_i {
            lemma_price_root_strict(p_t as int, p_i as int);
        }
    }
    let fall = s_i - s_t;
    let range = s_i - s_l;
    assert(y * fall <= 0xffff_ffff_ffff_ffff * 1_000_000) by (nonlinear_arith)
        requires
            0 <= y <= 0xffff_ffff_ffff_ffff,
            0 <= fall <= 1_000_000,
    ;
    assert(y * fall * 1_000_000_000_000 <= 0xffff_ffff_ffff_ffff * 1_000_000
        * 1_000_000_000_000) by (nonlinear_arith)
        requires
            0 <= y * fall <= 0xffff_ffff_ffff_ffff * 1_000_000,
    ;
    assert(0 < range * s_t <= 1_000_000 * 1_000_000) by (nonlinear_arith)
        requires
            0 < range <= 1_000_000,
            0 < s_t <= 1_000_000,
    ;
    assert(0 < range * s_t * s_i <= 1_000_000 * 1_000_000 * 1_000_000) by (nonlinear_arith)
        requires
            0 < range * s_t <= 1_000_000 * 1_000_000,
            0 < s_i <= 1_000_000,
    ;
    let total = (y as u128) * fall * 1_000_000_000_000 / (range * s_t * s_i);
    if total > u64::MAX as u128 {
        u64::MAX
    } else {
        total as u64
    }
}

/// Total size sold up to sell level `k`; nothing before the first level.
pub open spec fn sell_cumulative(cfg: AMMConfig, p_i: int, x: nat, k: int) -> nat {
    if k < 0 {
        0
    } else {
        curve_sell_size(x, p_i, cfg.sell_price_at(p_i, k), cfg.upper(p_i))
    }
}

/// Total size bought up to buy level `k`; nothing before the first level.
pub open spec fn buy_cumulative(cfg: AMMConfig, p_i: int, y: nat, k: int) -> nat {
    if k < 0 {
        0
    } else {
        curve_buy_size(y, p_i, cfg.buy_price_at(p_i, k), cfg.lower(p_i))
    }
}

/// The sell order of level `k`: what the curve sells between the level
/// before and this one.
pub open spec fn sell_order_at(token: Token, cfg: AMMConfig, p_i: int, x: nat, k: int) -> Order {
    Order {
        size: step(sell_cumulative(cfg, p_i, x, k - 1), sell_cumulative(cfg, p_i, x, k)) as u64,
        price: cfg.sell_price_at(p_i, k) as i64,
        side: Side::Sell,
        token,
        id: None,
    }
}

/// The buy order of level `k`: what the curve buys between the level before
/// and this one.
pub open spec fn buy_order_at(token: Token, cfg: AMMConfig, p_i: int, y: nat, k: int) -> Order {
    Order {
        size: step(buy_cumulative(cfg, p_i, y, k - 1), buy_cumulative(cfg, p_i, y, k)) as u64,
        price: cfg.buy_price_at(p_i, k) as i64,
        side: Side::Buy,
        token,
        id: None,
    }
}

/// The sell orders of the ladder for an inventory `x`.
pub open spec fn sell_orders(token: Token, cfg: AMMConfig, p_i: int, x: nat) -> Seq<Order> {
    Seq::new(cfg.sell_levels(p_i), |k: int| sell_order_at(token, cfg, p_i, x, k))
}

/// The buy orders of the ladder for a collateral `y`.
pub open spec fn buy_orders(token: Token, cfg: AMMConfig, p_i: int, y: nat) -> Seq<Order> {
    Seq::new(cfg.buy_levels(p_i), |k: int| buy_order_at(token, cfg, p_i, y, k))
}

/// The scaling factor of the first buy level, in millionths:
/// `(1/sqrt(f) - 1/sqrt(p_i)) / (1/sqrt(p_i) - 1/sqrt(p_u))` for the first buy
/// price `f`, rounded down. It is zero where there is no buy level or the
/// curve is not defined.
pub open spec fn phi_of(cfg: AMMConfig, p_i: int) -> nat {
    let first = cfg.buy_price_at(p_i, 0);
    let p_u = cfg.upper(p_i);
    if cfg.buy_levels(p_i) > 0 && on_curve(p_i) && on_curve(first) && on_curve(p_u) && p_i < p_u {
        (((price_root(p_i) - price_root(first)) * price_root(p_u) * 1_000_000) as int / (((
            price_root(p_u) - price_root(p_i)) * price_root(first)) as int)) as nat
    } else {
        0
    }
}

/// Largest scaling factor, in millionths, that a ladder on the curve can have.
pub const PHI_MAX: u64 = 1_000_000_000_000_000_000;

/// The collateral given to each of the two curves, in hundredths.
pub struct Allocation {
    pub a: nat,
    pub b: nat,
}

/// Splits the collateral `c` between the curves of A and B. The share of A
/// is `(best_a - best_b + c * phi_b) / (phi_a + phi_b)`, kept between zero
/// and `c`; B gets the rest; both are rounded down. Where the two factors
/// are both zero, A gets all, B gets all, or neither gets anything, as the
/// numerator is positive, negative or zero.
pub open spec fn allocation(c: nat, best_a: nat, best_b: nat, phi_a: nat, phi_b: nat) -> Allocation {
    let num = (best_a - best_b) * 1_000_000 + c * phi_b;
    let den = phi_a + phi_b;
    if den == 0 {
        if num > 0 {
            Allocation { a: c, b: 0 }
        } else if num < 0 {
            Allocation { a: 0, b: c }
        } else {
            Allocation { a: 0, b: 0 }
        }
    } else if num <= 0 {
        Allocation { a: 0, b: c }
    } else if num >= c * den {
        Allocation { a: c, b: 0 }
    } else if num % (den as int) == 0 {
        Allocation { a: (num / (den as int)) as nat, b: (c - num / (den as int)) as nat }
    } else {
        Allocation { a: (num / (den as int)) as nat, b: (c - num / (den as int) - 1) as nat }
    }
}

/// The size of the first order, or zero if there is none.
pub open spec fn best_size(orders: Seq<Order>) -> nat {
    if orders.len() > 0 {
        orders[0].size as nat
    } else {
        0
    }
}

/// The orders that the two curves ask for: the sells of A and of B from the
/// inventories, then the buys of A and of B from the collateral, which is
/// capped at `max_collateral` and split by `allocation`.
pub open spec fn expected_orders(cfg: AMMConfig, prices: TokenPrices, balances: Balances) -> Seq<
    Order,
> {
    let sells_a = sell_orders(Token::A, cfg, prices.a as int, balances.token_a as nat);
    let sells_b = sell_orders(Token::B, cfg, prices.b as int, balances.token_b as nat);
    let c = lower_of(balances.collateral as int, cfg.max_collateral as int) as nat;
    let share = allocation(
        c,
        best_size(sells_a),
        best_size(sells_b),
        phi_of(cfg, prices.a as int),
        phi_of(cfg, prices.b as int),
    );
    sells_a + sells_b + buy_orders(Token::A, cfg, prices.a as int, share.a) + buy_orders(
        Token::B,
        cfg,
        prices.b as int,
        share.b,
    )
}

/// The curve of one token.
pub struct AMM {
    token: Token,
    config: AMMConfig,
    p_i: Option<i64>,
    p_u: Option<i64>,
    p_l: Option<i64>,
    buy_prices: Vec<i64>,
    sell_prices: Vec<i64>,
}

impl AMM {
    #[verifier::type_invariant]
    spec fn inv(self) -> bool {
        &&& self.config.wf()
        &&& match self.p_i {
            None => self.p_u is None && self.p_l is None && self.buy_prices@.len() == 0
                && self.sell_prices@.len() == 0,
            Some(p) => {
                &&& self.config.has_step()
                &&& self.p_u == Some(self.config.upper(p as int) as i64)
                &&& self.p_l == Some(self.config.lower(p as int) as i64)
                &&& self.sell_prices@ == self.config.sell_prices(p as int)
                &&& self.buy_prices@ == self.config.buy_prices(p as int)
            },
        }
    }

    /// The token that the curve quotes.
    pub closed spec fn token(&self) -> Token {
        self.token
    }

    /// The parameters of the curve.
    pub closed spec fn config(&self) -> AMMConfig {
        self.config
    }

    /// The index price, once one has been set.
    pub closed spec fn index_price(&self) -> Option<i64> {
        self.p_i
    }

    /// Builds the curve of a token, without an index price. A depth that
    /// does not exceed the spread is refused, and nothing else.
    pub fn new(token: Token, config: &AMMConfig) -> (r: Result<AMM, ConfigError>)
        ensures
            r is Ok <==> config.wf(),
            r is Ok ==> r->Ok_0.token() == token && r->Ok_0.config() == *config
                && r->Ok_0.index_price() is None,
            r is Err ==> r->Err_0 == ConfigError::DepthNotAboveSpread,
    {
        match config.check() {
            Err(e) => Err(e),
            Ok(()) => Ok(
                AMM {
                    token,
                    config: *config,
                    p_i: None,
                    p_u: None,
                    p_l: None,
                    buy_prices: Vec::new(),
                    sell_prices: Vec::new(),
                },
            ),
        }
    }

    /// Returns the parameters of the curve.
    pub fn configuration(&self) -> (r: AMMConfig)
        ensures
            r == self.config(),
    {
        self.config
    }

    /// Sets the index price and builds the two ladders around it. The step
    /// of the ladders must be positive: with a step of zero a ladder has no
    /// end.
    pub fn set_price(&mut self, p_i: i64)
        requires
            old(self).config().has_step(),
        ensures
            final(self).index_price() == Some(p_i),
            final(self).token() == old(self).token(),
            final(self).config() == old(self).config(),
    {
        proof {
            use_type_invariant(&*self);
        }
        let up: i128 = p_i as i128 + self.config.depth as i128;
        let p_u: i64 = if up <= self.config.p_max as i128 {
            up as i64
        } else {
            self.config.p_max
        };
        let down: i128 = p_i as i128 - self.config.depth as i128;
        let p_l: i64 = if down >= self.config.p_min as i128 {
            down as i64
        } else {
            self.config.p_min
        };
        let sell_prices = climb(&self.config, p_i, p_u);
        let buy_prices = descend(&self.config, p_i, p_l);
        *self = AMM {
            token: self.token,
            config: self.config,
            p_i: Some(p_i),
            p_u: Some(p_u),
            p_l: Some(p_l),
            buy_prices,
            sell_prices,
        };
    }

    /// The prices of the sell ladder, nearest level first.
    pub fn sell_prices(&self) -> (r: &Vec<i64>)
        ensures
            r@ == (match self.index_price() {
                Some(p) => self.config().sell_prices(p as int),
                None => Seq::empty(),
            }),
    {
        proof {
            use_type_invariant(self);
        }
        &self.sell_prices
    }

    /// The prices of the buy ladder, nearest level first.
    pub fn buy_prices(&self) -> (r: &Vec<i64>)
        ensures
            r@ == (match self.index_price() {
                Some(p) => self.config().buy_prices(p as int),
                None => Seq::empty(),
            }),
    {
        proof {
            use_type_invariant(self);
        }
        &self.buy_prices
    }

    /// Returns the total size sold from an inventory `x` when the price has
    /// risen to `p_t`.
    pub fn sell_size(&self, x: u64, p_t: i64) -> (r: u64)
        requires
            self.index_price() is Some,
        ensures
            r == curve_sell_size(
                x as nat,
                self.index_price()->Some_0 as int,
                p_t as int,
                self.config().upper(self.index_price()->Some_0 as int),
            ),
    {
        proof {
            use_type_invariant(self);
        }
        sell_size_on_curve(x, self.p_i.unwrap(), p_t, self.p_u.unwrap())
    }

    /// Returns the total size bought with a collateral `y` when the price
    /// has fallen to `p_t`.
    pub fn buy_size(&self, y: u64, p_t: i64) -> (r: u64)
        requires
            self.index_price() is Some,
        ensures
            r == curve_buy_size(
                y as nat,
                self.index_price()->Some_0 as int,
                p_t as int,
                self.config().lower(self.index_price()->Some_0 as int),
            ),
    {
        proof {
            use_type_invariant(self);
        }
        buy_size_on_curve(y, self.p_i.unwrap(), p_t, self.p_l.unwrap())
    }

    /// Returns the sell orders of the ladder for an inventory `x`: level by
    /// level, what the curve sells between the level before and this one.
    /// Without an index price there are none.
    pub fn get_sell_orders(&self, x: u64) -> (r: Vec<Order>)
        ensures
            r@ == (match self.index_price() {
                Some(p) => sell_orders(self.token(), self.config(), p as int, x as nat),
                None => Seq::empty(),
            }),
    {
        proof {
            use_type_invariant(self);
        }
        let mut orders: Vec<Order> = Vec::new();
        if self.p_i.is_none() {
            return orders;
        }
        let p_i = self.p_i.unwrap();
        let p_u = self.p_u.unwrap();
        let mut sold: u64 = 0;
        let mut k: usize = 0;
        while k < self.sell_prices.len()
            invariant
                self.config.has_step(),
                k <= self.sell_prices@.len(),
                self.sell_prices@ == self.config.sell_prices(p_i as int),
                p_u == self.config.upper(p_i as int),
                sold == sell_cumulative(self.config, p_i as int, x as nat, k - 1),
                orders@.len() == k,
                forall|j: int|
                    0 <= j < k ==> #[trigger] orders@[j] == sell_order_at(
                        self.token,
                        self.config,
                        p_i as int,
                        x as nat,
                        j,
                    ),
            decreases self.sell_prices@.len() - k,
        {
            proof {
                lemma_sell_level_in_range(self.config, p_i, k as int);
            }
            let price = self.sell_prices[k];
            let total = sell_size_on_curve(x, p_i, price, p_u);
            let size = if total >= sold {
                total - sold
            } else {
                0
            };
            orders.push(Order::new(size, price, Side::Sell, self.token, None));
            sold = total;
            k = k + 1;
        }
        proof {
            assert(orders@ =~= sell_orders(self.token, self.config, p_i as int, x as nat));
        }
        orders
    }

    /// Returns the buy orders of the ladder for a collateral `y`: level by
    /// level, what the curve buys between the level before and this one.
    /// Without an index price there are none.
    pub fn get_buy_orders(&self, y: u64) -> (r: Vec<Order>)
        ensures
            r@ == (match self.index_price() {
                Some(p) => buy_orders(self.token(), self.config(), p as int, y as nat),
                None => Seq::empty(),
            }),
    {
        proof {
            use_type_invariant(self);
        }
        let mut orders: Vec<Order> = Vec::new();
        if self.p_i.is_none() {
            return orders;
        }
        let p_i = self.p_i.unwrap();
        let p_l = self.p_l.unwrap();
        let mut bought: u64 = 0;
        let mut k: usize = 0;
        while k < self.buy_prices.len()
            invariant
                self.config.has_step(),
                k <= self.buy_prices@.len(),
                self.buy_prices@ == self.config.buy_prices(p_i as int),
                p_l == self.config.lower(p_i as int),
                bought == buy_cumulative(self.config, p_i as int, y as nat, k - 1),
                orders@.len() == k,
                forall|j: int|
                    0 <= j < k ==> #[trigger] orders@[j] == buy_order_at(
                        self.token,
                        self.config,
                        p_i as int,
                        y as nat,
                        j,
                    ),
            decreases self.buy_prices@.len() - k,
        {
            proof {
                lemma_buy_level_in_range(self.config, p_i, k as int);
            }
            let price = self.buy_prices[k];
            let total = buy_size_on_curve(y, p_i, price, p_l);
            let size = if total >= bought {
                total - bought
            } else {
                0
            };
            orders.push(Order::new(size, price, Side::Buy, self.token, None));
            bought = total;
            k = k + 1;
        }
        proof {
            assert(orders@ =~= buy_orders(self.token, self.config, p_i as int, y as nat));
        }
        orders
    }

    /// Returns the scaling factor of the first buy level, in millionths.
    pub fn phi(&self) -> (r: u64)
        requires
            self.index_price() is Some,
        ensures
            r == phi_of(self.config(), self.index_price()->Some_0 as int),
            r <= PHI_MAX,
    {
        proof {
            use_type_invariant(self);
        }
        let p_i = self.p_i.unwrap();
        let p_u = self.p_u.unwrap();
        if self.buy_prices.len() == 0 {
            return 0;
        }
        proof {
            lemma_buy_level_in_range(self.config, p_i, 0);
            assert(0 * (self.config.delta as int) == 0) by (nonlinear_arith);
        }
        let first = self.buy_prices[0];
        if !(is_on_curve(p_i) && is_on_curve(first) && is_on_curve(p_u) && p_i < p_u) {
            return 0;
        }
        let s_i = root_of_price(p_i) as u128;
        let s_f = root_of_price(first) as u128;
        let s_u = root_of_price(p_u) as u128;
        proof {
            lemma_price_root_strict(p_i as int, p_u as int);
            if first < p_i {
                lemma_price_root_strict(first as int, p_i as int);
            }
        }
        let fall = s_i - s_f;
        let range = s_u - s_i;
        assert(fall * s_u <= 1_000_000 * 1_000_000) by (nonlinear_arith)
            requires
                0 <= fall <= 1_000_000,
                0 <= s_u <= 1_000_000,
        ;
        assert(0 < range * s_f <= 1_000_000 * 1_000_000) by (nonlinear_arith)
            requires
                0 < range <= 1_000_000,
                0 < s_f <= 1_000_000,
        ;
        let scaled = fall * s_u * 1_000_000 / (range * s_f);
        assert(scaled <= fall * s_u * 1_000_000) by (nonlinear_arith)
            requires
                scaled == (fall * s_u * 1_000_000) / (range * s_f),
                0 < range * s_f,
                0 <= fall * s_u * 1_000_000,
        ;
        scaled as u64
    }
}

/// A higher price has a root that is not smaller.
pub proof fn lemma_price_root_monotonic(a: int, b: int)
    requires
        0 <= a <= b,
    ensures
        price_root(a) <= price_root(b),
{
    lemma_root_monotonic((a * 10_000_000_000) as nat, (b * 10_000_000_000) as nat);
}

/// A quotient of a number that is not negative by a positive number is not
/// negative.
proof fn lemma_quotient_not_negative(a: int, b: int)
    requires
        0 <= a,
        0 < b,
    ensures
        0 <= a / b,
{
    assert(0 <= a / b) by (nonlinear_arith)
        requires
            0 <= a,
            0 < b,
    ;
}

/// The numerator of the sell curve is not negative and its denominator is
/// positive.
proof fn lemma_sell_terms(x: nat, p_i: int, p_t: int, p_u: int)
    requires
        on_curve(p_i),
        on_curve(p_t),
        on_curve(p_u),
        p_i < p_u,
        p_i <= p_t,
    ensures
        0 <= x * price_root(p_u) * (price_root(p_t) - price_root(p_i)),
        0 < (price_root(p_u) - price_root(p_i)) * price_root(p_t),
        0 <= (x * price_root(p_u) * (price_root(p_t) - price_root(p_i))) / ((price_root(p_u)
            - price_root(p_i)) * price_root(p_t)),
{
    lemma_price_root_range(p_i);
    lemma_price_root_range(p_t);
    lemma_price_root_strict(p_i, p_u);
    lemma_price_root_monotonic(p_i, p_t);
    let s_i = price_root(p_i) as int;
    let s_u = price_root(p_u) as int;
    let s_t = price_root(p_t) as int;
    assert(0 <= x * s_u * (s_t - s_i)) by (nonlinear_arith)
        requires
            0 <= x,
            0 <= s_u,
            0 <= s_t - s_i,
    ;
    assert(0 < (s_u - s_i) * s_t) by (nonlinear_arith)
        requires
            0 < s_u - s_i,
            0 < s_t,
    ;
    lemma_quotient_not_negative(x * s_u * (s_t - s_i), (s_u - s_i) * s_t);
}

/// The numerator of the buy curve is not negative and its denominator is
/// positive.
proof fn lemma_buy_terms(y: nat, p_i: int, p_t: int, p_l: int)
    requires
        on_curve(p_i),
        on_curve(p_t),
        on_curve(p_l),
        p_l < p_i,
        p_t <= p_i,
    ensures
        0 <= y * (price_root(p_i) - price_root(p_t)) * 1_000_000_000_000,
        0 < (price_root(p_i) - price_root(p_l)) * price_root(p_t) * price_root(p_i),
        0 <= (y * (price_root(p_i) - price_root(p_t)) * 1_000_000_000_000) / ((price_root(p_i)
            - price_root(p_l)) * price_root(p_t) * price_root(p_i)),
{
    lemma_price_root_range(p_i);
    lemma_price_root_range(p_t);
    lemma_price_root_strict(p_l, p_i);
    lemma_price_root_monotonic(p_t, p_i);
    let s_i = price_root(p_i) as int;
    let s_l = price_root(p_l) as int;
    let s_t = price_root(p_t) as int;
    assert(0 <= y * (s_i - s_t) * 1_000_000_000_000) by (nonlinear_arith)
        requires
            0 <= y,
            0 <= s_i - s_t,
    ;
    assert(0 < (s_i - s_l) * s_t * s_i) by (nonlinear_arith)
        requires
            0 < s_i - s_l,
            0 < s_t,
            0 < s_i,
    ;
    lemma_quotient_not_negative(y * (s_i - s_t) * 1_000_000_000_000, (s_i - s_l) * s_t * s_i);
}

/// What the curve sells fits the type of a size.
pub proof fn lemma_curve_sell_fits(x: nat, p_i: int, p_t: int, p_u: int)
    ensures
        curve_sell_size(x, p_i, p_t, p_u) <= u64::MAX,
{
    if on_curve(p_i) && on_curve(p_t) && on_curve(p_u) && p_i < p_u && p_i <= p_t {
        lemma_sell_terms(x, p_i, p_t, p_u);
    }
}

/// What the curve buys fits the type of a size.
pub proof fn lemma_curve_buy_fits(y: nat, p_i: int, p_t: int, p_l: int)
    ensures
        curve_buy_size(y, p_i, p_t, p_l) <= u64::MAX,
{
    if on_curve(p_i) && on_curve(p_t) && on_curve(p_l) && p_l < p_i && p_t <= p_i {
        lemma_buy_terms(y, p_i, p_t, p_l);
    }
}

/// The further the price has risen, the more the curve has sold.
pub proof fn lemma_curve_sell_monotonic(x: nat, p_i: int, p_t: int, p_t2: int, p_u: int)
    requires
        p_t <= p_t2 <= p_u,
    ensures
        curve_sell_size(x, p_i, p_t, p_u) <= curve_sell_size(x, p_i, p_t2, p_u),
{
    if on_curve(p_i) && on_curve(p_u) && p_i < p_u && p_i <= p_t {
        lemma_price_root_range(p_i);
        lemma_price_root_range(p_t);
        lemma_price_root_range(p_t2);
        lemma_price_root_strict(p_i, p_u);
        lemma_price_root_monotonic(p_i, p_t);
        lemma_price_root_monotonic(p_t, p_t2);
        let s_i = price_root(p_i) as int;
        let s_u = price_root(p_u) as int;
        let u = price_root(p_t) as int;
        let v = price_root(p_t2) as int;
        assert(0 <= x * s_u) by (nonlinear_arith)
            requires
                0 <= x,
                0 <= s_u,
        ;
        lemma_share_grows(x * s_u, s_u - s_i, s_i, u, v);
        lemma_sell_terms(x, p_i, p_t, p_u);
        lemma_sell_terms(x, p_i, p_t2, p_u);
    }
}

/// The further the price has fallen, the more the curve has bought.
pub proof fn lemma_curve_buy_monotonic(y: nat, p_i: int, p_t: int, p_t2: int, p_l: int)
    requires
        p_l <= p_t2 <= p_t,
    ensures
        curve_buy_size(y, p_i, p_t, p_l) <= curve_buy_size(y, p_i, p_t2, p_l),
{
    if on_curve(p_i) && on_curve(p_l) && p_l < p_i && p_t <= p_i {
        lemma_price_root_range(p_i);
        lemma_price_root_range(p_t);
        lemma_price_root_range(p_t2);
        lemma_price_root_strict(p_l, p_i);
        lemma_price_root_monotonic(p_t, p_i);
        lemma_price_root_monotonic(p_t2, p_t);
        let s_i = price_root(p_i) as int;
        let s_l = price_root(p_l) as int;
        let u = price_root(p_t) as int;
        let v = price_root(p_t2) as int;
        let r = s_i - s_l;
        let k = 1_000_000_000_000int;
        assert(0 <= y * k && 0 < r * s_i) by (nonlinear_arith)
            requires
                0 <= y,
                0 < k,
                0 < r,
                0 < s_i,
        ;
        lemma_ratio_grows_downwards(y * k, r * s_i, s_i, u, v);
        assert(y * (s_i - u) * k == (y * k) * (s_i - u)) by (nonlinear_arith);
        assert(y * (s_i - v) * k == (y * k) * (s_i - v)) by (nonlinear_arith);
        assert(r * u * s_i == (r * s_i) * u) by (nonlinear_arith);
        assert(r * v * s_i == (r * s_i) * v) by (nonlinear_arith);
        lemma_buy_terms(y, p_i, p_t, p_l);
        lemma_buy_terms(y, p_i, p_t2, p_l);
    }
}

/// Along the sell ladder the total sold never falls.
pub proof fn lemma_sell_cumulative_monotonic(cfg: AMMConfig, p_i: i64, x: nat, j: int, k: int)
    requires
        cfg.has_step(),
        j <= k < cfg.sell_levels(p_i as int),
    ensures
        sell_cumulative(cfg, p_i as int, x, j) <= sell_cumulative(cfg, p_i as int, x, k),
{
    if 0 <= j {
        lemma_sell_level_in_range(cfg, p_i, k);
        assert(j * cfg.delta <= k * cfg.delta) by (nonlinear_arith)
            requires
                j <= k,
                0 <= cfg.delta,
        ;
        lemma_curve_sell_monotonic(
            x,
            p_i as int,
            cfg.sell_price_at(p_i as int, j),
            cfg.sell_price_at(p_i as int, k),
            cfg.upper(p_i as int),
        );
    }
}

/// Along the buy ladder the total bought never falls.
pub proof fn lemma_buy_cumulative_monotonic(cfg: AMMConfig, p_i: i64, y: nat, j: int, k: int)
    requires
        cfg.has_step(),
        j <= k < cfg.buy_levels(p_i as int),
    ensures
        buy_cumulative(cfg, p_i as int, y, j) <= buy_cumulative(cfg, p_i as int, y, k),
{
    if 0 <= j {
        lemma_buy_level_in_range(cfg, p_i, k);
        assert(j * cfg.delta <= k * cfg.delta) by (nonlinear_arith)
            requires
                j <= k,
                0 <= cfg.delta,
        ;
        lemma_curve_buy_monotonic(
            y,
            p_i as int,
            cfg.buy_price_at(p_i as int, j),
            cfg.buy_price_at(p_i as int, k),
            cfg.lower(p_i as int),
        );
    }
}

/// The sizes of the first `m` sell orders add up to the total that the curve
/// has sold at level `m - 1`.
pub proof fn lemma_sell_prefix_total(token: Token, cfg: AMMConfig, p_i: i64, x: nat, m: int)
    requires
        cfg.has_step(),
        0 <= m <= cfg.sell_levels(p_i as int),
    ensures
        total_size(sell_orders(token, cfg, p_i as int, x).take(m)) == sell_cumulative(
            cfg,
            p_i as int,
            x,
            m - 1,
        ),
    decreases m,
{
    let orders = sell_orders(token, cfg, p_i as int, x);
    if m == 0 {
        assert(orders.take(0) =~= Seq::<Order>::empty());
    } else {
        lemma_sell_prefix_total(token, cfg, p_i, x, m - 1);
        lemma_sell_cumulative_monotonic(cfg, p_i, x, m - 2, m - 1);
        lemma_curve_sell_fits(
            x,
            p_i as int,
            cfg.sell_price_at(p_i as int, m - 1),
            cfg.upper(p_i as int),
        );
        assert(orders.take(m) =~= orders.take(m - 1).push(orders[m - 1]));
        lemma_total_size_push(orders.take(m - 1), orders[m - 1]);
    }
}

/// The sizes of the first `m` buy orders add up to the total that the curve
/// has bought at level `m - 1`.
pub proof fn lemma_buy_prefix_total(token: Token, cfg: AMMConfig, p_i: i64, y: nat, m: int)
    requires
        cfg.has_step(),
        0 <= m <= cfg.buy_levels(p_i as int),
    ensures
        total_size(buy_orders(token, cfg, p_i as int, y).take(m)) == buy_cumulative(
            cfg,
            p_i as int,
            y,
            m - 1,
        ),
    decreases m,
{
    let orders = buy_orders(token, cfg, p_i as int, y);
    if m == 0 {
        assert(orders.take(0) =~= Seq::<Order>::empty());
    } else {
        lemma_buy_prefix_total(token, cfg, p_i, y, m - 1);
        lemma_buy_cumulative_monotonic(cfg, p_i, y, m - 2, m - 1);
        lemma_curve_buy_fits(
            y,
            p_i as int,
            cfg.buy_price_at(p_i as int, m - 1),
            cfg.lower(p_i as int),
        );
        assert(orders.take(m) =~= orders.take(m - 1).push(orders[m - 1]));
        lemma_total_size_push(orders.take(m - 1), orders[m - 1]);
    }
}

/// The sizes of the sell orders of a ladder add up to what the curve sells
/// in all when the price reaches the last level of the ladder.
pub proof fn lemma_sell_ladder_total(token: Token, cfg: AMMConfig, p_i: i64, x: nat)
    requires
        cfg.has_step(),
    ensures
        total_size(sell_orders(token, cfg, p_i as int, x)) == (if cfg.sell_levels(p_i as int) == 0 {
            0
        } else {
            curve_sell_size(
                x,
                p_i as int,
                cfg.sell_price_at(p_i as int, cfg.sell_levels(p_i as int) - 1),
                cfg.upper(p_i as int),
            )
        }),
{
    let orders = sell_orders(token, cfg, p_i as int, x);
    lemma_sell_prefix_total(token, cfg, p_i, x, cfg.sell_levels(p_i as int) as int);
    assert(orders.take(orders.len() as int) =~= orders);
}

/// The sizes of the buy orders of a ladder add up to what the curve buys in
/// all when the price reaches the last level of the ladder.
pub proof fn lemma_buy_ladder_total(token: Token, cfg: AMMConfig, p_i: i64, y: nat)
    requires
        cfg.has_step(),
    ensures
        total_size(buy_orders(token, cfg, p_i as int, y)) == (if cfg.buy_levels(p_i as int) == 0 {
            0
        } else {
            curve_buy_size(
                y,
                p_i as int,
                cfg.buy_price_at(p_i as int, cfg.buy_levels(p_i as int) - 1),
                cfg.lower(p_i as int),
            )
        }),
{
    let orders = buy_orders(token, cfg, p_i as int, y);
    lemma_buy_prefix_total(token, cfg, p_i, y, cfg.buy_levels(p_i as int) as int);
    assert(orders.take(orders.len() as int) =~= orders);
}

/// The curves of the two tokens, which share the collateral.
pub struct AMMManager {
    amm_a: AMM,
    amm_b: AMM,
    max_collateral: u64,
}

impl AMMManager {
    #[verifier::type_invariant]
    spec fn inv(self) -> bool {
        &&& self.amm_a.token() == Token::A
        &&& self.amm_b.token() == Token::B
        &&& self.amm_a.config() == self.amm_b.config()
        &&& self.amm_a.config().wf()
        &&& self.max_collateral == self.amm_a.config().max_collateral
    }

    /// The parameters of the two curves.
    pub closed spec fn config(&self) -> AMMConfig {
        self.amm_a.config()
    }

    /// Builds the two curves from one configuration. A depth that does not
    /// exceed the spread is refused, and nothing else.
    pub fn new(config: AMMConfig) -> (r: Result<AMMManager, ConfigError>)
        ensures
            r is Ok <==> config.wf(),
            r is Ok ==> r->Ok_0.config() == config,
            r is Err ==> r->Err_0 == ConfigError::DepthNotAboveSpread,
    {
        let amm_a = match AMM::new(Token::A, &config) {
            Ok(amm) => amm,
            Err(e) => {
                return Err(e);
            },
        };
        let amm_b = match AMM::new(Token::B, &config) {
            Ok(amm) => amm,
            Err(e) => {
                return Err(e);
            },
        };
        Ok(AMMManager { amm_a, amm_b, max_collateral: config.max_collateral })
    }

    /// Computes the orders that the two curves ask for, and the two
    /// curves at the given prices.
    fn quote(&self, target_prices: &TokenPrices, balances: &Balances) -> (r: (Vec<Order>, AMM, AMM))
        requires
            self.config().has_step(),
        ensures
            r.0@ == expected_orders(self.config(), *target_prices, *balances),
            r.1.token() == Token::A,
            r.2.token() == Token::B,
            r.1.config() == self.config(),
            r.2.config() == self.config(),
    {
        proof {
            use_type_invariant(self);
            use_type_invariant(&self.amm_a);
            use_type_invariant(&self.amm_b);
        }
        let mut amm_a = AMM {
            token: self.amm_a.token,
            config: self.amm_a.config,
            p_i: None,
            p_u: None,
            p_l: None,
            buy_prices: Vec::new(),
            sell_prices: Vec::new(),
        };
        let mut amm_b = AMM {
            token: self.amm_b.token,
            config: self.amm_b.config,
            p_i: None,
            p_u: None,
            p_l: None,
            buy_prices: Vec::new(),
            sell_prices: Vec::new(),
        };
        amm_a.set_price(target_prices.a);
        amm_b.set_price(target_prices.b);

        let mut sell_orders_a = amm_a.get_sell_orders(balances.token_a);
        let mut sell_orders_b = amm_b.get_sell_orders(balances.token_b);
        let best_a: u64 = if sell_orders_a.len() > 0 {
            sell_orders_a[0].size
        } else {
            0
        };
        let best_b: u64 = if sell_orders_b.len() > 0 {
            sell_orders_b[0].size
        } else {
            0
        };
        let total: u64 = if balances.collateral <= self.max_collateral {
            balances.collateral
        } else {
            self.max_collateral
        };
        let (share_a, share_b) = Self::collateral_allocation(
            total,
            best_a,
            best_b,
            amm_a.phi(),
            amm_b.phi(),
        );
        let mut buy_orders_a = amm_a.get_buy_orders(share_a);
        let mut buy_orders_b = amm_b.get_buy_orders(share_b);

        let mut orders: Vec<Order> = Vec::new();
        orders.append(&mut sell_orders_a);
        orders.append(&mut sell_orders_b);
        orders.append(&mut buy_orders_a);
        orders.append(&mut buy_orders_b);
        (orders, amm_a, amm_b)
    }

    /// Returns the parameters of the two curves.
    pub fn configuration(&self) -> (r: AMMConfig)
        ensures
            r == self.config(),
    {
        self.amm_a.configuration()
    }

    /// Returns the orders that the two curves ask for at the given prices
    /// and balances, and leaves the two curves at these prices. The step of
    /// the ladders must be positive.
    pub fn get_expected_orders(&mut self, target_prices: &TokenPrices, balances: &Balances) -> (r:
        Vec<Order>)
        requires
            old(self).config().has_step(),
        ensures
            final(self).config() == old(self).config(),
            r@ == expected_orders(old(self).config(), *target_prices, *balances),
    {
        proof {
            use_type_invariant(&*self);
        }
        let (orders, amm_a, amm_b) = self.quote(target_prices, balances);
        *self = AMMManager { amm_a, amm_b, max_collateral: self.max_collateral };
        orders
    }

    /// Returns the orders that the two curves ask for at the given prices
    /// and balances, and leaves the two curves as they are. The step of the
    /// ladders must be positive.
    pub fn expected_orders_at(&self, target_prices: &TokenPrices, balances: &Balances) -> (r: Vec<
        Order,
    >)
        requires
            self.config().has_step(),
        ensures
            r@ == expected_orders(self.config(), *target_prices, *balances),
    {
        self.quote(target_prices, balances).0
    }

    /// Splits the collateral between the two curves. The two scaling
    /// factors are in millionths.
    pub fn collateral_allocation(
        collateral_balance: u64,
        best_sell_order_size_a: u64,
        best_sell_order_size_b: u64,
        phi_a: u64,
        phi_b: u64,
    ) -> (r: (u64, u64))
        requires
            phi_a <= PHI_MAX,
            phi_b <= PHI_MAX,
        ensures
            r.0 == allocation(
                collateral_balance as nat,
                best_sell_order_size_a as nat,
                best_sell_order_size_b as nat,
                phi_a as nat,
                phi_b as nat,
            ).a,
            r.1 == allocation(
                collateral_balance as nat,
                best_sell_order_size_a as nat,
                best_sell_order_size_b as nat,
                phi_a as nat,
                phi_b as nat,
            ).b,
            r.0 + r.1 <= collateral_balance,
    {
        let c = collateral_balance as i128;
        let gap: i128 = (best_sell_order_size_a as i128 - best_sell_order_size_b as i128) * 1_000_000;
        assert(c * phi_b <= 0xffff_ffff_ffff_ffff * 1_000_000_000_000_000_000) by (nonlinear_arith)
            requires
                0 <= c <= 0xffff_ffff_ffff_ffff,
                0 <= phi_b <= 1_000_000_000_000_000_000,
        ;
        assert(0 <= c * phi_b) by (nonlinear_arith)
            requires
                0 <= c,
                0 <= phi_b,
        ;
        let num: i128 = gap + c * (phi_b as i128);
        let den: i128 = phi_a as i128 + phi_b as i128;
        if den == 0 {
            if num > 0 {
                return (collateral_balance, 0);
            } else if num < 0 {
                return (0, collateral_balance);
            } else {
                return (0, 0);
            }
        }
        if num <= 0 {
            return (0, collateral_balance);
        }
        assert(c * den <= 0xffff_ffff_ffff_ffff * 2_000_000_000_000_000_000) by (nonlinear_arith)
            requires
                0 <= c <= 0xffff_ffff_ffff_ffff,
                0 <= den <= 2_000_000_000_000_000_000,
        ;
        assert(0 <= c * den) by (nonlinear_arith)
            requires
                0 <= c,
                0 <= den,
        ;
        if num >= c * den {
            return (collateral_balance, 0);
        }
        let share = num / den;
        assert(0 <= share < c) by (nonlinear_arith)
            requires
                share == num / den,
                0 < num < c * den,
                0 < den,
        ;
        if num % den == 0 {
            (share as u64, (c - share) as u64)
        } else {
            (share as u64, (c - share - 1) as u64)
        }
    }
}

} // verus!
