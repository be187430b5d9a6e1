//! What the buys of a ladder cost: never more than the collateral that the
//! ladder was given.

use crate::math::{lemma_root_between, lemma_root_bounds};
use crate::order::Order;
use crate::strategies::amm::{
    allocation, best_size, buy_cumulative, buy_orders, curve_buy_size, expected_orders,
    lemma_buy_cumulative_monotonic, lemma_buy_level_in_range, lemma_curve_buy_fits,
    lemma_price_root_monotonic, lemma_price_root_range, lemma_price_root_strict, lower_of,
    on_curve, phi_of, price_root, sell_orders, AMMConfig,
};
use crate::strategies::bands_strategy::locked_collateral;
use crate::token::{Balances, Token, TokenPrices};
use vstd::prelude::*;

verus! {

/// Of two prices on the curve, the lower one, times ten to the tenth, is at
/// most the product of the two roots.
pub proof fn lemma_root_product(p: int, higher: int)
    requires
        on_curve(p),
        on_curve(higher),
        p < higher,
    ensures
        10_000_000_000 * p <= price_root(p) * price_root(higher),
{
    let s = price_root(p) as int;
    let t = price_root(higher) as int;
    lemma_price_root_range(p);
    lemma_root_bounds((p * 10_000_000_000) as nat);
    assert((s + 2) * (s + 2) == s * s + 4 * s + 4) by (nonlinear_arith);
    assert((s + 1) * (s + 1) == s * s + 2 * s + 1) by (nonlinear_arith);
    lemma_root_between((higher * 10_000_000_000) as nat, (s + 2) as nat, 1_000_000);
    assert(s * (s + 2) <= s * t) by (nonlinear_arith)
        requires
            0 <= s,
            s + 2 <= t,
    ;
    assert(s * (s + 2) == s * s + 2 * s) by (nonlinear_arith);
}

/// The curve is defined at an index price: the index price and the lower
/// end of the range are on the curve, the one above the other.
pub open spec fn curve_defined(cfg: AMMConfig, p_i: int) -> bool {
    on_curve(p_i) && on_curve(cfg.lower(p_i)) && cfg.lower(p_i) < p_i
}

/// The price of a buy level, and the index price before the first level.
pub open spec fn level_price(cfg: AMMConfig, p_i: int, k: int) -> int {
    if k < 0 {
        p_i
    } else {
        cfg.buy_price_at(p_i, k)
    }
}

/// What the first `m` buys of a ladder cost, in ten-thousandths of a unit
/// of collateral.
pub open spec fn ladder_cost(token: Token, cfg: AMMConfig, p_i: int, y: nat, m: int) -> nat {
    locked_collateral(buy_orders(token, cfg, p_i, y).take(m))
}

/// One more buy adds its size times its price to the cost.
pub proof fn lemma_ladder_cost_step(token: Token, cfg: AMMConfig, p_i: i64, y: nat, m: int)
    requires
        cfg.has_step(),
        0 < m <= cfg.buy_levels(p_i as int),
    ensures
        ladder_cost(token, cfg, p_i as int, y, m) == ladder_cost(token, cfg, p_i as int, y, m - 1)
            + (if cfg.buy_price_at(p_i as int, m - 1) > 0 {
            (buy_cumulative(cfg, p_i as int, y, m - 1) - buy_cumulative(
                cfg,
                p_i as int,
                y,
                m - 2,
            )) * cfg.buy_price_at(p_i as int, m - 1)
        } else {
            0
        }),
        buy_cumulative(cfg, p_i as int, y, m - 2) <= buy_cumulative(cfg, p_i as int, y, m - 1),
{
    let orders = buy_orders(token, cfg, p_i as int, y);
    assert(orders.take(m).drop_last() =~= orders.take(m - 1));
    assert(orders.take(m).last() == orders[m - 1]);
    lemma_buy_cumulative_monotonic(cfg, p_i, y, m - 2, m - 1);
    lemma_buy_level_in_range(cfg, p_i, m - 1);
    lemma_curve_buy_fits(
        y,
        p_i as int,
        cfg.buy_price_at(p_i as int, m - 1),
        cfg.lower(p_i as int),
    );
}

/// What the curve has bought at a level, taken times the denominator of
/// the curve, is at most the numerator.
pub proof fn lemma_bought_below_curve(y: nat, p_i: int, p_t: int, p_l: int)
    requires
        on_curve(p_i),
        on_curve(p_t),
        on_curve(p_l),
        p_l < p_i,
        p_t <= p_i,
    ensures
        curve_buy_size(y, p_i, p_t, p_l) * ((price_root(p_i) - price_root(p_l)) * price_root(p_i))
            * price_root(p_t) <= (y * 1_000_000_000_000) * (price_root(p_i) - price_root(p_t)),
{
    let i = price_root(p_i) as int;
    let l = price_root(p_l) as int;
    let t = price_root(p_t) as int;
    let c = curve_buy_size(y, p_i, p_t, p_l) as int;
    lemma_price_root_range(p_i);
    lemma_price_root_range(p_t);
    lemma_price_root_strict(p_l, p_i);
    lemma_price_root_monotonic(p_t, p_i);
    let n = y * (i - t) * 1_000_000_000_000;
    let d = (i - l) * t * i;
    assert(0 <= n) by (nonlinear_arith)
        requires
            n == y * (i - t) * 1_000_000_000_000,
            0 <= y,
            0 <= i - t,
    ;
    assert(0 < d) by (nonlinear_arith)
        requires
            d == (i - l) * t * i,
            0 < i - l,
            0 < t,
            0 < i,
    ;
    assert(0 <= n / d && (n / d) * d <= n) by (nonlinear_arith)
        requires
            0 <= n,
            0 < d,
    ;
    assert(0 <= c <= n / d);
    assert(c * d <= (n / d) * d) by (nonlinear_arith)
        requires
            0 <= c <= n / d,
            0 < d,
    ;
    assert(c * ((i - l) * i) * t == c * d) by (nonlinear_arith)
        requires
            d == (i - l) * t * i,
    ;
    assert((y * 1_000_000_000_000) * (i - t) == n) by (nonlinear_arith)
        requires
            n == y * (i - t) * 1_000_000_000_000,
    ;
}

/// The bound on the cost of the first `m` buys, in the terms of
/// `lemma_cost_step`.
pub proof fn lemma_ladder_cost_bound(token: Token, cfg: AMMConfig, p_i: i64, y: nat, m: int)
    requires
        cfg.has_step(),
        curve_defined(cfg, p_i as int),
        0 <= m <= cfg.buy_levels(p_i as int),
    ensures
        ({
            let i = price_root(p_i as int) as int;
            let ri = (i - price_root(cfg.lower(p_i as int))) * i;
            let a = price_root(level_price(cfg, p_i as int, m - 1)) as int;
            let q = level_price(cfg, p_i as int, m - 1);
            let slack = (y * 1_000_000_000_000) * (i - a) - (buy_cumulative(
                cfg,
                p_i as int,
                y,
                m - 1,
            ) * ri) * a;
            &&& 0 <= slack
            &&& (ladder_cost(token, cfg, p_i as int, y, m) * ri) * a + slack * q <= (100 * y * i)
                * (i - a) * a
            &&& 0 < a <= i
            &&& on_curve(q)
            &&& cfg.lower(p_i as int) <= q
        }),
    decreases m,
{
    let p0 = p_i as int;
    let i = price_root(p0) as int;
    let l = price_root(cfg.lower(p0)) as int;
    let ri = (i - l) * i;
    let z = (y * 1_000_000_000_000) as int;
    let yy = 100 * y * i;
    lemma_price_root_range(p0);
    lemma_price_root_range(cfg.lower(p0));
    lemma_price_root_strict(cfg.lower(p0), p0);
    if m == 0 {
        assert(buy_orders(token, cfg, p0, y).take(0) =~= Seq::<Order>::empty());
        assert(z * (i - i) - (0 * ri) * i == 0) by (nonlinear_arith);
        assert((0 * ri) * i + 0 * p0 <= yy * (i - i) * i) by (nonlinear_arith);
    } else {
        lemma_ladder_cost_bound(token, cfg, p_i, y, m - 1);
        lemma_ladder_cost_step(token, cfg, p_i, y, m);
        lemma_buy_level_in_range(cfg, p_i, m - 1);
        let q = level_price(cfg, p0, m - 2);
        let p = cfg.buy_price_at(p0, m - 1);
        let a = price_root(q) as int;
        let b = price_root(p) as int;
        let c_before = buy_cumulative(cfg, p0, y, m - 2) as int;
        let c = buy_cumulative(cfg, p0, y, m - 1) as int;
        let x_before = ladder_cost(token, cfg, p0, y, m - 1) as int;
        let x = ladder_cost(token, cfg, p0, y, m) as int;
        assert(p <= q) by {
            if m - 2 >= 0 {
                assert((m - 2) * cfg.delta <= (m - 1) * cfg.delta) by (nonlinear_arith)
                    requires
                        0 <= cfg.delta,
                ;
            } else {
                assert(0 <= (m - 1) * cfg.delta) by (nonlinear_arith)
                    requires
                        0 <= m - 1,
                        0 <= cfg.delta,
                ;
            }
        }
        assert(on_curve(p));
        lemma_price_root_range(p);
        lemma_price_root_monotonic(p, q);
        if p < q {
            lemma_root_product(p, q);
            assert(10_000_000_000 * p <= a * b) by (nonlinear_arith)
                requires
                    10_000_000_000 * p <= b * a,
            ;
        } else {
            assert(a == b);
        }
        lemma_bought_below_curve(y, p0, p, cfg.lower(p0));
        assert(z * i == yy * 10_000_000_000) by (nonlinear_arith)
            requires
                z == y * 1_000_000_000_000,
                yy == 100 * y * i,
        ;
        lemma_cost_step(x_before * ri, c_before * ri, c * ri, yy, z, i, a, b, p, q);
        assert(x * ri == x_before * ri + (c * ri) * p - (c_before * ri) * p) by (nonlinear_arith)
            requires
                x == x_before + (c - c_before) * p,
        ;
        assert((c * ri) * b == c * ri * b);
    }
}

/// The buys of a ladder cost no more than the collateral that the ladder
/// was given: the sizes times the prices add up to at most a hundred times
/// the collateral, both in their fixed-point units.
pub proof fn lemma_buys_within_collateral(token: Token, cfg: AMMConfig, p_i: i64, y: nat)
    requires
        cfg.has_step(),
    ensures
        locked_collateral(buy_orders(token, cfg, p_i as int, y)) <= 100 * y,
{
    let p0 = p_i as int;
    let orders = buy_orders(token, cfg, p0, y);
    let n = cfg.buy_levels(p0) as int;
    assert(orders.take(n) =~= orders);
    if curve_defined(cfg, p0) {
        lemma_ladder_cost_bound(token, cfg, p_i, y, n);
        let i = price_root(p0) as int;
        let l = price_root(cfg.lower(p0)) as int;
        let ri = (i - l) * i;
        let q = level_price(cfg, p0, n - 1);
        let a = price_root(q) as int;
        let x = ladder_cost(token, cfg, p0, y, n) as int;
        let slack = (y * 1_000_000_000_000) * (i - a) - (buy_cumulative(cfg, p0, y, n - 1) * ri)
            * a;
        lemma_price_root_range(p0);
        lemma_price_root_strict(cfg.lower(p0), p0);
        lemma_price_root_monotonic(cfg.lower(p0), q);
        assert(0 <= slack * q) by (nonlinear_arith)
            requires
                0 <= slack,
                0 <= q,
        ;
        assert((x * ri) * a <= ((100 * y * i) * (i - a)) * a);
        assert(x * ri <= (100 * y * i) * (i - a)) by (nonlinear_arith)
            requires
                (x * ri) * a <= ((100 * y * i) * (i - a)) * a,
                0 < a,
        ;
        assert((100 * y * i) * (i - a) <= (100 * y) * ri) by (nonlinear_arith)
            requires
                ri == (i - l) * i,
                0 <= i - a <= i - l,
                0 <= y,
                0 < i,
        ;
        assert(0 < ri) by (nonlinear_arith)
            requires
                ri == (i - l) * i,
                0 < i - l,
                0 < i,
        ;
        assert(x <= 100 * y) by (nonlinear_arith)
            requires
                x * ri <= (100 * y) * ri,
                0 < ri,
        ;
    } else {
        lemma_ladder_free(token, cfg, p_i, y, n);
    }
}

/// Where the curve is not defined, every buy has the size zero and costs
/// nothing.
pub proof fn lemma_ladder_free(token: Token, cfg: AMMConfig, p_i: i64, y: nat, m: int)
    requires
        cfg.has_step(),
        !curve_defined(cfg, p_i as int),
        0 <= m <= cfg.buy_levels(p_i as int),
    ensures
        ladder_cost(token, cfg, p_i as int, y, m) == 0,
    decreases m,
{
    if m == 0 {
        assert(buy_orders(token, cfg, p_i as int, y).take(0) =~= Seq::<Order>::empty());
    } else {
        lemma_ladder_free(token, cfg, p_i, y, m - 1);
        lemma_ladder_cost_step(token, cfg, p_i, y, m);
        let p = cfg.buy_price_at(p_i as int, m - 1);
        assert(buy_cumulative(cfg, p_i as int, y, m - 1) == 0);
        assert(buy_cumulative(cfg, p_i as int, y, m - 2) == 0);
        assert((0 - 0) * p == 0) by (nonlinear_arith);
    }
}

/// One level of the ladder, in the terms of the argument. Before the level
/// the cost so far, scaled, is `cost`, the last root is `a`, the last price
/// `q` and the total bought so far, scaled, is `bought`. At the level the
/// root is `b`, the price `p` and the total bought, scaled, `bought_next`.
/// If the bound held before the level, it holds after it.
pub proof fn lemma_cost_step(
    cost: int,
    bought: int,
    bought_next: int,
    y: int,
    z: int,
    i: int,
    a: int,
    b: int,
    p: int,
    q: int,
)
    requires
        0 <= y,
        0 <= z,
        z * i == y * 10_000_000_000,
        0 < b <= a <= i,
        0 <= p <= q,
        a == b || 10_000_000_000 * p <= a * b,
        z * (i - a) - bought * a >= 0,
        cost * a + (z * (i - a) - bought * a) * q <= y * (i - a) * a,
    ensures
        (cost + bought_next * p - bought * p) * b + (z * (i - b) - bought_next * b) * p <= y * (i
            - b) * b,
{
    let sigma = z * (i - a) - bought * a;
    // the bound before the level, taken b times, with the smaller price
    assert(cost * a * b + sigma * p * b <= y * (i - a) * a * b) by (nonlinear_arith)
        requires
            cost * a + sigma * q <= y * (i - a) * a,
            0 <= sigma,
            0 <= p <= q,
            0 < b,
    ;
    // what the slack is made of
    assert(sigma * p * b == z * (i - a) * p * b - bought * a * p * b) by (nonlinear_arith)
        requires
            sigma == z * (i - a) - bought * a,
    ;
    // the step of the roots pays for the step of the total
    assert(z * p * i * (a - b) <= y * a * b * (a - b)) by (nonlinear_arith)
        requires
            z * i == y * 10_000_000_000,
            a == b || 10_000_000_000 * p <= a * b,
            0 <= y,
            0 <= a - b,
    ;
    let w = z * p;
    assert((i - b) * a - (i - a) * b == i * (a - b)) by (nonlinear_arith);
    assert(z * (i - b) * p * a == w * ((i - b) * a)) by (nonlinear_arith)
        requires
            w == z * p,
    ;
    assert(z * (i - a) * p * b == w * ((i - a) * b)) by (nonlinear_arith)
        requires
            w == z * p,
    ;
    assert(w * ((i - b) * a) - w * ((i - a) * b) == w * (i * (a - b))) by (nonlinear_arith)
        requires
            (i - b) * a - (i - a) * b == i * (a - b),
    ;
    assert(z * p * i * (a - b) == w * (i * (a - b))) by (nonlinear_arith)
        requires
            w == z * p,
    ;
    assert(y * (i - a) * a * b + y * a * b * (a - b) == y * (i - b) * b * a) by (nonlinear_arith);
    let goal = (cost + bought_next * p - bought * p) * b + (z * (i - b) - bought_next * b) * p;
    assert(goal == cost * b - bought * p * b + z * (i - b) * p) by (nonlinear_arith)
        requires
            goal == (cost + bought_next * p - bought * p) * b + (z * (i - b) - bought_next * b)
                * p,
    ;
    assert(goal * a == cost * a * b - bought * a * p * b + z * (i - b) * p * a)
        by (nonlinear_arith)
        requires
            goal == cost * b - bought * p * b + z * (i - b) * p,
    ;
    assert(goal * a <= (y * (i - b) * b) * a);
    assert(goal <= y * (i - b) * b) by (nonlinear_arith)
        requires
            goal * a <= (y * (i - b) * b) * a,
            0 < a,
    ;
}

/// What two sequences of orders lock together is what the one locks and
/// what the other locks.
pub proof fn lemma_locked_concat(first: Seq<Order>, second: Seq<Order>)
    ensures
        locked_collateral(first + second) == locked_collateral(first) + locked_collateral(second),
    decreases second.len(),
{
    if second.len() == 0 {
        assert(first + second =~= first);
    } else {
        assert((first + second).drop_last() =~= first + second.drop_last());
        assert((first + second).last() == second.last());
        lemma_locked_concat(first, second.drop_last());
    }
}

/// The sells of a ladder lock no collateral.
pub proof fn lemma_sells_lock_nothing(token: Token, cfg: AMMConfig, p_i: int, x: nat, m: int)
    requires
        0 <= m <= cfg.sell_levels(p_i),
    ensures
        locked_collateral(sell_orders(token, cfg, p_i, x).take(m)) == 0,
    decreases m,
{
    let orders = sell_orders(token, cfg, p_i, x);
    if m == 0 {
        assert(orders.take(0) =~= Seq::<Order>::empty());
    } else {
        lemma_sells_lock_nothing(token, cfg, p_i, x, m - 1);
        assert(orders.take(m).drop_last() =~= orders.take(m - 1));
        assert(orders.take(m).last() == orders[m - 1]);
    }
}

/// The two shares of the collateral are together no more than the
/// collateral.
pub proof fn lemma_allocation_within(c: nat, best_a: nat, best_b: nat, phi_a: nat, phi_b: nat)
    ensures
        allocation(c, best_a, best_b, phi_a, phi_b).a + allocation(
            c,
            best_a,
            best_b,
            phi_a,
            phi_b,
        ).b <= c,
{
    let num = (best_a - best_b) * 1_000_000 + c * phi_b;
    let den = (phi_a + phi_b) as int;
    if den != 0 && num > 0 && num < c * den {
        assert(0 <= num / den < c) by (nonlinear_arith)
            requires
                0 < num < c * den,
                0 < den,
        ;
    }
}

/// The orders that the two curves ask for lock no more collateral than
/// there is, and no more than the configured maximum: the buys of the two
/// tokens together cost at most a hundred times the smaller of the two,
/// in ten-thousandths.
pub proof fn lemma_expected_orders_within_collateral(
    cfg: AMMConfig,
    prices: TokenPrices,
    balances: Balances,
)
    requires
        cfg.has_step(),
    ensures
        locked_collateral(expected_orders(cfg, prices, balances)) <= 100 * lower_of(
            balances.collateral as int,
            cfg.max_collateral as int,
        ),
{
    let sells_a = sell_orders(Token::A, cfg, prices.a as int, balances.token_a as nat);
    let sells_b = sell_orders(Token::B, cfg, prices.b as int, balances.token_b as nat);
    let c = lower_of(balances.collateral as int, cfg.max_collateral as int) as nat;
    let share = allocation(
        c,
        best_size(sells_a),
        best_size(sells_b),
        phi_of(cfg, prices.a as int),
        phi_of(cfg, prices.b as int),
    );
    let buys_a = buy_orders(Token::A, cfg, prices.a as int, share.a);
    let buys_b = buy_orders(Token::B, cfg, prices.b as int, share.b);
    lemma_allocation_within(
        c,
        best_size(sells_a),
        best_size(sells_b),
        phi_of(cfg, prices.a as int),
        phi_of(cfg, prices.b as int),
    );
    lemma_sells_lock_nothing(
        Token::A,
        cfg,
        prices.a as int,
        balances.token_a as nat,
        sells_a.len() as int,
    );
    lemma_sells_lock_nothing(
        Token::B,
        cfg,
        prices.b as int,
        balances.token_b as nat,
        sells_b.len() as int,
    );
    assert(sells_a.take(sells_a.len() as int) =~= sells_a);
    assert(sells_b.take(sells_b.len() as int) =~= sells_b);
    lemma_buys_within_collateral(Token::A, cfg, prices.a, share.a);
    lemma_buys_within_collateral(Token::B, cfg, prices.b, share.b);
    lemma_locked_concat(sells_a, sells_b);
    lemma_locked_concat(sells_a + sells_b, buys_a);
    lemma_locked_concat(sells_a + sells_b + buys_a, buys_b);
}

} // verus!
