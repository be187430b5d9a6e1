use poly_market_maker::errors::ConfigError;
use poly_market_maker::math::isqrt;
use poly_market_maker::order::{Order, Side};
use poly_market_maker::strategies::amm::{
    buy_size_on_curve, sell_size_on_curve, AMMConfig, AMMManager, AMM,
};
use poly_market_maker::token::{Balances, Token, TokenPrices};

fn config() -> AMMConfig {
    AMMConfig { p_min: 5, p_max: 95, spread: 1, delta: 1, depth: 10, max_collateral: 20_000 }
}

fn sizes(orders: &[Order]) -> Vec<u64> {
    orders.iter().map(|o| o.size).collect()
}

fn prices(orders: &[Order]) -> Vec<i64> {
    orders.iter().map(|o| o.price).collect()
}

#[test]
fn isqrt_is_the_floor_of_the_root() {
    assert_eq!(isqrt(0), 0);
    assert_eq!(isqrt(1), 1);
    assert_eq!(isqrt(3), 1);
    assert_eq!(isqrt(4), 2);
    assert_eq!(isqrt(99), 9);
    assert_eq!(isqrt(100), 10);
    assert_eq!(isqrt(500_000_000_000), 707_106);
    assert_eq!(isqrt(u64::MAX), 4_294_967_295);
    assert_eq!(isqrt(4_294_967_295 * 4_294_967_295), 4_294_967_295);
    assert_eq!(isqrt(4_294_967_295 * 4_294_967_295 - 1), 4_294_967_294);
}

#[test]
fn amm_new_refuses_depth_not_above_spread() {
    let mut c = config();
    c.spread = 10;
    assert!(matches!(AMM::new(Token::A, &c), Err(ConfigError::DepthNotAboveSpread)));
    c.spread = 11;
    assert!(matches!(AMM::new(Token::A, &c), Err(ConfigError::DepthNotAboveSpread)));
    assert!(matches!(AMMManager::new(c), Err(ConfigError::DepthNotAboveSpread)));
    c.spread = 9;
    assert!(AMM::new(Token::A, &c).is_ok());
    assert_eq!(c.check(), Ok(()));
}

#[test]
fn amm_new_takes_a_step_of_zero() {
    let mut c = config();
    c.delta = 0;
    assert_eq!(c.check(), Ok(()));
    assert!(!c.step_is_positive());
    let amm = AMM::new(Token::A, &c).unwrap();
    assert_eq!(amm.configuration(), c);
    assert!(amm.sell_prices().is_empty());
    assert!(amm.get_buy_orders(10_000).is_empty());
    let manager = AMMManager::new(c).unwrap();
    assert_eq!(manager.configuration(), c);
    c.spread = 10;
    assert_eq!(c.check(), Err(ConfigError::DepthNotAboveSpread));
    assert!(config().step_is_positive());
}

#[test]
fn ladders_run_from_the_spread_to_the_depth() {
    let mut amm = AMM::new(Token::A, &config()).unwrap();
    assert!(amm.sell_prices().is_empty());
    assert!(amm.buy_prices().is_empty());
    amm.set_price(50);
    assert_eq!(amm.sell_prices(), &vec![51, 52, 53, 54, 55, 56, 57, 58, 59, 60]);
    assert_eq!(amm.buy_prices(), &vec![49, 48, 47, 46, 45, 44, 43, 42, 41, 40]);
}

#[test]
fn ladders_stop_at_the_ends_of_the_range() {
    let mut amm = AMM::new(Token::A, &config()).unwrap();
    amm.set_price(90);
    assert_eq!(amm.sell_prices(), &vec![91, 92, 93, 94, 95]);
    amm.set_price(8);
    assert_eq!(amm.buy_prices(), &vec![7, 6, 5]);
    amm.set_price(95);
    assert!(amm.sell_prices().is_empty());
    amm.set_price(5);
    assert!(amm.buy_prices().is_empty());
    amm.set_price(200);
    assert!(amm.sell_prices().is_empty());
}

#[test]
fn ladders_step_by_delta() {
    let c = AMMConfig { p_min: 5, p_max: 95, spread: 2, delta: 3, depth: 10, max_collateral: 0 };
    let mut amm = AMM::new(Token::B, &c).unwrap();
    amm.set_price(50);
    assert_eq!(amm.sell_prices(), &vec![52, 55, 58]);
    assert_eq!(amm.buy_prices(), &vec![48, 45, 42]);
}

#[test]
fn curve_sells_everything_at_the_upper_end() {
    assert_eq!(sell_size_on_curve(5000, 50, 60, 60), 5000);
    assert_eq!(sell_size_on_curve(5000, 50, 50, 60), 0);
    assert_eq!(sell_size_on_curve(5000, 50, 55, 60), 2670);
    assert_eq!(sell_size_on_curve(5000, 50, 51, 60), 565);
}

#[test]
fn curve_is_zero_where_it_is_not_defined() {
    assert_eq!(sell_size_on_curve(5000, 0, 55, 60), 0);
    assert_eq!(sell_size_on_curve(5000, 50, 55, 101), 0);
    assert_eq!(sell_size_on_curve(5000, 60, 60, 60), 0);
    assert_eq!(sell_size_on_curve(5000, 50, 49, 60), 0);
    assert_eq!(buy_size_on_curve(10_000, 50, 45, 0), 0);
    assert_eq!(buy_size_on_curve(10_000, 50, 51, 40), 0);
    assert_eq!(buy_size_on_curve(10_000, 40, 40, 40), 0);
    assert_eq!(buy_size_on_curve(10_000, -1, -2, -3), 0);
}

#[test]
fn curve_buys_more_as_the_price_falls() {
    assert_eq!(buy_size_on_curve(10_000, 50, 50, 40), 0);
    assert_eq!(buy_size_on_curve(10_000, 50, 49, 40), 1923);
    assert_eq!(buy_size_on_curve(10_000, 50, 45, 40), 10_247);
    assert_eq!(buy_size_on_curve(10_000, 50, 40, 40), 22_360);
}

#[test]
fn curve_sizes_are_capped() {
    assert_eq!(buy_size_on_curve(u64::MAX, 2, 1, 1), u64::MAX);
    assert_eq!(sell_size_on_curve(u64::MAX, 1, 100, 2), u64::MAX);
    assert_eq!(sell_size_on_curve(u64::MAX, 50, 60, 60), u64::MAX);
}

#[test]
fn sell_orders_are_the_steps_of_the_curve() {
    let mut amm = AMM::new(Token::A, &config()).unwrap();
    assert!(amm.get_sell_orders(5000).is_empty());
    amm.set_price(50);
    let orders = amm.get_sell_orders(5000);
    assert_eq!(prices(&orders), vec![51, 52, 53, 54, 55, 56, 57, 58, 59, 60]);
    assert_eq!(sizes(&orders), vec![565, 549, 533, 519, 504, 491, 478, 465, 453, 443]);
    assert!(orders.iter().all(|o| o.side == Side::Sell && o.token == Token::A && o.id.is_none()));
}

#[test]
fn buy_orders_are_the_steps_of_the_curve() {
    let mut amm = AMM::new(Token::B, &config()).unwrap();
    assert!(amm.get_buy_orders(10_000).is_empty());
    amm.set_price(50);
    let orders = amm.get_buy_orders(10_000);
    assert_eq!(prices(&orders), vec![49, 48, 47, 46, 45, 44, 43, 42, 41, 40]);
    assert_eq!(sizes(&orders), vec![1923, 1983, 2046, 2113, 2182, 2257, 2334, 2418, 2505, 2599]);
    assert!(orders.iter().all(|o| o.side == Side::Buy && o.token == Token::B && o.id.is_none()));
}

#[test]
fn ladder_sizes_add_up_to_the_curve() {
    let mut amm = AMM::new(Token::A, &config()).unwrap();
    for (p, x) in [(50, 5000u64), (30, 4000), (90, 123_457), (8, 999), (95, 10), (50, 0)] {
        amm.set_price(p);
        let sells = amm.get_sell_orders(x);
        let total: u64 = sizes(&sells).iter().sum();
        match sells.last() {
            Some(last) => assert_eq!(total, amm.sell_size(x, last.price)),
            None => assert_eq!(total, 0),
        }
        let buys = amm.get_buy_orders(x);
        let total: u64 = sizes(&buys).iter().sum();
        match buys.last() {
            Some(last) => assert_eq!(total, amm.buy_size(x, last.price)),
            None => assert_eq!(total, 0),
        }
    }
}

#[test]
fn phi_is_the_share_of_the_first_buy_level() {
    let mut amm = AMM::new(Token::A, &config()).unwrap();
    amm.set_price(50);
    assert_eq!(amm.phi(), 116_509);
    amm.set_price(30);
    assert_eq!(amm.phi(), 127_599);
    amm.set_price(70);
    assert_eq!(amm.phi(), 111_801);
    // no buy level
    amm.set_price(5);
    assert_eq!(amm.phi(), 0);
    // no room above
    amm.set_price(95);
    assert_eq!(amm.phi(), 0);
}

#[test]
fn collateral_allocation_splits_and_clamps() {
    assert_eq!(AMMManager::collateral_allocation(10_000, 500, 300, 200_000, 100_000), (4000, 6000));
    assert_eq!(AMMManager::collateral_allocation(10_000, 0, 5000, 100_000, 100_000), (0, 10_000));
    assert_eq!(AMMManager::collateral_allocation(100, 900, 0, 1, 1), (100, 0));
    assert_eq!(AMMManager::collateral_allocation(10_000, 0, 0, 3, 7), (7000, 3000));
    // 7 * 0 / 3 = 0 for A
    assert_eq!(AMMManager::collateral_allocation(7, 0, 0, 3, 0), (0, 7));
}

#[test]
fn collateral_allocation_rounds_both_down() {
    // 10000 * 1 / 3 = 3333.33: A gets 3333, B 6666
    assert_eq!(AMMManager::collateral_allocation(10_000, 0, 0, 2, 1), (3333, 6666));
}

#[test]
fn collateral_allocation_without_factors() {
    assert_eq!(AMMManager::collateral_allocation(10, 1, 0, 0, 0), (10, 0));
    assert_eq!(AMMManager::collateral_allocation(10, 0, 1, 0, 0), (0, 10));
    assert_eq!(AMMManager::collateral_allocation(10, 0, 0, 0, 0), (0, 0));
}

#[test]
fn expected_orders_of_a_balanced_market() {
    let mut manager = AMMManager::new(config()).unwrap();
    let orders = manager.get_expected_orders(
        &TokenPrices { a: 50, b: 50 },
        &Balances { collateral: 20_000, token_a: 5000, token_b: 5000 },
    );
    assert_eq!(orders.len(), 40);
    let up: Vec<i64> = (51..=60).collect();
    let down: Vec<i64> = (40..=49).rev().collect();
    let sell_sizes = vec![565, 549, 533, 519, 504, 491, 478, 465, 453, 443];
    let buy_sizes = vec![1923, 1983, 2046, 2113, 2182, 2257, 2334, 2418, 2505, 2599];
    for (part, token, side, ps, ss) in [
        (&orders[0..10], Token::A, Side::Sell, &up, &sell_sizes),
        (&orders[10..20], Token::B, Side::Sell, &up, &sell_sizes),
        (&orders[20..30], Token::A, Side::Buy, &down, &buy_sizes),
        (&orders[30..40], Token::B, Side::Buy, &down, &buy_sizes),
    ] {
        assert!(part.iter().all(|o| o.token == token && o.side == side && o.id.is_none()));
        assert_eq!(&prices(part), ps);
        assert_eq!(&sizes(part), ss);
        assert!(part.iter().all(|o| o.size > 0));
    }
    // the sells shrink level by level
    assert!(orders[0..10].windows(2).all(|w| w[0].size >= w[1].size));
}

#[test]
fn expected_orders_cap_the_collateral() {
    let mut manager = AMMManager::new(config()).unwrap();
    let capped = manager.get_expected_orders(
        &TokenPrices { a: 50, b: 50 },
        &Balances { collateral: 9_000_000, token_a: 5000, token_b: 5000 },
    );
    let exact = manager.get_expected_orders(
        &TokenPrices { a: 50, b: 50 },
        &Balances { collateral: 20_000, token_a: 5000, token_b: 5000 },
    );
    assert_eq!(sizes(&capped), sizes(&exact));
}

#[test]
fn expected_orders_of_a_skewed_market() {
    let mut manager = AMMManager::new(config()).unwrap();
    let orders = manager.get_expected_orders(
        &TokenPrices { a: 30, b: 70 },
        &Balances { collateral: 15_000, token_a: 4000, token_b: 1000 },
    );
    assert_eq!(orders.len(), 40);
    assert_eq!(sizes(&orders[0..10]), vec![485, 463, 441, 422, 403, 387, 371, 356, 342, 330]);
    assert_eq!(sizes(&orders[10..20]), vec![109, 107, 105, 103, 101, 98, 97, 95, 93, 92]);
    assert_eq!(
        sizes(&orders[20..30]),
        vec![2662, 2804, 2959, 3128, 3313, 3519, 3745, 3999, 4280, 4598]
    );
    assert_eq!(sizes(&orders[30..40]), vec![893, 913, 933, 954, 977, 999, 1023, 1047, 1073, 1100]);
    assert_eq!(prices(&orders[30..40]), vec![69, 68, 67, 66, 65, 64, 63, 62, 61, 60]);
}

fn cost(orders: &[Order]) -> u128 {
    orders
        .iter()
        .filter(|o| o.side == Side::Buy && o.price > 0)
        .map(|o| o.size as u128 * o.price as u128)
        .sum()
}

#[test]
fn buys_cost_no_more_than_their_collateral() {
    let mut amm = AMM::new(Token::A, &config()).unwrap();
    for p in [6, 8, 30, 50, 70, 90, 95] {
        for y in [0u64, 1, 99, 10_000, 123_457, 20_000_000] {
            amm.set_price(p);
            let buys = amm.get_buy_orders(y);
            assert!(cost(&buys) <= 100 * y as u128, "price {} collateral {}", p, y);
        }
    }
    // 100.00 of collateral at 50: the ten buys cost 98.8852
    amm.set_price(50);
    assert_eq!(cost(&amm.get_buy_orders(10_000)), 988_852);
}

#[test]
fn expected_orders_lock_no_more_than_the_collateral() {
    let mut manager = AMMManager::new(config()).unwrap();
    for (a, b, c) in [(50, 50, 20_000u64), (30, 70, 15_000), (12, 88, 7), (50, 50, 9_000_000)] {
        let orders = manager.get_expected_orders(
            &TokenPrices { a, b },
            &Balances { collateral: c, token_a: 4000, token_b: 1000 },
        );
        assert!(cost(&orders) <= 100 * c.min(20_000) as u128);
    }
}
