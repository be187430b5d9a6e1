use poly_market_maker::errors::{ConfigError, SyncError};
use poly_market_maker::order::{Order, Side};
use poly_market_maker::orderbook::OrderBook;
use poly_market_maker::strategies::amm::AMMConfig;
use poly_market_maker::strategies::amm_strategy::{reconcile_orders, AMMStrategy};
use poly_market_maker::strategies::bands::Band;
use poly_market_maker::strategies::base_strategy::BaseStrategy;
use poly_market_maker::strategies::bands_strategy::{
    collateral_left, orders_by_corresponding_buy_token, BandsStrategy,
};
use poly_market_maker::strategy::{
    check_balances, compute_target_prices, Strategy, StrategyConfig, StrategyManager,
};
use poly_market_maker::token::{Balances, Token, TokenPrices};

fn amm_config() -> AMMConfig {
    AMMConfig { p_min: 5, p_max: 95, spread: 1, delta: 1, depth: 10, max_collateral: 20_000 }
}

fn bands_config() -> Vec<Band> {
    vec![
        Band::new(0, 2, 5, 1000, 2000, 3000).unwrap(),
        Band::new(5, 7, 10, 1000, 2000, 3000).unwrap(),
    ]
}

fn book(orders: Vec<Order>, collateral: u64, token_a: u64, token_b: u64) -> OrderBook {
    OrderBook {
        orders,
        balances: Balances { collateral, token_a, token_b },
        orders_being_placed: false,
        orders_being_cancelled: false,
    }
}

fn o(size: u64, price: i64, side: Side, token: Token, id: &str) -> Order {
    Order::new(size, price, side, token, Some(id.to_string()))
}

fn shape(orders: &[Order]) -> Vec<(u64, i64, Side, Token)> {
    orders.iter().map(|o| (o.size, o.price, o.side, o.token)).collect()
}

fn ids(orders: &[Order]) -> Vec<String> {
    orders.iter().map(|o| o.id.clone().unwrap_or_default()).collect()
}

#[test]
fn target_prices_add_up_to_one() {
    for raw in [0i64, 1, 123_456, 500_000, 504_999, 505_001, 999_999, 1_000_000] {
        let p = compute_target_prices(raw);
        assert_eq!(p.a + p.b, 100, "raw {}", raw);
    }
    assert_eq!(compute_target_prices(123_456), TokenPrices { a: 12, b: 88 });
    assert_eq!(compute_target_prices(500_000), TokenPrices { a: 50, b: 50 });
}

#[test]
fn target_prices_on_a_half_cent_are_both_rounded_up() {
    assert_eq!(compute_target_prices(505_000), TokenPrices { a: 51, b: 50 });
    assert_eq!(compute_target_prices(5_000), TokenPrices { a: 1, b: 100 });
    assert_eq!(compute_target_prices(995_000), TokenPrices { a: 100, b: 1 });
}

#[test]
fn target_prices_outside_the_unit_interval() {
    // halves are rounded away from zero, so the two cancel out
    assert_eq!(compute_target_prices(-5_000), TokenPrices { a: -1, b: 101 });
    assert_eq!(compute_target_prices(1_005_000), TokenPrices { a: 101, b: -1 });
    assert_eq!(compute_target_prices(-123_456), TokenPrices { a: -12, b: 112 });
    let low = compute_target_prices(i64::MIN);
    assert_eq!(low.a as i128 + low.b as i128, 100);
}

#[test]
fn manager_refuses_a_config_of_the_other_shape() {
    let r = StrategyManager::new(Strategy::AMM, StrategyConfig::Bands(bands_config()));
    assert!(matches!(r, Err(ConfigError::ShapeMismatch)));
    let r = StrategyManager::new(Strategy::BANDS, StrategyConfig::Amm(amm_config()));
    assert!(matches!(r, Err(ConfigError::ShapeMismatch)));
}

#[test]
fn manager_refuses_what_the_quoter_refuses() {
    let mut c = amm_config();
    c.depth = 1;
    let r = StrategyManager::new(Strategy::AMM, StrategyConfig::Amm(c));
    assert!(matches!(r, Err(ConfigError::DepthNotAboveSpread)));
    let overlapping =
        vec![Band::new(0, 2, 5, 0, 0, 0).unwrap(), Band::new(1, 2, 3, 0, 0, 0).unwrap()];
    let r = StrategyManager::new(Strategy::BANDS, StrategyConfig::Bands(overlapping));
    assert!(matches!(r, Err(ConfigError::BandsOverlap)));
    assert!(matches!(BandsStrategy::new(vec![Band::new(0, 2, 5, 0, 0, 0).unwrap(); 2]), Err(ConfigError::BandsOverlap)));
    assert!(matches!(AMMStrategy::new(c), Err(ConfigError::DepthNotAboveSpread)));
}

#[test]
fn synchronize_refuses_zero_balances() {
    let manager = StrategyManager::new(Strategy::AMM, StrategyConfig::Amm(amm_config())).unwrap();
    for (c, a, b) in [(10_000, 0, 0), (0, 1, 1), (1, 0, 1), (1, 1, 0), (0, 0, 0)] {
        let r = manager.synchronize(&book(vec![], c, a, b), 500_000);
        assert!(matches!(r, Err(SyncError::ZeroBalances)));
    }
    assert_eq!(SyncError::ZeroBalances.message(), "zero balances");
    let zero = Balances { collateral: 1, token_a: 0, token_b: 1 };
    assert_eq!(check_balances(&zero), Err(SyncError::ZeroBalances));
    let fine = Balances { collateral: 1, token_a: 1, token_b: 1 };
    assert_eq!(check_balances(&fine), Ok(()));
}

const SELL_SIZES: [u64; 10] = [565, 549, 533, 519, 504, 491, 478, 465, 453, 443];
const BUY_SIZES: [u64; 10] = [1923, 1983, 2046, 2113, 2182, 2257, 2334, 2418, 2505, 2599];

fn ladders() -> Vec<(u64, i64, Side, Token)> {
    let mut want = Vec::new();
    for token in [Token::A, Token::B] {
        for (k, size) in SELL_SIZES.iter().enumerate() {
            want.push((*size, 51 + k as i64, Side::Sell, token));
        }
    }
    for token in [Token::A, Token::B] {
        for (k, size) in BUY_SIZES.iter().enumerate() {
            want.push((*size, 49 - k as i64, Side::Buy, token));
        }
    }
    want
}

#[test]
fn synchronize_amm_places_the_ladders_on_an_empty_book() {
    let manager = StrategyManager::new(Strategy::AMM, StrategyConfig::Amm(amm_config())).unwrap();
    assert!(manager.can_quote());
    let (cancel, place) =
        manager.synchronize(&book(vec![], 20_000, 5000, 5000), 500_000).unwrap();
    assert!(cancel.is_empty());
    // every level is placed, the small sells too
    assert_eq!(shape(&place), ladders());
    assert!(place.iter().all(|o| o.id.is_none() && o.size > 0));
}

#[test]
fn a_manager_with_a_step_of_zero_cannot_quote() {
    let mut c = amm_config();
    c.delta = 0;
    let manager = StrategyManager::new(Strategy::AMM, StrategyConfig::Amm(c)).unwrap();
    assert!(!manager.can_quote());
    let bands =
        StrategyManager::new(Strategy::BANDS, StrategyConfig::Bands(bands_config())).unwrap();
    assert!(bands.can_quote());
}

#[test]
fn amm_strategy_reconciles_bucket_by_bucket() {
    let strategy = AMMStrategy::new(amm_config()).unwrap();
    assert_eq!(strategy.configuration(), amm_config());
    let open = vec![
        o(1000, 49, Side::Buy, Token::A, "under"),
        o(3000, 48, Side::Buy, Token::A, "over"),
        o(500, 30, Side::Buy, Token::A, "stray"),
        o(100, 51, Side::Sell, Token::A, "small"),
        o(2046, 47, Side::Buy, Token::A, "exact"),
    ];
    let (cancel, place) = strategy
        .get_orders(&book(open, 20_000, 5000, 5000), &TokenPrices { a: 50, b: 50 });
    assert_eq!(ids(&cancel), vec!["stray", "over"]);
    let mut want = ladders();
    // 100 of 565 are open at 51: the missing 465 are placed
    want[0].0 = 465;
    // 1000 of 1923 are open at 49: the missing 923 are placed
    want[20].0 = 923;
    // at 47 all is open: nothing is placed
    want.remove(22);
    assert_eq!(shape(&place), want);
}

#[test]
fn reconcile_orders_sums_a_bucket() {
    let expected = vec![
        Order::new(2000, 40, Side::Buy, Token::A, None),
        Order::new(1000, 40, Side::Buy, Token::A, None),
        Order::new(1600, 60, Side::Sell, Token::B, None),
    ];
    let open = vec![
        o(700, 40, Side::Buy, Token::A, "a"),
        o(800, 40, Side::Buy, Token::A, "b"),
        o(900, 60, Side::Sell, Token::B, "c"),
        o(800, 60, Side::Sell, Token::B, "d"),
        o(5, 60, Side::Sell, Token::A, "e"),
    ];
    let (cancel, place) = reconcile_orders(&open, &expected);
    // 1500 of 3000 open at 40: the missing 1500 are placed
    // 1700 open at 60 where 1600 are expected: both go, 1600 are placed
    assert_eq!(ids(&cancel), vec!["e", "c", "d"]);
    assert_eq!(
        shape(&place),
        vec![(1500, 40, Side::Buy, Token::A), (1600, 60, Side::Sell, Token::B)]
    );
}

#[test]
fn reconcile_orders_places_every_positive_size() {
    let expected = vec![Order::new(3000, 40, Side::Buy, Token::A, None)];
    let open = vec![o(2999, 40, Side::Buy, Token::A, "a")];
    let (cancel, place) = reconcile_orders(&open, &expected);
    assert!(cancel.is_empty());
    assert_eq!(shape(&place), vec![(1, 40, Side::Buy, Token::A)]);
    let nothing = vec![Order::new(0, 40, Side::Buy, Token::A, None)];
    let (cancel, place) = reconcile_orders(&open, &nothing);
    assert_eq!(ids(&cancel), vec!["a"]);
    assert!(place.is_empty());
    let open = vec![o(3000, 40, Side::Buy, Token::A, "a")];
    let (cancel, place) = reconcile_orders(&open, &expected);
    assert!(cancel.is_empty());
    assert!(place.is_empty());
    let (cancel, place) = reconcile_orders(&open, &[]);
    assert_eq!(ids(&cancel), vec!["a"]);
    assert!(place.is_empty());
}

#[test]
fn bands_strategy_quotes_both_tokens_on_an_empty_book() {
    let strategy = BandsStrategy::new(bands_config()).unwrap();
    let (cancel, place) =
        strategy.get_orders(&book(vec![], 10_000, 5000, 5000), &TokenPrices { a: 60, b: 40 });
    assert!(cancel.is_empty());
    assert_eq!(
        shape(&place),
        vec![
            (2000, 42, Side::Sell, Token::B),
            (2000, 58, Side::Buy, Token::A),
            (2000, 47, Side::Sell, Token::B),
            (2000, 53, Side::Buy, Token::A),
            (2000, 62, Side::Sell, Token::A),
            (2000, 38, Side::Buy, Token::B),
            (2000, 67, Side::Sell, Token::A),
            (2000, 33, Side::Buy, Token::B),
        ]
    );
}

#[test]
fn bands_strategy_runs_out_of_collateral() {
    let strategy = BandsStrategy::new(bands_config()).unwrap();
    // 20.00 of collateral: 2000 at 58 cost 11.60, then 1584 at 53 cost
    // 8.3952, and the 48 ten-thousandths that are left buy nothing
    let (_, place) =
        strategy.get_orders(&book(vec![], 2_000, 1, 1), &TokenPrices { a: 60, b: 40 });
    assert_eq!(
        shape(&place),
        vec![(2000, 58, Side::Buy, Token::A), (1584, 53, Side::Buy, Token::A)]
    );
}

#[test]
fn bands_strategy_cancels_and_refills() {
    let strategy = BandsStrategy::new(bands_config()).unwrap();
    let open = vec![
        o(2000, 58, Side::Buy, Token::A, "k1"),
        o(100, 30, Side::Buy, Token::A, "k2"),
        o(1200, 41, Side::Sell, Token::B, "k3"),
    ];
    let (cancel, place) =
        strategy.get_orders(&book(open, 10_000, 5000, 5000), &TokenPrices { a: 60, b: 40 });
    assert_eq!(ids(&cancel), vec!["k1", "k2"]);
    assert_eq!(
        shape(&place),
        vec![
            (2000, 47, Side::Sell, Token::B),
            (2000, 53, Side::Buy, Token::A),
            (2000, 62, Side::Sell, Token::A),
            (2000, 38, Side::Buy, Token::B),
            (2000, 67, Side::Sell, Token::A),
            (2000, 33, Side::Buy, Token::B),
        ]
    );
}

#[test]
fn bands_strategy_counts_what_open_orders_lock() {
    let strategy = BandsStrategy::new(bands_config()).unwrap();
    // the open buy locks 2000 * 58 of the 12.00 of collateral: 0.40 is free
    let open = vec![o(2000, 58, Side::Buy, Token::A, "k1")];
    let (cancel, place) =
        strategy.get_orders(&book(open, 1_200, 1, 1), &TokenPrices { a: 60, b: 40 });
    assert!(cancel.is_empty());
    assert!(place.is_empty());
}

#[test]
fn synchronize_bands_uses_the_rounded_prices() {
    let manager =
        StrategyManager::new(Strategy::BANDS, StrategyConfig::Bands(bands_config())).unwrap();
    let (cancel, place) =
        manager.synchronize(&book(vec![], 10_000, 5000, 5000), 603_210).unwrap();
    assert!(cancel.is_empty());
    assert_eq!(place.len(), 8);
    assert_eq!(place[1].price, 58);
    assert_eq!(place[5].price, 38);
}

#[test]
fn orders_are_grouped_by_the_token_they_buy() {
    let all = vec![
        o(1, 10, Side::Buy, Token::A, "ba"),
        o(2, 10, Side::Sell, Token::A, "sa"),
        o(3, 10, Side::Buy, Token::B, "bb"),
        o(4, 10, Side::Sell, Token::B, "sb"),
    ];
    assert_eq!(ids(&orders_by_corresponding_buy_token(&all, Token::A)), vec!["ba", "sb"]);
    assert_eq!(ids(&orders_by_corresponding_buy_token(&all, Token::B)), vec!["sa", "bb"]);
}

#[test]
fn collateral_left_counts_buys_at_positive_prices() {
    let all = vec![
        o(100, 10, Side::Buy, Token::A, "a"),
        o(100, 10, Side::Sell, Token::A, "b"),
        o(100, -10, Side::Buy, Token::B, "c"),
        o(3, 7, Side::Buy, Token::B, "d"),
    ];
    assert_eq!(collateral_left(&all, 5000), 5000 - 1000 - 21);
    assert_eq!(collateral_left(&all, 1021), 0);
    assert_eq!(collateral_left(&all, 1000), 0);
    assert_eq!(collateral_left(&[], 77), 77);
    let huge = vec![
        o(u64::MAX, i64::MAX, Side::Buy, Token::A, "x"),
        o(u64::MAX, i64::MAX, Side::Buy, Token::A, "y"),
        o(u64::MAX, i64::MAX, Side::Buy, Token::A, "z"),
    ];
    assert_eq!(collateral_left(&huge, u128::MAX / 2), 0);
}

fn ask<S: BaseStrategy>(strategy: &S, book: &OrderBook, prices: &TokenPrices) -> (usize, usize) {
    let (cancel, place) = BaseStrategy::get_orders(strategy, book, prices);
    (cancel.len(), place.len())
}

#[test]
fn both_strategies_answer_through_the_trait() {
    let empty = book(vec![], 10_000, 5000, 5000);
    let amm = AMMStrategy::new(amm_config()).unwrap();
    let bands = BandsStrategy::new(bands_config()).unwrap();
    let funded = book(vec![], 20_000, 5000, 5000);
    assert_eq!(ask(&amm, &funded, &TokenPrices { a: 50, b: 50 }), (0, 40));
    assert_eq!(ask(&amm, &empty, &TokenPrices { a: 50, b: 50 }), (0, 40));
    assert_eq!(ask(&bands, &empty, &TokenPrices { a: 60, b: 40 }), (0, 8));
}
