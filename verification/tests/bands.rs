use poly_market_maker::errors::ConfigError;
use poly_market_maker::order::{Order, Side};
use poly_market_maker::strategies::bands::{copy_orders, Band, Bands};
use poly_market_maker::token::Token;

fn band(min_m: i64, avg_m: i64, max_m: i64, min_a: u64, avg_a: u64, max_a: u64) -> Band {
    Band::new(min_m, avg_m, max_m, min_a, avg_a, max_a).unwrap()
}

fn buy(size: u64, price: i64) -> Order {
    Order::new(size, price, Side::Buy, Token::A, None)
}

fn sell(size: u64, price: i64) -> Order {
    Order::new(size, price, Side::Sell, Token::B, None)
}

fn shape(orders: &[Order]) -> Vec<(u64, i64, Side, Token)> {
    orders.iter().map(|o| (o.size, o.price, o.side, o.token)).collect()
}

fn two_bands() -> Bands {
    Bands::new(vec![band(0, 2, 5, 1000, 2000, 3000), band(5, 7, 10, 1000, 2000, 3000)]).unwrap()
}

#[test]
fn band_new_checks_amounts_then_margins() {
    assert!(Band::new(0, 2, 5, 1000, 2000, 3000).is_ok());
    assert!(Band::new(0, 0, 5, 0, 0, 0).is_ok());
    assert_eq!(Band::new(0, 2, 5, 2000, 1000, 3000), Err(ConfigError::BandAmounts));
    assert_eq!(Band::new(0, 2, 5, 1000, 4000, 3000), Err(ConfigError::BandAmounts));
    assert_eq!(Band::new(3, 2, 5, 1000, 2000, 3000), Err(ConfigError::BandMargins));
    assert_eq!(Band::new(0, 6, 5, 1000, 2000, 3000), Err(ConfigError::BandMargins));
    assert_eq!(Band::new(5, 5, 5, 1000, 2000, 3000), Err(ConfigError::BandMargins));
    assert_eq!(Band::new(5, 5, 5, 3000, 2000, 1000), Err(ConfigError::BandAmounts));
}

#[test]
fn band_prices_around_the_target() {
    let b = band(1, 3, 5, 0, 0, 0);
    assert_eq!(b.min_price(60), 55);
    assert_eq!(b.buy_price(60), 57);
    assert_eq!(b.sell_price(60), 43);
    assert_eq!(b.max_price(60), 59);
    assert_eq!(b.min_price(2), -3);
    assert_eq!(b.min_price(i64::MIN), i64::MIN as i128 - 5);
}

#[test]
fn band_includes_is_open_below_and_closed_above() {
    let b = band(1, 3, 5, 0, 0, 0);
    assert!(!b.includes(&buy(100, 55), 60));
    assert!(b.includes(&buy(100, 56), 60));
    assert!(b.includes(&buy(100, 59), 60));
    assert!(!b.includes(&buy(100, 60), 60));
    // a sell at q counts as a buy at 100 - q
    assert!(b.includes(&sell(100, 43), 60));
    assert!(b.includes(&sell(100, 41), 60));
    assert!(!b.includes(&sell(100, 45), 60));
    assert!(!b.includes(&sell(100, 40), 60));
}

#[test]
fn excessive_orders_first_band_gives_up_the_nearest() {
    let b = band(0, 2, 5, 1000, 2000, 3000);
    let orders = vec![buy(1500, 59), buy(1000, 57), buy(1200, 56)];
    let out = b.excessive_orders(&orders, 60, true, false);
    assert_eq!(shape(&out), vec![(1500, 59, Side::Buy, Token::A)]);
    // first wins over last
    let out = b.excessive_orders(&orders, 60, true, true);
    assert_eq!(shape(&out), vec![(1500, 59, Side::Buy, Token::A)]);
}

#[test]
fn excessive_orders_last_band_gives_up_the_farthest() {
    let b = band(0, 2, 5, 1000, 2000, 3000);
    let orders = vec![buy(1500, 59), buy(1000, 57), buy(1200, 56)];
    let out = b.excessive_orders(&orders, 60, false, true);
    assert_eq!(shape(&out), vec![(1200, 56, Side::Buy, Token::A)]);
}

#[test]
fn excessive_orders_interior_band_gives_up_the_largest() {
    let b = band(0, 2, 5, 1000, 2000, 3000);
    let orders = vec![buy(1500, 59), buy(1000, 57), buy(1200, 56)];
    let out = b.excessive_orders(&orders, 60, false, false);
    assert_eq!(shape(&out), vec![(1500, 59, Side::Buy, Token::A)]);
}

#[test]
fn excessive_orders_takes_several_in_order() {
    let b = band(0, 2, 5, 0, 0, 1000);
    let orders = vec![buy(900, 59), buy(800, 58), buy(700, 57), buy(600, 56), buy(5000, 40)];
    // interior: sorted by size 600, 700, 800, 900; the largest go first
    let out = b.excessive_orders(&orders, 60, false, false);
    assert_eq!(
        shape(&out),
        vec![
            (900, 59, Side::Buy, Token::A),
            (800, 58, Side::Buy, Token::A),
            (700, 57, Side::Buy, Token::A)
        ]
    );
}

#[test]
fn excessive_orders_keeps_equal_keys_in_their_order() {
    let b = band(0, 2, 5, 0, 0, 1000);
    let first = Order::new(700, 58, Side::Buy, Token::A, Some("first".to_string()));
    let second = Order::new(700, 57, Side::Buy, Token::A, Some("second".to_string()));
    let out = b.excessive_orders(&[first, second], 60, false, false);
    assert_eq!(out.len(), 1);
    assert_eq!(out[0].id, Some("second".to_string()));
}

#[test]
fn excessive_orders_none_within_the_maximum() {
    let b = band(0, 2, 5, 1000, 2000, 3000);
    let orders = vec![buy(1500, 59), buy(1500, 57)];
    assert!(b.excessive_orders(&orders, 60, true, false).is_empty());
    assert!(b.excessive_orders(&[], 60, true, false).is_empty());
}

#[test]
fn amount_in_band_counts_only_the_band() {
    let b = band(0, 2, 5, 1000, 2000, 3000);
    let orders = vec![buy(1500, 59), buy(1000, 50), sell(300, 42), sell(7, 10)];
    assert_eq!(b.amount_in_band(&orders, 60), 1800);
}

#[test]
fn bands_new_refuses_overlap() {
    let r = Bands::new(vec![band(0, 2, 5, 0, 0, 0), band(4, 6, 8, 0, 0, 0)]);
    assert!(matches!(r, Err(ConfigError::BandsOverlap)));
    let r = Bands::new(vec![band(4, 6, 8, 0, 0, 0), band(0, 2, 5, 0, 0, 0)]);
    assert!(matches!(r, Err(ConfigError::BandsOverlap)));
    assert!(Bands::new(vec![band(0, 2, 5, 0, 0, 0), band(5, 6, 8, 0, 0, 0)]).is_ok());
    assert!(Bands::new(vec![]).is_ok());
    assert!(Bands::new(vec![band(0, 2, 5, 0, 0, 0)]).is_ok());
}

#[test]
fn bands_new_refuses_an_ill_formed_band() {
    let bad_amounts = Band {
        min_margin: 0,
        avg_margin: 1,
        max_margin: 2,
        min_amount: 5,
        avg_amount: 1,
        max_amount: 9,
    };
    let bad_margins = Band {
        min_margin: 3,
        avg_margin: 1,
        max_margin: 2,
        min_amount: 1,
        avg_amount: 1,
        max_amount: 9,
    };
    assert!(matches!(Bands::new(vec![bad_amounts]), Err(ConfigError::BandAmounts)));
    assert!(matches!(Bands::new(vec![bad_margins]), Err(ConfigError::BandMargins)));
    assert!(matches!(
        Bands::new(vec![band(0, 2, 5, 0, 0, 0), bad_margins, bad_amounts]),
        Err(ConfigError::BandMargins)
    ));
}

#[test]
fn bands_overlap_compares_every_pair() {
    let a = band(0, 2, 5, 0, 0, 0);
    let b = band(5, 7, 10, 0, 0, 0);
    let c = band(9, 11, 12, 0, 0, 0);
    assert!(!Bands::bands_overlap(&[a, b]));
    assert!(Bands::bands_overlap(&[a, b, c]));
    assert!(!Bands::bands_overlap(&[a, c]));
    assert!(!Bands::bands_overlap(&[a]));
    assert!(Bands::bands_overlap(&[a, a]));
}

#[test]
fn virtual_bands_are_those_that_reach_above_zero() {
    let bands = two_bands();
    assert_eq!(bands.calculate_virtual_bands(60).len(), 2);
    // max_price = 5 - 5 = 0 for the second band
    assert_eq!(bands.calculate_virtual_bands(5).len(), 1);
    assert_eq!(bands.calculate_virtual_bands(0).len(), 0);
    assert_eq!(bands.calculate_virtual_bands(-3).len(), 0);
}

#[test]
fn order_outside_every_band_is_cancelled() {
    let bands = two_bands();
    let orders = vec![buy(2000, 50)];
    let out = bands.cancellable_orders(&orders, 60);
    assert_eq!(shape(&out), vec![(2000, 50, Side::Buy, Token::A)]);
}

#[test]
fn order_inside_a_band_stays() {
    let bands = two_bands();
    let orders = vec![buy(2000, 58), buy(2000, 53), sell(500, 42)];
    assert!(bands.cancellable_orders(&orders, 60).is_empty());
}

#[test]
fn cancellable_orders_lists_excess_then_outsiders() {
    let bands = two_bands();
    let orders = vec![
        buy(100, 99),
        buy(2000, 58),
        buy(1500, 59),
        buy(3500, 52),
        buy(200, 10),
    ];
    let out = bands.cancellable_orders(&orders, 60);
    assert_eq!(
        shape(&out),
        vec![
            // first band: 3500 in all, the nearest goes
            (1500, 59, Side::Buy, Token::A),
            // last band: 3500 alone is above the maximum
            (3500, 52, Side::Buy, Token::A),
            // outside every band, in their order
            (100, 99, Side::Buy, Token::A),
            (200, 10, Side::Buy, Token::A),
        ]
    );
}

#[test]
fn cancellable_and_kept_orders_make_up_the_book() {
    let bands = two_bands();
    let orders = vec![
        buy(100, 99),
        buy(2000, 58),
        buy(1500, 59),
        buy(3500, 52),
        buy(900, 54),
        sell(800, 41),
    ];
    let cancelled = bands.cancellable_orders(&orders, 60);
    let total: u64 = orders.iter().map(|o| o.size).sum();
    let gone: u64 = cancelled.iter().map(|o| o.size).sum();
    // what stays fits the bands: 2000 + 800 in the first, 900 in the second
    assert_eq!(total - gone, 2000 + 800 + 900);
    assert_eq!(cancelled.len(), 3);
}

#[test]
fn cancellable_orders_without_a_positive_target_is_everything() {
    let bands = two_bands();
    let orders = vec![buy(2000, 58), sell(500, 42)];
    assert_eq!(shape(&bands.cancellable_orders(&orders, 0)), shape(&orders));
    assert_eq!(shape(&bands.cancellable_orders(&orders, -5)), shape(&orders));
}

#[test]
fn new_orders_fill_empty_bands() {
    let bands = two_bands();
    let out = bands.new_orders(&[], 1_000_000, 5000, 60, Token::A);
    assert_eq!(
        shape(&out),
        vec![
            (2000, 42, Side::Sell, Token::B),
            (2000, 58, Side::Buy, Token::A),
            (2000, 47, Side::Sell, Token::B),
            (2000, 53, Side::Buy, Token::A),
        ]
    );
    assert!(out.iter().all(|o| o.id.is_none()));
}

#[test]
fn new_orders_buy_what_the_collateral_pays_for() {
    let bands = two_bands();
    // 10.00 of collateral: 100000 / 58 = 1724, which leaves 8
    let out = bands.new_orders(&[], 100_000, 0, 60, Token::A);
    assert_eq!(shape(&out), vec![(1724, 58, Side::Buy, Token::A)]);
    // 8.69 of collateral pays for 1498 at 58, which is below the minimum,
    // and for 1639 at 53
    let out = bands.new_orders(&[], 86_900, 0, 60, Token::A);
    assert_eq!(shape(&out), vec![(1639, 53, Side::Buy, Token::A)]);
    // 8.70 pays for exactly 1500
    let out = bands.new_orders(&[], 87_000, 0, 60, Token::A);
    assert_eq!(shape(&out), vec![(1500, 58, Side::Buy, Token::A)]);
}

#[test]
fn new_orders_sell_what_the_balance_holds() {
    let bands = two_bands();
    let out = bands.new_orders(&[], 0, 1600, 60, Token::B);
    assert_eq!(
        shape(&out),
        vec![(1600, 42, Side::Sell, Token::A), (1600, 47, Side::Sell, Token::A)]
    );
    assert!(bands.new_orders(&[], 0, 1499, 60, Token::B).is_empty());
}

#[test]
fn new_orders_top_up_to_the_average() {
    let bands = Bands::new(vec![band(0, 2, 5, 2000, 4000, 6000)]).unwrap();
    let orders = vec![buy(1900, 58)];
    let out = bands.new_orders(&orders, 10_000_000, 0, 60, Token::A);
    assert_eq!(shape(&out), vec![(2100, 58, Side::Buy, Token::A)]);
    // at the minimum nothing is asked for
    let orders = vec![buy(2000, 58)];
    assert!(bands.new_orders(&orders, 10_000_000, 10_000, 60, Token::A).is_empty());
}

#[test]
fn new_orders_stay_inside_the_unit_interval() {
    let bands = two_bands();
    // at 99 the sell price would be 100 - 99 + 2 = 3 and 8; buys at 97 and 92
    let out = bands.new_orders(&[], 100_000_000, 5000, 99, Token::A);
    assert!(out.iter().all(|o| 0 < o.price && o.price < 100 && o.size >= 1500));
    assert_eq!(out.len(), 4);
    // at 1 the first band would buy at -1: only its sell at 101 is out too
    let out = bands.new_orders(&[], 100_000_000, 5000, 1, Token::A);
    assert!(out.is_empty());
    // at 3: buy at 1, sell at 99; the second band does not reach above zero
    let out = bands.new_orders(&[], 100_000_000, 5000, 3, Token::A);
    assert_eq!(
        shape(&out),
        vec![(2000, 99, Side::Sell, Token::B), (2000, 1, Side::Buy, Token::A)]
    );
    assert!(bands.new_orders(&[], 100_000_000, 5000, 0, Token::A).is_empty());
}

#[test]
fn new_order_is_valid_bounds() {
    assert!(Bands::new_order_is_valid(1, 1500));
    assert!(Bands::new_order_is_valid(99, 1500));
    assert!(!Bands::new_order_is_valid(0, 1500));
    assert!(!Bands::new_order_is_valid(100, 1500));
    assert!(!Bands::new_order_is_valid(50, 1499));
    assert!(!Bands::new_order_is_valid(50, -1));
}

#[test]
fn copy_orders_copies() {
    let orders = vec![buy(1, 2), sell(3, 4)];
    assert_eq!(shape(&copy_orders(&orders)), shape(&orders));
}
