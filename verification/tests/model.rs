use poly_market_maker::clob_api::{ClobApi, RemoteOrder};
use poly_market_maker::constants::{MAX_DECIMALS, MIN_SIZE, MIN_TICK, PRICE_ONE, SCALE};
use poly_market_maker::gas::{GasStation, GasStrategy, DEFAULT_FIXED_GAS_PRICE};
use poly_market_maker::market::Market;
use poly_market_maker::order::{kind_occurs, sum_sizes, Order, Side};
use poly_market_maker::price_feed::PriceFeedClob;
use poly_market_maker::strategy::Strategy;
use poly_market_maker::token::{Balances, Token, TokenPrices, COLLATERAL};

fn order(size: u64, price: i64, side: Side, token: Token, id: Option<&str>) -> Order {
    Order::new(size, price, side, token, id.map(|s| s.to_string()))
}

#[test]
fn token_complement_swaps_the_two() {
    assert_eq!(Token::A.complement(), Token::B);
    assert_eq!(Token::B.complement(), Token::A);
    assert_eq!(Token::A.complement().complement(), Token::A);
}

#[test]
fn token_names() {
    assert_eq!(Token::A.value(), "TokenA");
    assert_eq!(Token::B.value(), "TokenB");
    assert_eq!(COLLATERAL, "Collateral");
}

#[test]
fn constants_are_two_decimals() {
    assert_eq!(MAX_DECIMALS, 2);
    assert_eq!(SCALE, 100);
    assert_eq!(PRICE_ONE, 100);
    assert_eq!(MIN_SIZE, 1500);
    assert_eq!(MIN_TICK, 1);
}

#[test]
fn side_names() {
    assert_eq!(Side::Buy.value(), "BUY");
    assert_eq!(Side::Sell.value(), "SELL");
}

#[test]
fn side_from_str_ignores_case() {
    assert_eq!(Side::from_str("buy"), Some(Side::Buy));
    assert_eq!(Side::from_str("BUY"), Some(Side::Buy));
    assert_eq!(Side::from_str("Sell"), Some(Side::Sell));
    assert_eq!(Side::from_str("hold"), None);
    assert_eq!(Side::from_str(""), None);
}

#[test]
fn side_from_uppercase_is_exact() {
    assert_eq!(Side::from_uppercase("BUY"), Some(Side::Buy));
    assert_eq!(Side::from_uppercase("SELL"), Some(Side::Sell));
    assert_eq!(Side::from_uppercase("buy"), None);
}

#[test]
fn strategy_from_str_ignores_case() {
    assert_eq!(Strategy::from_str("amm"), Some(Strategy::AMM));
    assert_eq!(Strategy::from_str("AMM"), Some(Strategy::AMM));
    assert_eq!(Strategy::from_str("Bands"), Some(Strategy::BANDS));
    assert_eq!(Strategy::from_str("grid"), None);
    assert_eq!(Strategy::from_lowercase("AMM"), None);
}

#[test]
fn gas_strategy_names_round_trip() {
    for s in [GasStrategy::Fixed, GasStrategy::Station, GasStrategy::Web3] {
        assert_eq!(GasStrategy::from_str(s.value()), Some(s));
    }
    assert_eq!(GasStrategy::from_str("STATION"), Some(GasStrategy::Station));
    assert_eq!(GasStrategy::from_str("oracle"), None);
    assert_eq!(GasStrategy::from_lowercase("Fixed"), None);
}

#[test]
fn gas_station_defaults_and_prices() {
    let fixed = GasStation::new(GasStrategy::Fixed, None, None);
    assert_eq!(fixed.fixed_gas_price, DEFAULT_FIXED_GAS_PRICE);
    assert_eq!(fixed.fixed_gas_price, 100_000_000_000);
    assert_eq!(fixed.get_gas_price(Some(7)), 100_000_000_000);
    assert!(!fixed.asks_station());

    let station = GasStation::new(
        GasStrategy::Station,
        Some(5),
        Some("http://gas".to_string()),
    );
    assert!(station.asks_station());
    assert_eq!(station.get_gas_price(Some(42)), 42_000_000_000);
    assert_eq!(station.get_gas_price(None), 5);

    let web3 = GasStation::new(GasStrategy::Web3, Some(9), None);
    assert_eq!(web3.get_gas_price(Some(42)), 9);
    assert_eq!(web3.clone().fixed_gas_price, 9);
}

#[test]
fn order_kind_ignores_size_and_id() {
    let a = order(100, 50, Side::Buy, Token::A, None);
    let b = order(900, 50, Side::Buy, Token::A, Some("x"));
    let c = order(100, 51, Side::Buy, Token::A, None);
    let d = order(100, 50, Side::Sell, Token::A, None);
    let e = order(100, 50, Side::Buy, Token::B, None);
    assert!(a.is_same_kind(&b));
    assert!(!a.is_same_kind(&c));
    assert!(!a.is_same_kind(&d));
    assert!(!a.is_same_kind(&e));
    let all = vec![c, d, e, b];
    assert!(kind_occurs(&all, 4, &a));
    assert!(!kind_occurs(&all, 3, &a));
}

#[test]
fn order_clone_and_sum() {
    let a = order(100, 50, Side::Buy, Token::A, Some("id-1"));
    let b = a.clone();
    assert_eq!(b.size, 100);
    assert_eq!(b.price, 50);
    assert_eq!(b.side, Side::Buy);
    assert_eq!(b.token, Token::A);
    assert_eq!(b.id, Some("id-1".to_string()));
    let big = order(u64::MAX, 1, Side::Sell, Token::B, None);
    let big2 = order(u64::MAX, 1, Side::Sell, Token::B, None);
    assert_eq!(sum_sizes(&[a, big, big2]), 100u128 + 2 * (u64::MAX as u128));
    assert_eq!(sum_sizes(&[]), 0);
}

#[test]
fn token_prices_and_balances_by_token() {
    let p = TokenPrices { a: 40, b: 60 };
    assert_eq!(p.get(Token::A), 40);
    assert_eq!(p.get(Token::B), 60);
    let b = Balances { collateral: 1, token_a: 2, token_b: 3 };
    assert_eq!(b.of(Token::A), 2);
    assert_eq!(b.of(Token::B), 3);
    assert_eq!(b.get("Collateral"), Some(1));
    assert_eq!(b.get(Token::A.value()), Some(2));
    assert_eq!(b.get("TokenB"), Some(3));
    assert_eq!(b.get("collateral"), None);
    assert_eq!(b.get(""), None);
}

#[test]
fn clob_api_new_has_no_key() {
    let api = ClobApi::new("http://clob".to_string(), 137, "key".to_string());
    assert_eq!(api.host, "http://clob");
    assert_eq!(api.chain_id, 137);
    assert_eq!(api.private_key, "key");
    assert_eq!(api.api_key, None);
    assert_eq!(api.clone().host, "http://clob");
}

#[test]
fn clob_api_addresses() {
    let api = ClobApi::new("http://clob".to_string(), 137, "key".to_string());
    assert_eq!(api.midpoint_url(0), "http://clob/midpoint/0");
    assert_eq!(api.midpoint_url(8529253592479352563), "http://clob/midpoint/8529253592479352563");
    assert_eq!(api.midpoint_url(u64::MAX), "http://clob/midpoint/18446744073709551615");
    assert_eq!(api.orders_url("0x01"), "http://clob/orders?market=0x01");
    assert_eq!(api.order_url(), "http://clob/order");
    assert_eq!(api.cancel_url("abc"), "http://clob/order/abc");
    assert_eq!(api.cancel_all_url(), "http://clob/orders");
}

#[test]
fn placement_needs_success_and_an_id() {
    let id = || Some("0xabc".to_string());
    assert_eq!(ClobApi::placement_outcome(Some(true), id()), id());
    assert_eq!(ClobApi::placement_outcome(Some(false), id()), None);
    assert_eq!(ClobApi::placement_outcome(None, id()), None);
    assert_eq!(ClobApi::placement_outcome(Some(true), None), None);
    assert_eq!(ClobApi::placement_outcome(Some(true), Some(String::new())), None);
}

#[test]
fn empty_id_cancels_vacuously() {
    assert!(ClobApi::cancel_is_vacuous(""));
    assert!(!ClobApi::cancel_is_vacuous("1"));
}

#[test]
fn fallback_price_stays_near_the_default() {
    assert_eq!(ClobApi::price_or_fallback(Some(123_456), 999), 123_456);
    // 0.5 - 0.1 + 0 = 0.40
    assert_eq!(ClobApi::price_or_fallback(None, 0), 400_000);
    // 0.5 - 0.1 + 0.2 * 0.5 = 0.50
    assert_eq!(ClobApi::price_or_fallback(None, 500_000), 500_000);
    // 0.5 - 0.1 + 0.2 * 0.123456 = 0.4246912, down to 0.42
    assert_eq!(ClobApi::price_or_fallback(None, 123_456), 420_000);
    assert_eq!(ClobApi::price_or_fallback(None, 1_000_000), 600_000);
}

fn market() -> Market {
    Market { condition_id: "0x01".to_string(), token_id_a: 11, token_id_b: 22 }
}

#[test]
fn market_maps_tokens_and_ids() {
    let m = market();
    assert_eq!(m.token_id(Token::A), 11);
    assert_eq!(m.token_id(Token::B), 22);
    assert_eq!(m.token(11), Some(Token::A));
    assert_eq!(m.token(22), Some(Token::B));
    assert_eq!(m.token(33), None);
    let same = Market { condition_id: String::new(), token_id_a: 5, token_id_b: 5 };
    assert_eq!(same.token(5), Some(Token::A));
    assert_eq!(m.clone().token_id_b, 22);
}

#[test]
fn price_feed_looks_up_the_token_id() {
    let api = ClobApi::new("h".to_string(), 1, "k".to_string());
    let feed = PriceFeedClob::new(market(), api);
    assert_eq!(feed.token_id(Token::A), 11);
    assert_eq!(feed.token_id(Token::B), 22);
    assert_eq!(feed.clone().market.token_id_a, 11);
}

#[test]
fn remote_order_becomes_an_order() {
    let remote = RemoteOrder {
        original_size: 2500,
        size_matched: 700,
        price: 48,
        side: "sell".to_string(),
        asset_id: 22,
        id: Some("r-1".to_string()),
    };
    let o = remote.to_order(&market());
    assert_eq!(o.size, 1800);
    assert_eq!(o.price, 48);
    assert_eq!(o.side, Side::Sell);
    assert_eq!(o.token, Token::B);
    assert_eq!(o.id, Some("r-1".to_string()));
}

#[test]
fn remote_order_defaults() {
    let remote = RemoteOrder {
        original_size: 100,
        size_matched: 700,
        price: 48,
        side: "???".to_string(),
        asset_id: 99,
        id: None,
    };
    let o = remote.to_order(&market());
    assert_eq!(o.size, 0);
    assert_eq!(o.side, Side::Buy);
    assert_eq!(o.token, Token::A);
    assert_eq!(o.id, None);
}

#[test]
fn order_round_trips_through_the_remote_shape() {
    let m = market();
    for side in [Side::Buy, Side::Sell] {
        for token in [Token::A, Token::B] {
            let o = order(1234, 37, side, token, Some("abc"));
            let remote = RemoteOrder::from_order(&o, &m);
            assert_eq!(remote.original_size, 1234);
            assert_eq!(remote.size_matched, 0);
            assert_eq!(remote.side, o.side.value());
            assert_eq!(remote.asset_id, m.token_id(token));
            let back = remote.to_order(&m);
            assert_eq!(back.size, o.size);
            assert_eq!(back.price, o.price);
            assert_eq!(back.side, o.side);
            assert_eq!(back.token, o.token);
            assert_eq!(back.id, o.id);
        }
    }
}
