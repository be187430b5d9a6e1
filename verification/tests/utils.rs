use poly_market_maker::utils::{
    add_randomness, floor_div, math_round_down, math_round_up, randomize_default_price,
    round_price, MICRO,
};

#[test]
fn micro_is_a_millionth() {
    assert_eq!(MICRO, 1_000_000);
}

#[test]
fn round_down_to_decimals() {
    assert_eq!(math_round_down(123_456, 2), 120_000);
    assert_eq!(math_round_down(123_456, 0), 0);
    assert_eq!(math_round_down(1_999_999, 0), 1_000_000);
    assert_eq!(math_round_down(123_456, 5), 123_450);
    assert_eq!(math_round_down(123_456, 6), 123_456);
    assert_eq!(math_round_down(123_456, 9), 123_456);
    assert_eq!(math_round_down(-123_456, 2), -130_000);
    assert_eq!(math_round_down(-120_000, 2), -120_000);
    assert_eq!(math_round_down(i64::MIN, 0), -9_223_372_036_855_000_000);
}

#[test]
fn round_up_to_decimals() {
    assert_eq!(math_round_up(123_456, 2), 130_000);
    assert_eq!(math_round_up(120_000, 2), 120_000);
    assert_eq!(math_round_up(-123_456, 2), -120_000);
    assert_eq!(math_round_up(1, 0), 1_000_000);
    assert_eq!(math_round_up(123_456, 7), 123_456);
    assert_eq!(math_round_up(i64::MAX, 0), 9_223_372_036_855_000_000);
}

#[test]
fn floor_div_rounds_towards_minus_infinity() {
    assert_eq!(floor_div(7, 2), 3);
    assert_eq!(floor_div(-7, 2), -4);
    assert_eq!(floor_div(-8, 2), -4);
    assert_eq!(floor_div(0, 5), 0);
    assert_eq!(floor_div(-1, 1_000_000), -1);
}

#[test]
fn round_price_rounds_halves_away_from_zero() {
    assert_eq!(round_price(0), 0);
    assert_eq!(round_price(4_999), 0);
    assert_eq!(round_price(5_000), 1);
    assert_eq!(round_price(14_999), 1);
    assert_eq!(round_price(15_000), 2);
    assert_eq!(round_price(-4_999), 0);
    assert_eq!(round_price(-5_000), -1);
    assert_eq!(round_price(-15_000), -2);
    assert_eq!(round_price(505_000), 51);
    assert_eq!(round_price(495_000), 50);
}

#[test]
fn add_randomness_moves_within_the_bounds() {
    assert_eq!(add_randomness(500_000, -100_000, 100_000, 0), 400_000);
    assert_eq!(add_randomness(500_000, -100_000, 100_000, 250_000), 450_000);
    assert_eq!(add_randomness(500_000, -100_000, 100_000, 999_999), 590_000);
    assert_eq!(add_randomness(500_000, 0, 0, 777), 500_000);
    assert_eq!(add_randomness(500_001, 10_000, 30_000, 500_000), 520_000);
    assert_eq!(add_randomness(0, -30_000, -10_000, 500_000), -20_000);
    assert_eq!(add_randomness(0, -30_000, -10_000, 500_001), -20_000);
    assert_eq!(add_randomness(0, -30_000, -10_000, 499_999), -30_000);
}

#[test]
fn randomize_default_price_is_a_tenth_either_way() {
    assert_eq!(randomize_default_price(500_000, 0), 400_000);
    assert_eq!(randomize_default_price(500_000, 1_000_000), 600_000);
    assert_eq!(randomize_default_price(500_000, 500_000), 500_000);
    for sample in [0u32, 1, 49_999, 50_000, 333_333, 999_999, 1_000_000] {
        let p = randomize_default_price(500_000, sample);
        assert!(400_000 <= p && p <= 600_000);
        assert_eq!(p % 10_000, 0);
    }
}
