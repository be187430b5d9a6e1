//! Rounding of fixed-point numbers. A raw price, as a price feed gives it, is
//! counted in millionths of the unit price.

use vstd::arithmetic::div_mod::lemma_fundamental_div_mod_converse;
use vstd::prelude::*;

verus! {

/// Number of millionths in one unit.
pub const MICRO: i64 = 1_000_000;

/// Ten to the power `n`.
pub open spec fn pow10(n: nat) -> nat
    decreases n,
{
    if n == 0 {
        1
    } else {
        10 * pow10((n - 1) as nat)
    }
}

/// The step, in millionths, between two numbers of `sig_digits` decimals;
/// one millionth when `sig_digits` is six or more.
pub open spec fn grid(sig_digits: nat) -> int {
    if sig_digits >= 6 {
        1
    } else {
        pow10((6 - sig_digits) as nat) as int
    }
}

/// The largest multiple of the grid of `sig_digits` decimals that is not
/// above `value`.
pub open spec fn round_down(value: int, sig_digits: nat) -> int {
    (value / grid(sig_digits)) * grid(sig_digits)
}

/// The smallest multiple of the grid of `sig_digits` decimals that is not
/// below `value`.
pub open spec fn round_up(value: int, sig_digits: nat) -> int {
    -round_down(-value, sig_digits)
}

/// A raw price rounded to hundredths, halves away from zero.
pub open spec fn round_to_cents(raw: int) -> int {
    if raw >= 0 {
        (raw + 5_000) / 10_000
    } else {
        -((-raw + 5_000) / 10_000)
    }
}

/// The price moved by `lower` plus the `sample` part of the distance from
/// `lower` to `upper`, rounded down to hundredths. The sample is in
/// millionths, and all else too.
pub open spec fn randomized(price: int, lower: int, upper: int, sample: int) -> int {
    round_down(price + (sample * (upper - lower)) / 1_000_000 + lower, 2)
}

/// The result of rounding down lies on the grid, not above the value and
/// less than one step below it.
pub proof fn lemma_round_down_bounds(value: int, sig_digits: nat)
    ensures
        grid(sig_digits) > 0,
        round_down(value, sig_digits) <= value < round_down(value, sig_digits) + grid(sig_digits),
        round_down(value, sig_digits) % grid(sig_digits) == 0,
{
    lemma_grid_values(sig_digits);
    let g = grid(sig_digits);
    assert((value / g) * g <= value < (value / g) * g + g && ((value / g) * g) % g == 0)
        by (nonlinear_arith)
        requires
            g > 0,
    ;
}

/// The six grids.
pub proof fn lemma_grid_values(sig_digits: nat)
    ensures
        sig_digits == 0 ==> grid(sig_digits) == 1_000_000,
        sig_digits == 1 ==> grid(sig_digits) == 100_000,
        sig_digits == 2 ==> grid(sig_digits) == 10_000,
        sig_digits == 3 ==> grid(sig_digits) == 1_000,
        sig_digits == 4 ==> grid(sig_digits) == 100,
        sig_digits == 5 ==> grid(sig_digits) == 10,
        sig_digits >= 6 ==> grid(sig_digits) == 1,
        1 <= grid(sig_digits) <= 1_000_000,
{
    reveal_with_fuel(pow10, 8);
}

/// Divides rounding towards minus infinity.
pub fn floor_div(value: i128, divisor: i128) -> (r: i128)
    requires
        0 < divisor <= 0x7fff_ffff_ffff_ffff,
        -0x4000_0000_0000_0000_0000_0000_0000_0000 <= value
            <= 0x4000_0000_0000_0000_0000_0000_0000_0000,
    ensures
        r == value as int / divisor as int,
{
    if value >= 0 {
        value / divisor
    } else {
        let up = (-value + divisor - 1) / divisor;
        proof {
            let q = (-value + divisor - 1) / (divisor as int);
            let rem = (-value + divisor - 1) % (divisor as int);
            assert(-value + divisor - 1 == q * divisor + rem && 0 <= rem < divisor)
                by (nonlinear_arith)
                requires
                    q == (-value + divisor - 1) / (divisor as int),
                    rem == (-value + divisor - 1) % (divisor as int),
                    divisor > 0,
            ;
            assert((-q) * divisor == -(q * divisor)) by (nonlinear_arith);
            lemma_fundamental_div_mod_converse(
                value as int,
                divisor as int,
                -q,
                divisor - 1 - rem,
            );
        }
        -up
    }
}

/// Returns the grid of `sig_digits` decimals, in millionths.
fn grid_of(sig_digits: u32) -> (r: i128)
    ensures
        r == grid(sig_digits as nat),
        1 <= r <= 1_000_000,
{
    proof {
        lemma_grid_values(sig_digits as nat);
    }
    match sig_digits {
        0 => 1_000_000,
        1 => 100_000,
        2 => 10_000,
        3 => 1_000,
        4 => 100,
        5 => 10,
        _ => 1,
    }
}

/// Rounds a number of millionths down to `sig_digits` decimals.
pub fn math_round_down(value: i64, sig_digits: u32) -> (r: i128)
    ensures
        r == round_down(value as int, sig_digits as nat),
{
    let g = grid_of(sig_digits);
    let q = floor_div(value as i128, g);
    proof {
        lemma_round_down_bounds(value as int, sig_digits as nat);
    }
    assert(-0x8000_0000_0000_0000 - 1_000_000 <= q * g <= 0x7fff_ffff_ffff_ffff) by {
        assert(q * g == round_down(value as int, sig_digits as nat));
    }
    q * g
}

/// Rounds a number of millionths up to `sig_digits` decimals.
pub fn math_round_up(value: i64, sig_digits: u32) -> (r: i128)
    ensures
        r == round_up(value as int, sig_digits as nat),
{
    let g = grid_of(sig_digits);
    let q = floor_div(-(value as i128), g);
    proof {
        lemma_round_down_bounds(-(value as int), sig_digits as nat);
    }
    assert(-0x8000_0000_0000_0000 - 1_000_000 <= q * g <= 0x8000_0000_0000_0000) by {
        assert(q * g == round_down(-(value as int), sig_digits as nat));
    }
    -(q * g)
}

/// Rounds a raw price to hundredths, halves away from zero.
pub fn round_price(raw: i128) -> (r: i64)
    requires
        -0x1_0000_0000_0000_0000 <= raw <= 0x1_0000_0000_0000_0000,
    ensures
        r == round_to_cents(raw as int),
{
    if raw >= 0 {
        ((raw + 5_000) / 10_000) as i64
    } else {
        (-((-raw + 5_000) / 10_000)) as i64
    }
}

/// Moves a price by a random amount between `lower` and `upper` and rounds
/// down to hundredths. `sample` is the random number, in millionths, which
/// the caller draws between zero and one.
pub fn add_randomness(price: i64, lower: i64, upper: i64, sample: u32) -> (r: i128)
    ensures
        r == randomized(price as int, lower as int, upper as int, sample as int),
{
    let span: i128 = upper as i128 - lower as i128;
    assert(-0x1_0000_0000 * 0x1_0000_0000_0000_0000 <= sample * span <= 0x1_0000_0000
        * 0x1_0000_0000_0000_0000) by (nonlinear_arith)
        requires
            0 <= sample <= 0xffff_ffff,
            -0x1_0000_0000_0000_0000 <= span <= 0x1_0000_0000_0000_0000,
    ;
    let part = floor_div((sample as i128) * span, 1_000_000);
    assert(-0x1_0000_0000 * 0x1_0000_0000_0000_0000 <= part <= 0x1_0000_0000
        * 0x1_0000_0000_0000_0000) by (nonlinear_arith)
        requires
            part == (sample * span) / 1_000_000,
            -0x1_0000_0000 * 0x1_0000_0000_0000_0000 <= sample * span <= 0x1_0000_0000
                * 0x1_0000_0000_0000_0000,
    ;
    let moved: i128 = price as i128 + part + lower as i128;
    let q = floor_div(moved, 10_000);
    proof {
        lemma_grid_values(2);
        lemma_round_down_bounds(moved as int, 2);
    }
    assert(q * 10_000 == round_down(moved as int, 2));
    q * 10_000
}

/// Moves a price by a random amount of at most a tenth of the unit either
/// way.
pub fn randomize_default_price(price: i64, sample: u32) -> (r: i128)
    ensures
        r == randomized(price as int, -100_000, 100_000, sample as int),
        sample <= 1_000_000 ==> price - 110_000 < r <= price + 100_000,
{
    let r = add_randomness(price, -100_000, 100_000, sample);
    proof {
        lemma_grid_values(2);
        let part = (sample * 200_000) / 1_000_000;
        lemma_round_down_bounds(price + part - 100_000, 2);
        if sample <= 1_000_000 {
            assert(0 <= part <= 200_000);
        }
    }
    r
}

/// The two rounded prices of a binary market add up to the unit price,
/// except where the raw price lies strictly between zero and one and
/// exactly on a half hundredth: there both are rounded up and the sum is
/// one hundredth more.
pub proof fn lemma_complement_prices_sum(raw: int)
    ensures
        round_to_cents(raw) + round_to_cents(1_000_000 - raw) == (if raw % 10_000 == 5_000 && 0
            < raw < 1_000_000 {
            101int
        } else {
            100int
        }),
{
}

} // verus!
