//! The strategy that keeps the amounts of the bands around the target
//! prices of the two tokens.

use crate::constants::MIN_SIZE;
use crate::errors::ConfigError;
use crate::order::{kind_occurs, of_no_kind, sum_sizes, total_size, Diff, Order, Side};
use crate::orderbook::OrderBook;
use crate::strategies::bands::{Band, Bands};
use crate::token::{Balances, Token, TokenPrices};
use vstd::prelude::*;

verus! {

/// An order counts for the bands that buy `buy_token` when it buys that
/// token or sells the other one.
pub open spec fn counts_for(order: Order, buy_token: Token) -> bool {
    (order.side == Side::Buy && order.token == buy_token) || (order.side == Side::Sell
        && order.token != buy_token)
}

/// The orders that count for the bands that buy `buy_token`, in their order.
pub open spec fn for_buy_token(orders: Seq<Order>, buy_token: Token) -> Seq<Order>
    decreases orders.len(),
{
    if orders.len() == 0 {
        Seq::empty()
    } else if counts_for(orders.last(), buy_token) {
        for_buy_token(orders.drop_last(), buy_token).push(orders.last())
    } else {
        for_buy_token(orders.drop_last(), buy_token)
    }
}

/// The collateral that one order locks, in ten-thousandths of a unit: size
/// times price for a buy at a positive price, nothing else.
pub open spec fn order_cost(order: Order) -> nat {
    if order.side == Side::Buy && order.price > 0 {
        (order.size * order.price) as nat
    } else {
        0
    }
}

/// The collateral that the buys among the orders lock.
pub open spec fn locked_collateral(orders: Seq<Order>) -> nat
    decreases orders.len(),
{
    if orders.len() == 0 {
        0
    } else {
        locked_collateral(orders.drop_last()) + order_cost(orders.last())
    }
}

/// The sells among the orders, in their order.
pub open spec fn sells_of(orders: Seq<Order>) -> Seq<Order>
    decreases orders.len(),
{
    if orders.len() == 0 {
        Seq::empty()
    } else if orders.last().side == Side::Sell {
        sells_of(orders.drop_last()).push(orders.last())
    } else {
        sells_of(orders.drop_last())
    }
}

/// What is left of a balance of which a part is locked; nothing when more
/// is locked than there is.
pub open spec fn remaining(balance: nat, locked: nat) -> nat {
    if locked >= balance {
        0
    } else {
        (balance - locked) as nat
    }
}

/// The diff that the bands ask for. The orders of each token's bands are
/// cancelled as the bands say, A first. An order stays open when no
/// cancelled order has its kind. The open buys lock collateral and the open
/// sells lock tokens; from what is free the bands of A, then those of B, ask
/// for new orders, and the buys of A use up collateral before B is served.
pub open spec fn bands_diff(bands: Bands, orders: Seq<Order>, prices: TokenPrices, balances: Balances) -> Diff {
    let to_cancel = bands.spec_cancellable_orders(for_buy_token(orders, Token::A), prices.a as int)
        + bands.spec_cancellable_orders(for_buy_token(orders, Token::B), prices.b as int);
    let open = of_no_kind(orders, to_cancel);
    let free = remaining((balances.collateral * 100) as nat, locked_collateral(open));
    let new_a = bands.spec_new_orders(
        for_buy_token(orders, Token::A),
        free,
        remaining(
            balances.token_b as nat,
            total_size(sells_of(for_buy_token(open, Token::A))),
        ),
        prices.a as int,
        Token::A,
    );
    let new_b = bands.spec_new_orders(
        for_buy_token(orders, Token::B),
        remaining(free, locked_collateral(new_a)),
        remaining(
            balances.token_a as nat,
            total_size(sells_of(for_buy_token(open, Token::B))),
        ),
        prices.b as int,
        Token::B,
    );
    Diff { to_cancel, to_place: new_a + new_b }
}

/// Copies the orders that count for the bands that buy `buy_token`.
pub fn orders_by_corresponding_buy_token(orders: &[Order], buy_token: Token) -> (r: Vec<Order>)
    ensures
        r@ == for_buy_token(orders@, buy_token),
{
    let mut out: Vec<Order> = Vec::new();
    let mut i: usize = 0;
    while i < orders.len()
        invariant
            i <= orders.len(),
            out@ == for_buy_token(orders@.take(i as int), buy_token),
        decreases orders.len() - i,
    {
        proof {
            assert(orders@.take(i + 1).drop_last() =~= orders@.take(i as int));
            assert(orders@.take(i + 1).last() == orders@[i as int]);
        }
        let order = &orders[i];
        if (order.side == Side::Buy && order.token == buy_token) || (order.side == Side::Sell
            && order.token != buy_token) {
            out.push(order.clone());
        }
        i = i + 1;
    }
    proof {
        assert(orders@.take(i as int) =~= orders@);
    }
    out
}

/// Copies the sells among the orders.
fn sells_among(orders: &[Order]) -> (r: Vec<Order>)
    ensures
        r@ == sells_of(orders@),
{
    let mut out: Vec<Order> = Vec::new();
    let mut i: usize = 0;
    while i < orders.len()
        invariant
            i <= orders.len(),
            out@ == sells_of(orders@.take(i as int)),
        decreases orders.len() - i,
    {
        proof {
            assert(orders@.take(i + 1).drop_last() =~= orders@.take(i as int));
            assert(orders@.take(i + 1).last() == orders@[i as int]);
        }
        if orders[i].side == Side::Sell {
            out.push(orders[i].clone());
        }
        i = i + 1;
    }
    proof {
        assert(orders@.take(i as int) =~= orders@);
    }
    out
}

/// Copies the orders whose kind no order of `kinds` has.
fn orders_of_no_kind(orders: &[Order], kinds: &[Order]) -> (r: Vec<Order>)
    ensures
        r@ == of_no_kind(orders@, kinds@),
{
    let mut out: Vec<Order> = Vec::new();
    let mut i: usize = 0;
    while i < orders.len()
        invariant
            i <= orders.len(),
            out@ == of_no_kind(orders@.take(i as int), kinds@),
        decreases orders.len() - i,
    {
        proof {
            assert(orders@.take(i + 1).drop_last() =~= orders@.take(i as int));
            assert(orders@.take(i + 1).last() == orders@[i as int]);
            assert(kinds@.take(kinds@.len() as int) =~= kinds@);
        }
        if !kind_occurs(kinds, kinds.len(), &orders[i]) {
            out.push(orders[i].clone());
        }
        i = i + 1;
    }
    proof {
        assert(orders@.take(i as int) =~= orders@);
    }
    out
}

/// Returns what is left of `balance`, in ten-thousandths of a unit of
/// collateral, when the buys among the orders have locked their cost.
pub fn collateral_left(orders: &[Order], balance: u128) -> (r: u128)
    requires
        balance < 0x8000_0000_0000_0000_0000_0000_0000_0000,
    ensures
        r == remaining(balance as nat, locked_collateral(orders@)),
{
    let mut locked: u128 = 0;
    let mut i: usize = 0;
    while i < orders.len()
        invariant
            i <= orders.len(),
            balance < 0x8000_0000_0000_0000_0000_0000_0000_0000,
            locked == locked_collateral(orders@.take(i as int)) || (locked > balance
                && locked_collateral(orders@.take(i as int)) > balance),
        decreases orders.len() - i,
    {
        proof {
            assert(orders@.take(i + 1).drop_last() =~= orders@.take(i as int));
            assert(orders@.take(i + 1).last() == orders@[i as int]);
        }
        let order = &orders[i];
        if order.side == Side::Buy && order.price > 0 && locked <= balance {
            assert(order.size * order.price <= 0xffff_ffff_ffff_ffff * 0x7fff_ffff_ffff_ffff)
                by (nonlinear_arith)
                requires
                    0 <= order.size <= 0xffff_ffff_ffff_ffff,
                    0 < order.price <= 0x7fff_ffff_ffff_ffff,
            ;
            assert(0 <= order.size * order.price) by (nonlinear_arith)
                requires
                    0 <= order.size,
                    0 < order.price,
            ;
            locked = locked + (order.size as u128) * (order.price as u128);
        }
        i = i + 1;
    }
    proof {
        assert(orders@.take(i as int) =~= orders@);
    }
    if locked >= balance {
        0
    } else {
        balance - locked
    }
}

/// Returns what is left of a balance of tokens when the orders have locked
/// their sizes.
fn tokens_left(orders: &[Order], balance: u64) -> (r: u64)
    ensures
        r == remaining(balance as nat, total_size(orders@)),
{
    let locked = sum_sizes(orders);
    if locked >= balance as u128 {
        0
    } else {
        (balance as u128 - locked) as u64
    }
}

/// The strategy that quotes the bands on both tokens.
pub struct BandsStrategy {
    bands: Bands,
}

impl BandsStrategy {
    /// The bands of the strategy.
    pub closed spec fn bands(&self) -> Bands {
        self.bands
    }

    /// Builds the strategy from the bands of the configuration. Bands that
    /// are not well formed or that overlap are refused as `Bands::new`
    /// refuses them.
    pub fn new(bands: Vec<Band>) -> (r: Result<BandsStrategy, ConfigError>)
        ensures
            r is Ok <==> crate::strategies::bands::all_wf(bands@)
                && !crate::strategies::bands::spec_bands_overlap(bands@),
            r is Ok ==> r->Ok_0.bands()@ == bands@,
            r is Err && crate::strategies::bands::all_wf(bands@) ==> r->Err_0
                == ConfigError::BandsOverlap,
            r is Err && !crate::strategies::bands::all_wf(bands@) ==> exists|i: int|
                0 <= i < bands@.len() && !(#[trigger] bands@[i]).wf()
                    && crate::strategies::bands::all_wf(bands@.take(i)) && r->Err_0 == (if !(
                bands@[i].min_amount <= bands@[i].avg_amount <= bands@[i].max_amount) {
                    ConfigError::BandAmounts
                } else {
                    ConfigError::BandMargins
                }),
    {
        match Bands::new(bands) {
            Ok(bands) => Ok(BandsStrategy { bands }),
            Err(e) => Err(e),
        }
    }

    /// Returns the orders to cancel and the orders to place so that every
    /// band holds an amount between its minimum and its maximum, as far as
    /// the balances of the book allow.
    pub fn get_orders(&self, orderbook: &OrderBook, target_prices: &TokenPrices) -> (r: (
        Vec<Order>,
        Vec<Order>,
    ))
        ensures
            r.0@ == bands_diff(
                self.bands(),
                orderbook.orders@,
                *target_prices,
                orderbook.balances,
            ).to_cancel,
            r.1@ == bands_diff(
                self.bands(),
                orderbook.orders@,
                *target_prices,
                orderbook.balances,
            ).to_place,
            forall|i: int|
                0 <= i < r.1@.len() ==> 0 < (#[trigger] r.1@[i]).price < 100 && r.1@[i].size
                    >= MIN_SIZE,
    {
        let orders = orderbook.orders.as_slice();
        let group_a = orders_by_corresponding_buy_token(orders, Token::A);
        let group_b = orders_by_corresponding_buy_token(orders, Token::B);
        let mut to_cancel = self.bands.cancellable_orders(group_a.as_slice(), target_prices.a);
        let mut cancel_b = self.bands.cancellable_orders(group_b.as_slice(), target_prices.b);
        to_cancel.append(&mut cancel_b);

        let open = orders_of_no_kind(orders, to_cancel.as_slice());
        let free = collateral_left(open.as_slice(), orderbook.balances.collateral as u128 * 100);

        let open_a = orders_by_corresponding_buy_token(open.as_slice(), Token::A);
        let free_token_b = tokens_left(
            sells_among(open_a.as_slice()).as_slice(),
            orderbook.balances.token_b,
        );
        let mut to_place = self.bands.new_orders(
            group_a.as_slice(),
            free,
            free_token_b,
            target_prices.a,
            Token::A,
        );
        let free_after_a = collateral_left(to_place.as_slice(), free);

        let open_b = orders_by_corresponding_buy_token(open.as_slice(), Token::B);
        let free_token_a = tokens_left(
            sells_among(open_b.as_slice()).as_slice(),
            orderbook.balances.token_a,
        );
        let mut place_b = self.bands.new_orders(
            group_b.as_slice(),
            free_after_a,
            free_token_a,
            target_prices.b,
            Token::B,
        );
        to_place.append(&mut place_b);
        (to_cancel, to_place)
    }
}

} // verus!
