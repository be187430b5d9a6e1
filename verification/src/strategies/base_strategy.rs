//! What a quoting strategy offers: from a snapshot of the book and the
//! target prices of the two tokens, the orders to cancel and to place.

use crate::order::{Diff, Order};
use crate::orderbook::OrderBook;
use crate::strategies::amm::expected_orders;
use crate::strategies::amm_strategy::{reconcile, AMMStrategy};
use crate::strategies::bands_strategy::{bands_diff, BandsStrategy};
use crate::token::{Balances, TokenPrices};
use vstd::prelude::*;

verus! {

/// A quoting strategy.
pub trait BaseStrategy {
    /// The diff that the strategy asks for.
    spec fn diff(&self, orders: Seq<Order>, prices: TokenPrices, balances: Balances) -> Diff;

    /// The strategy can be asked: what it computes has an end.
    spec fn can_quote(&self) -> bool;

    /// Returns the orders to cancel and the orders to place.
    fn get_orders(&self, orderbook: &OrderBook, token_prices: &TokenPrices) -> (r: (
        Vec<Order>,
        Vec<Order>,
    ))
        requires
            self.can_quote(),
        ensures
            r.0@ == self.diff(orderbook.orders@, *token_prices, orderbook.balances).to_cancel,
            r.1@ == self.diff(orderbook.orders@, *token_prices, orderbook.balances).to_place,
    ;
}

impl BaseStrategy for AMMStrategy {
    open spec fn diff(&self, orders: Seq<Order>, prices: TokenPrices, balances: Balances) -> Diff {
        reconcile(orders, expected_orders(self.config(), prices, balances))
    }

    open spec fn can_quote(&self) -> bool {
        self.config().has_step()
    }

    fn get_orders(&self, orderbook: &OrderBook, token_prices: &TokenPrices) -> (r: (
        Vec<Order>,
        Vec<Order>,
    )) {
        AMMStrategy::get_orders(self, orderbook, token_prices)
    }
}

impl BaseStrategy for BandsStrategy {
    open spec fn diff(&self, orders: Seq<Order>, prices: TokenPrices, balances: Balances) -> Diff {
        bands_diff(self.bands(), orders, prices, balances)
    }

    open spec fn can_quote(&self) -> bool {
        true
    }

    fn get_orders(&self, orderbook: &OrderBook, token_prices: &TokenPrices) -> (r: (
        Vec<Order>,
        Vec<Order>,
    )) {
        BandsStrategy::get_orders(self, orderbook, token_prices)
    }
}

} // verus!
