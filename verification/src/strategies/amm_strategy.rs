//! The strategy that keeps the book equal to the ladders of the curve.

use crate::errors::ConfigError;
use crate::order::{
    has_kind, kind_occurs, lemma_total_size_push, of_kind, of_no_kind, total_size, Diff, Order,
};
use crate::orderbook::OrderBook;
use crate::strategies::amm::{expected_orders, AMMConfig, AMMManager};
use crate::token::TokenPrices;
use vstd::prelude::*;

verus! {

/// The size to place in a bucket: all that is expected when more than that
/// is open, else what is missing; never more than the largest `u64`.
pub open spec fn bucket_new_size(open: nat, expected: nat) -> nat {
    let size = if open > expected {
        expected
    } else {
        (expected - open) as nat
    };
    if size > u64::MAX {
        u64::MAX as nat
    } else {
        size
    }
}

/// The diff of one bucket. When more is open than expected, all open orders
/// of the bucket go and the expected size is placed. When less is open, what
/// is missing is placed. Nothing of size zero is placed.
pub open spec fn bucket_diff(open_orders: Seq<Order>, expected: Seq<Order>, kind: Order) -> Diff {
    let open = of_kind(open_orders, kind);
    let open_size = total_size(open);
    let expected_size = total_size(of_kind(expected, kind));
    let new_size = bucket_new_size(open_size, expected_size);
    Diff {
        to_cancel: if open_size > expected_size {
            open
        } else {
            Seq::empty()
        },
        to_place: if new_size > 0 {
            seq![
                Order {
                    size: new_size as u64,
                    price: kind.price,
                    side: kind.side,
                    token: kind.token,
                    id: None,
                },
            ]
        } else {
            Seq::empty()
        },
    }
}

/// The diff of the buckets of the first `upto` expected orders. A bucket is
/// dealt with where its kind occurs first among the expected orders.
pub open spec fn buckets_diff(open_orders: Seq<Order>, expected: Seq<Order>, upto: int) -> Diff
    decreases upto,
{
    if upto <= 0 {
        Diff { to_cancel: Seq::empty(), to_place: Seq::empty() }
    } else {
        let before = buckets_diff(open_orders, expected, upto - 1);
        if has_kind(expected.take(upto - 1), expected[upto - 1]) {
            before
        } else {
            let here = bucket_diff(open_orders, expected, expected[upto - 1]);
            Diff {
                to_cancel: before.to_cancel + here.to_cancel,
                to_place: before.to_place + here.to_place,
            }
        }
    }
}

/// The diff between the open orders and the expected ones: first every open
/// order whose kind is not expected is cancelled, then the buckets of the
/// expected orders are dealt with one by one.
pub open spec fn reconcile(open_orders: Seq<Order>, expected: Seq<Order>) -> Diff {
    let buckets = buckets_diff(open_orders, expected, expected.len() as int);
    Diff {
        to_cancel: of_no_kind(open_orders, expected) + buckets.to_cancel,
        to_place: buckets.to_place,
    }
}

/// Adds up the sizes of the orders of a kind.
fn size_of_kind(orders: &[Order], kind: &Order) -> (r: u128)
    ensures
        r == total_size(of_kind(orders@, *kind)),
{
    let mut sum: u128 = 0;
    let mut i: usize = 0;
    while i < orders.len()
        invariant
            i <= orders.len(),
            sum == total_size(of_kind(orders@.take(i as int), *kind)),
            sum <= i * 0xffff_ffff_ffff_ffff,
        decreases orders.len() - i,
    {
        proof {
            assert(orders@.take(i + 1).drop_last() =~= orders@.take(i as int));
            assert(orders@.take(i + 1).last() == orders@[i as int]);
            lemma_total_size_push(of_kind(orders@.take(i as int), *kind), orders@[i as int]);
        }
        if orders[i].is_same_kind(kind) {
            sum = sum + orders[i].size as u128;
        }
        i = i + 1;
    }
    proof {
        assert(orders@.take(i as int) =~= orders@);
    }
    sum
}

/// Appends to `out` the orders of a kind.
fn push_of_kind(out: &mut Vec<Order>, orders: &[Order], kind: &Order)
    ensures
        final(out)@ == old(out)@ + of_kind(orders@, *kind),
{
    let ghost start = out@;
    let mut i: usize = 0;
    while i < orders.len()
        invariant
            i <= orders.len(),
            out@ == start + of_kind(orders@.take(i as int), *kind),
        decreases orders.len() - i,
    {
        proof {
            assert(orders@.take(i + 1).drop_last() =~= orders@.take(i as int));
            assert(orders@.take(i + 1).last() == orders@[i as int]);
        }
        if orders[i].is_same_kind(kind) {
            out.push(orders[i].clone());
            proof {
                let rest = of_kind(orders@.take(i as int), *kind);
                assert((start + rest).push(orders@[i as int]) =~= start + rest.push(
                    orders@[i as int],
                ));
            }
        }
        i = i + 1;
    }
    proof {
        assert(orders@.take(i as int) =~= orders@);
    }
}

/// Computes the diff between the open orders and the expected ones.
pub fn reconcile_orders(open_orders: &[Order], expected: &[Order]) -> (r: (Vec<Order>, Vec<Order>))
    ensures
        r.0@ == reconcile(open_orders@, expected@).to_cancel,
        r.1@ == reconcile(open_orders@, expected@).to_place,
        forall|i: int| 0 <= i < r.1@.len() ==> (#[trigger] r.1@[i]).size > 0,
{
    let mut to_cancel: Vec<Order> = Vec::new();
    let mut to_place: Vec<Order> = Vec::new();
    let mut i: usize = 0;
    while i < open_orders.len()
        invariant
            i <= open_orders.len(),
            to_cancel@ == of_no_kind(open_orders@.take(i as int), expected@),
        decreases open_orders.len() - i,
    {
        proof {
            assert(open_orders@.take(i + 1).drop_last() =~= open_orders@.take(i as int));
            assert(open_orders@.take(i + 1).last() == open_orders@[i as int]);
            assert(expected@.take(expected@.len() as int) =~= expected@);
        }
        if !kind_occurs(expected, expected.len(), &open_orders[i]) {
            to_cancel.push(open_orders[i].clone());
        }
        i = i + 1;
    }
    proof {
        assert(open_orders@.take(i as int) =~= open_orders@);
    }
    let ghost unexpected = to_cancel@;
    let mut k: usize = 0;
    while k < expected.len()
        invariant
            k <= expected.len(),
            to_cancel@ == unexpected + buckets_diff(open_orders@, expected@, k as int).to_cancel,
            to_place@ == buckets_diff(open_orders@, expected@, k as int).to_place,
            forall|i: int| 0 <= i < to_place@.len() ==> (#[trigger] to_place@[i]).size > 0,
        decreases expected.len() - k,
    {
        let ghost before = buckets_diff(open_orders@, expected@, k as int);
        if !kind_occurs(expected, k, &expected[k]) {
            let kind = &expected[k];
            let ghost here = bucket_diff(open_orders@, expected@, *kind);
            let open_size = size_of_kind(open_orders, kind);
            let expected_size = size_of_kind(expected, kind);
            let wanted: u128 = if open_size > expected_size {
                push_of_kind(&mut to_cancel, open_orders, kind);
                expected_size
            } else {
                expected_size - open_size
            };
            let new_size: u64 = if wanted > u64::MAX as u128 {
                u64::MAX
            } else {
                wanted as u64
            };
            if new_size > 0 {
                to_place.push(Order::new(new_size, kind.price, kind.side, kind.token, None));
            }
            proof {
                assert(to_cancel@ =~= unexpected + (before.to_cancel + here.to_cancel));
                assert(to_place@ =~= before.to_place + here.to_place);
            }
        }
        k = k + 1;
    }
    (to_cancel, to_place)
}

/// The strategy that quotes the ladders of the curve on both tokens.
pub struct AMMStrategy {
    amm_manager: AMMManager,
}

impl AMMStrategy {
    /// The parameters of the curve.
    pub closed spec fn config(&self) -> AMMConfig {
        self.amm_manager.config()
    }

    /// Builds the strategy. A depth that does not exceed the spread is
    /// refused, and nothing else.
    pub fn new(config: AMMConfig) -> (r: Result<AMMStrategy, ConfigError>)
        ensures
            r is Ok <==> config.wf(),
            r is Ok ==> r->Ok_0.config() == config,
            r is Err ==> r->Err_0 == ConfigError::DepthNotAboveSpread,
    {
        match AMMManager::new(config) {
            Ok(amm_manager) => Ok(AMMStrategy { amm_manager }),
            Err(e) => Err(e),
        }
    }

    /// Returns the parameters of the curve.
    pub fn configuration(&self) -> (r: AMMConfig)
        ensures
            r == self.config(),
    {
        self.amm_manager.configuration()
    }

    /// Returns the orders to cancel and the orders to place so that the book
    /// holds, in each bucket of price, side and token, what the curve asks
    /// for at the target prices and the balances of the book. The step of
    /// the ladders must be positive.
    pub fn get_orders(&self, orderbook: &OrderBook, target_prices: &TokenPrices) -> (r: (
        Vec<Order>,
        Vec<Order>,
    ))
        requires
            self.config().has_step(),
        ensures
            r.0@ == reconcile(
                orderbook.orders@,
                expected_orders(self.config(), *target_prices, orderbook.balances),
            ).to_cancel,
            r.1@ == reconcile(
                orderbook.orders@,
                expected_orders(self.config(), *target_prices, orderbook.balances),
            ).to_place,
            forall|i: int| 0 <= i < r.1@.len() ==> (#[trigger] r.1@[i]).size > 0,
    {
        let expected = self.amm_manager.expected_orders_at(target_prices, &orderbook.balances);
        reconcile_orders(orderbook.orders.as_slice(), expected.as_slice())
    }
}

} // verus!
