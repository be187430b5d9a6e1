//! Sides and orders.

use crate::text::{same_text, to_uppercase, uppercase_of};
use crate::token::Token;
use vstd::prelude::*;

verus! {

/// Direction of an order.
#[derive(Debug, Clone, Copy, PartialEq, Eq, Hash, Structural)]
pub enum Side {
    Buy,
    Sell,
}

impl Side {
    /// The name of the side as the exchange writes it.
    pub open spec fn spec_value(self) -> Seq<char> {
        match self {
            Side::Buy => "BUY"@,
            Side::Sell => "SELL"@,
        }
    }

    /// Returns the name of the side as the exchange writes it.
    pub fn value(&self) -> (r: &'static str)
        ensures
            r@ == self.spec_value(),
    {
        match self {
            Side::Buy => "BUY",
            Side::Sell => "SELL",
        }
    }

    /// The side that an uppercase name stands for.
    pub open spec fn spec_from_uppercase(name: Seq<char>) -> Option<Side> {
        if name == "BUY"@ {
            Some(Side::Buy)
        } else if name == "SELL"@ {
            Some(Side::Sell)
        } else {
            None
        }
    }

    /// Returns the side that an uppercase name stands for: `BUY` or `SELL`.
    pub fn from_uppercase(name: &str) -> (r: Option<Side>)
        ensures
            r == Self::spec_from_uppercase(name@),
    {
        if same_text(name, "BUY") {
            Some(Side::Buy)
        } else if same_text(name, "SELL") {
            Some(Side::Sell)
        } else {
            None
        }
    }

    /// Returns the side that a name stands for, whatever its case.
    pub fn from_str(s: &str) -> (r: Option<Side>)
        ensures
            r == Self::spec_from_uppercase(uppercase_of(s@)),
    {
        let upper = to_uppercase(s);
        Self::from_uppercase(upper.as_str())
    }
}

/// A resting or intended order.
///
/// `size` is in hundredths of a token, `price` in hundredths of the unit
/// price. `id` is `None` until the exchange has accepted the order.
#[derive(Debug)]
pub struct Order {
    pub size: u64,
    pub price: i64,
    pub side: Side,
    pub token: Token,
    pub id: Option<String>,
}

impl Clone for Order {
    fn clone(&self) -> (r: Self)
        ensures
            r == *self,
    {
        let id = match &self.id {
            Some(s) => Some(s.clone()),
            None => None,
        };
        Order { size: self.size, price: self.price, side: self.side, token: self.token, id }
    }
}

impl Order {
    /// Builds an order from its parts.
    pub fn new(size: u64, price: i64, side: Side, token: Token, id: Option<String>) -> (r: Order)
        ensures
            r == (Order { size, price, side, token, id }),
    {
        Order { size, price, side, token, id }
    }

    /// Two orders belong to the same bucket when price, side and token agree;
    /// size and id play no part.
    pub open spec fn same_kind(self, other: Order) -> bool {
        self.price == other.price && self.side == other.side && self.token == other.token
    }

    /// Decides whether two orders belong to the same bucket.
    pub fn is_same_kind(&self, other: &Order) -> (r: bool)
        ensures
            r == self.same_kind(*other),
    {
        self.price == other.price && self.side == other.side && self.token == other.token
    }
}

/// Sum of the sizes of a sequence of orders, in hundredths of a token.
pub open spec fn total_size(orders: Seq<Order>) -> nat
    decreases orders.len(),
{
    if orders.len() == 0 {
        0
    } else {
        total_size(orders.drop_last()) + orders.last().size as nat
    }
}

/// The sum over a sequence extended by one order.
pub proof fn lemma_total_size_push(orders: Seq<Order>, o: Order)
    ensures
        total_size(orders.push(o)) == total_size(orders) + o.size as nat,
{
    assert(orders.push(o).drop_last() =~= orders);
}

/// Adds up the sizes of `orders`.
pub fn sum_sizes(orders: &[Order]) -> (r: u128)
    ensures
        r == total_size(orders@),
{
    let mut sum: u128 = 0;
    let mut i: usize = 0;
    while i < orders.len()
        invariant
            i <= orders.len(),
            sum == total_size(orders@.take(i as int)),
            sum <= i * 0xffff_ffff_ffff_ffff,
        decreases orders.len() - i,
    {
        proof {
            assert(orders@.take(i + 1) =~= orders@.take(i as int).push(orders@[i as int]));
            lemma_total_size_push(orders@.take(i as int), orders@[i as int]);
        }
        sum = sum + orders[i].size as u128;
        i = i + 1;
    }
    proof {
        assert(orders@.take(i as int) =~= orders@);
    }
    sum
}

/// Some order of the sequence has the kind of `order`.
pub open spec fn has_kind(orders: Seq<Order>, order: Order) -> bool {
    exists|i: int| 0 <= i < orders.len() && (#[trigger] orders[i]).same_kind(order)
}

/// The orders of the kind of `kind`, in their order.
pub open spec fn of_kind(orders: Seq<Order>, kind: Order) -> Seq<Order>
    decreases orders.len(),
{
    if orders.len() == 0 {
        Seq::empty()
    } else if orders.last().same_kind(kind) {
        of_kind(orders.drop_last(), kind).push(orders.last())
    } else {
        of_kind(orders.drop_last(), kind)
    }
}

/// The orders whose kind no order of `kinds` has, in their order.
pub open spec fn of_no_kind(orders: Seq<Order>, kinds: Seq<Order>) -> Seq<Order>
    decreases orders.len(),
{
    if orders.len() == 0 {
        Seq::empty()
    } else if has_kind(kinds, orders.last()) {
        of_no_kind(orders.drop_last(), kinds)
    } else {
        of_no_kind(orders.drop_last(), kinds).push(orders.last())
    }
}

/// What to cancel and what to place.
pub struct Diff {
    pub to_cancel: Seq<Order>,
    pub to_place: Seq<Order>,
}

/// Decides whether some order of the first `upto` has the kind of `order`.
pub fn kind_occurs(orders: &[Order], upto: usize, order: &Order) -> (r: bool)
    requires
        upto <= orders@.len(),
    ensures
        r == has_kind(orders@.take(upto as int), *order),
{
    let mut i: usize = 0;
    while i < upto
        invariant
            i <= upto <= orders@.len(),
            forall|j: int| 0 <= j < i ==> !(#[trigger] orders@[j]).same_kind(*order),
        decreases upto - i,
    {
        if orders[i].is_same_kind(order) {
            assert(orders@.take(upto as int)[i as int].same_kind(*order));
            return true;
        }
        i = i + 1;
    }
    proof {
        assert forall|j: int| 0 <= j < upto implies !(#[trigger] orders@.take(
            upto as int,
        )[j]).same_kind(*order) by {
            assert(orders@.take(upto as int)[j] == orders@[j]);
        }
    }
    false
}

} // verus!
