//! The keeper's view of its own orders on the exchange: the last remote
//! sample, merged with what the keeper itself has placed and cancelled
//! since. The functions here are the steps of the manager; whoever drives
//! them does the waiting and the calls to the exchange in between.

use crate::ids::{id_view, same_id, IdSet};
use crate::order::Order;
use crate::token::Balances;
use vstd::prelude::*;

verus! {

/// A consistent snapshot of the keeper's orders and balances.
#[derive(Debug)]
pub struct OrderBook {
    pub orders: Vec<Order>,
    pub balances: Balances,
    pub orders_being_placed: bool,
    pub orders_being_cancelled: bool,
}

/// The last sample of the remote state.
#[derive(Debug)]
pub struct OrderBookState {
    pub orders: Vec<Order>,
    pub balances: Balances,
}

/// The id of an order, as characters.
pub open spec fn id_of(order: Order) -> Option<Seq<char>> {
    id_view(order.id)
}

/// Some order of the sequence has this id; two absent ids count as the same.
pub open spec fn has_id(orders: Seq<Order>, id: Option<Seq<char>>) -> bool {
    exists|i: int| 0 <= i < orders.len() && id_of(#[trigger] orders[i]) == id
}

/// `base`, followed by each order of `placed` whose id no order before it
/// has.
pub open spec fn merge_placed(base: Seq<Order>, placed: Seq<Order>) -> Seq<Order>
    decreases placed.len(),
{
    if placed.len() == 0 {
        base
    } else {
        let merged = merge_placed(base, placed.drop_last());
        if has_id(merged, id_of(placed.last())) {
            merged
        } else {
            merged.push(placed.last())
        }
    }
}

/// An order is hidden when it has an id and the id is masked.
pub open spec fn is_masked(order: Order, masked: Set<Seq<char>>) -> bool {
    id_of(order) is Some && masked.contains(id_of(order)->Some_0)
}

/// The orders that are not hidden, in their order.
pub open spec fn unmasked(orders: Seq<Order>, masked: Set<Seq<char>>) -> Seq<Order>
    decreases orders.len(),
{
    if orders.len() == 0 {
        Seq::empty()
    } else if is_masked(orders.last(), masked) {
        unmasked(orders.drop_last(), masked)
    } else {
        unmasked(orders.drop_last(), masked).push(orders.last())
    }
}

/// The orders of a snapshot: the remote orders, then the placed orders that
/// the remote sample does not show yet, without those that are being
/// cancelled or have been cancelled.
pub open spec fn snapshot_orders(
    remote: Seq<Order>,
    placed: Seq<Order>,
    cancelling: Set<Seq<char>>,
    cancelled: Set<Seq<char>>,
) -> Seq<Order> {
    unmasked(merge_placed(remote, placed), cancelling.union(cancelled))
}

/// No id occurs at two places of the sequence.
pub open spec fn ids_distinct(orders: Seq<Order>) -> bool {
    forall|i: int, j: int|
        0 <= i < j < orders.len() && id_of(#[trigger] orders[i]) is Some ==> id_of(orders[i])
            != id_of(#[trigger] orders[j])
}

/// The ids of the orders that have one, in their order.
pub open spec fn ids_in(orders: Seq<Order>) -> Seq<Seq<char>>
    decreases orders.len(),
{
    if orders.len() == 0 {
        Seq::empty()
    } else if id_of(orders.last()) is Some {
        ids_in(orders.drop_last()).push(id_of(orders.last())->Some_0)
    } else {
        ids_in(orders.drop_last())
    }
}

/// The set with the first `upto` ids of the sequence added, except those
/// that `skip` holds.
pub open spec fn with_ids(set: Set<Seq<char>>, ids: Seq<Seq<char>>, skip: Set<Seq<char>>, upto: int) -> Set<
    Seq<char>,
>
    decreases upto,
{
    if upto <= 0 {
        set
    } else if skip.contains(ids[upto - 1]) {
        with_ids(set, ids, skip, upto - 1)
    } else {
        with_ids(set, ids, skip, upto - 1).insert(ids[upto - 1])
    }
}

/// The set without the first `upto` ids of the sequence.
pub open spec fn without_ids(set: Set<Seq<char>>, ids: Seq<Seq<char>>, upto: int) -> Set<Seq<char>>
    decreases upto,
{
    if upto <= 0 {
        set
    } else {
        without_ids(set, ids, upto - 1).remove(ids[upto - 1])
    }
}

/// The set with ids added holds what it held before and each added id that
/// is not skipped, and nothing else.
pub proof fn lemma_with_ids_contains(
    set: Set<Seq<char>>,
    ids: Seq<Seq<char>>,
    skip: Set<Seq<char>>,
    upto: int,
    id: Seq<char>,
)
    requires
        0 <= upto <= ids.len(),
    ensures
        with_ids(set, ids, skip, upto).contains(id) <==> set.contains(id) || (!skip.contains(id)
            && exists|i: int| 0 <= i < upto && ids[i] == id),
    decreases upto,
{
    if upto > 0 {
        lemma_with_ids_contains(set, ids, skip, upto - 1, id);
        if !skip.contains(id) && ids[upto - 1] == id {
            assert(exists|i: int| 0 <= i < upto && ids[i] == id);
        }
    }
}

/// The set with ids taken away holds what it held before except these ids.
pub proof fn lemma_without_ids_contains(
    set: Set<Seq<char>>,
    ids: Seq<Seq<char>>,
    upto: int,
    id: Seq<char>,
)
    requires
        0 <= upto <= ids.len(),
    ensures
        without_ids(set, ids, upto).contains(id) <==> set.contains(id) && !(exists|i: int|
            0 <= i < upto && ids[i] == id),
    decreases upto,
{
    if upto > 0 {
        lemma_without_ids_contains(set, ids, upto - 1, id);
        if ids[upto - 1] == id {
            assert(exists|i: int| 0 <= i < upto && ids[i] == id);
        }
    }
}

/// The characters of each string of the sequence.
pub open spec fn texts(ids: Seq<String>) -> Seq<Seq<char>> {
    Seq::new(ids.len(), |i: int| ids[i]@)
}

/// Every order that is not hidden carries no masked id.
pub proof fn lemma_unmasked_clear(orders: Seq<Order>, masked: Set<Seq<char>>)
    ensures
        forall|i: int|
            0 <= i < unmasked(orders, masked).len() ==> !is_masked(
                #[trigger] unmasked(orders, masked)[i],
                masked,
            ),
    decreases orders.len(),
{
    if orders.len() > 0 {
        let rest = orders.drop_last();
        lemma_unmasked_clear(rest, masked);
        let out = unmasked(orders, masked);
        assert forall|i: int| 0 <= i < out.len() implies !is_masked(#[trigger] out[i], masked) by {
            if i < unmasked(rest, masked).len() {
                assert(out[i] == unmasked(rest, masked)[i]);
            } else {
                assert(out[i] == orders.last());
            }
        }
    }
}

/// Every order that is left after hiding stood in the sequence before.
pub proof fn lemma_unmasked_subset(orders: Seq<Order>, masked: Set<Seq<char>>)
    ensures
        forall|i: int|
            0 <= i < unmasked(orders, masked).len() ==> has_id(
                orders,
                id_of(#[trigger] unmasked(orders, masked)[i]),
            ),
    decreases orders.len(),
{
    if orders.len() > 0 {
        let rest = orders.drop_last();
        lemma_unmasked_subset(rest, masked);
        assert forall|i: int| 0 <= i < unmasked(orders, masked).len() implies has_id(
            orders,
            id_of(#[trigger] unmasked(orders, masked)[i]),
        ) by {
            let o = unmasked(orders, masked)[i];
            if i < unmasked(rest, masked).len() {
                assert(o == unmasked(rest, masked)[i]);
                let k = choose|k: int| 0 <= k < rest.len() && id_of(#[trigger] rest[k]) == id_of(o);
                assert(id_of(orders[k]) == id_of(o));
            } else {
                assert(id_of(orders[orders.len() - 1]) == id_of(o));
            }
        }
    }
}

/// Hiding orders keeps the ids distinct.
pub proof fn lemma_unmasked_distinct(orders: Seq<Order>, masked: Set<Seq<char>>)
    requires
        ids_distinct(orders),
    ensures
        ids_distinct(unmasked(orders, masked)),
    decreases orders.len(),
{
    if orders.len() > 0 {
        let rest = orders.drop_last();
        assert(ids_distinct(rest)) by {
            assert forall|i: int, j: int|
                0 <= i < j < rest.len() && id_of(#[trigger] rest[i]) is Some implies id_of(rest[i])
                != id_of(#[trigger] rest[j]) by {
                assert(rest[i] == orders[i] && rest[j] == orders[j]);
            }
        }
        lemma_unmasked_distinct(rest, masked);
        lemma_unmasked_subset(rest, masked);
        let out = unmasked(orders, masked);
        let kept = unmasked(rest, masked);
        assert forall|i: int, j: int|
            0 <= i < j < out.len() && id_of(#[trigger] out[i]) is Some implies id_of(out[i])
            != id_of(#[trigger] out[j]) by {
            if j < kept.len() {
                assert(out[i] == kept[i] && out[j] == kept[j]);
            } else {
                assert(out[i] == kept[i]);
                assert(out[j] == orders.last());
                let k = choose|k: int| 0 <= k < rest.len() && id_of(#[trigger] rest[k]) == id_of(kept[i]);
                assert(orders[k] == rest[k]);
                assert(id_of(orders[k]) != id_of(orders[orders.len() - 1]));
            }
        }
    }
}

/// Merging the placed orders into remote orders of distinct ids gives
/// orders of distinct ids.
pub proof fn lemma_merge_distinct(base: Seq<Order>, placed: Seq<Order>)
    requires
        ids_distinct(base),
    ensures
        ids_distinct(merge_placed(base, placed)),
    decreases placed.len(),
{
    if placed.len() > 0 {
        lemma_merge_distinct(base, placed.drop_last());
        let merged = merge_placed(base, placed.drop_last());
        if !has_id(merged, id_of(placed.last())) {
            let out = merged.push(placed.last());
            assert forall|i: int, j: int|
                0 <= i < j < out.len() && id_of(#[trigger] out[i]) is Some implies id_of(out[i])
                != id_of(#[trigger] out[j]) by {
                if j < merged.len() {
                    assert(out[i] == merged[i] && out[j] == merged[j]);
                } else {
                    assert(out[i] == merged[i]);
                }
            }
        }
    }
}

/// In a snapshot no id occurs twice, provided that none does in the remote
/// sample, and no order carries an id that is being cancelled or has been
/// cancelled.
pub proof fn lemma_snapshot_consistent(
    remote: Seq<Order>,
    placed: Seq<Order>,
    cancelling: Set<Seq<char>>,
    cancelled: Set<Seq<char>>,
)
    ensures
        ids_distinct(remote) ==> ids_distinct(
            snapshot_orders(remote, placed, cancelling, cancelled),
        ),
        forall|i: int|
            0 <= i < snapshot_orders(remote, placed, cancelling, cancelled).len() ==> {
                let o = #[trigger] snapshot_orders(remote, placed, cancelling, cancelled)[i];
                id_of(o) is Some ==> !cancelling.contains(id_of(o)->Some_0) && !cancelled.contains(
                    id_of(o)->Some_0,
                )
            },
{
    let masked = cancelling.union(cancelled);
    let merged = merge_placed(remote, placed);
    lemma_unmasked_clear(merged, masked);
    if ids_distinct(remote) {
        lemma_merge_distinct(remote, placed);
        lemma_unmasked_distinct(merged, masked);
    }
}

/// What the manager does next when all orders are to be cancelled.
#[derive(Debug)]
pub enum CancelAllStep {
    /// No remote sample has come yet: ask again later.
    NotReady,
    /// The book is empty: nothing is left to cancel.
    Done,
    /// These ids have been staged: call the bulk cancel of the exchange and
    /// report its outcome.
    Cancel(Vec<String>),
}

/// The state of the order-book manager.
#[derive(Debug)]
pub struct OrderBookManager {
    refresh_frequency: u64,
    state: Option<OrderBookState>,
    refresh_count: u64,
    currently_placing_orders: u64,
    orders_placed: Vec<Order>,
    order_ids_cancelling: IdSet,
    order_ids_cancelled: IdSet,
}

impl OrderBookManager {
    /// The two sets of ids hold no id twice and share no id.
    pub closed spec fn wf(&self) -> bool {
        &&& self.order_ids_cancelling.wf()
        &&& self.order_ids_cancelled.wf()
        &&& self.order_ids_cancelling@.disjoint(self.order_ids_cancelled@)
    }

    /// Seconds between two remote samples.
    pub closed spec fn refresh_period(&self) -> u64 {
        self.refresh_frequency
    }

    /// The orders of the last remote sample, if one has come.
    pub closed spec fn remote_orders(&self) -> Option<Seq<Order>> {
        match self.state {
            Some(s) => Some(s.orders@),
            None => None,
        }
    }

    /// The balances of the last remote sample, if one has come.
    pub closed spec fn remote_balances(&self) -> Option<Balances> {
        match self.state {
            Some(s) => Some(s.balances),
            None => None,
        }
    }

    /// Number of remote samples taken.
    pub closed spec fn refreshes(&self) -> u64 {
        self.refresh_count
    }

    /// The orders whose placement the exchange has confirmed.
    pub closed spec fn placed(&self) -> Seq<Order> {
        self.orders_placed@
    }

    /// The ids whose cancellation is under way.
    pub closed spec fn cancelling(&self) -> Set<Seq<char>> {
        self.order_ids_cancelling@
    }

    /// The ids whose cancellation the exchange has confirmed.
    pub closed spec fn cancelled(&self) -> Set<Seq<char>> {
        self.order_ids_cancelled@
    }

    /// Number of placements under way.
    pub closed spec fn in_flight(&self) -> u64 {
        self.currently_placing_orders
    }

    /// An id is never both being cancelled and cancelled.
    pub proof fn lemma_disjoint(&self)
        requires
            self.wf(),
        ensures
            self.cancelling().disjoint(self.cancelled()),
    {
    }

    /// Builds a manager that has seen no remote sample and tracks nothing.
    pub fn new(refresh_frequency: u64) -> (r: OrderBookManager)
        ensures
            r.wf(),
            r.refresh_period() == refresh_frequency,
            r.remote_orders() is None,
            r.remote_balances() is None,
            r.refreshes() == 0,
            r.placed() == Seq::<Order>::empty(),
            r.cancelling() == Set::<Seq<char>>::empty(),
            r.cancelled() == Set::<Seq<char>>::empty(),
            r.in_flight() == 0,
    {
        OrderBookManager {
            refresh_frequency,
            state: None,
            refresh_count: 0,
            currently_placing_orders: 0,
            orders_placed: Vec::new(),
            order_ids_cancelling: IdSet::new(),
            order_ids_cancelled: IdSet::new(),
        }
    }

    /// Returns the seconds between two remote samples.
    pub fn refresh_frequency(&self) -> (r: u64)
        ensures
            r == self.refresh_period(),
    {
        self.refresh_frequency
    }

    /// Returns the number of placements under way.
    pub fn placements_in_flight(&self) -> (r: u64)
        ensures
            r == self.in_flight(),
    {
        self.currently_placing_orders
    }

    /// Returns the number of remote samples taken, which stops counting at
    /// the largest `u64`.
    pub fn refresh_count(&self) -> (r: u64)
        ensures
            r == self.refreshes(),
    {
        self.refresh_count
    }

    /// Takes in one pass of the refresher. When both the orders and the
    /// balances were fetched, they replace the last sample together; when
    /// either is missing, the last sample stays.
    pub fn refresh(&mut self, orders: Option<Vec<Order>>, balances: Option<Balances>)
        requires
            old(self).wf(),
        ensures
            final(self).wf(),
            final(self).refresh_period() == old(self).refresh_period(),
            final(self).placed() == old(self).placed(),
            final(self).cancelling() == old(self).cancelling(),
            final(self).cancelled() == old(self).cancelled(),
            final(self).in_flight() == old(self).in_flight(),
            orders is Some && balances is Some ==> final(self).remote_orders() == Some(
                orders->Some_0@,
            ) && final(self).remote_balances() == balances && final(self).refreshes() == (
            if old(self).refreshes() == u64::MAX {
                u64::MAX
            } else {
                (old(self).refreshes() + 1) as u64
            }),
            orders is None || balances is None ==> final(self).remote_orders() == old(
                self,
            ).remote_orders() && final(self).remote_balances() == old(self).remote_balances()
                && final(self).refreshes() == old(self).refreshes(),
    {
        match orders {
            Some(orders) => match balances {
                Some(balances) => {
                    self.state = Some(OrderBookState { orders, balances });
                    if self.refresh_count < u64::MAX {
                        self.refresh_count = self.refresh_count + 1;
                    }
                },
                None => {},
            },
            None => {},
        }
    }

    /// Decides whether some order of the vector has this id.
    fn id_occurs(orders: &Vec<Order>, id: &Option<String>) -> (r: bool)
        ensures
            r == has_id(orders@, id_view(*id)),
    {
        let mut i: usize = 0;
        while i < orders.len()
            invariant
                i <= orders@.len(),
                forall|k: int| 0 <= k < i ==> id_of(#[trigger] orders@[k]) != id_view(*id),
            decreases orders.len() - i,
        {
            if same_id(&orders[i].id, id) {
                return true;
            }
            i = i + 1;
        }
        false
    }

    /// Returns a snapshot of the book, or nothing as long as no remote
    /// sample has come. The snapshot holds the remote orders, then the
    /// placed orders that the remote sample does not show yet, without the
    /// orders that are being cancelled or have been cancelled. In it no
    /// order carries such an id, and no id occurs twice unless it does in
    /// the remote sample.
    pub fn get_order_book(&self) -> (r: Option<OrderBook>)
        requires
            self.wf(),
        ensures
            r is None <==> self.remote_orders() is None,
            r is Some ==> {
                let book = r->Some_0;
                &&& book.orders@ == snapshot_orders(
                    self.remote_orders()->Some_0,
                    self.placed(),
                    self.cancelling(),
                    self.cancelled(),
                )
                &&& Some(book.balances) == self.remote_balances()
                &&& book.orders_being_placed == (self.in_flight() > 0)
                &&& book.orders_being_cancelled == (self.cancelling() != Set::<Seq<char>>::empty())
                &&& forall|i: int|
                    0 <= i < book.orders@.len() && id_of(#[trigger] book.orders@[i]) is Some
                        ==> !self.cancelling().contains(id_of(book.orders@[i])->Some_0)
                        && !self.cancelled().contains(id_of(book.orders@[i])->Some_0)
                &&& ids_distinct(self.remote_orders()->Some_0) ==> ids_distinct(book.orders@)
            },
    {
        let state = match &self.state {
            Some(state) => state,
            None => {
                return None;
            },
        };
        let mut merged: Vec<Order> = Vec::new();
        let mut i: usize = 0;
        while i < state.orders.len()
            invariant
                i <= state.orders@.len(),
                merged@ == state.orders@.take(i as int),
            decreases state.orders.len() - i,
        {
            merged.push(state.orders[i].clone());
            proof {
                assert(state.orders@.take(i + 1) =~= state.orders@.take(i as int).push(
                    state.orders@[i as int],
                ));
            }
            i = i + 1;
        }
        proof {
            assert(state.orders@.take(i as int) =~= state.orders@);
        }
        let mut k: usize = 0;
        while k < self.orders_placed.len()
            invariant
                k <= self.orders_placed@.len(),
                merged@ == merge_placed(state.orders@, self.orders_placed@.take(k as int)),
            decreases self.orders_placed.len() - k,
        {
            proof {
                assert(self.orders_placed@.take(k + 1).drop_last() =~= self.orders_placed@.take(
                    k as int,
                ));
                assert(self.orders_placed@.take(k + 1).last() == self.orders_placed@[k as int]);
            }
            if !Self::id_occurs(&merged, &self.orders_placed[k].id) {
                merged.push(self.orders_placed[k].clone());
            }
            k = k + 1;
        }
        proof {
            assert(self.orders_placed@.take(k as int) =~= self.orders_placed@);
        }
        let ghost masked = self.order_ids_cancelling@.union(self.order_ids_cancelled@);
        let mut orders: Vec<Order> = Vec::new();
        let mut j: usize = 0;
        while j < merged.len()
            invariant
                j <= merged@.len(),
                masked == self.order_ids_cancelling@.union(self.order_ids_cancelled@),
                orders@ == unmasked(merged@.take(j as int), masked),
            decreases merged.len() - j,
        {
            proof {
                assert(merged@.take(j + 1).drop_last() =~= merged@.take(j as int));
                assert(merged@.take(j + 1).last() == merged@[j as int]);
            }
            let hidden = match &merged[j].id {
                Some(id) => self.order_ids_cancelling.contains(id)
                    || self.order_ids_cancelled.contains(id),
                None => false,
            };
            if !hidden {
                orders.push(merged[j].clone());
            }
            j = j + 1;
        }
        proof {
            assert(merged@.take(j as int) =~= merged@);
            lemma_snapshot_consistent(
                state.orders@,
                self.orders_placed@,
                self.order_ids_cancelling@,
                self.order_ids_cancelled@,
            );
        }
        let orders_being_placed = self.currently_placing_orders > 0;
        let orders_being_cancelled = !self.order_ids_cancelling.is_empty();
        Some(
            OrderBook {
                orders,
                balances: state.balances,
                orders_being_placed,
                orders_being_cancelled,
            },
        )
    }

    /// Notes that the placement of these orders begins: each counts as
    /// under way until `order_placed` reports its outcome.
    pub fn place_orders(&mut self, orders: &[Order])
        requires
            old(self).wf(),
            old(self).in_flight() + orders@.len() <= u64::MAX,
        ensures
            final(self).wf(),
            final(self).in_flight() == old(self).in_flight() + orders@.len(),
            final(self).refresh_period() == old(self).refresh_period(),
            final(self).remote_orders() == old(self).remote_orders(),
            final(self).remote_balances() == old(self).remote_balances(),
            final(self).refreshes() == old(self).refreshes(),
            final(self).placed() == old(self).placed(),
            final(self).cancelling() == old(self).cancelling(),
            final(self).cancelled() == old(self).cancelled(),
    {
        self.currently_placing_orders = self.currently_placing_orders + orders.len() as u64;
    }

    /// Takes in the outcome of one placement: the order with its id when
    /// the exchange accepted it, nothing when it did not. An accepted order
    /// is remembered; either way one placement less is under way.
    pub fn order_placed(&mut self, outcome: Option<Order>)
        requires
            old(self).wf(),
            old(self).in_flight() > 0,
        ensures
            final(self).wf(),
            final(self).in_flight() == old(self).in_flight() - 1,
            final(self).placed() == (match outcome {
                Some(order) => old(self).placed().push(order),
                None => old(self).placed(),
            }),
            final(self).refresh_period() == old(self).refresh_period(),
            final(self).remote_orders() == old(self).remote_orders(),
            final(self).remote_balances() == old(self).remote_balances(),
            final(self).refreshes() == old(self).refreshes(),
            final(self).cancelling() == old(self).cancelling(),
            final(self).cancelled() == old(self).cancelled(),
    {
        match outcome {
            Some(order) => {
                self.orders_placed.push(order);
            },
            None => {},
        }
        self.currently_placing_orders = self.currently_placing_orders - 1;
    }

    /// Stages the ids for cancellation, except those whose
    /// cancellation is already confirmed.
    fn stage(&mut self, ids: &Vec<String>)
        requires
            old(self).wf(),
        ensures
            final(self).wf(),
            final(self).cancelling() == with_ids(
                old(self).cancelling(),
                texts(ids@),
                old(self).cancelled(),
                ids@.len() as int,
            ),
            final(self).cancelled() == old(self).cancelled(),
            final(self).in_flight() == old(self).in_flight(),
            final(self).placed() == old(self).placed(),
            final(self).refresh_period() == old(self).refresh_period(),
            final(self).remote_orders() == old(self).remote_orders(),
            final(self).remote_balances() == old(self).remote_balances(),
            final(self).refreshes() == old(self).refreshes(),
    {
        let mut i: usize = 0;
        while i < ids.len()
            invariant
                i <= ids@.len(),
                self.wf(),
                self.order_ids_cancelling@ == with_ids(
                    old(self).order_ids_cancelling@,
                    texts(ids@),
                    old(self).order_ids_cancelled@,
                    i as int,
                ),
                self.order_ids_cancelled@ == old(self).order_ids_cancelled@,
                self.currently_placing_orders == old(self).currently_placing_orders,
                self.orders_placed == old(self).orders_placed,
                self.refresh_frequency == old(self).refresh_frequency,
                self.state == old(self).state,
                self.refresh_count == old(self).refresh_count,
            decreases ids.len() - i,
        {
            if !self.order_ids_cancelled.contains(&ids[i]) {
                self.order_ids_cancelling.insert(ids[i].clone());
            }
            i = i + 1;
        }
    }

    /// Collects the ids of the orders that have one.
    fn collect_ids(orders: &[Order]) -> (r: Vec<String>)
        ensures
            texts(r@) == ids_in(orders@),
    {
        let mut ids: Vec<String> = Vec::new();
        let mut i: usize = 0;
        while i < orders.len()
            invariant
                i <= orders@.len(),
                texts(ids@) == ids_in(orders@.take(i as int)),
            decreases orders.len() - i,
        {
            proof {
                assert(orders@.take(i + 1).drop_last() =~= orders@.take(i as int));
                assert(orders@.take(i + 1).last() == orders@[i as int]);
            }
            let ghost before = ids@;
            match &orders[i].id {
                Some(id) => {
                    ids.push(id.clone());
                    proof {
                        assert(texts(ids@) =~= texts(before).push(id@));
                    }
                },
                None => {},
            }
            i = i + 1;
        }
        proof {
            assert(orders@.take(i as int) =~= orders@);
        }
        ids
    }

    /// Notes that the cancellation of these orders begins: the id of each
    /// order that has one is staged as being cancelled, unless its
    /// cancellation is confirmed already. Orders without an id change
    /// nothing. The ids of the orders that have one are handed back, in
    /// their order: for each of them the exchange is to be asked, and its
    /// answer reported by `order_cancelled`.
    pub fn cancel_orders(&mut self, orders: &[Order]) -> (r: Vec<String>)
        requires
            old(self).wf(),
        ensures
            texts(r@) == ids_in(orders@),
            final(self).wf(),
            final(self).cancelling() == with_ids(
                old(self).cancelling(),
                ids_in(orders@),
                old(self).cancelled(),
                ids_in(orders@).len() as int,
            ),
            final(self).cancelled() == old(self).cancelled(),
            final(self).in_flight() == old(self).in_flight(),
            final(self).placed() == old(self).placed(),
            final(self).refresh_period() == old(self).refresh_period(),
            final(self).remote_orders() == old(self).remote_orders(),
            final(self).remote_balances() == old(self).remote_balances(),
            final(self).refreshes() == old(self).refreshes(),
    {
        let ids = Self::collect_ids(orders);
        assert(texts(ids@).len() == ids@.len());
        self.stage(&ids);
        ids
    }

    /// Takes in the outcome of one cancellation. An order without an id
    /// changes nothing. Else the id is no longer being cancelled, and when
    /// the exchange confirmed the cancellation it is remembered as
    /// cancelled.
    pub fn order_cancelled(&mut self, id: &Option<String>, success: bool)
        requires
            old(self).wf(),
        ensures
            final(self).wf(),
            final(self).cancelling() == (match id_view(*id) {
                Some(s) => old(self).cancelling().remove(s),
                None => old(self).cancelling(),
            }),
            final(self).cancelled() == (match id_view(*id) {
                Some(s) => if success {
                    old(self).cancelled().insert(s)
                } else {
                    old(self).cancelled()
                },
                None => old(self).cancelled(),
            }),
            final(self).in_flight() == old(self).in_flight(),
            final(self).placed() == old(self).placed(),
            final(self).refresh_period() == old(self).refresh_period(),
            final(self).remote_orders() == old(self).remote_orders(),
            final(self).remote_balances() == old(self).remote_balances(),
            final(self).refreshes() == old(self).refreshes(),
    {
        match id {
            Some(id) => {
                self.order_ids_cancelling.remove(id);
                if success {
                    self.order_ids_cancelled.insert(id.clone());
                }
            },
            None => {},
        }
    }

    /// Takes one step of cancelling everything. Without a remote sample
    /// there is nothing to decide yet. With an empty snapshot the work is
    /// done. Else the ids of the snapshot are staged as being cancelled and
    /// handed back for the bulk cancel.
    pub fn cancel_all_orders(&mut self) -> (r: CancelAllStep)
        requires
            old(self).wf(),
        ensures
            final(self).wf(),
            final(self).cancelled() == old(self).cancelled(),
            final(self).in_flight() == old(self).in_flight(),
            final(self).placed() == old(self).placed(),
            final(self).refresh_period() == old(self).refresh_period(),
            final(self).remote_orders() == old(self).remote_orders(),
            final(self).remote_balances() == old(self).remote_balances(),
            final(self).refreshes() == old(self).refreshes(),
            r is NotReady <==> old(self).remote_orders() is None,
            old(self).remote_orders() is Some ==> {
                let orders = snapshot_orders(
                    old(self).remote_orders()->Some_0,
                    old(self).placed(),
                    old(self).cancelling(),
                    old(self).cancelled(),
                );
                &&& r is Done <==> orders.len() == 0
                &&& r is Cancel ==> texts(r->Cancel_0@) == ids_in(orders)
                &&& final(self).cancelling() == (if orders.len() == 0 {
                    old(self).cancelling()
                } else {
                    with_ids(
                        old(self).cancelling(),
                        ids_in(orders),
                        old(self).cancelled(),
                        ids_in(orders).len() as int,
                    )
                })
            },
            r is NotReady ==> final(self).cancelling() == old(self).cancelling(),
    {
        let book = match self.get_order_book() {
            Some(book) => book,
            None => {
                return CancelAllStep::NotReady;
            },
        };
        if book.orders.len() == 0 {
            return CancelAllStep::Done;
        }
        let ids = Self::collect_ids(book.orders.as_slice());
        assert(texts(ids@).len() == ids@.len());
        self.stage(&ids);
        CancelAllStep::Cancel(ids)
    }

    /// Takes in the outcome of a bulk cancel. Either way no id of the list
    /// is being cancelled any longer. When the exchange confirmed the
    /// cancel, every id is remembered as cancelled; when it did not, the
    /// orders are live again and the next step of cancelling everything
    /// takes them up anew.
    pub fn all_orders_cancelled(&mut self, ids: &Vec<String>, success: bool)
        requires
            old(self).wf(),
        ensures
            final(self).wf(),
            final(self).cancelling() == without_ids(
                old(self).cancelling(),
                texts(ids@),
                ids@.len() as int,
            ),
            final(self).cancelled() == (if success {
                with_ids(
                    old(self).cancelled(),
                    texts(ids@),
                    Set::<Seq<char>>::empty(),
                    ids@.len() as int,
                )
            } else {
                old(self).cancelled()
            }),
            final(self).in_flight() == old(self).in_flight(),
            final(self).placed() == old(self).placed(),
            final(self).refresh_period() == old(self).refresh_period(),
            final(self).remote_orders() == old(self).remote_orders(),
            final(self).remote_balances() == old(self).remote_balances(),
            final(self).refreshes() == old(self).refreshes(),
    {
        let mut i: usize = 0;
        while i < ids.len()
            invariant
                i <= ids@.len(),
                self.wf(),
                self.order_ids_cancelling@ == without_ids(
                    old(self).order_ids_cancelling@,
                    texts(ids@),
                    i as int,
                ),
                self.order_ids_cancelled@ == (if success {
                    with_ids(
                        old(self).order_ids_cancelled@,
                        texts(ids@),
                        Set::<Seq<char>>::empty(),
                        i as int,
                    )
                } else {
                    old(self).order_ids_cancelled@
                }),
                self.currently_placing_orders == old(self).currently_placing_orders,
                self.orders_placed == old(self).orders_placed,
                self.refresh_frequency == old(self).refresh_frequency,
                self.state == old(self).state,
                self.refresh_count == old(self).refresh_count,
            decreases ids.len() - i,
        {
            self.order_ids_cancelling.remove(&ids[i]);
            if success {
                self.order_ids_cancelled.insert(ids[i].clone());
            }
            i = i + 1;
        }
    }

    /// Decides whether a wait for a stable book is over: a remote sample
    /// has come, no placement is under way and no id is being cancelled.
    pub fn wait_for_stable_order_book(&self) -> (stable: bool)
        requires
            self.wf(),
        ensures
            stable == (self.remote_orders() is Some && self.in_flight() == 0 && self.cancelling()
                == Set::<Seq<char>>::empty()),
    {
        self.state.is_some() && self.currently_placing_orders == 0
            && self.order_ids_cancelling.is_empty()
    }
}

} // verus!
