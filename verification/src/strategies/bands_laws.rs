//! What holds of the bands quoter for every book: each order is either
//! cancelled or kept, and never both.

use crate::order::Order;
use crate::order::total_size;
use crate::strategies::bands::{
    bands_meet, excess_of_bands, in_any_band, insert_sorted, kept_count, kept_of_bands,
    outside_bands, position_at, sort_key, spec_bands_overlap, stable_sort, virtual_bands, Band,
    BandPosition, Bands,
};
use vstd::multiset::Multiset;
use vstd::prelude::*;
use vstd::multiset::lemma_multiset_empty_len;
use vstd::seq_lib::{lemma_multiset_commutative, to_multiset_build, to_multiset_len};

verus! {

/// No two bands at different places of the sequence overlap.
pub open spec fn apart(bands: Seq<Band>) -> bool {
    forall|i: int, j: int|
        0 <= i < bands.len() && 0 <= j < bands.len() && i != j ==> !bands_meet(
            #[trigger] bands[i],
            #[trigger] bands[j],
        )
}

/// One of the first `upto` bands contains the order.
pub open spec fn in_first(bands: Seq<Band>, upto: int, order: Order, target_price: int) -> bool {
    exists|i: int| 0 <= i < upto && i < bands.len() && (#[trigger] bands[i]).spec_includes(order, target_price)
}

/// The orders that one of the first `upto` bands contains, in their order.
pub open spec fn covered(bands: Seq<Band>, upto: int, orders: Seq<Order>, target_price: int) -> Seq<
    Order,
>
    decreases orders.len(),
{
    if orders.len() == 0 {
        Seq::empty()
    } else if in_first(bands, upto, orders.last(), target_price) {
        covered(bands, upto, orders.drop_last(), target_price).push(orders.last())
    } else {
        covered(bands, upto, orders.drop_last(), target_price)
    }
}

/// The empty sequence holds no order.
pub proof fn lemma_empty_holds_nothing()
    ensures
        Seq::<Order>::empty().to_multiset() =~= Multiset::<Order>::empty(),
{
    to_multiset_len(Seq::<Order>::empty());
    lemma_multiset_empty_len(Seq::<Order>::empty().to_multiset());
}

/// Inserting an order into a sorted sequence adds it to the orders that the
/// sequence holds.
pub proof fn lemma_insert_sorted_multiset(
    sorted: Seq<Order>,
    order: Order,
    target_price: int,
    position: BandPosition,
)
    ensures
        insert_sorted(sorted, order, target_price, position).to_multiset()
            =~= sorted.to_multiset().insert(order),
    decreases sorted.len(),
{
    broadcast use vstd::multiset::group_multiset_axioms;

    let out = insert_sorted(sorted, order, target_price, position);
    if sorted.len() == 0 {
        assert(out =~= sorted.push(order));
        to_multiset_build(sorted, order);
    } else if out == sorted.push(order) {
        to_multiset_build(sorted, order);
    } else {
        let rest = sorted.drop_last();
        lemma_insert_sorted_multiset(rest, order, target_price, position);
        to_multiset_build(insert_sorted(rest, order, target_price, position), sorted.last());
        to_multiset_build(rest, sorted.last());
        assert(sorted =~= rest.push(sorted.last()));
    }
}

/// Sorting keeps the orders: each occurs as often as before.
pub proof fn lemma_stable_sort_multiset(orders: Seq<Order>, target_price: int, position: BandPosition)
    ensures
        stable_sort(orders, target_price, position).to_multiset() =~= orders.to_multiset(),
    decreases orders.len(),
{
    broadcast use vstd::multiset::group_multiset_axioms;

    if orders.len() == 0 {
        assert(orders =~= Seq::<Order>::empty());
    } else {
        let rest = orders.drop_last();
        lemma_stable_sort_multiset(rest, target_price, position);
        lemma_insert_sorted_multiset(
            stable_sort(rest, target_price, position),
            orders.last(),
            target_price,
            position,
        );
        to_multiset_build(rest, orders.last());
        assert(orders =~= rest.push(orders.last()));
    }
}

/// The keys of the sequence never fall.
pub open spec fn sorted_by_key(orders: Seq<Order>, target_price: int, position: BandPosition) -> bool {
    forall|i: int, j: int|
        0 <= i <= j < orders.len() ==> sort_key(#[trigger] orders[i], target_price, position)
            <= sort_key(#[trigger] orders[j], target_price, position)
}

/// Inserting into a sorted sequence gives a sorted sequence of one order
/// more.
pub proof fn lemma_insert_sorted_keeps_order(
    sorted: Seq<Order>,
    order: Order,
    target_price: int,
    position: BandPosition,
)
    requires
        sorted_by_key(sorted, target_price, position),
    ensures
        sorted_by_key(insert_sorted(sorted, order, target_price, position), target_price, position),
        insert_sorted(sorted, order, target_price, position).len() == sorted.len() + 1,
        forall|i: int|
            0 <= i < sorted.len() + 1 ==> (#[trigger] insert_sorted(
                sorted,
                order,
                target_price,
                position,
            )[i]) == order || exists|k: int|
                0 <= k < sorted.len() && sorted[k] == insert_sorted(
                    sorted,
                    order,
                    target_price,
                    position,
                )[i],
    decreases sorted.len(),
{
    let out = insert_sorted(sorted, order, target_price, position);
    if sorted.len() == 0 {
    } else if sort_key(sorted.last(), target_price, position) <= sort_key(
        order,
        target_price,
        position,
    ) {
        assert forall|i: int| 0 <= i < sorted.len() + 1 implies (#[trigger] out[i]) == order
            || exists|k: int| 0 <= k < sorted.len() && sorted[k] == out[i] by {
            if i < sorted.len() {
                assert(sorted[i] == out[i]);
            }
        }
    } else {
        let rest = sorted.drop_last();
        assert(sorted_by_key(rest, target_price, position)) by {
            assert forall|i: int, j: int| 0 <= i <= j < rest.len() implies sort_key(
                #[trigger] rest[i],
                target_price,
                position,
            ) <= sort_key(#[trigger] rest[j], target_price, position) by {
                assert(rest[i] == sorted[i] && rest[j] == sorted[j]);
            }
        }
        lemma_insert_sorted_keeps_order(rest, order, target_price, position);
        let inner = insert_sorted(rest, order, target_price, position);
        assert forall|i: int| 0 <= i < sorted.len() + 1 implies (#[trigger] out[i]) == order
            || exists|k: int| 0 <= k < sorted.len() && sorted[k] == out[i] by {
            if i < inner.len() {
                assert(out[i] == inner[i]);
                if inner[i] != order {
                    let k = choose|k: int| 0 <= k < rest.len() && rest[k] == inner[i];
                    assert(sorted[k] == out[i]);
                }
            } else {
                assert(sorted[sorted.len() - 1] == out[i]);
            }
        }
        assert forall|i: int, j: int| 0 <= i <= j < out.len() implies sort_key(
            #[trigger] out[i],
            target_price,
            position,
        ) <= sort_key(#[trigger] out[j], target_price, position) by {
            if j < inner.len() {
                assert(out[i] == inner[i] && out[j] == inner[j]);
            } else if i < inner.len() {
                assert(out[i] == inner[i]);
                assert(out[j] == sorted.last());
                if inner[i] != order {
                    let k = choose|k: int| 0 <= k < rest.len() && rest[k] == inner[i];
                    assert(sorted[k] == rest[k]);
                    assert(sort_key(sorted[k], target_price, position) <= sort_key(
                        sorted[sorted.len() - 1],
                        target_price,
                        position,
                    ));
                }
            }
        }
    }
}

/// The sorted orders are in ascending order of their keys.
pub proof fn lemma_stable_sort_sorted(orders: Seq<Order>, target_price: int, position: BandPosition)
    ensures
        sorted_by_key(stable_sort(orders, target_price, position), target_price, position),
        stable_sort(orders, target_price, position).len() == orders.len(),
    decreases orders.len(),
{
    if orders.len() > 0 {
        lemma_stable_sort_sorted(orders.drop_last(), target_price, position);
        lemma_insert_sorted_keeps_order(
            stable_sort(orders.drop_last(), target_price, position),
            orders.last(),
            target_price,
            position,
        );
    }
}

/// What is kept is the longest beginning of the sorted orders whose total
/// size is at most the maximum amount.
pub proof fn lemma_kept_is_longest_within_max(sorted: Seq<Order>, max_amount: nat)
    ensures
        kept_count(sorted, max_amount) <= sorted.len(),
        total_size(sorted.take(kept_count(sorted, max_amount) as int)) <= max_amount,
        forall|k: int|
            kept_count(sorted, max_amount) < k <= sorted.len() ==> total_size(
                #[trigger] sorted.take(k),
            ) > max_amount,
    decreases sorted.len(),
{
    if sorted.len() == 0 {
        assert(sorted.take(0) =~= sorted);
    } else if total_size(sorted) <= max_amount {
        assert(sorted.take(sorted.len() as int) =~= sorted);
    } else {
        let rest = sorted.drop_last();
        lemma_kept_is_longest_within_max(rest, max_amount);
        let n = kept_count(rest, max_amount) as int;
        assert(sorted.take(n) =~= rest.take(n));
        assert forall|k: int| n < k <= sorted.len() implies total_size(#[trigger] sorted.take(k))
            > max_amount by {
            if k < sorted.len() {
                assert(sorted.take(k) =~= rest.take(k));
            } else {
                assert(sorted.take(k) =~= sorted);
            }
        }
    }
}

/// No more orders are kept than there are.
pub proof fn lemma_kept_count_bound(sorted: Seq<Order>, max_amount: nat)
    ensures
        kept_count(sorted, max_amount) <= sorted.len(),
    decreases sorted.len(),
{
    if !(sorted.len() == 0 || crate::order::total_size(sorted) <= max_amount) {
        lemma_kept_count_bound(sorted.drop_last(), max_amount);
    }
}

/// What a band gives up and what it keeps are together the orders that it
/// contains.
pub proof fn lemma_band_split(
    band: Band,
    orders: Seq<Order>,
    target_price: int,
    position: BandPosition,
)
    ensures
        band.spec_excessive_orders(orders, target_price, position).to_multiset().add(
            band.spec_kept_orders(orders, target_price, position).to_multiset(),
        ) =~= band.in_band(orders, target_price).to_multiset(),
{
    broadcast use vstd::multiset::group_multiset_axioms;

    let sorted = band.sorted_in_band(orders, target_price, position);
    let k = kept_count(sorted, band.max_amount as nat) as int;
    lemma_kept_count_bound(sorted, band.max_amount as nat);
    let kept = sorted.take(k);
    let tail = sorted.subrange(k, sorted.len() as int);
    assert(sorted =~= kept + tail);
    lemma_multiset_commutative(kept, tail);
    tail.lemma_reverse_to_multiset();
    lemma_stable_sort_multiset(band.in_band(orders, target_price), target_price, position);
}

/// Bands that do not overlap contain no common order.
pub proof fn lemma_apart_bands_share_no_order(a: Band, b: Band, order: Order, target_price: int)
    requires
        !bands_meet(a, b),
        !bands_meet(b, a),
    ensures
        !(a.spec_includes(order, target_price) && b.spec_includes(order, target_price)),
{
}

/// Taking one more band that overlaps none of the bands before it adds the
/// orders that it contains to the orders that are covered.
pub proof fn lemma_covered_step(bands: Seq<Band>, k: int, orders: Seq<Order>, target_price: int)
    requires
        apart(bands),
        0 <= k < bands.len(),
    ensures
        covered(bands, k + 1, orders, target_price).to_multiset() =~= covered(
            bands,
            k,
            orders,
            target_price,
        ).to_multiset().add(bands[k].in_band(orders, target_price).to_multiset()),
    decreases orders.len(),
{
    broadcast use vstd::multiset::group_multiset_axioms;

    lemma_empty_holds_nothing();
    if orders.len() == 0 {
    } else {
        let rest = orders.drop_last();
        let o = orders.last();
        lemma_covered_step(bands, k, rest, target_price);
        to_multiset_build(covered(bands, k + 1, rest, target_price), o);
        to_multiset_build(covered(bands, k, rest, target_price), o);
        to_multiset_build(bands[k].in_band(rest, target_price), o);
        if bands[k].spec_includes(o, target_price) {
            assert(in_first(bands, k + 1, o, target_price));
            if in_first(bands, k, o, target_price) {
                let i = choose|i: int|
                    0 <= i < k && i < bands.len() && (#[trigger] bands[i]).spec_includes(
                        o,
                        target_price,
                    );
                assert(!bands_meet(bands[i], bands[k]));
                assert(!bands_meet(bands[k], bands[i]));
                lemma_apart_bands_share_no_order(bands[i], bands[k], o, target_price);
            }
        } else {
            if in_first(bands, k + 1, o, target_price) {
                let i = choose|i: int|
                    0 <= i < k + 1 && i < bands.len() && (#[trigger] bands[i]).spec_includes(
                        o,
                        target_price,
                    );
                assert(i < k);
                assert(in_first(bands, k, o, target_price));
            }
            if in_first(bands, k, o, target_price) {
                let i = choose|i: int|
                    0 <= i < k && i < bands.len() && (#[trigger] bands[i]).spec_includes(
                        o,
                        target_price,
                    );
                assert(in_first(bands, k + 1, o, target_price));
            }
        }
    }
}

/// What the first `k` bands give up and keep are together the orders that
/// they cover.
pub proof fn lemma_bands_split(bands: Seq<Band>, k: int, orders: Seq<Order>, target_price: int)
    requires
        apart(bands),
        0 <= k <= bands.len(),
    ensures
        excess_of_bands(bands, orders, target_price, k).to_multiset().add(
            kept_of_bands(bands, orders, target_price, k).to_multiset(),
        ) =~= covered(bands, k, orders, target_price).to_multiset(),
    decreases k,
{
    broadcast use vstd::multiset::group_multiset_axioms;

    lemma_empty_holds_nothing();
    if k == 0 {
        lemma_covered_none(bands, orders, target_price);
    } else {
        lemma_bands_split(bands, k - 1, orders, target_price);
        let position = position_at(k - 1, bands.len() as int);
        lemma_band_split(bands[k - 1], orders, target_price, position);
        lemma_covered_step(bands, k - 1, orders, target_price);
        lemma_multiset_commutative(
            excess_of_bands(bands, orders, target_price, k - 1),
            bands[k - 1].spec_excessive_orders(orders, target_price, position),
        );
        lemma_multiset_commutative(
            kept_of_bands(bands, orders, target_price, k - 1),
            bands[k - 1].spec_kept_orders(orders, target_price, position),
        );
    }
}

/// No band covers no order.
pub proof fn lemma_covered_none(bands: Seq<Band>, orders: Seq<Order>, target_price: int)
    ensures
        covered(bands, 0, orders, target_price) =~= Seq::<Order>::empty(),
    decreases orders.len(),
{
    if orders.len() > 0 {
        lemma_covered_none(bands, orders.drop_last(), target_price);
    }
}

/// The orders that no band contains and the orders that the bands cover are
/// together all orders.
pub proof fn lemma_outside_and_covered(bands: Seq<Band>, orders: Seq<Order>, target_price: int)
    ensures
        outside_bands(bands, orders, target_price).to_multiset().add(
            covered(bands, bands.len() as int, orders, target_price).to_multiset(),
        ) =~= orders.to_multiset(),
    decreases orders.len(),
{
    broadcast use vstd::multiset::group_multiset_axioms;

    lemma_empty_holds_nothing();
    if orders.len() == 0 {
        assert(orders =~= Seq::<Order>::empty());
    } else {
        let rest = orders.drop_last();
        let o = orders.last();
        lemma_outside_and_covered(bands, rest, target_price);
        to_multiset_build(outside_bands(bands, rest, target_price), o);
        to_multiset_build(covered(bands, bands.len() as int, rest, target_price), o);
        to_multiset_build(rest, o);
        assert(orders =~= rest.push(o));
        if in_any_band(bands, o, target_price) {
            let i = choose|i: int|
                0 <= i < bands.len() && (#[trigger] bands[i]).spec_includes(o, target_price);
            assert(in_first(bands, bands.len() as int, o, target_price));
        }
        if in_first(bands, bands.len() as int, o, target_price) {
            let i = choose|i: int|
                0 <= i < bands.len() && i < bands.len() && (#[trigger] bands[i]).spec_includes(
                    o,
                    target_price,
                );
            assert(in_any_band(bands, o, target_price));
        }
    }
}

/// Every active band is one of the bands.
pub proof fn lemma_virtual_bands_subset(bands: Seq<Band>, target_price: int)
    ensures
        forall|i: int|
            0 <= i < virtual_bands(bands, target_price).len() ==> exists|k: int|
                0 <= k < bands.len() && bands[k] == #[trigger] virtual_bands(bands, target_price)[i],
    decreases bands.len(),
{
    if !(target_price <= 0 || bands.len() == 0) {
        let rest = bands.drop_last();
        lemma_virtual_bands_subset(rest, target_price);
        let active = virtual_bands(bands, target_price);
        let before = virtual_bands(rest, target_price);
        assert forall|i: int| 0 <= i < active.len() implies exists|k: int|
            0 <= k < bands.len() && bands[k] == #[trigger] active[i] by {
            if i < before.len() {
                assert(active[i] == before[i]);
                let k = choose|k: int| 0 <= k < rest.len() && rest[k] == before[i];
                assert(bands[k] == active[i]);
            } else {
                assert(bands[bands.len() - 1] == active[i]);
            }
        }
    }
}

/// The active bands of bands that do not overlap do not overlap.
pub proof fn lemma_virtual_bands_apart(bands: Seq<Band>, target_price: int)
    requires
        apart(bands),
    ensures
        apart(virtual_bands(bands, target_price)),
    decreases bands.len(),
{
    if !(target_price <= 0 || bands.len() == 0) {
        let rest = bands.drop_last();
        assert(apart(rest)) by {
            assert forall|i: int, j: int|
                0 <= i < rest.len() && 0 <= j < rest.len() && i != j implies !bands_meet(
                #[trigger] rest[i],
                #[trigger] rest[j],
            ) by {
                assert(rest[i] == bands[i] && rest[j] == bands[j]);
            }
        }
        lemma_virtual_bands_apart(rest, target_price);
        lemma_virtual_bands_subset(rest, target_price);
        let active = virtual_bands(bands, target_price);
        let before = virtual_bands(rest, target_price);
        let n = bands.len() - 1;
        assert forall|i: int, j: int|
            0 <= i < active.len() && 0 <= j < active.len() && i != j implies !bands_meet(
            #[trigger] active[i],
            #[trigger] active[j],
        ) by {
            if i < before.len() && j < before.len() {
                assert(active[i] == before[i] && active[j] == before[j]);
            } else if i < before.len() {
                assert(active[i] == before[i]);
                let k = choose|k: int| 0 <= k < rest.len() && rest[k] == before[i];
                assert(bands[k] == active[i] && bands[n] == active[j]);
            } else {
                assert(active[j] == before[j]);
                let k = choose|k: int| 0 <= k < rest.len() && rest[k] == before[j];
                assert(bands[n] == active[i] && bands[k] == active[j]);
            }
        }
    }
}

/// The orders that the bands cancel and the orders that the bands keep are
/// together the orders of the book, each as often as it stands there: no
/// order is both cancelled and kept, and none is neither.
pub proof fn lemma_cancelled_and_kept_partition(bands: Bands, orders: Seq<Order>, target_price: int)
    requires
        bands.wf(),
    ensures
        bands.spec_cancellable_orders(orders, target_price).to_multiset().add(
            bands.in_band_survivors(orders, target_price).to_multiset(),
        ) =~= orders.to_multiset(),
{
    broadcast use vstd::multiset::group_multiset_axioms;

    lemma_empty_holds_nothing();
    if target_price > 0 {
        assert(apart(bands@)) by {
            if !apart(bands@) {
                let (i, j) = choose|i: int, j: int|
                    0 <= i < bands@.len() && 0 <= j < bands@.len() && i != j && bands_meet(
                        #[trigger] bands@[i],
                        #[trigger] bands@[j],
                    );
                assert(spec_bands_overlap(bands@));
            }
        }
        let active = virtual_bands(bands@, target_price);
        lemma_virtual_bands_apart(bands@, target_price);
        lemma_bands_split(active, active.len() as int, orders, target_price);
        lemma_outside_and_covered(active, orders, target_price);
        lemma_multiset_commutative(
            excess_of_bands(active, orders, target_price, active.len() as int),
            outside_bands(active, orders, target_price),
        );
    }
}

} // verus!
