//! The bands quoter: around a target price, each band keeps the total size of
//! the orders it contains between a minimum and a maximum amount.

use crate::constants::MIN_SIZE;
use crate::errors::ConfigError;
use crate::order::{lemma_total_size_push, sum_sizes, total_size, Order, Side};
use crate::token::Token;
use vstd::prelude::*;

verus! {

/// Where a band stands in the list of active bands. The first band wins when
/// a band is both first and last.
#[derive(Debug, Clone, Copy, PartialEq, Eq, Structural)]
pub enum BandPosition {
    First,
    Last,
    Interior,
}

/// The position that the two flags describe.
pub open spec fn position_of(is_first_band: bool, is_last_band: bool) -> BandPosition {
    if is_first_band {
        BandPosition::First
    } else if is_last_band {
        BandPosition::Last
    } else {
        BandPosition::Interior
    }
}

/// The price of an order as a buy-side band sees it: a sell at `q` counts as
/// a buy at `100 - q`.
pub open spec fn band_price(order: Order) -> int {
    if order.side == Side::Buy {
        order.price as int
    } else {
        100 - order.price
    }
}

/// Distance between two prices.
pub open spec fn distance(a: int, b: int) -> int {
    if a >= b {
        a - b
    } else {
        b - a
    }
}

/// The key by which the orders of a band are sorted before the excess is
/// taken from the end: in the first band the orders closest to the target
/// come last, in the last band the farthest, in an interior band the largest.
pub open spec fn sort_key(order: Order, target_price: int, position: BandPosition) -> int {
    match position {
        BandPosition::First => -distance(order.price as int, target_price),
        BandPosition::Last => distance(order.price as int, target_price),
        BandPosition::Interior => order.size as int,
    }
}

/// `sorted` with `order` put behind every order whose key is not larger.
pub open spec fn insert_sorted(
    sorted: Seq<Order>,
    order: Order,
    target_price: int,
    position: BandPosition,
) -> Seq<Order>
    decreases sorted.len(),
{
    if sorted.len() == 0 {
        seq![order]
    } else if sort_key(sorted.last(), target_price, position) <= sort_key(
        order,
        target_price,
        position,
    ) {
        sorted.push(order)
    } else {
        insert_sorted(sorted.drop_last(), order, target_price, position).push(sorted.last())
    }
}

/// The orders in ascending key order; orders of equal key keep their order.
pub open spec fn stable_sort(orders: Seq<Order>, target_price: int, position: BandPosition) -> Seq<
    Order,
>
    decreases orders.len(),
{
    if orders.len() == 0 {
        Seq::empty()
    } else {
        insert_sorted(
            stable_sort(orders.drop_last(), target_price, position),
            orders.last(),
            target_price,
            position,
        )
    }
}

/// How many orders stay when orders are taken from the end until the total
/// size is at most `max_amount`.
pub open spec fn kept_count(sorted: Seq<Order>, max_amount: nat) -> nat
    decreases sorted.len(),
{
    if sorted.len() == 0 || total_size(sorted) <= max_amount {
        sorted.len()
    } else {
        kept_count(sorted.drop_last(), max_amount)
    }
}

/// One band: a range of margins below the target price and the amounts to
/// keep there. Margins are in hundredths of the unit price, amounts in
/// hundredths of a token.
#[derive(Debug, Clone, Copy, PartialEq, Eq, Structural)]
pub struct Band {
    pub min_margin: i64,
    pub avg_margin: i64,
    pub max_margin: i64,
    pub min_amount: u64,
    pub avg_amount: u64,
    pub max_amount: u64,
}

impl Band {
    /// Amounts and margins are ordered and the range of margins is not empty.
    pub open spec fn wf(self) -> bool {
        &&& self.min_amount <= self.avg_amount <= self.max_amount
        &&& self.min_margin <= self.avg_margin <= self.max_margin
        &&& self.min_margin < self.max_margin
    }

    /// Builds a band, or says which ordering the parameters break. The
    /// amounts are looked at first.
    pub fn new(
        min_margin: i64,
        avg_margin: i64,
        max_margin: i64,
        min_amount: u64,
        avg_amount: u64,
        max_amount: u64,
    ) -> (r: Result<Band, ConfigError>)
        ensures
            r is Ok <==> (min_amount <= avg_amount <= max_amount && min_margin <= avg_margin
                <= max_margin && min_margin < max_margin),
            r is Ok ==> r->Ok_0 == (Band {
                min_margin,
                avg_margin,
                max_margin,
                min_amount,
                avg_amount,
                max_amount,
            }) && r->Ok_0.wf(),
            r is Err ==> r->Err_0 == (if !(min_amount <= avg_amount <= max_amount) {
                ConfigError::BandAmounts
            } else {
                ConfigError::BandMargins
            }),
    {
        if !(min_amount <= avg_amount && avg_amount <= max_amount) {
            return Err(ConfigError::BandAmounts);
        }
        if !(min_margin <= avg_margin && avg_margin <= max_margin && min_margin < max_margin) {
            return Err(ConfigError::BandMargins);
        }
        Ok(Band { min_margin, avg_margin, max_margin, min_amount, avg_amount, max_amount })
    }

    /// Lower end of the band's price range, which the range excludes.
    pub open spec fn spec_min_price(self, target_price: int) -> int {
        target_price - self.max_margin
    }

    /// Price at which the band buys.
    pub open spec fn spec_buy_price(self, target_price: int) -> int {
        target_price - self.avg_margin
    }

    /// Price at which the band sells the complementary token.
    pub open spec fn spec_sell_price(self, target_price: int) -> int {
        100 - target_price + self.avg_margin
    }

    /// Upper end of the band's price range, which the range includes.
    pub open spec fn spec_max_price(self, target_price: int) -> int {
        target_price - self.min_margin
    }

    /// The band contains the order: its band price lies in
    /// `(min_price, max_price]`.
    pub open spec fn spec_includes(self, order: Order, target_price: int) -> bool {
        self.spec_min_price(target_price) < band_price(order) <= self.spec_max_price(target_price)
    }

    /// The orders of `orders` that the band contains, in their order.
    pub open spec fn in_band(self, orders: Seq<Order>, target_price: int) -> Seq<Order>
        decreases orders.len(),
    {
        if orders.len() == 0 {
            Seq::empty()
        } else if self.spec_includes(orders.last(), target_price) {
            self.in_band(orders.drop_last(), target_price).push(orders.last())
        } else {
            self.in_band(orders.drop_last(), target_price)
        }
    }

    /// The orders of the band sorted for the given position.
    pub open spec fn sorted_in_band(
        self,
        orders: Seq<Order>,
        target_price: int,
        position: BandPosition,
    ) -> Seq<Order> {
        stable_sort(self.in_band(orders, target_price), target_price, position)
    }

    /// The orders that the band keeps.
    pub open spec fn spec_kept_orders(
        self,
        orders: Seq<Order>,
        target_price: int,
        position: BandPosition,
    ) -> Seq<Order> {
        let sorted = self.sorted_in_band(orders, target_price, position);
        sorted.take(kept_count(sorted, self.max_amount as nat) as int)
    }

    /// The orders that the band gives up, the last of the sorted orders
    /// first.
    pub open spec fn spec_excessive_orders(
        self,
        orders: Seq<Order>,
        target_price: int,
        position: BandPosition,
    ) -> Seq<Order> {
        let sorted = self.sorted_in_band(orders, target_price, position);
        sorted.subrange(
            kept_count(sorted, self.max_amount as nat) as int,
            sorted.len() as int,
        ).reverse()
    }

    /// Returns the lower end of the band's price range.
    pub fn min_price(&self, target_price: i64) -> (r: i128)
        ensures
            r == self.spec_min_price(target_price as int),
    {
        target_price as i128 - self.max_margin as i128
    }

    /// Returns the price at which the band buys.
    pub fn buy_price(&self, target_price: i64) -> (r: i128)
        ensures
            r == self.spec_buy_price(target_price as int),
    {
        target_price as i128 - self.avg_margin as i128
    }

    /// Returns the price at which the band sells the complementary token.
    pub fn sell_price(&self, target_price: i64) -> (r: i128)
        ensures
            r == self.spec_sell_price(target_price as int),
    {
        100i128 - target_price as i128 + self.avg_margin as i128
    }

    /// Returns the upper end of the band's price range.
    pub fn max_price(&self, target_price: i64) -> (r: i128)
        ensures
            r == self.spec_max_price(target_price as int),
    {
        target_price as i128 - self.min_margin as i128
    }

    /// Decides whether the band contains the order.
    pub fn includes(&self, order: &Order, target_price: i64) -> (r: bool)
        ensures
            r == self.spec_includes(*order, target_price as int),
    {
        let price: i128 = match order.side {
            Side::Buy => order.price as i128,
            Side::Sell => 100i128 - order.price as i128,
        };
        price > self.min_price(target_price) && price <= self.max_price(target_price)
    }

    /// Returns the orders of the band that must go so that the total size
    /// left in the band is at most `max_amount`. The orders of the band are
    /// sorted by the key of the band's position and taken from the end.
    pub fn excessive_orders(
        &self,
        orders: &[Order],
        target_price: i64,
        is_first_band: bool,
        is_last_band: bool,
    ) -> (r: Vec<Order>)
        ensures
            r@ == self.spec_excessive_orders(
                orders@,
                target_price as int,
                position_of(is_first_band, is_last_band),
            ),
    {
        let position = if is_first_band {
            BandPosition::First
        } else if is_last_band {
            BandPosition::Last
        } else {
            BandPosition::Interior
        };
        let mut sorted = self.sort_band(orders, target_price, position);
        let ghost all = sorted@;
        let mut band_amount = sum_sizes(sorted.as_slice());
        let mut cancelled: Vec<Order> = Vec::new();
        while band_amount > self.max_amount as u128 && sorted.len() > 0
            invariant
                sorted@ == all.take(sorted@.len() as int),
                sorted@.len() <= all.len(),
                band_amount == total_size(sorted@),
                kept_count(all, self.max_amount as nat) == kept_count(
                    sorted@,
                    self.max_amount as nat,
                ),
                cancelled@ == all.subrange(sorted@.len() as int, all.len() as int).reverse(),
            decreases sorted@.len(),
        {
            let ghost before = sorted@;
            let order = sorted.pop().unwrap();
            proof {
                assert(sorted@ =~= before.drop_last());
                assert(sorted@ =~= all.take(sorted@.len() as int));
                let n = sorted@.len() as int;
                assert(all.subrange(n, all.len() as int).reverse() =~= all.subrange(
                    n + 1,
                    all.len() as int,
                ).reverse().push(order));
            }
            band_amount = band_amount - order.size as u128;
            cancelled.push(order);
        }
        proof {
            assert(all.take(all.len() as int) =~= all);
        }
        cancelled
    }

    /// Copies the orders of the band into a vector sorted for `position`.
    fn sort_band(&self, orders: &[Order], target_price: i64, position: BandPosition) -> (r: Vec<
        Order,
    >)
        ensures
            r@ == self.sorted_in_band(orders@, target_price as int, position),
    {
        let mut sorted: Vec<Order> = Vec::new();
        let mut i: usize = 0;
        while i < orders.len()
            invariant
                i <= orders.len(),
                sorted@ == self.sorted_in_band(orders@.take(i as int), target_price as int, position),
            decreases orders.len() - i,
        {
            proof {
                assert(orders@.take(i + 1).drop_last() =~= orders@.take(i as int));
                assert(orders@.take(i + 1).last() == orders@[i as int]);
            }
            if self.includes(&orders[i], target_price) {
                let key = exec_sort_key(&orders[i], target_price, position);
                let mut at: usize = sorted.len();
                while at > 0 && exec_sort_key(&sorted[at - 1], target_price, position) > key
                    invariant
                        i < orders@.len(),
                        at <= sorted@.len(),
                        key == sort_key(orders@[i as int], target_price as int, position),
                        forall|j: int|
                            at <= j < sorted@.len() ==> sort_key(
                                #[trigger] sorted@[j],
                                target_price as int,
                                position,
                            ) > key,
                    decreases at,
                {
                    at = at - 1;
                }
                proof {
                    lemma_insert_sorted_at(
                        sorted@,
                        orders@[i as int],
                        target_price as int,
                        position,
                        at as int,
                    );
                    lemma_stable_sort_push(
                        self.in_band(orders@.take(i as int), target_price as int),
                        orders@[i as int],
                        target_price as int,
                        position,
                    );
                }
                sorted.insert(at, orders[i].clone());
            }
            i = i + 1;
        }
        proof {
            assert(orders@.take(i as int) =~= orders@);
        }
        sorted
    }
}

/// Two bands overlap when their open intervals of margins meet.
pub open spec fn bands_meet(a: Band, b: Band) -> bool {
    a.min_margin < b.max_margin && b.min_margin < a.max_margin
}

/// Some two bands at different places of the sequence overlap.
pub open spec fn spec_bands_overlap(bands: Seq<Band>) -> bool {
    exists|i: int, j: int|
        0 <= i < bands.len() && 0 <= j < bands.len() && i != j && bands_meet(
            #[trigger] bands[i],
            #[trigger] bands[j],
        )
}

/// Every band of the sequence is well formed.
pub open spec fn all_wf(bands: Seq<Band>) -> bool {
    forall|i: int| 0 <= i < bands.len() ==> (#[trigger] bands[i]).wf()
}

/// The bands that are active at a target price, in their order: none when
/// the target is not positive, else those whose range reaches above zero.
pub open spec fn virtual_bands(bands: Seq<Band>, target_price: int) -> Seq<Band>
    decreases bands.len(),
{
    if target_price <= 0 || bands.len() == 0 {
        Seq::empty()
    } else if bands.last().spec_max_price(target_price) > 0 {
        virtual_bands(bands.drop_last(), target_price).push(bands.last())
    } else {
        virtual_bands(bands.drop_last(), target_price)
    }
}

/// Some band of the sequence contains the order.
pub open spec fn in_any_band(bands: Seq<Band>, order: Order, target_price: int) -> bool {
    exists|i: int| 0 <= i < bands.len() && (#[trigger] bands[i]).spec_includes(order, target_price)
}

/// The orders that no band of the sequence contains, in their order.
pub open spec fn outside_bands(bands: Seq<Band>, orders: Seq<Order>, target_price: int) -> Seq<
    Order,
>
    decreases orders.len(),
{
    if orders.len() == 0 {
        Seq::empty()
    } else if in_any_band(bands, orders.last(), target_price) {
        outside_bands(bands, orders.drop_last(), target_price)
    } else {
        outside_bands(bands, orders.drop_last(), target_price).push(orders.last())
    }
}

/// The position of the band at index `i` among `n` active bands.
pub open spec fn position_at(i: int, n: int) -> BandPosition {
    position_of(i == 0, i == n - 1)
}

/// What the first `upto` bands give up, band after band.
pub open spec fn excess_of_bands(
    bands: Seq<Band>,
    orders: Seq<Order>,
    target_price: int,
    upto: int,
) -> Seq<Order>
    decreases upto,
{
    if upto <= 0 {
        Seq::empty()
    } else {
        excess_of_bands(bands, orders, target_price, upto - 1) + bands[upto
            - 1].spec_excessive_orders(
            orders,
            target_price,
            position_at(upto - 1, bands.len() as int),
        )
    }
}

/// What the first `upto` bands keep, band after band.
pub open spec fn kept_of_bands(
    bands: Seq<Band>,
    orders: Seq<Order>,
    target_price: int,
    upto: int,
) -> Seq<Order>
    decreases upto,
{
    if upto <= 0 {
        Seq::empty()
    } else {
        kept_of_bands(bands, orders, target_price, upto - 1) + bands[upto - 1].spec_kept_orders(
            orders,
            target_price,
            position_at(upto - 1, bands.len() as int),
        )
    }
}

/// A new order is sent only at a price strictly inside the unit interval and
/// with at least the minimum size.
pub open spec fn spec_new_order_is_valid(price: int, size: int) -> bool {
    0 < price < 100 && size >= MIN_SIZE
}

/// The smaller of two integers.
pub open spec fn least(a: int, b: int) -> int {
    if a <= b {
        a
    } else {
        b
    }
}

/// The orders that one band asks for, and the collateral that is left.
pub struct BandQuote {
    pub orders: Seq<Order>,
    pub free_collateral: nat,
}

impl Band {
    /// What is missing in the band to reach its average amount.
    pub open spec fn deficit(self, orders: Seq<Order>, target_price: int) -> int {
        self.avg_amount - total_size(self.in_band(orders, target_price))
    }

    /// Size of the sell order that the band asks for.
    pub open spec fn sell_size(self, orders: Seq<Order>, token_balance: nat, target_price: int) -> int {
        least(self.deficit(orders, target_price), token_balance as int)
    }

    /// Size of the buy order that the band asks for: the deficit, or what
    /// the free collateral pays for at the buy price if that is less.
    pub open spec fn buy_size(self, orders: Seq<Order>, free_collateral: nat, target_price: int) -> int {
        if self.spec_buy_price(target_price) > 0 {
            least(
                self.deficit(orders, target_price),
                free_collateral as int / self.spec_buy_price(target_price),
            )
        } else {
            0
        }
    }

    /// The orders that the band asks for when it holds less than its
    /// minimum amount: a sell of the complementary token, then a buy, each
    /// only if valid. Only the buy uses up collateral.
    pub open spec fn quote(
        self,
        orders: Seq<Order>,
        free_collateral: nat,
        token_balance: nat,
        target_price: int,
        buy_token: Token,
    ) -> BandQuote {
        if total_size(self.in_band(orders, target_price)) >= self.min_amount {
            BandQuote { orders: Seq::empty(), free_collateral }
        } else {
            let sell_price = self.spec_sell_price(target_price);
            let sell_size = self.sell_size(orders, token_balance, target_price);
            let sells = if spec_new_order_is_valid(sell_price, sell_size) {
                seq![
                    Order {
                        size: sell_size as u64,
                        price: sell_price as i64,
                        side: Side::Sell,
                        token: buy_token.spec_complement(),
                        id: None,
                    },
                ]
            } else {
                Seq::empty()
            };
            let buy_price = self.spec_buy_price(target_price);
            let buy_size = self.buy_size(orders, free_collateral, target_price);
            if spec_new_order_is_valid(buy_price, buy_size) {
                BandQuote {
                    orders: sells.push(
                        Order {
                            size: buy_size as u64,
                            price: buy_price as i64,
                            side: Side::Buy,
                            token: buy_token,
                            id: None,
                        },
                    ),
                    free_collateral: (free_collateral - buy_size * buy_price) as nat,
                }
            } else {
                BandQuote { orders: sells, free_collateral }
            }
        }
    }
}

/// The orders that the first `upto` bands ask for, band after band, and the
/// collateral that is left after them.
pub open spec fn quote_of_bands(
    bands: Seq<Band>,
    orders: Seq<Order>,
    collateral_balance: nat,
    token_balance: nat,
    target_price: int,
    buy_token: Token,
    upto: int,
) -> BandQuote
    decreases upto,
{
    if upto <= 0 {
        BandQuote { orders: Seq::empty(), free_collateral: collateral_balance }
    } else {
        let before = quote_of_bands(
            bands,
            orders,
            collateral_balance,
            token_balance,
            target_price,
            buy_token,
            upto - 1,
        );
        let here = bands[upto - 1].quote(
            orders,
            before.free_collateral,
            token_balance,
            target_price,
            buy_token,
        );
        BandQuote {
            orders: before.orders + here.orders,
            free_collateral: here.free_collateral,
        }
    }
}

/// A set of bands, no two of which overlap.
pub struct Bands {
    bands: Vec<Band>,
}

impl Bands {
    #[verifier::type_invariant]
    spec fn inv(self) -> bool {
        all_wf(self.bands@) && !spec_bands_overlap(self.bands@)
    }

    /// The bands, in the order of the configuration.
    pub closed spec fn view(&self) -> Seq<Band> {
        self.bands@
    }

    /// Every band is well formed and no two bands overlap.
    pub open spec fn wf(&self) -> bool {
        all_wf(self@) && !spec_bands_overlap(self@)
    }

    /// Decides whether two bands of the slice overlap.
    pub fn bands_overlap(bands: &[Band]) -> (r: bool)
        ensures
            r == spec_bands_overlap(bands@),
    {
        let mut i: usize = 0;
        while i < bands.len()
            invariant
                i <= bands.len(),
                forall|a: int, b: int|
                    0 <= a < i && 0 <= b < bands@.len() && a != b ==> !bands_meet(
                        #[trigger] bands@[a],
                        #[trigger] bands@[b],
                    ),
            decreases bands.len() - i,
        {
            let mut j: usize = 0;
            while j < bands.len()
                invariant
                    i < bands.len(),
                    j <= bands.len(),
                    forall|b: int|
                        0 <= b < j && i != b ==> !bands_meet(bands@[i as int], #[trigger] bands@[b]),
                decreases bands.len() - j,
            {
                if i != j {
                    if bands[i].min_margin < bands[j].max_margin && bands[j].min_margin
                        < bands[i].max_margin {
                        return true;
                    }
                }
                j = j + 1;
            }
            i = i + 1;
        }
        false
    }

    /// Builds the set of bands. A band that is not well formed is refused
    /// with the error that `Band::new` gives for it, the first such band
    /// deciding; well-formed bands that overlap are refused with
    /// `BandsOverlap`.
    pub fn new(bands: Vec<Band>) -> (r: Result<Bands, ConfigError>)
        ensures
            r is Ok <==> all_wf(bands@) && !spec_bands_overlap(bands@),
            r is Ok ==> r->Ok_0@ == bands@ && r->Ok_0.wf(),
            r is Err && all_wf(bands@) ==> r->Err_0 == ConfigError::BandsOverlap,
            r is Err && !all_wf(bands@) ==> exists|i: int|
                0 <= i < bands@.len() && !(#[trigger] bands@[i]).wf() && all_wf(bands@.take(i))
                    && r->Err_0 == (if !(bands@[i].min_amount <= bands@[i].avg_amount
                    <= bands@[i].max_amount) {
                    ConfigError::BandAmounts
                } else {
                    ConfigError::BandMargins
                }),
    {
        let mut i: usize = 0;
        while i < bands.len()
            invariant
                i <= bands.len(),
                all_wf(bands@.take(i as int)),
            decreases bands.len() - i,
        {
            let b = &bands[i];
            if !(b.min_amount <= b.avg_amount && b.avg_amount <= b.max_amount) {
                return Err(ConfigError::BandAmounts);
            }
            if !(b.min_margin <= b.avg_margin && b.avg_margin <= b.max_margin && b.min_margin
                < b.max_margin) {
                return Err(ConfigError::BandMargins);
            }
            proof {
                assert forall|k: int| 0 <= k < i + 1 implies (#[trigger] bands@.take(i + 1)[k]).wf() by {
                    if k < i {
                        assert(bands@.take(i as int)[k].wf());
                    }
                }
            }
            i = i + 1;
        }
        proof {
            assert(bands@.take(i as int) =~= bands@);
        }
        if Self::bands_overlap(bands.as_slice()) {
            return Err(ConfigError::BandsOverlap);
        }
        Ok(Bands { bands })
    }

    /// Returns the bands that are active at the target price.
    pub fn calculate_virtual_bands(&self, target_price: i64) -> (r: Vec<Band>)
        ensures
            r@ == virtual_bands(self@, target_price as int),
    {
        let mut active: Vec<Band> = Vec::new();
        if target_price <= 0 {
            return active;
        }
        let mut i: usize = 0;
        while i < self.bands.len()
            invariant
                target_price > 0,
                i <= self.bands.len(),
                active@ == virtual_bands(self.bands@.take(i as int), target_price as int),
            decreases self.bands.len() - i,
        {
            proof {
                assert(self.bands@.take(i + 1).drop_last() =~= self.bands@.take(i as int));
                assert(self.bands@.take(i + 1).last() == self.bands@[i as int]);
            }
            if self.bands[i].max_price(target_price) > 0 {
                active.push(self.bands[i]);
            }
            i = i + 1;
        }
        proof {
            assert(self.bands@.take(i as int) =~= self.bands@);
        }
        active
    }

    /// The orders to cancel at a target price: everything when the target is
    /// not positive; else what each active band gives up, band after band,
    /// followed by the orders that no active band contains.
    pub open spec fn spec_cancellable_orders(&self, orders: Seq<Order>, target_price: int) -> Seq<
        Order,
    > {
        if target_price <= 0 {
            orders
        } else {
            let active = virtual_bands(self@, target_price);
            excess_of_bands(active, orders, target_price, active.len() as int) + outside_bands(
                active,
                orders,
                target_price,
            )
        }
    }

    /// The orders that stay at a target price: what each active band keeps,
    /// band after band.
    pub open spec fn in_band_survivors(&self, orders: Seq<Order>, target_price: int) -> Seq<Order> {
        if target_price <= 0 {
            Seq::empty()
        } else {
            let active = virtual_bands(self@, target_price);
            kept_of_bands(active, orders, target_price, active.len() as int)
        }
    }

    /// Returns the orders to cancel at the target price.
    pub fn cancellable_orders(&self, orders: &[Order], target_price: i64) -> (r: Vec<Order>)
        ensures
            r@ == self.spec_cancellable_orders(orders@, target_price as int),
    {
        if target_price <= 0 {
            return copy_orders(orders);
        }
        let active = self.calculate_virtual_bands(target_price);
        let mut to_cancel: Vec<Order> = Vec::new();
        let mut idx: usize = 0;
        while idx < active.len()
            invariant
                idx <= active.len(),
                to_cancel@ == excess_of_bands(active@, orders@, target_price as int, idx as int),
            decreases active.len() - idx,
        {
            let is_first = idx == 0;
            let is_last = idx == active.len() - 1;
            let mut excess = active[idx].excessive_orders(orders, target_price, is_first, is_last);
            to_cancel.append(&mut excess);
            idx = idx + 1;
        }
        let ghost excess_all = to_cancel@;
        let mut i: usize = 0;
        while i < orders.len()
            invariant
                i <= orders.len(),
                to_cancel@ == excess_all + outside_bands(
                    active@,
                    orders@.take(i as int),
                    target_price as int,
                ),
            decreases orders.len() - i,
        {
            proof {
                assert(orders@.take(i + 1).drop_last() =~= orders@.take(i as int));
                assert(orders@.take(i + 1).last() == orders@[i as int]);
            }
            if !any_includes(active.as_slice(), &orders[i], target_price) {
                to_cancel.push(orders[i].clone());
                proof {
                    let rest = outside_bands(active@, orders@.take(i as int), target_price as int);
                    assert((excess_all + rest).push(orders@[i as int]) =~= excess_all + rest.push(
                        orders@[i as int],
                    ));
                }
            }
            i = i + 1;
        }
        proof {
            assert(orders@.take(i as int) =~= orders@);
        }
        to_cancel
    }

    /// The orders to place at a target price for the token that the bands
    /// buy: what each active band asks for, band after band, each buy
    /// taking its cost from the collateral that the next band sees.
    pub open spec fn spec_new_orders(
        &self,
        orders: Seq<Order>,
        collateral_balance: nat,
        token_balance: nat,
        target_price: int,
        buy_token: Token,
    ) -> Seq<Order> {
        let active = virtual_bands(self@, target_price);
        quote_of_bands(
            active,
            orders,
            collateral_balance,
            token_balance,
            target_price,
            buy_token,
            active.len() as int,
        ).orders
    }

    /// Returns the orders to place so that each active band that holds less
    /// than its minimum amount is brought up to its average amount, as far
    /// as the balances allow. `collateral_balance` is the free collateral in
    /// ten-thousandths of a unit, `token_balance` the free balance of the
    /// complementary token in hundredths.
    pub fn new_orders(
        &self,
        orders: &[Order],
        collateral_balance: u128,
        token_balance: u64,
        target_price: i64,
        buy_token: Token,
    ) -> (r: Vec<Order>)
        ensures
            r@ == self.spec_new_orders(
                orders@,
                collateral_balance as nat,
                token_balance as nat,
                target_price as int,
                buy_token,
            ),
            forall|i: int|
                0 <= i < r@.len() ==> 0 < (#[trigger] r@[i]).price < 100 && r@[i].size >= MIN_SIZE
                    && r@[i].id is None,
    {
        let sell_token = buy_token.complement();
        let mut placed: Vec<Order> = Vec::new();
        let mut free_collateral: u128 = collateral_balance;
        let active = self.calculate_virtual_bands(target_price);
        let mut idx: usize = 0;
        while idx < active.len()
            invariant
                idx <= active.len(),
                sell_token == buy_token.spec_complement(),
                (BandQuote { orders: placed@, free_collateral: free_collateral as nat })
                    == quote_of_bands(
                    active@,
                    orders@,
                    collateral_balance as nat,
                    token_balance as nat,
                    target_price as int,
                    buy_token,
                    idx as int,
                ),
                forall|i: int|
                    0 <= i < placed@.len() ==> 0 < (#[trigger] placed@[i]).price < 100
                        && placed@[i].size >= MIN_SIZE && placed@[i].id is None,
            decreases active.len() - idx,
        {
            let band = active[idx];
            let ghost before = placed@;
            let ghost here = band.quote(
                orders@,
                free_collateral as nat,
                token_balance as nat,
                target_price as int,
                buy_token,
            );
            let band_amount = band.amount_in_band(orders, target_price);
            if band_amount < band.min_amount as u128 {
                let deficit: i128 = band.avg_amount as i128 - band_amount as i128;
                let sell_price = band.sell_price(target_price);
                let sell_size: i128 = if deficit <= token_balance as i128 {
                    deficit
                } else {
                    token_balance as i128
                };
                if Self::new_order_is_valid(sell_price, sell_size) {
                    placed.push(Order::new(sell_size as u64, sell_price as i64, Side::Sell, sell_token, None));
                }
                let buy_price = band.buy_price(target_price);
                if buy_price > 0 && buy_price < 100 {
                    let affordable: u128 = free_collateral / (buy_price as u128);
                    let buy_size: i128 = if deficit <= 0 {
                        deficit
                    } else if affordable >= deficit as u128 {
                        deficit
                    } else {
                        affordable as i128
                    };
                    if Self::new_order_is_valid(buy_price, buy_size) {
                        proof {
                            lemma_cost_within(free_collateral as int, buy_price as int, buy_size as int);
                        }
                        placed.push(Order::new(buy_size as u64, buy_price as i64, Side::Buy, buy_token, None));
                        free_collateral = free_collateral - (buy_size as u128) * (buy_price as u128);
                    }
                }
            }
            proof {
                assert(placed@ =~= before + here.orders);
            }
            idx = idx + 1;
        }
        placed
    }

    /// Decides whether an order at this price and of this size may be sent.
    pub fn new_order_is_valid(price: i128, size: i128) -> (r: bool)
        ensures
            r == spec_new_order_is_valid(price as int, size as int),
    {
        price > 0 && price < 100 && size >= MIN_SIZE as i128
    }
}

impl Band {
    /// Adds up the sizes of the orders that the band contains.
    pub fn amount_in_band(&self, orders: &[Order], target_price: i64) -> (r: u128)
        ensures
            r == total_size(self.in_band(orders@, target_price as int)),
    {
        let mut sum: u128 = 0;
        let mut i: usize = 0;
        while i < orders.len()
            invariant
                i <= orders.len(),
                sum == total_size(self.in_band(orders@.take(i as int), target_price as int)),
                sum <= i * 0xffff_ffff_ffff_ffff,
            decreases orders.len() - i,
        {
            proof {
                assert(orders@.take(i + 1).drop_last() =~= orders@.take(i as int));
                assert(orders@.take(i + 1).last() == orders@[i as int]);
                lemma_total_size_push(
                    self.in_band(orders@.take(i as int), target_price as int),
                    orders@[i as int],
                );
            }
            if self.includes(&orders[i], target_price) {
                sum = sum + orders[i].size as u128;
            }
            i = i + 1;
        }
        proof {
            assert(orders@.take(i as int) =~= orders@);
        }
        sum
    }
}

/// Copies a slice of orders into a vector.
pub fn copy_orders(orders: &[Order]) -> (r: Vec<Order>)
    ensures
        r@ == orders@,
{
    let mut out: Vec<Order> = Vec::new();
    let mut i: usize = 0;
    while i < orders.len()
        invariant
            i <= orders.len(),
            out@ == orders@.take(i as int),
        decreases orders.len() - i,
    {
        out.push(orders[i].clone());
        proof {
            assert(orders@.take(i + 1) =~= orders@.take(i as int).push(orders@[i as int]));
        }
        i = i + 1;
    }
    proof {
        assert(orders@.take(i as int) =~= orders@);
    }
    out
}

/// Decides whether some band of the slice contains the order.
fn any_includes(bands: &[Band], order: &Order, target_price: i64) -> (r: bool)
    ensures
        r == in_any_band(bands@, *order, target_price as int),
{
    let mut i: usize = 0;
    while i < bands.len()
        invariant
            i <= bands.len(),
            forall|k: int| 0 <= k < i ==> !(#[trigger] bands@[k]).spec_includes(*order, target_price as int),
        decreases bands.len() - i,
    {
        if bands[i].includes(order, target_price) {
            return true;
        }
        i = i + 1;
    }
    false
}

/// A size that the free collateral pays for costs no more than the free
/// collateral.
proof fn lemma_cost_within(free: int, price: int, size: int)
    requires
        0 <= free,
        0 < price,
        0 <= size <= free / price,
    ensures
        0 <= size * price <= free,
{
    assert(size * price <= (free / price) * price) by (nonlinear_arith)
        requires
            0 <= size <= free / price,
            0 < price,
    ;
    assert((free / price) * price <= free) by (nonlinear_arith)
        requires
            0 <= free,
            0 < price,
    ;
    assert(0 <= size * price) by (nonlinear_arith)
        requires
            0 <= size,
            0 < price,
    ;
}

/// Computes the sort key of an order.
fn exec_sort_key(order: &Order, target_price: i64, position: BandPosition) -> (r: i128)
    ensures
        r == sort_key(*order, target_price as int, position),
{
    let gap: i128 = if order.price >= target_price {
        order.price as i128 - target_price as i128
    } else {
        target_price as i128 - order.price as i128
    };
    match position {
        BandPosition::First => -gap,
        BandPosition::Last => gap,
        BandPosition::Interior => order.size as i128,
    }
}

/// Sorting a sequence extended by one order inserts that order into the
/// sorted sequence.
pub proof fn lemma_stable_sort_push(
    orders: Seq<Order>,
    order: Order,
    target_price: int,
    position: BandPosition,
)
    ensures
        stable_sort(orders.push(order), target_price, position) == insert_sorted(
            stable_sort(orders, target_price, position),
            order,
            target_price,
            position,
        ),
{
    assert(orders.push(order).drop_last() =~= orders);
}

/// Inserting behind the last order whose key is not larger is inserting at
/// the index below which that order stands.
proof fn lemma_insert_sorted_at(
    sorted: Seq<Order>,
    order: Order,
    target_price: int,
    position: BandPosition,
    at: int,
)
    requires
        0 <= at <= sorted.len(),
        forall|j: int|
            at <= j < sorted.len() ==> sort_key(#[trigger] sorted[j], target_price, position)
                > sort_key(order, target_price, position),
        at > 0 ==> sort_key(sorted[at - 1], target_price, position) <= sort_key(
            order,
            target_price,
            position,
        ),
    ensures
        insert_sorted(sorted, order, target_price, position) == sorted.insert(at, order),
    decreases sorted.len(),
{
    if sorted.len() == 0 {
        assert(sorted.insert(at, order) =~= seq![order]);
    } else if at == sorted.len() {
        assert(sorted.insert(at, order) =~= sorted.push(order));
    } else {
        lemma_insert_sorted_at(sorted.drop_last(), order, target_price, position, at);
        assert(sorted.insert(at, order) =~= sorted.drop_last().insert(at, order).push(
            sorted.last(),
        ));
    }
}

} // verus!
