//! The facade that picks a quoter and turns a snapshot of the book and a
//! reference price into a diff.

use crate::errors::{ConfigError, SyncError};
use crate::order::{Diff, Order};
use crate::orderbook::OrderBook;
use crate::strategies::amm::{expected_orders, AMMConfig};
use crate::strategies::amm_strategy::{reconcile, AMMStrategy};
use crate::strategies::bands::{all_wf, spec_bands_overlap, Band};
use crate::strategies::bands_strategy::{bands_diff, BandsStrategy};
use crate::text::{lowercase_of, same_text, to_lowercase};
use crate::token::{Balances, TokenPrices};
use crate::utils::{round_price, round_to_cents};
use vstd::prelude::*;

verus! {

/// The two quoting strategies.
#[derive(Debug, Clone, Copy, PartialEq, Eq, Structural)]
pub enum Strategy {
    AMM,
    BANDS,
}

impl Strategy {
    /// The strategy that a lowercase name stands for.
    pub open spec fn spec_from_lowercase(name: Seq<char>) -> Option<Strategy> {
        if name == "amm"@ {
            Some(Strategy::AMM)
        } else if name == "bands"@ {
            Some(Strategy::BANDS)
        } else {
            None
        }
    }

    /// Returns the strategy that a lowercase name stands for: `amm` or
    /// `bands`.
    pub fn from_lowercase(name: &str) -> (r: Option<Strategy>)
        ensures
            r == Self::spec_from_lowercase(name@),
    {
        if same_text(name, "amm") {
            Some(Strategy::AMM)
        } else if same_text(name, "bands") {
            Some(Strategy::BANDS)
        } else {
            None
        }
    }

    /// Returns the strategy that a name stands for, whatever its case.
    pub fn from_str(s: &str) -> (r: Option<Strategy>)
        ensures
            r == Self::spec_from_lowercase(lowercase_of(s@)),
    {
        let lower = to_lowercase(s);
        Self::from_lowercase(lower.as_str())
    }
}

/// The parameters of a strategy, in the shape that the strategy reads.
pub enum StrategyConfig {
    Amm(AMMConfig),
    Bands(Vec<Band>),
}

/// The configured quoter.
pub enum Quoter {
    Amm(AMMStrategy),
    Bands(BandsStrategy),
}

impl Quoter {
    /// The quoter can be asked: the ladders of a curve have a positive step,
    /// so they end.
    pub open spec fn can_quote(self) -> bool {
        match self {
            Quoter::Amm(amm) => amm.config().has_step(),
            Quoter::Bands(_) => true,
        }
    }

    /// The diff that the quoter asks for.
    pub open spec fn diff(self, orders: Seq<Order>, prices: TokenPrices, balances: Balances) -> Diff {
        match self {
            Quoter::Amm(amm) => reconcile(orders, expected_orders(amm.config(), prices, balances)),
            Quoter::Bands(bands) => bands_diff(bands.bands(), orders, prices, balances),
        }
    }
}

/// Some balance is zero.
pub open spec fn has_zero_balance(balances: Balances) -> bool {
    balances.collateral == 0 || balances.token_a == 0 || balances.token_b == 0
}

/// The target prices of the two tokens for a raw price of A in millionths:
/// the raw price rounded to hundredths, and its complement to one rounded
/// to hundredths.
pub open spec fn target_prices(raw_price_a: i64) -> TokenPrices {
    TokenPrices {
        a: round_to_cents(raw_price_a as int) as i64,
        b: round_to_cents(1_000_000 - raw_price_a) as i64,
    }
}

/// Refuses balances of which one is zero.
pub fn check_balances(balances: &Balances) -> (r: Result<(), SyncError>)
    ensures
        r is Err <==> has_zero_balance(*balances),
        r is Err ==> r->Err_0 == SyncError::ZeroBalances,
{
    if balances.collateral == 0 || balances.token_a == 0 || balances.token_b == 0 {
        Err(SyncError::ZeroBalances)
    } else {
        Ok(())
    }
}

/// Computes the target prices of the two tokens.
pub fn compute_target_prices(raw_price_a: i64) -> (r: TokenPrices)
    ensures
        r == target_prices(raw_price_a),
{
    TokenPrices {
        a: round_price(raw_price_a as i128),
        b: round_price(1_000_000i128 - raw_price_a as i128),
    }
}

/// The strategy facade.
pub struct StrategyManager {
    strategy: Quoter,
}

impl StrategyManager {
    /// The configured quoter.
    pub closed spec fn quoter(&self) -> Quoter {
        self.strategy
    }

    /// Builds the facade for a strategy from its parameters. Parameters of
    /// the other strategy's shape are refused with `ShapeMismatch`; else the
    /// quoter refuses what its constructor refuses.
    pub fn new(strategy: Strategy, config: StrategyConfig) -> (r: Result<
        StrategyManager,
        ConfigError,
    >)
        ensures
            match (strategy, config) {
                (Strategy::AMM, StrategyConfig::Amm(c)) => {
                    &&& r is Ok <==> c.wf()
                    &&& r is Ok ==> r->Ok_0.quoter() is Amm && r->Ok_0.quoter()->Amm_0.config() == c
                    &&& r is Err ==> r->Err_0 == ConfigError::DepthNotAboveSpread
                },
                (Strategy::BANDS, StrategyConfig::Bands(b)) => {
                    &&& r is Ok <==> all_wf(b@) && !spec_bands_overlap(b@)
                    &&& r is Ok ==> r->Ok_0.quoter() is Bands && r->Ok_0.quoter()->Bands_0.bands()@
                        == b@
                    &&& r is Err && all_wf(b@) ==> r->Err_0 == ConfigError::BandsOverlap
                    &&& r is Err && !all_wf(b@) ==> exists|i: int|
                        0 <= i < b@.len() && !(#[trigger] b@[i]).wf() && all_wf(b@.take(i))
                            && r->Err_0 == (if !(b@[i].min_amount <= b@[i].avg_amount
                            <= b@[i].max_amount) {
                            ConfigError::BandAmounts
                        } else {
                            ConfigError::BandMargins
                        })
                },
                _ => r is Err && r->Err_0 == ConfigError::ShapeMismatch,
            },
    {
        match (strategy, config) {
            (Strategy::AMM, StrategyConfig::Amm(c)) => match AMMStrategy::new(c) {
                Ok(s) => Ok(StrategyManager { strategy: Quoter::Amm(s) }),
                Err(e) => Err(e),
            },
            (Strategy::BANDS, StrategyConfig::Bands(b)) => match BandsStrategy::new(b) {
                Ok(s) => Ok(StrategyManager { strategy: Quoter::Bands(s) }),
                Err(e) => Err(e),
            },
            _ => Err(ConfigError::ShapeMismatch),
        }
    }

    /// Decides whether the quoter can be asked.
    pub fn can_quote(&self) -> (r: bool)
        ensures
            r == self.quoter().can_quote(),
    {
        match &self.strategy {
            Quoter::Amm(amm) => amm.configuration().step_is_positive(),
            Quoter::Bands(_) => true,
        }
    }

    /// Computes the diff of one tick from a snapshot of the book and the raw
    /// price of token A, in millionths, as the price feed gave it. The tick
    /// is refused when a balance is zero. Else the quoter is asked at the
    /// two target prices. The quoter must be one that can be asked.
    pub fn synchronize(&self, orderbook: &OrderBook, raw_price_a: i64) -> (r: Result<
        (Vec<Order>, Vec<Order>),
        SyncError,
    >)
        requires
            self.quoter().can_quote(),
        ensures
            r is Err <==> has_zero_balance(orderbook.balances),
            r is Err ==> r->Err_0 == SyncError::ZeroBalances,
            r is Ok ==> r->Ok_0.0@ == self.quoter().diff(
                orderbook.orders@,
                target_prices(raw_price_a),
                orderbook.balances,
            ).to_cancel && r->Ok_0.1@ == self.quoter().diff(
                orderbook.orders@,
                target_prices(raw_price_a),
                orderbook.balances,
            ).to_place,
    {
        match check_balances(&orderbook.balances) {
            Err(e) => {
                return Err(e);
            },
            Ok(()) => {},
        }
        let prices = compute_target_prices(raw_price_a);
        let diff = match &self.strategy {
            Quoter::Amm(amm) => amm.get_orders(orderbook, &prices),
            Quoter::Bands(bands) => bands.get_orders(orderbook, &prices),
        };
        Ok(diff)
    }
}

} // verus!
