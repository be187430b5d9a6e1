//! The price of gas.

use crate::text::{lowercase_of, same_text, to_lowercase};
use vstd::prelude::*;

verus! {

/// Gas price, in wei, that is taken where none is configured.
pub const DEFAULT_FIXED_GAS_PRICE: u64 = 100_000_000_000;

/// Number of wei in one gwei, the unit of the gas station.
pub const WEI_PER_GWEI: u64 = 1_000_000_000;

/// Where the price of gas comes from.
#[derive(Debug, Clone, Copy, PartialEq, Eq, Structural)]
pub enum GasStrategy {
    Fixed,
    Station,
    Web3,
}

impl GasStrategy {
    /// The strategy that a lowercase name stands for.
    pub open spec fn spec_from_lowercase(name: Seq<char>) -> Option<GasStrategy> {
        if name == "fixed"@ {
            Some(GasStrategy::Fixed)
        } else if name == "station"@ {
            Some(GasStrategy::Station)
        } else if name == "web3"@ {
            Some(GasStrategy::Web3)
        } else {
            None
        }
    }

    /// The name of the strategy.
    pub open spec fn spec_value(self) -> Seq<char> {
        match self {
            GasStrategy::Fixed => "fixed"@,
            GasStrategy::Station => "station"@,
            GasStrategy::Web3 => "web3"@,
        }
    }

    /// Returns the strategy that a lowercase name stands for: `fixed`,
    /// `station` or `web3`.
    pub fn from_lowercase(name: &str) -> (r: Option<GasStrategy>)
        ensures
            r == Self::spec_from_lowercase(name@),
    {
        if same_text(name, "fixed") {
            Some(GasStrategy::Fixed)
        } else if same_text(name, "station") {
            Some(GasStrategy::Station)
        } else if same_text(name, "web3") {
            Some(GasStrategy::Web3)
        } else {
            None
        }
    }

    /// Returns the strategy that a name stands for, whatever its case.
    pub fn from_str(s: &str) -> (r: Option<GasStrategy>)
        ensures
            r == Self::spec_from_lowercase(lowercase_of(s@)),
    {
        let lower = to_lowercase(s);
        Self::from_lowercase(lower.as_str())
    }

    /// Returns the name of the strategy.
    pub fn value(&self) -> (r: &'static str)
        ensures
            r@ == self.spec_value(),
    {
        match self {
            GasStrategy::Fixed => "fixed",
            GasStrategy::Station => "station",
            GasStrategy::Web3 => "web3",
        }
    }
}

/// The source of the gas price and what it falls back on.
#[derive(Debug)]
pub struct GasStation {
    pub strategy: GasStrategy,
    pub fixed_gas_price: u64,
    pub gas_station_url: Option<String>,
}

impl Clone for GasStation {
    fn clone(&self) -> (r: Self)
        ensures
            r == *self,
    {
        let gas_station_url = match &self.gas_station_url {
            Some(url) => Some(url.clone()),
            None => None,
        };
        GasStation {
            strategy: self.strategy,
            fixed_gas_price: self.fixed_gas_price,
            gas_station_url,
        }
    }
}

impl GasStation {
    /// The gas price in wei for what the station reported: the fixed price,
    /// except for the station strategy with a report, which gives the
    /// reported `fast` price in gwei.
    pub open spec fn spec_gas_price(&self, station_fast: Option<u64>) -> int {
        match self.strategy {
            GasStrategy::Station => match station_fast {
                Some(fast) => fast * WEI_PER_GWEI,
                None => self.fixed_gas_price as int,
            },
            _ => self.fixed_gas_price as int,
        }
    }

    /// Builds the station. Without a fixed price the default is taken.
    pub fn new(
        strategy: GasStrategy,
        fixed_gas_price: Option<u64>,
        gas_station_url: Option<String>,
    ) -> (r: GasStation)
        ensures
            r.strategy == strategy,
            r.fixed_gas_price == (match fixed_gas_price {
                Some(price) => price,
                None => DEFAULT_FIXED_GAS_PRICE,
            }),
            r.gas_station_url == gas_station_url,
    {
        let fixed_gas_price = match fixed_gas_price {
            Some(price) => price,
            None => DEFAULT_FIXED_GAS_PRICE,
        };
        GasStation { strategy, fixed_gas_price, gas_station_url }
    }

    /// Returns the gas price in wei. `station_fast` is the `fast` price in
    /// gwei that the gas station reported, if it was asked and answered.
    pub fn get_gas_price(&self, station_fast: Option<u64>) -> (r: u64)
        requires
            self.spec_gas_price(station_fast) <= u64::MAX,
        ensures
            r == self.spec_gas_price(station_fast),
    {
        match self.strategy {
            GasStrategy::Station => match station_fast {
                Some(fast) => fast * WEI_PER_GWEI,
                None => self.fixed_gas_price,
            },
            _ => self.fixed_gas_price,
        }
    }

    /// Decides whether the gas station is to be asked: the strategy is the
    /// station and an address is configured.
    pub fn asks_station(&self) -> (r: bool)
        ensures
            r == (self.strategy == GasStrategy::Station && self.gas_station_url is Some),
    {
        match self.strategy {
            GasStrategy::Station => self.gas_station_url.is_some(),
            _ => false,
        }
    }
}

} // verus!
