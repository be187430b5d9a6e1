//! The price feed that reads the midpoint of a token from the exchange.

use crate::clob_api::ClobApi;
use crate::market::Market;
use crate::token::Token;
use vstd::prelude::*;

verus! {

/// The market and the exchange from which its prices are read.
#[derive(Debug)]
pub struct PriceFeedClob {
    pub market: Market,
    pub clob_api: ClobApi,
}

impl Clone for PriceFeedClob {
    fn clone(&self) -> (r: Self)
        ensures
            r == *self,
    {
        PriceFeedClob { market: self.market.clone(), clob_api: self.clob_api.clone() }
    }
}

impl PriceFeedClob {
    /// Builds the feed of a market on an exchange.
    pub fn new(market: Market, clob_api: ClobApi) -> (r: PriceFeedClob)
        ensures
            r.market == market,
            r.clob_api == clob_api,
    {
        PriceFeedClob { market, clob_api }
    }

    /// Returns the id under which the exchange lists the midpoint of a
    /// token.
    pub fn token_id(&self, token: Token) -> (r: u64)
        ensures
            r == self.market.spec_token_id(token),
    {
        self.market.token_id(token)
    }
}

} // verus!
