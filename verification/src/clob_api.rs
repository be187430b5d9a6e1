//! What the keeper says to the exchange and how it reads the answers. The
//! requests themselves are sent by whoever drives the library.

use crate::market::Market;
use crate::order::{Order, Side};
use crate::text::{decimal_text, u64_text, uppercase_of};
use crate::token::Token;
use crate::utils::{randomize_default_price, randomized};
use vstd::prelude::*;

verus! {

/// Midpoint, in millionths, around which a price is drawn when the exchange
/// gives none.
pub const DEFAULT_PRICE: i64 = 500_000;

/// The address and the credentials of the exchange.
#[derive(Debug)]
pub struct ClobApi {
    pub host: String,
    pub chain_id: u64,
    pub private_key: String,
    pub api_key: Option<String>,
}

impl Clone for ClobApi {
    fn clone(&self) -> (r: Self)
        ensures
            r == *self,
    {
        let api_key = match &self.api_key {
            Some(key) => Some(key.clone()),
            None => None,
        };
        ClobApi {
            host: self.host.clone(),
            chain_id: self.chain_id,
            private_key: self.private_key.clone(),
            api_key,
        }
    }
}

/// An order as the exchange lists it.
#[derive(Debug)]
pub struct RemoteOrder {
    pub original_size: u64,
    pub size_matched: u64,
    pub price: i64,
    pub side: String,
    pub asset_id: u64,
    pub id: Option<String>,
}

/// The size that is left of an order: what was asked less what was matched,
/// and nothing when more was matched than asked.
pub open spec fn remaining_size(original_size: u64, size_matched: u64) -> u64 {
    if original_size >= size_matched {
        (original_size - size_matched) as u64
    } else {
        0
    }
}

/// The id of a placement, if the exchange accepted it: the answer says
/// `success` and carries an id that is not empty.
pub open spec fn spec_placement_outcome(success: Option<bool>, order_id: Option<String>) -> Option<
    String,
> {
    if success == Some(true) && order_id is Some && order_id->Some_0@.len() > 0 {
        order_id
    } else {
        None
    }
}

impl RemoteOrder {
    /// Writes an order as the exchange lists it, with nothing matched.
    pub fn from_order(order: &Order, market: &Market) -> (r: RemoteOrder)
        ensures
            r.original_size == order.size,
            r.size_matched == 0,
            r.price == order.price,
            r.side@ == order.side.spec_value(),
            r.asset_id == market.spec_token_id(order.token),
            r.id == order.id,
    {
        let id = match &order.id {
            Some(s) => Some(s.clone()),
            None => None,
        };
        RemoteOrder {
            original_size: order.size,
            size_matched: 0,
            price: order.price,
            side: String::from_str(order.side.value()),
            asset_id: market.token_id(order.token),
            id,
        }
    }

    /// The order that the listing stands for, given the side that its name
    /// in upper case stands for. A side that is not known counts as a buy,
    /// an asset that is not of the market as token A.
    pub open spec fn spec_to_order(&self, market: &Market, side: Option<Side>) -> Order {
        Order {
            size: remaining_size(self.original_size, self.size_matched),
            price: self.price,
            side: match side {
                Some(s) => s,
                None => Side::Buy,
            },
            token: match market.spec_token(self.asset_id) {
                Some(t) => t,
                None => Token::A,
            },
            id: self.id,
        }
    }

    /// Builds the order that the listing stands for once its side has been
    /// read.
    pub fn to_order_with_side(&self, market: &Market, side: Option<Side>) -> (r: Order)
        ensures
            r == self.spec_to_order(market, side),
    {
        let size = if self.original_size >= self.size_matched {
            self.original_size - self.size_matched
        } else {
            0
        };
        let side = match side {
            Some(s) => s,
            None => Side::Buy,
        };
        let token = match market.token(self.asset_id) {
            Some(t) => t,
            None => Token::A,
        };
        let id = match &self.id {
            Some(s) => Some(s.clone()),
            None => None,
        };
        Order { size, price: self.price, side, token, id }
    }

    /// Builds the order that the listing stands for. The side is read from
    /// its name, whatever its case.
    pub fn to_order(&self, market: &Market) -> (r: Order)
        ensures
            r == self.spec_to_order(market, Side::spec_from_uppercase(uppercase_of(self.side@))),
    {
        let side = Side::from_str(self.side.as_str());
        self.to_order_with_side(market, side)
    }
}

/// The name of a side, which is in upper case, is read as that side.
pub proof fn lemma_side_name_round_trip(side: Side)
    ensures
        Side::spec_from_uppercase(side.spec_value()) == Some(side),
{
    reveal_strlit("BUY");
    reveal_strlit("SELL");
    if side == Side::Sell {
        assert("SELL"@.len() != "BUY"@.len());
    }
}

/// An order that is written as the exchange lists it and read back, in a
/// market whose two tokens have different ids, is the same order: price,
/// size, side, token and id are kept.
pub proof fn lemma_order_round_trip(order: Order, market: Market, listing: RemoteOrder)
    requires
        market.token_id_a != market.token_id_b,
        listing.original_size == order.size,
        listing.size_matched == 0,
        listing.price == order.price,
        listing.side@ == order.side.spec_value(),
        listing.asset_id == market.spec_token_id(order.token),
        listing.id == order.id,
    ensures
        listing.spec_to_order(&market, Side::spec_from_uppercase(listing.side@)) == order,
{
    lemma_side_name_round_trip(order.side);
}

impl ClobApi {
    /// Builds the client of an exchange, without an API key.
    pub fn new(host: String, chain_id: u64, private_key: String) -> (r: ClobApi)
        ensures
            r.host == host,
            r.chain_id == chain_id,
            r.private_key == private_key,
            r.api_key is None,
    {
        ClobApi { host, chain_id, private_key, api_key: None }
    }

    /// The address at which the midpoint of a token is asked for.
    pub open spec fn spec_midpoint_url(&self, token_id: u64) -> Seq<char> {
        self.host@ + "/midpoint/"@ + decimal_text(token_id as nat)
    }

    /// The address at which the open orders of a market are asked for.
    pub open spec fn spec_orders_url(&self, condition_id: Seq<char>) -> Seq<char> {
        self.host@ + "/orders?market="@ + condition_id
    }

    /// The address to which a new order is sent.
    pub open spec fn spec_order_url(&self) -> Seq<char> {
        self.host@ + "/order"@
    }

    /// The address at which one order is cancelled.
    pub open spec fn spec_cancel_url(&self, order_id: Seq<char>) -> Seq<char> {
        self.host@ + "/order/"@ + order_id
    }

    /// The address at which all orders are cancelled.
    pub open spec fn spec_cancel_all_url(&self) -> Seq<char> {
        self.host@ + "/orders"@
    }

    /// Returns the address at which the midpoint of a token is asked for.
    pub fn midpoint_url(&self, token_id: u64) -> (r: String)
        ensures
            r@ == self.spec_midpoint_url(token_id),
    {
        let mut url = self.host.clone();
        url.append("/midpoint/");
        let id = u64_text(token_id);
        url.append(id.as_str());
        url
    }

    /// Returns the address at which the open orders of a market are asked
    /// for.
    pub fn orders_url(&self, condition_id: &str) -> (r: String)
        ensures
            r@ == self.spec_orders_url(condition_id@),
    {
        let mut url = self.host.clone();
        url.append("/orders?market=");
        url.append(condition_id);
        url
    }

    /// Returns the address to which a new order is sent.
    pub fn order_url(&self) -> (r: String)
        ensures
            r@ == self.spec_order_url(),
    {
        let mut url = self.host.clone();
        url.append("/order");
        url
    }

    /// Returns the address at which one order is cancelled.
    pub fn cancel_url(&self, order_id: &str) -> (r: String)
        ensures
            r@ == self.spec_cancel_url(order_id@),
    {
        let mut url = self.host.clone();
        url.append("/order/");
        url.append(order_id);
        url
    }

    /// Returns the address at which all orders are cancelled.
    pub fn cancel_all_url(&self) -> (r: String)
        ensures
            r@ == self.spec_cancel_all_url(),
    {
        let mut url = self.host.clone();
        url.append("/orders");
        url
    }

    /// Returns the price to quote around, in millionths: the midpoint of the
    /// exchange when it gave one, else the default moved by a random amount
    /// of at most a tenth either way, for which `sample` is the random
    /// number in millionths.
    pub fn price_or_fallback(mid: Option<i64>, sample: u32) -> (r: i128)
        ensures
            r == (match mid {
                Some(price) => price as int,
                None => randomized(DEFAULT_PRICE as int, -100_000, 100_000, sample as int),
            }),
            mid is None && sample <= 1_000_000 ==> 390_000 < r <= 600_000,
    {
        match mid {
            Some(price) => price as i128,
            None => randomize_default_price(DEFAULT_PRICE, sample),
        }
    }

    /// Reads the answer to a placement: the id of the order when the
    /// exchange says `success` and gives an id that is not empty.
    pub fn placement_outcome(success: Option<bool>, order_id: Option<String>) -> (r: Option<String>)
        ensures
            r == spec_placement_outcome(success, order_id),
    {
        match success {
            Some(true) => match order_id {
                Some(id) => {
                    if id.as_str().unicode_len() > 0 {
                        Some(id)
                    } else {
                        None
                    }
                },
                None => None,
            },
            _ => None,
        }
    }

    /// Decides whether a cancellation needs no request: an empty id counts
    /// as cancelled.
    pub fn cancel_is_vacuous(order_id: &str) -> (r: bool)
        ensures
            r == (order_id@.len() == 0),
    {
        order_id.unicode_len() == 0
    }
}

} // verus!
