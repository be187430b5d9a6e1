//! A binary market: a condition and the ids of its two outcome tokens.

use crate::ct_helpers::{spec_token_id, CTHelpers};
use crate::hexcode::{is_hex, without_0x};
use crate::token::Token;
use vstd::prelude::*;

verus! {

/// A condition and the ids of its two tokens, which are derived once and
/// never change.
#[derive(Debug)]
pub struct Market {
    pub condition_id: String,
    pub token_id_a: u64,
    pub token_id_b: u64,
}

impl Clone for Market {
    fn clone(&self) -> (r: Self)
        ensures
            r == *self,
    {
        Market {
            condition_id: self.condition_id.clone(),
            token_id_a: self.token_id_a,
            token_id_b: self.token_id_b,
        }
    }
}

impl Market {
    /// The id of a token.
    pub open spec fn spec_token_id(&self, token: Token) -> u64 {
        match token {
            Token::A => self.token_id_a,
            Token::B => self.token_id_b,
        }
    }

    /// The token of an id: A when the id is that of A, else B when it is
    /// that of B.
    pub open spec fn spec_token(&self, token_id: u64) -> Option<Token> {
        if token_id == self.token_id_a {
            Some(Token::A)
        } else if token_id == self.token_id_b {
            Some(Token::B)
        } else {
            None
        }
    }

    /// Builds the market of a condition for a collateral: token A is the
    /// outcome of index 0, token B that of index 1. Both arguments are
    /// hexadecimal texts, with or without `0x`.
    pub fn new(condition_id: String, collateral_address: String) -> (r: Market)
        requires
            is_hex(without_0x(condition_id@)),
            is_hex(without_0x(collateral_address@)),
        ensures
            r.condition_id@ == condition_id@,
            r.token_id_a == spec_token_id(condition_id@, collateral_address@, 0),
            r.token_id_b == spec_token_id(condition_id@, collateral_address@, 1),
    {
        let token_id_a = CTHelpers::get_token_id(
            condition_id.as_str(),
            collateral_address.as_str(),
            0,
        );
        let token_id_b = CTHelpers::get_token_id(
            condition_id.as_str(),
            collateral_address.as_str(),
            1,
        );
        Market { condition_id, token_id_a, token_id_b }
    }

    /// Returns the id of a token.
    pub fn token_id(&self, token: Token) -> (r: u64)
        ensures
            r == self.spec_token_id(token),
    {
        match token {
            Token::A => self.token_id_a,
            Token::B => self.token_id_b,
        }
    }

    /// Returns the token of an id, if the id is that of one of the two.
    pub fn token(&self, token_id: u64) -> (r: Option<Token>)
        ensures
            r == self.spec_token(token_id),
            r is Some ==> self.spec_token_id(r->Some_0) == token_id,
    {
        if token_id == self.token_id_a {
            Some(Token::A)
        } else if token_id == self.token_id_b {
            Some(Token::B)
        } else {
            None
        }
    }
}

/// Where the two ids differ, the token of the id of a token is that token.
pub proof fn lemma_token_round_trip(market: Market, token: Token)
    requires
        market.token_id_a != market.token_id_b,
    ensures
        market.spec_token(market.spec_token_id(token)) == Some(token),
{
}

} // verus!
