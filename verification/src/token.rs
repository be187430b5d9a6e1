//! The two complementary outcome tokens of a binary market.

use crate::text::same_text;
use vstd::prelude::*;

verus! {

/// Name under which the collateral balance is reported.
pub const COLLATERAL: &'static str = "Collateral";

/// One of the two outcomes of a binary market.
#[derive(Debug, Clone, Copy, PartialEq, Eq, Hash, Structural)]
pub enum Token {
    A,
    B,
}

impl Token {
    /// The other outcome.
    pub open spec fn spec_complement(self) -> Token {
        match self {
            Token::A => Token::B,
            Token::B => Token::A,
        }
    }

    /// The name of the balance that holds this token.
    pub open spec fn spec_value(self) -> Seq<char> {
        match self {
            Token::A => "TokenA"@,
            Token::B => "TokenB"@,
        }
    }

    /// Returns the other outcome: `A` for `B` and `B` for `A`.
    pub fn complement(self) -> (r: Token)
        ensures
            r == self.spec_complement(),
            r != self,
    {
        match self {
            Token::A => Token::B,
            Token::B => Token::A,
        }
    }

    /// Returns the name of the balance that holds this token.
    pub fn value(&self) -> (r: &'static str)
        ensures
            r@ == self.spec_value(),
    {
        match self {
            Token::A => "TokenA",
            Token::B => "TokenB",
        }
    }
}

/// The reference prices of the two tokens, in hundredths of the unit price.
#[derive(Debug, Clone, Copy, PartialEq, Eq, Structural)]
pub struct TokenPrices {
    pub a: i64,
    pub b: i64,
}

impl TokenPrices {
    /// The price of a token.
    pub open spec fn spec_get(self, token: Token) -> i64 {
        match token {
            Token::A => self.a,
            Token::B => self.b,
        }
    }

    /// Returns the price of a token.
    pub fn get(&self, token: Token) -> (r: i64)
        ensures
            r == self.spec_get(token),
    {
        match token {
            Token::A => self.a,
            Token::B => self.b,
        }
    }
}

/// The balances of the keeper, in hundredths of a unit.
#[derive(Debug, Clone, Copy, PartialEq, Eq, Structural)]
pub struct Balances {
    pub collateral: u64,
    pub token_a: u64,
    pub token_b: u64,
}

impl Balances {
    /// The balance of a token.
    pub open spec fn spec_of(self, token: Token) -> u64 {
        match token {
            Token::A => self.token_a,
            Token::B => self.token_b,
        }
    }

    /// The balance under a name: `Collateral`, `TokenA` or `TokenB`.
    pub open spec fn spec_get(self, name: Seq<char>) -> Option<u64> {
        if name == COLLATERAL@ {
            Some(self.collateral)
        } else if name == "TokenA"@ {
            Some(self.token_a)
        } else if name == "TokenB"@ {
            Some(self.token_b)
        } else {
            None
        }
    }

    /// Returns the balance under a name, if it is the name of a balance.
    pub fn get(&self, name: &str) -> (r: Option<u64>)
        ensures
            r == self.spec_get(name@),
    {
        if same_text(name, COLLATERAL) {
            Some(self.collateral)
        } else if same_text(name, Token::A.value()) {
            Some(self.token_a)
        } else if same_text(name, Token::B.value()) {
            Some(self.token_b)
        } else {
            None
        }
    }

    /// Returns the balance of a token.
    pub fn of(&self, token: Token) -> (r: u64)
        ensures
            r == self.spec_of(token),
    {
        match token {
            Token::A => self.token_a,
            Token::B => self.token_b,
        }
    }
}

/// Taking the complement twice gives the token back.
pub proof fn lemma_complement_involutive(t: Token)
    ensures
        t.spec_complement().spec_complement() == t,
{
}

} // verus!
