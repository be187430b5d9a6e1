//! Quoting core of a market-making keeper for a binary prediction market.
//!
//! All money quantities are fixed-point integers. Prices and margins are
//! counted in hundredths of the unit price (so a valid price lies strictly
//! between 0 and 100), sizes, amounts and balances in hundredths of a token.
//! A product of a size and a price is therefore counted in ten-thousandths of
//! a unit of collateral. A raw price, as a price feed gives it, is counted in
//! millionths.
//!
//! The library decides and computes; it neither waits nor talks to anyone.
//! `strategy` turns a snapshot of the book and a raw price into the orders to
//! cancel and to place, by one of the two quoters under `strategies`.
//! `orderbook` holds the state of the order-book manager and its steps,
//! `lifecycle` the steps of the keeper's life. `ct_helpers` derives the ids
//! of the outcome tokens. Whoever drives the library performs the requests
//! and the waits in between, and reports their outcomes.

pub mod bigint;
pub mod clob_api;
pub mod constants;
pub mod ct_helpers;
pub mod curve_certificate;
pub mod errors;
pub mod gas;
pub mod hexcode;
pub mod ids;
pub mod lifecycle;
pub mod market;
pub mod math;
pub mod order;
pub mod orderbook;
pub mod price_feed;
pub mod strategies;
pub mod strategy;
pub mod text;
pub mod token;
pub mod utils;
