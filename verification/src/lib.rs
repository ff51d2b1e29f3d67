//! Negotiation between autonomous buyer and seller agents.
//!
//! A buyer issues a request for quote, a seller answers with a quote, the two
//! exchange counter-offers, and an accepted deal is settled over one of several
//! payment rails while the reputation of both parties is adjusted.
//!
//! Prices and amounts are integers in the smallest unit of their currency,
//! instants are whole seconds since the Unix epoch, and identities are the
//! 128 bits of a UUID.

use vstd::prelude::*;

pub mod agent;
pub mod clock;
pub mod config;
pub mod discovery;
pub mod error;
pub mod ident;
pub mod mcp;
pub mod model;
pub mod pricing;
pub mod settlement;
pub mod text;
pub mod token;
pub mod trust;

verus! {

/// Identity of an agent: the 128 bits of its UUID.
pub type AgentId = u128;

/// Identity of an RFQ, a quote, a negotiation or a payment.
pub type TransactionId = u128;

/// An instant, in whole seconds since 1970-01-01 00:00:00 UTC.
pub type Timestamp = i64;

/// A price or an amount of money, in the smallest unit of its currency.
pub type Amount = i64;

} // verus!
