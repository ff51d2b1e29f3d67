//! The error kinds that every operation of the library reports.

use vstd::prelude::*;

use vstd::string::*;

use crate::ident::{id_text, uuid_text};
use crate::text::{decimal_nat, unsigned_text};
use crate::AgentId;

verus! {

/// What went wrong in an operation. Each operation returns either its value
/// or exactly one of these.
#[derive(Debug)]
pub enum NegotiationError {
    /// The configuration is unusable.
    Config(String),
    /// A signature or a token is invalid.
    Auth(String),
    /// An operation is not legal in the current state of a negotiation or of
    /// an escrow hold.
    Negotiation(String),
    /// The durable store failed.
    Database(String),
    /// A call to a counterparty or a payment rail failed.
    Network(String),
    /// A value could not be encoded or decoded.
    Serialization(String),
    /// A payment was refused.
    Payment(String),
    /// A trust check failed.
    Trust(String),
    /// The input is malformed.
    Validation(String),
    /// Reading or writing failed.
    Io(String),
    /// No agent has this identity.
    AgentNotFound(AgentId),
    /// No product has this identity.
    ProductNotFound(String),
    /// The quote's time to live has lapsed.
    QuoteExpired,
    /// The buyer's reputation, given here, is below what the seller asks.
    InsufficientReputation(u32),
    /// More is asked for than the quantity in stock, given here.
    InsufficientStock(u32),
    /// A request names something that does not exist.
    InvalidInput(String),
    /// Nothing is known under the identity given.
    NotFound(String),
}

impl NegotiationError {
    /// What the error says: its kind, then its detail.
    pub open spec fn text(&self) -> Seq<char> {
        match self {
            NegotiationError::Config(detail) => "Invalid configuration: "@ + detail@,
            NegotiationError::Auth(detail) => "Authentication failed: "@ + detail@,
            NegotiationError::Negotiation(detail) => "Negotiation failed: "@ + detail@,
            NegotiationError::Database(detail) => "Database error: "@ + detail@,
            NegotiationError::Network(detail) => "Network error: "@ + detail@,
            NegotiationError::Serialization(detail) => "Serialization error: "@ + detail@,
            NegotiationError::Payment(detail) => "Payment error: "@ + detail@,
            NegotiationError::Trust(detail) => "Trust validation failed: "@ + detail@,
            NegotiationError::Validation(detail) => "Validation error: "@ + detail@,
            NegotiationError::Io(detail) => "IO error: "@ + detail@,
            NegotiationError::ProductNotFound(detail) => "Product not found: "@ + detail@,
            NegotiationError::InvalidInput(detail) => "Invalid input: "@ + detail@,
            NegotiationError::NotFound(detail) => "Not found: "@ + detail@,
            NegotiationError::AgentNotFound(agent_id) => "Agent not found: "@ + uuid_text(*agent_id),
            NegotiationError::QuoteExpired => "Quote expired"@,
            NegotiationError::InsufficientReputation(score) => "Insufficient reputation score: "@
                + decimal_nat(*score as nat),
            NegotiationError::InsufficientStock(stock) => "Insufficient stock: "@ + decimal_nat(
                *stock as nat,
            ),
        }
    }

    /// What the error says.
    pub fn message(&self) -> (s: String)
        ensures
            s@ == self.text(),
    {
        match self {
            NegotiationError::Config(detail) => String::from_str("Invalid configuration: ").concat(
                detail.as_str(),
            ),
            NegotiationError::Auth(detail) => String::from_str("Authentication failed: ").concat(
                detail.as_str(),
            ),
            NegotiationError::Negotiation(detail) => String::from_str("Negotiation failed: ").concat(
                detail.as_str(),
            ),
            NegotiationError::Database(detail) => String::from_str("Database error: ").concat(
                detail.as_str(),
            ),
            NegotiationError::Network(detail) => String::from_str("Network error: ").concat(
                detail.as_str(),
            ),
            NegotiationError::Serialization(detail) => String::from_str("Serialization error: ").concat(
                detail.as_str(),
            ),
            NegotiationError::Payment(detail) => String::from_str("Payment error: ").concat(
                detail.as_str(),
            ),
            NegotiationError::Trust(detail) => String::from_str("Trust validation failed: ").concat(
                detail.as_str(),
            ),
            NegotiationError::Validation(detail) => String::from_str("Validation error: ").concat(
                detail.as_str(),
            ),
            NegotiationError::Io(detail) => String::from_str("IO error: ").concat(
                detail.as_str(),
            ),
            NegotiationError::ProductNotFound(detail) => String::from_str("Product not found: ").concat(
                detail.as_str(),
            ),
            NegotiationError::InvalidInput(detail) => String::from_str("Invalid input: ").concat(
                detail.as_str(),
            ),
            NegotiationError::NotFound(detail) => String::from_str("Not found: ").concat(
                detail.as_str(),
            ),
            NegotiationError::AgentNotFound(agent_id) => String::from_str(
                "Agent not found: ",
            ).concat(id_text(*agent_id).as_str()),
            NegotiationError::QuoteExpired => String::from_str("Quote expired"),
            NegotiationError::InsufficientReputation(score) => String::from_str(
                "Insufficient reputation score: ",
            ).concat(unsigned_text(*score as u64).as_str()),
            NegotiationError::InsufficientStock(stock) => String::from_str(
                "Insufficient stock: ",
            ).concat(unsigned_text(*stock as u64).as_str()),
        }
    }
}

} // verus!
