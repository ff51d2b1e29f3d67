//! The data a negotiation is made of, and the negotiation state machine.

use std::collections::HashMap;
use vstd::prelude::*;
use vstd::string::*;

use crate::clock::{now, CLOCK_LIMIT};
use crate::error::NegotiationError;
use crate::ident::fresh_id;
use crate::text::same_text;
use crate::{AgentId, Amount, Timestamp, TransactionId};

verus! {

/// The side an agent takes.
#[derive(Debug, Clone, Copy, PartialEq, Eq, Structural)]
pub enum AgentType {
    Buyer,
    Seller,
}

/// A payment rail.
#[derive(Debug, Clone, Copy, PartialEq, Eq, Structural)]
pub enum PaymentMethod {
    /// Direct capture, as by a card processor.
    Stripe,
    /// Ledger transfer.
    Solana,
    /// Custodial hold until release conditions are met.
    Escrow,
}

/// Where a negotiation stands.
#[derive(Debug, Clone, Copy, PartialEq, Eq, Structural)]
pub enum NegotiationStatus {
    Pending,
    Quoted,
    Negotiating,
    Accepted,
    Rejected,
    Expired,
    Settled,
}

/// What a message of a negotiation carries.
#[derive(Debug, Clone, Copy, PartialEq, Eq, Structural)]
pub enum MessageType {
    RFQ,
    Quote,
    CounterOffer,
    Accept,
    Reject,
    Info,
}

/// An item of a seller's catalog.
#[derive(Debug, Clone)]
pub struct Product {
    pub id: String,
    pub name: String,
    pub description: String,
    pub category: String,
    /// Price of one unit.
    pub base_price: Amount,
    pub currency: String,
    pub stock_quantity: u32,
    pub metadata: HashMap<String, String>,
}

/// What the registry knows of an agent.
#[derive(Debug, Clone)]
pub struct AgentInfo {
    pub id: AgentId,
    pub agent_type: AgentType,
    pub name: String,
    pub endpoint: String,
    pub public_key: String,
    pub reputation_score: u32,
    pub products: Vec<Product>,
    pub payment_methods: Vec<PaymentMethod>,
    pub created_at: Timestamp,
    pub last_active: Timestamp,
}

/// A buyer's request for a priced offer.
#[derive(Debug, Clone)]
pub struct RFQ {
    pub id: TransactionId,
    pub buyer_id: AgentId,
    pub product_id: String,
    pub quantity: u32,
    /// The most the buyer will pay for the whole quantity.
    pub max_price: Amount,
    pub currency: String,
    pub delivery_location: Option<String>,
    pub deadline: Timestamp,
    pub metadata: HashMap<String, String>,
}

/// A seller's time-bounded, priced answer to an RFQ.
#[derive(Debug, Clone)]
pub struct Quote {
    pub id: TransactionId,
    pub rfq_id: TransactionId,
    pub seller_id: AgentId,
    pub price: Amount,
    pub currency: String,
    pub available_quantity: u32,
    pub delivery_estimate: Option<String>,
    pub ttl_seconds: u32,
    pub metadata: HashMap<String, String>,
    pub created_at: Timestamp,
}

/// One message exchanged in a negotiation.
#[derive(Debug, Clone)]
pub struct NegotiationMessage {
    pub id: u128,
    pub negotiation_id: TransactionId,
    pub sender_id: AgentId,
    pub content: String,
    pub message_type: MessageType,
    pub created_at: Timestamp,
}

/// The stateful exchange between one RFQ and its seller.
#[derive(Debug, Clone)]
pub struct Negotiation {
    pub id: TransactionId,
    pub rfq_id: TransactionId,
    pub quote_id: Option<TransactionId>,
    pub buyer_id: AgentId,
    pub seller_id: AgentId,
    pub product_id: String,
    pub quantity: u32,
    /// The RFQ's maximum price.
    pub opening_bid: Amount,
    pub close_price: Option<Amount>,
    /// `close_price - opening_bid`, wide enough for any two prices.
    pub delta: Option<i128>,
    pub status: NegotiationStatus,
    pub messages: Vec<NegotiationMessage>,
    pub created_at: Timestamp,
    pub updated_at: Timestamp,
}

/// The audit record of a closed negotiation.
#[derive(Debug, Clone)]
pub struct NegotiationRecord {
    pub buyer_id: AgentId,
    pub seller_id: AgentId,
    pub product_hash: String,
    pub opening_bid: Amount,
    pub close_price: Amount,
    pub delta: i128,
    pub timestamp: Timestamp,
    pub duration_seconds: u64,
    pub message_count: u32,
}

impl RFQ {
    /// A request with a random identity, no delivery location and no metadata.
    pub fn new(
        buyer_id: AgentId,
        product_id: String,
        quantity: u32,
        max_price: Amount,
        currency: String,
        deadline: Timestamp,
    ) -> (rfq: Self)
        ensures
            rfq.buyer_id == buyer_id,
            rfq.product_id == product_id,
            rfq.quantity == quantity,
            rfq.max_price == max_price,
            rfq.currency == currency,
            rfq.delivery_location is None,
            rfq.deadline == deadline,
            rfq.metadata@ == Map::<String, String>::empty(),
    {
        RFQ {
            id: fresh_id(),
            buyer_id,
            product_id,
            quantity,
            max_price,
            currency,
            delivery_location: None,
            deadline,
            metadata: HashMap::new(),
        }
    }

    /// A request is valid at an instant when it asks for at least one unit,
    /// offers a positive price and its deadline lies strictly after the instant.
    pub open spec fn valid_at(&self, at: Timestamp) -> bool {
        &&& self.quantity > 0
        &&& self.max_price > 0
        &&& self.deadline > at
    }

    /// Whether `r` is the verdict on the request at the instant `at`: success
    /// where the request is valid, else the first defect in the order
    /// quantity, price, deadline.
    pub open spec fn verdict_at(&self, at: Timestamp, r: Result<(), NegotiationError>) -> bool {
        if self.quantity == 0 {
            validation_error(r, "Quantity must be greater than 0"@)
        } else if self.max_price <= 0 {
            validation_error(r, "Max price must be greater than 0"@)
        } else if self.deadline <= at {
            validation_error(r, "Deadline must be in the future"@)
        } else {
            r is Ok
        }
    }

    /// Checks the request against the instant `at`. The first defect found, in
    /// the order quantity, price, deadline, is the one reported.
    pub fn validate_at(&self, at: Timestamp) -> (r: Result<(), NegotiationError>)
        ensures
            self.verdict_at(at, r),
            r is Ok <==> self.valid_at(at),
    {
        if self.quantity == 0 {
            return Err(
                NegotiationError::Validation(String::from_str("Quantity must be greater than 0")),
            );
        }
        if self.max_price <= 0 {
            return Err(
                NegotiationError::Validation(String::from_str("Max price must be greater than 0")),
            );
        }
        if self.deadline <= at {
            return Err(
                NegotiationError::Validation(String::from_str("Deadline must be in the future")),
            );
        }
        Ok(())
    }

    /// Checks the request against the current time: the verdict is that of
    /// some instant. Whatever the clock says, a request without quantity or
    /// without a positive price is refused.
    pub fn validate(&self) -> (r: Result<(), NegotiationError>)
        ensures
            exists|at: Timestamp| 0 <= at < CLOCK_LIMIT && self.verdict_at(at, r),
            self.quantity == 0 || self.max_price <= 0 ==> r is Err,
    {
        let at = now();
        let r = self.validate_at(at);
        proof {
            assert(self.verdict_at(at, r));
        }
        r
    }
}

/// Whether `r` is the validation error with the message `text`.
pub open spec fn validation_error<T>(r: Result<T, NegotiationError>, text: Seq<char>) -> bool {
    r matches Err(NegotiationError::Validation(m)) && m@ == text
}

/// Whether `r` says that nothing of the identity is known, with the message
/// `text`.
pub open spec fn not_found_error<T>(r: Result<T, NegotiationError>, text: Seq<char>) -> bool {
    r matches Err(NegotiationError::NotFound(m)) && m@ == text
}

/// Whether `r` is the state conflict with the message `text`.
pub open spec fn conflict_error<T>(r: Result<T, NegotiationError>, text: Seq<char>) -> bool {
    r matches Err(NegotiationError::Negotiation(m)) && m@ == text
}

impl Quote {
    /// A quote with a random identity, created now, without delivery estimate
    /// or metadata.
    pub fn new(
        rfq_id: TransactionId,
        seller_id: AgentId,
        price: Amount,
        currency: String,
        available_quantity: u32,
        ttl_seconds: u32,
    ) -> (quote: Self)
        ensures
            quote.rfq_id == rfq_id,
            quote.seller_id == seller_id,
            quote.price == price,
            quote.currency == currency,
            quote.available_quantity == available_quantity,
            quote.delivery_estimate is None,
            quote.ttl_seconds == ttl_seconds,
            quote.metadata@ == Map::<String, String>::empty(),
            0 <= quote.created_at < CLOCK_LIMIT,
            !quote.expired_at(quote.created_at),
    {
        Quote {
            id: fresh_id(),
            rfq_id,
            seller_id,
            price,
            currency,
            available_quantity,
            delivery_estimate: None,
            ttl_seconds,
            metadata: HashMap::new(),
            created_at: now(),
        }
    }

    /// Whether the quote is the one issued at `at` with the given terms,
    /// without delivery estimate or metadata. Its identity is random.
    pub open spec fn issued(
        &self,
        rfq_id: TransactionId,
        seller_id: AgentId,
        price: Amount,
        currency: Seq<char>,
        available_quantity: u32,
        ttl_seconds: u32,
        at: Timestamp,
    ) -> bool {
        &&& self.rfq_id == rfq_id
        &&& self.seller_id == seller_id
        &&& self.price == price
        &&& self.currency@ == currency
        &&& self.available_quantity == available_quantity
        &&& self.delivery_estimate is None
        &&& self.ttl_seconds == ttl_seconds
        &&& self.metadata@ == Map::<String, String>::empty()
        &&& self.created_at == at
    }

    /// A quote with a random identity, created at `at`.
    pub fn issued_at(
        rfq_id: TransactionId,
        seller_id: AgentId,
        price: Amount,
        currency: String,
        available_quantity: u32,
        ttl_seconds: u32,
        at: Timestamp,
    ) -> (quote: Self)
        ensures
            quote.issued(rfq_id, seller_id, price, currency@, available_quantity, ttl_seconds, at),
    {
        Quote {
            id: fresh_id(),
            rfq_id,
            seller_id,
            price,
            currency,
            available_quantity,
            delivery_estimate: None,
            ttl_seconds,
            metadata: HashMap::new(),
            created_at: at,
        }
    }

    /// The last instant at which the quote still stands.
    pub open spec fn expiry(&self) -> int {
        self.created_at + self.ttl_seconds
    }

    /// A quote is expired at an instant that lies strictly after its expiry.
    pub open spec fn expired_at(&self, at: Timestamp) -> bool {
        at > self.expiry()
    }

    /// Whether the quote is expired at `at`.
    pub fn is_expired_at(&self, at: Timestamp) -> (expired: bool)
        ensures
            expired == self.expired_at(at),
    {
        at as i128 > self.created_at as i128 + self.ttl_seconds as i128
    }

    /// Whether the quote is expired now.
    pub fn is_expired(&self) -> (expired: bool)
        ensures
            exists|at: Timestamp| 0 <= at < CLOCK_LIMIT && expired == self.expired_at(at),
    {
        let at = now();
        self.is_expired_at(at)
    }

    /// A quote is valid when its price, its quantity and its time to live are
    /// all positive.
    pub open spec fn valid(&self) -> bool {
        &&& self.price > 0
        &&& self.available_quantity > 0
        &&& self.ttl_seconds > 0
    }

    /// Checks the quote. The first defect found, in the order price, quantity,
    /// time to live, is the one reported.
    pub fn validate(&self) -> (r: Result<(), NegotiationError>)
        ensures
            r is Ok <==> self.valid(),
            self.price <= 0 ==> validation_error(r, "Price must be greater than 0"@),
            self.price > 0 && self.available_quantity == 0 ==> validation_error(
                r,
                "Available quantity must be greater than 0"@,
            ),
            self.price > 0 && self.available_quantity > 0 && self.ttl_seconds == 0
                ==> validation_error(r, "TTL must be greater than 0"@),
    {
        if self.price <= 0 {
            return Err(
                NegotiationError::Validation(String::from_str("Price must be greater than 0")),
            );
        }
        if self.available_quantity == 0 {
            return Err(
                NegotiationError::Validation(
                    String::from_str("Available quantity must be greater than 0"),
                ),
            );
        }
        if self.ttl_seconds == 0 {
            return Err(
                NegotiationError::Validation(String::from_str("TTL must be greater than 0")),
            );
        }
        Ok(())
    }
}

impl NegotiationStatus {
    /// A negotiation is open while a quote stands or counter-offers are
    /// exchanged.
    pub open spec fn is_open(self) -> bool {
        self is Quoted || self is Negotiating
    }

    /// No transition leaves a terminal state.
    pub open spec fn is_terminal(self) -> bool {
        self is Settled || self is Rejected || self is Expired
    }

    /// The edges of the state machine.
    pub open spec fn legal_edge(self, to: NegotiationStatus) -> bool {
        ||| self is Pending && to is Quoted
        ||| self is Quoted && to is Negotiating
        ||| self is Negotiating && to is Negotiating
        ||| self is Negotiating && to is Quoted
        ||| self.is_open() && (to is Accepted || to is Rejected || to is Expired)
        ||| self is Accepted && to is Settled
    }

    /// Whether the negotiation is open.
    pub fn open(&self) -> (b: bool)
        ensures
            b == self.is_open(),
    {
        match self {
            NegotiationStatus::Quoted | NegotiationStatus::Negotiating => true,
            _ => false,
        }
    }
}

impl Negotiation {
    /// Closing data is consistent: a close price and a delta are present
    /// exactly in the states `Accepted` and `Settled`, the delta is the close
    /// price less the opening bid, and a quote is attached in `Quoted` and none
    /// in `Pending`.
    pub open spec fn wf(&self) -> bool {
        &&& self.status is Pending ==> self.quote_id is None
        &&& self.status is Quoted ==> self.quote_id is Some
        &&& self.close_price is Some <==> self.status is Accepted || self.status is Settled
        &&& self.close_price is Some <==> self.delta is Some
        &&& self.close_price matches Some(price) ==> self.delta == Some(
            (price - self.opening_bid) as i128,
        )
    }

    /// Whether the negotiation is the one opened for `rfq` with `seller_id`:
    /// pending, without quote, close price or messages, the RFQ's maximum
    /// price as its opening bid. Its identity is random.
    pub open spec fn opened_for(&self, rfq: &RFQ, seller_id: AgentId) -> bool {
        &&& self.rfq_id == rfq.id
        &&& self.quote_id is None
        &&& self.buyer_id == rfq.buyer_id
        &&& self.seller_id == seller_id
        &&& self.product_id == rfq.product_id
        &&& self.quantity == rfq.quantity
        &&& self.opening_bid == rfq.max_price
        &&& self.close_price is None
        &&& self.delta is None
        &&& self.status is Pending
        &&& self.messages@.len() == 0
        &&& self.created_at == self.updated_at
    }

    /// A negotiation for `rfq` with `seller_id`, in state `Pending`, with a
    /// random identity and both timestamps set to the current time.
    pub fn new(rfq: RFQ, seller_id: AgentId) -> (n: Self)
        ensures
            n.opened_for(&rfq, seller_id),
            n.wf(),
            0 <= n.created_at < CLOCK_LIMIT,
    {
        let at = now();
        Negotiation {
            id: fresh_id(),
            rfq_id: rfq.id,
            quote_id: None,
            buyer_id: rfq.buyer_id,
            seller_id,
            product_id: rfq.product_id,
            quantity: rfq.quantity,
            opening_bid: rfq.max_price,
            close_price: None,
            delta: None,
            status: NegotiationStatus::Pending,
            messages: Vec::new(),
            created_at: at,
            updated_at: at,
        }
    }

    /// A quote can be attached when none is, before the first quote or while
    /// counter-offers are exchanged.
    pub open spec fn can_attach(&self) -> bool {
        self.quote_id is None && (self.status is Pending || self.status is Negotiating)
    }

    /// The negotiation after `quote_id` was attached at `at`.
    pub open spec fn quoted(self, quote_id: TransactionId, at: Timestamp) -> Negotiation {
        Negotiation {
            quote_id: Some(quote_id),
            status: NegotiationStatus::Quoted,
            updated_at: at,
            ..self
        }
    }

    /// The negotiation after a counter-offer at `at`.
    pub open spec fn countered(self, at: Timestamp) -> Negotiation {
        Negotiation { status: NegotiationStatus::Negotiating, updated_at: at, ..self }
    }

    /// The negotiation after its quote was withdrawn at `at`.
    pub open spec fn unquoted(self, at: Timestamp) -> Negotiation {
        Negotiation { quote_id: None, updated_at: at, ..self }
    }

    /// The negotiation after it was accepted at `final_price` at `at`.
    pub open spec fn accepted(self, final_price: Amount, at: Timestamp) -> Negotiation {
        Negotiation {
            close_price: Some(final_price),
            delta: Some((final_price - self.opening_bid) as i128),
            status: NegotiationStatus::Accepted,
            updated_at: at,
            ..self
        }
    }

    /// The negotiation after it was accepted at `final_price` and settled, the
    /// latter at `at`.
    pub open spec fn closed(self, final_price: Amount, at: Timestamp) -> Negotiation {
        self.accepted(final_price, at).moved(NegotiationStatus::Settled, at)
    }

    /// The negotiation after it moved to `status` at `at`, nothing else
    /// changed.
    pub open spec fn moved(self, status: NegotiationStatus, at: Timestamp) -> Negotiation {
        Negotiation { status, updated_at: at, ..self }
    }

    /// Whether `r` is the verdict on attaching `quote` at `at`. A second
    /// quote while the first is attached is a conflict, whatever the quote
    /// holds; then an expired quote is refused, and a quote in a state that
    /// takes none.
    pub open spec fn attach_verdict<T>(
        &self,
        quote: &Quote,
        at: Timestamp,
        r: Result<T, NegotiationError>,
    ) -> bool {
        if self.quote_id is Some {
            conflict_error(r, "Quote already exists for this negotiation"@)
        } else if quote.expired_at(at) {
            r == Err::<T, NegotiationError>(NegotiationError::QuoteExpired)
        } else if !self.can_attach() {
            conflict_error(r, "Cannot attach quote in current state"@)
        } else {
            r is Ok
        }
    }

    /// Attaches a quote as of `at` and moves to `Quoted`. A second quote is
    /// always a conflict, and an expired quote is never attached.
    pub fn add_quote_at(&mut self, quote: &Quote, at: Timestamp) -> (r: Result<
        (),
        NegotiationError,
    >)
        ensures
            old(self).attach_verdict(quote, at, r),
            old(self).quote_id is Some ==> conflict_error(
                r,
                "Quote already exists for this negotiation"@,
            ),
            r is Ok <==> !quote.expired_at(at) && old(self).can_attach(),
            r is Ok ==> *final(self) == old(self).quoted(quote.id, at),
            r is Err ==> *final(self) == *old(self),
    {
        if self.quote_id.is_some() {
            return Err(
                NegotiationError::Negotiation(
                    String::from_str("Quote already exists for this negotiation"),
                ),
            );
        }
        if quote.is_expired_at(at) {
            return Err(NegotiationError::QuoteExpired);
        }
        match self.status {
            NegotiationStatus::Pending | NegotiationStatus::Negotiating => {},
            _ => {
                return Err(
                    NegotiationError::Negotiation(
                        String::from_str("Cannot attach quote in current state"),
                    ),
                );
            },
        }
        self.quote_id = Some(quote.id);
        self.status = NegotiationStatus::Quoted;
        self.updated_at = at;
        Ok(())
    }

    /// Attaches a quote as of now and moves to `Quoted`: with the verdict of
    /// some instant, which is the time of the change.
    pub fn add_quote(&mut self, quote: &Quote) -> (r: Result<(), NegotiationError>)
        ensures
            exists|at: Timestamp|
                0 <= at < CLOCK_LIMIT && old(self).attach_verdict(quote, at, r) && (r is Ok ==> *final(self) == old(self).quoted(quote.id, at)),
            r is Ok ==> old(self).can_attach(),
            r is Err ==> *final(self) == *old(self),
    {
        let at = now();
        let r = self.add_quote_at(quote, at);
        proof {
            assert(old(self).attach_verdict(quote, at, r) && (r is Ok ==> *final(self) == old(self).quoted(quote.id, at)));
        }
        r
    }

    /// Whether `r` is the verdict on replacing the quote by `quote` at `at`.
    /// An expired quote is refused before anything else; a quote is replaced
    /// only while counter-offers are exchanged.
    pub open spec fn replace_verdict<T>(
        &self,
        quote: &Quote,
        at: Timestamp,
        r: Result<T, NegotiationError>,
    ) -> bool {
        if quote.expired_at(at) {
            r == Err::<T, NegotiationError>(NegotiationError::QuoteExpired)
        } else if !(self.status is Negotiating) {
            conflict_error(r, "Cannot clear quote in current state"@)
        } else {
            r is Ok
        }
    }

    /// Withdraws the quote that stood and attaches `quote` in its place, as of
    /// `at`: the answer to a counter-offer. The negotiation is `Quoted` again.
    pub fn replace_quote_at(&mut self, quote: &Quote, at: Timestamp) -> (r: Result<
        (),
        NegotiationError,
    >)
        ensures
            old(self).replace_verdict(quote, at, r),
            r is Ok <==> !quote.expired_at(at) && old(self).status is Negotiating,
            r is Ok ==> *final(self) == old(self).quoted(quote.id, at),
            r is Err ==> *final(self) == *old(self),
    {
        if quote.is_expired_at(at) {
            return Err(NegotiationError::QuoteExpired);
        }
        match self.status {
            NegotiationStatus::Negotiating => {},
            _ => {
                return Err(
                    NegotiationError::Negotiation(
                        String::from_str("Cannot clear quote in current state"),
                    ),
                );
            },
        }
        self.quote_id = Some(quote.id);
        self.status = NegotiationStatus::Quoted;
        self.updated_at = at;
        Ok(())
    }

    /// Replaces the quote as of now: with the verdict of some instant, which
    /// is the time of the change.
    pub fn replace_quote(&mut self, quote: &Quote) -> (r: Result<(), NegotiationError>)
        ensures
            exists|at: Timestamp|
                0 <= at < CLOCK_LIMIT && old(self).replace_verdict(quote, at, r) && (r is Ok ==> *final(self) == old(self).quoted(quote.id, at)),
            r is Ok ==> old(self).status is Negotiating,
            r is Err ==> *final(self) == *old(self),
    {
        let at = now();
        let r = self.replace_quote_at(quote, at);
        proof {
            assert(old(self).replace_verdict(quote, at, r) && (r is Ok ==> *final(self) == old(self).quoted(quote.id, at)));
        }
        r
    }

    /// Records a counter-offer of the buyer and moves to `Negotiating`. The
    /// negotiation must be open and the offer strictly below the opening bid.
    pub fn counter(&mut self, offer: Amount) -> (r: Result<(), NegotiationError>)
        ensures
            r is Ok <==> old(self).status.is_open() && offer < old(self).opening_bid,
            r is Ok ==> *final(self) == old(self).countered(final(self).updated_at),
            r is Ok ==> 0 <= final(self).updated_at < CLOCK_LIMIT,
            r is Err ==> *final(self) == *old(self),
            !old(self).status.is_open() ==> conflict_error(
                r,
                "Cannot counter negotiation in current state"@,
            ),
            old(self).status.is_open() && offer >= old(self).opening_bid ==> validation_error(
                r,
                "Counter offer must be less than opening bid"@,
            ),
    {
        if !self.status.open() {
            return Err(
                NegotiationError::Negotiation(
                    String::from_str("Cannot counter negotiation in current state"),
                ),
            );
        }
        if offer >= self.opening_bid {
            return Err(
                NegotiationError::Validation(
                    String::from_str("Counter offer must be less than opening bid"),
                ),
            );
        }
        self.status = NegotiationStatus::Negotiating;
        self.updated_at = now();
        Ok(())
    }

    /// Withdraws the attached quote so that the seller can quote again. Legal
    /// only while counter-offers are exchanged.
    pub fn clear_quote(&mut self) -> (r: Result<(), NegotiationError>)
        ensures
            r is Ok <==> old(self).status is Negotiating,
            r is Ok ==> *final(self) == old(self).unquoted(final(self).updated_at),
            r is Ok ==> 0 <= final(self).updated_at < CLOCK_LIMIT,
            r is Err ==> *final(self) == *old(self),
            r is Err ==> conflict_error(r, "Cannot clear quote in current state"@),
    {
        match self.status {
            NegotiationStatus::Negotiating => {},
            _ => {
                return Err(
                    NegotiationError::Negotiation(
                        String::from_str("Cannot clear quote in current state"),
                    ),
                );
            },
        }
        self.quote_id = None;
        self.updated_at = now();
        Ok(())
    }

    /// Accepts the deal at `final_price`: records the close price and its
    /// distance from the opening bid, and moves to `Accepted`.
    pub fn accept(&mut self, final_price: Amount) -> (r: Result<(), NegotiationError>)
        ensures
            r is Ok <==> old(self).status.is_open(),
            r is Ok ==> *final(self) == old(self).accepted(final_price, final(self).updated_at),
            r is Ok ==> 0 <= final(self).updated_at < CLOCK_LIMIT,
            r is Err ==> *final(self) == *old(self),
            r is Err ==> conflict_error(r, "Cannot accept negotiation in current state"@),
    {
        if !self.status.open() {
            return Err(
                NegotiationError::Negotiation(
                    String::from_str("Cannot accept negotiation in current state"),
                ),
            );
        }
        self.close_price = Some(final_price);
        self.delta = Some(final_price as i128 - self.opening_bid as i128);
        self.status = NegotiationStatus::Accepted;
        self.updated_at = now();
        Ok(())
    }

    /// Rejects the deal and moves to `Rejected`.
    pub fn reject(&mut self) -> (r: Result<(), NegotiationError>)
        ensures
            r is Ok <==> old(self).status.is_open(),
            r is Ok ==> *final(self) == old(self).moved(
                NegotiationStatus::Rejected,
                final(self).updated_at,
            ),
            r is Ok ==> 0 <= final(self).updated_at < CLOCK_LIMIT,
            r is Err ==> *final(self) == *old(self),
            r is Err ==> conflict_error(r, "Cannot reject negotiation in current state"@),
    {
        if !self.status.open() {
            return Err(
                NegotiationError::Negotiation(
                    String::from_str("Cannot reject negotiation in current state"),
                ),
            );
        }
        self.status = NegotiationStatus::Rejected;
        self.updated_at = now();
        Ok(())
    }

    /// Marks an open negotiation whose quote or deadline has lapsed as
    /// `Expired`.
    pub fn expire(&mut self) -> (r: Result<(), NegotiationError>)
        ensures
            r is Ok <==> old(self).status.is_open(),
            r is Ok ==> *final(self) == old(self).moved(
                NegotiationStatus::Expired,
                final(self).updated_at,
            ),
            r is Ok ==> 0 <= final(self).updated_at < CLOCK_LIMIT,
            r is Err ==> *final(self) == *old(self),
            r is Err ==> conflict_error(r, "Cannot expire negotiation in current state"@),
    {
        if !self.status.open() {
            return Err(
                NegotiationError::Negotiation(
                    String::from_str("Cannot expire negotiation in current state"),
                ),
            );
        }
        self.status = NegotiationStatus::Expired;
        self.updated_at = now();
        Ok(())
    }

    /// Marks an accepted negotiation as `Settled`. A second call is refused,
    /// so that no deal is paid twice.
    pub fn settle(&mut self) -> (r: Result<(), NegotiationError>)
        ensures
            r is Ok <==> old(self).status is Accepted,
            r is Ok ==> *final(self) == old(self).moved(
                NegotiationStatus::Settled,
                final(self).updated_at,
            ),
            r is Ok ==> 0 <= final(self).updated_at < CLOCK_LIMIT,
            r is Ok && old(self).wf() ==> final(self).close_price is Some && final(self).delta
                is Some,
            r is Err ==> *final(self) == *old(self),
            r is Err ==> conflict_error(r, "Cannot settle unaccepted negotiation"@),
    {
        match self.status {
            NegotiationStatus::Accepted => {},
            _ => {
                return Err(
                    NegotiationError::Negotiation(
                        String::from_str("Cannot settle unaccepted negotiation"),
                    ),
                );
            },
        }
        self.status = NegotiationStatus::Settled;
        self.updated_at = now();
        Ok(())
    }

    /// Seconds between creation and the last change, zero where the clock
    /// went backwards, `u64::MAX` at most.
    pub open spec fn duration(&self) -> int {
        if self.updated_at >= self.created_at {
            self.updated_at - self.created_at
        } else {
            0
        }
    }

    /// The number of messages, `u32::MAX` at most.
    pub open spec fn message_count(&self) -> int {
        if self.messages@.len() <= u32::MAX {
            self.messages@.len() as int
        } else {
            u32::MAX as int
        }
    }

    /// The audit record, available once the negotiation holds a close price
    /// and a delta.
    pub fn to_record(&self) -> (rec: Option<NegotiationRecord>)
        ensures
            rec is Some <==> self.close_price is Some && self.delta is Some,
            rec matches Some(record) ==> {
                &&& record.buyer_id == self.buyer_id
                &&& record.seller_id == self.seller_id
                &&& record.product_hash@ == self.product_id@
                &&& record.opening_bid == self.opening_bid
                &&& Some(record.close_price) == self.close_price
                &&& Some(record.delta) == self.delta
                &&& record.timestamp == self.created_at
                &&& record.duration_seconds == self.duration()
                &&& record.message_count == self.message_count()
            },
    {
        match (self.close_price, self.delta) {
            (Some(close_price), Some(delta)) => {
                let duration_seconds: u64 = if self.updated_at >= self.created_at {
                    (self.updated_at as i128 - self.created_at as i128) as u64
                } else {
                    0
                };
                let message_count: u32 = if self.messages.len() <= u32::MAX as usize {
                    self.messages.len() as u32
                } else {
                    u32::MAX
                };
                Some(
                    NegotiationRecord {
                        buyer_id: self.buyer_id,
                        seller_id: self.seller_id,
                        product_hash: self.product_id.clone(),
                        opening_bid: self.opening_bid,
                        close_price,
                        delta,
                        timestamp: self.created_at,
                        duration_seconds,
                        message_count,
                    },
                )
            },
            _ => None,
        }
    }
}

impl Product {
    /// Whether the product reads as `other` does, field by field.
    pub open spec fn same_as(&self, other: &Product) -> bool {
        &&& self.id@ == other.id@
        &&& self.name@ == other.name@
        &&& self.description@ == other.description@
        &&& self.category@ == other.category@
        &&& self.base_price == other.base_price
        &&& self.currency@ == other.currency@
        &&& self.stock_quantity == other.stock_quantity
        &&& self.metadata@ == other.metadata@
    }

    /// A copy of the product.
    pub fn duplicate(&self) -> (copy: Product)
        ensures
            copy.same_as(self),
    {
        Product {
            id: self.id.clone(),
            name: self.name.clone(),
            description: self.description.clone(),
            category: self.category.clone(),
            base_price: self.base_price,
            currency: self.currency.clone(),
            stock_quantity: self.stock_quantity,
            metadata: self.metadata.clone(),
        }
    }
}

impl AgentType {
    /// The name under which the durable store keeps the side.
    pub open spec fn label_text(self) -> Seq<char> {
        match self {
            AgentType::Buyer => "Buyer"@,
            AgentType::Seller => "Seller"@,
        }
    }

    /// The side that the durable store keeps under a name, if it is one.
    pub open spec fn of_label(label: Seq<char>) -> Option<AgentType> {
        if label == "Buyer"@ {
            Some(AgentType::Buyer)
        } else if label == "Seller"@ {
            Some(AgentType::Seller)
        } else {
            None
        }
    }

    /// The name under which the durable store keeps the side.
    pub fn label(&self) -> (s: &'static str)
        ensures
            s@ == self.label_text(),
    {
        match self {
            AgentType::Buyer => "Buyer",
            AgentType::Seller => "Seller",
        }
    }

    /// Reads a side as the durable store keeps it. Any other name is refused.
    pub fn from_label(label: &str) -> (r: Result<AgentType, NegotiationError>)
        ensures
            match AgentType::of_label(label@) {
                Some(side) => r == Ok::<AgentType, NegotiationError>(side),
                None => validation_error(r, "Invalid agent type"@),
            },
    {
        if same_text(label, "Buyer") {
            Ok(AgentType::Buyer)
        } else if same_text(label, "Seller") {
            Ok(AgentType::Seller)
        } else {
            Err(NegotiationError::Validation(String::from_str("Invalid agent type")))
        }
    }
}

impl NegotiationStatus {
    /// The name under which the durable store keeps the status.
    pub open spec fn label_text(self) -> Seq<char> {
        match self {
            NegotiationStatus::Pending => "pending"@,
            NegotiationStatus::Quoted => "quoted"@,
            NegotiationStatus::Negotiating => "negotiating"@,
            NegotiationStatus::Accepted => "accepted"@,
            NegotiationStatus::Rejected => "rejected"@,
            NegotiationStatus::Expired => "expired"@,
            NegotiationStatus::Settled => "settled"@,
        }
    }

    /// The status that the durable store keeps under a name, if it is one.
    pub open spec fn of_label(label: Seq<char>) -> Option<NegotiationStatus> {
        if label == "pending"@ {
            Some(NegotiationStatus::Pending)
        } else if label == "quoted"@ {
            Some(NegotiationStatus::Quoted)
        } else if label == "negotiating"@ {
            Some(NegotiationStatus::Negotiating)
        } else if label == "accepted"@ {
            Some(NegotiationStatus::Accepted)
        } else if label == "rejected"@ {
            Some(NegotiationStatus::Rejected)
        } else if label == "expired"@ {
            Some(NegotiationStatus::Expired)
        } else if label == "settled"@ {
            Some(NegotiationStatus::Settled)
        } else {
            None
        }
    }

    /// The name under which the durable store keeps the status.
    pub fn label(&self) -> (s: &'static str)
        ensures
            s@ == self.label_text(),
    {
        match self {
            NegotiationStatus::Pending => "pending",
            NegotiationStatus::Quoted => "quoted",
            NegotiationStatus::Negotiating => "negotiating",
            NegotiationStatus::Accepted => "accepted",
            NegotiationStatus::Rejected => "rejected",
            NegotiationStatus::Expired => "expired",
            NegotiationStatus::Settled => "settled",
        }
    }

    /// Reads a status as the durable store keeps it. Any other name is
    /// refused.
    pub fn from_label(label: &str) -> (r: Result<NegotiationStatus, NegotiationError>)
        ensures
            match NegotiationStatus::of_label(label@) {
                Some(status) => r == Ok::<NegotiationStatus, NegotiationError>(status),
                None => validation_error(r, "Invalid negotiation status"@),
            },
    {
        if same_text(label, "pending") {
            Ok(NegotiationStatus::Pending)
        } else if same_text(label, "quoted") {
            Ok(NegotiationStatus::Quoted)
        } else if same_text(label, "negotiating") {
            Ok(NegotiationStatus::Negotiating)
        } else if same_text(label, "accepted") {
            Ok(NegotiationStatus::Accepted)
        } else if same_text(label, "rejected") {
            Ok(NegotiationStatus::Rejected)
        } else if same_text(label, "expired") {
            Ok(NegotiationStatus::Expired)
        } else if same_text(label, "settled") {
            Ok(NegotiationStatus::Settled)
        } else {
            Err(NegotiationError::Validation(String::from_str("Invalid negotiation status")))
        }
    }
}

/// Reading back the name of a status gives the status.
pub proof fn law_status_labels_read_back(status: NegotiationStatus)
    ensures
        NegotiationStatus::of_label(status.label_text()) == Some(status),
{
    reveal_strlit("pending");
    reveal_strlit("quoted");
    reveal_strlit("negotiating");
    reveal_strlit("accepted");
    reveal_strlit("rejected");
    reveal_strlit("expired");
    reveal_strlit("settled");
    assert("pending"@.len() == 7 && "quoted"@.len() == 6 && "negotiating"@.len() == 11);
    assert("accepted"@[0] == 'a' && "rejected"@[0] == 'r' && "expired"@[0] == 'e' && "settled"@[0]
        == 's' && "pending"@[0] == 'p' && "quoted"@[0] == 'q' && "negotiating"@[0] == 'n');
}

/// A quote stands up to and including its expiry, and is expired from the
/// next second on.
pub proof fn law_quote_expires_after_ttl(quote: Quote, at: Timestamp)
    ensures
        quote.expired_at(at) <==> at > quote.created_at + quote.ttl_seconds,
        at == quote.created_at + quote.ttl_seconds - 1 ==> !quote.expired_at(at),
        at == quote.created_at + quote.ttl_seconds ==> !quote.expired_at(at),
        at == quote.created_at + quote.ttl_seconds + 1 ==> quote.expired_at(at),
{
}

/// Every transition that succeeds follows an edge of the state machine, and
/// one that fails leaves the negotiation as it was: stated here of the states
/// that the transitions' contracts name.
pub proof fn law_transitions_follow_edges(
    n: Negotiation,
    quote_id: TransactionId,
    final_price: Amount,
    at: Timestamp,
)
    ensures
        n.can_attach() ==> n.status.legal_edge(n.quoted(quote_id, at).status),
        n.status.is_open() ==> n.status.legal_edge(n.countered(at).status),
        n.status is Negotiating ==> n.unquoted(at).status == n.status,
        n.status.is_open() ==> n.status.legal_edge(n.accepted(final_price, at).status),
        n.status.is_open() ==> n.status.legal_edge(n.moved(NegotiationStatus::Rejected, at).status),
        n.status.is_open() ==> n.status.legal_edge(n.moved(NegotiationStatus::Expired, at).status),
        n.status is Accepted ==> n.status.legal_edge(n.moved(NegotiationStatus::Settled, at).status),
{
}

/// No transition leaves a terminal state, and acceptance is refused in
/// `Pending` and in `Rejected`: none of the conditions under which a
/// transition succeeds holds there.
pub proof fn law_terminal_states_are_final(n: Negotiation)
    ensures
        n.status.is_terminal() ==> !n.can_attach() && !n.status.is_open() && !(n.status
            is Negotiating) && !(n.status is Accepted),
        n.status is Pending || n.status is Rejected ==> !n.status.is_open(),
        n.status.is_terminal() ==> forall|to: NegotiationStatus| !n.status.legal_edge(to),
{
}

/// Once a quote is attached, no second one can be: whatever the quotes hold
/// and whenever the second is offered, the verdict on it is the conflict.
pub proof fn law_second_quote_is_refused(
    n: Negotiation,
    first: TransactionId,
    at: Timestamp,
    second: Quote,
    later: Timestamp,
    r: Result<(), NegotiationError>,
)
    requires
        n.quoted(first, at).attach_verdict(&second, later, r),
    ensures
        !n.quoted(first, at).can_attach(),
        conflict_error(r, "Quote already exists for this negotiation"@),
{
}

/// After acceptance the delta is exactly the close price less the opening
/// bid, for every pair of prices.
pub proof fn law_delta_is_close_less_opening(n: Negotiation, final_price: Amount, at: Timestamp)
    ensures
        n.accepted(final_price, at).close_price == Some(final_price),
        n.accepted(final_price, at).delta matches Some(delta) && delta == final_price
            - n.opening_bid,
        n.accepted(final_price, at).opening_bid == n.opening_bid,
{
}

/// A negotiation with consistent closing data that is settled holds a close
/// price and a delta, so that its audit record is available.
pub proof fn law_settled_negotiation_has_a_record(n: Negotiation, at: Timestamp)
    requires
        n.wf(),
        n.status is Accepted,
    ensures
        n.moved(NegotiationStatus::Settled, at).close_price is Some,
        n.moved(NegotiationStatus::Settled, at).delta == Some(
            (n.close_price->Some_0 - n.opening_bid) as i128,
        ),
{
}

/// Every transition keeps the closing data consistent.
pub proof fn law_transitions_keep_wf(
    n: Negotiation,
    quote_id: TransactionId,
    final_price: Amount,
    at: Timestamp,
)
    requires
        n.wf(),
    ensures
        n.can_attach() ==> n.quoted(quote_id, at).wf(),
        n.status.is_open() ==> n.countered(at).wf(),
        n.status is Negotiating ==> n.unquoted(at).wf(),
        n.status.is_open() ==> n.accepted(final_price, at).wf(),
        n.status.is_open() ==> n.moved(NegotiationStatus::Rejected, at).wf(),
        n.status.is_open() ==> n.moved(NegotiationStatus::Expired, at).wf(),
        n.status is Accepted ==> n.moved(NegotiationStatus::Settled, at).wf(),
{
}

} // verus!
