//! The buyer's and the seller's side of a negotiation.

use std::collections::HashMap;
use vstd::prelude::*;
use vstd::std_specs::hash::*;
use vstd::std_specs::iter::IteratorSpec;
use vstd::string::*;

use crate::clock::{now, CLOCK_LIMIT};
use crate::error::NegotiationError;
use crate::ident::unused_identity;
use crate::model::{
    conflict_error, not_found_error, validation_error, AgentInfo, AgentType, Negotiation, NegotiationRecord,
    NegotiationStatus, PaymentMethod, Product, Quote, RFQ,
};
use crate::pricing::{dynamic_pricing, local_hour_at, local_hour_of_day, pricing_factor, Factor};
use crate::settlement::SettlementService;
use crate::trust::TrustSystem;
use crate::{AgentId, Amount, Timestamp, TransactionId};

verus! {

broadcast use vstd::std_specs::hash::group_hash_axioms;

/// The reputation below which a seller quotes no buyer.
pub const MIN_BUYER_REPUTATION: u32 = 50;

/// Seconds for which a first quote stands: one hour.
pub const QUOTE_TTL_SECONDS: u32 = 3600;

/// Seconds for which the answer to a counter-offer stands: 30 minutes.
pub const COUNTER_QUOTE_TTL_SECONDS: u32 = 1800;

/// The reputation that a seller claims when it registers.
pub const CLAIMED_REPUTATION: u32 = 100;

/// The public key of an agent. Agents have no key pair of their own yet:
/// every agent presents the same placeholder.
pub fn generate_public_key() -> (r: Result<String, NegotiationError>)
    ensures
        r matches Ok(key) && key@ == "mock_public_key_base64_encoded"@,
{
    Ok(String::from_str("mock_public_key_base64_encoded"))
}

/// How an agent reaches its language model.
#[derive(Debug, Clone)]
pub struct LLMConfig {
    pub model: String,
    pub api_key: String,
    pub max_tokens: u32,
    /// Sampling temperature in hundredths.
    pub temperature_hundredths: u32,
}

/// What a buyer agent is set up with.
#[derive(Debug)]
pub struct BuyerAgentConfig {
    pub agent_id: AgentId,
    pub name: String,
    pub endpoint: String,
    pub max_concurrent_negotiations: u32,
    /// Hours until the deadline of a new RFQ.
    pub default_ttl_hours: u32,
    pub llm_config: LLMConfig,
}

/// What a seller agent is set up with.
#[derive(Debug, Clone)]
pub struct SellerAgentConfig {
    pub agent_id: AgentId,
    pub name: String,
    pub endpoint: String,
    pub products: Vec<Product>,
    pub payment_methods: Vec<PaymentMethod>,
    pub llm_config: LLMConfig,
    /// By how many seconds the seller's local time is ahead of UTC. Business
    /// hours are those of the seller's local time.
    pub utc_offset_seconds: i32,
}

/// Whether no product of the catalog has the identity `product_id`.
pub open spec fn not_in_catalog(catalog: Seq<Product>, product_id: Seq<char>) -> bool {
    forall|i: int| 0 <= i < catalog.len() ==> (#[trigger] catalog[i]).id@ != product_id
}

/// Whether `index` is the place of the first product of the catalog with the
/// identity `product_id`.
pub open spec fn first_in_catalog(catalog: Seq<Product>, product_id: Seq<char>, index: int) -> bool {
    &&& 0 <= index < catalog.len()
    &&& catalog[index].id@ == product_id
    &&& not_in_catalog(catalog.take(index), product_id)
}

/// The place of the first product with the identity `product_id`, if there
/// is one.
pub open spec fn place_in_catalog(catalog: Seq<Product>, product_id: Seq<char>) -> Option<int> {
    if not_in_catalog(catalog, product_id) {
        None
    } else {
        Some(choose|index: int| first_in_catalog(catalog, product_id, index))
    }
}

/// The place of the first product with the identity `product_id`.
pub fn find_in_catalog(catalog: &Vec<Product>, product_id: &String) -> (found: Option<usize>)
    ensures
        match found {
            Some(index) => first_in_catalog(catalog@, product_id@, index as int)
                && place_in_catalog(catalog@, product_id@) == Some(index as int),
            None => not_in_catalog(catalog@, product_id@) && place_in_catalog(
                catalog@,
                product_id@,
            ) is None,
        },
{
    let mut i: usize = 0;
    while i < catalog.len()
        invariant
            i <= catalog@.len(),
            not_in_catalog(catalog@.take(i as int), product_id@),
        decreases catalog@.len() - i,
    {
        if catalog[i].id == *product_id {
            proof {
                lemma_first_is_unique(catalog@, product_id@, i as int);
            }
            return Some(i);
        }
        proof {
            assert forall|j: int| 0 <= j < i + 1 implies (#[trigger] catalog@.take(
                i + 1,
            )[j]).id@ != product_id@ by {
                if j < i {
                    assert(catalog@.take(i as int)[j] == catalog@[j]);
                }
            }
        }
        i += 1;
    }
    proof {
        assert(catalog@.take(i as int) =~= catalog@);
    }
    None
}

/// The price of `quantity` units at `unit_price` each for a buyer of the
/// given reputation at the local hour `hour`: the base price times the
/// pricing factor, rounded down.
pub open spec fn quoted_price(
    unit_price: Amount,
    quantity: u32,
    buyer_reputation: u32,
    hour: u32,
) -> int {
    pricing_factor(quantity, buyer_reputation, hour).scale(unit_price * quantity)
}

/// Whether `r` is the seller's answer at `at` to `rfq` for `product`, given
/// the buyer's reputation and how far the seller's local time is ahead of
/// UTC. The request is refused where it asks for more than is in stock, where
/// the buyer's reputation is below the minimum, and where the price does not
/// fit in an amount; the first of these that holds is reported. Else the
/// answer is a quote at the quoted price that stands for an hour.
pub open spec fn quote_verdict(
    seller_id: AgentId,
    product: &Product,
    rfq: &RFQ,
    buyer_reputation: u32,
    at: Timestamp,
    utc_offset_seconds: i32,
    r: Result<Quote, NegotiationError>,
) -> bool {
    let price = quoted_price(
        product.base_price,
        rfq.quantity,
        buyer_reputation,
        local_hour_at(at, utc_offset_seconds),
    );
    if rfq.quantity > product.stock_quantity {
        r == Err::<Quote, NegotiationError>(
            NegotiationError::InsufficientStock(product.stock_quantity),
        )
    } else if buyer_reputation < MIN_BUYER_REPUTATION {
        r == Err::<Quote, NegotiationError>(
            NegotiationError::InsufficientReputation(buyer_reputation),
        )
    } else if i64::MIN <= price <= i64::MAX {
        r matches Ok(quote) && quote.issued(
            rfq.id,
            seller_id,
            price as i64,
            product.currency@,
            rfq.quantity,
            QUOTE_TTL_SECONDS,
            at,
        )
    } else {
        validation_error(r, "Quoted price out of range"@)
    }
}

/// The seller's answer at `at` to `rfq` for `product`, given the buyer's
/// reputation and how far the seller's local time is ahead of UTC.
pub fn quote_for(
    seller_id: AgentId,
    product: &Product,
    rfq: &RFQ,
    buyer_reputation: u32,
    at: Timestamp,
    utc_offset_seconds: i32,
) -> (r: Result<Quote, NegotiationError>)
    ensures
        quote_verdict(seller_id, product, rfq, buyer_reputation, at, utc_offset_seconds, r),
{
    if rfq.quantity > product.stock_quantity {
        return Err(NegotiationError::InsufficientStock(product.stock_quantity));
    }
    if buyer_reputation < MIN_BUYER_REPUTATION {
        return Err(NegotiationError::InsufficientReputation(buyer_reputation));
    }
    assert(-0x8000_0000_0000_0000_0000_0000 <= product.base_price * rfq.quantity
        <= 0x8000_0000_0000_0000_0000_0000) by (nonlinear_arith)
        requires
            -0x8000_0000_0000_0000 <= product.base_price <= 0x8000_0000_0000_0000,
            0 <= rfq.quantity <= 0x1_0000_0000,
    ;
    let base_price: i128 = product.base_price as i128 * rfq.quantity as i128;
    let hour = local_hour_of_day(at, utc_offset_seconds);
    let factor = dynamic_pricing(rfq.quantity, buyer_reputation, hour);
    match factor.apply_wide(base_price) {
        Some(price) => Ok(
            Quote::issued_at(
                rfq.id,
                seller_id,
                price,
                product.currency.clone(),
                rfq.quantity,
                QUOTE_TTL_SECONDS,
                at,
            ),
        ),
        None => Err(NegotiationError::Validation(String::from_str("Quoted price out of range"))),
    }
}

/// Whether a counter-offer reaches the seller's floor, 80% of the opening
/// bid.
pub open spec fn reaches_floor(opening_bid: Amount, counter_offer: Amount) -> bool {
    counter_offer * 5 >= opening_bid * 4
}

/// The share of a counter-offer, in percent, at which the seller settles:
/// 95 for buyers with a reputation of 80 or more, 90 from 60 on, else 85.
pub open spec fn acceptance_percent(buyer_reputation: u32) -> u64 {
    if buyer_reputation >= 80 {
        95
    } else if buyer_reputation >= 60 {
        90
    } else {
        85
    }
}

/// The price at which the seller answers a counter-offer.
pub open spec fn counter_price(counter_offer: Amount, buyer_reputation: u32) -> int {
    (Factor { numerator: acceptance_percent(buyer_reputation), denominator: 100 }).scale(
        counter_offer as int,
    )
}

/// The seller's verdict on a counter-offer to an opening bid from a buyer of
/// the given reputation: the price of the fresh quote, or a refusal of an
/// offer below the floor.
pub fn evaluate_counter_offer(opening_bid: Amount, counter_offer: Amount, buyer_reputation: u32) -> (r:
    Result<Amount, NegotiationError>)
    ensures
        r is Ok <==> reaches_floor(opening_bid, counter_offer),
        r matches Ok(price) ==> price == counter_price(counter_offer, buyer_reputation),
        r matches Ok(price) ==> (counter_offer >= 0 ==> 0 <= price <= counter_offer),
        r is Ok && opening_bid > 0 ==> counter_offer > 0,
        r is Err ==> conflict_error(r, "Counter offer too low"@),
{
    if (counter_offer as i128) * 5 < (opening_bid as i128) * 4 {
        return Err(NegotiationError::Negotiation(String::from_str("Counter offer too low")));
    }
    let percent: u64 = if buyer_reputation >= 80 {
        95
    } else if buyer_reputation >= 60 {
        90
    } else {
        85
    };
    let factor = Factor::percent(percent);
    proof {
        lemma_share_is_no_larger(counter_offer as int, percent as int);
    }
    match factor.apply(counter_offer) {
        Some(price) => Ok(price),
        None => {
            assert(false);
            Ok(counter_offer)
        },
    }
}

/// A share of at most 100 percent of an amount, rounded down, lies between
/// the amount and zero.
proof fn lemma_share_is_no_larger(amount: int, percent: int)
    requires
        0 <= percent <= 100,
    ensures
        amount >= 0 ==> 0 <= (amount * percent) / 100 <= amount,
        amount < 0 ==> amount <= (amount * percent) / 100 <= 0,
{
    let product = amount * percent;
    if amount >= 0 {
        assert(0 <= product <= amount * 100) by (nonlinear_arith)
            requires
                product == amount * percent,
                amount >= 0,
                0 <= percent <= 100,
        ;
    } else {
        assert(amount * 100 <= product <= 0) by (nonlinear_arith)
            requires
                product == amount * percent,
                amount < 0,
                0 <= percent <= 100,
        ;
    }
}

/// A seller: its catalog and its view of the buyers' reputation.
pub struct SellerAgent {
    config: SellerAgentConfig,
    trust: TrustSystem,
}

impl SellerAgent {
    /// What the seller is set up with.
    pub closed spec fn config(&self) -> SellerAgentConfig {
        self.config
    }

    /// The seller's reputation engine.
    pub closed spec fn trust(&self) -> TrustSystem {
        self.trust
    }

    /// A seller with the given catalog and reputation engine.
    pub fn new(config: SellerAgentConfig, trust: TrustSystem) -> (r: Result<
        Self,
        NegotiationError,
    >)
        ensures
            r matches Ok(seller) && seller.config() == config && seller.trust() == trust,
    {
        Ok(SellerAgent { config, trust })
    }

    /// What the seller tells the registry of itself: its identity, name,
    /// endpoint and public key, its catalog and payment methods, and the
    /// reputation that it claims. Both timestamps are the current time.
    pub fn registration(&self) -> (r: Result<AgentInfo, NegotiationError>)
        ensures
            r matches Ok(info) && {
                &&& info.id == self.config().agent_id
                &&& info.agent_type is Seller
                &&& info.name@ == self.config().name@
                &&& info.endpoint@ == self.config().endpoint@
                &&& info.public_key@ == "mock_public_key_base64_encoded"@
                &&& info.reputation_score == CLAIMED_REPUTATION
                &&& info.products@.len() == self.config().products@.len()
                &&& forall|i: int|
                    0 <= i < info.products@.len() ==> (#[trigger] info.products@[i]).same_as(
                        &self.config().products@[i],
                    )
                &&& info.payment_methods@ == self.config().payment_methods@
                &&& info.created_at == info.last_active
                &&& 0 <= info.created_at < CLOCK_LIMIT
            },
    {
        let mut products: Vec<Product> = Vec::new();
        let mut i: usize = 0;
        while i < self.config.products.len()
            invariant
                i <= self.config.products@.len(),
                products@.len() == i,
                forall|j: int|
                    0 <= j < i ==> (#[trigger] products@[j]).same_as(&self.config.products@[j]),
            decreases self.config.products@.len() - i,
        {
            products.push(self.config.products[i].duplicate());
            i += 1;
        }
        let mut payment_methods: Vec<PaymentMethod> = Vec::new();
        let mut k: usize = 0;
        while k < self.config.payment_methods.len()
            invariant
                k <= self.config.payment_methods@.len(),
                payment_methods@ == self.config.payment_methods@.take(k as int),
            decreases self.config.payment_methods@.len() - k,
        {
            payment_methods.push(self.config.payment_methods[k]);
            proof {
                assert(payment_methods@ =~= self.config.payment_methods@.take(k + 1));
            }
            k += 1;
        }
        proof {
            assert(self.config.payment_methods@.take(k as int) =~= self.config.payment_methods@);
        }
        let public_key = match generate_public_key() {
            Ok(key) => key,
            Err(e) => { return Err(e); },
        };
        let at = now();
        Ok(
            AgentInfo {
                id: self.config.agent_id,
                agent_type: AgentType::Seller,
                name: self.config.name.clone(),
                endpoint: self.config.endpoint.clone(),
                public_key,
                reputation_score: CLAIMED_REPUTATION,
                products,
                payment_methods,
                created_at: at,
                last_active: at,
            },
        )
    }

    /// Whether `r` is the seller's answer to `rfq` as of `at`: an unknown
    /// product is reported before anything else; else the first product of
    /// the identity is quoted to a buyer of the reputation served at `at`.
    pub open spec fn answers_rfq(
        &self,
        rfq: &RFQ,
        at: Timestamp,
        r: Result<Quote, NegotiationError>,
    ) -> bool {
        match place_in_catalog(self.config().products@, rfq.product_id@) {
            None => r matches Err(NegotiationError::ProductNotFound(m)) && m@ == rfq.product_id@,
            Some(index) => quote_verdict(
                self.config().agent_id,
                &self.config().products@[index],
                rfq,
                self.trust().score_at(rfq.buyer_id, at),
                at,
                self.config().utc_offset_seconds,
                r,
            ),
        }
    }

    /// Answers `rfq` as of `at`: looks the product up in the catalog, reads
    /// the buyer's reputation, and quotes.
    pub fn handle_rfq_at(&self, rfq: &RFQ, at: Timestamp) -> (r: Result<Quote, NegotiationError>)
        ensures
            self.answers_rfq(rfq, at, r),
    {
        match find_in_catalog(&self.config.products, &rfq.product_id) {
            Some(index) => {
                let product = &self.config.products[index];
                let buyer_reputation = self.trust.get_reputation_at(rfq.buyer_id, at);
                quote_for(
                    self.config.agent_id,
                    product,
                    rfq,
                    buyer_reputation,
                    at,
                    self.config.utc_offset_seconds,
                )
            },
            None => Err(NegotiationError::ProductNotFound(rfq.product_id.clone())),
        }
    }

    /// Answers `rfq` as of now: with the answer of some instant.
    pub fn handle_rfq(&mut self, rfq: RFQ) -> (r: Result<Quote, NegotiationError>)
        ensures
            final(self).config() == old(self).config(),
            final(self).trust() == old(self).trust(),
            exists|at: Timestamp| 0 <= at < CLOCK_LIMIT && old(self).answers_rfq(&rfq, at, r),
    {
        let at = now();
        let r = self.handle_rfq_at(&rfq, at);
        proof {
            assert(old(self).answers_rfq(&rfq, at, r));
        }
        r
    }

    /// The hour of the seller's local time at `at`.
    pub open spec fn local_hour(&self, at: Timestamp) -> u32 {
        local_hour_at(at, self.config().utc_offset_seconds)
    }

    /// The pricing factor of an answer to `rfq` at `at` for a buyer of the
    /// given reputation. The surcharge of business hours goes by the seller's
    /// local time.
    pub fn calculate_dynamic_pricing_at(&self, rfq: &RFQ, buyer_reputation: u32, at: Timestamp) -> (r:
        Result<Factor, NegotiationError>)
        ensures
            r matches Ok(f) && f == pricing_factor(
                rfq.quantity,
                buyer_reputation,
                self.local_hour(at),
            ) && f.wf(),
    {
        let hour = local_hour_of_day(at, self.config.utc_offset_seconds);
        Ok(dynamic_pricing(rfq.quantity, buyer_reputation, hour))
    }

    /// The pricing factor of an answer to `rfq` now.
    pub fn calculate_dynamic_pricing(&self, rfq: &RFQ, buyer_reputation: u32) -> (r: Result<
        Factor,
        NegotiationError,
    >)
        ensures
            r matches Ok(f) && f.wf() && exists|at: Timestamp|
                0 <= at < CLOCK_LIMIT && f == pricing_factor(
                    rfq.quantity,
                    buyer_reputation,
                    self.local_hour(at),
                ),
    {
        let at = now();
        self.calculate_dynamic_pricing_at(rfq, buyer_reputation, at)
    }

    /// Whether `r` is the seller's answer as of `at` to a counter-offer in
    /// `negotiation`: a fresh quote at the counter price that stands for 30
    /// minutes. The seller does not negotiate with itself, sells only what is
    /// in its catalog, and refuses an offer below its floor; the first of
    /// these that holds is reported.
    pub open spec fn answers_counter(
        &self,
        negotiation: &Negotiation,
        counter_offer: Amount,
        at: Timestamp,
        r: Result<Quote, NegotiationError>,
    ) -> bool {
        if negotiation.buyer_id == self.config().agent_id {
            r matches Err(NegotiationError::Auth(m)) && m@ == "Unauthorized negotiation"@
        } else {
            match place_in_catalog(self.config().products@, negotiation.product_id@) {
                None => r matches Err(NegotiationError::ProductNotFound(m)) && m@
                    == negotiation.product_id@,
                Some(index) => if reaches_floor(negotiation.opening_bid, counter_offer) {
                    r matches Ok(quote) && quote.issued(
                        negotiation.rfq_id,
                        self.config().agent_id,
                        counter_price(
                            counter_offer,
                            self.trust().score_at(negotiation.buyer_id, at),
                        ) as i64,
                        self.config().products@[index].currency@,
                        negotiation.quantity,
                        COUNTER_QUOTE_TTL_SECONDS,
                        at,
                    )
                } else {
                    conflict_error(r, "Counter offer too low"@)
                },
            }
        }
    }

    /// Answers a counter-offer in `negotiation` as of `at`.
    pub fn handle_negotiation_at(
        &self,
        negotiation: &Negotiation,
        counter_offer: Amount,
        at: Timestamp,
    ) -> (r: Result<Quote, NegotiationError>)
        ensures
            self.answers_counter(negotiation, counter_offer, at, r),
    {
        if negotiation.buyer_id == self.config.agent_id {
            return Err(NegotiationError::Auth(String::from_str("Unauthorized negotiation")));
        }
        match find_in_catalog(&self.config.products, &negotiation.product_id) {
            Some(index) => {
                let product = &self.config.products[index];
                let buyer_reputation = self.trust.get_reputation_at(negotiation.buyer_id, at);
                match evaluate_counter_offer(
                    negotiation.opening_bid,
                    counter_offer,
                    buyer_reputation,
                ) {
                    Ok(price) => Ok(
                        Quote::issued_at(
                            negotiation.rfq_id,
                            self.config.agent_id,
                            price,
                            product.currency.clone(),
                            negotiation.quantity,
                            COUNTER_QUOTE_TTL_SECONDS,
                            at,
                        ),
                    ),
                    Err(e) => Err(e),
                }
            },
            None => Err(NegotiationError::ProductNotFound(negotiation.product_id.clone())),
        }
    }

    /// Answers a counter-offer in `negotiation` as of now: with the answer of
    /// some instant.
    pub fn handle_negotiation(&self, negotiation: &Negotiation, counter_offer: Amount) -> (r:
        Result<Quote, NegotiationError>)
        ensures
            exists|at: Timestamp|
                0 <= at < CLOCK_LIMIT && self.answers_counter(negotiation, counter_offer, at, r),
    {
        let at = now();
        let r = self.handle_negotiation_at(negotiation, counter_offer, at);
        proof {
            assert(self.answers_counter(negotiation, counter_offer, at, r));
        }
        r
    }

    /// Whether the seller answers a counter-offer in `negotiation` with a
    /// quote: the buyer is not the seller itself, the product is in the
    /// catalog, and the offer reaches the floor.
    pub open spec fn would_quote(&self, negotiation: &Negotiation, counter_offer: Amount) -> bool {
        &&& negotiation.buyer_id != self.config().agent_id
        &&& place_in_catalog(self.config().products@, negotiation.product_id@) is Some
        &&& reaches_floor(negotiation.opening_bid, counter_offer)
    }

    /// Whether `r` is what answering a counter-offer on the seller's own copy
    /// of the negotiation returns as of `at`. Where the seller has no quote
    /// for the offer, its refusal is returned; then an offer in a negotiation
    /// that is not open is refused, and an offer that is not below the opening
    /// bid; else the fresh quote is returned.
    pub open spec fn counter_answer(
        &self,
        negotiation: &Negotiation,
        counter_offer: Amount,
        at: Timestamp,
        r: Result<Quote, NegotiationError>,
    ) -> bool {
        if !self.would_quote(negotiation, counter_offer) {
            r is Err && self.answers_counter(negotiation, counter_offer, at, r)
        } else if !negotiation.status.is_open() {
            conflict_error(r, "Cannot counter negotiation in current state"@)
        } else if counter_offer >= negotiation.opening_bid {
            validation_error(r, "Counter offer must be less than opening bid"@)
        } else {
            r is Ok && self.answers_counter(negotiation, counter_offer, at, r)
        }
    }

    /// Answers a counter-offer as of `at` and keeps the seller's own copy of
    /// the negotiation in step: the offer is recorded, the quote that stood is
    /// withdrawn and the fresh one attached, so that the negotiation is
    /// `Quoted` again. Where the offer is refused the copy is left as it was.
    pub fn negotiate_at(&self, negotiation: &mut Negotiation, counter_offer: Amount, at: Timestamp) -> (r:
        Result<Quote, NegotiationError>)
        ensures
            self.counter_answer(old(negotiation), counter_offer, at, r),
            r matches Ok(quote) ==> *final(negotiation) == old(negotiation).quoted(quote.id, at),
            r is Err ==> *final(negotiation) == *old(negotiation),
    {
        let quote = match self.handle_negotiation_at(negotiation, counter_offer, at) {
            Ok(quote) => quote,
            Err(e) => {
                return Err(e);
            },
        };
        if !negotiation.status.open() {
            return Err(
                NegotiationError::Negotiation(
                    String::from_str("Cannot counter negotiation in current state"),
                ),
            );
        }
        if counter_offer >= negotiation.opening_bid {
            return Err(
                NegotiationError::Validation(
                    String::from_str("Counter offer must be less than opening bid"),
                ),
            );
        }
        let _ = negotiation.counter(counter_offer);
        let _ = negotiation.replace_quote_at(&quote, at);
        Ok(quote)
    }

    /// Answers a counter-offer as of now and keeps the seller's own copy of
    /// the negotiation in step: with the answer of some instant, which is the
    /// time of the change.
    pub fn negotiate(&self, negotiation: &mut Negotiation, counter_offer: Amount) -> (r: Result<
        Quote,
        NegotiationError,
    >)
        ensures
            exists|at: Timestamp|
                0 <= at < CLOCK_LIMIT && self.counter_answer(old(negotiation), counter_offer, at, r) && (r matches Ok(
                    quote,
                ) ==> *final(negotiation) == old(negotiation).quoted(quote.id, at)),
            r is Err ==> *final(negotiation) == *old(negotiation),
    {
        let at = now();
        let r = self.negotiate_at(negotiation, counter_offer, at);
        proof {
            assert(self.counter_answer(old(negotiation), counter_offer, at, r) && (r matches Ok(
                quote,
            ) ==> *final(negotiation) == old(negotiation).quoted(quote.id, at)));
        }
        r
    }
}

/// What a rejected quote costs the seller.
pub const REJECTION_PENALTY: i32 = -2;

/// A buyer: the negotiations it owns, its reputation engine and its
/// settlement router. Every step that changes a negotiation takes the agent
/// by exclusive reference, so that one negotiation has one writer at a time.
pub struct BuyerAgent {
    config: BuyerAgentConfig,
    trust: TrustSystem,
    settlement: SettlementService,
    active_negotiations: HashMap<TransactionId, Negotiation>,
}

impl BuyerAgent {
    /// What the buyer is set up with.
    pub closed spec fn config(&self) -> BuyerAgentConfig {
        self.config
    }

    /// The buyer's reputation engine.
    pub closed spec fn trust(&self) -> TrustSystem {
        self.trust
    }

    /// The buyer's settlement router.
    pub closed spec fn settlement(&self) -> SettlementService {
        self.settlement
    }

    /// The buyer's negotiations, by their identity.
    pub closed spec fn negotiations(&self) -> Map<TransactionId, Negotiation> {
        self.active_negotiations@
    }

    /// Every negotiation is filed under its own identity and holds consistent
    /// closing data.
    pub open spec fn wf(&self) -> bool {
        forall|id: TransactionId| #[trigger]
            self.negotiations().contains_key(id) ==> self.negotiations()[id].id == id
                && self.negotiations()[id].wf()
    }

    /// Whether the agent is `before` but for its negotiations.
    pub open spec fn same_services(&self, before: &BuyerAgent) -> bool {
        &&& self.config() == before.config()
        &&& self.trust() == before.trust()
        &&& self.settlement() == before.settlement()
    }

    /// Whether the agent holds what `before` holds.
    pub open spec fn unchanged_from(&self, before: &BuyerAgent) -> bool {
        &&& self.same_services(before)
        &&& self.negotiations() == before.negotiations()
    }

    /// Whether the agent is `before` with the negotiation `id` replaced by
    /// `negotiation`, and nothing else changed.
    pub open spec fn replaced_in(
        &self,
        before: &BuyerAgent,
        id: TransactionId,
        negotiation: Negotiation,
    ) -> bool {
        &&& self.same_services(before)
        &&& self.negotiations() == before.negotiations().insert(id, negotiation)
    }

    /// A buyer without negotiations.
    pub fn new(config: BuyerAgentConfig, trust: TrustSystem, settlement: SettlementService) -> (r:
        Result<Self, NegotiationError>)
        ensures
            r matches Ok(buyer) && buyer.config() == config && buyer.trust() == trust
                && buyer.settlement() == settlement && buyer.negotiations() == Map::<
                TransactionId,
                Negotiation,
            >::empty() && buyer.wf(),
    {
        Ok(BuyerAgent { config, trust, settlement, active_negotiations: HashMap::new() })
    }

    /// The deadline of an RFQ issued at `at`.
    pub open spec fn deadline_at(&self, at: Timestamp) -> int {
        at + self.config().default_ttl_hours * 3600
    }

    /// Whether `r` is the request drawn up at `at` for `quantity` units of
    /// `product` at `max_price` at most. A request for more than is in stock
    /// is refused before the request itself is checked; a request whose
    /// deadline is not in the future, there being no hours to it, is refused
    /// last.
    pub open spec fn prepared(
        &self,
        product: &Product,
        quantity: u32,
        max_price: Amount,
        at: Timestamp,
        r: Result<RFQ, NegotiationError>,
    ) -> bool {
        if quantity > product.stock_quantity {
            r == Err::<RFQ, NegotiationError>(
                NegotiationError::InsufficientStock(product.stock_quantity),
            )
        } else if quantity == 0 {
            validation_error(r, "Quantity must be greater than 0"@)
        } else if max_price <= 0 {
            validation_error(r, "Max price must be greater than 0"@)
        } else if self.config().default_ttl_hours == 0 {
            validation_error(r, "Deadline must be in the future"@)
        } else {
            r matches Ok(rfq) && {
                &&& rfq.buyer_id == self.config().agent_id
                &&& rfq.product_id@ == product.id@
                &&& rfq.quantity == quantity
                &&& rfq.max_price == max_price
                &&& rfq.currency@ == product.currency@
                &&& rfq.delivery_location is None
                &&& rfq.deadline == self.deadline_at(at)
                &&& rfq.metadata@ == Map::<String, String>::empty()
            }
        }
    }

    /// Draws up at `at` a request for `quantity` units of `product` at
    /// `max_price` at most: the first step of asking for a quote.
    pub fn prepare_rfq_at(
        &self,
        product: &Product,
        quantity: u32,
        max_price: Amount,
        at: Timestamp,
    ) -> (r: Result<RFQ, NegotiationError>)
        requires
            self.deadline_at(at) <= i64::MAX,
        ensures
            self.prepared(product, quantity, max_price, at, r),
    {
        if quantity > product.stock_quantity {
            return Err(NegotiationError::InsufficientStock(product.stock_quantity));
        }
        let deadline: i64 = at + self.config.default_ttl_hours as i64 * 3600;
        let rfq = RFQ::new(
            self.config.agent_id,
            product.id.clone(),
            quantity,
            max_price,
            product.currency.clone(),
            deadline,
        );
        match rfq.validate_at(at) {
            Ok(()) => Ok(rfq),
            Err(e) => Err(e),
        }
    }

    /// Draws up a request as of now: the request of some instant.
    pub fn prepare_rfq(&self, product: &Product, quantity: u32, max_price: Amount) -> (r: Result<
        RFQ,
        NegotiationError,
    >)
        ensures
            exists|at: Timestamp|
                0 <= at < CLOCK_LIMIT && self.prepared(product, quantity, max_price, at, r),
    {
        let at = now();
        let r = self.prepare_rfq_at(product, quantity, max_price, at);
        proof {
            assert(self.prepared(product, quantity, max_price, at, r));
        }
        r
    }

    /// Files `negotiation` under its identity. It is refused only where a
    /// negotiation of that identity is filed already.
    pub fn file_negotiation(&mut self, negotiation: Negotiation) -> (r: Result<
        TransactionId,
        NegotiationError,
    >)
        ensures
            final(self).same_services(old(self)),
            old(self).wf() && negotiation.wf() ==> final(self).wf(),
            r is Ok <==> !old(self).negotiations().contains_key(negotiation.id),
            r matches Ok(id) ==> id == negotiation.id && final(self).negotiations() == old(self).negotiations().insert(id, negotiation),
            r is Err ==> final(self).negotiations() == old(self).negotiations() && conflict_error(
                r,
                "Negotiation identity is in use"@,
            ),
    {
        let id = negotiation.id;
        if self.active_negotiations.contains_key(&id) {
            return Err(
                NegotiationError::Negotiation(String::from_str("Negotiation identity is in use")),
            );
        }
        self.active_negotiations.insert(id, negotiation);
        Ok(id)
    }

    /// Opens a negotiation for `rfq` with `seller_id` and files it, for every
    /// request: under a random identity or, should that one be in use, under
    /// the next free one.
    pub fn begin_negotiation(&mut self, rfq: RFQ, seller_id: AgentId) -> (r: Result<
        TransactionId,
        NegotiationError,
    >)
        ensures
            final(self).same_services(old(self)),
            old(self).wf() ==> final(self).wf(),
            r matches Ok(id) && {
                &&& !old(self).negotiations().contains_key(id)
                &&& final(self).negotiations().dom() == old(self).negotiations().dom().insert(id)
                &&& forall|other: TransactionId| #[trigger]
                    old(self).negotiations().contains_key(other) ==> final(self).negotiations()[other] == old(self).negotiations()[other]
                &&& final(self).negotiations()[id].id == id
                &&& final(self).negotiations()[id].opened_for(&rfq, seller_id)
            },
    {
        let mut negotiation = Negotiation::new(rfq, seller_id);
        negotiation.id = unused_identity(&self.active_negotiations, negotiation.id);
        let r = self.file_negotiation(negotiation);
        proof {
            assert(self.negotiations().dom() =~= old(self).negotiations().dom().insert(
                negotiation.id,
            ));
        }
        r
    }

    /// Takes the negotiation `id` out of the file, for a step that has found
    /// it there.
    fn take(&mut self, id: TransactionId) -> (negotiation: Negotiation)
        requires
            old(self).negotiations().contains_key(id),
        ensures
            negotiation == old(self).negotiations()[id],
            final(self).same_services(old(self)),
            final(self).negotiations() == old(self).negotiations().remove(id),
    {
        match self.active_negotiations.remove(&id) {
            Some(negotiation) => negotiation,
            None => {
                assert(false);
                Negotiation::new(RFQ::new(0, String::new(), 0, 0, String::new(), 0), 0)
            },
        }
    }

    /// Whether the agent is `before` after a step on the negotiation `id`
    /// that returned `r`: where the step failed nothing has changed, and
    /// where it succeeded the negotiation is `after` and nothing else has
    /// changed.
    pub open spec fn stepped<T>(
        &self,
        before: &BuyerAgent,
        id: TransactionId,
        after: Negotiation,
        r: Result<T, NegotiationError>,
    ) -> bool {
        if r is Ok {
            self.replaced_in(before, id, after)
        } else {
            self.unchanged_from(before)
        }
    }

    /// Whether `r` is the verdict on filing the seller's first quote for
    /// `negotiation` at `at`. A second quote is a conflict, whatever it
    /// holds; a quote that has expired is not filed, nor a quote in a state
    /// that takes none.
    pub open spec fn filing_verdict<T>(
        found: Option<Negotiation>,
        quote: &Quote,
        at: Timestamp,
        r: Result<T, NegotiationError>,
    ) -> bool {
        match found {
            None => not_found_error(r, "Negotiation not found"@),
            Some(negotiation) => if negotiation.quote_id is Some {
                conflict_error(r, "Quote already exists for this negotiation"@)
            } else if quote.expired_at(at) {
                r == Err::<T, NegotiationError>(NegotiationError::QuoteExpired)
            } else if !negotiation.can_attach() {
                conflict_error(r, "Cannot attach quote in current state"@)
            } else {
                r is Ok
            },
        }
    }

    /// The negotiation `id`, if the agent has it.
    pub open spec fn found(&self, id: TransactionId) -> Option<Negotiation> {
        if self.negotiations().contains_key(id) {
            Some(self.negotiations()[id])
        } else {
            None
        }
    }

    /// The time of the last change of the negotiation `id`.
    pub open spec fn changed_at(&self, id: TransactionId) -> Timestamp {
        self.negotiations()[id].updated_at
    }

    /// Files the seller's first quote for the negotiation `negotiation_id`,
    /// as of `at`, and moves the negotiation to `Quoted`.
    pub fn record_quote_at(&mut self, negotiation_id: TransactionId, quote: &Quote, at: Timestamp) -> (r:
        Result<TransactionId, NegotiationError>)
        ensures
            old(self).wf() ==> final(self).wf(),
            Self::filing_verdict(old(self).found(negotiation_id), quote, at, r),
            r matches Ok(id) ==> id == negotiation_id,
            r is Ok ==> final(self).changed_at(negotiation_id) == at,
            final(self).stepped(
                old(self),
                negotiation_id,
                old(self).negotiations()[negotiation_id].quoted(
                    quote.id,
                    final(self).changed_at(negotiation_id),
                ),
                r,
            ),
    {
        if !self.active_negotiations.contains_key(&negotiation_id) {
            return Err(NegotiationError::NotFound(String::from_str("Negotiation not found")));
        }
        let mut negotiation = self.take(negotiation_id);
        let attached = negotiation.add_quote_at(quote, at);
        self.active_negotiations.insert(negotiation_id, negotiation);
        proof {
            assert(self.negotiations() =~= old(self).negotiations().insert(
                negotiation_id,
                negotiation,
            ));
            if attached is Err {
                assert(self.negotiations() =~= old(self).negotiations());
            }
        }
        match attached {
            Ok(()) => Ok(negotiation_id),
            Err(e) => Err(e),
        }
    }

    /// Files the seller's first quote as of now: with the verdict of some
    /// instant.
    pub fn record_quote(&mut self, negotiation_id: TransactionId, quote: &Quote) -> (r: Result<
        TransactionId,
        NegotiationError,
    >)
        ensures
            old(self).wf() ==> final(self).wf(),
            exists|at: Timestamp|
                0 <= at < CLOCK_LIMIT && Self::filing_verdict(old(self).found(negotiation_id), quote, at, r),
            r matches Ok(id) ==> id == negotiation_id,
            r is Ok ==> 0 <= final(self).changed_at(negotiation_id) < CLOCK_LIMIT,
            final(self).stepped(
                old(self),
                negotiation_id,
                old(self).negotiations()[negotiation_id].quoted(
                    quote.id,
                    final(self).changed_at(negotiation_id),
                ),
                r,
            ),
    {
        let at = now();
        let r = self.record_quote_at(negotiation_id, quote, at);
        proof {
            assert(Self::filing_verdict(old(self).found(negotiation_id), quote, at, r));
        }
        r
    }

    /// Whether `r` is the verdict on a counter-offer in `negotiation`: the
    /// negotiation must be open and the offer strictly below the opening bid.
    pub open spec fn counter_verdict(
        found: Option<Negotiation>,
        counter_offer: Amount,
        r: Result<(), NegotiationError>,
    ) -> bool {
        match found {
            None => not_found_error(r, "Negotiation not found"@),
            Some(negotiation) => if !negotiation.status.is_open() {
                conflict_error(r, "Cannot counter negotiation in current state"@)
            } else if counter_offer >= negotiation.opening_bid {
                validation_error(r, "Counter offer must be less than opening bid"@)
            } else {
                r is Ok
            },
        }
    }

    /// Makes a counter-offer in the negotiation `negotiation_id` and moves it
    /// to `Negotiating`: the first step, before the seller is asked.
    pub fn negotiate(&mut self, negotiation_id: TransactionId, counter_offer: Amount) -> (r:
        Result<(), NegotiationError>)
        ensures
            old(self).wf() ==> final(self).wf(),
            Self::counter_verdict(old(self).found(negotiation_id), counter_offer, r),
            r is Ok ==> 0 <= final(self).changed_at(negotiation_id) < CLOCK_LIMIT,
            final(self).stepped(
                old(self),
                negotiation_id,
                old(self).negotiations()[negotiation_id].countered(
                    final(self).changed_at(negotiation_id),
                ),
                r,
            ),
    {
        if !self.active_negotiations.contains_key(&negotiation_id) {
            return Err(NegotiationError::NotFound(String::from_str("Negotiation not found")));
        }
        let mut negotiation = self.take(negotiation_id);
        let countered = negotiation.counter(counter_offer);
        self.active_negotiations.insert(negotiation_id, negotiation);
        proof {
            assert(self.negotiations() =~= old(self).negotiations().insert(
                negotiation_id,
                negotiation,
            ));
            if countered is Err {
                assert(self.negotiations() =~= old(self).negotiations());
            }
        }
        countered
    }

    /// Whether `r` is the verdict on filing the seller's answer to a
    /// counter-offer at `at`. Legal only while counter-offers are exchanged; a
    /// quote that has expired is not filed.
    pub open spec fn refiling_verdict(
        found: Option<Negotiation>,
        quote: &Quote,
        at: Timestamp,
        r: Result<(), NegotiationError>,
    ) -> bool {
        match found {
            None => not_found_error(r, "Negotiation not found"@),
            Some(negotiation) => if quote.expired_at(at) {
                r == Err::<(), NegotiationError>(NegotiationError::QuoteExpired)
            } else if !(negotiation.status is Negotiating) {
                conflict_error(r, "Cannot clear quote in current state"@)
            } else {
                r is Ok
            },
        }
    }

    /// Files the seller's answer to a counter-offer, as of `at`: the quote
    /// that stood is withdrawn, the fresh one attached, and the negotiation is
    /// `Quoted` again.
    pub fn record_counter_quote_at(
        &mut self,
        negotiation_id: TransactionId,
        quote: &Quote,
        at: Timestamp,
    ) -> (r: Result<(), NegotiationError>)
        ensures
            old(self).wf() ==> final(self).wf(),
            Self::refiling_verdict(old(self).found(negotiation_id), quote, at, r),
            r is Ok ==> final(self).changed_at(negotiation_id) == at,
            final(self).stepped(
                old(self),
                negotiation_id,
                old(self).negotiations()[negotiation_id].quoted(
                    quote.id,
                    final(self).changed_at(negotiation_id),
                ),
                r,
            ),
    {
        if !self.active_negotiations.contains_key(&negotiation_id) {
            return Err(NegotiationError::NotFound(String::from_str("Negotiation not found")));
        }
        let mut negotiation = self.take(negotiation_id);
        let attached = negotiation.replace_quote_at(quote, at);
        self.active_negotiations.insert(negotiation_id, negotiation);
        proof {
            assert(self.negotiations() =~= old(self).negotiations().insert(
                negotiation_id,
                negotiation,
            ));
            if attached is Err {
                assert(self.negotiations() =~= old(self).negotiations());
            }
        }
        attached
    }

    /// Files the seller's answer to a counter-offer as of now: with the
    /// verdict of some instant.
    pub fn record_counter_quote(&mut self, negotiation_id: TransactionId, quote: &Quote) -> (r:
        Result<(), NegotiationError>)
        ensures
            old(self).wf() ==> final(self).wf(),
            exists|at: Timestamp|
                0 <= at < CLOCK_LIMIT && Self::refiling_verdict(old(self).found(negotiation_id), quote, at, r),
            r is Ok ==> 0 <= final(self).changed_at(negotiation_id) < CLOCK_LIMIT,
            final(self).stepped(
                old(self),
                negotiation_id,
                old(self).negotiations()[negotiation_id].quoted(
                    quote.id,
                    final(self).changed_at(negotiation_id),
                ),
                r,
            ),
    {
        let at = now();
        let r = self.record_counter_quote_at(negotiation_id, quote, at);
        proof {
            assert(Self::refiling_verdict(old(self).found(negotiation_id), quote, at, r));
        }
        r
    }

    /// Whether `r` is the verdict on accepting `quote` at `at`: the
    /// negotiation must hold a quote, the quote given must not have expired,
    /// and the negotiation must be open; the first of these that fails is
    /// reported.
    pub open spec fn closing_verdict(
        found: Option<Negotiation>,
        quote: &Quote,
        at: Timestamp,
        r: Result<(), NegotiationError>,
    ) -> bool {
        match found {
            None => not_found_error(r, "Negotiation not found"@),
            Some(negotiation) => if negotiation.quote_id is None {
                conflict_error(r, "No quote available"@)
            } else if quote.expired_at(at) {
                r == Err::<(), NegotiationError>(NegotiationError::QuoteExpired)
            } else if !negotiation.status.is_open() {
                conflict_error(r, "Cannot accept negotiation in current state"@)
            } else {
                r is Ok
            },
        }
    }

    /// Whether the agent is `before` after the deal of the negotiation `id`
    /// was closed at the price of `quote` at `at`: the negotiation is
    /// settled at that price, the router holds what it held, and both parties
    /// have the bonus of a settled deal.
    pub open spec fn closed_from(
        &self,
        before: &BuyerAgent,
        id: TransactionId,
        quote: &Quote,
        at: Timestamp,
    ) -> bool {
        let negotiation = before.negotiations()[id];
        &&& self.config() == before.config()
        &&& self.negotiations() == before.negotiations().insert(
            id,
            negotiation.closed(quote.price, self.changed_at(id)),
        )
        &&& self.settlement().holds() == before.settlement().holds()
        &&& self.settlement().config() == before.settlement().config()
        &&& self.trust().recorded_from(
            &before.trust(),
            negotiation.buyer_id,
            negotiation.seller_id,
            crate::trust::SUCCESS_BONUS,
            crate::trust::TrustActivityType::SuccessfulTransaction,
            "Successful transaction completed"@,
            at,
        )
    }

    /// Accepts `quote` in the negotiation `negotiation_id` as of `at`, pays
    /// its price over the direct-capture rail, marks the negotiation as
    /// settled, and grants both parties the bonus of a settled deal. Nothing
    /// changes where the deal is not closed.
    pub fn accept_quote_at(&mut self, negotiation_id: TransactionId, quote: &Quote, at: Timestamp) -> (r:
        Result<(), NegotiationError>)
        ensures
            old(self).wf() ==> final(self).wf(),
            Self::closing_verdict(old(self).found(negotiation_id), quote, at, r),
            r is Ok ==> final(self).closed_from(old(self), negotiation_id, quote, at),
            r is Ok ==> 0 <= final(self).changed_at(negotiation_id) < CLOCK_LIMIT,
            r is Err ==> final(self).unchanged_from(old(self)),
    {
        match self.active_negotiations.get(&negotiation_id) {
            None => {
                return Err(
                    NegotiationError::NotFound(String::from_str("Negotiation not found")),
                );
            },
            Some(negotiation) => {
                if negotiation.quote_id.is_none() {
                    return Err(
                        NegotiationError::Negotiation(String::from_str("No quote available")),
                    );
                }
                if quote.is_expired_at(at) {
                    return Err(NegotiationError::QuoteExpired);
                }
                if !negotiation.status.open() {
                    return Err(
                        NegotiationError::Negotiation(
                            String::from_str("Cannot accept negotiation in current state"),
                        ),
                    );
                }
            },
        }
        let mut negotiation = self.take(negotiation_id);
        let _ = negotiation.accept(quote.price);
        let payment = self.settlement.create_payment(
            negotiation.buyer_id,
            negotiation.seller_id,
            quote.price,
            quote.currency.clone(),
        );
        let paid = match payment {
            Ok(result) => result.success,
            Err(_) => false,
        };
        if paid {
            let _ = negotiation.settle();
            let _ = self.trust.record_successful_transaction_at(
                negotiation.buyer_id,
                negotiation.seller_id,
                at,
            );
        } else {
            let _ = self.trust.record_failed_transaction_at(
                negotiation.buyer_id,
                negotiation.seller_id,
                at,
            );
        }
        self.active_negotiations.insert(negotiation_id, negotiation);
        proof {
            assert(self.negotiations() =~= old(self).negotiations().insert(
                negotiation_id,
                negotiation,
            ));
        }
        Ok(())
    }

    /// Accepts `quote` in the negotiation `negotiation_id` as of now: with
    /// the verdict and the outcome of some instant.
    pub fn accept_quote(&mut self, negotiation_id: TransactionId, quote: &Quote) -> (r: Result<
        (),
        NegotiationError,
    >)
        ensures
            old(self).wf() ==> final(self).wf(),
            exists|at: Timestamp|
                0 <= at < CLOCK_LIMIT && Self::closing_verdict(old(self).found(negotiation_id), quote, at, r) && (r is Ok
                    ==> final(self).closed_from(old(self), negotiation_id, quote, at)),
            r is Ok ==> 0 <= final(self).changed_at(negotiation_id) < CLOCK_LIMIT,
            r is Err ==> final(self).unchanged_from(old(self)),
    {
        let at = now();
        let r = self.accept_quote_at(negotiation_id, quote, at);
        proof {
            assert(Self::closing_verdict(old(self).found(negotiation_id), quote, at, r) && (r
                is Ok ==> final(self).closed_from(old(self), negotiation_id, quote, at)));
        }
        r
    }

    /// Whether `r` is the verdict on rejecting the quote of a negotiation,
    /// which must be open.
    pub open spec fn rejection_verdict(
        found: Option<Negotiation>,
        r: Result<(), NegotiationError>,
    ) -> bool {
        match found {
            None => not_found_error(r, "Negotiation not found"@),
            Some(negotiation) => if !negotiation.status.is_open() {
                conflict_error(r, "Cannot reject negotiation in current state"@)
            } else {
                r is Ok
            },
        }
    }

    /// Whether the agent is `before` after the quote of the negotiation `id`
    /// was rejected at `at`: the negotiation is rejected, and the seller has
    /// the penalty of a rejected quote.
    pub open spec fn rejected_from(&self, before: &BuyerAgent, id: TransactionId, at: Timestamp) -> bool {
        let negotiation = before.negotiations()[id];
        &&& self.config() == before.config()
        &&& self.settlement() == before.settlement()
        &&& self.negotiations() == before.negotiations().insert(
            id,
            negotiation.moved(NegotiationStatus::Rejected, self.changed_at(id)),
        )
        &&& self.trust().adjusted_from(
            &before.trust(),
            negotiation.seller_id,
            REJECTION_PENALTY,
            at,
        )
    }

    /// Rejects the quote of the negotiation `negotiation_id` as of `at`, and
    /// charges the seller the penalty of a rejected quote.
    pub fn reject_quote_at(&mut self, negotiation_id: TransactionId, at: Timestamp) -> (r: Result<
        (),
        NegotiationError,
    >)
        ensures
            old(self).wf() ==> final(self).wf(),
            Self::rejection_verdict(old(self).found(negotiation_id), r),
            r is Ok ==> final(self).rejected_from(old(self), negotiation_id, at),
            r is Ok ==> 0 <= final(self).changed_at(negotiation_id) < CLOCK_LIMIT,
            r is Err ==> final(self).unchanged_from(old(self)),
    {
        if !self.active_negotiations.contains_key(&negotiation_id) {
            return Err(NegotiationError::NotFound(String::from_str("Negotiation not found")));
        }
        let mut negotiation = self.take(negotiation_id);
        let rejected = negotiation.reject();
        if rejected.is_ok() {
            let _ = self.trust.update_reputation_at(negotiation.seller_id, REJECTION_PENALTY, at);
        }
        self.active_negotiations.insert(negotiation_id, negotiation);
        proof {
            assert(self.negotiations() =~= old(self).negotiations().insert(
                negotiation_id,
                negotiation,
            ));
            if rejected is Err {
                assert(self.negotiations() =~= old(self).negotiations());
            }
        }
        rejected
    }

    /// Rejects the quote of the negotiation `negotiation_id` as of now.
    pub fn reject_quote(&mut self, negotiation_id: TransactionId) -> (r: Result<
        (),
        NegotiationError,
    >)
        ensures
            old(self).wf() ==> final(self).wf(),
            Self::rejection_verdict(old(self).found(negotiation_id), r),
            r is Ok ==> exists|at: Timestamp|
                0 <= at < CLOCK_LIMIT && final(self).rejected_from(old(self), negotiation_id, at),
            r is Ok ==> 0 <= final(self).changed_at(negotiation_id) < CLOCK_LIMIT,
            r is Err ==> final(self).unchanged_from(old(self)),
    {
        let at = now();
        self.reject_quote_at(negotiation_id, at)
    }

    /// Whether `r` is the verdict on marking a negotiation as expired at
    /// `at`, its quote having lapsed. A quote that still stands expires
    /// nothing.
    pub open spec fn expiry_verdict(
        found: Option<Negotiation>,
        quote: &Quote,
        at: Timestamp,
        r: Result<(), NegotiationError>,
    ) -> bool {
        match found {
            None => not_found_error(r, "Negotiation not found"@),
            Some(negotiation) => if !quote.expired_at(at) {
                conflict_error(r, "Quote has not expired"@)
            } else if !negotiation.status.is_open() {
                conflict_error(r, "Cannot expire negotiation in current state"@)
            } else {
                r is Ok
            },
        }
    }

    /// Marks the negotiation `negotiation_id` as expired as of `at`, its
    /// quote having lapsed.
    pub fn expire_quote_at(&mut self, negotiation_id: TransactionId, quote: &Quote, at: Timestamp) -> (r:
        Result<(), NegotiationError>)
        ensures
            old(self).wf() ==> final(self).wf(),
            Self::expiry_verdict(old(self).found(negotiation_id), quote, at, r),
            r is Ok ==> 0 <= final(self).changed_at(negotiation_id) < CLOCK_LIMIT,
            final(self).stepped(
                old(self),
                negotiation_id,
                old(self).negotiations()[negotiation_id].moved(
                    NegotiationStatus::Expired,
                    final(self).changed_at(negotiation_id),
                ),
                r,
            ),
    {
        if !self.active_negotiations.contains_key(&negotiation_id) {
            return Err(NegotiationError::NotFound(String::from_str("Negotiation not found")));
        }
        if !quote.is_expired_at(at) {
            return Err(NegotiationError::Negotiation(String::from_str("Quote has not expired")));
        }
        let mut negotiation = self.take(negotiation_id);
        let expired = negotiation.expire();
        self.active_negotiations.insert(negotiation_id, negotiation);
        proof {
            assert(self.negotiations() =~= old(self).negotiations().insert(
                negotiation_id,
                negotiation,
            ));
            if expired is Err {
                assert(self.negotiations() =~= old(self).negotiations());
            }
        }
        expired
    }

    /// Marks the negotiation `negotiation_id` as expired as of now: with the
    /// verdict of some instant.
    pub fn expire_quote(&mut self, negotiation_id: TransactionId, quote: &Quote) -> (r: Result<
        (),
        NegotiationError,
    >)
        ensures
            old(self).wf() ==> final(self).wf(),
            exists|at: Timestamp|
                0 <= at < CLOCK_LIMIT && Self::expiry_verdict(old(self).found(negotiation_id), quote, at, r),
            r is Ok ==> 0 <= final(self).changed_at(negotiation_id) < CLOCK_LIMIT,
            final(self).stepped(
                old(self),
                negotiation_id,
                old(self).negotiations()[negotiation_id].moved(
                    NegotiationStatus::Expired,
                    final(self).changed_at(negotiation_id),
                ),
                r,
            ),
    {
        let at = now();
        let r = self.expire_quote_at(negotiation_id, quote, at);
        proof {
            assert(Self::expiry_verdict(old(self).found(negotiation_id), quote, at, r));
        }
        r
    }

    /// The audit record of the negotiation `negotiation_id`, once it holds a
    /// close price.
    pub fn record(&self, negotiation_id: TransactionId) -> (rec: Option<NegotiationRecord>)
        ensures
            rec is Some <==> self.negotiations().contains_key(negotiation_id)
                && self.negotiations()[negotiation_id].close_price is Some
                && self.negotiations()[negotiation_id].delta is Some,
            rec matches Some(record) ==> {
                let negotiation = self.negotiations()[negotiation_id];
                &&& record.buyer_id == negotiation.buyer_id
                &&& record.seller_id == negotiation.seller_id
                &&& record.product_hash@ == negotiation.product_id@
                &&& record.opening_bid == negotiation.opening_bid
                &&& Some(record.close_price) == negotiation.close_price
                &&& Some(record.delta) == negotiation.delta
                &&& record.timestamp == negotiation.created_at
                &&& record.duration_seconds == negotiation.duration()
                &&& record.message_count == negotiation.message_count()
            },
    {
        match self.active_negotiations.get(&negotiation_id) {
            Some(negotiation) => negotiation.to_record(),
            None => None,
        }
    }

    /// The identities of the negotiations, each once, in no particular
    /// order.
    fn negotiation_ids(&self) -> (ids: Vec<TransactionId>)
        ensures
            ids@.no_duplicates(),
            ids@.to_set() == self.negotiations().dom(),
    {
        let mut ids: Vec<TransactionId> = Vec::new();
        let ghost all: Seq<TransactionId> = spec_keys_iter(
            &self.active_negotiations,
        ).remaining().unref();
        for id in it: self.active_negotiations.keys()
            invariant
                ids@.len() == it.index(),
                forall|j: int| 0 <= j < ids@.len() ==> ids@[j] == *it.seq()[j],
                all == it.seq().unref(),
                all.to_set() == self.active_negotiations@.dom(),
                all.no_duplicates(),
        {
            ids.push(*id);
        }
        assert(ids@ =~= all);
        ids
    }

    /// Every negotiation of the buyer, each once, in no particular order.
    pub fn get_active_negotiations(&self) -> (active: Vec<&Negotiation>)
        ensures
            exists|ids: Seq<TransactionId>|
                {
                    &&& ids.no_duplicates()
                    &&& ids.to_set() == self.negotiations().dom()
                    &&& #[trigger] ids.len() == active@.len()
                    &&& forall|i: int|
                        0 <= i < ids.len() ==> *active@[i] == self.negotiations()[#[trigger] ids[i]]
                },
    {
        let ids = self.negotiation_ids();
        let mut active: Vec<&Negotiation> = Vec::new();
        let mut i: usize = 0;
        while i < ids.len()
            invariant
                i <= ids@.len(),
                ids@.to_set() == self.active_negotiations@.dom(),
                active@.len() == i,
                forall|j: int|
                    0 <= j < i ==> *active@[j] == self.active_negotiations@[#[trigger] ids@[j]],
            decreases ids@.len() - i,
        {
            assert(ids@.to_set().contains(ids@[i as int]));
            match self.active_negotiations.get(&ids[i]) {
                Some(negotiation) => {
                    active.push(negotiation);
                },
                None => {
                    assert(false);
                },
            }
            i += 1;
        }
        active
    }
}

/// The first product with an identity is the only first one.
proof fn lemma_first_is_unique(catalog: Seq<Product>, product_id: Seq<char>, index: int)
    requires
        first_in_catalog(catalog, product_id, index),
    ensures
        forall|other: int| first_in_catalog(catalog, product_id, other) ==> other == index,
        !not_in_catalog(catalog, product_id),
{
    assert forall|other: int| first_in_catalog(catalog, product_id, other) implies other
        == index by {
        if other < index {
            assert(catalog.take(index)[other] == catalog[other]);
        } else if index < other {
            assert(catalog.take(other)[index] == catalog[index]);
        }
    }
    assert(catalog[index].id@ == product_id);
}

} // verus!
