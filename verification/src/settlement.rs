//! The settlement router: payment over one of three rails, and escrow holds.

use std::collections::HashMap;
use vstd::prelude::*;
use vstd::std_specs::hash::*;
use vstd::string::*;

use crate::clock::{now, CLOCK_LIMIT};
use crate::error::NegotiationError;
use crate::ident::{fresh_id, id_text, unused_identity, uuid_text};
use crate::model::{conflict_error, not_found_error, PaymentMethod};
use crate::{AgentId, Amount, Timestamp, TransactionId};

verus! {

broadcast use vstd::std_specs::hash::group_hash_axioms;

/// Seconds for which an escrow hold stands: 7 days.
pub const ESCROW_HOLD_SECONDS: u64 = 604_800;

/// What each rail needs in order to be usable.
#[derive(Debug, Clone)]
pub struct SettlementConfig {
    pub stripe_secret_key: Option<String>,
    pub solana_rpc_url: Option<String>,
    pub escrow_service_url: Option<String>,
}

/// An instruction to pay.
#[derive(Debug)]
pub struct PaymentRequest {
    pub transaction_id: TransactionId,
    pub buyer_id: AgentId,
    pub seller_id: AgentId,
    pub amount: Amount,
    pub currency: String,
    pub payment_method: PaymentMethod,
    pub description: String,
    pub metadata: HashMap<String, String>,
}

/// How far a payment has come.
#[derive(Debug, Clone, Copy, PartialEq, Eq, Structural)]
pub enum PaymentStatus {
    Pending,
    Processing,
    Succeeded,
    Failed,
    Cancelled,
    Refunded,
}

/// The outcome of a payment.
#[derive(Debug)]
pub struct PaymentResult {
    pub success: bool,
    /// The identity that the rail gave the payment.
    pub payment_id: String,
    pub transaction_id: TransactionId,
    pub amount: Amount,
    pub currency: String,
    pub status: PaymentStatus,
    pub created_at: Timestamp,
    pub completed_at: Option<Timestamp>,
    pub error_message: Option<String>,
}

/// Where an escrow hold stands.
#[derive(Debug, Clone, Copy, PartialEq, Eq, Structural)]
pub enum EscrowStatus {
    Active,
    Released,
    Refunded,
    Expired,
}

/// Funds held in custody until release conditions are met.
#[derive(Debug)]
pub struct EscrowHold {
    pub id: u128,
    pub transaction_id: TransactionId,
    pub buyer_id: AgentId,
    pub seller_id: AgentId,
    pub amount: Amount,
    pub currency: String,
    pub hold_duration_seconds: u64,
    pub created_at: Timestamp,
    pub expires_at: Timestamp,
    pub status: EscrowStatus,
    pub release_conditions: Vec<String>,
}

impl PaymentResult {
    /// Whether the result reports a payment of `amount` in `currency` for
    /// `transaction_id` that the rail has completed with `status`, under an
    /// identity made of `prefix` and the text of `id`, at an instant that the
    /// clock can report.
    pub open spec fn completed(
        &self,
        status: PaymentStatus,
        prefix: Seq<char>,
        id: u128,
        transaction_id: TransactionId,
        amount: Amount,
        currency: Seq<char>,
    ) -> bool {
        &&& self.success
        &&& self.payment_id@ == prefix + uuid_text(id)
        &&& self.transaction_id == transaction_id
        &&& self.amount == amount
        &&& self.currency@ == currency
        &&& self.status == status
        &&& 0 <= self.created_at < CLOCK_LIMIT
        &&& self.completed_at == Some(self.created_at)
        &&& self.error_message is None
    }

    /// Whether the result reports that the funds of `request` are held in
    /// escrow under `hold_id` since `at`: the payment is pending.
    pub open spec fn held(&self, request: &PaymentRequest, hold_id: u128, at: Timestamp) -> bool {
        &&& self.success
        &&& self.payment_id@ == "escrow_"@ + uuid_text(hold_id)
        &&& self.transaction_id == request.transaction_id
        &&& self.amount == request.amount
        &&& self.currency@ == request.currency@
        &&& self.status is Pending
        &&& self.created_at == at
        &&& self.completed_at is None
        &&& self.error_message is None
    }
}

impl EscrowHold {
    /// The hold expires when its duration has passed since its creation.
    pub open spec fn wf(&self) -> bool {
        self.expires_at == self.created_at + self.hold_duration_seconds
    }

    /// Whether the hold is the one opened for `request` under `id` at `at`:
    /// active for seven days, to be released once delivery is confirmed and
    /// quality verified.
    pub open spec fn opened_for(&self, request: &PaymentRequest, id: u128, at: Timestamp) -> bool {
        &&& self.id == id
        &&& self.transaction_id == request.transaction_id
        &&& self.buyer_id == request.buyer_id
        &&& self.seller_id == request.seller_id
        &&& self.amount == request.amount
        &&& self.currency@ == request.currency@
        &&& self.hold_duration_seconds == ESCROW_HOLD_SECONDS
        &&& self.created_at == at
        &&& self.expires_at == at + ESCROW_HOLD_SECONDS
        &&& self.status is Active
        &&& self.release_conditions@.len() == 2
        &&& self.release_conditions@[0]@ == "Delivery confirmed"@
        &&& self.release_conditions@[1]@ == "Quality verified"@
    }

    /// The hold with another status.
    pub open spec fn with_status(self, status: EscrowStatus) -> EscrowHold {
        EscrowHold { status, ..self }
    }

    /// The hold's time has lapsed at an instant strictly after its expiry.
    pub open spec fn lapsed_at(&self, at: Timestamp) -> bool {
        at > self.expires_at
    }

    /// Moves an active hold to `status`.
    fn close(&mut self, status: EscrowStatus) -> (r: Result<(), NegotiationError>)
        ensures
            r is Ok <==> old(self).status is Active,
            r is Ok ==> *final(self) == old(self).with_status(status),
            r is Err ==> *final(self) == *old(self) && conflict_error(
                r,
                "Escrow hold is not active"@,
            ),
    {
        match self.status {
            EscrowStatus::Active => {
                self.status = status;
                Ok(())
            },
            _ => Err(NegotiationError::Negotiation(String::from_str("Escrow hold is not active"))),
        }
    }

    /// Releases the funds to the seller. Legal only for an active hold.
    pub fn release(&mut self) -> (r: Result<(), NegotiationError>)
        ensures
            r is Ok <==> old(self).status is Active,
            r is Ok ==> *final(self) == old(self).with_status(EscrowStatus::Released),
            r is Err ==> *final(self) == *old(self) && conflict_error(
                r,
                "Escrow hold is not active"@,
            ),
    {
        self.close(EscrowStatus::Released)
    }

    /// Returns the funds to the buyer. Legal only for an active hold.
    pub fn refund(&mut self) -> (r: Result<(), NegotiationError>)
        ensures
            r is Ok <==> old(self).status is Active,
            r is Ok ==> *final(self) == old(self).with_status(EscrowStatus::Refunded),
            r is Err ==> *final(self) == *old(self) && conflict_error(
                r,
                "Escrow hold is not active"@,
            ),
    {
        self.close(EscrowStatus::Refunded)
    }

    /// Marks as expired an active hold whose time has lapsed at `at`.
    pub fn expire_at(&mut self, at: Timestamp) -> (r: Result<(), NegotiationError>)
        ensures
            r is Ok <==> old(self).status is Active && old(self).lapsed_at(at),
            r is Ok ==> *final(self) == old(self).with_status(EscrowStatus::Expired),
            r is Err ==> *final(self) == *old(self),
            !(old(self).status is Active) ==> conflict_error(r, "Escrow hold is not active"@),
            old(self).status is Active && !old(self).lapsed_at(at) ==> conflict_error(
                r,
                "Escrow hold has not expired"@,
            ),
    {
        match self.status {
            EscrowStatus::Active => {
                if at > self.expires_at {
                    self.status = EscrowStatus::Expired;
                    Ok(())
                } else {
                    Err(
                        NegotiationError::Negotiation(String::from_str("Escrow hold has not expired")),
                    )
                }
            },
            _ => Err(NegotiationError::Negotiation(String::from_str("Escrow hold is not active"))),
        }
    }
}

/// The settlement router. It keeps the escrow holds that it opened.
pub struct SettlementService {
    config: SettlementConfig,
    holds: HashMap<u128, EscrowHold>,
}

impl SettlementService {
    /// The escrow holds, by their identity.
    pub closed spec fn holds(&self) -> Map<u128, EscrowHold> {
        self.holds@
    }

    /// The configuration of the rails.
    pub closed spec fn config(&self) -> SettlementConfig {
        self.config
    }

    /// Every hold is filed under its own identity and expires when its
    /// duration has passed.
    pub open spec fn wf(&self) -> bool {
        forall|id: u128| #[trigger]
            self.holds().contains_key(id) ==> self.holds()[id].id == id && self.holds()[id].wf()
    }

    /// A router with the given configuration and no holds.
    pub fn new(config: SettlementConfig) -> (r: Result<Self, NegotiationError>)
        ensures
            r matches Ok(service) && service.config() == config && service.holds() == Map::<
                u128,
                EscrowHold,
            >::empty() && service.wf(),
    {
        Ok(SettlementService { config, holds: HashMap::new() })
    }

    /// Whether a rail is configured: the direct-capture rail needs its API
    /// key, the ledger rail its RPC endpoint, escrow its service address.
    pub open spec fn configured(&self, method: PaymentMethod) -> bool {
        match method {
            PaymentMethod::Stripe => self.config().stripe_secret_key is Some,
            PaymentMethod::Solana => self.config().solana_rpc_url is Some,
            PaymentMethod::Escrow => self.config().escrow_service_url is Some,
        }
    }

    /// Whether the rail `method` is configured.
    pub fn validate_payment_method(&self, method: &PaymentMethod) -> (r: Result<
        bool,
        NegotiationError,
    >)
        ensures
            r matches Ok(usable) && usable == self.configured(*method),
    {
        match method {
            PaymentMethod::Stripe => Ok(self.config.stripe_secret_key.is_some()),
            PaymentMethod::Solana => Ok(self.config.solana_rpc_url.is_some()),
            PaymentMethod::Escrow => Ok(self.config.escrow_service_url.is_some()),
        }
    }

    /// The rails that an agent can be paid over: all three.
    pub fn get_payment_methods(&self, agent_id: AgentId) -> (r: Result<
        Vec<PaymentMethod>,
        NegotiationError,
    >)
        ensures
            r matches Ok(methods) && methods@ == seq![
                PaymentMethod::Stripe,
                PaymentMethod::Solana,
                PaymentMethod::Escrow,
            ],
    {
        let mut methods: Vec<PaymentMethod> = Vec::new();
        methods.push(PaymentMethod::Stripe);
        methods.push(PaymentMethod::Solana);
        methods.push(PaymentMethod::Escrow);
        assert(methods@ =~= seq![
            PaymentMethod::Stripe,
            PaymentMethod::Solana,
            PaymentMethod::Escrow,
        ]);
        Ok(methods)
    }

    /// The status that a rail's verdict on a charge stands for.
    pub fn map_payment_status(&self, success: bool) -> (status: PaymentStatus)
        ensures
            success ==> status is Succeeded,
            !success ==> status is Failed,
    {
        if success {
            PaymentStatus::Succeeded
        } else {
            PaymentStatus::Failed
        }
    }

    /// The result of a charge that a rail has completed at once, under an
    /// identity made of `prefix` and a random UUID.
    fn captured(request: &PaymentRequest, prefix: &str, status: PaymentStatus) -> (result:
        PaymentResult)
        ensures
            exists|id: u128|
                result.completed(
                    status,
                    prefix@,
                    id,
                    request.transaction_id,
                    request.amount,
                    request.currency@,
                ),
    {
        let id = fresh_id();
        let at = now();
        let result = PaymentResult {
            success: true,
            payment_id: String::from_str(prefix).concat(id_text(id).as_str()),
            transaction_id: request.transaction_id,
            amount: request.amount,
            currency: request.currency.clone(),
            status,
            created_at: at,
            completed_at: Some(at),
            error_message: None,
        };
        assert(result.completed(
            status,
            prefix@,
            id,
            request.transaction_id,
            request.amount,
            request.currency@,
        ));
        result
    }

    /// Charges over the direct-capture rail: the payment has succeeded when
    /// the call returns.
    pub fn process_stripe_payment(&self, request: &PaymentRequest) -> (r: Result<
        PaymentResult,
        NegotiationError,
    >)
        ensures
            r matches Ok(result) && exists|id: u128|
                result.completed(
                    PaymentStatus::Succeeded,
                    "stripe_"@,
                    id,
                    request.transaction_id,
                    request.amount,
                    request.currency@,
                ),
    {
        Ok(Self::captured(request, "stripe_", self.map_payment_status(true)))
    }

    /// Charges over the ledger rail: the transfer counts as succeeded when the
    /// call returns.
    pub fn process_solana_payment(&self, request: &PaymentRequest) -> (r: Result<
        PaymentResult,
        NegotiationError,
    >)
        ensures
            r matches Ok(result) && exists|id: u128|
                result.completed(
                    PaymentStatus::Succeeded,
                    "sol_"@,
                    id,
                    request.transaction_id,
                    request.amount,
                    request.currency@,
                ),
    {
        Ok(Self::captured(request, "sol_", self.map_payment_status(true)))
    }

    /// Whether `after` holds what `before` held and one hold more, opened for
    /// `request` under `hold_id` at `at`, of which `result` reports.
    pub open spec fn escrow_opened_with(
        before: Map<u128, EscrowHold>,
        after: Map<u128, EscrowHold>,
        request: &PaymentRequest,
        hold_id: u128,
        at: Timestamp,
        result: &PaymentResult,
    ) -> bool {
        &&& !before.contains_key(hold_id)
        &&& after.dom() == before.dom().insert(hold_id)
        &&& forall|id: u128| #[trigger] before.contains_key(id) ==> after[id] == before[id]
        &&& after[hold_id].opened_for(request, hold_id, at)
        &&& result.held(request, hold_id, at)
    }

    /// Whether `after` holds what `before` held and one hold more, opened for
    /// `request`, of which `result` reports.
    pub open spec fn escrow_opened(
        before: Map<u128, EscrowHold>,
        after: Map<u128, EscrowHold>,
        request: &PaymentRequest,
        result: &PaymentResult,
    ) -> bool {
        exists|hold_id: u128, at: Timestamp|
            0 <= at < CLOCK_LIMIT && Self::escrow_opened_with(before, after, request, hold_id, at, result)
    }

    /// Places the funds of `request` in escrow under the identity `hold_id`
    /// as of `at`: opens a hold for seven days and reports the payment as
    /// pending. The request is refused only where a hold of that identity is
    /// filed already.
    pub fn open_escrow_with(
        &mut self,
        request: &PaymentRequest,
        hold_id: u128,
        at: Timestamp,
    ) -> (r: Result<PaymentResult, NegotiationError>)
        requires
            at + ESCROW_HOLD_SECONDS <= i64::MAX,
        ensures
            final(self).config() == old(self).config(),
            old(self).wf() ==> final(self).wf(),
            r is Ok <==> !old(self).holds().contains_key(hold_id),
            r matches Ok(result) ==> Self::escrow_opened_with(
                old(self).holds(),
                final(self).holds(),
                request,
                hold_id,
                at,
                &result,
            ),
            r is Err ==> final(self).holds() == old(self).holds() && conflict_error(
                r,
                "Escrow hold identity is in use"@,
            ),
    {
        if self.holds.contains_key(&hold_id) {
            return Err(
                NegotiationError::Negotiation(String::from_str("Escrow hold identity is in use")),
            );
        }
        let mut release_conditions: Vec<String> = Vec::new();
        release_conditions.push(String::from_str("Delivery confirmed"));
        release_conditions.push(String::from_str("Quality verified"));
        let hold = EscrowHold {
            id: hold_id,
            transaction_id: request.transaction_id,
            buyer_id: request.buyer_id,
            seller_id: request.seller_id,
            amount: request.amount,
            currency: request.currency.clone(),
            hold_duration_seconds: ESCROW_HOLD_SECONDS,
            created_at: at,
            expires_at: at + ESCROW_HOLD_SECONDS as i64,
            status: EscrowStatus::Active,
            release_conditions,
        };
        let result = PaymentResult {
            success: true,
            payment_id: String::from_str("escrow_").concat(id_text(hold_id).as_str()),
            transaction_id: request.transaction_id,
            amount: request.amount,
            currency: request.currency.clone(),
            status: PaymentStatus::Pending,
            created_at: at,
            completed_at: None,
            error_message: None,
        };
        proof {
            assert(hold.opened_for(request, hold_id, at));
            assert(result.held(request, hold_id, at));
        }
        self.holds.insert(hold_id, hold);
        proof {
            assert(self.holds().dom() =~= old(self).holds().dom().insert(hold_id));
            assert(self.holds()[hold_id].opened_for(request, hold_id, at));
        }
        Ok(result)
    }

    /// Places the funds of `request` in escrow: opens one hold for seven days
    /// as of now and reports the payment as pending, for every request. The
    /// hold is filed under a random identity or, should that one be in use,
    /// under the next free one.
    pub fn process_escrow_payment(&mut self, request: &PaymentRequest) -> (r: Result<
        PaymentResult,
        NegotiationError,
    >)
        ensures
            final(self).config() == old(self).config(),
            old(self).wf() ==> final(self).wf(),
            r matches Ok(result) && Self::escrow_opened(
                old(self).holds(),
                final(self).holds(),
                request,
                &result,
            ),
    {
        let hold_id = unused_identity(&self.holds, fresh_id());
        let at = now();
        let r = self.open_escrow_with(request, hold_id, at);
        proof {
            if r is Ok {
                assert(Self::escrow_opened_with(
                    old(self).holds(),
                    self.holds(),
                    request,
                    hold_id,
                    at,
                    &r->Ok_0,
                ));
            }
        }
        r
    }

    /// Dispatches a payment to the handler of its rail, and to no other.
    pub fn process_payment(&mut self, request: PaymentRequest) -> (r: Result<
        PaymentResult,
        NegotiationError,
    >)
        ensures
            final(self).config() == old(self).config(),
            old(self).wf() ==> final(self).wf(),
            request.payment_method is Stripe ==> final(self).holds() == old(self).holds() && (
            r matches Ok(result) && exists|id: u128|
                result.completed(
                    PaymentStatus::Succeeded,
                    "stripe_"@,
                    id,
                    request.transaction_id,
                    request.amount,
                    request.currency@,
                )),
            request.payment_method is Solana ==> final(self).holds() == old(self).holds() && (
            r matches Ok(result) && exists|id: u128|
                result.completed(
                    PaymentStatus::Succeeded,
                    "sol_"@,
                    id,
                    request.transaction_id,
                    request.amount,
                    request.currency@,
                )),
            request.payment_method is Escrow ==> (r matches Ok(result) && Self::escrow_opened(
                old(self).holds(),
                final(self).holds(),
                &request,
                &result,
            )),
    {
        match request.payment_method {
            PaymentMethod::Stripe => self.process_stripe_payment(&request),
            PaymentMethod::Solana => self.process_solana_payment(&request),
            PaymentMethod::Escrow => self.process_escrow_payment(&request),
        }
    }

    /// Pays `amount` from `buyer_id` to `seller_id` over the direct-capture
    /// rail, as a transaction with a random identity.
    pub fn create_payment(
        &mut self,
        buyer_id: AgentId,
        seller_id: AgentId,
        amount: Amount,
        currency: String,
    ) -> (r: Result<PaymentResult, NegotiationError>)
        ensures
            final(self).config() == old(self).config(),
            final(self).holds() == old(self).holds(),
            r matches Ok(result) && exists|id: u128|
                result.completed(
                    PaymentStatus::Succeeded,
                    "stripe_"@,
                    id,
                    result.transaction_id,
                    amount,
                    currency@,
                ),
    {
        let request = PaymentRequest {
            transaction_id: fresh_id(),
            buyer_id,
            seller_id,
            amount,
            currency,
            payment_method: PaymentMethod::Stripe,
            description: String::from_str("Marketplace transaction"),
            metadata: HashMap::new(),
        };
        self.process_payment(request)
    }

    /// Whether `after` is `before` with the hold `hold_id` moved from active
    /// to `status`.
    pub open spec fn hold_closed(
        before: Map<u128, EscrowHold>,
        after: Map<u128, EscrowHold>,
        hold_id: u128,
        status: EscrowStatus,
    ) -> bool {
        &&& before.contains_key(hold_id)
        &&& before[hold_id].status is Active
        &&& after == before.insert(hold_id, before[hold_id].with_status(status))
    }

    /// Takes the hold `hold_id` out, closes it with `status` where it is
    /// active, and files it again.
    fn close_hold(&mut self, hold_id: u128, status: EscrowStatus) -> (r: Result<
        (TransactionId, Amount, String),
        NegotiationError,
    >)
        ensures
            final(self).config() == old(self).config(),
            old(self).wf() ==> final(self).wf(),
            r is Ok <==> old(self).holds().contains_key(hold_id) && old(self).holds()[hold_id].status
                is Active,
            r matches Ok(paid) ==> Self::hold_closed(
                old(self).holds(),
                final(self).holds(),
                hold_id,
                status,
            ) && paid.0 == old(self).holds()[hold_id].transaction_id && paid.1 == old(self).holds()[hold_id].amount && paid.2@ == old(self).holds()[hold_id].currency@,
            r is Err ==> final(self).holds() == old(self).holds(),
            !old(self).holds().contains_key(hold_id) ==> not_found_error(r, "Escrow hold not found"@),
            old(self).holds().contains_key(hold_id) && !(old(self).holds()[hold_id].status
                is Active) ==> conflict_error(r, "Escrow hold is not active"@),
    {
        match self.holds.remove(&hold_id) {
            Some(mut hold) => {
                let closed = hold.close(status);
                let paid = (hold.transaction_id, hold.amount, hold.currency.clone());
                self.holds.insert(hold_id, hold);
                proof {
                    assert(closed is Err ==> self.holds() =~= old(self).holds());
                    assert(closed is Ok ==> self.holds() =~= old(self).holds().insert(
                        hold_id,
                        old(self).holds()[hold_id].with_status(status),
                    ));
                }
                match closed {
                    Ok(()) => Ok(paid),
                    Err(e) => Err(e),
                }
            },
            None => {
                proof {
                    assert(self.holds() =~= old(self).holds());
                }
                Err(NegotiationError::NotFound(String::from_str("Escrow hold not found")))
            },
        }
    }

    /// Releases the funds of the hold `escrow_id` to the seller: the hold
    /// moves from active to released, and the payment has succeeded.
    pub fn release_escrow(&mut self, escrow_id: u128) -> (r: Result<
        PaymentResult,
        NegotiationError,
    >)
        ensures
            final(self).config() == old(self).config(),
            old(self).wf() ==> final(self).wf(),
            r is Ok <==> old(self).holds().contains_key(escrow_id) && old(self).holds()[escrow_id].status is Active,
            r matches Ok(result) ==> Self::hold_closed(
                old(self).holds(),
                final(self).holds(),
                escrow_id,
                EscrowStatus::Released,
            ) && result.completed(
                PaymentStatus::Succeeded,
                "escrow_release_"@,
                escrow_id,
                old(self).holds()[escrow_id].transaction_id,
                old(self).holds()[escrow_id].amount,
                old(self).holds()[escrow_id].currency@,
            ),
            r is Err ==> final(self).holds() == old(self).holds(),
            !old(self).holds().contains_key(escrow_id) ==> not_found_error(r, "Escrow hold not found"@),
            old(self).holds().contains_key(escrow_id) && !(old(self).holds()[escrow_id].status
                is Active) ==> conflict_error(r, "Escrow hold is not active"@),
    {
        match self.close_hold(escrow_id, EscrowStatus::Released) {
            Ok(paid) => {
                let at = now();
                Ok(
                    PaymentResult {
                        success: true,
                        payment_id: String::from_str("escrow_release_").concat(
                            id_text(escrow_id).as_str(),
                        ),
                        transaction_id: paid.0,
                        amount: paid.1,
                        currency: paid.2,
                        status: PaymentStatus::Succeeded,
                        created_at: at,
                        completed_at: Some(at),
                        error_message: None,
                    },
                )
            },
            Err(e) => Err(e),
        }
    }

    /// Returns the funds of the hold `escrow_id` to the buyer: the hold moves
    /// from active to refunded.
    pub fn refund_escrow(&mut self, escrow_id: u128) -> (r: Result<PaymentResult, NegotiationError>)
        ensures
            final(self).config() == old(self).config(),
            old(self).wf() ==> final(self).wf(),
            r is Ok <==> old(self).holds().contains_key(escrow_id) && old(self).holds()[escrow_id].status is Active,
            r matches Ok(result) ==> Self::hold_closed(
                old(self).holds(),
                final(self).holds(),
                escrow_id,
                EscrowStatus::Refunded,
            ) && result.completed(
                PaymentStatus::Refunded,
                "escrow_refund_"@,
                escrow_id,
                old(self).holds()[escrow_id].transaction_id,
                old(self).holds()[escrow_id].amount,
                old(self).holds()[escrow_id].currency@,
            ),
            r is Err ==> final(self).holds() == old(self).holds(),
            !old(self).holds().contains_key(escrow_id) ==> not_found_error(r, "Escrow hold not found"@),
            old(self).holds().contains_key(escrow_id) && !(old(self).holds()[escrow_id].status
                is Active) ==> conflict_error(r, "Escrow hold is not active"@),
    {
        match self.close_hold(escrow_id, EscrowStatus::Refunded) {
            Ok(paid) => {
                let at = now();
                Ok(
                    PaymentResult {
                        success: true,
                        payment_id: String::from_str("escrow_refund_").concat(
                            id_text(escrow_id).as_str(),
                        ),
                        transaction_id: paid.0,
                        amount: paid.1,
                        currency: paid.2,
                        status: PaymentStatus::Refunded,
                        created_at: at,
                        completed_at: Some(at),
                        error_message: None,
                    },
                )
            },
            Err(e) => Err(e),
        }
    }

    /// Marks the hold `escrow_id` as expired as of `at`, its time having
    /// lapsed. A hold whose time has not lapsed stays active.
    pub fn expire_escrow_at(&mut self, escrow_id: u128, at: Timestamp) -> (r: Result<
        (),
        NegotiationError,
    >)
        ensures
            final(self).config() == old(self).config(),
            old(self).wf() ==> final(self).wf(),
            r is Err ==> final(self).holds() == old(self).holds(),
            !old(self).holds().contains_key(escrow_id) ==> not_found_error(r, "Escrow hold not found"@),
            old(self).holds().contains_key(escrow_id) ==> {
                let hold = old(self).holds()[escrow_id];
                if !(hold.status is Active) {
                    conflict_error(r, "Escrow hold is not active"@)
                } else if !hold.lapsed_at(at) {
                    conflict_error(r, "Escrow hold has not expired"@)
                } else {
                    r is Ok && Self::hold_closed(
                        old(self).holds(),
                        final(self).holds(),
                        escrow_id,
                        EscrowStatus::Expired,
                    )
                }
            },
    {
        match self.holds.remove(&escrow_id) {
            Some(mut hold) => {
                let expired = hold.expire_at(at);
                self.holds.insert(escrow_id, hold);
                proof {
                    assert(expired is Err ==> self.holds() =~= old(self).holds());
                    assert(expired is Ok ==> self.holds() =~= old(self).holds().insert(
                        escrow_id,
                        old(self).holds()[escrow_id].with_status(EscrowStatus::Expired),
                    ));
                }
                expired
            },
            None => {
                proof {
                    assert(self.holds() =~= old(self).holds());
                }
                Err(NegotiationError::NotFound(String::from_str("Escrow hold not found")))
            },
        }
    }

    /// Marks the hold `escrow_id` as expired as of now.
    pub fn expire_escrow(&mut self, escrow_id: u128) -> (r: Result<(), NegotiationError>)
        ensures
            final(self).config() == old(self).config(),
            old(self).wf() ==> final(self).wf(),
            r is Err ==> final(self).holds() == old(self).holds(),
            !old(self).holds().contains_key(escrow_id) ==> not_found_error(r, "Escrow hold not found"@),
            old(self).holds().contains_key(escrow_id) && !(old(self).holds()[escrow_id].status
                is Active) ==> conflict_error(r, "Escrow hold is not active"@),
            r is Ok ==> Self::hold_closed(
                old(self).holds(),
                final(self).holds(),
                escrow_id,
                EscrowStatus::Expired,
            ) && exists|at: Timestamp|
                0 <= at < CLOCK_LIMIT && old(self).holds()[escrow_id].lapsed_at(at),
    {
        let at = now();
        let r = self.expire_escrow_at(escrow_id, at);
        proof {
            if r is Ok {
                assert(old(self).holds()[escrow_id].lapsed_at(at));
            }
        }
        r
    }

    /// Refunds the payment `payment_id`. The result names no amount: the rail
    /// knows what it refunds.
    pub fn refund_payment(&self, payment_id: &str) -> (r: Result<PaymentResult, NegotiationError>)
        ensures
            r matches Ok(result) && result.success && result.payment_id@ == payment_id@
                && result.amount == 0 && result.currency@ == "USD"@ && result.status is Refunded
                && 0 <= result.created_at < CLOCK_LIMIT && result.completed_at == Some(
                result.created_at,
            ) && result.error_message is None,
    {
        let at = now();
        Ok(
            PaymentResult {
                success: true,
                payment_id: String::from_str(payment_id),
                transaction_id: fresh_id(),
                amount: 0,
                currency: String::from_str("USD"),
                status: PaymentStatus::Refunded,
                created_at: at,
                completed_at: Some(at),
                error_message: None,
            },
        )
    }

    /// The status of the payment `payment_id`. The rails of this router
    /// complete every charge at once.
    pub fn get_payment_status(&self, payment_id: &str) -> (r: Result<
        PaymentStatus,
        NegotiationError,
    >)
        ensures
            r matches Ok(status) && status is Succeeded,
    {
        Ok(PaymentStatus::Succeeded)
    }

    /// Announces a payment to the direct-capture rail and returns the identity
    /// of the intent.
    pub fn create_payment_intent(&self, amount: Amount, currency: &str) -> (r: Result<
        String,
        NegotiationError,
    >)
        ensures
            r matches Ok(intent) && exists|id: u128| intent@ == "pi_mock_"@ + uuid_text(id),
    {
        let id = fresh_id();
        let intent = String::from_str("pi_mock_").concat(id_text(id).as_str());
        assert(intent@ == "pi_mock_"@ + uuid_text(id));
        Ok(intent)
    }

    /// Takes a notification of a payment processor whose signature the rail's
    /// validator has judged: one with an invalid signature is refused, and no
    /// notification changes the router's state.
    pub fn handle_webhook(&self, payload: &str, signature: &str, signature_valid: bool) -> (r:
        Result<(), NegotiationError>)
        ensures
            r is Ok <==> signature_valid,
            !signature_valid ==> (r matches Err(NegotiationError::Auth(m)) && m@
                == "Invalid webhook signature"@),
    {
        if !signature_valid {
            return Err(NegotiationError::Auth(String::from_str("Invalid webhook signature")));
        }
        Ok(())
    }
}

/// A hold that was opened expires exactly when its duration has passed since
/// its creation, and a release moves it from active to released.
pub proof fn law_escrow_hold_expiry(
    hold: EscrowHold,
    request: PaymentRequest,
    id: u128,
    at: Timestamp,
)
    requires
        hold.opened_for(&request, id, at),
    ensures
        hold.wf(),
        hold.expires_at == hold.created_at + hold.hold_duration_seconds,
        hold.status is Active,
        hold.with_status(EscrowStatus::Released).status is Released,
        hold.with_status(EscrowStatus::Released).wf(),
{
}

} // verus!
