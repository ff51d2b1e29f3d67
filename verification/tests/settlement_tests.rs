use dcap::error::NegotiationError;
use dcap::model::PaymentMethod;
use dcap::settlement::{
    EscrowHold, EscrowStatus, PaymentRequest, PaymentStatus, SettlementConfig, SettlementService,
};
use std::collections::HashMap;

fn unconfigured() -> SettlementService {
    SettlementService::new(SettlementConfig {
        stripe_secret_key: None,
        solana_rpc_url: None,
        escrow_service_url: None,
    })
    .unwrap()
}

fn request(method: PaymentMethod, amount: i64) -> PaymentRequest {
    PaymentRequest {
        transaction_id: 500,
        buyer_id: 1,
        seller_id: 2,
        amount,
        currency: "EUR".to_string(),
        payment_method: method,
        description: "a deal".to_string(),
        metadata: HashMap::new(),
    }
}

fn hold_id_of(payment_id: &str) -> u128 {
    let text = payment_id.strip_prefix("escrow_").unwrap();
    uuid::Uuid::parse_str(text).unwrap().as_u128()
}

fn payment_message<T>(r: Result<T, NegotiationError>) -> String {
    match r {
        Err(NegotiationError::Negotiation(message)) => message,
        _ => panic!("a conflict is expected"),
    }
}

fn unknown<T>(r: Result<T, NegotiationError>) -> String {
    match r {
        Err(NegotiationError::NotFound(message)) => message,
        _ => panic!("a refusal of an unknown identity is expected"),
    }
}

fn hold(status: EscrowStatus) -> EscrowHold {
    EscrowHold {
        id: 1,
        transaction_id: 2,
        buyer_id: 3,
        seller_id: 4,
        amount: 5,
        currency: "USD".to_string(),
        hold_duration_seconds: 604_800,
        created_at: 1_000,
        expires_at: 605_800,
        status,
        release_conditions: vec![],
    }
}

#[test]
fn test_settlement_service() {
    let mut settlement = unconfigured();
    let buyer_id = uuid::Uuid::new_v4().as_u128();
    let seller_id = uuid::Uuid::new_v4().as_u128();

    let result = settlement.create_payment(buyer_id, seller_id, 10_000, "USD".to_string()).unwrap();
    assert!(result.success);
    assert_eq!(result.amount, 10_000);

    let status = settlement.get_payment_status(&result.payment_id).unwrap();
    assert!(!format!("{:?}", status).is_empty());
}

#[test]
fn direct_capture_succeeds_at_once() {
    let mut settlement = unconfigured();
    let result = settlement.process_payment(request(PaymentMethod::Stripe, 1_234)).unwrap();
    assert!(result.success);
    assert_eq!(result.status, PaymentStatus::Succeeded);
    assert_eq!(result.transaction_id, 500);
    assert_eq!(result.amount, 1_234);
    assert_eq!(result.currency, "EUR");
    assert_eq!(result.completed_at, Some(result.created_at));
    assert!(result.error_message.is_none());
    let id = result.payment_id.strip_prefix("stripe_").unwrap();
    assert!(uuid::Uuid::parse_str(id).is_ok());
    assert_eq!(id.len(), 36);
}

#[test]
fn ledger_transfer_succeeds_at_once() {
    let mut settlement = unconfigured();
    let result = settlement.process_payment(request(PaymentMethod::Solana, -7)).unwrap();
    assert_eq!(result.status, PaymentStatus::Succeeded);
    assert_eq!(result.amount, -7);
    let id = result.payment_id.strip_prefix("sol_").unwrap();
    assert!(uuid::Uuid::parse_str(id).is_ok());
    let direct = settlement.process_solana_payment(&request(PaymentMethod::Stripe, 1)).unwrap();
    assert!(direct.payment_id.starts_with("sol_"));
    let card = settlement.process_stripe_payment(&request(PaymentMethod::Solana, 1)).unwrap();
    assert!(card.payment_id.starts_with("stripe_"));
}

#[test]
fn payment_ids_differ() {
    let mut settlement = unconfigured();
    let a = settlement.create_payment(1, 2, 5, "USD".to_string()).unwrap();
    let b = settlement.create_payment(1, 2, 5, "USD".to_string()).unwrap();
    assert_ne!(a.payment_id, b.payment_id);
    assert_ne!(a.transaction_id, b.transaction_id);
    assert!(a.payment_id.starts_with("stripe_"));
}

#[test]
fn escrow_is_pending_until_released() {
    let mut settlement = unconfigured();
    let pending = settlement.process_payment(request(PaymentMethod::Escrow, 9_900)).unwrap();
    assert!(pending.success);
    assert_eq!(pending.status, PaymentStatus::Pending);
    assert_eq!(pending.completed_at, None);
    assert_eq!(pending.amount, 9_900);
    assert_eq!(pending.currency, "EUR");
    assert_eq!(pending.transaction_id, 500);

    let hold_id = hold_id_of(&pending.payment_id);
    let released = settlement.release_escrow(hold_id).unwrap();
    assert!(released.success);
    assert_eq!(released.status, PaymentStatus::Succeeded);
    assert_eq!(released.amount, 9_900);
    assert_eq!(released.currency, "EUR");
    assert_eq!(released.transaction_id, 500);
    assert_eq!(
        released.payment_id,
        format!("escrow_release_{}", uuid::Uuid::from_u128(hold_id))
    );
    assert_eq!(released.completed_at, Some(released.created_at));

    assert_eq!(payment_message(settlement.release_escrow(hold_id)), "Escrow hold is not active");
    assert_eq!(payment_message(settlement.refund_escrow(hold_id)), "Escrow hold is not active");
    assert_eq!(
        payment_message(settlement.expire_escrow_at(hold_id, i64::MAX)),
        "Escrow hold is not active"
    );
}

#[test]
fn escrow_can_be_refunded_once() {
    let mut settlement = unconfigured();
    let pending = settlement.process_escrow_payment(&request(PaymentMethod::Escrow, 40)).unwrap();
    let hold_id = hold_id_of(&pending.payment_id);
    let refunded = settlement.refund_escrow(hold_id).unwrap();
    assert_eq!(refunded.status, PaymentStatus::Refunded);
    assert_eq!(refunded.amount, 40);
    assert_eq!(
        refunded.payment_id,
        format!("escrow_refund_{}", uuid::Uuid::from_u128(hold_id))
    );
    assert_eq!(payment_message(settlement.release_escrow(hold_id)), "Escrow hold is not active");
}

#[test]
fn escrow_expires_after_seven_days() {
    let mut settlement = unconfigured();
    let pending = settlement.process_payment(request(PaymentMethod::Escrow, 40)).unwrap();
    let hold_id = hold_id_of(&pending.payment_id);
    let expiry = pending.created_at + 7 * 24 * 3600;
    assert_eq!(
        payment_message(settlement.expire_escrow_at(hold_id, expiry)),
        "Escrow hold has not expired"
    );
    assert!(settlement.expire_escrow_at(hold_id, expiry + 1).is_ok());
    assert_eq!(payment_message(settlement.release_escrow(hold_id)), "Escrow hold is not active");
}

#[test]
fn an_unknown_hold_is_not_found() {
    let mut settlement = unconfigured();
    assert_eq!(unknown(settlement.release_escrow(77)), "Escrow hold not found");
    assert_eq!(unknown(settlement.refund_escrow(77)), "Escrow hold not found");
    assert_eq!(unknown(settlement.expire_escrow_at(77, 0)), "Escrow hold not found");
}

#[test]
fn a_hold_moves_once() {
    let mut active = hold(EscrowStatus::Active);
    assert!(active.release().is_ok());
    assert_eq!(active.status, EscrowStatus::Released);
    assert_eq!(payment_message(active.release()), "Escrow hold is not active");
    assert_eq!(payment_message(active.refund()), "Escrow hold is not active");
    assert_eq!(active.status, EscrowStatus::Released);

    let mut refunded = hold(EscrowStatus::Active);
    assert!(refunded.refund().is_ok());
    assert_eq!(refunded.status, EscrowStatus::Refunded);

    let mut lapsing = hold(EscrowStatus::Active);
    assert_eq!(payment_message(lapsing.expire_at(605_800)), "Escrow hold has not expired");
    assert_eq!(lapsing.status, EscrowStatus::Active);
    assert!(lapsing.expire_at(605_801).is_ok());
    assert_eq!(lapsing.status, EscrowStatus::Expired);
    assert_eq!(payment_message(lapsing.expire_at(605_801)), "Escrow hold is not active");
    assert_eq!(lapsing.amount, 5);
    assert_eq!(lapsing.expires_at, 605_800);
}

#[test]
fn a_webhook_with_an_invalid_signature_is_refused() {
    let mut settlement = unconfigured();
    let pending = settlement.process_payment(request(PaymentMethod::Escrow, 40)).unwrap();
    let hold_id = hold_id_of(&pending.payment_id);
    for payload in ["", "{}", "{\"type\":\"payment_intent.succeeded\"}", "release everything"] {
        match settlement.handle_webhook(payload, "sig", false) {
            Err(NegotiationError::Auth(message)) => {
                assert_eq!(message, "Invalid webhook signature")
            }
            _ => panic!("the webhook must be refused"),
        }
    }
    assert!(settlement.handle_webhook("{}", "sig", true).is_ok());
    assert_eq!(
        settlement.release_escrow(hold_id).unwrap().status,
        PaymentStatus::Succeeded
    );
}

#[test]
fn a_rail_is_usable_when_it_is_configured() {
    let none = unconfigured();
    assert!(!none.validate_payment_method(&PaymentMethod::Stripe).unwrap());
    assert!(!none.validate_payment_method(&PaymentMethod::Solana).unwrap());
    assert!(!none.validate_payment_method(&PaymentMethod::Escrow).unwrap());
    let some = SettlementService::new(SettlementConfig {
        stripe_secret_key: Some("key".to_string()),
        solana_rpc_url: None,
        escrow_service_url: Some("http://escrow".to_string()),
    })
    .unwrap();
    assert!(some.validate_payment_method(&PaymentMethod::Stripe).unwrap());
    assert!(!some.validate_payment_method(&PaymentMethod::Solana).unwrap());
    assert!(some.validate_payment_method(&PaymentMethod::Escrow).unwrap());
    assert_eq!(
        some.get_payment_methods(1).unwrap(),
        vec![PaymentMethod::Stripe, PaymentMethod::Solana, PaymentMethod::Escrow]
    );
}

#[test]
fn the_verdict_of_a_rail_maps_to_a_status() {
    let settlement = unconfigured();
    assert_eq!(settlement.map_payment_status(true), PaymentStatus::Succeeded);
    assert_eq!(settlement.map_payment_status(false), PaymentStatus::Failed);
}

#[test]
fn refunds_and_intents() {
    let settlement = unconfigured();
    let refund = settlement.refund_payment("stripe_abc").unwrap();
    assert!(refund.success);
    assert_eq!(refund.payment_id, "stripe_abc");
    assert_eq!(refund.amount, 0);
    assert_eq!(refund.currency, "USD");
    assert_eq!(refund.status, PaymentStatus::Refunded);
    assert_eq!(refund.completed_at, Some(refund.created_at));
    assert_eq!(settlement.get_payment_status("anything").unwrap(), PaymentStatus::Succeeded);
    let intent = settlement.create_payment_intent(100, "USD").unwrap();
    let id = intent.strip_prefix("pi_mock_").unwrap();
    assert!(uuid::Uuid::parse_str(id).is_ok());
}

#[test]
fn every_escrow_request_opens_one_hold() {
    let mut settlement = unconfigured();
    let mut ids = Vec::new();
    for amount in 1..=20 {
        let pending = settlement.process_payment(request(PaymentMethod::Escrow, amount)).unwrap();
        assert_eq!(pending.status, PaymentStatus::Pending);
        assert_eq!(pending.amount, amount);
        ids.push(hold_id_of(&pending.payment_id));
    }
    ids.sort();
    ids.dedup();
    assert_eq!(ids.len(), 20);
    for id in ids {
        assert_eq!(settlement.release_escrow(id).unwrap().status, PaymentStatus::Succeeded);
    }
}

#[test]
fn a_hold_is_opened_under_the_identity_given() {
    let mut settlement = unconfigured();
    let pending = settlement.open_escrow_with(&request(PaymentMethod::Escrow, 9), 42, 1_000).unwrap();
    assert_eq!(pending.payment_id, "escrow_00000000-0000-0000-0000-00000000002a");
    assert_eq!(pending.status, PaymentStatus::Pending);
    assert_eq!(pending.created_at, 1_000);
    assert_eq!(pending.completed_at, None);
    assert_eq!(
        payment_message(settlement.open_escrow_with(&request(PaymentMethod::Escrow, 9), 42, 2_000)),
        "Escrow hold identity is in use"
    );
    assert_eq!(
        payment_message(settlement.expire_escrow_at(42, 1_000 + 604_800)),
        "Escrow hold has not expired"
    );
    assert!(settlement.expire_escrow_at(42, 1_000 + 604_801).is_ok());
}
