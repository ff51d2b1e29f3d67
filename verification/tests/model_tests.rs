use dcap::error::NegotiationError;
use dcap::model::{AgentType, Negotiation, NegotiationStatus, Quote, RFQ};

fn now() -> i64 {
    chrono::Utc::now().timestamp()
}

fn rfq_with(quantity: u32, max_price: i64, deadline: i64) -> RFQ {
    RFQ::new(1, "test-product".to_string(), quantity, max_price, "USD".to_string(), deadline)
}

fn quoted_negotiation() -> (Negotiation, Quote) {
    let rfq = rfq_with(1, 10_000, now() + 24 * 3600);
    let quote = Quote::new(rfq.id, 2, 9_000, "USD".to_string(), 1, 3600);
    let mut negotiation = Negotiation::new(rfq, 2);
    negotiation.add_quote(&quote).unwrap();
    (negotiation, quote)
}

fn is_conflict<T>(r: &Result<T, NegotiationError>) -> bool {
    matches!(r, Err(NegotiationError::Negotiation(_)))
}

#[test]
fn test_negotiation_model() {
    let buyer_id = 11u128;
    let seller_id = 12u128;

    let mut rfq = RFQ::new(
        buyer_id,
        "test-product".to_string(),
        0,
        10_000,
        "USD".to_string(),
        now() + 24 * 3600,
    );
    assert!(rfq.validate().is_err());

    rfq.quantity = 1;
    assert!(rfq.validate().is_ok());

    let quote = Quote::new(rfq.id, seller_id, 9_000, "USD".to_string(), 1, 3600);
    assert!(quote.validate().is_ok());
    assert!(!quote.is_expired());

    let mut negotiation = Negotiation::new(rfq, seller_id);
    assert_eq!(negotiation.status, NegotiationStatus::Pending);

    negotiation.add_quote(&quote).unwrap();
    assert_eq!(negotiation.status, NegotiationStatus::Quoted);

    negotiation.accept(quote.price).unwrap();
    assert_eq!(negotiation.status, NegotiationStatus::Accepted);

    let record = negotiation.to_record();
    assert!(record.is_some());
}

#[test]
fn test_negotiation_flow() {
    let rfq = RFQ::new(
        21,
        "laptop-001".to_string(),
        1,
        120_000,
        "USD".to_string(),
        now() + 24 * 3600,
    );
    assert!(rfq.validate().is_ok());
    assert_eq!(rfq.quantity, 1);
    assert_eq!(rfq.max_price, 120_000);
}

#[test]
fn rfq_new_keeps_what_it_is_given() {
    let rfq = RFQ::new(5, "p".to_string(), 3, 700, "EUR".to_string(), 99);
    assert_eq!(rfq.buyer_id, 5);
    assert_eq!(rfq.product_id, "p");
    assert_eq!(rfq.quantity, 3);
    assert_eq!(rfq.max_price, 700);
    assert_eq!(rfq.currency, "EUR");
    assert_eq!(rfq.deadline, 99);
    assert!(rfq.delivery_location.is_none());
    assert!(rfq.metadata.is_empty());
}

#[test]
fn rfq_ids_differ() {
    let a = rfq_with(1, 1, 1);
    let b = rfq_with(1, 1, 1);
    assert_ne!(a.id, b.id);
}

#[test]
fn rfq_validation_names_the_first_defect() {
    let at = 1_000;
    match rfq_with(0, 0, 0).validate_at(at) {
        Err(NegotiationError::Validation(m)) => assert_eq!(m, "Quantity must be greater than 0"),
        _ => panic!("zero quantity must be refused"),
    }
    match rfq_with(1, 0, 0).validate_at(at) {
        Err(NegotiationError::Validation(m)) => assert_eq!(m, "Max price must be greater than 0"),
        _ => panic!("zero price must be refused"),
    }
    match rfq_with(1, -5, 2_000).validate_at(at) {
        Err(NegotiationError::Validation(m)) => assert_eq!(m, "Max price must be greater than 0"),
        _ => panic!("negative price must be refused"),
    }
    match rfq_with(1, 5, 1_000).validate_at(at) {
        Err(NegotiationError::Validation(m)) => assert_eq!(m, "Deadline must be in the future"),
        _ => panic!("a deadline that is now must be refused"),
    }
    match rfq_with(1, 5, 999).validate_at(at) {
        Err(NegotiationError::Validation(m)) => assert_eq!(m, "Deadline must be in the future"),
        _ => panic!("a past deadline must be refused"),
    }
    assert!(rfq_with(1, 5, 1_001).validate_at(at).is_ok());
}

#[test]
fn rfq_validation_with_extreme_values() {
    assert!(rfq_with(u32::MAX, i64::MAX, i64::MAX).validate_at(i64::MAX - 1).is_ok());
    assert!(rfq_with(1, i64::MIN, i64::MAX).validate_at(0).is_err());
    assert!(rfq_with(1, 1, i64::MIN).validate_at(i64::MIN).is_err());
}

#[test]
fn rfq_validation_against_the_clock() {
    assert!(rfq_with(1, 5, now() - 1).validate().is_err());
    assert!(rfq_with(1, 5, now() + 3600).validate().is_ok());
}

#[test]
fn quote_expires_strictly_after_its_ttl() {
    let quote = Quote::issued_at(1, 2, 100, "USD".to_string(), 1, 3600, 10_000);
    assert!(!quote.is_expired_at(10_000));
    assert!(!quote.is_expired_at(13_599));
    assert!(!quote.is_expired_at(13_600));
    assert!(quote.is_expired_at(13_601));
    assert!(!quote.is_expired_at(0));
}

#[test]
fn quote_expiry_does_not_overflow() {
    let quote = Quote::issued_at(1, 2, 100, "USD".to_string(), 1, u32::MAX, i64::MAX);
    assert!(!quote.is_expired_at(i64::MAX));
    let early = Quote::issued_at(1, 2, 100, "USD".to_string(), 1, 0, i64::MIN);
    assert!(early.is_expired_at(i64::MIN + 1));
    assert!(!early.is_expired_at(i64::MIN));
}

#[test]
fn quote_new_is_fresh() {
    let before = now();
    let quote = Quote::new(7, 8, 9_000, "USD".to_string(), 4, 60);
    assert!(quote.created_at >= before);
    assert_eq!(quote.rfq_id, 7);
    assert_eq!(quote.seller_id, 8);
    assert_eq!(quote.price, 9_000);
    assert_eq!(quote.available_quantity, 4);
    assert_eq!(quote.ttl_seconds, 60);
    assert!(!quote.is_expired());
}

#[test]
fn quote_validation_names_the_first_defect() {
    let quote = |price: i64, quantity: u32, ttl: u32| {
        Quote::issued_at(1, 2, price, "USD".to_string(), quantity, ttl, 0)
    };
    match quote(0, 0, 0).validate() {
        Err(NegotiationError::Validation(m)) => assert_eq!(m, "Price must be greater than 0"),
        _ => panic!("zero price must be refused"),
    }
    match quote(1, 0, 0).validate() {
        Err(NegotiationError::Validation(m)) => {
            assert_eq!(m, "Available quantity must be greater than 0")
        }
        _ => panic!("zero quantity must be refused"),
    }
    match quote(1, 1, 0).validate() {
        Err(NegotiationError::Validation(m)) => assert_eq!(m, "TTL must be greater than 0"),
        _ => panic!("zero ttl must be refused"),
    }
    assert!(quote(1, 1, 1).validate().is_ok());
    assert!(quote(-1, 1, 1).validate().is_err());
}

#[test]
fn new_negotiation_is_pending() {
    let rfq = rfq_with(3, 10_000, 50);
    let rfq_id = rfq.id;
    let negotiation = Negotiation::new(rfq, 77);
    assert_eq!(negotiation.rfq_id, rfq_id);
    assert_eq!(negotiation.buyer_id, 1);
    assert_eq!(negotiation.seller_id, 77);
    assert_eq!(negotiation.product_id, "test-product");
    assert_eq!(negotiation.quantity, 3);
    assert_eq!(negotiation.opening_bid, 10_000);
    assert_eq!(negotiation.status, NegotiationStatus::Pending);
    assert!(negotiation.quote_id.is_none());
    assert!(negotiation.close_price.is_none());
    assert!(negotiation.delta.is_none());
    assert!(negotiation.messages.is_empty());
    assert_eq!(negotiation.created_at, negotiation.updated_at);
    assert!(negotiation.to_record().is_none());
}

#[test]
fn accept_from_pending_is_a_conflict() {
    let mut negotiation = Negotiation::new(rfq_with(1, 100, 50), 2);
    let r = negotiation.accept(90);
    assert!(is_conflict(&r));
    assert_eq!(negotiation.status, NegotiationStatus::Pending);
    assert!(negotiation.close_price.is_none());
    assert!(is_conflict(&negotiation.reject()));
    assert!(is_conflict(&negotiation.settle()));
    assert!(is_conflict(&negotiation.counter(1)));
    assert!(is_conflict(&negotiation.expire()));
    assert!(is_conflict(&negotiation.clear_quote()));
    assert_eq!(negotiation.status, NegotiationStatus::Pending);
}

#[test]
fn accept_from_rejected_is_a_conflict() {
    let (mut negotiation, _) = quoted_negotiation();
    negotiation.reject().unwrap();
    assert_eq!(negotiation.status, NegotiationStatus::Rejected);
    for price in [i64::MIN, -1, 0, 1, 9_000, i64::MAX] {
        assert!(is_conflict(&negotiation.accept(price)));
    }
    assert_eq!(negotiation.status, NegotiationStatus::Rejected);
    assert!(negotiation.close_price.is_none());
    assert!(is_conflict(&negotiation.reject()));
    assert!(is_conflict(&negotiation.counter(1)));
    assert!(is_conflict(&negotiation.settle()));
}

#[test]
fn second_quote_is_refused() {
    let (mut negotiation, first) = quoted_negotiation();
    let other = Quote::new(99, 98, 1, "EUR".to_string(), 5, 1);
    match negotiation.add_quote(&other) {
        Err(NegotiationError::Negotiation(m)) => {
            assert_eq!(m, "Quote already exists for this negotiation")
        }
        _ => panic!("a second quote must be refused"),
    }
    assert!(is_conflict(&negotiation.add_quote(&first)));
    assert_eq!(negotiation.quote_id, Some(first.id));
    assert_eq!(negotiation.status, NegotiationStatus::Quoted);
}

#[test]
fn delta_is_close_price_less_opening_bid() {
    let (mut negotiation, _) = quoted_negotiation();
    negotiation.accept(9_000).unwrap();
    assert_eq!(negotiation.close_price, Some(9_000));
    assert_eq!(negotiation.delta, Some(-1_000));

    let mut wide = Negotiation::new(rfq_with(1, i64::MAX, 50), 2);
    wide.add_quote(&Quote::new(1, 2, 1, "USD".to_string(), 1, 1)).unwrap();
    wide.accept(i64::MIN).unwrap();
    assert_eq!(wide.delta, Some(i64::MIN as i128 - i64::MAX as i128));
}

#[test]
fn counter_offer_must_be_below_the_opening_bid() {
    let (mut negotiation, _) = quoted_negotiation();
    match negotiation.counter(10_000) {
        Err(NegotiationError::Validation(m)) => {
            assert_eq!(m, "Counter offer must be less than opening bid")
        }
        _ => panic!("an offer at the opening bid must be refused"),
    }
    assert!(negotiation.counter(10_001).is_err());
    assert_eq!(negotiation.status, NegotiationStatus::Quoted);
    negotiation.counter(9_999).unwrap();
    assert_eq!(negotiation.status, NegotiationStatus::Negotiating);
    negotiation.counter(8_000).unwrap();
    assert_eq!(negotiation.status, NegotiationStatus::Negotiating);
}

#[test]
fn requoting_needs_the_quote_cleared() {
    let (mut negotiation, _) = quoted_negotiation();
    assert!(is_conflict(&negotiation.clear_quote()));
    negotiation.counter(8_000).unwrap();
    let fresh = Quote::new(negotiation.rfq_id, 2, 8_500, "USD".to_string(), 1, 1800);
    assert!(is_conflict(&negotiation.add_quote(&fresh)));
    negotiation.clear_quote().unwrap();
    assert!(negotiation.quote_id.is_none());
    assert_eq!(negotiation.status, NegotiationStatus::Negotiating);
    negotiation.add_quote(&fresh).unwrap();
    assert_eq!(negotiation.status, NegotiationStatus::Quoted);
    assert_eq!(negotiation.quote_id, Some(fresh.id));
}

#[test]
fn settle_twice_is_refused() {
    let (mut negotiation, _) = quoted_negotiation();
    assert!(is_conflict(&negotiation.settle()));
    negotiation.accept(9_000).unwrap();
    negotiation.settle().unwrap();
    assert_eq!(negotiation.status, NegotiationStatus::Settled);
    match negotiation.settle() {
        Err(NegotiationError::Negotiation(m)) => {
            assert_eq!(m, "Cannot settle unaccepted negotiation")
        }
        _ => panic!("a second settlement must be refused"),
    }
    assert!(is_conflict(&negotiation.accept(1)));
    assert!(is_conflict(&negotiation.add_quote(&Quote::new(1, 2, 1, "USD".to_string(), 1, 1))));
    assert_eq!(negotiation.status, NegotiationStatus::Settled);
}

#[test]
fn expiry_is_terminal() {
    let (mut negotiation, _) = quoted_negotiation();
    negotiation.expire().unwrap();
    assert_eq!(negotiation.status, NegotiationStatus::Expired);
    assert!(is_conflict(&negotiation.expire()));
    assert!(is_conflict(&negotiation.accept(1)));
    assert!(is_conflict(&negotiation.reject()));
}

#[test]
fn record_of_a_closed_negotiation() {
    let (mut negotiation, _) = quoted_negotiation();
    assert!(negotiation.to_record().is_none());
    negotiation.accept(9_500).unwrap();
    negotiation.created_at = 1_000;
    negotiation.updated_at = 1_042;
    let record = negotiation.to_record().unwrap();
    assert_eq!(record.buyer_id, negotiation.buyer_id);
    assert_eq!(record.seller_id, negotiation.seller_id);
    assert_eq!(record.product_hash, "test-product");
    assert_eq!(record.opening_bid, 10_000);
    assert_eq!(record.close_price, 9_500);
    assert_eq!(record.delta, -500);
    assert_eq!(record.timestamp, 1_000);
    assert_eq!(record.duration_seconds, 42);
    assert_eq!(record.message_count, 0);

    negotiation.updated_at = 999;
    assert_eq!(negotiation.to_record().unwrap().duration_seconds, 0);
    negotiation.created_at = i64::MIN;
    negotiation.updated_at = i64::MAX;
    assert_eq!(negotiation.to_record().unwrap().duration_seconds, u64::MAX);
}

#[test]
fn stored_labels_read_back() {
    let all = [
        NegotiationStatus::Pending,
        NegotiationStatus::Quoted,
        NegotiationStatus::Negotiating,
        NegotiationStatus::Accepted,
        NegotiationStatus::Rejected,
        NegotiationStatus::Expired,
        NegotiationStatus::Settled,
    ];
    for status in all {
        assert_eq!(NegotiationStatus::from_label(status.label()).unwrap(), status);
    }
    assert_eq!(NegotiationStatus::Negotiating.label(), "negotiating");
    match NegotiationStatus::from_label("Pending") {
        Err(NegotiationError::Validation(m)) => assert_eq!(m, "Invalid negotiation status"),
        _ => panic!("an unknown status must be refused"),
    }
    assert_eq!(AgentType::from_label("Buyer").unwrap(), AgentType::Buyer);
    assert_eq!(AgentType::from_label("Seller").unwrap(), AgentType::Seller);
    assert_eq!(AgentType::Seller.label(), "Seller");
    match AgentType::from_label("seller") {
        Err(NegotiationError::Validation(m)) => assert_eq!(m, "Invalid agent type"),
        _ => panic!("an unknown side must be refused"),
    }
}

#[test]
fn an_expired_quote_is_never_attached() {
    let mut negotiation = Negotiation::new(rfq_with(1, 10_000, 50), 2);
    let quote = Quote::issued_at(1, 2, 9_000, "USD".to_string(), 1, 60, 1_000);
    assert!(matches!(
        negotiation.add_quote_at(&quote, 1_061),
        Err(NegotiationError::QuoteExpired)
    ));
    assert_eq!(negotiation.quote_id, None);
    assert_eq!(negotiation.status, NegotiationStatus::Pending);
    assert!(matches!(negotiation.add_quote(&quote), Err(NegotiationError::QuoteExpired)));
    assert_eq!(negotiation.quote_id, None);
    assert_eq!(negotiation.status, NegotiationStatus::Pending);

    negotiation.add_quote_at(&quote, 1_060).unwrap();
    assert_eq!(negotiation.quote_id, Some(quote.id));
    assert_eq!(negotiation.status, NegotiationStatus::Quoted);
    assert_eq!(negotiation.updated_at, 1_060);
}

#[test]
fn a_second_quote_is_a_conflict_whatever_it_holds() {
    let mut negotiation = Negotiation::new(rfq_with(1, 10_000, 50), 2);
    let first = Quote::issued_at(1, 2, 9_000, "USD".to_string(), 1, 60, 1_000);
    negotiation.add_quote_at(&first, 1_000).unwrap();
    let standing = Quote::issued_at(1, 2, 8_000, "EUR".to_string(), 3, 3_600, 1_000);
    let lapsed = Quote::issued_at(7, 9, -1, String::new(), 0, 0, 0);
    for second in [&first, &standing, &lapsed] {
        for at in [0, 1_000, 1_060, 1_061, 1_000_000] {
            match negotiation.add_quote_at(second, at) {
                Err(NegotiationError::Negotiation(message)) => {
                    assert_eq!(message, "Quote already exists for this negotiation")
                }
                _ => panic!("a second quote must be a conflict"),
            }
            assert_eq!(negotiation.quote_id, Some(first.id));
            assert_eq!(negotiation.status, NegotiationStatus::Quoted);
            assert_eq!(negotiation.updated_at, 1_000);
        }
        assert!(is_conflict(&negotiation.add_quote(second)));
        assert_eq!(negotiation.quote_id, Some(first.id));
    }
}

#[test]
fn a_quote_is_replaced_while_counter_offers_are_exchanged() {
    let (mut negotiation, first) = quoted_negotiation();
    let fresh = Quote::issued_at(negotiation.rfq_id, 2, 8_500, "USD".to_string(), 1, 1_800, 5_000);
    assert!(is_conflict(&negotiation.replace_quote_at(&fresh, 5_000)));
    negotiation.counter(8_000).unwrap();
    assert!(matches!(
        negotiation.replace_quote_at(&fresh, 6_801),
        Err(NegotiationError::QuoteExpired)
    ));
    assert_eq!(negotiation.quote_id, Some(first.id));
    assert_eq!(negotiation.status, NegotiationStatus::Negotiating);
    negotiation.replace_quote_at(&fresh, 6_800).unwrap();
    assert_eq!(negotiation.quote_id, Some(fresh.id));
    assert_eq!(negotiation.status, NegotiationStatus::Quoted);
    assert_eq!(negotiation.updated_at, 6_800);
    negotiation.counter(7_000).unwrap();
    let newer = Quote::new(negotiation.rfq_id, 2, 7_500, "USD".to_string(), 1, 1_800);
    negotiation.replace_quote(&newer).unwrap();
    assert_eq!(negotiation.quote_id, Some(newer.id));
}
