use dcap::error::NegotiationError;
use dcap::model::RFQ;
use dcap::text::same_text;
use dcap::text::{signed_text, unsigned_text};

#[test]
fn numbers_as_decimal_text() {
    assert_eq!(unsigned_text(0), "0");
    assert_eq!(unsigned_text(9), "9");
    assert_eq!(unsigned_text(10), "10");
    assert_eq!(unsigned_text(1_234_567_890), "1234567890");
    assert_eq!(unsigned_text(u64::MAX), "18446744073709551615");
    assert_eq!(signed_text(0), "0");
    assert_eq!(signed_text(-1), "-1");
    assert_eq!(signed_text(-305), "-305");
    assert_eq!(signed_text(42), "42");
    assert_eq!(signed_text(i64::MAX), "9223372036854775807");
    assert_eq!(signed_text(i64::MIN), "-9223372036854775808");
}

fn id_text(id: u128) -> String {
    let message = NegotiationError::AgentNotFound(id).message();
    message.strip_prefix("Agent not found: ").unwrap().to_string()
}

fn fresh_id() -> u128 {
    RFQ::new(1, String::new(), 1, 1, String::new(), 1).id
}

#[test]
fn identities_as_text() {
    assert_eq!(id_text(0), "00000000-0000-0000-0000-000000000000");
    assert_eq!(
        id_text(0xa1a2a3a4b1b2c1c2d1d2d3d4d5d6d7d8),
        "a1a2a3a4-b1b2-c1c2-d1d2-d3d4d5d6d7d8"
    );
    assert_eq!(id_text(u128::MAX), "ffffffff-ffff-ffff-ffff-ffffffffffff");
}

#[test]
fn fresh_identities_are_version_four() {
    let a = fresh_id();
    let b = fresh_id();
    assert_ne!(a, b);
    for id in [a, b] {
        assert_eq!((id >> 76) & 0xf, 4);
        assert_eq!((id >> 62) & 0x3, 2);
        assert_eq!(uuid::Uuid::from_u128(id).get_version_num(), 4);
    }
}

#[test]
fn the_clock_is_within_its_limit() {
    let before = chrono::Utc::now().timestamp();
    let at = dcap::model::Quote::new(1, 2, 3, String::new(), 4, 5).created_at;
    assert!(at >= before);
    assert!(at <= chrono::Utc::now().timestamp());
    assert!(at < dcap::clock::CLOCK_LIMIT);
}

#[test]
fn texts_are_compared() {
    assert!(same_text("", ""));
    assert!(same_text("abc", "abc"));
    assert!(!same_text("abc", "abd"));
    assert!(!same_text("abc", "ab"));
}

#[test]
fn what_errors_say() {
    let text = |e: NegotiationError| e.message();
    assert_eq!(text(NegotiationError::Config("c".to_string())), "Invalid configuration: c");
    assert_eq!(text(NegotiationError::Auth("a".to_string())), "Authentication failed: a");
    assert_eq!(text(NegotiationError::Negotiation("n".to_string())), "Negotiation failed: n");
    assert_eq!(text(NegotiationError::Database("d".to_string())), "Database error: d");
    assert_eq!(text(NegotiationError::Network("w".to_string())), "Network error: w");
    assert_eq!(text(NegotiationError::Serialization("s".to_string())), "Serialization error: s");
    assert_eq!(text(NegotiationError::Payment("p".to_string())), "Payment error: p");
    assert_eq!(text(NegotiationError::Trust("t".to_string())), "Trust validation failed: t");
    assert_eq!(text(NegotiationError::Validation("v".to_string())), "Validation error: v");
    assert_eq!(text(NegotiationError::Io("i".to_string())), "IO error: i");
    assert_eq!(
        text(NegotiationError::AgentNotFound(0xabc)),
        "Agent not found: 00000000-0000-0000-0000-000000000abc"
    );
    assert_eq!(text(NegotiationError::ProductNotFound("x".to_string())), "Product not found: x");
    assert_eq!(text(NegotiationError::QuoteExpired), "Quote expired");
    assert_eq!(
        text(NegotiationError::InsufficientReputation(49)),
        "Insufficient reputation score: 49"
    );
    assert_eq!(text(NegotiationError::InsufficientStock(3)), "Insufficient stock: 3");
    assert_eq!(text(NegotiationError::InvalidInput(String::new())), "Invalid input: ");
    assert_eq!(text(NegotiationError::NotFound("hold".to_string())), "Not found: hold");
}
