use dcap::error::NegotiationError;
use dcap::pricing::Factor;
use dcap::trust::{
    adjust_score, claims_from_parts, claims_of, TrustActivityType, TrustLevel, TrustSystem,
};

fn engine() -> TrustSystem {
    TrustSystem::new(None).unwrap()
}

fn uuid_of(id: u128) -> String {
    uuid::Uuid::from_u128(id).to_string()
}

#[test]
fn test_trust_system() {
    let mut trust = engine();
    let agent_id = uuid::Uuid::new_v4().as_u128();

    let initial_score = trust.get_reputation(agent_id).unwrap();
    assert_eq!(initial_score, 0);

    trust.update_reputation(agent_id, 10).unwrap();
    let updated_score = trust.get_reputation(agent_id).unwrap();
    assert_eq!(updated_score, 10);

    let trust_level = trust.get_trust_level(agent_id).unwrap();
    assert_eq!(format!("{:?}", trust_level), "Untrusted");

    let jwt = trust.generate_jwt(agent_id).unwrap();
    assert!(!jwt.is_empty());

    let claims = trust.validate_jwt(&jwt).unwrap();
    assert_eq!(claims.sub, uuid_of(agent_id));
    assert_eq!(claims.reputation_score, 10);
}

#[test]
fn tier_boundaries() {
    assert_eq!(TrustLevel::from(0), TrustLevel::Untrusted);
    assert_eq!(TrustLevel::from(49), TrustLevel::Untrusted);
    assert_eq!(TrustLevel::from(50), TrustLevel::Neutral);
    assert_eq!(TrustLevel::from(74), TrustLevel::Neutral);
    assert_eq!(TrustLevel::from(75), TrustLevel::Trusted);
    assert_eq!(TrustLevel::from(89), TrustLevel::Trusted);
    assert_eq!(TrustLevel::from(90), TrustLevel::HighlyTrusted);
    assert_eq!(TrustLevel::from(100), TrustLevel::HighlyTrusted);
    assert_eq!(TrustLevel::from(u32::MAX), TrustLevel::HighlyTrusted);
}

#[test]
fn tier_labels_and_thresholds() {
    assert_eq!(TrustLevel::Untrusted.label(), "untrusted");
    assert_eq!(TrustLevel::Neutral.label(), "neutral");
    assert_eq!(TrustLevel::Trusted.label(), "trusted");
    assert_eq!(TrustLevel::HighlyTrusted.label(), "highlytrusted");
    let percent = |n: u64| Factor { numerator: n, denominator: 100 };
    assert_eq!(TrustLevel::Untrusted.dynamic_threshold(), percent(150));
    assert_eq!(TrustLevel::Neutral.dynamic_threshold(), percent(120));
    assert_eq!(TrustLevel::Trusted.dynamic_threshold(), percent(100));
    assert_eq!(TrustLevel::HighlyTrusted.dynamic_threshold(), percent(80));
}

#[test]
fn scores_are_held_within_range() {
    assert_eq!(adjust_score(0, -1), 0);
    assert_eq!(adjust_score(0, i32::MIN), 0);
    assert_eq!(adjust_score(100, 1), 100);
    assert_eq!(adjust_score(100, i32::MAX), 100);
    assert_eq!(adjust_score(u32::MAX, i32::MAX), 100);
    assert_eq!(adjust_score(u32::MAX, i32::MIN), 100);
    assert_eq!(adjust_score(40, 7), 47);
    assert_eq!(adjust_score(40, -7), 33);
    assert_eq!(adjust_score(99, 1), 100);
    assert_eq!(adjust_score(1, -1), 0);
}

#[test]
fn any_sequence_of_changes_keeps_the_score_in_range() {
    let mut trust = engine();
    let changes = [5, 200, -3, i32::MAX, -50, i32::MIN, 1, 99, 1, -1, 0, 1000, -1000, 42];
    let mut expected: i64 = 0;
    for (step, change) in changes.iter().enumerate() {
        trust.update_reputation_at(9, *change, step as i64).unwrap();
        expected = (expected + *change as i64).clamp(0, 100);
        let score = trust.get_reputation_at(9, step as i64);
        assert!(score <= 100);
        assert_eq!(score as i64, expected);
    }
}

#[test]
fn cached_scores_are_served_for_thirty_minutes() {
    let mut trust = engine();
    trust.update_reputation_at(3, 60, 10_000).unwrap();
    assert_eq!(trust.get_reputation_at(3, 10_000), 60);
    assert_eq!(trust.get_reputation_at(3, 11_799), 60);
    assert_eq!(trust.get_reputation_at(3, 9_000), 60);
    assert_eq!(trust.get_reputation_at(4, 10_000), 0);
    assert_eq!(trust.get_reputation_with(3, 11_799, Some(7)), 60);
    assert_eq!(trust.get_reputation_with(3, 11_799, None), 60);
    assert_eq!(trust.get_reputation_with(3, 11_800, Some(7)), 7);
    assert_eq!(trust.get_reputation_with(3, 11_800, None), 0);
    assert_eq!(trust.get_reputation_with(4, 10_000, Some(33)), 33);
    assert_eq!(trust.get_reputation_with(4, 10_000, None), 0);
    assert_eq!(trust.get_trust_level_at(3, 10_000), TrustLevel::Neutral);
    assert!(trust.check_min_reputation_at(3, 60, 10_000));
    assert!(!trust.check_min_reputation_at(3, 61, 10_000));
    assert!(trust.check_min_reputation_at(4, 0, 10_000));
}

#[test]
fn a_stale_score_is_read_again_from_the_store() {
    let mut trust = engine();
    trust.update_reputation_at(3, 60, 0).unwrap();
    assert_eq!(trust.stored_score(3), Some(60));
    assert_eq!(trust.get_reputation_at(3, 1_799), 60);
    assert_eq!(trust.get_reputation_at(3, 1_800), 60);
    assert_eq!(trust.get_reputation_at(3, 1_000_000), 60);
    assert_eq!(trust.get_trust_level_at(3, 1_000_000), TrustLevel::Neutral);
    trust.update_reputation_at(3, 5, 1_800).unwrap();
    assert_eq!(trust.get_reputation_at(3, 1_800), 65);
    assert_eq!(trust.stored_score(3), Some(65));
    assert_eq!(trust.stored_score(4), None);
}

#[test]
fn an_adjustment_reads_through_the_answer_of_the_store() {
    let mut trust = engine();
    trust.update_reputation_with(3, 5, 100, Some(40)).unwrap();
    assert_eq!(trust.get_reputation_at(3, 100), 45);
    trust.update_reputation_with(3, 5, 200, Some(90)).unwrap();
    assert_eq!(trust.get_reputation_at(3, 200), 50);
    trust.update_reputation_with(3, 5, 5_000, Some(90)).unwrap();
    assert_eq!(trust.get_reputation_at(3, 5_000), 95);
    trust.update_reputation_with(4, -5, 5_000, None).unwrap();
    assert_eq!(trust.get_reputation_at(4, 5_000), 0);
    assert_eq!(trust.stored_score(3), Some(95));
}

#[test]
fn an_operator_seeds_an_agent() {
    let mut trust = engine();
    trust.seed_reputation(8, 70);
    trust.seed_reputation(9, 700);
    assert_eq!(trust.get_reputation_at(8, 0), 70);
    assert_eq!(trust.get_reputation_at(9, 0), 100);
    assert!(trust.get_all_reputations().unwrap().is_empty());
    assert!(trust.get_reputation_history(8).unwrap().is_empty());
    trust.update_reputation_at(8, 5, 10).unwrap();
    assert_eq!(trust.get_reputation_at(8, 10), 75);
    trust.purge_old_cache_entries_at(1_000_000).unwrap();
    assert!(trust.get_all_reputations().unwrap().is_empty());
    assert_eq!(trust.get_reputation_at(8, 1_000_000), 75);
}

#[test]
fn adjustments_are_logged() {
    let mut trust = engine();
    trust.update_reputation_at(3, -7, 500).unwrap();
    trust.update_reputation_at(4, 12, 600).unwrap();
    let history = trust.get_reputation_history(3).unwrap();
    assert_eq!(history.len(), 1);
    assert_eq!(history[0].agent_id, 3);
    assert_eq!(history[0].activity_type, TrustActivityType::SystemAdjustment);
    assert_eq!(history[0].score_change, -7);
    assert_eq!(history[0].reason, "Reputation adjusted by -7");
    assert_eq!(history[0].related_agent_id, None);
    assert_eq!(history[0].timestamp, 500);
    let other = trust.get_reputation_history(4).unwrap();
    assert_eq!(other.len(), 1);
    assert_eq!(other[0].reason, "Reputation adjusted by 12");
    assert!(trust.get_reputation_history(5).unwrap().is_empty());
}

#[test]
fn a_settled_deal_grants_both_parties_five() {
    let mut trust = engine();
    trust.record_successful_transaction_at(1, 2, 100).unwrap();
    assert_eq!(trust.get_reputation_at(1, 100), 5);
    assert_eq!(trust.get_reputation_at(2, 100), 5);
    let buyer = trust.get_reputation_history(1).unwrap();
    assert_eq!(buyer.len(), 2);
    assert_eq!(buyer[0].activity_type, TrustActivityType::SystemAdjustment);
    assert_eq!(buyer[1].activity_type, TrustActivityType::SuccessfulTransaction);
    assert_eq!(buyer[1].score_change, 5);
    assert_eq!(buyer[1].reason, "Successful transaction completed");
    assert_eq!(buyer[1].related_agent_id, Some(2));
    let seller = trust.get_reputation_history(2).unwrap();
    assert_eq!(seller[1].related_agent_id, Some(1));
}

#[test]
fn a_failed_settlement_costs_both_parties_three() {
    let mut trust = engine();
    trust.update_reputation_at(1, 10, 100).unwrap();
    trust.update_reputation_at(2, 2, 100).unwrap();
    trust.record_failed_transaction_at(1, 2, 100).unwrap();
    assert_eq!(trust.get_reputation_at(1, 100), 7);
    assert_eq!(trust.get_reputation_at(2, 100), 0);
    let seller = trust.get_reputation_history(2).unwrap();
    assert_eq!(seller.len(), 3);
    assert_eq!(seller[2].activity_type, TrustActivityType::FailedTransaction);
    assert_eq!(seller[2].score_change, -3);
    assert_eq!(seller[2].reason, "Transaction failed");
}

#[test]
fn a_deal_with_oneself_counts_twice() {
    let mut trust = engine();
    trust.record_successful_transaction_at(1, 1, 100).unwrap();
    assert_eq!(trust.get_reputation_at(1, 100), 10);
    assert_eq!(trust.get_reputation_history(1).unwrap().len(), 4);
}

#[test]
fn hooks_against_the_clock() {
    let mut trust = engine();
    trust.record_successful_transaction(1, 2).unwrap();
    assert_eq!(trust.get_reputation(1).unwrap(), 5);
    trust.record_failed_transaction(1, 2).unwrap();
    assert_eq!(trust.get_reputation(1).unwrap(), 2);
    assert!(trust.check_min_reputation(1, 2).unwrap());
    assert!(!trust.check_min_reputation(1, 3).unwrap());
    let info = trust.get_agent_trust_info(1).unwrap();
    assert_eq!(info.agent_id, 1);
    assert_eq!(info.score, 2);
    assert_eq!(info.trust_level, TrustLevel::Untrusted);
    assert_eq!(
        trust.calculate_dynamic_threshold(1).unwrap(),
        Factor { numerator: 150, denominator: 100 }
    );
}

#[test]
fn trust_info_is_a_snapshot() {
    let mut trust = engine();
    trust.update_reputation_at(8, 91, 50).unwrap();
    let info = trust.get_agent_trust_info_at(8, 60);
    assert_eq!(info.agent_id, 8);
    assert_eq!(info.score, 91);
    assert_eq!(info.trust_level, TrustLevel::HighlyTrusted);
    assert_eq!(info.last_updated, 60);
    assert_eq!(info.successful_transactions, 0);
    assert_eq!(info.failed_transactions, 0);
    assert_eq!(info.total_negotiations, 0);
    assert_eq!(info.average_response_time_ms, 0);
    assert_eq!(
        trust.calculate_dynamic_threshold_at(8, 60),
        Factor { numerator: 80, denominator: 100 }
    );
}

#[test]
fn purge_removes_what_is_twice_the_ttl_old() {
    let mut trust = engine();
    trust.update_reputation_at(1, 10, 0).unwrap();
    trust.update_reputation_at(2, 20, 1).unwrap();
    trust.update_reputation_at(3, 30, 3_600).unwrap();
    assert_eq!(trust.get_all_reputations().unwrap().len(), 3);
    trust.purge_old_cache_entries_at(3_600).unwrap();
    let mut left: Vec<u128> =
        trust.get_all_reputations().unwrap().iter().map(|entry| entry.agent_id).collect();
    left.sort();
    assert_eq!(left, vec![2, 3]);
    trust.purge_old_cache_entries_at(3_601).unwrap();
    let entries = trust.get_all_reputations().unwrap();
    assert_eq!(entries.len(), 1);
    assert_eq!(entries[0].agent_id, 3);
    assert_eq!(entries[0].score, 30);
    assert_eq!(trust.get_reputation_history(1).unwrap().len(), 1);
}

#[test]
fn purge_against_the_clock_keeps_fresh_entries() {
    let mut trust = engine();
    trust.update_reputation(1, 10).unwrap();
    trust.update_reputation_at(2, 10, 0).unwrap();
    trust.purge_old_cache_entries().unwrap();
    let entries = trust.get_all_reputations().unwrap();
    assert_eq!(entries.len(), 1);
    assert_eq!(entries[0].agent_id, 1);
}

#[test]
fn claims_of_a_token() {
    let mut trust = engine();
    trust.update_reputation_at(0xabc, 80, 1_000_000).unwrap();
    let claims = trust.claims_at(0xabc, 1_000_000).unwrap();
    assert_eq!(claims.sub, "00000000-0000-0000-0000-000000000abc");
    assert_eq!(claims.role, "agent");
    assert_eq!(claims.iat, 1_000_000);
    assert_eq!(claims.exp, 1_086_400);
    assert_eq!(claims.reputation_score, 80);
    assert_eq!(claims.trust_level, "trusted");
    assert!(matches!(trust.claims_at(0xabc, -1), Err(NegotiationError::Auth(_))));
    let last = trust.claims_at(1, i64::MAX).unwrap();
    assert_eq!(last.exp, i64::MAX as u64 + 86_400);
}

#[test]
fn a_token_is_signed_and_read_back() {
    let mut trust = TrustSystem::new(Some("a secret".to_string())).unwrap();
    let agent_id = 0x1234_5678_9abc_def0_1234_5678_9abc_def0u128;
    trust.update_reputation(agent_id, 95).unwrap();
    let token = trust.generate_jwt(agent_id).unwrap();
    assert_eq!(token.split('.').count(), 3);
    assert!(token.starts_with("eyJ"));

    let claims = trust.validate_jwt(&token).unwrap();
    assert_eq!(claims.sub, uuid_of(agent_id));
    assert_eq!(claims.role, "agent");
    assert_eq!(claims.reputation_score, 95);
    assert_eq!(claims.trust_level, "highlytrusted");
    assert_eq!(claims.exp, claims.iat + 86_400);
}

#[test]
fn signing_depends_on_claims_and_secret_alone() {
    let first = TrustSystem::new(Some("one".to_string())).unwrap();
    let second = TrustSystem::new(Some("one".to_string())).unwrap();
    let third = TrustSystem::new(Some("two".to_string())).unwrap();
    let a = first.generate_jwt_at(7, 2_000_000_000).unwrap();
    let b = second.generate_jwt_at(7, 2_000_000_000).unwrap();
    let c = third.generate_jwt_at(7, 2_000_000_000).unwrap();
    let d = first.generate_jwt_at(8, 2_000_000_000).unwrap();
    assert_eq!(a, b);
    assert_ne!(a, c);
    assert_ne!(a, d);
    assert!(matches!(first.generate_jwt_at(7, -5), Err(NegotiationError::Auth(_))));
}

#[test]
fn a_token_is_refused() {
    let trust = TrustSystem::new(Some("a secret".to_string())).unwrap();
    let other = TrustSystem::new(Some("another secret".to_string())).unwrap();
    let default = engine();
    let token = trust.generate_jwt(7).unwrap();

    for refused in [
        other.validate_jwt(&token),
        default.validate_jwt(&token),
        trust.validate_jwt("not a token"),
        trust.validate_jwt(""),
        trust.validate_jwt(&format!("{}x", token)),
        trust.validate_jwt(&trust.generate_jwt_at(7, 1_000).unwrap()),
    ] {
        match refused {
            Err(NegotiationError::Auth(message)) => assert!(message.starts_with("Invalid JWT: ")),
            _ => panic!("the token must be refused"),
        }
    }
}

#[test]
fn a_token_without_a_claim_is_refused() {
    let text = |s: &str| Some(s.to_string());
    let claims = claims_from_parts(text("s"), text("r"), Some(2), Some(1), Some(50), text("t"))
        .unwrap();
    assert_eq!(claims.sub, "s");
    assert_eq!(claims.role, "r");
    assert_eq!(claims.exp, 2);
    assert_eq!(claims.iat, 1);
    assert_eq!(claims.reputation_score, 50);
    assert_eq!(claims.trust_level, "t");

    let refusal = |r: Result<dcap::trust::JWTClaims, NegotiationError>| match r {
        Err(NegotiationError::Auth(message)) => message,
        _ => panic!("the claims must be refused"),
    };
    assert_eq!(
        refusal(claims_from_parts(None, None, None, None, None, None)),
        "Invalid JWT: missing field `sub`"
    );
    assert_eq!(
        refusal(claims_from_parts(text("s"), None, Some(2), Some(1), Some(5), text("t"))),
        "Invalid JWT: missing field `role`"
    );
    assert_eq!(
        refusal(claims_from_parts(text("s"), text("r"), None, Some(1), Some(5), text("t"))),
        "Invalid JWT: missing field `exp`"
    );
    assert_eq!(
        refusal(claims_from_parts(text("s"), text("r"), Some(2), None, Some(5), text("t"))),
        "Invalid JWT: missing field `iat`"
    );
    assert_eq!(
        refusal(claims_from_parts(text("s"), text("r"), Some(2), Some(1), None, text("t"))),
        "Invalid JWT: missing field `reputation_score`"
    );
    assert_eq!(
        refusal(claims_from_parts(
            text("s"),
            text("r"),
            Some(2),
            Some(1),
            Some(u32::MAX as u64 + 1),
            text("t")
        )),
        "Invalid JWT: invalid value for `reputation_score`"
    );
    assert_eq!(
        refusal(claims_from_parts(text("s"), text("r"), Some(2), Some(1), Some(5), None)),
        "Invalid JWT: missing field `trust_level`"
    );
    assert!(claims_from_parts(
        text("s"),
        text("r"),
        Some(2),
        Some(1),
        Some(u32::MAX as u64),
        text("t")
    )
    .is_ok());
}

fn decoded(json: &str) -> Result<serde_json::Value, jsonwebtoken::errors::Error> {
    Ok(serde_json::from_str(json).unwrap())
}

fn refused(json: &str) -> String {
    match claims_of(decoded(json)) {
        Err(NegotiationError::Auth(message)) => message,
        _ => panic!("the claims must be refused"),
    }
}

#[test]
fn claims_are_read_out_of_the_payload() {
    let claims = claims_of(decoded(
        "{\"sub\":\"s\",\"role\":\"agent\",\"exp\":20,\"iat\":10,\"reputation_score\":77,\"trust_level\":\"trusted\",\"more\":[1,2]}",
    ))
    .unwrap();
    assert_eq!(claims.sub, "s");
    assert_eq!(claims.role, "agent");
    assert_eq!(claims.exp, 20);
    assert_eq!(claims.iat, 10);
    assert_eq!(claims.reputation_score, 77);
    assert_eq!(claims.trust_level, "trusted");
}

#[test]
fn a_payload_that_lacks_a_claim_is_refused() {
    assert_eq!(refused("{}"), "Invalid JWT: missing field `sub`");
    assert_eq!(refused("[1]"), "Invalid JWT: missing field `sub`");
    assert_eq!(refused("\"sub\""), "Invalid JWT: missing field `sub`");
    assert_eq!(refused("{\"sub\":5}"), "Invalid JWT: missing field `sub`");
    assert_eq!(refused("{\"sub\":\"s\"}"), "Invalid JWT: missing field `role`");
    assert_eq!(
        refused("{\"sub\":\"s\",\"role\":\"r\",\"exp\":\"20\"}"),
        "Invalid JWT: missing field `exp`"
    );
    assert_eq!(
        refused("{\"sub\":\"s\",\"role\":\"r\",\"exp\":20,\"iat\":-1}"),
        "Invalid JWT: missing field `iat`"
    );
    assert_eq!(
        refused("{\"sub\":\"s\",\"role\":\"r\",\"exp\":20,\"iat\":1,\"reputation_score\":1.5}"),
        "Invalid JWT: missing field `reputation_score`"
    );
    assert_eq!(
        refused("{\"sub\":\"s\",\"role\":\"r\",\"exp\":20,\"iat\":1,\"reputation_score\":4294967296}"),
        "Invalid JWT: invalid value for `reputation_score`"
    );
    assert_eq!(
        refused("{\"sub\":\"s\",\"role\":\"r\",\"exp\":20,\"iat\":1,\"reputation_score\":4294967295}"),
        "Invalid JWT: missing field `trust_level`"
    );
}

#[test]
fn a_token_that_was_not_accepted_is_refused_with_the_reason() {
    let key = jsonwebtoken::DecodingKey::from_secret(b"k");
    let error = jsonwebtoken::decode::<serde_json::Value>(
        "not.a.token",
        &key,
        &jsonwebtoken::Validation::new(jsonwebtoken::Algorithm::HS256),
    )
    .unwrap_err();
    let words = error.to_string();
    match claims_of(Err(error)) {
        Err(NegotiationError::Auth(message)) => {
            assert_eq!(message, format!("Invalid JWT: {}", words))
        }
        _ => panic!("the token must be refused"),
    }
}

#[test]
fn a_token_with_a_payload_of_its_own_is_read_as_it_is() {
    let trust = TrustSystem::new(Some("k".to_string())).unwrap();
    let key = jsonwebtoken::EncodingKey::from_secret(b"k");
    let sign = |json: &str| {
        let payload: serde_json::Value = serde_json::from_str(json).unwrap();
        jsonwebtoken::encode(&jsonwebtoken::Header::default(), &payload, &key).unwrap()
    };
    let full = sign(
        "{\"sub\":\"someone\",\"role\":\"agent\",\"exp\":99999999999,\"iat\":5,\"reputation_score\":12,\"trust_level\":\"untrusted\"}",
    );
    let claims = trust.validate_jwt(&full).unwrap();
    assert_eq!(claims.sub, "someone");
    assert_eq!(claims.exp, 99_999_999_999);
    assert_eq!(claims.iat, 5);
    assert_eq!(claims.reputation_score, 12);
    assert_eq!(claims.trust_level, "untrusted");

    let partial = sign("{\"sub\":\"someone\",\"exp\":99999999999}");
    match trust.validate_jwt(&partial) {
        Err(NegotiationError::Auth(message)) => {
            assert_eq!(message, "Invalid JWT: missing field `role`")
        }
        _ => panic!("a token without a role must be refused"),
    }
    let lapsed = sign(
        "{\"sub\":\"someone\",\"role\":\"agent\",\"exp\":1000,\"iat\":5,\"reputation_score\":12,\"trust_level\":\"untrusted\"}",
    );
    assert!(matches!(trust.validate_jwt(&lapsed), Err(NegotiationError::Auth(_))));
}
