use lynkt::authentication::{verdict, Claims, JwtAuth, JwtConfig, TokenError, VerifyStatus};

fn codec(ttl: i64) -> JwtAuth {
    JwtAuth::new(JwtConfig::new("top-secret".to_string(), ttl))
}

#[test]
fn config_keeps_its_values() {
    let config = JwtConfig::new("abc".to_string(), 15);
    assert_eq!(config.secret, "abc");
    assert_eq!(config.expiration_time, 15);
    let auth = JwtAuth::new(config);
    assert_eq!(auth.config.secret, "abc");
    assert_eq!(auth.config.expiration_time, 15);
}

#[test]
fn claims_span_the_configured_minutes() {
    let c = codec(60).claims_at("alice", 1_000).unwrap();
    assert_eq!(c.sub, "alice");
    assert_eq!(c.iat, 1_000);
    assert_eq!(c.exp, 1_000 + 3_600);
}

#[test]
fn claims_refuse_a_lifetime_that_is_not_one() {
    assert!(codec(0).claims_at("alice", 1_000).is_none());
    assert!(codec(-5).claims_at("alice", 1_000).is_none());
    assert!(codec(60).claims_at("alice", -1).is_none());
    assert!(codec(i64::MAX).claims_at("alice", 1_000).is_none());
    assert_eq!(codec(0).issue_at("alice", 1_000), Err(TokenError::LifetimeOutOfRange));
    assert_eq!(codec(-1).encode("alice"), Err(TokenError::LifetimeOutOfRange));
}

#[test]
fn fresh_token_verifies_with_its_subject() {
    let auth = codec(30);
    let token = auth.issue_at("alice", 5_000).unwrap();
    match auth.verify_at(&token, 5_000) {
        VerifyStatus::Valid(c) => {
            assert_eq!(c.sub, "alice");
            assert_eq!(c.iat, 5_000);
            assert_eq!(c.exp, 5_000 + 1_800);
        }
        other => panic!("expected a valid token, got {:?}", other),
    }
    assert!(matches!(auth.verify_at(&token, 6_800), VerifyStatus::Valid(_)));
}

#[test]
fn token_issued_now_verifies_now() {
    let auth = codec(10);
    let token = auth.encode("bob").unwrap();
    match auth.verify(&token) {
        VerifyStatus::Valid(c) => assert_eq!(c.sub, "bob"),
        other => panic!("expected a valid token, got {:?}", other),
    }
    assert_eq!(auth.decode(&token).unwrap().sub, "bob");
}

#[test]
fn expired_token_is_told_apart_from_a_corrupted_one() {
    let auth = codec(1);
    let token = auth.issue_at("alice", 10_000).unwrap();
    assert!(matches!(auth.verify_at(&token, 10_061), VerifyStatus::Expired));
    let mut corrupted = token.clone();
    let last = corrupted.pop().unwrap();
    corrupted.push(if last == 'A' { 'B' } else { 'A' });
    assert!(matches!(auth.verify_at(&corrupted, 10_000), VerifyStatus::Invalid));
    assert!(matches!(auth.verify_at("not.a.token", 10_000), VerifyStatus::Invalid));
    assert!(matches!(auth.verify_at("", 10_000), VerifyStatus::Invalid));
    assert_eq!(auth.decode_at(&token, 10_061).unwrap_err(), TokenError::Expired);
    assert_eq!(auth.decode_at(&corrupted, 10_000).unwrap_err(), TokenError::Invalid);
}

#[test]
fn token_under_another_secret_is_invalid() {
    let token = codec(5).issue_at("alice", 100).unwrap();
    let other = JwtAuth::new(JwtConfig::new("other-secret".to_string(), 5));
    assert!(matches!(other.verify_at(&token, 100), VerifyStatus::Invalid));
}

#[test]
fn tokens_from_different_instants_differ() {
    let auth = codec(60);
    let a = auth.issue_at("alice", 1_000).unwrap();
    let b = auth.issue_at("alice", 1_001).unwrap();
    assert_ne!(a, b);
}

#[test]
fn verdict_follows_the_expiry_boundary() {
    let c = Claims { sub: "s".to_string(), iat: 0, exp: 100 };
    assert!(matches!(verdict(Some(c.clone()), 100), VerifyStatus::Valid(_)));
    assert!(matches!(verdict(Some(c), 101), VerifyStatus::Expired));
    assert!(matches!(verdict(None, 0), VerifyStatus::Invalid));
}

#[test]
fn equal_codecs_at_one_instant_issue_equal_tokens() {
    let a = codec(45).issue_at("carol", 9_000).unwrap();
    let b = codec(45).issue_at("carol", 9_000).unwrap();
    assert_eq!(a, b);
    assert_eq!(a.matches('.').count(), 2);
}
