use blog_api::bearer::bearer_token;
use blog_api::claims::{Claims, TOKEN_TTL_SECONDS};
use blog_api::errors::{AppError, AuthError};
use blog_api::token::{
    authenticate, authenticate_at, confirm_principal, create_token, create_token_at, decode_claims,
    encode_claims, verify_token, verify_token_at,
};

const SECRET: &str = "test-secret";

#[test]
fn minted_token_verifies_immediately() {
    let token = create_token_at("7", "bob", SECRET, 1_000, 86_400).unwrap();
    let claims = verify_token_at(&token, SECRET, 1_000).unwrap();
    assert_eq!(claims.sub, "7");
    assert_eq!(claims.username, "bob");
    assert_eq!(claims.iat, Some(1_000));
    assert_eq!(claims.exp, 87_400);
}

#[test]
fn minted_token_verifies_now() {
    let token = create_token("u-1", "carol", SECRET).unwrap();
    let claims = verify_token(&token, SECRET).unwrap();
    assert_eq!(claims.sub, "u-1");
    assert_eq!(claims.username, "carol");
    assert_eq!(claims.exp - claims.iat.unwrap(), TOKEN_TTL_SECONDS);
}

#[test]
fn token_from_other_secret_is_rejected() {
    let token = create_token_at("42", "alice", "secret-a", 0, 3600).unwrap();
    assert_eq!(
        verify_token_at(&token, "secret-b", 10).unwrap_err(),
        AuthError::InvalidSignature
    );
    assert!(verify_token_at(&token, "secret-a", 10).is_ok());
}

#[test]
fn token_with_negative_ttl_is_expired() {
    let token = create_token_at("42", "alice", SECRET, 5_000, -1).unwrap();
    assert_eq!(verify_token_at(&token, SECRET, 5_000).unwrap_err(), AuthError::Expired);
}

#[test]
fn token_expired_at_epoch_start() {
    let token = create_token_at("42", "alice", SECRET, 0, -1).unwrap();
    assert_eq!(verify_token_at(&token, SECRET, 0).unwrap_err(), AuthError::Expired);
}

#[test]
fn missing_header_is_malformed() {
    assert_eq!(authenticate_at(None, SECRET, 0).unwrap_err(), AuthError::MalformedHeader);
    assert_eq!(authenticate(None, SECRET).unwrap_err(), AuthError::MalformedHeader);
}

#[test]
fn header_without_bearer_prefix_is_malformed() {
    let token = create_token_at("42", "alice", SECRET, 0, 3600).unwrap();
    for header in [
        token.clone(),
        format!("bearer {}", token),
        format!("Bearer{}", token),
        format!("Token {}", token),
        "Bearer".to_string(),
        String::new(),
    ] {
        assert_eq!(
            authenticate_at(Some(&header), SECRET, 10).unwrap_err(),
            AuthError::MalformedHeader
        );
    }
}

#[test]
fn mints_one_second_apart_differ() {
    let t1 = create_token_at("42", "alice", SECRET, 100, 3600).unwrap();
    let t2 = create_token_at("42", "alice", SECRET, 101, 3600).unwrap();
    assert_ne!(t1, t2);
    assert_eq!(verify_token_at(&t1, SECRET, 3700).unwrap().iat, Some(100));
    assert_eq!(verify_token_at(&t2, SECRET, 3701).unwrap().iat, Some(101));
    assert_eq!(verify_token_at(&t1, SECRET, 3701).unwrap_err(), AuthError::Expired);
}

#[test]
fn scenario_alice_within_and_after_ttl() {
    let token = create_token_at("42", "alice", SECRET, 0, 3600).unwrap();
    let header = format!("Bearer {}", token);
    let claims = authenticate_at(Some(&header), SECRET, 1800).unwrap();
    assert_eq!(claims.sub, "42");
    assert_eq!(claims.username, "alice");
    assert!(authenticate_at(Some(&header), SECRET, 3600).is_ok());
    assert_eq!(
        authenticate_at(Some(&header), SECRET, 3601).unwrap_err(),
        AuthError::Expired
    );
}

#[test]
fn scenario_basic_header_is_malformed() {
    assert_eq!(bearer_token(Some("Basic xyz")).unwrap_err(), AuthError::MalformedHeader);
    assert_eq!(
        authenticate_at(Some("Basic xyz"), SECRET, 0).unwrap_err(),
        AuthError::MalformedHeader
    );
}

#[test]
fn bearer_token_takes_the_rest() {
    assert_eq!(bearer_token(Some("Bearer abc.def.ghi")).unwrap(), "abc.def.ghi");
    assert_eq!(bearer_token(Some("Bearer ")).unwrap(), "");
    assert_eq!(bearer_token(Some("Bearer  x")).unwrap(), " x");
    assert_eq!(bearer_token(Some("Bearer é")).unwrap(), "é");
}

#[test]
fn garbage_token_has_invalid_signature() {
    assert_eq!(
        authenticate_at(Some("Bearer not-a-token"), SECRET, 0).unwrap_err(),
        AuthError::InvalidSignature
    );
    assert_eq!(verify_token_at("", SECRET, 0).unwrap_err(), AuthError::InvalidSignature);
}

#[test]
fn tampered_token_has_invalid_signature() {
    let token = create_token_at("42", "alice", SECRET, 0, 3600).unwrap();
    let mut tampered = token.clone();
    tampered.push('x');
    assert_eq!(
        verify_token_at(&tampered, SECRET, 0).unwrap_err(),
        AuthError::InvalidSignature
    );
}

#[test]
fn encode_produces_a_three_part_token() {
    let claims = Claims::issued_at("9".to_string(), "dave".to_string(), 10, 20).unwrap();
    let token = encode_claims(&claims, SECRET);
    assert_eq!(token.split('.').count(), 3);
    assert_ne!(token, "9");
    let back = decode_claims(&token, SECRET).unwrap();
    assert_eq!(back.sub, "9");
    assert_eq!(back.username, "dave");
    assert_eq!(back.exp, 30);
    assert_eq!(back.iat, Some(10));
}

#[test]
fn expiry_overflow_is_internal_error() {
    let r = create_token_at("1", "x", SECRET, i64::MAX, 1);
    assert!(matches!(r, Err(AppError::InternalError)));
}

#[test]
fn unicode_claims_round_trip() {
    let token = create_token_at("id-\"quoted\"", "名字 ✓", SECRET, 50, 10).unwrap();
    let claims = verify_token_at(&token, SECRET, 55).unwrap();
    assert_eq!(claims.sub, "id-\"quoted\"");
    assert_eq!(claims.username, "名字 ✓");
}

#[test]
fn principal_recheck() {
    let token = create_token_at("42", "alice", SECRET, 0, 3600).unwrap();
    let verified = verify_token_at(&token, SECRET, 1);
    assert_eq!(confirm_principal(verified.clone(), true).unwrap().sub, "42");
    assert_eq!(
        confirm_principal(verified, false).unwrap_err(),
        AuthError::PrincipalNotFound
    );
    assert_eq!(
        confirm_principal(Err(AuthError::Expired), true).unwrap_err(),
        AuthError::Expired
    );
}

#[test]
fn claims_new_lasts_a_day() {
    let c = Claims::new("5".to_string(), "eve".to_string()).unwrap();
    assert_eq!(c.sub, "5");
    assert_eq!(c.username, "eve");
    assert_eq!(c.exp - c.iat.unwrap(), 86_400);
    assert!(c.iat.unwrap() > 1_600_000_000);
}

#[test]
fn claims_issued_at_overflow_is_none() {
    assert!(Claims::issued_at("a".to_string(), "b".to_string(), i64::MIN, -1).is_none());
    let c = Claims::issued_at("a".to_string(), "b".to_string(), 100, -1).unwrap();
    assert_eq!(c.exp, 99);
}

#[test]
fn token_without_issue_instant_verifies() {
    let claims = Claims { sub: "8".to_string(), username: "fay".to_string(), exp: 500, iat: None };
    let token = encode_claims(&claims, SECRET);
    let back = verify_token_at(&token, SECRET, 400).unwrap();
    assert_eq!(back.sub, "8");
    assert_eq!(back.exp, 500);
    assert_eq!(back.iat, None);
    assert_eq!(verify_token_at(&token, SECRET, 501).unwrap_err(), AuthError::Expired);
}

#[test]
fn minting_succeeds_for_any_subject() {
    for (sub, name) in [("42", "alice"), ("x", ""), ("a-b-c", "名字")] {
        let token = create_token_at(sub, name, "", 0, 60).unwrap();
        let claims = verify_token_at(&token, "", 60).unwrap();
        assert_eq!((claims.sub.as_str(), claims.username.as_str()), (sub, name));
    }
}
