use pibox::auth::{
    check_claims, issue_claims, verify_claims_text, AuthError, Claims, JwtAuth,
    TokenType,
};
use pibox::claims_text::{claims_to_text, parse_claims};

fn generate_secret() -> [u8; 32] {
    rand::random()
}

fn claims(sub: &str, device: Option<&str>, kind: TokenType) -> Claims {
    Claims {
        sub: sub.to_string(),
        exp: 2000,
        iat: 1000,
        token_type: kind,
        device_id: device.map(|d| d.to_string()),
    }
}

#[test]
fn test_token_generation_and_verification() {
    let secret = generate_secret();
    let auth = JwtAuth::new(&secret, Some(60), Some(3600));

    let tokens = auth.generate_tokens("testuser", Some("device1")).unwrap();

    let claims = auth.verify_access_token(&tokens.access_token).unwrap();
    assert_eq!(claims.sub, "testuser");
    assert_eq!(claims.device_id, Some("device1".to_string()));
    assert_eq!(claims.token_type, TokenType::Access);
}

#[test]
fn test_token_refresh() {
    let secret = generate_secret();
    let auth = JwtAuth::new(&secret, Some(60), Some(3600));

    let tokens = auth.generate_tokens("testuser", None).unwrap();

    let new_tokens = auth.refresh_tokens(&tokens.refresh_token).unwrap();

    let claims = auth.verify_access_token(&new_tokens.access_token).unwrap();
    assert_eq!(claims.sub, "testuser");
    assert_eq!(claims.token_type, TokenType::Access);

    let result = auth.refresh_tokens(&tokens.access_token);
    assert!(matches!(result, Err(AuthError::InvalidTokenType { .. })));
}

#[test]
fn test_wrong_token_type() {
    let secret = generate_secret();
    let auth = JwtAuth::new(&secret, Some(60), Some(3600));

    let tokens = auth.generate_tokens("testuser", None).unwrap();

    let result = auth.verify_access_token(&tokens.refresh_token);
    assert!(matches!(result, Err(AuthError::InvalidTokenType { .. })));
}

#[test]
fn access_token_round_trip_keeps_identity() {
    let auth = JwtAuth::new(&[7u8; 32], None, None);
    let tokens = auth.generate_tokens("alice", Some("phone")).unwrap();
    assert_eq!(tokens.expires_in, 900);
    let c = auth.verify_access_token(&tokens.access_token).unwrap();
    assert_eq!(c.sub, "alice");
    assert_eq!(c.device_id.as_deref(), Some("phone"));
    assert_eq!(c.token_type, TokenType::Access);
    assert_eq!(c.exp, c.iat + 900);
}

#[test]
fn refresh_token_is_refused_as_access_token() {
    let auth = JwtAuth::new(&[9u8; 32], Some(60), Some(3600));
    let tokens = auth.generate_tokens("bob", Some("laptop")).unwrap();
    match auth.verify_access_token(&tokens.refresh_token) {
        Err(AuthError::InvalidTokenType { expected, got }) => {
            assert_eq!(expected, TokenType::Access);
            assert_eq!(got, TokenType::Refresh);
        }
        other => panic!("unexpected {:?}", other),
    }
}

#[test]
fn refresh_keeps_subject_and_device() {
    let auth = JwtAuth::new(&[3u8; 32], Some(60), Some(3600));
    let tokens = auth.generate_tokens("carol", Some("tablet")).unwrap();
    let fresh = auth.refresh_tokens(&tokens.refresh_token).unwrap();
    let c = auth.verify_access_token(&fresh.access_token).unwrap();
    assert_eq!(c.sub, "carol");
    assert_eq!(c.device_id.as_deref(), Some("tablet"));
}

#[test]
fn refresh_with_access_token_names_wrong_kind() {
    let auth = JwtAuth::new(&[5u8; 32], None, None);
    let tokens = auth.generate_tokens("u", None).unwrap();
    let err = auth.refresh_tokens(&tokens.access_token).unwrap_err();
    assert_eq!(err.message(), "Invalid token type: expected Refresh, got Access");
}

#[test]
fn token_from_another_secret_is_refused() {
    let a = JwtAuth::new(&[1u8; 32], None, None);
    let b = JwtAuth::new(&[2u8; 32], None, None);
    let tokens = a.generate_tokens("u", None).unwrap();
    let err = b.verify_access_token(&tokens.access_token).unwrap_err();
    assert!(matches!(err, AuthError::EncodingError(_)));
    assert!(err.message().starts_with("Token encoding failed: "));
    assert!(matches!(b.verify_access_token("not a token"), Err(AuthError::EncodingError(_))));
}

#[test]
fn expired_token_is_reported_as_expired() {
    let auth = JwtAuth::new(&[4u8; 32], Some(0), Some(3600));
    let tokens = auth.generate_tokens("u", None).unwrap();
    assert!(matches!(auth.verify_access_token(&tokens.access_token), Err(AuthError::TokenExpired)));
    let err = auth.verify_access_token(&tokens.access_token).unwrap_err();
    assert_eq!(err.message(), "Token has expired");
}

#[test]
fn claims_issued_after_expiry_are_malformed() {
    let mut c = claims("u", None, TokenType::Access);
    c.iat = 2001;
    assert!(matches!(check_claims(c, 0, TokenType::Access), Err(AuthError::MalformedClaims)));
}

#[test]
fn short_secrets_are_weak() {
    assert!(pibox::auth::secret_is_strong(&[0u8; 32]));
    assert!(!pibox::auth::secret_is_strong(&[0u8; 31]));
}

#[test]
fn ttl_defaults() {
    let auth = JwtAuth::new(&[0u8; 32], None, Some(10));
    assert_eq!(auth.access_token_ttl(), 900);
    assert_eq!(auth.refresh_token_ttl(), 10);
}

#[test]
fn issued_claims_expire_after_ttl_saturating() {
    let c = issue_claims("u", Some("d"), 100, 50, TokenType::Refresh);
    assert_eq!((c.iat, c.exp), (100, 150));
    assert_eq!(c.device_id.as_deref(), Some("d"));
    let c = issue_claims("u", None, u64::MAX - 1, 50, TokenType::Access);
    assert_eq!(c.exp, u64::MAX);
}

#[test]
fn check_claims_order_expiry_then_kind() {
    let c = claims("u", None, TokenType::Refresh);
    assert!(matches!(check_claims(c.clone(), 2000, TokenType::Access), Err(AuthError::TokenExpired)));
    assert!(matches!(
        check_claims(c.clone(), 1999, TokenType::Access),
        Err(AuthError::InvalidTokenType { expected: TokenType::Access, got: TokenType::Refresh })
    ));
    assert_eq!(check_claims(c, 1500, TokenType::Refresh).unwrap().sub, "u");
}

#[test]
fn claims_text_is_canonical_json() {
    let c = claims("alice", Some("dev"), TokenType::Access);
    assert_eq!(
        claims_to_text(&c),
        r#"{"sub":"alice","exp":2000,"iat":1000,"token_type":"access","device_id":"dev"}"#
    );
    let c = claims("bob", None, TokenType::Refresh);
    assert_eq!(claims_to_text(&c), r#"{"sub":"bob","exp":2000,"iat":1000,"token_type":"refresh"}"#);
}

#[test]
fn claims_text_escapes_and_reads_back() {
    let c = claims("a\"b\\c\nd\u{1}é", Some("x\ty"), TokenType::Access);
    let text = claims_to_text(&c);
    assert!(text.contains(r#"a\"b\\c\u000ad\u0001é"#));
    assert!(text.contains(r#"x\u0009y"#));
    let back = parse_claims(&text).unwrap();
    assert_eq!(back.sub, c.sub);
    assert_eq!(back.device_id, c.device_id);
    assert_eq!((back.exp, back.iat, back.token_type), (2000, 1000, TokenType::Access));
    let value: serde_json::Value = serde_json::from_str(&text).unwrap();
    assert_eq!(value["sub"], "a\"b\\c\nd\u{1}é");
}

#[test]
fn claims_text_rejects_other_text() {
    assert!(parse_claims("").is_none());
    assert!(parse_claims(r#"{"sub":"a","exp":1,"iat":1,"token_type":"other"}"#).is_none());
    assert!(parse_claims(r#"{"sub":"a","exp":1,"iat":1,"token_type":"access"} "#).is_none());
    assert!(parse_claims(r#"{"sub":"a","exp":99999999999999999999,"iat":1,"token_type":"access"}"#).is_none());
    assert!(parse_claims(r#"{"sub":"a","exp":,"iat":1,"token_type":"access"}"#).is_none());
    assert!(matches!(
        verify_claims_text("{}", 0, TokenType::Access),
        Err(AuthError::MalformedClaims)
    ));
    let ok = verify_claims_text(
        r#"{"sub":"a","exp":18446744073709551615,"iat":0,"token_type":"access"}"#,
        5,
        TokenType::Access,
    )
    .unwrap();
    assert_eq!(ok.exp, u64::MAX);
}

#[test]
fn tampered_token_is_refused_by_the_library() {
    let auth = JwtAuth::new(&[8u8; 32], None, None);
    let tokens = auth.generate_tokens("mallory", None).unwrap();
    let mut parts: Vec<String> = tokens.access_token.split('.').map(|p| p.to_string()).collect();
    let forged = JwtAuth::new(&[8u8; 32], None, None).generate_tokens("admin", None).unwrap();
    parts[1] = forged.access_token.split('.').nth(1).unwrap().to_string();
    let tampered = parts.join(".");
    assert!(matches!(auth.verify_access_token(&tampered), Err(AuthError::EncodingError(_))));
    assert!(matches!(auth.refresh_tokens("garbage"), Err(AuthError::EncodingError(_))));
}
