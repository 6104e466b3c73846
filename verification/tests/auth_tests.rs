use door_access::auth::{
    create_token, login, validate_token, AuthRequest, Claims, JWTSecret, LoginOutcome, TokenError,
    TOKEN_LIFETIME_SECS,
};

fn request(password: &str) -> AuthRequest {
    AuthRequest {
        password: password.to_string(),
    }
}

#[test]
fn claims_at_time_exact_fields() {
    let c = Claims::at_time("admin".to_string(), 1_000_000);
    assert_eq!(c.sub, "admin");
    assert_eq!(c.iat, 1_000_000);
    assert_eq!(c.exp, 1_000_000 + TOKEN_LIFETIME_SECS);
}

#[test]
fn claims_new_lifetime_is_24_hours() {
    let c = Claims::new("admin".to_string());
    assert_eq!(c.sub, "admin");
    assert_eq!(c.exp - c.iat, 24 * 60 * 60);
}

#[test]
fn jwt_secret_round_trip() {
    let s = JWTSecret::new("SECRET-REDACTED".to_string());
    assert_eq!(s.get_secret(), "SECRET-REDACTED");
}

#[test]
fn token_round_trip() {
    let claims = Claims::new("authenticated_user".to_string());
    let token = create_token(&claims, "server secret").unwrap();
    // A real signed token, not the claims handed back.
    assert_eq!(token.matches('.').count(), 2);
    assert!(!token.contains("authenticated_user"));
    let back = validate_token(&token, "server secret").unwrap();
    assert_eq!(back.sub, claims.sub);
    assert_eq!(back.exp, claims.exp);
    assert_eq!(back.iat, claims.iat);
}

#[test]
fn wrong_secret_rejected() {
    let claims = Claims::new("admin".to_string());
    let token = create_token(&claims, "right secret").unwrap();
    assert!(matches!(
        validate_token(&token, "wrong secret"),
        Err(TokenError::Rejected)
    ));
}

#[test]
fn expired_token_rejected() {
    // Issued at the epoch, so it expired decades ago.
    let claims = Claims::at_time("admin".to_string(), 0);
    let token = create_token(&claims, "secret").unwrap();
    assert!(matches!(
        validate_token(&token, "secret"),
        Err(TokenError::Rejected)
    ));
}

#[test]
fn garbage_token_rejected() {
    assert!(validate_token("not.a.token", "secret").is_err());
    assert!(validate_token("", "secret").is_err());
}

#[test]
fn login_outcomes() {
    // No configured password: refused outright.
    assert!(matches!(
        login(None, &request("anything"), "secret"),
        LoginOutcome::MissingConfiguration
    ));
    // Wrong password: refused.
    assert!(matches!(
        login(Some("hunter2".to_string()), &request("hunter3"), "secret"),
        LoginOutcome::InvalidPassword
    ));
    // Right password: a token for the administrative subject.
    match login(Some("hunter2".to_string()), &request("hunter2"), "secret") {
        LoginOutcome::LoggedIn(token) => {
            let claims = validate_token(&token, "secret").unwrap();
            assert_eq!(claims.sub, "authenticated_user");
        }
        other => panic!("expected a token, got {:?}", outcome_name(&other)),
    }
}

fn outcome_name(o: &LoginOutcome) -> &'static str {
    match o {
        LoginOutcome::MissingConfiguration => "MissingConfiguration",
        LoginOutcome::InvalidPassword => "InvalidPassword",
        LoginOutcome::TokenFailure => "TokenFailure",
        LoginOutcome::LoggedIn(_) => "LoggedIn",
    }
}
