//! Session-cookie authentication for the administrative interface: token
//! claims, the shared signing secret, and the login decision.

use vstd::prelude::*;

verus! {

/// Seconds a freshly issued token stays valid: 24 hours.
pub const TOKEN_LIFETIME_SECS: usize = 24 * 60 * 60;

/// Claims carried by an authentication token: the subject, the expiration
/// time and the issuing time, both as Unix seconds.
pub struct Claims {
    pub sub: String,
    pub exp: usize,
    pub iat: usize,
}

/// Relies on chrono's `Utc::now().timestamp()`: the current Unix time in
/// seconds. The value depends on the wall clock, so nothing is promised
/// of it.
#[verifier::external_body]
pub(crate) fn unix_now() -> i64 {
    chrono::Utc::now().timestamp()
}

impl Claims {
    /// Claims issued at the given time, valid for `TOKEN_LIFETIME_SECS`.
    pub fn at_time(sub: String, now: usize) -> (c: Claims)
        requires
            now + TOKEN_LIFETIME_SECS <= usize::MAX,
        ensures
            c.sub == sub,
            c.iat == now,
            c.exp == now + TOKEN_LIFETIME_SECS,
    {
        Claims { sub, exp: now + TOKEN_LIFETIME_SECS, iat: now }
    }

    /// Claims issued at the current wall-clock time. Whatever the clock
    /// returns, the expiration stands `TOKEN_LIFETIME_SECS` after the
    /// issuing time, saturating at the ends of the representable range.
    pub fn new(sub: String) -> (c: Claims)
        ensures
            c.sub == sub,
            c.iat + TOKEN_LIFETIME_SECS <= usize::MAX ==> c.exp == c.iat + TOKEN_LIFETIME_SECS,
            c.iat + TOKEN_LIFETIME_SECS > usize::MAX ==> c.exp == usize::MAX,
    {
        let now_signed = unix_now();
        let now: usize = if now_signed <= 0 {
            0
        } else {
            let wide: u64 = now_signed as u64;
            if wide <= usize::MAX as u64 {
                wide as usize
            } else {
                usize::MAX
            }
        };
        if now <= usize::MAX - TOKEN_LIFETIME_SECS {
            Claims::at_time(sub, now)
        } else {
            Claims { sub, exp: usize::MAX, iat: now }
        }
    }
}

/// The secret the administrative interface signs its tokens with.
pub struct JWTSecret(String);

impl JWTSecret {
    pub closed spec fn secret(self) -> Seq<char> {
        self.0@
    }

    pub fn new(secret: String) -> (s: JWTSecret)
        ensures
            s.secret() == secret@,
    {
        JWTSecret(secret)
    }

    pub fn get_secret(&self) -> (r: &str)
        ensures
            r@ == self.secret(),
    {
        self.0.as_str()
    }
}

/// A request guard's witness that a valid token was presented.
pub struct AuthenticatedUser(pub Claims);

/// Why a token operation failed.
#[derive(Clone, Copy, PartialEq, Eq, Debug)]
pub enum TokenError {
    /// The token could not be created.
    CreationFailed,
    /// The token was rejected: malformed, wrongly signed, or expired.
    Rejected,
}

/// The signed token that `jwt_encode` produces for the given claim fields
/// and secret: a function of its arguments alone.
pub uninterp spec fn token_of(sub: Seq<char>, exp: int, iat: int, secret: Seq<char>) -> Seq<char>;

/// Relies on jsonwebtoken::encode with the default header: an HS256-signed
/// token over the claim fields. The serialization and the HMAC signature
/// are deterministic, so the token is a function of the claims and the
/// secret alone.
#[verifier::external_body]
fn jwt_encode(claims: &Claims, secret: &str) -> (r: Option<String>)
    ensures
        r matches Some(t) ==> t@ == token_of(
            claims.sub@,
            claims.exp as int,
            claims.iat as int,
            secret@,
        ),
{
    let mut payload = serde_json::Map::new();
    payload.insert("sub".to_string(), serde_json::Value::String(claims.sub.clone()));
    payload.insert("exp".to_string(), serde_json::Value::from(claims.exp as u64));
    payload.insert("iat".to_string(), serde_json::Value::from(claims.iat as u64));
    jsonwebtoken::encode(
        &jsonwebtoken::Header::default(),
        &serde_json::Value::Object(payload),
        &jsonwebtoken::EncodingKey::from_secret(secret.as_bytes()),
    )
    .ok()
}

/// Relies on jsonwebtoken::decode with HS256 validation: the signature is
/// checked against the secret and the `exp` claim against the wall clock,
/// so the result depends on the time of the call and nothing is promised
/// of it.
#[verifier::external_body]
fn jwt_decode(token: &str, secret: &str) -> (r: Option<Claims>)
{
    let validation = jsonwebtoken::Validation::new(jsonwebtoken::Algorithm::HS256);
    let data = jsonwebtoken::decode::<serde_json::Value>(
        token,
        &jsonwebtoken::DecodingKey::from_secret(secret.as_bytes()),
        &validation,
    )
    .ok()?;
    let sub = data.claims.get("sub")?.as_str()?.to_string();
    let exp = data.claims.get("exp")?.as_u64()?;
    let iat = data.claims.get("iat")?.as_u64()?;
    Some(Claims { sub, exp: exp as usize, iat: iat as usize })
}

/// Sign the claims into a token with the shared secret.
pub fn create_token(claims: &Claims, secret: &str) -> (r: Result<String, TokenError>)
    ensures
        r matches Ok(t) ==> t@ == token_of(
            claims.sub@,
            claims.exp as int,
            claims.iat as int,
            secret@,
        ),
        r matches Err(e) ==> e is CreationFailed,
{
    match jwt_encode(claims, secret) {
        Some(t) => Ok(t),
        None => Err(TokenError::CreationFailed),
    }
}

/// Check a presented token against the shared secret, recovering its
/// claims when the signature holds and the token has not expired.
pub fn validate_token(token: &str, secret: &str) -> (r: Result<Claims, TokenError>)
    ensures
        r matches Err(e) ==> e is Rejected,
{
    match jwt_decode(token, secret) {
        Some(c) => Ok(c),
        None => Err(TokenError::Rejected),
    }
}

/// A submitted login form: the single shared administrative password.
pub struct AuthRequest {
    pub password: String,
}

/// What a login attempt comes to.
pub enum LoginOutcome {
    /// The expected password is not configured; the server cannot accept
    /// any login.
    MissingConfiguration,
    /// The submitted password does not match the configured one.
    InvalidPassword,
    /// The password matched but no token could be created.
    TokenFailure,
    /// The password matched; the token to set as the session cookie.
    LoggedIn(String),
}

/// The login decision: refused without a configured password, refused on
/// a mismatch, and otherwise answered with a signed token for the fixed
/// administrative subject, issued at the current time.
pub fn login(expected_pass: Option<String>, request: &AuthRequest, secret: &str) -> (r:
    LoginOutcome)
    ensures
        expected_pass is None ==> r is MissingConfiguration,
        expected_pass matches Some(p) && request.password@ != p@ ==> r is InvalidPassword,
        expected_pass matches Some(p) && request.password@ == p@ ==> r is LoggedIn
            || r is TokenFailure,
        r matches LoginOutcome::LoggedIn(token) ==> exists|e: int, i: int|
            token@ == token_of("authenticated_user"@, e, i, secret@),
{
    match expected_pass {
        None => LoginOutcome::MissingConfiguration,
        Some(p) => {
            let submitted = request.password.clone();
            if submitted != p {
                LoginOutcome::InvalidPassword
            } else {
                let claims = Claims::new("authenticated_user".to_owned());
                match create_token(&claims, secret) {
                    Ok(token) => {
                        proof {
                            assert(token@ == token_of(
                                "authenticated_user"@,
                                claims.exp as int,
                                claims.iat as int,
                                secret@,
                            ));
                        }
                        LoginOutcome::LoggedIn(token)
                    },
                    Err(_) => LoginOutcome::TokenFailure,
                }
            }
        },
    }
}

} // verus!
