//! Stateless token authority: access and refresh tokens over signed claims.
use vstd::prelude::*;

use crate::claims_text::{claims_to_text, parse_claims, read_claims, claims_text, lemma_claims_round_trip};

verus! {

/// The kind of a token.
#[derive(Debug, Clone, Copy, PartialEq, Eq, Structural)]
pub enum TokenType {
    Access,
    Refresh,
}

/// The claims carried by a token.
#[derive(Debug, Clone)]
pub struct Claims {
    /// Subject (username).
    pub sub: String,
    /// Expiration time (Unix seconds).
    pub exp: u64,
    /// Issue time (Unix seconds).
    pub iat: u64,
    /// Access or refresh.
    pub token_type: TokenType,
    /// Device the token was issued for, if any.
    pub device_id: Option<String>,
}

/// The mathematical value of `Claims`.
pub struct ClaimsView {
    pub sub: Seq<char>,
    pub exp: u64,
    pub iat: u64,
    pub token_type: TokenType,
    pub device_id: Option<Seq<char>>,
}

/// The view of an optional string.
pub open spec fn opt_view(o: Option<String>) -> Option<Seq<char>> {
    match o {
        Some(s) => Some(s@),
        None => None,
    }
}

impl View for Claims {
    type V = ClaimsView;

    open spec fn view(&self) -> ClaimsView {
        ClaimsView {
            sub: self.sub@,
            exp: self.exp,
            iat: self.iat,
            token_type: self.token_type,
            device_id: opt_view(self.device_id),
        }
    }
}

/// The view of an optional string slice.
pub open spec fn opt_str_view(o: Option<&str>) -> Option<Seq<char>> {
    match o {
        Some(s) => Some(s@),
        None => None,
    }
}

/// A pair of tokens handed to a client.
#[derive(Debug, Clone)]
pub struct TokenPair {
    pub access_token: String,
    pub refresh_token: String,
    /// Lifetime of the access token in seconds.
    pub expires_in: u64,
}

/// An error of the token library.
#[verifier::external_type_specification]
#[verifier::external_body]
pub struct ExJwtError(jsonwebtoken::errors::Error);

/// Relies on `SystemTime::now` and `SystemTime::duration_since`: the current
/// Unix time in whole seconds, `None` where the clock stands before 1970.
#[verifier::external_body]
fn unix_now() -> Option<u64> {
    std::time::SystemTime::now().duration_since(std::time::UNIX_EPOCH).ok().map(|d| d.as_secs())
}

/// The token that `jsonwebtoken::encode` makes with the default header
/// (HS256) over the JSON text `payload`, with the HMAC secret `secret`.
pub uninterp spec fn hs256_jwt(secret: Seq<u8>, payload: Seq<char>) -> Seq<char>;

/// The claims text that `jsonwebtoken::decode` gives back for `token` with
/// the HMAC secret `secret` (HS256 signature and an `exp` claim checked, the
/// expiry itself not), or `None` where it refuses the token.
pub uninterp spec fn jwt_claims(secret: Seq<u8>, token: Seq<char>) -> Option<Seq<char>>;

/// Relies on `jsonwebtoken::encode` with `Header::default()` (HS256) and
/// `EncodingKey::from_secret`, on a canonical claims text. The text reaches
/// the token as it is: `RawValue::from_string` accepts it, since a canonical
/// claims text is a JSON object (escaped strings, numbers without leading
/// zeros), and serialises it unchanged. Signing with an HMAC key under HS256 cannot
/// fail. `jsonwebtoken::decode` with the same secret checks that signature,
/// finds the numeric `exp` claim (and no `aud`, `iss` or `nbf` to check), and
/// gives the text back. A token has three dot-separated parts, so it is
/// never empty.
#[verifier::external_body]
fn sign_payload(secret: &[u8], payload: &str) -> (r: Result<String, jsonwebtoken::errors::Error>)
    requires
        exists|c: ClaimsView| payload@ == #[trigger] claims_text(c),
    ensures
        r is Ok,
        r->Ok_0@.len() > 0,
        r->Ok_0@ == hs256_jwt(secret@, payload@),
        jwt_claims(secret@, r->Ok_0@) == Some(payload@),
{
    let raw = serde_json::value::RawValue::from_string(payload.to_string())?;
    let key = jsonwebtoken::EncodingKey::from_secret(secret);
    jsonwebtoken::encode(&jsonwebtoken::Header::default(), &raw, &key)
}

/// Relies on `jsonwebtoken::decode` with `DecodingKey::from_secret` and the
/// default validation but for the expiry (`validate_exp` off, so the clock is
/// not read): the JSON text of the token's claims exactly as it was signed.
/// The outcome depends on the secret and the token alone.
#[verifier::external_body]
fn open_token(secret: &[u8], token: &str) -> (r: Result<String, jsonwebtoken::errors::Error>)
    ensures
        match r {
            Ok(t) => jwt_claims(secret@, token@) == Some(t@),
            Err(_) => jwt_claims(secret@, token@) is None,
        },
{
    let key = jsonwebtoken::DecodingKey::from_secret(secret);
    let mut validation = jsonwebtoken::Validation::default();
    validation.validate_exp = false;
    let data = jsonwebtoken::decode::<Box<serde_json::value::RawValue>>(token, &key, &validation)?;
    Ok(data.claims.get().to_string())
}

/// Why a token or a login was refused.
#[derive(Debug)]
pub enum AuthError {
    /// The token could not be signed, or its format or signature was refused
    /// by the token library.
    EncodingError(jsonwebtoken::errors::Error),
    /// The token's expiration time has come.
    TokenExpired,
    /// The token is of the other kind.
    InvalidTokenType { expected: TokenType, got: TokenType },
    /// The credentials were refused.
    InvalidCredentials,
    /// The signed claims are not a claims text, or are issued after they
    /// expire.
    MalformedClaims,
    /// The system clock stands before 1970.
    ClockUnavailable,
}

/// The name of a token kind.
pub open spec fn kind_name(k: TokenType) -> Seq<char> {
    match k {
        TokenType::Access => "Access"@,
        TokenType::Refresh => "Refresh"@,
    }
}

/// The message of an error that carries no outside error.
pub open spec fn auth_message(e: AuthError) -> Seq<char> {
    match e {
        AuthError::EncodingError(_) => "Token encoding failed: "@,
        AuthError::TokenExpired => "Token has expired"@,
        AuthError::InvalidTokenType { expected, got } => "Invalid token type: expected "@
            + kind_name(expected) + ", got "@ + kind_name(got),
        AuthError::InvalidCredentials => "Invalid credentials"@,
        AuthError::MalformedClaims => "Malformed token claims"@,
        AuthError::ClockUnavailable => "System clock unavailable"@,
    }
}

fn kind_name_str(k: TokenType) -> (r: &'static str)
    ensures
        r@ == kind_name(k),
{
    match k {
        TokenType::Access => "Access",
        TokenType::Refresh => "Refresh",
    }
}

/// Whether `m` is the message of `e`: exact, but for an error of the token
/// library, whose message starts with `auth_message` and continues with that
/// error's own text.
pub open spec fn auth_error_text(e: AuthError, m: Seq<char>) -> bool {
    match e {
        AuthError::EncodingError(_) => m.len() >= auth_message(e).len() && m.subrange(
            0,
            auth_message(e).len() as int,
        ) == auth_message(e),
        _ => m == auth_message(e),
    }
}

impl AuthError {
    /// A human-readable message. For an error of the token library, the
    /// message starts with `auth_message` and continues with that error's own
    /// text.
    pub fn message(&self) -> (r: String)
        ensures
            auth_error_text(*self, r@),
    {
        match self {
            AuthError::EncodingError(e) => {
                let mut s = "Token encoding failed: ".to_string();
                let detail = e.to_string();
                let ghost prefix = s@;
                s.append(detail.as_str());
                assert(s@.subrange(0, prefix.len() as int) =~= prefix);
                s
            },
            AuthError::TokenExpired => "Token has expired".to_string(),
            AuthError::InvalidTokenType { expected, got } => {
                let mut s = "Invalid token type: expected ".to_string();
                s.append(kind_name_str(*expected));
                s.append(", got ");
                s.append(kind_name_str(*got));
                s
            },
            AuthError::InvalidCredentials => "Invalid credentials".to_string(),
            AuthError::MalformedClaims => "Malformed token claims".to_string(),
            AuthError::ClockUnavailable => "System clock unavailable".to_string(),
        }
    }
}

/// The outcome of checking a claims text, as a value.
pub enum ClaimsVerdict {
    Valid(ClaimsView),
    Malformed,
    Expired,
    WrongKind { expected: TokenType, got: TokenType },
}

/// `now + ttl`, capped at the largest timestamp.
pub open spec fn expiry(now: u64, ttl: u64) -> u64 {
    if now + ttl > u64::MAX {
        u64::MAX
    } else {
        (now + ttl) as u64
    }
}

/// The claims of a token issued at `now` with lifetime `ttl`.
pub open spec fn token_claims(
    username: Seq<char>,
    device_id: Option<Seq<char>>,
    now: u64,
    ttl: u64,
    kind: TokenType,
) -> ClaimsView {
    ClaimsView { sub: username, exp: expiry(now, ttl), iat: now, token_type: kind, device_id }
}

/// The check of decoded claims at time `now` for a token of kind `expected`:
/// claims issued after their expiry are malformed; then expiry (a token is
/// valid strictly before its expiration time); then the kind.
pub open spec fn check_view(c: ClaimsView, now: u64, expected: TokenType) -> ClaimsVerdict {
    if c.iat > c.exp {
        ClaimsVerdict::Malformed
    } else if c.exp <= now {
        ClaimsVerdict::Expired
    } else if c.token_type != expected {
        ClaimsVerdict::WrongKind { expected, got: c.token_type }
    } else {
        ClaimsVerdict::Valid(c)
    }
}

/// The check of a signed claims text at time `now`.
pub open spec fn text_verdict(t: Seq<char>, now: u64, expected: TokenType) -> ClaimsVerdict {
    match read_claims(t) {
        None => ClaimsVerdict::Malformed,
        Some(c) => check_view(c, now, expected),
    }
}

/// Whether a result reports a verdict.
pub open spec fn reports(r: Result<Claims, AuthError>, v: ClaimsVerdict) -> bool {
    match v {
        ClaimsVerdict::Valid(c) => r is Ok && r->Ok_0@ == c,
        ClaimsVerdict::Malformed => r matches Err(AuthError::MalformedClaims),
        ClaimsVerdict::Expired => r matches Err(AuthError::TokenExpired),
        ClaimsVerdict::WrongKind { expected, got } => r matches Err(
            AuthError::InvalidTokenType { expected: e, got: g },
        ) && e == expected && g == got,
    }
}

/// Build the claims of a token issued at `now` with lifetime `ttl`.
pub fn issue_claims(
    username: &str,
    device_id: Option<&str>,
    now: u64,
    ttl: u64,
    kind: TokenType,
) -> (c: Claims)
    ensures
        c@ == token_claims(username@, opt_str_view(device_id), now, ttl, kind),
{
    Claims {
        sub: username.to_owned(),
        exp: now.saturating_add(ttl),
        iat: now,
        token_type: kind,
        device_id: match device_id {
            Some(d) => Some(d.to_owned()),
            None => None,
        },
    }
}

/// Check decoded claims at time `now` for a token of kind `expected`.
pub fn check_claims(claims: Claims, now: u64, expected: TokenType) -> (r: Result<
    Claims,
    AuthError,
>)
    ensures
        reports(r, check_view(claims@, now, expected)),
{
    if claims.iat > claims.exp {
        Err(AuthError::MalformedClaims)
    } else if claims.exp <= now {
        Err(AuthError::TokenExpired)
    } else if claims.token_type != expected {
        Err(AuthError::InvalidTokenType { expected, got: claims.token_type })
    } else {
        Ok(claims)
    }
}

/// Read and check the signed claims text of a token at time `now`.
pub fn verify_claims_text(text: &str, now: u64, expected: TokenType) -> (r: Result<
    Claims,
    AuthError,
>)
    ensures
        reports(r, text_verdict(text@, now, expected)),
{
    match parse_claims(text) {
        None => Err(AuthError::MalformedClaims),
        Some(c) => check_claims(c, now, expected),
    }
}

/// Issues and verifies tokens signed with one HMAC secret.
pub struct JwtAuth {
    secret: Vec<u8>,
    access_token_ttl: u64,
    refresh_token_ttl: u64,
}

/// `o`, or `d` where `o` is absent.
pub open spec fn or_default(o: Option<u64>, d: u64) -> u64 {
    match o {
        Some(v) => v,
        None => d,
    }
}

/// Fewest bytes of an HMAC secret that the daemon accepts.
pub const MIN_SECRET_LEN: usize = 32;

/// Whether a configured secret is long enough to sign tokens with.
pub fn secret_is_strong(secret: &[u8]) -> (r: bool)
    ensures
        r == (secret@.len() >= MIN_SECRET_LEN),
{
    secret.len() >= MIN_SECRET_LEN
}

/// Default lifetime of an access token: 15 minutes.
pub const DEFAULT_ACCESS_TTL: u64 = 900;

/// Default lifetime of a refresh token: 7 days.
pub const DEFAULT_REFRESH_TTL: u64 = 604800;

/// Whether `token` is the signed token of the claims `c`, and opens to
/// their text.
pub open spec fn signed(secret: Seq<u8>, c: ClaimsView, token: Seq<char>) -> bool {
    &&& token.len() > 0
    &&& token == hs256_jwt(secret, claims_text(c))
    &&& jwt_claims(secret, token) == Some(claims_text(c))
}

/// Whether `pair` is the pair issued for a user and device at time `now`:
/// both tokens signed over claims issued at `now`.
pub open spec fn issued(
    pair: TokenPair,
    secret: Seq<u8>,
    username: Seq<char>,
    device_id: Option<Seq<char>>,
    now: u64,
    access_ttl: u64,
    refresh_ttl: u64,
) -> bool {
    &&& pair.expires_in == access_ttl
    &&& signed(
        secret,
        token_claims(username, device_id, now, access_ttl, TokenType::Access),
        pair.access_token@,
    )
    &&& signed(
        secret,
        token_claims(username, device_id, now, refresh_ttl, TokenType::Refresh),
        pair.refresh_token@,
    )
}

/// Whether `r` is the verification of `token` for a token of kind
/// `expected`: refused by the token library, or the verdict on its claims
/// text at some time (the time of the call), unless the clock could not be
/// read.
pub open spec fn opened(auth: JwtAuth, token: Seq<char>, expected: TokenType, r: Result<
    Claims,
    AuthError,
>) -> bool {
    match jwt_claims(auth.secret(), token) {
        None => r matches Err(AuthError::EncodingError(_)),
        Some(t) => r matches Err(AuthError::ClockUnavailable) || exists|now: u64|
            #[trigger] reports(r, text_verdict(t, now, expected)),
    }
}

/// Whether `r` reports a verdict on a refresh token: for valid claims, a
/// pair issued for their subject and device.
pub open spec fn refresh_reports(auth: JwtAuth, r: Result<TokenPair, AuthError>, v: ClaimsVerdict) -> bool {
    match v {
        ClaimsVerdict::Valid(c) => generated(auth, c.sub, c.device_id, r),
        ClaimsVerdict::Malformed => r matches Err(AuthError::MalformedClaims),
        ClaimsVerdict::Expired => r matches Err(AuthError::TokenExpired),
        ClaimsVerdict::WrongKind { expected, got } => r matches Err(
            AuthError::InvalidTokenType { expected: e, got: g },
        ) && e == expected && g == got,
    }
}

/// Whether `r` is the refresh of `token`.
pub open spec fn refreshed(auth: JwtAuth, token: Seq<char>, r: Result<TokenPair, AuthError>) -> bool {
    match jwt_claims(auth.secret(), token) {
        None => r matches Err(AuthError::EncodingError(_)),
        Some(t) => r matches Err(AuthError::ClockUnavailable) || exists|now: u64| #[trigger]
            refresh_reports(auth, r, text_verdict(t, now, TokenType::Refresh)),
    }
}

/// Whether `r` is a freshly issued pair for a user and device: issued at
/// some time, unless the clock could not be read.
pub open spec fn generated(auth: JwtAuth, username: Seq<char>, device_id: Option<Seq<char>>, r: Result<
    TokenPair,
    AuthError,
>) -> bool {
    &&& (r is Err ==> (r matches Err(AuthError::ClockUnavailable)))
    &&& r is Ok ==> exists|now: u64|
        #[trigger] issued(
            r->Ok_0,
            auth.secret(),
            username,
            device_id,
            now,
            auth.access_ttl(),
            auth.refresh_ttl(),
        )
}

impl JwtAuth {
    /// The HMAC secret.
    pub closed spec fn secret(&self) -> Seq<u8> {
        self.secret@
    }

    /// Lifetime of access tokens, in seconds.
    pub closed spec fn access_ttl(&self) -> u64 {
        self.access_token_ttl
    }

    /// Lifetime of refresh tokens, in seconds.
    pub closed spec fn refresh_ttl(&self) -> u64 {
        self.refresh_token_ttl
    }

    /// A token authority for the HMAC secret `secret` (32 bytes or more are
    /// advised); absent lifetimes default to 900 s and 604800 s.
    pub fn new(secret: &[u8], access_token_ttl: Option<u64>, refresh_token_ttl: Option<u64>) -> (r:
        Self)
        ensures
            r.secret() == secret@,
            r.access_ttl() == or_default(access_token_ttl, DEFAULT_ACCESS_TTL),
            r.refresh_ttl() == or_default(refresh_token_ttl, DEFAULT_REFRESH_TTL),
    {
        let mut bytes: Vec<u8> = Vec::new();
        for i in 0..secret.len()
            invariant
                bytes@ == secret@.take(i as int),
        {
            bytes.push(secret[i]);
            assert(secret@.take(i + 1) == secret@.take(i as int).push(secret@[i as int]));
        }
        assert(secret@.take(secret@.len() as int) == secret@);
        JwtAuth {
            secret: bytes,
            access_token_ttl: match access_token_ttl {
                Some(t) => t,
                None => DEFAULT_ACCESS_TTL,
            },
            refresh_token_ttl: match refresh_token_ttl {
                Some(t) => t,
                None => DEFAULT_REFRESH_TTL,
            },
        }
    }

    /// Sign claims into a token.
    fn sign(&self, claims: &Claims) -> (r: Result<String, AuthError>)
        ensures
            r is Ok,
            signed(self.secret(), claims@, r->Ok_0@),
    {
        let text = claims_to_text(claims);
        assert(text@ == claims_text(claims@));
        match sign_payload(self.secret.as_slice(), text.as_str()) {
            Ok(token) => Ok(token),
            Err(e) => Err(AuthError::EncodingError(e)),
        }
    }

    /// Issue an access and a refresh token for `username` (and the device, if
    /// any), both at the current time; fails only where the clock cannot be
    /// read.
    pub fn generate_tokens(&self, username: &str, device_id: Option<&str>) -> (r: Result<
        TokenPair,
        AuthError,
    >)
        ensures
            generated(*self, username@, opt_str_view(device_id), r),
    {
        let now = match unix_now() {
            Some(t) => t,
            None => return Err(AuthError::ClockUnavailable),
        };
        let access = issue_claims(username, device_id, now, self.access_token_ttl, TokenType::Access);
        let refresh = issue_claims(
            username,
            device_id,
            now,
            self.refresh_token_ttl,
            TokenType::Refresh,
        );
        let access_token = match self.sign(&access) {
            Ok(t) => t,
            Err(e) => return Err(e),
        };
        let refresh_token = match self.sign(&refresh) {
            Ok(t) => t,
            Err(e) => return Err(e),
        };
        let r = Ok(TokenPair { access_token, refresh_token, expires_in: self.access_token_ttl });
        assert(issued(
            r->Ok_0,
            self.secret(),
            username@,
            opt_str_view(device_id),
            now,
            self.access_ttl(),
            self.refresh_ttl(),
        ));
        r
    }

    /// Open a token with the token library, then read and check its claims at
    /// the current time for a token of kind `expected`: refused by the
    /// library, expired, wrong kind, or not claims are told apart.
    fn decode_token(&self, token: &str, expected: TokenType) -> (r: Result<Claims, AuthError>)
        ensures
            opened(*self, token@, expected, r),
            r matches Ok(c) ==> c.token_type == expected,
            r matches Err(AuthError::InvalidTokenType { expected: e, got: g }) ==> e == expected
                && g != expected,
    {
        match open_token(self.secret.as_slice(), token) {
            Err(e) => Err(AuthError::EncodingError(e)),
            Ok(text) => {
                let now = match unix_now() {
                    Some(t) => t,
                    None => return Err(AuthError::ClockUnavailable),
                };
                let r = verify_claims_text(text.as_str(), now, expected);
                assert(reports(r, text_verdict(text@, now, expected)));
                r
            },
        }
    }

    /// Verify an access token and return its claims.
    pub fn verify_access_token(&self, token: &str) -> (r: Result<Claims, AuthError>)
        ensures
            opened(*self, token@, TokenType::Access, r),
            r matches Ok(c) ==> c.token_type == TokenType::Access,
            r matches Err(AuthError::InvalidTokenType { expected, got }) ==> expected
                == TokenType::Access && got == TokenType::Refresh,
    {
        self.decode_token(token, TokenType::Access)
    }

    /// Verify a refresh token and issue a fresh pair for the same subject and
    /// device.
    pub fn refresh_tokens(&self, refresh_token: &str) -> (r: Result<TokenPair, AuthError>)
        ensures
            refreshed(*self, refresh_token@, r),
    {
        match open_token(self.secret.as_slice(), refresh_token) {
            Err(e) => Err(AuthError::EncodingError(e)),
            Ok(text) => {
                let now = match unix_now() {
                    Some(t) => t,
                    None => return Err(AuthError::ClockUnavailable),
                };
                let checked = verify_claims_text(text.as_str(), now, TokenType::Refresh);
                let ghost v = text_verdict(text@, now, TokenType::Refresh);
                match checked {
                    Err(e) => {
                        assert(refresh_reports(*self, Err(e), v));
                        Err(e)
                    },
                    Ok(claims) => {
                        let device = match &claims.device_id {
                            Some(d) => Some(d.as_str()),
                            None => None,
                        };
                        assert(opt_str_view(device) == claims@.device_id);
                        let r = self.generate_tokens(claims.sub.as_str(), device);
                        assert(v is Valid);
                        assert(refresh_reports(*self, r, v));
                        r
                    },
                }
            },
        }
    }

    /// Lifetime of access tokens, in seconds.
    pub fn access_token_ttl(&self) -> (r: u64)
        ensures
            r == self.access_ttl(),
    {
        self.access_token_ttl
    }

    /// Lifetime of refresh tokens, in seconds.
    pub fn refresh_token_ttl(&self) -> (r: u64)
        ensures
            r == self.refresh_ttl(),
    {
        self.refresh_token_ttl
    }
}

/// The access token of an issued pair opens to its claims, and before they
/// expire they are accepted as an access token for the user and device the
/// pair was issued for.
pub proof fn lemma_access_token_verifies(
    pair: TokenPair,
    secret: Seq<u8>,
    username: Seq<char>,
    device_id: Option<Seq<char>>,
    now: u64,
    access_ttl: u64,
    refresh_ttl: u64,
    later: u64,
)
    requires
        issued(pair, secret, username, device_id, now, access_ttl, refresh_ttl),
        later < expiry(now, access_ttl),
    ensures
        ({
            let c = token_claims(username, device_id, now, access_ttl, TokenType::Access);
            &&& jwt_claims(secret, pair.access_token@) == Some(claims_text(c))
            &&& text_verdict(claims_text(c), later, TokenType::Access) == ClaimsVerdict::Valid(c)
            &&& c.sub == username
            &&& c.device_id == device_id
            &&& c.token_type == TokenType::Access
            &&& c.iat <= c.exp
        }),
{
    lemma_claims_round_trip(token_claims(username, device_id, now, access_ttl, TokenType::Access));
}

/// The refresh token of an issued pair, presented as an access token before
/// it expires, is refused as the wrong kind; the access token, presented for
/// a refresh before it expires, likewise.
pub proof fn lemma_tokens_keep_their_kind(
    pair: TokenPair,
    secret: Seq<u8>,
    username: Seq<char>,
    device_id: Option<Seq<char>>,
    now: u64,
    access_ttl: u64,
    refresh_ttl: u64,
    later: u64,
)
    requires
        issued(pair, secret, username, device_id, now, access_ttl, refresh_ttl),
    ensures
        later < expiry(now, refresh_ttl) ==> ({
            let c = token_claims(username, device_id, now, refresh_ttl, TokenType::Refresh);
            &&& jwt_claims(secret, pair.refresh_token@) == Some(claims_text(c))
            &&& text_verdict(claims_text(c), later, TokenType::Access) == (ClaimsVerdict::WrongKind {
                expected: TokenType::Access,
                got: TokenType::Refresh,
            })
        }),
        later < expiry(now, access_ttl) ==> ({
            let c = token_claims(username, device_id, now, access_ttl, TokenType::Access);
            &&& jwt_claims(secret, pair.access_token@) == Some(claims_text(c))
            &&& text_verdict(claims_text(c), later, TokenType::Refresh) == (ClaimsVerdict::WrongKind {
                expected: TokenType::Refresh,
                got: TokenType::Access,
            })
        }),
{
    lemma_claims_round_trip(token_claims(username, device_id, now, refresh_ttl, TokenType::Refresh));
    lemma_claims_round_trip(token_claims(username, device_id, now, access_ttl, TokenType::Access));
}

/// Once its expiration time has come, either token of an issued pair is
/// reported as expired, whichever kind is expected.
pub proof fn lemma_tokens_expire(
    pair: TokenPair,
    secret: Seq<u8>,
    username: Seq<char>,
    device_id: Option<Seq<char>>,
    now: u64,
    access_ttl: u64,
    refresh_ttl: u64,
    later: u64,
    expected: TokenType,
)
    requires
        issued(pair, secret, username, device_id, now, access_ttl, refresh_ttl),
    ensures
        later >= expiry(now, access_ttl) ==> text_verdict(
            claims_text(token_claims(username, device_id, now, access_ttl, TokenType::Access)),
            later,
            expected,
        ) == ClaimsVerdict::Expired,
        later >= expiry(now, refresh_ttl) ==> text_verdict(
            claims_text(token_claims(username, device_id, now, refresh_ttl, TokenType::Refresh)),
            later,
            expected,
        ) == ClaimsVerdict::Expired,
{
    lemma_claims_round_trip(token_claims(username, device_id, now, refresh_ttl, TokenType::Refresh));
    lemma_claims_round_trip(token_claims(username, device_id, now, access_ttl, TokenType::Access));
}

/// Refreshing keeps the identity: a refresh token of a pair issued for a
/// user and device, refreshed before it expires, yields a pair issued for
/// the same user and device.
pub proof fn lemma_refresh_keeps_identity(
    auth: JwtAuth,
    pair: TokenPair,
    username: Seq<char>,
    device_id: Option<Seq<char>>,
    now: u64,
    refreshed_at: u64,
    r: Result<TokenPair, AuthError>,
)
    requires
        issued(
            pair,
            auth.secret(),
            username,
            device_id,
            now,
            auth.access_ttl(),
            auth.refresh_ttl(),
        ),
        refreshed_at < expiry(now, auth.refresh_ttl()),
        refresh_reports(
            auth,
            r,
            text_verdict(
                claims_text(
                    token_claims(username, device_id, now, auth.refresh_ttl(), TokenType::Refresh),
                ),
                refreshed_at,
                TokenType::Refresh,
            ),
        ),
    ensures
        jwt_claims(auth.secret(), pair.refresh_token@) == Some(
            claims_text(
                token_claims(username, device_id, now, auth.refresh_ttl(), TokenType::Refresh),
            ),
        ),
        generated(auth, username, device_id, r),
{
    lemma_claims_round_trip(
        token_claims(username, device_id, now, auth.refresh_ttl(), TokenType::Refresh),
    );
}

} // verus!
