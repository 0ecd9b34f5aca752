//! Access tokens: short-lived signed claims, issued at login and checked on
//! every protected request; and the opaque identifiers of refresh tokens.

use crate::clock::{is_clock_reading, unix_now, CLOCK_END};
use vstd::prelude::*;
use vstd::string::{StringExecFns, StringSliceAdditionalSpecFns};

verus! {

/// What an access token says of its bearer.
#[derive(Debug, Clone, PartialEq, Eq)]
pub struct Claims {
    /// The user's identifier.
    pub sub: i32,
    pub username: String,
    /// The second, counted from the Unix epoch, at which the token expires.
    pub exp: usize,
}

/// The claims as mathematical values.
pub struct ClaimsView {
    pub sub: int,
    pub username: Seq<char>,
    pub exp: int,
}

impl View for Claims {
    type V = ClaimsView;

    open spec fn view(&self) -> ClaimsView {
        ClaimsView { sub: self.sub as int, username: self.username@, exp: self.exp as int }
    }
}

/// The three claims as they were found in a token's payload, each absent
/// where the payload has no such member or one of another type.
#[derive(Debug, Clone, PartialEq, Eq)]
pub struct RawClaims {
    pub sub: Option<i64>,
    pub username: Option<String>,
    pub exp: Option<u64>,
}

/// The found claims as mathematical values.
pub struct RawClaimsView {
    pub sub: Option<int>,
    pub username: Option<Seq<char>>,
    pub exp: Option<int>,
}

impl View for RawClaims {
    type V = RawClaimsView;

    open spec fn view(&self) -> RawClaimsView {
        RawClaimsView {
            sub: match self.sub {
                Some(sub) => Some(sub as int),
                None => None,
            },
            username: match self.username {
                Some(name) => Some(name@),
                None => None,
            },
            exp: match self.exp {
                Some(exp) => Some(exp as int),
                None => None,
            },
        }
    }
}

/// Why a token's payload could not be handed out.
#[derive(Debug, Clone, Copy, PartialEq, Eq)]
pub enum DecodeFailure {
    /// The token has the shape of one but its signature is not ours.
    BadSignature,
    /// Anything else: not three parts, not base64, not JSON, another
    /// algorithm, no expiry claim.
    Unreadable,
}

/// Why an access token is refused.
#[derive(Debug, Clone, Copy, PartialEq, Eq)]
pub enum TokenError {
    Malformed,
    SignatureInvalid,
    Expired,
}

/// Why no access token was issued.
#[derive(Debug, Clone, Copy, PartialEq, Eq)]
pub enum IssueError {
    /// The lifetime is zero, or the expiry is not a second the claims can
    /// hold.
    InvalidLifetime,
    /// The signer reported a failure.
    SigningFailed,
}

/// The signing secret was not configured.
#[derive(Debug, Clone, Copy, PartialEq, Eq)]
pub struct MissingSecret;

/// Seconds of clock skew tolerated when no other value is configured.
pub const DEFAULT_LEEWAY_SECS: u64 = 5;

/// The process-wide signing configuration: loaded once, then passed by
/// reference to every issuance and every verification.
pub struct TokenIssuer {
    secret: Vec<u8>,
    leeway_secs: u64,
}

/// The compact HS256 token that the signer makes of these claims under this
/// secret, or `None` where it reports a failure.
pub uninterp spec fn hs256_token(sub: int, username: Seq<char>, exp: int, secret: Seq<u8>) -> Option<Seq<char>>;

/// What the verifier finds in a token under this secret, the expiry claim
/// not compared with any clock.
pub uninterp spec fn hs256_payload(token: Seq<char>, secret: Seq<u8>) -> Result<RawClaimsView, DecodeFailure>;

impl ClaimsView {
    /// The payload in which each claim is present with this value.
    pub open spec fn as_payload(self) -> RawClaimsView {
        RawClaimsView { sub: Some(self.sub), username: Some(self.username), exp: Some(self.exp) }
    }
}

impl RawClaimsView {
    /// The claims that a payload stands for: all three present, the subject
    /// a 32-bit identifier and the expiry a second the claims can hold.
    pub open spec fn claims(self) -> Option<ClaimsView> {
        match (self.sub, self.username, self.exp) {
            (Some(sub), Some(username), Some(exp)) => if i32::MIN <= sub <= i32::MAX && 0 <= exp
                <= usize::MAX {
                Some(ClaimsView { sub, username, exp })
            } else {
                None
            },
            _ => None,
        }
    }
}

/// The view of what the verifier handed out.
pub open spec fn payload_view(payload: Result<RawClaims, DecodeFailure>) -> Result<
    RawClaimsView,
    DecodeFailure,
> {
    match payload {
        Ok(raw) => Ok(raw@),
        Err(failure) => Err(failure),
    }
}

/// The view of a verification's result.
pub open spec fn verdict_view(verdict: Result<Claims, TokenError>) -> Result<ClaimsView, TokenError> {
    match verdict {
        Ok(claims) => Ok(claims@),
        Err(error) => Err(error),
    }
}

/// The expiry of a token issued at `now` for `ttl` seconds: strictly after
/// `now`, and a second that the claims can hold.
pub open spec fn expiry(now: int, ttl: int) -> Option<int> {
    if 0 < ttl && 0 <= now + ttl <= usize::MAX {
        Some(now + ttl)
    } else {
        None
    }
}

/// A token is expired at `now` when its expiry is at or before `now` minus
/// the leeway.
pub open spec fn expired(exp: int, now: int, leeway: int) -> bool {
    exp <= now - leeway
}

/// The rule of verification: a bad signature is `SignatureInvalid`; a
/// payload that cannot be read, or that does not hold the three claims, is
/// `Malformed`; claims whose lifetime is over are `Expired`; all others
/// are handed out.
pub open spec fn verification_outcome(
    payload: Result<RawClaimsView, DecodeFailure>,
    now: int,
    leeway: int,
) -> Result<ClaimsView, TokenError> {
    match payload {
        Err(DecodeFailure::BadSignature) => Err(TokenError::SignatureInvalid),
        Err(DecodeFailure::Unreadable) => Err(TokenError::Malformed),
        Ok(raw) => match raw.claims() {
            None => Err(TokenError::Malformed),
            Some(claims) => if expired(claims.exp, now, leeway) {
                Err(TokenError::Expired)
            } else {
                Ok(claims)
            },
        },
    }
}

/// The rule of issuance at a given second: no token for a lifetime that
/// gives no expiry; else the signer's token for the claims, or
/// `SigningFailed` where the signer has none.
pub open spec fn issuance_outcome(
    sub: int,
    username: Seq<char>,
    ttl: int,
    secret: Seq<u8>,
    now: int,
) -> Result<Seq<char>, IssueError> {
    match expiry(now, ttl) {
        None => Err(IssueError::InvalidLifetime),
        Some(exp) => match hs256_token(sub, username, exp, secret) {
            Some(token) => Ok(token),
            None => Err(IssueError::SigningFailed),
        },
    }
}

/// The view of an issuance's result.
pub open spec fn issued_view(issued: Result<String, IssueError>) -> Result<Seq<char>, IssueError> {
    match issued {
        Ok(token) => Ok(token@),
        Err(error) => Err(error),
    }
}

/// Calls `jsonwebtoken::encode` with the default header (HS256), a JSON
/// object of the three claims under the names `sub`, `username` and `exp`,
/// and the secret as an HMAC key.
///
/// Trusted: the result is a function of the claims and the secret alone;
/// and a token that the signer made is read back by `jsonwebtoken::decode`
/// under the same secret as exactly these claims.
#[verifier::external_body]
fn sign_hs256(claims: &Claims, secret: &[u8]) -> (signed: Result<String, jsonwebtoken::errors::Error>)
    ensures
        match signed {
            Ok(token) => {
                &&& hs256_token(claims@.sub, claims@.username, claims@.exp, secret@) == Some(token@)
                &&& hs256_payload(token@, secret@) == Ok::<RawClaimsView, DecodeFailure>(
                    claims@.as_payload(),
                )
            },
            Err(_) => hs256_token(claims@.sub, claims@.username, claims@.exp, secret@) is None,
        },
{
    let mut payload = serde_json::Map::new();
    payload.insert("sub".to_owned(), claims.sub.into());
    payload.insert("username".to_owned(), claims.username.as_str().into());
    payload.insert("exp".to_owned(), claims.exp.into());
    let key = jsonwebtoken::EncodingKey::from_secret(secret);
    jsonwebtoken::encode(&jsonwebtoken::Header::default(), &payload, &key)
}

/// Calls `jsonwebtoken::decode` for HS256 with the secret as an HMAC key
/// and with the crate's own comparison of `exp` with the system clock
/// switched off, so that the call depends on its arguments alone. The
/// members `sub`, `username` and `exp` of the payload are handed out as
/// `serde_json` reads them: as a signed integer, a string and an unsigned
/// integer.
///
/// Trusted: the result is a function of the token and the secret alone. Of
/// the crate's error kinds only `InvalidSignature` is told apart.
#[verifier::external_body]
fn open_hs256(token: &str, secret: &[u8]) -> (payload: Result<RawClaims, DecodeFailure>)
    ensures
        payload_view(payload) == hs256_payload(token@, secret@),
{
    let mut rules = jsonwebtoken::Validation::new(jsonwebtoken::Algorithm::HS256);
    rules.validate_exp = false;
    let key = jsonwebtoken::DecodingKey::from_secret(secret);
    match jsonwebtoken::decode::<serde_json::Value>(token, &key, &rules) {
        Ok(data) => Ok(RawClaims {
            sub: data.claims.get("sub").and_then(serde_json::Value::as_i64),
            username: data.claims.get("username").and_then(serde_json::Value::as_str).map(str::to_owned),
            exp: data.claims.get("exp").and_then(serde_json::Value::as_u64),
        }),
        Err(error) => match error.kind() {
            jsonwebtoken::errors::ErrorKind::InvalidSignature => Err(DecodeFailure::BadSignature),
            _ => Err(DecodeFailure::Unreadable),
        },
    }
}

#[verifier::external_type_specification]
#[verifier::external_body]
pub struct ExJwtError(jsonwebtoken::errors::Error);

/// Computes the expiry of a token issued at `now` for `ttl_secs` seconds.
pub fn expiry_after(now: i64, ttl_secs: u64) -> (exp: Option<usize>)
    ensures
        match exp {
            Some(exp) => expiry(now as int, ttl_secs as int) == Some(exp as int),
            None => expiry(now as int, ttl_secs as int) is None,
        },
{
    let at: i128 = now as i128 + ttl_secs as i128;
    if ttl_secs == 0 || at < 0 || at > usize::MAX as i128 {
        None
    } else {
        Some(at as usize)
    }
}

impl TokenIssuer {
    /// The signing secret.
    pub closed spec fn secret(&self) -> Seq<u8> {
        self.secret@
    }

    /// The tolerated clock skew, in seconds.
    pub closed spec fn leeway(&self) -> nat {
        self.leeway_secs as nat
    }

    /// An issuer with this secret and this leeway.
    pub fn new(secret: &[u8], leeway_secs: u64) -> (issuer: TokenIssuer)
        ensures
            issuer.secret() == secret@,
            issuer.leeway() == leeway_secs,
    {
        TokenIssuer { secret: vstd::slice::slice_to_vec(secret), leeway_secs }
    }

    /// The issuer for the configured secret, with the default leeway. The
    /// secret is mandatory: without it there is no issuer, and so neither
    /// issuance nor verification.
    pub fn from_config(secret: Option<&str>) -> (issuer: Result<TokenIssuer, MissingSecret>)
        ensures
            match issuer {
                Ok(issuer) => secret matches Some(text) && issuer.secret() == text.spec_bytes()
                    && issuer.leeway() == DEFAULT_LEEWAY_SECS,
                Err(_) => secret is None,
            },
    {
        match secret {
            Some(text) => Ok(TokenIssuer::new(text.as_bytes(), DEFAULT_LEEWAY_SECS)),
            None => Err(MissingSecret),
        }
    }

    /// What verification of `token` gives at the second `now`.
    pub open spec fn verdict(&self, token: Seq<char>, now: int) -> Result<ClaimsView, TokenError> {
        verification_outcome(hs256_payload(token, self.secret()), now, self.leeway() as int)
    }

    /// What issuance gives at the second `now`.
    pub open spec fn issuance(&self, sub: int, username: Seq<char>, ttl: int, now: int) -> Result<
        Seq<char>,
        IssueError,
    > {
        issuance_outcome(sub, username, ttl, self.secret(), now)
    }

    /// `outcome` is what issuance for this user gives at the second `now`:
    /// the rule's result, and where that is a token, one that reads back
    /// as the claims it was made of.
    pub open spec fn issues(
        &self,
        outcome: Result<Seq<char>, IssueError>,
        sub: int,
        username: Seq<char>,
        ttl: int,
        now: int,
    ) -> bool {
        &&& outcome == self.issuance(sub, username, ttl, now)
        &&& outcome matches Ok(token) ==> self.issued(token, sub, username, ttl, now)
    }

    /// `token` is what issuance for this user gave at the second `now`,
    /// and it reads back as the claims it was made of.
    pub open spec fn issued(&self, token: Seq<char>, sub: int, username: Seq<char>, ttl: int, now: int) -> bool {
        &&& self.issuance(sub, username, ttl, now) == Ok::<Seq<char>, IssueError>(token)
        &&& hs256_payload(token, self.secret()) == Ok::<RawClaimsView, DecodeFailure>(
            (ClaimsView { sub, username, exp: now + ttl }).as_payload(),
        )
    }
}

/// The claims that a payload stands for, if it holds all three in range.
pub fn claims_from_payload(raw: RawClaims) -> (claims: Option<Claims>)
    ensures
        match claims {
            Some(claims) => raw@.claims() == Some(claims@),
            None => raw@.claims() is None,
        },
{
    match (raw.sub, raw.username, raw.exp) {
        (Some(sub), Some(username), Some(exp)) => {
            if sub < i32::MIN as i64 || sub > i32::MAX as i64 || exp > usize::MAX as u64 {
                None
            } else {
                Some(Claims { sub: sub as i32, username, exp: exp as usize })
            }
        },
        _ => None,
    }
}

/// Judges what the verifier found in a token, at the second `now` and with
/// `leeway_secs` seconds of tolerated clock skew.
pub fn check_claims(payload: Result<RawClaims, DecodeFailure>, now: i64, leeway_secs: u64) -> (verdict:
    Result<Claims, TokenError>)
    ensures
        verdict_view(verdict) == verification_outcome(
            payload_view(payload),
            now as int,
            leeway_secs as int,
        ),
{
    match payload {
        Err(DecodeFailure::BadSignature) => Err(TokenError::SignatureInvalid),
        Err(DecodeFailure::Unreadable) => Err(TokenError::Malformed),
        Ok(raw) => match claims_from_payload(raw) {
            None => Err(TokenError::Malformed),
            Some(claims) => {
                if claims.exp as i128 <= now as i128 - leeway_secs as i128 {
                    Err(TokenError::Expired)
                } else {
                    Ok(claims)
                }
            },
        },
    }
}

/// Issues an access token for the user, valid for `ttl_secs` seconds from
/// the second `now`.
pub fn create_jwt_at(user_id: i32, username: &str, ttl_secs: u64, issuer: &TokenIssuer, now: i64) -> (issued:
    Result<String, IssueError>)
    ensures
        issuer.issues(issued_view(issued), user_id as int, username@, ttl_secs as int, now as int),
{
    match expiry_after(now, ttl_secs) {
        None => Err(IssueError::InvalidLifetime),
        Some(exp) => {
            let claims = Claims { sub: user_id, username: username.to_owned(), exp };
            match sign_hs256(&claims, issuer.secret.as_slice()) {
                Ok(token) => Ok(token),
                Err(_) => Err(IssueError::SigningFailed),
            }
        },
    }
}

/// Issues an access token for the user, valid for `ttl_secs` seconds from
/// the present reading of the clock.
pub fn create_jwt(user_id: i32, username: &str, ttl_secs: u64, issuer: &TokenIssuer) -> (issued: Result<
    String,
    IssueError,
>)
    ensures
        exists|now: int|
            is_clock_reading(now) && #[trigger] issuer.issues(
                issued_view(issued),
                user_id as int,
                username@,
                ttl_secs as int,
                now,
            ),
        ttl_secs == 0 ==> issued == Err::<String, IssueError>(IssueError::InvalidLifetime),
        0 < ttl_secs <= usize::MAX - CLOCK_END ==> !(issued matches Err(IssueError::InvalidLifetime)),
{
    let now = unix_now();
    let issued = create_jwt_at(user_id, username, ttl_secs, issuer, now);
    assert(is_clock_reading(now as int) && issuer.issues(
        issued_view(issued),
        user_id as int,
        username@,
        ttl_secs as int,
        now as int,
    ));
    issued
}

/// Verifies an access token at the second `now`.
pub fn verify_access_token_at(token: &str, issuer: &TokenIssuer, now: i64) -> (verdict: Result<
    Claims,
    TokenError,
>)
    ensures
        verdict_view(verdict) == issuer.verdict(token@, now as int),
{
    check_claims(open_hs256(token, issuer.secret.as_slice()), now, issuer.leeway_secs)
}

/// Verifies an access token at the present reading of the clock.
pub fn verify_access_token(token: &str, issuer: &TokenIssuer) -> (verdict: Result<Claims, TokenError>)
    ensures
        exists|now: int|
            is_clock_reading(now) && verdict_view(verdict) == #[trigger] issuer.verdict(token@, now),
{
    let now = unix_now();
    let verdict = verify_access_token_at(token, issuer, now);
    assert(is_clock_reading(now as int) && verdict_view(verdict) == issuer.verdict(token@, now as int));
    verdict
}

/// A lower-case hexadecimal digit.
pub open spec fn is_lower_hex(c: char) -> bool {
    ('0' <= c && c <= '9') || ('a' <= c && c <= 'f')
}

/// The text of a random (version 4) UUID in its hyphenated lower-case
/// form: 36 characters, hyphens after the 8th, 12th, 16th and 20th digit,
/// the version digit `4` and a variant digit of `8`, `9`, `a` or `b`.
pub open spec fn is_uuid_text(text: Seq<char>) -> bool {
    &&& text.len() == 36
    &&& forall|i: int|
        0 <= i < 36 ==> if i == 8 || i == 13 || i == 18 || i == 23 {
            text[i] == '-'
        } else {
            is_lower_hex(#[trigger] text[i])
        }
    &&& text[14] == '4'
    &&& (text[19] == '8' || text[19] == '9' || text[19] == 'a' || text[19] == 'b')
}

/// The text of a refresh token: two random UUIDs, one after the other.
pub open spec fn is_refresh_token_text(text: Seq<char>) -> bool {
    &&& text.len() == 72
    &&& is_uuid_text(text.subrange(0, 36))
    &&& is_uuid_text(text.subrange(36, 72))
}

/// Calls `uuid::Uuid::new_v4` and formats the result with `to_string`.
///
/// Trusted: the shape of the text, which the `uuid` crate documents. The
/// 122 other bits are random: nothing is claimed of them, and two calls are
/// not claimed to differ.
#[verifier::external_body]
fn random_uuid() -> (text: String)
    ensures
        is_uuid_text(text@),
{
    uuid::Uuid::new_v4().to_string()
}

/// A new refresh token: an opaque random identifier that carries no claims
/// and is validated by store lookup alone. It is made of two random UUIDs,
/// drawn one after the other, and so of 244 random bits.
pub fn generate_refresh_token() -> (token: String)
    ensures
        is_refresh_token_text(token@),
{
    let first = random_uuid();
    let second = random_uuid();
    let ghost head = first@;
    let ghost tail = second@;
    let token = first.concat(second.as_str());
    assert(token@.subrange(0, 36) =~= head);
    assert(token@.subrange(36, 72) =~= tail);
    token
}

/// A token verified within its lifetime gives back the claims it was
/// issued with: the same subject and user name, and an expiry after the
/// second of issuance and no more than the lifetime away from it.
pub proof fn lemma_issued_token_verifies(
    issuer: TokenIssuer,
    token: Seq<char>,
    sub: int,
    username: Seq<char>,
    ttl: int,
    issued_at: int,
    checked_at: int,
)
    requires
        i32::MIN <= sub <= i32::MAX,
        issuer.issued(token, sub, username, ttl, issued_at),
        issued_at <= checked_at < issued_at + ttl,
    ensures
        issuer.verdict(token, checked_at) matches Ok(claims) && claims.sub == sub && claims.username
            == username && issued_at < claims.exp <= issued_at + ttl,
{
}

/// A genuine, well-formed token whose expiry is at or before the second of
/// verification minus the leeway is refused as `Expired`.
pub proof fn lemma_expired_token_is_refused(issuer: TokenIssuer, token: Seq<char>, now: int)
    requires
        hs256_payload(token, issuer.secret()) matches Ok(raw) && raw.claims() matches Some(claims)
            && claims.exp <= now - issuer.leeway(),
    ensures
        issuer.verdict(token, now) == Err::<ClaimsView, TokenError>(TokenError::Expired),
{
}

/// An issued token is refused as `Expired` from the second at which its
/// lifetime and the leeway are both over.
pub proof fn lemma_issued_token_expires(
    issuer: TokenIssuer,
    token: Seq<char>,
    sub: int,
    username: Seq<char>,
    ttl: int,
    issued_at: int,
    checked_at: int,
)
    requires
        i32::MIN <= sub <= i32::MAX,
        issuer.issued(token, sub, username, ttl, issued_at),
        issued_at + ttl + issuer.leeway() <= checked_at,
    ensures
        issuer.verdict(token, checked_at) == Err::<ClaimsView, TokenError>(TokenError::Expired),
{
}

} // verus!
