//! The request gate: turns the authorization header of a request into an
//! authenticated identity before any protected operation runs.

use crate::clock::{is_clock_reading, unix_now};
use crate::error::{AppError, AuthFailure};
use crate::token::{
    hs256_payload, verify_access_token_at, Claims, ClaimsView, TokenError, TokenIssuer,
};
use vstd::prelude::*;
use vstd::string::StrSliceExecFns;

verus! {

/// The authenticated caller of a protected operation.
#[derive(Debug, Clone, PartialEq, Eq)]
pub struct AuthUser {
    pub id: i32,
    pub username: String,
}

/// The caller of an operation that is open to everyone: either an
/// authenticated user or nobody. "Nobody" is a variant of its own and
/// never an identifier.
#[derive(Debug, Clone, PartialEq, Eq)]
pub enum AuthenticatedIdentity {
    Authenticated { id: i32, username: String },
    Anonymous,
}

/// An identity as mathematical values.
pub struct IdentityView {
    pub id: int,
    pub username: Seq<char>,
}

impl View for AuthUser {
    type V = IdentityView;

    open spec fn view(&self) -> IdentityView {
        IdentityView { id: self.id as int, username: self.username@ }
    }
}

impl View for AuthenticatedIdentity {
    type V = Option<IdentityView>;

    open spec fn view(&self) -> Option<IdentityView> {
        match self {
            AuthenticatedIdentity::Authenticated { id, username } => Some(
                IdentityView { id: *id as int, username: username@ },
            ),
            AuthenticatedIdentity::Anonymous => None,
        }
    }
}

/// A character that a header value may hold as text: a printable ASCII
/// character, a space or a tab.
pub open spec fn is_visible(c: char) -> bool {
    (' ' <= c && c <= '~') || c == '\t'
}

/// A space or a tab.
pub open spec fn is_blank(c: char) -> bool {
    c == ' ' || c == '\t'
}

/// The header value begins with the scheme `Bearer`, in any mix of upper
/// and lower case, followed by a space.
pub open spec fn has_bearer_scheme(value: Seq<char>) -> bool {
    &&& value.len() > 6
    &&& (value[0] == 'B' || value[0] == 'b')
    &&& (value[1] == 'E' || value[1] == 'e')
    &&& (value[2] == 'A' || value[2] == 'a')
    &&& (value[3] == 'R' || value[3] == 'r')
    &&& (value[4] == 'E' || value[4] == 'e')
    &&& (value[5] == 'R' || value[5] == 'r')
    &&& value[6] == ' '
}

/// The text without its leading spaces and tabs.
pub open spec fn skip_blanks(text: Seq<char>) -> Seq<char>
    decreases text.len(),
{
    if text.len() > 0 && is_blank(text[0]) {
        skip_blanks(text.skip(1))
    } else {
        text
    }
}

/// The bearer credential of an `Authorization` header value: what follows
/// the scheme and the blanks after it, where the value has the bearer
/// scheme and holds visible characters only. This is the reading that the
/// `headers` crate gives of such a value.
pub open spec fn bearer_credential(value: Seq<char>) -> Option<Seq<char>> {
    if has_bearer_scheme(value) && (forall|i: int| 0 <= i < value.len() ==> is_visible(#[trigger] value[i])) {
        Some(skip_blanks(value.skip(7)))
    } else {
        None
    }
}

/// Skipping blanks drops exactly the leading run of blanks.
proof fn lemma_skip_blanks(text: Seq<char>, k: int)
    requires
        0 <= k <= text.len(),
        forall|i: int| 0 <= i < k ==> is_blank(#[trigger] text[i]),
        k < text.len() ==> !is_blank(text[k]),
    ensures
        skip_blanks(text) == text.skip(k),
    decreases k,
{
    if k == 0 {
        assert(text.skip(0) =~= text);
    } else {
        let rest = text.skip(1);
        assert forall|i: int| 0 <= i < k - 1 implies is_blank(#[trigger] rest[i]) by {
            assert(rest[i] == text[i + 1]);
        }
        lemma_skip_blanks(rest, k - 1);
        assert(rest.skip(k - 1) =~= text.skip(k));
    }
}

/// Reads the bearer credential out of an `Authorization` header value.
pub fn bearer_token(value: &str) -> (credential: Option<&str>)
    ensures
        match credential {
            Some(text) => bearer_credential(value@) == Some(text@),
            None => bearer_credential(value@) is None,
        },
{
    if !value.is_ascii() {
        return None;
    }
    let n = value.unicode_len();
    let mut i: usize = 0;
    while i < n
        invariant
            value.is_ascii(),
            n == value@.len(),
            i <= n,
            forall|k: int| 0 <= k < i ==> is_visible(#[trigger] value@[k]),
        decreases n - i,
    {
        let b = value.get_ascii(i);
        if !((32 <= b && b < 127) || b == 9) {
            assert(!is_visible(value@[i as int]));
            return None;
        }
        i += 1;
    }
    if n <= 6 {
        return None;
    }
    let b0 = value.get_ascii(0);
    let b1 = value.get_ascii(1);
    let b2 = value.get_ascii(2);
    let b3 = value.get_ascii(3);
    let b4 = value.get_ascii(4);
    let b5 = value.get_ascii(5);
    let b6 = value.get_ascii(6);
    let scheme = (b0 == 66 || b0 == 98) && (b1 == 69 || b1 == 101) && (b2 == 65 || b2 == 97) && (b3 == 82
        || b3 == 114) && (b4 == 69 || b4 == 101) && (b5 == 82 || b5 == 114) && b6 == 32;
    if !scheme {
        return None;
    }
    let mut start: usize = 7;
    while start < n && is_blank_byte(value.get_ascii(start))
        invariant
            value.is_ascii(),
            n == value@.len(),
            7 <= start <= n,
            forall|k: int| 7 <= k < start ==> is_blank(#[trigger] value@[k]),
        decreases n - start,
    {
        start += 1;
    }
    let text = value.substring_ascii(start, n);
    proof {
        let rest = value@.skip(7);
        assert forall|k: int| 0 <= k < start - 7 implies is_blank(#[trigger] rest[k]) by {
            assert(rest[k] == value@[k + 7]);
        }
        lemma_skip_blanks(rest, start - 7);
        assert(rest.skip(start - 7) =~= value@.subrange(start as int, n as int));
    }
    Some(text)
}

/// Whether a byte of ASCII text is a space or a tab.
fn is_blank_byte(b: u8) -> (blank: bool)
    ensures
        blank == (b == 32 || b == 9),
{
    b == 32 || b == 9
}

/// The reason a refused access token gives the caller: `Expired` for a
/// genuine token whose lifetime is over, `Invalid` for every other refusal.
pub open spec fn refusal(error: TokenError) -> AuthFailure {
    match error {
        TokenError::Expired => AuthFailure::Expired,
        _ => AuthFailure::Invalid,
    }
}

/// The rule of admission at the second `now`: without a header, or with one
/// that holds no bearer credential, the caller is refused for a missing or
/// malformed credential; with a credential, the verdict on the access token
/// decides.
pub open spec fn gate_outcome(authorization: Option<Seq<char>>, issuer: TokenIssuer, now: int) -> Result<
    IdentityView,
    AuthFailure,
> {
    match authorization {
        None => Err(AuthFailure::MissingOrMalformedCredential),
        Some(value) => match bearer_credential(value) {
            None => Err(AuthFailure::MissingOrMalformedCredential),
            Some(token) => match issuer.verdict(token, now) {
                Ok(claims) => Ok(identity_of(claims)),
                Err(error) => Err(refusal(error)),
            },
        },
    }
}

/// The identity that claims stand for.
pub open spec fn identity_of(claims: ClaimsView) -> IdentityView {
    IdentityView { id: claims.sub, username: claims.username }
}

/// The view of a header value that may be absent.
pub open spec fn header_view(authorization: Option<&str>) -> Option<Seq<char>> {
    match authorization {
        Some(value) => Some(value@),
        None => None,
    }
}

/// `admitted` is what the required gate answers where its rule gives
/// `outcome`.
pub open spec fn admits(admitted: Result<AuthUser, AppError>, outcome: Result<IdentityView, AuthFailure>) -> bool {
    match outcome {
        Ok(identity) => admitted matches Ok(user) && user@ == identity,
        Err(reason) => admitted == Err::<AuthUser, AppError>(AppError::Auth(reason)),
    }
}

/// `identity` is what the optional gate answers where the rule gives
/// `outcome`: the user where there is one, and nobody on every refusal.
pub open spec fn welcomes(identity: AuthenticatedIdentity, outcome: Result<IdentityView, AuthFailure>) -> bool {
    match outcome {
        Ok(user) => identity@ == Some(user),
        Err(_) => identity@ is None,
    }
}

impl AuthUser {
    /// The user that verified claims speak of.
    pub fn from_claims(claims: Claims) -> (user: AuthUser)
        ensures
            user@ == identity_of(claims@),
    {
        AuthUser { id: claims.sub, username: claims.username }
    }

    /// What a request is answered for a verdict on the access token.
    pub fn from_verdict(verdict: Result<Claims, TokenError>) -> (admitted: Result<AuthUser, AppError>)
        ensures
            match verdict {
                Ok(claims) => admitted matches Ok(user) && user@ == identity_of(claims@),
                Err(error) => admitted == Err::<AuthUser, AppError>(AppError::Auth(refusal(error))),
            },
    {
        match verdict {
            Ok(claims) => Ok(AuthUser::from_claims(claims)),
            Err(TokenError::Expired) => Err(AppError::Auth(AuthFailure::Expired)),
            Err(_) => Err(AppError::Auth(AuthFailure::Invalid)),
        }
    }

    /// The required gate at the second `now`: the authenticated user, or
    /// the reason the request is refused.
    pub fn from_request_parts_at(authorization: Option<&str>, issuer: &TokenIssuer, now: i64) -> (admitted:
        Result<AuthUser, AppError>)
        ensures
            admits(admitted, gate_outcome(header_view(authorization), *issuer, now as int)),
            admitted matches Err(error) ==> error is Auth,
    {
        let value = match authorization {
            Some(value) => value,
            None => {
                return Err(AppError::Auth(AuthFailure::MissingOrMalformedCredential));
            },
        };
        match bearer_token(value) {
            None => Err(AppError::Auth(AuthFailure::MissingOrMalformedCredential)),
            Some(token) => AuthUser::from_verdict(verify_access_token_at(token, issuer, now)),
        }
    }

    /// The required gate at the present reading of the clock.
    pub fn from_request_parts(authorization: Option<&str>, issuer: &TokenIssuer) -> (admitted: Result<
        AuthUser,
        AppError,
    >)
        ensures
            exists|now: int|
                is_clock_reading(now) && admits(
                    admitted,
                    #[trigger] gate_outcome(header_view(authorization), *issuer, now),
                ),
            admitted matches Err(error) ==> error is Auth,
    {
        let now = unix_now();
        let admitted = AuthUser::from_request_parts_at(authorization, issuer, now);
        assert(is_clock_reading(now as int) && admits(
            admitted,
            gate_outcome(header_view(authorization), *issuer, now as int),
        ));
        admitted
    }
}

impl AuthenticatedIdentity {
    /// The optional gate at the second `now`. It never refuses: a request
    /// without a credential, or with one that is invalid or expired, is
    /// anonymous.
    pub fn from_request_parts_at(authorization: Option<&str>, issuer: &TokenIssuer, now: i64) -> (identity:
        AuthenticatedIdentity)
        ensures
            welcomes(identity, gate_outcome(header_view(authorization), *issuer, now as int)),
    {
        match AuthUser::from_request_parts_at(authorization, issuer, now) {
            Ok(user) => AuthenticatedIdentity::Authenticated { id: user.id, username: user.username },
            Err(_) => AuthenticatedIdentity::Anonymous,
        }
    }

    /// The optional gate at the present reading of the clock.
    pub fn from_request_parts(authorization: Option<&str>, issuer: &TokenIssuer) -> (identity:
        AuthenticatedIdentity)
        ensures
            exists|now: int|
                is_clock_reading(now) && welcomes(
                    identity,
                    #[trigger] gate_outcome(header_view(authorization), *issuer, now),
                ),
    {
        let now = unix_now();
        let identity = AuthenticatedIdentity::from_request_parts_at(authorization, issuer, now);
        assert(is_clock_reading(now as int) && welcomes(
            identity,
            gate_outcome(header_view(authorization), *issuer, now as int),
        ));
        identity
    }
}

/// A bearer of a token that the verifier does not hand out under the
/// configured secret, as it does not where the token was signed under
/// another key, is refused as `Invalid`, at every second, and never
/// admitted.
pub proof fn lemma_unreadable_token_is_invalid(header: Seq<char>, token: Seq<char>, issuer: TokenIssuer, now: int)
    requires
        bearer_credential(header) == Some(token),
        hs256_payload(token, issuer.secret()) is Err,
    ensures
        gate_outcome(Some(header), issuer, now) == Err::<IdentityView, AuthFailure>(AuthFailure::Invalid),
{
}

} // verus!
