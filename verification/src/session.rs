//! The session lifecycle: registration, login and refresh, each as the
//! decision that stands between reading the store and writing to it.

use crate::clock::{is_clock_reading, unix_now};
use crate::error::{AppError, AuthFailure, DatabaseFailure};
use crate::models::{AuthResponse, LoginSchema, RegisterSchema, User};
use crate::password::{
    argon2_accepts, hash_password, hashed_view, hashing_outcome, is_hashable, is_salt_text,
    verify_password, HashingFailed,
};
use crate::store::{
    session_expiry, session_expiry_after, RedeemError, Redemption, RefreshToken, RefreshTokenView,
    RotationPolicy,
};
use crate::token::{create_jwt_at, generate_refresh_token, is_refresh_token_text, TokenIssuer};
use vstd::prelude::*;

verus! {

/// Lifetime of an access token where nothing else is configured: fifteen
/// minutes.
pub const ACCESS_TTL_SECS: u64 = 900;

/// Lifetime of a refresh token where nothing else is configured: seven
/// days.
pub const REFRESH_TTL_SECS: u64 = 604800;

/// How long sessions last and what redeeming a refresh token does to it.
#[derive(Debug, Clone, Copy, PartialEq, Eq)]
pub struct SessionConfig {
    pub access_ttl_secs: u64,
    pub refresh_ttl_secs: u64,
    pub rotation: RotationPolicy,
}

/// A user to be inserted into the store: the name and the encoded hash of
/// the password, never the password.
#[derive(Debug, Clone, PartialEq, Eq)]
pub struct NewUser {
    pub username: String,
    pub password_hash: String,
}

/// A granted login: the response for the caller and the refresh token to
/// be persisted.
#[derive(Debug, Clone, PartialEq, Eq)]
pub struct LoginGrant {
    pub response: AuthResponse,
    pub session: RefreshToken,
}

impl SessionConfig {
    /// Short access tokens, week-long refresh tokens, and rotation of the
    /// refresh token on every redemption.
    pub fn standard() -> (config: SessionConfig)
        ensures
            config == (SessionConfig {
                access_ttl_secs: ACCESS_TTL_SECS,
                refresh_ttl_secs: REFRESH_TTL_SECS,
                rotation: RotationPolicy::Rotating,
            }),
    {
        SessionConfig {
            access_ttl_secs: ACCESS_TTL_SECS,
            refresh_ttl_secs: REFRESH_TTL_SECS,
            rotation: RotationPolicy::Rotating,
        }
    }
}

/// `registered` is what registration answers where hashing gave `hashed`:
/// the user to insert, with the name asked for and the hash; or an
/// internal error where the hasher failed.
pub open spec fn registers(
    registered: Result<NewUser, AppError>,
    username: Seq<char>,
    hashed: Result<Seq<char>, HashingFailed>,
) -> bool {
    match hashed {
        Ok(hash) => registered matches Ok(user) && user.username@ == username && user.password_hash@
            == hash,
        Err(_) => registered == Err::<NewUser, AppError>(AppError::Internal),
    }
}

/// Prepares a registration: hashes the password under a fresh salt. Every
/// password within the hasher's length limit is registered, and the stored
/// hash verifies against the password.
pub fn register(payload: &RegisterSchema) -> (registered: Result<NewUser, AppError>)
    ensures
        exists|salt: Seq<char>|
            is_salt_text(salt) && registers(
                registered,
                payload.username@,
                #[trigger] hashing_outcome(payload.password@, salt),
            ),
        registered matches Ok(user) ==> argon2_accepts(payload.password@, user.password_hash@),
        is_hashable(payload.password@) ==> registered is Ok,
{
    let hashed = hash_password(payload.password.as_str());
    proof {
        let salt = choose|salt: Seq<char>|
            is_salt_text(salt) && hashed_view(hashed) == #[trigger] hashing_outcome(
                payload.password@,
                salt,
            );
        assert(is_salt_text(salt) && hashed_view(hashed) == hashing_outcome(payload.password@, salt));
    }
    match hashed {
        Ok(password_hash) => Ok(NewUser { username: payload.username.clone(), password_hash }),
        Err(_) => Err(AppError::Internal),
    }
}

/// The rule of login at the second `now`: an unknown user and a wrong
/// password are refused alike, as invalid credentials; a lifetime that
/// gives no expiry, or a failure of the signer, is an internal error;
/// otherwise the access token is granted.
pub open spec fn login_verdict(
    user: Option<User>,
    password: Seq<char>,
    issuer: TokenIssuer,
    config: SessionConfig,
    now: int,
) -> Result<Seq<char>, AppError> {
    match user {
        None => Err(AppError::Auth(AuthFailure::InvalidCredentials)),
        Some(user) => if !argon2_accepts(password, user.password_hash@) {
            Err(AppError::Auth(AuthFailure::InvalidCredentials))
        } else {
            match (
                session_expiry(now, config.refresh_ttl_secs as int),
                issuer.issuance(user.id as int, user.username@, config.access_ttl_secs as int, now),
            ) {
                (Some(_), Ok(token)) => Ok(token),
                _ => Err(AppError::Internal),
            }
        },
    }
}

/// `granted` is what login answers under the rule: on success the access
/// token, which reads back as the user's claims, the refresh token and the
/// user's name for the caller, and the refresh token bound to the user
/// for the store; on failure the rule's error.
pub open spec fn grants(
    granted: Result<LoginGrant, AppError>,
    user: Option<User>,
    password: Seq<char>,
    issuer: TokenIssuer,
    config: SessionConfig,
    now: int,
    refresh_token: Seq<char>,
) -> bool {
    match login_verdict(user, password, issuer, config, now) {
        Ok(token) => {
            &&& granted matches Ok(grant)
            &&& user matches Some(user)
            &&& grant.response.token@ == token
            &&& issuer.issued(token, user.id as int, user.username@, config.access_ttl_secs as int, now)
            &&& grant.response.refresh_token matches Some(text)
            &&& text@ == refresh_token
            &&& grant.response.username@ == user.username@
            &&& grant.session@ == RefreshTokenView {
                token: refresh_token,
                user_id: user.id as int,
                username: user.username@,
                expires_at: now + config.refresh_ttl_secs,
            }
        },
        Err(error) => granted == Err::<LoginGrant, AppError>(error),
    }
}

/// The user that the store found, as a value.
pub open spec fn user_view(user: Option<&User>) -> Option<User> {
    match user {
        Some(user) => Some(*user),
        None => None,
    }
}

/// Decides a login at the second `now`, for the user that the store found
/// under the name in the request, with `refresh_token` as the new refresh
/// token.
pub fn login_at(
    user: Option<&User>,
    payload: &LoginSchema,
    issuer: &TokenIssuer,
    config: &SessionConfig,
    now: i64,
    refresh_token: String,
) -> (granted: Result<LoginGrant, AppError>)
    ensures
        grants(granted, user_view(user), payload.password@, *issuer, *config, now as int, refresh_token@),
{
    let user = match user {
        Some(user) => user,
        None => {
            return Err(AppError::Auth(AuthFailure::InvalidCredentials));
        },
    };
    if !verify_password(payload.password.as_str(), user.password_hash.as_str()) {
        return Err(AppError::Auth(AuthFailure::InvalidCredentials));
    }
    let expires_at = match session_expiry_after(now, config.refresh_ttl_secs) {
        Some(at) => at,
        None => {
            return Err(AppError::Internal);
        },
    };
    let token = match create_jwt_at(user.id, user.username.as_str(), config.access_ttl_secs, issuer, now) {
        Ok(token) => token,
        Err(_) => {
            return Err(AppError::Internal);
        },
    };
    let session = RefreshToken {
        token: refresh_token.clone(),
        user_id: user.id,
        username: user.username.clone(),
        expires_at,
    };
    Ok(
        LoginGrant {
            response: AuthResponse {
                token,
                refresh_token: Some(refresh_token),
                username: user.username.clone(),
            },
            session,
        },
    )
}

/// Decides a login at the present reading of the clock, with a newly
/// generated refresh token.
pub fn login(user: Option<&User>, payload: &LoginSchema, issuer: &TokenIssuer, config: &SessionConfig) -> (granted:
    Result<LoginGrant, AppError>)
    ensures
        exists|now: int, refresh_token: Seq<char>|
            is_clock_reading(now) && is_refresh_token_text(refresh_token) && #[trigger] grants(
                granted,
                user_view(user),
                payload.password@,
                *issuer,
                *config,
                now,
                refresh_token,
            ),
{
    let now = unix_now();
    let refresh_token = generate_refresh_token();
    let ghost text = refresh_token@;
    let granted = login_at(user, payload, issuer, config, now, refresh_token);
    assert(is_clock_reading(now as int) && is_refresh_token_text(text) && grants(
        granted,
        user_view(user),
        payload.password@,
        *issuer,
        *config,
        now as int,
        text,
    ));
    granted
}

/// What the caller is told when a refresh token does not redeem.
pub open spec fn redeem_refusal(error: RedeemError) -> AppError {
    match error {
        RedeemError::NotFound => AppError::Auth(AuthFailure::SessionNotFound),
        RedeemError::Expired => AppError::Auth(AuthFailure::SessionExpired),
        RedeemError::InvalidLifetime => AppError::Internal,
        RedeemError::Conflict => AppError::Database(DatabaseFailure::UniqueViolation),
    }
}

/// The rule of refresh at the second `now`, after the store has answered:
/// a token that did not redeem is refused; for one that did, a new access
/// token is issued for its owner, and a failure to issue is an internal
/// error.
pub open spec fn refresh_verdict(
    redeemed: Result<Redemption, RedeemError>,
    issuer: TokenIssuer,
    config: SessionConfig,
    now: int,
) -> Result<Seq<char>, AppError> {
    match redeemed {
        Err(error) => Err(redeem_refusal(error)),
        Ok(plan) => match issuer.issuance(
            plan.user.id as int,
            plan.user.username@,
            config.access_ttl_secs as int,
            now,
        ) {
            Ok(token) => Ok(token),
            Err(_) => Err(AppError::Internal),
        },
    }
}

/// `refreshed` is what refresh answers under the rule: on success a new
/// access token that reads back as the claims of the token's owner,
/// together with the refresh token to present next time and the owner's
/// name; on failure the rule's error.
pub open spec fn refreshes(
    refreshed: Result<AuthResponse, AppError>,
    redeemed: Result<Redemption, RedeemError>,
    issuer: TokenIssuer,
    config: SessionConfig,
    now: int,
) -> bool {
    match refresh_verdict(redeemed, issuer, config, now) {
        Ok(token) => {
            &&& refreshed matches Ok(response)
            &&& redeemed matches Ok(plan)
            &&& response.token@ == token
            &&& issuer.issued(
                token,
                plan.user.id as int,
                plan.user.username@,
                config.access_ttl_secs as int,
                now,
            )
            &&& response.refresh_token matches Some(text)
            &&& text@ == plan.refresh_token@
            &&& response.username@ == plan.user.username@
        },
        Err(error) => refreshed == Err::<AuthResponse, AppError>(error),
    }
}

/// Answers a refresh at the second `now`, after the store has redeemed the
/// refresh token or refused it.
pub fn refresh_at(
    redeemed: Result<Redemption, RedeemError>,
    issuer: &TokenIssuer,
    config: &SessionConfig,
    now: i64,
) -> (refreshed: Result<AuthResponse, AppError>)
    ensures
        refreshes(refreshed, redeemed, *issuer, *config, now as int),
{
    let plan = match redeemed {
        Ok(plan) => plan,
        Err(RedeemError::NotFound) => {
            return Err(AppError::Auth(AuthFailure::SessionNotFound));
        },
        Err(RedeemError::Expired) => {
            return Err(AppError::Auth(AuthFailure::SessionExpired));
        },
        Err(RedeemError::InvalidLifetime) => {
            return Err(AppError::Internal);
        },
        Err(RedeemError::Conflict) => {
            return Err(AppError::Database(DatabaseFailure::UniqueViolation));
        },
    };
    match create_jwt_at(plan.user.id, plan.user.username.as_str(), config.access_ttl_secs, issuer, now) {
        Ok(token) => Ok(
            AuthResponse {
                token,
                refresh_token: Some(plan.refresh_token),
                username: plan.user.username,
            },
        ),
        Err(_) => Err(AppError::Internal),
    }
}

/// A login for an unknown user, or with a password that the hasher does
/// not accept for the stored hash, is refused as invalid credentials, at
/// every second and under every configuration, and nothing is granted:
/// neither an access token nor a refresh token.
pub proof fn lemma_wrong_credentials_grant_nothing(
    granted: Result<LoginGrant, AppError>,
    user: Option<User>,
    password: Seq<char>,
    issuer: TokenIssuer,
    config: SessionConfig,
    now: int,
    refresh_token: Seq<char>,
)
    requires
        user matches Some(found) ==> !argon2_accepts(password, found.password_hash@),
        grants(granted, user, password, issuer, config, now, refresh_token),
    ensures
        granted == Err::<LoginGrant, AppError>(AppError::Auth(AuthFailure::InvalidCredentials)),
        AppError::Auth(AuthFailure::InvalidCredentials).status() == crate::error::STATUS_UNAUTHORIZED,
{
}

} // verus!
